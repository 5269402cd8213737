//! The frame pipeline model: dispatch sizing, buffer sizing across resizes,
//! binding freshness, the recorded command order, error classification and
//! pacing.
use compute_raster::camera::{Camera, Vec3Bits, ONE_BITS};
use compute_raster::pacing::{pace, FrameCounter, PaceAction};
use compute_raster::state::line::{draw_lines_command, line_vertices, NEG_ONE_BITS};
use compute_raster::state::present_pass::{PresentBindings, PresentPass};
use compute_raster::state::raster_pass::{ClearPass, RasterBindings, RasterPass};
use compute_raster::state::util::{
    create_color_buffer, dispatch_size, FrameCmd, SlotRole, Stage, Uniform, Vertex,
    WORKGROUP_SIZE,
};
use compute_raster::state::{surface_error_action, FrameAction, State, SurfaceError};

fn test_camera() -> Camera {
    Camera::new(
        1.5f32.to_bits(),
        0.5f32.to_bits(),
        1.25f32.to_bits(),
        Vec3Bits { x: 0, y: 0, z: 0 },
        1.0f32.to_bits(),
    )
}

fn test_eye() -> Vec3Bits {
    Vec3Bits {
        x: 1.0f32.to_bits(),
        y: 0.5f32.to_bits(),
        z: 0.25f32.to_bits(),
    }
}

fn test_state(width: u32, height: u32, vertex_count: u32) -> State {
    State::new(width, height, test_camera(), vertex_count, test_eye(), [ONE_BITS; 16])
}

#[test]
fn dispatch_size_is_ceiling_division() {
    assert_eq!(dispatch_size(0), 0);
    assert_eq!(dispatch_size(1), 1);
    assert_eq!(dispatch_size(255), 1);
    assert_eq!(dispatch_size(256), 1);
    assert_eq!(dispatch_size(257), 2);
    assert_eq!(dispatch_size(512), 2);
    assert_eq!(dispatch_size(1280 * 720), 3600);
    assert_eq!(dispatch_size(u32::MAX - 255), 16_777_215);
    for len in (0u32..10_000).step_by(37) {
        let groups = dispatch_size(len);
        assert!(groups as u64 * WORKGROUP_SIZE as u64 >= len as u64, "len {len}");
        assert!(
            (groups as i64 - 1) * (WORKGROUP_SIZE as i64) < (len as i64),
            "len {len}"
        );
    }
}

#[test]
fn initial_color_buffer_has_the_exact_size() {
    let state = test_state(1280, 720, 36);
    assert_eq!(state.output_buffer.size_bytes(), 11_059_200);
    assert_eq!(state.width, 1280);
    assert_eq!(state.height, 720);
    let eye = test_eye();
    assert_eq!(state.camera_uniform.view_position, [eye.x, eye.y, eye.z, ONE_BITS]);
    assert_eq!(state.camera_uniform.view_proj, [ONE_BITS; 16]);
}

#[test]
fn update_mirrors_the_camera_derived_view() {
    let mut state = test_state(4, 4, 3);
    let eye = Vec3Bits {
        x: 2.0f32.to_bits(),
        y: 3.0f32.to_bits(),
        z: (-4.0f32).to_bits(),
    };
    let view_proj = [0.5f32.to_bits(); 16];
    state.update(eye, view_proj);
    assert_eq!(state.camera_uniform.view_position, [eye.x, eye.y, eye.z, 1.0f32.to_bits()]);
    assert_eq!(state.camera_uniform.view_proj, view_proj);
}

#[test]
fn resize_reallocates_to_the_exact_size_and_refreshes_bindings() {
    let mut state = test_state(1280, 720, 36);
    let old_id = state.output_buffer.id;
    state.resize(640, 360);
    assert_eq!(state.output_buffer.size_bytes(), 2_764_800);
    assert_ne!(state.output_buffer.id, old_id);
    let cmds = state.render();
    for cmd in cmds.iter() {
        match cmd {
            FrameCmd::SetBindGroup { buffer, .. } => assert_ne!(*buffer, old_id),
            FrameCmd::ExecuteBundle { camera_uniform, .. } => assert_ne!(*camera_uniform, old_id),
            _ => {}
        }
    }
}

#[test]
fn resize_twice_with_the_same_extent_is_idempotent() {
    let mut state = test_state(1280, 720, 36);
    state.update(test_eye(), [ONE_BITS; 16]);
    let uniform_before = state.camera_uniform;
    state.resize(640, 360);
    let first_size = state.output_buffer.size_bytes();
    state.resize(640, 360);
    assert_eq!(state.output_buffer.size_bytes(), first_size);
    assert_eq!(state.width, 640);
    assert_eq!(state.height, 360);
    assert_eq!(state.camera_uniform.view_position, uniform_before.view_position);
    assert_eq!(state.camera_uniform.view_proj, uniform_before.view_proj);
}

#[test]
fn a_frame_records_clear_then_raster_then_present_then_overlay() {
    let state = test_state(4, 4, 3);
    let cmds = state.render();
    let b = &state;
    let expected = vec![
        FrameCmd::BeginComputePass,
        FrameCmd::SetComputePipeline { stage: Stage::Clear },
        FrameCmd::SetBindGroup { slot: 0, buffer: b.output_buffer.id },
        FrameCmd::Dispatch { groups: 1 },
        FrameCmd::SetComputePipeline { stage: Stage::Raster },
        FrameCmd::SetBindGroup { slot: 0, buffer: b.output_buffer.id },
        FrameCmd::SetBindGroup { slot: 1, buffer: b.vertex_buffer },
        FrameCmd::SetBindGroup { slot: 2, buffer: b.screen_uniform },
        FrameCmd::SetBindGroup { slot: 3, buffer: b.camera_buffer },
        FrameCmd::Dispatch { groups: 1 },
        FrameCmd::EndComputePass,
        FrameCmd::BeginRenderPass {
            clear_red: 0,
            clear_green: ONE_BITS,
            clear_blue: 0,
            clear_alpha: ONE_BITS,
        },
        FrameCmd::SetRenderPipeline { stage: Stage::Present },
        FrameCmd::SetBindGroup { slot: 0, buffer: b.output_buffer.id },
        FrameCmd::SetBindGroup { slot: 1, buffer: b.screen_uniform },
        FrameCmd::Draw { vertices: 3 },
        FrameCmd::ExecuteBundle { camera_uniform: b.camera_buffer, vertices: 16 },
        FrameCmd::EndRenderPass,
        FrameCmd::Submit,
        FrameCmd::PresentFrame,
    ];
    assert_eq!(cmds, expected);
}

#[test]
fn dispatch_counts_cover_pixels_and_triangles() {
    let state = test_state(1280, 720, 300);
    let cmds = state.render();
    let dispatches: Vec<u32> = cmds
        .iter()
        .filter_map(|c| match c {
            FrameCmd::Dispatch { groups } => Some(*groups),
            _ => None,
        })
        .collect();
    assert_eq!(dispatches, vec![3600, 1]);
}

#[test]
fn stage_layouts_are_the_declared_kernel_layouts() {
    let present = PresentPass::new();
    assert_eq!(present.slots, [SlotRole::ColorReadOnly, SlotRole::ScreenUniform]);
    let raster = RasterPass::new();
    assert_eq!(
        raster.slots,
        [
            SlotRole::ColorReadWrite,
            SlotRole::VertexReadOnly,
            SlotRole::ScreenUniform,
            SlotRole::CameraUniform,
        ]
    );
    let clear = ClearPass::new();
    assert_eq!(clear.slots, [SlotRole::ColorReadWrite]);
}

#[test]
fn binding_updates_touch_only_the_color_binding() {
    let mut raster = RasterBindings::new(3, 2, 1, 0);
    raster.update_color_buffer(7);
    assert_eq!(raster.color_buffer, 7);
    assert_eq!(raster.vertex_buffer, 2);
    assert_eq!(raster.uniform, 1);
    assert_eq!(raster.camera_uniform, 0);
    let mut present = PresentBindings::new(3, 1);
    present.update_color_buffer(7);
    assert_eq!(present.color_buffer, 7);
    assert_eq!(present.uniform, 1);
}

#[test]
fn surface_errors_classify_as_designed() {
    assert_eq!(
        surface_error_action(SurfaceError::Lost),
        FrameAction::ReconfigureAndRedraw
    );
    assert_eq!(surface_error_action(SurfaceError::OutOfMemory), FrameAction::Exit);
    assert_eq!(surface_error_action(SurfaceError::Timeout), FrameAction::Redraw);
    assert_eq!(surface_error_action(SurfaceError::Outdated), FrameAction::Redraw);
}

#[test]
fn uniform_bytes_are_the_two_little_endian_words() {
    let u = Uniform::new(1280.0f32.to_bits(), 720.0f32.to_bits());
    let bytes = u.to_bytes();
    let mut expected = 1280.0f32.to_le_bytes().to_vec();
    expected.extend_from_slice(&720.0f32.to_le_bytes());
    assert_eq!(bytes, expected);
}

#[test]
fn vertex_bytes_are_the_three_little_endian_words() {
    let v = Vertex::new(1.0f32.to_bits(), (-2.0f32).to_bits(), 0.25f32.to_bits());
    let bytes = v.to_bytes();
    let mut expected = 1.0f32.to_le_bytes().to_vec();
    expected.extend_from_slice(&(-2.0f32).to_le_bytes());
    expected.extend_from_slice(&0.25f32.to_le_bytes());
    assert_eq!(bytes, expected);
    let w = Vertex::from([1.0f32.to_bits(), (-2.0f32).to_bits(), 0.25f32.to_bits()]);
    assert_eq!(w, v);
}

#[test]
fn overlay_draws_the_sixteen_cube_edge_endpoints() {
    assert_eq!(NEG_ONE_BITS, (-1.0f32).to_bits());
    let vertices = line_vertices();
    assert_eq!(vertices.len(), 16);
    for v in vertices.iter() {
        for &w in v.v.iter() {
            let c = f32::from_bits(w);
            assert!(c == 1.0 || c == -1.0);
        }
    }
    assert_eq!(vertices[0].v, [(-1.0f32).to_bits(); 3]);
    let bundle = draw_lines_command(42);
    assert_eq!(bundle.camera_uniform, 42);
    assert_eq!(bundle.vertex_count, 16);
}

#[test]
fn color_buffer_descriptor_carries_tag_and_extent() {
    let buffer = create_color_buffer(9, 640, 360);
    assert_eq!(buffer.id, 9);
    assert_eq!(buffer.width, 640);
    assert_eq!(buffer.height, 360);
    assert_eq!(buffer.size_bytes(), 2_764_800);
}

#[test]
fn pacing_defers_early_frames_and_redraws_due_ones() {
    assert_eq!(pace(16_666_667, 16_666_667), PaceAction::RedrawNow);
    assert_eq!(pace(20_000_000, 16_666_667), PaceAction::RedrawNow);
    assert_eq!(
        pace(10_000_000, 16_666_667),
        PaceAction::WaitFor { delay_ns: 6_666_667 }
    );
    assert_eq!(pace(0, 16_666_667), PaceAction::WaitFor { delay_ns: 16_666_667 });
}

#[test]
fn frame_counter_reports_every_hundredth_frame() {
    let mut counter = FrameCounter::new();
    for i in 0..99 {
        assert_eq!(counter.record(1_000_000), None, "frame {i}");
    }
    assert_eq!(counter.frame_count, 99);
    assert_eq!(counter.record(101_000_000), Some(2_000_000));
    assert_eq!(counter.frame_count, 0);
    assert_eq!(counter.accum_time_ns, 0);
}
