//! The frame pipeline: all GPU-resident resources of the renderer, the
//! per-frame command stream, and the resize protocol that keeps every
//! binding set pointing at the buffer it is meant to read.
pub mod line;
pub mod present_pass;
pub mod raster_pass;
pub mod util;

use vstd::prelude::*;

use crate::camera::{Camera, CameraUniform, Vec3Bits, ONE_BITS};
use crate::state::line::{draw_lines_command, RenderBundle};
use crate::state::present_pass::{present_layout, PresentBindings, PresentPass};
use crate::state::raster_pass::{
    clear_layout, raster_layout, ClearPass, RasterBindings, RasterPass,
};
use crate::state::util::{create_color_buffer, dispatch_groups, dispatch_size, ColorBuffer, FrameCmd};

verus! {

/// The frame pipeline's whole resource state: the surface extent, the
/// camera and its GPU mirror, the identity tags of the GPU buffers, the
/// stage pipelines with their resource sets, and the overlay bundle.
pub struct State {
    /// Surface width in pixels, mirrored by the viewport uniform.
    pub width: u32,
    /// Surface height in pixels, mirrored by the viewport uniform.
    pub height: u32,
    /// The orbit camera the host steers.
    pub camera: Camera,
    /// Host copy of the camera uniform's contents.
    pub camera_uniform: CameraUniform,
    /// Identity tag of the camera uniform buffer.
    pub camera_buffer: u64,
    /// Identity tag of the viewport uniform buffer.
    pub screen_uniform: u64,
    /// Identity tag of the vertex storage buffer.
    pub vertex_buffer: u64,
    /// Number of vertices uploaded to the vertex buffer; a multiple of
    /// three, three per triangle.
    pub vertex_count: u32,
    /// The live color buffer; reallocated under a fresh tag on every resize.
    pub output_buffer: ColorBuffer,
    /// The next unused buffer identity tag.
    pub next_buffer_id: u64,
    /// The raster stage.
    pub raster_pass: RasterPass,
    /// The compute stages' resource set.
    pub raster_bindings: RasterBindings,
    /// The present stage.
    pub present_pass: PresentPass,
    /// The present stage's resource set.
    pub present_bindings: PresentBindings,
    /// The clear stage.
    pub clear_pass: ClearPass,
    /// The prerecorded overlay bundle.
    pub lines: RenderBundle,
}

impl State {
    /// Well-formedness: every resource set points at a live buffer — both
    /// color bindings at the current color buffer — the color buffer is
    /// sized to the surface, the vertex count is whole triangles, the stage
    /// layouts are the declared kernel layouts, and the identity tags are
    /// pairwise distinct and below the allocation counter.
    pub open spec fn wf(self) -> bool {
        &&& self.raster_bindings.color_buffer == self.output_buffer.id
        &&& self.raster_bindings.vertex_buffer == self.vertex_buffer
        &&& self.raster_bindings.uniform == self.screen_uniform
        &&& self.raster_bindings.camera_uniform == self.camera_buffer
        &&& self.present_bindings.color_buffer == self.output_buffer.id
        &&& self.present_bindings.uniform == self.screen_uniform
        &&& self.lines.camera_uniform == self.camera_buffer
        &&& self.lines.vertex_count == 16
        &&& self.output_buffer.width == self.width
        &&& self.output_buffer.height == self.height
        &&& self.vertex_count % 3 == 0
        &&& self.camera_buffer < self.next_buffer_id
        &&& self.screen_uniform < self.next_buffer_id
        &&& self.vertex_buffer < self.next_buffer_id
        &&& self.output_buffer.id < self.next_buffer_id
        &&& self.camera_buffer != self.screen_uniform
        &&& self.camera_buffer != self.vertex_buffer
        &&& self.screen_uniform != self.vertex_buffer
        &&& self.output_buffer.id != self.camera_buffer
        &&& self.output_buffer.id != self.screen_uniform
        &&& self.output_buffer.id != self.vertex_buffer
        &&& self.raster_pass.slots@ == raster_layout()
        &&& self.present_pass.slots@ == present_layout()
        &&& self.clear_pass.slots@ == clear_layout()
    }

    /// The state right after construction at the given extent: buffers
    /// tagged 0 to 3, both color bindings on buffer 3, and the camera
    /// mirror derived from the camera's eye and view-projection matrix.
    pub open spec fn new_spec(
        width: u32,
        height: u32,
        camera: Camera,
        vertex_count: u32,
        eye: Vec3Bits,
        view_proj: [u32; 16],
    ) -> State {
        State {
            width,
            height,
            camera,
            camera_uniform: CameraUniform {
                view_position: [eye.x, eye.y, eye.z, ONE_BITS],
                view_proj,
            },
            camera_buffer: 0,
            screen_uniform: 1,
            vertex_buffer: 2,
            vertex_count,
            output_buffer: ColorBuffer { id: 3, width, height },
            next_buffer_id: 4,
            raster_pass: RasterPass { slots: [
                crate::state::util::SlotRole::ColorReadWrite,
                crate::state::util::SlotRole::VertexReadOnly,
                crate::state::util::SlotRole::ScreenUniform,
                crate::state::util::SlotRole::CameraUniform,
            ] },
            raster_bindings: RasterBindings {
                color_buffer: 3,
                vertex_buffer: 2,
                uniform: 1,
                camera_uniform: 0,
            },
            present_pass: PresentPass { slots: [
                crate::state::util::SlotRole::ColorReadOnly,
                crate::state::util::SlotRole::ScreenUniform,
            ] },
            present_bindings: PresentBindings { color_buffer: 3, uniform: 1 },
            clear_pass: ClearPass { slots: [crate::state::util::SlotRole::ColorReadWrite] },
            lines: RenderBundle { camera_uniform: 0, vertex_count: 16 },
        }
    }

    /// Build the pipeline's initial resource state for a surface of the
    /// given extent and a vertex upload of whole triangles. The camera
    /// mirror is created from the camera: the caller derives the eye point
    /// and the view-projection matrix from the camera's parameters and
    /// hands in their bit patterns.
    pub fn new(
        width: u32,
        height: u32,
        camera: Camera,
        vertex_count: u32,
        eye: Vec3Bits,
        view_proj: [u32; 16],
    ) -> (s: State)
        requires
            vertex_count % 3 == 0,
        ensures
            s == Self::new_spec(width, height, camera, vertex_count, eye, view_proj),
            s.wf(),
            s.output_buffer.size() == width * height * 12,
            s.camera_uniform.view_position == [eye.x, eye.y, eye.z, ONE_BITS],
            s.camera_uniform.view_proj == view_proj,
    {
        let mut camera_uniform = CameraUniform::default();
        camera_uniform.update_view_proj(eye, view_proj);
        let camera_buffer: u64 = 0;
        let screen_uniform: u64 = 1;
        let vertex_buffer: u64 = 2;
        let output_buffer = create_color_buffer(3, width, height);
        let present_pass = PresentPass::new();
        let raster_pass = RasterPass::new();
        let clear_pass = ClearPass::new();
        let present_bindings = PresentBindings::new(output_buffer.id, screen_uniform);
        let raster_bindings = RasterBindings::new(
            output_buffer.id,
            vertex_buffer,
            screen_uniform,
            camera_buffer,
        );
        let lines = draw_lines_command(camera_buffer);
        let s = State {
            width,
            height,
            camera,
            camera_uniform,
            camera_buffer,
            screen_uniform,
            vertex_buffer,
            vertex_count,
            output_buffer,
            next_buffer_id: 4,
            raster_pass,
            raster_bindings,
            present_pass,
            present_bindings,
            clear_pass,
            lines,
        };
        proof {
            let spec_s = Self::new_spec(width, height, camera, vertex_count, eye, view_proj);
            assert(s.camera_uniform.view_position =~= spec_s.camera_uniform.view_position);
            assert(s.raster_pass.slots =~= spec_s.raster_pass.slots);
            assert(s.present_pass.slots =~= spec_s.present_pass.slots);
            assert(s.clear_pass.slots =~= spec_s.clear_pass.slots);
        }
        s
    }

    /// The state after a resize: the extent replaced, the color buffer
    /// reallocated under the next fresh tag, and exactly the two bindings
    /// that referenced the old color buffer rebuilt onto the new one. The
    /// camera, its mirror, and every other buffer are untouched.
    pub open spec fn resize_spec(s: State, width: u32, height: u32) -> State {
        State {
            width,
            height,
            output_buffer: ColorBuffer { id: s.next_buffer_id, width, height },
            next_buffer_id: (s.next_buffer_id + 1) as u64,
            raster_bindings: RasterBindings {
                color_buffer: s.next_buffer_id,
                ..s.raster_bindings
            },
            present_bindings: PresentBindings {
                color_buffer: s.next_buffer_id,
                uniform: s.present_bindings.uniform,
            },
            ..s
        }
    }

    /// Reconfigure for a new surface extent: rewrite the viewport mirror,
    /// discard and recreate the color buffer under a fresh identity, and
    /// rebuild the present and raster bindings that referenced the old one.
    pub fn resize(&mut self, width: u32, height: u32)
        requires
            old(self).wf(),
            old(self).next_buffer_id < u64::MAX,
        ensures
            *final(self) == Self::resize_spec(*old(self), width, height),
            final(self).wf(),
            final(self).width == width,
            final(self).height == height,
            final(self).output_buffer.id != old(self).output_buffer.id,
            final(self).output_buffer.size() == width * height * 12,
            final(self).camera_uniform == old(self).camera_uniform,
            final(self).camera == old(self).camera,
    {
        self.width = width;
        self.height = height;
        let id = self.next_buffer_id;
        self.output_buffer = create_color_buffer(id, width, height);
        self.next_buffer_id = id + 1;
        self.present_bindings.update_color_buffer(id);
        self.raster_bindings.update_color_buffer(id);
    }

    /// Per-frame recomputation of the camera uniform's host copy from the
    /// camera: the caller derives the eye point and the view-projection
    /// matrix from the camera's parameters and hands in their bit patterns;
    /// the mirror becomes the eye padded with 1.0 and that matrix. Nothing
    /// else of the state changes.
    pub fn update(&mut self, eye: Vec3Bits, view_proj: [u32; 16])
        ensures
            *final(self) == (State { camera_uniform: final(self).camera_uniform, ..*old(self) }),
            final(self).camera_uniform.view_position == [eye.x, eye.y, eye.z, ONE_BITS],
            final(self).camera_uniform.view_proj == view_proj,
    {
        self.camera_uniform.update_view_proj(eye, view_proj);
    }

    /// The command stream of one frame: one compute pass that records clear
    /// over the pixels and then raster over the triangles, then one
    /// graphics pass that clears the surface to the fixed green background,
    /// presents the color buffer and replays the overlay, then submit and
    /// present.
    pub open spec fn frame_commands(s: State) -> Seq<FrameCmd> {
        seq![FrameCmd::BeginComputePass]
            + ClearPass::record_spec(
                s.raster_bindings,
                dispatch_groups(s.width * s.height) as u32,
            )
            + RasterPass::record_spec(
                s.raster_bindings,
                dispatch_groups(s.vertex_count as int / 3) as u32,
            )
            + seq![
                FrameCmd::EndComputePass,
                FrameCmd::BeginRenderPass {
                    clear_red: 0,
                    clear_green: ONE_BITS,
                    clear_blue: 0,
                    clear_alpha: ONE_BITS,
                },
            ]
            + PresentPass::record_spec(s.present_bindings)
            + seq![
                FrameCmd::ExecuteBundle {
                    camera_uniform: s.lines.camera_uniform,
                    vertices: s.lines.vertex_count,
                },
                FrameCmd::EndRenderPass,
                FrameCmd::Submit,
                FrameCmd::PresentFrame,
            ]
    }

    /// Record one frame. The stream never mutates a buffer's size; the
    /// caller carries it out against the acquired surface image and the
    /// live resources.
    pub fn render(&self) -> (cmds: Vec<FrameCmd>)
        requires
            self.wf(),
            self.width * self.height <= u32::MAX - 255,
        ensures
            cmds@ == Self::frame_commands(*self),
    {
        let mut cmds: Vec<FrameCmd> = Vec::new();
        cmds.push(FrameCmd::BeginComputePass);
        let clear_groups = dispatch_size(self.width * self.height);
        self.clear_pass.record(&mut cmds, &self.raster_bindings, clear_groups);
        let raster_groups = dispatch_size(self.vertex_count / 3);
        self.raster_pass.record(&mut cmds, &self.raster_bindings, raster_groups);
        cmds.push(FrameCmd::EndComputePass);
        cmds.push(FrameCmd::BeginRenderPass {
            clear_red: 0,
            clear_green: ONE_BITS,
            clear_blue: 0,
            clear_alpha: ONE_BITS,
        });
        self.present_pass.record(&mut cmds, &self.present_bindings);
        cmds.push(FrameCmd::ExecuteBundle {
            camera_uniform: self.lines.camera_uniform,
            vertices: self.lines.vertex_count,
        });
        cmds.push(FrameCmd::EndRenderPass);
        cmds.push(FrameCmd::Submit);
        cmds.push(FrameCmd::PresentFrame);
        proof {
            assert(cmds@ =~= Self::frame_commands(*self));
        }
        cmds
    }
}

/// Why acquiring the next surface image failed.
#[derive(Clone, Copy, Debug, PartialEq, Eq, Structural)]
pub enum SurfaceError {
    /// The image was not ready in time; transient.
    Timeout,
    /// The surface no longer matches its configuration; transient.
    Outdated,
    /// The presentation target became invalid.
    Lost,
    /// An allocation failed.
    OutOfMemory,
}

/// What the frame loop does after a failed frame.
#[derive(Clone, Copy, Debug, PartialEq, Eq, Structural)]
pub enum FrameAction {
    /// Skip this frame, log it, and request the next one.
    Redraw,
    /// Reconfigure the surface at the current extent, then request a fresh
    /// frame.
    ReconfigureAndRedraw,
    /// Out of memory is fatal: leave the loop.
    Exit,
}

/// Classify a failed frame: a lost surface is recovered by reconfiguring,
/// out of memory ends the process, and every other error skips the frame
/// and tries again on the next one.
pub fn surface_error_action(error: SurfaceError) -> (a: FrameAction)
    ensures
        a == (match error {
            SurfaceError::Lost => FrameAction::ReconfigureAndRedraw,
            SurfaceError::OutOfMemory => FrameAction::Exit,
            SurfaceError::Timeout => FrameAction::Redraw,
            SurfaceError::Outdated => FrameAction::Redraw,
        }),
{
    match error {
        SurfaceError::Lost => FrameAction::ReconfigureAndRedraw,
        SurfaceError::OutOfMemory => FrameAction::Exit,
        SurfaceError::Timeout => FrameAction::Redraw,
        SurfaceError::Outdated => FrameAction::Redraw,
    }
}

/// Resizing to an extent and then resizing again to the same extent yields
/// a color buffer of the same size both times, and neither resize touches
/// the camera uniform's contents.
pub proof fn lemma_resize_idempotent(s: State, width: u32, height: u32)
    requires
        s.wf(),
    ensures
        State::resize_spec(State::resize_spec(s, width, height), width, height)
            .output_buffer.size() == State::resize_spec(s, width, height).output_buffer.size(),
        State::resize_spec(State::resize_spec(s, width, height), width, height).width == width,
        State::resize_spec(State::resize_spec(s, width, height), width, height).height == height,
        State::resize_spec(s, width, height).camera_uniform == s.camera_uniform,
        State::resize_spec(State::resize_spec(s, width, height), width, height).camera_uniform
            == s.camera_uniform,
{
}

/// The color buffer of the initial state at 1280 by 720 holds exactly
/// 11059200 bytes; resized to 640 by 360 it holds exactly 2764800 bytes.
pub proof fn lemma_color_buffer_sizes(
    camera: Camera,
    vertex_count: u32,
    eye: Vec3Bits,
    view_proj: [u32; 16],
)
    ensures
        State::new_spec(1280, 720, camera, vertex_count, eye, view_proj)
            .output_buffer.size() == 11059200,
        State::resize_spec(
            State::new_spec(1280, 720, camera, vertex_count, eye, view_proj),
            640,
            360,
        ).output_buffer.size() == 2764800,
{
}

/// No command of `cmds` resolves a binding to the buffer with tag `id`.
pub open spec fn cmds_avoid_buffer(cmds: Seq<FrameCmd>, id: u64) -> bool {
    forall|i: int|
        0 <= i < cmds.len() ==> (match #[trigger] cmds[i] {
            FrameCmd::SetBindGroup { buffer, .. } => buffer != id,
            FrameCmd::ExecuteBundle { camera_uniform, .. } => camera_uniform != id,
            _ => true,
        })
}

/// After a resize, no command of the next frame refers to the color buffer
/// the resize discarded: every binding the frame uses was rebuilt onto the
/// fresh buffer, so a stale binding cannot reach the GPU.
pub proof fn lemma_resize_refreshes_bindings(s: State, width: u32, height: u32)
    requires
        s.wf(),
    ensures
        cmds_avoid_buffer(
            State::frame_commands(State::resize_spec(s, width, height)),
            s.output_buffer.id,
        ),
{
    let s2 = State::resize_spec(s, width, height);
    let cmds = State::frame_commands(s2);
    assert forall|i: int| 0 <= i < cmds.len() implies (match #[trigger] cmds[i] {
        FrameCmd::SetBindGroup { buffer, .. } => buffer != s.output_buffer.id,
        FrameCmd::ExecuteBundle { camera_uniform, .. } => camera_uniform != s.output_buffer.id,
        _ => true,
    }) by {
        assert(s2.raster_bindings.color_buffer == s.next_buffer_id);
        assert(s2.present_bindings.color_buffer == s.next_buffer_id);
        assert(s.output_buffer.id != s.next_buffer_id);
    }
}

} // verus!
