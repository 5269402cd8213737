//! The compute stages: clear, which zeroes the color buffer, and raster,
//! which projects triangles and scatters pixel colors into it. Both read
//! their inputs through the shared raster resource set.
use vstd::prelude::*;

use crate::state::util::{FrameCmd, SlotRole, Stage};

verus! {

/// The fixed binding layout of the raster kernel: slot 0 writes the color
/// buffer, slot 1 reads the vertices, slot 2 the viewport uniform, slot 3
/// the camera uniform.
pub open spec fn raster_layout() -> Seq<SlotRole> {
    seq![
        SlotRole::ColorReadWrite,
        SlotRole::VertexReadOnly,
        SlotRole::ScreenUniform,
        SlotRole::CameraUniform,
    ]
}

/// The fixed binding layout of the clear kernel: slot 0 writes the color
/// buffer.
pub open spec fn clear_layout() -> Seq<SlotRole> {
    seq![SlotRole::ColorReadWrite]
}

/// The raster stage's compiled pipeline, carrying its slot contract.
#[derive(Clone, Copy, Debug, PartialEq, Eq)]
pub struct RasterPass {
    pub slots: [SlotRole; 4],
}

/// The clear stage's compiled pipeline, carrying its slot contract.
#[derive(Clone, Copy, Debug, PartialEq, Eq)]
pub struct ClearPass {
    pub slots: [SlotRole; 1],
}

/// The resource set shared by the compute stages: the identity tags of the
/// buffers its four bind groups point at.
#[derive(Clone, Copy, Debug, PartialEq, Eq, Structural)]
pub struct RasterBindings {
    pub color_buffer: u64,
    pub vertex_buffer: u64,
    pub uniform: u64,
    pub camera_uniform: u64,
}

impl RasterPass {
    /// One-time construction of the stage with its fixed slot contract.
    pub fn new() -> (r: RasterPass)
        ensures
            r.slots@ == raster_layout(),
    {
        let r = RasterPass {
            slots: [
                SlotRole::ColorReadWrite,
                SlotRole::VertexReadOnly,
                SlotRole::ScreenUniform,
                SlotRole::CameraUniform,
            ],
        };
        proof {
            assert(r.slots@ =~= raster_layout());
        }
        r
    }

    /// The commands one raster recording appends: pipeline, the four bind
    /// groups in slot order, then the dispatch.
    pub open spec fn record_spec(bindings: RasterBindings, groups: u32) -> Seq<FrameCmd> {
        seq![
            FrameCmd::SetComputePipeline { stage: Stage::Raster },
            FrameCmd::SetBindGroup { slot: 0, buffer: bindings.color_buffer },
            FrameCmd::SetBindGroup { slot: 1, buffer: bindings.vertex_buffer },
            FrameCmd::SetBindGroup { slot: 2, buffer: bindings.uniform },
            FrameCmd::SetBindGroup { slot: 3, buffer: bindings.camera_uniform },
            FrameCmd::Dispatch { groups },
        ]
    }

    /// Record the raster stage into the open compute pass with the given
    /// work-group count.
    pub fn record(&self, cpass: &mut Vec<FrameCmd>, bindings: &RasterBindings, dispatch_size: u32)
        ensures
            final(cpass)@ == old(cpass)@ + Self::record_spec(*bindings, dispatch_size),
    {
        cpass.push(FrameCmd::SetComputePipeline { stage: Stage::Raster });
        cpass.push(FrameCmd::SetBindGroup { slot: 0, buffer: bindings.color_buffer });
        cpass.push(FrameCmd::SetBindGroup { slot: 1, buffer: bindings.vertex_buffer });
        cpass.push(FrameCmd::SetBindGroup { slot: 2, buffer: bindings.uniform });
        cpass.push(FrameCmd::SetBindGroup { slot: 3, buffer: bindings.camera_uniform });
        cpass.push(FrameCmd::Dispatch { groups: dispatch_size });
        proof {
            assert(cpass@ =~= old(cpass)@ + Self::record_spec(*bindings, dispatch_size));
        }
    }
}

impl RasterBindings {
    /// Resource sets for the compute stages over the given buffers.
    pub fn new(color_buffer: u64, vertex_buffer: u64, uniform: u64, camera_uniform: u64) -> (r:
        RasterBindings)
        ensures
            r == (RasterBindings { color_buffer, vertex_buffer, uniform, camera_uniform }),
    {
        RasterBindings { color_buffer, vertex_buffer, uniform, camera_uniform }
    }

    /// Rebuild exactly the binding that referenced the color buffer, for a
    /// freshly allocated buffer; the other three bindings are untouched.
    pub fn update_color_buffer(&mut self, color_buffer: u64)
        ensures
            *final(self) == (RasterBindings { color_buffer, ..*old(self) }),
    {
        self.color_buffer = color_buffer;
    }
}

impl ClearPass {
    /// One-time construction of the stage with its fixed slot contract.
    pub fn new() -> (r: ClearPass)
        ensures
            r.slots@ == clear_layout(),
    {
        let r = ClearPass { slots: [SlotRole::ColorReadWrite] };
        proof {
            assert(r.slots@ =~= clear_layout());
        }
        r
    }

    /// The commands one clear recording appends: pipeline, the color buffer
    /// bind group, then the dispatch.
    pub open spec fn record_spec(bindings: RasterBindings, groups: u32) -> Seq<FrameCmd> {
        seq![
            FrameCmd::SetComputePipeline { stage: Stage::Clear },
            FrameCmd::SetBindGroup { slot: 0, buffer: bindings.color_buffer },
            FrameCmd::Dispatch { groups },
        ]
    }

    /// Record the clear stage into the open compute pass with the given
    /// work-group count.
    pub fn record(&self, cpass: &mut Vec<FrameCmd>, bindings: &RasterBindings, dispatch_size: u32)
        ensures
            final(cpass)@ == old(cpass)@ + Self::record_spec(*bindings, dispatch_size),
    {
        cpass.push(FrameCmd::SetComputePipeline { stage: Stage::Clear });
        cpass.push(FrameCmd::SetBindGroup { slot: 0, buffer: bindings.color_buffer });
        cpass.push(FrameCmd::Dispatch { groups: dispatch_size });
        proof {
            assert(cpass@ =~= old(cpass)@ + Self::record_spec(*bindings, dispatch_size));
        }
    }
}

} // verus!
