//! The present stage: a full-screen graphics pass that samples the color
//! buffer and draws it to the surface.
use vstd::prelude::*;

use crate::state::util::{FrameCmd, SlotRole, Stage};

verus! {

/// The fixed binding layout of the present kernel: slot 0 reads the color
/// buffer, slot 1 reads the viewport uniform.
pub open spec fn present_layout() -> Seq<SlotRole> {
    seq![SlotRole::ColorReadOnly, SlotRole::ScreenUniform]
}

/// The present stage's compiled pipeline, carrying its slot contract.
#[derive(Clone, Copy, Debug, PartialEq, Eq)]
pub struct PresentPass {
    pub slots: [SlotRole; 2],
}

/// The resource set of the present stage: the identity tags of the buffers
/// its two bind groups point at.
#[derive(Clone, Copy, Debug, PartialEq, Eq, Structural)]
pub struct PresentBindings {
    pub color_buffer: u64,
    pub uniform: u64,
}

impl PresentPass {
    /// One-time construction of the stage with its fixed slot contract.
    pub fn new() -> (r: PresentPass)
        ensures
            r.slots@ == present_layout(),
    {
        let r = PresentPass { slots: [SlotRole::ColorReadOnly, SlotRole::ScreenUniform] };
        proof {
            assert(r.slots@ =~= present_layout());
        }
        r
    }

    /// The commands one present recording appends: pipeline, the two bind
    /// groups in slot order, then the full-screen triangle.
    pub open spec fn record_spec(bindings: PresentBindings) -> Seq<FrameCmd> {
        seq![
            FrameCmd::SetRenderPipeline { stage: Stage::Present },
            FrameCmd::SetBindGroup { slot: 0, buffer: bindings.color_buffer },
            FrameCmd::SetBindGroup { slot: 1, buffer: bindings.uniform },
            FrameCmd::Draw { vertices: 3 },
        ]
    }

    /// Record the present stage into the open graphics pass.
    pub fn record(&self, rpass: &mut Vec<FrameCmd>, bindings: &PresentBindings)
        ensures
            final(rpass)@ == old(rpass)@ + Self::record_spec(*bindings),
    {
        rpass.push(FrameCmd::SetRenderPipeline { stage: Stage::Present });
        rpass.push(FrameCmd::SetBindGroup { slot: 0, buffer: bindings.color_buffer });
        rpass.push(FrameCmd::SetBindGroup { slot: 1, buffer: bindings.uniform });
        rpass.push(FrameCmd::Draw { vertices: 3 });
        proof {
            assert(rpass@ =~= old(rpass)@ + Self::record_spec(*bindings));
        }
    }
}

impl PresentBindings {
    /// Resource sets for the present stage over the given buffers.
    pub fn new(color_buffer: u64, uniform: u64) -> (r: PresentBindings)
        ensures
            r == (PresentBindings { color_buffer, uniform }),
    {
        PresentBindings { color_buffer, uniform }
    }

    /// Rebuild exactly the binding that referenced the color buffer, for a
    /// freshly allocated buffer; the uniform binding is untouched.
    pub fn update_color_buffer(&mut self, color_buffer: u64)
        ensures
            *final(self) == (PresentBindings { color_buffer, uniform: old(self).uniform }),
    {
        self.color_buffer = color_buffer;
    }
}

} // verus!
