//! What holds of brushes across a loss of the device.

use vstd::prelude::*;

use crate::gfx::brushes::BrushState;
use crate::gfx::target::{EndDraw, TargetState};

verus! {

/// A brush that was made before the device was lost is stale in the next
/// frame, and so is created again on its next use; a brush that lives
/// through a frame that was presented stays fresh.
///
/// `target` is a render target in the middle of a frame and `brush` a brush
/// of its generation. If the frame ends with the loss of the device, the
/// surface is dropped, the next frame starts the following generation, and
/// the brush is stale for it. If the frame is presented, the next frame
/// draws on the same surface in the same generation.
pub proof fn lemma_device_loss_stales_brushes<T, B>(
    target: TargetState<T>,
    brush: BrushState<B>,
    surface: T,
)
    requires
        target.state is Drawing,
        !brush.is_stale(target.generation),
    ensures
        target.ended(surface, EndDraw::DeviceLost).state is RequiresRecreation,
        target.ended(surface, EndDraw::DeviceLost).begun().state is Drawing,
        target.ended(surface, EndDraw::DeviceLost).begun().generation == target.generation + 1,
        brush.is_stale(target.ended(surface, EndDraw::DeviceLost).begun().generation),
        target.ended(surface, EndDraw::Presented).state == (crate::gfx::target::State::Created {
            target: surface,
        }),
        target.ended(surface, EndDraw::Presented).begun().generation == target.generation,
        !brush.is_stale(target.ended(surface, EndDraw::Presented).begun().generation),
{
}

/// The generation of a render target never goes down: neither beginning
/// nor ending a frame lowers it.
pub proof fn lemma_generation_monotonic<T>(target: TargetState<T>, surface: T, outcome: EndDraw)
    ensures
        target.begun().generation >= target.generation,
        target.ended(surface, outcome).generation == target.generation,
{
}

} // verus!
