//! The decisions of the frame loop: what to do after an acquire, and the
//! errors a frame can end with.
use vstd::prelude::*;

use crate::gfx::commands::RenderCommandError;
use crate::gfx::image::Extent2D;
use crate::gfx::swapchain::{
    acquire_outcome, NextImageAcquireError, NextImageState, PresentError, Swapchain,
    SwapchainCreateError, ERROR_OUT_OF_DATE,
};

verus! {

/// Why a frame could not be rendered.
#[derive(Debug, Clone, Copy, PartialEq, Eq, Structural)]
pub enum RenderError {
    ImageAcquisition(NextImageAcquireError),
    SwapchainCreation(SwapchainCreateError),
    RenderCommand(RenderCommandError),
    SwapchainPresent(PresentError),
}

/// What the frame loop does once an image has been asked for.
#[derive(Debug, Clone, Copy, PartialEq, Eq, Structural)]
pub enum FrameAction {
    /// Skip this frame's rendering and rebuild the whole swapchain at the
    /// given extent.
    RecreateSwapchain(Extent2D),
    /// Record, submit and present the frame.
    Render,
}

/// The action that follows an acquire with outcome `acquired`.
pub open spec fn next_frame_action(acquired: NextImageState, previous_extent: Extent2D) -> FrameAction {
    if acquired == NextImageState::OutOfDate {
        FrameAction::RecreateSwapchain(previous_extent)
    } else {
        FrameAction::Render
    }
}

/// The action that follows an acquire: an out-of-date swapchain is rebuilt at
/// its previous extent and the frame is skipped; a suboptimal one is only
/// noted, and the frame is rendered.
pub fn frame_action(acquired: NextImageState, previous_extent: Extent2D) -> (r: FrameAction)
    ensures
        r == next_frame_action(acquired, previous_extent),
{
    match acquired {
        NextImageState::OutOfDate => FrameAction::RecreateSwapchain(previous_extent),
        _ => FrameAction::Render,
    }
}

/// An acquire that finds the swapchain out of date changes no slot and is
/// followed by rebuilding the swapchain at its previous extent, not by
/// rendering; and it happens exactly when the native call reports an
/// out-of-date surface. A freshly built swapchain has no current slot, so
/// nothing can be rendered to or presented before another acquire succeeds.
pub proof fn lemma_out_of_date_rebuilds(
    before: Swapchain,
    acquired: Result<(u32, bool), i32>,
    after: Swapchain,
    r: Result<NextImageState, NextImageAcquireError>,
)
    requires
        acquire_outcome(before, acquired, after, r),
    ensures
        r == Ok::<_, NextImageAcquireError>(NextImageState::OutOfDate) <==> acquired == Err::<
            (u32, bool),
            i32,
        >(ERROR_OUT_OF_DATE),
        r == Ok::<_, NextImageAcquireError>(NextImageState::OutOfDate) ==> {
            &&& after.current_image_index == before.current_image_index
            &&& next_frame_action(NextImageState::OutOfDate, after.extent)
                == FrameAction::RecreateSwapchain(before.extent)
        },
        r is Ok && r->Ok_0 != NextImageState::OutOfDate ==> {
            &&& after.has_current()
            &&& next_frame_action(r->Ok_0, after.extent) == FrameAction::Render
        },
{
}

} // verus!
