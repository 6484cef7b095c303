//! The swapchain as the engine tracks it: its presentable images with their
//! layouts and depth companions, its synchronization handles, and the
//! acquire / make-presentable / submit / present protocol over them. The
//! native calls are made by the caller with the values these functions give.
use vstd::prelude::*;

use crate::gfx::image::{
    transition_barrier, with_layout, Extent2D, ImageBarrier, ImageLayout, ImageState,
    SubresourceRange, ACCESS_COLOR_ATTACHMENT_WRITE, ACCESS_NONE, ASPECT_COLOR,
    STAGE_BOTTOM_OF_PIPE, STAGE_COLOR_ATTACHMENT_OUTPUT,
};

verus! {

/// The native API's code for "the surface changed and the swapchain no
/// longer matches it".
pub const ERROR_OUT_OF_DATE: i32 = -1000001004;

/// The outcome of one acquire.
#[derive(Debug, Clone, Copy, PartialEq, Eq, Structural)]
pub enum NextImageState {
    Optimal,
    Suboptimal,
    OutOfDate,
}

/// Why an image could not be acquired.
#[derive(Debug, Clone, Copy, PartialEq, Eq, Structural)]
pub enum NextImageAcquireError {
    NextIndexAcquisition(i32),
    InvalidIndex(u32, usize),
}

/// Why the image could not be presented.
#[derive(Debug, Clone, Copy, PartialEq, Eq, Structural)]
pub enum PresentError {
    Present(i32),
}

/// Why a swapchain could not be created; each variant carries the native
/// API's result code.
#[derive(Debug, Clone, Copy, PartialEq, Eq, Structural)]
pub enum SwapchainCreateError {
    VulkanCreation(i32),
    ImageFetching(i32),
    ImageViewCreation(i32),
    RenderSyncObjectsCreation(i32),
    DepthImageBuilding(i32),
}

/// The surface's "no fixed extent" marker.
pub open spec fn is_unbounded(e: Extent2D) -> bool {
    e.width == u32::MAX && e.height == u32::MAX
}

/// The number of images to ask for: one more than the surface's minimum,
/// capped by its maximum when it has one (a maximum of zero means none).
pub fn min_image_count(surface_min: u32, surface_max: u32) -> (r: u32)
    ensures
        r as int == if surface_min == u32::MAX {
            if surface_max > 0 && surface_min > surface_max { surface_max as int } else { u32::MAX as int }
        } else if surface_max > 0 && surface_min + 1 > surface_max {
            surface_max as int
        } else {
            surface_min + 1
        },
{
    let mut count: u32 = if surface_min == u32::MAX { u32::MAX } else { surface_min + 1 };
    if surface_max > 0 && count > surface_max {
        count = surface_max;
    }
    count
}

/// The extent of the swapchain: the surface's current extent, unless the
/// surface leaves it to the swapchain, in which case the suggested one.
pub fn swapchain_extent(current: Extent2D, suggested: Extent2D) -> (r: Extent2D)
    ensures
        is_unbounded(current) ==> r == suggested,
        !is_unbounded(current) ==> r == current,
{
    if current.width == u32::MAX && current.height == u32::MAX {
        suggested
    } else {
        current
    }
}

/// The images of the swapchain slot that the frame renders to.
pub struct ImageResources<'a> {
    pub color_image: &'a mut ImageState,
    pub depth_image: &'a mut ImageState,
}

/// The submission of the frame's render commands: wait on the acquire
/// semaphore at `wait_stage`, signal the slot's render-complete semaphore and
/// the present fence.
#[derive(Debug, Clone, Copy, PartialEq, Eq, Structural)]
pub struct RenderSubmission {
    pub wait_semaphore: u64,
    pub wait_stage: u32,
    pub signal_semaphore: u64,
    pub fence: u64,
}

/// The presentation of the frame: the slot's image, once its render-complete
/// semaphore is signalled.
#[derive(Debug, Clone, Copy, PartialEq, Eq, Structural)]
pub struct PresentRequest {
    pub wait_semaphore: u64,
    pub swapchain: u64,
    pub image_index: u32,
}

/// What taking in the outcome `acquired` of the native acquire call does to a
/// swapchain: an out-of-date surface is reported as `OutOfDate`, another
/// native error or an index that names no slot fails, and otherwise the
/// acquired slot becomes the current one. Nothing else changes.
pub open spec fn acquire_outcome(
    before: Swapchain,
    acquired: Result<(u32, bool), i32>,
    after: Swapchain,
    r: Result<NextImageState, NextImageAcquireError>,
) -> bool {
    &&& after.handle == before.handle
    &&& after.extent == before.extent
    &&& after.images == before.images
    &&& after.depth_images == before.depth_images
    &&& after.render_semaphores == before.render_semaphores
    &&& after.image_acquired_semaphore == before.image_acquired_semaphore
    &&& after.present_fence == before.present_fence
    &&& match acquired {
        Err(code) => {
            &&& after.current_image_index == before.current_image_index
            &&& if code == ERROR_OUT_OF_DATE {
                r == Ok::<_, NextImageAcquireError>(NextImageState::OutOfDate)
            } else {
                r == Err::<NextImageState, _>(NextImageAcquireError::NextIndexAcquisition(code))
            }
        },
        Ok((index, suboptimal)) => if index as int >= before.images@.len() {
            &&& r == Err::<NextImageState, _>(
                NextImageAcquireError::InvalidIndex(index, before.images@.len() as usize),
            )
            &&& after.current_image_index == before.current_image_index
        } else {
            &&& r == Ok::<_, NextImageAcquireError>(
                if suboptimal {
                    NextImageState::Suboptimal
                } else {
                    NextImageState::Optimal
                },
            )
            &&& after.current_image_index == index as usize
        },
    }
}

/// The barrier that makes `s` ready to present.
pub open spec fn present_barrier(s: ImageState) -> ImageBarrier {
    transition_barrier(
        s,
        ImageLayout::PresentSrc,
        ACCESS_COLOR_ATTACHMENT_WRITE,
        ACCESS_NONE,
        STAGE_COLOR_ATTACHMENT_OUTPUT,
        STAGE_BOTTOM_OF_PIPE,
    )
}

/// The swapchain's tracked state. Slot `i` has the color image `images[i]`,
/// the depth image `depth_images[i]` and the render-complete semaphore
/// `render_semaphores[i]`; the acquire semaphore and the present fence are
/// shared by all slots. Handles are the native API's raw values.
pub struct Swapchain {
    pub handle: u64,
    pub extent: Extent2D,
    pub images: Vec<ImageState>,
    pub depth_images: Vec<ImageState>,
    pub render_semaphores: Vec<u64>,
    pub image_acquired_semaphore: u64,
    pub present_fence: u64,
    pub current_image_index: usize,
}

impl Swapchain {
    /// Every slot has its three parts.
    pub open spec fn wf(&self) -> bool {
        &&& self.depth_images@.len() == self.images@.len()
        &&& self.render_semaphores@.len() == self.images@.len()
    }

    /// An image has been acquired and names a slot.
    pub open spec fn has_current(&self) -> bool {
        self.current_image_index < self.images@.len()
    }

    /// Assembles the tracked state of a freshly created swapchain from the
    /// handles the native calls returned: slot `i` gets the presentable image
    /// `image_handles[i]` with view `views[i]`, in undefined layout, in
    /// `format` and at `extent`. No image is acquired yet.
    pub fn new(
        handle: u64,
        extent: Extent2D,
        format: i32,
        image_handles: &Vec<u64>,
        views: &Vec<u64>,
        depth_images: Vec<ImageState>,
        render_semaphores: Vec<u64>,
        image_acquired_semaphore: u64,
        present_fence: u64,
    ) -> (r: Swapchain)
        requires
            views@.len() == image_handles@.len(),
            depth_images@.len() == image_handles@.len(),
            render_semaphores@.len() == image_handles@.len(),
        ensures
            r.wf(),
            !r.has_current(),
            r.handle == handle,
            r.extent == extent,
            r.images@.len() == image_handles@.len(),
            forall|i: int|
                0 <= i < image_handles@.len() ==> r.images@[i] == (ImageState {
                    handle: image_handles@[i],
                    view: views@[i],
                    layout: ImageLayout::Undefined,
                    format,
                    extent: extent.to_3d_spec(),
                    extent_2d: extent,
                    view_subresource_range: SubresourceRange {
                        aspect_mask: ASPECT_COLOR,
                        base_mip_level: 0,
                        level_count: 1,
                        base_array_layer: 0,
                        layer_count: 1,
                    },
                }),
            r.depth_images == depth_images,
            r.render_semaphores == render_semaphores,
            r.image_acquired_semaphore == image_acquired_semaphore,
            r.present_fence == present_fence,
    {
        let mut images: Vec<ImageState> = Vec::new();
        let range = SubresourceRange::single_level(ASPECT_COLOR, 1);
        let extent_3d = extent.to_3d();
        let mut i: usize = 0;
        while i < image_handles.len()
            invariant
                views@.len() == image_handles@.len(),
                i <= image_handles@.len(),
                images@.len() == i,
                extent_3d == extent.to_3d_spec(),
                range == (SubresourceRange {
                    aspect_mask: ASPECT_COLOR,
                    base_mip_level: 0,
                    level_count: 1,
                    base_array_layer: 0,
                    layer_count: 1,
                }),
                forall|k: int|
                    0 <= k < i ==> images@[k] == (ImageState {
                        handle: image_handles@[k],
                        view: views@[k],
                        layout: ImageLayout::Undefined,
                        format,
                        extent: extent_3d,
                        extent_2d: extent,
                        view_subresource_range: range,
                    }),
            decreases image_handles@.len() - i,
        {
            images.push(
                ImageState {
                    handle: image_handles[i],
                    view: views[i],
                    layout: ImageLayout::Undefined,
                    format,
                    extent: extent_3d,
                    extent_2d: extent,
                    view_subresource_range: range,
                },
            );
            i = i + 1;
        }
        Swapchain {
            handle,
            extent,
            images,
            depth_images,
            render_semaphores,
            image_acquired_semaphore,
            present_fence,
            current_image_index: usize::MAX,
        }
    }

    /// Takes in the outcome of the native acquire call: the acquired index and
    /// whether the swapchain is suboptimal, or the native error code. An
    /// out-of-date swapchain is reported as `OutOfDate` and changes nothing;
    /// another error, or an index that names no slot, fails; otherwise the
    /// acquired slot becomes the current one.
    pub fn next_image(&mut self, acquired: Result<(u32, bool), i32>) -> (r: Result<
        NextImageState,
        NextImageAcquireError,
    >)
        ensures
            acquire_outcome(*old(self), acquired, *final(self), r),
    {
        match acquired {
            Err(code) => {
                if code == ERROR_OUT_OF_DATE {
                    Ok(NextImageState::OutOfDate)
                } else {
                    Err(NextImageAcquireError::NextIndexAcquisition(code))
                }
            },
            Ok((index, suboptimal)) => {
                if index as usize >= self.images.len() {
                    return Err(NextImageAcquireError::InvalidIndex(index, self.images.len()));
                }
                self.current_image_index = index as usize;
                if suboptimal {
                    Ok(NextImageState::Suboptimal)
                } else {
                    Ok(NextImageState::Optimal)
                }
            },
        }
    }

    /// Makes the current slot's color image ready to present: when its
    /// tracked layout is not the present layout, records one barrier in
    /// `barriers` and updates the tracked layout; otherwise records nothing.
    pub fn ensure_presentable(&mut self, barriers: &mut Vec<ImageBarrier>)
        requires
            old(self).has_current(),
        ensures
            final(self).handle == old(self).handle,
            final(self).extent == old(self).extent,
            final(self).depth_images == old(self).depth_images,
            final(self).render_semaphores == old(self).render_semaphores,
            final(self).image_acquired_semaphore == old(self).image_acquired_semaphore,
            final(self).present_fence == old(self).present_fence,
            presentable_step(*old(self), *final(self), old(barriers)@, final(barriers)@),
    {
        let i = self.current_image_index;
        if self.images[i].layout != ImageLayout::PresentSrc {
            let mut s = self.images[i];
            s.cmd_layout_transition(
                barriers,
                ImageLayout::PresentSrc,
                ACCESS_COLOR_ATTACHMENT_WRITE,
                ACCESS_NONE,
                STAGE_COLOR_ATTACHMENT_OUTPUT,
                STAGE_BOTTOM_OF_PIPE,
            );
            self.images.set(i, s);
        }
    }

    /// The color and depth images of the current slot.
    pub fn current_image_resources(&mut self) -> (r: ImageResources<'_>)
        requires
            old(self).wf(),
            old(self).has_current(),
        ensures
            ({
                let i = old(self).current_image_index as int;
                &&& *r.color_image == old(self).images@[i]
                &&& *r.depth_image == old(self).depth_images@[i]
                &&& final(self).images@ == old(self).images@.update(i, *final(r.color_image))
                &&& final(self).depth_images@ == old(self).depth_images@.update(
                    i,
                    *final(r.depth_image),
                )
                &&& final(self).current_image_index == old(self).current_image_index
                &&& final(self).render_semaphores == old(self).render_semaphores
            }),
    {
        let i = self.current_image_index;
        ImageResources { color_image: &mut self.images[i], depth_image: &mut self.depth_images[i] }
    }

    /// The submission of the frame's render commands for the current slot.
    pub fn render_submission(&self) -> (r: RenderSubmission)
        requires
            self.wf(),
            self.has_current(),
        ensures
            r == (RenderSubmission {
                wait_semaphore: self.image_acquired_semaphore,
                wait_stage: STAGE_COLOR_ATTACHMENT_OUTPUT,
                signal_semaphore: self.render_semaphores@[self.current_image_index as int],
                fence: self.present_fence,
            }),
    {
        RenderSubmission {
            wait_semaphore: self.image_acquired_semaphore,
            wait_stage: STAGE_COLOR_ATTACHMENT_OUTPUT,
            signal_semaphore: self.render_semaphores[self.current_image_index],
            fence: self.present_fence,
        }
    }

    /// The presentation request for the current slot.
    pub fn present_request(&self) -> (r: PresentRequest)
        requires
            self.wf(),
            self.has_current(),
            self.images@.len() <= u32::MAX,
        ensures
            r == (PresentRequest {
                wait_semaphore: self.render_semaphores@[self.current_image_index as int],
                swapchain: self.handle,
                image_index: self.current_image_index as u32,
            }),
    {
        PresentRequest {
            wait_semaphore: self.render_semaphores[self.current_image_index],
            swapchain: self.handle,
            image_index: self.current_image_index as u32,
        }
    }
}

/// Presenting: a native failure is returned as it is, never retried.
pub fn present_outcome(result: Result<bool, i32>) -> (r: Result<(), PresentError>)
    ensures
        match result {
            Ok(_) => r == Ok::<(), PresentError>(()),
            Err(code) => r == Err::<(), _>(PresentError::Present(code)),
        },
{
    match result {
        Ok(_) => Ok(()),
        Err(code) => Err(PresentError::Present(code)),
    }
}

/// Making the current image presentable twice in a row leaves it in the
/// present layout, and the second time records no barrier.
pub proof fn lemma_ensure_presentable_idempotent(
    before: Swapchain,
    middle: Swapchain,
    after: Swapchain,
    b0: Seq<ImageBarrier>,
    b1: Seq<ImageBarrier>,
    b2: Seq<ImageBarrier>,
)
    requires
        before.has_current(),
        presentable_step(before, middle, b0, b1),
        presentable_step(middle, after, b1, b2),
    ensures
        after.images@[after.current_image_index as int].layout == ImageLayout::PresentSrc,
        b2 == b1,
        after.images@ == middle.images@,
        b1.len() <= b0.len() + 1,
{
}

/// `after` and `b1` are what `ensure_presentable` leaves of `before` and `b0`.
pub open spec fn presentable_step(
    before: Swapchain,
    after: Swapchain,
    b0: Seq<ImageBarrier>,
    b1: Seq<ImageBarrier>,
) -> bool {
    let i = before.current_image_index as int;
    let s = before.images@[i];
    &&& after.current_image_index == before.current_image_index
    &&& if s.layout != ImageLayout::PresentSrc {
        &&& b1 == b0.push(present_barrier(s))
        &&& after.images@ == before.images@.update(i, with_layout(s, ImageLayout::PresentSrc))
    } else {
        &&& b1 == b0
        &&& after.images@ == before.images@
    }
}

} // verus!
