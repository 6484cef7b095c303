use miel::gfx::context::{frame_action, FrameAction};
use miel::gfx::image::{
    Extent2D, Extent3D, ImageLayout, ImageState, SubresourceRange, ACCESS_COLOR_ATTACHMENT_WRITE,
    ACCESS_NONE, ASPECT_DEPTH, STAGE_BOTTOM_OF_PIPE, STAGE_COLOR_ATTACHMENT_OUTPUT,
};
use miel::gfx::swapchain::{
    min_image_count, present_outcome, swapchain_extent, NextImageAcquireError, NextImageState,
    PresentError, Swapchain, ERROR_OUT_OF_DATE,
};

fn depth_state(h: u64) -> ImageState {
    ImageState {
        handle: h,
        view: h + 1,
        layout: ImageLayout::Undefined,
        format: 126,
        extent: Extent3D { width: 800, height: 600, depth: 1 },
        extent_2d: Extent2D { width: 800, height: 600 },
        view_subresource_range: SubresourceRange::single_level(ASPECT_DEPTH, 1),
    }
}

fn make_swapchain(handle: u64) -> Swapchain {
    let extent = Extent2D { width: 800, height: 600 };
    Swapchain::new(
        handle,
        extent,
        44,
        &vec![10, 11, 12],
        &vec![20, 21, 22],
        vec![depth_state(30), depth_state(32), depth_state(34)],
        vec![40, 41, 42],
        50,
        60,
    )
}

#[test]
fn new_swapchain_images_start_undefined() {
    let s = make_swapchain(1);
    assert_eq!(s.images.len(), 3);
    assert_eq!(s.images[1].handle, 11);
    assert_eq!(s.images[1].view, 21);
    assert_eq!(s.images[1].layout, ImageLayout::Undefined);
    assert_eq!(s.images[1].extent, Extent3D { width: 800, height: 600, depth: 1 });
    assert_eq!(s.images[1].format, 44);
    assert_eq!(s.current_image_index, usize::MAX);
}

#[test]
fn acquire_outcomes() {
    let mut s = make_swapchain(1);
    assert_eq!(s.next_image(Ok((2, false))), Ok(NextImageState::Optimal));
    assert_eq!(s.current_image_index, 2);
    assert_eq!(s.next_image(Ok((1, true))), Ok(NextImageState::Suboptimal));
    assert_eq!(s.current_image_index, 1);
    assert_eq!(s.next_image(Err(ERROR_OUT_OF_DATE)), Ok(NextImageState::OutOfDate));
    assert_eq!(s.current_image_index, 1);
    assert_eq!(
        s.next_image(Err(-4)),
        Err(NextImageAcquireError::NextIndexAcquisition(-4))
    );
    assert_eq!(
        s.next_image(Ok((3, false))),
        Err(NextImageAcquireError::InvalidIndex(3, 3))
    );
    assert_eq!(s.current_image_index, 1);
}

#[test]
fn ensure_presentable_twice_records_one_barrier() {
    let mut s = make_swapchain(1);
    s.next_image(Ok((0, false))).unwrap();
    let mut barriers = Vec::new();
    s.ensure_presentable(&mut barriers);
    assert_eq!(s.images[0].layout, ImageLayout::PresentSrc);
    assert_eq!(barriers.len(), 1);
    let b = barriers[0];
    assert_eq!(b.image, 10);
    assert_eq!(b.old_layout, ImageLayout::Undefined);
    assert_eq!(b.new_layout, ImageLayout::PresentSrc);
    assert_eq!(b.src_access_mask, ACCESS_COLOR_ATTACHMENT_WRITE);
    assert_eq!(b.dst_access_mask, ACCESS_NONE);
    assert_eq!(b.src_stage_mask, STAGE_COLOR_ATTACHMENT_OUTPUT);
    assert_eq!(b.dst_stage_mask, STAGE_BOTTOM_OF_PIPE);
    s.ensure_presentable(&mut barriers);
    assert_eq!(barriers.len(), 1);
    assert_eq!(s.images[0].layout, ImageLayout::PresentSrc);
    assert_eq!(s.images[1].layout, ImageLayout::Undefined);
}

#[test]
fn out_of_date_then_rebuild_then_acquire() {
    let mut s = make_swapchain(1);
    let state = s.next_image(Err(ERROR_OUT_OF_DATE)).unwrap();
    assert_eq!(state, NextImageState::OutOfDate);
    let before = s.handle;
    match frame_action(state, s.extent) {
        FrameAction::RecreateSwapchain(extent) => {
            assert_eq!(extent, Extent2D { width: 800, height: 600 });
            s = make_swapchain(2);
        }
        FrameAction::Render => panic!("an out-of-date swapchain must be rebuilt"),
    }
    assert_ne!(s.handle, before);
    let state = s.next_image(Ok((0, false))).unwrap();
    assert_eq!(state, NextImageState::Optimal);
    assert_eq!(frame_action(state, s.extent), FrameAction::Render);
    assert_eq!(
        frame_action(NextImageState::Suboptimal, s.extent),
        FrameAction::Render
    );
}

#[test]
fn submission_and_presentation_of_current_slot() {
    let mut s = make_swapchain(9);
    s.next_image(Ok((1, false))).unwrap();
    let sub = s.render_submission();
    assert_eq!(sub.wait_semaphore, 50);
    assert_eq!(sub.wait_stage, STAGE_COLOR_ATTACHMENT_OUTPUT);
    assert_eq!(sub.signal_semaphore, 41);
    assert_eq!(sub.fence, 60);
    let p = s.present_request();
    assert_eq!(p.wait_semaphore, 41);
    assert_eq!(p.swapchain, 9);
    assert_eq!(p.image_index, 1);
    let res = s.current_image_resources();
    assert_eq!(res.color_image.handle, 11);
    assert_eq!(res.depth_image.handle, 32);
    res.color_image.layout = ImageLayout::ColorAttachmentOptimal;
    assert_eq!(s.images[1].layout, ImageLayout::ColorAttachmentOptimal);
}

#[test]
fn present_failure_is_returned() {
    assert_eq!(present_outcome(Ok(false)), Ok(()));
    assert_eq!(present_outcome(Ok(true)), Ok(()));
    assert_eq!(present_outcome(Err(-1000001004)), Err(PresentError::Present(-1000001004)));
}

#[test]
fn image_count_and_extent() {
    assert_eq!(min_image_count(2, 0), 3);
    assert_eq!(min_image_count(2, 8), 3);
    assert_eq!(min_image_count(3, 3), 3);
    assert_eq!(min_image_count(u32::MAX, 0), u32::MAX);
    let suggested = Extent2D { width: 1280, height: 720 };
    let current = Extent2D { width: 640, height: 480 };
    assert_eq!(swapchain_extent(current, suggested), current);
    assert_eq!(
        swapchain_extent(Extent2D { width: u32::MAX, height: u32::MAX }, suggested),
        suggested
    );
}
