use miel::gfx::image::{
    Extent2D, Extent3D, ImageCreateInfo, ImageLayout, ImageState, SubresourceRange,
    ACCESS_COLOR_ATTACHMENT_READ, ACCESS_COLOR_ATTACHMENT_WRITE,
    ACCESS_DEPTH_STENCIL_ATTACHMENT_READ, ACCESS_DEPTH_STENCIL_ATTACHMENT_WRITE, ASPECT_COLOR,
    ASPECT_DEPTH, STAGE_COLOR_ATTACHMENT_OUTPUT, STAGE_FRAGMENT_SHADER, STAGE_LATE_FRAGMENT_TESTS,
};
use miel::gfx::render_graph::{RenderGraph, RenderGraphInfo, RenderGraphRunError};
use miel::gfx::render_pass::SimpleRenderPass;
use miel::gfx::resource::{
    ImageAttachmentInfo, ResourceAccessType, ResourceID, ResourceInfoRegistry,
};

const SWAPCHAIN: Extent2D = Extent2D { width: 1280, height: 720 };

fn swapchain_color() -> ImageState {
    ImageState {
        handle: 1,
        view: 2,
        layout: ImageLayout::Undefined,
        format: 50,
        extent: Extent3D { width: 1280, height: 720, depth: 1 },
        extent_2d: SWAPCHAIN,
        view_subresource_range: SubresourceRange::single_level(ASPECT_COLOR, 1),
    }
}

fn swapchain_depth() -> ImageState {
    ImageState {
        handle: 3,
        view: 4,
        layout: ImageLayout::Undefined,
        format: 126,
        extent: Extent3D { width: 1280, height: 720, depth: 1 },
        extent_2d: SWAPCHAIN,
        view_subresource_range: SubresourceRange::single_level(ASPECT_DEPTH, 1),
    }
}

fn build(info: RenderGraphInfo) -> RenderGraph<u64> {
    let next = std::cell::Cell::new(100u64);
    RenderGraph::new(info, |desc: &ImageAttachmentInfo| -> Result<(u64, ImageState), ()> {
        let h = next.get();
        next.set(h + 2);
        Ok((h, ImageCreateInfo::from_attachment_info(desc).resolve_extent(SWAPCHAIN).initial_state(h, h + 1)))
    })
    .ok()
    .unwrap()
}

#[test]
fn one_pass_custom_and_swapchain_color() {
    let mut reg = ResourceInfoRegistry::new();
    let custom = reg
        .add_image_attachment(ImageAttachmentInfo::new("custom").format(37))
        .unwrap();
    let pass = SimpleRenderPass::new("main", ())
        .add_color_attachment(custom, ResourceAccessType::WriteOnly)
        .add_color_attachment(ResourceID::SwapchainColorAttachment, ResourceAccessType::WriteOnly);
    let info = RenderGraphInfo::new(reg).push_render_pass(pass.attachment_infos().clone());
    let mut graph = build(info);
    let mut color = swapchain_color();
    let mut depth = swapchain_depth();
    let plans = graph.render(&mut color, &mut depth).unwrap();
    assert_eq!(plans.len(), 1);
    let state = graph.resources.get(&custom).unwrap().state;
    assert_eq!(state.layout, ImageLayout::ColorAttachmentOptimal);
    assert_eq!(state.format, 37);
    assert_eq!(state.extent_2d, SWAPCHAIN);
    assert_eq!(color.layout, ImageLayout::ColorAttachmentOptimal);
    let plan = &plans[0];
    assert_eq!(plan.barriers.len(), 2);
    assert_eq!(plan.barriers[0].image, state.handle);
    assert_eq!(plan.barriers[0].old_layout, ImageLayout::Undefined);
    assert_eq!(plan.barriers[0].new_layout, ImageLayout::ColorAttachmentOptimal);
    assert_eq!(plan.barriers[0].src_access_mask, ACCESS_COLOR_ATTACHMENT_WRITE);
    assert_eq!(plan.barriers[0].dst_access_mask, ACCESS_COLOR_ATTACHMENT_WRITE);
    assert_eq!(plan.barriers[0].src_stage_mask, STAGE_COLOR_ATTACHMENT_OUTPUT);
    assert_eq!(plan.barriers[1].image, 1);
    assert_eq!(plan.render_area, SWAPCHAIN);
    assert_eq!(plan.color_attachments.len(), 2);
    assert_eq!(plan.color_attachments[0].view, state.view);
    assert_eq!(plan.color_attachments[0].layout, ImageLayout::ColorAttachmentOptimal);
    assert_eq!(plan.color_attachments[1].view, 2);
    assert!(plan.depth_attachment.is_none());
}

#[test]
fn second_frame_needs_no_barrier() {
    let mut reg = ResourceInfoRegistry::new();
    let custom = reg.add_image_attachment(ImageAttachmentInfo::new("custom")).unwrap();
    let pass = SimpleRenderPass::new("main", 0u8).add_color_attachment(custom, ResourceAccessType::ReadWrite);
    let mut graph = build(RenderGraphInfo::new(reg).push_render_pass(pass.attachment_infos.clone()));
    let mut color = swapchain_color();
    let mut depth = swapchain_depth();
    let first = graph.render(&mut color, &mut depth).unwrap();
    assert_eq!(first[0].barriers.len(), 1);
    assert_eq!(
        first[0].barriers[0].dst_access_mask,
        ACCESS_COLOR_ATTACHMENT_READ | ACCESS_COLOR_ATTACHMENT_WRITE
    );
    let second = graph.render(&mut color, &mut depth).unwrap();
    assert_eq!(second[0].barriers.len(), 0);
    assert_eq!(second[0].color_attachments.len(), 1);
}

#[test]
fn read_only_access_mask() {
    let reg = ResourceInfoRegistry::new();
    let pass = SimpleRenderPass::new("p", ())
        .add_color_attachment(ResourceID::SwapchainColorAttachment, ResourceAccessType::ReadOnly);
    let mut graph = build(RenderGraphInfo::new(reg).push_render_pass(pass.attachment_infos.clone()));
    let mut color = swapchain_color();
    let mut depth = swapchain_depth();
    let plans = graph.render(&mut color, &mut depth).unwrap();
    assert_eq!(plans[0].barriers[0].dst_access_mask, ACCESS_COLOR_ATTACHMENT_READ);
}

#[test]
fn depth_attachment_transition() {
    let reg = ResourceInfoRegistry::new();
    let pass = SimpleRenderPass::new("p", ())
        .add_color_attachment(ResourceID::SwapchainColorAttachment, ResourceAccessType::WriteOnly)
        .add_depth_attachment(ResourceID::SwapchainDSAttachment);
    let mut graph = build(RenderGraphInfo::new(reg).push_render_pass(pass.attachment_infos.clone()));
    let mut color = swapchain_color();
    let mut depth = swapchain_depth();
    let plans = graph.render(&mut color, &mut depth).unwrap();
    let b = plans[0].barriers[1];
    assert_eq!(b.image, 3);
    assert_eq!(b.new_layout, ImageLayout::DepthStencilAttachmentOptimal);
    assert_eq!(b.src_access_mask, ACCESS_DEPTH_STENCIL_ATTACHMENT_WRITE);
    assert_eq!(b.dst_access_mask, ACCESS_DEPTH_STENCIL_ATTACHMENT_READ);
    assert_eq!(b.src_stage_mask, STAGE_LATE_FRAGMENT_TESTS);
    assert_eq!(b.dst_stage_mask, STAGE_FRAGMENT_SHADER);
    assert_eq!(depth.layout, ImageLayout::DepthStencilAttachmentOptimal);
    let d = plans[0].depth_attachment.unwrap();
    assert_eq!(d.view, 4);
    assert_eq!(d.layout, ImageLayout::DepthStencilAttachmentOptimal);
}

#[test]
fn unknown_attachment_is_invalid_resource() {
    let reg = ResourceInfoRegistry::new();
    let pass = SimpleRenderPass::new("p", ())
        .add_color_attachment(ResourceID::Other(42), ResourceAccessType::WriteOnly);
    let mut graph = build(RenderGraphInfo::new(reg).push_render_pass(pass.attachment_infos.clone()));
    let mut color = swapchain_color();
    let mut depth = swapchain_depth();
    assert_eq!(
        graph.render(&mut color, &mut depth).err(),
        Some(RenderGraphRunError::InvalidResource)
    );
}

#[test]
fn empty_graph_renders_nothing() {
    let mut graph: RenderGraph<u64> = RenderGraph::empty();
    let mut color = swapchain_color();
    let mut depth = swapchain_depth();
    assert_eq!(graph.render(&mut color, &mut depth).unwrap().len(), 0);
    assert_eq!(color.layout, ImageLayout::Undefined);
}

#[test]
fn redeclaring_a_color_attachment_replaces_its_access() {
    let pass = SimpleRenderPass::new("p", ())
        .add_color_attachment(ResourceID::SwapchainColorAttachment, ResourceAccessType::ReadOnly)
        .add_color_attachment(ResourceID::SwapchainColorAttachment, ResourceAccessType::WriteOnly)
        .request_swapchain_resources(ResourceAccessType::ReadWrite)
        .name("renamed");
    assert_eq!(pass.attachment_infos.color_attachments.len(), 1);
    assert_eq!(
        pass.attachment_infos.color_attachments[0],
        (ResourceID::SwapchainColorAttachment, ResourceAccessType::WriteOnly)
    );
    assert_eq!(pass.attachment_infos.swapchain_resources, Some(ResourceAccessType::ReadWrite));
    assert_eq!(pass.name, "renamed");
}
