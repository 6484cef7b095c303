//! Plain-value models of GPU images: extents, layouts, subresource ranges, the
//! tracked state of one image, and the layout-transition barriers issued on it.
use vstd::prelude::*;

use crate::gfx::resource::{AttachmentSize, ImageAttachmentInfo};

verus! {

/// A two-dimensional size in texels.
#[derive(Debug, Clone, Copy, PartialEq, Eq, Structural, Default)]
pub struct Extent2D {
    pub width: u32,
    pub height: u32,
}

/// A three-dimensional size in texels.
#[derive(Debug, Clone, Copy, PartialEq, Eq, Structural, Default)]
pub struct Extent3D {
    pub width: u32,
    pub height: u32,
    pub depth: u32,
}

impl Extent2D {
    /// The same size as a 3D extent one texel deep.
    pub open spec fn to_3d_spec(self) -> Extent3D {
        Extent3D { width: self.width, height: self.height, depth: 1 }
    }

    /// The same size as a 3D extent one texel deep.
    pub fn to_3d(self) -> (r: Extent3D)
        ensures
            r == self.to_3d_spec(),
    {
        Extent3D { width: self.width, height: self.height, depth: 1 }
    }
}

impl Extent3D {
    /// The width and height of this extent.
    pub fn to_2d(self) -> (r: Extent2D)
        ensures
            r == (Extent2D { width: self.width, height: self.height }),
    {
        Extent2D { width: self.width, height: self.height }
    }
}


/// The layouts an image of this engine passes through.
#[derive(Debug, Clone, Copy, PartialEq, Eq, Structural)]
pub enum ImageLayout {
    Undefined,
    ColorAttachmentOptimal,
    DepthStencilAttachmentOptimal,
    PresentSrc,
}

impl ImageLayout {
    /// The numeric code of this layout in the native API.
    pub fn as_raw(self) -> (r: i32)
        ensures
            r == layout_code(self),
    {
        match self {
            ImageLayout::Undefined => 0,
            ImageLayout::ColorAttachmentOptimal => 2,
            ImageLayout::DepthStencilAttachmentOptimal => 3,
            ImageLayout::PresentSrc => 1000001002,
        }
    }
}

/// The native API's numeric code of a layout.
pub open spec fn layout_code(l: ImageLayout) -> i32 {
    match l {
        ImageLayout::Undefined => 0,
        ImageLayout::ColorAttachmentOptimal => 2,
        ImageLayout::DepthStencilAttachmentOptimal => 3,
        ImageLayout::PresentSrc => 1000001002,
    }
}

/// Memory access bits, with the native API's values.
pub const ACCESS_NONE: u32 = 0;
pub const ACCESS_COLOR_ATTACHMENT_READ: u32 = 0x80;
pub const ACCESS_COLOR_ATTACHMENT_WRITE: u32 = 0x100;
pub const ACCESS_DEPTH_STENCIL_ATTACHMENT_READ: u32 = 0x200;
pub const ACCESS_DEPTH_STENCIL_ATTACHMENT_WRITE: u32 = 0x400;

/// Pipeline stage bits, with the native API's values.
pub const STAGE_FRAGMENT_SHADER: u32 = 0x80;
pub const STAGE_LATE_FRAGMENT_TESTS: u32 = 0x200;
pub const STAGE_COLOR_ATTACHMENT_OUTPUT: u32 = 0x400;
pub const STAGE_BOTTOM_OF_PIPE: u32 = 0x2000;

/// Image aspect bits, with the native API's values.
pub const ASPECT_COLOR: u32 = 0x1;
pub const ASPECT_DEPTH: u32 = 0x2;

/// Image usage bits, with the native API's values.
pub const USAGE_COLOR_ATTACHMENT: u32 = 0x10;
pub const USAGE_DEPTH_STENCIL_ATTACHMENT: u32 = 0x20;

/// Pixel formats, with the native API's values.
pub const FORMAT_UNDEFINED: i32 = 0;
pub const FORMAT_D32_SFLOAT: i32 = 126;

/// The part of an image (aspect, mip levels, array layers) that a view or a
/// barrier covers.
#[derive(Debug, Clone, Copy, PartialEq, Eq, Structural, Default)]
pub struct SubresourceRange {
    pub aspect_mask: u32,
    pub base_mip_level: u32,
    pub level_count: u32,
    pub base_array_layer: u32,
    pub layer_count: u32,
}

impl SubresourceRange {
    /// The first mip level and the first `layer_count` layers of one aspect.
    pub fn single_level(aspect_mask: u32, layer_count: u32) -> (r: SubresourceRange)
        ensures
            r == (SubresourceRange {
                aspect_mask,
                base_mip_level: 0,
                level_count: 1,
                base_array_layer: 0,
                layer_count,
            }),
    {
        SubresourceRange { aspect_mask, base_mip_level: 0, level_count: 1, base_array_layer: 0, layer_count }
    }
}

/// The tracked state of one GPU image: its handles (as the native API's raw
/// values), its current layout, its format and its size.
///
/// The layout is what layout-transition logic reads: every transition issued on
/// the image updates it, so that it always names the image's true layout.
#[derive(Debug, Clone, Copy, PartialEq, Eq, Structural)]
pub struct ImageState {
    pub handle: u64,
    pub view: u64,
    pub layout: ImageLayout,
    pub format: i32,
    pub extent: Extent3D,
    pub extent_2d: Extent2D,
    pub view_subresource_range: SubresourceRange,
}

/// One image layout-transition barrier, as recorded into a command buffer.
#[derive(Debug, Clone, Copy, PartialEq, Eq, Structural)]
pub struct ImageBarrier {
    pub image: u64,
    pub old_layout: ImageLayout,
    pub new_layout: ImageLayout,
    pub src_access_mask: u32,
    pub dst_access_mask: u32,
    pub src_stage_mask: u32,
    pub dst_stage_mask: u32,
    pub subresource_range: SubresourceRange,
}

/// The barrier that moves image `s` from its tracked layout to `new_layout`.
pub open spec fn transition_barrier(
    s: ImageState,
    new_layout: ImageLayout,
    src_access: u32,
    dst_access: u32,
    src_stage: u32,
    dst_stage: u32,
) -> ImageBarrier {
    ImageBarrier {
        image: s.handle,
        old_layout: s.layout,
        new_layout,
        src_access_mask: src_access,
        dst_access_mask: dst_access,
        src_stage_mask: src_stage,
        dst_stage_mask: dst_stage,
        subresource_range: s.view_subresource_range,
    }
}

/// `s` with its tracked layout replaced.
pub open spec fn with_layout(s: ImageState, l: ImageLayout) -> ImageState {
    ImageState { layout: l, ..s }
}

impl ImageState {
    /// Records in `barriers` a transition of this image to `new_layout` and
    /// updates the tracked layout to match.
    pub fn cmd_layout_transition(
        &mut self,
        barriers: &mut Vec<ImageBarrier>,
        new_layout: ImageLayout,
        src_access: u32,
        dst_access: u32,
        src_stage: u32,
        dst_stage: u32,
    )
        ensures
            final(barriers)@ == old(barriers)@.push(
                transition_barrier(*old(self), new_layout, src_access, dst_access, src_stage, dst_stage),
            ),
            *final(self) == with_layout(*old(self), new_layout),
    {
        let barrier = ImageBarrier {
            image: self.handle,
            old_layout: self.layout,
            new_layout,
            src_access_mask: src_access,
            dst_access_mask: dst_access,
            src_stage_mask: src_stage,
            dst_stage_mask: dst_stage,
            subresource_range: self.view_subresource_range,
        };
        barriers.push(barrier);
        self.layout = new_layout;
    }
}


/// What is needed to create one 2D, single-mip, optimally tiled image and its
/// view: the native calls that create them read these values.
#[derive(Debug, Clone)]
pub struct ImageCreateInfo {
    pub extent: Extent3D,
    pub format: i32,
    pub array_layers: u32,
    pub usage: u32,
    pub initial_layout: ImageLayout,
    pub view_subresource_range: SubresourceRange,
    pub allocation_name: String,
}

/// The zero extent, which stands for "the swapchain's extent".
pub open spec fn zero_extent() -> Extent3D {
    Extent3D { width: 0, height: 0, depth: 0 }
}

/// The extent that a description's size policy asks for, before the
/// swapchain's extent is known.
pub open spec fn requested_extent(size: AttachmentSize) -> Extent3D {
    match size {
        AttachmentSize::SwapchainBased => zero_extent(),
        AttachmentSize::Custom(e) => e,
    }
}

impl ImageCreateInfo {
    /// The depth image that accompanies each presentable swapchain image.
    pub fn swapchain_depth_image(depth_extent: Extent3D) -> (r: ImageCreateInfo)
        ensures
            r.extent == depth_extent,
            r.format == FORMAT_D32_SFLOAT,
            r.array_layers == 1,
            r.usage == USAGE_DEPTH_STENCIL_ATTACHMENT,
            r.initial_layout == ImageLayout::Undefined,
            r.view_subresource_range == (SubresourceRange {
                aspect_mask: ASPECT_DEPTH,
                base_mip_level: 0,
                level_count: 1,
                base_array_layer: 0,
                layer_count: 1,
            }),
    {
        ImageCreateInfo {
            extent: depth_extent,
            format: FORMAT_D32_SFLOAT,
            array_layers: 1,
            usage: USAGE_DEPTH_STENCIL_ATTACHMENT,
            initial_layout: ImageLayout::Undefined,
            view_subresource_range: SubresourceRange::single_level(ASPECT_DEPTH, 1),
            allocation_name: "swapchain depth image".to_owned(),
        }
    }

    /// The image that an attachment description asks for. A swapchain-sized
    /// description gets the zero extent, which `resolve_extent` later replaces.
    pub fn from_attachment_info(info: &ImageAttachmentInfo) -> (r: ImageCreateInfo)
        ensures
            r.extent == requested_extent(info.size),
            r.format == info.format,
            r.array_layers == info.layer_count,
            r.usage == info.usage,
            r.initial_layout == ImageLayout::Undefined,
            r.view_subresource_range == (SubresourceRange {
                aspect_mask: ASPECT_COLOR,
                base_mip_level: 0,
                level_count: 1,
                base_array_layer: 0,
                layer_count: info.layer_count,
            }),
            r.allocation_name == info.name,
    {
        let extent = match info.size {
            AttachmentSize::SwapchainBased => Extent3D { width: 0, height: 0, depth: 0 },
            AttachmentSize::Custom(e) => e,
        };
        ImageCreateInfo {
            extent,
            format: info.format,
            array_layers: info.layer_count,
            usage: info.usage,
            initial_layout: ImageLayout::Undefined,
            view_subresource_range: SubresourceRange::single_level(ASPECT_COLOR, info.layer_count),
            allocation_name: info.name.clone(),
        }
    }

    /// Replaces the zero extent by the swapchain's; any other extent is kept
    /// as it is.
    pub fn resolve_extent(self, swapchain_extent: Extent2D) -> (r: ImageCreateInfo)
        ensures
            self.extent == zero_extent() ==> r.extent == (Extent3D {
                width: swapchain_extent.width,
                height: swapchain_extent.height,
                depth: 1,
            }),
            self.extent != zero_extent() ==> r.extent == self.extent,
            r == (ImageCreateInfo { extent: r.extent, ..self }),
    {
        let mut s = self;
        if s.extent.width == 0 && s.extent.height == 0 && s.extent.depth == 0 {
            s.extent = swapchain_extent.to_3d();
        }
        s
    }

    /// The tracked state of the image made from this description, once the
    /// native calls have returned its handle and its view's handle.
    pub fn initial_state(&self, handle: u64, view: u64) -> (r: ImageState)
        ensures
            r == (ImageState {
                handle,
                view,
                layout: self.initial_layout,
                format: self.format,
                extent: self.extent,
                extent_2d: Extent2D { width: self.extent.width, height: self.extent.height },
                view_subresource_range: self.view_subresource_range,
            }),
    {
        ImageState {
            handle,
            view,
            layout: self.initial_layout,
            format: self.format,
            extent: self.extent,
            extent_2d: self.extent.to_2d(),
            view_subresource_range: self.view_subresource_range,
        }
    }
}

} // verus!
