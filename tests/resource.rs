use miel::gfx::image::{
    Extent2D, Extent3D, ImageCreateInfo, ImageLayout, ImageState, FORMAT_UNDEFINED,
    USAGE_COLOR_ATTACHMENT,
};
use miel::gfx::resource::{
    AttachmentSize, ImageAttachmentInfo, RegistryCreateError, ResourceID, ResourceInfoInsertError,
    ResourceInfoRegistry,
};

fn make_state(info: &ImageAttachmentInfo, swapchain: Extent2D, handle: u64) -> ImageState {
    ImageCreateInfo::from_attachment_info(info)
        .resolve_extent(swapchain)
        .initial_state(handle, handle + 1000)
}

#[test]
fn default_description_values() {
    let info = ImageAttachmentInfo::default();
    assert_eq!(info.name, "");
    assert_eq!(info.size, AttachmentSize::SwapchainBased);
    assert_eq!(info.format, FORMAT_UNDEFINED);
    assert_eq!(info.usage, USAGE_COLOR_ATTACHMENT);
    assert_eq!(info.layer_count, 1);
}

#[test]
fn fresh_descriptions_get_distinct_ids() {
    let a = ImageAttachmentInfo::new("a");
    let b = ImageAttachmentInfo::new("a");
    assert_ne!(a.id, b.id);
    assert_eq!(a.id(), ResourceID::Other(a.id));
}

#[test]
fn clone_regenerates_id() {
    let a = ImageAttachmentInfo::new("albedo").format(37).layer_count(2);
    let b = a.clone();
    assert_ne!(a.id, b.id);
    assert_eq!(b.name, "albedo");
    assert_eq!(b.format, 37);
    assert_eq!(b.layer_count, 2);
}

#[test]
fn builders_set_fields() {
    let e = Extent3D { width: 4, height: 5, depth: 6 };
    let info = ImageAttachmentInfo::new("x")
        .name("y")
        .size(AttachmentSize::Custom(e))
        .format(44)
        .usage(0x30)
        .layer_count(3);
    assert_eq!(info.name, "y");
    assert_eq!(info.size, AttachmentSize::Custom(e));
    assert_eq!(info.format, 44);
    assert_eq!(info.usage, 0x30);
    assert_eq!(info.layer_count, 3);
}

#[test]
fn added_ids_are_unique_and_not_swapchain_tags() {
    let mut reg = ResourceInfoRegistry::new();
    let a = reg.add_image_attachment(ImageAttachmentInfo::new("a")).unwrap();
    let b = reg.add_image_attachment(ImageAttachmentInfo::new("b")).unwrap();
    let c = reg.add_image_attachment(ImageAttachmentInfo::new("c")).unwrap();
    for id in [a, b, c] {
        assert_ne!(id, ResourceID::SwapchainColorAttachment);
        assert_ne!(id, ResourceID::SwapchainDSAttachment);
    }
    assert_ne!(a, b);
    assert_ne!(b, c);
    assert_ne!(a, c);
    assert_eq!(reg.len(), 3);
}

#[test]
fn duplicate_id_is_refused_without_overwrite() {
    let mut reg = ResourceInfoRegistry::new();
    let first = ImageAttachmentInfo::new("first").format(1);
    let mut second = ImageAttachmentInfo::new("second").format(2);
    second.id = first.id;
    let id = reg.add_image_attachment(first).unwrap();
    assert_eq!(
        reg.add_image_attachment(second),
        Err(ResourceInfoInsertError::AlreadyPresent)
    );
    assert_eq!(reg.len(), 1);
    let graph = reg
        .create_resources(|info: &ImageAttachmentInfo| -> Result<(String, ImageState), ()> {
            Ok((info.name.clone(), make_state(info, Extent2D { width: 1, height: 1 }, 1)))
        })
        .ok()
        .unwrap();
    assert_eq!(graph.get(&id).unwrap().info.name, "first");
    assert_eq!(graph.get(&id).unwrap().info.format, 1);
}

#[test]
fn create_resources_keeps_custom_extent() {
    let requested = Extent3D { width: 64, height: 32, depth: 8 };
    let mut reg = ResourceInfoRegistry::new();
    let id = reg
        .add_image_attachment(ImageAttachmentInfo::new("volume").size(AttachmentSize::Custom(requested)))
        .unwrap();
    let swapchain = Extent2D { width: 1280, height: 720 };
    let graph = reg
        .create_resources(|info: &ImageAttachmentInfo| -> Result<((), ImageState), ()> {
            Ok(((), make_state(info, swapchain, 7)))
        })
        .ok()
        .unwrap();
    let attachment = graph.get(&id).unwrap();
    assert_eq!(attachment.state.extent, requested);
    assert_eq!(attachment.state.extent_2d, Extent2D { width: 64, height: 32 });
    assert_eq!(attachment.state.layout, ImageLayout::Undefined);
}

#[test]
fn create_resources_sizes_swapchain_based_images() {
    let mut reg = ResourceInfoRegistry::new();
    let id = reg.add_image_attachment(ImageAttachmentInfo::new("color")).unwrap();
    let swapchain = Extent2D { width: 800, height: 600 };
    let graph = reg
        .create_resources(|info: &ImageAttachmentInfo| -> Result<((), ImageState), ()> {
            Ok(((), make_state(info, swapchain, 7)))
        })
        .ok()
        .unwrap();
    assert_eq!(
        graph.get(&id).unwrap().state.extent,
        Extent3D { width: 800, height: 600, depth: 1 }
    );
}

#[test]
fn create_resources_is_all_or_nothing() {
    let mut reg = ResourceInfoRegistry::new();
    reg.add_image_attachment(ImageAttachmentInfo::new("ok")).unwrap();
    reg.add_image_attachment(ImageAttachmentInfo::new("bad")).unwrap();
    reg.add_image_attachment(ImageAttachmentInfo::new("later")).unwrap();
    let made = std::cell::Cell::new(0u32);
    let result = reg.create_resources(|info: &ImageAttachmentInfo| -> Result<((), ImageState), i32> {
        if info.name == "bad" {
            Err(-2)
        } else {
            made.set(made.get() + 1);
            Ok(((), make_state(info, Extent2D { width: 1, height: 1 }, 1)))
        }
    });
    match result {
        Err(RegistryCreateError::ImageAttachmentCreation(code)) => assert_eq!(code, -2),
        Ok(_) => panic!("creation should fail"),
    }
    assert_eq!(made.get(), 1);
}

#[test]
fn graph_registry_has_no_swapchain_images() {
    let reg = ResourceInfoRegistry::new();
    let graph = reg
        .create_resources(|info: &ImageAttachmentInfo| -> Result<((), ImageState), ()> {
            Ok(((), make_state(info, Extent2D { width: 1, height: 1 }, 1)))
        })
        .ok()
        .unwrap();
    assert!(graph.get(&ResourceID::SwapchainColorAttachment).is_none());
    assert!(graph.get(&ResourceID::SwapchainDSAttachment).is_none());
    assert!(graph.get(&ResourceID::Other(5)).is_none());
    assert_eq!(graph.len(), 0);
}
