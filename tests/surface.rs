use miel::application::WindowCreationInfo;
use miel::gfx::device::has_required_extensions;
use miel::gfx::surface::{
    select_present_mode, select_surface_format, DeviceSetupError, SurfaceFormat,
    COLOR_SPACE_SRGB_NONLINEAR, FORMAT_B8G8R8A8_SRGB, PRESENT_MODE_FIFO, PRESENT_MODE_MAILBOX,
};

#[test]
fn mailbox_is_preferred() {
    assert_eq!(select_present_mode(&vec![0, 2, 1]), PRESENT_MODE_MAILBOX);
    assert_eq!(select_present_mode(&vec![0, 2]), PRESENT_MODE_FIFO);
    assert_eq!(select_present_mode(&vec![]), PRESENT_MODE_FIFO);
}

#[test]
fn srgb_format_is_preferred() {
    let other = SurfaceFormat { format: 44, color_space: 0 };
    let srgb = SurfaceFormat {
        format: FORMAT_B8G8R8A8_SRGB,
        color_space: COLOR_SPACE_SRGB_NONLINEAR,
    };
    assert_eq!(select_surface_format(&vec![other, srgb]), Ok(srgb));
    assert_eq!(select_surface_format(&vec![other]), Ok(other));
    assert_eq!(select_surface_format(&vec![]), Err(DeviceSetupError::NoFormat));
}

#[test]
fn required_extensions() {
    let both = vec![
        "VK_KHR_dynamic_rendering".to_owned(),
        "VK_EXT_other".to_owned(),
        "VK_KHR_swapchain".to_owned(),
    ];
    assert!(has_required_extensions(&both));
    assert!(!has_required_extensions(&vec!["VK_KHR_swapchain".to_owned()]));
    assert!(!has_required_extensions(&vec![]));
}

#[test]
fn window_title() {
    assert_eq!(WindowCreationInfo::new("霊夢").title, "霊夢");
}
