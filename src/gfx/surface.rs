//! Choosing how to present to a surface, from what the surface offers.
use vstd::prelude::*;

verus! {

/// Present modes, with the native API's values.
pub const PRESENT_MODE_MAILBOX: i32 = 1;
pub const PRESENT_MODE_FIFO: i32 = 2;

/// The preferred surface format and color space, with the native API's values.
pub const FORMAT_B8G8R8A8_SRGB: i32 = 50;
pub const COLOR_SPACE_SRGB_NONLINEAR: i32 = 0;

/// A pixel format and the color space it is presented in.
#[derive(Debug, Clone, Copy, PartialEq, Eq, Structural)]
pub struct SurfaceFormat {
    pub format: i32,
    pub color_space: i32,
}

/// Why a surface could not be set up for a device; the native calls' result
/// codes, or no format at all.
#[derive(Debug, Clone, Copy, PartialEq, Eq, Structural)]
pub enum DeviceSetupError {
    CapabilitiesFetching(i32),
    PresentModeEnumeration(i32),
    FormatEnumeration(i32),
    NoFormat,
}

/// Mailbox when the surface offers it, first-in-first-out (which every
/// surface offers) otherwise.
pub fn select_present_mode(modes: &Vec<i32>) -> (r: i32)
    ensures
        modes@.contains(PRESENT_MODE_MAILBOX) ==> r == PRESENT_MODE_MAILBOX,
        !modes@.contains(PRESENT_MODE_MAILBOX) ==> r == PRESENT_MODE_FIFO,
{
    let mut i: usize = 0;
    while i < modes.len()
        invariant
            i <= modes@.len(),
            forall|k: int| 0 <= k < i ==> modes@[k] != PRESENT_MODE_MAILBOX,
        decreases modes@.len() - i,
    {
        if modes[i] == PRESENT_MODE_MAILBOX {
            return PRESENT_MODE_MAILBOX;
        }
        i = i + 1;
    }
    PRESENT_MODE_FIFO
}

/// The format is 8-bit BGRA sRGB presented in the non-linear sRGB space.
pub open spec fn is_preferred(f: SurfaceFormat) -> bool {
    f.format == FORMAT_B8G8R8A8_SRGB && f.color_space == COLOR_SPACE_SRGB_NONLINEAR
}

/// The preferred format when the surface offers it, else the first one
/// offered. Fails with `NoFormat` when none is offered.
pub fn select_surface_format(formats: &Vec<SurfaceFormat>) -> (r: Result<SurfaceFormat, DeviceSetupError>)
    ensures
        formats@.len() == 0 ==> r == Err::<SurfaceFormat, _>(DeviceSetupError::NoFormat),
        formats@.len() > 0 && (exists|k: int| 0 <= k < formats@.len() && is_preferred(#[trigger] formats@[k]))
            ==> (r matches Ok(f) && is_preferred(f)),
        formats@.len() > 0 && !(exists|k: int| 0 <= k < formats@.len() && is_preferred(#[trigger] formats@[k]))
            ==> r == Ok::<_, DeviceSetupError>(formats@[0]),
{
    if formats.len() == 0 {
        return Err(DeviceSetupError::NoFormat);
    }
    let mut i: usize = 0;
    while i < formats.len()
        invariant
            i <= formats@.len(),
            forall|k: int| 0 <= k < i ==> !is_preferred(#[trigger] formats@[k]),
        decreases formats@.len() - i,
    {
        let f = formats[i];
        if f.format == FORMAT_B8G8R8A8_SRGB && f.color_space == COLOR_SPACE_SRGB_NONLINEAR {
            return Ok(f);
        }
        i = i + 1;
    }
    Ok(formats[0])
}

} // verus!
