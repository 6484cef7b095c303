//! Naming and choosing physical devices, from the properties the native
//! queries report.
use vstd::prelude::*;

verus! {

/// Physical device types, with the native API's values.
pub const DEVICE_TYPE_INTEGRATED_GPU: i32 = 1;
pub const DEVICE_TYPE_DISCRETE_GPU: i32 = 2;
pub const DEVICE_TYPE_VIRTUAL_GPU: i32 = 3;
pub const DEVICE_TYPE_CPU: i32 = 4;

/// The vendor that a PCI vendor identifier names.
pub open spec fn vendor_name(vendor_id: u32) -> Seq<char> {
    if vendor_id == 0x1002 {
        "AMD"@
    } else if vendor_id == 0x1010 {
        "ImgTec"@
    } else if vendor_id == 0x10DE {
        "NVIDIA"@
    } else if vendor_id == 0x13B5 {
        "ARM"@
    } else if vendor_id == 0x5143 {
        "Qualcomm"@
    } else if vendor_id == 0x8086 {
        "Intel"@
    } else {
        "unknown"@
    }
}

/// The name of a device type.
pub open spec fn device_type_name(device_type: i32) -> Seq<char> {
    if device_type == DEVICE_TYPE_INTEGRATED_GPU {
        "integrated GPU"@
    } else if device_type == DEVICE_TYPE_DISCRETE_GPU {
        "discrete GPU"@
    } else if device_type == DEVICE_TYPE_VIRTUAL_GPU {
        "virtual GPU"@
    } else if device_type == DEVICE_TYPE_CPU {
        "CPU"@
    } else {
        "other"@
    }
}

/// The vendor that a PCI vendor identifier names, or "unknown".
pub fn vendor_id_to_str(vendor_id: u32) -> (r: &'static str)
    ensures
        r@ == vendor_name(vendor_id),
{
    match vendor_id {
        0x1002 => "AMD",
        0x1010 => "ImgTec",
        0x10DE => "NVIDIA",
        0x13B5 => "ARM",
        0x5143 => "Qualcomm",
        0x8086 => "Intel",
        _ => "unknown",
    }
}

/// The name of a device type, or "other".
pub fn device_type_to_str(device_type: i32) -> (r: &'static str)
    ensures
        r@ == device_type_name(device_type),
{
    if device_type == DEVICE_TYPE_INTEGRATED_GPU {
        "integrated GPU"
    } else if device_type == DEVICE_TYPE_DISCRETE_GPU {
        "discrete GPU"
    } else if device_type == DEVICE_TYPE_VIRTUAL_GPU {
        "virtual GPU"
    } else if device_type == DEVICE_TYPE_CPU {
        "CPU"
    } else {
        "other"
    }
}

/// Some name in `names` is `name`.
pub open spec fn offers(names: Seq<String>, name: Seq<char>) -> bool {
    exists|i: int| 0 <= i < names.len() && names[i]@ == name
}

/// Whether `names` holds `name`.
fn contains_name(names: &Vec<String>, name: &String) -> (r: bool)
    ensures
        r == offers(names@, name@),
{
    let mut i: usize = 0;
    while i < names.len()
        invariant
            i <= names@.len(),
            forall|k: int| 0 <= k < i ==> names@[k]@ != name@,
        decreases names@.len() - i,
    {
        if names[i] == *name {
            return true;
        }
        i = i + 1;
    }
    false
}

/// Whether a device that offers the extensions `supported` has every
/// extension the engine needs: the swapchain and dynamic rendering.
pub fn has_required_extensions(supported: &Vec<String>) -> (r: bool)
    ensures
        r == (offers(supported@, "VK_KHR_swapchain"@) && offers(
            supported@,
            "VK_KHR_dynamic_rendering"@,
        )),
{
    let swapchain = "VK_KHR_swapchain".to_owned();
    let dynamic_rendering = "VK_KHR_dynamic_rendering".to_owned();
    contains_name(supported, &swapchain) && contains_name(supported, &dynamic_rendering)
}

/// Why no physical device was chosen.
#[derive(Debug, Clone, Copy, PartialEq, Eq, Structural)]
pub enum PhysicalDeviceSelectError {
    DeviceEnumeration(i32),
    DeviceNameFetching,
    DeviceNameConversion,
    NoDevice,
}

/// What the native queries report of one physical device: its API version,
/// its type, whether it offers every required extension, and its first queue
/// family that supports graphics, compute and presentation to the target
/// surface, if it has one.
#[derive(Debug, Clone, Copy, PartialEq, Eq, Structural)]
pub struct DeviceCandidate {
    pub api_version: u32,
    pub device_type: i32,
    pub has_required_extensions: bool,
    pub graphics_queue_family: Option<u32>,
}

/// `c` can run the engine: a recent enough API, every required extension, and
/// a suitable queue family.
pub open spec fn is_compatible(c: DeviceCandidate, minimum_version: u32) -> bool {
    &&& c.api_version >= minimum_version
    &&& c.has_required_extensions
    &&& c.graphics_queue_family is Some
}

/// `c` is a discrete GPU.
pub open spec fn is_discrete(c: DeviceCandidate) -> bool {
    c.device_type == DEVICE_TYPE_DISCRETE_GPU
}

/// Chooses a device among `candidates`, as a stable ordering that puts
/// discrete GPUs after the others and then takes the first compatible
/// device: the first compatible device that is not a discrete GPU, or else
/// the first compatible discrete GPU. Fails with `NoDevice` when none is
/// compatible.
pub fn select_physical_device(candidates: &Vec<DeviceCandidate>, minimum_version: u32) -> (r:
    Result<usize, PhysicalDeviceSelectError>)
    ensures
        match r {
            Ok(i) => {
                &&& i < candidates@.len()
                &&& is_compatible(candidates@[i as int], minimum_version)
                &&& if is_discrete(candidates@[i as int]) {
                    &&& forall|k: int|
                        0 <= k < candidates@.len() && is_compatible(candidates@[k], minimum_version)
                            ==> is_discrete(candidates@[k])
                    &&& forall|k: int|
                        0 <= k < i ==> !is_compatible(#[trigger] candidates@[k], minimum_version)
                } else {
                    forall|k: int|
                        0 <= k < i ==> !is_compatible(#[trigger] candidates@[k], minimum_version)
                            || is_discrete(candidates@[k])
                }
            },
            Err(e) => {
                &&& e == PhysicalDeviceSelectError::NoDevice
                &&& forall|k: int|
                    0 <= k < candidates@.len() ==> !is_compatible(
                        #[trigger] candidates@[k],
                        minimum_version,
                    )
            },
        },
{
    let mut first_discrete: Option<usize> = None;
    let mut i: usize = 0;
    while i < candidates.len()
        invariant
            i <= candidates@.len(),
            forall|k: int|
                0 <= k < i ==> !is_compatible(#[trigger] candidates@[k], minimum_version)
                    || is_discrete(candidates@[k]),
            match first_discrete {
                Some(d) => {
                    &&& d < i
                    &&& is_compatible(candidates@[d as int], minimum_version)
                    &&& is_discrete(candidates@[d as int])
                    &&& forall|k: int|
                        0 <= k < d ==> !is_compatible(#[trigger] candidates@[k], minimum_version)
                },
                None => forall|k: int|
                    0 <= k < i ==> !is_compatible(#[trigger] candidates@[k], minimum_version),
            },
        decreases candidates@.len() - i,
    {
        let c = candidates[i];
        let compatible = c.api_version >= minimum_version && c.has_required_extensions
            && c.graphics_queue_family.is_some();
        if compatible {
            if c.device_type != DEVICE_TYPE_DISCRETE_GPU {
                return Ok(i);
            }
            if first_discrete.is_none() {
                first_discrete = Some(i);
            }
        }
        i = i + 1;
    }
    match first_discrete {
        Some(d) => Ok(d),
        None => Err(PhysicalDeviceSelectError::NoDevice),
    }
}

} // verus!
