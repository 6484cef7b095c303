use miel::debug::{LogLevel, ScopeTimer};
use miel::gfx::device::{
    device_type_to_str, select_physical_device, vendor_id_to_str, DeviceCandidate,
    PhysicalDeviceSelectError, DEVICE_TYPE_CPU, DEVICE_TYPE_DISCRETE_GPU,
    DEVICE_TYPE_INTEGRATED_GPU,
};
use miel::utils::{ThreadSafeRef, ThreadSafeRwRef};

#[test]
fn vendor_names() {
    assert_eq!(vendor_id_to_str(0x1002), "AMD");
    assert_eq!(vendor_id_to_str(0x10DE), "NVIDIA");
    assert_eq!(vendor_id_to_str(0x8086), "Intel");
    assert_eq!(vendor_id_to_str(0x1234), "unknown");
    assert_eq!(device_type_to_str(DEVICE_TYPE_DISCRETE_GPU), "discrete GPU");
    assert_eq!(device_type_to_str(DEVICE_TYPE_CPU), "CPU");
    assert_eq!(device_type_to_str(0), "other");
}

fn candidate(version: u32, device_type: i32, ext: bool, qf: Option<u32>) -> DeviceCandidate {
    DeviceCandidate {
        api_version: version,
        device_type,
        has_required_extensions: ext,
        graphics_queue_family: qf,
    }
}

#[test]
fn selection_filters_and_orders() {
    let v13 = (1 << 22) | (3 << 12);
    let v12 = (1 << 22) | (2 << 12);
    let list = vec![
        candidate(v12, DEVICE_TYPE_INTEGRATED_GPU, true, Some(0)),
        candidate(v13, DEVICE_TYPE_DISCRETE_GPU, true, Some(0)),
        candidate(v13, DEVICE_TYPE_INTEGRATED_GPU, false, Some(0)),
        candidate(v13, DEVICE_TYPE_INTEGRATED_GPU, true, None),
        candidate(v13, DEVICE_TYPE_INTEGRATED_GPU, true, Some(1)),
    ];
    assert_eq!(select_physical_device(&list, v13), Ok(4));
    assert_eq!(select_physical_device(&list[..4].to_vec(), v13), Ok(1));
    assert_eq!(
        select_physical_device(&list[2..4].to_vec(), v13),
        Err(PhysicalDeviceSelectError::NoDevice)
    );
}

#[test]
fn shared_handles_see_one_value() {
    let a = ThreadSafeRef::new(1u32);
    let b = a.clone();
    *b.lock() += 1;
    assert_eq!(*a.lock(), 2);
    let r = ThreadSafeRwRef::new(String::from("x"));
    let w = r.clone();
    w.write().push('y');
    assert_eq!(*r.read(), "xy");
}

#[test]
fn scope_timer_keeps_its_name() {
    let t = ScopeTimer::new(LogLevel::Debug, String::from("frame"));
    assert_eq!(t.name, "frame");
    assert_eq!(t.log_level, LogLevel::Debug);
    assert!(t.elapsed_millis() < 60_000);
}
