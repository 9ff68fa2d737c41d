use magiskinit::mount::{is_device_mounted, MountEntry};
use magiskinit::cmdline::KeyValue;
use magiskinit::partition::{find_block, name_device, DeviceRecord, NO_DEVICE};

fn dev(name: &str, devnum: u64) -> DeviceRecord {
    DeviceRecord { name: name.as_bytes().to_vec(), devnum }
}

#[test]
fn exact_name_beats_suffixed_names() {
    let devs = vec![
        dev("system_a_hw", 4),
        dev("system_hw", 3),
        dev("system_a", 2),
        dev("system", 1),
    ];
    assert_eq!(find_block(&devs, b"system", b"_a", b"_hw"), 1);
}

#[test]
fn suffix_order_is_slot_then_variant_then_both() {
    let devs = vec![dev("vendor_a_hw", 4), dev("vendor_hw", 3), dev("vendor_a", 2)];
    assert_eq!(find_block(&devs, b"vendor", b"_a", b"_hw"), 2);
    let devs = vec![dev("vendor_a_hw", 4), dev("vendor_hw", 3)];
    assert_eq!(find_block(&devs, b"vendor", b"_a", b"_hw"), 3);
    let devs = vec![dev("vendor_a_hw", 4)];
    assert_eq!(find_block(&devs, b"vendor", b"_a", b"_hw"), 4);
}

#[test]
fn missing_partition_reports_sentinel() {
    let devs = vec![dev("boot", 7)];
    assert_eq!(find_block(&devs, b"system", b"_a", b""), NO_DEVICE);
    assert_eq!(find_block(&Vec::new(), b"system", b"", b""), NO_DEVICE);
}

#[test]
fn first_record_with_a_name_wins() {
    let devs = vec![dev("data", 5), dev("data", 6)];
    assert_eq!(find_block(&devs, b"data", b"", b""), 5);
}

fn mnt(device: u64, target: &str) -> MountEntry {
    MountEntry { device, target: target.as_bytes().to_vec() }
}

#[test]
fn unmounted_device_is_reported_absent() {
    let mounts = vec![mnt(1, "/system")];
    let mut target = b"unchanged".to_vec();
    assert!(!is_device_mounted(&mounts, 2, &mut target));
    assert_eq!(target, b"unchanged".to_vec());
    assert!(!is_device_mounted(&Vec::new(), 2, &mut target));
}

#[test]
fn mounted_device_reports_its_target() {
    let mounts = vec![mnt(1, "/system"), mnt(2, "/data")];
    let mut target = Vec::new();
    assert!(is_device_mounted(&mounts, 2, &mut target));
    assert_eq!(target, b"/data".to_vec());
}

#[test]
fn several_mounts_report_the_first() {
    let mounts = vec![mnt(3, "/first"), mnt(1, "/x"), mnt(3, "/second")];
    let mut target = Vec::new();
    assert!(is_device_mounted(&mounts, 3, &mut target));
    assert_eq!(target, b"/first".to_vec());
}

#[test]
fn device_named_by_kernel_or_partition_map() {
    let map = vec![
        KeyValue { key: b"vdb".to_vec(), value: b"metadata".to_vec() },
        KeyValue { key: b"vdb".to_vec(), value: b"other".to_vec() },
        KeyValue { key: b"vdc".to_vec(), value: b"userdata".to_vec() },
    ];
    assert_eq!(name_device(b"vdb", Some(b"system"), &map), b"system".to_vec());
    assert_eq!(name_device(b"vdb", None, &map), b"metadata".to_vec());
    assert_eq!(name_device(b"vdc", None, &map), b"userdata".to_vec());
    assert_eq!(name_device(b"vdd", None, &map), Vec::<u8>::new());
}
