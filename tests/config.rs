use magiskinit::cmdline::parse_cmdline;
use magiskinit::config::{config_from_cmdline, parse_partition_map, BootConfig};
use magiskinit::params::{classify_key, ParamKey};

fn pairs(line: &str) -> Vec<(String, String)> {
    parse_cmdline(line.as_bytes())
        .into_iter()
        .map(|kv| (String::from_utf8(kv.key).unwrap(), String::from_utf8(kv.value).unwrap()))
        .collect()
}

fn kv(k: &str, v: &str) -> (String, String) {
    (k.to_string(), v.to_string())
}

#[test]
fn cmdline_tokens() {
    assert_eq!(
        pairs("console=ttyS0 rootwait  androidboot.hardware=qcom\n"),
        vec![kv("console", "ttyS0"), kv("rootwait", ""), kv("androidboot.hardware", "qcom")]
    );
}

#[test]
fn cmdline_quotes_group_separators() {
    assert_eq!(pairs("a=\"x y\" b=c"), vec![kv("a", "x y"), kv("b", "c")]);
    assert_eq!(pairs("a=\"x y"), vec![kv("a", "x y")]);
}

#[test]
fn cmdline_value_keeps_later_equals() {
    assert_eq!(pairs("a=b=c =v \"\""), vec![kv("a", "b=c"), kv("", "v")]);
}

#[test]
fn cmdline_empty() {
    assert!(pairs("").is_empty());
    assert!(pairs("   \n").is_empty());
}

#[test]
fn config_defaults_when_absent() {
    let c = config_from_cmdline(b"console=ttyS0 foo=bar");
    assert!(!c.skip_initramfs && !c.force_normal_boot && !c.rootwait && !c.emulator);
    assert!(c.slot.is_empty());
    assert_eq!(c.dt_dir, b"/proc/device-tree/firmware/android".to_vec());
    assert!(c.fstab_suffix.is_empty() && c.hardware.is_empty() && c.hardware_plat.is_empty());
    assert!(c.partition_map.is_empty());
}

#[test]
fn config_flags_and_names() {
    let c = config_from_cmdline(
        b"skip_initramfs rootwait qemu=1 androidboot.force_normal_boot=1 \
          androidboot.slot_suffix=_b androidboot.hardware=ranchu \
          androidboot.hardware.platform=sdm845 androidboot.fstab_suffix=emmc \
          androidboot.android_dt_dir=/proc/dt",
    );
    assert!(c.skip_initramfs && c.rootwait && c.emulator && c.force_normal_boot);
    assert_eq!(c.slot, b"_b".to_vec());
    assert_eq!(c.hardware, b"ranchu".to_vec());
    assert_eq!(c.hardware_plat, b"sdm845".to_vec());
    assert_eq!(c.fstab_suffix, b"emmc".to_vec());
    assert_eq!(c.dt_dir, b"/proc/dt".to_vec());
}

#[test]
fn config_force_normal_boot_needs_one() {
    assert!(!config_from_cmdline(b"androidboot.force_normal_boot=0").force_normal_boot);
    assert!(!config_from_cmdline(b"androidboot.force_normal_boot").force_normal_boot);
}

#[test]
fn config_slot_forms() {
    assert_eq!(config_from_cmdline(b"androidboot.slot=a").slot, b"_a".to_vec());
    assert_eq!(config_from_cmdline(b"androidboot.slot=abc").slot, b"_a".to_vec());
    assert!(config_from_cmdline(b"androidboot.slot_suffix=normal").slot.is_empty());
    assert_eq!(config_from_cmdline(b"androidboot.slot_suffix=_abc").slot, b"_a".to_vec());
}

#[test]
fn config_names_are_bounded() {
    let long = "x".repeat(40);
    let c = config_from_cmdline(format!("androidboot.hardware={}", long).as_bytes());
    assert_eq!(c.hardware.len(), 31);
    let mut line = b"androidboot.hardware=ab".to_vec();
    line.push(0);
    line.extend_from_slice(b"cd");
    assert_eq!(config_from_cmdline(&line).hardware, b"ab".to_vec());
}

#[test]
fn partition_map_entries() {
    let m = parse_partition_map(b"vdb,metadata;;bad;x,y,z;vdc,userdata;");
    let got: Vec<(Vec<u8>, Vec<u8>)> = m.into_iter().map(|kv| (kv.key, kv.value)).collect();
    assert_eq!(
        got,
        vec![
            (b"vdb".to_vec(), b"metadata".to_vec()),
            (b"vdc".to_vec(), b"userdata".to_vec())
        ]
    );
}

#[test]
fn partition_map_accumulates() {
    let c = config_from_cmdline(b"androidboot.partition_map=vdb,metadata androidboot.partition_map=vdc,userdata");
    assert_eq!(c.partition_map.len(), 2);
    assert_eq!(c.partition_map[0].key, b"vdb".to_vec());
    assert_eq!(c.partition_map[1].value, b"userdata".to_vec());
}

#[test]
fn device_tree_fills_only_empty_names() {
    let mut c = config_from_cmdline(b"androidboot.hardware=qcom");
    c.fill_from_device_tree(Some(b"emmc\n"), Some(b"other\n"), None);
    assert_eq!(c.fstab_suffix, b"emmc".to_vec());
    assert_eq!(c.hardware, b"qcom".to_vec());
    assert!(c.hardware_plat.is_empty());
}

#[test]
fn unknown_key_changes_nothing() {
    let mut c = BootConfig::new();
    c.set_param(b"androidboot.unknown", b"1");
    assert_eq!(classify_key(b"androidboot.unknown"), ParamKey::Unknown);
    assert!(!c.skip_initramfs && c.slot.is_empty() && c.dt_dir.is_empty());
    assert_eq!(classify_key(b"qemu"), ParamKey::Emulator);
}
