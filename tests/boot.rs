use magiskinit::config::config_from_cmdline;
use magiskinit::init::{
    detect_variant, policy_target, root_patch, BootVariant, InitState, MagiskInit, PolicyTarget,
    RootPatch,
};
use magiskinit::overlay::{restore_overlay_contexts, AttrTable, FileAttr, OverlayRecord};

fn attr(uid: u32, mode: u32, ctx: &str) -> FileAttr {
    FileAttr { uid, gid: uid, mode, context: ctx.as_bytes().to_vec() }
}

#[test]
fn record_keeps_first_snapshot() {
    let mut rec = OverlayRecord::new();
    rec.record(b"/init", &attr(0, 0o750, "u:object_r:init_exec:s0"));
    rec.record(b"/init", &attr(1000, 0o777, "u:object_r:tmpfs:s0"));
    assert_eq!(rec.entries.len(), 1);
    assert_eq!(rec.entries[0].attr.mode, 0o750);
    assert!(rec.contains(b"/init"));
    assert!(!rec.contains(b"/sbin"));
}

#[test]
fn restoring_twice_equals_restoring_once() {
    let mut rec = OverlayRecord::new();
    rec.record(b"/init", &attr(0, 0o750, "u:object_r:init_exec:s0"));
    rec.record(b"/sbin", &attr(0, 0o755, "u:object_r:rootfs:s0"));
    let mut fs = AttrTable::new();
    fs.set(b"/init", &attr(1000, 0o777, "u:object_r:tmpfs:s0"));
    fs.set(b"/other", &attr(5, 0o600, "u:object_r:system_file:s0"));
    restore_overlay_contexts(&rec, &mut fs);
    let once: Vec<_> = [&b"/init"[..], b"/sbin", b"/other"]
        .iter()
        .map(|p| fs.get(p).map(|a| (a.uid, a.gid, a.mode, a.context)))
        .collect();
    restore_overlay_contexts(&rec, &mut fs);
    let twice: Vec<_> = [&b"/init"[..], b"/sbin", b"/other"]
        .iter()
        .map(|p| fs.get(p).map(|a| (a.uid, a.gid, a.mode, a.context)))
        .collect();
    assert_eq!(once, twice);
    assert_eq!(once[0], Some((0, 0, 0o750, b"u:object_r:init_exec:s0".to_vec())));
    assert_eq!(once[2].as_ref().unwrap().2, 0o600);
    assert!(fs.get(b"/missing").is_none());
}

#[test]
fn variant_detection_order() {
    let sar = config_from_cmdline(b"skip_initramfs");
    let fnb = config_from_cmdline(b"androidboot.force_normal_boot=1");
    let plain = config_from_cmdline(b"");
    assert_eq!(detect_variant(true, &sar, true, true), BootVariant::SecondStage);
    assert_eq!(detect_variant(false, &sar, true, true), BootVariant::LegacySar);
    assert_eq!(detect_variant(false, &fnb, true, false), BootVariant::FirstStage);
    assert_eq!(detect_variant(false, &plain, true, true), BootVariant::Recovery);
    assert_eq!(detect_variant(false, &plain, false, true), BootVariant::FirstStage);
    assert_eq!(detect_variant(false, &plain, false, false), BootVariant::RootFs);
}

#[test]
fn root_and_policy_choices() {
    assert_eq!(root_patch(BootVariant::LegacySar, true), RootPatch::MountSystemRoot);
    assert_eq!(root_patch(BootVariant::RootFs, true), RootPatch::PatchWritable);
    assert_eq!(root_patch(BootVariant::RootFs, false), RootPatch::PatchReadOnly);
    assert_eq!(policy_target(BootVariant::LegacySar), PolicyTarget::StageForInit);
    assert_eq!(policy_target(BootVariant::FirstStage), PolicyTarget::LoadKernel);
}

#[test]
fn system_as_root_boot_reaches_handoff() {
    let mut m = MagiskInit::new(vec![b"/init".to_vec()], b"old-policy".to_vec());
    let cfg = config_from_cmdline(b"skip_initramfs rootwait androidboot.partition_map=vda,system");
    let v = detect_variant(false, &cfg, false, false);
    assert_eq!(v, BootVariant::LegacySar);
    m.config_parsed(cfg, v);
    m.devices_collected(b"/dev/block/vdb".to_vec());
    m.root_mounted(Some(b"/system_root".to_vec()));
    assert_eq!(m.state, InitState::RootMounted);
    let created: [&[u8]; 3] = [b"/system_root/init", b"/system_root/sbin", b"/system_root/overlay"];
    for p in created.iter() {
        m.record_attr(p, &attr(0, 0o755, "u:object_r:rootfs:s0"));
    }
    m.overlay_built(true);
    let mut fs = AttrTable::new();
    m.restore_overlay_contexts(&mut fs);
    m.commit_policy(Some(b"merged-policy".to_vec()));
    assert_eq!(m.state, InitState::PolicyPatched);
    assert_eq!(m.hand_off(), Some(b"/system_root".to_vec()));
    assert_eq!(m.state, InitState::HandedOff);
    assert_eq!(m.mount_list, vec![b"/system_root".to_vec()]);
    assert_eq!(m.overlay_con.entries.len(), 3);
    for p in created.iter() {
        assert!(m.overlay_con.contains(p));
        assert!(fs.get(p).is_some());
    }
    assert_eq!(m.policy, b"merged-policy".to_vec());
}

#[test]
fn policy_commit_requires_restored_contexts() {
    let mut m = MagiskInit::new(Vec::new(), b"old".to_vec());
    m.config_parsed(config_from_cmdline(b""), BootVariant::RootFs);
    m.devices_collected(Vec::new());
    m.root_mounted(Some(b"/root".to_vec()));
    m.overlay_built(true);
    m.commit_policy(Some(b"new".to_vec()));
    assert_eq!(m.state, InitState::Failed);
    assert_eq!(m.policy, b"old".to_vec());
    assert_eq!(m.hand_off(), None);
}

#[test]
fn failed_merge_keeps_old_policy() {
    let mut m = MagiskInit::new(Vec::new(), b"old".to_vec());
    m.config_parsed(config_from_cmdline(b""), BootVariant::RootFs);
    m.devices_collected(Vec::new());
    m.root_mounted(Some(b"/root".to_vec()));
    m.overlay_built(true);
    m.restore_overlay_contexts(&mut AttrTable::new());
    m.commit_policy(None);
    assert_eq!(m.state, InitState::Failed);
    assert_eq!(m.policy, b"old".to_vec());
}

#[test]
fn failed_root_mount_is_fatal() {
    let mut m = MagiskInit::new(Vec::new(), Vec::new());
    m.config_parsed(config_from_cmdline(b""), BootVariant::RootFs);
    m.devices_collected(Vec::new());
    m.root_mounted(None);
    assert_eq!(m.state, InitState::Failed);
    assert!(m.mount_list.is_empty());
    m.overlay_built(true);
    assert_eq!(m.state, InitState::Failed);
}

#[test]
fn failed_overlay_is_fatal() {
    let mut m = MagiskInit::new(Vec::new(), Vec::new());
    m.config_parsed(config_from_cmdline(b""), BootVariant::RootFs);
    m.devices_collected(Vec::new());
    m.root_mounted(Some(b"/root".to_vec()));
    m.overlay_built(false);
    assert_eq!(m.state, InitState::Failed);
}

#[test]
fn out_of_order_step_fails() {
    let mut m = MagiskInit::new(Vec::new(), Vec::new());
    m.devices_collected(Vec::new());
    assert_eq!(m.state, InitState::Failed);
}

#[test]
fn stage_two_arguments() {
    let m = MagiskInit::new(Vec::new(), Vec::new());
    assert_eq!(m.stage_two_argv(), vec![b"/init".to_vec(), b"selinux_setup".to_vec()]);
}

#[test]
fn record_attr_stores_the_given_attributes() {
    let mut m = MagiskInit::new(Vec::new(), Vec::new());
    m.config_parsed(config_from_cmdline(b""), BootVariant::RootFs);
    m.devices_collected(Vec::new());
    m.record_attr(b"/early", &attr(7, 0o700, "u:object_r:early:s0"));
    assert!(m.overlay_con.entries.is_empty());
    m.root_mounted(Some(b"/root".to_vec()));
    m.record_attr(b"/init", &attr(0, 0o750, "u:object_r:init_exec:s0"));
    m.record_attr(b"/init", &attr(9, 0o777, "u:object_r:tmpfs:s0"));
    assert_eq!(m.overlay_con.entries.len(), 1);
    let e = &m.overlay_con.entries[0];
    assert_eq!(e.path, b"/init".to_vec());
    assert_eq!((e.attr.uid, e.attr.gid, e.attr.mode), (0, 0, 0o750));
    assert_eq!(e.attr.context, b"u:object_r:init_exec:s0".to_vec());
}
