use magiskinit::script::{artifact_path, decode_wait_status, Artifacts, RunnerStage, ScriptRunner};

fn args(v: &[&str]) -> Vec<Vec<u8>> {
    v.iter().map(|s| s.as_bytes().to_vec()).collect()
}

#[test]
fn runner_busybox_and_script_only() {
    let found = Artifacts { primary: false, busybox: true, script: true };
    let mut r = ScriptRunner::new(b"/overlay".to_vec(), found);
    let cmd = r.start();
    assert_eq!(cmd, Some(args(&["/overlay/busybox", "sh", "/overlay/magisk_Kpfc.sh"])));
    assert_eq!(r.stage, RunnerStage::Finished);
    assert_eq!(r.on_exit(0), None);
}

#[test]
fn runner_primary_exec_failure_falls_back_to_shell() {
    let found = Artifacts { primary: true, busybox: true, script: false };
    let mut r = ScriptRunner::new(b"/overlay".to_vec(), found);
    assert_eq!(r.start(), Some(args(&["/overlay/magisk_Kpfc"])));
    assert_eq!(r.stage, RunnerStage::PrimaryStarted);
    assert_eq!(r.on_exit(127), Some(args(&["/overlay/busybox", "sh", "/overlay/magisk_Kpfc"])));
    assert_eq!(r.stage, RunnerStage::Finished);
}

#[test]
fn runner_nothing_present_spawns_nothing() {
    let found = Artifacts { primary: false, busybox: false, script: false };
    let mut r = ScriptRunner::new(b"/overlay".to_vec(), found);
    assert_eq!(r.start(), None);
    assert_eq!(r.stage, RunnerStage::Finished);
}

#[test]
fn runner_primary_success_has_no_fallback() {
    let found = Artifacts { primary: true, busybox: true, script: true };
    let mut r = ScriptRunner::new(b"/overlay".to_vec(), found);
    assert_eq!(r.start(), Some(args(&["/overlay/magisk_Kpfc"])));
    assert_eq!(r.on_exit(0), None);
}

#[test]
fn runner_exec_failure_without_busybox_stops() {
    let found = Artifacts { primary: true, busybox: false, script: true };
    let mut r = ScriptRunner::new(b"/overlay".to_vec(), found);
    assert!(r.start().is_some());
    assert_eq!(r.on_exit(127), None);
}

#[test]
fn runner_script_without_busybox_is_skipped() {
    let found = Artifacts { primary: false, busybox: false, script: true };
    let mut r = ScriptRunner::new(b"/overlay".to_vec(), found);
    assert_eq!(r.start(), None);
}

#[test]
fn runner_runs_at_most_one_sequence() {
    let found = Artifacts { primary: true, busybox: true, script: false };
    let mut r = ScriptRunner::new(b"/overlay".to_vec(), found);
    assert!(r.start().is_some());
    assert_eq!(r.start(), None);
    assert_eq!(r.on_exit(127), None);
}

#[test]
fn wait_status_decoding() {
    assert_eq!(decode_wait_status(true, 0x0000), 0);
    assert_eq!(decode_wait_status(true, 0x0100), 1);
    assert_eq!(decode_wait_status(true, 0x7f00), 127);
    assert_eq!(decode_wait_status(true, 0xff00), 255);
    assert_eq!(decode_wait_status(true, 9), -1);
    assert_eq!(decode_wait_status(true, 0x7f00 | 0x7f), -1);
    assert_eq!(decode_wait_status(false, 0x0100), -1);
}

#[test]
fn artifact_paths() {
    assert_eq!(artifact_path(b"/overlay", b"busybox"), b"/overlay/busybox".to_vec());
    assert_eq!(artifact_path(b"/overlay/", b"busybox"), b"/overlay/busybox".to_vec());
    assert_eq!(artifact_path(b"", b"busybox"), b"busybox".to_vec());
}
