use vstd::prelude::*;

use crate::bytes::{append_bytes, copy_bytes, seqs_view};

verus! {

/// Path separator.
pub const SLASH: u8 = 47;

/// Exit code of a child whose program could not be executed.
pub const EXEC_FAILED: i32 = 127;

/// True when the low seven bits of a wait status are clear, i.e. the child
/// exited normally rather than being stopped or killed by a signal.
pub open spec fn exited_normally(status: i32) -> bool {
    status & 0x7f == 0
}

/// The exit code carried in bits 8..16 of a wait status.
pub open spec fn exit_code_bits(status: i32) -> i32 {
    (status >> 8) & 0xff
}

/// What a spawn-and-wait reports: the child's exit code when it was spawned,
/// reaped and exited normally, and -1 when the spawn or the wait failed or the
/// child did not exit normally.
pub open spec fn wait_result(reaped: bool, status: i32) -> int {
    if !reaped {
        -1
    } else if exited_normally(status) {
        exit_code_bits(status) as int
    } else {
        -1
    }
}

/// Decodes the status that `wait4` stored for a child into the value the
/// script runner acts on. `reaped` tells whether the child was spawned and
/// the wait for it succeeded; `status` is read only then.
pub fn decode_wait_status(reaped: bool, status: i32) -> (r: i32)
    ensures
        r as int == wait_result(reaped, status),
        -1 <= r <= 255,
{
    if !reaped {
        return -1;
    }
    if status & 0x7f == 0 {
        let code = (status >> 8) & 0xff;
        assert(0 <= ((status >> 8) & 0xff) <= 255) by (bit_vector);
        code
    } else {
        -1
    }
}

/// The primary executable looked for in the overlay directory (`magisk_Kpfc`).
pub open spec fn primary_name() -> Seq<u8> {
    seq![
        109u8, 97u8, 103u8, 105u8, 115u8, 107u8, 95u8, 75u8, 112u8, 102u8, 99u8,
    ]
}

/// The shell interpreter looked for in the overlay directory (`busybox`).
pub open spec fn busybox_name() -> Seq<u8> {
    seq![98u8, 117u8, 115u8, 121u8, 98u8, 111u8, 120u8]
}

/// The fallback script looked for in the overlay directory (`magisk_Kpfc.sh`).
pub open spec fn script_name() -> Seq<u8> {
    primary_name() + seq![46u8, 115u8, 104u8]
}

/// The applet name passed to the interpreter (`sh`).
pub open spec fn shell_applet() -> Seq<u8> {
    seq![115u8, 104u8]
}

/// `name` placed under the directory `dir`: a separator is inserted unless the
/// directory is empty or already ends with one.
pub open spec fn join_path(dir: Seq<u8>, name: Seq<u8>) -> Seq<u8> {
    if dir.len() == 0 {
        name
    } else if dir.last() == SLASH {
        dir + name
    } else {
        dir + seq![SLASH] + name
    }
}

/// Argument vector that runs the primary executable directly.
pub open spec fn direct_command(dir: Seq<u8>) -> Seq<Seq<u8>> {
    seq![join_path(dir, primary_name())]
}

/// Argument vector that runs `target` (a file of the overlay) through the
/// interpreter's shell.
pub open spec fn shell_command(dir: Seq<u8>, target: Seq<u8>) -> Seq<Seq<u8>> {
    seq![join_path(dir, busybox_name()), shell_applet(), join_path(dir, target)]
}

/// Which of the three optional artifacts are present as regular files.
#[derive(Clone, Copy, Debug, PartialEq, Eq, Structural)]
pub struct Artifacts {
    pub primary: bool,
    pub busybox: bool,
    pub script: bool,
}

/// Where the runner stands in its single attempt sequence.
#[derive(Clone, Copy, Debug, PartialEq, Eq, Structural)]
pub enum RunnerStage {
    /// Nothing has been run yet.
    Idle,
    /// The primary executable was started; its exit code decides the fallback.
    PrimaryStarted,
    /// No further process will be started.
    Finished,
}

/// The first command of the attempt sequence, if any.
pub open spec fn first_command(dir: Seq<u8>, found: Artifacts) -> Option<Seq<Seq<u8>>> {
    if found.primary {
        Some(direct_command(dir))
    } else if found.busybox && found.script {
        Some(shell_command(dir, script_name()))
    } else {
        None
    }
}

/// The command started after the primary executable exited with `code`, if any.
pub open spec fn fallback_command(dir: Seq<u8>, found: Artifacts, code: int) -> Option<
    Seq<Seq<u8>>,
> {
    if found.primary && found.busybox && code == EXEC_FAILED {
        Some(shell_command(dir, primary_name()))
    } else {
        None
    }
}

/// The abstract view of an optional argument vector.
pub open spec fn command_view(c: Option<Vec<Vec<u8>>>) -> Option<Seq<Seq<u8>>> {
    match c {
        Some(v) => Some(seqs_view(v@)),
        None => None,
    }
}

/// Decides which vendor script, if any, runs before the handoff. The caller
/// probes the overlay, starts the commands handed out and reports exit codes.
pub struct ScriptRunner {
    pub dir: Vec<u8>,
    pub found: Artifacts,
    pub stage: RunnerStage,
}

fn primary_bytes() -> (r: Vec<u8>)
    ensures
        r@ == primary_name(),
{
    let r = vec![109u8, 97u8, 103u8, 105u8, 115u8, 107u8, 95u8, 75u8, 112u8, 102u8, 99u8];
    assert(r@ =~= primary_name());
    r
}

fn busybox_bytes() -> (r: Vec<u8>)
    ensures
        r@ == busybox_name(),
{
    let r = vec![98u8, 117u8, 115u8, 121u8, 98u8, 111u8, 120u8];
    assert(r@ =~= busybox_name());
    r
}

fn script_bytes() -> (r: Vec<u8>)
    ensures
        r@ == script_name(),
{
    let mut r = primary_bytes();
    r.push(46u8);
    r.push(115u8);
    r.push(104u8);
    assert(r@ =~= script_name());
    r
}

fn shell_bytes() -> (r: Vec<u8>)
    ensures
        r@ == shell_applet(),
{
    let r = vec![115u8, 104u8];
    assert(r@ =~= shell_applet());
    r
}

/// Builds the path of `name` under `dir`.
pub fn artifact_path(dir: &[u8], name: &[u8]) -> (r: Vec<u8>)
    ensures
        r@ == join_path(dir@, name@),
{
    let mut r = copy_bytes(dir);
    if dir.len() > 0 && dir[dir.len() - 1] != SLASH {
        r.push(SLASH);
    }
    append_bytes(&mut r, name);
    r
}

fn direct_argv(dir: &[u8]) -> (r: Vec<Vec<u8>>)
    ensures
        seqs_view(r@) == direct_command(dir@),
{
    let p = primary_bytes();
    let mut r: Vec<Vec<u8>> = Vec::new();
    r.push(artifact_path(dir, p.as_slice()));
    assert(seqs_view(r@) =~= direct_command(dir@));
    r
}

fn shell_argv(dir: &[u8], target: &[u8]) -> (r: Vec<Vec<u8>>)
    ensures
        seqs_view(r@) == shell_command(dir@, target@),
{
    let b = busybox_bytes();
    let mut r: Vec<Vec<u8>> = Vec::new();
    r.push(artifact_path(dir, b.as_slice()));
    r.push(shell_bytes());
    r.push(artifact_path(dir, target));
    assert(seqs_view(r@) =~= shell_command(dir@, target@));
    r
}

impl ScriptRunner {
    /// A runner for the overlay directory `dir` in which `found` was probed.
    pub fn new(dir: Vec<u8>, found: Artifacts) -> (r: Self)
        ensures
            r.dir@ == dir@,
            r.found == found,
            r.stage == RunnerStage::Idle,
    {
        ScriptRunner { dir, found, stage: RunnerStage::Idle }
    }

    /// Starts the attempt sequence: returns the command to run first, or
    /// `None` when nothing is to be run. Once started, the sequence cannot
    /// be started again.
    pub fn start(&mut self) -> (r: Option<Vec<Vec<u8>>>)
        ensures
            final(self).dir@ == old(self).dir@,
            final(self).found == old(self).found,
            old(self).stage == RunnerStage::Idle ==> command_view(r) == first_command(
                old(self).dir@,
                old(self).found,
            ),
            old(self).stage != RunnerStage::Idle ==> r is None,
            final(self).stage == if old(self).stage == RunnerStage::Idle && old(self).found.primary {
                RunnerStage::PrimaryStarted
            } else {
                RunnerStage::Finished
            },
    {
        if self.stage != RunnerStage::Idle {
            self.stage = RunnerStage::Finished;
            return None;
        }
        if self.found.primary {
            self.stage = RunnerStage::PrimaryStarted;
            Some(direct_argv(self.dir.as_slice()))
        } else {
            self.stage = RunnerStage::Finished;
            if self.found.busybox && self.found.script {
                let s = script_bytes();
                Some(shell_argv(self.dir.as_slice(), s.as_slice()))
            } else {
                None
            }
        }
    }

    /// Reports the exit code of the command last handed out: returns the
    /// fallback command to run, if any. The sequence is finished afterwards.
    pub fn on_exit(&mut self, code: i32) -> (r: Option<Vec<Vec<u8>>>)
        ensures
            final(self).dir@ == old(self).dir@,
            final(self).found == old(self).found,
            final(self).stage == RunnerStage::Finished,
            old(self).stage == RunnerStage::PrimaryStarted ==> command_view(r) == fallback_command(
                old(self).dir@,
                old(self).found,
                code as int,
            ),
            old(self).stage != RunnerStage::PrimaryStarted ==> r is None,
    {
        let was = self.stage;
        self.stage = RunnerStage::Finished;
        if was == RunnerStage::PrimaryStarted && self.found.primary && self.found.busybox && code
            == EXEC_FAILED {
            let p = primary_bytes();
            Some(shell_argv(self.dir.as_slice(), p.as_slice()))
        } else {
            None
        }
    }
}

} // verus!
