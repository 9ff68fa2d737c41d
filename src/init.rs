use vstd::prelude::*;

use crate::bytes::{copy_bytes, seqs_view};
use crate::config::BootConfig;
use crate::overlay::{restore_overlay_contexts, restored, AttrTable, FileAttr, OverlayRecord};

verus! {

/// How the root file system is laid out on this boot.
#[derive(Clone, Copy, Debug, PartialEq, Eq, Structural)]
pub enum BootVariant {
    /// The kernel mounted the system partition as root (`skip_initramfs`).
    LegacySar,
    /// First stage of a two-stage boot: set up, then re-execute into stage two.
    FirstStage,
    /// Second stage of a two-stage boot, reached by re-execution.
    SecondStage,
    /// Booting into recovery from a ramdisk.
    Recovery,
    /// A plain ramdisk root.
    RootFs,
}

/// The steps of the transformation. `HandedOff` and `Failed` are terminal.
#[derive(Clone, Copy, Debug, PartialEq, Eq, Structural)]
pub enum InitState {
    Start,
    ConfigParsed,
    DevicesCollected,
    RootMounted,
    OverlayBuilt,
    PolicyPatched,
    HandedOff,
    Failed,
}

/// How the root is prepared before the overlay is built.
#[derive(Clone, Copy, Debug, PartialEq, Eq, Structural)]
pub enum RootPatch {
    /// Remount the system partition as root in place.
    MountSystemRoot,
    /// Patch the writable ramdisk root directly.
    PatchWritable,
    /// Build a new root beside the read-only ramdisk root.
    PatchReadOnly,
}

/// Where the merged policy goes.
#[derive(Clone, Copy, Debug, PartialEq, Eq, Structural)]
pub enum PolicyTarget {
    /// Loaded into the kernel by this process.
    LoadKernel,
    /// Written where the platform's init loads it, which controls reload order.
    StageForInit,
}

/// The variant chosen at start: the stage-two marker first, then the
/// `skip_initramfs` and `force_normal_boot` flags, then a recovery binary,
/// then a two-stage fstab; a plain ramdisk root otherwise.
pub open spec fn variant_of(
    second_stage: bool,
    skip_initramfs: bool,
    force_normal_boot: bool,
    has_recovery: bool,
    two_stage: bool,
) -> BootVariant {
    if second_stage {
        BootVariant::SecondStage
    } else if skip_initramfs {
        BootVariant::LegacySar
    } else if force_normal_boot {
        BootVariant::FirstStage
    } else if has_recovery {
        BootVariant::Recovery
    } else if two_stage {
        BootVariant::FirstStage
    } else {
        BootVariant::RootFs
    }
}

/// Decides the boot variant once, at start. `second_stage` tells whether this
/// process was re-executed with the stage-two marker; `has_recovery` whether a
/// recovery binary is present; `two_stage` whether the fstab asks for two stages.
pub fn detect_variant(second_stage: bool, config: &BootConfig, has_recovery: bool, two_stage: bool) -> (r: BootVariant)
    ensures
        r == variant_of(
            second_stage,
            config.skip_initramfs,
            config.force_normal_boot,
            has_recovery,
            two_stage,
        ),
{
    if second_stage {
        BootVariant::SecondStage
    } else if config.skip_initramfs {
        BootVariant::LegacySar
    } else if config.force_normal_boot {
        BootVariant::FirstStage
    } else if has_recovery {
        BootVariant::Recovery
    } else if two_stage {
        BootVariant::FirstStage
    } else {
        BootVariant::RootFs
    }
}

pub open spec fn root_patch_of(variant: BootVariant, writable: bool) -> RootPatch {
    if variant == BootVariant::LegacySar {
        RootPatch::MountSystemRoot
    } else if writable {
        RootPatch::PatchWritable
    } else {
        RootPatch::PatchReadOnly
    }
}

/// How the root is prepared: system-as-root remounts the system partition;
/// otherwise the ramdisk root is patched in place when writable, else rebuilt.
pub fn root_patch(variant: BootVariant, writable: bool) -> (r: RootPatch)
    ensures
        r == root_patch_of(variant, writable),
{
    if variant == BootVariant::LegacySar {
        RootPatch::MountSystemRoot
    } else if writable {
        RootPatch::PatchWritable
    } else {
        RootPatch::PatchReadOnly
    }
}

pub open spec fn policy_target_of(variant: BootVariant) -> PolicyTarget {
    if variant == BootVariant::LegacySar {
        PolicyTarget::StageForInit
    } else {
        PolicyTarget::LoadKernel
    }
}

/// Where the merged policy goes: system-as-root stages it for the platform's
/// init; the other variants load it directly.
pub fn policy_target(variant: BootVariant) -> (r: PolicyTarget)
    ensures
        r == policy_target_of(variant),
{
    if variant == BootVariant::LegacySar {
        PolicyTarget::StageForInit
    } else {
        PolicyTarget::LoadKernel
    }
}

/// The marker argument that sends a re-executed process to stage two
/// (`selinux_setup`).
pub open spec fn stage_two_marker() -> Seq<u8> {
    seq![115u8, 101u8, 108u8, 105u8, 110u8, 117u8, 120u8, 95u8, 115u8, 101u8, 116u8, 117u8, 112u8]
}

/// The program re-executed into stage two (`/init`).
pub open spec fn init_path() -> Seq<u8> {
    seq![47u8, 105u8, 110u8, 105u8, 116u8]
}

/// States that come after the root was mounted and before a failure.
pub open spec fn root_is_mounted(s: InitState) -> bool {
    s == InitState::RootMounted || s == InitState::OverlayBuilt || s == InitState::PolicyPatched
        || s == InitState::HandedOff
}

/// The boot transformation: its state, the variant decided at start, and
/// everything it owns until the handoff.
pub struct MagiskInit {
    pub state: InitState,
    pub variant: BootVariant,
    pub preinit_dev: Vec<u8>,
    /// Mount points created on this boot, in the order they were made.
    pub mount_list: Vec<Vec<u8>>,
    /// This process's arguments, kept for re-execution.
    pub argv: Vec<Vec<u8>>,
    pub config: BootConfig,
    pub overlay_con: OverlayRecord,
    /// The recorded attributes were put back after the overlay was last changed.
    pub contexts_restored: bool,
    /// The policy image that the platform sees.
    pub policy: Vec<u8>,
}

impl MagiskInit {
    /// What holds in every state.
    pub open spec fn wf(&self) -> bool {
        &&& self.overlay_con.wf()
        &&& root_is_mounted(self.state) ==> self.mount_list@.len() >= 1
        &&& (self.state == InitState::PolicyPatched || self.state == InitState::HandedOff)
            ==> self.contexts_restored
    }

    /// A transformation at its start, holding the process's arguments and the
    /// policy image currently in force.
    pub fn new(argv: Vec<Vec<u8>>, policy: Vec<u8>) -> (r: Self)
        ensures
            r.wf(),
            r.state == InitState::Start,
            seqs_view(r.argv@) == seqs_view(argv@),
            r.policy@ == policy@,
            r.mount_list@.len() == 0,
            r.overlay_con.view_recs().len() == 0,
    {
        MagiskInit {
            state: InitState::Start,
            variant: BootVariant::RootFs,
            preinit_dev: Vec::new(),
            mount_list: Vec::new(),
            argv,
            config: BootConfig::new(),
            overlay_con: OverlayRecord::new(),
            contexts_restored: false,
            policy,
        }
    }

    /// `Start -> ConfigParsed`: takes the derived configuration and the variant
    /// decided from it. From any other state the transformation fails.
    pub fn config_parsed(&mut self, config: BootConfig, variant: BootVariant)
        requires
            old(self).wf(),
        ensures
            final(self).wf(),
            old(self).state == InitState::Start ==> final(self).state == InitState::ConfigParsed
                && final(self).variant == variant && final(self).config@ == config@,
            old(self).state != InitState::Start ==> final(self).state == InitState::Failed,
            final(self).mount_list@ == old(self).mount_list@,
            final(self).overlay_con.view_recs() == old(self).overlay_con.view_recs(),
            final(self).policy@ == old(self).policy@,
    {
        if self.state == InitState::Start {
            self.config = config;
            self.variant = variant;
            self.state = InitState::ConfigParsed;
        } else {
            self.state = InitState::Failed;
        }
    }

    /// `ConfigParsed -> DevicesCollected`: block devices were enumerated and
    /// the preinit device chosen (empty when there is none).
    pub fn devices_collected(&mut self, preinit_dev: Vec<u8>)
        requires
            old(self).wf(),
        ensures
            final(self).wf(),
            old(self).state == InitState::ConfigParsed ==> final(self).state
                == InitState::DevicesCollected && final(self).preinit_dev@ == preinit_dev@,
            old(self).state != InitState::ConfigParsed ==> final(self).state == InitState::Failed,
            final(self).mount_list@ == old(self).mount_list@,
            final(self).overlay_con.view_recs() == old(self).overlay_con.view_recs(),
            final(self).policy@ == old(self).policy@,
    {
        if self.state == InitState::ConfigParsed {
            self.preinit_dev = preinit_dev;
            self.state = InitState::DevicesCollected;
        } else {
            self.state = InitState::Failed;
        }
    }

    /// `DevicesCollected -> RootMounted`: the new root was mounted at
    /// `new_root`, which becomes the first entry of the mount list; `None`
    /// means the mount failed, which is fatal.
    pub fn root_mounted(&mut self, new_root: Option<Vec<u8>>)
        requires
            old(self).wf(),
        ensures
            final(self).wf(),
            old(self).state == InitState::DevicesCollected && new_root is Some ==> final(self).state == InitState::RootMounted && seqs_view(final(self).mount_list@) == seqs_view(
                old(self).mount_list@,
            ).push(new_root->Some_0@),
            !(old(self).state == InitState::DevicesCollected && new_root is Some) ==> final(self).state == InitState::Failed && final(self).mount_list@ == old(self).mount_list@,
            final(self).overlay_con.view_recs() == old(self).overlay_con.view_recs(),
            final(self).policy@ == old(self).policy@,
    {
        if self.state == InitState::DevicesCollected {
            match new_root {
                Some(p) => {
                    let ghost before = seqs_view(self.mount_list@);
                    let ghost pv = p@;
                    self.mount_list.push(p);
                    assert(seqs_view(self.mount_list@) =~= before.push(pv));
                    self.state = InitState::RootMounted;
                },
                None => {
                    self.state = InitState::Failed;
                },
            }
        } else {
            self.state = InitState::Failed;
        }
    }

    /// Records the attributes of `path` before the overlay builder changes it.
    /// Only while the overlay is being built; elsewhere nothing is recorded.
    pub fn record_attr(&mut self, path: &[u8], attr: &FileAttr)
        requires
            old(self).wf(),
        ensures
            final(self).wf(),
            final(self).state == old(self).state,
            final(self).mount_list@ == old(self).mount_list@,
            final(self).policy@ == old(self).policy@,
            old(self).state == InitState::RootMounted ==> (if crate::overlay::recorded(
                old(self).overlay_con.view_recs(),
                path@,
            ) {
                final(self).overlay_con.view_recs() == old(self).overlay_con.view_recs()
            } else {
                final(self).overlay_con.view_recs() == old(self).overlay_con.view_recs().push(
                    (path@, attr@),
                )
            }),
            old(self).state == InitState::RootMounted ==> crate::overlay::recorded(
                final(self).overlay_con.view_recs(),
                path@,
            ),
            old(self).state != InitState::RootMounted ==> final(self).overlay_con.view_recs()
                == old(self).overlay_con.view_recs(),
            forall|i: int|
                0 <= i < old(self).overlay_con.view_recs().len() ==> final(self).overlay_con.view_recs()[i] == old(self).overlay_con.view_recs()[i],
    {
        if self.state == InitState::RootMounted {
            self.overlay_con.record(path, attr);
            proof {
                let recs = self.overlay_con.view_recs();
                if !crate::overlay::recorded(old(self).overlay_con.view_recs(), path@) {
                    assert(recs[recs.len() - 1].0 == path@);
                }
            }
        }
    }

    /// `RootMounted -> OverlayBuilt`: the overlay builder finished; `false`
    /// means the writable area could not be made, which is fatal.
    pub fn overlay_built(&mut self, ok: bool)
        requires
            old(self).wf(),
        ensures
            final(self).wf(),
            old(self).state == InitState::RootMounted && ok ==> final(self).state
                == InitState::OverlayBuilt && !final(self).contexts_restored,
            !(old(self).state == InitState::RootMounted && ok) ==> final(self).state
                == InitState::Failed,
            final(self).mount_list@ == old(self).mount_list@,
            final(self).overlay_con.view_recs() == old(self).overlay_con.view_recs(),
            final(self).policy@ == old(self).policy@,
    {
        if self.state == InitState::RootMounted && ok {
            self.state = InitState::OverlayBuilt;
            self.contexts_restored = false;
        } else {
            self.state = InitState::Failed;
        }
    }

    /// Puts every recorded attribute back on `fs`. Once the overlay is built
    /// this must happen before the policy is committed.
    pub fn restore_overlay_contexts(&mut self, fs: &mut AttrTable)
        requires
            old(self).wf(),
        ensures
            final(self).wf(),
            final(self).state == old(self).state,
            final(self).mount_list@ == old(self).mount_list@,
            final(self).policy@ == old(self).policy@,
            final(self).overlay_con.view_recs() == old(self).overlay_con.view_recs(),
            final(fs).current() == restored(old(fs).current(), old(self).overlay_con.view_recs()),
            old(self).state == InitState::OverlayBuilt ==> final(self).contexts_restored,
    {
        restore_overlay_contexts(&self.overlay_con, fs);
        if self.state == InitState::OverlayBuilt {
            self.contexts_restored = true;
        }
    }

    /// `OverlayBuilt -> PolicyPatched`: swaps in the merged policy image, built
    /// off to the side, in one step. `None` means the merge failed, which is
    /// fatal. The policy in force is either the old image or the whole merged
    /// one, never a part of it.
    pub fn commit_policy(&mut self, merged: Option<Vec<u8>>)
        requires
            old(self).wf(),
        ensures
            final(self).wf(),
            ({
                let ready = old(self).state == InitState::OverlayBuilt
                    && old(self).contexts_restored && merged is Some;
                &&& ready ==> final(self).state == InitState::PolicyPatched && final(self).policy@
                    == merged->Some_0@
                &&& !ready ==> final(self).state == InitState::Failed && final(self).policy@ == old(self).policy@
            }),
            final(self).mount_list@ == old(self).mount_list@,
            final(self).overlay_con.view_recs() == old(self).overlay_con.view_recs(),
    {
        if self.state == InitState::OverlayBuilt && self.contexts_restored {
            match merged {
                Some(m) => {
                    self.policy = m;
                    self.state = InitState::PolicyPatched;
                },
                None => {
                    self.state = InitState::Failed;
                },
            }
        } else {
            self.state = InitState::Failed;
        }
    }

    /// `PolicyPatched -> HandedOff`: returns the root to switch to, the first
    /// mount made on this boot. From any other state nothing is handed off and
    /// the transformation fails.
    pub fn hand_off(&mut self) -> (r: Option<Vec<u8>>)
        requires
            old(self).wf(),
        ensures
            final(self).wf(),
            old(self).state == InitState::PolicyPatched ==> final(self).state
                == InitState::HandedOff && r is Some && r->Some_0@ == old(self).mount_list@[0]@
                && final(self).contexts_restored,
            old(self).state != InitState::PolicyPatched ==> final(self).state == InitState::Failed
                && r is None,
            final(self).mount_list@ == old(self).mount_list@,
            final(self).overlay_con.view_recs() == old(self).overlay_con.view_recs(),
            final(self).policy@ == old(self).policy@,
    {
        if self.state == InitState::PolicyPatched {
            self.state = InitState::HandedOff;
            Some(copy_bytes(self.mount_list[0].as_slice()))
        } else {
            self.state = InitState::Failed;
            None
        }
    }

    /// The arguments that re-execute this program into stage two.
    pub fn stage_two_argv(&self) -> (r: Vec<Vec<u8>>)
        ensures
            seqs_view(r@) == seq![init_path(), stage_two_marker()],
    {
        let p = vec![47u8, 105u8, 110u8, 105u8, 116u8];
        let m = vec![115u8, 101u8, 108u8, 105u8, 110u8, 117u8, 120u8, 95u8, 115u8, 101u8, 116u8, 117u8, 112u8];
        assert(p@ =~= init_path());
        assert(m@ =~= stage_two_marker());
        let mut r: Vec<Vec<u8>> = Vec::new();
        r.push(p);
        r.push(m);
        assert(seqs_view(r@) =~= seq![init_path(), stage_two_marker()]);
        r
    }
}

/// The handoff happens only after the root was mounted, the overlay built,
/// its attributes restored and the policy committed: a transformation that
/// is well formed and handed off has restored contexts and a mounted root.
pub proof fn handoff_preconditions(m: MagiskInit)
    requires
        m.wf(),
        m.state == InitState::HandedOff,
    ensures
        m.contexts_restored,
        m.mount_list@.len() >= 1,
{
}

} // verus!
