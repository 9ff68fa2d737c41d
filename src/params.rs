use vstd::prelude::*;

use crate::bytes::bytes_equal;

verus! {

/// The boot parameters that the configuration understands; every other key is ignored.
#[derive(Clone, Copy, Debug, PartialEq, Eq, Structural)]
pub enum ParamKey {
    /// `androidboot.slot_suffix`
    SlotSuffix,
    /// `androidboot.slot`
    Slot,
    /// `skip_initramfs`
    SkipInitramfs,
    /// `androidboot.force_normal_boot`
    ForceNormalBoot,
    /// `rootwait`
    Rootwait,
    /// `androidboot.android_dt_dir`
    DtDir,
    /// `androidboot.hardware`
    Hardware,
    /// `androidboot.hardware.platform`
    HardwarePlatform,
    /// `androidboot.fstab_suffix`
    FstabSuffix,
    /// `qemu`
    Emulator,
    /// `androidboot.partition_map`
    PartitionMap,
    /// Any key not listed above.
    Unknown,
}

/// The bytes of `androidboot.slot_suffix`.
pub open spec fn slot_suffix_key() -> Seq<u8> {
    seq![97u8, 110u8, 100u8, 114u8, 111u8, 105u8, 100u8, 98u8, 111u8, 111u8, 116u8, 46u8, 115u8, 108u8, 111u8, 116u8, 95u8, 115u8, 117u8, 102u8, 102u8, 105u8, 120u8]
}

/// The bytes of `androidboot.slot`.
pub open spec fn slot_key() -> Seq<u8> {
    seq![97u8, 110u8, 100u8, 114u8, 111u8, 105u8, 100u8, 98u8, 111u8, 111u8, 116u8, 46u8, 115u8, 108u8, 111u8, 116u8]
}

/// The bytes of `skip_initramfs`.
pub open spec fn skip_initramfs_key() -> Seq<u8> {
    seq![115u8, 107u8, 105u8, 112u8, 95u8, 105u8, 110u8, 105u8, 116u8, 114u8, 97u8, 109u8, 102u8, 115u8]
}

/// The bytes of `androidboot.force_normal_boot`.
pub open spec fn force_normal_boot_key() -> Seq<u8> {
    seq![97u8, 110u8, 100u8, 114u8, 111u8, 105u8, 100u8, 98u8, 111u8, 111u8, 116u8, 46u8, 102u8, 111u8, 114u8, 99u8, 101u8, 95u8, 110u8, 111u8, 114u8, 109u8, 97u8, 108u8, 95u8, 98u8, 111u8, 111u8, 116u8]
}

/// The bytes of `rootwait`.
pub open spec fn rootwait_key() -> Seq<u8> {
    seq![114u8, 111u8, 111u8, 116u8, 119u8, 97u8, 105u8, 116u8]
}

/// The bytes of `androidboot.android_dt_dir`.
pub open spec fn dt_dir_key() -> Seq<u8> {
    seq![97u8, 110u8, 100u8, 114u8, 111u8, 105u8, 100u8, 98u8, 111u8, 111u8, 116u8, 46u8, 97u8, 110u8, 100u8, 114u8, 111u8, 105u8, 100u8, 95u8, 100u8, 116u8, 95u8, 100u8, 105u8, 114u8]
}

/// The bytes of `androidboot.hardware`.
pub open spec fn hardware_key() -> Seq<u8> {
    seq![97u8, 110u8, 100u8, 114u8, 111u8, 105u8, 100u8, 98u8, 111u8, 111u8, 116u8, 46u8, 104u8, 97u8, 114u8, 100u8, 119u8, 97u8, 114u8, 101u8]
}

/// The bytes of `androidboot.hardware.platform`.
pub open spec fn hardware_platform_key() -> Seq<u8> {
    seq![97u8, 110u8, 100u8, 114u8, 111u8, 105u8, 100u8, 98u8, 111u8, 111u8, 116u8, 46u8, 104u8, 97u8, 114u8, 100u8, 119u8, 97u8, 114u8, 101u8, 46u8, 112u8, 108u8, 97u8, 116u8, 102u8, 111u8, 114u8, 109u8]
}

/// The bytes of `androidboot.fstab_suffix`.
pub open spec fn fstab_suffix_key() -> Seq<u8> {
    seq![97u8, 110u8, 100u8, 114u8, 111u8, 105u8, 100u8, 98u8, 111u8, 111u8, 116u8, 46u8, 102u8, 115u8, 116u8, 97u8, 98u8, 95u8, 115u8, 117u8, 102u8, 102u8, 105u8, 120u8]
}

/// The bytes of `qemu`.
pub open spec fn emulator_key() -> Seq<u8> {
    seq![113u8, 101u8, 109u8, 117u8]
}

/// The bytes of `androidboot.partition_map`.
pub open spec fn partition_map_key() -> Seq<u8> {
    seq![97u8, 110u8, 100u8, 114u8, 111u8, 105u8, 100u8, 98u8, 111u8, 111u8, 116u8, 46u8, 112u8, 97u8, 114u8, 116u8, 105u8, 116u8, 105u8, 111u8, 110u8, 95u8, 109u8, 97u8, 112u8]
}

/// The parameter that `key` names.
pub open spec fn param_key(key: Seq<u8>) -> ParamKey {
    if key == slot_suffix_key() {
        ParamKey::SlotSuffix
    } else if key == slot_key() {
        ParamKey::Slot
    } else if key == skip_initramfs_key() {
        ParamKey::SkipInitramfs
    } else if key == force_normal_boot_key() {
        ParamKey::ForceNormalBoot
    } else if key == rootwait_key() {
        ParamKey::Rootwait
    } else if key == dt_dir_key() {
        ParamKey::DtDir
    } else if key == hardware_key() {
        ParamKey::Hardware
    } else if key == hardware_platform_key() {
        ParamKey::HardwarePlatform
    } else if key == fstab_suffix_key() {
        ParamKey::FstabSuffix
    } else if key == emulator_key() {
        ParamKey::Emulator
    } else if key == partition_map_key() {
        ParamKey::PartitionMap
    } else {
        ParamKey::Unknown
    }
}

/// Classifies a boot-parameter key.
pub fn classify_key(key: &[u8]) -> (r: ParamKey)
    ensures
        r == param_key(key@),
{
    let k = vec![97u8, 110u8, 100u8, 114u8, 111u8, 105u8, 100u8, 98u8, 111u8, 111u8, 116u8, 46u8, 115u8, 108u8, 111u8, 116u8, 95u8, 115u8, 117u8, 102u8, 102u8, 105u8, 120u8];
    assert(k@ =~= slot_suffix_key());
    if bytes_equal(key, k.as_slice()) {
        return ParamKey::SlotSuffix;
    }
    let k = vec![97u8, 110u8, 100u8, 114u8, 111u8, 105u8, 100u8, 98u8, 111u8, 111u8, 116u8, 46u8, 115u8, 108u8, 111u8, 116u8];
    assert(k@ =~= slot_key());
    if bytes_equal(key, k.as_slice()) {
        return ParamKey::Slot;
    }
    let k = vec![115u8, 107u8, 105u8, 112u8, 95u8, 105u8, 110u8, 105u8, 116u8, 114u8, 97u8, 109u8, 102u8, 115u8];
    assert(k@ =~= skip_initramfs_key());
    if bytes_equal(key, k.as_slice()) {
        return ParamKey::SkipInitramfs;
    }
    let k = vec![97u8, 110u8, 100u8, 114u8, 111u8, 105u8, 100u8, 98u8, 111u8, 111u8, 116u8, 46u8, 102u8, 111u8, 114u8, 99u8, 101u8, 95u8, 110u8, 111u8, 114u8, 109u8, 97u8, 108u8, 95u8, 98u8, 111u8, 111u8, 116u8];
    assert(k@ =~= force_normal_boot_key());
    if bytes_equal(key, k.as_slice()) {
        return ParamKey::ForceNormalBoot;
    }
    let k = vec![114u8, 111u8, 111u8, 116u8, 119u8, 97u8, 105u8, 116u8];
    assert(k@ =~= rootwait_key());
    if bytes_equal(key, k.as_slice()) {
        return ParamKey::Rootwait;
    }
    let k = vec![97u8, 110u8, 100u8, 114u8, 111u8, 105u8, 100u8, 98u8, 111u8, 111u8, 116u8, 46u8, 97u8, 110u8, 100u8, 114u8, 111u8, 105u8, 100u8, 95u8, 100u8, 116u8, 95u8, 100u8, 105u8, 114u8];
    assert(k@ =~= dt_dir_key());
    if bytes_equal(key, k.as_slice()) {
        return ParamKey::DtDir;
    }
    let k = vec![97u8, 110u8, 100u8, 114u8, 111u8, 105u8, 100u8, 98u8, 111u8, 111u8, 116u8, 46u8, 104u8, 97u8, 114u8, 100u8, 119u8, 97u8, 114u8, 101u8];
    assert(k@ =~= hardware_key());
    if bytes_equal(key, k.as_slice()) {
        return ParamKey::Hardware;
    }
    let k = vec![97u8, 110u8, 100u8, 114u8, 111u8, 105u8, 100u8, 98u8, 111u8, 111u8, 116u8, 46u8, 104u8, 97u8, 114u8, 100u8, 119u8, 97u8, 114u8, 101u8, 46u8, 112u8, 108u8, 97u8, 116u8, 102u8, 111u8, 114u8, 109u8];
    assert(k@ =~= hardware_platform_key());
    if bytes_equal(key, k.as_slice()) {
        return ParamKey::HardwarePlatform;
    }
    let k = vec![97u8, 110u8, 100u8, 114u8, 111u8, 105u8, 100u8, 98u8, 111u8, 111u8, 116u8, 46u8, 102u8, 115u8, 116u8, 97u8, 98u8, 95u8, 115u8, 117u8, 102u8, 102u8, 105u8, 120u8];
    assert(k@ =~= fstab_suffix_key());
    if bytes_equal(key, k.as_slice()) {
        return ParamKey::FstabSuffix;
    }
    let k = vec![113u8, 101u8, 109u8, 117u8];
    assert(k@ =~= emulator_key());
    if bytes_equal(key, k.as_slice()) {
        return ParamKey::Emulator;
    }
    let k = vec![97u8, 110u8, 100u8, 114u8, 111u8, 105u8, 100u8, 98u8, 111u8, 111u8, 116u8, 46u8, 112u8, 97u8, 114u8, 116u8, 105u8, 116u8, 105u8, 111u8, 110u8, 95u8, 109u8, 97u8, 112u8];
    assert(k@ =~= partition_map_key());
    if bytes_equal(key, k.as_slice()) {
        return ParamKey::PartitionMap;
    }
    ParamKey::Unknown
}

} // verus!
