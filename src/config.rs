use vstd::prelude::*;

use crate::bytes::{bytes_equal, copy_bytes, seqs_view, split, split_bytes};
use crate::cmdline::{pairs_view, KeyValue};
use crate::params::{classify_key, param_key, ParamKey};

verus! {

/// Room for the slot suffix (`_a`).
pub const SLOT_LEN: usize = 2;

/// Room for the device-tree directory path.
pub const DT_DIR_LEN: usize = 63;

/// Room for the fstab suffix and the hardware names.
pub const NAME_LEN: usize = 31;

/// `;`: separates the entries of a partition map.
pub const ENTRY_SEP: u8 = 59;

/// `,`: separates the device and the partition name of one entry.
pub const FIELD_SEP: u8 = 44;

/// `v` cut at its first NUL byte and to at most `room` bytes.
pub open spec fn clip(v: Seq<u8>, room: nat) -> Seq<u8>
    decreases v.len(),
{
    if v.len() == 0 || room == 0 || v[0] == 0 {
        seq![]
    } else {
        seq![v[0]] + clip(v.drop_first(), (room - 1) as nat)
    }
}

/// A field value that fits `room` bytes and holds no NUL byte.
pub open spec fn bounded(s: Seq<u8>, room: nat) -> bool {
    s.len() <= room && forall|i: int| 0 <= i < s.len() ==> s[i] != 0
}

/// The value that `androidboot.slot_suffix` ignores: single-slot devices
/// report `normal` there.
pub open spec fn normal_word() -> Seq<u8> {
    seq![110u8, 111u8, 114u8, 109u8, 97u8, 108u8]
}

/// The device-tree directory used when no parameter names one.
pub open spec fn default_dt_dir() -> Seq<u8> {
    seq![
        47u8, 112u8, 114u8, 111u8, 99u8, 47u8, 100u8, 101u8, 118u8, 105u8, 99u8, 101u8, 45u8,
        116u8, 114u8, 101u8, 101u8, 47u8, 102u8, 105u8, 114u8, 109u8, 119u8, 97u8, 114u8, 101u8,
        47u8, 97u8, 110u8, 100u8, 114u8, 111u8, 105u8, 100u8,
    ]
}

/// The `(device, partition)` entries of a partition map, in order. Empty
/// entries and entries without exactly one `,` are skipped.
pub open spec fn map_entries(pieces: Seq<Seq<u8>>) -> Seq<(Seq<u8>, Seq<u8>)>
    decreases pieces.len(),
{
    if pieces.len() == 0 {
        seq![]
    } else {
        let before = map_entries(pieces.drop_last());
        let fields = split(pieces.last(), FIELD_SEP);
        if pieces.last().len() > 0 && fields.len() == 2 {
            before.push((fields[0], fields[1]))
        } else {
            before
        }
    }
}

/// The abstract boot configuration.
pub struct ConfigView {
    pub skip_initramfs: bool,
    pub force_normal_boot: bool,
    pub rootwait: bool,
    pub emulator: bool,
    pub slot: Seq<u8>,
    pub dt_dir: Seq<u8>,
    pub fstab_suffix: Seq<u8>,
    pub hardware: Seq<u8>,
    pub hardware_plat: Seq<u8>,
    pub partition_map: Seq<(Seq<u8>, Seq<u8>)>,
}

/// Every field at its default: flags false, names and map empty.
pub open spec fn default_view() -> ConfigView {
    ConfigView {
        skip_initramfs: false,
        force_normal_boot: false,
        rootwait: false,
        emulator: false,
        slot: seq![],
        dt_dir: seq![],
        fstab_suffix: seq![],
        hardware: seq![],
        hardware_plat: seq![],
        partition_map: seq![],
    }
}

/// The effect of one boot parameter.
pub open spec fn apply_param(c: ConfigView, key: Seq<u8>, v: Seq<u8>) -> ConfigView {
    match param_key(key) {
        ParamKey::SlotSuffix => if v == normal_word() {
            c
        } else {
            ConfigView { slot: clip(v, SLOT_LEN as nat), ..c }
        },
        ParamKey::Slot => ConfigView { slot: seq![95u8] + clip(v, (SLOT_LEN - 1) as nat), ..c },
        ParamKey::SkipInitramfs => ConfigView { skip_initramfs: true, ..c },
        ParamKey::ForceNormalBoot => ConfigView {
            force_normal_boot: v.len() > 0 && v[0] == 49u8,
            ..c
        },
        ParamKey::Rootwait => ConfigView { rootwait: true, ..c },
        ParamKey::DtDir => ConfigView { dt_dir: clip(v, DT_DIR_LEN as nat), ..c },
        ParamKey::Hardware => ConfigView { hardware: clip(v, NAME_LEN as nat), ..c },
        ParamKey::HardwarePlatform => ConfigView { hardware_plat: clip(v, NAME_LEN as nat), ..c },
        ParamKey::FstabSuffix => ConfigView { fstab_suffix: clip(v, NAME_LEN as nat), ..c },
        ParamKey::Emulator => ConfigView { emulator: true, ..c },
        ParamKey::PartitionMap => ConfigView {
            partition_map: c.partition_map + map_entries(split(v, ENTRY_SEP)),
            ..c
        },
        ParamKey::Unknown => c,
    }
}

/// The effect of a sequence of boot parameters, applied in order.
pub open spec fn apply_params(c: ConfigView, pairs: Seq<(Seq<u8>, Seq<u8>)>) -> ConfigView
    decreases pairs.len(),
{
    if pairs.len() == 0 {
        c
    } else {
        let last = pairs.last();
        apply_param(apply_params(c, pairs.drop_last()), last.0, last.1)
    }
}

/// Every name field fits its room and holds no NUL byte.
pub open spec fn config_wf(c: ConfigView) -> bool {
    &&& bounded(c.slot, SLOT_LEN as nat)
    &&& bounded(c.dt_dir, DT_DIR_LEN as nat)
    &&& bounded(c.fstab_suffix, NAME_LEN as nat)
    &&& bounded(c.hardware, NAME_LEN as nat)
    &&& bounded(c.hardware_plat, NAME_LEN as nat)
}

/// Fills the device-tree directory with its default when no parameter set it.
pub open spec fn with_dt_default(c: ConfigView) -> ConfigView {
    if c.dt_dir.len() == 0 {
        ConfigView { dt_dir: default_dt_dir(), ..c }
    } else {
        c
    }
}

/// The content of a device-tree property file without its terminating byte.
pub open spec fn dt_value(raw: Seq<u8>) -> Seq<u8> {
    if raw.len() == 0 {
        raw
    } else {
        raw.drop_last()
    }
}

/// A name field after the device tree was consulted: kept when set, else taken
/// from the property when there is one.
pub open spec fn dt_fill(cur: Seq<u8>, prop: Option<Seq<u8>>) -> Seq<u8> {
    if cur.len() > 0 {
        cur
    } else {
        match prop {
            Some(raw) => clip(dt_value(raw), NAME_LEN as nat),
            None => cur,
        }
    }
}

/// Boot flags, bounded names and the partition map, derived once per boot
/// from the kernel command line and the device tree.
pub struct BootConfig {
    pub skip_initramfs: bool,
    pub force_normal_boot: bool,
    pub rootwait: bool,
    pub emulator: bool,
    pub slot: Vec<u8>,
    pub dt_dir: Vec<u8>,
    pub fstab_suffix: Vec<u8>,
    pub hardware: Vec<u8>,
    pub hardware_plat: Vec<u8>,
    /// `(device, partition)` entries, in the order they were given.
    pub partition_map: Vec<KeyValue>,
}

impl View for BootConfig {
    type V = ConfigView;

    open spec fn view(&self) -> ConfigView {
        ConfigView {
            skip_initramfs: self.skip_initramfs,
            force_normal_boot: self.force_normal_boot,
            rootwait: self.rootwait,
            emulator: self.emulator,
            slot: self.slot@,
            dt_dir: self.dt_dir@,
            fstab_suffix: self.fstab_suffix@,
            hardware: self.hardware@,
            hardware_plat: self.hardware_plat@,
            partition_map: pairs_view(self.partition_map@),
        }
    }
}

proof fn lemma_clip_prefix(v: Seq<u8>, room: nat, n: int)
    requires
        0 <= n <= v.len(),
        n <= room,
        forall|j: int| 0 <= j < n ==> v[j] != 0,
        n == v.len() || n == room || v[n] == 0,
    ensures
        clip(v, room) == v.take(n),
    decreases n,
{
    if n > 0 {
        lemma_clip_prefix(v.drop_first(), (room - 1) as nat, n - 1);
        assert(v.take(n) =~= seq![v[0]] + v.drop_first().take(n - 1));
    } else {
        assert(v.take(0) =~= seq![]);
    }
}

proof fn lemma_clip_bounded(v: Seq<u8>, room: nat)
    ensures
        bounded(clip(v, room), room),
    decreases v.len(),
{
    if !(v.len() == 0 || room == 0 || v[0] == 0) {
        lemma_clip_bounded(v.drop_first(), (room - 1) as nat);
        let t = clip(v.drop_first(), (room - 1) as nat);
        assert forall|i: int| 0 <= i < clip(v, room).len() implies clip(v, room)[i] != 0 by {
            if i > 0 {
                assert(clip(v, room)[i] == t[i - 1]);
            }
        }
    }
}

/// `v` cut at its first NUL byte and to at most `room` bytes.
pub fn bounded_copy(v: &[u8], room: usize) -> (r: Vec<u8>)
    ensures
        r@ == clip(v@, room as nat),
        bounded(r@, room as nat),
{
    let mut n: usize = 0;
    while n < v.len() && n < room && v[n] != 0
        invariant
            n <= v@.len(),
            n <= room,
            forall|j: int| 0 <= j < n ==> v@[j] != 0,
        decreases v@.len() - n,
    {
        n += 1;
    }
    proof {
        lemma_clip_prefix(v@, room as nat, n as int);
        lemma_clip_bounded(v@, room as nat);
    }
    copy_bytes(&v[0..n])
}

/// Parses the value of `androidboot.partition_map`, for example
/// `vdb,metadata;vdc,userdata;`, into `(device, partition)` entries.
pub fn parse_partition_map(v: &[u8]) -> (r: Vec<KeyValue>)
    ensures
        pairs_view(r@) == map_entries(split(v@, ENTRY_SEP)),
{
    let pieces = split_bytes(v, ENTRY_SEP);
    let ghost ps = seqs_view(pieces@);
    let mut out: Vec<KeyValue> = Vec::new();
    let mut i: usize = 0;
    assert(ps.take(0) =~= seq![]);
    while i < pieces.len()
        invariant
            i <= pieces@.len(),
            ps == seqs_view(pieces@),
            pairs_view(out@) == map_entries(ps.take(i as int)),
        decreases pieces@.len() - i,
    {
        assert(ps.take(i + 1).drop_last() =~= ps.take(i as int));
        assert(ps.take(i + 1).last() == pieces@[i as int]@);
        let piece = pieces[i].as_slice();
        let fields = split_bytes(piece, FIELD_SEP);
        if piece.len() > 0 && fields.len() == 2 {
            let ghost before = pairs_view(out@);
            let dev = copy_bytes(fields[0].as_slice());
            let part = copy_bytes(fields[1].as_slice());
            out.push(KeyValue { key: dev, value: part });
            assert(pairs_view(out@) =~= before.push((dev@, part@)));
        }
        i += 1;
    }
    assert(ps.take(i as int) =~= ps);
    out
}

fn default_dt_dir_bytes() -> (r: Vec<u8>)
    ensures
        r@ == default_dt_dir(),
{
    let r = vec![
        47u8, 112u8, 114u8, 111u8, 99u8, 47u8, 100u8, 101u8, 118u8, 105u8, 99u8, 101u8, 45u8,
        116u8, 114u8, 101u8, 101u8, 47u8, 102u8, 105u8, 114u8, 109u8, 119u8, 97u8, 114u8, 101u8,
        47u8, 97u8, 110u8, 100u8, 114u8, 111u8, 105u8, 100u8,
    ];
    assert(r@ =~= default_dt_dir());
    r
}

impl BootConfig {
    /// A configuration with every field at its default.
    pub fn new() -> (r: Self)
        ensures
            r@ == default_view(),
    {
        let r = BootConfig {
            skip_initramfs: false,
            force_normal_boot: false,
            rootwait: false,
            emulator: false,
            slot: Vec::new(),
            dt_dir: Vec::new(),
            fstab_suffix: Vec::new(),
            hardware: Vec::new(),
            hardware_plat: Vec::new(),
            partition_map: Vec::new(),
        };
        assert(pairs_view(r.partition_map@) =~= seq![]);
        r
    }

    /// Applies one boot parameter; a key that is not understood changes nothing.
    pub fn set_param(&mut self, key: &[u8], value: &[u8])
        ensures
            final(self)@ == apply_param(old(self)@, key@, value@),
    {
        match classify_key(key) {
            ParamKey::SlotSuffix => {
                let normal = vec![110u8, 111u8, 114u8, 109u8, 97u8, 108u8];
                assert(normal@ =~= normal_word());
                if !bytes_equal(value, normal.as_slice()) {
                    self.slot = bounded_copy(value, SLOT_LEN);
                }
            },
            ParamKey::Slot => {
                let mut s: Vec<u8> = vec![95u8];
                let rest = bounded_copy(value, SLOT_LEN - 1);
                crate::bytes::append_bytes(&mut s, rest.as_slice());
                assert(s@ =~= seq![95u8] + rest@);
                self.slot = s;
            },
            ParamKey::SkipInitramfs => {
                self.skip_initramfs = true;
            },
            ParamKey::ForceNormalBoot => {
                self.force_normal_boot = value.len() > 0 && value[0] == 49u8;
            },
            ParamKey::Rootwait => {
                self.rootwait = true;
            },
            ParamKey::DtDir => {
                self.dt_dir = bounded_copy(value, DT_DIR_LEN);
            },
            ParamKey::Hardware => {
                self.hardware = bounded_copy(value, NAME_LEN);
            },
            ParamKey::HardwarePlatform => {
                self.hardware_plat = bounded_copy(value, NAME_LEN);
            },
            ParamKey::FstabSuffix => {
                self.fstab_suffix = bounded_copy(value, NAME_LEN);
            },
            ParamKey::Emulator => {
                self.emulator = true;
            },
            ParamKey::PartitionMap => {
                let ghost before = pairs_view(self.partition_map@);
                let mut entries = parse_partition_map(value);
                let ghost added = pairs_view(entries@);
                self.partition_map.append(&mut entries);
                assert(pairs_view(self.partition_map@) =~= before + added);
            },
            ParamKey::Unknown => {},
        }
    }

    /// Applies the boot parameters in order.
    pub fn set(&mut self, pairs: &Vec<KeyValue>)
        ensures
            final(self)@ == apply_params(old(self)@, pairs_view(pairs@)),
    {
        let ghost start = self@;
        let ghost ps = pairs_view(pairs@);
        let mut i: usize = 0;
        assert(ps.take(0) =~= seq![]);
        while i < pairs.len()
            invariant
                i <= pairs@.len(),
                ps == pairs_view(pairs@),
                self@ == apply_params(start, ps.take(i as int)),
            decreases pairs@.len() - i,
        {
            assert(ps.take(i + 1).drop_last() =~= ps.take(i as int));
            self.set_param(pairs[i].key.as_slice(), pairs[i].value.as_slice());
            i += 1;
        }
        assert(ps.take(i as int) =~= ps);
    }

    /// Sets the device-tree directory to its default when no parameter named one.
    pub fn apply_defaults(&mut self)
        ensures
            final(self)@ == with_dt_default(old(self)@),
    {
        if self.dt_dir.len() == 0 {
            self.dt_dir = default_dt_dir_bytes();
        }
    }

    /// Completes the names that the command line left empty from the
    /// device-tree properties read under `dt_dir` (`None` where a property
    /// file is absent).
    pub fn fill_from_device_tree(
        &mut self,
        fstab_suffix: Option<&[u8]>,
        hardware: Option<&[u8]>,
        hardware_plat: Option<&[u8]>,
    )
        ensures
            final(self)@ == (ConfigView {
                fstab_suffix: dt_fill(old(self)@.fstab_suffix, opt_view(fstab_suffix)),
                hardware: dt_fill(old(self)@.hardware, opt_view(hardware)),
                hardware_plat: dt_fill(old(self)@.hardware_plat, opt_view(hardware_plat)),
                ..old(self)@
            }),
    {
        self.fstab_suffix = fill_field(&self.fstab_suffix, fstab_suffix);
        self.hardware = fill_field(&self.hardware, hardware);
        self.hardware_plat = fill_field(&self.hardware_plat, hardware_plat);
    }
}

/// The view of an optional byte string.
pub open spec fn opt_view(v: Option<&[u8]>) -> Option<Seq<u8>> {
    match v {
        Some(s) => Some(s@),
        None => None,
    }
}

fn fill_field(cur: &Vec<u8>, prop: Option<&[u8]>) -> (r: Vec<u8>)
    ensures
        r@ == dt_fill(cur@, opt_view(prop)),
{
    if cur.len() > 0 {
        return copy_bytes(cur.as_slice());
    }
    match prop {
        Some(raw) => {
            let end: usize = if raw.len() == 0 { 0 } else { raw.len() - 1 };
            assert(raw@.subrange(0, end as int) =~= dt_value(raw@));
            bounded_copy(&raw[0..end], NAME_LEN)
        },
        None => copy_bytes(cur.as_slice()),
    }
}

/// The configuration that a boot derives: the command line's parameters
/// applied to the defaults, then the default device-tree directory.
pub open spec fn config_of_cmdline(line: Seq<u8>) -> ConfigView {
    with_dt_default(apply_params(default_view(), crate::cmdline::parse_pairs(line)))
}

/// Derives the configuration from a kernel command line. Any input is
/// accepted; unknown and malformed parameters are ignored.
pub fn config_from_cmdline(line: &[u8]) -> (r: BootConfig)
    ensures
        r@ == config_of_cmdline(line@),
        config_wf(r@),
{
    let pairs = crate::cmdline::parse_cmdline(line);
    let mut c = BootConfig::new();
    c.set(&pairs);
    c.apply_defaults();
    proof {
        lemma_params_keep_wf(default_view(), pairs_view(pairs@));
        assert(bounded(default_dt_dir(), DT_DIR_LEN as nat));
    }
    c
}

/// A parameter whose key is not understood leaves the configuration unchanged.
pub proof fn unknown_key_ignored(c: ConfigView, key: Seq<u8>, v: Seq<u8>)
    requires
        param_key(key) == ParamKey::Unknown,
    ensures
        apply_param(c, key, v) == c,
{
}

/// Applying parameters keeps every name field bounded and free of NUL bytes.
pub proof fn lemma_params_keep_wf(c: ConfigView, pairs: Seq<(Seq<u8>, Seq<u8>)>)
    requires
        config_wf(c),
    ensures
        config_wf(apply_params(c, pairs)),
    decreases pairs.len(),
{
    if pairs.len() > 0 {
        lemma_params_keep_wf(c, pairs.drop_last());
        let v = pairs.last().1;
        lemma_clip_bounded(v, SLOT_LEN as nat);
        lemma_clip_bounded(v, (SLOT_LEN - 1) as nat);
        lemma_clip_bounded(v, DT_DIR_LEN as nat);
        lemma_clip_bounded(v, NAME_LEN as nat);
        let t = clip(v, (SLOT_LEN - 1) as nat);
        assert forall|i: int| 0 <= i < (seq![95u8] + t).len() implies (seq![95u8] + t)[i] != 0 by {
            if i > 0 {
                assert((seq![95u8] + t)[i] == t[i - 1]);
            }
        }
    }
}

/// No parameter names `key` in `pairs`.
pub open spec fn key_absent(pairs: Seq<(Seq<u8>, Seq<u8>)>, k: ParamKey) -> bool {
    forall|i: int| 0 <= i < pairs.len() ==> param_key(#[trigger] pairs[i].0) != k
}

/// A field that no parameter names keeps its default: false flags, empty
/// names and map, and the default device-tree directory.
pub proof fn absent_fields_default(line: Seq<u8>)
    ensures
        ({
            let pairs = crate::cmdline::parse_pairs(line);
            let c = config_of_cmdline(line);
            &&& key_absent(pairs, ParamKey::SkipInitramfs) ==> !c.skip_initramfs
            &&& key_absent(pairs, ParamKey::ForceNormalBoot) ==> !c.force_normal_boot
            &&& key_absent(pairs, ParamKey::Rootwait) ==> !c.rootwait
            &&& key_absent(pairs, ParamKey::Emulator) ==> !c.emulator
            &&& key_absent(pairs, ParamKey::SlotSuffix) && key_absent(pairs, ParamKey::Slot)
                ==> c.slot.len() == 0
            &&& key_absent(pairs, ParamKey::DtDir) ==> c.dt_dir == default_dt_dir()
            &&& key_absent(pairs, ParamKey::FstabSuffix) ==> c.fstab_suffix.len() == 0
            &&& key_absent(pairs, ParamKey::Hardware) ==> c.hardware.len() == 0
            &&& key_absent(pairs, ParamKey::HardwarePlatform) ==> c.hardware_plat.len() == 0
            &&& key_absent(pairs, ParamKey::PartitionMap) ==> c.partition_map.len() == 0
        }),
{
    let pairs = crate::cmdline::parse_pairs(line);
    lemma_absent_untouched(pairs);
}

proof fn lemma_absent_untouched(pairs: Seq<(Seq<u8>, Seq<u8>)>)
    ensures
        ({
            let c = apply_params(default_view(), pairs);
            &&& key_absent(pairs, ParamKey::SkipInitramfs) ==> !c.skip_initramfs
            &&& key_absent(pairs, ParamKey::ForceNormalBoot) ==> !c.force_normal_boot
            &&& key_absent(pairs, ParamKey::Rootwait) ==> !c.rootwait
            &&& key_absent(pairs, ParamKey::Emulator) ==> !c.emulator
            &&& key_absent(pairs, ParamKey::SlotSuffix) && key_absent(pairs, ParamKey::Slot)
                ==> c.slot.len() == 0
            &&& key_absent(pairs, ParamKey::DtDir) ==> c.dt_dir.len() == 0
            &&& key_absent(pairs, ParamKey::FstabSuffix) ==> c.fstab_suffix.len() == 0
            &&& key_absent(pairs, ParamKey::Hardware) ==> c.hardware.len() == 0
            &&& key_absent(pairs, ParamKey::HardwarePlatform) ==> c.hardware_plat.len() == 0
            &&& key_absent(pairs, ParamKey::PartitionMap) ==> c.partition_map.len() == 0
        }),
    decreases pairs.len(),
{
    if pairs.len() > 0 {
        let init = pairs.drop_last();
        lemma_absent_untouched(init);
        assert forall|k: ParamKey| key_absent(pairs, k) implies key_absent(init, k) by {
            assert forall|i: int| 0 <= i < init.len() implies param_key(#[trigger] init[i].0) != k by {
                assert(init[i] == pairs[i]);
            }
        }
        assert(pairs.last() == pairs[pairs.len() - 1]);
    }
}

} // verus!
