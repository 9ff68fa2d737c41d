use vstd::prelude::*;

use crate::bytes::{append_bytes, bytes_equal, copy_bytes};
use crate::cmdline::{pairs_view, KeyValue};
use crate::config::opt_view;

verus! {

/// A block device found at boot: its partition name and device number.
pub struct DeviceRecord {
    pub name: Vec<u8>,
    pub devnum: u64,
}

/// Device number reported when no device matches.
pub const NO_DEVICE: u64 = 0;

/// The device number of the first record named `name`, if any.
pub open spec fn lookup(devs: Seq<DeviceRecord>, name: Seq<u8>) -> Option<u64>
    decreases devs.len(),
{
    if devs.len() == 0 {
        None
    } else if devs[0].name@ == name {
        Some(devs[0].devnum)
    } else {
        lookup(devs.drop_first(), name)
    }
}

/// The names tried for a partition, in order: the name itself, with the slot
/// suffix, with the hardware-variant suffix, and with both.
pub open spec fn candidates(name: Seq<u8>, slot: Seq<u8>, variant: Seq<u8>) -> Seq<Seq<u8>> {
    seq![name, name + slot, name + variant, name + slot + variant]
}

/// The device of the first name in `names` that some record carries.
pub open spec fn resolve(devs: Seq<DeviceRecord>, names: Seq<Seq<u8>>) -> Option<u64>
    decreases names.len(),
{
    if names.len() == 0 {
        None
    } else {
        match lookup(devs, names[0]) {
            Some(d) => Some(d),
            None => resolve(devs, names.drop_first()),
        }
    }
}

/// The device that `find_block` reports for `name`.
pub open spec fn resolved_device(
    devs: Seq<DeviceRecord>,
    name: Seq<u8>,
    slot: Seq<u8>,
    variant: Seq<u8>,
) -> u64 {
    match resolve(devs, candidates(name, slot, variant)) {
        Some(d) => d,
        None => NO_DEVICE,
    }
}

/// Looks `name` up among the records; the first record with that name wins.
pub fn find_device(devs: &Vec<DeviceRecord>, name: &[u8]) -> (r: Option<u64>)
    ensures
        r == lookup(devs@, name@),
{
    let mut i: usize = 0;
    assert(devs@.skip(0) =~= devs@);
    while i < devs.len()
        invariant
            i <= devs@.len(),
            lookup(devs@, name@) == lookup(devs@.skip(i as int), name@),
        decreases devs@.len() - i,
    {
        assert(devs@.skip(i as int).drop_first() =~= devs@.skip(i + 1));
        if bytes_equal(devs[i].name.as_slice(), name) {
            return Some(devs[i].devnum);
        }
        i += 1;
    }
    None
}

/// Resolves a partition name to a device number, trying the plain name, then
/// the name with the slot suffix, then with the hardware-variant suffix, then
/// with both; the first name that matches wins. Reports `NO_DEVICE` when none
/// matches, since some partitions are legitimately absent.
pub fn find_block(devs: &Vec<DeviceRecord>, name: &[u8], slot: &[u8], variant: &[u8]) -> (r: u64)
    ensures
        r == resolved_device(devs@, name@, slot@, variant@),
{
    let ghost names = candidates(name@, slot@, variant@);
    proof {
        reveal_with_fuel(resolve, 5);
    }
    let mut with_slot = copy_bytes(name);
    append_bytes(&mut with_slot, slot);
    let mut with_variant = copy_bytes(name);
    append_bytes(&mut with_variant, variant);
    let mut with_both = copy_bytes(with_slot.as_slice());
    append_bytes(&mut with_both, variant);
    assert(names.drop_first()[0] == with_slot@);
    assert(names.drop_first().drop_first()[0] == with_variant@);
    assert(names.drop_first().drop_first().drop_first()[0] == with_both@);
    assert(names.drop_first().drop_first().drop_first().drop_first().len() == 0);
    let r = match find_device(devs, name) {
        Some(d) => d,
        None => match find_device(devs, with_slot.as_slice()) {
            Some(d) => d,
            None => match find_device(devs, with_variant.as_slice()) {
                Some(d) => d,
                None => match find_device(devs, with_both.as_slice()) {
                    Some(d) => d,
                    None => NO_DEVICE,
                },
            },
        },
    };
    r
}

/// The partition named for `devname` by the first entry of a partition map,
/// if any.
pub open spec fn mapped_name(map: Seq<(Seq<u8>, Seq<u8>)>, devname: Seq<u8>) -> Option<Seq<u8>>
    decreases map.len(),
{
    if map.len() == 0 {
        None
    } else if map[0].0 == devname {
        Some(map[0].1)
    } else {
        mapped_name(map.drop_first(), devname)
    }
}

/// The name under which a discovered device is recorded: the partition name
/// the kernel reported, else the one the partition map gives for its device
/// name, else none (empty).
pub open spec fn device_name(
    devname: Seq<u8>,
    partname: Option<Seq<u8>>,
    map: Seq<(Seq<u8>, Seq<u8>)>,
) -> Seq<u8> {
    match partname {
        Some(p) => p,
        None => match mapped_name(map, devname) {
            Some(p) => p,
            None => seq![],
        },
    }
}

/// Names a discovered block device from its kernel-reported partition name
/// (if any) and the configuration's partition map.
pub fn name_device(devname: &[u8], partname: Option<&[u8]>, map: &Vec<KeyValue>) -> (r: Vec<u8>)
    ensures
        r@ == device_name(devname@, opt_view(partname), pairs_view(map@)),
{
    match partname {
        Some(p) => copy_bytes(p),
        None => match mapped_partition(map, devname) {
            Some(p) => p,
            None => Vec::new(),
        },
    }
}

/// The partition that the first entry of `map` for `devname` names, if any.
pub fn mapped_partition(map: &Vec<KeyValue>, devname: &[u8]) -> (r: Option<Vec<u8>>)
    ensures
        match r {
            Some(p) => mapped_name(pairs_view(map@), devname@) == Some(p@),
            None => mapped_name(pairs_view(map@), devname@) is None,
        },
{
    let ghost m = pairs_view(map@);
    let mut i: usize = 0;
    assert(m.skip(0) =~= m);
    while i < map.len()
        invariant
            i <= map@.len(),
            m == pairs_view(map@),
            mapped_name(m, devname@) == mapped_name(m.skip(i as int), devname@),
        decreases map@.len() - i,
    {
        assert(m.skip(i as int).drop_first() =~= m.skip(i + 1));
        assert(m.skip(i as int)[0] == (map@[i as int].key@, map@[i as int].value@));
        if bytes_equal(map[i].key.as_slice(), devname) {
            return Some(copy_bytes(map[i].value.as_slice()));
        }
        i += 1;
    }
    None
}

/// Resolution prefers the plain name: when a record carries it, that record's
/// device is the answer, whichever suffixed names are present as well.
pub proof fn exact_name_wins(
    devs: Seq<DeviceRecord>,
    name: Seq<u8>,
    slot: Seq<u8>,
    variant: Seq<u8>,
)
    requires
        lookup(devs, name) is Some,
    ensures
        resolved_device(devs, name, slot, variant) == lookup(devs, name)->Some_0,
{
}

/// Resolution is order-preserving: a suffixed name is used only when every
/// name before it in the order is absent.
pub proof fn earlier_candidate_wins(
    devs: Seq<DeviceRecord>,
    name: Seq<u8>,
    slot: Seq<u8>,
    variant: Seq<u8>,
    k: int,
)
    requires
        0 <= k < 4,
        lookup(devs, candidates(name, slot, variant)[k]) is Some,
        forall|j: int| 0 <= j < k ==> lookup(devs, #[trigger] candidates(name, slot, variant)[j]) is None,
    ensures
        resolved_device(devs, name, slot, variant) == lookup(
            devs,
            candidates(name, slot, variant)[k],
        )->Some_0,
{
    let c = candidates(name, slot, variant);
    reveal_with_fuel(resolve, 5);
    assert(c.drop_first()[0] == c[1]);
    assert(c.drop_first().drop_first()[0] == c[2]);
    assert(c.drop_first().drop_first().drop_first()[0] == c[3]);
    if k > 0 {
        assert(lookup(devs, c[0]) is None);
    }
    if k > 1 {
        assert(lookup(devs, c[1]) is None);
    }
    if k > 2 {
        assert(lookup(devs, c[2]) is None);
    }
}

} // verus!
