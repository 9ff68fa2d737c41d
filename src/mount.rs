use vstd::prelude::*;

use crate::bytes::copy_bytes;

verus! {

/// One line of the mount table: the mounted block device and where it is mounted.
pub struct MountEntry {
    pub device: u64,
    pub target: Vec<u8>,
}

/// `i` is the first entry of `mounts` whose device is `dev`.
pub open spec fn first_mount_of(mounts: Seq<MountEntry>, dev: u64, i: int) -> bool {
    &&& 0 <= i < mounts.len()
    &&& mounts[i].device == dev
    &&& forall|j: int| 0 <= j < i ==> mounts[j].device != dev
}

/// Some entry of `mounts` mounts `dev`.
pub open spec fn has_mount_of(mounts: Seq<MountEntry>, dev: u64) -> bool {
    exists|i: int| 0 <= i < mounts.len() && mounts[i].device == dev
}

/// Guards a mount attempt: returns whether `dev` is already mounted and, when
/// it is, writes the target of the first entry found for it into `target`.
/// When it is not, `target` is left as it was.
pub fn is_device_mounted(mounts: &Vec<MountEntry>, dev: u64, target: &mut Vec<u8>) -> (r: bool)
    ensures
        r == has_mount_of(mounts@, dev),
        r ==> exists|i: int|
            first_mount_of(mounts@, dev, i) && final(target)@ == mounts@[i].target@,
        !r ==> final(target)@ == old(target)@,
{
    let mut i: usize = 0;
    while i < mounts.len()
        invariant
            i <= mounts@.len(),
            forall|j: int| 0 <= j < i ==> mounts@[j].device != dev,
            target@ == old(target)@,
        decreases mounts@.len() - i,
    {
        if mounts[i].device == dev {
            *target = copy_bytes(mounts[i].target.as_slice());
            assert(first_mount_of(mounts@, dev, i as int));
            return true;
        }
        i += 1;
    }
    false
}

} // verus!
