use vstd::prelude::*;

verus! {

/// The abstract view of a list of byte strings.
pub open spec fn seqs_view(v: Seq<Vec<u8>>) -> Seq<Seq<u8>> {
    v.map_values(|a: Vec<u8>| a@)
}

/// `v` cut at every `sep`; empty pieces are kept, so there is always one more
/// piece than separators.
pub open spec fn split(v: Seq<u8>, sep: u8) -> Seq<Seq<u8>>
    decreases v.len(),
{
    if v.len() == 0 {
        seq![seq![]]
    } else {
        let before = split(v.drop_last(), sep);
        if v.last() == sep {
            before.push(seq![])
        } else {
            before.update(before.len() - 1, before.last().push(v.last()))
        }
    }
}

/// Splits `v` at every `sep`, keeping empty pieces.
pub fn split_bytes(v: &[u8], sep: u8) -> (r: Vec<Vec<u8>>)
    ensures
        seqs_view(r@) == split(v@, sep),
{
    let mut done: Vec<Vec<u8>> = Vec::new();
    let mut cur: Vec<u8> = Vec::new();
    let mut i: usize = 0;
    assert(v@.take(0) =~= seq![]);
    assert(seqs_view(done@).push(cur@) =~= seq![seq![]]);
    while i < v.len()
        invariant
            i <= v@.len(),
            split(v@.take(i as int), sep) == seqs_view(done@).push(cur@),
        decreases v@.len() - i,
    {
        let c = v[i];
        assert(v@.take(i + 1).drop_last() =~= v@.take(i as int));
        let ghost before = seqs_view(done@).push(cur@);
        if c == sep {
            done.push(cur);
            cur = Vec::new();
            assert(seqs_view(done@).push(cur@) =~= before.push(seq![]));
        } else {
            cur.push(c);
            assert(seqs_view(done@).push(cur@) =~= before.update(
                before.len() - 1,
                before.last().push(c),
            ));
        }
        i += 1;
    }
    assert(v@.take(i as int) =~= v@);
    let ghost before = seqs_view(done@).push(cur@);
    done.push(cur);
    assert(seqs_view(done@) =~= before);
    done
}

/// A fresh vector holding the same bytes as `src`.
pub fn copy_bytes(src: &[u8]) -> (r: Vec<u8>)
    ensures
        r@ == src@,
{
    let mut r: Vec<u8> = Vec::new();
    append_bytes(&mut r, src);
    r
}

/// Appends every byte of `src` to `dst`, in order.
pub fn append_bytes(dst: &mut Vec<u8>, src: &[u8])
    ensures
        final(dst)@ == old(dst)@ + src@,
{
    let ghost start = dst@;
    let mut i: usize = 0;
    while i < src.len()
        invariant
            i <= src@.len(),
            dst@ == start + src@.subrange(0, i as int),
        decreases src@.len() - i,
    {
        dst.push(src[i]);
        i += 1;
        assert(src@.subrange(0, i as int) =~= src@.subrange(0, i - 1) + seq![src@[i - 1]]);
    }
    assert(src@.subrange(0, i as int) =~= src@);
}

/// Byte-wise equality of two byte strings.
pub fn bytes_equal(a: &[u8], b: &[u8]) -> (r: bool)
    ensures
        r == (a@ == b@),
{
    if a.len() != b.len() {
        return false;
    }
    let mut i: usize = 0;
    while i < a.len()
        invariant
            a@.len() == b@.len(),
            i <= a@.len(),
            forall|j: int| 0 <= j < i ==> a@[j] == b@[j],
        decreases a@.len() - i,
    {
        if a[i] != b[i] {
            return false;
        }
        i += 1;
    }
    assert(a@ =~= b@);
    true
}

} // verus!
