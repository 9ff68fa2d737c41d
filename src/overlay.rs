use vstd::prelude::*;

use crate::bytes::{bytes_equal, copy_bytes};

verus! {

/// Owner, mode and security context of one file.
pub struct FileAttr {
    pub uid: u32,
    pub gid: u32,
    pub mode: u32,
    pub context: Vec<u8>,
}

/// The abstract attributes of one file.
pub struct AttrView {
    pub uid: u32,
    pub gid: u32,
    pub mode: u32,
    pub context: Seq<u8>,
}

impl View for FileAttr {
    type V = AttrView;

    open spec fn view(&self) -> AttrView {
        AttrView { uid: self.uid, gid: self.gid, mode: self.mode, context: self.context@ }
    }
}

/// The attributes a path had before the overlay was built, to be put back.
pub struct OverlayAttr {
    pub path: Vec<u8>,
    pub attr: FileAttr,
}

/// The abstract view of a list of records.
pub open spec fn records_view(s: Seq<OverlayAttr>) -> Seq<(Seq<u8>, AttrView)> {
    s.map_values(|a: OverlayAttr| (a.path@, a.attr@))
}

/// The attributes of the file system after the records are applied in order.
pub open spec fn restored(fs: Map<Seq<u8>, AttrView>, recs: Seq<(Seq<u8>, AttrView)>) -> Map<
    Seq<u8>,
    AttrView,
>
    decreases recs.len(),
{
    if recs.len() == 0 {
        fs
    } else {
        restored(fs, recs.drop_last()).insert(recs.last().0, recs.last().1)
    }
}

/// No path occurs in two records.
pub open spec fn paths_unique(recs: Seq<(Seq<u8>, AttrView)>) -> bool {
    forall|i: int, j: int|
        0 <= i < recs.len() && 0 <= j < recs.len() && i != j ==> recs[i].0 != recs[j].0
}

/// Some record is for `path`.
pub open spec fn recorded(recs: Seq<(Seq<u8>, AttrView)>, path: Seq<u8>) -> bool {
    exists|i: int| 0 <= i < recs.len() && recs[i].0 == path
}

fn copy_attr(a: &FileAttr) -> (r: FileAttr)
    ensures
        r@ == a@,
{
    FileAttr { uid: a.uid, gid: a.gid, mode: a.mode, context: copy_bytes(a.context.as_slice()) }
}

/// The attribute snapshots taken while the overlay is built: one per path,
/// the first one taken, since later ones would see already changed files.
pub struct OverlayRecord {
    pub entries: Vec<OverlayAttr>,
}

impl OverlayRecord {
    pub open spec fn view_recs(&self) -> Seq<(Seq<u8>, AttrView)> {
        records_view(self.entries@)
    }

    /// Exactly one record per path.
    pub open spec fn wf(&self) -> bool {
        paths_unique(self.view_recs())
    }

    pub fn new() -> (r: Self)
        ensures
            r.wf(),
            r.view_recs() == Seq::<(Seq<u8>, AttrView)>::empty(),
    {
        let r = OverlayRecord { entries: Vec::new() };
        assert(r.view_recs() =~= seq![]);
        r
    }

    /// Whether some snapshot was taken for `path`.
    pub fn contains(&self, path: &[u8]) -> (r: bool)
        ensures
            r == recorded(self.view_recs(), path@),
    {
        let mut i: usize = 0;
        while i < self.entries.len()
            invariant
                i <= self.entries@.len(),
                forall|j: int| 0 <= j < i ==> self.view_recs()[j].0 != path@,
            decreases self.entries@.len() - i,
        {
            if bytes_equal(self.entries[i].path.as_slice(), path) {
                assert(self.view_recs()[i as int].0 == path@);
                return true;
            }
            i += 1;
        }
        false
    }

    /// Takes the snapshot of `path` before it is changed; a path that already
    /// has one keeps it.
    pub fn record(&mut self, path: &[u8], attr: &FileAttr)
        requires
            old(self).wf(),
        ensures
            final(self).wf(),
            recorded(old(self).view_recs(), path@) ==> final(self).view_recs() == old(self).view_recs(),
            !recorded(old(self).view_recs(), path@) ==> final(self).view_recs() == old(self).view_recs().push((path@, attr@)),
    {
        if self.contains(path) {
            return;
        }
        let ghost before = self.view_recs();
        self.entries.push(OverlayAttr { path: copy_bytes(path), attr: copy_attr(attr) });
        assert(self.view_recs() =~= before.push((path@, attr@)));
        assert forall|i: int, j: int|
            0 <= i < self.view_recs().len() && 0 <= j < self.view_recs().len() && i != j
                implies self.view_recs()[i].0 != self.view_recs()[j].0 by {
            if i < before.len() && j < before.len() {
                assert(self.view_recs()[i] == before[i]);
                assert(self.view_recs()[j] == before[j]);
            } else if i < before.len() {
                assert(self.view_recs()[i] == before[i]);
            } else {
                assert(self.view_recs()[j] == before[j]);
            }
        }
    }
}

/// The attributes of files as a log of writes: the last write of a path wins.
/// It stands for the live file system where restoration is exercised.
pub struct AttrTable {
    pub writes: Vec<OverlayAttr>,
}

impl AttrTable {
    /// The current attributes of each path that was written.
    pub open spec fn current(&self) -> Map<Seq<u8>, AttrView> {
        restored(Map::empty(), records_view(self.writes@))
    }

    pub fn new() -> (r: Self)
        ensures
            r.current() == Map::<Seq<u8>, AttrView>::empty(),
    {
        let r = AttrTable { writes: Vec::new() };
        assert(records_view(r.writes@) =~= seq![]);
        r
    }

    /// Sets the attributes of `path`.
    pub fn set(&mut self, path: &[u8], attr: &FileAttr)
        ensures
            final(self).current() == old(self).current().insert(path@, attr@),
    {
        let ghost before = records_view(self.writes@);
        self.writes.push(OverlayAttr { path: copy_bytes(path), attr: copy_attr(attr) });
        assert(records_view(self.writes@).drop_last() =~= before);
    }

    /// The current attributes of `path`, if any were written.
    pub fn get(&self, path: &[u8]) -> (r: Option<FileAttr>)
        ensures
            match r {
                Some(a) => self.current().contains_key(path@) && self.current()[path@] == a@,
                None => !self.current().contains_key(path@),
            },
    {
        let ghost recs = records_view(self.writes@);
        let mut i: usize = self.writes.len();
        assert(recs.subrange(0, i as int) =~= recs);
        while i > 0
            invariant
                i <= self.writes@.len(),
                recs == records_view(self.writes@),
                forall|j: int| i <= j < recs.len() ==> recs[j].0 != path@,
                self.current() == restored(Map::empty(), recs),
                self.current().contains_key(path@) == restored(
                    Map::empty(),
                    recs.subrange(0, i as int),
                ).contains_key(path@),
                self.current().contains_key(path@) ==> self.current()[path@] == restored(
                    Map::empty(),
                    recs.subrange(0, i as int),
                )[path@],
            decreases i,
        {
            let ghost pre = recs.subrange(0, i as int);
            assert(pre.drop_last() =~= recs.subrange(0, i - 1));
            if bytes_equal(self.writes[i - 1].path.as_slice(), path) {
                return Some(copy_attr(&self.writes[i - 1].attr));
            }
            i -= 1;
        }
        assert(recs.subrange(0, 0) =~= seq![]);
        None
    }
}

proof fn lemma_restored_append(
    fs: Map<Seq<u8>, AttrView>,
    a: Seq<(Seq<u8>, AttrView)>,
    b: Seq<(Seq<u8>, AttrView)>,
)
    ensures
        restored(fs, a + b) == restored(restored(fs, a), b),
    decreases b.len(),
{
    if b.len() == 0 {
        assert(a + b =~= a);
    } else {
        lemma_restored_append(fs, a, b.drop_last());
        assert((a + b).drop_last() =~= a + b.drop_last());
    }
}

/// Puts every recorded attribute back, in order.
pub fn restore_overlay_contexts(rec: &OverlayRecord, fs: &mut AttrTable)
    ensures
        final(fs).current() == restored(old(fs).current(), rec.view_recs()),
{
    let ghost start = old(fs).current();
    let ghost recs = rec.view_recs();
    let mut i: usize = 0;
    assert(recs.take(0) =~= seq![]);
    while i < rec.entries.len()
        invariant
            i <= rec.entries@.len(),
            recs == rec.view_recs(),
            fs.current() == restored(start, recs.take(i as int)),
        decreases rec.entries@.len() - i,
    {
        assert(recs.take(i + 1).drop_last() =~= recs.take(i as int));
        fs.set(rec.entries[i].path.as_slice(), &rec.entries[i].attr);
        i += 1;
    }
    assert(recs.take(i as int) =~= recs);
}

proof fn lemma_reinsert_absorbed(
    g: Map<Seq<u8>, AttrView>,
    recs: Seq<(Seq<u8>, AttrView)>,
    k: Seq<u8>,
    v: AttrView,
)
    ensures
        restored(g.insert(k, v), recs).insert(k, v) == restored(g, recs).insert(k, v),
    decreases recs.len(),
{
    if recs.len() > 0 {
        let init = recs.drop_last();
        let y = recs.last();
        lemma_reinsert_absorbed(g, init, k, v);
        if y.0 == k {
            assert(restored(g.insert(k, v), init).insert(y.0, y.1).insert(k, v) =~= restored(
                g.insert(k, v),
                init,
            ).insert(k, v));
            assert(restored(g, init).insert(y.0, y.1).insert(k, v) =~= restored(g, init).insert(
                k,
                v,
            ));
        } else {
            assert(restored(g.insert(k, v), init).insert(y.0, y.1).insert(k, v) =~= restored(
                g.insert(k, v),
                init,
            ).insert(k, v).insert(y.0, y.1));
            assert(restored(g, init).insert(y.0, y.1).insert(k, v) =~= restored(g, init).insert(
                k,
                v,
            ).insert(y.0, y.1));
        }
    }
}

/// Restoration is idempotent: applying the records a second time leaves the
/// attributes as the first application left them.
pub proof fn restore_idempotent(fs: Map<Seq<u8>, AttrView>, recs: Seq<(Seq<u8>, AttrView)>)
    ensures
        restored(restored(fs, recs), recs) == restored(fs, recs),
    decreases recs.len(),
{
    if recs.len() > 0 {
        let init = recs.drop_last();
        let x = recs.last();
        restore_idempotent(fs, init);
        lemma_reinsert_absorbed(restored(fs, init), init, x.0, x.1);
    }
}

/// After restoration every recorded path carries its recorded attributes.
pub proof fn restore_applies_records(fs: Map<Seq<u8>, AttrView>, recs: Seq<(Seq<u8>, AttrView)>, i: int)
    requires
        paths_unique(recs),
        0 <= i < recs.len(),
    ensures
        restored(fs, recs).contains_key(recs[i].0),
        restored(fs, recs)[recs[i].0] == recs[i].1,
    decreases recs.len(),
{
    if i < recs.len() - 1 {
        let init = recs.drop_last();
        assert(init[i] == recs[i]);
        assert forall|a: int, b: int|
            0 <= a < init.len() && 0 <= b < init.len() && a != b implies init[a].0 != init[b].0 by {
            assert(init[a] == recs[a]);
            assert(init[b] == recs[b]);
        }
        restore_applies_records(fs, init, i);
        assert(recs.last() == recs[recs.len() - 1]);
    }
}

} // verus!
