//! The device manager's bookkeeping: which devices are being read, and
//! how one discovery scan changes that.

use vstd::prelude::*;

use crate::keys::DeviceId;

verus! {

/// What identifies a device: its name and location.
pub type IdView = (Seq<char>, Seq<char>);

/// The ids of a sequence of entries keyed by device id.
pub open spec fn ids_of<X>(entries: Seq<(DeviceId, X)>) -> Seq<IdView> {
    entries.map_values(|entry: (DeviceId, X)| entry.0@)
}

/// The entries whose device appears in `scan`, in their order.
pub open spec fn kept_entries<X>(entries: Seq<(DeviceId, X)>, scan: Seq<IdView>) -> Seq<(DeviceId, X)>
    decreases entries.len(),
{
    if entries.len() == 0 {
        Seq::empty()
    } else {
        let rest = kept_entries(entries.drop_last(), scan);
        if scan.contains(entries.last().0@) {
            rest.push(entries.last())
        } else {
            rest
        }
    }
}

/// The entries whose device does not appear in `scan`, in their order.
pub open spec fn missing_entries<X>(entries: Seq<(DeviceId, X)>, scan: Seq<IdView>) -> Seq<(DeviceId, X)>
    decreases entries.len(),
{
    if entries.len() == 0 {
        Seq::empty()
    } else {
        let rest = missing_entries(entries.drop_last(), scan);
        if scan.contains(entries.last().0@) {
            rest
        } else {
            rest.push(entries.last())
        }
    }
}

/// The ids of `active` that appear in `scan`, in their order.
pub open spec fn kept_ids(active: Seq<IdView>, scan: Seq<IdView>) -> Seq<IdView>
    decreases active.len(),
{
    if active.len() == 0 {
        Seq::empty()
    } else {
        let rest = kept_ids(active.drop_last(), scan);
        if scan.contains(active.last()) {
            rest.push(active.last())
        } else {
            rest
        }
    }
}

/// The ids of `scan` that are neither in `present` nor earlier in `scan`,
/// in scan order: the devices a scan starts reading.
pub open spec fn started_ids(present: Seq<IdView>, scan: Seq<IdView>) -> Seq<IdView>
    decreases scan.len(),
{
    if scan.len() == 0 {
        Seq::empty()
    } else {
        let before = started_ids(present, scan.drop_last());
        if present.contains(scan.last()) || before.contains(scan.last()) {
            before
        } else {
            before.push(scan.last())
        }
    }
}

/// The devices being read after a scan of `scan` while `active` were
/// being read: the active ones still present, then the new ones.
pub open spec fn ids_after_scan(active: Seq<IdView>, scan: Seq<IdView>) -> Seq<IdView> {
    kept_ids(active, scan) + started_ids(kept_ids(active, scan), scan)
}

/// One reader per device: a table from device id to the handle of the
/// task reading it.
pub struct ReaderTable<H> {
    readers: Vec<(DeviceId, H)>,
}

impl<H> ReaderTable<H> {
    /// The table's entries, in the order they were added.
    pub closed spec fn entries(&self) -> Seq<(DeviceId, H)> {
        self.readers@
    }

    /// The ids of the devices being read.
    pub open spec fn ids(&self) -> Seq<IdView> {
        ids_of(self.entries())
    }

    /// No device has two readers.
    #[verifier::type_invariant]
    closed spec fn one_reader_per_device(&self) -> bool {
        ids_of(self.readers@).no_duplicates()
    }

    /// An empty table.
    pub fn new() -> (table: Self)
        ensures
            table.entries() == Seq::<(DeviceId, H)>::empty(),
    {
        let table = ReaderTable { readers: Vec::new() };
        assert(ids_of(table.readers@) =~= Seq::<IdView>::empty());
        table
    }

    /// How many devices are being read.
    pub fn len(&self) -> (n: usize)
        ensures
            n == self.entries().len(),
    {
        self.readers.len()
    }

    /// Whether `id`'s device is being read.
    pub fn contains(&self, id: &DeviceId) -> (found: bool)
        ensures
            found == self.ids().contains(id@),
    {
        holds_id(&self.readers, id)
    }

    /// The table's entries, handing their handles out.
    pub fn into_entries(self) -> (entries: Vec<(DeviceId, H)>)
        ensures
            entries@ == self.entries(),
    {
        self.readers
    }

    /// Take the readers of devices missing from `scan` out of the table.
    ///
    /// The readers of devices in `scan` stay, in their order; the others
    /// are returned, in theirs.
    pub fn remove_missing<D>(&mut self, scan: &Vec<(DeviceId, D)>) -> (removed: Vec<(DeviceId, H)>)
        ensures
            final(self).entries() == kept_entries(old(self).entries(), ids_of(scan@)),
            removed@ == missing_entries(old(self).entries(), ids_of(scan@)),
            final(self).ids() == kept_ids(old(self).ids(), ids_of(scan@)),
    {
        proof {
            use_type_invariant(&*self);
        }
        let ghost old_entries = self.readers@;
        let ghost scan_ids = ids_of(scan@);
        let mut readers: Vec<(DeviceId, H)> = Vec::new();
        std::mem::swap(&mut readers, &mut self.readers);

        let mut kept: Vec<(DeviceId, H)> = Vec::new();
        let mut removed: Vec<(DeviceId, H)> = Vec::new();
        let ghost mut done: int = 0;
        while readers.len() > 0
            invariant
                0 <= done <= old_entries.len(),
                readers@ == old_entries.skip(done),
                kept@ == kept_entries(old_entries.take(done), scan_ids),
                removed@ == missing_entries(old_entries.take(done), scan_ids),
                scan_ids == ids_of(scan@),
            decreases readers.len(),
        {
            let entry = readers.remove(0);
            proof {
                assert(old_entries.take(done + 1).drop_last() =~= old_entries.take(done));
                assert(old_entries.take(done + 1).last() == entry);
            }
            if holds_id(scan, &entry.0) {
                kept.push(entry);
            } else {
                removed.push(entry);
            }
            proof {
                done = done + 1;
                assert(readers@ =~= old_entries.skip(done));
            }
        }
        proof {
            assert(old_entries.take(done) =~= old_entries);
            lemma_kept_entries_ids(old_entries, scan_ids);
            lemma_kept_ids(ids_of(old_entries), scan_ids);
        }
        self.readers = kept;
        removed
    }

    /// Add a reader for `id`'s device, unless that device is read
    /// already; then the handle is given back and the table is unchanged.
    pub fn insert(&mut self, id: DeviceId, handle: H) -> (refused: Option<H>)
        ensures
            old(self).ids().contains(id@) ==> refused == Some(handle) && final(self).entries()
                == old(self).entries(),
            !old(self).ids().contains(id@) ==> refused is None && final(self).entries()
                == old(self).entries().push((id, handle)),
    {
        proof {
            use_type_invariant(&*self);
        }
        if holds_id(&self.readers, &id) {
            return Some(handle);
        }
        let ghost before = self.readers@;
        let mut readers: Vec<(DeviceId, H)> = Vec::new();
        std::mem::swap(&mut readers, &mut self.readers);
        let ghost id_view = id@;
        readers.push((id, handle));
        proof {
            assert(ids_of(readers@) =~= ids_of(before).push(id_view));
            lemma_push_no_duplicates(ids_of(before), id_view);
        }
        self.readers = readers;
        None
    }

    /// Diff one discovery scan against the readers in the table.
    ///
    /// The readers of devices missing from `scan` leave the table and are
    /// returned first, in their order, to be stopped; the others stay,
    /// with their handles. Returned second are the devices of `scan` to
    /// start a reader for, in scan order: those not read and not listed
    /// earlier in `scan`, so a device listed twice is started once, and a
    /// device still read is not started again.
    pub fn apply_scan<D>(&mut self, scan: Vec<(DeviceId, D)>) -> (diff: (
        Vec<(DeviceId, H)>,
        Vec<(DeviceId, D)>,
    ))
        ensures
            diff.0@ == missing_entries(old(self).entries(), ids_of(scan@)),
            final(self).entries() == kept_entries(old(self).entries(), ids_of(scan@)),
            diff.1@ == started_entries(kept_ids(old(self).ids(), ids_of(scan@)), scan@),
            ids_of(diff.1@) == started_ids(kept_ids(old(self).ids(), ids_of(scan@)), ids_of(scan@)),
    {
        let removed = self.remove_missing(&scan);
        let ghost present = self.ids();
        let ghost scan_all = scan@;
        let mut scan = scan;
        let mut to_start: Vec<(DeviceId, D)> = Vec::new();
        let ghost mut seen: int = 0;
        while scan.len() > 0
            invariant
                0 <= seen <= scan_all.len(),
                scan@ == scan_all.skip(seen),
                present == self.ids(),
                to_start@ == started_entries(present, scan_all.take(seen)),
            decreases scan.len(),
        {
            let (id, device) = scan.remove(0);
            proof {
                assert(scan_all.take(seen + 1).drop_last() =~= scan_all.take(seen));
                assert(scan_all.take(seen + 1).last() == (id, device));
            }
            if !self.contains(&id) && !holds_id(&to_start, &id) {
                to_start.push((id, device));
            }
            proof {
                seen = seen + 1;
                assert(scan@ =~= scan_all.skip(seen));
            }
        }
        proof {
            assert(scan_all.take(seen) =~= scan_all);
            lemma_started_entries_ids(present, scan_all);
        }
        (removed, to_start)
    }
}

/// The entries of `scan` whose device is neither in `present` nor earlier
/// in `scan`, in scan order: the devices a scan starts reading.
pub open spec fn started_entries<D>(present: Seq<IdView>, scan: Seq<(DeviceId, D)>) -> Seq<(DeviceId, D)>
    decreases scan.len(),
{
    if scan.len() == 0 {
        Seq::empty()
    } else {
        let before = started_entries(present, scan.drop_last());
        if present.contains(scan.last().0@) || ids_of(before).contains(scan.last().0@) {
            before
        } else {
            before.push(scan.last())
        }
    }
}

/// The ids of the started entries are the started ids.
proof fn lemma_started_entries_ids<D>(present: Seq<IdView>, scan: Seq<(DeviceId, D)>)
    ensures
        ids_of(started_entries(present, scan)) == started_ids(present, ids_of(scan)),
    decreases scan.len(),
{
    if scan.len() > 0 {
        lemma_started_entries_ids(present, scan.drop_last());
        assert(ids_of(scan.drop_last()) =~= ids_of(scan).drop_last());
        let before = started_entries(present, scan.drop_last());
        assert(ids_of(before.push(scan.last())) =~= ids_of(before).push(scan.last().0@));
    }
}

/// Adding an id that is not there keeps a sequence free of duplicates.
proof fn lemma_push_no_duplicates(ids: Seq<IdView>, x: IdView)
    requires
        ids.no_duplicates(),
        !ids.contains(x),
    ensures
        ids.push(x).no_duplicates(),
{
    let pushed = ids.push(x);
    assert forall|i: int, j: int| 0 <= i < pushed.len() && 0 <= j < pushed.len() && i != j implies pushed[i] != pushed[j] by {
        if i == ids.len() {
            assert(ids[j] == pushed[j]);
        } else if j == ids.len() {
            assert(ids[i] == pushed[i]);
        } else {
            assert(ids[i] == pushed[i] && ids[j] == pushed[j]);
        }
    }
}

/// Whether some entry of `entries` is keyed by `id`'s device.
fn holds_id<X>(entries: &Vec<(DeviceId, X)>, id: &DeviceId) -> (found: bool)
    ensures
        found == ids_of(entries@).contains(id@),
{
    let mut i: usize = 0;
    while i < entries.len()
        invariant
            i <= entries.len(),
            forall|j: int| 0 <= j < i ==> entries@[j].0@ != id@,
        decreases entries.len() - i,
    {
        if entries[i].0.same_device(id) {
            assert(ids_of(entries@)[i as int] == id@);
            return true;
        }
        i = i + 1;
    }
    proof {
        if ids_of(entries@).contains(id@) {
            let j = choose|j: int| 0 <= j < ids_of(entries@).len() && ids_of(entries@)[j] == id@;
            assert(entries@[j].0@ == id@);
        }
    }
    false
}

proof fn lemma_concat_contains(a: Seq<IdView>, b: Seq<IdView>, x: IdView)
    ensures
        (a + b).contains(x) <==> a.contains(x) || b.contains(x),
{
    if (a + b).contains(x) {
        let i = choose|i: int| 0 <= i < (a + b).len() && (a + b)[i] == x;
        if i < a.len() {
            assert(a[i] == x);
        } else {
            assert(b[i - a.len()] == x);
        }
    }
    if a.contains(x) {
        let i = choose|i: int| 0 <= i < a.len() && a[i] == x;
        assert((a + b)[i] == x);
    }
    if b.contains(x) {
        let i = choose|i: int| 0 <= i < b.len() && b[i] == x;
        assert((a + b)[a.len() + i] == x);
    }
}

/// The ids of the kept entries are the kept ids.
proof fn lemma_kept_entries_ids<X>(entries: Seq<(DeviceId, X)>, scan: Seq<IdView>)
    ensures
        ids_of(kept_entries(entries, scan)) == kept_ids(ids_of(entries), scan),
    decreases entries.len(),
{
    if entries.len() > 0 {
        lemma_kept_entries_ids(entries.drop_last(), scan);
        assert(ids_of(entries.drop_last()) =~= ids_of(entries).drop_last());
        let rest = kept_entries(entries.drop_last(), scan);
        assert(ids_of(rest.push(entries.last())) =~= ids_of(rest).push(entries.last().0@));
    }
}

/// The kept ids are the active ids that appear in the scan, each once.
proof fn lemma_kept_ids(active: Seq<IdView>, scan: Seq<IdView>)
    requires
        active.no_duplicates(),
    ensures
        kept_ids(active, scan).no_duplicates(),
        forall|x: IdView| #[trigger] kept_ids(active, scan).contains(x) <==> active.contains(x) && scan.contains(x),
    decreases active.len(),
{
    if active.len() > 0 {
        let rest = active.drop_last();
        assert forall|i: int, j: int| 0 <= i < rest.len() && 0 <= j < rest.len() && i != j implies rest[i] != rest[j] by {
            assert(rest[i] == active[i] && rest[j] == active[j]);
        }
        lemma_kept_ids(rest, scan);
        assert forall|x: IdView| active.contains(x) <==> rest.contains(x) || x == active.last() by {
            if active.contains(x) {
                let i = choose|i: int| 0 <= i < active.len() && active[i] == x;
                if i < active.len() - 1 {
                    assert(rest[i] == x);
                }
            }
            if rest.contains(x) {
                let i = choose|i: int| 0 <= i < rest.len() && rest[i] == x;
                assert(active[i] == x);
            }
        }
        assert(!rest.contains(active.last())) by {
            if rest.contains(active.last()) {
                let i = choose|i: int| 0 <= i < rest.len() && rest[i] == active.last();
                assert(active[i] == active[active.len() - 1]);
            }
        }
        let kept = kept_ids(active, scan);
        let kept_rest = kept_ids(rest, scan);
        if scan.contains(active.last()) {
            assert(kept == kept_rest.push(active.last()));
            assert forall|i: int, j: int| 0 <= i < kept.len() && 0 <= j < kept.len() && i != j implies kept[i] != kept[j] by {
                if i == kept.len() - 1 {
                    assert(kept_rest.contains(kept[j]));
                } else if j == kept.len() - 1 {
                    assert(kept_rest.contains(kept[i]));
                } else {
                    assert(kept_rest[i] == kept[i] && kept_rest[j] == kept[j]);
                }
            }
            assert forall|x: IdView| kept.contains(x) <==> kept_rest.contains(x) || x == active.last() by {
                if kept.contains(x) {
                    let i = choose|i: int| 0 <= i < kept.len() && kept[i] == x;
                    if i < kept.len() - 1 {
                        assert(kept_rest[i] == x);
                    }
                }
                if kept_rest.contains(x) {
                    let i = choose|i: int| 0 <= i < kept_rest.len() && kept_rest[i] == x;
                    assert(kept[i] == x);
                }
                if x == active.last() {
                    assert(kept[kept.len() - 1] == x);
                }
            }
        }
    }
}

/// The started ids are the scanned ids not present, each once.
proof fn lemma_started_ids(present: Seq<IdView>, scan: Seq<IdView>)
    ensures
        started_ids(present, scan).no_duplicates(),
        forall|x: IdView| #[trigger] started_ids(present, scan).contains(x) <==> scan.contains(x) && !present.contains(x),
    decreases scan.len(),
{
    if scan.len() > 0 {
        let rest = scan.drop_last();
        lemma_started_ids(present, rest);
        let before = started_ids(present, rest);
        let started = started_ids(present, scan);
        assert forall|x: IdView| scan.contains(x) <==> rest.contains(x) || x == scan.last() by {
            if scan.contains(x) {
                let i = choose|i: int| 0 <= i < scan.len() && scan[i] == x;
                if i < scan.len() - 1 {
                    assert(rest[i] == x);
                }
            }
            if rest.contains(x) {
                let i = choose|i: int| 0 <= i < rest.len() && rest[i] == x;
                assert(scan[i] == x);
            }
        }
        if !(present.contains(scan.last()) || before.contains(scan.last())) {
            assert(started == before.push(scan.last()));
            assert forall|x: IdView| started.contains(x) <==> before.contains(x) || x == scan.last() by {
                if started.contains(x) {
                    let i = choose|i: int| 0 <= i < started.len() && started[i] == x;
                    if i < started.len() - 1 {
                        assert(before[i] == x);
                    }
                }
                if before.contains(x) {
                    let i = choose|i: int| 0 <= i < before.len() && before[i] == x;
                    assert(started[i] == x);
                }
                if x == scan.last() {
                    assert(started[started.len() - 1] == x);
                }
            }
            assert forall|i: int, j: int| 0 <= i < started.len() && 0 <= j < started.len() && i != j implies started[i] != started[j] by {
                if i == started.len() - 1 {
                    assert(before.contains(started[j]) ==> started[j] != scan.last());
                    assert(before[j] == started[j]);
                } else if j == started.len() - 1 {
                    assert(before[i] == started[i]);
                } else {
                    assert(before[i] == started[i] && before[j] == started[j]);
                }
            }
        }
    }
}

/// The readers a scan removes are exactly those of the devices read
/// before and missing from the scan.
pub proof fn lemma_missing_entries<X>(entries: Seq<(DeviceId, X)>, scan: Seq<IdView>)
    ensures
        forall|x: IdView| #[trigger] ids_of(missing_entries(entries, scan)).contains(x)
            <==> ids_of(entries).contains(x) && !scan.contains(x),
    decreases entries.len(),
{
    if entries.len() > 0 {
        let rest = entries.drop_last();
        let last = entries.last();
        lemma_missing_entries(rest, scan);
        let before = missing_entries(rest, scan);
        let all = ids_of(entries);
        let now = ids_of(missing_entries(entries, scan));
        assert(ids_of(rest) =~= all.drop_last());
        if !scan.contains(last.0@) {
            assert(now =~= ids_of(before).push(last.0@));
        } else {
            assert(now == ids_of(before));
        }
        assert forall|x: IdView| #[trigger] now.contains(x) <==> all.contains(x) && !scan.contains(x) by {
            assert(ids_of(before).contains(x) <==> ids_of(rest).contains(x) && !scan.contains(x));
            if all.contains(x) {
                let i = choose|i: int| 0 <= i < all.len() && all[i] == x;
                if i < all.len() - 1 {
                    assert(ids_of(rest)[i] == x);
                }
            }
            if ids_of(rest).contains(x) {
                let i = choose|i: int| 0 <= i < ids_of(rest).len() && ids_of(rest)[i] == x;
                assert(all[i] == x);
            }
            assert(all[all.len() - 1] == last.0@);
            if now.contains(x) {
                let i = choose|i: int| 0 <= i < now.len() && now[i] == x;
                if i < ids_of(before).len() {
                    assert(ids_of(before)[i] == x);
                }
            }
            if ids_of(before).contains(x) {
                let i = choose|i: int| 0 <= i < ids_of(before).len() && ids_of(before)[i] == x;
                assert(now[i] == x);
            }
            if !scan.contains(last.0@) {
                assert(now[now.len() - 1] == last.0@);
            }
        }
    }
}

/// Starting the new devices of a scan keeps one reader per device: each
/// insert of a started device, in order, is accepted, and afterwards the
/// devices read are those read before and those scanned, each once.
pub proof fn lemma_start_new(present: Seq<IdView>, scan: Seq<IdView>)
    requires
        present.no_duplicates(),
    ensures
        (present + started_ids(present, scan)).no_duplicates(),
        (present + started_ids(present, scan)).to_set() == present.to_set() + scan.to_set(),
        forall|i: int|
            0 <= i < started_ids(present, scan).len() ==> !(present + started_ids(present, scan).take(
                i,
            )).contains(#[trigger] started_ids(present, scan)[i]),
{
    let started = started_ids(present, scan);
    lemma_started_ids(present, scan);
    assert forall|i: int, j: int| 0 <= i < present.len() && 0 <= j < started.len() implies present[i] != started[j] by {
        assert(started.contains(started[j]));
        assert(present.contains(present[i]));
    }
    vstd::seq_lib::lemma_no_dup_in_concat(present, started);
    assert forall|x: IdView| (present + started).contains(x) <==> present.contains(x) || scan.contains(x) by {
        lemma_concat_contains(present, started, x);
    }
    assert((present + started).to_set() =~= present.to_set() + scan.to_set());
    let all = present + started;
    assert forall|i: int| 0 <= i < started.len() implies !(present + started.take(i)).contains(
        #[trigger] started[i],
    ) by {
        let prefix = present + started.take(i);
        if prefix.contains(started[i]) {
            let k = choose|k: int| 0 <= k < prefix.len() && prefix[k] == started[i];
            assert(prefix[k] == all[k]);
            assert(all[present.len() + i] == started[i]);
        }
    }
}

/// After a scan, every scanned device is read exactly once and no other
/// device is read; devices that were read and are still present keep
/// their reader and are not started again.
pub proof fn lemma_after_scan(active: Seq<IdView>, scan: Seq<IdView>)
    requires
        active.no_duplicates(),
    ensures
        ids_after_scan(active, scan).no_duplicates(),
        ids_after_scan(active, scan).to_set() == scan.to_set(),
        forall|x: IdView|
            active.contains(x) && scan.contains(x) ==> #[trigger] kept_ids(active, scan).contains(x)
                && !started_ids(kept_ids(active, scan), scan).contains(x),
{
    let kept = kept_ids(active, scan);
    lemma_kept_ids(active, scan);
    lemma_started_ids(kept, scan);
    lemma_start_new(kept, scan);
    assert(ids_after_scan(active, scan).to_set() =~= scan.to_set());
}

} // verus!
