use vstd::prelude::*;

verus! {

/// The most downloaded segments of one stream kept in memory at once.
pub const SEGMENT_CACHE_CAP: usize = 16;

/// Whether no segment index occurs twice.
pub open spec fn distinct_indices<T>(entries: Seq<(usize, T)>) -> bool {
    forall|a: int, b: int| 0 <= a < b < entries.len() ==> #[trigger] entries[a].0 != #[trigger] entries[b].0
}

/// Whether the segment `index` is kept with the bytes `value`.
pub open spec fn holds<T>(entries: Seq<(usize, T)>, index: usize, value: T) -> bool {
    exists|k: int| 0 <= k < entries.len() && #[trigger] entries[k] == (index, value)
}

/// Whether the segment `index` is kept at all.
pub open spec fn has_index<T>(entries: Seq<(usize, T)>, index: usize) -> bool {
    exists|k: int| 0 <= k < entries.len() && #[trigger] entries[k].0 == index
}

/// The entries after a segment that was not kept is added: it goes last,
/// and when that makes one too many the oldest goes.
pub open spec fn appended<T>(entries: Seq<(usize, T)>, index: usize, value: T) -> Seq<(usize, T)> {
    let grown = entries.push((index, value));
    if grown.len() > SEGMENT_CACHE_CAP { grown.drop_first() } else { grown }
}

/// The downloaded segments of one stream by index, oldest first.
pub struct SegmentCache<T> {
    entries: Vec<(usize, T)>,
}

impl<T> SegmentCache<T> {
    /// The kept segments, oldest first.
    pub closed spec fn entries(&self) -> Seq<(usize, T)> {
        self.entries@
    }

    #[verifier::type_invariant]
    spec fn well_formed(&self) -> bool {
        &&& self.entries@.len() <= SEGMENT_CACHE_CAP
        &&& distinct_indices(self.entries@)
    }

    /// An empty cache.
    pub fn new() -> (r: Self)
        ensures
            r.entries().len() == 0,
    {
        SegmentCache { entries: Vec::new() }
    }

    /// The bytes of segment `index`, if they are kept.
    pub fn get(&self, index: usize) -> (r: Option<&T>)
        ensures
            r matches Some(v) ==> holds(self.entries(), index, *v),
            r is None ==> !has_index(self.entries(), index),
            distinct_indices(self.entries()),
    {
        proof {
            use_type_invariant(self);
        }
        let mut k: usize = 0;
        while k < self.entries.len()
            invariant
                k <= self.entries@.len(),
                distinct_indices(self.entries@),
                forall|j: int| 0 <= j < k ==> self.entries@[j].0 != index,
            decreases self.entries.len() - k,
        {
            if self.entries[k].0 == index {
                assert(self.entries@[k as int] == (index, self.entries@[k as int].1));
                return Some(&self.entries[k].1);
            }
            k += 1;
        }
        None
    }

    /// Keeps the bytes of segment `index`: a kept segment has its bytes
    /// replaced where it stands; a new one goes last, and the oldest goes
    /// when more than `SEGMENT_CACHE_CAP` would be kept.
    pub fn insert(&mut self, index: usize, value: T)
        ensures
            has_index(old(self).entries(), index) ==> forall|k: int| 0 <= k < old(self).entries().len()
                && #[trigger] old(self).entries()[k].0 == index ==> final(self).entries() == old(self).entries().update(k, (index, value)),
            !has_index(old(self).entries(), index) ==> final(self).entries() == appended(old(self).entries(), index, value),
            holds(final(self).entries(), index, value),
            final(self).entries().len() <= SEGMENT_CACHE_CAP,
            distinct_indices(final(self).entries()),
    {
        proof {
            use_type_invariant(&*self);
        }
        let ghost before = self.entries@;
        let mut k: usize = 0;
        while k < self.entries.len()
            invariant
                self.entries@ == before,
                before == old(self).entries@,
                k <= before.len(),
                distinct_indices(before),
                before.len() <= SEGMENT_CACHE_CAP,
                forall|j: int| 0 <= j < k ==> before[j].0 != index,
            decreases self.entries.len() - k,
        {
            if self.entries[k].0 == index {
                let mut entries = Vec::new();
                std::mem::swap(&mut entries, &mut self.entries);
                entries.remove(k);
                entries.insert(k, (index, value));
                proof {
                    assert(entries@ =~= before.update(k as int, (index, value)));
                    assert forall|a: int, b: int| 0 <= a < b < entries@.len() implies #[trigger] entries@[a].0 != #[trigger] entries@[b].0 by {
                        assert(before[a].0 != before[b].0);
                    }
                    assert(entries@[k as int] == (index, value));
                    assert forall|j: int| 0 <= j < before.len() && #[trigger] before[j].0 == index implies j == k by {
                        if j != k {
                            if j < k {
                                assert(before[j].0 != before[k as int].0);
                            } else {
                                assert(before[k as int].0 != before[j].0);
                            }
                        }
                    }
                }
                self.entries = entries;
                return;
            }
            k += 1;
        }
        let mut entries = Vec::new();
        std::mem::swap(&mut entries, &mut self.entries);
        entries.push((index, value));
        if entries.len() > SEGMENT_CACHE_CAP {
            entries.remove(0);
        }
        proof {
            let grown = before.push((index, value));
            assert(entries@ =~= appended(before, index, value));
            assert forall|a: int, b: int| 0 <= a < b < entries@.len() implies #[trigger] entries@[a].0 != #[trigger] entries@[b].0 by {
                let d: int = if grown.len() > SEGMENT_CACHE_CAP { 1 } else { 0 };
                assert(entries@[a] == grown[a + d]);
                assert(entries@[b] == grown[b + d]);
                if b + d < before.len() {
                    assert(before[a + d].0 != before[b + d].0);
                }
            }
            let last = entries@.len() - 1;
            assert(entries@[last] == (index, value));
        }
        self.entries = entries;
    }
}

/// What a read gives back of a write: while segment `index` is kept, the
/// cache holds exactly one value for it, so reading it right after it was
/// written gives back what was written.
pub proof fn lemma_read_gives_back_the_write<T>(entries: Seq<(usize, T)>, index: usize, written: T, read: T)
    requires
        distinct_indices(entries),
        holds(entries, index, written),
        holds(entries, index, read),
    ensures
        read == written,
{
    let a = choose|k: int| 0 <= k < entries.len() && #[trigger] entries[k] == (index, written);
    let b = choose|k: int| 0 <= k < entries.len() && #[trigger] entries[k] == (index, read);
    if a < b {
        assert(entries[a].0 != entries[b].0);
    } else if b < a {
        assert(entries[b].0 != entries[a].0);
    }
}

} // verus!
