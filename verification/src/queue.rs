use vstd::prelude::*;

use std::collections::VecDeque;

use crate::models::Track;
use crate::state::QueuedTrack;

verus! {

/// Shuffles the indices in place with `rand`'s `SliceRandom::shuffle` and
/// the thread's generator. Which order comes out is left open: only that it
/// is a permutation of the input, as the Fisher-Yates swaps in rand's
/// source keep every element.
#[verifier::external_body]
fn shuffle_indices(v: &mut Vec<usize>)
    ensures
        final(v)@.to_multiset() == old(v)@.to_multiset(),
{
    rand::seq::SliceRandom::shuffle(v.as_mut_slice(), &mut rand::thread_rng());
}

/// The playable tracks from `lo` up to (not including) `n`, in order.
pub open spec fn playable_from(tracks: Seq<Track>, lo: int, n: int) -> Seq<usize>
    decreases n - lo,
{
    if lo >= n || n > tracks.len() {
        Seq::empty()
    } else {
        let rest = playable_from(tracks, lo + 1, n);
        if tracks[lo].playable() { seq![lo as usize] + rest } else { rest }
    }
}

/// The playable tracks other than `skip`, in order, among the first `n`.
pub open spec fn playable_except(tracks: Seq<Track>, skip: int, n: int) -> Seq<usize>
    decreases n,
{
    if n <= 0 || n > tracks.len() {
        Seq::empty()
    } else {
        let before = playable_except(tracks, skip, n - 1);
        if n - 1 != skip && tracks[n - 1].playable() { before.push((n - 1) as usize) } else { before }
    }
}

/// What every automatic queue holds: indices of playable tracks other than
/// the current one.
pub open spec fn valid_queue_entry(tracks: Seq<Track>, current: int, i: usize) -> bool {
    &&& i < tracks.len()
    &&& i != current
    &&& tracks[i as int].playable()
}

proof fn lemma_playable_except_entries(tracks: Seq<Track>, skip: int, n: int)
    requires
        0 <= n <= tracks.len(),
        tracks.len() <= usize::MAX,
    ensures
        forall|k: int| 0 <= k < playable_except(tracks, skip, n).len() ==>
            valid_queue_entry(tracks, skip, #[trigger] playable_except(tracks, skip, n)[k]) && playable_except(tracks, skip, n)[k] < n,
    decreases n,
{
    if n > 0 {
        lemma_playable_except_entries(tracks, skip, n - 1);
        let before = playable_except(tracks, skip, n - 1);
        let s = playable_except(tracks, skip, n);
        assert forall|k: int| 0 <= k < s.len() implies valid_queue_entry(tracks, skip, #[trigger] s[k]) && s[k] < n by {
            if k < before.len() {
                assert(s[k] == before[k]);
            }
        }
    }
}

proof fn lemma_playable_from_entries(tracks: Seq<Track>, lo: int, n: int)
    requires
        0 <= lo,
        n <= tracks.len(),
        tracks.len() <= usize::MAX,
    ensures
        forall|k: int| 0 <= k < playable_from(tracks, lo, n).len() ==>
            lo <= #[trigger] playable_from(tracks, lo, n)[k] < n && tracks[playable_from(tracks, lo, n)[k] as int].playable(),
        forall|a: int, b: int| 0 <= a < b < playable_from(tracks, lo, n).len() ==>
            #[trigger] playable_from(tracks, lo, n)[a] < #[trigger] playable_from(tracks, lo, n)[b],
    decreases n - lo,
{
    if lo < n {
        lemma_playable_from_entries(tracks, lo + 1, n);
        let rest = playable_from(tracks, lo + 1, n);
        if tracks[lo].playable() {
            let s = playable_from(tracks, lo, n);
            assert(s == seq![lo as usize] + rest);
            assert forall|k: int| 0 <= k < s.len() implies lo <= #[trigger] s[k] < n && tracks[s[k] as int].playable() by {
                if k > 0 {
                    assert(s[k] == rest[k - 1]);
                }
            }
            assert forall|a: int, b: int| 0 <= a < b < s.len() implies #[trigger] s[a] < #[trigger] s[b] by {
                assert(s[b] == rest[b - 1]);
                if a > 0 {
                    assert(s[a] == rest[a - 1]);
                }
            }
        }
    }
}

/// A queue that `build_queue` can give for a track of a list.
pub open spec fn is_built_queue(r: Seq<usize>, current_idx: usize, tracks: Seq<Track>, shuffle_enabled: bool) -> bool {
    &&& shuffle_enabled ==> r.to_multiset() == playable_except(tracks, current_idx as int, tracks.len() as int).to_multiset()
    &&& !shuffle_enabled ==> r == playable_from(tracks, current_idx + 1, tracks.len() as int)
    &&& forall|k: int| 0 <= k < r.len() ==> valid_queue_entry(tracks, current_idx as int, #[trigger] r[k])
}

/// Whether track `i` belongs in the automatic queue of `current`: a
/// playable track of the list, after the current one in list order, or
/// anywhere but the current one with shuffle.
pub open spec fn queue_candidate(tracks: Seq<Track>, current: usize, i: usize, shuffle_enabled: bool) -> bool {
    &&& i < tracks.len()
    &&& tracks[i as int].playable()
    &&& if shuffle_enabled { i != current } else { i > current }
}

proof fn lemma_playable_from_members(tracks: Seq<Track>, lo: int, n: int)
    requires
        0 <= lo,
        n <= tracks.len(),
        tracks.len() <= usize::MAX,
    ensures
        forall|i: usize|
            #![trigger playable_from(tracks, lo, n).contains(i)]
            #![trigger tracks[i as int].playable()]
            playable_from(tracks, lo, n).contains(i) <==> (lo <= i < n && tracks[i as int].playable()),
    decreases n - lo,
{
    if lo < n {
        lemma_playable_from_members(tracks, lo + 1, n);
        let rest = playable_from(tracks, lo + 1, n);
        let s = playable_from(tracks, lo, n);
        assert forall|i: usize|
            #![trigger playable_from(tracks, lo, n).contains(i)]
            #![trigger tracks[i as int].playable()]
            playable_from(tracks, lo, n).contains(i) <==> (lo <= i < n && tracks[i as int].playable()) by {
            if tracks[lo].playable() {
                assert(s == seq![lo as usize] + rest);
                if s.contains(i) {
                    let k = choose|k: int| 0 <= k < s.len() && s[k] == i;
                    if k > 0 {
                        assert(s[k] == rest[k - 1]);
                        assert(rest.contains(i));
                        assert(tracks[i as int].playable());
                        assert(lo <= i < n);
                    } else {
                        assert(i as int == lo);
                        assert(tracks[i as int].playable());
                    }
                }
                if lo <= i < n && tracks[i as int].playable() {
                    if i as int == lo {
                        assert(s[0] == i);
                    } else {
                        assert(rest.contains(i));
                        let k = choose|k: int| 0 <= k < rest.len() && rest[k] == i;
                        assert(s[k + 1] == i);
                    }
                    assert(s.contains(i));
                }
            } else {
                assert(s == rest);
                if s.contains(i) {
                    assert(rest.contains(i));
                    assert(lo + 1 <= i < n);
                    assert(tracks[i as int].playable());
                }
                if lo <= i < n && tracks[i as int].playable() {
                    assert(i as int != lo);
                    assert(rest.contains(i));
                }
            }
        }
    } else {
        assert(playable_from(tracks, lo, n) =~= Seq::<usize>::empty());
    }
}

proof fn lemma_playable_except_members(tracks: Seq<Track>, skip: int, n: int)
    requires
        0 <= n <= tracks.len(),
        tracks.len() <= usize::MAX,
    ensures
        forall|i: usize|
            #![trigger playable_except(tracks, skip, n).contains(i)]
            #![trigger tracks[i as int].playable()]
            playable_except(tracks, skip, n).contains(i) <==> (i < n && i != skip && tracks[i as int].playable()),
        playable_except(tracks, skip, n).no_duplicates(),
    decreases n,
{
    if n > 0 {
        lemma_playable_except_members(tracks, skip, n - 1);
        lemma_playable_except_entries(tracks, skip, n - 1);
        let before = playable_except(tracks, skip, n - 1);
        let s = playable_except(tracks, skip, n);
        if n - 1 != skip && tracks[n - 1].playable() {
            assert(s == before.push((n - 1) as usize));
            assert forall|i: usize| s.contains(i) <==> (i < n && i != skip && #[trigger] tracks[i as int].playable()) by {
                if s.contains(i) {
                    let k = choose|k: int| 0 <= k < s.len() && s[k] == i;
                    if k < before.len() {
                        assert(s[k] == before[k]);
                    }
                }
                if i < n && i != skip && tracks[i as int].playable() {
                    if i as int == n - 1 {
                        assert(s[before.len() as int] == i);
                    } else {
                        let k = choose|k: int| 0 <= k < before.len() && before[k] == i;
                        assert(s[k] == i);
                    }
                }
            }
            assert forall|a: int, b: int| 0 <= a < s.len() && 0 <= b < s.len() && a != b implies s[a] != s[b] by {
                if a < before.len() && b < before.len() {
                    assert(s[a] == before[a] && s[b] == before[b]);
                } else if a < before.len() {
                    assert(s[a] == before[a] && before[a] < n - 1);
                } else if b < before.len() {
                    assert(s[b] == before[b] && before[b] < n - 1);
                }
            }
        } else {
            assert(s == before);
        }
    } else {
        assert(playable_except(tracks, skip, n) =~= Seq::<usize>::empty());
    }
}

/// What an automatic queue holds, whatever order the shuffle gave: every
/// playable track of the list after the current one (every one but the
/// current one, with shuffle), each once; without shuffle in list order.
pub proof fn lemma_built_queue_contents(q: Seq<usize>, current: usize, tracks: Seq<Track>, shuffle_enabled: bool)
    requires
        is_built_queue(q, current, tracks, shuffle_enabled),
        tracks.len() <= usize::MAX,
    ensures
        forall|i: usize| q.contains(i) <==> #[trigger] queue_candidate(tracks, current, i, shuffle_enabled),
        q.no_duplicates(),
        !shuffle_enabled ==> forall|a: int, b: int| 0 <= a < b < q.len() ==> #[trigger] q[a] < #[trigger] q[b],
{
    let n = tracks.len() as int;
    if shuffle_enabled {
        let pe = playable_except(tracks, current as int, n);
        lemma_playable_except_members(tracks, current as int, n);
        assert forall|i: usize| q.contains(i) <==> #[trigger] queue_candidate(tracks, current, i, shuffle_enabled) by {
            vstd::seq_lib::to_multiset_contains(q, i);
            vstd::seq_lib::to_multiset_contains(pe, i);
        }
        pe.lemma_multiset_has_no_duplicates();
        assert forall|x: usize| q.to_multiset().contains(x) implies q.to_multiset().count(x) == 1 by {
            assert(pe.to_multiset().contains(x));
        }
        q.lemma_multiset_has_no_duplicates_conv();
    } else {
        lemma_playable_from_members(tracks, current + 1, n);
        lemma_playable_from_entries(tracks, current + 1, n);
        assert forall|i: usize| q.contains(i) <==> #[trigger] queue_candidate(tracks, current, i, shuffle_enabled) by {
        }
    }
}

/// The automatic queue after a track: with shuffle, every other playable
/// track of the list in random order; without, the playable tracks after it
/// in list order. The queue never holds the current track, an unplayable
/// track, or an index outside the list.
pub fn build_queue(current_idx: usize, tracks: &Vec<Track>, shuffle_enabled: bool) -> (r: VecDeque<usize>)
    ensures
        is_built_queue(r@, current_idx, tracks@, shuffle_enabled),
        shuffle_enabled ==> r@.to_multiset() == playable_except(tracks@, current_idx as int, tracks@.len() as int).to_multiset(),
        !shuffle_enabled ==> r@ == playable_from(tracks@, current_idx + 1, tracks@.len() as int),
        forall|k: int| 0 <= k < r@.len() ==> valid_queue_entry(tracks@, current_idx as int, #[trigger] r@[k]),
        !shuffle_enabled ==> forall|a: int, b: int| 0 <= a < b < r@.len() ==> #[trigger] r@[a] < #[trigger] r@[b],
{
    let n = tracks.len();
    let mut indices: Vec<usize> = Vec::new();
    if shuffle_enabled {
        let mut i: usize = 0;
        while i < n
            invariant
                i <= n,
                n == tracks@.len(),
                indices@ == playable_except(tracks@, current_idx as int, i as int),
            decreases n - i,
        {
            if i != current_idx && tracks[i].is_playable() {
                indices.push(i);
            }
            i += 1;
        }
        let ghost before = indices@;
        shuffle_indices(&mut indices);
        proof {
            lemma_playable_except_entries(tracks@, current_idx as int, n as int);
            broadcast use vstd::seq_lib::group_to_multiset_ensures;
            assert forall|k: int| 0 <= k < indices@.len() implies valid_queue_entry(tracks@, current_idx as int, #[trigger] indices@[k]) by {
                let x = indices@[k];
                assert(indices@.contains(x));
                assert(indices@.to_multiset().count(x) > 0);
                assert(before.to_multiset().count(x) > 0);
                assert(before.contains(x));
                let j = choose|j: int| 0 <= j < before.len() && before[j] == x;
                assert(valid_queue_entry(tracks@, current_idx as int, before[j]));
            }
        }
    } else {
        if current_idx < n {
            let mut i: usize = n;
            while i > current_idx + 1
                invariant
                    current_idx < n,
                    current_idx + 1 <= i <= n,
                    n == tracks@.len(),
                    indices@.reverse() == playable_from(tracks@, i as int, n as int),
                decreases i,
            {
                i -= 1;
                let ghost prev = indices@;
                if tracks[i].is_playable() {
                    indices.push(i);
                    assert(indices@.reverse() =~= seq![i] + prev.reverse());
                }
            }
            let ghost rev = indices@;
            let mut out: Vec<usize> = Vec::new();
            let mut k: usize = indices.len();
            while k > 0
                invariant
                    k <= rev.len(),
                    indices@ == rev,
                    out@ == rev.reverse().subrange(0, (rev.len() - k) as int),
                decreases k,
            {
                k -= 1;
                out.push(indices[k]);
                assert(out@ =~= rev.reverse().subrange(0, (rev.len() - k) as int));
            }
            assert(out@ =~= rev.reverse());
            indices = out;
        } else {
            assert(playable_from(tracks@, current_idx + 1, n as int) =~= Seq::<usize>::empty());
        }
        proof {
            lemma_playable_from_entries(tracks@, current_idx + 1, n as int);
        }
    }
    let mut r: VecDeque<usize> = VecDeque::new();
    let mut j: usize = 0;
    while j < indices.len()
        invariant
            j <= indices.len(),
            r@ == indices@.subrange(0, j as int),
        decreases indices.len() - j,
    {
        r.push_back(indices[j]);
        j += 1;
        assert(r@ =~= indices@.subrange(0, j as int));
    }
    assert(r@ =~= indices@);
    r
}

/// The next track to try after a failed start.
#[derive(Debug)]
pub enum RecoveryCandidate {
    /// The head of the manual queue.
    Manual(QueuedTrack),
    /// The next valid entry of the automatic queue.
    Automatic { index: usize, track: Track },
}

/// The first position of the automatic queue that indexes the list.
pub open spec fn first_valid(auto: Seq<usize>, n: int, from: int) -> Option<int>
    decreases auto.len() - from,
{
    if from >= auto.len() || from < 0 {
        None
    } else if auto[from] < n {
        Some(from)
    } else {
        first_valid(auto, n, from + 1)
    }
}

/// Consumes a finite recovery queue, preserving manual priority and never
/// rebuilding failed work: the head of the manual queue comes first; after
/// it, automatic entries in order, where entries that no longer index the
/// list are dropped. Each call takes at least one entry off when it finds a
/// candidate, so repeated failures end.
pub fn take_next_recovery_candidate(
    manual_queue: &mut VecDeque<QueuedTrack>,
    auto_queue: &mut VecDeque<usize>,
    active_tracks: &Vec<Track>,
) -> (r: Option<RecoveryCandidate>)
    ensures
        old(manual_queue)@.len() > 0 ==> {
            &&& r == Some(RecoveryCandidate::Manual(old(manual_queue)@[0]))
            &&& final(manual_queue)@ == old(manual_queue)@.drop_first()
            &&& final(auto_queue)@ == old(auto_queue)@
        },
        old(manual_queue)@.len() == 0 ==> {
            &&& final(manual_queue)@ == old(manual_queue)@
            &&& match first_valid(old(auto_queue)@, active_tracks@.len() as int, 0) {
                Some(p) => {
                    &&& r == Some(RecoveryCandidate::Automatic { index: old(auto_queue)@[p], track: active_tracks@[old(auto_queue)@[p] as int] })
                    &&& final(auto_queue)@ == old(auto_queue)@.subrange(p + 1, old(auto_queue)@.len() as int)
                },
                None => r is None && final(auto_queue)@.len() == 0,
            }
        },
        r is Some ==> final(manual_queue)@.len() + final(auto_queue)@.len() < old(manual_queue)@.len() + old(auto_queue)@.len(),
{
    if let Some(queued) = manual_queue.pop_front() {
        proof {
            assert(old(manual_queue)@.drop_first() =~= old(manual_queue)@.subrange(1, old(manual_queue)@.len() as int));
        }
        return Some(RecoveryCandidate::Manual(queued));
    }
    let ghost orig = auto_queue@;
    let ghost n = active_tracks@.len() as int;
    let ghost mut taken: int = 0;
    loop
        invariant
            manual_queue@ == old(manual_queue)@,
            old(manual_queue)@.len() == 0,
            orig == old(auto_queue)@,
            n == active_tracks@.len(),
            0 <= taken <= orig.len(),
            auto_queue@ == orig.subrange(taken, orig.len() as int),
            first_valid(orig, n, 0) == first_valid(orig, n, taken),
        decreases auto_queue@.len(),
    {
        match auto_queue.pop_front() {
            Some(index) => {
                assert(index == orig[taken]);
                if index < active_tracks.len() {
                    let track = active_tracks[index].clone();
                    proof {
                        assert(auto_queue@ =~= orig.subrange(taken + 1, orig.len() as int));
                        assert(first_valid(orig, n, taken) == Some(taken));
                    }
                    return Some(RecoveryCandidate::Automatic { index, track });
                }
                proof {
                    taken = taken + 1;
                }
                assert(auto_queue@ =~= orig.subrange(taken, orig.len() as int));
            },
            None => {
                return None;
            },
        }
    }
}

} // verus!
