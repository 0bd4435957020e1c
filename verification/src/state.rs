use vstd::prelude::*;

use std::collections::VecDeque;

use crate::models::{Album, Artist, Playlist, Track};
use crate::text::str_eq;

verus! {

/// The list that automatic playback advances through.
#[derive(Clone, Copy, Debug, PartialEq, Eq, Structural)]
pub enum PlaybackSource {
    Likes,
    Playlist,
    Album,
    FollowingPublished,
    FollowingLikes,
}

/// The two visualizer views.
#[derive(Clone, Copy, Debug, PartialEq, Eq, Structural)]
pub enum VisualizerMode {
    Oscilloscope,
    SpectrumBars,
}

pub open spec fn visualizer_label(m: VisualizerMode) -> Seq<char> {
    match m {
        VisualizerMode::Oscilloscope => "Oscilloscope"@,
        VisualizerMode::SpectrumBars => "Cava"@,
    }
}

impl VisualizerMode {
    /// The other view: the views alternate.
    pub fn next(self) -> (r: Self)
        ensures
            r != self,
    {
        match self {
            VisualizerMode::Oscilloscope => VisualizerMode::SpectrumBars,
            VisualizerMode::SpectrumBars => VisualizerMode::Oscilloscope,
        }
    }

    /// The name shown for the view.
    pub fn label(self) -> (r: &'static str)
        ensures
            r@ == visualizer_label(self),
    {
        match self {
            VisualizerMode::Oscilloscope => "Oscilloscope",
            VisualizerMode::SpectrumBars => "Cava",
        }
    }
}

/// Whether a followed user's published tracks or liked tracks have focus.
#[derive(Clone, Copy, Debug, PartialEq, Eq, Structural)]
pub enum FollowingTracksFocus {
    Published,
    Likes,
}

/// A track waiting to be played, with what is needed to resume its list.
#[derive(Debug)]
pub struct QueuedTrack {
    pub source: PlaybackSource,
    pub index: usize,
    pub track: Track,
    pub tracks_snapshot: Option<Vec<Track>>,
    pub playlist_uri: Option<String>,
    pub album_uri: Option<String>,
    pub following_user_urn: Option<String>,
    pub user_added: bool,
}

/// The tracks of an optional snapshot, as a sequence.
pub open spec fn snapshot_view(s: Option<Vec<Track>>) -> Option<Seq<Track>> {
    match s {
        Some(v) => Some(v@),
        None => None,
    }
}

impl QueuedTrack {
    /// Two queue entries that hold the same values.
    pub open spec fn same_as(self, other: QueuedTrack) -> bool {
        &&& self.source == other.source
        &&& self.index == other.index
        &&& self.track == other.track
        &&& snapshot_view(self.tracks_snapshot) == snapshot_view(other.tracks_snapshot)
        &&& self.playlist_uri == other.playlist_uri
        &&& self.album_uri == other.album_uri
        &&& self.following_user_urn == other.following_user_urn
        &&& self.user_added == other.user_added
    }
}

impl Clone for QueuedTrack {
    fn clone(&self) -> (r: Self)
        ensures
            r.same_as(*self),
    {
        let snapshot = match &self.tracks_snapshot {
            Some(v) => Some(clone_tracks(v)),
            None => None,
        };
        QueuedTrack {
            source: self.source,
            index: self.index,
            track: self.track.clone(),
            tracks_snapshot: snapshot,
            playlist_uri: clone_opt(&self.playlist_uri),
            album_uri: clone_opt(&self.album_uri),
            following_user_urn: clone_opt(&self.following_user_urn),
            user_added: self.user_added,
        }
    }
}

/// A copy of an optional string.
pub fn clone_opt(s: &Option<String>) -> (r: Option<String>)
    ensures
        r == *s,
{
    match s {
        Some(v) => Some(v.clone()),
        None => None,
    }
}

/// A copy of a list of tracks.
pub fn clone_tracks(v: &Vec<Track>) -> (r: Vec<Track>)
    ensures
        r@ == v@,
{
    let mut r: Vec<Track> = Vec::new();
    let mut i: usize = 0;
    while i < v.len()
        invariant
            i <= v.len(),
            r@ == v@.subrange(0, i as int),
        decreases v.len() - i,
    {
        r.push(v[i].clone());
        i += 1;
        assert(r@ =~= v@.subrange(0, i as int));
    }
    assert(v@.subrange(0, v.len() as int) =~= v@);
    r
}

/// A copy of a list of albums.
pub fn clone_albums(v: &Vec<Album>) -> (r: Vec<Album>)
    ensures
        r@ == v@,
{
    let mut r: Vec<Album> = Vec::new();
    let mut i: usize = 0;
    while i < v.len()
        invariant
            i <= v.len(),
            r@ == v@.subrange(0, i as int),
        decreases v.len() - i,
    {
        r.push(v[i].clone());
        i += 1;
        assert(r@ =~= v@.subrange(0, i as int));
    }
    assert(v@.subrange(0, v.len() as int) =~= v@);
    r
}

/// A copy of a list of users.
pub fn clone_users(v: &Vec<Artist>) -> (r: Vec<Artist>)
    ensures
        r@ == v@,
{
    let mut r: Vec<Artist> = Vec::new();
    let mut i: usize = 0;
    while i < v.len()
        invariant
            i <= v.len(),
            r@ == v@.subrange(0, i as int),
        decreases v.len() - i,
    {
        r.push(v[i].clone());
        i += 1;
        assert(r@ =~= v@.subrange(0, i as int));
    }
    assert(v@.subrange(0, v.len() as int) =~= v@);
    r
}

/// Rows of the information table beside the library.
pub fn info_table_rows_count() -> (r: usize)
    ensures
        r == 2,
{
    2
}

/// Which row of a table is selected, and the first row it shows.
#[derive(Clone, Copy, Debug, PartialEq, Eq, Structural)]
pub struct TableSel {
    pub selected: Option<usize>,
    pub offset: usize,
}

impl TableSel {
    /// Nothing selected, scrolled to the top.
    pub fn new() -> (r: Self)
        ensures
            r.selected is None,
            r.offset == 0,
    {
        TableSel { selected: None, offset: 0 }
    }

    /// Selects a row; clearing the selection also scrolls back to the top.
    pub fn select(&mut self, index: Option<usize>)
        ensures
            final(self).selected == index,
            final(self).offset == if index is None { 0 } else { old(self).offset },
    {
        self.selected = index;
        if index.is_none() {
            self.offset = 0;
        }
    }
}

/// A set of identifiers (track URNs, playlist URIs, user URNs), held as a
/// vector whose view is the set of its texts: membership is decided by
/// comparing texts, which a `HashSet<String>` would not let the contracts
/// below be proved over.
#[derive(Debug)]
pub struct UrnSet {
    pub items: Vec<String>,
}

/// Whether one of the first `n` strings has the text `x`.
pub open spec fn holds_text(items: Seq<String>, n: int, x: Seq<char>) -> bool {
    exists|j: int| 0 <= j < n && (#[trigger] items[j])@ == x
}

impl UrnSet {
    pub open spec fn view(&self) -> Set<Seq<char>> {
        Set::new(|x: Seq<char>| holds_text(self.items@, self.items@.len() as int, x))
    }

    pub fn new() -> (r: Self)
        ensures
            r.view() == Set::<Seq<char>>::empty(),
    {
        let r = UrnSet { items: Vec::new() };
        assert(r.view() =~= Set::<Seq<char>>::empty());
        r
    }

    /// Whether the set holds `s`.
    pub fn contains(&self, s: &str) -> (r: bool)
        ensures
            r == self.view().contains(s@),
    {
        let mut i: usize = 0;
        while i < self.items.len()
            invariant
                i <= self.items@.len(),
                !holds_text(self.items@, i as int, s@),
            decreases self.items@.len() - i,
        {
            if str_eq(self.items[i].as_str(), s) {
                assert(self.items@[i as int]@ == s@);
                assert(holds_text(self.items@, self.items@.len() as int, s@));
                return true;
            }
            assert(!holds_text(self.items@, i + 1, s@)) by {
                if holds_text(self.items@, i + 1, s@) {
                    let j = choose|j: int| 0 <= j < i + 1 && (#[trigger] self.items@[j])@ == s@;
                    if j < i {
                        assert(holds_text(self.items@, i as int, s@));
                    }
                }
            }
            i += 1;
        }
        false
    }

    /// Adds `s`.
    pub fn insert(&mut self, s: String)
        ensures
            final(self).view() == old(self).view().insert(s@),
    {
        if !self.contains(s.as_str()) {
            let ghost before = self.items@;
            let ghost sv = s@;
            self.items.push(s);
            assert forall|x: Seq<char>| holds_text(self.items@, self.items@.len() as int, x) <==> (holds_text(before, before.len() as int, x) || x == sv) by {
                if holds_text(self.items@, self.items@.len() as int, x) {
                    let j = choose|j: int| 0 <= j < self.items@.len() && (#[trigger] self.items@[j])@ == x;
                    if j < before.len() {
                        assert(before[j] == self.items@[j]);
                    }
                }
                if holds_text(before, before.len() as int, x) {
                    let j = choose|j: int| 0 <= j < before.len() && (#[trigger] before[j])@ == x;
                    assert(self.items@[j] == before[j]);
                }
                if x == sv {
                    assert(self.items@[before.len() as int]@ == x);
                }
            }
            assert(self.view() =~= old(self).view().insert(sv));
        } else {
            assert(self.view() =~= old(self).view().insert(s@));
        }
    }

    /// Removes `s`.
    pub fn remove(&mut self, s: &str)
        ensures
            final(self).view() == old(self).view().remove(s@),
    {
        let ghost before = self.items@;
        let mut kept: Vec<String> = Vec::new();
        let mut i: usize = 0;
        while i < self.items.len()
            invariant
                i <= self.items@.len(),
                self.items@ == before,
                forall|x: Seq<char>| holds_text(kept@, kept@.len() as int, x) <==> (x != s@ && holds_text(before, i as int, x)),
            decreases self.items@.len() - i,
        {
            let ghost kb = kept@;
            let differs = !str_eq(self.items[i].as_str(), s);
            if differs {
                kept.push(self.items[i].clone());
                assert forall|x: Seq<char>| holds_text(kept@, kept@.len() as int, x) <==> (x != s@ && holds_text(before, i + 1, x)) by {
                    if holds_text(kept@, kept@.len() as int, x) {
                        let k = choose|k: int| 0 <= k < kept@.len() && (#[trigger] kept@[k])@ == x;
                        if k < kb.len() {
                            assert(kept@[k] == kb[k]);
                            assert(holds_text(kb, kb.len() as int, x));
                            assert(holds_text(before, i as int, x));
                            let j = choose|j: int| 0 <= j < i && (#[trigger] before[j])@ == x;
                            assert(before[j]@ == x);
                        } else {
                            assert(before[i as int]@ == x);
                        }
                    }
                    if x != s@ && holds_text(before, i + 1, x) {
                        let j = choose|j: int| 0 <= j < i + 1 && (#[trigger] before[j])@ == x;
                        if j < i {
                            assert(holds_text(before, i as int, x));
                            assert(holds_text(kb, kb.len() as int, x));
                            let k = choose|k: int| 0 <= k < kb.len() && (#[trigger] kb[k])@ == x;
                            assert(kept@[k] == kb[k]);
                        } else {
                            assert(kept@[kb.len() as int]@ == x);
                        }
                    }
                }
            } else {
                assert forall|x: Seq<char>| holds_text(kept@, kept@.len() as int, x) <==> (x != s@ && holds_text(before, i + 1, x)) by {
                    if holds_text(kept@, kept@.len() as int, x) {
                        assert(holds_text(before, i as int, x));
                        let j = choose|j: int| 0 <= j < i && (#[trigger] before[j])@ == x;
                        assert(before[j]@ == x);
                    }
                    if x != s@ && holds_text(before, i + 1, x) {
                        let j = choose|j: int| 0 <= j < i + 1 && (#[trigger] before[j])@ == x;
                        assert(j < i);
                        assert(holds_text(before, i as int, x));
                    }
                }
            }
            i += 1;
        }
        self.items = kept;
        assert(self.view() =~= old(self).view().remove(s@));
    }
}

} // verus!
