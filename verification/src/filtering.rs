use vstd::prelude::*;

use crate::models::{Album, Artist, Playlist, Track};
use crate::session::{AppData, AppState};

verus! {

/// The items of a list that a list of matches names, in match order;
/// matches beyond the list are skipped.
pub open spec fn picked<T>(matches: Seq<usize>, list: Seq<T>) -> Seq<T>
    decreases matches.len(),
{
    if matches.len() == 0 {
        Seq::empty()
    } else {
        let before = picked(matches.drop_last(), list);
        let i = matches.last();
        if i < list.len() { before.push(list[i as int]) } else { before }
    }
}

/// The library lists as the find box filters them.
#[derive(Debug)]
pub struct FilteredViews {
    pub likes: Vec<Track>,
    pub playlists: Vec<Playlist>,
    pub playlist_tracks: Vec<Track>,
    pub albums: Vec<Album>,
    pub following: Vec<Artist>,
}

fn pick_tracks(matches: &Vec<usize>, list: &Vec<Track>) -> (r: Vec<Track>)
    ensures
        r@ == picked(matches@, list@),
{
    let mut r: Vec<Track> = Vec::new();
    let mut k: usize = 0;
    while k < matches.len()
        invariant
            k <= matches@.len(),
            r@ == picked(matches@.subrange(0, k as int), list@),
        decreases matches@.len() - k,
    {
        assert(matches@.subrange(0, k + 1).drop_last() =~= matches@.subrange(0, k as int));
        let i = matches[k];
        if i < list.len() {
            r.push(list[i].clone());
        }
        k += 1;
    }
    assert(matches@.subrange(0, matches@.len() as int) =~= matches@);
    r
}

fn pick_albums(matches: &Vec<usize>, list: &Vec<Album>) -> (r: Vec<Album>)
    ensures
        r@ == picked(matches@, list@),
{
    let mut r: Vec<Album> = Vec::new();
    let mut k: usize = 0;
    while k < matches.len()
        invariant
            k <= matches@.len(),
            r@ == picked(matches@.subrange(0, k as int), list@),
        decreases matches@.len() - k,
    {
        assert(matches@.subrange(0, k + 1).drop_last() =~= matches@.subrange(0, k as int));
        let i = matches[k];
        if i < list.len() {
            r.push(list[i].clone());
        }
        k += 1;
    }
    assert(matches@.subrange(0, matches@.len() as int) =~= matches@);
    r
}

fn pick_users(matches: &Vec<usize>, list: &Vec<Artist>) -> (r: Vec<Artist>)
    ensures
        r@ == picked(matches@, list@),
{
    let mut r: Vec<Artist> = Vec::new();
    let mut k: usize = 0;
    while k < matches.len()
        invariant
            k <= matches@.len(),
            r@ == picked(matches@.subrange(0, k as int), list@),
        decreases matches@.len() - k,
    {
        assert(matches@.subrange(0, k + 1).drop_last() =~= matches@.subrange(0, k as int));
        let i = matches[k];
        if i < list.len() {
            r.push(list[i].clone());
        }
        k += 1;
    }
    assert(matches@.subrange(0, matches@.len() as int) =~= matches@);
    r
}

/// The filtered view of the current library section: its items that match
/// the find query, best match first; the other views stay empty.
pub fn build_filtered_views(state: &AppState, data: &AppData) -> (r: FilteredViews)
    ensures
        ({
            let active = crate::engagement::filter_active(*state);
            &&& r.likes@ == (if active && state.selected_subtab == 0 { picked(state.search_matches@, data.likes@) } else { Seq::empty() })
            &&& r.playlists@.len() == 0
            &&& r.playlist_tracks@ == (if active && state.selected_subtab == 1 { picked(state.search_matches@, data.playlist_tracks@) } else { Seq::empty() })
            &&& r.albums@ == (if active && state.selected_subtab == 2 { picked(state.search_matches@, data.albums@) } else { Seq::empty() })
            &&& r.following@ == (if active && state.selected_subtab == 3 { picked(state.search_matches@, data.following@) } else { Seq::empty() })
        }),
{
    let active = crate::engagement::is_filter_active(state);
    let sub = state.selected_subtab;
    FilteredViews {
        likes: if active && sub == 0 { pick_tracks(&state.search_matches, &data.likes) } else { Vec::new() },
        playlists: Vec::new(),
        playlist_tracks: if active && sub == 1 { pick_tracks(&state.search_matches, &data.playlist_tracks) } else { Vec::new() },
        albums: if active && sub == 2 { pick_albums(&state.search_matches, &data.albums) } else { Vec::new() },
        following: if active && sub == 3 { pick_users(&state.search_matches, &data.following) } else { Vec::new() },
    }
}

/// A row kept within a list of `len` rows (an empty list keeps it).
pub open spec fn clamp_row(row: usize, len: usize) -> usize {
    if row >= len && len > 0 { (len - 1) as usize } else { row }
}

/// While the find box filters a section, its selection stays within the
/// filtered list, and the table shows it.
pub fn clamp_selection(state: &mut AppState, data: &mut AppData, filter_active: bool,
    likes_len: usize, playlist_tracks_len: usize, albums_len: usize, following_len: usize)
    ensures
        !filter_active ==> final(state).selected_row == old(state).selected_row
            && final(state).selected_playlist_track_row == old(state).selected_playlist_track_row,
        filter_active && old(state).selected_subtab == 0 ==> final(state).selected_row == clamp_row(old(state).selected_row, likes_len)
            && final(data).likes_state.selected == Some(final(state).selected_row),
        filter_active && old(state).selected_subtab == 1 ==> final(state).selected_playlist_track_row == clamp_row(old(state).selected_playlist_track_row, playlist_tracks_len)
            && final(data).playlist_tracks_state.selected == Some(final(state).selected_playlist_track_row),
        filter_active && old(state).selected_subtab == 2 ==> final(state).selected_row == clamp_row(old(state).selected_row, albums_len)
            && final(data).albums_state.selected == Some(final(state).selected_row),
        filter_active && old(state).selected_subtab == 3 ==> final(state).selected_row == clamp_row(old(state).selected_row, following_len)
            && final(data).following_state.selected == Some(final(state).selected_row),
        final(state).selected_subtab == old(state).selected_subtab,
        final(data).likes@ == old(data).likes@,
{
    if !filter_active {
        return;
    }
    if state.selected_subtab == 0 {
        if state.selected_row >= likes_len && likes_len > 0 {
            state.selected_row = likes_len - 1;
        }
        data.likes_state.select(Some(state.selected_row));
    } else if state.selected_subtab == 1 {
        if state.selected_playlist_track_row >= playlist_tracks_len && playlist_tracks_len > 0 {
            state.selected_playlist_track_row = playlist_tracks_len - 1;
        }
        data.playlist_tracks_state.select(Some(state.selected_playlist_track_row));
    } else if state.selected_subtab == 2 {
        if state.selected_row >= albums_len && albums_len > 0 {
            state.selected_row = albums_len - 1;
        }
        data.albums_state.select(Some(state.selected_row));
    } else if state.selected_subtab == 3 {
        if state.selected_row >= following_len && following_len > 0 {
            state.selected_row = following_len - 1;
        }
        data.following_state.select(Some(state.selected_row));
    }
}


/// The find box's views of the section, with the selection kept inside the
/// filtered list it shows.
pub fn filtered_views(state: &mut AppState, data: &mut AppData) -> (r: FilteredViews)
    ensures
        ({
            let active = crate::engagement::filter_active(*old(state));
            let sub = old(state).selected_subtab;
            let matches = old(state).search_matches@;
            &&& r.likes@ == (if active && sub == 0 { picked(matches, old(data).likes@) } else { Seq::empty() })
            &&& r.playlists@.len() == 0
            &&& r.playlist_tracks@ == (if active && sub == 1 { picked(matches, old(data).playlist_tracks@) } else { Seq::empty() })
            &&& r.albums@ == (if active && sub == 2 { picked(matches, old(data).albums@) } else { Seq::empty() })
            &&& r.following@ == (if active && sub == 3 { picked(matches, old(data).following@) } else { Seq::empty() })
            &&& !active ==> final(state).selected_row == old(state).selected_row
                && final(state).selected_playlist_track_row == old(state).selected_playlist_track_row
            &&& active && sub == 0 ==> final(state).selected_row == clamp_row(old(state).selected_row, r.likes@.len() as usize)
            &&& active && sub == 1 ==> final(state).selected_playlist_track_row
                == clamp_row(old(state).selected_playlist_track_row, r.playlist_tracks@.len() as usize)
            &&& active && sub == 2 ==> final(state).selected_row == clamp_row(old(state).selected_row, r.albums@.len() as usize)
            &&& active && sub == 3 ==> final(state).selected_row == clamp_row(old(state).selected_row, r.following@.len() as usize)
        }),
        final(state).selected_subtab == old(state).selected_subtab,
{
    let active = crate::engagement::is_filter_active(state);
    let filtered = build_filtered_views(state, data);
    let section = state.selected_subtab;
    let likes_len = if active && section == 0 { filtered.likes.len() } else { data.likes.len() };
    let playlist_tracks_len = if active && section == 1 { filtered.playlist_tracks.len() } else { data.playlist_tracks.len() };
    let albums_len = if active && section == 2 { filtered.albums.len() } else { data.albums.len() };
    let following_len = if active && section == 3 { filtered.following.len() } else { data.following.len() };
    clamp_selection(state, data, active, likes_len, playlist_tracks_len, albums_len, following_len);
    filtered
}

} // verus!
