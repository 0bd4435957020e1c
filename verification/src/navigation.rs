use vstd::prelude::*;

use crate::control::{active_list, active_tracks, PlayerRequest};
use crate::engagement::{enqueue_like_follow_selected, filter_active, is_filter_active, is_search_active, search_active};
use crate::input::{handle_add_next_to_queue, handle_add_to_queue, InputOutcome};
use crate::layout::{library_track_regions, root_regions, search_track_regions, Rect, TrackTarget};
use crate::models::{Album, Artist, Playlist, Track};
use crate::queue::{build_queue, is_built_queue};
use crate::search::build_search_matches;
use crate::session::{AppData, AppState, keeps_lists};
use crate::state::{clone_tracks, info_table_rows_count, FollowingTracksFocus, PlaybackSource, TableSel};
use crate::session::table_rows_count;

verus! {

/// One row down, within a list of `len` rows.
pub open spec fn step_down(row: usize, len: usize) -> usize {
    if len > 0 && row < len - 1 { (row + 1) as usize } else { row }
}

/// Ten rows down, stopping at the last row; an empty list keeps the row.
pub open spec fn jump_down(row: usize, len: usize) -> usize {
    if len == 0 { row } else if row >= len - 1 || len - 1 - row <= 10 { (len - 1) as usize } else { (row + 10) as usize }
}

/// One row up, stopping at the top.
pub open spec fn step_up(row: usize) -> usize {
    if row > 0 { (row - 1) as usize } else { row }
}

/// Ten rows up, stopping at the top.
pub open spec fn jump_up(row: usize) -> usize {
    if row > 10 { (row - 10) as usize } else { 0 }
}

fn down1(row: usize, len: usize) -> (r: usize)
    ensures
        r == step_down(row, len),
{
    if len > 0 && row < len - 1 { row + 1 } else { row }
}

fn down10(row: usize, len: usize) -> (r: usize)
    ensures
        r == jump_down(row, len),
{
    if len == 0 { row } else if row >= len - 1 || len - 1 - row <= 10 { len - 1 } else { row + 10 }
}

fn up1(row: usize) -> (r: usize)
    ensures
        r == step_up(row),
{
    if row > 0 { row - 1 } else { row }
}

fn up10(row: usize) -> (r: usize)
    ensures
        r == jump_up(row),
{
    if row > 10 { row - 10 } else { 0 }
}

/// The table selection of a library section.
fn section_table(data: &mut AppData, subtab: usize, row: usize)
    ensures
        subtab == 0 ==> final(data).likes_state.selected == Some(row),
        subtab == 1 ==> final(data).playlists_state.selected == Some(row),
        subtab == 2 ==> final(data).albums_state.selected == Some(row),
        subtab == 3 ==> final(data).following_state.selected == Some(row),
        keeps_lists(*final(data), *old(data)),
{
    if subtab == 0 {
        data.likes_state.select(Some(row));
    } else if subtab == 1 {
        data.playlists_state.select(Some(row));
    } else if subtab == 2 {
        data.albums_state.select(Some(row));
    } else if subtab == 3 {
        data.following_state.select(Some(row));
    }
}


/// A step of `Down` or `Up`: one row, or ten with Alt.
fn moved(row: usize, len: usize, down: bool, alt: bool) -> (r: usize)
    ensures
        r == (if down { if alt { jump_down(row, len) } else { step_down(row, len) } } else { if alt { jump_up(row) } else { step_up(row) } }),
{
    if down {
        if alt { down10(row, len) } else { down1(row, len) }
    } else {
        if alt { up10(row) } else { up1(row) }
    }
}

/// A row of a track list after `Down`/`Up`, changed only where the list
/// allows it (Alt needs a non-empty list going down; plain Up needs a row
/// above).
pub open spec fn track_row_after(row: usize, len: usize, down: bool, alt: bool) -> usize {
    if down { if alt { jump_down(row, len) } else { step_down(row, len) } } else { if alt { jump_up(row) } else { step_up(row) } }
}

/// A row of a playlist's tracks after `Down`/`Up`: it moves as any track
/// row, except that an empty list keeps the row where it is, unless Alt
/// moves it up.
pub open spec fn playlist_row_after(row: usize, len: usize, down: bool, alt: bool) -> usize {
    let m = track_row_after(row, len, down, alt);
    if (m != row && (down || len > 0)) || (alt && len > 0) { m } else { row }
}

/// A collection row after `Shift+Down`/`Shift+Up`.
pub open spec fn collection_row_after(row: usize, len: usize, down: bool) -> usize {
    if down { step_down(row, len) } else { step_up(row) }
}

#[verifier::rlimit(50)]
#[verifier::spinoff_prover]
fn search_move(down: bool, shift: bool, alt: bool, state: &mut AppState, data: &mut AppData)
    requires
        old(state).selected_tab == 1,
    ensures
        keeps_lists(*final(data), *old(data)),
        final(state).selected_tab == old(state).selected_tab,
        final(state).selected_subtab == old(state).selected_subtab,
        final(state).selected_searchfilter == old(state).selected_searchfilter,
        final(state).playback_source == old(state).playback_source,
        final(state).current_playing_index == old(state).current_playing_index,
        old(state).selected_searchfilter == 0 ==> final(state).selected_row == track_row_after(old(state).selected_row, old(data).search_tracks@.len() as usize, down, alt),
        old(state).selected_searchfilter == 1 && shift ==> final(state).selected_row == collection_row_after(old(state).selected_row, old(data).search_albums@.len() as usize, down),
        old(state).selected_searchfilter == 1 && !shift ==> final(state).search_selected_album_track_row
            == track_row_after(old(state).search_selected_album_track_row, old(data).search_album_tracks@.len() as usize, down, alt),
        old(state).selected_searchfilter == 2 && shift ==> final(state).selected_row == collection_row_after(old(state).selected_row, old(data).search_playlists@.len() as usize, down),
        old(state).selected_searchfilter == 2 && !shift ==> final(state).search_selected_playlist_track_row
            == track_row_after(old(state).search_selected_playlist_track_row, old(data).search_playlist_tracks@.len() as usize, down, alt),
        old(state).selected_searchfilter == 3 && shift ==> final(state).selected_row == collection_row_after(old(state).selected_row, old(data).search_people@.len() as usize, down),
        old(state).selected_searchfilter == 3 && !shift ==> final(state).search_selected_person_track_row
            == track_row_after(old(state).search_selected_person_track_row, old(data).search_people_tracks@.len() as usize, down, alt),
        !final(state).search_input_focused,
{
    state.search_input_focused = false;
    match state.selected_searchfilter {
        0 => {
            let n = data.search_tracks.len();
            state.selected_row = moved(state.selected_row, n, down, alt);
            data.search_tracks_state.select(Some(state.selected_row));
        },
        1 => {
            if shift {
                let row = collection_move(state.selected_row, data.search_albums.len(), down);
                if row != state.selected_row {
                    state.selected_row = row;
                    data.search_albums_state.select(Some(row));
                }
            } else {
                let n = data.search_album_tracks.len();
                let row = moved(state.search_selected_album_track_row, n, down, alt);
                if row != state.search_selected_album_track_row || (alt && (n > 0 || !down)) {
                    state.search_selected_album_track_row = row;
                    data.search_album_tracks_state.select(Some(row));
                }
            }
        },
        2 => {
            if shift {
                let row = collection_move(state.selected_row, data.search_playlists.len(), down);
                if row != state.selected_row {
                    state.selected_row = row;
                    data.search_playlists_state.select(Some(row));
                }
            } else {
                let n = data.search_playlist_tracks.len();
                let row = moved(state.search_selected_playlist_track_row, n, down, alt);
                if row != state.search_selected_playlist_track_row || (alt && (n > 0 || !down)) {
                    state.search_selected_playlist_track_row = row;
                    data.search_playlist_tracks_state.select(Some(row));
                }
            }
        },
        3 => {
            if shift {
                let row = collection_move(state.selected_row, data.search_people.len(), down);
                if row != state.selected_row {
                    state.selected_row = row;
                    data.search_people_state.select(Some(row));
                }
            } else {
                let n = data.search_people_tracks.len();
                let row = moved(state.search_selected_person_track_row, n, down, alt);
                if row != state.search_selected_person_track_row || (alt && (n > 0 || !down)) {
                    state.search_selected_person_track_row = row;
                    state.search_people_tracks_focus = FollowingTracksFocus::Published;
                    data.search_people_tracks_state.select(Some(row));
                }
            }
        },
        _ => {},
    }
}

fn collection_move(row: usize, len: usize, down: bool) -> (r: usize)
    ensures
        r == collection_row_after(row, len, down),
{
    if down { down1(row, len) } else { up1(row) }
}

fn playlist_move(down: bool, shift: bool, alt: bool, state: &mut AppState, data: &mut AppData)
    ensures
        keeps_lists(*final(data), *old(data)),
        final(state).selected_tab == old(state).selected_tab,
        final(state).selected_subtab == old(state).selected_subtab,
        final(state).selected_searchfilter == old(state).selected_searchfilter,
        final(state).playback_source == old(state).playback_source,
        final(state).current_playing_index == old(state).current_playing_index,
        shift ==> final(state).selected_row == collection_row_after(old(state).selected_row, old(data).playlists@.len() as usize, down),
        !shift ==> final(state).selected_playlist_track_row == playlist_row_after(old(state).selected_playlist_track_row,
            if search_active(*old(state)) { old(state).search_matches@.len() as usize } else { old(data).playlist_tracks@.len() as usize }, down, alt),
{
    let n = if is_search_active(state) { state.search_matches.len() } else { data.playlist_tracks.len() };
    if shift {
        let row = collection_move(state.selected_row, data.playlists.len(), down);
        if row != state.selected_row {
            state.selected_row = row;
            state.selected_playlist_row = row;
            data.playlists_state.select(Some(row));
        }
    } else {
        let row = moved(state.selected_playlist_track_row, n, down, alt);
        if (row != state.selected_playlist_track_row && (down || n > 0)) || (alt && n > 0) {
            state.selected_playlist_track_row = row;
            data.playlist_tracks_state.select(Some(row));
        }
    }
}

fn album_move(down: bool, shift: bool, alt: bool, state: &mut AppState, data: &mut AppData)
    ensures
        keeps_lists(*final(data), *old(data)),
        final(state).selected_tab == old(state).selected_tab,
        final(state).selected_subtab == old(state).selected_subtab,
        final(state).selected_searchfilter == old(state).selected_searchfilter,
        final(state).playback_source == old(state).playback_source,
        final(state).current_playing_index == old(state).current_playing_index,
        !shift ==> final(state).selected_album_track_row == track_row_after(old(state).selected_album_track_row, old(data).album_tracks@.len() as usize, down, alt),
        shift ==> final(state).selected_row == collection_row_after(old(state).selected_row, old(data).albums@.len() as usize, down),
{
    if shift {
        let row = collection_move(state.selected_row, data.albums.len(), down);
        if row != state.selected_row {
            state.selected_row = row;
            state.selected_album_row = row;
            data.albums_state.select(Some(row));
        }
    } else {
        let n = data.album_tracks.len();
        let row = moved(state.selected_album_track_row, n, down, alt);
        if row != state.selected_album_track_row || (alt && (n > 0 || !down)) {
            state.selected_album_track_row = row;
            data.album_tracks_state.select(Some(row));
        }
    }
}

fn following_move(down: bool, shift: bool, alt: bool, state: &mut AppState, data: &mut AppData)
    ensures
        keeps_lists(*final(data), *old(data)),
        final(state).selected_tab == old(state).selected_tab,
        final(state).selected_subtab == old(state).selected_subtab,
        final(state).selected_searchfilter == old(state).selected_searchfilter,
        final(state).playback_source == old(state).playback_source,
        final(state).current_playing_index == old(state).current_playing_index,
        !shift ==> final(state).selected_following_track_row == track_row_after(old(state).selected_following_track_row, old(data).following_tracks@.len() as usize, down, alt),
        shift ==> final(state).selected_row == collection_row_after(old(state).selected_row, old(data).following@.len() as usize, down),
{
    if shift {
        let row = collection_move(state.selected_row, data.following.len(), down);
        if row != state.selected_row {
            state.selected_row = row;
            data.following_state.select(Some(row));
        }
    } else {
        let n = data.following_tracks.len();
        let row = moved(state.selected_following_track_row, n, down, alt);
        if row != state.selected_following_track_row || (alt && (n > 0 || !down)) {
            state.selected_following_track_row = row;
            state.following_tracks_focus = FollowingTracksFocus::Published;
            data.following_tracks_state.select(Some(row));
        }
    }
}

/// The rows of the table a section shows.
pub open spec fn section_len(subtab: usize, data: AppData) -> usize {
    (if subtab == 0 { data.likes@.len() } else if subtab == 1 { data.playlists@.len() }
        else if subtab == 2 { data.albums@.len() } else if subtab == 3 { data.following@.len() } else { 0 }) as usize
}

/// `Down`/`Up` on the feed tab: with the information rows selected they
/// move (ten rows with Alt); where a single step cannot move them, the
/// section's row moves instead; otherwise the section's row moves.
pub open spec fn feed_move_effect(s0: AppState, d0: AppData, s1: AppState, down: bool, alt: bool) -> bool {
    let rows = section_len(s0.selected_subtab, d0);
    let info_step = track_row_after(s0.selected_info_row, 2, down, false);
    &&& s0.info_pane_selected && alt ==> s1.selected_info_row == track_row_after(s0.selected_info_row, 2, down, true)
        && s1.selected_row == s0.selected_row
    &&& s0.info_pane_selected && !alt && info_step != s0.selected_info_row ==> s1.selected_info_row == info_step
        && s1.selected_row == s0.selected_row
    &&& s0.info_pane_selected && !alt && info_step == s0.selected_info_row ==> s1.selected_info_row == s0.selected_info_row
        && s1.selected_row == track_row_after(s0.selected_row, rows, down, false)
    &&& !s0.info_pane_selected ==> s1.selected_info_row == s0.selected_info_row
        && s1.selected_row == track_row_after(s0.selected_row, rows, down, alt)
}

fn section_move(down: bool, alt: bool, state: &mut AppState, data: &mut AppData)
    ensures
        keeps_lists(*final(data), *old(data)),
        final(state).selected_tab == old(state).selected_tab,
        final(state).selected_subtab == old(state).selected_subtab,
        final(state).selected_searchfilter == old(state).selected_searchfilter,
        final(state).playback_source == old(state).playback_source,
        final(state).current_playing_index == old(state).current_playing_index,
        !(old(state).selected_tab == 2 && old(state).info_pane_selected) && old(state).selected_subtab == 0 ==>
            final(state).selected_row == track_row_after(old(state).selected_row, old(data).likes@.len() as usize, down, alt),
        old(state).selected_tab == 2 ==> feed_move_effect(*old(state), *old(data), *final(state), down, alt),
{
    let max_rows = table_rows_count(state.selected_subtab, data);
    let max_info_rows = info_table_rows_count();
    let on_info = state.selected_tab == 2 && state.info_pane_selected;
    if alt {
        if on_info {
            state.selected_info_row = moved(state.selected_info_row, max_info_rows, down, true);
        } else if !down || max_rows > 0 {
            state.selected_row = moved(state.selected_row, max_rows, down, true);
            let (sub, row) = (state.selected_subtab, state.selected_row);
            section_table(data, sub, row);
        }
    } else {
        let info_moved = moved(state.selected_info_row, max_info_rows, down, false);
        let row_moved = collection_move(state.selected_row, max_rows, down);
        if on_info && info_moved != state.selected_info_row {
            state.selected_info_row = info_moved;
        } else if row_moved != state.selected_row {
            state.selected_row = row_moved;
            if state.selected_subtab == 1 && state.selected_tab == 0 {
                state.selected_playlist_row = row_moved;
            }
            if state.selected_subtab == 2 && state.selected_tab == 0 {
                state.selected_album_row = row_moved;
            }
            let (sub, row) = (state.selected_subtab, state.selected_row);
            section_table(data, sub, row);
        }
    }
}

/// What `Down` (when `down`) or `Up` does, with Shift and Alt as given: the
/// lists stay, the tab, section and filter stay, playback stays, and the row
/// that the keys move in the section moves as `track_row_after`,
/// `playlist_row_after` or `collection_row_after` say (on the feed tab, as
/// `feed_move_effect` says).
pub open spec fn move_key_effect(s0: AppState, d0: AppData, s1: AppState, d1: AppData, down: bool, shift: bool, alt: bool) -> bool {
    &&& keeps_lists(d1, d0)
    &&& s1.selected_tab == s0.selected_tab
    &&& s1.selected_subtab == s0.selected_subtab
    &&& s1.selected_searchfilter == s0.selected_searchfilter
    &&& s1.playback_source == s0.playback_source
    &&& s1.current_playing_index == s0.current_playing_index
    &&& s0.selected_tab == 0 && s0.selected_subtab == 2 && !shift ==>
            s1.selected_album_track_row == track_row_after(s0.selected_album_track_row, d0.album_tracks@.len() as usize, down, alt)
    &&& s0.selected_tab == 1 && s0.selected_searchfilter == 0 ==>
            s1.selected_row == track_row_after(s0.selected_row, d0.search_tracks@.len() as usize, down, alt)
    &&& s0.selected_tab == 0 && s0.selected_subtab == 0 ==>
            s1.selected_row == track_row_after(s0.selected_row, d0.likes@.len() as usize, down, alt)
    &&& s0.selected_tab == 0 && s0.selected_subtab == 1 && shift ==>
            s1.selected_row == collection_row_after(s0.selected_row, d0.playlists@.len() as usize, down)
    &&& s0.selected_tab == 0 && s0.selected_subtab == 1 && !shift ==>
            s1.selected_playlist_track_row == playlist_row_after(s0.selected_playlist_track_row,
                if search_active(s0) { s0.search_matches@.len() as usize } else { d0.playlist_tracks@.len() as usize }, down, alt)
    &&& s0.selected_tab == 0 && s0.selected_subtab == 2 && shift ==>
            s1.selected_row == collection_row_after(s0.selected_row, d0.albums@.len() as usize, down)
    &&& s0.selected_tab == 0 && s0.selected_subtab == 3 && shift ==>
            s1.selected_row == collection_row_after(s0.selected_row, d0.following@.len() as usize, down)
    &&& s0.selected_tab == 0 && s0.selected_subtab == 3 && !shift ==>
            s1.selected_following_track_row == track_row_after(s0.selected_following_track_row, d0.following_tracks@.len() as usize, down, alt)
    &&& s0.selected_tab == 1 && s0.selected_searchfilter == 1 && shift ==>
            s1.selected_row == collection_row_after(s0.selected_row, d0.search_albums@.len() as usize, down)
    &&& s0.selected_tab == 1 && s0.selected_searchfilter == 1 && !shift ==> s1.search_selected_album_track_row
            == track_row_after(s0.search_selected_album_track_row, d0.search_album_tracks@.len() as usize, down, alt)
    &&& s0.selected_tab == 1 && s0.selected_searchfilter == 2 && shift ==>
            s1.selected_row == collection_row_after(s0.selected_row, d0.search_playlists@.len() as usize, down)
    &&& s0.selected_tab == 1 && s0.selected_searchfilter == 2 && !shift ==> s1.search_selected_playlist_track_row
            == track_row_after(s0.search_selected_playlist_track_row, d0.search_playlist_tracks@.len() as usize, down, alt)
    &&& s0.selected_tab == 1 && s0.selected_searchfilter == 3 && shift ==>
            s1.selected_row == collection_row_after(s0.selected_row, d0.search_people@.len() as usize, down)
    &&& s0.selected_tab == 1 && s0.selected_searchfilter == 3 && !shift ==> s1.search_selected_person_track_row
            == track_row_after(s0.search_selected_person_track_row, d0.search_people_tracks@.len() as usize, down, alt)
    &&& s0.selected_tab == 1 ==> !s1.search_input_focused
    &&& s0.selected_tab == 2 ==> feed_move_effect(s0, d0, s1, down, alt)
}

/// `Down` (when `down`) or `Up`, with Shift moving the collection and Alt
/// ten rows. In a library section with a collection the keys move within its
/// tracks; on the search tab within the active result list, which takes the
/// focus from the search input; otherwise within the section (or the
/// information rows of the feed tab when selected).
pub fn handle_move_key(down: bool, shift: bool, alt: bool, state: &mut AppState, data: &mut AppData) -> (r: InputOutcome)
    ensures
        r == InputOutcome::Continue,
        move_key_effect(*old(state), *old(data), *final(state), *final(data), down, shift, alt),
{
    if state.selected_tab == 1 {
        search_move(down, shift, alt, state, data);
    } else if state.selected_tab == 0 && state.selected_subtab == 1 {
        playlist_move(down, shift, alt, state, data);
    } else if state.selected_tab == 0 && state.selected_subtab == 2 {
        album_move(down, shift, alt, state, data);
    } else if state.selected_tab == 0 && state.selected_subtab == 3 {
        following_move(down, shift, alt, state, data);
    } else {
        section_move(down, alt, state, data);
    }
    InputOutcome::Continue
}

} // verus!
