use vstd::prelude::*;

use crate::control::{active_list, active_tracks, current_entry_matches, play_queued_track, queued_from_current, PlayerRequest};
use crate::engagement::{enqueue_like_follow_selected, is_search_active, item_at_row, selected_item};
use crate::ids::{trimmed, trim_chars};
use crate::layout::TrackTarget;
use crate::models::Track;
use crate::queue::{build_queue, is_built_queue};
use crate::search::build_search_matches;
use crate::session::{AppData, AppState, keeps_lists, keeps_playback};
use crate::state::{clone_opt, clone_tracks, snapshot_view, FollowingTracksFocus, PlaybackSource, QueuedTrack};
use crate::text::{chars_of, chars_of_string, push_char, string_of};

verus! {

/// Whether the interface keeps running after an input.
#[derive(Clone, Copy, Debug, PartialEq, Eq, Structural)]
pub enum InputOutcome {
    Continue,
    Quit,
}

/// Where a typed character goes.
#[derive(Clone, Copy, Debug, PartialEq, Eq, Structural)]
pub enum CharacterDestination {
    SearchInput,
    ShiftCommand,
    LibraryCommand,
    Ignore,
}

/// On the search tab every character is query text, shifted ones too;
/// elsewhere a shifted character is a command, and in the library an
/// unshifted one may be.
pub fn character_destination(selected_tab: usize, shift: bool) -> (r: CharacterDestination)
    ensures
        r == (if selected_tab == 1 { CharacterDestination::SearchInput }
            else if shift { CharacterDestination::ShiftCommand }
            else if selected_tab == 0 { CharacterDestination::LibraryCommand }
            else { CharacterDestination::Ignore }),
{
    if selected_tab == 1 {
        CharacterDestination::SearchInput
    } else if shift {
        CharacterDestination::ShiftCommand
    } else if selected_tab == 0 {
        CharacterDestination::LibraryCommand
    } else {
        CharacterDestination::Ignore
    }
}

/// Every search request number moves on, so that answers to requests made
/// before an edit are dropped when they arrive.
pub open spec fn search_ids_advanced(a: AppState, b: AppState) -> bool {
    &&& b.search_results_request_id == a.search_results_request_id.wrapping_add(1)
    &&& b.search_playlist_tracks_request_id == a.search_playlist_tracks_request_id.wrapping_add(1)
    &&& b.search_album_tracks_request_id == a.search_album_tracks_request_id.wrapping_add(1)
    &&& b.search_people_tracks_request_id == a.search_people_tracks_request_id.wrapping_add(1)
    &&& b.search_people_likes_request_id == a.search_people_likes_request_id.wrapping_add(1)
}

/// Prevents an older query or nested result from replacing results after input changes.
pub fn invalidate_in_flight_search(state: &mut AppState)
    ensures
        search_ids_advanced(*old(state), *final(state)),
        final(state).query == old(state).query,
        final(state).selected_tab == old(state).selected_tab,
{
    state.search_results_request_id = state.search_results_request_id.wrapping_add(1);
    state.search_playlist_tracks_request_id = state.search_playlist_tracks_request_id.wrapping_add(1);
    state.search_album_tracks_request_id = state.search_album_tracks_request_id.wrapping_add(1);
    state.search_people_tracks_request_id = state.search_people_tracks_request_id.wrapping_add(1);
    state.search_people_likes_request_id = state.search_people_likes_request_id.wrapping_add(1);
}

/// The search input after an edit: focused, not yet submitted, results at the top.
pub open spec fn search_edit_state(a: AppState, b: AppState) -> bool {
    &&& search_ids_advanced(a, b)
    &&& !b.search_needs_fetch
    &&& b.search_input_focused
    &&& b.selected_row == 0
    &&& b.search_selected_playlist_track_row == 0
    &&& b.search_selected_album_track_row == 0
    &&& b.search_selected_person_track_row == 0
    &&& b.search_selected_person_like_row == 0
    &&& b.search_people_tracks_focus == FollowingTracksFocus::Published
    &&& b.selected_tab == a.selected_tab
}

fn reset_search_edit(state: &mut AppState)
    ensures
        final(state).query == old(state).query,
        final(state).search_needs_fetch == false,
        final(state).search_input_focused,
        final(state).selected_row == 0,
        final(state).search_selected_playlist_track_row == 0,
        final(state).search_selected_album_track_row == 0,
        final(state).search_selected_person_track_row == 0,
        final(state).search_selected_person_like_row == 0,
        final(state).search_people_tracks_focus == FollowingTracksFocus::Published,
        final(state).selected_tab == old(state).selected_tab,
        final(state).search_results_request_id == old(state).search_results_request_id,
        final(state).search_playlist_tracks_request_id == old(state).search_playlist_tracks_request_id,
        final(state).search_album_tracks_request_id == old(state).search_album_tracks_request_id,
        final(state).search_people_tracks_request_id == old(state).search_people_tracks_request_id,
        final(state).search_people_likes_request_id == old(state).search_people_likes_request_id,
{
    state.search_needs_fetch = false;
    state.search_input_focused = true;
    state.selected_row = 0;
    state.search_selected_playlist_track_row = 0;
    state.search_selected_album_track_row = 0;
    state.search_selected_person_track_row = 0;
    state.search_selected_person_like_row = 0;
    state.search_people_tracks_focus = FollowingTracksFocus::Published;
}

/// Types a character into the search query; the query is submitted only by Enter.
pub fn handle_search_char(c: char, state: &mut AppState) -> (r: InputOutcome)
    ensures
        r == InputOutcome::Continue,
        final(state).query@ == old(state).query@.push(c),
        search_edit_state(*old(state), *final(state)),
{
    invalidate_in_flight_search(state);
    push_char(&mut state.query, c);
    reset_search_edit(state);
    InputOutcome::Continue
}

/// Deletes the last character of the search query, on the search tab only.
pub fn handle_backspace(state: &mut AppState) -> (r: InputOutcome)
    ensures
        r == InputOutcome::Continue,
        old(state).selected_tab == 1 ==> search_edit_state(*old(state), *final(state))
            && final(state).query@ == (if old(state).query@.len() == 0 { old(state).query@ } else { old(state).query@.drop_last() }),
        old(state).selected_tab != 1 ==> final(state).query == old(state).query && final(state).selected_row == old(state).selected_row,
{
    if state.selected_tab == 1 {
        invalidate_in_flight_search(state);
        let mut v = chars_of_string(&state.query);
        if v.len() > 0 {
            let _ = v.pop();
        }
        state.query = string_of(&v);
        reset_search_edit(state);
    }
    InputOutcome::Continue
}

/// Submits the focused search field while keeping later Enter presses
/// available for playback. Returns whether the key was used by the field.
pub fn handle_search_submit(state: &mut AppState) -> (r: bool)
    ensures
        r == (old(state).selected_tab == 1 && old(state).search_input_focused),
        !r ==> *final(state) == *old(state),
        r && trimmed(old(state).query@).len() > 0 ==> final(state).search_needs_fetch && !final(state).search_input_focused,
        !(r && trimmed(old(state).query@).len() > 0) ==> final(state).search_needs_fetch == old(state).search_needs_fetch
            && final(state).search_input_focused == old(state).search_input_focused,
        final(state).query == old(state).query,
{
    if state.selected_tab != 1 || !state.search_input_focused {
        return false;
    }
    if trim_chars(&chars_of(state.query.as_str())).len() > 0 {
        state.search_needs_fetch = true;
        state.search_input_focused = false;
    }
    true
}

/// `Tab`: the next main tab, with the selection at the top.
pub fn handle_tab_switch(state: &mut AppState) -> (r: InputOutcome)
    requires
        old(state).selected_tab < 3,
    ensures
        r == InputOutcome::Continue,
        final(state).selected_tab == (old(state).selected_tab + 1) % 3,
        final(state).selected_row == 0,
{
    state.selected_tab = (state.selected_tab + 1) % 3;
    state.selected_row = 0;
    InputOutcome::Continue
}

/// `Space` in the library pauses what plays and resumes what is paused.
pub fn handle_space(c: char, is_playing: bool) -> (r: Option<PlayerRequest>)
    ensures
        c != ' ' ==> r is None,
        c == ' ' && is_playing ==> r == Some(PlayerRequest::Pause),
        c == ' ' && !is_playing ==> r == Some(PlayerRequest::Resume),
{
    if c == ' ' {
        if is_playing { Some(PlayerRequest::Pause) } else { Some(PlayerRequest::Resume) }
    } else {
        None
    }
}

/// The entry of a row of a list, as a queue entry the user added.
pub open spec fn entry_for(source: PlaybackSource, index: usize, tracks: Seq<Track>, snapshot: bool,
    playlist_uri: Option<String>, album_uri: Option<String>, user_urn: Option<String>, q: QueuedTrack) -> bool {
    &&& q.source == source
    &&& q.index == index
    &&& q.track == tracks[index as int]
    &&& snapshot_view(q.tracks_snapshot) == (if snapshot { Some(tracks) } else { None })
    &&& q.playlist_uri == playlist_uri
    &&& q.album_uri == album_uri
    &&& q.following_user_urn == user_urn
    &&& q.user_added
}

fn make_entry(source: PlaybackSource, index: usize, tracks: &Vec<Track>, snapshot: bool,
    playlist_uri: Option<String>, album_uri: Option<String>, user_urn: Option<String>) -> (r: Option<QueuedTrack>)
    ensures
        index < tracks@.len() && tracks@[index as int].playable() ==> (r matches Some(q) && entry_for(source, index, tracks@, snapshot, playlist_uri, album_uri, user_urn, q)),
        !(index < tracks@.len() && tracks@[index as int].playable()) ==> r is None,
{
    if index >= tracks.len() || !tracks[index].is_playable() {
        return None;
    }
    Some(QueuedTrack {
        source,
        index,
        track: tracks[index].clone(),
        tracks_snapshot: if snapshot { Some(clone_tracks(tracks)) } else { None },
        playlist_uri,
        album_uri,
        following_user_urn: user_urn,
        user_added: true,
    })
}

/// The pane a key acts on: its source, selected row, list, and context.
pub open spec fn selected_entry_spec(state: AppState, data: AppData, q: Option<QueuedTrack>) -> bool {
    if state.selected_tab == 0 {
        if state.selected_subtab == 0 {
            match item_at_row(state, state.selected_row) {
                Some(i) => if i < data.likes@.len() && data.likes@[i as int].playable() {
                    q matches Some(e) && entry_for(PlaybackSource::Likes, i, data.likes@, false, None, None, None, e)
                } else { q is None },
                None => q is None,
            }
        } else if state.selected_subtab == 1 {
            match item_at_row(state, state.selected_playlist_track_row) {
                Some(i) => if i < data.playlist_tracks@.len() && data.playlist_tracks@[i as int].playable() {
                    q matches Some(e) && entry_for(PlaybackSource::Playlist, i, data.playlist_tracks@, true, data.playlist_tracks_uri, None, None, e)
                } else { q is None },
                None => q is None,
            }
        } else if state.selected_subtab == 2 {
            let i = state.selected_album_track_row;
            if i < data.album_tracks@.len() && data.album_tracks@[i as int].playable() {
                q matches Some(e) && entry_for(PlaybackSource::Album, i, data.album_tracks@, true, None, data.album_tracks_uri, None, e)
            } else { q is None }
        } else if state.selected_subtab == 3 {
            if state.following_tracks_focus == FollowingTracksFocus::Likes {
                let i = state.selected_following_like_row;
                if i < data.following_likes_tracks@.len() && data.following_likes_tracks@[i as int].playable() {
                    q matches Some(e) && entry_for(PlaybackSource::FollowingLikes, i, data.following_likes_tracks@, true, None, None, data.following_likes_user_urn, e)
                } else { q is None }
            } else {
                let i = state.selected_following_track_row;
                if i < data.following_tracks@.len() && data.following_tracks@[i as int].playable() {
                    q matches Some(e) && entry_for(PlaybackSource::FollowingPublished, i, data.following_tracks@, true, None, None, data.following_tracks_user_urn, e)
                } else { q is None }
            }
        } else {
            q is None
        }
    } else if state.selected_tab == 1 {
        if state.selected_searchfilter == 0 {
            let i = state.selected_row;
            if i < data.search_tracks@.len() && data.search_tracks@[i as int].playable() {
                q matches Some(e) && entry_for(PlaybackSource::Playlist, i, data.search_tracks@, true, None, None, None, e)
            } else { q is None }
        } else if state.selected_searchfilter == 1 {
            let i = state.search_selected_album_track_row;
            if i < data.search_album_tracks@.len() && data.search_album_tracks@[i as int].playable() {
                q matches Some(e) && entry_for(PlaybackSource::Album, i, data.search_album_tracks@, true, None, data.search_album_tracks_uri, None, e)
            } else { q is None }
        } else if state.selected_searchfilter == 2 {
            let i = state.search_selected_playlist_track_row;
            if i < data.search_playlist_tracks@.len() && data.search_playlist_tracks@[i as int].playable() {
                q matches Some(e) && entry_for(PlaybackSource::Playlist, i, data.search_playlist_tracks@, true, data.search_playlist_tracks_uri, None, None, e)
            } else { q is None }
        } else if state.selected_searchfilter == 3 {
            if state.search_people_tracks_focus == FollowingTracksFocus::Likes {
                let i = state.search_selected_person_like_row;
                if i < data.search_people_likes_tracks@.len() && data.search_people_likes_tracks@[i as int].playable() {
                    q matches Some(e) && entry_for(PlaybackSource::FollowingLikes, i, data.search_people_likes_tracks@, true, None, None, data.search_people_likes_user_urn, e)
                } else { q is None }
            } else {
                let i = state.search_selected_person_track_row;
                if i < data.search_people_tracks@.len() && data.search_people_tracks@[i as int].playable() {
                    q matches Some(e) && entry_for(PlaybackSource::FollowingPublished, i, data.search_people_tracks@, true, None, None, data.search_people_tracks_user_urn, e)
                } else { q is None }
            }
        } else {
            q is None
        }
    } else {
        q is None
    }
}

/// The selected track of the active pane as a queue entry, when it is playable.
pub fn selected_queued(state: &AppState, data: &AppData) -> (r: Option<QueuedTrack>)
    ensures
        selected_entry_spec(*state, *data, r),
{
    if state.selected_tab == 0 {
        if state.selected_subtab == 0 {
            match selected_item(state, state.selected_row) {
                Some(i) => make_entry(PlaybackSource::Likes, i, &data.likes, false, None, None, None),
                None => None,
            }
        } else if state.selected_subtab == 1 {
            match selected_item(state, state.selected_playlist_track_row) {
                Some(i) => make_entry(PlaybackSource::Playlist, i, &data.playlist_tracks, true, clone_opt(&data.playlist_tracks_uri), None, None),
                None => None,
            }
        } else if state.selected_subtab == 2 {
            make_entry(PlaybackSource::Album, state.selected_album_track_row, &data.album_tracks, true, None, clone_opt(&data.album_tracks_uri), None)
        } else if state.selected_subtab == 3 {
            if state.following_tracks_focus == FollowingTracksFocus::Likes {
                make_entry(PlaybackSource::FollowingLikes, state.selected_following_like_row, &data.following_likes_tracks, true, None, None, clone_opt(&data.following_likes_user_urn))
            } else {
                make_entry(PlaybackSource::FollowingPublished, state.selected_following_track_row, &data.following_tracks, true, None, None, clone_opt(&data.following_tracks_user_urn))
            }
        } else {
            None
        }
    } else if state.selected_tab == 1 {
        if state.selected_searchfilter == 0 {
            make_entry(PlaybackSource::Playlist, state.selected_row, &data.search_tracks, true, None, None, None)
        } else if state.selected_searchfilter == 1 {
            make_entry(PlaybackSource::Album, state.search_selected_album_track_row, &data.search_album_tracks, true, None, clone_opt(&data.search_album_tracks_uri), None)
        } else if state.selected_searchfilter == 2 {
            make_entry(PlaybackSource::Playlist, state.search_selected_playlist_track_row, &data.search_playlist_tracks, true, clone_opt(&data.search_playlist_tracks_uri), None, None)
        } else if state.selected_searchfilter == 3 {
            if state.search_people_tracks_focus == FollowingTracksFocus::Likes {
                make_entry(PlaybackSource::FollowingLikes, state.search_selected_person_like_row, &data.search_people_likes_tracks, true, None, None, clone_opt(&data.search_people_likes_user_urn))
            } else {
                make_entry(PlaybackSource::FollowingPublished, state.search_selected_person_track_row, &data.search_people_tracks, true, None, None, clone_opt(&data.search_people_tracks_user_urn))
            }
        } else {
            None
        }
    } else {
        None
    }
}

/// `Shift+A`: appends the selected playable track to the manual queue.
pub fn handle_add_to_queue(state: &mut AppState, data: &AppData)
    ensures
        keeps_playback(*old(state), *final(state)),
        exists|q: Option<QueuedTrack>| selected_entry_spec(*old(state), *data, q) && match q {
            Some(e) => final(state).manual_queue@ == old(state).manual_queue@.push(e),
            None => final(state).manual_queue@ == old(state).manual_queue@,
        },
{
    let q = selected_queued(state, data);
    let ghost g = q;
    if let Some(e) = q {
        state.manual_queue.push_back(e);
    }
    assert(selected_entry_spec(*old(state), *data, g));
}

/// `Shift+N`: puts the selected playable track at the head of the manual queue.
pub fn handle_add_next_to_queue(state: &mut AppState, data: &AppData)
    ensures
        keeps_playback(*old(state), *final(state)),
        exists|q: Option<QueuedTrack>| selected_entry_spec(*old(state), *data, q) && match q {
            Some(e) => final(state).manual_queue@ == seq![e] + old(state).manual_queue@,
            None => final(state).manual_queue@ == old(state).manual_queue@,
        },
{
    let q = selected_queued(state, data);
    let ghost g = q;
    if let Some(e) = q {
        state.manual_queue.push_front(e);
    }
    assert(selected_entry_spec(*old(state), *data, g));
}

/// Clamps a move within a list of `len` rows; an empty list keeps row zero.
pub open spec fn moved_index(current: int, len: int, delta: int) -> int {
    if len == 0 {
        0
    } else if delta >= 0 {
        if current + delta > len - 1 { len - 1 } else { current + delta }
    } else {
        if current + delta < 0 { 0 } else { current + delta }
    }
}

/// Moves a selection by `delta` rows, within the list.
pub fn move_index(current: usize, len: usize, delta: isize) -> (r: usize)
    ensures
        r == moved_index(current as int, len as int, delta as int),
        len > 0 && current < len ==> r < len,
{
    if len == 0 {
        return 0;
    }
    if delta >= 0 {
        let d = delta as usize;
        let sum = if current > usize::MAX - d { usize::MAX } else { current + d };
        if sum < len - 1 { sum } else { len - 1 }
    } else {
        let d: usize = if delta == isize::MIN { (isize::MAX as usize) + 1 } else { (-delta) as usize };
        if current < d { 0 } else { current - d }
    }
}

/// The mouse events that scroll.
#[derive(Clone, Copy, Debug, PartialEq, Eq, Structural)]
pub enum MouseKind {
    ScrollUp,
    ScrollDown,
    Other,
}

/// The wheel moves the selection by one row, or five with Shift; upwards is negative.
pub fn scroll_step(kind: MouseKind, shift: bool) -> (r: Option<isize>)
    ensures
        r == (match kind {
            MouseKind::ScrollUp => Some(if shift { -5isize } else { -1isize }),
            MouseKind::ScrollDown => Some(if shift { 5isize } else { 1isize }),
            MouseKind::Other => None::<isize>,
        }),
{
    let distance: isize = if shift { 5 } else { 1 };
    match kind {
        MouseKind::ScrollUp => Some(-distance),
        MouseKind::ScrollDown => Some(distance),
        MouseKind::Other => None,
    }
}

/// Whether a click completes a double click.
#[derive(Clone, Copy, Debug, PartialEq, Eq, Structural)]
pub enum ClickKind {
    Single,
    Double,
}

/// The longest gap between the two clicks of a double click, in milliseconds.
pub const DOUBLE_CLICK_WINDOW_MS: u64 = 400;

/// Remembers the last single click on a track row.
#[derive(Clone, Copy, Debug)]
pub struct ClickTracker {
    pub last: Option<(TrackTarget, usize, u64)>,
}

impl ClickTracker {
    pub fn new() -> (r: Self)
        ensures
            r.last is None,
    {
        ClickTracker { last: None }
    }

    /// A click on the same row of the same table within the window after a
    /// single click is a double click, which starts over; any other click is
    /// a single click and is remembered.
    pub fn register(&mut self, target: TrackTarget, row: usize, now_ms: u64) -> (r: ClickKind)
        ensures
            ({
                let double = old(self).last matches Some(p) && p.0 == target && p.1 == row
                    && (if now_ms < p.2 { 0 } else { now_ms - p.2 }) <= DOUBLE_CLICK_WINDOW_MS;
                &&& double ==> r == ClickKind::Double && final(self).last is None
                &&& !double ==> r == ClickKind::Single && final(self).last == Some((target, row, now_ms))
            }),
    {
        let double = match self.last {
            Some((t, r, at)) => t == target && r == row && (if now_ms < at { 0 } else { now_ms - at }) <= DOUBLE_CLICK_WINDOW_MS,
            None => false,
        };
        if double {
            self.last = None;
            ClickKind::Double
        } else {
            self.last = Some((target, row, now_ms));
            ClickKind::Single
        }
    }
}

/// What Enter plays: the source, the index, the list it starts from, and
/// the list's playlist URI, album URI and user URN.
pub type PlayTarget = (PlaybackSource, usize, Seq<Track>, Option<String>, Option<String>, Option<String>);

/// The track Enter starts in the active pane, if its row exists.
pub open spec fn enter_target(state: AppState, data: AppData) -> Option<PlayTarget> {
    let t: Option<PlayTarget> = if state.selected_tab == 1 {
        if state.selected_searchfilter == 0 {
            Some((PlaybackSource::Playlist, state.selected_row, data.search_tracks@, None, None, None))
        } else if state.selected_searchfilter == 1 {
            Some((PlaybackSource::Album, state.search_selected_album_track_row, data.search_album_tracks@, None, data.search_album_tracks_uri, None))
        } else if state.selected_searchfilter == 2 {
            Some((PlaybackSource::Playlist, state.search_selected_playlist_track_row, data.search_playlist_tracks@, data.search_playlist_tracks_uri, None, None))
        } else if state.selected_searchfilter == 3 {
            if state.search_people_tracks_focus == FollowingTracksFocus::Likes {
                Some((PlaybackSource::FollowingLikes, state.search_selected_person_like_row, data.search_people_likes_tracks@, None, None, data.search_people_likes_user_urn))
            } else {
                Some((PlaybackSource::FollowingPublished, state.search_selected_person_track_row, data.search_people_tracks@, None, None, data.search_people_tracks_user_urn))
            }
        } else {
            None
        }
    } else if state.selected_tab == 0 {
        if state.selected_subtab == 0 {
            match item_at_row(state, state.selected_row) {
                Some(i) => Some((PlaybackSource::Likes, i, data.likes@, None, None, None)),
                None => None,
            }
        } else if state.selected_subtab == 1 {
            match item_at_row(state, state.selected_playlist_track_row) {
                Some(i) => Some((PlaybackSource::Playlist, i, data.playlist_tracks@, data.playlist_tracks_uri, None, None)),
                None => None,
            }
        } else if state.selected_subtab == 2 {
            Some((PlaybackSource::Album, state.selected_album_track_row, data.album_tracks@, None, data.album_tracks_uri, None))
        } else if state.selected_subtab == 3 {
            if state.following_tracks_focus == FollowingTracksFocus::Likes {
                Some((PlaybackSource::FollowingLikes, state.selected_following_like_row, data.following_likes_tracks@, None, None, data.following_likes_user_urn))
            } else {
                Some((PlaybackSource::FollowingPublished, state.selected_following_track_row, data.following_tracks@, None, None, data.following_tracks_user_urn))
            }
        } else {
            None
        }
    } else {
        None
    };
    match t {
        Some(x) => if x.1 < x.2.len() { Some(x) } else { None },
        None => None,
    }
}

/// The history and manual queue after starting `index` of `source`:
/// switching sources forgets both; within a source, what played is
/// remembered unless the same entry starts again.
pub open spec fn history_after_start(a: AppState, data: AppData, b: AppState, source: PlaybackSource, index: usize) -> bool {
    if a.playback_source != source {
        b.playback_history@.len() == 0 && b.manual_queue@.len() == 0
    } else {
        &&& b.manual_queue@ == a.manual_queue@
        &&& exists|e: Option<QueuedTrack>| #[trigger] current_entry_matches(a, data, e) && match e {
            Some(q) => if q.source == source && q.index == index {
                b.playback_history@ == a.playback_history@
            } else {
                b.playback_history@ == a.playback_history@.push(q)
            },
            None => b.playback_history@ == a.playback_history@,
        }
    }
}

fn record_history_for_start(state: &mut AppState, data: &AppData, source: PlaybackSource, index: usize)
    ensures
        history_after_start(*old(state), *data, *final(state), source, index),
        final(state).playback_source == old(state).playback_source,
        final(state).shuffle_enabled == old(state).shuffle_enabled,
        final(state).selected_tab == old(state).selected_tab,
        final(state).selected_subtab == old(state).selected_subtab,
        final(state).search_popup_visible == old(state).search_popup_visible,
        final(state).search_query == old(state).search_query,
        final(state).search_matches@ == old(state).search_matches@,
{
    if state.playback_source != source {
        state.playback_history.clear();
        state.manual_queue.clear();
    } else {
        let e = queued_from_current(state, data);
        let ghost g = e;
        match e {
            Some(q) => {
                if !(q.source == source && q.index == index) {
                    state.playback_history.push(q);
                }
            },
            None => {},
        }
        assert(current_entry_matches(*old(state), *data, g));
    }
}

/// Starts playback of a row of a list: the list becomes the playing list
/// (liked tracks play from the library itself), the automatic queue is built
/// after the row, and the history follows `history_after_start`.
pub open spec fn started(a: AppState, d0: AppData, b: AppState, d1: AppData, t: PlayTarget, r: PlayerRequest) -> bool {
    let (source, index, tracks, playlist_uri, album_uri, user_urn) = t;
    &&& r == PlayerRequest::Play(tracks[index as int])
    &&& b.playback_source == source
    &&& b.override_playing is None
    &&& b.current_playing_index == Some(index)
    &&& history_after_start(a, d0, b, source, index)
    &&& is_built_queue(b.auto_queue@, index, tracks, a.shuffle_enabled)
    &&& source != PlaybackSource::Likes ==> d1.playback_tracks@ == tracks
    &&& d1.playback_playlist_uri == playlist_uri
    &&& d1.playback_album_uri == album_uri
    &&& d1.playback_following_user_urn == user_urn
}

fn start_list(state: &mut AppState, data: &mut AppData, source: PlaybackSource, index: usize, tracks: Vec<Track>,
    playlist_uri: Option<String>, album_uri: Option<String>, user_urn: Option<String>) -> (r: PlayerRequest)
    requires
        index < tracks@.len(),
        source == PlaybackSource::Likes ==> tracks@ == old(data).likes@,
    ensures
        started(*old(state), *old(data), *final(state), *final(data), (source, index, tracks@, playlist_uri, album_uri, user_urn), r),
        keeps_lists(*final(data), *old(data)),
        final(state).selected_tab == old(state).selected_tab,
        final(state).selected_subtab == old(state).selected_subtab,
        final(state).search_popup_visible == old(state).search_popup_visible,
        final(state).search_query == old(state).search_query,
        final(state).search_matches@ == old(state).search_matches@,
{
    record_history_for_start(state, data, source, index);
    let track = tracks[index].clone();
    state.playback_source = source;
    state.override_playing = None;
    state.current_playing_index = Some(index);
    if source != PlaybackSource::Likes {
        data.playback_tracks = tracks;
        state.auto_queue = build_queue(index, &data.playback_tracks, state.shuffle_enabled);
    } else {
        state.auto_queue = build_queue(index, &data.likes, state.shuffle_enabled);
    }
    data.playback_playlist_uri = playlist_uri;
    data.playback_album_uri = album_uri;
    data.playback_following_user_urn = user_urn;
    PlayerRequest::Play(track)
}

/// `Enter`: plays the selected row of the active track pane, from its list.
pub fn handle_enter(state: &mut AppState, data: &mut AppData) -> (r: Option<PlayerRequest>)
    ensures
        match enter_target(*old(state), *old(data)) {
            Some(t) => r matches Some(p) && started(*old(state), *old(data), *final(state), *final(data), t, p),
            None => r is None && final(state).current_playing_index == old(state).current_playing_index
                && final(state).playback_source == old(state).playback_source,
        },
        final(state).selected_tab == old(state).selected_tab,
{
    let ghost target = enter_target(*state, *data);
    let (source, index, tracks, playlist_uri, album_uri, user_urn) = if state.selected_tab == 1 {
        if state.selected_searchfilter == 0 {
            (PlaybackSource::Playlist, state.selected_row, clone_tracks(&data.search_tracks), None, None, None)
        } else if state.selected_searchfilter == 1 {
            (PlaybackSource::Album, state.search_selected_album_track_row, clone_tracks(&data.search_album_tracks), None, clone_opt(&data.search_album_tracks_uri), None)
        } else if state.selected_searchfilter == 2 {
            (PlaybackSource::Playlist, state.search_selected_playlist_track_row, clone_tracks(&data.search_playlist_tracks), clone_opt(&data.search_playlist_tracks_uri), None, None)
        } else if state.selected_searchfilter == 3 {
            if state.search_people_tracks_focus == FollowingTracksFocus::Likes {
                (PlaybackSource::FollowingLikes, state.search_selected_person_like_row, clone_tracks(&data.search_people_likes_tracks), None, None, clone_opt(&data.search_people_likes_user_urn))
            } else {
                (PlaybackSource::FollowingPublished, state.search_selected_person_track_row, clone_tracks(&data.search_people_tracks), None, None, clone_opt(&data.search_people_tracks_user_urn))
            }
        } else {
            return None;
        }
    } else if state.selected_tab == 0 {
        if state.selected_subtab == 0 {
            match selected_item(state, state.selected_row) {
                Some(i) => (PlaybackSource::Likes, i, clone_tracks(&data.likes), None, None, None),
                None => return None,
            }
        } else if state.selected_subtab == 1 {
            match selected_item(state, state.selected_playlist_track_row) {
                Some(i) => (PlaybackSource::Playlist, i, clone_tracks(&data.playlist_tracks), clone_opt(&data.playlist_tracks_uri), None, None),
                None => return None,
            }
        } else if state.selected_subtab == 2 {
            (PlaybackSource::Album, state.selected_album_track_row, clone_tracks(&data.album_tracks), None, clone_opt(&data.album_tracks_uri), None)
        } else if state.selected_subtab == 3 {
            if state.following_tracks_focus == FollowingTracksFocus::Likes {
                (PlaybackSource::FollowingLikes, state.selected_following_like_row, clone_tracks(&data.following_likes_tracks), None, None, clone_opt(&data.following_likes_user_urn))
            } else {
                (PlaybackSource::FollowingPublished, state.selected_following_track_row, clone_tracks(&data.following_tracks), None, None, clone_opt(&data.following_tracks_user_urn))
            }
        } else {
            return None;
        }
    } else {
        return None;
    };
    if index >= tracks.len() {
        return None;
    }
    assert(target == Some((source, index, tracks@, playlist_uri, album_uri, user_urn)));
    let search_active = is_search_active(state);
    let tab = state.selected_tab;
    let subtab = state.selected_subtab;
    let r = start_list(state, data, source, index, tracks, playlist_uri, album_uri, user_urn);
    if tab == 0 && subtab == 0 && !search_active {
        state.selected_row = index;
        data.likes_state.select(Some(index));
    } else if tab == 0 && subtab == 1 && !search_active {
        let row = state.selected_playlist_track_row;
        data.playlist_tracks_state.select(Some(row));
    } else if tab == 0 && subtab == 2 {
        data.album_tracks_state.select(Some(index));
    } else if tab == 0 && subtab == 3 {
        if source == PlaybackSource::FollowingLikes {
            data.following_likes_state.select(Some(index));
        } else {
            data.following_tracks_state.select(Some(index));
        }
    }
    Some(r)
}

/// What `Shift+Right` does (as `handle_next_track`): with nothing playing,
/// nothing; else the head of the manual queue plays (what played goes to the
/// history), else the next automatic entry (the automatic queue is built
/// first when both queues are empty).
pub open spec fn next_track_effect(s0: AppState, d0: AppData, s1: AppState, r: Option<PlayerRequest>) -> bool {
    &&& (s0.current_playing_index is None ==> r is None)
    &&& (s0.current_playing_index is Some && s0.manual_queue@.len() > 0 ==> {
            &&& r == Some(PlayerRequest::Play(s0.manual_queue@[0].track))
            &&& s1.manual_queue@ == s0.manual_queue@.drop_first()
            &&& exists|e: Option<QueuedTrack>| #[trigger] current_entry_matches(s0, d0, e) && match e {
                Some(q) => s1.playback_history@ == s0.playback_history@.push(q),
                None => s1.playback_history@ == s0.playback_history@,
            }
            &&& s1.override_playing matches Some(o) && o.same_as(s0.manual_queue@[0])
        })
    &&& (s0.current_playing_index is Some && s0.manual_queue@.len() == 0 && s0.auto_queue@.len() > 0 ==> {
            let next = s0.auto_queue@[0];
            let active = active_list(s0, d0);
            &&& s1.auto_queue@ == s0.auto_queue@.drop_first()
            &&& next < active.len() ==> r == Some(PlayerRequest::Play(active[next as int]))
                && s1.current_playing_index == Some(next) && s1.override_playing is None
            &&& next < active.len() ==> exists|e: Option<QueuedTrack>| #[trigger] current_entry_matches(s0, d0, e) && match e {
                Some(q) => s1.playback_history@ == s0.playback_history@.push(q),
                None => s1.playback_history@ == s0.playback_history@,
            }
            &&& next >= active.len() ==> r is None
        })
    &&& (s0.current_playing_index is Some && s0.manual_queue@.len() == 0 && s0.auto_queue@.len() == 0 ==>
            exists|q: Seq<usize>| {
                &&& #[trigger] is_built_queue(q, s0.current_playing_index->0, active_list(s0, d0), s0.shuffle_enabled)
                &&& q.len() == 0 ==> r is None
                &&& q.len() > 0 ==> s1.auto_queue@ == q.drop_first() && (q[0] < active_list(s0, d0).len() ==>
                    r == Some(PlayerRequest::Play(active_list(s0, d0)[q[0] as int]))
                    && s1.current_playing_index == Some(q[0]))
            })
    &&& (s0.current_playing_index is Some && s0.manual_queue@.len() == 0 && r is Some ==>
            exists|e: Option<QueuedTrack>| #[trigger] current_entry_matches(s0, d0, e) && match e {
                Some(q) => s1.playback_history@ == s0.playback_history@.push(q),
                None => s1.playback_history@ == s0.playback_history@,
            })
    &&& (r is Some ==> s1.current_playing_index is Some)
    &&& (r matches Some(p) ==> p is Play)
}

/// `Shift+Right`: skips to the next track: the head of the manual queue
/// (keeping the list's context), else the next automatic entry (building
/// the automatic queue when both are empty); what played goes to the history.
pub fn handle_next_track(state: &mut AppState, data: &mut AppData) -> (r: Option<PlayerRequest>)
    ensures
        next_track_effect(*old(state), *old(data), *final(state), r),
{
    let current_idx = match state.current_playing_index {
        Some(i) => i,
        None => return None,
    };
    if state.manual_queue.len() == 0 && state.auto_queue.len() == 0 {
        let q = build_queue(current_idx, active_tracks(state, data), state.shuffle_enabled);
        state.auto_queue = q;
    }
    if let Some(queued) = state.manual_queue.pop_front() {
        let e = queued_from_current(state, data);
        let ghost g = e;
        if let Some(cur) = e {
            state.playback_history.push(cur);
        }
        let t = play_queued_track(queued, state, data, true);
        proof {
            assert(old(state).manual_queue@.drop_first() =~= old(state).manual_queue@.subrange(1, old(state).manual_queue@.len() as int));
        }
        assert(current_entry_matches(*old(state), *old(data), g));
        Some(PlayerRequest::Play(t))
    } else if let Some(next_idx) = state.auto_queue.pop_front() {
        if next_idx < active_tracks(state, data).len() {
            let e = queued_from_current(state, data);
            let ghost g = e;
            if let Some(cur) = e {
                state.playback_history.push(cur);
            }
            let t = active_tracks(state, data)[next_idx].clone();
            assert(current_entry_matches(*old(state), *old(data), g));
            state.override_playing = None;
            state.current_playing_index = Some(next_idx);
            Some(PlayerRequest::Play(t))
        } else {
            None
        }
    } else {
        None
    }
}

/// What `Shift+Left` does (as `handle_prev_track`): while something plays
/// and the history has an entry, its last entry plays again; else nothing.
pub open spec fn prev_track_effect(s0: AppState, d0: AppData, s1: AppState, r: Option<PlayerRequest>) -> bool {
    &&& (s0.current_playing_index is None || s0.playback_history@.len() == 0 ==> r is None
            && s1.playback_history@ == s0.playback_history@ && s1.manual_queue@ == s0.manual_queue@)
    &&& (s0.current_playing_index is Some && s0.playback_history@.len() > 0 ==> {
            let prev = s0.playback_history@.last();
            &&& r == Some(PlayerRequest::Play(prev.track))
            &&& s1.playback_history@ == s0.playback_history@.drop_last()
            &&& s1.override_playing matches Some(o) && o.same_as(prev)
            &&& s1.current_playing_index == s0.current_playing_index
            &&& s1.auto_queue@ == s0.auto_queue@
            &&& exists|e: Option<QueuedTrack>| #[trigger] current_entry_matches(s0, d0, e) && match e {
                Some(q) => s1.manual_queue@ == seq![QueuedTrack { user_added: false, ..q }] + s0.manual_queue@,
                None => s1.manual_queue@ == s0.manual_queue@,
            }
        })
}

/// `Shift+Left`: plays the last track of the history again, keeping the
/// list's context; what played now goes to the head of the manual queue.
pub fn handle_prev_track(state: &mut AppState, data: &mut AppData) -> (r: Option<PlayerRequest>)
    ensures
        prev_track_effect(*old(state), *old(data), *final(state), r),
{
    if state.current_playing_index.is_none() {
        return None;
    }
    let prev = match state.playback_history.pop() {
        Some(p) => p,
        None => return None,
    };
    let e = queued_from_current(state, data);
    let ghost g = e;
    if let Some(cur) = e {
        let mut cur = cur;
        cur.user_added = false;
        state.manual_queue.push_front(cur);
    }
    let t = play_queued_track(prev, state, data, true);
    assert(current_entry_matches(*old(state), *old(data), g));
    Some(PlayerRequest::Play(t))
}

/// Going back right after skipping forward plays the track that was
/// playing before the skip: `handle_next_track` pushes what played onto the
/// history, and `handle_prev_track` plays the history's last entry.
pub proof fn lemma_prev_after_next_returns(
    before: AppState,
    before_data: AppData,
    after_next: AppState,
    entry: QueuedTrack,
    prev_result: Option<PlayerRequest>,
)
    requires
        current_entry_matches(before, before_data, Some(entry)),
        after_next.playback_history@ == before.playback_history@.push(entry),
        after_next.current_playing_index is Some,
        prev_result == Some(PlayerRequest::Play(after_next.playback_history@.last().track)),
    ensures
        prev_result == Some(PlayerRequest::Play(entry.track)),
        before.override_playing is None ==> entry.track == active_list(before, before_data)[before.current_playing_index->0 as int],
{
}

/// `Shift+Right` then `Shift+Left` plays again what was playing: whenever
/// skipping forward starts a track while an entry plays, going back right
/// after plays that entry's track and leaves the history as it was before
/// the skip.
pub proof fn lemma_next_then_prev_plays_again(
    s0: AppState,
    d0: AppData,
    entry: QueuedTrack,
    s1: AppState,
    d1: AppData,
    r1: Option<PlayerRequest>,
    s2: AppState,
    r2: Option<PlayerRequest>,
)
    requires
        current_entry_matches(s0, d0, Some(entry)),
        next_track_effect(s0, d0, s1, r1),
        r1 is Some,
        prev_track_effect(s1, d1, s2, r2),
    ensures
        r2 == Some(PlayerRequest::Play(entry.track)),
        s2.playback_history@ == s0.playback_history@,
{
    assert(s0.current_playing_index is Some);
    let e = choose|e: Option<QueuedTrack>| #[trigger] current_entry_matches(s0, d0, e) && match e {
        Some(q) => s1.playback_history@ == s0.playback_history@.push(q),
        None => s1.playback_history@ == s0.playback_history@,
    };
    assert(current_entry_matches(s0, d0, e));
    assert(e is Some);
    let q = e->0;
    assert(q.track == entry.track);
    assert(s1.playback_history@ == s0.playback_history@.push(q));
    assert(s1.playback_history@.drop_last() =~= s0.playback_history@);
}

} // verus!
