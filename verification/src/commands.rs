use vstd::prelude::*;

use crate::control::{active_tracks, PlayerRequest, PlayerStatus};
use crate::engagement::{enqueue_like_follow_selected, expected_engagement, is_search_active, marks_after};
use crate::input::{character_destination, handle_add_next_to_queue, handle_add_to_queue, handle_backspace, handle_enter,
    handle_next_track, handle_prev_track, handle_search_char, handle_search_submit, handle_space, handle_tab_switch,
    enter_target, next_track_effect, prev_track_effect, selected_entry_spec, started, CharacterDestination, InputOutcome};
use crate::navigation::{handle_move_key, move_key_effect};
use crate::queue::{build_queue, is_built_queue, lemma_built_queue_contents, queue_candidate};
use crate::search::build_search_matches;
use crate::session::{AppData, AppState, keeps_lists, keeps_playback};
use crate::state::{FollowingTracksFocus, QueuedTrack};

verus! {

/// The keys the interface reacts to.
#[derive(Clone, Copy, Debug, PartialEq, Eq, Structural)]
pub enum KeyCode {
    Esc,
    Tab,
    Right,
    Left,
    Down,
    Up,
    Char(char),
    Backspace,
    Enter,
    Other,
}

/// A key press with its modifiers.
#[derive(Clone, Copy, Debug, PartialEq, Eq, Structural)]
pub struct KeyInput {
    pub code: KeyCode,
    pub shift: bool,
    pub alt: bool,
}

/// `Shift+S`: toggles shuffle; while a list plays, its automatic queue is
/// rebuilt in the new mode.
pub fn toggle_shuffle(state: &mut AppState, data: &AppData)
    ensures
        final(state).shuffle_enabled == !old(state).shuffle_enabled,
        old(state).current_playing_index matches Some(i) ==>
            is_built_queue(final(state).auto_queue@, i, crate::control::active_list(*old(state), *data), final(state).shuffle_enabled),
        old(state).current_playing_index is None ==> final(state).auto_queue@ == old(state).auto_queue@,
        final(state).current_playing_index == old(state).current_playing_index,
        final(state).manual_queue@ == old(state).manual_queue@,
        final(state).repeat_enabled == old(state).repeat_enabled,
        final(state).playback_source == old(state).playback_source,
{
    state.shuffle_enabled = !state.shuffle_enabled;
    if let Some(current_idx) = state.current_playing_index {
        let q = build_queue(current_idx, active_tracks(state, data), state.shuffle_enabled);
        state.auto_queue = q;
    }
}

/// `Shift+Q`: shows or hides the queue; showing it builds the automatic
/// queue of the playing list when that queue is empty.
pub fn toggle_queue_view(state: &mut AppState, data: &AppData)
    ensures
        keeps_playback(*old(state), *final(state)),
        final(state).queue_visible == !old(state).queue_visible,
        final(state).queue_visible && old(state).auto_queue@.len() == 0 && old(state).current_playing_index is Some ==>
            is_built_queue(final(state).auto_queue@, old(state).current_playing_index->0, crate::control::active_list(*old(state), *data), old(state).shuffle_enabled),
        !(final(state).queue_visible && old(state).auto_queue@.len() == 0 && old(state).current_playing_index is Some) ==>
            final(state).auto_queue@ == old(state).auto_queue@,
{
    state.queue_visible = !state.queue_visible;
    if state.queue_visible {
        if let Some(current_idx) = state.current_playing_index {
            if state.auto_queue.len() == 0 {
                let q = build_queue(current_idx, active_tracks(state, data), state.shuffle_enabled);
                state.auto_queue = q;
            }
        }
    }
}

/// `Shift+F` in the library: opens the find box with an empty query.
pub fn open_find(state: &mut AppState, data: &AppData)
    ensures
        keeps_playback(*old(state), *final(state)),
        old(state).selected_tab == 0 ==> final(state).search_popup_visible && final(state).search_query@.len() == 0,
        old(state).selected_tab != 0 ==> final(state).search_popup_visible == old(state).search_popup_visible
            && final(state).search_query == old(state).search_query,
{
    if state.selected_tab == 0 {
        state.search_popup_visible = true;
        state.search_query = String::new();
        state.search_matches = build_search_matches(state.selected_subtab, state.search_query.as_str(), &data.likes, &data.playlists,
            &data.playlist_tracks, &data.albums, &data.following);
    }
}

/// `Shift+J`: moves the liked-tracks pane of a followed user down one row and focuses it.
fn likes_pane_down(state: &mut AppState, data: &mut AppData)
    ensures
        keeps_playback(*old(state), *final(state)),
        keeps_lists(*final(data), *old(data)),
        old(state).selected_tab == 0 && old(state).selected_subtab == 3 && old(state).selected_following_like_row + 1 < old(data).following_likes_tracks@.len() ==>
            final(state).selected_following_like_row == old(state).selected_following_like_row + 1 && final(state).following_tracks_focus == FollowingTracksFocus::Likes,
        old(state).selected_tab == 1 && old(state).selected_searchfilter == 3 && old(state).search_selected_person_like_row + 1 < old(data).search_people_likes_tracks@.len() ==>
            final(state).search_selected_person_like_row == old(state).search_selected_person_like_row + 1 && final(state).search_people_tracks_focus == FollowingTracksFocus::Likes,
{
    if state.selected_tab == 0 && state.selected_subtab == 3 {
        let n = data.following_likes_tracks.len();
        if n > 0 && state.selected_following_like_row < n - 1 {
            state.selected_following_like_row = state.selected_following_like_row + 1;
            state.following_tracks_focus = FollowingTracksFocus::Likes;
            data.following_likes_state.select(Some(state.selected_following_like_row));
        }
    } else if state.selected_tab == 1 && state.selected_searchfilter == 3 {
        let n = data.search_people_likes_tracks.len();
        if n > 0 && state.search_selected_person_like_row < n - 1 {
            state.search_selected_person_like_row = state.search_selected_person_like_row + 1;
            state.search_people_tracks_focus = FollowingTracksFocus::Likes;
            data.search_people_likes_state.select(Some(state.search_selected_person_like_row));
        }
    }
}

/// `Shift+K`: moves the liked-tracks pane of a followed user up one row and focuses it.
fn likes_pane_up(state: &mut AppState, data: &mut AppData)
    ensures
        keeps_playback(*old(state), *final(state)),
        keeps_lists(*final(data), *old(data)),
        old(state).selected_tab == 0 && old(state).selected_subtab == 3 && old(state).selected_following_like_row > 0 ==>
            final(state).selected_following_like_row == old(state).selected_following_like_row - 1 && final(state).following_tracks_focus == FollowingTracksFocus::Likes,
        old(state).selected_tab == 1 && old(state).selected_searchfilter == 3 && old(state).search_selected_person_like_row > 0 ==>
            final(state).search_selected_person_like_row == old(state).search_selected_person_like_row - 1 && final(state).search_people_tracks_focus == FollowingTracksFocus::Likes,
{
    if state.selected_tab == 0 && state.selected_subtab == 3 {
        if state.selected_following_like_row > 0 {
            state.selected_following_like_row = state.selected_following_like_row - 1;
            state.following_tracks_focus = FollowingTracksFocus::Likes;
            data.following_likes_state.select(Some(state.selected_following_like_row));
        }
    } else if state.selected_tab == 1 && state.selected_searchfilter == 3 {
        if state.search_selected_person_like_row > 0 {
            state.search_selected_person_like_row = state.search_selected_person_like_row - 1;
            state.search_people_tracks_focus = FollowingTracksFocus::Likes;
            data.search_people_likes_state.select(Some(state.search_selected_person_like_row));
        }
    }
}

/// The letters of the shifted commands that change the interface state.
pub open spec fn is_state_command(c: char) -> bool {
    c == 's' || c == 'S' || c == 'r' || c == 'R' || c == 'a' || c == 'A' || c == 'n' || c == 'N'
        || c == 'l' || c == 'L' || c == 'f' || c == 'F' || c == 'h' || c == 'H' || c == 'v' || c == 'V'
        || c == 'q' || c == 'Q' || c == 'j' || c == 'J' || c == 'k' || c == 'K'
}

/// What a shifted command key does, from state `s0`, `d0` to `s1`, `d1`,
/// answering `r`: `U`/`D` ask for volume and change nothing; `S` toggles
/// shuffle and rebuilds the playing list's automatic queue in the new mode;
/// `R`, `H`, `V` toggle repeat, help and the visualizer and nothing else;
/// `A`/`N` queue the selection last/next; `L` queues a like or follow of
/// the selection; `F` opens the find box in the library; `Q` toggles the
/// queue view, building an empty automatic queue on show; `J`/`K` move in
/// the liked-tracks pane of a user. Other letters change nothing, and no
/// command changes what plays or from where.
pub open spec fn shift_char_effect(c: char, s0: AppState, d0: AppData, s1: AppState, d1: AppData, r: Option<PlayerRequest>) -> bool {
    &&& r == shift_command_request(c)
    &&& (!is_state_command(c) ==> s1 == s0 && d1 == d0)
    &&& ((c == 's' || c == 'S') ==> {
        &&& s1.shuffle_enabled == !s0.shuffle_enabled
        &&& (s0.current_playing_index matches Some(i) ==>
            is_built_queue(s1.auto_queue@, i, crate::control::active_list(s0, d0), s1.shuffle_enabled))
        &&& (s0.current_playing_index is None ==> s1.auto_queue@ == s0.auto_queue@)
        &&& s1.manual_queue@ == s0.manual_queue@
        &&& s1.repeat_enabled == s0.repeat_enabled
        &&& d1 == d0
    })
    &&& (!(c == 's' || c == 'S') ==> s1.shuffle_enabled == s0.shuffle_enabled)
    &&& ((c == 'r' || c == 'R') ==> s1 == (AppState { repeat_enabled: !s0.repeat_enabled, ..s0 }) && d1 == d0)
    &&& (!(c == 'r' || c == 'R') ==> s1.repeat_enabled == s0.repeat_enabled)
    &&& ((c == 'h' || c == 'H') ==> s1 == (AppState { help_visible: !s0.help_visible, ..s0 }) && d1 == d0)
    &&& ((c == 'v' || c == 'V') ==> s1 == (AppState { visualizer_mode: !s0.visualizer_mode, ..s0 }) && d1 == d0)
    &&& ((c == 'q' || c == 'Q') ==> {
        &&& s1.queue_visible == !s0.queue_visible
        &&& (s1.queue_visible && s0.auto_queue@.len() == 0 && s0.current_playing_index is Some ==>
            is_built_queue(s1.auto_queue@, s0.current_playing_index->0, crate::control::active_list(s0, d0), s0.shuffle_enabled))
        &&& (!(s1.queue_visible && s0.auto_queue@.len() == 0 && s0.current_playing_index is Some) ==>
            s1.auto_queue@ == s0.auto_queue@)
        &&& d1 == d0
    })
    &&& ((c == 'a' || c == 'A') ==> exists|q: Option<QueuedTrack>| #[trigger] selected_entry_spec(s0, d0, q) && match q {
        Some(e) => s1.manual_queue@ == s0.manual_queue@.push(e),
        None => s1.manual_queue@ == s0.manual_queue@,
    })
    &&& ((c == 'n' || c == 'N') ==> exists|q: Option<QueuedTrack>| #[trigger] selected_entry_spec(s0, d0, q) && match q {
        Some(e) => s1.manual_queue@ == seq![e] + s0.manual_queue@,
        None => s1.manual_queue@ == s0.manual_queue@,
    })
    &&& ((c == 'l' || c == 'L') ==> match expected_engagement(s0, d0) {
        Some(a) => s1.engagement_queue@ == s0.engagement_queue@.push(a) && marks_after(d0, d1, a),
        None => s1.engagement_queue@ == s0.engagement_queue@,
    })
    &&& ((c == 'f' || c == 'F') && s0.selected_tab == 0 ==> s1.search_popup_visible && s1.search_query@.len() == 0)
    &&& ((c == 'f' || c == 'F') && s0.selected_tab != 0 ==> s1.search_popup_visible == s0.search_popup_visible
        && s1.search_query == s0.search_query)
    &&& ((c == 'j' || c == 'J') && s0.selected_tab == 0 && s0.selected_subtab == 3
        && s0.selected_following_like_row + 1 < d0.following_likes_tracks@.len() ==>
        s1.selected_following_like_row == s0.selected_following_like_row + 1
        && s1.following_tracks_focus == FollowingTracksFocus::Likes)
    &&& ((c == 'j' || c == 'J') && s0.selected_tab == 1 && s0.selected_searchfilter == 3
        && s0.search_selected_person_like_row + 1 < d0.search_people_likes_tracks@.len() ==>
        s1.search_selected_person_like_row == s0.search_selected_person_like_row + 1
        && s1.search_people_tracks_focus == FollowingTracksFocus::Likes)
    &&& ((c == 'k' || c == 'K') && s0.selected_tab == 0 && s0.selected_subtab == 3 && s0.selected_following_like_row > 0 ==>
        s1.selected_following_like_row == s0.selected_following_like_row - 1
        && s1.following_tracks_focus == FollowingTracksFocus::Likes)
    &&& ((c == 'k' || c == 'K') && s0.selected_tab == 1 && s0.selected_searchfilter == 3 && s0.search_selected_person_like_row > 0 ==>
        s1.search_selected_person_like_row == s0.search_selected_person_like_row - 1
        && s1.search_people_tracks_focus == FollowingTracksFocus::Likes)
    &&& s1.current_playing_index == s0.current_playing_index
    &&& s1.playback_source == s0.playback_source
}

/// The shifted commands: volume, shuffle, repeat, queueing, like/follow,
/// find, help, visualizer, queue view, and the liked-tracks pane of users.
pub fn handle_shift_char(c: char, state: &mut AppState, data: &mut AppData) -> (r: Option<PlayerRequest>)
    ensures
        shift_char_effect(c, *old(state), *old(data), *final(state), *final(data), r),
{
    if c == 'u' || c == 'U' {
        return Some(PlayerRequest::VolumeUp);
    }
    if c == 'd' || c == 'D' {
        return Some(PlayerRequest::VolumeDown);
    }
    if c == 's' || c == 'S' {
        toggle_shuffle(state, data);
    } else if c == 'r' || c == 'R' {
        state.repeat_enabled = !state.repeat_enabled;
    } else if c == 'a' || c == 'A' {
        handle_add_to_queue(state, data);
    } else if c == 'n' || c == 'N' {
        handle_add_next_to_queue(state, data);
    } else if c == 'l' || c == 'L' {
        enqueue_like_follow_selected(state, data);
    } else if c == 'f' || c == 'F' {
        open_find(state, data);
    } else if c == 'h' || c == 'H' {
        state.help_visible = !state.help_visible;
    } else if c == 'v' || c == 'V' {
        state.visualizer_mode = !state.visualizer_mode;
    } else if c == 'q' || c == 'Q' {
        toggle_queue_view(state, data);
    } else if c == 'j' || c == 'J' {
        likes_pane_down(state, data);
    } else if c == 'k' || c == 'K' {
        likes_pane_up(state, data);
    }
    None
}

/// What a shifted command key asks of the player: only the volume keys
/// ask anything.
pub open spec fn shift_command_request(c: char) -> Option<PlayerRequest> {
    if c == 'u' || c == 'U' {
        Some(PlayerRequest::VolumeUp)
    } else if c == 'd' || c == 'D' {
        Some(PlayerRequest::VolumeDown)
    } else {
        None
    }
}

/// What an unshifted character asks of the player in the library: `Space`
/// pauses what plays and resumes what is paused.
pub open spec fn library_char_request(c: char, is_playing: bool) -> Option<PlayerRequest> {
    if c == ' ' {
        Some(if is_playing { PlayerRequest::Pause } else { PlayerRequest::Resume })
    } else {
        None
    }
}

/// A character key: query text on the search tab, a command when shifted,
/// and `Space` in the library.
pub fn handle_char(c: char, shift: bool, is_playing: bool, state: &mut AppState, data: &mut AppData) -> (r: (InputOutcome, Option<PlayerRequest>))
    ensures
        r.0 == InputOutcome::Continue,
        old(state).selected_tab == 1 ==> final(state).query@ == old(state).query@.push(c) && r.1 is None,
        old(state).selected_tab != 1 && shift ==> shift_char_effect(c, *old(state), *old(data), *final(state), *final(data), r.1),
        old(state).selected_tab == 0 && !shift ==> r.1 == library_char_request(c, is_playing) && *final(state) == *old(state),
        old(state).selected_tab > 1 && !shift ==> r.1 is None && *final(state) == *old(state),
{
    match character_destination(state.selected_tab, shift) {
        CharacterDestination::SearchInput => (handle_search_char(c, state), None),
        CharacterDestination::ShiftCommand => (InputOutcome::Continue, handle_shift_char(c, state, data)),
        CharacterDestination::LibraryCommand => (InputOutcome::Continue, handle_space(c, is_playing)),
        CharacterDestination::Ignore => (InputOutcome::Continue, None),
    }
}

/// Switches the library section (forwards or backwards), keeping each
/// collection's row, and refreshes the find matches when a find query is active.
fn switch_section(forward: bool, state: &mut AppState, data: &mut AppData)
    requires
        old(state).selected_tab == 0,
        old(state).selected_subtab < 4,
    ensures
        final(state).selected_subtab == (if forward { (old(state).selected_subtab + 1) % 4 } else if old(state).selected_subtab == 0 { 3 } else { old(state).selected_subtab - 1 }),
        final(state).selected_tab == 0,
        keeps_lists(*final(data), *old(data)),
{
    if state.selected_subtab == 1 {
        state.selected_playlist_row = state.selected_row;
    }
    if state.selected_subtab == 2 {
        state.selected_album_row = state.selected_row;
    }
    state.selected_subtab = if forward { (state.selected_subtab + 1) % 4 } else if state.selected_subtab == 0 { 3 } else { state.selected_subtab - 1 };
    if state.selected_subtab == 1 {
        state.selected_row = state.selected_playlist_row;
        data.playlists_state.select(Some(state.selected_row));
    } else if state.selected_subtab == 2 {
        state.selected_row = state.selected_album_row;
        data.albums_state.select(Some(state.selected_row));
    } else {
        state.selected_row = 0;
    }
    if is_search_active(state) {
        state.search_matches = build_search_matches(state.selected_subtab, state.search_query.as_str(), &data.likes, &data.playlists,
            &data.playlist_tracks, &data.albums, &data.following);
        state.selected_row = 0;
        if state.selected_subtab == 0 {
            data.likes_state.select(Some(0));
        } else if state.selected_subtab == 1 {
            state.selected_playlist_track_row = 0;
            data.playlist_tracks_state.select(Some(0));
        } else if state.selected_subtab == 2 {
            state.selected_album_row = 0;
            data.albums_state.select(Some(0));
        } else if state.selected_subtab == 3 {
            data.following_state.select(Some(0));
        }
    }
}

/// Switches the search filter (forwards or backwards); results go back to
/// the top and a search is due.
fn switch_filter(forward: bool, state: &mut AppState, data: &mut AppData)
    requires
        old(state).selected_searchfilter < 4,
    ensures
        final(state).selected_searchfilter == (if forward { (old(state).selected_searchfilter + 1) % 4 } else if old(state).selected_searchfilter == 0 { 3 } else { old(state).selected_searchfilter - 1 }),
        final(state).selected_row == 0,
        final(state).search_needs_fetch,
        final(state).search_people_tracks_focus == FollowingTracksFocus::Published,
        keeps_lists(*final(data), *old(data)),
{
    state.selected_searchfilter = if forward { (state.selected_searchfilter + 1) % 4 } else if state.selected_searchfilter == 0 { 3 } else { state.selected_searchfilter - 1 };
    state.selected_row = 0;
    state.search_selected_playlist_track_row = 0;
    state.search_selected_album_track_row = 0;
    state.search_selected_person_track_row = 0;
    state.search_selected_person_like_row = 0;
    state.search_people_tracks_focus = FollowingTracksFocus::Published;
    state.search_needs_fetch = true;
    data.search_tracks_state.select(Some(0));
    data.search_albums_state.select(Some(0));
    data.search_playlists_state.select(Some(0));
    data.search_people_state.select(Some(0));
}

/// `Right` (when `forward`) or `Left`: with Alt, seek ten seconds while
/// something plays or is chosen; with Shift, the next or previous track;
/// otherwise the next or previous section, search filter, or feed pane.
pub fn handle_side_key(forward: bool, shift: bool, alt: bool, is_playing: bool, state: &mut AppState, data: &mut AppData) -> (r: Option<PlayerRequest>)
    requires
        old(state).selected_subtab < 4,
        old(state).selected_searchfilter < 4,
    ensures
        alt ==> r == (if is_playing || old(state).current_playing_index is Some {
            Some(if forward { PlayerRequest::FastForward } else { PlayerRequest::Rewind })
        } else { None }),
        !alt && !shift ==> r is None,
        !alt && !shift && old(state).selected_tab == 0 ==>
            final(state).selected_subtab == (if forward { (old(state).selected_subtab + 1) % 4 } else if old(state).selected_subtab == 0 { 3 } else { old(state).selected_subtab - 1 }),
        !alt && !shift && old(state).selected_tab == 1 ==>
            final(state).selected_searchfilter == (if forward { (old(state).selected_searchfilter + 1) % 4 } else if old(state).selected_searchfilter == 0 { 3 } else { old(state).selected_searchfilter - 1 }),
        !alt && !shift && old(state).selected_tab == 2 ==> final(state).info_pane_selected == !old(state).info_pane_selected,
        !alt && shift && forward ==> next_track_effect(*old(state), *old(data), *final(state), r),
        !alt && shift && !forward ==> prev_track_effect(*old(state), *old(data), *final(state), r),
{
    if alt {
        if is_playing || state.current_playing_index.is_some() {
            return Some(if forward { PlayerRequest::FastForward } else { PlayerRequest::Rewind });
        }
        return None;
    }
    if shift {
        return if forward { handle_next_track(state, data) } else { handle_prev_track(state, data) };
    }
    if state.selected_tab == 0 {
        switch_section(forward, state, data);
    } else if state.selected_tab == 1 {
        switch_filter(forward, state, data);
    } else if state.selected_tab == 2 {
        state.info_pane_selected = !state.info_pane_selected;
    }
    None
}

/// Dispatches a key press outside the quit dialog and the find box. While
/// the visualizer shows, `Tab` switches its view; while the player seeks,
/// keys are ignored; `Esc` opens the quit dialog with "no" selected.
pub fn handle_key_event(key: KeyInput, player: &PlayerStatus, state: &mut AppState, data: &mut AppData) -> (r: (InputOutcome, Option<PlayerRequest>))
    requires
        old(state).selected_tab < 3,
        old(state).selected_subtab < 4,
        old(state).selected_searchfilter < 4,
    ensures
        r.0 == InputOutcome::Continue,
        old(state).visualizer_mode && key.code == KeyCode::Tab ==> final(state).visualizer_view != old(state).visualizer_view && r.1 is None,
        !(old(state).visualizer_mode && key.code == KeyCode::Tab) && player.is_seeking ==> r.1 is None
            && *final(state) == *old(state),
        !player.is_seeking && key.code == KeyCode::Other ==> r.1 is None && *final(state) == *old(state),
        !(old(state).visualizer_mode && key.code == KeyCode::Tab) && !player.is_seeking && key.code == KeyCode::Esc ==>
            final(state).quit_confirm_visible && final(state).quit_confirm_selected == 1,
        !old(state).visualizer_mode && !player.is_seeking && key.code == KeyCode::Tab ==>
            final(state).selected_tab == (old(state).selected_tab + 1) % 3 && final(state).selected_row == 0 && r.1 is None,
        !player.is_seeking && old(state).selected_tab == 1 && key.code is Char ==>
            final(state).query@ == old(state).query@.push(key.code->Char_0) && r.1 is None,
        !player.is_seeking && key.alt && (key.code == KeyCode::Right || key.code == KeyCode::Left) ==>
            r.1 == (if player.is_playing || old(state).current_playing_index is Some {
                Some(if key.code == KeyCode::Right { PlayerRequest::FastForward } else { PlayerRequest::Rewind })
            } else { None }),
        !player.is_seeking && key.code == KeyCode::Enter && old(state).selected_tab == 1 && old(state).search_input_focused ==>
            r.1 is None && final(state).query == old(state).query,
        !player.is_seeking && key.code == KeyCode::Enter && !(old(state).selected_tab == 1 && old(state).search_input_focused) ==>
            match enter_target(*old(state), *old(data)) {
                Some(t) => r.1 matches Some(p) && started(*old(state), *old(data), *final(state), *final(data), t, p),
                None => r.1 is None && final(state).current_playing_index == old(state).current_playing_index,
            },
        !player.is_seeking && key.code is Char && old(state).selected_tab != 1 && key.shift ==>
            shift_char_effect(key.code->Char_0, *old(state), *old(data), *final(state), *final(data), r.1),
        !player.is_seeking && key.code is Char && old(state).selected_tab == 0 && !key.shift ==>
            r.1 == library_char_request(key.code->Char_0, player.is_playing) && *final(state) == *old(state),
        !player.is_seeking && key.code == KeyCode::Backspace ==> r.1 is None,
        !player.is_seeking && key.code == KeyCode::Backspace && old(state).selected_tab == 1 ==>
            final(state).query@ == (if old(state).query@.len() == 0 { old(state).query@ } else { old(state).query@.drop_last() }),
        !player.is_seeking && (key.code == KeyCode::Down || key.code == KeyCode::Up) ==> r.1 is None
            && move_key_effect(*old(state), *old(data), *final(state), *final(data), key.code == KeyCode::Down, key.shift, key.alt),
        !player.is_seeking && !key.alt && !key.shift && (key.code == KeyCode::Right || key.code == KeyCode::Left) ==> r.1 is None,
        !player.is_seeking && !key.alt && !key.shift && key.code == KeyCode::Right && old(state).selected_tab == 0 ==>
            final(state).selected_subtab == (old(state).selected_subtab + 1) % 4,
        !player.is_seeking && !key.alt && !key.shift && key.code == KeyCode::Right && old(state).selected_tab == 1 ==>
            final(state).selected_searchfilter == (old(state).selected_searchfilter + 1) % 4,
        !player.is_seeking && !key.alt && !key.shift && key.code == KeyCode::Left && old(state).selected_tab == 0 ==>
            final(state).selected_subtab == (if old(state).selected_subtab == 0 { 3 } else { old(state).selected_subtab - 1 }),
        !player.is_seeking && !key.alt && !key.shift && key.code == KeyCode::Left && old(state).selected_tab == 1 ==>
            final(state).selected_searchfilter == (if old(state).selected_searchfilter == 0 { 3 } else { old(state).selected_searchfilter - 1 }),
        !player.is_seeking && !key.alt && !key.shift && (key.code == KeyCode::Right || key.code == KeyCode::Left)
            && old(state).selected_tab == 2 ==> final(state).info_pane_selected == !old(state).info_pane_selected,
        !player.is_seeking && !key.alt && key.shift && key.code == KeyCode::Right ==>
            next_track_effect(*old(state), *old(data), *final(state), r.1),
        !player.is_seeking && !key.alt && key.shift && key.code == KeyCode::Left ==>
            prev_track_effect(*old(state), *old(data), *final(state), r.1),
{
    if state.visualizer_mode && key.code == KeyCode::Tab {
        state.visualizer_view = state.visualizer_view.next();
        return (InputOutcome::Continue, None);
    }
    if player.is_seeking {
        return (InputOutcome::Continue, None);
    }
    match key.code {
        KeyCode::Esc => {
            state.quit_confirm_visible = true;
            state.quit_confirm_selected = 1;
            (InputOutcome::Continue, None)
        },
        KeyCode::Tab => (handle_tab_switch(state), None),
        KeyCode::Right => (InputOutcome::Continue, handle_side_key(true, key.shift, key.alt, player.is_playing, state, data)),
        KeyCode::Left => (InputOutcome::Continue, handle_side_key(false, key.shift, key.alt, player.is_playing, state, data)),
        KeyCode::Down => (handle_move_key(true, key.shift, key.alt, state, data), None),
        KeyCode::Up => (handle_move_key(false, key.shift, key.alt, state, data), None),
        KeyCode::Char(c) => handle_char(c, key.shift, player.is_playing, state, data),
        KeyCode::Backspace => (handle_backspace(state), None),
        KeyCode::Enter => {
            if handle_search_submit(state) {
                (InputOutcome::Continue, None)
            } else {
                (InputOutcome::Continue, handle_enter(state, data))
            }
        },
        KeyCode::Other => (InputOutcome::Continue, None),
    }
}

/// `Shift+S` pressed twice while a list plays returns to the unshuffled
/// order: shuffle is off again and the automatic queue is every playable
/// track after the current one, each once, in list order; in between, the
/// shuffled queue held every other playable track of the list.
pub proof fn lemma_shuffle_twice_restores_order(
    s0: AppState,
    d0: AppData,
    s1: AppState,
    d1: AppData,
    r1: Option<PlayerRequest>,
    s2: AppState,
    d2: AppData,
    r2: Option<PlayerRequest>,
)
    requires
        shift_char_effect('S', s0, d0, s1, d1, r1),
        shift_char_effect('S', s1, d1, s2, d2, r2),
        !s0.shuffle_enabled,
        s0.current_playing_index is Some,
        crate::control::active_list(s0, d0).len() <= usize::MAX,
    ensures
        !s2.shuffle_enabled,
        forall|i: usize| #[trigger] s1.auto_queue@.contains(i) <==> queue_candidate(
            crate::control::active_list(s0, d0), s0.current_playing_index->0, i, true),
        forall|i: usize| #[trigger] s2.auto_queue@.contains(i) <==> queue_candidate(
            crate::control::active_list(s0, d0), s0.current_playing_index->0, i, false),
        s2.auto_queue@.no_duplicates(),
        forall|a: int, b: int| 0 <= a < b < s2.auto_queue@.len() ==> #[trigger] s2.auto_queue@[a] < #[trigger] s2.auto_queue@[b],
{
    let cur = s0.current_playing_index->0;
    let tracks = crate::control::active_list(s0, d0);
    assert(crate::control::active_list(s1, d1) == tracks);
    lemma_built_queue_contents(s1.auto_queue@, cur, tracks, true);
    lemma_built_queue_contents(s2.auto_queue@, cur, tracks, false);
}

} // verus!
