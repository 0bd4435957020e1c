use vstd::prelude::*;

use crate::commands::{KeyCode, KeyInput};
use crate::input::InputOutcome;
use crate::search::build_search_matches;
use crate::session::{AppData, AppState, keeps_playback};
use crate::text::{chars_of_string, push_char, string_of};

verus! {

/// The quit dialog: `Left`/`Right` move between "yes" (0) and "no" (1),
/// `Enter` quits on "yes" and closes the dialog on "no", `y` quits, and
/// `n` or `Esc` closes it. Other keys do nothing while it shows.
pub fn handle_quit_confirm(code: KeyCode, state: &mut AppState) -> (r: InputOutcome)
    ensures
        r == InputOutcome::Quit <==> (code == KeyCode::Char('y')
            || (code == KeyCode::Enter && old(state).quit_confirm_selected == 0)),
        (code == KeyCode::Left || code == KeyCode::Right) ==> final(state).quit_confirm_visible == old(state).quit_confirm_visible
            && final(state).quit_confirm_selected == (if old(state).quit_confirm_selected == 0 { 1usize } else { 0usize }),
        (code == KeyCode::Esc || code == KeyCode::Char('n') || (code == KeyCode::Enter && old(state).quit_confirm_selected != 0))
            ==> !final(state).quit_confirm_visible,
        keeps_playback(*old(state), *final(state)),
{
    match code {
        KeyCode::Left | KeyCode::Right => {
            state.quit_confirm_selected = if state.quit_confirm_selected == 0 { 1 } else { 0 };
            InputOutcome::Continue
        },
        KeyCode::Char('y') => InputOutcome::Quit,
        KeyCode::Enter => {
            if state.quit_confirm_selected == 0 {
                InputOutcome::Quit
            } else {
                state.quit_confirm_visible = false;
                InputOutcome::Continue
            }
        },
        KeyCode::Esc | KeyCode::Char('n') => {
            state.quit_confirm_visible = false;
            InputOutcome::Continue
        },
        _ => InputOutcome::Continue,
    }
}

/// Recomputes the find matches of the library section for the current query
/// and returns the selection to the first match.
fn refresh_matches(state: &mut AppState, data: &AppData)
    ensures
        keeps_playback(*old(state), *final(state)),
        final(state).search_query == old(state).search_query,
        final(state).search_popup_visible == old(state).search_popup_visible,
        final(state).selected_tab == old(state).selected_tab,
        final(state).selected_row == 0,
        final(state).selected_playlist_track_row == 0,
{
    state.search_matches = build_search_matches(state.selected_subtab, state.search_query.as_str(), &data.likes, &data.playlists,
        &data.playlist_tracks, &data.albums, &data.following);
    state.selected_row = 0;
    state.selected_playlist_track_row = 0;
}

/// Keys while the find box shows: typed characters extend the query and
/// `Backspace` shortens it, both refreshing the matches; `Esc` closes the
/// box and clears its query. Every other key (`Enter` among them) is left to
/// the ordinary handling, which then works on the matches.
pub fn handle_find_input(key: KeyInput, state: &mut AppState, data: &AppData) -> (r: Option<InputOutcome>)
    ensures
        keeps_playback(*old(state), *final(state)),
        r is None ==> *final(state) == *old(state),
        r matches Some(o) ==> o == InputOutcome::Continue,
        key.code matches KeyCode::Char(c) ==> r is Some
            && final(state).search_query@ == old(state).search_query@.push(c) && final(state).search_popup_visible,
        key.code == KeyCode::Backspace ==> r is Some && final(state).search_popup_visible
            && final(state).search_query@ == (if old(state).search_query@.len() == 0 { old(state).search_query@ }
                else { old(state).search_query@.drop_last() }),
        key.code == KeyCode::Esc ==> r is Some && !final(state).search_popup_visible
            && final(state).search_query@.len() == 0 && final(state).search_matches@.len() == 0,
        !(key.code is Char || key.code == KeyCode::Backspace || key.code == KeyCode::Esc) ==> r is None,
{
    match key.code {
        KeyCode::Char(c) => {
            state.search_popup_visible = true;
            push_char(&mut state.search_query, c);
            refresh_matches(state, data);
            Some(InputOutcome::Continue)
        },
        KeyCode::Backspace => {
            state.search_popup_visible = true;
            let mut chars = chars_of_string(&state.search_query);
            if chars.len() > 0 {
                chars.pop();
                state.search_query = string_of(&chars);
            }
            refresh_matches(state, data);
            Some(InputOutcome::Continue)
        },
        KeyCode::Esc => {
            state.search_popup_visible = false;
            state.search_query = String::new();
            state.search_matches = Vec::new();
            Some(InputOutcome::Continue)
        },
        _ => None,
    }
}

/// `Ctrl-Q` quits at once, whatever shows.
pub fn quits_immediately(code: KeyCode, ctrl: bool) -> (r: bool)
    ensures
        r == (ctrl && (code == KeyCode::Char('q') || code == KeyCode::Char('Q'))),
{
    ctrl && (code == KeyCode::Char('q') || code == KeyCode::Char('Q'))
}

} // verus!
