use vstd::prelude::*;

use crate::control::{opt_is, opt_view};
use crate::engagement::{filter_active, is_filter_active};
use crate::filtering::{build_filtered_views, clamp_row, picked, FilteredViews};
use crate::ids::{trim_chars, trimmed};
use crate::models::{Album, Artist, Track};
use crate::session::{AppData, AppState, accept_tracks};
use crate::state::{clone_albums, clone_users, FollowingTracksFocus};
use crate::text::chars_of;

verus! {

/// Which copy of a nested list a fetch fills.
#[derive(Clone, Copy, Debug, PartialEq, Eq, Structural)]
pub enum Pane {
    Library,
    Search,
}

/// A fetch the interface asks for; its answer carries the request number.
#[derive(Debug)]
pub enum FetchRequest {
    PlaylistTracks { pane: Pane, request_id: u64, tracks_uri: String },
    AlbumTracks { pane: Pane, request_id: u64, tracks_uri: String },
    UserTracks { pane: Pane, request_id: u64, user_urn: String },
    UserLikes { pane: Pane, request_id: u64, user_urn: String },
    /// A search of the given filter (0 tracks, 1 albums, 2 playlists, 3 people).
    Search { request_id: u64, filter: usize, query: String },
}

/// The library's playlist tracks follow the selected playlist: when another
/// playlist is selected its tracks are fetched under a new request number
/// and the old ones cleared; with no playlist selected the pane is empty.
pub fn plan_library_playlist(state: &mut AppState, data: &mut AppData) -> (r: Option<FetchRequest>)
    requires
        old(state).selected_tab == 0 && old(state).selected_subtab == 1,
    ensures
        old(state).selected_row < old(data).playlists@.len() ==> {
            let uri = old(data).playlists@[old(state).selected_row as int].tracks_uri;
            if opt_view(old(data).playlist_tracks_uri) == Some(uri@) {
                r is None && final(state).playlist_tracks_request_id == old(state).playlist_tracks_request_id
            } else {
                &&& r == Some(FetchRequest::PlaylistTracks { pane: Pane::Library, request_id: final(state).playlist_tracks_request_id, tracks_uri: uri })
                &&& final(state).playlist_tracks_request_id == old(state).playlist_tracks_request_id.wrapping_add(1)
                &&& final(data).playlist_tracks_uri == Some(uri)
                &&& final(data).playlist_tracks@.len() == 0
                &&& final(state).selected_playlist_track_row == 0
            }
        },
        old(state).selected_row >= old(data).playlists@.len() ==> r is None
            && final(data).playlist_tracks@.len() == 0 && final(data).playlist_tracks_uri is None
            && final(state).selected_playlist_track_row == 0,
        final(data).playlist_tracks@.len() > 0 ==> final(state).selected_playlist_track_row < final(data).playlist_tracks@.len(),
        final(data).playlists@ == old(data).playlists@,
{
    let mut r: Option<FetchRequest> = None;
    if state.selected_row < data.playlists.len() {
        let uri = data.playlists[state.selected_row].tracks_uri.clone();
        if !opt_is(&data.playlist_tracks_uri, uri.as_str()) {
            state.playlist_tracks_request_id = state.playlist_tracks_request_id.wrapping_add(1);
            data.playlist_tracks_uri = Some(uri.clone());
            data.playlist_tracks = Vec::new();
            data.playlist_tracks_state.select(Some(0));
            state.selected_playlist_track_row = 0;
            r = Some(FetchRequest::PlaylistTracks { pane: Pane::Library, request_id: state.playlist_tracks_request_id, tracks_uri: uri });
        }
    } else {
        data.playlist_tracks = Vec::new();
        data.playlist_tracks_state.select(Some(0));
        data.playlist_tracks_uri = None;
        state.selected_playlist_track_row = 0;
    }
    let n = data.playlist_tracks.len();
    if n > 0 && state.selected_playlist_track_row >= n {
        state.selected_playlist_track_row = n - 1;
        data.playlist_tracks_state.select(Some(n - 1));
    }
    r
}

/// The library's album tracks follow the selected album of the (possibly
/// filtered) album list, as the playlist tracks do.
pub fn plan_library_album(state: &mut AppState, data: &mut AppData, albums_view: &Vec<Album>) -> (r: Option<FetchRequest>)
    ensures
        old(state).selected_row < albums_view@.len() ==> {
            let uri = albums_view@[old(state).selected_row as int].tracks_uri;
            if opt_view(old(data).album_tracks_uri) == Some(uri@) {
                r is None
            } else {
                &&& r == Some(FetchRequest::AlbumTracks { pane: Pane::Library, request_id: final(state).album_tracks_request_id, tracks_uri: uri })
                &&& final(state).album_tracks_request_id == old(state).album_tracks_request_id.wrapping_add(1)
                &&& final(data).album_tracks_uri == Some(uri)
                &&& final(data).album_tracks@.len() == 0
            }
        },
        old(state).selected_row >= albums_view@.len() ==> r is None && final(data).album_tracks@.len() == 0 && final(data).album_tracks_uri is None,
        final(data).album_tracks@.len() > 0 ==> final(state).selected_album_track_row < final(data).album_tracks@.len(),
{
    let mut r: Option<FetchRequest> = None;
    if state.selected_row < albums_view.len() {
        let uri = albums_view[state.selected_row].tracks_uri.clone();
        if !opt_is(&data.album_tracks_uri, uri.as_str()) {
            state.album_tracks_request_id = state.album_tracks_request_id.wrapping_add(1);
            data.album_tracks_uri = Some(uri.clone());
            data.album_tracks = Vec::new();
            data.album_tracks_state.select(Some(0));
            state.selected_album_track_row = 0;
            r = Some(FetchRequest::AlbumTracks { pane: Pane::Library, request_id: state.album_tracks_request_id, tracks_uri: uri });
        }
    } else {
        data.album_tracks = Vec::new();
        data.album_tracks_state.select(Some(0));
        data.album_tracks_uri = None;
        state.selected_album_track_row = 0;
    }
    let n = data.album_tracks.len();
    if n > 0 && state.selected_album_track_row >= n {
        state.selected_album_track_row = n - 1;
        data.album_tracks_state.select(Some(n - 1));
    }
    r
}

/// The fetches for a user's panes: the published tracks first, then the
/// liked ones, each only where it is asked for.
pub open spec fn user_requests(tracks_due: bool, tracks: FetchRequest, likes_due: bool, likes: FetchRequest) -> Seq<FetchRequest> {
    if tracks_due && likes_due {
        seq![tracks, likes]
    } else if tracks_due {
        seq![tracks]
    } else if likes_due {
        seq![likes]
    } else {
        Seq::empty()
    }
}

/// The panes of a followed user follow the selected user of the (possibly
/// filtered) list: their published and liked tracks are fetched, each under
/// its own request number, when another user is selected.
pub fn plan_library_user(state: &mut AppState, data: &mut AppData, users_view: &Vec<Artist>) -> (r: Vec<FetchRequest>)
    ensures
        r@.len() <= 2,
        old(state).selected_row >= users_view@.len() ==> r@.len() == 0
            && final(data).following_tracks@.len() == 0 && final(data).following_likes_tracks@.len() == 0
            && final(data).following_tracks_user_urn is None && final(data).following_likes_user_urn is None
            && final(state).following_tracks_focus == FollowingTracksFocus::Published,
        old(state).selected_row < users_view@.len() ==> {
            let urn = users_view@[old(state).selected_row as int].urn;
            let new_tracks = opt_view(old(data).following_tracks_user_urn) != Some(urn@);
            let new_likes = opt_view(old(data).following_likes_user_urn) != Some(urn@);
            let tracks = FetchRequest::UserTracks { pane: Pane::Library,
                request_id: old(state).following_tracks_request_id.wrapping_add(1), user_urn: urn };
            let likes = FetchRequest::UserLikes { pane: Pane::Library,
                request_id: old(state).following_likes_request_id.wrapping_add(1), user_urn: urn };
            &&& opt_view(final(data).following_tracks_user_urn) == Some(urn@)
            &&& opt_view(final(data).following_likes_user_urn) == Some(urn@)
            &&& r@ == user_requests(new_tracks, tracks, new_likes, likes)
            &&& new_tracks ==> final(state).following_tracks_request_id == old(state).following_tracks_request_id.wrapping_add(1)
                && final(data).following_tracks@.len() == 0
            &&& !new_tracks ==> final(state).following_tracks_request_id == old(state).following_tracks_request_id
                && final(data).following_tracks@ == old(data).following_tracks@
            &&& new_likes ==> final(state).following_likes_request_id == old(state).following_likes_request_id.wrapping_add(1)
                && final(data).following_likes_tracks@.len() == 0
            &&& !new_likes ==> final(state).following_likes_request_id == old(state).following_likes_request_id
                && final(data).following_likes_tracks@ == old(data).following_likes_tracks@
        },
        final(data).following_tracks@.len() > 0 ==> final(state).selected_following_track_row < final(data).following_tracks@.len(),
        final(data).following_likes_tracks@.len() > 0 ==> final(state).selected_following_like_row < final(data).following_likes_tracks@.len(),
{
    let mut r: Vec<FetchRequest> = Vec::new();
    if state.selected_row < users_view.len() {
        let urn = users_view[state.selected_row].urn.clone();
        if !opt_is(&data.following_tracks_user_urn, urn.as_str()) {
            state.following_tracks_request_id = state.following_tracks_request_id.wrapping_add(1);
            data.following_tracks_user_urn = Some(urn.clone());
            data.following_tracks = Vec::new();
            data.following_tracks_state.select(Some(0));
            state.selected_following_track_row = 0;
            state.following_tracks_focus = FollowingTracksFocus::Published;
            r.push(FetchRequest::UserTracks { pane: Pane::Library, request_id: state.following_tracks_request_id, user_urn: urn.clone() });
        }
        if !opt_is(&data.following_likes_user_urn, urn.as_str()) {
            state.following_likes_request_id = state.following_likes_request_id.wrapping_add(1);
            data.following_likes_user_urn = Some(urn.clone());
            data.following_likes_tracks = Vec::new();
            data.following_likes_state.select(Some(0));
            state.selected_following_like_row = 0;
            r.push(FetchRequest::UserLikes { pane: Pane::Library, request_id: state.following_likes_request_id, user_urn: urn });
        }
    } else {
        data.following_tracks = Vec::new();
        data.following_tracks_state.select(Some(0));
        data.following_tracks_user_urn = None;
        data.following_likes_tracks = Vec::new();
        data.following_likes_state.select(Some(0));
        data.following_likes_user_urn = None;
        state.selected_following_track_row = 0;
        state.selected_following_like_row = 0;
        state.following_tracks_focus = FollowingTracksFocus::Published;
    }
    let n = data.following_tracks.len();
    if n > 0 && state.selected_following_track_row >= n {
        state.selected_following_track_row = n - 1;
        data.following_tracks_state.select(Some(n - 1));
    }
    let m = data.following_likes_tracks.len();
    if m > 0 && state.selected_following_like_row >= m {
        state.selected_following_like_row = m - 1;
        data.following_likes_state.select(Some(m - 1));
    }
    r
}

/// A submitted search: every search request number moves on, every result
/// list and nested pane is cleared, the selections go to the top, and — for
/// a query with more than whitespace — the search of the selected filter is
/// asked for.
pub fn plan_search(state: &mut AppState, data: &mut AppData) -> (r: Option<FetchRequest>)
    requires
        old(state).search_needs_fetch,
    ensures
        !final(state).search_needs_fetch,
        final(state).search_results_request_id == old(state).search_results_request_id.wrapping_add(1),
        final(state).search_playlist_tracks_request_id == old(state).search_playlist_tracks_request_id.wrapping_add(1),
        final(state).search_album_tracks_request_id == old(state).search_album_tracks_request_id.wrapping_add(1),
        final(state).search_people_tracks_request_id == old(state).search_people_tracks_request_id.wrapping_add(1),
        final(state).search_people_likes_request_id == old(state).search_people_likes_request_id.wrapping_add(1),
        final(state).selected_row == 0,
        final(data).search_tracks@.len() == 0 && final(data).search_albums@.len() == 0,
        final(data).search_playlists@.len() == 0 && final(data).search_people@.len() == 0,
        final(data).search_playlist_tracks@.len() == 0 && final(data).search_album_tracks@.len() == 0,
        final(data).search_people_tracks@.len() == 0 && final(data).search_people_likes_tracks@.len() == 0,
        trimmed(old(state).query@).len() > 0 ==> r == Some(FetchRequest::Search {
            request_id: final(state).search_results_request_id, filter: old(state).selected_searchfilter, query: old(state).query }),
        trimmed(old(state).query@).len() == 0 ==> r is None,
{
    state.search_results_request_id = state.search_results_request_id.wrapping_add(1);
    state.search_playlist_tracks_request_id = state.search_playlist_tracks_request_id.wrapping_add(1);
    state.search_album_tracks_request_id = state.search_album_tracks_request_id.wrapping_add(1);
    state.search_people_tracks_request_id = state.search_people_tracks_request_id.wrapping_add(1);
    state.search_people_likes_request_id = state.search_people_likes_request_id.wrapping_add(1);
    state.selected_row = 0;
    state.search_selected_playlist_track_row = 0;
    state.search_selected_album_track_row = 0;
    state.search_selected_person_track_row = 0;
    state.search_selected_person_like_row = 0;
    state.search_people_tracks_focus = FollowingTracksFocus::Published;
    data.search_tracks = Vec::new();
    data.search_tracks_state.select(Some(0));
    data.search_albums = Vec::new();
    data.search_albums_state.select(Some(0));
    data.search_playlists = Vec::new();
    data.search_playlists_state.select(Some(0));
    data.search_people = Vec::new();
    data.search_people_state.select(Some(0));
    data.search_playlist_tracks = Vec::new();
    data.search_playlist_tracks_state.select(Some(0));
    data.search_playlist_tracks_uri = None;
    data.search_album_tracks = Vec::new();
    data.search_album_tracks_state.select(Some(0));
    data.search_album_tracks_uri = None;
    data.search_people_tracks = Vec::new();
    data.search_people_tracks_state.select(Some(0));
    data.search_people_tracks_user_urn = None;
    data.search_people_likes_tracks = Vec::new();
    data.search_people_likes_state.select(Some(0));
    data.search_people_likes_user_urn = None;
    state.search_needs_fetch = false;
    if trim_chars(&chars_of(state.query.as_str())).len() > 0 {
        Some(FetchRequest::Search { request_id: state.search_results_request_id, filter: state.selected_searchfilter, query: state.query.clone() })
    } else {
        None
    }
}

/// An answer to a search replaces the results of its filter only when it
/// answers the newest search; the selection then returns to the top.
pub fn accept_search_tracks(state: &AppState, data: &mut AppData, request_id: u64, tracks: Vec<Track>) -> (accepted: bool)
    ensures
        accepted == (request_id == state.search_results_request_id),
        accepted ==> final(data).search_tracks@ == tracks@,
        !accepted ==> final(data).search_tracks@ == old(data).search_tracks@,
{
    accept_tracks(&mut data.search_tracks, &mut data.search_tracks_state, request_id, state.search_results_request_id, tracks)
}

/// The tracks of the selected playlist result follow the selection, as in the library.
pub fn plan_search_playlist(state: &mut AppState, data: &mut AppData) -> (r: Option<FetchRequest>)
    ensures
        old(state).selected_row < old(data).search_playlists@.len() ==> {
            let uri = old(data).search_playlists@[old(state).selected_row as int].tracks_uri;
            if opt_view(old(data).search_playlist_tracks_uri) == Some(uri@) {
                r is None
            } else {
                &&& r == Some(FetchRequest::PlaylistTracks { pane: Pane::Search, request_id: final(state).search_playlist_tracks_request_id, tracks_uri: uri })
                &&& final(state).search_playlist_tracks_request_id == old(state).search_playlist_tracks_request_id.wrapping_add(1)
                &&& final(data).search_playlist_tracks@.len() == 0
            }
        },
        old(state).selected_row >= old(data).search_playlists@.len() ==> r is None && final(data).search_playlist_tracks@.len() == 0,
{
    let mut r: Option<FetchRequest> = None;
    if state.selected_row < data.search_playlists.len() {
        let uri = data.search_playlists[state.selected_row].tracks_uri.clone();
        if !opt_is(&data.search_playlist_tracks_uri, uri.as_str()) {
            state.search_playlist_tracks_request_id = state.search_playlist_tracks_request_id.wrapping_add(1);
            data.search_playlist_tracks_uri = Some(uri.clone());
            data.search_playlist_tracks = Vec::new();
            data.search_playlist_tracks_state.select(Some(0));
            state.search_selected_playlist_track_row = 0;
            r = Some(FetchRequest::PlaylistTracks { pane: Pane::Search, request_id: state.search_playlist_tracks_request_id, tracks_uri: uri });
        }
    } else {
        data.search_playlist_tracks = Vec::new();
        data.search_playlist_tracks_state.select(Some(0));
        data.search_playlist_tracks_uri = None;
        state.search_selected_playlist_track_row = 0;
    }
    let n = data.search_playlist_tracks.len();
    if n > 0 && state.search_selected_playlist_track_row >= n {
        state.search_selected_playlist_track_row = n - 1;
        data.search_playlist_tracks_state.select(Some(n - 1));
    }
    r
}

/// The tracks of the selected album result follow the selection.
pub fn plan_search_album(state: &mut AppState, data: &mut AppData) -> (r: Option<FetchRequest>)
    ensures
        old(state).selected_row < old(data).search_albums@.len() ==> {
            let uri = old(data).search_albums@[old(state).selected_row as int].tracks_uri;
            if opt_view(old(data).search_album_tracks_uri) == Some(uri@) {
                r is None
            } else {
                &&& r == Some(FetchRequest::AlbumTracks { pane: Pane::Search, request_id: final(state).search_album_tracks_request_id, tracks_uri: uri })
                &&& final(state).search_album_tracks_request_id == old(state).search_album_tracks_request_id.wrapping_add(1)
                &&& final(data).search_album_tracks@.len() == 0
            }
        },
        old(state).selected_row >= old(data).search_albums@.len() ==> r is None && final(data).search_album_tracks@.len() == 0,
{
    let mut r: Option<FetchRequest> = None;
    if state.selected_row < data.search_albums.len() {
        let uri = data.search_albums[state.selected_row].tracks_uri.clone();
        if !opt_is(&data.search_album_tracks_uri, uri.as_str()) {
            state.search_album_tracks_request_id = state.search_album_tracks_request_id.wrapping_add(1);
            data.search_album_tracks_uri = Some(uri.clone());
            data.search_album_tracks = Vec::new();
            data.search_album_tracks_state.select(Some(0));
            state.search_selected_album_track_row = 0;
            r = Some(FetchRequest::AlbumTracks { pane: Pane::Search, request_id: state.search_album_tracks_request_id, tracks_uri: uri });
        }
    } else {
        data.search_album_tracks = Vec::new();
        data.search_album_tracks_state.select(Some(0));
        data.search_album_tracks_uri = None;
        state.search_selected_album_track_row = 0;
    }
    let n = data.search_album_tracks.len();
    if n > 0 && state.search_selected_album_track_row >= n {
        state.search_selected_album_track_row = n - 1;
        data.search_album_tracks_state.select(Some(n - 1));
    }
    r
}

/// The panes of the selected person result follow the selection.
pub fn plan_search_user(state: &mut AppState, data: &mut AppData) -> (r: Vec<FetchRequest>)
    ensures
        r@.len() <= 2,
        old(state).selected_row >= old(data).search_people@.len() ==> r@.len() == 0
            && final(data).search_people_tracks@.len() == 0 && final(data).search_people_likes_tracks@.len() == 0,
        old(state).selected_row < old(data).search_people@.len() ==> {
            let urn = old(data).search_people@[old(state).selected_row as int].urn;
            let new_tracks = opt_view(old(data).search_people_tracks_user_urn) != Some(urn@);
            let new_likes = opt_view(old(data).search_people_likes_user_urn) != Some(urn@);
            let tracks = FetchRequest::UserTracks { pane: Pane::Search,
                request_id: old(state).search_people_tracks_request_id.wrapping_add(1), user_urn: urn };
            let likes = FetchRequest::UserLikes { pane: Pane::Search,
                request_id: old(state).search_people_likes_request_id.wrapping_add(1), user_urn: urn };
            &&& opt_view(final(data).search_people_tracks_user_urn) == Some(urn@)
            &&& opt_view(final(data).search_people_likes_user_urn) == Some(urn@)
            &&& r@ == user_requests(new_tracks, tracks, new_likes, likes)
            &&& new_tracks ==> final(state).search_people_tracks_request_id == old(state).search_people_tracks_request_id.wrapping_add(1)
                && final(data).search_people_tracks@.len() == 0
            &&& !new_tracks ==> final(state).search_people_tracks_request_id == old(state).search_people_tracks_request_id
                && final(data).search_people_tracks@ == old(data).search_people_tracks@
            &&& new_likes ==> final(state).search_people_likes_request_id == old(state).search_people_likes_request_id.wrapping_add(1)
                && final(data).search_people_likes_tracks@.len() == 0
            &&& !new_likes ==> final(state).search_people_likes_request_id == old(state).search_people_likes_request_id
                && final(data).search_people_likes_tracks@ == old(data).search_people_likes_tracks@
        },
{
    let mut r: Vec<FetchRequest> = Vec::new();
    if state.selected_row < data.search_people.len() {
        let urn = data.search_people[state.selected_row].urn.clone();
        if !opt_is(&data.search_people_tracks_user_urn, urn.as_str()) {
            state.search_people_tracks_request_id = state.search_people_tracks_request_id.wrapping_add(1);
            data.search_people_tracks_user_urn = Some(urn.clone());
            data.search_people_tracks = Vec::new();
            data.search_people_tracks_state.select(Some(0));
            state.search_selected_person_track_row = 0;
            state.search_people_tracks_focus = FollowingTracksFocus::Published;
            r.push(FetchRequest::UserTracks { pane: Pane::Search, request_id: state.search_people_tracks_request_id, user_urn: urn.clone() });
        }
        if !opt_is(&data.search_people_likes_user_urn, urn.as_str()) {
            state.search_people_likes_request_id = state.search_people_likes_request_id.wrapping_add(1);
            data.search_people_likes_user_urn = Some(urn.clone());
            data.search_people_likes_tracks = Vec::new();
            data.search_people_likes_state.select(Some(0));
            state.search_selected_person_like_row = 0;
            r.push(FetchRequest::UserLikes { pane: Pane::Search, request_id: state.search_people_likes_request_id, user_urn: urn });
        }
    } else {
        data.search_people_tracks = Vec::new();
        data.search_people_tracks_state.select(Some(0));
        data.search_people_tracks_user_urn = None;
        data.search_people_likes_tracks = Vec::new();
        data.search_people_likes_state.select(Some(0));
        data.search_people_likes_user_urn = None;
        state.search_selected_person_track_row = 0;
        state.search_selected_person_like_row = 0;
        state.search_people_tracks_focus = FollowingTracksFocus::Published;
    }
    let n = data.search_people_tracks.len();
    if n > 0 && state.search_selected_person_track_row >= n {
        state.search_selected_person_track_row = n - 1;
        data.search_people_tracks_state.select(Some(n - 1));
    }
    let m = data.search_people_likes_tracks.len();
    if m > 0 && state.search_selected_person_like_row >= m {
        state.search_selected_person_like_row = m - 1;
        data.search_people_likes_state.select(Some(m - 1));
    }
    r
}

/// The number of results of a search filter.
pub open spec fn search_result_len(filter: usize, data: AppData) -> usize {
    if filter == 0 { data.search_tracks@.len() as usize }
    else if filter == 1 { data.search_albums@.len() as usize }
    else if filter == 2 { data.search_playlists@.len() as usize }
    else if filter == 3 { data.search_people@.len() as usize }
    else { 0 }
}

/// What keeping a search selection in range leaves alone: the tab, filter
/// and request numbers, the result lists and whose nested panes are shown.
pub open spec fn keeps_search(s0: AppState, d0: AppData, s1: AppState, d1: AppData) -> bool {
    &&& s1.selected_tab == s0.selected_tab
    &&& s1.selected_searchfilter == s0.selected_searchfilter
    &&& s1.search_needs_fetch == s0.search_needs_fetch
    &&& s1.search_playlist_tracks_request_id == s0.search_playlist_tracks_request_id
    &&& s1.search_album_tracks_request_id == s0.search_album_tracks_request_id
    &&& s1.search_people_tracks_request_id == s0.search_people_tracks_request_id
    &&& s1.search_people_likes_request_id == s0.search_people_likes_request_id
    &&& d1.search_tracks@ == d0.search_tracks@
    &&& d1.search_albums@ == d0.search_albums@
    &&& d1.search_playlists@ == d0.search_playlists@
    &&& d1.search_people@ == d0.search_people@
    &&& d1.search_playlist_tracks_uri == d0.search_playlist_tracks_uri
    &&& d1.search_album_tracks_uri == d0.search_album_tracks_uri
    &&& d1.search_people_tracks_user_urn == d0.search_people_tracks_user_urn
    &&& d1.search_people_likes_user_urn == d0.search_people_likes_user_urn
}

/// Keeps the selected search result within the list of the active filter.
pub fn clamp_search_selection(state: &mut AppState, data: &mut AppData)
    ensures
        final(state).selected_row == clamp_row(old(state).selected_row, search_result_len(old(state).selected_searchfilter, *old(data))),
        keeps_search(*old(state), *old(data), *final(state), *final(data)),
{
    match state.selected_searchfilter {
        0 => {
            let n = data.search_tracks.len();
            if n > 0 && state.selected_row >= n {
                state.selected_row = n - 1;
            }
            data.search_tracks_state.select(Some(state.selected_row));
        },
        1 => {
            let n = data.search_albums.len();
            if n > 0 && state.selected_row >= n {
                state.selected_row = n - 1;
                data.search_albums_state.select(Some(state.selected_row));
            }
        },
        2 => {
            let n = data.search_playlists.len();
            if n > 0 && state.selected_row >= n {
                state.selected_row = n - 1;
                data.search_playlists_state.select(Some(state.selected_row));
            }
        },
        3 => {
            let n = data.search_people.len();
            if n > 0 && state.selected_row >= n {
                state.selected_row = n - 1;
                data.search_people_state.select(Some(state.selected_row));
            }
        },
        _ => {},
    }
}


/// The fetches that the selection asks for, in the order they are made: in
/// the library, the tracks of the selected playlist, album or followed user
/// (of the filtered list while the find box filters it); on the search tab,
/// a submitted search, or else (with the selection kept within the results)
/// the nested pane of the selected album, playlist or person.
pub fn plan_fetches(state: &mut AppState, data: &mut AppData, filtered: &FilteredViews) -> (r: Vec<FetchRequest>)
    ensures
        old(state).selected_tab > 1 ==> r@.len() == 0,
        old(state).selected_tab == 0 && (old(state).selected_subtab == 0 || old(state).selected_subtab > 3) ==> r@.len() == 0,
        old(state).selected_tab == 0 && old(state).selected_subtab == 1 ==> {
            let row = old(state).selected_row;
            if row < old(data).playlists@.len() {
                let uri = old(data).playlists@[row as int].tracks_uri;
                r@ == (if opt_view(old(data).playlist_tracks_uri) == Some(uri@) { Seq::empty() } else {
                    seq![FetchRequest::PlaylistTracks { pane: Pane::Library,
                        request_id: old(state).playlist_tracks_request_id.wrapping_add(1), tracks_uri: uri }] })
            } else {
                r@.len() == 0
            }
        },
        old(state).selected_tab == 0 && old(state).selected_subtab == 2 ==> {
            let view = if filter_active(*old(state)) { filtered.albums@ } else { old(data).albums@ };
            let row = old(state).selected_row;
            if row < view.len() {
                let uri = view[row as int].tracks_uri;
                r@ == (if opt_view(old(data).album_tracks_uri) == Some(uri@) { Seq::empty() } else {
                    seq![FetchRequest::AlbumTracks { pane: Pane::Library,
                        request_id: old(state).album_tracks_request_id.wrapping_add(1), tracks_uri: uri }] })
            } else {
                r@.len() == 0
            }
        },
        old(state).selected_tab == 0 && old(state).selected_subtab == 3 ==> {
            let view = if filter_active(*old(state)) { filtered.following@ } else { old(data).following@ };
            let row = old(state).selected_row;
            if row < view.len() {
                let urn = view[row as int].urn;
                r@ == user_requests(
                    opt_view(old(data).following_tracks_user_urn) != Some(urn@),
                    FetchRequest::UserTracks { pane: Pane::Library,
                        request_id: old(state).following_tracks_request_id.wrapping_add(1), user_urn: urn },
                    opt_view(old(data).following_likes_user_urn) != Some(urn@),
                    FetchRequest::UserLikes { pane: Pane::Library,
                        request_id: old(state).following_likes_request_id.wrapping_add(1), user_urn: urn })
            } else {
                r@.len() == 0
            }
        },
        old(state).selected_tab == 1 && old(state).search_needs_fetch ==>
            r@ == (if trimmed(old(state).query@).len() > 0 {
                seq![FetchRequest::Search { request_id: old(state).search_results_request_id.wrapping_add(1),
                    filter: old(state).selected_searchfilter, query: old(state).query }]
            } else { Seq::empty() }),
        old(state).selected_tab == 1 && !old(state).search_needs_fetch ==> {
            let filter = old(state).selected_searchfilter;
            let row = clamp_row(old(state).selected_row, search_result_len(filter, *old(data)));
            &&& (filter == 0 || filter > 3) ==> r@.len() == 0
            &&& filter == 1 ==> if row < old(data).search_albums@.len() {
                let uri = old(data).search_albums@[row as int].tracks_uri;
                r@ == (if opt_view(old(data).search_album_tracks_uri) == Some(uri@) { Seq::empty() } else {
                    seq![FetchRequest::AlbumTracks { pane: Pane::Search,
                        request_id: old(state).search_album_tracks_request_id.wrapping_add(1), tracks_uri: uri }] })
            } else {
                r@.len() == 0
            }
            &&& filter == 2 ==> if row < old(data).search_playlists@.len() {
                let uri = old(data).search_playlists@[row as int].tracks_uri;
                r@ == (if opt_view(old(data).search_playlist_tracks_uri) == Some(uri@) { Seq::empty() } else {
                    seq![FetchRequest::PlaylistTracks { pane: Pane::Search,
                        request_id: old(state).search_playlist_tracks_request_id.wrapping_add(1), tracks_uri: uri }] })
            } else {
                r@.len() == 0
            }
            &&& filter == 3 ==> if row < old(data).search_people@.len() {
                let urn = old(data).search_people@[row as int].urn;
                r@ == user_requests(
                    opt_view(old(data).search_people_tracks_user_urn) != Some(urn@),
                    FetchRequest::UserTracks { pane: Pane::Search,
                        request_id: old(state).search_people_tracks_request_id.wrapping_add(1), user_urn: urn },
                    opt_view(old(data).search_people_likes_user_urn) != Some(urn@),
                    FetchRequest::UserLikes { pane: Pane::Search,
                        request_id: old(state).search_people_likes_request_id.wrapping_add(1), user_urn: urn })
            } else {
                r@.len() == 0
            }
        },
{
    let mut r: Vec<FetchRequest> = Vec::new();
    if state.selected_tab == 0 && state.selected_subtab == 1 {
        if let Some(request) = plan_library_playlist(state, data) {
            r.push(request);
        }
    } else if state.selected_tab == 0 && state.selected_subtab == 2 {
        let albums = if is_filter_active(state) { clone_albums(&filtered.albums) } else { clone_albums(&data.albums) };
        if let Some(request) = plan_library_album(state, data, &albums) {
            r.push(request);
        }
    } else if state.selected_tab == 0 && state.selected_subtab == 3 {
        let users = if is_filter_active(state) { clone_users(&filtered.following) } else { clone_users(&data.following) };
        r = plan_library_user(state, data, &users);
    } else if state.selected_tab == 1 {
        if state.search_needs_fetch {
            if let Some(request) = plan_search(state, data) {
                r.push(request);
            }
        }
        clamp_search_selection(state, data);
        if state.selected_searchfilter == 1 {
            if let Some(request) = plan_search_album(state, data) {
                r.push(request);
            }
        } else if state.selected_searchfilter == 2 {
            if let Some(request) = plan_search_playlist(state, data) {
                r.push(request);
            }
        } else if state.selected_searchfilter == 3 {
            let people = plan_search_user(state, data);
            let mut i: usize = 0;
            let ghost before = r@;
            while i < people.len()
                invariant
                    i <= people@.len(),
                    r@ == before + people@.subrange(0, i as int),
                decreases people.len() - i,
            {
                r.push(clone_request(&people[i]));
                i += 1;
                assert(r@ =~= before + people@.subrange(0, i as int));
            }
            assert(people@.subrange(0, people@.len() as int) =~= people@);
        }
    }
    r
}

/// A copy of a fetch request.
fn clone_request(q: &FetchRequest) -> (r: FetchRequest)
    ensures
        r == *q,
{
    match q {
        FetchRequest::PlaylistTracks { pane, request_id, tracks_uri } =>
            FetchRequest::PlaylistTracks { pane: *pane, request_id: *request_id, tracks_uri: tracks_uri.clone() },
        FetchRequest::AlbumTracks { pane, request_id, tracks_uri } =>
            FetchRequest::AlbumTracks { pane: *pane, request_id: *request_id, tracks_uri: tracks_uri.clone() },
        FetchRequest::UserTracks { pane, request_id, user_urn } =>
            FetchRequest::UserTracks { pane: *pane, request_id: *request_id, user_urn: user_urn.clone() },
        FetchRequest::UserLikes { pane, request_id, user_urn } =>
            FetchRequest::UserLikes { pane: *pane, request_id: *request_id, user_urn: user_urn.clone() },
        FetchRequest::Search { request_id, filter, query } =>
            FetchRequest::Search { request_id: *request_id, filter: *filter, query: query.clone() },
    }
}

} // verus!
