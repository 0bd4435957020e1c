use vstd::prelude::*;

use crate::ids::{playlist_id_of, soundcloud_id_from_urn, soundcloud_playlist_id_from_tracks_uri, trim_chars, trimmed, urn_id};
use crate::models::{Album, Artist, Playlist, Track};
use crate::session::{AppData, AppState, EngagementAction, EngagementDone, keeps_playback};
use crate::state::UrnSet;
use crate::text::{chars_of, str_eq};

verus! {

/// Whether the find box of a list has a query.
pub open spec fn search_active(state: AppState) -> bool {
    state.search_popup_visible && trimmed(state.search_query@).len() > 0
}

/// Whether the library list is filtered by the find box.
pub open spec fn filter_active(state: AppState) -> bool {
    state.search_popup_visible && state.selected_tab == 0 && trimmed(state.search_query@).len() > 0
}

/// The item a visible row stands for: while a find query is active, the
/// row-th match; else the row itself.
pub open spec fn item_at_row(state: AppState, row: usize) -> Option<usize> {
    if search_active(state) {
        if row < state.search_matches@.len() { Some(state.search_matches@[row as int]) } else { None }
    } else {
        Some(row)
    }
}

/// Whether the find box of a list has a query.
pub fn is_search_active(state: &AppState) -> (r: bool)
    ensures
        r == search_active(*state),
{
    state.search_popup_visible && trim_chars(&chars_of(state.search_query.as_str())).len() > 0
}

/// Whether the library list is filtered by the find box.
pub fn is_filter_active(state: &AppState) -> (r: bool)
    ensures
        r == filter_active(*state),
{
    state.search_popup_visible && state.selected_tab == 0 && trim_chars(&chars_of(state.search_query.as_str())).len() > 0
}

/// The item a visible row stands for.
pub fn selected_item(state: &AppState, row: usize) -> (r: Option<usize>)
    ensures
        r == item_at_row(*state, row),
{
    if is_search_active(state) {
        if row < state.search_matches.len() { Some(state.search_matches[row]) } else { None }
    } else {
        Some(row)
    }
}

/// A liked copy of a playlist: liking it does not make it owned.
pub open spec fn as_liked(p: Playlist) -> Playlist {
    Playlist { is_owned: false, ..p }
}

/// The engagement that `Shift+L` asks for on the selection: in the library,
/// unliking the selected liked track or album, unfollowing the selected
/// user, or toggling the like of the selected playlist; in search results,
/// toggling the like of the selected track, album or playlist, or the
/// follow of the selected user. Nothing where the selection is empty or its
/// identifier does not parse.
pub open spec fn expected_engagement(state: AppState, data: AppData) -> Option<EngagementAction> {
    if state.selected_tab == 0 {
        if state.selected_subtab == 0 {
            match item_at_row(state, state.selected_row) {
                Some(i) if i < data.likes@.len() => {
                    let t = data.likes@[i as int];
                    match urn_id(t.track_urn@) {
                        Some(id) => Some(EngagementAction::UnlikeTrack { track_urn: t.track_urn, track_id: id }),
                        None => None,
                    }
                },
                _ => None,
            }
        } else if state.selected_subtab == 1 {
            if state.selected_row < data.playlists@.len() {
                let p = data.playlists@[state.selected_row as int];
                match playlist_id_of(p.tracks_uri@) {
                    Some(id) => if data.liked_playlist_uris.view().contains(p.tracks_uri@) {
                        Some(EngagementAction::UnlikePlaylist { tracks_uri: p.tracks_uri, playlist_id: id })
                    } else {
                        Some(EngagementAction::LikePlaylist { playlist: as_liked(p), playlist_id: id })
                    },
                    None => None,
                }
            } else {
                None
            }
        } else if state.selected_subtab == 2 {
            match item_at_row(state, state.selected_row) {
                Some(i) if i < data.albums@.len() => {
                    let a = data.albums@[i as int];
                    match playlist_id_of(a.tracks_uri@) {
                        Some(id) => Some(EngagementAction::UnlikeAlbum { tracks_uri: a.tracks_uri, playlist_id: id }),
                        None => None,
                    }
                },
                _ => None,
            }
        } else if state.selected_subtab == 3 {
            match item_at_row(state, state.selected_row) {
                Some(i) if i < data.following@.len() => {
                    let u = data.following@[i as int];
                    match urn_id(u.urn@) {
                        Some(id) => Some(EngagementAction::UnfollowUser { urn: u.urn, user_id: id }),
                        None => None,
                    }
                },
                _ => None,
            }
        } else {
            None
        }
    } else if state.selected_tab == 1 {
        let row = state.selected_row;
        if state.selected_searchfilter == 0 {
            if row < data.search_tracks@.len() {
                let t = data.search_tracks@[row as int];
                match urn_id(t.track_urn@) {
                    Some(id) => if data.liked_track_urns.view().contains(t.track_urn@) {
                        Some(EngagementAction::UnlikeTrack { track_urn: t.track_urn, track_id: id })
                    } else {
                        Some(EngagementAction::LikeTrack { track: t, track_id: id })
                    },
                    None => None,
                }
            } else {
                None
            }
        } else if state.selected_searchfilter == 1 {
            if row < data.search_albums@.len() {
                let a = data.search_albums@[row as int];
                match playlist_id_of(a.tracks_uri@) {
                    Some(id) => if data.liked_album_uris.view().contains(a.tracks_uri@) {
                        Some(EngagementAction::UnlikeAlbum { tracks_uri: a.tracks_uri, playlist_id: id })
                    } else {
                        Some(EngagementAction::LikeAlbum { album: a, playlist_id: id })
                    },
                    None => None,
                }
            } else {
                None
            }
        } else if state.selected_searchfilter == 2 {
            if row < data.search_playlists@.len() {
                let p = data.search_playlists@[row as int];
                match playlist_id_of(p.tracks_uri@) {
                    Some(id) => if data.liked_playlist_uris.view().contains(p.tracks_uri@) {
                        Some(EngagementAction::UnlikePlaylist { tracks_uri: p.tracks_uri, playlist_id: id })
                    } else {
                        Some(EngagementAction::LikePlaylist { playlist: p, playlist_id: id })
                    },
                    None => None,
                }
            } else {
                None
            }
        } else if state.selected_searchfilter == 3 {
            if row < data.search_people@.len() {
                let u = data.search_people@[row as int];
                match urn_id(u.urn@) {
                    Some(id) => if data.followed_user_urns.view().contains(u.urn@) {
                        Some(EngagementAction::UnfollowUser { urn: u.urn, user_id: id })
                    } else {
                        Some(EngagementAction::FollowUser { artist: u, user_id: id })
                    },
                    None => None,
                }
            } else {
                None
            }
        } else {
            None
        }
    } else {
        None
    }
}

/// How an engagement changes what counts as liked or followed, at once,
/// before the service answers.
pub open spec fn marks_after(old_data: AppData, new_data: AppData, a: EngagementAction) -> bool {
    let tracks = old_data.liked_track_urns.view();
    let playlists = old_data.liked_playlist_uris.view();
    let albums = old_data.liked_album_uris.view();
    let users = old_data.followed_user_urns.view();
    let (t2, p2, a2, u2) = match a {
        EngagementAction::LikeTrack { track, .. } => (tracks.insert(track.track_urn@), playlists, albums, users),
        EngagementAction::UnlikeTrack { track_urn, .. } => (tracks.remove(track_urn@), playlists, albums, users),
        EngagementAction::LikePlaylist { playlist, .. } => (tracks, playlists.insert(playlist.tracks_uri@), albums, users),
        EngagementAction::UnlikePlaylist { tracks_uri, .. } => (tracks, playlists.remove(tracks_uri@), albums, users),
        EngagementAction::LikeAlbum { album, .. } => (tracks, playlists, albums.insert(album.tracks_uri@), users),
        EngagementAction::UnlikeAlbum { tracks_uri, .. } => (tracks, playlists, albums.remove(tracks_uri@), users),
        EngagementAction::FollowUser { artist, .. } => (tracks, playlists, albums, users.insert(artist.urn@)),
        EngagementAction::UnfollowUser { urn, .. } => (tracks, playlists, albums, users.remove(urn@)),
    };
    &&& new_data.liked_track_urns.view() == t2
    &&& new_data.liked_playlist_uris.view() == p2
    &&& new_data.liked_album_uris.view() == a2
    &&& new_data.followed_user_urns.view() == u2
}

/// After an engagement is recorded, the item it concerns is marked exactly
/// when the engagement was a like or a follow: a follow marks the user as
/// followed, an unfollow clears that mark, and likes and unlikes do the same
/// for tracks, playlists and albums; the marks of every other item and kind
/// stay as they were.
pub proof fn lemma_marks_follow_the_engagement(old_data: AppData, new_data: AppData, a: EngagementAction)
    requires
        marks_after(old_data, new_data, a),
    ensures
        a matches EngagementAction::FollowUser { artist, .. } ==> new_data.followed_user_urns.view().contains(artist.urn@),
        a matches EngagementAction::UnfollowUser { urn, .. } ==> !new_data.followed_user_urns.view().contains(urn@),
        a matches EngagementAction::LikeTrack { track, .. } ==> new_data.liked_track_urns.view().contains(track.track_urn@),
        a matches EngagementAction::UnlikeTrack { track_urn, .. } ==> !new_data.liked_track_urns.view().contains(track_urn@),
        a matches EngagementAction::LikePlaylist { playlist, .. } ==> new_data.liked_playlist_uris.view().contains(playlist.tracks_uri@),
        a matches EngagementAction::UnlikePlaylist { tracks_uri, .. } ==> !new_data.liked_playlist_uris.view().contains(tracks_uri@),
        a matches EngagementAction::LikeAlbum { album, .. } ==> new_data.liked_album_uris.view().contains(album.tracks_uri@),
        a matches EngagementAction::UnlikeAlbum { tracks_uri, .. } ==> !new_data.liked_album_uris.view().contains(tracks_uri@),
        !(a is FollowUser || a is UnfollowUser) ==> new_data.followed_user_urns.view() == old_data.followed_user_urns.view(),
        !(a is LikeTrack || a is UnlikeTrack) ==> new_data.liked_track_urns.view() == old_data.liked_track_urns.view(),
        !(a is LikePlaylist || a is UnlikePlaylist) ==> new_data.liked_playlist_uris.view() == old_data.liked_playlist_uris.view(),
        !(a is LikeAlbum || a is UnlikeAlbum) ==> new_data.liked_album_uris.view() == old_data.liked_album_uris.view(),
        forall|x: Seq<char>| (a matches EngagementAction::FollowUser { artist, .. } && x != artist.urn@) ==>
            (#[trigger] new_data.followed_user_urns.view().contains(x) == old_data.followed_user_urns.view().contains(x)),
{
}

/// The engagement `Shift+L` asks for on the selection.
pub fn compute_engagement(state: &AppState, data: &AppData) -> (r: Option<EngagementAction>)
    ensures
        r == expected_engagement(*state, *data),
{
    if state.selected_tab == 0 {
        if state.selected_subtab == 0 {
            match selected_item(state, state.selected_row) {
                Some(i) if i < data.likes.len() => {
                    let t = &data.likes[i];
                    match soundcloud_id_from_urn(t.track_urn.as_str()) {
                        Some(id) => Some(EngagementAction::UnlikeTrack { track_urn: t.track_urn.clone(), track_id: id }),
                        None => None,
                    }
                },
                _ => None,
            }
        } else if state.selected_subtab == 1 {
            if state.selected_row < data.playlists.len() {
                let p = &data.playlists[state.selected_row];
                match soundcloud_playlist_id_from_tracks_uri(p.tracks_uri.as_str()) {
                    Some(id) => if data.liked_playlist_uris.contains(p.tracks_uri.as_str()) {
                        Some(EngagementAction::UnlikePlaylist { tracks_uri: p.tracks_uri.clone(), playlist_id: id })
                    } else {
                        let mut liked = p.clone();
                        liked.is_owned = false;
                        Some(EngagementAction::LikePlaylist { playlist: liked, playlist_id: id })
                    },
                    None => None,
                }
            } else {
                None
            }
        } else if state.selected_subtab == 2 {
            match selected_item(state, state.selected_row) {
                Some(i) if i < data.albums.len() => {
                    let a = &data.albums[i];
                    match soundcloud_playlist_id_from_tracks_uri(a.tracks_uri.as_str()) {
                        Some(id) => Some(EngagementAction::UnlikeAlbum { tracks_uri: a.tracks_uri.clone(), playlist_id: id }),
                        None => None,
                    }
                },
                _ => None,
            }
        } else if state.selected_subtab == 3 {
            match selected_item(state, state.selected_row) {
                Some(i) if i < data.following.len() => {
                    let u = &data.following[i];
                    match soundcloud_id_from_urn(u.urn.as_str()) {
                        Some(id) => Some(EngagementAction::UnfollowUser { urn: u.urn.clone(), user_id: id }),
                        None => None,
                    }
                },
                _ => None,
            }
        } else {
            None
        }
    } else if state.selected_tab == 1 {
        let row = state.selected_row;
        if state.selected_searchfilter == 0 {
            if row < data.search_tracks.len() {
                let t = &data.search_tracks[row];
                match soundcloud_id_from_urn(t.track_urn.as_str()) {
                    Some(id) => if data.liked_track_urns.contains(t.track_urn.as_str()) {
                        Some(EngagementAction::UnlikeTrack { track_urn: t.track_urn.clone(), track_id: id })
                    } else {
                        Some(EngagementAction::LikeTrack { track: t.clone(), track_id: id })
                    },
                    None => None,
                }
            } else {
                None
            }
        } else if state.selected_searchfilter == 1 {
            if row < data.search_albums.len() {
                let a = &data.search_albums[row];
                match soundcloud_playlist_id_from_tracks_uri(a.tracks_uri.as_str()) {
                    Some(id) => if data.liked_album_uris.contains(a.tracks_uri.as_str()) {
                        Some(EngagementAction::UnlikeAlbum { tracks_uri: a.tracks_uri.clone(), playlist_id: id })
                    } else {
                        Some(EngagementAction::LikeAlbum { album: a.clone(), playlist_id: id })
                    },
                    None => None,
                }
            } else {
                None
            }
        } else if state.selected_searchfilter == 2 {
            if row < data.search_playlists.len() {
                let p = &data.search_playlists[row];
                match soundcloud_playlist_id_from_tracks_uri(p.tracks_uri.as_str()) {
                    Some(id) => if data.liked_playlist_uris.contains(p.tracks_uri.as_str()) {
                        Some(EngagementAction::UnlikePlaylist { tracks_uri: p.tracks_uri.clone(), playlist_id: id })
                    } else {
                        Some(EngagementAction::LikePlaylist { playlist: p.clone(), playlist_id: id })
                    },
                    None => None,
                }
            } else {
                None
            }
        } else if state.selected_searchfilter == 3 {
            if row < data.search_people.len() {
                let u = &data.search_people[row];
                match soundcloud_id_from_urn(u.urn.as_str()) {
                    Some(id) => if data.followed_user_urns.contains(u.urn.as_str()) {
                        Some(EngagementAction::UnfollowUser { urn: u.urn.clone(), user_id: id })
                    } else {
                        Some(EngagementAction::FollowUser { artist: u.clone(), user_id: id })
                    },
                    None => None,
                }
            } else {
                None
            }
        } else {
            None
        }
    } else {
        None
    }
}

/// Marks an engagement at once in the liked and followed sets.
pub fn apply_engagement_marks(data: &mut AppData, a: &EngagementAction)
    ensures
        marks_after(*old(data), *final(data), *a),
        final(data).likes@ == old(data).likes@,
        final(data).playlists@ == old(data).playlists@,
        final(data).albums@ == old(data).albums@,
        final(data).following@ == old(data).following@,
{
    match a {
        EngagementAction::LikeTrack { track, .. } => data.liked_track_urns.insert(track.track_urn.clone()),
        EngagementAction::UnlikeTrack { track_urn, .. } => data.liked_track_urns.remove(track_urn.as_str()),
        EngagementAction::LikePlaylist { playlist, .. } => data.liked_playlist_uris.insert(playlist.tracks_uri.clone()),
        EngagementAction::UnlikePlaylist { tracks_uri, .. } => data.liked_playlist_uris.remove(tracks_uri.as_str()),
        EngagementAction::LikeAlbum { album, .. } => data.liked_album_uris.insert(album.tracks_uri.clone()),
        EngagementAction::UnlikeAlbum { tracks_uri, .. } => data.liked_album_uris.remove(tracks_uri.as_str()),
        EngagementAction::FollowUser { artist, .. } => data.followed_user_urns.insert(artist.urn.clone()),
        EngagementAction::UnfollowUser { urn, .. } => data.followed_user_urns.remove(urn.as_str()),
    }
}

/// `Shift+L`: queues the like, unlike, follow or unfollow of the selection
/// and marks it at once.
pub fn enqueue_like_follow_selected(state: &mut AppState, data: &mut AppData)
    ensures
        keeps_playback(*old(state), *final(state)),
        match expected_engagement(*old(state), *old(data)) {
            Some(a) => final(state).engagement_queue@ == old(state).engagement_queue@.push(a)
                && marks_after(*old(data), *final(data), a),
            None => final(state).engagement_queue@ == old(state).engagement_queue@
                && final(data).liked_track_urns == old(data).liked_track_urns
                && final(data).liked_playlist_uris == old(data).liked_playlist_uris
                && final(data).liked_album_uris == old(data).liked_album_uris
                && final(data).followed_user_urns == old(data).followed_user_urns,
        },
        final(data).likes@ == old(data).likes@,
        final(data).playlists@ == old(data).playlists@,
        final(data).albums@ == old(data).albums@,
        final(data).following@ == old(data).following@,
{
    if let Some(a) = compute_engagement(state, data) {
        apply_engagement_marks(data, &a);
        state.engagement_queue.push_back(a);
    }
}

pub open spec fn other_track(urn: Seq<char>) -> spec_fn(Track) -> bool {
    |t: Track| t.track_urn@ != urn
}

pub open spec fn other_liked_playlist(uri: Seq<char>) -> spec_fn(Playlist) -> bool {
    |p: Playlist| !(p.tracks_uri@ == uri && !p.is_owned)
}

pub open spec fn other_album(uri: Seq<char>) -> spec_fn(Album) -> bool {
    |a: Album| a.tracks_uri@ != uri
}

pub open spec fn other_user(urn: Seq<char>) -> spec_fn(Artist) -> bool {
    |u: Artist| u.urn@ != urn
}

/// Keeps the tracks whose URN differs from `urn`, in order.
fn remove_tracks_with_urn(v: &mut Vec<Track>, urn: &str)
    ensures
        final(v)@ == old(v)@.filter(other_track(urn@)),
{
    let mut old_v = Vec::new();
    std::mem::swap(&mut old_v, v);
    let mut i: usize = 0;
    while i < old_v.len()
        invariant
            i <= old_v@.len(),
            old_v@ == old(v)@,
            v@ == old_v@.subrange(0, i as int).filter(other_track(urn@)),
        decreases old_v@.len() - i,
    {
        proof {
            reveal(Seq::filter);
            assert(old_v@.subrange(0, i + 1).drop_last() =~= old_v@.subrange(0, i as int));
        }
        if !str_eq(old_v[i].track_urn.as_str(), urn) {
            v.push(old_v[i].clone());
        }
        i += 1;
    }
    assert(old_v@.subrange(0, old_v@.len() as int) =~= old_v@);
}

/// Keeps the playlists other than the liked one with `uri`, in order.
fn remove_liked_playlist(v: &mut Vec<Playlist>, uri: &str)
    ensures
        final(v)@ == old(v)@.filter(other_liked_playlist(uri@)),
{
    let mut old_v = Vec::new();
    std::mem::swap(&mut old_v, v);
    let mut i: usize = 0;
    while i < old_v.len()
        invariant
            i <= old_v@.len(),
            old_v@ == old(v)@,
            v@ == old_v@.subrange(0, i as int).filter(other_liked_playlist(uri@)),
        decreases old_v@.len() - i,
    {
        proof {
            reveal(Seq::filter);
            assert(old_v@.subrange(0, i + 1).drop_last() =~= old_v@.subrange(0, i as int));
        }
        if !(str_eq(old_v[i].tracks_uri.as_str(), uri) && !old_v[i].is_owned) {
            v.push(old_v[i].clone());
        }
        i += 1;
    }
    assert(old_v@.subrange(0, old_v@.len() as int) =~= old_v@);
}

/// Keeps the albums whose URI differs from `uri`, in order.
fn remove_albums_with_uri(v: &mut Vec<Album>, uri: &str)
    ensures
        final(v)@ == old(v)@.filter(other_album(uri@)),
{
    let mut old_v = Vec::new();
    std::mem::swap(&mut old_v, v);
    let mut i: usize = 0;
    while i < old_v.len()
        invariant
            i <= old_v@.len(),
            old_v@ == old(v)@,
            v@ == old_v@.subrange(0, i as int).filter(other_album(uri@)),
        decreases old_v@.len() - i,
    {
        proof {
            reveal(Seq::filter);
            assert(old_v@.subrange(0, i + 1).drop_last() =~= old_v@.subrange(0, i as int));
        }
        if !str_eq(old_v[i].tracks_uri.as_str(), uri) {
            v.push(old_v[i].clone());
        }
        i += 1;
    }
    assert(old_v@.subrange(0, old_v@.len() as int) =~= old_v@);
}

/// Keeps the users whose URN differs from `urn`, in order.
fn remove_users_with_urn(v: &mut Vec<Artist>, urn: &str)
    ensures
        final(v)@ == old(v)@.filter(other_user(urn@)),
{
    let mut old_v = Vec::new();
    std::mem::swap(&mut old_v, v);
    let mut i: usize = 0;
    while i < old_v.len()
        invariant
            i <= old_v@.len(),
            old_v@ == old(v)@,
            v@ == old_v@.subrange(0, i as int).filter(other_user(urn@)),
        decreases old_v@.len() - i,
    {
        proof {
            reveal(Seq::filter);
            assert(old_v@.subrange(0, i + 1).drop_last() =~= old_v@.subrange(0, i as int));
        }
        if !str_eq(old_v[i].urn.as_str(), urn) {
            v.push(old_v[i].clone());
        }
        i += 1;
    }
    assert(old_v@.subrange(0, old_v@.len() as int) =~= old_v@);
}

/// Where a selection lands in a list of `len` rows.
pub open spec fn clamped_row(row: usize, len: nat) -> usize {
    if len == 0 { 0 } else if row >= len { (len - 1) as usize } else { row }
}

/// Keeps the selection of a library section within its list.
fn clamp_section_row(state: &mut AppState, sel: &mut crate::state::TableSel, len: usize)
    ensures
        final(state).selected_row == clamped_row(old(state).selected_row, len as nat),
        old(state).selected_row != final(state).selected_row || len == 0 ==> final(sel).selected == Some(final(state).selected_row),
        old(state).selected_row == final(state).selected_row && len > 0 ==> *final(sel) == *old(sel),
{
    if len == 0 {
        state.selected_row = 0;
        sel.select(Some(0));
    } else if state.selected_row >= len {
        state.selected_row = len - 1;
        sel.select(Some(state.selected_row));
    }
}

/// Whether a list holds a track with the URN.
fn has_track_urn(v: &Vec<Track>, urn: &str) -> (r: bool)
    ensures
        r == exists|i: int| 0 <= i < v@.len() && (#[trigger] v@[i]).track_urn@ == urn@,
{
    let mut i: usize = 0;
    while i < v.len()
        invariant
            i <= v@.len(),
            forall|j: int| 0 <= j < i ==> (#[trigger] v@[j]).track_urn@ != urn@,
        decreases v@.len() - i,
    {
        if str_eq(v[i].track_urn.as_str(), urn) {
            return true;
        }
        i += 1;
    }
    false
}

/// Whether a list holds the liked playlist with the URI.
fn has_liked_playlist(v: &Vec<Playlist>, uri: &str) -> (r: bool)
    ensures
        r == exists|i: int| 0 <= i < v@.len() && (#[trigger] v@[i]).tracks_uri@ == uri@ && !v@[i].is_owned,
{
    let mut i: usize = 0;
    while i < v.len()
        invariant
            i <= v@.len(),
            forall|j: int| 0 <= j < i ==> !((#[trigger] v@[j]).tracks_uri@ == uri@ && !v@[j].is_owned),
        decreases v@.len() - i,
    {
        if str_eq(v[i].tracks_uri.as_str(), uri) && !v[i].is_owned {
            return true;
        }
        i += 1;
    }
    false
}

/// Whether a list holds an album with the URI.
fn has_album_uri(v: &Vec<Album>, uri: &str) -> (r: bool)
    ensures
        r == exists|i: int| 0 <= i < v@.len() && (#[trigger] v@[i]).tracks_uri@ == uri@,
{
    let mut i: usize = 0;
    while i < v.len()
        invariant
            i <= v@.len(),
            forall|j: int| 0 <= j < i ==> (#[trigger] v@[j]).tracks_uri@ != uri@,
        decreases v@.len() - i,
    {
        if str_eq(v[i].tracks_uri.as_str(), uri) {
            return true;
        }
        i += 1;
    }
    false
}

/// Whether a list holds a user with the URN.
fn has_user_urn(v: &Vec<Artist>, urn: &str) -> (r: bool)
    ensures
        r == exists|i: int| 0 <= i < v@.len() && (#[trigger] v@[i]).urn@ == urn@,
{
    let mut i: usize = 0;
    while i < v.len()
        invariant
            i <= v@.len(),
            forall|j: int| 0 <= j < i ==> (#[trigger] v@[j]).urn@ != urn@,
        decreases v@.len() - i,
    {
        if str_eq(v[i].urn.as_str(), urn) {
            return true;
        }
        i += 1;
    }
    false
}

/// Applies an engagement the service accepted to the library lists. An
/// answer that the user has since reversed (the mark no longer matches) is
/// ignored. A like puts the item at the top of its list unless it is there
/// already; an unlike or unfollow removes it, and a selection in that
/// section of the library stays within the list.
pub fn apply_engagement_done(state: &mut AppState, data: &mut AppData, done: EngagementDone)
    ensures
        match done {
            EngagementDone::LikedTrack(t) =>
                if !old(data).liked_track_urns.view().contains(t.track_urn@)
                    || (exists|i: int| 0 <= i < old(data).likes@.len() && (#[trigger] old(data).likes@[i]).track_urn@ == t.track_urn@) {
                    final(data).likes@ == old(data).likes@
                } else {
                    final(data).likes@ == seq![t] + old(data).likes@
                },
            EngagementDone::UnlikedTrack { track_urn } =>
                if old(data).liked_track_urns.view().contains(track_urn@) {
                    final(data).likes@ == old(data).likes@ && final(state).selected_row == old(state).selected_row
                } else {
                    &&& final(data).likes@ == old(data).likes@.filter(other_track(track_urn@))
                    &&& old(state).selected_tab == 0 && old(state).selected_subtab == 0 ==>
                        final(state).selected_row == clamped_row(old(state).selected_row, final(data).likes@.len())
                },
            EngagementDone::LikedPlaylist(p) =>
                if !old(data).liked_playlist_uris.view().contains(p.tracks_uri@)
                    || (exists|i: int| 0 <= i < old(data).playlists@.len() && (#[trigger] old(data).playlists@[i]).tracks_uri@ == p.tracks_uri@ && !old(data).playlists@[i].is_owned) {
                    final(data).playlists@ == old(data).playlists@
                } else {
                    final(data).playlists@ == seq![p] + old(data).playlists@
                },
            EngagementDone::UnlikedPlaylist { tracks_uri } =>
                if old(data).liked_playlist_uris.view().contains(tracks_uri@) {
                    final(data).playlists@ == old(data).playlists@ && final(state).selected_row == old(state).selected_row
                } else {
                    &&& final(data).playlists@ == old(data).playlists@.filter(other_liked_playlist(tracks_uri@))
                    &&& old(state).selected_tab == 0 && old(state).selected_subtab == 1 ==>
                        final(state).selected_row == clamped_row(old(state).selected_row, final(data).playlists@.len())
                },
            EngagementDone::LikedAlbum(a) =>
                if !old(data).liked_album_uris.view().contains(a.tracks_uri@)
                    || (exists|i: int| 0 <= i < old(data).albums@.len() && (#[trigger] old(data).albums@[i]).tracks_uri@ == a.tracks_uri@) {
                    final(data).albums@ == old(data).albums@
                } else {
                    final(data).albums@ == seq![a] + old(data).albums@
                },
            EngagementDone::UnlikedAlbum { tracks_uri } =>
                if old(data).liked_album_uris.view().contains(tracks_uri@) {
                    final(data).albums@ == old(data).albums@ && final(state).selected_row == old(state).selected_row
                } else {
                    &&& final(data).albums@ == old(data).albums@.filter(other_album(tracks_uri@))
                    &&& old(state).selected_tab == 0 && old(state).selected_subtab == 2 ==>
                        final(state).selected_row == clamped_row(old(state).selected_row, final(data).albums@.len())
                },
            EngagementDone::FollowedUser(u) =>
                if !old(data).followed_user_urns.view().contains(u.urn@)
                    || (exists|i: int| 0 <= i < old(data).following@.len() && (#[trigger] old(data).following@[i]).urn@ == u.urn@) {
                    final(data).following@ == old(data).following@
                } else {
                    final(data).following@ == seq![u] + old(data).following@
                },
            EngagementDone::UnfollowedUser { urn } =>
                if old(data).followed_user_urns.view().contains(urn@) {
                    final(data).following@ == old(data).following@ && final(state).selected_row == old(state).selected_row
                } else {
                    &&& final(data).following@ == old(data).following@.filter(other_user(urn@))
                    &&& old(state).selected_tab == 0 && old(state).selected_subtab == 3 ==>
                        final(state).selected_row == clamped_row(old(state).selected_row, final(data).following@.len())
                },
        },
{
    match done {
        EngagementDone::LikedTrack(t) => {
            if data.liked_track_urns.contains(t.track_urn.as_str()) && !has_track_urn(&data.likes, t.track_urn.as_str()) {
                data.likes.insert(0, t);
                assert(data.likes@ =~= seq![t] + old(data).likes@);
            }
        },
        EngagementDone::UnlikedTrack { track_urn } => {
            if !data.liked_track_urns.contains(track_urn.as_str()) {
                remove_tracks_with_urn(&mut data.likes, track_urn.as_str());
                if state.selected_tab == 0 && state.selected_subtab == 0 {
                    let n = data.likes.len();
                    clamp_section_row(state, &mut data.likes_state, n);
                }
            }
        },
        EngagementDone::LikedPlaylist(p) => {
            if data.liked_playlist_uris.contains(p.tracks_uri.as_str()) && !has_liked_playlist(&data.playlists, p.tracks_uri.as_str()) {
                data.playlists.insert(0, p);
                assert(data.playlists@ =~= seq![p] + old(data).playlists@);
            }
        },
        EngagementDone::UnlikedPlaylist { tracks_uri } => {
            if !data.liked_playlist_uris.contains(tracks_uri.as_str()) {
                remove_liked_playlist(&mut data.playlists, tracks_uri.as_str());
                if state.selected_tab == 0 && state.selected_subtab == 1 {
                    let n = data.playlists.len();
                    clamp_section_row(state, &mut data.playlists_state, n);
                }
            }
        },
        EngagementDone::LikedAlbum(a) => {
            if data.liked_album_uris.contains(a.tracks_uri.as_str()) && !has_album_uri(&data.albums, a.tracks_uri.as_str()) {
                data.albums.insert(0, a);
                assert(data.albums@ =~= seq![a] + old(data).albums@);
            }
        },
        EngagementDone::UnlikedAlbum { tracks_uri } => {
            if !data.liked_album_uris.contains(tracks_uri.as_str()) {
                remove_albums_with_uri(&mut data.albums, tracks_uri.as_str());
                if state.selected_tab == 0 && state.selected_subtab == 2 {
                    let n = data.albums.len();
                    clamp_section_row(state, &mut data.albums_state, n);
                }
            }
        },
        EngagementDone::FollowedUser(u) => {
            if data.followed_user_urns.contains(u.urn.as_str()) && !has_user_urn(&data.following, u.urn.as_str()) {
                data.following.insert(0, u);
                assert(data.following@ =~= seq![u] + old(data).following@);
            }
        },
        EngagementDone::UnfollowedUser { urn } => {
            if !data.followed_user_urns.contains(urn.as_str()) {
                remove_users_with_urn(&mut data.following, urn.as_str());
                if state.selected_tab == 0 && state.selected_subtab == 3 {
                    let n = data.following.len();
                    clamp_section_row(state, &mut data.following_state, n);
                }
            }
        },
    }
}

} // verus!
