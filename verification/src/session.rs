use vstd::prelude::*;

use std::collections::VecDeque;

use crate::models::{Album, Artist, Playlist, Track};
use crate::state::{FollowingTracksFocus, PlaybackSource, QueuedTrack, TableSel, UrnSet, VisualizerMode};

verus! {

/// A like, unlike, follow or unfollow waiting to be sent.
#[derive(Debug)]
pub enum EngagementAction {
    LikeTrack { track: Track, track_id: u64 },
    UnlikeTrack { track_urn: String, track_id: u64 },
    LikePlaylist { playlist: Playlist, playlist_id: u64 },
    UnlikePlaylist { tracks_uri: String, playlist_id: u64 },
    LikeAlbum { album: Album, playlist_id: u64 },
    UnlikeAlbum { tracks_uri: String, playlist_id: u64 },
    FollowUser { artist: Artist, user_id: u64 },
    UnfollowUser { urn: String, user_id: u64 },
}

/// A like, unlike, follow or unfollow that the service accepted.
#[derive(Debug)]
pub enum EngagementDone {
    LikedTrack(Track),
    UnlikedTrack { track_urn: String },
    LikedPlaylist(Playlist),
    UnlikedPlaylist { tracks_uri: String },
    LikedAlbum(Album),
    UnlikedAlbum { tracks_uri: String },
    FollowedUser(Artist),
    UnfollowedUser { urn: String },
}

/// Where the interface is and what playback is doing.
#[derive(Debug)]
pub struct AppState {
    pub selected_tab: usize,
    pub selected_subtab: usize,
    pub selected_row: usize,
    pub selected_playlist_row: usize,
    pub selected_album_row: usize,
    pub query: String,
    pub selected_searchfilter: usize,
    pub search_needs_fetch: bool,
    pub search_input_focused: bool,
    pub info_pane_selected: bool,
    pub selected_info_row: usize,
    pub selected_playlist_track_row: usize,
    pub selected_album_track_row: usize,
    pub selected_following_track_row: usize,
    pub selected_following_like_row: usize,
    pub search_selected_playlist_track_row: usize,
    pub search_selected_album_track_row: usize,
    pub search_selected_person_track_row: usize,
    pub search_selected_person_like_row: usize,
    pub search_people_tracks_focus: FollowingTracksFocus,
    pub playlist_tracks_request_id: u64,
    pub album_tracks_request_id: u64,
    pub following_tracks_request_id: u64,
    pub following_likes_request_id: u64,
    pub search_results_request_id: u64,
    pub search_playlist_tracks_request_id: u64,
    pub search_album_tracks_request_id: u64,
    pub search_people_tracks_request_id: u64,
    pub search_people_likes_request_id: u64,
    pub progress: u64,
    pub current_playing_index: Option<usize>,
    pub playback_source: PlaybackSource,
    pub shuffle_enabled: bool,
    pub repeat_enabled: bool,
    pub playback_history: Vec<QueuedTrack>,
    pub manual_queue: VecDeque<QueuedTrack>,
    pub auto_queue: VecDeque<usize>,
    pub override_playing: Option<QueuedTrack>,
    pub engagement_queue: VecDeque<EngagementAction>,
    pub following_tracks_focus: FollowingTracksFocus,
    pub queue_visible: bool,
    pub help_visible: bool,
    pub quit_confirm_visible: bool,
    pub quit_confirm_selected: usize,
    pub search_popup_visible: bool,
    pub search_query: String,
    pub search_matches: Vec<usize>,
    pub visualizer_mode: bool,
    pub visualizer_view: VisualizerMode,
    pub end_handled_track_urn: Option<String>,
    pub preload_triggered_for_track_urn: Option<String>,
}

impl AppState {
    /// The state at startup: the liked tracks of the library, nothing
    /// playing, every list at its top.
    pub fn new() -> (r: Self)
        ensures
            r.selected_tab == 0,
            r.selected_subtab == 0,
            r.selected_row == 0,
            r.selected_searchfilter == 0,
            r.query@.len() == 0,
            !r.search_needs_fetch,
            !r.search_input_focused,
            r.current_playing_index is None,
            r.playback_source == PlaybackSource::Likes,
            !r.shuffle_enabled,
            !r.repeat_enabled,
            r.playback_history@.len() == 0,
            r.manual_queue@.len() == 0,
            r.auto_queue@.len() == 0,
            r.override_playing is None,
            r.engagement_queue@.len() == 0,
            r.following_tracks_focus == FollowingTracksFocus::Published,
            r.search_people_tracks_focus == FollowingTracksFocus::Published,
            !r.queue_visible && !r.help_visible && !r.quit_confirm_visible && !r.search_popup_visible,
            !r.visualizer_mode,
            r.visualizer_view == VisualizerMode::Oscilloscope,
            r.search_query@.len() == 0,
            r.search_matches@.len() == 0,
            r.search_results_request_id == 0,
            r.search_playlist_tracks_request_id == 0,
            r.search_album_tracks_request_id == 0,
            r.search_people_tracks_request_id == 0,
            r.search_people_likes_request_id == 0,
            r.playlist_tracks_request_id == 0,
            r.album_tracks_request_id == 0,
            r.following_tracks_request_id == 0,
            r.following_likes_request_id == 0,
            r.progress == 0,
            r.end_handled_track_urn is None,
            r.preload_triggered_for_track_urn is None,
    {
        AppState {
            selected_tab: 0,
            selected_subtab: 0,
            selected_row: 0,
            selected_playlist_row: 0,
            selected_album_row: 0,
            query: String::new(),
            selected_searchfilter: 0,
            search_needs_fetch: false,
            search_input_focused: false,
            info_pane_selected: false,
            selected_info_row: 0,
            selected_playlist_track_row: 0,
            selected_album_track_row: 0,
            selected_following_track_row: 0,
            selected_following_like_row: 0,
            search_selected_playlist_track_row: 0,
            search_selected_album_track_row: 0,
            search_selected_person_track_row: 0,
            search_selected_person_like_row: 0,
            search_people_tracks_focus: FollowingTracksFocus::Published,
            playlist_tracks_request_id: 0,
            album_tracks_request_id: 0,
            following_tracks_request_id: 0,
            following_likes_request_id: 0,
            search_results_request_id: 0,
            search_playlist_tracks_request_id: 0,
            search_album_tracks_request_id: 0,
            search_people_tracks_request_id: 0,
            search_people_likes_request_id: 0,
            progress: 0,
            current_playing_index: None,
            playback_source: PlaybackSource::Likes,
            shuffle_enabled: false,
            repeat_enabled: false,
            playback_history: Vec::new(),
            manual_queue: VecDeque::new(),
            auto_queue: VecDeque::new(),
            override_playing: None,
            engagement_queue: VecDeque::new(),
            following_tracks_focus: FollowingTracksFocus::Published,
            queue_visible: false,
            help_visible: false,
            quit_confirm_visible: false,
            quit_confirm_selected: 0,
            search_popup_visible: false,
            search_query: String::new(),
            search_matches: Vec::new(),
            visualizer_mode: false,
            visualizer_view: VisualizerMode::Oscilloscope,
            end_handled_track_urn: None,
            preload_triggered_for_track_urn: None,
        }
    }
}

/// The lists the interface shows and plays from.
#[derive(Debug)]
pub struct AppData {
    pub likes: Vec<Track>,
    pub likes_state: TableSel,
    pub liked_track_urns: UrnSet,
    pub playlists: Vec<Playlist>,
    pub playlists_state: TableSel,
    pub liked_playlist_uris: UrnSet,
    pub playlist_tracks: Vec<Track>,
    pub playlist_tracks_state: TableSel,
    pub playlist_tracks_uri: Option<String>,
    pub album_tracks: Vec<Track>,
    pub album_tracks_state: TableSel,
    pub album_tracks_uri: Option<String>,
    pub following_tracks: Vec<Track>,
    pub following_tracks_state: TableSel,
    pub following_tracks_user_urn: Option<String>,
    pub following_likes_tracks: Vec<Track>,
    pub following_likes_state: TableSel,
    pub following_likes_user_urn: Option<String>,
    pub playback_tracks: Vec<Track>,
    pub playback_playlist_uri: Option<String>,
    pub playback_album_uri: Option<String>,
    pub playback_following_user_urn: Option<String>,
    pub albums: Vec<Album>,
    pub albums_state: TableSel,
    pub liked_album_uris: UrnSet,
    pub following: Vec<Artist>,
    pub following_state: TableSel,
    pub followed_user_urns: UrnSet,
    pub search_tracks: Vec<Track>,
    pub search_tracks_state: TableSel,
    pub search_playlists: Vec<Playlist>,
    pub search_playlists_state: TableSel,
    pub search_playlist_tracks: Vec<Track>,
    pub search_playlist_tracks_state: TableSel,
    pub search_playlist_tracks_uri: Option<String>,
    pub search_albums: Vec<Album>,
    pub search_albums_state: TableSel,
    pub search_album_tracks: Vec<Track>,
    pub search_album_tracks_state: TableSel,
    pub search_album_tracks_uri: Option<String>,
    pub search_people: Vec<Artist>,
    pub search_people_state: TableSel,
    pub search_people_tracks: Vec<Track>,
    pub search_people_tracks_state: TableSel,
    pub search_people_tracks_user_urn: Option<String>,
    pub search_people_likes_tracks: Vec<Track>,
    pub search_people_likes_state: TableSel,
    pub search_people_likes_user_urn: Option<String>,
}

/// A table selection at a row.
fn selected_at(row: usize) -> (r: TableSel)
    ensures
        r.selected == Some(row),
        r.offset == 0,
{
    let mut t = TableSel::new();
    t.select(Some(row));
    t
}

/// The track URNs of a list.
pub open spec fn urns_of(tracks: Seq<Track>) -> Set<Seq<char>> {
    Set::new(|x: Seq<char>| exists|i: int| 0 <= i < tracks.len() && (#[trigger] tracks[i]).track_urn@ == x)
}

/// The URIs of the liked (not owned) playlists of a list.
pub open spec fn liked_uris_of(playlists: Seq<Playlist>) -> Set<Seq<char>> {
    Set::new(|x: Seq<char>| exists|i: int| 0 <= i < playlists.len() && !(#[trigger] playlists[i]).is_owned && playlists[i].tracks_uri@ == x)
}

/// The track URIs of a list of albums.
pub open spec fn album_uris_of(albums: Seq<Album>) -> Set<Seq<char>> {
    Set::new(|x: Seq<char>| exists|i: int| 0 <= i < albums.len() && (#[trigger] albums[i]).tracks_uri@ == x)
}

/// The URNs of a list of users.
pub open spec fn user_urns_of(users: Seq<Artist>) -> Set<Seq<char>> {
    Set::new(|x: Seq<char>| exists|i: int| 0 <= i < users.len() && (#[trigger] users[i]).urn@ == x)
}

/// Adds the URNs of some tracks to a set.
pub fn insert_track_urns(set: &mut UrnSet, tracks: &Vec<Track>)
    ensures
        final(set).view() == old(set).view().union(urns_of(tracks@)),
{
    let mut i: usize = 0;
    while i < tracks.len()
        invariant
            i <= tracks@.len(),
            set.view() == old(set).view().union(urns_of(tracks@.subrange(0, i as int))),
        decreases tracks@.len() - i,
    {
        set.insert(tracks[i].track_urn.clone());
        i += 1;
        assert(set.view() =~= old(set).view().union(urns_of(tracks@.subrange(0, i as int)))) by {
            assert forall|x: Seq<char>| urns_of(tracks@.subrange(0, i as int)).contains(x) <==>
                (urns_of(tracks@.subrange(0, i - 1)).contains(x) || x == tracks@[i - 1].track_urn@) by {
                if urns_of(tracks@.subrange(0, i as int)).contains(x) {
                    let j = choose|j: int| 0 <= j < i && (#[trigger] tracks@.subrange(0, i as int)[j]).track_urn@ == x;
                    if j < i - 1 {
                        assert(tracks@.subrange(0, i - 1)[j] == tracks@.subrange(0, i as int)[j]);
                    }
                }
                if urns_of(tracks@.subrange(0, i - 1)).contains(x) {
                    let j = choose|j: int| 0 <= j < i - 1 && (#[trigger] tracks@.subrange(0, i - 1)[j]).track_urn@ == x;
                    assert(tracks@.subrange(0, i as int)[j] == tracks@.subrange(0, i - 1)[j]);
                }
                if x == tracks@[i - 1].track_urn@ {
                    assert(tracks@.subrange(0, i as int)[i - 1] == tracks@[i - 1]);
                }
            }
        }
    }
    assert(tracks@.subrange(0, tracks@.len() as int) =~= tracks@);
}

/// Adds the URIs of the liked playlists of a list to a set.
pub fn insert_liked_playlist_uris(set: &mut UrnSet, playlists: &Vec<Playlist>)
    ensures
        final(set).view() == old(set).view().union(liked_uris_of(playlists@)),
{
    let mut i: usize = 0;
    while i < playlists.len()
        invariant
            i <= playlists@.len(),
            set.view() == old(set).view().union(liked_uris_of(playlists@.subrange(0, i as int))),
        decreases playlists@.len() - i,
    {
        if !playlists[i].is_owned {
            set.insert(playlists[i].tracks_uri.clone());
        }
        i += 1;
        assert(set.view() =~= old(set).view().union(liked_uris_of(playlists@.subrange(0, i as int)))) by {
            let a = playlists@.subrange(0, i as int);
            let b = playlists@.subrange(0, i - 1);
            assert forall|x: Seq<char>| liked_uris_of(a).contains(x) <==>
                (liked_uris_of(b).contains(x) || (!playlists@[i - 1].is_owned && x == playlists@[i - 1].tracks_uri@)) by {
                if liked_uris_of(a).contains(x) {
                    let j = choose|j: int| 0 <= j < i && !(#[trigger] a[j]).is_owned && a[j].tracks_uri@ == x;
                    if j < i - 1 { assert(b[j] == a[j]); }
                }
                if liked_uris_of(b).contains(x) {
                    let j = choose|j: int| 0 <= j < i - 1 && !(#[trigger] b[j]).is_owned && b[j].tracks_uri@ == x;
                    assert(a[j] == b[j]);
                }
                if !playlists@[i - 1].is_owned && x == playlists@[i - 1].tracks_uri@ {
                    assert(a[i - 1] == playlists@[i - 1]);
                }
            }
        }
    }
    assert(playlists@.subrange(0, playlists@.len() as int) =~= playlists@);
}

/// Adds the track URIs of some albums to a set.
pub fn insert_album_uris(set: &mut UrnSet, albums: &Vec<Album>)
    ensures
        final(set).view() == old(set).view().union(album_uris_of(albums@)),
{
    let mut i: usize = 0;
    while i < albums.len()
        invariant
            i <= albums@.len(),
            set.view() == old(set).view().union(album_uris_of(albums@.subrange(0, i as int))),
        decreases albums@.len() - i,
    {
        set.insert(albums[i].tracks_uri.clone());
        i += 1;
        assert(set.view() =~= old(set).view().union(album_uris_of(albums@.subrange(0, i as int)))) by {
            let a = albums@.subrange(0, i as int);
            let b = albums@.subrange(0, i - 1);
            assert forall|x: Seq<char>| album_uris_of(a).contains(x) <==> (album_uris_of(b).contains(x) || x == albums@[i - 1].tracks_uri@) by {
                if album_uris_of(a).contains(x) {
                    let j = choose|j: int| 0 <= j < i && (#[trigger] a[j]).tracks_uri@ == x;
                    if j < i - 1 { assert(b[j] == a[j]); }
                }
                if album_uris_of(b).contains(x) {
                    let j = choose|j: int| 0 <= j < i - 1 && (#[trigger] b[j]).tracks_uri@ == x;
                    assert(a[j] == b[j]);
                }
                if x == albums@[i - 1].tracks_uri@ { assert(a[i - 1] == albums@[i - 1]); }
            }
        }
    }
    assert(albums@.subrange(0, albums@.len() as int) =~= albums@);
}

/// Adds the URNs of some users to a set.
pub fn insert_user_urns(set: &mut UrnSet, users: &Vec<Artist>)
    ensures
        final(set).view() == old(set).view().union(user_urns_of(users@)),
{
    let mut i: usize = 0;
    while i < users.len()
        invariant
            i <= users@.len(),
            set.view() == old(set).view().union(user_urns_of(users@.subrange(0, i as int))),
        decreases users@.len() - i,
    {
        set.insert(users[i].urn.clone());
        i += 1;
        assert(set.view() =~= old(set).view().union(user_urns_of(users@.subrange(0, i as int)))) by {
            let a = users@.subrange(0, i as int);
            let b = users@.subrange(0, i - 1);
            assert forall|x: Seq<char>| user_urns_of(a).contains(x) <==> (user_urns_of(b).contains(x) || x == users@[i - 1].urn@) by {
                if user_urns_of(a).contains(x) {
                    let j = choose|j: int| 0 <= j < i && (#[trigger] a[j]).urn@ == x;
                    if j < i - 1 { assert(b[j] == a[j]); }
                }
                if user_urns_of(b).contains(x) {
                    let j = choose|j: int| 0 <= j < i - 1 && (#[trigger] b[j]).urn@ == x;
                    assert(a[j] == b[j]);
                }
                if x == users@[i - 1].urn@ { assert(a[i - 1] == users@[i - 1]); }
            }
        }
    }
    assert(users@.subrange(0, users@.len() as int) =~= users@);
}

/// Appends one list to another.
pub fn extend_with<T>(v: &mut Vec<T>, more: Vec<T>)
    ensures
        final(v)@ == old(v)@ + more@,
{
    let mut more = more;
    v.append(&mut more);
}

impl AppData {
    /// The lists at startup, from the library as first fetched: the liked
    /// tracks, playlists, albums and followed users, with the sets of what is
    /// liked or followed, and every other list empty.
    pub fn from_library(likes: Vec<Track>, playlists: Vec<Playlist>, albums: Vec<Album>, following: Vec<Artist>, selected_row: usize) -> (r: Self)
        ensures
            r.likes@ == likes@,
            r.playlists@ == playlists@,
            r.albums@ == albums@,
            r.following@ == following@,
            r.liked_track_urns.view() == urns_of(likes@),
            r.liked_playlist_uris.view() == liked_uris_of(playlists@),
            r.liked_album_uris.view() == album_uris_of(albums@),
            r.followed_user_urns.view() == user_urns_of(following@),
            r.likes_state.selected == Some(selected_row),
            r.playlists_state.selected == Some(selected_row),
            r.albums_state.selected == Some(selected_row),
            r.following_state.selected == Some(selected_row),
            r.playlist_tracks@.len() == 0 && r.album_tracks@.len() == 0,
            r.following_tracks@.len() == 0 && r.following_likes_tracks@.len() == 0,
            r.playback_tracks@.len() == 0,
            r.search_tracks@.len() == 0 && r.search_playlists@.len() == 0 && r.search_albums@.len() == 0,
            r.search_people@.len() == 0,
            r.playlist_tracks_uri is None && r.album_tracks_uri is None,
            r.following_tracks_user_urn is None && r.following_likes_user_urn is None,
            r.playback_playlist_uri is None && r.playback_album_uri is None && r.playback_following_user_urn is None,
    {
        let mut liked_track_urns = UrnSet::new();
        insert_track_urns(&mut liked_track_urns, &likes);
        let mut liked_playlist_uris = UrnSet::new();
        insert_liked_playlist_uris(&mut liked_playlist_uris, &playlists);
        let mut liked_album_uris = UrnSet::new();
        insert_album_uris(&mut liked_album_uris, &albums);
        let mut followed_user_urns = UrnSet::new();
        insert_user_urns(&mut followed_user_urns, &following);
        proof {
            assert(Set::<Seq<char>>::empty().union(urns_of(likes@)) =~= urns_of(likes@));
            assert(Set::<Seq<char>>::empty().union(liked_uris_of(playlists@)) =~= liked_uris_of(playlists@));
            assert(Set::<Seq<char>>::empty().union(album_uris_of(albums@)) =~= album_uris_of(albums@));
            assert(Set::<Seq<char>>::empty().union(user_urns_of(following@)) =~= user_urns_of(following@));
        }
        AppData {
            likes,
            likes_state: selected_at(selected_row),
            liked_track_urns,
            playlists,
            playlists_state: selected_at(selected_row),
            liked_playlist_uris,
            playlist_tracks: Vec::new(),
            playlist_tracks_state: selected_at(0),
            playlist_tracks_uri: None,
            album_tracks: Vec::new(),
            album_tracks_state: selected_at(0),
            album_tracks_uri: None,
            following_tracks: Vec::new(),
            following_tracks_state: selected_at(0),
            following_tracks_user_urn: None,
            following_likes_tracks: Vec::new(),
            following_likes_state: selected_at(0),
            following_likes_user_urn: None,
            playback_tracks: Vec::new(),
            playback_playlist_uri: None,
            playback_album_uri: None,
            playback_following_user_urn: None,
            albums,
            albums_state: selected_at(selected_row),
            liked_album_uris,
            following,
            following_state: selected_at(selected_row),
            followed_user_urns,
            search_tracks: Vec::new(),
            search_tracks_state: selected_at(0),
            search_playlists: Vec::new(),
            search_playlists_state: selected_at(0),
            search_playlist_tracks: Vec::new(),
            search_playlist_tracks_state: selected_at(0),
            search_playlist_tracks_uri: None,
            search_albums: Vec::new(),
            search_albums_state: selected_at(0),
            search_album_tracks: Vec::new(),
            search_album_tracks_state: selected_at(0),
            search_album_tracks_uri: None,
            search_people: Vec::new(),
            search_people_state: selected_at(0),
            search_people_tracks: Vec::new(),
            search_people_tracks_state: selected_at(0),
            search_people_tracks_user_urn: None,
            search_people_likes_tracks: Vec::new(),
            search_people_likes_state: selected_at(0),
            search_people_likes_user_urn: None,
        }
    }

    /// A page of liked tracks arrived: it is appended and its URNs count as liked.
    pub fn add_likes(&mut self, new_likes: Vec<Track>)
        ensures
            final(self).likes@ == old(self).likes@ + new_likes@,
            final(self).liked_track_urns.view() == old(self).liked_track_urns.view().union(urns_of(new_likes@)),
    {
        insert_track_urns(&mut self.liked_track_urns, &new_likes);
        extend_with(&mut self.likes, new_likes);
    }

    /// A page of playlists arrived: it is appended and the liked ones count as liked.
    pub fn add_playlists(&mut self, new_playlists: Vec<Playlist>)
        ensures
            final(self).playlists@ == old(self).playlists@ + new_playlists@,
            final(self).liked_playlist_uris.view() == old(self).liked_playlist_uris.view().union(liked_uris_of(new_playlists@)),
    {
        insert_liked_playlist_uris(&mut self.liked_playlist_uris, &new_playlists);
        extend_with(&mut self.playlists, new_playlists);
    }

    /// A page of albums arrived: it is appended and its URIs count as liked.
    pub fn add_albums(&mut self, new_albums: Vec<Album>)
        ensures
            final(self).albums@ == old(self).albums@ + new_albums@,
            final(self).liked_album_uris.view() == old(self).liked_album_uris.view().union(album_uris_of(new_albums@)),
    {
        insert_album_uris(&mut self.liked_album_uris, &new_albums);
        extend_with(&mut self.albums, new_albums);
    }

    /// A page of followed users arrived: it is appended and its URNs count as followed.
    pub fn add_following(&mut self, new_following: Vec<Artist>)
        ensures
            final(self).following@ == old(self).following@ + new_following@,
            final(self).followed_user_urns.view() == old(self).followed_user_urns.view().union(user_urns_of(new_following@)),
    {
        insert_user_urns(&mut self.followed_user_urns, &new_following);
        extend_with(&mut self.following, new_following);
    }
}

/// The parts of the interface state that playback decisions leave alone:
/// where the user is, what they typed, the popups, the playback modes and
/// markers, the request numbers and the pending engagements.
pub open spec fn keeps_ui(a: AppState, b: AppState) -> bool {
    &&& a.selected_tab == b.selected_tab
    &&& a.selected_subtab == b.selected_subtab
    &&& a.selected_searchfilter == b.selected_searchfilter
    &&& a.query == b.query
    &&& a.search_query == b.search_query
    &&& a.search_matches@ == b.search_matches@
    &&& a.search_needs_fetch == b.search_needs_fetch
    &&& a.search_input_focused == b.search_input_focused
    &&& a.queue_visible == b.queue_visible
    &&& a.help_visible == b.help_visible
    &&& a.quit_confirm_visible == b.quit_confirm_visible
    &&& a.search_popup_visible == b.search_popup_visible
    &&& a.visualizer_mode == b.visualizer_mode
    &&& a.visualizer_view == b.visualizer_view
    &&& a.progress == b.progress
    &&& a.end_handled_track_urn == b.end_handled_track_urn
    &&& a.preload_triggered_for_track_urn == b.preload_triggered_for_track_urn
    &&& a.repeat_enabled == b.repeat_enabled
    &&& a.shuffle_enabled == b.shuffle_enabled
    &&& a.engagement_queue@ == b.engagement_queue@
    &&& a.search_results_request_id == b.search_results_request_id
    &&& a.playlist_tracks_request_id == b.playlist_tracks_request_id
    &&& a.album_tracks_request_id == b.album_tracks_request_id
    &&& a.following_tracks_request_id == b.following_tracks_request_id
    &&& a.following_likes_request_id == b.following_likes_request_id
}

/// The playback modes and position that editing commands leave alone.
pub open spec fn keeps_playback(a: AppState, b: AppState) -> bool {
    &&& a.shuffle_enabled == b.shuffle_enabled
    &&& a.repeat_enabled == b.repeat_enabled
    &&& a.current_playing_index == b.current_playing_index
    &&& a.playback_source == b.playback_source
}

/// Everything but the table selections: the lists, what they were fetched
/// for, the playing list and the sets of what is liked or followed.
pub open spec fn same_content(a: AppData, b: AppData) -> bool {
    &&& a.likes@ == b.likes@
    &&& a.liked_track_urns == b.liked_track_urns
    &&& a.playlists@ == b.playlists@
    &&& a.liked_playlist_uris == b.liked_playlist_uris
    &&& a.playlist_tracks@ == b.playlist_tracks@
    &&& a.playlist_tracks_uri == b.playlist_tracks_uri
    &&& a.album_tracks@ == b.album_tracks@
    &&& a.album_tracks_uri == b.album_tracks_uri
    &&& a.following_tracks@ == b.following_tracks@
    &&& a.following_tracks_user_urn == b.following_tracks_user_urn
    &&& a.following_likes_tracks@ == b.following_likes_tracks@
    &&& a.following_likes_user_urn == b.following_likes_user_urn
    &&& a.playback_tracks@ == b.playback_tracks@
    &&& a.playback_playlist_uri == b.playback_playlist_uri
    &&& a.playback_album_uri == b.playback_album_uri
    &&& a.playback_following_user_urn == b.playback_following_user_urn
    &&& a.albums@ == b.albums@
    &&& a.liked_album_uris == b.liked_album_uris
    &&& a.following@ == b.following@
    &&& a.followed_user_urns == b.followed_user_urns
    &&& a.search_tracks@ == b.search_tracks@
    &&& a.search_playlists@ == b.search_playlists@
    &&& a.search_playlist_tracks@ == b.search_playlist_tracks@
    &&& a.search_playlist_tracks_uri == b.search_playlist_tracks_uri
    &&& a.search_albums@ == b.search_albums@
    &&& a.search_album_tracks@ == b.search_album_tracks@
    &&& a.search_album_tracks_uri == b.search_album_tracks_uri
    &&& a.search_people@ == b.search_people@
    &&& a.search_people_tracks@ == b.search_people_tracks@
    &&& a.search_people_tracks_user_urn == b.search_people_tracks_user_urn
    &&& a.search_people_likes_tracks@ == b.search_people_likes_tracks@
    &&& a.search_people_likes_user_urn == b.search_people_likes_user_urn
}

/// The lists that playback decisions leave alone: everything shown except
/// the playing list and the table selections.
pub open spec fn keeps_lists(a: AppData, b: AppData) -> bool {
    &&& a.likes@ == b.likes@
    &&& a.playlists@ == b.playlists@
    &&& a.albums@ == b.albums@
    &&& a.following@ == b.following@
    &&& a.playlist_tracks@ == b.playlist_tracks@
    &&& a.album_tracks@ == b.album_tracks@
    &&& a.following_tracks@ == b.following_tracks@
    &&& a.following_likes_tracks@ == b.following_likes_tracks@
    &&& a.search_tracks@ == b.search_tracks@
    &&& a.playlist_tracks_uri == b.playlist_tracks_uri
    &&& a.album_tracks_uri == b.album_tracks_uri
    &&& a.following_tracks_user_urn == b.following_tracks_user_urn
    &&& a.following_likes_user_urn == b.following_likes_user_urn
    &&& a.liked_track_urns == b.liked_track_urns
    &&& a.liked_playlist_uris == b.liked_playlist_uris
    &&& a.liked_album_uris == b.liked_album_uris
    &&& a.followed_user_urns == b.followed_user_urns
}

/// Tracks of a response replace a list only when the response answers the
/// newest request; the selection then returns to the top. Older responses
/// are dropped.
pub fn accept_tracks(list: &mut Vec<Track>, sel: &mut TableSel, request_id: u64, current_request_id: u64, tracks: Vec<Track>) -> (accepted: bool)
    ensures
        accepted == (request_id == current_request_id),
        accepted ==> final(list)@ == tracks@ && final(sel).selected == Some(0usize) && final(sel).offset == old(sel).offset,
        !accepted ==> final(list)@ == old(list)@ && *final(sel) == *old(sel),
{
    if request_id == current_request_id {
        *list = tracks;
        sel.select(Some(0));
        true
    } else {
        false
    }
}

/// Results of any kind replace a list only when they answer the newest
/// request; the selection then returns to the top. Older answers are dropped.
pub fn accept_list<T>(list: &mut Vec<T>, sel: &mut TableSel, request_id: u64, current_request_id: u64, items: Vec<T>) -> (accepted: bool)
    ensures
        accepted == (request_id == current_request_id),
        accepted ==> final(list)@ == items@ && final(sel).selected == Some(0usize) && final(sel).offset == old(sel).offset,
        !accepted ==> final(list)@ == old(list)@ && *final(sel) == *old(sel),
{
    if request_id == current_request_id {
        *list = items;
        sel.select(Some(0));
        true
    } else {
        false
    }
}

/// Rows of the collection table of a library section.
pub fn table_rows_count(selected_subtab: usize, data: &AppData) -> (r: usize)
    ensures
        r == (if selected_subtab == 0 { data.likes@.len() } else if selected_subtab == 1 { data.playlists@.len() }
            else if selected_subtab == 2 { data.albums@.len() } else if selected_subtab == 3 { data.following@.len() } else { 0 }),
{
    if selected_subtab == 0 {
        data.likes.len()
    } else if selected_subtab == 1 {
        data.playlists.len()
    } else if selected_subtab == 2 {
        data.albums.len()
    } else if selected_subtab == 3 {
        data.following.len()
    } else {
        0
    }
}

} // verus!
