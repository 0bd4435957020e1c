use vstd::prelude::*;

use crate::models::Track;
use crate::player::{PlaybackOutcome, is_current_playback_failure};
use crate::queue::{build_queue, is_built_queue, take_next_recovery_candidate, RecoveryCandidate, first_valid};
use crate::session::{AppData, AppState, keeps_ui, keeps_lists};
use crate::text::str_eq;
use crate::state::{clone_opt, clone_tracks, snapshot_view, FollowingTracksFocus, PlaybackSource, QueuedTrack};

verus! {

/// What the interface asks of the player.
#[derive(Debug)]
pub enum PlayerRequest {
    Play(Track),
    Pause,
    Resume,
    VolumeUp,
    VolumeDown,
    FastForward,
    Rewind,
    /// Restart the current track at a position in milliseconds.
    Seek(u64),
    PreloadNext(Track),
}

/// What the interface knows of the player when it decides.
#[derive(Debug)]
pub struct PlayerStatus {
    pub is_playing: bool,
    pub is_seeking: bool,
    pub current_track: Track,
    pub progress_ms: u64,
}

/// How long a playback failure stays in the status line, in milliseconds.
pub const PLAYBACK_ERROR_NOTICE_MS: u64 = 6000;

/// A playback failure shown in the status line since a moment.
#[derive(Debug)]
pub struct PlaybackErrorNotice {
    pub message: String,
    pub shown_at_ms: u64,
}

impl PlaybackErrorNotice {
    pub fn new(message: &str, now_ms: u64) -> (r: Self)
        ensures
            r.message@ == message@,
            r.shown_at_ms == now_ms,
    {
        PlaybackErrorNotice { message: message.to_string(), shown_at_ms: now_ms }
    }

    /// The message while the notice shows: from the moment it was shown for
    /// `PLAYBACK_ERROR_NOTICE_MS` milliseconds.
    pub fn message_at(&self, now_ms: u64) -> (r: Option<&str>)
        ensures
            (self.shown_at_ms <= now_ms < self.shown_at_ms + PLAYBACK_ERROR_NOTICE_MS) ==> (r matches Some(m) && m@ == self.message@),
            now_ms >= self.shown_at_ms + PLAYBACK_ERROR_NOTICE_MS ==> r is None,
            now_ms < self.shown_at_ms ==> (r matches Some(m) && m@ == self.message@),
    {
        let elapsed = if now_ms > self.shown_at_ms { now_ms - self.shown_at_ms } else { 0 };
        if elapsed < PLAYBACK_ERROR_NOTICE_MS {
            Some(self.message.as_str())
        } else {
            None
        }
    }
}

/// The list that automatic playback advances through.
pub open spec fn active_list(state: AppState, data: AppData) -> Seq<Track> {
    if state.playback_source == PlaybackSource::Likes { data.likes@ } else { data.playback_tracks@ }
}

/// The queue entry of what is playing now: the manually chosen track if one
/// overrides the list, else the list's current track.
pub open spec fn current_entry_matches(state: AppState, data: AppData, r: Option<QueuedTrack>) -> bool {
    match state.override_playing {
        Some(o) => r matches Some(q) && q.same_as(o),
        None => match state.current_playing_index {
            None => r is None,
            Some(idx) => if idx >= active_list(state, data).len() {
                r is None
            } else {
                r matches Some(q) && {
                    &&& q.source == state.playback_source
                    &&& q.index == idx
                    &&& q.track == active_list(state, data)[idx as int]
                    &&& snapshot_view(q.tracks_snapshot) == (if state.playback_source == PlaybackSource::Likes { None } else { Some(data.playback_tracks@) })
                    &&& q.playlist_uri == (if state.playback_source == PlaybackSource::Playlist { data.playback_playlist_uri } else { None })
                    &&& q.album_uri == (if state.playback_source == PlaybackSource::Album { data.playback_album_uri } else { None })
                    &&& q.following_user_urn == (if state.playback_source == PlaybackSource::FollowingPublished
                        || state.playback_source == PlaybackSource::FollowingLikes { data.playback_following_user_urn } else { None })
                    &&& !q.user_added
                }
            },
        },
    }
}

/// The history after playback moves on from what played: the entry that
/// described it (where there is one) is pushed, else the history stays.
pub open spec fn history_advanced(s0: AppState, d0: AppData, s1: AppState) -> bool {
    exists|e: Option<QueuedTrack>| #[trigger] current_entry_matches(s0, d0, e) && match e {
        Some(q) => s1.playback_history@ == s0.playback_history@.push(q),
        None => s1.playback_history@ == s0.playback_history@,
    }
}

/// Describes what is playing now as a queue entry, so it can go to the history.
pub fn queued_from_current(state: &AppState, data: &AppData) -> (r: Option<QueuedTrack>)
    ensures
        current_entry_matches(*state, *data, r),
{
    if let Some(o) = &state.override_playing {
        return Some(o.clone());
    }
    let idx = match state.current_playing_index {
        Some(i) => i,
        None => return None,
    };
    let source = state.playback_source;
    match source {
        PlaybackSource::Likes => {
            if idx >= data.likes.len() {
                return None;
            }
            Some(QueuedTrack {
                source,
                index: idx,
                track: data.likes[idx].clone(),
                tracks_snapshot: None,
                playlist_uri: None,
                album_uri: None,
                following_user_urn: None,
                user_added: false,
            })
        },
        _ => {
            if idx >= data.playback_tracks.len() {
                return None;
            }
            let playlist_uri = if source == PlaybackSource::Playlist { clone_opt(&data.playback_playlist_uri) } else { None };
            let album_uri = if source == PlaybackSource::Album { clone_opt(&data.playback_album_uri) } else { None };
            let following_user_urn = if source == PlaybackSource::FollowingPublished || source == PlaybackSource::FollowingLikes {
                clone_opt(&data.playback_following_user_urn)
            } else {
                None
            };
            Some(QueuedTrack {
                source,
                index: idx,
                track: data.playback_tracks[idx].clone(),
                tracks_snapshot: Some(clone_tracks(&data.playback_tracks)),
                playlist_uri,
                album_uri,
                following_user_urn,
                user_added: false,
            })
        },
    }
}

/// The list a queue entry resumes: its snapshot, or else the list its source shows now.
pub open spec fn entry_list(queued: QueuedTrack, data: AppData) -> Seq<Track> {
    match queued.tracks_snapshot {
        Some(v) => v@,
        None => match queued.source {
            PlaybackSource::Playlist => data.playlist_tracks@,
            PlaybackSource::Album => data.album_tracks@,
            PlaybackSource::FollowingPublished => data.following_tracks@,
            PlaybackSource::FollowingLikes => data.following_likes_tracks@,
            PlaybackSource::Likes => Seq::empty(),
        },
    }
}

/// Plays a queue entry. It overrides the list's current track; unless the
/// context is kept, its list becomes the playing list, the automatic queue
/// is rebuilt after it, and the visible table follows it when it shows that
/// list. Returns the track to start.
#[verifier::rlimit(60)]
#[verifier::spinoff_prover]
pub fn play_queued_track(queued: QueuedTrack, state: &mut AppState, data: &mut AppData, preserve_context: bool) -> (r: Track)
    ensures
        r == queued.track,
        final(state).override_playing matches Some(o) && o.same_as(queued),
        preserve_context ==> {
            &&& final(state).playback_source == old(state).playback_source
            &&& final(state).current_playing_index == old(state).current_playing_index
            &&& final(state).auto_queue@ == old(state).auto_queue@
            &&& final(data).playback_tracks@ == old(data).playback_tracks@
        },
        !preserve_context ==> {
            &&& final(state).playback_source == queued.source
            &&& final(state).current_playing_index == Some(queued.index)
            &&& queued.source == PlaybackSource::Likes ==> {
                &&& final(data).playback_playlist_uri is None
                &&& final(data).playback_album_uri is None
                &&& final(data).playback_following_user_urn is None
                &&& is_built_queue(final(state).auto_queue@, queued.index, old(data).likes@, old(state).shuffle_enabled)
                &&& old(state).selected_tab == 0 && old(state).selected_subtab == 0 ==>
                    final(state).selected_row == queued.index && final(data).likes_state.selected == Some(queued.index)
            }
            &&& queued.source != PlaybackSource::Likes ==> {
                let tracks = entry_list(queued, *old(data));
                if tracks.len() == 0 || queued.index >= tracks.len() {
                    &&& final(data).playback_tracks@ == old(data).playback_tracks@
                    &&& final(state).auto_queue@ == old(state).auto_queue@
                } else {
                    &&& final(data).playback_tracks@ == tracks
                    &&& final(data).playback_playlist_uri == queued.playlist_uri
                    &&& final(data).playback_album_uri == queued.album_uri
                    &&& final(data).playback_following_user_urn == queued.following_user_urn
                    &&& is_built_queue(final(state).auto_queue@, queued.index, tracks, old(state).shuffle_enabled)
                }
            }
        },
        final(state).manual_queue@ == old(state).manual_queue@,
        final(state).playback_history@ == old(state).playback_history@,
        keeps_ui(*final(state), *old(state)),
        keeps_lists(*final(data), *old(data)),
{
    let track = queued.track.clone();
    state.override_playing = Some(queued.clone());
    if preserve_context {
        return track;
    }
    state.playback_source = queued.source;
    state.current_playing_index = Some(queued.index);
    if queued.source == PlaybackSource::Likes {
        data.playback_playlist_uri = None;
        data.playback_album_uri = None;
        data.playback_following_user_urn = None;
        state.auto_queue = build_queue(queued.index, &data.likes, state.shuffle_enabled);
        if state.selected_tab == 0 && state.selected_subtab == 0 {
            state.selected_row = queued.index;
            data.likes_state.select(Some(queued.index));
        }
    } else {
        resume_entry_list(queued, state, data);
    }
    track
}

/// Makes the list of a (non-likes) queue entry the playing list, when the
/// entry still indexes it, and lets the visible table follow.
#[verifier::rlimit(40)]
fn resume_entry_list(queued: QueuedTrack, state: &mut AppState, data: &mut AppData)
    ensures
        ({
            let tracks = entry_list(queued, *old(data));
            if tracks.len() == 0 || queued.index >= tracks.len() {
                &&& final(data).playback_tracks@ == old(data).playback_tracks@
                &&& final(state).auto_queue@ == old(state).auto_queue@
            } else {
                &&& final(data).playback_tracks@ == tracks
                &&& final(data).playback_playlist_uri == queued.playlist_uri
                &&& final(data).playback_album_uri == queued.album_uri
                &&& final(data).playback_following_user_urn == queued.following_user_urn
                &&& is_built_queue(final(state).auto_queue@, queued.index, tracks, old(state).shuffle_enabled)
            }
        }),
        final(state).override_playing == old(state).override_playing,
        final(state).playback_source == old(state).playback_source,
        final(state).current_playing_index == old(state).current_playing_index,
        final(state).manual_queue@ == old(state).manual_queue@,
        final(state).playback_history@ == old(state).playback_history@,
        keeps_ui(*final(state), *old(state)),
        keeps_lists(*final(data), *old(data)),
{
    let source = queued.source;
    let index = queued.index;
    let tracks = match queued.tracks_snapshot {
        Some(v) => v,
        None => match source {
            PlaybackSource::Playlist => clone_tracks(&data.playlist_tracks),
            PlaybackSource::Album => clone_tracks(&data.album_tracks),
            PlaybackSource::FollowingPublished => clone_tracks(&data.following_tracks),
            PlaybackSource::FollowingLikes => clone_tracks(&data.following_likes_tracks),
            PlaybackSource::Likes => Vec::new(),
        },
    };
    if tracks.len() == 0 || index >= tracks.len() {
        return;
    }
    data.playback_tracks = tracks;
    data.playback_playlist_uri = queued.playlist_uri;
    data.playback_album_uri = queued.album_uri;
    data.playback_following_user_urn = queued.following_user_urn;
    state.auto_queue = build_queue(index, &data.playback_tracks, state.shuffle_enabled);
    follow_in_visible_table(source, index, state, data);
}

/// Whether the library's visible table shows the list that `source` plays
/// from: the same playlist, album or followed user, in the matching section.
pub open spec fn shows_playing_list(source: PlaybackSource, state: AppState, data: AppData) -> bool {
    state.selected_tab == 0 && (
        (source == PlaybackSource::Playlist && state.selected_subtab == 1 && data.playback_playlist_uri is Some
            && opt_view(data.playback_playlist_uri) == opt_view(data.playlist_tracks_uri))
        || (source == PlaybackSource::Album && state.selected_subtab == 2 && data.playback_album_uri is Some
            && opt_view(data.playback_album_uri) == opt_view(data.album_tracks_uri))
        || (source == PlaybackSource::FollowingPublished && state.selected_subtab == 3 && data.playback_following_user_urn is Some
            && opt_view(data.playback_following_user_urn) == opt_view(data.following_tracks_user_urn))
        || (source == PlaybackSource::FollowingLikes && state.selected_subtab == 3 && data.playback_following_user_urn is Some
            && opt_view(data.playback_following_user_urn) == opt_view(data.following_likes_user_urn)))
}

/// Moves the visible selection to the playing entry when the visible table
/// shows the list it plays from.
fn follow_in_visible_table(source: PlaybackSource, index: usize, state: &mut AppState, data: &mut AppData)
    ensures
        shows_playing_list(source, *old(state), *old(data)) ==> match source {
            PlaybackSource::Playlist => final(state).selected_playlist_track_row == index
                && final(data).playlist_tracks_state.selected == Some(index),
            PlaybackSource::Album => final(state).selected_album_track_row == index
                && final(data).album_tracks_state.selected == Some(index),
            PlaybackSource::FollowingPublished => final(state).selected_following_track_row == index
                && final(state).following_tracks_focus == FollowingTracksFocus::Published
                && final(data).following_tracks_state.selected == Some(index),
            PlaybackSource::FollowingLikes => final(state).selected_following_like_row == index
                && final(state).following_tracks_focus == FollowingTracksFocus::Likes
                && final(data).following_likes_state.selected == Some(index),
            PlaybackSource::Likes => true,
        },
        !shows_playing_list(source, *old(state), *old(data)) ==> *final(state) == *old(state) && *final(data) == *old(data),
        final(state).override_playing == old(state).override_playing,
        final(state).playback_source == old(state).playback_source,
        final(state).current_playing_index == old(state).current_playing_index,
        final(state).auto_queue@ == old(state).auto_queue@,
        final(state).manual_queue@ == old(state).manual_queue@,
        final(state).playback_history@ == old(state).playback_history@,
        keeps_ui(*final(state), *old(state)),
        keeps_lists(*final(data), *old(data)),
        final(data).playback_tracks@ == old(data).playback_tracks@,
        final(data).playback_playlist_uri == old(data).playback_playlist_uri,
        final(data).playback_album_uri == old(data).playback_album_uri,
        final(data).playback_following_user_urn == old(data).playback_following_user_urn,
{
    if state.selected_tab != 0 {
        return;
    }
    if source == PlaybackSource::Playlist && state.selected_subtab == 1
        && data.playback_playlist_uri.is_some() && opt_str_eq(&data.playback_playlist_uri, &data.playlist_tracks_uri) {
        state.selected_playlist_track_row = index;
        data.playlist_tracks_state.select(Some(index));
    } else if source == PlaybackSource::Album && state.selected_subtab == 2
        && data.playback_album_uri.is_some() && opt_str_eq(&data.playback_album_uri, &data.album_tracks_uri) {
        state.selected_album_track_row = index;
        data.album_tracks_state.select(Some(index));
    } else if source == PlaybackSource::FollowingPublished && state.selected_subtab == 3
        && data.playback_following_user_urn.is_some() && opt_str_eq(&data.playback_following_user_urn, &data.following_tracks_user_urn) {
        state.selected_following_track_row = index;
        state.following_tracks_focus = FollowingTracksFocus::Published;
        data.following_tracks_state.select(Some(index));
    } else if source == PlaybackSource::FollowingLikes && state.selected_subtab == 3
        && data.playback_following_user_urn.is_some() && opt_str_eq(&data.playback_following_user_urn, &data.following_likes_user_urn) {
        state.selected_following_like_row = index;
        state.following_tracks_focus = FollowingTracksFocus::Likes;
        data.following_likes_state.select(Some(index));
    }
}

/// The text of an optional string.
pub open spec fn opt_view(o: Option<String>) -> Option<Seq<char>> {
    match o {
        Some(s) => Some(s@),
        None => None,
    }
}

/// Whether two optional texts are equal.
pub fn opt_str_eq(a: &Option<String>, b: &Option<String>) -> (r: bool)
    ensures
        r == (opt_view(*a) == opt_view(*b)),
{
    match (a, b) {
        (Some(x), Some(y)) => str_eq(x.as_str(), y.as_str()),
        (None, None) => true,
        _ => false,
    }
}

/// What recovery after a failed start does: the head of the manual queue
/// is played and dropped (keeping the list's context); else the first valid
/// automatic entry is played, the automatic queue keeps only what follows it
/// and the entry becomes current; else playback pauses with an empty
/// automatic queue. Recovery never grows the queues, shrinks them unless it
/// pauses, and leaves the source, the history, the interface and the lists.
pub open spec fn recovered(s0: AppState, d0: AppData, s1: AppState, d1: AppData, r: PlayerRequest) -> bool {
    &&& (s0.manual_queue@.len() > 0 ==> {
        &&& r == PlayerRequest::Play(s0.manual_queue@[0].track)
        &&& s1.manual_queue@ == s0.manual_queue@.drop_first()
        &&& s1.auto_queue@ == s0.auto_queue@
        &&& s1.override_playing matches Some(o) && o.same_as(s0.manual_queue@[0])
        &&& s1.current_playing_index == s0.current_playing_index
    })
    &&& (s0.manual_queue@.len() == 0 ==> match first_valid(s0.auto_queue@, active_list(s0, d0).len() as int, 0) {
        Some(p) => {
            let index = s0.auto_queue@[p];
            &&& r == PlayerRequest::Play(active_list(s0, d0)[index as int])
            &&& s1.auto_queue@ == s0.auto_queue@.subrange(p + 1, s0.auto_queue@.len() as int)
            &&& s1.override_playing is None
            &&& s1.current_playing_index == Some(index)
        },
        None => r is Pause && s1.auto_queue@.len() == 0 && s1.current_playing_index == s0.current_playing_index,
    })
    &&& (s0.manual_queue@.len() == 0 ==> s1.manual_queue@.len() == 0)
    &&& (s1.manual_queue@.len() + s1.auto_queue@.len() <= s0.manual_queue@.len() + s0.auto_queue@.len())
    &&& (!(r is Pause) ==> s1.manual_queue@.len() + s1.auto_queue@.len() < s0.manual_queue@.len() + s0.auto_queue@.len())
    &&& (s1.playback_source == s0.playback_source)
    &&& (s1.playback_history@ == s0.playback_history@)
    &&& (keeps_ui(s1, s0))
    &&& (keeps_lists(d1, d0))
}

/// Advances through the already-built queues after a failed start without
/// rebuilding a cycle: the head of the manual queue (keeping the list's
/// context), else the next valid entry of the automatic queue, else pause.
#[verifier::spinoff_prover]
#[verifier::rlimit(40)]
pub fn recover_from_playback_failure(state: &mut AppState, data: &mut AppData) -> (r: PlayerRequest)
    ensures
        recovered(*old(state), *old(data), *final(state), *final(data), r),
{
    let candidate = if state.playback_source == PlaybackSource::Likes {
        take_next_recovery_candidate(&mut state.manual_queue, &mut state.auto_queue, &data.likes)
    } else {
        take_next_recovery_candidate(&mut state.manual_queue, &mut state.auto_queue, &data.playback_tracks)
    };
    match candidate {
        Some(RecoveryCandidate::Manual(queued)) => {
            let track = play_queued_track(queued, state, data, true);
            PlayerRequest::Play(track)
        },
        Some(RecoveryCandidate::Automatic { index, track }) => {
            state.override_playing = None;
            state.current_playing_index = Some(index);
            PlayerRequest::Play(track)
        },
        None => PlayerRequest::Pause,
    }
}

/// Reacts to a playback outcome: only the failure of the newest request is
/// shown (from `now_ms`) and triggers recovery; stale results and successes
/// change nothing.
pub fn handle_playback_outcome(
    state: &mut AppState,
    data: &mut AppData,
    notice: &mut Option<PlaybackErrorNotice>,
    outcome: &PlaybackOutcome,
    requested_attempt_id: u64,
    now_ms: u64,
) -> (r: Option<PlayerRequest>)
    ensures
        !(outcome matches PlaybackOutcome::Failed { attempt_id, .. } && attempt_id == requested_attempt_id) ==>
            r is None && *final(notice) == *old(notice) && final(state).manual_queue@ == old(state).manual_queue@
            && final(state).auto_queue@ == old(state).auto_queue@,
        !(outcome matches PlaybackOutcome::Failed { attempt_id, .. } && attempt_id == requested_attempt_id) ==>
            *final(state) == *old(state) && *final(data) == *old(data),
        (outcome matches PlaybackOutcome::Failed { attempt_id, message, .. } && attempt_id == requested_attempt_id) ==> {
            &&& r matches Some(p) && recovered(*old(state), *old(data), *final(state), *final(data), p)
            &&& *final(notice) matches Some(n) && n.message@ == outcome->Failed_message@ && n.shown_at_ms == now_ms
        },
{
    if !is_current_playback_failure(outcome, requested_attempt_id) {
        return None;
    }
    if let PlaybackOutcome::Failed { message, .. } = outcome {
        *notice = Some(PlaybackErrorNotice::new(message.as_str(), now_ms));
    }
    Some(recover_from_playback_failure(state, data))
}

/// The list that automatic playback advances through.
pub fn active_tracks<'a>(state: &AppState, data: &'a AppData) -> (r: &'a Vec<Track>)
    ensures
        r@ == active_list(*state, *data),
{
    if state.playback_source == PlaybackSource::Likes { &data.likes } else { &data.playback_tracks }
}

/// Whether an optional text is `Some(s)`.
pub fn opt_is(o: &Option<String>, s: &str) -> (r: bool)
    ensures
        r == (opt_view(*o) == Some(s@)),
{
    match o {
        Some(x) => str_eq(x.as_str(), s),
        None => false,
    }
}

/// Four fifths of a length, rounded down: where preloading of the next track begins.
pub fn preload_threshold(duration_ms: u64) -> (r: u64)
    ensures
        r == (4 * duration_ms) / 5,
{
    (duration_ms / 5) * 4 + (duration_ms % 5) * 4 / 5
}

/// Whether a position lies where the next track is fetched ahead: from four
/// fifths of the length on, until a tenth of a second before the end.
pub open spec fn in_preload_window(progress: u64, duration_ms: u64) -> bool {
    progress >= (4 * duration_ms) / 5 && progress < (if duration_ms < 100 { 0 } else { duration_ms - 100 })
}

/// Whether the track after the current one is known without building the
/// automatic queue: under repeat, or with either queue non-empty.
pub open spec fn queued_next_known(state: AppState) -> bool {
    state.repeat_enabled || state.manual_queue@.len() > 0 || state.auto_queue@.len() > 0
}

/// The track after the current one, where `queued_next_known` holds: under
/// repeat the current track again, else the head of the manual queue, else
/// the first automatic entry (none where it is out of the list).
pub open spec fn queued_next(state: AppState, data: AppData, current_idx: usize) -> Option<Track> {
    let active = active_list(state, data);
    if state.repeat_enabled {
        if current_idx < active.len() { Some(active[current_idx as int]) } else { None }
    } else if state.manual_queue@.len() > 0 {
        Some(state.manual_queue@[0].track)
    } else {
        let next = state.auto_queue@[0];
        if next < active.len() { Some(active[next as int]) } else { None }
    }
}

/// What is fetched ahead of a candidate: a playable track other than the one playing.
pub open spec fn fetched_ahead(candidate: Option<Track>, playing_urn: Seq<char>) -> Option<Track> {
    match candidate {
        Some(t) => if t.track_urn@ != playing_urn && t.playable() { Some(t) } else { None },
        None => None,
    }
}

/// Requests that start or stop playback (as opposed to preloading).
pub open spec fn is_transport(r: PlayerRequest) -> bool {
    r is Play || r is Pause
}

/// The track to fetch ahead: under repeat the current track again, else the
/// head of the manual queue, else the first automatic entry; with both
/// queues empty the automatic queue is built first.
fn next_to_preload(state: &mut AppState, data: &AppData, current_idx: usize) -> (r: Option<Track>)
    ensures
        ({
            let active = active_list(*old(state), *data);
            let auto = old(state).auto_queue@;
            let manual = old(state).manual_queue@;
            &&& old(state).repeat_enabled ==> final(state).auto_queue@ == auto
                && r == (if current_idx < active.len() { Some(active[current_idx as int]) } else { None::<Track> })
            &&& !old(state).repeat_enabled && manual.len() > 0 ==> final(state).auto_queue@ == auto && r == Some(manual[0].track)
            &&& !old(state).repeat_enabled && manual.len() == 0 && auto.len() > 0 ==> final(state).auto_queue@ == auto
                && r == (if auto[0] < active.len() { Some(active[auto[0] as int]) } else { None::<Track> })
            &&& !old(state).repeat_enabled && manual.len() == 0 && auto.len() == 0 ==> {
                let q = final(state).auto_queue@;
                &&& is_built_queue(q, current_idx, active, old(state).shuffle_enabled)
                &&& r == (if q.len() > 0 && q[0] < active.len() { Some(active[q[0] as int]) } else { None::<Track> })
            }
        }),
        keeps_ui(*final(state), *old(state)),
        final(state).manual_queue@ == old(state).manual_queue@,
        final(state).playback_source == old(state).playback_source,
        final(state).current_playing_index == old(state).current_playing_index,
        final(state).override_playing == old(state).override_playing,
        final(state).playback_history@ == old(state).playback_history@,
{
    if state.repeat_enabled {
        let active = active_tracks(state, data);
        if current_idx < active.len() { Some(active[current_idx].clone()) } else { None }
    } else if state.manual_queue.len() > 0 {
        Some(state.manual_queue[0].track.clone())
    } else if state.auto_queue.len() > 0 {
        let next = state.auto_queue[0];
        let active = active_tracks(state, data);
        if next < active.len() { Some(active[next].clone()) } else { None }
    } else {
        let q = build_queue(current_idx, active_tracks(state, data), state.shuffle_enabled);
        state.auto_queue = q;
        if state.auto_queue.len() > 0 {
            let next = state.auto_queue[0];
            let active = active_tracks(state, data);
            if next < active.len() { Some(active[next].clone()) } else { None }
        } else {
            None
        }
    }
}

/// Past four fifths of the playing track, and more than a tenth of a second
/// before its end, the next track is fetched ahead once per track; a
/// different, playable next track only.
fn tick_preload(state: &mut AppState, data: &AppData, current: &Track) -> (r: Option<Track>)
    ensures
        r matches Some(t) ==> t.track_urn@ != current.track_urn@ && t.playable()
            && opt_view(final(state).preload_triggered_for_track_urn) == Some(current.track_urn@),
        !in_preload_window(old(state).progress, current.duration_ms) || old(state).current_playing_index is None
            || opt_view(old(state).preload_triggered_for_track_urn) == Some(current.track_urn@) ==> r is None,
        in_preload_window(old(state).progress, current.duration_ms) && old(state).current_playing_index is Some
            && opt_view(old(state).preload_triggered_for_track_urn) != Some(current.track_urn@)
            && queued_next_known(*old(state)) ==>
            r == fetched_ahead(queued_next(*old(state), *data, old(state).current_playing_index->0), current.track_urn@),
        old(state).progress >= (if current.duration_ms < 100 { 0 } else { current.duration_ms - 100 }) ==>
            r is None && final(state).auto_queue@ == old(state).auto_queue@,
        opt_view(final(state).preload_triggered_for_track_urn) == Some(current.track_urn@) || final(state).preload_triggered_for_track_urn is None,
        final(state).progress == old(state).progress,
        final(state).end_handled_track_urn == old(state).end_handled_track_urn,
        final(state).repeat_enabled == old(state).repeat_enabled,
        final(state).shuffle_enabled == old(state).shuffle_enabled,
        final(state).playback_source == old(state).playback_source,
        final(state).current_playing_index == old(state).current_playing_index,
        final(state).manual_queue@ == old(state).manual_queue@,
        final(state).override_playing == old(state).override_playing,
        final(state).playback_history@ == old(state).playback_history@,
        final(state).selected_tab == old(state).selected_tab,
        final(state).selected_subtab == old(state).selected_subtab,
{
    let d = current.duration_ms;
    let urn = current.track_urn.as_str();
    let progress = state.progress;
    let until_end_100 = if d < 100 { 0 } else { d - 100 };
    let should_preload = progress >= preload_threshold(d) && progress < until_end_100
        && !opt_is(&state.preload_triggered_for_track_urn, urn);
    let mut r: Option<Track> = None;
    if should_preload {
        if let Some(current_idx) = state.current_playing_index {
            if let Some(t) = next_to_preload(state, data, current_idx) {
                if !str_eq(t.track_urn.as_str(), urn) && t.is_playable() {
                    state.preload_triggered_for_track_urn = Some(current.track_urn.clone());
                    r = Some(t);
                }
            }
        }
    }
    if !opt_is(&state.preload_triggered_for_track_urn, urn) {
        state.preload_triggered_for_track_urn = None;
    }
    r
}

/// At the end of the playing track, once per track: under repeat the same
/// track again; else the head of the manual queue, else the next automatic
/// entry (the automatic queue is built when both queues are empty), each
/// recording what played in the history; with nothing left, pause.
#[verifier::spinoff_prover]
#[verifier::rlimit(60)]
fn tick_end(state: &mut AppState, data: &mut AppData, current: &Track) -> (r: Option<PlayerRequest>)
    requires
        opt_view(old(state).end_handled_track_urn) != Some(current.track_urn@),
    ensures
        opt_view(final(state).end_handled_track_urn) == Some(current.track_urn@),
        old(state).repeat_enabled && old(state).current_playing_index is Some
            && old(state).current_playing_index->0 < active_list(*old(state), *old(data)).len() ==>
            r == Some(PlayerRequest::Play(active_list(*old(state), *old(data))[old(state).current_playing_index->0 as int])),
        r matches Some(q) ==> is_transport(q),
        old(state).current_playing_index is None ==> r is None,
        old(state).repeat_enabled || old(state).current_playing_index is None ==>
            final(state).playback_history@ == old(state).playback_history@
            && final(state).manual_queue@ == old(state).manual_queue@,
        !old(state).repeat_enabled && old(state).current_playing_index is Some && old(state).manual_queue@.len() > 0 ==>
            r == Some(PlayerRequest::Play(old(state).manual_queue@[0].track))
            && final(state).manual_queue@ == old(state).manual_queue@.drop_first()
            && history_advanced(*old(state), *old(data), *final(state)),
        !old(state).repeat_enabled && old(state).current_playing_index is Some && old(state).manual_queue@.len() == 0
            && old(state).auto_queue@.len() > 0 ==> {
            let next = old(state).auto_queue@[0];
            let active = active_list(*old(state), *old(data));
            &&& next < active.len() ==> r == Some(PlayerRequest::Play(active[next as int]))
                && final(state).current_playing_index == Some(next)
                && history_advanced(*old(state), *old(data), *final(state))
            &&& next >= active.len() ==> r is None && final(state).playback_history@ == old(state).playback_history@
            &&& final(state).auto_queue@ == old(state).auto_queue@.drop_first()
            &&& final(state).manual_queue@ == old(state).manual_queue@
        },
        !old(state).repeat_enabled && old(state).current_playing_index is Some && old(state).manual_queue@.len() == 0
            && old(state).auto_queue@.len() == 0 ==> exists|q: Seq<usize>| {
            &&& #[trigger] is_built_queue(q, old(state).current_playing_index->0, active_list(*old(state), *old(data)), old(state).shuffle_enabled)
            &&& q.len() == 0 ==> r == Some(PlayerRequest::Pause) && final(state).current_playing_index is None
                && final(state).playback_history@ == old(state).playback_history@
            &&& q.len() > 0 ==> r == Some(PlayerRequest::Play(active_list(*old(state), *old(data))[q[0] as int]))
                && final(state).current_playing_index == Some(q[0])
                && final(state).auto_queue@ == q.drop_first()
                && history_advanced(*old(state), *old(data), *final(state))
            &&& final(state).manual_queue@ == old(state).manual_queue@
        },
        final(state).progress == old(state).progress,
        final(state).repeat_enabled == old(state).repeat_enabled,
        final(state).shuffle_enabled == old(state).shuffle_enabled,
        final(state).playback_source == old(state).playback_source,
{
    state.end_handled_track_urn = Some(current.track_urn.clone());
    proof {
        assert(opt_view(state.end_handled_track_urn) == Some(current.track_urn@));
    }
    let current_idx = match state.current_playing_index {
        Some(i) => i,
        None => return None,
    };
    if state.repeat_enabled {
        let active = active_tracks(state, data);
        if current_idx < active.len() {
            let t = active[current_idx].clone();
            state.override_playing = None;
            return Some(PlayerRequest::Play(t));
        }
        return None;
    }
    if state.manual_queue.len() > 0 {
        let ghost mid = *state;
        let ghost mid_data = *data;
        let t = advance_manual(state, data);
        proof {
            lemma_history_advanced_from_same_playback(mid.playback_history@, mid, mid_data, *old(state), *old(data), *state);
        }
        return Some(PlayerRequest::Play(t));
    }
    if state.auto_queue.len() == 0 {
        let q = build_queue(current_idx, active_tracks(state, data), state.shuffle_enabled);
        state.auto_queue = q;
    }
    if state.auto_queue.len() > 0 {
        let ghost mid = *state;
        let r = advance_auto(state, data);
        proof {
            if r is Some {
                lemma_history_advanced_from_same_playback(mid.playback_history@, mid, *data, *old(state), *old(data), *state);
            }
        }
        r
    } else {
        state.current_playing_index = None;
        Some(PlayerRequest::Pause)
    }
}

/// Moves history along across states that play the same: where `a` and `b`
/// play the same entry with the same history, what holds of moving on
/// from `a` holds of moving on from `b`.
proof fn lemma_history_advanced_from_same_playback(history: Seq<QueuedTrack>, a: AppState, da: AppData, b: AppState, db: AppData, s1: AppState)
    requires
        a.override_playing == b.override_playing,
        a.current_playing_index == b.current_playing_index,
        a.playback_source == b.playback_source,
        a.playback_history@ == history,
        b.playback_history@ == history,
        da.playback_tracks@ == db.playback_tracks@,
        da.likes@ == db.likes@,
        da.playback_playlist_uri == db.playback_playlist_uri,
        da.playback_album_uri == db.playback_album_uri,
        da.playback_following_user_urn == db.playback_following_user_urn,
        history_advanced(a, da, s1),
    ensures
        history_advanced(b, db, s1),
{
    let e = choose|e: Option<QueuedTrack>| #[trigger] current_entry_matches(a, da, e) && match e {
        Some(q) => s1.playback_history@ == a.playback_history@.push(q),
        None => s1.playback_history@ == a.playback_history@,
    };
    assert(active_list(a, da) == active_list(b, db));
    assert(current_entry_matches(b, db, e));
}

/// At a track's end, the head of the manual queue plays (keeping the list's
/// context) and what played goes to the history.
#[verifier::spinoff_prover]
fn advance_manual(state: &mut AppState, data: &mut AppData) -> (t: Track)
    requires
        old(state).manual_queue@.len() > 0,
    ensures
        t == old(state).manual_queue@[0].track,
        final(state).manual_queue@ == old(state).manual_queue@.drop_first(),
        history_advanced(*old(state), *old(data), *final(state)),
        final(state).end_handled_track_urn == old(state).end_handled_track_urn,
        final(state).progress == old(state).progress,
        final(state).repeat_enabled == old(state).repeat_enabled,
        final(state).shuffle_enabled == old(state).shuffle_enabled,
        final(state).playback_source == old(state).playback_source,
        final(state).current_playing_index == old(state).current_playing_index,
        final(state).auto_queue@ == old(state).auto_queue@,
        final(state).override_playing matches Some(o) && o.same_as(old(state).manual_queue@[0]),
        final(data).playback_tracks@ == old(data).playback_tracks@,
        keeps_lists(*final(data), *old(data)),
{
    let queued = state.manual_queue.pop_front().unwrap();
    let e = queued_from_current(state, data);
    let ghost g = e;
    if let Some(cur) = e {
        state.playback_history.push(cur);
    }
    let t = play_queued_track(queued, state, data, true);
    proof {
        assert(old(state).manual_queue@.drop_first() =~= old(state).manual_queue@.subrange(1, old(state).manual_queue@.len() as int));
        assert(current_entry_matches(*old(state), *old(data), g));
    }
    t
}

/// At a track's end with the manual queue empty, the next automatic entry
/// plays when the list still has it, and what played goes to the history.
#[verifier::spinoff_prover]
fn advance_auto(state: &mut AppState, data: &AppData) -> (r: Option<PlayerRequest>)
    requires
        old(state).auto_queue@.len() > 0,
    ensures
        ({
            let next = old(state).auto_queue@[0];
            let active = active_list(*old(state), *data);
            &&& next < active.len() ==> r == Some(PlayerRequest::Play(active[next as int]))
                && final(state).current_playing_index == Some(next)
                && history_advanced(*old(state), *data, *final(state))
            &&& next >= active.len() ==> r is None && final(state).playback_history@ == old(state).playback_history@
                && final(state).current_playing_index == old(state).current_playing_index
        }),
        final(state).auto_queue@ == old(state).auto_queue@.drop_first(),
        final(state).manual_queue@ == old(state).manual_queue@,
        final(state).end_handled_track_urn == old(state).end_handled_track_urn,
        final(state).progress == old(state).progress,
        final(state).repeat_enabled == old(state).repeat_enabled,
        final(state).shuffle_enabled == old(state).shuffle_enabled,
        final(state).playback_source == old(state).playback_source,
{
    let next_idx = state.auto_queue.pop_front().unwrap();
    proof {
        assert(old(state).auto_queue@.drop_first() =~= old(state).auto_queue@.subrange(1, old(state).auto_queue@.len() as int));
    }
    if next_idx < active_tracks(state, data).len() {
        let e = queued_from_current(state, data);
        let ghost g = e;
        if let Some(cur) = e {
            state.playback_history.push(cur);
        }
        assert(current_entry_matches(*old(state), *data, g));
        let t = active_tracks(state, data)[next_idx].clone();
        state.override_playing = None;
        state.current_playing_index = Some(next_idx);
        Some(PlayerRequest::Play(t))
    } else {
        None
    }
}

/// The periodic playback step. It records the player's progress; past four
/// fifths of a playing track it preloads the next track once; at the end
/// of a playing track it advances once: the same track again under repeat,
/// else the head of the manual queue, else the next automatic entry
/// (building that queue when both are empty), else it pauses.
pub fn on_tick(state: &mut AppState, data: &mut AppData, status: &PlayerStatus) -> (r: Vec<PlayerRequest>)
    ensures
        final(state).progress == status.progress_ms,
        r@.len() <= 2,
        !(status.is_playing && status.current_track.track_urn@.len() > 0) ==> {
            &&& r@.len() == 0
            &&& final(state).preload_triggered_for_track_urn is None
            &&& final(state).manual_queue@ == old(state).manual_queue@
            &&& final(state).auto_queue@ == old(state).auto_queue@
            &&& final(state).end_handled_track_urn == old(state).end_handled_track_urn
        },
        status.is_playing && status.current_track.track_urn@.len() > 0 ==> {
            let d = status.current_track.duration_ms;
            let at_end = status.progress_ms >= (if d < 50 { 0 } else { d - 50 }) && d > 0;
            let urn = status.current_track.track_urn@;
            &&& !at_end ==> final(state).end_handled_track_urn is None
            &&& at_end ==> opt_view(final(state).end_handled_track_urn) == Some(urn)
            &&& (!at_end || opt_view(old(state).end_handled_track_urn) == Some(urn)) ==>
                forall|k: int| 0 <= k < r@.len() ==> !is_transport(#[trigger] r@[k])
            &&& forall|k: int| 0 <= k < r@.len() && (#[trigger] r@[k]) is PreloadNext ==>
                r@[k]->PreloadNext_0.track_urn@ != urn && r@[k]->PreloadNext_0.playable()
                && opt_view(final(state).preload_triggered_for_track_urn) == Some(urn)
            &&& !in_preload_window(status.progress_ms, d) || old(state).current_playing_index is None
                || opt_view(old(state).preload_triggered_for_track_urn) == Some(urn) ==>
                forall|k: int| 0 <= k < r@.len() ==> !((#[trigger] r@[k]) is PreloadNext)
            &&& in_preload_window(status.progress_ms, d) && old(state).current_playing_index is Some
                && opt_view(old(state).preload_triggered_for_track_urn) != Some(urn)
                && queued_next_known(*old(state)) ==> match fetched_ahead(queued_next(*old(state), *old(data), old(state).current_playing_index->0), urn) {
                    Some(t) => r@.len() >= 1 && r@[0] == PlayerRequest::PreloadNext(t),
                    None => forall|k: int| 0 <= k < r@.len() ==> !((#[trigger] r@[k]) is PreloadNext),
                }
        },
        ({
            let d = status.current_track.duration_ms;
            let urn = status.current_track.track_urn@;
            let first_end = status.is_playing && urn.len() > 0 && d > 0 && status.progress_ms >= (if d < 50 { 0 } else { d - 50 })
                && opt_view(old(state).end_handled_track_urn) != Some(urn);
            let active = active_list(*old(state), *old(data));
            let idx = old(state).current_playing_index;
            &&& first_end && idx is None ==> r@.len() == 0
            &&& first_end && old(state).repeat_enabled && idx is Some && idx->0 < active.len() ==>
                r@ == seq![PlayerRequest::Play(active[idx->0 as int])]
            &&& first_end && !old(state).repeat_enabled && idx is Some && old(state).manual_queue@.len() > 0 ==>
                r@ == seq![PlayerRequest::Play(old(state).manual_queue@[0].track)]
                && final(state).manual_queue@ == old(state).manual_queue@.drop_first()
                && history_advanced(*old(state), *old(data), *final(state))
            &&& first_end && !old(state).repeat_enabled && idx is Some && old(state).manual_queue@.len() == 0
                && old(state).auto_queue@.len() > 0 ==> {
                let next = old(state).auto_queue@[0];
                &&& next < active.len() ==> r@ == seq![PlayerRequest::Play(active[next as int])]
                    && final(state).current_playing_index == Some(next)
                    && history_advanced(*old(state), *old(data), *final(state))
                &&& next >= active.len() ==> r@.len() == 0 && final(state).playback_history@ == old(state).playback_history@
                &&& final(state).auto_queue@ == old(state).auto_queue@.drop_first()
                &&& final(state).manual_queue@ == old(state).manual_queue@
            }
            &&& first_end && !old(state).repeat_enabled && idx is Some && old(state).manual_queue@.len() == 0
                && old(state).auto_queue@.len() == 0 ==> exists|q: Seq<usize>| {
                &&& #[trigger] is_built_queue(q, idx->0, active_list(*old(state), *old(data)), old(state).shuffle_enabled)
                &&& q.len() == 0 ==> r@ == seq![PlayerRequest::Pause]
                &&& q.len() > 0 ==> r@ == seq![PlayerRequest::Play(active_list(*old(state), *old(data))[q[0] as int])]
                    && final(state).current_playing_index == Some(q[0])
                    && history_advanced(*old(state), *old(data), *final(state))
                &&& final(state).manual_queue@ == old(state).manual_queue@
            }
        }),
        final(state).repeat_enabled == old(state).repeat_enabled,
        final(state).shuffle_enabled == old(state).shuffle_enabled,
        final(state).playback_source == old(state).playback_source,
{
    state.progress = status.progress_ms;
    let mut out: Vec<PlayerRequest> = Vec::new();
    let current = &status.current_track;
    if !(status.is_playing && !current.track_urn.as_str().is_empty()) {
        state.preload_triggered_for_track_urn = None;
        return out;
    }
    if let Some(t) = tick_preload(state, data, current) {
        out.push(PlayerRequest::PreloadNext(t));
    }
    let d = current.duration_ms;
    let until_end_50 = if d < 50 { 0 } else { d - 50 };
    let at_end = state.progress >= until_end_50 && d > 0;
    if !at_end {
        state.end_handled_track_urn = None;
        return out;
    }
    if opt_is(&state.end_handled_track_urn, current.track_urn.as_str()) {
        return out;
    }
    let ghost before_end = *state;
    if let Some(req) = tick_end(state, data, current) {
        out.push(req);
    }
    proof {
        if history_advanced(before_end, *old(data), *state) {
            lemma_history_advanced_from_same_playback(before_end.playback_history@, before_end, *old(data),
                *old(state), *old(data), *state);
        }
    }
    out
}

/// The explanation shown when cover art could not be had.
pub open spec fn artwork_notice_text(error: Seq<char>) -> Seq<char> {
    "Cover art unavailable: "@ + error
}

/// Reports optional download/encoding failures without terminating playback:
/// a failure is shown, a success clears what was shown.
pub fn optional_artwork<T>(result: Result<T, String>, notice: &mut Option<String>) -> (r: Option<T>)
    ensures
        match result {
            Ok(v) => r == Some(v) && *final(notice) is None,
            Err(e) => r is None && (*final(notice) matches Some(n) && n@ == artwork_notice_text(e@)),
        },
{
    match result {
        Ok(value) => {
            *notice = None;
            Some(value)
        },
        Err(error) => {
            let mut text = String::new();
            crate::text::push_str(&mut text, "Cover art unavailable: ");
            crate::text::push_str(&mut text, error.as_str());
            *notice = Some(text);
            None
        },
    }
}

/// The error the status line shows, most urgent first: a playback failure
/// still within its display time, then the player's last error, then a
/// cover-art notice, then a terminal-graphics notice.
pub fn status_error(notice: &Option<PlaybackErrorNotice>, now_ms: u64, player_error: Option<String>,
    artwork_notice: Option<String>, terminal_notice: &Option<PlaybackErrorNotice>) -> (r: Option<String>)
    ensures
        match notice {
            Some(n) if now_ms < n.shown_at_ms + PLAYBACK_ERROR_NOTICE_MS =>
                r matches Some(m) && m@ == n.message@,
            _ => if player_error is Some {
                r == player_error
            } else if artwork_notice is Some {
                r == artwork_notice
            } else {
                match terminal_notice {
                    Some(t) if now_ms < t.shown_at_ms + PLAYBACK_ERROR_NOTICE_MS => r matches Some(m) && m@ == t.message@,
                    _ => r is None,
                }
            },
        },
{
    if let Some(n) = notice {
        if let Some(m) = n.message_at(now_ms) {
            let mut text = String::new();
            crate::text::push_str(&mut text, m);
            return Some(text);
        }
    }
    if player_error.is_some() {
        return player_error;
    }
    if artwork_notice.is_some() {
        return artwork_notice;
    }
    if let Some(t) = terminal_notice {
        if let Some(m) = t.message_at(now_ms) {
            let mut text = String::new();
            crate::text::push_str(&mut text, m);
            return Some(text);
        }
    }
    None
}

/// The explanation of a terminal-graphics fallback is shown once in a
/// session: the first failure starts it; later ones (after a resize, say)
/// neither replace it nor restart its time.
pub fn note_terminal_fallback(notice: &mut Option<PlaybackErrorNotice>, message: &str, now_ms: u64)
    ensures
        *old(notice) is None ==> (*final(notice) matches Some(n) && n.message@ == message@ && n.shown_at_ms == now_ms),
        *old(notice) is Some ==> *final(notice) == *old(notice),
{
    if notice.is_none() {
        *notice = Some(PlaybackErrorNotice::new(message, now_ms));
    }
}


/// How artwork is drawn: with half blocks of text, or with a pixel protocol
/// of the terminal.
#[derive(Clone, Copy, Debug, PartialEq, Eq, Structural)]
pub enum GraphicsProtocol {
    Halfblocks,
    Sixel,
    Kitty,
    Iterm2,
}

/// What the artwork picker draws with, and the size of a terminal cell in
/// pixels (width, height).
#[derive(Clone, Copy, Debug, PartialEq, Eq, Structural)]
pub struct PickerSettings {
    pub protocol: GraphicsProtocol,
    pub font_width: u16,
    pub font_height: u16,
}

impl PickerSettings {
    /// The cell size in pixels, width then height.
    pub fn font_size(&self) -> (r: (u16, u16))
        ensures
            r == (self.font_width, self.font_height),
    {
        (self.font_width, self.font_height)
    }
}

/// The cell size assumed when the terminal does not tell it.
pub const FALLBACK_FONT_WIDTH: u16 = 10;
pub const FALLBACK_FONT_HEIGHT: u16 = 20;

/// The explanation shown when the terminal's graphics could not be probed.
pub open spec fn fallback_notice_text(error: Seq<char>) -> Seq<char> {
    "Text artwork fallback: "@ + error
}

/// Keeps what the terminal probe found; where the probe failed, artwork is
/// drawn with half blocks in cells of the assumed size (guessed sizes suit
/// text cells, never pixel protocols), and the failure is explained, once in
/// a session.
pub fn resolve_image_picker(probed: Result<PickerSettings, String>, notice: &mut Option<PlaybackErrorNotice>, now_ms: u64) -> (r: PickerSettings)
    ensures
        probed is Ok ==> r == probed->Ok_0 && *final(notice) == *old(notice),
        probed is Err ==> r == (PickerSettings { protocol: GraphicsProtocol::Halfblocks,
            font_width: FALLBACK_FONT_WIDTH, font_height: FALLBACK_FONT_HEIGHT }),
        probed is Err && *old(notice) is None ==> (*final(notice) matches Some(n)
            && n.message@ == fallback_notice_text(probed->Err_0@) && n.shown_at_ms == now_ms),
        probed is Err && *old(notice) is Some ==> *final(notice) == *old(notice),
{
    match probed {
        Ok(settings) => settings,
        Err(error) => {
            let mut message = String::new();
            crate::text::push_str(&mut message, "Text artwork fallback: ");
            crate::text::push_str(&mut message, error.as_str());
            proof {
                reveal_strlit("Text artwork fallback: ");
            }
            note_terminal_fallback(notice, message.as_str(), now_ms);
            PickerSettings { protocol: GraphicsProtocol::Halfblocks, font_width: FALLBACK_FONT_WIDTH, font_height: FALLBACK_FONT_HEIGHT }
        },
    }
}


/// What becomes of the cover art when the playing track's artwork URL is read.
#[derive(Clone, Copy, Debug, PartialEq, Eq, Structural)]
pub enum ArtworkStep {
    /// The URL was already attempted: the art (or its failure) stays.
    Keep,
    /// A new, empty URL: the old art goes and nothing is fetched.
    Clear,
    /// A new URL: the old art goes and the URL is fetched.
    Fetch,
}

/// Each artwork URL is attempted once per change: a new URL is remembered
/// whether or not its fetch will succeed, and the old art and its notice are
/// cleared; the remembered URL again asks for nothing.
pub fn artwork_step(last_url: &mut Option<String>, url: &str, notice: &mut Option<String>) -> (r: ArtworkStep)
    ensures
        opt_view(*old(last_url)) == Some(url@) ==> r == ArtworkStep::Keep
            && *final(last_url) == *old(last_url) && *final(notice) == *old(notice),
        opt_view(*old(last_url)) != Some(url@) ==> opt_view(*final(last_url)) == Some(url@) && *final(notice) is None
            && r == (if url@.len() == 0 { ArtworkStep::Clear } else { ArtworkStep::Fetch }),
{
    if opt_is(last_url, url) {
        return ArtworkStep::Keep;
    }
    *last_url = Some(url.to_string());
    *notice = None;
    if url.is_empty() { ArtworkStep::Clear } else { ArtworkStep::Fetch }
}

} // verus!
