use vstd::prelude::*;

use std::collections::VecDeque;

use crate::models::{restriction_text, Track};
use crate::text::{push_str, str_eq};

verus! {

/// What the playback worker is asked to do.
#[derive(Debug)]
pub enum PlayerCommand {
    /// Start a track from its beginning, under the given attempt number.
    Play(Track, u64),
    /// Start a track at a position in milliseconds, under the given attempt number.
    PlayFromPosition(Track, u64, u64),
    /// Fetch the next track ahead of time.
    PreloadNext(Track),
    Pause,
    Resume,
    VolumeUp,
    VolumeDown,
    NextSong,
    PrevSong,
    FastForward,
    Rewind,
}

/// The result of one playback attempt, reported once.
#[derive(Debug)]
pub enum PlaybackOutcome {
    Started { attempt_id: u64, track_urn: String },
    Failed { attempt_id: u64, track_urn: String, message: String },
}

impl Clone for PlaybackOutcome {
    fn clone(&self) -> (r: Self)
        ensures
            r == *self,
    {
        match self {
            PlaybackOutcome::Started { attempt_id, track_urn } =>
                PlaybackOutcome::Started { attempt_id: *attempt_id, track_urn: track_urn.clone() },
            PlaybackOutcome::Failed { attempt_id, track_urn, message } =>
                PlaybackOutcome::Failed { attempt_id: *attempt_id, track_urn: track_urn.clone(), message: message.clone() },
        }
    }
}

/// The explanation for a track that the service will not let start, if any.
pub fn playback_restriction_message(track: &Track) -> (r: Option<String>)
    ensures
        match track.playback_restriction {
            Some(p) => r matches Some(m) && m@ == restriction_text(p),
            None => r is None,
        },
{
    match track.playback_restriction {
        Some(p) => Some(p.message()),
        None => None,
    }
}

/// Keeps the latest playback failure visible; a success clears it.
pub fn record_playback_result(last_error: &mut Option<String>, result: Result<(), String>)
    ensures
        match result {
            Ok(_) => *final(last_error) is None,
            Err(e) => *final(last_error) == Some(e),
        },
{
    *last_error = match result {
        Ok(_) => None,
        Err(e) => Some(e),
    };
}

/// The outcome the worker reports for an attempt that it ran.
pub fn outcome_of(attempt_id: u64, track_urn: String, result: &Result<(), String>) -> (r: PlaybackOutcome)
    ensures
        match *result {
            Ok(_) => r == PlaybackOutcome::Started { attempt_id, track_urn },
            Err(e) => r == PlaybackOutcome::Failed { attempt_id, track_urn, message: e },
        },
{
    match result {
        Ok(_) => PlaybackOutcome::Started { attempt_id, track_urn },
        Err(e) => PlaybackOutcome::Failed { attempt_id, track_urn, message: e.clone() },
    }
}

/// Whether an outcome is the failure of the newest request; results of
/// superseded requests are ignored.
pub fn is_current_playback_failure(outcome: &PlaybackOutcome, requested_attempt_id: u64) -> (r: bool)
    ensures
        r <==> (outcome matches PlaybackOutcome::Failed { attempt_id, .. } && attempt_id == requested_attempt_id),
{
    match outcome {
        PlaybackOutcome::Failed { attempt_id, .. } => *attempt_id == requested_attempt_id,
        PlaybackOutcome::Started { .. } => false,
    }
}

/// The user-facing side of the player: it numbers requests, refuses tracks
/// the service will not play, and keeps the outcomes for the interface.
pub struct PlayerControl {
    pub next_attempt_id: u64,
    pub requested_attempt_id: u64,
    pub last_error: Option<String>,
    pub outcomes: VecDeque<PlaybackOutcome>,
}

impl PlayerControl {
    /// No request made yet.
    pub fn new() -> (r: Self)
        ensures
            r.next_attempt_id == 0,
            r.requested_attempt_id == 0,
            r.last_error is None,
            r.outcomes@.len() == 0,
    {
        PlayerControl { next_attempt_id: 0, requested_attempt_id: 0, last_error: None, outcomes: VecDeque::new() }
    }

    /// Numbers a new request; it becomes the newest.
    pub fn begin_attempt(&mut self) -> (id: u64)
        requires
            old(self).next_attempt_id < u64::MAX,
        ensures
            id == old(self).next_attempt_id + 1,
            final(self).next_attempt_id == id,
            final(self).requested_attempt_id == id,
            final(self).last_error == old(self).last_error,
            final(self).outcomes@ == old(self).outcomes@,
    {
        self.next_attempt_id = self.next_attempt_id + 1;
        self.requested_attempt_id = self.next_attempt_id;
        self.next_attempt_id
    }

    /// Requests a track. A track the service restricts is refused at once:
    /// its failure is recorded and reported, and nothing goes to the worker.
    pub fn play(&mut self, track: Track) -> (r: Option<PlayerCommand>)
        requires
            old(self).next_attempt_id < u64::MAX,
        ensures
            final(self).next_attempt_id == old(self).next_attempt_id + 1,
            final(self).requested_attempt_id == final(self).next_attempt_id,
            match track.playback_restriction {
                Some(p) => {
                    &&& r is None
                    &&& final(self).last_error matches Some(m) && m@ == restriction_text(p)
                    &&& final(self).outcomes@ == old(self).outcomes@.push(PlaybackOutcome::Failed {
                        attempt_id: final(self).next_attempt_id,
                        track_urn: track.track_urn,
                        message: final(self).last_error->0,
                    })
                },
                None => {
                    &&& r == Some(PlayerCommand::Play(track, final(self).next_attempt_id))
                    &&& final(self).last_error == old(self).last_error
                    &&& final(self).outcomes@ == old(self).outcomes@
                },
            },
    {
        let attempt_id = self.begin_attempt();
        match playback_restriction_message(&track) {
            Some(message) => {
                self.last_error = Some(message.clone());
                self.outcomes.push_back(PlaybackOutcome::Failed { attempt_id, track_urn: track.track_urn, message });
                None
            },
            None => Some(PlayerCommand::Play(track, attempt_id)),
        }
    }

    /// Restarts the current track at a position, clamped to its length.
    /// Without a current track nothing is requested.
    pub fn seek(&mut self, current: Option<Track>, position_ms: u64) -> (r: Option<PlayerCommand>)
        requires
            old(self).next_attempt_id < u64::MAX,
        ensures
            match current {
                Some(t) => {
                    &&& final(self).next_attempt_id == old(self).next_attempt_id + 1
                    &&& final(self).requested_attempt_id == final(self).next_attempt_id
                    &&& r == Some(PlayerCommand::PlayFromPosition(t,
                        if position_ms < t.duration_ms { position_ms } else { t.duration_ms },
                        final(self).next_attempt_id))
                },
                None => r is None && *final(self) == *old(self),
            },
            final(self).last_error == old(self).last_error,
            final(self).outcomes@ == old(self).outcomes@,
    {
        match current {
            Some(track) => {
                let clamped = if position_ms < track.duration_ms { position_ms } else { track.duration_ms };
                let attempt_id = self.begin_attempt();
                Some(PlayerCommand::PlayFromPosition(track, clamped, attempt_id))
            },
            None => None,
        }
    }

    /// The latest playback failure, if it has not been cleared.
    pub fn playback_error(&self) -> (r: Option<String>)
        ensures
            r == self.last_error,
    {
        match &self.last_error {
            Some(e) => Some(e.clone()),
            None => None,
        }
    }

    /// Hands out each outcome once, oldest first.
    pub fn take_playback_outcome(&mut self) -> (r: Option<PlaybackOutcome>)
        ensures
            old(self).outcomes@.len() == 0 ==> r is None && final(self).outcomes@ == old(self).outcomes@,
            old(self).outcomes@.len() > 0 ==> r == Some(old(self).outcomes@[0])
                && final(self).outcomes@ == old(self).outcomes@.drop_first(),
            final(self).next_attempt_id == old(self).next_attempt_id,
            final(self).requested_attempt_id == old(self).requested_attempt_id,
            final(self).last_error == old(self).last_error,
    {
        let r = self.outcomes.pop_front();
        proof {
            if old(self).outcomes@.len() > 0 {
                assert(old(self).outcomes@.drop_first() =~= old(self).outcomes@.subrange(1, old(self).outcomes@.len() as int));
            }
        }
        r
    }

    /// The number of the newest request, also when one track was chosen twice.
    pub fn requested_attempt_id(&self) -> (r: u64)
        ensures
            r == self.requested_attempt_id,
    {
        self.requested_attempt_id
    }

    /// Records what the worker reported of an attempt.
    pub fn report(&mut self, outcome: PlaybackOutcome)
        ensures
            final(self).outcomes@ == old(self).outcomes@.push(outcome),
            final(self).next_attempt_id == old(self).next_attempt_id,
            final(self).requested_attempt_id == old(self).requested_attempt_id,
            final(self).last_error == old(self).last_error,
    {
        self.outcomes.push_back(outcome);
    }
}

/// How far one press of fast-forward or rewind moves, in milliseconds.
pub const SEEK_STEP_MS: u64 = 10_000;

/// What the playback worker knows when a command arrives: whether a seek is
/// still running, the track it plays, and how far it has played.
pub struct WorkerSnapshot {
    pub seeking: bool,
    pub current_track: Option<Track>,
    pub elapsed_ms: u64,
}

/// What the worker does for a command.
#[derive(Debug)]
pub enum WorkerAction {
    /// Play `track` from `position_ms` and report the attempt's outcome.
    /// A seek holds the seeking flag while it runs.
    Start { track: Track, position_ms: u64, attempt_id: Option<u64>, seek: bool },
    /// Fetch the track ahead of time.
    Preload(Track),
    Pause,
    Resume,
    VolumeUp,
    VolumeDown,
    /// Stop the sink and show the track as played to its end.
    StopAtEnd { duration_ms: u64 },
    /// Nothing to do.
    Ignore,
}

/// The position fast-forward moves to, or `None` where it would reach the
/// end of the track.
pub open spec fn forward_target(elapsed_ms: int, duration_ms: int) -> Option<int> {
    if elapsed_ms + SEEK_STEP_MS >= duration_ms { None } else { Some(elapsed_ms + SEEK_STEP_MS) }
}

/// The position rewind moves to.
pub open spec fn rewind_target(elapsed_ms: int) -> int {
    if elapsed_ms > SEEK_STEP_MS { elapsed_ms - SEEK_STEP_MS } else { 0 }
}

/// Decides what the worker does for a command. A seek that arrives while
/// another runs is dropped; fast-forward past the end stops at the end;
/// rewind stops at the start; commands that need a current track do
/// nothing without one.
pub fn plan_command(cmd: PlayerCommand, snapshot: &WorkerSnapshot) -> (r: WorkerAction)
    ensures
        match cmd {
            PlayerCommand::Play(t, id) => r == WorkerAction::Start { track: t, position_ms: 0, attempt_id: Some(id), seek: false },
            PlayerCommand::PlayFromPosition(t, pos, id) => if snapshot.seeking {
                r is Ignore
            } else {
                r == WorkerAction::Start { track: t, position_ms: pos, attempt_id: Some(id), seek: true }
            },
            PlayerCommand::PreloadNext(t) => r == WorkerAction::Preload(t),
            PlayerCommand::Pause => r is Pause,
            PlayerCommand::Resume => r is Resume,
            PlayerCommand::VolumeUp => r is VolumeUp,
            PlayerCommand::VolumeDown => r is VolumeDown,
            PlayerCommand::NextSong => r is Ignore,
            PlayerCommand::PrevSong => r is Ignore,
            PlayerCommand::FastForward => match snapshot.current_track {
                Some(t) if !snapshot.seeking => match forward_target(snapshot.elapsed_ms as int, t.duration_ms as int) {
                    Some(p) => r == WorkerAction::Start { track: t, position_ms: p as u64, attempt_id: None, seek: true },
                    None => r == WorkerAction::StopAtEnd { duration_ms: t.duration_ms },
                },
                _ => r is Ignore,
            },
            PlayerCommand::Rewind => match snapshot.current_track {
                Some(t) if !snapshot.seeking =>
                    r == WorkerAction::Start { track: t, position_ms: rewind_target(snapshot.elapsed_ms as int) as u64, attempt_id: None, seek: true },
                _ => r is Ignore,
            },
        },
{
    match cmd {
        PlayerCommand::Play(t, id) => WorkerAction::Start { track: t, position_ms: 0, attempt_id: Some(id), seek: false },
        PlayerCommand::PlayFromPosition(t, pos, id) => {
            if snapshot.seeking {
                WorkerAction::Ignore
            } else {
                WorkerAction::Start { track: t, position_ms: pos, attempt_id: Some(id), seek: true }
            }
        },
        PlayerCommand::PreloadNext(t) => WorkerAction::Preload(t),
        PlayerCommand::Pause => WorkerAction::Pause,
        PlayerCommand::Resume => WorkerAction::Resume,
        PlayerCommand::VolumeUp => WorkerAction::VolumeUp,
        PlayerCommand::VolumeDown => WorkerAction::VolumeDown,
        PlayerCommand::NextSong => WorkerAction::Ignore,
        PlayerCommand::PrevSong => WorkerAction::Ignore,
        PlayerCommand::FastForward => {
            if snapshot.seeking {
                return WorkerAction::Ignore;
            }
            match &snapshot.current_track {
                Some(t) => {
                    let elapsed = snapshot.elapsed_ms;
                    if elapsed >= t.duration_ms || t.duration_ms - elapsed <= SEEK_STEP_MS {
                        WorkerAction::StopAtEnd { duration_ms: t.duration_ms }
                    } else {
                        WorkerAction::Start { track: t.clone(), position_ms: elapsed + SEEK_STEP_MS, attempt_id: None, seek: true }
                    }
                },
                None => WorkerAction::Ignore,
            }
        },
        PlayerCommand::Rewind => {
            if snapshot.seeking {
                return WorkerAction::Ignore;
            }
            match &snapshot.current_track {
                Some(t) => {
                    let elapsed = snapshot.elapsed_ms;
                    let target = if elapsed > SEEK_STEP_MS { elapsed - SEEK_STEP_MS } else { 0 };
                    WorkerAction::Start { track: t.clone(), position_ms: target, attempt_id: None, seek: true }
                },
                None => WorkerAction::Ignore,
            }
        },
    }
}

/// Joins the initialization section and a media segment into one decodable buffer.
pub fn combine_init_and_segment(init_bytes: &Vec<u8>, segment_bytes: &Vec<u8>) -> (r: Vec<u8>)
    ensures
        r@ == init_bytes@ + segment_bytes@,
{
    let mut r: Vec<u8> = Vec::new();
    let mut i: usize = 0;
    while i < init_bytes.len()
        invariant
            i <= init_bytes.len(),
            r@ == init_bytes@.subrange(0, i as int),
        decreases init_bytes.len() - i,
    {
        r.push(init_bytes[i]);
        i += 1;
        assert(r@ =~= init_bytes@.subrange(0, i as int));
    }
    let mut j: usize = 0;
    while j < segment_bytes.len()
        invariant
            i == init_bytes.len(),
            j <= segment_bytes.len(),
            r@ == init_bytes@.subrange(0, i as int) + segment_bytes@.subrange(0, j as int),
        decreases segment_bytes.len() - j,
    {
        r.push(segment_bytes[j]);
        j += 1;
        assert(r@ =~= init_bytes@.subrange(0, i as int) + segment_bytes@.subrange(0, j as int));
    }
    assert(init_bytes@.subrange(0, i as int) =~= init_bytes@);
    assert(segment_bytes@.subrange(0, j as int) =~= segment_bytes@);
    r
}

/// The track shown when nothing has been played yet.
pub open spec fn placeholder_track_fields(t: Track) -> bool {
    &&& t.title@ == "No Track Playing - Press <ENTER> on Something to Play!"@
    &&& t.artists@ == "N/A"@
    &&& t.duration@ == "0:00"@
    &&& t.duration_ms == 1
    &&& t.playback_count@ == "0"@
    &&& t.artwork_url@.len() == 0
    &&& t.stream_url@.len() == 0
    &&& t.access@ == "playable"@
    &&& t.playback_restriction is None
    &&& t.track_urn@.len() == 0
}

fn text(s: &str) -> (r: String)
    ensures
        r@ == s@,
{
    let mut r = String::new();
    push_str(&mut r, s);
    r
}

/// The track that playback reports: the one started last, or a placeholder
/// that invites the user to start one.
pub fn current_or_placeholder(current: Option<Track>) -> (r: Track)
    ensures
        match current {
            Some(t) => r == t,
            None => placeholder_track_fields(r),
        },
{
    match current {
        Some(t) => t,
        None => Track {
            title: text("No Track Playing - Press <ENTER> on Something to Play!"),
            artists: text("N/A"),
            duration: text("0:00"),
            duration_ms: 1,
            playback_count: text("0"),
            artwork_url: String::new(),
            stream_url: String::new(),
            access: text("playable"),
            playback_restriction: None,
            track_urn: String::new(),
        },
    }
}

/// Milliseconds played: what was played before the last pause, plus the
/// time since playback last started while it is still playing.
pub fn elapsed_ms(played_ms: u64, is_playing: bool, since_start_ms: Option<u64>) -> (r: u64)
    requires
        since_start_ms matches Some(d) ==> played_ms + d <= u64::MAX,
    ensures
        r == match (is_playing, since_start_ms) {
            (true, Some(d)) => played_ms + d,
            _ => played_ms as int,
        },
{
    match (is_playing, since_start_ms) {
        (true, Some(d)) => played_ms + d,
        _ => played_ms,
    }
}

/// Where the stream of a track comes from when it is played.
#[derive(Debug, Clone, Copy, PartialEq, Eq, Structural)]
pub enum StreamSource {
    /// The stream prepared in advance for this track.
    Preloaded,
    /// The stream already held for this track and still fresh.
    Cached,
    /// A fresh resolve and manifest fetch.
    Fetch,
}

/// How long a resolved stream is used before it is resolved again: the
/// signed URLs it holds expire.
pub const STREAM_CACHE_TTL_MS: u64 = 240_000;

/// Whether a held stream can serve a track: it is that track's, and it was
/// resolved less than `STREAM_CACHE_TTL_MS` ago.
pub fn stream_cache_fresh(cached_urn: &str, age_ms: u64, track_urn: &str) -> (r: bool)
    ensures
        r == (cached_urn@ == track_urn@ && age_ms < STREAM_CACHE_TTL_MS),
{
    str_eq(cached_urn, track_urn) && age_ms < STREAM_CACHE_TTL_MS
}

/// A stream prepared in advance is used when it is for this track; else a
/// held stream that is still valid for it; else the stream is fetched anew.
pub fn stream_source(preloaded_urn: Option<&str>, cache_valid: bool, track_urn: &str) -> (r: StreamSource)
    ensures
        r == (if preloaded_urn matches Some(u) && u@ == track_urn@ {
            StreamSource::Preloaded
        } else if cache_valid {
            StreamSource::Cached
        } else {
            StreamSource::Fetch
        }),
{
    match preloaded_urn {
        Some(u) => if str_eq(u, track_urn) {
            return StreamSource::Preloaded;
        },
        None => {},
    }
    if cache_valid {
        StreamSource::Cached
    } else {
        StreamSource::Fetch
    }
}

/// Whether the next track still has to be prepared: not when the stream
/// prepared in advance is already for it.
pub fn preload_needed(preloaded_urn: Option<&str>, track_urn: &str) -> (r: bool)
    ensures
        r == !(preloaded_urn matches Some(u) && u@ == track_urn@),
{
    match preloaded_urn {
        Some(u) => !str_eq(u, track_urn),
        None => true,
    }
}

} // verus!
