use vstd::prelude::*;

use crate::text::{push_str, eq_str, chars_of_string};

verus! {

/// Why SoundCloud's metadata already shows that a track cannot be played.
#[derive(Clone, Copy, Debug, PartialEq, Eq, Structural)]
pub enum PlaybackRestriction {
    SoundCloudGoPlus,
    Blocked,
    PreviewOnly,
    EncryptedStream,
    Unavailable,
}

pub open spec fn restriction_text(r: PlaybackRestriction) -> Seq<char> {
    match r {
        PlaybackRestriction::SoundCloudGoPlus => "SoundCloud Go+ track requires encrypted high-tier playback, which sctui does not support"@,
        PlaybackRestriction::Blocked => "SoundCloud blocks this track for this account or region"@,
        PlaybackRestriction::PreviewOnly => "SoundCloud offers only a preview of this track"@,
        PlaybackRestriction::EncryptedStream => "SoundCloud offers this track only as an encrypted stream, which sctui does not support"@,
        PlaybackRestriction::Unavailable => "SoundCloud returned no playable stream for this track"@,
    }
}

impl PlaybackRestriction {
    /// The explanation shown to the user.
    pub fn message(&self) -> (r: String)
        ensures
            r@ == restriction_text(*self),
    {
        let mut r = String::new();
        match self {
            PlaybackRestriction::SoundCloudGoPlus => push_str(&mut r, "SoundCloud Go+ track requires encrypted high-tier playback, which sctui does not support"),
            PlaybackRestriction::Blocked => push_str(&mut r, "SoundCloud blocks this track for this account or region"),
            PlaybackRestriction::PreviewOnly => push_str(&mut r, "SoundCloud offers only a preview of this track"),
            PlaybackRestriction::EncryptedStream => push_str(&mut r, "SoundCloud offers this track only as an encrypted stream, which sctui does not support"),
            PlaybackRestriction::Unavailable => push_str(&mut r, "SoundCloud returned no playable stream for this track"),
        }
        assert(r@ =~= restriction_text(*self));
        r
    }
}

/// A track as the interface lists and plays it.
#[derive(Debug)]
pub struct Track {
    pub title: String,
    pub artists: String,
    pub duration: String,
    pub duration_ms: u64,
    pub playback_count: String,
    pub artwork_url: String,
    pub stream_url: String,
    pub access: String,
    pub playback_restriction: Option<PlaybackRestriction>,
    pub track_urn: String,
}

impl Clone for Track {
    fn clone(&self) -> (r: Self)
        ensures
            r == *self,
    {
        Track {
            title: self.title.clone(),
            artists: self.artists.clone(),
            duration: self.duration.clone(),
            duration_ms: self.duration_ms,
            playback_count: self.playback_count.clone(),
            artwork_url: self.artwork_url.clone(),
            stream_url: self.stream_url.clone(),
            access: self.access.clone(),
            playback_restriction: self.playback_restriction,
            track_urn: self.track_urn.clone(),
        }
    }
}

impl Track {
    /// A track can be started when no restriction is known and its access
    /// level is absent or `playable`.
    pub open spec fn playable(self) -> bool {
        self.playback_restriction is None && (self.access@.len() == 0 || self.access@ == "playable"@)
    }

    pub fn is_playable(&self) -> (r: bool)
        ensures
            r == self.playable(),
    {
        if self.playback_restriction.is_some() {
            return false;
        }
        let access = chars_of_string(&self.access);
        access.len() == 0 || eq_str(&access, "playable")
    }
}

/// A playlist of the library or of search results. `created_at` counts
/// seconds since the Unix epoch.
#[derive(Debug)]
pub struct Playlist {
    pub title: String,
    pub track_count: String,
    pub duration: String,
    pub created_at: i64,
    pub tracks_uri: String,
    /// True for a playlist that the signed-in user owns, false for a liked one.
    pub is_owned: bool,
}

impl Clone for Playlist {
    fn clone(&self) -> (r: Self)
        ensures
            r == *self,
    {
        Playlist {
            title: self.title.clone(),
            track_count: self.track_count.clone(),
            duration: self.duration.clone(),
            created_at: self.created_at,
            tracks_uri: self.tracks_uri.clone(),
            is_owned: self.is_owned,
        }
    }
}

#[derive(Debug)]
pub struct Album {
    pub title: String,
    pub artists: String,
    pub release_year: String,
    pub duration: String,
    pub track_count: String,
    pub tracks_uri: String,
}

impl Clone for Album {
    fn clone(&self) -> (r: Self)
        ensures
            r == *self,
    {
        Album {
            title: self.title.clone(),
            artists: self.artists.clone(),
            release_year: self.release_year.clone(),
            duration: self.duration.clone(),
            track_count: self.track_count.clone(),
            tracks_uri: self.tracks_uri.clone(),
        }
    }
}

#[derive(Debug)]
pub struct Artist {
    pub name: String,
    pub urn: String,
}

impl Clone for Artist {
    fn clone(&self) -> (r: Self)
        ensures
            r == *self,
    {
        Artist { name: self.name.clone(), urn: self.urn.clone() }
    }
}

} // verus!
