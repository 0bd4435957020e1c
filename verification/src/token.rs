use vstd::prelude::*;

use crate::text::{push_str, push_char};

verus! {

/// Seconds after which an application token is treated as expired.
pub const REFRESH_TIME: u64 = 2700;

/// How far ahead the background refresher looks for an expiry, in seconds.
pub const REFRESH_BUFFER: u64 = 300;

/// Where a credential came from.
#[derive(Debug)]
pub enum TokenSource {
    /// SoundCloud's OAuth application flow, or a token saved from it.
    Application,
    /// A browser-session cookie read from the named Firefox profile.
    Firefox(String),
}

/// A SoundCloud credential.
#[derive(Debug)]
pub struct Token {
    pub access_token: String,
    pub refresh_token: String,
    pub obtained_at: u64,
    pub source: TokenSource,
    pub refresh_enabled: bool,
}

/// `OAuth <token>`, SoundCloud's authorization scheme.
pub open spec fn authorization_text(access_token: Seq<char>) -> Seq<char> {
    "OAuth "@ + access_token
}

/// Formats SoundCloud's API-specific OAuth authorization header value.
pub fn authorization_header(access_token: &str) -> (r: String)
    ensures
        r@ == authorization_text(access_token@),
{
    let mut r = String::new();
    push_str(&mut r, "OAuth ");
    push_str(&mut r, access_token);
    r
}

impl Token {
    pub open spec fn is_application(self) -> bool {
        self.source is Application
    }

    pub open spec fn is_firefox(self) -> bool {
        self.source is Firefox
    }

    /// Whether the token is a browser session read from Firefox.
    pub fn is_firefox_session(&self) -> (r: bool)
        ensures
            r == self.is_firefox(),
    {
        match self.source {
            TokenSource::Firefox(_) => true,
            TokenSource::Application => false,
        }
    }

    pub open spec fn profile(self) -> Seq<char> {
        match self.source {
            TokenSource::Firefox(p) => p@,
            TokenSource::Application => Seq::empty(),
        }
    }

    pub open spec fn refresh_allowed(self) -> bool {
        self.refresh_enabled
    }

    /// A token as `token.json` stores it: an application token whose refresh
    /// is enabled.
    pub fn from_saved(access_token: String, refresh_token: String, obtained_at: u64) -> (t: Self)
        ensures
            t.access_token == access_token,
            t.refresh_token == refresh_token,
            t.obtained_at == obtained_at,
            t.is_application(),
            t.refresh_allowed(),
    {
        Token { access_token, refresh_token, obtained_at, source: TokenSource::Application, refresh_enabled: true }
    }

    /// Represents Firefox's browser-session cookie, which cannot use the
    /// application refresh-token flow.
    pub fn from_firefox(access_token: String, profile: String) -> (t: Self)
        ensures
            t.access_token == access_token,
            t.refresh_token@ == Seq::<char>::empty(),
            t.obtained_at == 0,
            t.is_firefox(),
            t.profile() == profile@,
            !t.refresh_allowed(),
    {
        Token { access_token, refresh_token: String::new(), obtained_at: 0, source: TokenSource::Firefox(profile), refresh_enabled: false }
    }

    /// The authorization header value for this token.
    pub fn authorization_header(&self) -> (r: String)
        ensures
            r@ == authorization_text(self.access_token@),
    {
        authorization_header(self.access_token.as_str())
    }

    pub open spec fn refreshable(self) -> bool {
        self.refresh_enabled && self.source is Application && self.refresh_token@.len() > 0
    }

    pub fn is_refreshable(&self) -> (r: bool)
        ensures
            r == self.refreshable(),
    {
        self.refresh_enabled && matches!(self.source, TokenSource::Application) && !self.refresh_token.as_str().is_empty()
    }

    pub fn disable_refresh(&mut self)
        ensures
            final(self).access_token == old(self).access_token,
            final(self).refresh_token == old(self).refresh_token,
            final(self).obtained_at == old(self).obtained_at,
            final(self).is_application() == old(self).is_application(),
            final(self).is_firefox() == old(self).is_firefox(),
            final(self).profile() == old(self).profile(),
            !final(self).refresh_allowed(),
    {
        self.refresh_enabled = false;
    }

    pub open spec fn label(self) -> Seq<char> {
        match self.source {
            TokenSource::Application => "SoundCloud OAuth"@,
            TokenSource::Firefox(p) => "Firefox ("@ + p@ + ")"@,
        }
    }

    /// Names where the credential came from.
    pub fn source_label(&self) -> (r: String)
        ensures
            r@ == self.label(),
    {
        let mut r = String::new();
        match &self.source {
            TokenSource::Application => push_str(&mut r, "SoundCloud OAuth"),
            TokenSource::Firefox(p) => {
                push_str(&mut r, "Firefox (");
                push_str(&mut r, p.as_str());
                push_str(&mut r, ")");
            },
        }
        r
    }

    /// Browser sessions never expire locally; an application token expires
    /// `REFRESH_TIME` seconds after it was obtained.
    pub open spec fn expired_at(self, now: u64) -> bool {
        !(self.source is Firefox) && now > self.obtained_at + REFRESH_TIME
    }

    pub fn is_expired_at(&self, now: u64) -> (r: bool)
        ensures
            r == self.expired_at(now),
    {
        if matches!(self.source, TokenSource::Firefox(_)) {
            return false;
        }
        now as u128 > self.obtained_at as u128 + REFRESH_TIME as u128
    }

    /// Whether the token should be refreshed at the given time.
    pub fn should_refresh_at(&self, now: u64) -> (r: bool)
        ensures
            r == (self.refreshable() && self.expired_at(now)),
    {
        self.is_refreshable() && self.is_expired_at(now)
    }

    /// Whether the background refresher renews the token now: it looks
    /// `REFRESH_BUFFER` seconds ahead, so that a token is renewed before it
    /// expires.
    pub fn refresh_due(&self, now: u64) -> (r: bool)
        ensures
            r == (self.refreshable() && self.expired_at(
                if now + REFRESH_BUFFER > u64::MAX { u64::MAX } else { (now + REFRESH_BUFFER) as u64 },
            )),
    {
        self.should_refresh_at(now.saturating_add(REFRESH_BUFFER))
    }

    /// Whether the token has expired by the system clock.
    pub fn is_expired(&self) -> (r: bool)
        ensures
            self.is_firefox() ==> !r,
            r ==> self.obtained_at + REFRESH_TIME < u64::MAX,
    {
        let now = unix_now();
        self.is_expired_at(now)
    }
}

/// Seconds since the Unix epoch by the system clock (`SystemTime::now`).
#[verifier::external_body]
pub(crate) fn unix_now() -> (r: u64) {
    std::time::SystemTime::now().duration_since(std::time::UNIX_EPOCH).map(|d| d.as_secs()).unwrap_or(0)
}

} // verus!
