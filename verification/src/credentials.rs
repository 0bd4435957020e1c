use vstd::prelude::*;

use crate::text::push_str;
use crate::token::Token;

verus! {

/// SoundCloud application credentials from the environment.
#[derive(Debug)]
pub struct ApplicationCredentials {
    pub client_id: String,
    pub client_secret: String,
}

/// Why no startup credential could be had.
#[derive(Debug)]
pub enum AuthError {
    /// A client ID was given without its secret.
    MissingClientSecret,
    /// A client secret was given without its ID.
    MissingClientId,
    /// Neither a saved token, application credentials nor a Firefox session.
    NoSession,
    /// The OAuth application flow was asked for without application credentials.
    NoApplicationCredentials,
    /// The OAuth application flow, or a refresh, failed with the given explanation.
    Authorization(String),
}

pub open spec fn auth_error_text(e: AuthError) -> Seq<char> {
    match e {
        AuthError::MissingClientSecret => "SOUNDCLOUD_CLIENT_SECRET is not set"@,
        AuthError::MissingClientId => "SOUNDCLOUD_CLIENT_ID is not set"@,
        AuthError::NoSession => "no Firefox SoundCloud session found; set SOUNDCLOUD_CLIENT_ID and SOUNDCLOUD_CLIENT_SECRET or sign in to SoundCloud in Firefox"@,
        AuthError::NoApplicationCredentials => "SoundCloud application credentials are not set"@,
        AuthError::Authorization(m) => m@,
    }
}

impl AuthError {
    /// The explanation shown to the user.
    pub fn message(&self) -> (r: String)
        ensures
            r@ == auth_error_text(*self),
    {
        let mut r = String::new();
        match self {
            AuthError::MissingClientSecret => push_str(&mut r, "SOUNDCLOUD_CLIENT_SECRET is not set"),
            AuthError::MissingClientId => push_str(&mut r, "SOUNDCLOUD_CLIENT_ID is not set"),
            AuthError::NoSession => push_str(&mut r, "no Firefox SoundCloud session found; set SOUNDCLOUD_CLIENT_ID and SOUNDCLOUD_CLIENT_SECRET or sign in to SoundCloud in Firefox"),
            AuthError::NoApplicationCredentials => push_str(&mut r, "SoundCloud application credentials are not set"),
            AuthError::Authorization(m) => push_str(&mut r, m.as_str()),
        }
        assert(r@ =~= auth_error_text(*self));
        r
    }
}

/// A value that counts as given: present and not empty.
pub open spec fn given(v: Option<String>) -> bool {
    v matches Some(s) && s@.len() > 0
}

impl ApplicationCredentials {
    /// Classifies the complete pair separately from an absent pair, and
    /// rejects a partial one. An empty value counts as absent.
    pub fn from_values(client_id: Option<String>, client_secret: Option<String>) -> (r: Result<Option<Self>, AuthError>)
        ensures
            given(client_id) && given(client_secret) ==> (r matches Ok(Some(c)) && Some(c.client_id) == client_id && Some(c.client_secret) == client_secret),
            !given(client_id) && !given(client_secret) ==> r matches Ok(None),
            given(client_id) && !given(client_secret) ==> r matches Err(AuthError::MissingClientSecret),
            !given(client_id) && given(client_secret) ==> r matches Err(AuthError::MissingClientId),
    {
        let id = match client_id {
            Some(v) => if v.as_str().is_empty() { None } else { Some(v) },
            None => None,
        };
        let secret = match client_secret {
            Some(v) => if v.as_str().is_empty() { None } else { Some(v) },
            None => None,
        };
        match (id, secret) {
            (Some(client_id), Some(client_secret)) => Ok(Some(ApplicationCredentials { client_id, client_secret })),
            (None, None) => Ok(None),
            (Some(_), None) => Err(AuthError::MissingClientSecret),
            (None, Some(_)) => Err(AuthError::MissingClientId),
        }
    }
}

/// Acquires startup authentication in precedence order: a saved token, then
/// the application OAuth flow, then a Firefox session. A lower source is only
/// consulted when every higher one is unavailable. A saved token keeps its
/// refresh ability only when application credentials exist to refresh it.
pub fn resolve_initial_token<Authorize, FindFirefox>(
    saved: Option<Token>,
    credentials: Option<ApplicationCredentials>,
    authorize: Authorize,
    find_firefox: FindFirefox,
) -> (r: Result<Token, AuthError>) where
    Authorize: FnOnce(ApplicationCredentials) -> Result<Token, AuthError>,
    FindFirefox: FnOnce() -> Option<Token>,

    requires
        saved is None && credentials is Some ==> call_requires(authorize, (credentials->0,)),
        saved is None && credentials is None ==> call_requires(find_firefox, ()),
    ensures
        saved matches Some(s) ==> (r matches Ok(t) && t.access_token == s.access_token
            && t.refresh_token == s.refresh_token && t.obtained_at == s.obtained_at
            && t.is_application() == s.is_application() && t.profile() == s.profile()
            && t.refresh_allowed() == (s.refresh_allowed() && credentials is Some)),
        saved is None && credentials is Some ==> call_ensures(authorize, (credentials->0,), r),
        saved is None && credentials is None ==> match r {
            Ok(t) => call_ensures(find_firefox, (), Some(t)),
            Err(e) => e is NoSession && call_ensures(find_firefox, (), None),
        },
{
    if let Some(mut token) = saved {
        if credentials.is_none() {
            token.disable_refresh();
        }
        return Ok(token);
    }
    if let Some(credentials) = credentials {
        return authorize(credentials);
    }
    match find_firefox() {
        Some(t) => Ok(t),
        None => Err(AuthError::NoSession),
    }
}

/// The saved token where it has not expired at `now`.
pub open spec fn unexpired(saved: Option<Token>, now: u64) -> Option<Token> {
    match saved {
        Some(t) => if t.expired_at(now) { None } else { Some(t) },
        None => None,
    }
}

/// Startup authentication from the values the environment gave: the saved
/// token (set aside where it has expired at `now`), and the two application
/// credential variables. A partial credential pair is rejected before any
/// source is consulted; otherwise the sources are tried in the order of
/// `resolve_initial_token`.
pub fn initial_token<Authorize, FindFirefox>(
    saved: Option<Token>,
    now: u64,
    client_id: Option<String>,
    client_secret: Option<String>,
    authorize: Authorize,
    find_firefox: FindFirefox,
) -> (r: Result<Token, AuthError>) where
    Authorize: FnOnce(ApplicationCredentials) -> Result<Token, AuthError>,
    FindFirefox: FnOnce() -> Option<Token>,

    requires
        unexpired(saved, now) is None && given(client_id) && given(client_secret) ==> forall|c: ApplicationCredentials|
            Some(c.client_id) == client_id && Some(c.client_secret) == client_secret
            ==> #[trigger] call_requires(authorize, (c,)),
        unexpired(saved, now) is None && !given(client_id) && !given(client_secret) ==> call_requires(find_firefox, ()),
    ensures
        given(client_id) && !given(client_secret) ==> r matches Err(AuthError::MissingClientSecret),
        !given(client_id) && given(client_secret) ==> r matches Err(AuthError::MissingClientId),
        given(client_id) == given(client_secret) ==> {
            let complete = given(client_id);
            &&& unexpired(saved, now) matches Some(s) ==> (r matches Ok(t) && t.access_token == s.access_token
                && t.refresh_token == s.refresh_token && t.obtained_at == s.obtained_at
                && t.is_application() == s.is_application() && t.profile() == s.profile()
                && t.refresh_allowed() == (s.refresh_allowed() && complete))
            &&& unexpired(saved, now) is None && complete ==> exists|c: ApplicationCredentials|
                Some(c.client_id) == client_id && Some(c.client_secret) == client_secret
                && #[trigger] call_ensures(authorize, (c,), r)
            &&& unexpired(saved, now) is None && !complete ==> match r {
                Ok(t) => call_ensures(find_firefox, (), Some(t)),
                Err(e) => e is NoSession && call_ensures(find_firefox, (), None),
            }
        },
{
    let credentials = match ApplicationCredentials::from_values(client_id, client_secret) {
        Ok(c) => c,
        Err(e) => return Err(e),
    };
    let saved = match saved {
        Some(t) => if t.is_expired_at(now) { None } else { Some(t) },
        None => None,
    };
    resolve_initial_token(saved, credentials, authorize, find_firefox)
}

/// Runs the application OAuth flow, which needs both credential values.
pub fn authenticate<Authorize>(
    client_id: Option<String>,
    client_secret: Option<String>,
    authorize: Authorize,
) -> (r: Result<Token, AuthError>) where
    Authorize: FnOnce(ApplicationCredentials) -> Result<Token, AuthError>,

    requires
        given(client_id) && given(client_secret) ==> forall|c: ApplicationCredentials|
            Some(c.client_id) == client_id && Some(c.client_secret) == client_secret
            ==> #[trigger] call_requires(authorize, (c,)),
    ensures
        given(client_id) && !given(client_secret) ==> r matches Err(AuthError::MissingClientSecret),
        !given(client_id) && given(client_secret) ==> r matches Err(AuthError::MissingClientId),
        !given(client_id) && !given(client_secret) ==> r matches Err(AuthError::NoApplicationCredentials),
        given(client_id) && given(client_secret) ==> exists|c: ApplicationCredentials|
            Some(c.client_id) == client_id && Some(c.client_secret) == client_secret
            && #[trigger] call_ensures(authorize, (c,), r),
{
    match ApplicationCredentials::from_values(client_id, client_secret) {
        Ok(Some(c)) => authorize(c),
        Ok(None) => Err(AuthError::NoApplicationCredentials),
        Err(e) => Err(e),
    }
}

/// Refreshes the token in place when it is refreshable and expired at `now`;
/// otherwise leaves it as it is. A failed refresh leaves the old token and
/// reports the failure.
pub fn try_refresh_token<Refresh>(token: &mut Token, now: u64, refresh: Refresh) -> (r: Result<(), AuthError>) where
    Refresh: FnOnce(&Token) -> Result<Token, AuthError>,

    requires
        old(token).refreshable() && old(token).expired_at(now) ==> call_requires(refresh, (&*old(token),)),
    ensures
        !(old(token).refreshable() && old(token).expired_at(now)) ==> r is Ok && *final(token) == *old(token),
        old(token).refreshable() && old(token).expired_at(now) ==> match r {
            Ok(_) => call_ensures(refresh, (&*old(token),), Ok(*final(token))),
            Err(e) => call_ensures(refresh, (&*old(token),), Err(e)) && *final(token) == *old(token),
        },
{
    if token.should_refresh_at(now) {
        match refresh(&*token) {
            Ok(t) => {
                *token = t;
                Ok(())
            },
            Err(e) => Err(e),
        }
    } else {
        Ok(())
    }
}

} // verus!
