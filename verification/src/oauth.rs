use vstd::prelude::*;

use crate::text::{push_str, str_eq};

verus! {

/// Length of the PKCE code verifier.
pub const CODE_VERIFIER_LEN: usize = 64;
/// Length of the anti-forgery state sent with the authorization request.
pub const STATE_LEN: usize = 56;
/// Where the browser returns after authorization: a local listener.
pub const REDIRECT_URI: &'static str = "http://127.0.0.1:8080/callback";
/// The origin that the local listener's request paths are resolved against.
pub const LISTENER_ORIGIN: &'static str = "http://127.0.0.1:8080";
/// The token endpoint of the authorization server.
pub const TOKEN_ENDPOINT: &'static str = "https://secure.soundcloud.com/oauth/token";

/// Whether a character is an ASCII letter or digit.
pub open spec fn ascii_alphanumeric(c: char) -> bool {
    ('A' <= c && c <= 'Z') || ('a' <= c && c <= 'z') || ('0' <= c && c <= '9')
}

/// A random text of `len` ASCII letters and digits, drawn with
/// `rand::thread_rng` from `rand::distributions::Alphanumeric`. Each outcome
/// has the length asked for and only letters and digits; nothing more is
/// claimed of it.
#[verifier::external_body]
fn random_alphanumeric(len: usize) -> (r: String)
    ensures
        r@.len() == len,
        forall|i: int| 0 <= i < r@.len() ==> ascii_alphanumeric(#[trigger] r@[i]),
{
    rand::Rng::sample_iter(rand::thread_rng(), &rand::distributions::Alphanumeric).take(len).map(char::from).collect()
}

/// A fresh PKCE code verifier.
pub fn generate_code_verifier() -> (r: String)
    ensures
        r@.len() == CODE_VERIFIER_LEN,
        forall|i: int| 0 <= i < r@.len() ==> ascii_alphanumeric(#[trigger] r@[i]),
{
    random_alphanumeric(CODE_VERIFIER_LEN)
}

/// A fresh anti-forgery state.
pub fn generate_state() -> (r: String)
    ensures
        r@.len() == STATE_LEN,
        forall|i: int| 0 <= i < r@.len() ==> ascii_alphanumeric(#[trigger] r@[i]),
{
    random_alphanumeric(STATE_LEN)
}

/// The SHA-256 digest of a text's UTF-8 bytes.
pub uninterp spec fn sha256_utf8(text: Seq<char>) -> Seq<u8>;

/// The unpadded base64 encoding of bytes in the URL-safe alphabet.
pub uninterp spec fn base64_url_no_pad(data: Seq<u8>) -> Seq<char>;

/// Hashes a text's UTF-8 bytes with `sha2::Sha256::digest`. The digest is
/// named, not stated; it is 32 bytes long.
#[verifier::external_body]
fn sha256_digest(text: &str) -> (r: Vec<u8>)
    ensures
        r@ == sha256_utf8(text@),
        r@.len() == 32,
{
    <sha2::Sha256 as sha2::Digest>::digest(text.as_bytes()).to_vec()
}

/// Encodes bytes with `base64::engine::general_purpose::URL_SAFE_NO_PAD`.
/// The encoding is named, not stated: it depends on the bytes alone.
#[verifier::external_body]
fn encode_base64_url(data: &Vec<u8>) -> (r: String)
    ensures
        r@ == base64_url_no_pad(data@),
{
    base64::Engine::encode(&base64::engine::general_purpose::URL_SAFE_NO_PAD, data)
}

/// The PKCE `S256` challenge of a verifier: the unpadded URL-safe base64 of
/// the SHA-256 digest of its UTF-8 bytes.
pub fn generate_code_challenge(verifier: &str) -> (r: String)
    ensures
        r@ == base64_url_no_pad(sha256_utf8(verifier@)),
{
    let hash = sha256_digest(verifier);
    encode_base64_url(&hash)
}

/// The authorization page that the browser opens: the application, the
/// local redirect, a code response, the PKCE challenge and the state.
pub open spec fn authorize_url_spec(client_id: Seq<char>, code_challenge: Seq<char>, state: Seq<char>) -> Seq<char> {
    "https://secure.soundcloud.com/authorize?client_id="@ + client_id + "&redirect_uri="@ + REDIRECT_URI@
        + "&response_type=code&code_challenge="@ + code_challenge + "&code_challenge_method=S256&state="@ + state
}

pub fn authorize_url(client_id: &str, code_challenge: &str, state: &str) -> (r: String)
    ensures
        r@ == authorize_url_spec(client_id@, code_challenge@, state@),
{
    let mut r = String::new();
    push_str(&mut r, "https://secure.soundcloud.com/authorize?client_id=");
    push_str(&mut r, client_id);
    push_str(&mut r, "&redirect_uri=");
    push_str(&mut r, REDIRECT_URI);
    push_str(&mut r, "&response_type=code&code_challenge=");
    push_str(&mut r, code_challenge);
    push_str(&mut r, "&code_challenge_method=S256&state=");
    push_str(&mut r, state);
    r
}

/// The path and the decoded query pairs, in order, of the URL that
/// `Url::parse` gives for a text; `None` where it fails.
pub uninterp spec fn url_path_and_query(s: Seq<char>) -> Option<(Seq<char>, Seq<(Seq<char>, Seq<char>)>)>;

/// Parses a URL with `url::Url::parse` and reads its `path` and its
/// `query_pairs`. The result is named, not stated: it depends on the text
/// alone.
#[verifier::external_body]
fn path_and_query(s: &str) -> (r: Option<(String, Vec<(String, String)>)>)
    ensures
        match r {
            Some((path, pairs)) => url_path_and_query(s@) == Some((path@, crate::requests::pair_texts(pairs@))),
            None => url_path_and_query(s@) is None,
        },
{
    url::Url::parse(s).ok().map(|u| (u.path().to_string(), u.query_pairs().map(|(k, v)| (k.into_owned(), v.into_owned())).collect()))
}

/// The value of the first pair named `key`.
pub open spec fn first_value(pairs: Seq<(Seq<char>, Seq<char>)>, key: Seq<char>) -> Option<Seq<char>>
    decreases pairs.len(),
{
    if pairs.len() == 0 {
        None
    } else if pairs[0].0 == key {
        Some(pairs[0].1)
    } else {
        first_value(pairs.drop_first(), key)
    }
}

/// What the local listener does with one request during authorization.
#[derive(Debug, PartialEq, Eq)]
pub enum CallbackReply {
    /// Another path: answered "Not found"; the listener keeps waiting.
    NotFound,
    /// The callback with a code and the expected state: answered with a
    /// success page; authorization goes on with the code.
    Authorized(String),
    /// The callback with another state: answered "Invalid state parameter";
    /// authorization fails.
    StateMismatch,
    /// The callback without a code or a state: answered "Missing code or
    /// state"; authorization fails.
    MissingParameters,
    /// A request target that is not a URL: authorization fails unanswered.
    Unparseable,
}

/// A listener reply with its code as text.
pub enum CallbackView {
    NotFound,
    Authorized(Seq<char>),
    StateMismatch,
    MissingParameters,
    Unparseable,
}

impl CallbackReply {
    pub open spec fn view(self) -> CallbackView {
        match self {
            CallbackReply::NotFound => CallbackView::NotFound,
            CallbackReply::Authorized(code) => CallbackView::Authorized(code@),
            CallbackReply::StateMismatch => CallbackView::StateMismatch,
            CallbackReply::MissingParameters => CallbackView::MissingParameters,
            CallbackReply::Unparseable => CallbackView::Unparseable,
        }
    }

    /// The status and text of the answer sent to the browser, if any.
    pub fn response(&self) -> (r: Option<(u16, String)>)
        ensures
            match self@ {
                CallbackView::NotFound => r matches Some((404, t)) && t@ == "Not found"@,
                CallbackView::Authorized(_) => r matches Some((200, t)) && t@ == "Authentication successful! You can close this window."@,
                CallbackView::StateMismatch => r matches Some((400, t)) && t@ == "Invalid state parameter"@,
                CallbackView::MissingParameters => r matches Some((400, t)) && t@ == "Missing code or state"@,
                CallbackView::Unparseable => r is None,
            },
    {
        let mut t = String::new();
        match self {
            CallbackReply::NotFound => {
                push_str(&mut t, "Not found");
                Some((404, t))
            },
            CallbackReply::Authorized(_) => {
                push_str(&mut t, "Authentication successful! You can close this window.");
                Some((200, t))
            },
            CallbackReply::StateMismatch => {
                push_str(&mut t, "Invalid state parameter");
                Some((400, t))
            },
            CallbackReply::MissingParameters => {
                push_str(&mut t, "Missing code or state");
                Some((400, t))
            },
            CallbackReply::Unparseable => None,
        }
    }

    /// Why authorization fails after this reply, if it does.
    pub fn failure(&self) -> (r: Option<String>)
        ensures
            match self@ {
                CallbackView::StateMismatch => r matches Some(t) && t@ == "CSRF state mismatch"@,
                CallbackView::MissingParameters => r matches Some(t) && t@ == "Missing code or state in callback"@,
                CallbackView::Unparseable => r matches Some(t) && t@ == "authorization callback URL could not be parsed"@,
                _ => r is None,
            },
    {
        let mut t = String::new();
        match self {
            CallbackReply::StateMismatch => {
                push_str(&mut t, "CSRF state mismatch");
                Some(t)
            },
            CallbackReply::MissingParameters => {
                push_str(&mut t, "Missing code or state in callback");
                Some(t)
            },
            CallbackReply::Unparseable => {
                push_str(&mut t, "authorization callback URL could not be parsed");
                Some(t)
            },
            _ => None,
        }
    }
}

/// The reply to a request target received by the listener, given the state
/// sent with the authorization request: only the callback path that carries
/// a code and exactly that state authorizes.
pub open spec fn callback_reply_spec(target: Seq<char>, expected_state: Seq<char>) -> CallbackView {
    match url_path_and_query(LISTENER_ORIGIN@ + target) {
        None => CallbackView::Unparseable,
        Some((path, pairs)) => if path != "/callback"@ {
            CallbackView::NotFound
        } else {
            match (first_value(pairs, "code"@), first_value(pairs, "state"@)) {
                (Some(code), Some(state)) => if state == expected_state {
                    CallbackView::Authorized(code)
                } else {
                    CallbackView::StateMismatch
                },
                _ => CallbackView::MissingParameters,
            }
        },
    }
}

/// The value of the first pair named `key`.
fn find_value(pairs: &Vec<(String, String)>, key: &str) -> (r: Option<String>)
    ensures
        match r {
            Some(v) => first_value(crate::requests::pair_texts(pairs@), key@) == Some(v@),
            None => first_value(crate::requests::pair_texts(pairs@), key@) is None,
        },
{
    let ghost all = crate::requests::pair_texts(pairs@);
    let mut i: usize = 0;
    assert(all.skip(0) =~= all);
    while i < pairs.len()
        invariant
            i <= pairs.len(),
            all == crate::requests::pair_texts(pairs@),
            first_value(all, key@) == first_value(all.skip(i as int), key@),
        decreases pairs.len() - i,
    {
        let rest = Ghost(all.skip(i as int));
        assert(rest@.drop_first() =~= all.skip(i + 1));
        assert(rest@[0] == (pairs@[i as int].0@, pairs@[i as int].1@));
        if str_eq(pairs[i].0.as_str(), key) {
            return Some(pairs[i].1.clone());
        }
        i = i + 1;
    }
    None
}

/// Decides the reply to one request that reached the local listener.
pub fn callback_reply(target: &str, expected_state: &str) -> (r: CallbackReply)
    ensures
        r@ == callback_reply_spec(target@, expected_state@),
{
    let mut url = String::new();
    push_str(&mut url, LISTENER_ORIGIN);
    push_str(&mut url, target);
    match path_and_query(url.as_str()) {
        None => CallbackReply::Unparseable,
        Some((path, pairs)) => {
            if !str_eq(path.as_str(), "/callback") {
                return CallbackReply::NotFound;
            }
            match (find_value(&pairs, "code"), find_value(&pairs, "state")) {
                (Some(code), Some(state)) => if str_eq(state.as_str(), expected_state) {
                    CallbackReply::Authorized(code)
                } else {
                    CallbackReply::StateMismatch
                },
                _ => CallbackReply::MissingParameters,
            }
        },
    }
}

/// A form of name/value pairs from texts.
fn form_pair(name: &str, value: &str) -> (r: (String, String))
    ensures
        r.0@ == name@,
        r.1@ == value@,
{
    let mut n = String::new();
    push_str(&mut n, name);
    let mut v = String::new();
    push_str(&mut v, value);
    (n, v)
}

/// The form that exchanges an authorization code for a token.
pub fn authorization_code_form(client_id: &str, client_secret: &str, code: &str, code_verifier: &str) -> (r: Vec<(String, String)>)
    ensures
        crate::requests::pair_texts(r@) == seq![
            ("client_id"@, client_id@),
            ("client_secret"@, client_secret@),
            ("redirect_uri"@, REDIRECT_URI@),
            ("grant_type"@, "authorization_code"@),
            ("code"@, code@),
            ("code_verifier"@, code_verifier@),
        ],
{
    let mut r: Vec<(String, String)> = Vec::new();
    r.push(form_pair("client_id", client_id));
    r.push(form_pair("client_secret", client_secret));
    r.push(form_pair("redirect_uri", REDIRECT_URI));
    r.push(form_pair("grant_type", "authorization_code"));
    r.push(form_pair("code", code));
    r.push(form_pair("code_verifier", code_verifier));
    assert(crate::requests::pair_texts(r@) =~= seq![
        ("client_id"@, client_id@),
        ("client_secret"@, client_secret@),
        ("redirect_uri"@, REDIRECT_URI@),
        ("grant_type"@, "authorization_code"@),
        ("code"@, code@),
        ("code_verifier"@, code_verifier@),
    ]);
    r
}

/// The form that renews a token with its refresh token.
pub fn refresh_token_form(client_id: &str, client_secret: &str, refresh_token: &str) -> (r: Vec<(String, String)>)
    ensures
        crate::requests::pair_texts(r@) == seq![
            ("grant_type"@, "refresh_token"@),
            ("client_id"@, client_id@),
            ("client_secret"@, client_secret@),
            ("refresh_token"@, refresh_token@),
        ],
{
    let mut r: Vec<(String, String)> = Vec::new();
    r.push(form_pair("grant_type", "refresh_token"));
    r.push(form_pair("client_id", client_id));
    r.push(form_pair("client_secret", client_secret));
    r.push(form_pair("refresh_token", refresh_token));
    assert(crate::requests::pair_texts(r@) =~= seq![
        ("grant_type"@, "refresh_token"@),
        ("client_id"@, client_id@),
        ("client_secret"@, client_secret@),
        ("refresh_token"@, refresh_token@),
    ]);
    r
}

} // verus!
