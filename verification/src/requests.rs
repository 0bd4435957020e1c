use vstd::prelude::*;

use crate::hls::{join_url, url_join};
use crate::json::{Json, parse_str, parse_u64, str_field, take_member, u64_field};
use crate::session::{EngagementAction, EngagementDone, extend_with};
use crate::text::{chars_of, chars_of_string, contains_seq, decimal, push_char, push_str, seq_contains, seq_starts_with, starts_with, u64_to_string};

verus! {

/// Scheme, host and port (the scheme's default port where none is written)
/// of the URL that `Url::parse` gives for a text; `None` where it fails.
pub uninterp spec fn url_origin(s: Seq<char>) -> Option<(Seq<char>, Option<Seq<char>>, Option<u16>)>;

/// Parses a URL with `url::Url::parse` and reads its `scheme`, `host_str`
/// and `port_or_known_default`. The result is named, not stated: it depends
/// on the text alone.
#[verifier::external_body]
fn origin_of(s: &str) -> (r: Option<(String, Option<String>, Option<u16>)>)
    ensures
        match r {
            Some((scheme, host, port)) => url_origin(s@) == Some((scheme@, match host {
                Some(h) => Some(h@),
                None => None,
            }, port)),
            None => url_origin(s@) is None,
        },
{
    url::Url::parse(s).ok().map(|u| (u.scheme().to_string(), u.host_str().map(|h| h.to_string()), u.port_or_known_default()))
}

/// Why a request to the SoundCloud API could not be made or used.
#[derive(Debug, PartialEq, Eq, Structural)]
pub enum ApiError {
    /// The base URL or the path resolved against it is not a URL.
    InvalidUrl,
    /// The path resolves to another scheme, host or port than the base URL.
    OutsideOrigin,
    /// The signed-in user's record has no numeric ID.
    MissingUserId,
    /// Library pagination pointed back at a page already fetched.
    RepeatedPage,
    /// A user's URN does not end in a numeric ID.
    InvalidUserUrn,
}

impl ApiError {
    pub fn message(&self) -> (r: String)
        ensures
            r@ == match *self {
                ApiError::InvalidUrl => "api-v2 URL could not be parsed"@,
                ApiError::OutsideOrigin => "api-v2 URL is outside the configured SoundCloud origin"@,
                ApiError::MissingUserId => "signed-in SoundCloud user response had no ID"@,
                ApiError::RepeatedPage => "api-v2 library pagination repeated a page"@,
                ApiError::InvalidUserUrn => "SoundCloud user URN had no numeric ID"@,
            },
    {
        let mut r = String::new();
        match self {
            ApiError::InvalidUrl => push_str(&mut r, "api-v2 URL could not be parsed"),
            ApiError::OutsideOrigin => push_str(&mut r, "api-v2 URL is outside the configured SoundCloud origin"),
            ApiError::MissingUserId => push_str(&mut r, "signed-in SoundCloud user response had no ID"),
            ApiError::RepeatedPage => push_str(&mut r, "api-v2 library pagination repeated a page"),
            ApiError::InvalidUserUrn => push_str(&mut r, "SoundCloud user URN had no numeric ID"),
        }
        r
    }
}

/// The URL that an api-v2 request for `path` goes to: `path` resolved against
/// the base URL, and only where it stays on the base URL's scheme, host and
/// port, so that a pagination cursor cannot carry the credentials elsewhere.
pub open spec fn v2_target(base: Seq<char>, path: Seq<char>) -> Result<Seq<char>, ApiError> {
    match url_join(base, path) {
        None => Err(ApiError::InvalidUrl),
        Some(u) => if url_origin(base) is Some && url_origin(u) == url_origin(base) {
            Ok(u)
        } else {
            Err(ApiError::OutsideOrigin)
        },
    }
}

/// Resolves an api-v2 path or cursor against the configured base URL and
/// refuses one that leaves the base URL's origin, before any credential is
/// attached to a request.
pub fn v2_request_url(base_url: &str, path: &str) -> (r: Result<String, ApiError>)
    ensures
        match r {
            Ok(u) => v2_target(base_url@, path@) == Ok::<Seq<char>, ApiError>(u@),
            Err(e) => v2_target(base_url@, path@) == Err::<Seq<char>, ApiError>(e),
        },
{
    let joined = match join_url(base_url, path) {
        Some(u) => u,
        None => return Err(ApiError::InvalidUrl),
    };
    let base_origin = origin_of(base_url);
    let target_origin = origin_of(joined.as_str());
    match (base_origin, target_origin) {
        (Some((bs, bh, bp)), Some((ts, th, tp))) => {
            let same_host = match (&bh, &th) {
                (Some(a), Some(b)) => *a == *b,
                (None, None) => true,
                _ => false,
            };
            if bs == ts && same_host && bp == tp {
                Ok(joined)
            } else {
                Err(ApiError::OutsideOrigin)
            }
        },
        _ => Err(ApiError::OutsideOrigin),
    }
}

/// The signed-in user's numeric ID from the `/me` record; a record without
/// one (or with ID 0) is refused.
pub fn user_id_from_me(me: &Json) -> (r: Result<u64, ApiError>)
    ensures
        r == (if u64_field(*me, "id"@) == 0 {
            Err::<u64, ApiError>(ApiError::MissingUserId)
        } else {
            Ok::<u64, ApiError>(u64_field(*me, "id"@))
        }),
{
    let id = parse_u64(me, "id");
    if id == 0 {
        Err(ApiError::MissingUserId)
    } else {
        Ok(id)
    }
}

/// The first page of a user's liked tracks.
pub open spec fn likes_first_page_spec(user_id: u64) -> Seq<char> {
    "/users/"@ + decimal(user_id as nat) + "/track_likes?limit=40&linked_partitioning=true"@
}

/// The first page of the users a user follows.
pub open spec fn following_first_page_spec(user_id: u64) -> Seq<char> {
    "/users/"@ + decimal(user_id as nat) + "/followings?limit=40&linked_partitioning=true"@
}

pub fn likes_first_page(user_id: u64) -> (r: String)
    ensures
        r@ == likes_first_page_spec(user_id),
{
    let mut r = String::new();
    push_str(&mut r, "/users/");
    let id = u64_to_string(user_id);
    push_str(&mut r, id.as_str());
    push_str(&mut r, "/track_likes?limit=40&linked_partitioning=true");
    r
}

pub fn following_first_page(user_id: u64) -> (r: String)
    ensures
        r@ == following_first_page_spec(user_id),
{
    let mut r = String::new();
    push_str(&mut r, "/users/");
    let id = u64_to_string(user_id);
    push_str(&mut r, id.as_str());
    push_str(&mut r, "/followings?limit=40&linked_partitioning=true");
    r
}

/// Whether every page of liked tracks has been read: the first page was
/// fetched and the last one named no next page.
pub fn likes_exhausted(next_href: &Option<String>, first_fetched: bool) -> (r: bool)
    ensures
        r == (first_fetched && next_href is None),
{
    first_fetched && next_href.is_none()
}

/// Decides whether another page of followed users is fetched. Before the
/// first page the flag is set at once; after it, the list is exhausted when
/// the last page named no next page.
pub fn begin_following_page(next_href: &Option<String>, first_fetched: &mut bool) -> (proceed: bool)
    ensures
        proceed == !(*old(first_fetched) && next_href is None),
        *final(first_fetched) == (*old(first_fetched) || next_href is None),
{
    if next_href.is_none() && !*first_fetched {
        *first_fetched = true;
        true
    } else if next_href.is_none() {
        false
    } else {
        true
    }
}

/// The page to request: the cursor the previous page named, or the first
/// page.
pub fn cursor_page(next_href: &Option<String>, first_page: String) -> (r: String)
    ensures
        r@ == match next_href {
            Some(h) => h@,
            None => first_page@,
        },
{
    match next_href {
        Some(h) => h.clone(),
        None => first_page,
    }
}

/// The first page of the signed-in user's whole library.
pub const LIBRARY_FIRST_PAGE: &'static str = "/me/library/all?limit=200&linked_partitioning=true";

/// The array named `collection` in a response, or nothing.
pub open spec fn collection_items(resp: Json) -> Seq<Json> {
    match resp.member("collection"@) {
        Some(Json::Array(a)) => a@,
        _ => Seq::empty(),
    }
}

/// Moves the array named `collection` out of a response; anything else
/// gives no items.
pub fn collection_of(resp: Json) -> (r: Vec<Json>)
    ensures
        r@ == collection_items(resp),
{
    match take_member(resp, "collection") {
        Some(Json::Array(a)) => a,
        _ => Vec::new(),
    }
}

/// The texts of a list of strings.
pub open spec fn texts(v: Seq<String>) -> Seq<Seq<char>> {
    v.map_values(|s: String| s@)
}

/// Reads every page of the library once: the pages already requested, the
/// items gathered so far, and the page to request next (empty when the last
/// page named no next page).
pub struct LibraryPager {
    pub seen: Vec<String>,
    pub items: Vec<Json>,
    pub page: String,
}

impl LibraryPager {
    pub open spec fn seen_pages(&self) -> Seq<Seq<char>> {
        texts(self.seen@)
    }

    /// A pager before any page, pointing at the first library page.
    pub fn new() -> (r: Self)
        ensures
            r.seen@.len() == 0,
            r.items@.len() == 0,
            r.page@ == LIBRARY_FIRST_PAGE@,
            r.seen_pages().no_duplicates(),
    {
        let mut page = String::new();
        push_str(&mut page, LIBRARY_FIRST_PAGE);
        let r = LibraryPager { seen: Vec::new(), items: Vec::new(), page };
        assert(r.seen_pages() =~= Seq::<Seq<char>>::empty());
        r
    }

    /// The page to fetch next: `None` when the library has been read to its
    /// end, and an error when the next page is one already requested. A page
    /// handed out is recorded, so no page is ever requested twice.
    pub fn next_request(&mut self) -> (r: Result<Option<String>, ApiError>)
        ensures
            old(self).page@.len() == 0 ==> r == Ok::<Option<String>, ApiError>(None) && *final(self) == *old(self),
            old(self).page@.len() > 0 && old(self).seen_pages().contains(old(self).page@)
                ==> r == Err::<Option<String>, ApiError>(ApiError::RepeatedPage) && *final(self) == *old(self),
            old(self).page@.len() > 0 && !old(self).seen_pages().contains(old(self).page@) ==> {
                &&& r matches Ok(Some(p)) && p@ == old(self).page@
                &&& final(self).seen_pages() == old(self).seen_pages().push(old(self).page@)
                &&& final(self).items == old(self).items
                &&& final(self).page == old(self).page
            },
            old(self).seen_pages().no_duplicates() ==> final(self).seen_pages().no_duplicates(),
    {
        if self.page.as_str().is_empty() {
            return Ok(None);
        }
        let mut i: usize = 0;
        while i < self.seen.len()
            invariant
                i <= self.seen.len(),
                self.page@.len() > 0,
                forall|j: int| 0 <= j < i ==> #[trigger] self.seen@[j]@ != self.page@,
            decreases self.seen.len() - i,
        {
            if self.seen[i] == self.page {
                assert(self.seen_pages()[i as int] == self.page@);
                return Err(ApiError::RepeatedPage);
            }
            i = i + 1;
        }
        assert(!self.seen_pages().contains(self.page@)) by {
            if self.seen_pages().contains(self.page@) {
                let j = choose|j: int| 0 <= j < self.seen_pages().len() && self.seen_pages()[j] == self.page@;
                assert(self.seen@[j]@ == self.page@);
            }
        }
        let ghost before = self.seen_pages();
        let page = self.page.clone();
        self.seen.push(page.clone());
        assert(self.seen_pages() =~= before.push(page@));
        proof {
            if before.no_duplicates() {
                assert forall|a: int, b: int| 0 <= a < b < self.seen_pages().len()
                    implies self.seen_pages()[a] != self.seen_pages()[b] by {
                    if b == before.len() {
                        assert(before[a] == self.seen_pages()[a]);
                        assert(before.contains(before[a]));
                    }
                }
            }
        }
        Ok(Some(page))
    }

    /// Takes in one fetched page: its `collection` items join those gathered
    /// so far, and its `next_href` (or nothing) becomes the page to request.
    pub fn accept(&mut self, response: Json)
        ensures
            final(self).seen == old(self).seen,
            final(self).items@ == old(self).items@ + collection_items(response),
            final(self).page@ == str_field(response, "next_href"@),
    {
        let next = parse_str(&response, "next_href");
        match take_member(response, "collection") {
            Some(Json::Array(a)) => extend_with(&mut self.items, a),
            _ => {
                assert(self.items@ =~= self.items@ + collection_items(response));
            },
        }
        self.page = next;
    }
}

/// A text with every `:` written as `%3A`.
pub open spec fn escape_colons(s: Seq<char>) -> Seq<char>
    decreases s.len(),
{
    if s.len() == 0 {
        Seq::empty()
    } else {
        escape_colons(s.drop_last()) + if s.last() == ':' {
            "%3A"@
        } else {
            seq![s.last()]
        }
    }
}

/// The query that asks for every track a user owns or liked, whatever its
/// access level.
pub const USER_TRACKS_QUERY: &'static str = "?linked_partitioning=true&limit=200&access=playable,preview,blocked";

/// The public-API URL of one of a user's track lists (`tracks` or
/// `likes/tracks`), with the user's URN escaped into the path.
pub open spec fn user_tracks_url_spec(user_urn: Seq<char>, suffix: Seq<char>) -> Seq<char> {
    "https://api.soundcloud.com/users/"@ + escape_colons(user_urn) + "/"@ + suffix + USER_TRACKS_QUERY@
}

pub fn user_tracks_url(user_urn: &str, suffix: &str) -> (r: String)
    ensures
        r@ == user_tracks_url_spec(user_urn@, suffix@),
{
    let mut r = String::new();
    push_str(&mut r, "https://api.soundcloud.com/users/");
    let ghost start = r@;
    let urn = chars_of(user_urn);
    let mut i: usize = 0;
    while i < urn.len()
        invariant
            i <= urn.len(),
            urn@ == user_urn@,
            r@ == start + escape_colons(urn@.take(i as int)),
        decreases urn.len() - i,
    {
        assert(urn@.take(i + 1).drop_last() =~= urn@.take(i as int));
        if urn[i] == ':' {
            push_str(&mut r, "%3A");
        } else {
            push_char(&mut r, urn[i]);
        }
        i = i + 1;
        assert(r@ =~= start + escape_colons(urn@.take(i as int)));
    }
    assert(urn@.take(i as int) =~= urn@);
    push_str(&mut r, "/");
    push_str(&mut r, suffix);
    push_str(&mut r, USER_TRACKS_QUERY);
    r
}

/// Which of a followed user's track lists is asked for.
#[derive(Clone, Copy, Debug, PartialEq, Eq, Structural)]
pub enum UserTrackList {
    /// The tracks the user published.
    Published,
    /// The tracks the user liked.
    Liked,
}

/// The public-API path suffix of a user's track list.
pub open spec fn public_suffix(list: UserTrackList) -> Seq<char> {
    match list {
        UserTrackList::Published => "tracks"@,
        UserTrackList::Liked => "likes/tracks"@,
    }
}

/// The api-v2 path of a user's track list, by the user's numeric ID.
pub open spec fn user_tracks_v2_path(user_id: u64, list: UserTrackList) -> Seq<char> {
    "/users/"@ + decimal(user_id as nat) + match list {
        UserTrackList::Published => "/tracks?limit=200&linked_partitioning=true"@,
        UserTrackList::Liked => "/track_likes?limit=200&linked_partitioning=true"@,
    }
}

/// Where a followed user's track list is requested.
#[derive(Debug, PartialEq, Eq)]
pub enum UserTracksRoute {
    /// An api-v2 path, resolved against the api-v2 base URL; a liked-tracks
    /// page lists likes that hold the tracks.
    V2(String),
    /// A full public-API URL.
    Public(String),
}

/// Chooses the route of a followed user's track list by the token: a
/// browser-session (Firefox) token, which SoundCloud refuses on the legacy
/// routes, uses api-v2's user-scoped collection, addressed by the numeric ID
/// of the user's URN; any other token uses the public API's user route.
pub fn user_tracks_route(user_urn: &str, list: UserTrackList, token: &crate::token::Token) -> (r: Result<UserTracksRoute, ApiError>)
    ensures
        token.is_firefox() ==> match crate::ids::urn_id(user_urn@) {
            Some(id) => (r matches Ok(UserTracksRoute::V2(p)) && p@ == user_tracks_v2_path(id, list)),
            None => r == Err::<UserTracksRoute, ApiError>(ApiError::InvalidUserUrn),
        },
        !token.is_firefox() ==> (r matches Ok(UserTracksRoute::Public(u)) && u@ == user_tracks_url_spec(user_urn@, public_suffix(list))),
{
    if token.is_firefox_session() {
        match crate::ids::soundcloud_id_from_urn(user_urn) {
            Some(id) => {
                let mut p = String::new();
                push_str(&mut p, "/users/");
                let digits = u64_to_string(id);
                push_str(&mut p, digits.as_str());
                match list {
                    UserTrackList::Published => push_str(&mut p, "/tracks?limit=200&linked_partitioning=true"),
                    UserTrackList::Liked => push_str(&mut p, "/track_likes?limit=200&linked_partitioning=true"),
                }
                Ok(UserTracksRoute::V2(p))
            },
            None => Err(ApiError::InvalidUserUrn),
        }
    } else {
        let suffix = match list {
            UserTrackList::Published => "tracks",
            UserTrackList::Liked => "likes/tracks",
        };
        proof {
            reveal_strlit("tracks");
            reveal_strlit("likes/tracks");
        }
        Ok(UserTracksRoute::Public(user_tracks_url(user_urn, suffix)))
    }
}

/// `url` with `param` appended unless it already holds `key`.
pub open spec fn with_param(url: Seq<char>, key: Seq<char>, param: Seq<char>) -> Seq<char> {
    if seq_contains(url, key) {
        url
    } else {
        url + param
    }
}

/// The URL that fetches the tracks of a playlist or album: its tracks URI,
/// made absolute on the public API where it is a path, with pagination, a
/// page size of 200 and (where `with_access`) every access level asked for
/// unless the URI already sets them.
pub open spec fn tracks_request_url_spec(tracks_uri: Seq<char>, with_access: bool) -> Seq<char> {
    let url = if seq_starts_with(tracks_uri, "http"@) {
        tracks_uri
    } else {
        "https://api.soundcloud.com"@ + tracks_uri
    };
    if seq_contains(url, "?"@) {
        let paged = with_param(url, "linked_partitioning"@, "&linked_partitioning=true"@);
        let sized = with_param(paged, "limit="@, "&limit=200"@);
        if with_access {
            with_param(sized, "access="@, "&access=playable,preview,blocked"@)
        } else {
            sized
        }
    } else if with_access {
        url + "?linked_partitioning=true&limit=200&access=playable,preview,blocked"@
    } else {
        url + "?linked_partitioning=true&limit=200"@
    }
}

proof fn lemma_contains_in_concat(a: Seq<char>, b: Seq<char>, k: Seq<char>)
    ensures
        seq_contains(a, k) ==> seq_contains(a + b, k),
        seq_contains(b, k) ==> seq_contains(a + b, k),
{
    if seq_contains(a, k) {
        let i = choose|i: int| 0 <= i && i + k.len() <= a.len() && #[trigger] a.subrange(i, i + k.len()) == k;
        assert((a + b).subrange(i, i + k.len()) =~= a.subrange(i, i + k.len()));
    }
    if seq_contains(b, k) {
        let i = choose|i: int| 0 <= i && i + k.len() <= b.len() && #[trigger] b.subrange(i, i + k.len()) == k;
        assert((a + b).subrange(a.len() + i, a.len() + i + k.len()) =~= b.subrange(i, i + k.len()));
    }
}

proof fn lemma_contains_at(s: Seq<char>, k: Seq<char>, i: int)
    requires
        0 <= i,
        i + k.len() <= s.len(),
        s.subrange(i, i + k.len()) == k,
    ensures
        seq_contains(s, k),
{
}

proof fn lemma_with_param(url: Seq<char>, key: Seq<char>, param: Seq<char>)
    requires
        seq_contains(param, key),
    ensures
        seq_contains(with_param(url, key, param), key),
        with_param(url, key, param).len() >= url.len(),
        with_param(url, key, param).take(url.len() as int) == url,
        seq_contains(url, key) ==> with_param(url, key, param) == url,
{
    lemma_contains_in_concat(url, param, key);
    assert((url + param).take(url.len() as int) =~= url);
    assert(url.take(url.len() as int) =~= url);
}

proof fn lemma_take_take(s: Seq<char>, m: int, n: int)
    requires
        0 <= n <= m <= s.len(),
    ensures
        s.take(m).take(n) == s.take(n),
{
    assert(s.take(m).take(n) =~= s.take(n));
}

/// The URL that opens a playlist's or album's tracks: the tracks URI itself
/// where it is absolute, else the public API's origin followed by it, and
/// then paging, a page size and, where asked, every access level.
pub proof fn lemma_tracks_request_url(tracks_uri: Seq<char>, with_access: bool)
    ensures
        ({
            let base = if seq_starts_with(tracks_uri, "http"@) { tracks_uri } else { "https://api.soundcloud.com"@ + tracks_uri };
            let r = tracks_request_url_spec(tracks_uri, with_access);
            &&& base.len() <= r.len()
            &&& r.take(base.len() as int) == base
            &&& seq_contains(r, "linked_partitioning"@)
            &&& seq_contains(r, "limit="@)
            &&& with_access ==> seq_contains(r, "access="@)
        }),
{
    reveal_strlit("linked_partitioning");
    reveal_strlit("limit=");
    reveal_strlit("access=");
    reveal_strlit("&linked_partitioning=true");
    reveal_strlit("&limit=200");
    reveal_strlit("&access=playable,preview,blocked");
    reveal_strlit("?linked_partitioning=true&limit=200&access=playable,preview,blocked");
    reveal_strlit("?linked_partitioning=true&limit=200");
    let base = if seq_starts_with(tracks_uri, "http"@) { tracks_uri } else { "https://api.soundcloud.com"@ + tracks_uri };
    let lp = "&linked_partitioning=true"@;
    let lm = "&limit=200"@;
    let ac = "&access=playable,preview,blocked"@;
    assert(lp.subrange(1, 20) =~= "linked_partitioning"@);
    lemma_contains_at(lp, "linked_partitioning"@, 1);
    assert(lm.subrange(1, 7) =~= "limit="@);
    lemma_contains_at(lm, "limit="@, 1);
    assert(ac.subrange(1, 8) =~= "access="@);
    lemma_contains_at(ac, "access="@, 1);
    if seq_contains(base, "?"@) {
        let paged = with_param(base, "linked_partitioning"@, lp);
        lemma_with_param(base, "linked_partitioning"@, lp);
        let sized = with_param(paged, "limit="@, lm);
        lemma_with_param(paged, "limit="@, lm);
        lemma_take_take(sized, paged.len() as int, base.len() as int);
        if seq_contains(paged, "linked_partitioning"@) {
            lemma_contains_in_concat(paged, lm, "linked_partitioning"@);
        }
        if with_access {
            lemma_with_param(sized, "access="@, ac);
            let full = with_param(sized, "access="@, ac);
            lemma_take_take(full, sized.len() as int, base.len() as int);
            lemma_take_take(full, sized.len() as int, paged.len() as int);
            lemma_contains_in_concat(sized, ac, "linked_partitioning"@);
            lemma_contains_in_concat(sized, ac, "limit="@);
        }
    } else {
        let tail_all = "?linked_partitioning=true&limit=200&access=playable,preview,blocked"@;
        let tail = "?linked_partitioning=true&limit=200"@;
        assert(tail_all.subrange(1, 20) =~= "linked_partitioning"@);
        lemma_contains_at(tail_all, "linked_partitioning"@, 1);
        assert(tail_all.subrange(26, 32) =~= "limit="@);
        lemma_contains_at(tail_all, "limit="@, 26);
        assert(tail_all.subrange(36, 43) =~= "access="@);
        lemma_contains_at(tail_all, "access="@, 36);
        assert(tail.subrange(1, 20) =~= "linked_partitioning"@);
        lemma_contains_at(tail, "linked_partitioning"@, 1);
        assert(tail.subrange(26, 32) =~= "limit="@);
        lemma_contains_at(tail, "limit="@, 26);
        lemma_contains_in_concat(base, tail_all, "linked_partitioning"@);
        lemma_contains_in_concat(base, tail_all, "limit="@);
        lemma_contains_in_concat(base, tail_all, "access="@);
        lemma_contains_in_concat(base, tail, "linked_partitioning"@);
        lemma_contains_in_concat(base, tail, "limit="@);
        assert((base + tail_all).take(base.len() as int) =~= base);
        assert((base + tail).take(base.len() as int) =~= base);
    }
}

/// Appends `param` unless the URL already holds `key`.
fn add_param(url: &mut String, key: &str, param: &str)
    ensures
        final(url)@ == with_param(old(url)@, key@, param@),
{
    let have = chars_of_string(url);
    let k = chars_of(key);
    if !contains_seq(&have, &k) {
        push_str(url, param);
    }
}

pub fn tracks_request_url(tracks_uri: &str, with_access: bool) -> (r: String)
    ensures
        r@ == tracks_request_url_spec(tracks_uri@, with_access),
{
    let uri = chars_of(tracks_uri);
    let http = chars_of("http");
    let mut url = String::new();
    if !starts_with(&uri, &http) {
        push_str(&mut url, "https://api.soundcloud.com");
    }
    push_str(&mut url, tracks_uri);
    let have = chars_of_string(&url);
    let question = chars_of("?");
    if contains_seq(&have, &question) {
        add_param(&mut url, "linked_partitioning", "&linked_partitioning=true");
        add_param(&mut url, "limit=", "&limit=200");
        if with_access {
            add_param(&mut url, "access=", "&access=playable,preview,blocked");
        }
    } else if with_access {
        push_str(&mut url, "?linked_partitioning=true&limit=200&access=playable,preview,blocked");
    } else {
        push_str(&mut url, "?linked_partitioning=true&limit=200");
    }
    url
}

/// What `form_urlencoded::Serializer` writes for a list of name/value
/// pairs: each pair as `name=value`, joined by `&`, both percent-encoded in
/// the `application/x-www-form-urlencoded` manner.
pub uninterp spec fn form_urlencoded(pairs: Seq<(Seq<char>, Seq<char>)>) -> Seq<char>;

/// The texts of a list of name/value pairs.
pub open spec fn pair_texts(pairs: Seq<(String, String)>) -> Seq<(Seq<char>, Seq<char>)> {
    pairs.map_values(|p: (String, String)| (p.0@, p.1@))
}

/// Encodes name/value pairs as a query string with
/// `url::form_urlencoded::Serializer` (`extend_pairs`, then `finish`). The
/// encoding is named, not stated: it depends on the pairs alone.
#[verifier::external_body]
fn encode_query(pairs: &Vec<(String, String)>) -> (r: String)
    ensures
        r@ == form_urlencoded(pair_texts(pairs@)),
{
    url::form_urlencoded::Serializer::new(String::new()).extend_pairs(pairs.iter()).finish()
}

/// The query parameters of a search: the query text, pagination, a page
/// size of 50 and, for tracks, every access level.
pub open spec fn search_pairs(query: Seq<char>, include_access: bool) -> Seq<(Seq<char>, Seq<char>)> {
    let base = seq![("q"@, query), ("linked_partitioning"@, "true"@), ("limit"@, "50"@)];
    if include_access {
        base.push(("access"@, "playable,preview,blocked"@))
    } else {
        base
    }
}

/// The api-v2 path that searches one resource (`tracks`, `albums`,
/// `playlists_without_albums` or `users`) for a query.
pub open spec fn search_path_spec(resource: Seq<char>, query: Seq<char>, include_access: bool) -> Seq<char> {
    "/search/"@ + resource + "?"@ + form_urlencoded(search_pairs(query, include_access))
}

/// What a search asks for: the query text under `q` (and only there), pages
/// linked, fifty results a page, and every access level exactly when asked
/// to include them; the path names the searched resource before the query.
pub proof fn lemma_search_request(resource: Seq<char>, query: Seq<char>, include_access: bool)
    ensures
        search_pairs(query, include_access).contains(("q"@, query)),
        forall|k: int| 0 <= k < search_pairs(query, include_access).len()
            && (#[trigger] search_pairs(query, include_access)[k]).0 == "q"@ ==> search_pairs(query, include_access)[k].1 == query,
        search_pairs(query, include_access).contains(("linked_partitioning"@, "true"@)),
        search_pairs(query, include_access).contains(("limit"@, "50"@)),
        include_access <==> search_pairs(query, include_access).contains(("access"@, "playable,preview,blocked"@)),
        search_path_spec(resource, query, include_access).take(("/search/"@ + resource + "?"@).len() as int)
            == "/search/"@ + resource + "?"@,
{
    reveal_strlit("q");
    reveal_strlit("linked_partitioning");
    reveal_strlit("limit");
    reveal_strlit("access");
    let p = search_pairs(query, include_access);
    assert(p[0] == ("q"@, query));
    assert(p[1] == ("linked_partitioning"@, "true"@));
    assert(p[2] == ("limit"@, "50"@));
    if include_access {
        assert(p[3] == ("access"@, "playable,preview,blocked"@));
    } else {
        if p.contains(("access"@, "playable,preview,blocked"@)) {
            let k = choose|k: int| 0 <= k < p.len() && p[k] == ("access"@, "playable,preview,blocked"@);
            assert(p[k].0.len() == 6);
        }
    }
    assert forall|k: int| 0 <= k < p.len() && (#[trigger] p[k]).0 == "q"@ implies p[k].1 == query by {
        if k > 0 {
            assert(p[k].0.len() != 1);
        }
    }
    let pre = "/search/"@ + resource + "?"@;
    assert(search_path_spec(resource, query, include_access) == pre + form_urlencoded(p));
    assert((pre + form_urlencoded(p)).take(pre.len() as int) =~= pre);
}

fn text_of(s: &str) -> (r: String)
    ensures
        r@ == s@,
{
    let mut r = String::new();
    push_str(&mut r, s);
    r
}

pub fn search_path(resource: &str, query: &str, include_access: bool) -> (r: String)
    ensures
        r@ == search_path_spec(resource@, query@, include_access),
{
    let mut pairs: Vec<(String, String)> = Vec::new();
    pairs.push((text_of("q"), text_of(query)));
    pairs.push((text_of("linked_partitioning"), text_of("true")));
    pairs.push((text_of("limit"), text_of("50")));
    if include_access {
        pairs.push((text_of("access"), text_of("playable,preview,blocked")));
    }
    assert(pair_texts(pairs@) =~= search_pairs(query@, include_access));
    let encoded = encode_query(&pairs);
    let mut r = String::new();
    push_str(&mut r, "/search/");
    push_str(&mut r, resource);
    push_str(&mut r, "?");
    push_str(&mut r, encoded.as_str());
    r
}

/// The HTTP method of a like, unlike, follow or unfollow.
#[derive(Debug, Clone, Copy, PartialEq, Eq, Structural)]
pub enum HttpMethod {
    Post,
    Put,
    Delete,
}

/// The public-API request that carries out an engagement: a like is a POST
/// and an unlike a DELETE on the track's or playlist's like (an album is
/// liked as a playlist); a follow is a PUT and an unfollow a DELETE on the
/// signed-in user's followings.
pub open spec fn engagement_request_spec(action: EngagementAction) -> (HttpMethod, Seq<char>) {
    match action {
        EngagementAction::LikeTrack { track_id, .. } =>
            (HttpMethod::Post, "https://api.soundcloud.com/likes/tracks/"@ + decimal(track_id as nat)),
        EngagementAction::UnlikeTrack { track_id, .. } =>
            (HttpMethod::Delete, "https://api.soundcloud.com/likes/tracks/"@ + decimal(track_id as nat)),
        EngagementAction::LikePlaylist { playlist_id, .. } =>
            (HttpMethod::Post, "https://api.soundcloud.com/likes/playlists/"@ + decimal(playlist_id as nat)),
        EngagementAction::UnlikePlaylist { playlist_id, .. } =>
            (HttpMethod::Delete, "https://api.soundcloud.com/likes/playlists/"@ + decimal(playlist_id as nat)),
        EngagementAction::LikeAlbum { playlist_id, .. } =>
            (HttpMethod::Post, "https://api.soundcloud.com/likes/playlists/"@ + decimal(playlist_id as nat)),
        EngagementAction::UnlikeAlbum { playlist_id, .. } =>
            (HttpMethod::Delete, "https://api.soundcloud.com/likes/playlists/"@ + decimal(playlist_id as nat)),
        EngagementAction::FollowUser { user_id, .. } =>
            (HttpMethod::Put, "https://api.soundcloud.com/me/followings/"@ + decimal(user_id as nat)),
        EngagementAction::UnfollowUser { user_id, .. } =>
            (HttpMethod::Delete, "https://api.soundcloud.com/me/followings/"@ + decimal(user_id as nat)),
    }
}

/// Whether an engagement takes back an earlier one: an unlike or an unfollow.
pub open spec fn is_undo(action: EngagementAction) -> bool {
    action is UnlikeTrack || action is UnlikePlaylist || action is UnlikeAlbum || action is UnfollowUser
}

/// Whether `undo` takes back `action`: the same kind of item, by the same ID.
pub open spec fn undoes(undo: EngagementAction, action: EngagementAction) -> bool {
    match (undo, action) {
        (EngagementAction::UnlikeTrack { track_id: a, .. }, EngagementAction::LikeTrack { track_id: b, .. }) => a == b,
        (EngagementAction::UnlikePlaylist { playlist_id: a, .. }, EngagementAction::LikePlaylist { playlist_id: b, .. }) => a == b,
        (EngagementAction::UnlikeAlbum { playlist_id: a, .. }, EngagementAction::LikeAlbum { playlist_id: b, .. }) => a == b,
        (EngagementAction::UnfollowUser { user_id: a, .. }, EngagementAction::FollowUser { user_id: b, .. }) => a == b,
        _ => false,
    }
}

/// The methods of the engagement requests: an undo is a DELETE, a follow a
/// PUT and a like a POST; a follow goes to the signed-in user's followings
/// under the user's ID.
pub proof fn lemma_engagement_methods(action: EngagementAction)
    ensures
        engagement_request_spec(action).0 == HttpMethod::Delete <==> is_undo(action),
        engagement_request_spec(action).0 == HttpMethod::Put <==> action is FollowUser,
        engagement_request_spec(action).0 == HttpMethod::Post
            <==> (action is LikeTrack || action is LikePlaylist || action is LikeAlbum),
        action matches EngagementAction::FollowUser { user_id, .. } ==>
            engagement_request_spec(action).1 == "https://api.soundcloud.com/me/followings/"@ + decimal(user_id as nat),
{
}

/// Taking an engagement back addresses the same resource as the engagement
/// with another method: unlike and like, unfollow and follow of one item
/// differ only in the method.
pub proof fn lemma_undo_same_target_other_method(undo: EngagementAction, action: EngagementAction)
    requires
        undoes(undo, action),
    ensures
        engagement_request_spec(undo).1 == engagement_request_spec(action).1,
        engagement_request_spec(undo).0 == HttpMethod::Delete,
        engagement_request_spec(action).0 != HttpMethod::Delete,
{
}

fn url_with_id(prefix: &str, id: u64) -> (r: String)
    ensures
        r@ == prefix@ + decimal(id as nat),
{
    let mut r = String::new();
    push_str(&mut r, prefix);
    let digits = u64_to_string(id);
    push_str(&mut r, digits.as_str());
    r
}

pub fn engagement_request(action: &EngagementAction) -> (r: (HttpMethod, String))
    ensures
        r.0 == engagement_request_spec(*action).0,
        r.1@ == engagement_request_spec(*action).1,
        r.0 == HttpMethod::Delete <==> is_undo(*action),
        r.0 == HttpMethod::Put <==> *action is FollowUser,
        *action matches EngagementAction::FollowUser { user_id, .. } ==>
            r.1@ == "https://api.soundcloud.com/me/followings/"@ + decimal(user_id as nat),
        *action matches EngagementAction::UnfollowUser { user_id, .. } ==>
            r.1@ == "https://api.soundcloud.com/me/followings/"@ + decimal(user_id as nat),
{
    match action {
        EngagementAction::LikeTrack { track_id, .. } =>
            (HttpMethod::Post, url_with_id("https://api.soundcloud.com/likes/tracks/", *track_id)),
        EngagementAction::UnlikeTrack { track_id, .. } =>
            (HttpMethod::Delete, url_with_id("https://api.soundcloud.com/likes/tracks/", *track_id)),
        EngagementAction::LikePlaylist { playlist_id, .. } =>
            (HttpMethod::Post, url_with_id("https://api.soundcloud.com/likes/playlists/", *playlist_id)),
        EngagementAction::UnlikePlaylist { playlist_id, .. } =>
            (HttpMethod::Delete, url_with_id("https://api.soundcloud.com/likes/playlists/", *playlist_id)),
        EngagementAction::LikeAlbum { playlist_id, .. } =>
            (HttpMethod::Post, url_with_id("https://api.soundcloud.com/likes/playlists/", *playlist_id)),
        EngagementAction::UnlikeAlbum { playlist_id, .. } =>
            (HttpMethod::Delete, url_with_id("https://api.soundcloud.com/likes/playlists/", *playlist_id)),
        EngagementAction::FollowUser { user_id, .. } =>
            (HttpMethod::Put, url_with_id("https://api.soundcloud.com/me/followings/", *user_id)),
        EngagementAction::UnfollowUser { user_id, .. } =>
            (HttpMethod::Delete, url_with_id("https://api.soundcloud.com/me/followings/", *user_id)),
    }
}

/// What an engagement that the service accepted reports back: the liked or
/// followed item itself, or the key of the one no longer liked or followed.
pub open spec fn engagement_done_spec(action: EngagementAction) -> EngagementDone {
    match action {
        EngagementAction::LikeTrack { track, .. } => EngagementDone::LikedTrack(track),
        EngagementAction::UnlikeTrack { track_urn, .. } => EngagementDone::UnlikedTrack { track_urn },
        EngagementAction::LikePlaylist { playlist, .. } => EngagementDone::LikedPlaylist(playlist),
        EngagementAction::UnlikePlaylist { tracks_uri, .. } => EngagementDone::UnlikedPlaylist { tracks_uri },
        EngagementAction::LikeAlbum { album, .. } => EngagementDone::LikedAlbum(album),
        EngagementAction::UnlikeAlbum { tracks_uri, .. } => EngagementDone::UnlikedAlbum { tracks_uri },
        EngagementAction::FollowUser { artist, .. } => EngagementDone::FollowedUser(artist),
        EngagementAction::UnfollowUser { urn, .. } => EngagementDone::UnfollowedUser { urn },
    }
}

pub fn engagement_done(action: EngagementAction) -> (r: EngagementDone)
    ensures
        r == engagement_done_spec(action),
{
    match action {
        EngagementAction::LikeTrack { track, .. } => EngagementDone::LikedTrack(track),
        EngagementAction::UnlikeTrack { track_urn, .. } => EngagementDone::UnlikedTrack { track_urn },
        EngagementAction::LikePlaylist { playlist, .. } => EngagementDone::LikedPlaylist(playlist),
        EngagementAction::UnlikePlaylist { tracks_uri, .. } => EngagementDone::UnlikedPlaylist { tracks_uri },
        EngagementAction::LikeAlbum { album, .. } => EngagementDone::LikedAlbum(album),
        EngagementAction::UnlikeAlbum { tracks_uri, .. } => EngagementDone::UnlikedAlbum { tracks_uri },
        EngagementAction::FollowUser { artist, .. } => EngagementDone::FollowedUser(artist),
        EngagementAction::UnfollowUser { urn, .. } => EngagementDone::UnfollowedUser { urn },
    }
}

} // verus!
