use vstd::prelude::*;

use crate::json::Json;
use crate::text::push_str;

verus! {

/// What `Url::parse` gives for a text, serialised again; `None` where it fails.
pub uninterp spec fn url_parse(s: Seq<char>) -> Option<Seq<char>>;

/// What `Url::join` gives for a reference resolved against a base URL,
/// serialised; `None` where the base or the reference does not parse.
pub uninterp spec fn url_join(base: Seq<char>, reference: Seq<char>) -> Option<Seq<char>>;

/// Parses an absolute URL with `url::Url::parse` and serialises it again
/// (`Url::as_str`). The result is named, not stated: it depends on the text
/// alone.
#[verifier::external_body]
fn parse_url(s: &str) -> (r: Option<String>)
    ensures
        match r {
            Some(u) => url_parse(s@) == Some(u@),
            None => url_parse(s@) is None,
        },
{
    url::Url::parse(s).ok().map(|u| u.as_str().to_string())
}

/// Resolves a reference against a base URL with `url::Url::parse` on the
/// base and `Url::join`, and serialises the result. The result is named, not
/// stated: it depends on the two texts alone.
#[verifier::external_body]
pub(crate) fn join_url(base: &str, reference: &str) -> (r: Option<String>)
    ensures
        match r {
            Some(u) => url_join(base@, reference@) == Some(u@),
            None => url_join(base@, reference@) is None,
        },
{
    url::Url::parse(base).and_then(|b| b.join(reference)).ok().map(|u| u.as_str().to_string())
}

/// One media segment of a parsed media playlist.
#[derive(Debug)]
pub struct MediaSegment {
    pub uri: String,
    /// The initialization section (`EXT-X-MAP`) the segment names, if any.
    pub map_uri: Option<String>,
    /// The segment's length in whole milliseconds.
    pub duration_ms: u64,
}

/// One variant stream of a master playlist.
#[derive(Debug)]
pub struct Variant {
    pub uri: String,
    pub bandwidth: u64,
}

/// A playlist as the parser read it.
#[derive(Debug)]
pub enum ParsedPlaylist {
    Media(Vec<MediaSegment>),
    Master(Vec<Variant>),
}

/// Why a stream could not be prepared.
#[derive(Debug)]
pub enum HlsError {
    NoSegments,
    NoVariants,
    /// A URL that does not resolve.
    BadUrl(String),
    TooManyIndirections,
    /// The playlist could not be fetched or read; the explanation says why.
    Fetch(String),
    NoStreamUrl,
    NoMediaUrl,
}

pub open spec fn hls_error_text(e: HlsError) -> Seq<char> {
    match e {
        HlsError::NoSegments => "HLS media playlist contained no segments"@,
        HlsError::NoVariants => "HLS master playlist contained no variants"@,
        HlsError::BadUrl(u) => "failed to resolve url "@ + u@,
        HlsError::TooManyIndirections => "Too many playlist indirections (master -> media)"@,
        HlsError::Fetch(m) => m@,
        HlsError::NoStreamUrl => "No HLS stream URL available (tried AAC 160, AAC 96, MP3 128)"@,
        HlsError::NoMediaUrl => "SoundCloud transcoding response contained no media URL"@,
    }
}

impl HlsError {
    /// The explanation shown to the user.
    pub fn message(&self) -> (r: String)
        ensures
            r@ == hls_error_text(*self),
    {
        let mut r = String::new();
        match self {
            HlsError::NoSegments => push_str(&mut r, "HLS media playlist contained no segments"),
            HlsError::NoVariants => push_str(&mut r, "HLS master playlist contained no variants"),
            HlsError::BadUrl(u) => {
                push_str(&mut r, "failed to resolve url ");
                push_str(&mut r, u.as_str());
            },
            HlsError::TooManyIndirections => push_str(&mut r, "Too many playlist indirections (master -> media)"),
            HlsError::Fetch(m) => push_str(&mut r, m.as_str()),
            HlsError::NoStreamUrl => push_str(&mut r, "No HLS stream URL available (tried AAC 160, AAC 96, MP3 128)"),
            HlsError::NoMediaUrl => push_str(&mut r, "SoundCloud transcoding response contained no media URL"),
        }
        r
    }
}

/// A segment ready to download.
#[derive(Debug)]
pub struct HlsSegment {
    pub url: String,
    pub duration_ms: u64,
}

/// A media playlist resolved to absolute URLs, with the start of every
/// segment on the track's timeline.
#[derive(Debug)]
pub struct HlsManifest {
    pub init_url: Option<String>,
    pub segments: Vec<HlsSegment>,
    pub segment_start_ms: Vec<u64>,
    pub total_duration_ms: u64,
}

/// A segment counts at least one millisecond.
pub open spec fn seg_len(d: u64) -> int {
    if d == 0 { 1 } else { d as int }
}

/// Addition that stops at `u64::MAX`.
pub open spec fn sat_add(a: int, b: int) -> int {
    if a + b > u64::MAX { u64::MAX as int } else { a + b }
}

/// Where segment `n` starts: the saturating sum of the lengths before it.
pub open spec fn cursor_after(segs: Seq<MediaSegment>, n: int) -> int
    decreases n,
{
    if n <= 0 { 0 } else { sat_add(cursor_after(segs, n - 1), seg_len(segs[n - 1].duration_ms)) }
}

/// The first segment before `n` that names an initialization section.
pub open spec fn first_map_upto(segs: Seq<MediaSegment>, n: int) -> Option<int>
    decreases n,
{
    if n <= 0 {
        None
    } else {
        match first_map_upto(segs, n - 1) {
            Some(k) => Some(k),
            None => if segs[n - 1].map_uri is Some { Some(n - 1) } else { None },
        }
    }
}

/// Once a segment names an initialization section, later segments do not change which one counts.
proof fn lemma_first_map_stable(segs: Seq<MediaSegment>, n: int, m: int)
    requires
        0 <= n <= m,
        first_map_upto(segs, n) is Some,
    ensures
        first_map_upto(segs, m) == first_map_upto(segs, n),
    decreases m - n,
{
    if m > n {
        lemma_first_map_stable(segs, n, m - 1);
    }
}

/// Whether every URL of the first `n` segments resolves against `base`.
pub open spec fn urls_resolve(base: Seq<char>, segs: Seq<MediaSegment>, n: int) -> bool {
    &&& forall|i: int| 0 <= i < n ==> (#[trigger] url_join(base, segs[i].uri@)) is Some
    &&& first_map_upto(segs, n) matches Some(k) ==> url_join(base, segs[k].map_uri->0@) is Some
}

/// The initialization URL the first `n` segments give.
pub open spec fn init_url_upto(base: Seq<char>, segs: Seq<MediaSegment>, n: int) -> Option<Seq<char>> {
    match first_map_upto(segs, n) {
        Some(k) => url_join(base, segs[k].map_uri->0@),
        None => None,
    }
}

/// The manifest a media playlist gives: absolute URLs, lengths of at least
/// one millisecond, and saturating start times.
pub open spec fn manifest_matches(m: HlsManifest, base: Seq<char>, segs: Seq<MediaSegment>) -> bool {
    let n = segs.len() as int;
    &&& m.segments@.len() == n
    &&& m.segment_start_ms@.len() == n
    &&& (match m.init_url {
        Some(u) => init_url_upto(base, segs, n) == Some(u@),
        None => init_url_upto(base, segs, n) is None,
    })
    &&& forall|i: int| 0 <= i < n ==> url_join(base, segs[i].uri@) == Some(#[trigger] m.segments@[i].url@)
    &&& forall|i: int| 0 <= i < n ==> #[trigger] m.segments@[i].duration_ms == seg_len(segs[i].duration_ms)
    &&& forall|i: int| 0 <= i < n ==> #[trigger] m.segment_start_ms@[i] == cursor_after(segs, i)
    &&& m.total_duration_ms == (if cursor_after(segs, n) < 1 { 1 } else { cursor_after(segs, n) })
}

/// Resolves a media playlist against the URL it came from.
pub fn build_manifest(base: &str, segs: &Vec<MediaSegment>) -> (r: Result<HlsManifest, HlsError>)
    ensures
        segs@.len() > 0 && urls_resolve(base@, segs@, segs@.len() as int) ==> (r matches Ok(m) && manifest_matches(m, base@, segs@)),
        !urls_resolve(base@, segs@, segs@.len() as int) ==> r matches Err(HlsError::BadUrl(_)),
        segs@.len() == 0 ==> r matches Err(HlsError::NoSegments),
{
    let mut init_url: Option<String> = None;
    let mut segments: Vec<HlsSegment> = Vec::new();
    let mut starts: Vec<u64> = Vec::new();
    let mut cursor: u64 = 0;
    let mut i: usize = 0;
    while i < segs.len()
        invariant
            i <= segs.len(),
            urls_resolve(base@, segs@, i as int),
            segments@.len() == i,
            starts@.len() == i,
            cursor == cursor_after(segs@, i as int),
            match init_url {
                Some(u) => init_url_upto(base@, segs@, i as int) == Some(u@),
                None => first_map_upto(segs@, i as int) is None,
            },
            forall|k: int| 0 <= k < i ==> url_join(base@, segs@[k].uri@) == Some(#[trigger] segments@[k].url@),
            forall|k: int| 0 <= k < i ==> #[trigger] segments@[k].duration_ms == seg_len(segs@[k].duration_ms),
            forall|k: int| 0 <= k < i ==> #[trigger] starts@[k] == cursor_after(segs@, k),
        decreases segs.len() - i,
    {
        let seg = &segs[i];
        if init_url.is_none() {
            if let Some(map) = &seg.map_uri {
                match join_url(base, map.as_str()) {
                    Some(u) => init_url = Some(u),
                    None => {
                        assert(first_map_upto(segs@, i + 1) == Some(i as int));
                        proof { lemma_first_map_stable(segs@, i + 1, segs@.len() as int); }
                        return Err(HlsError::BadUrl(map.clone()));
                    },
                }
            }
        }
        let url = match join_url(base, seg.uri.as_str()) {
            Some(u) => u,
            None => {
                assert(url_join(base@, segs@[i as int].uri@) is None);
                return Err(HlsError::BadUrl(seg.uri.clone()));
            },
        };
        let d: u64 = if seg.duration_ms == 0 { 1 } else { seg.duration_ms };
        starts.push(cursor);
        cursor = if cursor > u64::MAX - d { u64::MAX } else { cursor + d };
        let ghost before = segments@;
        let ghost url_view = url@;
        assert(url_join(base@, segs@[i as int].uri@) == Some(url_view));
        segments.push(HlsSegment { url, duration_ms: d });
        assert(segments@[i as int].url@ == url_view);
        i += 1;
        proof {
            assert forall|k: int| 0 <= k < i implies url_join(base@, segs@[k].uri@) == Some(#[trigger] segments@[k].url@) by {
                if k < i - 1 {
                    assert(segments@[k] == before[k]);
                    assert(url_join(base@, segs@[k].uri@) == Some(before[k].url@));
                }
            }
            assert forall|k: int| 0 <= k < i implies (#[trigger] url_join(base@, segs@[k].uri@)) is Some by {
                assert(url_join(base@, segs@[k].uri@) == Some(segments@[k].url@));
            }
        }
    }
    if segments.len() == 0 {
        return Err(HlsError::NoSegments);
    }
    let total = if cursor < 1 { 1 } else { cursor };
    let m = HlsManifest { init_url, segments, segment_start_ms: starts, total_duration_ms: total };
    assert(manifest_matches(m, base@, segs@));
    Ok(m)
}

/// The position a lookup uses: the requested one, kept before the end.
pub open spec fn clamp_position(position_ms: u64, total_ms: u64) -> int {
    let last = if total_ms == 0 { 0 } else { total_ms - 1 };
    if position_ms < last { position_ms as int } else { last }
}

impl HlsManifest {
    /// Finds the segment that holds a position and the offset into it: the
    /// last segment starting at or before the position, which is kept before
    /// the end of the track.
    pub fn locate_position(&self, position_ms: u64) -> (r: (usize, u64))
        requires
            self.segment_start_ms@.len() == self.segments@.len(),
        ensures
            self.segments@.len() == 0 ==> r == (0usize, 0u64),
            self.segments@.len() > 0 ==> {
                let clamped = clamp_position(position_ms, self.total_duration_ms);
                let starts = self.segment_start_ms@;
                &&& r.0 < starts.len()
                &&& (exists|i: int| 0 <= i < starts.len() && starts[i] <= clamped) ==> {
                    &&& starts[r.0 as int] <= clamped
                    &&& forall|j: int| r.0 < j < starts.len() ==> starts[j] > clamped
                }
                &&& (forall|i: int| 0 <= i < starts.len() ==> starts[i] > clamped) ==> r.0 == 0
                &&& r.1 == (if starts[r.0 as int] <= clamped { clamped - starts[r.0 as int] } else { 0 })
            },
    {
        let n = self.segments.len();
        if n == 0 {
            return (0, 0);
        }
        let total = self.total_duration_ms;
        let last: u64 = if total == 0 { 0 } else { total - 1 };
        let clamped: u64 = if position_ms < last { position_ms } else { last };
        let ghost starts = self.segment_start_ms@;
        let mut i: usize = n;
        while i > 0
            invariant
                i <= n,
                n > 0,
                n == self.segments@.len(),
                clamped == clamp_position(position_ms, self.total_duration_ms),
                n == starts.len(),
                starts == self.segment_start_ms@,
                forall|j: int| i <= j < n ==> starts[j] > clamped,
            decreases i,
        {
            if self.segment_start_ms[i - 1] <= clamped {
                let idx = i - 1;
                let start = self.segment_start_ms[idx];
                return (idx, clamped - start);
            }
            i -= 1;
        }
        let start = self.segment_start_ms[0];
        let offset = if start <= clamped { clamped - start } else { 0 };
        (0, offset)
    }
}

/// Below the cap, a cursor is the plain sum of the lengths before it.
proof fn lemma_cursor_unsaturated(segs: Seq<MediaSegment>, n: int)
    requires
        0 <= n <= segs.len(),
        cursor_after(segs, n) < u64::MAX,
    ensures
        forall|i: int| 0 <= i < n ==> #[trigger] cursor_after(segs, i + 1) == cursor_after(segs, i) + seg_len(segs[i].duration_ms),
        forall|i: int, j: int| 0 <= i <= j <= n ==> #[trigger] cursor_after(segs, i) <= #[trigger] cursor_after(segs, j),
    decreases n,
{
    if n > 0 {
        assert(cursor_after(segs, n) == sat_add(cursor_after(segs, n - 1), seg_len(segs[n - 1].duration_ms)));
        assert(cursor_after(segs, n - 1) < u64::MAX);
        lemma_cursor_unsaturated(segs, n - 1);
        assert forall|i: int, j: int| 0 <= i <= j <= n implies #[trigger] cursor_after(segs, i) <= #[trigger] cursor_after(segs, j) by {
            if j == n && i < n {
                assert(cursor_after(segs, i) <= cursor_after(segs, n - 1));
            }
        }
    }
}

/// For a manifest built from a media playlist whose total length stays below
/// `u64::MAX` milliseconds, the segment that `locate_position` finds holds the
/// (clamped) position, and the offset falls inside that segment.
pub proof fn lemma_located_segment_holds_position(m: HlsManifest, base: Seq<char>, segs: Seq<MediaSegment>, position_ms: u64, idx: int)
    requires
        manifest_matches(m, base, segs),
        segs.len() > 0,
        cursor_after(segs, segs.len() as int) < u64::MAX,
        0 <= idx < segs.len(),
        m.segment_start_ms@[idx] <= clamp_position(position_ms, m.total_duration_ms),
        forall|j: int| idx < j < segs.len() ==> m.segment_start_ms@[j] > clamp_position(position_ms, m.total_duration_ms),
    ensures
        clamp_position(position_ms, m.total_duration_ms) < m.segment_start_ms@[idx] + m.segments@[idx].duration_ms,
        clamp_position(position_ms, m.total_duration_ms) - m.segment_start_ms@[idx] < m.segments@[idx].duration_ms,
        clamp_position(position_ms, m.total_duration_ms) < m.total_duration_ms,
{
    let n = segs.len() as int;
    lemma_cursor_unsaturated(segs, n);
    assert(cursor_after(segs, idx + 1) == cursor_after(segs, idx) + seg_len(segs[idx].duration_ms));
    assert(m.segments@[idx].duration_ms == seg_len(segs[idx].duration_ms));
    assert(m.segment_start_ms@[idx] == cursor_after(segs, idx));
    assert(cursor_after(segs, n) >= cursor_after(segs, 1));
    assert(cursor_after(segs, 1) == cursor_after(segs, 0) + seg_len(segs[0].duration_ms));
    if idx + 1 < n {
        assert(m.segment_start_ms@[idx + 1] == cursor_after(segs, idx + 1));
    } else {
        assert(m.total_duration_ms == cursor_after(segs, n));
    }
}

/// Variant `i` has the highest bandwidth, and no later variant has as much.
pub open spec fn is_best_variant(vs: Seq<Variant>, i: int) -> bool {
    &&& 0 <= i < vs.len()
    &&& forall|j: int| 0 <= j < vs.len() ==> vs[j].bandwidth <= vs[i].bandwidth
    &&& forall|j: int| i < j < vs.len() ==> vs[j].bandwidth < vs[i].bandwidth
}

/// The variant with the highest bandwidth; among equals, the last one.
pub fn best_variant_index(variants: &Vec<Variant>) -> (r: Option<usize>)
    ensures
        variants@.len() == 0 <==> r is None,
        r matches Some(i) ==> is_best_variant(variants@, i as int),
{
    if variants.len() == 0 {
        return None;
    }
    let mut best: usize = 0;
    let mut i: usize = 1;
    while i < variants.len()
        invariant
            1 <= i <= variants.len(),
            best < i,
            forall|j: int| 0 <= j < i ==> variants@[j].bandwidth <= variants@[best as int].bandwidth,
            forall|j: int| best < j < i ==> variants@[j].bandwidth < variants@[best as int].bandwidth,
        decreases variants.len() - i,
    {
        if variants[i].bandwidth >= variants[best].bandwidth {
            best = i;
        }
        i += 1;
    }
    Some(best)
}

/// What one fetched playlist leads to.
#[derive(Debug)]
pub enum PlaylistStep {
    /// A media playlist: the stream is ready.
    Ready(HlsManifest),
    /// A master playlist: fetch the chosen variant's playlist next.
    Follow(String),
}

/// Handles one fetched playlist: a media playlist becomes the manifest, a
/// master playlist points to its highest-bandwidth variant.
pub fn playlist_step(base: &str, parsed: &ParsedPlaylist) -> (r: Result<PlaylistStep, HlsError>)
    ensures
        match *parsed {
            ParsedPlaylist::Media(segs) => {
                &&& segs@.len() > 0 && urls_resolve(base@, segs@, segs@.len() as int) ==> (r matches Ok(PlaylistStep::Ready(m)) && manifest_matches(m, base@, segs@))
                &&& !urls_resolve(base@, segs@, segs@.len() as int) ==> (r matches Err(HlsError::BadUrl(_)))
                &&& segs@.len() == 0 ==> (r matches Err(HlsError::NoSegments))
            },
            ParsedPlaylist::Master(vs) => {
                &&& vs@.len() == 0 ==> (r matches Err(HlsError::NoVariants))
                &&& vs@.len() > 0 ==> exists|i: int| {
                    &&& #[trigger] is_best_variant(vs@, i)
                    &&& match url_join(base@, vs@[i].uri@) {
                        Some(u) => (r matches Ok(PlaylistStep::Follow(f)) && f@ == u),
                        None => (r matches Err(HlsError::BadUrl(_))),
                    }
                }
            },
        },
{
    match parsed {
        ParsedPlaylist::Media(segs) => match build_manifest(base, segs) {
            Ok(m) => Ok(PlaylistStep::Ready(m)),
            Err(e) => Err(e),
        },
        ParsedPlaylist::Master(vs) => match best_variant_index(vs) {
            Some(i) => match join_url(base, vs[i].uri.as_str()) {
                Some(u) => {
                    assert(is_best_variant(vs@, i as int));
                    Ok(PlaylistStep::Follow(u))
                },
                None => {
                    assert(is_best_variant(vs@, i as int));
                    Err(HlsError::BadUrl(vs[i].uri.clone()))
                },
            },
            None => Err(HlsError::NoVariants),
        },
    }
}

/// How many playlists a stream may go through before its media playlist.
pub const MAX_PLAYLIST_FETCHES: usize = 5;

/// Whether a fetched playlist is a media playlist that makes a manifest at
/// `base`: it has segments and every segment URL resolves against `base`.
pub open spec fn usable_media(res: Result<ParsedPlaylist, HlsError>, base: Seq<char>) -> bool {
    res matches Ok(ParsedPlaylist::Media(segs)) && segs@.len() > 0 && urls_resolve(base, segs@, segs@.len() as int)
}

/// Whether whatever `fetch` gives for `url` is a usable media playlist.
pub open spec fn always_usable<F: Fn(&str) -> Result<ParsedPlaylist, HlsError>>(fetch: F, url: Seq<char>) -> bool {
    forall|u: &str, res: Result<ParsedPlaylist, HlsError>| u@ == url && #[trigger] call_ensures(fetch, (u,), res)
        ==> usable_media(res, url)
}

/// Whether whatever `fetch` gives for `url` is an error.
pub open spec fn always_fails<F: Fn(&str) -> Result<ParsedPlaylist, HlsError>>(fetch: F, url: Seq<char>) -> bool {
    forall|u: &str, res: Result<ParsedPlaylist, HlsError>| u@ == url && #[trigger] call_ensures(fetch, (u,), res)
        ==> res is Err
}

/// A fetch of `url` that gave a playlist which is not a usable media
/// playlist shows that `fetch` neither always fails nor always gives one there.
proof fn lemma_fetched_rules_out<F: Fn(&str) -> Result<ParsedPlaylist, HlsError>>(fetch: F, url: Seq<char>, u: &str, p: ParsedPlaylist)
    requires
        u@ == url,
        call_ensures(fetch, (u,), Ok(p)),
    ensures
        !always_fails(fetch, url),
        !usable_media(Ok(p), url) ==> !always_usable(fetch, url),
{
    assert(call_ensures(fetch, (u,), Ok::<ParsedPlaylist, HlsError>(p)));
}

/// Follows master playlists to a media playlist, fetching each playlist with
/// `fetch`, at most `MAX_PLAYLIST_FETCHES` times, starting at `url`. A
/// manifest that comes back was built from a media playlist that `fetch` gave
/// for some URL. Where whatever `fetch` gives for `url` itself is a usable
/// media playlist, the manifest comes back; where it can only fail, its
/// error comes back.
pub fn fetch_manifest<F>(url: String, fetch: F) -> (r: Result<HlsManifest, HlsError>) where
    F: Fn(&str) -> Result<ParsedPlaylist, HlsError>,

    requires
        forall|u: &str| call_requires(fetch, (u,)),
    ensures
        r matches Ok(m) ==> exists|u: &str, segs: Vec<MediaSegment>|
            #[trigger] call_ensures(fetch, (u,), Ok(ParsedPlaylist::Media(segs))) && manifest_matches(m, u@, segs@),
        always_usable(fetch, url@) ==> (r matches Ok(m) && exists|u: &str, segs: Vec<MediaSegment>| u@ == url@
                && #[trigger] call_ensures(fetch, (u,), Ok(ParsedPlaylist::Media(segs))) && manifest_matches(m, url@, segs@)),
        always_fails(fetch, url@) ==> exists|u: &str, e: HlsError| u@ == url@ && #[trigger] call_ensures(fetch, (u,), Err(e)) && r == Err::<HlsManifest, HlsError>(e),
{
    let ghost url0 = url@;
    let mut current = url;
    let mut n: usize = 0;
    while n < MAX_PLAYLIST_FETCHES
        invariant
            forall|u: &str| call_requires(fetch, (u,)),
            url0 == url@,
            n == 0 ==> current@ == url0,
            n > 0 ==> !always_usable(fetch, url0) && !always_fails(fetch, url0),
        decreases MAX_PLAYLIST_FETCHES - n,
    {
        let cur: &str = current.as_str();
        let fetched = fetch(cur);
        let ghost got = fetched;
        let parsed = match fetched {
            Ok(p) => p,
            Err(e) => {
                proof {
                    assert(call_ensures(fetch, (cur,), got));
                    if n == 0 {
                        assert(cur@ == url0);
                        assert(!usable_media(got, url0));
                        assert(!always_usable(fetch, url0));
                    }
                }
                return Err(e);
            },
        };
        proof {
            if n == 0 {
                lemma_fetched_rules_out(fetch, url0, cur, parsed);
            }
        }
        match playlist_step(cur, &parsed) {
            Ok(PlaylistStep::Ready(m)) => {
                proof {
                    assert(!always_fails(fetch, url0));
                    if let ParsedPlaylist::Media(segs) = parsed {
                        assert(call_ensures(fetch, (cur,), Ok(ParsedPlaylist::Media(segs))));
                        if n == 0 {
                            assert(cur@ == url0);
                            assert(manifest_matches(m, url0, segs@));
                        }
                    }
                }
                return Ok(m);
            },
            Ok(PlaylistStep::Follow(next)) => {
                current = next;
            },
            Err(e) => return Err(e),
        }
        n += 1;
    }
    Err(HlsError::TooManyIndirections)
}

/// Chooses the stream URL of the streams endpoint: AAC 160 kbit/s, then AAC
/// 96 kbit/s, then MP3 128 kbit/s.
pub fn select_stream_url(aac_160: Option<String>, aac_96: Option<String>, mp3_128: Option<String>) -> (r: Result<String, HlsError>)
    ensures
        ({
            let chosen = if aac_160 is Some { aac_160 } else if aac_96 is Some { aac_96 } else { mp3_128 };
            match chosen {
                Some(c) => match url_parse(c@) {
                    Some(u) => r matches Ok(s) && s@ == u,
                    None => r matches Err(HlsError::BadUrl(b)) && b == c,
                },
                None => r matches Err(HlsError::NoStreamUrl),
            }
        }),
{
    let chosen = match aac_160 {
        Some(u) => Some(u),
        None => match aac_96 {
            Some(u) => Some(u),
            None => mp3_128,
        },
    };
    match chosen {
        Some(c) => match parse_url(c.as_str()) {
            Some(u) => Ok(u),
            None => Err(HlsError::BadUrl(c)),
        },
        None => Err(HlsError::NoStreamUrl),
    }
}

/// Reads the media URL from the transcoding resolver's reply: its non-empty
/// `url` string, which must parse as a URL.
pub fn media_url_from_resolver(reply: &Json) -> (r: Result<String, HlsError>)
    ensures
        match reply.member("url"@) {
            Some(Json::Str(s)) if s@.len() > 0 => match url_parse(s@) {
                Some(u) => r matches Ok(m) && m@ == u,
                None => r matches Err(HlsError::BadUrl(b)) && b == s,
            },
            _ => r matches Err(HlsError::NoMediaUrl),
        },
{
    match reply.get("url") {
        Some(Json::Str(s)) => {
            if s.as_str().is_empty() {
                return Err(HlsError::NoMediaUrl);
            }
            match parse_url(s.as_str()) {
                Some(u) => Ok(u),
                None => Err(HlsError::BadUrl(s.clone())),
            }
        },
        _ => Err(HlsError::NoMediaUrl),
    }
}

/// What a failed transcoding resolve says for an HTTP status: a 404 without
/// a known restriction names the possible reasons, since the response alone
/// cannot tell which applies.
pub open spec fn resolver_status_text(status: u16) -> Seq<char> {
    if status == 404 {
        "SoundCloud transcoding resolver returned HTTP 404; DRM/Go+, regional restrictions, removed media, or an expired stream URL may be responsible"@
    } else {
        "SoundCloud transcoding resolver returned HTTP "@ + crate::text::decimal(status as nat)
    }
}

pub fn resolver_status_message(status: u16) -> (r: String)
    ensures
        r@ == resolver_status_text(status),
{
    let mut r = String::new();
    if status == 404 {
        push_str(&mut r, "SoundCloud transcoding resolver returned HTTP 404; DRM/Go+, regional restrictions, removed media, or an expired stream URL may be responsible");
    } else {
        push_str(&mut r, "SoundCloud transcoding resolver returned HTTP ");
        let digits = crate::text::u64_to_string(status as u64);
        push_str(&mut r, digits.as_str());
    }
    r
}

} // verus!
