use vstd::prelude::*;

use crate::format::{duration_text, format_duration};
use crate::ids::{lemma_playlist_id_of_tracks_path, playlist_id_of, playlist_tracks_path, soundcloud_id_from_urn, urn_id};
use crate::json::{bool_field, parse_bool, parse_str, parse_u64, str_field, take_member, u64_field, Json};
use crate::models::{Album, Artist, PlaybackRestriction, Playlist, Track};
use crate::text::{
    ascii_lower, ascii_upper, chars_of, chars_of_string, contains_seq, decimal, decimal_chars, eq_str,
    push_all, push_str, seq_contains, u64_to_string, seq_starts_with, starts_with, to_ascii_lower, to_ascii_upper,
};

verus! {

/// The lower-cased `format.protocol` of a transcoding; empty without a format.
pub open spec fn transcoding_protocol(t: Json) -> Seq<char> {
    match t.member("format"@) {
        Some(f) => ascii_lower(str_field(f, "protocol"@)),
        None => Seq::empty(),
    }
}

/// Whether the transcoding's MIME type names Ogg.
pub open spec fn transcoding_is_ogg(t: Json) -> bool {
    match t.member("format"@) {
        Some(f) => seq_contains(ascii_lower(str_field(f, "mime_type"@)), "ogg"@),
        None => false,
    }
}

pub open spec fn encrypted_protocol(p: Seq<char>) -> bool {
    seq_starts_with(p, "cbc-"@) || seq_starts_with(p, "ctr-"@)
}

/// A transcoding the playback engine can use in the given pass: plain or
/// encrypted HLS without a DRM scheme, of the wanted container, with a URL.
pub open spec fn hls_candidate(t: Json, prefer_ogg: bool) -> bool {
    let p = transcoding_protocol(t);
    &&& t.member("format"@) is Some
    &&& !encrypted_protocol(p)
    &&& (p == "hls"@ || p == "encrypted-hls"@)
    &&& transcoding_is_ogg(t) == prefer_ogg
    &&& str_field(t, "url"@).len() > 0
}

pub open spec fn first_hls_url(ts: Seq<Json>, prefer_ogg: bool) -> Option<Seq<char>>
    decreases ts.len(),
{
    if ts.len() == 0 {
        None
    } else if hls_candidate(ts[0], prefer_ogg) {
        Some(str_field(ts[0], "url"@))
    } else {
        first_hls_url(ts.drop_first(), prefer_ogg)
    }
}

/// The preferred resolver: the first MPEG candidate, else the first Ogg one.
pub open spec fn selected_hls_url(ts: Seq<Json>) -> Option<Seq<char>> {
    match first_hls_url(ts, false) {
        Some(u) => Some(u),
        None => first_hls_url(ts, true),
    }
}

fn protocol_of(t: &Json) -> (r: Vec<char>)
    ensures
        r@ == transcoding_protocol(*t),
{
    match t.get("format") {
        Some(f) => {
            let p = chars_of_string(&parse_str(f, "protocol"));
            to_ascii_lower(&p)
        },
        None => Vec::new(),
    }
}

fn is_ogg_transcoding(t: &Json) -> (r: bool)
    ensures
        r == transcoding_is_ogg(*t),
{
    match t.get("format") {
        Some(f) => {
            let m = to_ascii_lower(&chars_of_string(&parse_str(f, "mime_type")));
            contains_seq(&m, &chars_of("ogg"))
        },
        None => false,
    }
}

fn is_encrypted(p: &Vec<char>) -> (r: bool)
    ensures
        r == encrypted_protocol(p@),
{
    starts_with(p, &chars_of("cbc-")) || starts_with(p, &chars_of("ctr-"))
}

fn is_hls_candidate(t: &Json, prefer_ogg: bool) -> (r: bool)
    ensures
        r == hls_candidate(*t, prefer_ogg),
{
    if t.get("format").is_none() {
        return false;
    }
    let p = protocol_of(t);
    if is_encrypted(&p) {
        return false;
    }
    if !(eq_str(&p, "hls") || eq_str(&p, "encrypted-hls")) {
        return false;
    }
    if is_ogg_transcoding(t) != prefer_ogg {
        return false;
    }
    let url = parse_str(t, "url");
    url.as_str().is_empty() == false
}

fn first_hls_candidate_url(ts: &Vec<Json>, prefer_ogg: bool) -> (r: Option<String>)
    ensures
        match r {
            Some(u) => first_hls_url(ts@, prefer_ogg) == Some(u@),
            None => first_hls_url(ts@, prefer_ogg) is None,
        },
{
    let mut i: usize = 0;
    assert(ts@.skip(0) =~= ts@);
    while i < ts.len()
        invariant
            i <= ts.len(),
            first_hls_url(ts@, prefer_ogg) == first_hls_url(ts@.skip(i as int), prefer_ogg),
        decreases ts.len() - i,
    {
        let ghost rest = ts@.skip(i as int);
        assert(rest[0] == ts@[i as int]);
        assert(rest.drop_first() =~= ts@.skip(i + 1));
        if is_hls_candidate(&ts[i], prefer_ogg) {
            return Some(parse_str(&ts[i], "url"));
        }
        i = i + 1;
    }
    None
}

/// Selects the preferred HLS resolver that carries no DRM scheme from a
/// complete transcoding set, MPEG audio before Ogg.
pub fn select_hls_transcoding_url(ts: &Vec<Json>) -> (r: Option<String>)
    ensures
        match r {
            Some(u) => selected_hls_url(ts@) == Some(u@),
            None => selected_hls_url(ts@) is None,
        },
{
    match first_hls_candidate_url(ts, false) {
        Some(u) => Some(u),
        None => first_hls_candidate_url(ts, true),
    }
}

/// Whether some transcoding uses a DRM (`cbc-` or `ctr-`) protocol.
pub open spec fn has_encrypted_stream(ts: Seq<Json>) -> bool {
    exists|i: int| 0 <= i < ts.len() && encrypted_protocol(transcoding_protocol(#[trigger] ts[i]))
}

/// The restriction that the complete track response shows, if any. An
/// obsolete stream URL does not hide an encrypted-only transcoding set.
pub open spec fn restriction_of(obj: Json, ts: Seq<Json>, stream_url: Seq<char>) -> Option<PlaybackRestriction> {
    if ascii_upper(str_field(obj, "policy"@)) == "MONETIZE"@
        && ascii_upper(str_field(obj, "monetization_model"@)) == "SUB_HIGH_TIER"@ {
        Some(PlaybackRestriction::SoundCloudGoPlus)
    } else if ascii_lower(str_field(obj, "access"@)) == "blocked"@ {
        Some(PlaybackRestriction::Blocked)
    } else if ascii_lower(str_field(obj, "access"@)) == "preview"@ {
        Some(PlaybackRestriction::PreviewOnly)
    } else if stream_url.len() == 0 || (ts.len() > 0 && selected_hls_url(ts) is None) {
        if has_encrypted_stream(ts) {
            Some(PlaybackRestriction::EncryptedStream)
        } else if stream_url.len() == 0 {
            Some(PlaybackRestriction::Unavailable)
        } else {
            None
        }
    } else {
        None
    }
}

fn any_encrypted(ts: &Vec<Json>) -> (r: bool)
    ensures
        r == has_encrypted_stream(ts@),
{
    let mut i: usize = 0;
    while i < ts.len()
        invariant
            i <= ts.len(),
            forall|k: int| 0 <= k < i ==> !encrypted_protocol(transcoding_protocol(#[trigger] ts@[k])),
        decreases ts.len() - i,
    {
        let p = protocol_of(&ts[i]);
        if is_encrypted(&p) {
            return true;
        }
        i = i + 1;
    }
    false
}

/// Classifies service-policy and codec boundaries from the complete track
/// response.
pub fn classify_playback_restriction(obj: &Json, ts: &Vec<Json>, stream_url: &String) -> (r: Option<PlaybackRestriction>)
    ensures
        r == restriction_of(*obj, ts@, stream_url@),
{
    let policy = to_ascii_upper(&chars_of_string(&parse_str(obj, "policy")));
    let model = to_ascii_upper(&chars_of_string(&parse_str(obj, "monetization_model")));
    if eq_str(&policy, "MONETIZE") && eq_str(&model, "SUB_HIGH_TIER") {
        return Some(PlaybackRestriction::SoundCloudGoPlus);
    }
    let access = to_ascii_lower(&chars_of_string(&parse_str(obj, "access")));
    if eq_str(&access, "blocked") {
        return Some(PlaybackRestriction::Blocked);
    }
    if eq_str(&access, "preview") {
        return Some(PlaybackRestriction::PreviewOnly);
    }
    let no_stream = stream_url.as_str().is_empty();
    if no_stream || (ts.len() > 0 && select_hls_transcoding_url(ts).is_none()) {
        if any_encrypted(ts) {
            return Some(PlaybackRestriction::EncryptedStream);
        }
        if no_stream {
            return Some(PlaybackRestriction::Unavailable);
        }
    }
    None
}

/// The `media.transcodings` array of a track, empty when absent.
pub open spec fn transcodings_of(obj: Json) -> Seq<Json> {
    match obj.member("media"@) {
        Some(m) => match m.member("transcodings"@) {
            Some(Json::Array(a)) => a@,
            _ => Seq::empty(),
        },
        None => Seq::empty(),
    }
}

fn transcodings(obj: &Json) -> (r: Option<&Vec<Json>>)
    ensures
        match r {
            Some(a) => transcodings_of(*obj) == a@,
            None => transcodings_of(*obj) == Seq::<Json>::empty(),
        },
{
    match obj.get("media") {
        Some(m) => match m.get("transcodings") {
            Some(Json::Array(a)) => Some(a),
            _ => None,
        },
        None => None,
    }
}

/// The credited artist: `metadata_artist`, or else the uploader's name.
pub open spec fn artists_of(obj: Json) -> Seq<char> {
    if str_field(obj, "metadata_artist"@).len() > 0 {
        str_field(obj, "metadata_artist"@)
    } else {
        match obj.member("user"@) {
            Some(u) => str_field(u, "username"@),
            None => Seq::empty(),
        }
    }
}

pub fn parse_artists(obj: &Json) -> (r: String)
    ensures
        r@ == artists_of(*obj),
        str_field(*obj, "metadata_artist"@).len() > 0 ==> r@ == str_field(*obj, "metadata_artist"@),
        str_field(*obj, "metadata_artist"@).len() == 0 ==> r@ == match obj.member("user"@) {
            Some(u) => str_field(u, "username"@),
            None => Seq::empty(),
        },
{
    let a = parse_str(obj, "metadata_artist");
    if !a.as_str().is_empty() {
        a
    } else {
        match obj.get("user") {
            Some(u) => parse_str(u, "username"),
            None => String::new(),
        }
    }
}

/// A parsed track credits its `metadata_artist` where that is set, and
/// otherwise the username of the uploading user: a track without
/// `metadata_artist` shows who uploaded it.
pub proof fn lemma_track_artists_credit(t: Track, obj: Json)
    requires
        track_fields_match(t, obj),
    ensures
        str_field(obj, "metadata_artist"@).len() > 0 ==> t.artists@ == str_field(obj, "metadata_artist"@),
        str_field(obj, "metadata_artist"@).len() == 0 ==> (obj.member("user"@) matches Some(u)
            ==> t.artists@ == str_field(u, "username"@)),
        str_field(obj, "metadata_artist"@).len() == 0 && obj.member("user"@) is None ==> t.artists@.len() == 0,
{
}

/// Whether a track response marks a SoundCloud Go+ (high-tier) track.
pub open spec fn is_go_plus(obj: Json) -> bool {
    ascii_upper(str_field(obj, "policy"@)) == "MONETIZE"@
        && ascii_upper(str_field(obj, "monetization_model"@)) == "SUB_HIGH_TIER"@
}

/// How a parsed track's playback restriction follows the response: Go+
/// first, then blocked and preview access; a track with a stream that is
/// neither has none unless no usable resolver is left; and a restricted
/// track, a Go+ one included, is never playable.
pub proof fn lemma_parsed_restriction(t: Track, obj: Json)
    requires
        track_fields_match(t, obj),
    ensures
        is_go_plus(obj) ==> t.playback_restriction == Some(PlaybackRestriction::SoundCloudGoPlus) && !t.playable(),
        !is_go_plus(obj) && ascii_lower(str_field(obj, "access"@)) == "blocked"@ ==>
            t.playback_restriction == Some(PlaybackRestriction::Blocked) && !t.playable(),
        !is_go_plus(obj) && ascii_lower(str_field(obj, "access"@)) == "preview"@ ==>
            t.playback_restriction == Some(PlaybackRestriction::PreviewOnly) && !t.playable(),
        !is_go_plus(obj) && ascii_lower(str_field(obj, "access"@)) != "blocked"@
            && ascii_lower(str_field(obj, "access"@)) != "preview"@
            && t.stream_url@.len() > 0
            && (transcodings_of(obj).len() == 0 || selected_hls_url(transcodings_of(obj)) is Some)
            ==> t.playback_restriction is None,
        t.playback_restriction == Some(PlaybackRestriction::Unavailable) ==> t.stream_url@.len() == 0,
        t.playback_restriction is Some ==> !t.playable(),
{
    reveal_strlit("blocked");
    reveal_strlit("preview");
    assert("preview"@[0] != "blocked"@[0]);
    assert("preview"@ != "blocked"@);
}

/// The stream URL a track plays from: the selected transcoding resolver, or
/// the legacy `stream_url`.
pub open spec fn stream_url_of(obj: Json) -> Seq<char> {
    match selected_hls_url(transcodings_of(obj)) {
        Some(u) => u,
        None => str_field(obj, "stream_url"@),
    }
}

/// Every field of `t` but the play count, as `obj` gives it.
pub open spec fn track_fields_match(t: Track, obj: Json) -> bool {
    &&& t.title@ == str_field(obj, "title"@)
    &&& t.artists@ == artists_of(obj)
    &&& t.duration_ms == u64_field(obj, "duration"@)
    &&& t.duration@ == duration_text(u64_field(obj, "duration"@))
    &&& t.artwork_url@ == str_field(obj, "artwork_url"@)
    &&& t.stream_url@ == stream_url_of(obj)
    &&& t.access@ == str_field(obj, "access"@)
    &&& t.playback_restriction == restriction_of(obj, transcodings_of(obj), stream_url_of(obj))
    &&& t.track_urn@ == str_field(obj, "urn"@)
}

/// Converts SoundCloud track JSON into the interface's model. The play count
/// is rendered by `format_count`, which receives the raw count.
pub fn parse_track<F: Fn(u64) -> String>(obj: &Json, format_count: F) -> (t: Track)
    requires
        call_requires(format_count, (u64_field(*obj, "playback_count"@),)),
    ensures
        track_fields_match(t, *obj),
        call_ensures(format_count, (u64_field(*obj, "playback_count"@),), t.playback_count),
{
    let artists = parse_artists(obj);
    let duration_ms = parse_u64(obj, "duration");
    let empty: Vec<Json> = Vec::new();
    let ts: &Vec<Json> = match transcodings(obj) {
        Some(a) => a,
        None => &empty,
    };
    assert(ts@ == transcodings_of(*obj));
    let stream_url = match select_hls_transcoding_url(ts) {
        Some(u) => u,
        None => parse_str(obj, "stream_url"),
    };
    let playback_restriction = classify_playback_restriction(obj, ts, &stream_url);
    let count = parse_u64(obj, "playback_count");
    Track {
        title: parse_str(obj, "title"),
        artists,
        duration: format_duration(duration_ms),
        duration_ms,
        playback_count: format_count(count),
        artwork_url: parse_str(obj, "artwork_url"),
        stream_url,
        access: parse_str(obj, "access"),
        playback_restriction,
        track_urn: parse_str(obj, "urn"),
    }
}

} // verus!

verus! {

pub open spec fn is_album_spec(p: Json) -> bool {
    bool_field(p, "is_album"@) || ascii_lower(str_field(p, "set_type"@)) == "album"@
        || ascii_lower(str_field(p, "playlist_type"@)) == "album"@
}

fn lower_field_is(obj: &Json, key: &str, lit: &str) -> (r: bool)
    ensures
        r == (ascii_lower(str_field(*obj, key@)) == lit@),
{
    let v = to_ascii_lower(&chars_of_string(&parse_str(obj, key)));
    eq_str(&v, lit)
}

/// Recognizes album discriminators of both legacy and api-v2 playlist objects.
pub fn is_album(p: &Json) -> (r: bool)
    ensures
        r == is_album_spec(*p),
{
    parse_bool(p, "is_album") || lower_field_is(p, "set_type", "album") || lower_field_is(p, "playlist_type", "album")
}

/// The playlist ID that an object carries: a positive `id`, else the number
/// that ends its URN.
pub open spec fn playlist_object_id(p: Json) -> Option<u64> {
    if u64_field(p, "id"@) > 0 {
        Some(u64_field(p, "id"@))
    } else {
        urn_id(str_field(p, "urn"@))
    }
}

pub open spec fn tracks_uri_of(p: Json) -> Seq<char> {
    if str_field(p, "tracks_uri"@).len() > 0 {
        str_field(p, "tracks_uri"@)
    } else {
        match playlist_object_id(p) {
            Some(id) => "/playlists/"@ + decimal(id as nat) + "/tracks"@,
            None => Seq::empty(),
        }
    }
}

/// The tracks path of a playlist or album object: its `tracks_uri` where
/// set, else `/playlists/{id}/tracks` for a positive `id`, else for the
/// number that ends its URN; nothing only where neither gives an ID.
pub proof fn lemma_tracks_uri_derivation(p: Json)
    ensures
        str_field(p, "tracks_uri"@).len() > 0 ==> tracks_uri_of(p) == str_field(p, "tracks_uri"@),
        str_field(p, "tracks_uri"@).len() == 0 && u64_field(p, "id"@) > 0 ==>
            tracks_uri_of(p) == "/playlists/"@ + decimal(u64_field(p, "id"@) as nat) + "/tracks"@,
        str_field(p, "tracks_uri"@).len() == 0 && u64_field(p, "id"@) == 0 ==> (urn_id(str_field(p, "urn"@)) matches Some(n)
            ==> tracks_uri_of(p) == "/playlists/"@ + decimal(n as nat) + "/tracks"@),
        tracks_uri_of(p).len() == 0 <==> str_field(p, "tracks_uri"@).len() == 0 && u64_field(p, "id"@) == 0
            && urn_id(str_field(p, "urn"@)) is None,
{
}

/// A derived tracks path names the playlist it was derived for: reading
/// the playlist ID back from it gives the object's own ID (its positive
/// `id`, else the number ending its URN).
pub proof fn lemma_derived_tracks_uri_names_playlist(p: Json)
    requires
        str_field(p, "tracks_uri"@).len() == 0,
        playlist_object_id(p) is Some,
    ensures
        tracks_uri_of(p) == playlist_tracks_path(playlist_object_id(p)->0 as nat),
        playlist_id_of(tracks_uri_of(p)) == playlist_object_id(p),
{
    lemma_playlist_id_of_tracks_path(playlist_object_id(p)->0);
}

/// Supplies the nested-track path that current api-v2 playlist objects omit.
pub fn playlist_tracks_uri(p: &Json) -> (r: String)
    ensures
        r@ == tracks_uri_of(*p),
        str_field(*p, "tracks_uri"@).len() > 0 ==> r@ == str_field(*p, "tracks_uri"@),
        str_field(*p, "tracks_uri"@).len() == 0 && u64_field(*p, "id"@) > 0 ==>
            r@ == "/playlists/"@ + decimal(u64_field(*p, "id"@) as nat) + "/tracks"@,
        str_field(*p, "tracks_uri"@).len() == 0 && u64_field(*p, "id"@) == 0 ==> r@ == match urn_id(str_field(*p, "urn"@)) {
            Some(n) => "/playlists/"@ + decimal(n as nat) + "/tracks"@,
            None => Seq::empty(),
        },
        str_field(*p, "tracks_uri"@).len() == 0 && u64_field(*p, "id"@) > 0 ==>
            playlist_id_of(r@) == Some(u64_field(*p, "id"@)),
{
    proof {
        if str_field(*p, "tracks_uri"@).len() == 0 && playlist_object_id(*p) is Some {
            lemma_derived_tracks_uri_names_playlist(*p);
        }
    }
    let existing = parse_str(p, "tracks_uri");
    if !existing.as_str().is_empty() {
        return existing;
    }
    let id = parse_u64(p, "id");
    let id = if id > 0 {
        Some(id)
    } else {
        soundcloud_id_from_urn(parse_str(p, "urn").as_str())
    };
    match id {
        Some(n) => {
            let mut r = String::new();
            push_str(&mut r, "/playlists/");
            push_all(&mut r, &decimal_chars(n));
            push_str(&mut r, "/tracks");
            r
        },
        None => String::new(),
    }
}

/// The items of a response: its `collection` array, or the response itself
/// when it is an array.
pub open spec fn response_items_of(resp: Json) -> Seq<Json> {
    match resp.member("collection"@) {
        Some(Json::Array(a)) => a@,
        _ => match resp {
            Json::Array(a) => a@,
            _ => Seq::empty(),
        },
    }
}

/// Moves the items out of a response: its `collection` array, or the
/// response itself when it is an array.
pub fn take_response_items(resp: Json) -> (r: Vec<Json>)
    ensures
        r@ == response_items_of(resp),
{
    let in_collection = match resp.get("collection") {
        Some(Json::Array(_)) => true,
        _ => false,
    };
    if in_collection {
        match take_member(resp, "collection") {
            Some(Json::Array(a)) => a,
            _ => Vec::new(),
        }
    } else {
        match resp {
            Json::Array(a) => a,
            _ => Vec::new(),
        }
    }
}

pub fn response_items(resp: &Json) -> (r: Option<&Vec<Json>>)
    ensures
        match r {
            Some(a) => a@ == response_items_of(*resp),
            None => response_items_of(*resp) == Seq::<Json>::empty(),
        },
{
    match resp.get("collection") {
        Some(Json::Array(a)) => Some(a),
        _ => match resp {
            Json::Array(a) => Some(a),
            _ => None,
        },
    }
}

} // verus!

verus! {

pub open spec fn user_name(p: Json) -> Seq<char> {
    match p.member("user"@) {
        Some(u) => str_field(u, "username"@),
        None => Seq::empty(),
    }
}

fn parse_user_name(p: &Json) -> (r: String)
    ensures
        r@ == user_name(*p),
{
    match p.get("user") {
        Some(u) => parse_str(u, "username"),
        None => String::new(),
    }
}

/// The album that playlist object `p` describes, with the given tracks URI.
pub open spec fn album_matches(a: Album, p: Json, tracks_uri: Seq<char>) -> bool {
    &&& a.title@ == str_field(p, "title"@)
    &&& a.artists@ == user_name(p)
    &&& a.release_year@ == decimal(u64_field(p, "release_year"@) as nat)
    &&& a.track_count@ == decimal(u64_field(p, "track_count"@) as nat)
    &&& a.duration@ == duration_text(u64_field(p, "duration"@))
    &&& a.tracks_uri@ == tracks_uri
}

fn album_from(p: &Json, tracks_uri: String) -> (a: Album)
    ensures
        album_matches(a, *p, tracks_uri@),
{
    Album {
        title: parse_str(p, "title"),
        artists: parse_user_name(p),
        release_year: u64_to_string(parse_u64(p, "release_year")),
        duration: format_duration(parse_u64(p, "duration")),
        track_count: u64_to_string(parse_u64(p, "track_count")),
        tracks_uri,
    }
}

/// A library item that holds an album: its `playlist` member is present,
/// not null, and of playlist type `album`.
pub open spec fn library_album(item: Json) -> bool {
    item.member("playlist"@) matches Some(p) && !(p is Null) && ascii_lower(str_field(p, "playlist_type"@)) == "album"@
}

/// The album objects of a library listing, in order.
pub open spec fn library_album_objects(items: Seq<Json>) -> Seq<Json>
    decreases items.len(),
{
    if items.len() == 0 {
        Seq::empty()
    } else {
        let prev = library_album_objects(items.drop_last());
        if library_album(items.last()) {
            prev.push(items.last().member("playlist"@)->0)
        } else {
            prev
        }
    }
}

/// The albums of an api-v2 library listing.
pub fn albums_from_library(items: &Vec<Json>) -> (r: Vec<Album>)
    ensures
        r@.len() == library_album_objects(items@).len(),
        forall|i: int| 0 <= i < r@.len() ==> album_matches(#[trigger] r@[i], library_album_objects(items@)[i], str_field(library_album_objects(items@)[i], "tracks_uri"@)),
{
    let mut r: Vec<Album> = Vec::new();
    let mut i: usize = 0;
    while i < items.len()
        invariant
            i <= items.len(),
            r@.len() == library_album_objects(items@.take(i as int)).len(),
            forall|k: int| 0 <= k < r@.len() ==> album_matches(#[trigger] r@[k], library_album_objects(items@.take(i as int))[k], str_field(library_album_objects(items@.take(i as int))[k], "tracks_uri"@)),
        decreases items.len() - i,
    {
        let ghost prev = items@.take(i as int);
        assert(items@.take(i + 1).drop_last() =~= prev);
        assert(items@.take(i + 1).last() == items@[i as int]);
        let item = &items[i];
        match item.get("playlist") {
            Some(p) => {
                let not_null = match p { Json::Null => false, _ => true };
                if not_null && lower_field_is(p, "playlist_type", "album") {
                    let a = album_from(p, parse_str(p, "tracks_uri"));
                    r.push(a);
                }
            },
            None => {},
        }
        i = i + 1;
    }
    assert(items@.take(i as int) =~= items@);
    r
}

/// The album objects among search results, in order.
pub open spec fn search_album_objects(items: Seq<Json>) -> Seq<Json>
    decreases items.len(),
{
    if items.len() == 0 {
        Seq::empty()
    } else {
        let prev = search_album_objects(items.drop_last());
        if is_album_spec(items.last()) { prev.push(items.last()) } else { prev }
    }
}

/// The albums among the items of an album search.
pub fn albums_from_search(items: &Vec<Json>) -> (r: Vec<Album>)
    ensures
        r@.len() == search_album_objects(items@).len(),
        forall|i: int| 0 <= i < r@.len() ==> album_matches(#[trigger] r@[i], search_album_objects(items@)[i], tracks_uri_of(search_album_objects(items@)[i])),
{
    let mut r: Vec<Album> = Vec::new();
    let mut i: usize = 0;
    while i < items.len()
        invariant
            i <= items.len(),
            r@.len() == search_album_objects(items@.take(i as int)).len(),
            forall|k: int| 0 <= k < r@.len() ==> album_matches(#[trigger] r@[k], search_album_objects(items@.take(i as int))[k], tracks_uri_of(search_album_objects(items@.take(i as int))[k])),
        decreases items.len() - i,
    {
        assert(items@.take(i + 1).drop_last() =~= items@.take(i as int));
        assert(items@.take(i + 1).last() == items@[i as int]);
        let p = &items[i];
        if is_album(p) {
            let a = album_from(p, playlist_tracks_uri(p));
            r.push(a);
        }
        i = i + 1;
    }
    assert(items@.take(i as int) =~= items@);
    r
}

/// A search result that names a person: both username and URN are present.
pub open spec fn named_person(u: Json) -> bool {
    str_field(u, "username"@).len() > 0 && str_field(u, "urn"@).len() > 0
}

pub open spec fn person_objects(items: Seq<Json>) -> Seq<Json>
    decreases items.len(),
{
    if items.len() == 0 {
        Seq::empty()
    } else {
        let prev = person_objects(items.drop_last());
        if named_person(items.last()) { prev.push(items.last()) } else { prev }
    }
}

pub open spec fn artist_matches(a: Artist, u: Json) -> bool {
    a.name@ == str_field(u, "username"@) && a.urn@ == str_field(u, "urn"@)
}

/// The people among the items of a people search.
pub fn people_from_search(items: &Vec<Json>) -> (r: Vec<Artist>)
    ensures
        r@.len() == person_objects(items@).len(),
        forall|i: int| 0 <= i < r@.len() ==> artist_matches(#[trigger] r@[i], person_objects(items@)[i]),
{
    let mut r: Vec<Artist> = Vec::new();
    let mut i: usize = 0;
    while i < items.len()
        invariant
            i <= items.len(),
            r@.len() == person_objects(items@.take(i as int)).len(),
            forall|k: int| 0 <= k < r@.len() ==> artist_matches(#[trigger] r@[k], person_objects(items@.take(i as int))[k]),
        decreases items.len() - i,
    {
        assert(items@.take(i + 1).drop_last() =~= items@.take(i as int));
        assert(items@.take(i + 1).last() == items@[i as int]);
        let name = parse_str(&items[i], "username");
        let urn = parse_str(&items[i], "urn");
        if !name.as_str().is_empty() && !urn.as_str().is_empty() {
            r.push(Artist { name, urn });
        }
        i = i + 1;
    }
    assert(items@.take(i as int) =~= items@);
    r
}

/// The people a following listing names, one per item.
pub fn following_from_items(items: &Vec<Json>) -> (r: Vec<Artist>)
    ensures
        r@.len() == items@.len(),
        forall|i: int| 0 <= i < r@.len() ==> artist_matches(#[trigger] r@[i], items@[i]),
{
    let mut r: Vec<Artist> = Vec::new();
    let mut i: usize = 0;
    while i < items.len()
        invariant
            i <= items.len(),
            r@.len() == i,
            forall|k: int| 0 <= k < i ==> artist_matches(#[trigger] r@[k], items@[k]),
        decreases items.len() - i,
    {
        r.push(Artist { name: parse_str(&items[i], "username"), urn: parse_str(&items[i], "urn") });
        i = i + 1;
    }
    r
}

/// A track-likes item holds a track: its `track` member is present and not null.
pub open spec fn liked_track_item(item: Json) -> bool {
    item.member("track"@) matches Some(t) && !(t is Null)
}

pub open spec fn liked_track_objects(items: Seq<Json>) -> Seq<Json>
    decreases items.len(),
{
    if items.len() == 0 {
        Seq::empty()
    } else {
        let prev = liked_track_objects(items.drop_last());
        if liked_track_item(items.last()) { prev.push(items.last().member("track"@)->0) } else { prev }
    }
}

/// The tracks of a track-likes page.
pub fn tracks_from_likes<F: Fn(u64) -> String>(items: &Vec<Json>, format_count: F) -> (r: Vec<Track>)
    requires
        forall|n: u64| call_requires(format_count, (n,)),
    ensures
        r@.len() == liked_track_objects(items@).len(),
        forall|i: int| 0 <= i < r@.len() ==> track_fields_match(#[trigger] r@[i], liked_track_objects(items@)[i]),
        forall|i: int| 0 <= i < r@.len() ==> call_ensures(format_count, (u64_field(liked_track_objects(items@)[i], "playback_count"@),), #[trigger] r@[i].playback_count),
{
    let mut r: Vec<Track> = Vec::new();
    let mut i: usize = 0;
    while i < items.len()
        invariant
            i <= items.len(),
            forall|n: u64| call_requires(format_count, (n,)),
            r@.len() == liked_track_objects(items@.take(i as int)).len(),
            forall|k: int| 0 <= k < r@.len() ==> track_fields_match(#[trigger] r@[k], liked_track_objects(items@.take(i as int))[k]),
            forall|k: int| 0 <= k < r@.len() ==> call_ensures(format_count, (u64_field(liked_track_objects(items@.take(i as int))[k], "playback_count"@),), #[trigger] r@[k].playback_count),
        decreases items.len() - i,
    {
        assert(items@.take(i + 1).drop_last() =~= items@.take(i as int));
        assert(items@.take(i + 1).last() == items@[i as int]);
        match items[i].get("track") {
            Some(t) => {
                let not_null = match t { Json::Null => false, _ => true };
                if not_null {
                    let track = parse_track(t, &format_count);
                    r.push(track);
                }
            },
            None => {},
        }
        i = i + 1;
    }
    assert(items@.take(i as int) =~= items@);
    r
}

/// The tracks of a listing whose items are tracks.
pub fn tracks_from_items<F: Fn(u64) -> String>(items: &Vec<Json>, format_count: F) -> (r: Vec<Track>)
    requires
        forall|n: u64| call_requires(format_count, (n,)),
    ensures
        r@.len() == items@.len(),
        forall|i: int| 0 <= i < r@.len() ==> track_fields_match(#[trigger] r@[i], items@[i]),
        forall|i: int| 0 <= i < r@.len() ==> call_ensures(format_count, (u64_field(items@[i], "playback_count"@),), #[trigger] r@[i].playback_count),
{
    let mut r: Vec<Track> = Vec::new();
    let mut i: usize = 0;
    while i < items.len()
        invariant
            i <= items.len(),
            forall|n: u64| call_requires(format_count, (n,)),
            r@.len() == i,
            forall|k: int| 0 <= k < i ==> track_fields_match(#[trigger] r@[k], items@[k]),
            forall|k: int| 0 <= k < i ==> call_ensures(format_count, (u64_field(items@[k], "playback_count"@),), #[trigger] r@[k].playback_count),
        decreases items.len() - i,
    {
        let track = parse_track(&items[i], &format_count);
        r.push(track);
        i = i + 1;
    }
    r
}

} // verus!

verus! {

/// Milliseconds since the Unix epoch of an RFC 3339 date-time, as chrono's
/// `DateTime::parse_from_rfc3339` reads it.
pub uninterp spec fn rfc3339_millis(text: Seq<char>) -> Option<i64>;

/// Milliseconds since the Unix epoch of a `%Y/%m/%d %H:%M:%S %z` date-time,
/// as chrono's `DateTime::parse_from_str` reads it.
pub uninterp spec fn slash_date_millis(text: Seq<char>) -> Option<i64>;

/// Calls chrono's `DateTime::parse_from_rfc3339`; the instant is named by
/// `rfc3339_millis`, which this contract does not define further.
#[verifier::external_body]
fn parse_rfc3339(text: &str) -> (r: Option<i64>)
    ensures
        r == rfc3339_millis(text@),
{
    chrono::DateTime::parse_from_rfc3339(text).ok().map(|d| d.timestamp_millis())
}

/// Calls chrono's `DateTime::parse_from_str` with SoundCloud's legacy
/// `%Y/%m/%d %H:%M:%S %z` format; the instant is named by
/// `slash_date_millis`.
#[verifier::external_body]
fn parse_slash_date(text: &str) -> (r: Option<i64>)
    ensures
        r == slash_date_millis(text@),
{
    chrono::DateTime::parse_from_str(text, "%Y/%m/%d %H:%M:%S %z").ok().map(|d| d.timestamp_millis())
}

/// The creation instant of a playlist: either date format, else `now_ms`.
pub open spec fn created_millis(text: Seq<char>, now_ms: i64) -> i64 {
    match rfc3339_millis(text) {
        Some(t) => t,
        None => match slash_date_millis(text) {
            Some(t) => t,
            None => now_ms,
        },
    }
}

pub fn parse_created_at(text: &str, now_ms: i64) -> (r: i64)
    ensures
        r == created_millis(text@, now_ms),
{
    match parse_rfc3339(text) {
        Some(t) => t,
        None => match parse_slash_date(text) {
            Some(t) => t,
            None => now_ms,
        },
    }
}

/// Where a playlist created at `key` goes in a list ordered newest first:
/// after every entry at least as new.
pub open spec fn newest_first_pos(s: Seq<Playlist>, key: i64) -> int
    decreases s.len(),
{
    if s.len() == 0 {
        0
    } else if s[0].created_at < key {
        0
    } else {
        1 + newest_first_pos(s.drop_first(), key)
    }
}

/// Stable ordering by creation time, newest first: each playlist in turn is
/// placed after those at least as new.
pub open spec fn newest_first(s: Seq<Playlist>) -> Seq<Playlist>
    decreases s.len(),
{
    if s.len() == 0 {
        s
    } else {
        let sorted = newest_first(s.drop_last());
        sorted.insert(newest_first_pos(sorted, s.last().created_at), s.last())
    }
}

proof fn lemma_pos_bounds(s: Seq<Playlist>, key: i64)
    ensures
        0 <= newest_first_pos(s, key) <= s.len(),
    decreases s.len(),
{
    if s.len() > 0 {
        lemma_pos_bounds(s.drop_first(), key);
    }
}

/// Orders playlists newest first, keeping the order of equally old ones.
pub fn sort_newest_first(v: Vec<Playlist>) -> (r: Vec<Playlist>)
    ensures
        r@ == newest_first(v@),
{
    let mut r: Vec<Playlist> = Vec::new();
    let mut i: usize = 0;
    assert(v@.take(0) =~= Seq::<Playlist>::empty());
    while i < v.len()
        invariant
            i <= v.len(),
            r@ == newest_first(v@.take(i as int)),
        decreases v.len() - i,
    {
        let key = v[i].created_at;
        let mut j: usize = 0;
        assert(r@.skip(0) =~= r@);
        while j < r.len() && r[j].created_at >= key
            invariant
                j <= r.len(),
                newest_first_pos(r@, key) == j + newest_first_pos(r@.skip(j as int), key),
            decreases r.len() - j,
        {
            assert(r@.skip(j as int).drop_first() =~= r@.skip(j + 1));
            assert(r@.skip(j as int)[0] == r@[j as int]);
            j = j + 1;
        }
        proof {
            if j < r.len() {
                assert(r@.skip(j as int)[0] == r@[j as int]);
            }
            assert(newest_first_pos(r@.skip(j as int), key) == 0);
            assert(v@.take(i + 1).drop_last() =~= v@.take(i as int));
            assert(v@.take(i + 1).last() == v@[i as int]);
        }
        r.insert(j, v[i].clone());
        i = i + 1;
    }
    assert(v@.take(i as int) =~= v@);
    r
}

/// The playlist that object `p` describes.
pub open spec fn playlist_matches(pl: Playlist, p: Json, tracks_uri: Seq<char>, now_ms: i64, owned: bool) -> bool {
    &&& pl.title@ == str_field(p, "title"@)
    &&& pl.track_count@ == decimal(u64_field(p, "track_count"@) as nat)
    &&& pl.duration@ == duration_text(u64_field(p, "duration"@))
    &&& pl.created_at == created_millis(str_field(p, "created_at"@), now_ms)
    &&& pl.tracks_uri@ == tracks_uri
    &&& pl.is_owned == owned
}

fn playlist_from(p: &Json, tracks_uri: String, now_ms: i64, owned: bool) -> (pl: Playlist)
    ensures
        playlist_matches(pl, *p, tracks_uri@, now_ms, owned),
{
    Playlist {
        title: parse_str(p, "title"),
        track_count: u64_to_string(parse_u64(p, "track_count")),
        duration: format_duration(parse_u64(p, "duration")),
        created_at: parse_created_at(parse_str(p, "created_at").as_str(), now_ms),
        tracks_uri,
        is_owned: owned,
    }
}

/// The playlist objects among search results, albums left out, in order.
pub open spec fn search_playlist_objects(items: Seq<Json>) -> Seq<Json>
    decreases items.len(),
{
    if items.len() == 0 {
        Seq::empty()
    } else {
        let prev = search_playlist_objects(items.drop_last());
        if !is_album_spec(items.last()) { prev.push(items.last()) } else { prev }
    }
}

/// The playlists among the items of a playlist search, newest first. Dates
/// that neither format reads count as `now_ms`.
pub fn playlists_from_search(items: &Vec<Json>, now_ms: i64) -> (r: Vec<Playlist>)
    ensures
        exists|unsorted: Seq<Playlist>| {
            &&& r@ == newest_first(unsorted)
            &&& unsorted.len() == search_playlist_objects(items@).len()
            &&& forall|i: int| 0 <= i < unsorted.len() ==> playlist_matches(#[trigger] unsorted[i], search_playlist_objects(items@)[i], tracks_uri_of(search_playlist_objects(items@)[i]), now_ms, false)
        },
{
    let mut r: Vec<Playlist> = Vec::new();
    let mut i: usize = 0;
    while i < items.len()
        invariant
            i <= items.len(),
            r@.len() == search_playlist_objects(items@.take(i as int)).len(),
            forall|k: int| 0 <= k < r@.len() ==> playlist_matches(#[trigger] r@[k], search_playlist_objects(items@.take(i as int))[k], tracks_uri_of(search_playlist_objects(items@.take(i as int))[k]), now_ms, false),
        decreases items.len() - i,
    {
        assert(items@.take(i + 1).drop_last() =~= items@.take(i as int));
        assert(items@.take(i + 1).last() == items@[i as int]);
        let p = &items[i];
        if !is_album(p) {
            r.push(playlist_from(p, playlist_tracks_uri(p), now_ms, false));
        }
        i = i + 1;
    }
    assert(items@.take(i as int) =~= items@);
    let ghost unsorted = r@;
    let sorted = sort_newest_first(r);
    sorted
}

/// A library item that holds a playlist: of type `playlist` (owned) or
/// `playlist-like` (liked), with a present, non-null playlist that is not an
/// album.
pub open spec fn library_playlist(item: Json) -> bool {
    &&& (str_field(item, "type"@) == "playlist"@ || str_field(item, "type"@) == "playlist-like"@)
    &&& item.member("playlist"@) matches Some(p)
    &&& !(p is Null)
    &&& ascii_lower(str_field(p, "playlist_type"@)) != "album"@
}

pub open spec fn library_playlist_items(items: Seq<Json>) -> Seq<Json>
    decreases items.len(),
{
    if items.len() == 0 {
        Seq::empty()
    } else {
        let prev = library_playlist_items(items.drop_last());
        if library_playlist(items.last()) { prev.push(items.last()) } else { prev }
    }
}

/// The playlists of an api-v2 library listing, newest first; a playlist is
/// owned when its item's type is `playlist`.
pub fn playlists_from_library(items: &Vec<Json>, now_ms: i64) -> (r: Vec<Playlist>)
    ensures
        exists|unsorted: Seq<Playlist>| {
            &&& r@ == newest_first(unsorted)
            &&& unsorted.len() == library_playlist_items(items@).len()
            &&& forall|i: int| 0 <= i < unsorted.len() ==> {
                let item = library_playlist_items(items@)[i];
                let p = item.member("playlist"@)->0;
                playlist_matches(#[trigger] unsorted[i], p, str_field(p, "tracks_uri"@), now_ms, str_field(item, "type"@) == "playlist"@)
            }
        },
{
    let mut r: Vec<Playlist> = Vec::new();
    let mut i: usize = 0;
    while i < items.len()
        invariant
            i <= items.len(),
            r@.len() == library_playlist_items(items@.take(i as int)).len(),
            forall|k: int| 0 <= k < r@.len() ==> {
                let item = library_playlist_items(items@.take(i as int))[k];
                let p = item.member("playlist"@)->0;
                playlist_matches(#[trigger] r@[k], p, str_field(p, "tracks_uri"@), now_ms, str_field(item, "type"@) == "playlist"@)
            },
        decreases items.len() - i,
    {
        assert(items@.take(i + 1).drop_last() =~= items@.take(i as int));
        assert(items@.take(i + 1).last() == items@[i as int]);
        let item = &items[i];
        let kind = chars_of_string(&parse_str(item, "type"));
        let owned = eq_str(&kind, "playlist");
        if owned || eq_str(&kind, "playlist-like") {
            match item.get("playlist") {
                Some(p) => {
                    let not_null = match p { Json::Null => false, _ => true };
                    if not_null && !lower_field_is(p, "playlist_type", "album") {
                        r.push(playlist_from(p, parse_str(p, "tracks_uri"), now_ms, owned));
                    }
                },
                None => {},
            }
        }
        i = i + 1;
    }
    assert(items@.take(i as int) =~= items@);
    sort_newest_first(r)
}

} // verus!
