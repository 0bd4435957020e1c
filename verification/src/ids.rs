use vstd::prelude::*;

use crate::text::{
    all_digits, chars_of, decimal, digit_char, digit_value, digits_value, is_digit, matches_at,
    parse_u64_chars, parse_u64_spec, vec_eq,
};

verus! {

/// The text after the last `sep` (all of `s` when there is none), as
/// `s.rsplit(sep).next()` gives it.
pub open spec fn last_segment(s: Seq<char>, sep: char) -> Seq<char>
    decreases s.len(),
{
    if s.len() == 0 {
        s
    } else if s.last() == sep {
        Seq::empty()
    } else {
        last_segment(s.drop_last(), sep).push(s.last())
    }
}

pub fn last_segment_of(v: &Vec<char>, sep: char) -> (r: Vec<char>)
    ensures
        r@ == last_segment(v@, sep),
{
    let mut start: usize = v.len();
    assert(v@.take(start as int) =~= v@);
    assert(v@.skip(start as int) =~= Seq::<char>::empty());
    assert(last_segment(v@, sep) =~= last_segment(v@.take(start as int), sep) + v@.skip(start as int));
    while start > 0 && v[start - 1] != sep
        invariant
            start <= v.len(),
            last_segment(v@, sep) == last_segment(v@.take(start as int), sep) + v@.skip(start as int),
        decreases start,
    {
        proof {
            let t = v@.take(start as int);
            assert(t.drop_last() =~= v@.take(start - 1));
            assert(t.last() == v@[start - 1]);
            assert(v@.skip(start - 1) =~= seq![v@[start - 1]] + v@.skip(start as int));
            assert(last_segment(t, sep) == last_segment(t.drop_last(), sep).push(t.last()));
            assert(last_segment(t.drop_last(), sep).push(t.last()) + v@.skip(start as int)
                =~= last_segment(v@.take(start - 1), sep) + v@.skip(start - 1));
        }
        start = start - 1;
    }
    proof {
        let t = v@.take(start as int);
        if start > 0 {
            assert(t.last() == v@[start - 1]);
        }
        assert(last_segment(t, sep) =~= Seq::<char>::empty());
        assert(last_segment(v@, sep) =~= v@.skip(start as int));
    }
    let mut r: Vec<char> = Vec::new();
    let mut i = start;
    while i < v.len()
        invariant
            start <= i <= v.len(),
            r@ == v@.subrange(start as int, i as int),
        decreases v.len() - i,
    {
        r.push(v[i]);
        i = i + 1;
        assert(r@ =~= v@.subrange(start as int, i as int));
    }
    assert(r@ =~= v@.skip(start as int));
    r
}

/// The numeric ID at the end of a SoundCloud URN such as
/// `soundcloud:tracks:123`.
pub open spec fn urn_id(urn: Seq<char>) -> Option<u64> {
    parse_u64_spec(last_segment(urn, ':'))
}

pub fn soundcloud_id_from_urn(urn: &str) -> (r: Option<u64>)
    ensures
        r == urn_id(urn@),
{
    let v = chars_of(urn);
    let last = last_segment_of(&v, ':');
    parse_u64_chars(&last)
}

/// `char::is_whitespace`: the Unicode `White_Space` property.
pub open spec fn is_whitespace(c: char) -> bool {
    ('\u{9}' <= c && c <= '\u{d}') || c == ' ' || c == '\u{85}' || c == '\u{a0}' || c == '\u{1680}'
        || ('\u{2000}' <= c && c <= '\u{200a}') || c == '\u{2028}' || c == '\u{2029}' || c == '\u{202f}'
        || c == '\u{205f}' || c == '\u{3000}'
}

pub fn char_is_whitespace(c: char) -> (r: bool)
    ensures
        r == is_whitespace(c),
{
    ('\u{9}' <= c && c <= '\u{d}') || c == ' ' || c == '\u{85}' || c == '\u{a0}' || c == '\u{1680}'
        || ('\u{2000}' <= c && c <= '\u{200a}') || c == '\u{2028}' || c == '\u{2029}' || c == '\u{202f}'
        || c == '\u{205f}' || c == '\u{3000}'
}

/// `str::trim`: `s` without leading and trailing whitespace.
pub open spec fn trimmed(s: Seq<char>) -> Seq<char>
    decreases s.len(),
{
    if s.len() == 0 {
        s
    } else if is_whitespace(s[0]) {
        trimmed(s.drop_first())
    } else if is_whitespace(s.last()) {
        trimmed(s.drop_last())
    } else {
        s
    }
}

pub fn trim_chars(v: &Vec<char>) -> (r: Vec<char>)
    ensures
        r@ == trimmed(v@),
{
    let mut lo: usize = 0;
    let mut hi: usize = v.len();
    assert(v@.subrange(0, v@.len() as int) =~= v@);
    while lo < hi && char_is_whitespace(v[lo])
        invariant
            lo <= hi <= v.len(),
            hi == v.len(),
            trimmed(v@) == trimmed(v@.subrange(lo as int, hi as int)),
        decreases hi - lo,
    {
        let ghost s = v@.subrange(lo as int, hi as int);
        assert(s[0] == v@[lo as int]);
        assert(s.drop_first() =~= v@.subrange(lo + 1, hi as int));
        lo = lo + 1;
    }
    while lo < hi && char_is_whitespace(v[hi - 1])
        invariant
            lo <= hi <= v.len(),
            trimmed(v@) == trimmed(v@.subrange(lo as int, hi as int)),
            lo < hi ==> !is_whitespace(v@[lo as int]),
        decreases hi - lo,
    {
        let ghost s = v@.subrange(lo as int, hi as int);
        assert(s[0] == v@[lo as int]);
        assert(s.last() == v@[hi - 1]);
        assert(s.drop_last() =~= v@.subrange(lo as int, hi - 1));
        hi = hi - 1;
    }
    proof {
        let s = v@.subrange(lo as int, hi as int);
        if lo < hi {
            assert(s[0] == v@[lo as int]);
            assert(s.last() == v@[hi - 1]);
        }
        assert(trimmed(s) == s);
    }
    let mut r: Vec<char> = Vec::new();
    let mut i = lo;
    while i < hi
        invariant
            lo <= i <= hi <= v.len(),
            r@ == v@.subrange(lo as int, i as int),
        decreases hi - i,
    {
        r.push(v[i]);
        i = i + 1;
        assert(r@ =~= v@.subrange(lo as int, i as int));
    }
    r
}

} // verus!

verus! {

/// The text before the first `sep` (all of `s` when there is none).
pub open spec fn first_segment(s: Seq<char>, sep: char) -> Seq<char>
    decreases s.len(),
{
    if s.len() == 0 {
        s
    } else if s[0] == sep {
        Seq::empty()
    } else {
        seq![s[0]] + first_segment(s.drop_first(), sep)
    }
}

/// The leading run of ASCII digits of `s`.
pub open spec fn digit_prefix(s: Seq<char>) -> Seq<char>
    decreases s.len(),
{
    if s.len() == 0 || !is_digit(s[0]) {
        Seq::empty()
    } else {
        seq![s[0]] + digit_prefix(s.drop_first())
    }
}

/// The first position from `i` on at which `m` occurs in `s`.
pub open spec fn find_from(s: Seq<char>, m: Seq<char>, i: int) -> Option<int>
    decreases s.len() + 1 - i,
{
    if i < 0 || i + m.len() > s.len() {
        None
    } else if s.subrange(i, i + m.len()) == m {
        Some(i)
    } else {
        find_from(s, m, i + 1)
    }
}

/// The non-empty pieces of `cur + s` split at `sep`.
pub open spec fn split_from(s: Seq<char>, sep: char, cur: Seq<char>) -> Seq<Seq<char>>
    decreases s.len(),
{
    if s.len() == 0 {
        if cur.len() > 0 { seq![cur] } else { Seq::empty() }
    } else if s[0] == sep {
        (if cur.len() > 0 { seq![cur] } else { Seq::empty() }) + split_from(s.drop_first(), sep, Seq::empty())
    } else {
        split_from(s.drop_first(), sep, cur.push(s[0]))
    }
}

/// `s.split(sep).filter(|p| !p.is_empty())`.
pub open spec fn split_parts(s: Seq<char>, sep: char) -> Seq<Seq<char>> {
    split_from(s, sep, Seq::empty())
}

/// The longest run of ASCII digits, the earliest among equally long ones;
/// `best` and `cur` carry the scan's state.
pub open spec fn best_run(s: Seq<char>, best: Seq<char>, cur: Seq<char>) -> Seq<char>
    decreases s.len(),
{
    if s.len() == 0 {
        if cur.len() > best.len() { cur } else { best }
    } else if is_digit(s[0]) {
        best_run(s.drop_first(), best, cur.push(s[0]))
    } else {
        best_run(s.drop_first(), if cur.len() > best.len() { cur } else { best }, Seq::empty())
    }
}

pub open spec fn strip_api_prefix(s: Seq<char>) -> Seq<char> {
    if seq_starts_with_lit(s, "https://api.soundcloud.com"@) {
        s.skip("https://api.soundcloud.com"@.len() as int)
    } else if seq_starts_with_lit(s, "http://api.soundcloud.com"@) {
        s.skip("http://api.soundcloud.com"@.len() as int)
    } else {
        s
    }
}

pub open spec fn seq_starts_with_lit(s: Seq<char>, p: Seq<char>) -> bool {
    p.len() <= s.len() && s.take(p.len() as int) == p
}

/// The ID after the first occurrence of `marker`: `None` when the marker is
/// absent or no digit follows it.
pub open spec fn marker_id(s: Seq<char>, marker: Seq<char>) -> Option<Option<u64>> {
    match find_from(s, marker, 0) {
        Some(i) => {
            let d = digit_prefix(s.skip(i + marker.len()));
            if d.len() > 0 { Some(parse_u64_spec(d)) } else { None }
        },
        None => None,
    }
}

/// Scans path pieces from `i` for `playlists` or `sets` followed by a piece
/// that starts with digits. A marker piece at the end settles the result as
/// `None`.
pub open spec fn parts_id(parts: Seq<Seq<char>>, i: int) -> Option<Option<u64>>
    decreases parts.len() - i,
{
    if i < 0 || i >= parts.len() {
        None
    } else if parts[i] == "playlists"@ || parts[i] == "sets"@ {
        if i + 1 >= parts.len() {
            Some(None)
        } else {
            let d = digit_prefix(parts[i + 1]);
            if d.len() > 0 { Some(parse_u64_spec(d)) } else { parts_id(parts, i + 1) }
        }
    } else {
        parts_id(parts, i + 1)
    }
}

/// The playlist ID that a tracks URI names: after `playlists/` or `sets/`,
/// else after a `playlists` or `sets` path piece, else the longest digit run.
pub open spec fn playlist_id_of(uri: Seq<char>) -> Option<u64> {
    let t = trimmed(uri);
    if t.len() == 0 {
        None
    } else {
        let s = first_segment(strip_api_prefix(t), '?');
        match marker_id(s, "playlists/"@) {
            Some(r) => r,
            None => match marker_id(s, "sets/"@) {
                Some(r) => r,
                None => match parts_id(split_parts(s, '/'), 0) {
                    Some(r) => r,
                    None => {
                        let b = best_run(s, Seq::empty(), Seq::empty());
                        if b.len() == 0 { None } else { parse_u64_spec(b) }
                    },
                },
            },
        }
    }
}

fn strip_prefix_chars(v: &Vec<char>, p: &str) -> (r: Option<Vec<char>>)
    ensures
        match r {
            Some(x) => seq_starts_with_lit(v@, p@) && x@ == v@.skip(p@.len() as int),
            None => !seq_starts_with_lit(v@, p@),
        },
{
    let pv = chars_of(p);
    if pv.len() > v.len() {
        return None;
    }
    if !matches_at(v, 0, &pv) {
        assert(v@.subrange(0, pv@.len() as int) =~= v@.take(pv@.len() as int));
        return None;
    }
    assert(v@.subrange(0, pv@.len() as int) =~= v@.take(pv@.len() as int));
    let mut r: Vec<char> = Vec::new();
    let mut i = pv.len();
    while i < v.len()
        invariant
            pv.len() <= i <= v.len(),
            r@ == v@.subrange(pv@.len() as int, i as int),
        decreases v.len() - i,
    {
        r.push(v[i]);
        i = i + 1;
        assert(r@ =~= v@.subrange(pv@.len() as int, i as int));
    }
    assert(r@ =~= v@.skip(pv@.len() as int));
    Some(r)
}

fn first_segment_of(v: &Vec<char>, sep: char) -> (r: Vec<char>)
    ensures
        r@ == first_segment(v@, sep),
{
    let mut r: Vec<char> = Vec::new();
    let mut i: usize = 0;
    assert(v@.skip(0) =~= v@);
    while i < v.len() && v[i] != sep
        invariant
            i <= v.len(),
            first_segment(v@, sep) == r@ + first_segment(v@.skip(i as int), sep),
            r@ == v@.take(i as int),
        decreases v.len() - i,
    {
        proof {
            let rest = v@.skip(i as int);
            assert(rest[0] == v@[i as int]);
            assert(rest.drop_first() =~= v@.skip(i + 1));
            assert(r@ + first_segment(rest, sep) =~= r@.push(v@[i as int]) + first_segment(v@.skip(i + 1), sep));
        }
        r.push(v[i]);
        i = i + 1;
        assert(r@ =~= v@.take(i as int));
    }
    proof {
        let rest = v@.skip(i as int);
        if i < v.len() {
            assert(rest[0] == v@[i as int]);
        }
        assert(first_segment(rest, sep) =~= Seq::<char>::empty());
        assert(r@ + Seq::<char>::empty() =~= r@);
    }
    r
}

fn digit_prefix_from(v: &Vec<char>, start: usize) -> (r: Vec<char>)
    requires
        start <= v.len(),
    ensures
        r@ == digit_prefix(v@.skip(start as int)),
{
    let mut r: Vec<char> = Vec::new();
    let mut i = start;
    while i < v.len() && '0' <= v[i] && v[i] <= '9'
        invariant
            start <= i <= v.len(),
            digit_prefix(v@.skip(start as int)) == r@ + digit_prefix(v@.skip(i as int)),
        decreases v.len() - i,
    {
        proof {
            let rest = v@.skip(i as int);
            assert(rest[0] == v@[i as int]);
            assert(rest.drop_first() =~= v@.skip(i + 1));
            assert(r@ + digit_prefix(rest) =~= r@.push(v@[i as int]) + digit_prefix(v@.skip(i + 1)));
        }
        r.push(v[i]);
        i = i + 1;
    }
    proof {
        let rest = v@.skip(i as int);
        if i < v.len() {
            assert(rest[0] == v@[i as int]);
        }
        assert(digit_prefix(rest) =~= Seq::<char>::empty());
        assert(r@ + Seq::<char>::empty() =~= r@);
    }
    r
}

fn find_marker(v: &Vec<char>, m: &Vec<char>) -> (r: Option<usize>)
    ensures
        match r {
            Some(i) => find_from(v@, m@, 0) == Some(i as int) && i + m.len() <= v.len(),
            None => find_from(v@, m@, 0) is None,
        },
{
    if m.len() > v.len() {
        return None;
    }
    let last = v.len() - m.len();
    let mut i: usize = 0;
    loop
        invariant
            last + m.len() == v.len(),
            i <= last,
            find_from(v@, m@, 0) == find_from(v@, m@, i as int),
        decreases last - i,
    {
        if matches_at(v, i, m) {
            return Some(i);
        }
        if i == last {
            assert(find_from(v@, m@, i + 1) is None);
            return None;
        }
        i = i + 1;
    }
}

fn marker_id_of(s: &Vec<char>, marker: &str) -> (r: Option<Option<u64>>)
    ensures
        r == marker_id(s@, marker@),
{
    let m = chars_of(marker);
    match find_marker(s, &m) {
        Some(i) => {
            let d = digit_prefix_from(s, i + m.len());
            if d.len() > 0 {
                Some(parse_u64_chars(&d))
            } else {
                None
            }
        },
        None => None,
    }
}

fn split_parts_of(v: &Vec<char>, sep: char) -> (r: Vec<Vec<char>>)
    ensures
        r@.map_values(|p: Vec<char>| p@) == split_parts(v@, sep),
{
    let mut r: Vec<Vec<char>> = Vec::new();
    let mut cur: Vec<char> = Vec::new();
    let mut i: usize = 0;
    assert(v@.skip(0) =~= v@);
    assert(r@.map_values(|p: Vec<char>| p@) =~= Seq::<Seq<char>>::empty());
    while i < v.len()
        invariant
            i <= v.len(),
            split_parts(v@, sep) == r@.map_values(|p: Vec<char>| p@) + split_from(v@.skip(i as int), sep, cur@),
        decreases v.len() - i,
    {
        let ghost rest = v@.skip(i as int);
        let ghost before = r@.map_values(|p: Vec<char>| p@);
        assert(rest[0] == v@[i as int]);
        assert(rest.drop_first() =~= v@.skip(i + 1));
        if v[i] == sep {
            if cur.len() > 0 {
                let done = cur;
                r.push(done);
                assert(r@.map_values(|p: Vec<char>| p@) =~= before + seq![done@]);
            } else {
                assert(r@.map_values(|p: Vec<char>| p@) =~= before + Seq::<Seq<char>>::empty());
            }
            cur = Vec::new();
            assert(split_parts(v@, sep) =~= r@.map_values(|p: Vec<char>| p@) + split_from(v@.skip(i + 1), sep, cur@));
        } else {
            cur.push(v[i]);
        }
        i = i + 1;
    }
    let ghost before = r@.map_values(|p: Vec<char>| p@);
    assert(v@.skip(i as int) =~= Seq::<char>::empty());
    if cur.len() > 0 {
        r.push(cur);
        assert(r@.map_values(|p: Vec<char>| p@) =~= before + split_from(v@.skip(i as int), sep, r@.last()@));
    } else {
        assert(before + split_from(v@.skip(i as int), sep, cur@) =~= before);
    }
    r
}

fn parts_id_of(parts: &Vec<Vec<char>>) -> (r: Option<Option<u64>>)
    ensures
        r == parts_id(parts@.map_values(|p: Vec<char>| p@), 0),
{
    let ghost ps = parts@.map_values(|p: Vec<char>| p@);
    let mut i: usize = 0;
    while i < parts.len()
        invariant
            i <= parts.len(),
            ps == parts@.map_values(|p: Vec<char>| p@),
            parts_id(ps, 0) == parts_id(ps, i as int),
        decreases parts.len() - i,
    {
        assert(ps[i as int] == parts@[i as int]@);
        let p = &parts[i];
        let is_marker = vec_eq(p, &chars_of("playlists")) || vec_eq(p, &chars_of("sets"));
        if is_marker {
            if i + 1 >= parts.len() {
                return Some(None);
            }
            assert(ps[i + 1] == parts@[i + 1]@);
            let d = digit_prefix_from(&parts[i + 1], 0);
            assert(parts@[i + 1]@.skip(0) =~= parts@[i + 1]@);
            if d.len() > 0 {
                return Some(parse_u64_chars(&d));
            }
        }
        i = i + 1;
    }
    None
}

fn best_run_of(v: &Vec<char>) -> (r: Vec<char>)
    ensures
        r@ == best_run(v@, Seq::empty(), Seq::empty()),
{
    let mut best: Vec<char> = Vec::new();
    let mut cur: Vec<char> = Vec::new();
    let mut i: usize = 0;
    assert(v@.skip(0) =~= v@);
    while i < v.len()
        invariant
            i <= v.len(),
            best_run(v@, Seq::empty(), Seq::empty()) == best_run(v@.skip(i as int), best@, cur@),
        decreases v.len() - i,
    {
        let ghost rest = v@.skip(i as int);
        assert(rest[0] == v@[i as int]);
        assert(rest.drop_first() =~= v@.skip(i + 1));
        let c = v[i];
        if '0' <= c && c <= '9' {
            cur.push(c);
        } else {
            if cur.len() > best.len() {
                best = cur;
            }
            cur = Vec::new();
        }
        i = i + 1;
    }
    assert(v@.skip(i as int) =~= Seq::<char>::empty());
    if cur.len() > best.len() {
        cur
    } else {
        best
    }
}

/// Extracts the numeric playlist ID from a SoundCloud tracks URI or URL.
pub fn soundcloud_playlist_id_from_tracks_uri(tracks_uri: &str) -> (r: Option<u64>)
    ensures
        r == playlist_id_of(tracks_uri@),
        r matches Some(n) ==> occurs_in(decimal(n as nat), id_search_text(tracks_uri@)),
{
    proof { lemma_playlist_id_from_path(tracks_uri@); }
    let t = trim_chars(&chars_of(tracks_uri));
    if t.len() == 0 {
        return None;
    }
    let stripped = match strip_prefix_chars(&t, "https://api.soundcloud.com") {
        Some(x) => x,
        None => match strip_prefix_chars(&t, "http://api.soundcloud.com") {
            Some(x) => x,
            None => t,
        },
    };
    let s = first_segment_of(&stripped, '?');
    if let Some(r) = marker_id_of(&s, "playlists/") {
        return r;
    }
    if let Some(r) = marker_id_of(&s, "sets/") {
        return r;
    }
    let parts = split_parts_of(&s, '/');
    if let Some(r) = parts_id_of(&parts) {
        return r;
    }
    let b = best_run_of(&s);
    if b.len() == 0 {
        return None;
    }
    parse_u64_chars(&b)
}

} // verus!

verus! {

/// Whether `p` occurs as a contiguous piece of `s`.
pub open spec fn occurs_in(p: Seq<char>, s: Seq<char>) -> bool {
    exists|j: int| 0 <= j && j + p.len() <= s.len() && #[trigger] s.subrange(j, j + p.len()) == p
}

/// The part of a tracks URI that the playlist ID is read from: trimmed,
/// without the API origin, and cut before the first `?`.
pub open spec fn id_search_text(uri: Seq<char>) -> Seq<char> {
    first_segment(strip_api_prefix(trimmed(uri)), '?')
}

proof fn lemma_occurs_at(p: Seq<char>, s: Seq<char>, j: int)
    requires
        0 <= j,
        j + p.len() <= s.len(),
        s.subrange(j, j + p.len()) == p,
    ensures
        occurs_in(p, s),
{
}

proof fn lemma_occurs_trans(p: Seq<char>, q: Seq<char>, s: Seq<char>)
    requires
        occurs_in(p, q),
        occurs_in(q, s),
    ensures
        occurs_in(p, s),
{
    let j = choose|j: int| 0 <= j && j + p.len() <= q.len() && #[trigger] q.subrange(j, j + p.len()) == p;
    let k = choose|k: int| 0 <= k && k + q.len() <= s.len() && #[trigger] s.subrange(k, k + q.len()) == q;
    assert(s.subrange(k + j, k + j + p.len()) =~= p);
    lemma_occurs_at(p, s, k + j);
}

proof fn lemma_digit_char_value(c: char)
    requires
        is_digit(c),
    ensures
        digit_value(c) < 10,
        digit_char(digit_value(c)) == c,
{
    if c == '0' {
    } else if c == '1' {
    } else if c == '2' {
    } else if c == '3' {
    } else if c == '4' {
    } else if c == '5' {
    } else if c == '6' {
    } else if c == '7' {
    } else if c == '8' {
    } else {
        assert(c == '9');
    }
}

/// The decimal notation of a digit run's value is a suffix of the run.
proof fn lemma_decimal_suffix(d: Seq<char>)
    requires
        d.len() > 0,
        all_digits(d),
    ensures
        decimal(digits_value(d)).len() <= d.len(),
        d.skip(d.len() - decimal(digits_value(d)).len()) == decimal(digits_value(d)),
    decreases d.len(),
{
    let c = d.last();
    let rest = d.drop_last();
    lemma_digit_char_value(c);
    let v = digits_value(rest);
    assert(digits_value(d) == v * 10 + digit_value(c));
    if rest.len() == 0 || v == 0 {
        assert(digits_value(d) == digit_value(c));
        assert(decimal(digits_value(d)) =~= seq![c]);
        assert(d.skip(d.len() - 1) =~= seq![c]);
    } else {
        assert(all_digits(rest));
        lemma_decimal_suffix(rest);
        let n = digits_value(d);
        assert(n / 10 == v && n % 10 == digit_value(c)) by (nonlinear_arith)
            requires
                n == v * 10 + digit_value(c),
                digit_value(c) < 10,
        ;
        assert(decimal(n) == decimal(v).push(c));
        assert(d.skip(d.len() - decimal(n).len()) =~= rest.skip(rest.len() - decimal(v).len()).push(c));
    }
}

/// A parsed number's decimal notation occurs in the parsed text.
proof fn lemma_parsed_occurs(d: Seq<char>, n: u64)
    requires
        parse_u64_spec(d) == Some(n),
    ensures
        occurs_in(decimal(n as nat), d),
{
    let body = if d.len() > 0 && d[0] == '+' { d.drop_first() } else { d };
    lemma_decimal_suffix(body);
    let k = body.len() - decimal(n as nat).len();
    assert(body.subrange(k, k + decimal(n as nat).len()) =~= body.skip(k));
    lemma_occurs_at(decimal(n as nat), body, k);
    if d.len() > 0 && d[0] == '+' {
        assert(d.subrange(1, 1 + body.len() as int) =~= body);
        lemma_occurs_at(body, d, 1);
    } else {
        assert(d.subrange(0, body.len() as int) =~= body);
        lemma_occurs_at(body, d, 0);
    }
    lemma_occurs_trans(decimal(n as nat), body, d);
}

proof fn lemma_digit_prefix_is_prefix(s: Seq<char>)
    ensures
        digit_prefix(s).len() <= s.len(),
        s.take(digit_prefix(s).len() as int) == digit_prefix(s),
    decreases s.len(),
{
    if s.len() > 0 && is_digit(s[0]) {
        lemma_digit_prefix_is_prefix(s.drop_first());
        assert(s.take(digit_prefix(s).len() as int) =~= seq![s[0]] + s.drop_first().take(
            digit_prefix(s.drop_first()).len() as int,
        ));
    }
}

proof fn lemma_digit_prefix_occurs(s: Seq<char>)
    ensures
        occurs_in(digit_prefix(s), s),
{
    lemma_digit_prefix_is_prefix(s);
    assert(s.subrange(0, digit_prefix(s).len() as int) =~= s.take(digit_prefix(s).len() as int));
    lemma_occurs_at(digit_prefix(s), s, 0);
}

proof fn lemma_marker_id_occurs(s: Seq<char>, marker: Seq<char>, n: u64)
    requires
        marker_id(s, marker) == Some(Some(n)),
    ensures
        occurs_in(decimal(n as nat), s),
{
    let i = find_from(s, marker, 0)->0;
    lemma_find_from_in_range(s, marker, 0);
    let t = s.skip(i + marker.len());
    let d = digit_prefix(t);
    lemma_parsed_occurs(d, n);
    lemma_digit_prefix_occurs(t);
    assert(s.subrange(i + marker.len(), i + marker.len() + t.len()) =~= t);
    lemma_occurs_at(t, s, i + marker.len());
    lemma_occurs_trans(d, t, s);
    lemma_occurs_trans(decimal(n as nat), d, s);
}

proof fn lemma_find_from_in_range(s: Seq<char>, m: Seq<char>, i: int)
    ensures
        find_from(s, m, i) matches Some(j) ==> i <= j && 0 <= j && j + m.len() <= s.len(),
    decreases s.len() + 1 - i,
{
    if !(i < 0 || i + m.len() > s.len()) && s.subrange(i, i + m.len()) != m {
        lemma_find_from_in_range(s, m, i + 1);
    }
}

proof fn lemma_split_from_occurs(s: Seq<char>, sep: char, cur: Seq<char>)
    ensures
        forall|k: int| 0 <= k < split_from(s, sep, cur).len()
            ==> occurs_in(#[trigger] split_from(s, sep, cur)[k], cur + s),
    decreases s.len(),
{
    let parts = split_from(s, sep, cur);
    assert((cur + s).subrange(0, cur.len() as int) =~= cur);
    if s.len() == 0 {
        assert forall|k: int| 0 <= k < parts.len() implies occurs_in(#[trigger] parts[k], cur + s) by {
            lemma_occurs_at(cur, cur + s, 0);
        }
    } else if s[0] == sep {
        let head: Seq<Seq<char>> = if cur.len() > 0 { seq![cur] } else { Seq::empty() };
        let rest = split_from(s.drop_first(), sep, Seq::empty());
        lemma_split_from_occurs(s.drop_first(), sep, Seq::empty());
        assert(Seq::<char>::empty() + s.drop_first() =~= s.drop_first());
        let off: int = cur.len() + 1int;
        assert((cur + s).subrange(off, off + s.drop_first().len()) =~= s.drop_first());
        lemma_occurs_at(s.drop_first(), cur + s, off);
        assert forall|k: int| 0 <= k < parts.len() implies occurs_in(#[trigger] parts[k], cur + s) by {
            if k < head.len() {
                lemma_occurs_at(cur, cur + s, 0);
            } else {
                assert(parts[k] == rest[k - head.len()]);
                lemma_occurs_trans(rest[k - head.len()], s.drop_first(), cur + s);
            }
        }
    } else {
        lemma_split_from_occurs(s.drop_first(), sep, cur.push(s[0]));
        assert(cur.push(s[0]) + s.drop_first() =~= cur + s);
        assert(parts == split_from(s.drop_first(), sep, cur.push(s[0])));
    }
}

proof fn lemma_parts_id_occurs(parts: Seq<Seq<char>>, i: int, s: Seq<char>, n: u64)
    requires
        parts_id(parts, i) == Some(Some(n)),
        forall|k: int| 0 <= k < parts.len() ==> occurs_in(#[trigger] parts[k], s),
    ensures
        occurs_in(decimal(n as nat), s),
    decreases parts.len() - i,
{
    if parts[i] == "playlists"@ || parts[i] == "sets"@ {
        let d = digit_prefix(parts[i + 1]);
        if d.len() > 0 {
            lemma_parsed_occurs(d, n);
            lemma_digit_prefix_occurs(parts[i + 1]);
            lemma_occurs_trans(decimal(n as nat), d, parts[i + 1]);
            lemma_occurs_trans(decimal(n as nat), parts[i + 1], s);
        } else {
            lemma_parts_id_occurs(parts, i + 1, s, n);
        }
    } else {
        lemma_parts_id_occurs(parts, i + 1, s, n);
    }
}

proof fn lemma_best_run_occurs(s: Seq<char>, best: Seq<char>, cur: Seq<char>)
    ensures
        best_run(s, best, cur) == best || occurs_in(best_run(s, best, cur), cur + s),
    decreases s.len(),
{
    assert((cur + s).subrange(0, cur.len() as int) =~= cur);
    if s.len() == 0 {
        lemma_occurs_at(cur, cur + s, 0);
    } else if is_digit(s[0]) {
        lemma_best_run_occurs(s.drop_first(), best, cur.push(s[0]));
        assert(cur.push(s[0]) + s.drop_first() =~= cur + s);
    } else {
        let nb = if cur.len() > best.len() { cur } else { best };
        lemma_best_run_occurs(s.drop_first(), nb, Seq::empty());
        assert(Seq::<char>::empty() + s.drop_first() =~= s.drop_first());
        let off: int = cur.len() + 1int;
        assert((cur + s).subrange(off, off + s.drop_first().len()) =~= s.drop_first());
        lemma_occurs_at(s.drop_first(), cur + s, off);
        lemma_occurs_at(cur, cur + s, 0);
        let r = best_run(s, best, cur);
        if r != best && r != nb {
            lemma_occurs_trans(r, s.drop_first(), cur + s);
        }
    }
}

proof fn lemma_first_segment_prefix(s: Seq<char>, sep: char)
    ensures
        first_segment(s, sep).len() <= s.len(),
        s.take(first_segment(s, sep).len() as int) == first_segment(s, sep),
        !first_segment(s, sep).contains(sep),
    decreases s.len(),
{
    if s.len() > 0 && s[0] != sep {
        let t = first_segment(s.drop_first(), sep);
        lemma_first_segment_prefix(s.drop_first(), sep);
        assert(s.take(t.len() + 1int) =~= seq![s[0]] + s.drop_first().take(t.len() as int));
        assert forall|k: int| 0 <= k < first_segment(s, sep).len() implies #[trigger] first_segment(s, sep)[k] != sep by {
            if k > 0 {
                assert(first_segment(s, sep)[k] == t[k - 1]);
            }
        }
    }
}

/// What the playlist-ID reader promises of every tracks URI: the text it
/// reads the ID from is a prefix of the trimmed URI without the API origin
/// and holds no `?`, so no number is taken from the query string; a blank
/// URI has no ID; a digit run right after the first `playlists/` is the
/// ID; and an ID it returns is written, in decimal, in that text.
pub proof fn lemma_playlist_id_from_path(uri: Seq<char>)
    ensures
        id_search_text(uri).len() <= strip_api_prefix(trimmed(uri)).len(),
        strip_api_prefix(trimmed(uri)).take(id_search_text(uri).len() as int) == id_search_text(uri),
        !id_search_text(uri).contains('?'),
        trimmed(uri).len() == 0 ==> playlist_id_of(uri) is None,
        trimmed(uri).len() > 0 ==> (find_from(id_search_text(uri), "playlists/"@, 0) matches Some(i)
            ==> (digit_prefix(id_search_text(uri).skip(i + "playlists/"@.len())).len() > 0
            ==> playlist_id_of(uri) == parse_u64_spec(
                digit_prefix(id_search_text(uri).skip(i + "playlists/"@.len())),
            ))),
        playlist_id_of(uri) matches Some(n) ==> occurs_in(decimal(n as nat), id_search_text(uri)),
{
    let s = id_search_text(uri);
    lemma_first_segment_prefix(strip_api_prefix(trimmed(uri)), '?');
    if let Some(n) = playlist_id_of(uri) {
        if marker_id(s, "playlists/"@) is Some {
            lemma_marker_id_occurs(s, "playlists/"@, n);
        } else if marker_id(s, "sets/"@) is Some {
            lemma_marker_id_occurs(s, "sets/"@, n);
        } else if parts_id(split_parts(s, '/'), 0) is Some {
            lemma_split_from_occurs(s, '/', Seq::empty());
            assert(Seq::<char>::empty() + s =~= s);
            lemma_parts_id_occurs(split_parts(s, '/'), 0, s, n);
        } else {
            let b = best_run(s, Seq::empty(), Seq::empty());
            lemma_best_run_occurs(s, Seq::empty(), Seq::empty());
            assert(Seq::<char>::empty() + s =~= s);
            lemma_parsed_occurs(b, n);
            lemma_occurs_trans(decimal(n as nat), b, s);
        }
    }
}

} // verus!

verus! {

proof fn lemma_digit_char_digit(d: nat)
    requires
        d < 10,
    ensures
        is_digit(digit_char(d)),
        digit_value(digit_char(d)) == d,
{
}

/// The decimal notation of a number is a non-empty digit run whose value is the number.
proof fn lemma_decimal_digits(n: nat)
    ensures
        decimal(n).len() > 0,
        all_digits(decimal(n)),
        digits_value(decimal(n)) == n,
    decreases n,
{
    if n < 10 {
        lemma_digit_char_digit(n);
        assert(decimal(n) == seq![digit_char(n)]);
        assert(decimal(n).drop_last() =~= Seq::<char>::empty());
        assert(digits_value(Seq::<char>::empty()) == 0);
        assert(decimal(n).last() == digit_char(n));
    } else {
        lemma_decimal_digits(n / 10);
        let c = digit_char(n % 10);
        lemma_digit_char_digit(n % 10);
        let d = decimal(n / 10).push(c);
        assert(decimal(n) == d);
        assert(d.drop_last() =~= decimal(n / 10));
        assert(d.last() == c);
        assert(digits_value(d) == digits_value(decimal(n / 10)) * 10 + digit_value(c));
        assert((n / 10) * 10 + n % 10 == n) by (nonlinear_arith);
        assert forall|i: int| 0 <= i < d.len() implies is_digit(#[trigger] d[i]) by {
            if i < d.len() - 1 {
                assert(d[i] == decimal(n / 10)[i]);
            }
        }
    }
}

proof fn lemma_digit_prefix_of_run(x: Seq<char>, t: Seq<char>)
    requires
        all_digits(x),
        t.len() == 0 || !is_digit(t[0]),
    ensures
        digit_prefix(x + t) == x,
    decreases x.len(),
{
    if x.len() == 0 {
        assert(x + t =~= t);
    } else {
        assert((x + t)[0] == x[0]);
        assert((x + t).drop_first() =~= x.drop_first() + t);
        assert(all_digits(x.drop_first())) by {
            assert forall|i: int| 0 <= i < x.drop_first().len() implies is_digit(#[trigger] x.drop_first()[i]) by {
                assert(x.drop_first()[i] == x[i + 1]);
            }
        }
        lemma_digit_prefix_of_run(x.drop_first(), t);
        assert(seq![x[0]] + x.drop_first() =~= x);
    }
}

proof fn lemma_first_segment_without_sep(s: Seq<char>, sep: char)
    requires
        !s.contains(sep),
    ensures
        first_segment(s, sep) == s,
    decreases s.len(),
{
    if s.len() > 0 {
        assert(s[0] != sep);
        assert(!s.drop_first().contains(sep)) by {
            if s.drop_first().contains(sep) {
                let k = choose|k: int| 0 <= k < s.drop_first().len() && s.drop_first()[k] == sep;
                assert(s[k + 1] == sep);
            }
        }
        lemma_first_segment_without_sep(s.drop_first(), sep);
        assert(seq![s[0]] + s.drop_first() =~= s);
    }
}

/// The path `/playlists/{n}/tracks`.
pub open spec fn playlist_tracks_path(n: nat) -> Seq<char> {
    "/playlists/"@ + decimal(n) + "/tracks"@
}

/// Reading the playlist ID back from a playlist's tracks path gives the ID
/// the path was made from.
pub proof fn lemma_playlist_id_of_tracks_path(n: u64)
    ensures
        playlist_id_of(playlist_tracks_path(n as nat)) == Some(n),
{
    reveal_strlit("/playlists/");
    reveal_strlit("/tracks");
    reveal_strlit("playlists/");
    reveal_strlit("https://api.soundcloud.com");
    reveal_strlit("http://api.soundcloud.com");
    let d = decimal(n as nat);
    lemma_decimal_digits(n as nat);
    let s = playlist_tracks_path(n as nat);
    let tail = "/tracks"@;
    assert(s.len() == 11 + d.len() + 7);
    assert(s[0] == '/');
    assert(s[s.len() - 1] == 's');
    assert(trimmed(s) == s);
    assert(!seq_starts_with_lit(s, "https://api.soundcloud.com"@)) by {
        if "https://api.soundcloud.com"@.len() <= s.len() {
            assert(s.take(26)[0] == s[0]);
        }
    }
    assert(!seq_starts_with_lit(s, "http://api.soundcloud.com"@)) by {
        if "http://api.soundcloud.com"@.len() <= s.len() {
            assert(s.take(25)[0] == s[0]);
        }
    }
    assert(strip_api_prefix(s) == s);
    assert(!s.contains('?')) by {
        if s.contains('?') {
            let k = choose|k: int| 0 <= k < s.len() && s[k] == '?';
            if k < 11 {
            } else if k < 11 + d.len() {
                assert(s[k] == d[k - 11]);
                assert(is_digit(d[k - 11]));
            } else {
                assert(s[k] == tail[k - 11 - d.len()]);
            }
        }
    }
    lemma_first_segment_without_sep(s, '?');
    assert(id_search_text(s) == s);
    assert(s.subrange(0, 10) != "playlists/"@) by {
        assert(s.subrange(0, 10)[0] == '/');
    }
    assert(s.subrange(1, 11) =~= "playlists/"@);
    assert(find_from(s, "playlists/"@, 1) == Some(1int));
    assert(find_from(s, "playlists/"@, 0) == Some(1int));
    assert(s.skip(11) =~= d + tail);
    lemma_digit_prefix_of_run(d, tail);
    assert(d[0] != '+');
    assert(parse_u64_spec(d) == Some(n));
    assert(marker_id(s, "playlists/"@) == Some(Some(n)));
}

} // verus!
