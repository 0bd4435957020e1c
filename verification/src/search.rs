use vstd::prelude::*;

use crate::ids::{is_whitespace, char_is_whitespace, trimmed, trim_chars};
use crate::models::{Album, Artist, Playlist, Track};
use crate::text::{chars_of, chars_of_string, string_of, seq_starts_with, seq_contains, starts_with, contains_seq};

verus! {

/// `str::to_lowercase` of a text: Unicode's lowercase mapping, with the
/// final-sigma rule. Named, not stated: the mapping is Unicode's tables.
/// Its wrapper states only that every character maps to at least one, so
/// that a text and its lowercase form are empty together.
pub uninterp spec fn lowercase(s: Seq<char>) -> Seq<char>;

/// `char::is_alphanumeric`: the Unicode `Alphabetic` or `Numeric` property.
pub uninterp spec fn alphanumeric(c: char) -> bool;

/// Lowercases a text with `str::to_lowercase`.
#[verifier::external_body]
fn to_lowercase(s: &str) -> (r: String)
    ensures
        r@ == lowercase(s@),
        s@.len() == 0 <==> r@.len() == 0,
{
    s.to_lowercase()
}

/// Tests a character with `char::is_alphanumeric`.
#[verifier::external_body]
fn is_alphanumeric(c: char) -> (r: bool)
    ensures
        r == alphanumeric(c),
{
    c.is_alphanumeric()
}

/// The words of a text (`str::split_whitespace`), scanned from `i` with the
/// word `cur` begun.
pub open spec fn words_from(s: Seq<char>, i: int, cur: Seq<char>) -> Seq<Seq<char>>
    decreases s.len() - i,
{
    if i >= s.len() || i < 0 {
        if cur.len() > 0 { seq![cur] } else { Seq::empty() }
    } else if is_whitespace(s[i]) {
        (if cur.len() > 0 { seq![cur] } else { Seq::empty() }) + words_from(s, i + 1, Seq::empty())
    } else {
        words_from(s, i + 1, cur.push(s[i]))
    }
}

/// The words of a text: its maximal runs of non-whitespace characters.
pub open spec fn words(s: Seq<char>) -> Seq<Seq<char>> {
    words_from(s, 0, Seq::empty())
}

/// The views of a list of character vectors.
pub open spec fn views(v: Seq<Vec<char>>) -> Seq<Seq<char>> {
    v.map_values(|w: Vec<char>| w@)
}

/// Splits a text into its words.
pub fn split_words(s: &Vec<char>) -> (r: Vec<Vec<char>>)
    ensures
        views(r@) == words(s@),
{
    let mut out: Vec<Vec<char>> = Vec::new();
    let mut cur: Vec<char> = Vec::new();
    let mut i: usize = 0;
    while i < s.len()
        invariant
            i <= s.len(),
            views(out@) + words_from(s@, i as int, cur@) == words(s@),
        decreases s.len() - i,
    {
        let c = s[i];
        if char_is_whitespace(c) {
            let ghost before = views(out@);
            let ghost cur_view = cur@;
            if cur.len() > 0 {
                let w = cur;
                out.push(w);
                cur = Vec::new();
                assert(views(out@) =~= before.push(cur_view));
                assert(before.push(cur_view) + words_from(s@, i + 1, Seq::empty()) =~= before + (seq![cur_view] + words_from(s@, i + 1, Seq::empty())));
            } else {
                assert(Seq::<Seq<char>>::empty() + words_from(s@, i + 1, Seq::empty()) =~= words_from(s@, i + 1, Seq::empty()));
            }
            assert(cur@ =~= Seq::<char>::empty());
        } else {
            cur.push(c);
        }
        i += 1;
    }
    if cur.len() > 0 {
        let ghost before = views(out@);
        let ghost cur_view = cur@;
        out.push(cur);
        assert(views(out@) =~= before + seq![cur_view]);
    } else {
        assert(views(out@) + Seq::<Seq<char>>::empty() =~= views(out@));
    }
    out
}

/// The positions where the characters of `q[qi..]` are found in `c[ci..]`,
/// each at the first place after the previous one.
pub open spec fn greedy(q: Seq<char>, c: Seq<char>, qi: int, ci: int) -> Seq<int>
    decreases c.len() - ci,
{
    if qi >= q.len() || ci >= c.len() || qi < 0 || ci < 0 {
        Seq::empty()
    } else if c[ci] == q[qi] {
        seq![ci] + greedy(q, c, qi + 1, ci + 1)
    } else {
        greedy(q, c, qi, ci + 1)
    }
}

/// What a matched position earns: ten, plus a bonus at the start of the
/// text or after a non-alphanumeric character, plus eight for following
/// the previous position directly or minus the gap otherwise.
pub open spec fn step_score(c: Seq<char>, ps: Seq<int>, k: int) -> int {
    let pos = ps[k];
    10int + (if pos == 0 { 15int } else if !alphanumeric(c[pos - 1]) { 10int } else { 0int })
       + (if k == 0 { 0int } else if pos == ps[k - 1] + 1 { 8int } else { -(pos - ps[k - 1] - 1) })
}

/// The sum of the first `k` step scores.
pub open spec fn steps_score(c: Seq<char>, ps: Seq<int>, k: int) -> int
    decreases k,
{
    if k <= 0 { 0 } else { steps_score(c, ps, k - 1) + step_score(c, ps, k - 1) }
}

/// The fuzzy score of a query against a candidate text, where every query
/// character is found in order: the step scores, minus the first position,
/// plus fifty for a prefix or thirty for a substring, minus a tenth of the
/// candidate's length.
pub open spec fn subsequence_score(q: Seq<char>, c: Seq<char>) -> Option<int> {
    let ps = greedy(q, c, 0, 0);
    if q.len() == 0 || c.len() == 0 || q.len() > c.len() || ps.len() != q.len() {
        None
    } else {
        Some(steps_score(c, ps, ps.len() as int) - ps[0]
            + (if seq_starts_with(c, q) { 50int } else if seq_contains(c, q) { 30int } else { 0int })
            - (c.len() as int) / 10)
    }
}

proof fn lemma_greedy_shape(q: Seq<char>, c: Seq<char>, qi: int, ci: int)
    requires
        0 <= qi <= q.len(),
        0 <= ci <= c.len(),
    ensures
        greedy(q, c, qi, ci).len() <= q.len() - qi,
        forall|k: int| 0 <= k < greedy(q, c, qi, ci).len() ==> ci <= #[trigger] greedy(q, c, qi, ci)[k] < c.len(),
        forall|a: int, b: int| 0 <= a < b < greedy(q, c, qi, ci).len() ==> #[trigger] greedy(q, c, qi, ci)[a] < #[trigger] greedy(q, c, qi, ci)[b],
    decreases c.len() - ci,
{
    if qi < q.len() && ci < c.len() {
        lemma_greedy_shape(q, c, qi + 1, ci + 1);
        lemma_greedy_shape(q, c, qi, ci + 1);
        if c[ci] == q[qi] {
            let rest = greedy(q, c, qi + 1, ci + 1);
            let g = greedy(q, c, qi, ci);
            assert(g == seq![ci] + rest);
            assert forall|k: int| 0 <= k < g.len() implies ci <= #[trigger] g[k] < c.len() by {
                if k > 0 { assert(g[k] == rest[k - 1]); }
            }
            assert forall|a: int, b: int| 0 <= a < b < g.len() implies #[trigger] g[a] < #[trigger] g[b] by {
                assert(g[b] == rest[b - 1]);
                if a > 0 { assert(g[a] == rest[a - 1]); }
            }
        }
    }
}

/// Whether `ps` places the characters of `q[qi..]` in `c`, in order, at
/// strictly increasing positions from `ci` on.
pub open spec fn is_embedding(q: Seq<char>, c: Seq<char>, ps: Seq<int>, qi: int, ci: int) -> bool {
    &&& ps.len() == q.len() - qi
    &&& forall|k: int| 0 <= k < ps.len() ==> ci <= #[trigger] ps[k] < c.len() && c[ps[k]] == q[qi + k]
    &&& forall|a: int, b: int| 0 <= a < b < ps.len() ==> #[trigger] ps[a] < #[trigger] ps[b]
}

/// Whether `q[qi..]` occurs in `c[ci..]` as a (not necessarily contiguous)
/// subsequence.
pub open spec fn embeds_from(q: Seq<char>, c: Seq<char>, qi: int, ci: int) -> bool {
    exists|ps: Seq<int>| #[trigger] is_embedding(q, c, ps, qi, ci)
}

/// Whether the characters of `q` occur in `c` in order (case-sensitively).
pub open spec fn is_subsequence(q: Seq<char>, c: Seq<char>) -> bool {
    embeds_from(q, c, 0, 0)
}

proof fn lemma_greedy_len(q: Seq<char>, c: Seq<char>, qi: int, ci: int)
    requires
        0 <= qi <= q.len(),
        0 <= ci <= c.len(),
    ensures
        greedy(q, c, qi, ci).len() <= c.len() - ci,
        is_embedding(q, c, greedy(q, c, qi, ci), qi, ci) <==> greedy(q, c, qi, ci).len() == q.len() - qi,
    decreases c.len() - ci,
{
    lemma_greedy_shape(q, c, qi, ci);
    let g = greedy(q, c, qi, ci);
    if qi < q.len() && ci < c.len() {
        if c[ci] == q[qi] {
            lemma_greedy_len(q, c, qi + 1, ci + 1);
            let rest = greedy(q, c, qi + 1, ci + 1);
            assert(g == seq![ci] + rest);
            if g.len() == q.len() - qi {
                assert forall|k: int| 0 <= k < g.len() implies ci <= #[trigger] g[k] < c.len() && c[g[k]] == q[qi + k] by {
                    if k > 0 {
                        assert(g[k] == rest[k - 1]);
                    }
                }
            }
        } else {
            lemma_greedy_len(q, c, qi, ci + 1);
        }
    }
}

proof fn lemma_embedding_found_by_greedy(q: Seq<char>, c: Seq<char>, ps: Seq<int>, qi: int, ci: int)
    requires
        0 <= qi <= q.len(),
        0 <= ci <= c.len(),
        is_embedding(q, c, ps, qi, ci),
    ensures
        greedy(q, c, qi, ci).len() == q.len() - qi,
    decreases c.len() - ci,
{
    if qi < q.len() {
        assert(ci <= ps[0] < c.len());
        if c[ci] == q[qi] {
            let rest = ps.drop_first();
            assert forall|k: int| 0 <= k < rest.len() implies ci + 1 <= #[trigger] rest[k] < c.len() && c[rest[k]] == q[qi + 1 + k] by {
                assert(rest[k] == ps[k + 1]);
                assert(ps[0] < ps[k + 1]);
            }
            assert forall|a: int, b: int| 0 <= a < b < rest.len() implies #[trigger] rest[a] < #[trigger] rest[b] by {
                assert(rest[a] == ps[a + 1] && rest[b] == ps[b + 1]);
            }
            assert(is_embedding(q, c, rest, qi + 1, ci + 1));
            lemma_embedding_found_by_greedy(q, c, rest, qi + 1, ci + 1);
            assert(greedy(q, c, qi, ci) == seq![ci] + greedy(q, c, qi + 1, ci + 1));
        } else {
            assert(ps[0] != ci);
            assert(is_embedding(q, c, ps, qi, ci + 1));
            lemma_embedding_found_by_greedy(q, c, ps, qi, ci + 1);
        }
    }
}

/// A score exists exactly when the query is a non-empty subsequence of a
/// non-empty candidate.
pub proof fn lemma_score_exists_iff_subsequence(q: Seq<char>, c: Seq<char>)
    ensures
        subsequence_score(q, c) is Some <==> (q.len() > 0 && c.len() > 0 && is_subsequence(q, c)),
{
    lemma_greedy_len(q, c, 0, 0);
    let g = greedy(q, c, 0, 0);
    if q.len() > 0 && c.len() > 0 && is_subsequence(q, c) {
        let ps = choose|ps: Seq<int>| #[trigger] is_embedding(q, c, ps, 0, 0);
        lemma_embedding_found_by_greedy(q, c, ps, 0, 0);
    }
    if g.len() == q.len() {
        assert(is_embedding(q, c, g, 0, 0));
    }
}

/// Scores a query against a candidate: `None` unless every query character
/// occurs in the candidate in order. The score is kept in 64 bits as two's
/// complement, so it is exact wherever it fits (every text that memory
/// holds in practice) and wraps around beyond.
pub fn fuzzy_score_subsequence(query: &Vec<char>, candidate: &Vec<char>) -> (r: Option<i64>)
    ensures
        match subsequence_score(query@, candidate@) {
            Some(s) => r == Some(s as i64),
            None => r is None,
        },
        (subsequence_score(query@, candidate@) matches Some(s) && i64::MIN <= s <= i64::MAX) ==> r is Some
            && r->0 as int == subsequence_score(query@, candidate@)->0,
        r is Some <==> (query@.len() > 0 && candidate@.len() > 0 && is_subsequence(query@, candidate@)),
{
    proof { lemma_score_exists_iff_subsequence(query@, candidate@); }
    let ql = query.len();
    let cl = candidate.len();
    if ql == 0 || cl == 0 {
        return None;
    }
    if ql > cl {
        return None;
    }
    let ghost q = query@;
    let ghost c = candidate@;
    let mut positions: Vec<usize> = Vec::new();
    let mut qi: usize = 0;
    let mut ci: usize = 0;
    proof { lemma_greedy_shape(q, c, 0, 0); }
    while ci < cl && qi < ql
        invariant
            q == query@,
            c == candidate@,
            cl == c.len(),
            ql == q.len(),
            0 < ql <= cl,
            qi <= ql,
            ci <= cl,
            positions@.map_values(|p: usize| p as int) + greedy(q, c, qi as int, ci as int) == greedy(q, c, 0, 0),
            positions@.len() == qi,
        decreases cl - ci,
    {
        let ghost before = positions@.map_values(|p: usize| p as int);
        if candidate[ci] == query[qi] {
            positions.push(ci);
            assert(positions@.map_values(|p: usize| p as int) =~= before.push(ci as int));
            assert(greedy(q, c, qi as int, ci as int) == seq![ci as int] + greedy(q, c, qi + 1, ci + 1));
            assert(before.push(ci as int) + greedy(q, c, qi + 1, ci + 1) =~= before + (seq![ci as int] + greedy(q, c, qi + 1, ci + 1)));
            qi += 1;
            ci += 1;
        } else {
            ci += 1;
        }
    }
    let ghost ps = greedy(q, c, 0, 0);
    if qi != ql {
        proof {
            assert(greedy(q, c, qi as int, ci as int) =~= Seq::<int>::empty());
            assert(positions@.map_values(|p: usize| p as int) + Seq::<int>::empty() =~= positions@.map_values(|p: usize| p as int));
        }
        return None;
    }
    proof {
        assert(greedy(q, c, qi as int, ci as int) =~= Seq::<int>::empty());
        assert(positions@.map_values(|p: usize| p as int) + Seq::<int>::empty() =~= positions@.map_values(|p: usize| p as int));
        assert(positions@.map_values(|p: usize| p as int) == ps);
        lemma_greedy_shape(q, c, 0, 0);
    }
    let mut score: i128 = 0;
    let mut k: usize = 0;
    while k < positions.len()
        invariant
            q == query@,
            c == candidate@,
            cl == c.len(),
            0 < cl,
            ps == greedy(q, c, 0, 0),
            positions@.map_values(|p: usize| p as int) == ps,
            forall|j: int| 0 <= j < ps.len() ==> 0 <= #[trigger] ps[j] < cl,
            forall|a: int, b: int| 0 <= a < b < ps.len() ==> #[trigger] ps[a] < #[trigger] ps[b],
            k <= positions.len(),
            positions.len() <= cl,
            score == steps_score(c, ps, k as int),
            k == 0 ==> score == 0,
            k > 0 ==> -(ps[k - 1]) <= score <= 33 * k,
        decreases positions.len() - k,
    {
        let pos = positions[k];
        assert(pos as int == ps[k as int]);
        let mut step: i128 = 10;
        if pos == 0 {
            step = step + 15;
        } else if !is_alphanumeric(candidate[pos - 1]) {
            step = step + 10;
        }
        if k > 0 {
            let prev = positions[k - 1];
            assert(prev as int == ps[k - 1]);
            if pos == prev + 1 {
                step = step + 8;
            } else {
                step = step - ((pos - prev - 1) as i128);
            }
        }
        assert(step == step_score(c, ps, k as int));
        assert(step <= 33);
        assert(k > 0 ==> step >= 10 - (ps[k as int] - ps[k - 1] - 1));
        assert(k == 0 ==> step >= 10);
        score = score + step;
        k += 1;
    }
    let first = positions[0] as i128;
    score = score - first;
    if starts_with(candidate, query) {
        score = score + 50;
    } else if contains_seq(candidate, query) {
        score = score + 30;
    }
    score = score - (cl / 10) as i128;
    Some(score as i64)
}

/// The score a candidate gets, as a 64-bit two's-complement value.
pub open spec fn score64(q: Seq<char>, c: Seq<char>) -> Option<int> {
    match subsequence_score(q, c) {
        Some(s) => Some((s as i64) as int),
        None => None,
    }
}

/// One token against a title and its artists: the title's score plus
/// twenty-five, or the artists' score, whichever is higher (in 64-bit
/// two's-complement arithmetic).
pub open spec fn track_token_score(tok: Seq<char>, title_lc: Seq<char>, artists_lc: Seq<char>) -> Option<int> {
    match (score64(tok, title_lc), score64(tok, artists_lc)) {
        (Some(a), Some(b)) => {
            let t = ((a + 25) as i64) as int;
            Some(if t >= b { t } else { b })
        },
        (Some(a), None) => Some(((a + 25) as i64) as int),
        (None, Some(b)) => Some(b),
        (None, None) => None,
    }
}

/// The sum of the first `n` token scores of a track, in 64-bit two's
/// complement; none where a token matches neither field.
pub open spec fn tokens_track_score(toks: Seq<Seq<char>>, title_lc: Seq<char>, artists_lc: Seq<char>, n: int) -> Option<int>
    decreases n,
{
    if n <= 0 {
        Some(0)
    } else {
        match (tokens_track_score(toks, title_lc, artists_lc, n - 1), track_token_score(toks[n - 1], title_lc, artists_lc)) {
            (Some(a), Some(b)) => Some(((a + b) as i64) as int),
            _ => None,
        }
    }
}

/// One token against a title and its artists over unbounded integers: the
/// title's score plus twenty-five, or the artists' score, whichever is higher.
pub open spec fn exact_track_token_score(tok: Seq<char>, title_lc: Seq<char>, artists_lc: Seq<char>) -> Option<int> {
    match (subsequence_score(tok, title_lc), subsequence_score(tok, artists_lc)) {
        (Some(a), Some(b)) => Some(if a + 25 >= b { a + 25 } else { b }),
        (Some(a), None) => Some(a + 25),
        (None, Some(b)) => Some(b),
        (None, None) => None,
    }
}

/// The sum of the first `n` token scores of a track over unbounded
/// integers; none where a token matches neither field.
pub open spec fn exact_tokens_track_score(toks: Seq<Seq<char>>, title_lc: Seq<char>, artists_lc: Seq<char>, n: int) -> Option<int>
    decreases n,
{
    if n <= 0 {
        Some(0)
    } else {
        match (exact_tokens_track_score(toks, title_lc, artists_lc, n - 1), exact_track_token_score(toks[n - 1], title_lc, artists_lc)) {
            (Some(a), Some(b)) => Some(a + b),
            _ => None,
        }
    }
}

pub open spec fn in_i64(x: int) -> bool {
    i64::MIN <= x <= i64::MAX
}

/// Whether the scores of token `k` fit in 64 bits: each field score, the
/// title score plus twenty-five, and the sum of the first `k + 1` tokens.
pub open spec fn token_scores_fit(toks: Seq<Seq<char>>, title_lc: Seq<char>, artists_lc: Seq<char>, k: int) -> bool {
    &&& (subsequence_score(toks[k], title_lc) matches Some(x) ==> in_i64(x) && in_i64(x + 25))
    &&& (subsequence_score(toks[k], artists_lc) matches Some(y) ==> in_i64(y))
    &&& (exact_tokens_track_score(toks, title_lc, artists_lc, k + 1) matches Some(v) ==> in_i64(v))
}

/// Whether every score met in summing the first `n` tokens fits in 64 bits.
pub open spec fn track_scores_fit(toks: Seq<Seq<char>>, title_lc: Seq<char>, artists_lc: Seq<char>, n: int) -> bool {
    forall|k: int| 0 <= k < n ==> #[trigger] token_scores_fit(toks, title_lc, artists_lc, k)
}

/// The 64-bit token sum of a track fails exactly where the sum over
/// unbounded integers fails, and equals it wherever every score met along
/// the way fits in 64 bits.
pub proof fn lemma_track_tokens_exact_when_fitting(toks: Seq<Seq<char>>, title_lc: Seq<char>, artists_lc: Seq<char>, n: int)
    requires
        0 <= n <= toks.len(),
    ensures
        tokens_track_score(toks, title_lc, artists_lc, n) is None <==> exact_tokens_track_score(toks, title_lc, artists_lc, n) is None,
        track_scores_fit(toks, title_lc, artists_lc, n) ==>
            tokens_track_score(toks, title_lc, artists_lc, n) == exact_tokens_track_score(toks, title_lc, artists_lc, n),
    decreases n,
{
    if n > 0 {
        lemma_track_tokens_exact_when_fitting(toks, title_lc, artists_lc, n - 1);
        if track_scores_fit(toks, title_lc, artists_lc, n) {
            assert(track_scores_fit(toks, title_lc, artists_lc, n - 1));
            let k = n - 1;
            assert(token_scores_fit(toks, title_lc, artists_lc, k));
            let tok = toks[k];
            if let Some(x) = subsequence_score(tok, title_lc) {
                assert(((x as i64) as int) == x);
                assert((((x + 25) as i64) as int) == x + 25);
            }
            if let Some(y) = subsequence_score(tok, artists_lc) {
                assert(((y as i64) as int) == y);
            }
            assert(track_token_score(tok, title_lc, artists_lc) == exact_track_token_score(tok, title_lc, artists_lc));
            if let Some(v) = exact_tokens_track_score(toks, title_lc, artists_lc, n) {
                assert(((v as i64) as int) == v);
            }
        }
    }
}

/// The sum of the first `n` token scores against one field, in 64-bit
/// two's complement; none where a token does not match.
pub open spec fn tokens_field_score(toks: Seq<Seq<char>>, field_lc: Seq<char>, n: int) -> Option<int>
    decreases n,
{
    if n <= 0 {
        Some(0)
    } else {
        match (tokens_field_score(toks, field_lc, n - 1), score64(toks[n - 1], field_lc)) {
            (Some(a), Some(b)) => Some(((a + b) as i64) as int),
            _ => None,
        }
    }
}

/// Whether a query token occurs, as an ordered subsequence, in a
/// non-empty title or in non-empty artists.
pub open spec fn token_found(tok: Seq<char>, title_lc: Seq<char>, artists_lc: Seq<char>) -> bool {
    tok.len() > 0 && ((title_lc.len() > 0 && is_subsequence(tok, title_lc))
        || (artists_lc.len() > 0 && is_subsequence(tok, artists_lc)))
}

/// Whether a query token occurs, as an ordered subsequence, in a non-empty field.
pub open spec fn token_found_in(tok: Seq<char>, field_lc: Seq<char>) -> bool {
    tok.len() > 0 && field_lc.len() > 0 && is_subsequence(tok, field_lc)
}

/// A track is scored exactly when every query token occurs in its title or
/// in its artists: a token found in the artists alone still matches.
pub proof fn lemma_track_tokens_match_iff(toks: Seq<Seq<char>>, title_lc: Seq<char>, artists_lc: Seq<char>, n: int)
    requires
        0 <= n <= toks.len(),
    ensures
        tokens_track_score(toks, title_lc, artists_lc, n) is Some
            <==> forall|k: int| 0 <= k < n ==> #[trigger] token_found(toks[k], title_lc, artists_lc),
    decreases n,
{
    if n > 0 {
        lemma_track_tokens_match_iff(toks, title_lc, artists_lc, n - 1);
        lemma_score_exists_iff_subsequence(toks[n - 1], title_lc);
        lemma_score_exists_iff_subsequence(toks[n - 1], artists_lc);
        assert(track_token_score(toks[n - 1], title_lc, artists_lc) is Some <==> token_found(toks[n - 1], title_lc, artists_lc));
        if tokens_track_score(toks, title_lc, artists_lc, n) is Some {
            assert forall|k: int| 0 <= k < n implies #[trigger] token_found(toks[k], title_lc, artists_lc) by {
                if k < n - 1 {
                    assert(token_found(toks[k], title_lc, artists_lc));
                }
            }
        }
        if forall|k: int| 0 <= k < n ==> #[trigger] token_found(toks[k], title_lc, artists_lc) {
            assert(token_found(toks[n - 1], title_lc, artists_lc));
            assert forall|k: int| 0 <= k < n - 1 implies #[trigger] token_found(toks[k], title_lc, artists_lc) by {
                assert(token_found(toks[k], title_lc, artists_lc));
            }
        }
    }
}

/// A field is scored exactly when every query token occurs in it.
pub proof fn lemma_field_tokens_match_iff(toks: Seq<Seq<char>>, field_lc: Seq<char>, n: int)
    requires
        0 <= n <= toks.len(),
    ensures
        tokens_field_score(toks, field_lc, n) is Some
            <==> forall|k: int| 0 <= k < n ==> #[trigger] token_found_in(toks[k], field_lc),
    decreases n,
{
    if n > 0 {
        lemma_field_tokens_match_iff(toks, field_lc, n - 1);
        lemma_score_exists_iff_subsequence(toks[n - 1], field_lc);
        if tokens_field_score(toks, field_lc, n) is Some {
            assert forall|k: int| 0 <= k < n implies #[trigger] token_found_in(toks[k], field_lc) by {
                if k < n - 1 {
                    assert(token_found_in(toks[k], field_lc));
                }
            }
        }
        if forall|k: int| 0 <= k < n ==> #[trigger] token_found_in(toks[k], field_lc) {
            assert(token_found_in(toks[n - 1], field_lc));
            assert forall|k: int| 0 <= k < n - 1 implies #[trigger] token_found_in(toks[k], field_lc) by {
                assert(token_found_in(toks[k], field_lc));
            }
        }
    }
}

/// Scores tokens against a track's title and artists, both lowercased.
pub fn fuzzy_score_track_tokens(tokens: &Vec<Vec<char>>, title: &str, artists: &str) -> (r: Option<i64>)
    ensures
        match tokens_track_score(views(tokens@), lowercase(title@), lowercase(artists@), tokens@.len() as int) {
            Some(s) => r matches Some(x) && x as int == s,
            None => r is None,
        },
        r is Some <==> forall|k: int| 0 <= k < tokens@.len()
            ==> #[trigger] token_found(tokens@[k]@, lowercase(title@), lowercase(artists@)),
{
    proof {
        lemma_track_tokens_match_iff(views(tokens@), lowercase(title@), lowercase(artists@), tokens@.len() as int);
        assert forall|k: int| 0 <= k < tokens@.len() implies views(tokens@)[k] == #[trigger] tokens@[k]@ by {}
    }
    let title_lc = chars_of_string(&to_lowercase(title));
    let artists_lc = chars_of_string(&to_lowercase(artists));
    let ghost toks = views(tokens@);
    let mut total: i64 = 0;
    let mut i: usize = 0;
    while i < tokens.len()
        invariant
            i <= tokens@.len(),
            toks == views(tokens@),
            title_lc@ == lowercase(title@),
            artists_lc@ == lowercase(artists@),
            tokens_track_score(toks, title_lc@, artists_lc@, i as int) == Some(total as int),
            tokens_track_score(toks, lowercase(title@), lowercase(artists@), tokens@.len() as int) is Some
                <==> forall|k: int| 0 <= k < tokens@.len()
                ==> #[trigger] token_found(tokens@[k]@, lowercase(title@), lowercase(artists@)),
        decreases tokens@.len() - i,
    {
        assert(toks[i as int] == tokens@[i as int]@);
        let ts = fuzzy_score_subsequence(&tokens[i], &title_lc);
        let as_ = fuzzy_score_subsequence(&tokens[i], &artists_lc);
        let best: i64 = match (ts, as_) {
            (Some(a), Some(b)) => {
                let t = ((a as i128) + 25) as i64;
                if t >= b { t } else { b }
            },
            (Some(a), None) => ((a as i128) + 25) as i64,
            (None, Some(b)) => b,
            (None, None) => {
                proof {
                    let mut j = i as int + 1;
                    assert(tokens_track_score(toks, title_lc@, artists_lc@, j) is None);
                    lemma_track_none_persists(toks, title_lc@, artists_lc@, j, tokens@.len() as int);
                }
                return None;
            },
        };
        assert(track_token_score(toks[i as int], title_lc@, artists_lc@) == Some(best as int));
        total = ((total as i128) + (best as i128)) as i64;
        i += 1;
    }
    Some(total)
}

proof fn lemma_track_none_persists(toks: Seq<Seq<char>>, t: Seq<char>, a: Seq<char>, j: int, n: int)
    requires
        0 < j <= n,
        tokens_track_score(toks, t, a, j) is None,
    ensures
        tokens_track_score(toks, t, a, n) is None,
    decreases n - j,
{
    if j < n {
        lemma_track_none_persists(toks, t, a, j + 1, n);
    }
}

proof fn lemma_field_none_persists(toks: Seq<Seq<char>>, f: Seq<char>, j: int, n: int)
    requires
        0 < j <= n,
        tokens_field_score(toks, f, j) is None,
    ensures
        tokens_field_score(toks, f, n) is None,
    decreases n - j,
{
    if j < n {
        lemma_field_none_persists(toks, f, j + 1, n);
    }
}

/// Scores tokens against one lowercased field.
pub fn fuzzy_score_single_field_tokens(tokens: &Vec<Vec<char>>, field: &str) -> (r: Option<i64>)
    ensures
        match tokens_field_score(views(tokens@), lowercase(field@), tokens@.len() as int) {
            Some(s) => r matches Some(x) && x as int == s,
            None => r is None,
        },
        r is Some <==> forall|k: int| 0 <= k < tokens@.len() ==> #[trigger] token_found_in(tokens@[k]@, lowercase(field@)),
{
    proof {
        lemma_field_tokens_match_iff(views(tokens@), lowercase(field@), tokens@.len() as int);
        assert forall|k: int| 0 <= k < tokens@.len() implies views(tokens@)[k] == #[trigger] tokens@[k]@ by {}
    }
    let field_lc = chars_of_string(&to_lowercase(field));
    let ghost toks = views(tokens@);
    let mut total: i64 = 0;
    let mut i: usize = 0;
    while i < tokens.len()
        invariant
            i <= tokens@.len(),
            toks == views(tokens@),
            field_lc@ == lowercase(field@),
            tokens_field_score(toks, field_lc@, i as int) == Some(total as int),
            tokens_field_score(toks, lowercase(field@), tokens@.len() as int) is Some
                <==> forall|k: int| 0 <= k < tokens@.len() ==> #[trigger] token_found_in(tokens@[k]@, lowercase(field@)),
        decreases tokens@.len() - i,
    {
        assert(toks[i as int] == tokens@[i as int]@);
        let s = match fuzzy_score_subsequence(&tokens[i], &field_lc) {
            Some(s) => s,
            None => {
                proof {
                    assert(tokens_field_score(toks, field_lc@, i as int + 1) is None);
                    lemma_field_none_persists(toks, field_lc@, i as int + 1, tokens@.len() as int);
                }
                return None;
            },
        };
        total = ((total as i128) + (s as i128)) as i64;
        i += 1;
    }
    Some(total)
}

/// `x` comes before `y` in a ranking: higher score first, then lower index.
pub open spec fn ranks_before(x: (int, int), y: (int, int)) -> bool {
    x.0 > y.0 || (x.0 == y.0 && x.1 < y.1)
}

/// `r` lists exactly the indices that have a score, best first, ties in index order.
pub open spec fn ranked(r: Seq<usize>, scores: Seq<Option<int>>) -> bool {
    &&& forall|k: int| 0 <= k < r.len() ==> (#[trigger] r[k]) < scores.len() && scores[r[k] as int] is Some
    &&& forall|i: int| 0 <= i < scores.len() && (#[trigger] scores[i]) is Some ==> r.contains(i as usize)
    &&& forall|a: int, b: int| 0 <= a < b < r.len() ==>
        ranks_before((scores[#[trigger] r[a] as int]->0, r[a] as int), (scores[#[trigger] r[b] as int]->0, r[b] as int))
}

/// The scores as integers.
pub open spec fn int_scores(s: Seq<Option<i64>>) -> Seq<Option<int>> {
    s.map_values(|o: Option<i64>| match o { Some(x) => Some(x as int), None => None })
}

/// Lists the scored indices, best first; equal scores keep index order.
pub fn rank_scores(scores: &Vec<Option<i64>>) -> (r: Vec<usize>)
    ensures
        ranked(r@, int_scores(scores@)),
{
    let ghost sc = int_scores(scores@);
    let mut pairs: Vec<(i64, usize)> = Vec::new();
    let mut i: usize = 0;
    while i < scores.len()
        invariant
            i <= scores.len(),
            sc == int_scores(scores@),
            forall|k: int| 0 <= k < pairs@.len() ==> (#[trigger] pairs@[k]).1 < i && sc[pairs@[k].1 as int] == Some(pairs@[k].0 as int),
            forall|j: int| 0 <= j < i && (#[trigger] sc[j]) is Some ==> exists|k: int| 0 <= k < pairs@.len() && #[trigger] pairs@[k].1 == j,
            forall|a: int, b: int| 0 <= a < b < pairs@.len() ==>
                ranks_before((#[trigger] pairs@[a].0 as int, pairs@[a].1 as int), (#[trigger] pairs@[b].0 as int, pairs@[b].1 as int)),
        decreases scores.len() - i,
    {
        assert(sc[i as int] == match scores@[i as int] { Some(x) => Some(x as int), None => None::<int> });
        if let Some(s) = scores[i] {
            let mut p: usize = 0;
            while p < pairs.len() && pairs[p].0 >= s
                invariant
                    p <= pairs.len(),
                    forall|k: int| 0 <= k < p ==> (#[trigger] pairs@[k]).0 >= s,
                decreases pairs.len() - p,
            {
                p += 1;
            }
            let ghost old_pairs = pairs@;
            pairs.insert(p, (s, i));
            proof {
                assert(pairs@ == old_pairs.insert(p as int, (s, i)));
                assert forall|k: int| 0 <= k < pairs@.len() implies (#[trigger] pairs@[k]).1 < i + 1 && sc[pairs@[k].1 as int] == Some(pairs@[k].0 as int) by {
                    if k < p { assert(pairs@[k] == old_pairs[k]); }
                    else if k > p { assert(pairs@[k] == old_pairs[k - 1]); }
                }
                assert forall|j: int| 0 <= j < i + 1 && (#[trigger] sc[j]) is Some implies exists|k: int| 0 <= k < pairs@.len() && #[trigger] pairs@[k].1 == j by {
                    if j == i {
                        assert(pairs@[p as int].1 == j);
                    } else {
                        let k0 = choose|k: int| 0 <= k < old_pairs.len() && #[trigger] old_pairs[k].1 == j;
                        if k0 < p {
                            assert(pairs@[k0].1 == j);
                        } else {
                            assert(pairs@[k0 + 1].1 == j);
                        }
                    }
                }
                assert forall|a: int, b: int| 0 <= a < b < pairs@.len() implies
                    ranks_before((#[trigger] pairs@[a].0 as int, pairs@[a].1 as int), (#[trigger] pairs@[b].0 as int, pairs@[b].1 as int)) by {
                    if b < p {
                        assert(pairs@[a] == old_pairs[a] && pairs@[b] == old_pairs[b]);
                    } else if b == p {
                        assert(pairs@[a] == old_pairs[a]);
                    } else if a > p {
                        assert(pairs@[a] == old_pairs[a - 1] && pairs@[b] == old_pairs[b - 1]);
                    } else if a == p {
                        assert(pairs@[b] == old_pairs[b - 1]);
                        assert(b - 1 >= p);
                        if (b - 1) as int == p as int {
                            assert(!(old_pairs[p as int].0 >= s));
                        } else {
                            assert(!(old_pairs[p as int].0 >= s));
                            assert(ranks_before((old_pairs[p as int].0 as int, old_pairs[p as int].1 as int), (old_pairs[b - 1].0 as int, old_pairs[b - 1].1 as int)));
                        }
                    } else {
                        assert(pairs@[a] == old_pairs[a] && pairs@[b] == old_pairs[b - 1]);
                    }
                }
            }
        }
        i += 1;
    }
    let mut r: Vec<usize> = Vec::new();
    let mut k: usize = 0;
    while k < pairs.len()
        invariant
            k <= pairs.len(),
            r@.len() == k,
            forall|j: int| 0 <= j < k ==> #[trigger] r@[j] == pairs@[j].1,
        decreases pairs.len() - k,
    {
        r.push(pairs[k].1);
        k += 1;
    }
    proof {
        assert forall|j: int| 0 <= j < sc.len() && (#[trigger] sc[j]) is Some implies r@.contains(j as usize) by {
            let k0 = choose|k: int| 0 <= k < pairs@.len() && #[trigger] pairs@[k].1 == j;
            assert(r@[k0] == j as usize);
        }
        assert forall|a: int, b: int| 0 <= a < b < r@.len() implies
            ranks_before((sc[#[trigger] r@[a] as int]->0, r@[a] as int), (sc[#[trigger] r@[b] as int]->0, r@[b] as int)) by {
            assert(ranks_before((pairs@[a].0 as int, pairs@[a].1 as int), (pairs@[b].0 as int, pairs@[b].1 as int)));
        }
    }
    r
}

/// The tokens of a search query: the words of the trimmed, lowercased query.
pub open spec fn query_tokens(query: Seq<char>) -> Seq<Seq<char>> {
    words(lowercase(trimmed(query)))
}

/// The score of every item of the list that a library section filters.
pub open spec fn match_scores(
    selected_subtab: usize,
    toks: Seq<Seq<char>>,
    likes: Seq<Track>,
    playlist_tracks: Seq<Track>,
    albums: Seq<Album>,
    following: Seq<Artist>,
) -> Seq<Option<int>> {
    let n = toks.len() as int;
    if selected_subtab == 0 {
        Seq::new(likes.len(), |i: int| tokens_track_score(toks, lowercase(likes[i].title@), lowercase(likes[i].artists@), n))
    } else if selected_subtab == 1 {
        Seq::new(playlist_tracks.len(), |i: int| tokens_track_score(toks, lowercase(playlist_tracks[i].title@), lowercase(playlist_tracks[i].artists@), n))
    } else if selected_subtab == 2 {
        Seq::new(albums.len(), |i: int| tokens_track_score(toks, lowercase(albums[i].title@), lowercase(albums[i].artists@), n))
    } else if selected_subtab == 3 {
        Seq::new(following.len(), |i: int| tokens_field_score(toks, lowercase(following[i].name@), n))
    } else {
        Seq::empty()
    }
}

/// Whether item `i` of the current library section holds every query
/// token: a liked track, playlist track or album in its title or artists, a
/// followed user in the name.
pub open spec fn section_item_found(
    selected_subtab: usize,
    toks: Seq<Seq<char>>,
    likes: Seq<Track>,
    playlist_tracks: Seq<Track>,
    albums: Seq<Album>,
    following: Seq<Artist>,
    i: int,
) -> bool {
    if selected_subtab == 0 {
        0 <= i < likes.len() && forall|k: int| 0 <= k < toks.len()
            ==> #[trigger] token_found(toks[k], lowercase(likes[i].title@), lowercase(likes[i].artists@))
    } else if selected_subtab == 1 {
        0 <= i < playlist_tracks.len() && forall|k: int| 0 <= k < toks.len()
            ==> #[trigger] token_found(toks[k], lowercase(playlist_tracks[i].title@), lowercase(playlist_tracks[i].artists@))
    } else if selected_subtab == 2 {
        0 <= i < albums.len() && forall|k: int| 0 <= k < toks.len()
            ==> #[trigger] token_found(toks[k], lowercase(albums[i].title@), lowercase(albums[i].artists@))
    } else if selected_subtab == 3 {
        0 <= i < following.len() && forall|k: int| 0 <= k < toks.len()
            ==> #[trigger] token_found_in(toks[k], lowercase(following[i].name@))
    } else {
        false
    }
}

/// A ranking of the section's scores lists exactly the items that hold
/// every query token.
pub proof fn lemma_ranked_matches_are_found_items(
    r: Seq<usize>,
    selected_subtab: usize,
    toks: Seq<Seq<char>>,
    likes: Seq<Track>,
    playlist_tracks: Seq<Track>,
    albums: Seq<Album>,
    following: Seq<Artist>,
)
    requires
        ranked(r, match_scores(selected_subtab, toks, likes, playlist_tracks, albums, following)),
    ensures
        forall|i: usize| r.contains(i)
            <==> #[trigger] section_item_found(selected_subtab, toks, likes, playlist_tracks, albums, following, i as int),
{
    let scores = match_scores(selected_subtab, toks, likes, playlist_tracks, albums, following);
    let n = toks.len() as int;
    assert forall|i: usize| r.contains(i)
        <==> #[trigger] section_item_found(selected_subtab, toks, likes, playlist_tracks, albums, following, i as int) by {
        let ii = i as int;
        if ii < scores.len() {
            if selected_subtab == 0 {
                lemma_track_tokens_match_iff(toks, lowercase(likes[ii].title@), lowercase(likes[ii].artists@), n);
            } else if selected_subtab == 1 {
                lemma_track_tokens_match_iff(toks, lowercase(playlist_tracks[ii].title@), lowercase(playlist_tracks[ii].artists@), n);
            } else if selected_subtab == 2 {
                lemma_track_tokens_match_iff(toks, lowercase(albums[ii].title@), lowercase(albums[ii].artists@), n);
            } else if selected_subtab == 3 {
                lemma_field_tokens_match_iff(toks, lowercase(following[ii].name@), n);
            }
            assert(scores[ii] is Some <==> section_item_found(selected_subtab, toks, likes, playlist_tracks, albums, following, ii));
            if r.contains(i) {
                let k = choose|k: int| 0 <= k < r.len() && r[k] == i;
                assert(scores[r[k] as int] is Some);
            }
        } else {
            if r.contains(i) {
                let k = choose|k: int| 0 <= k < r.len() && r[k] == i;
                assert(r[k] < scores.len());
            }
        }
    }
}

/// The items of the current library section that match a find query, best
/// match first: liked tracks and playlist tracks by title and artists,
/// albums by title and artists, followed users by name. A query without
/// words matches nothing.
pub fn build_search_matches(
    selected_subtab: usize,
    query: &str,
    likes: &Vec<Track>,
    playlists: &Vec<Playlist>,
    playlist_tracks: &Vec<Track>,
    albums: &Vec<Album>,
    following: &Vec<Artist>,
) -> (r: Vec<usize>)
    ensures
        ({
            let toks = query_tokens(query@);
            &&& toks.len() == 0 ==> r@.len() == 0
            &&& toks.len() > 0 ==> ranked(r@, match_scores(selected_subtab, toks, likes@, playlist_tracks@, albums@, following@))
        }),
        trimmed(query@).len() == 0 ==> r@.len() == 0,
        selected_subtab > 3 ==> r@.len() == 0,
        query_tokens(query@).len() > 0 ==> forall|i: usize| r@.contains(i) <==> #[trigger] section_item_found(
            selected_subtab, query_tokens(query@), likes@, playlist_tracks@, albums@, following@, i as int),
{
    let trimmed_query = string_of(&trim_chars(&chars_of(query)));
    let lowered = chars_of_string(&to_lowercase(trimmed_query.as_str()));
    let tokens = split_words(&lowered);
    let ghost toks = views(tokens@);
    if lowered.len() == 0 {
        assert(words(lowered@) =~= Seq::<Seq<char>>::empty());
    }
    assert(toks == query_tokens(query@));
    assert(toks.len() == tokens@.len());
    if tokens.len() == 0 {
        return Vec::new();
    }
    let ghost expected = match_scores(selected_subtab, toks, likes@, playlist_tracks@, albums@, following@);
    let n: usize = if selected_subtab == 0 {
        likes.len()
    } else if selected_subtab == 1 {
        playlist_tracks.len()
    } else if selected_subtab == 2 {
        albums.len()
    } else if selected_subtab == 3 {
        following.len()
    } else {
        0
    };
    let mut scores: Vec<Option<i64>> = Vec::new();
    let mut i: usize = 0;
    while i < n
        invariant
            i <= n,
            n == expected.len(),
            0 < tokens@.len(),
            toks == views(tokens@),
            expected == match_scores(selected_subtab, toks, likes@, playlist_tracks@, albums@, following@),
            n == (if selected_subtab == 0 { likes@.len() } else if selected_subtab == 1 { playlist_tracks@.len() }
                else if selected_subtab == 2 { albums@.len() } else if selected_subtab == 3 { following@.len() } else { 0 }),
            scores@.len() == i,
            forall|j: int| 0 <= j < i ==> #[trigger] int_scores(scores@)[j] == expected[j],
        decreases n - i,
    {
        let sc = if selected_subtab == 0 {
            fuzzy_score_track_tokens(&tokens, likes[i].title.as_str(), likes[i].artists.as_str())
        } else if selected_subtab == 1 {
            fuzzy_score_track_tokens(&tokens, playlist_tracks[i].title.as_str(), playlist_tracks[i].artists.as_str())
        } else if selected_subtab == 2 {
            fuzzy_score_track_tokens(&tokens, albums[i].title.as_str(), albums[i].artists.as_str())
        } else {
            fuzzy_score_single_field_tokens(&tokens, following[i].name.as_str())
        };
        let ghost before = scores@;
        let ghost new_score: Option<int> = match sc { Some(x) => Some(x as int), None => None };
        assert(new_score == expected[i as int]);
        scores.push(sc);
        i += 1;
        assert forall|j: int| 0 <= j < i implies #[trigger] int_scores(scores@)[j] == expected[j] by {
            assert(int_scores(scores@)[j] == match scores@[j] { Some(x) => Some(x as int), None => None::<int> });
            if j < i - 1 {
                assert(scores@[j] == before[j]);
                assert(int_scores(before)[j] == match before[j] { Some(x) => Some(x as int), None => None::<int> });
            }
        }
    }
    assert(int_scores(scores@) =~= expected);
    let _ = playlists;
    let r = rank_scores(&scores);
    if selected_subtab > 3 && r.len() > 0 {
        assert(r@[0] < expected.len());
    }
    proof { lemma_ranked_matches_are_found_items(r@, selected_subtab, toks, likes@, playlist_tracks@, albums@, following@); }
    r
}

} // verus!
