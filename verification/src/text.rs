use vstd::prelude::*;

verus! {

broadcast use vstd::string::group_string_axioms;

/// Appends one character to a string (`String::push`).
#[verifier::external_body]
pub(crate) fn push_char(s: &mut String, c: char)
    ensures
        final(s)@ == old(s)@.push(c),
{
    s.push(c);
}

/// The characters of a string slice, in order.
pub fn chars_of(s: &str) -> (v: Vec<char>)
    ensures
        v@ == s@,
{
    let mut it = s.chars();
    let mut v: Vec<char> = Vec::new();
    loop
        invariant
            vstd::std_specs::iter::IteratorSpec::obeys_prophetic_iter_laws(&it),
            v@ + vstd::std_specs::iter::IteratorSpec::remaining(&it) == s@,
            vstd::std_specs::iter::IteratorSpec::decrease(&it) is Some,
        decreases vstd::std_specs::iter::IteratorSpec::decrease(&it)->0,
    {
        match it.next() {
            Some(c) => {
                v.push(c);
                assert(v@ + vstd::std_specs::iter::IteratorSpec::remaining(&it) =~= s@);
            },
            None => {
                assert(v@ =~= s@);
                return v;
            },
        }
    }
}

/// Builds a string from characters.
pub fn string_of(v: &Vec<char>) -> (s: String)
    ensures
        s@ == v@,
{
    let mut s = String::new();
    let mut i: usize = 0;
    while i < v.len()
        invariant
            i <= v.len(),
            s@ == v@.take(i as int),
        decreases v.len() - i,
    {
        push_char(&mut s, v[i]);
        i = i + 1;
        assert(s@ =~= v@.take(i as int));
    }
    assert(v@.take(i as int) =~= v@);
    s
}

} // verus!

verus! {

/// The characters of an owned string.
pub fn chars_of_string(s: &String) -> (v: Vec<char>)
    ensures
        v@ == s@,
{
    chars_of(s.as_str())
}

pub open spec fn is_digit(c: char) -> bool {
    '0' <= c && c <= '9'
}

pub open spec fn digit_value(c: char) -> nat {
    (c as u32 - '0' as u32) as nat
}

pub open spec fn digit_char(d: nat) -> char
    recommends
        d < 10,
{
    if d == 0 {
        '0'
    } else if d == 1 {
        '1'
    } else if d == 2 {
        '2'
    } else if d == 3 {
        '3'
    } else if d == 4 {
        '4'
    } else if d == 5 {
        '5'
    } else if d == 6 {
        '6'
    } else if d == 7 {
        '7'
    } else if d == 8 {
        '8'
    } else {
        '9'
    }
}

/// Decimal notation of a natural number, without leading zeros.
pub open spec fn decimal(n: nat) -> Seq<char>
    decreases n,
{
    if n < 10 {
        seq![digit_char(n)]
    } else {
        decimal(n / 10).push(digit_char(n % 10))
    }
}

/// Decimal notation padded with zeros to at least two digits (`{:02}`).
pub open spec fn decimal2(n: nat) -> Seq<char> {
    if n < 10 {
        seq!['0', digit_char(n)]
    } else {
        decimal(n)
    }
}

pub open spec fn all_digits(s: Seq<char>) -> bool {
    forall|i: int| 0 <= i < s.len() ==> is_digit(#[trigger] s[i])
}

/// Value of a run of decimal digits.
pub open spec fn digits_value(s: Seq<char>) -> nat
    decreases s.len(),
{
    if s.len() == 0 {
        0
    } else {
        digits_value(s.drop_last()) * 10 + digit_value(s.last())
    }
}

/// What `str::parse::<u64>` gives: an optional `+`, then at least one
/// decimal digit, and a value that fits in 64 bits.
pub open spec fn parse_u64_spec(s: Seq<char>) -> Option<u64> {
    let body = if s.len() > 0 && s[0] == '+' {
        s.drop_first()
    } else {
        s
    };
    if body.len() > 0 && all_digits(body) && digits_value(body) <= u64::MAX {
        Some(digits_value(body) as u64)
    } else {
        None
    }
}

pub fn digit_to_char(d: u64) -> (c: char)
    requires
        d < 10,
    ensures
        c == digit_char(d as nat),
{
    if d == 0 {
        '0'
    } else if d == 1 {
        '1'
    } else if d == 2 {
        '2'
    } else if d == 3 {
        '3'
    } else if d == 4 {
        '4'
    } else if d == 5 {
        '5'
    } else if d == 6 {
        '6'
    } else if d == 7 {
        '7'
    } else if d == 8 {
        '8'
    } else {
        '9'
    }
}

/// Decimal digits of `n`, most significant first.
pub fn decimal_chars(n: u64) -> (v: Vec<char>)
    ensures
        v@ == decimal(n as nat),
    decreases n,
{
    if n < 10 {
        let mut v: Vec<char> = Vec::new();
        v.push(digit_to_char(n));
        assert(v@ =~= decimal(n as nat));
        v
    } else {
        let mut v = decimal_chars(n / 10);
        v.push(digit_to_char(n % 10));
        v
    }
}

/// `n.to_string()`.
pub fn u64_to_string(n: u64) -> (s: String)
    ensures
        s@ == decimal(n as nat),
{
    let v = decimal_chars(n);
    string_of(&v)
}

/// Appends the characters of `v` to `s`.
pub fn push_all(s: &mut String, v: &Vec<char>)
    ensures
        final(s)@ == old(s)@ + v@,
{
    let ghost start = s@;
    let mut i: usize = 0;
    while i < v.len()
        invariant
            i <= v.len(),
            s@ == start + v@.take(i as int),
        decreases v.len() - i,
    {
        push_char(s, v[i]);
        i = i + 1;
        assert(s@ =~= start + v@.take(i as int));
    }
    assert(v@.take(i as int) =~= v@);
}

/// Appends the characters of `t` to `s`.
pub fn push_str(s: &mut String, t: &str)
    ensures
        final(s)@ == old(s)@ + t@,
{
    let v = chars_of(t);
    push_all(s, &v);
}

/// Appends `n` in `{:02}` notation.
pub fn push_decimal2(s: &mut String, n: u64)
    ensures
        final(s)@ == old(s)@ + decimal2(n as nat),
{
    if n < 10 {
        push_char(s, '0');
        push_char(s, digit_to_char(n));
        assert(final(s)@ =~= old(s)@ + decimal2(n as nat)) by {
            assert(decimal2(n as nat) =~= seq!['0', digit_char(n as nat)]);
        }
    } else {
        let v = decimal_chars(n);
        push_all(s, &v);
    }
}

proof fn lemma_digits_value_push(s: Seq<char>, c: char)
    ensures
        digits_value(s.push(c)) == digits_value(s) * 10 + digit_value(c),
{
    assert(s.push(c).drop_last() =~= s);
}

proof fn lemma_digits_value_monotone(s: Seq<char>, i: int)
    requires
        all_digits(s),
        0 <= i <= s.len(),
    ensures
        digits_value(s.take(i)) <= digits_value(s),
    decreases s.len() - i,
{
    if i < s.len() {
        lemma_digits_value_monotone(s, i + 1);
        assert(s.take(i + 1) =~= s.take(i).push(s[i]));
        lemma_digits_value_push(s.take(i), s[i]);
    } else {
        assert(s.take(i) =~= s);
    }
}

/// `str::parse::<u64>` over a character sequence.
pub fn parse_u64_chars(v: &Vec<char>) -> (r: Option<u64>)
    ensures
        r == parse_u64_spec(v@),
{
    let start: usize = if v.len() > 0 && v[0] == '+' { 1 } else { 0 };
    let ghost body = if v@.len() > 0 && v@[0] == '+' { v@.drop_first() } else { v@ };
    assert(body =~= v@.skip(start as int));
    if start >= v.len() {
        return None;
    }
    let mut value: u64 = 0;
    let mut i: usize = start;
    while i < v.len()
        invariant
            start <= i <= v.len(),
            body == v@.skip(start as int),
            body == (if v@.len() > 0 && v@[0] == '+' { v@.drop_first() } else { v@ }),
            all_digits(v@.subrange(start as int, i as int)),
            value as nat == digits_value(v@.subrange(start as int, i as int)),
        decreases v.len() - i,
    {
        let c = v[i];
        if !('0' <= c && c <= '9') {
            proof {
                assert(body[i - start] == v@[i as int]);
                assert(!is_digit(body[i - start]));
                assert(!all_digits(body));
                assert(parse_u64_spec(v@) is None);
            }
            return None;
        }
        let d: u64 = (c as u32 - '0' as u32) as u64;
        proof {
            assert(v@.subrange(start as int, i + 1) =~= v@.subrange(start as int, i as int).push(c));
            lemma_digits_value_push(v@.subrange(start as int, i as int), c);
        }
        match value.checked_mul(10) {
            Some(m) => match m.checked_add(d) {
                Some(a) => {
                    value = a;
                },
                None => {
                    proof {
                        if all_digits(body) {
                            assert(body.take(i + 1 - start) =~= v@.subrange(start as int, i + 1));
                            lemma_digits_value_monotone(body, i + 1 - start);
                            assert(digits_value(body) > u64::MAX);
                        }
                        assert(parse_u64_spec(v@) is None);
                    }
                    return None;
                },
            },
            None => {
                proof {
                    if all_digits(body) {
                        assert(body.take(i + 1 - start) =~= v@.subrange(start as int, i + 1));
                        lemma_digits_value_monotone(body, i + 1 - start);
                        assert(digits_value(body) > u64::MAX);
                    }
                    assert(parse_u64_spec(v@) is None);
                }
                return None;
            },
        }
        i = i + 1;
    }
    assert(v@.subrange(start as int, i as int) =~= body);
    Some(value)
}

} // verus!

verus! {

pub open spec fn lower_ascii(c: char) -> char {
    if 'A' <= c && c <= 'Z' {
        ((c as u32) + 32) as char
    } else {
        c
    }
}

pub open spec fn upper_ascii(c: char) -> char {
    if 'a' <= c && c <= 'z' {
        ((c as u32) - 32) as char
    } else {
        c
    }
}

/// `str::to_ascii_lowercase`.
pub open spec fn ascii_lower(s: Seq<char>) -> Seq<char> {
    s.map_values(|c: char| lower_ascii(c))
}

/// `str::to_ascii_uppercase`.
pub open spec fn ascii_upper(s: Seq<char>) -> Seq<char> {
    s.map_values(|c: char| upper_ascii(c))
}

pub open spec fn seq_starts_with(s: Seq<char>, prefix: Seq<char>) -> bool {
    prefix.len() <= s.len() && s.take(prefix.len() as int) == prefix
}

pub open spec fn seq_contains(s: Seq<char>, needle: Seq<char>) -> bool {
    exists|i: int| 0 <= i && i + needle.len() <= s.len() && #[trigger] s.subrange(i, i + needle.len()) == needle
}

pub fn lower_char(c: char) -> (r: char)
    ensures
        r == lower_ascii(c),
{
    if 'A' <= c && c <= 'Z' {
        let b: u8 = (c as u32 + 32) as u8;
        let r = b as char;
        assert(r == lower_ascii(c)) by {
            assert((c as u32) + 32 < 128);
        }
        r
    } else {
        c
    }
}

pub fn upper_char(c: char) -> (r: char)
    ensures
        r == upper_ascii(c),
{
    if 'a' <= c && c <= 'z' {
        let b: u8 = (c as u32 - 32) as u8;
        b as char
    } else {
        c
    }
}

pub fn to_ascii_lower(v: &Vec<char>) -> (r: Vec<char>)
    ensures
        r@ == ascii_lower(v@),
{
    let mut r: Vec<char> = Vec::new();
    let mut i: usize = 0;
    while i < v.len()
        invariant
            i <= v.len(),
            r@ == ascii_lower(v@.take(i as int)),
        decreases v.len() - i,
    {
        r.push(lower_char(v[i]));
        i = i + 1;
        assert(r@ =~= ascii_lower(v@.take(i as int)));
    }
    assert(v@.take(i as int) =~= v@);
    r
}

pub fn to_ascii_upper(v: &Vec<char>) -> (r: Vec<char>)
    ensures
        r@ == ascii_upper(v@),
{
    let mut r: Vec<char> = Vec::new();
    let mut i: usize = 0;
    while i < v.len()
        invariant
            i <= v.len(),
            r@ == ascii_upper(v@.take(i as int)),
        decreases v.len() - i,
    {
        r.push(upper_char(v[i]));
        i = i + 1;
        assert(r@ =~= ascii_upper(v@.take(i as int)));
    }
    assert(v@.take(i as int) =~= v@);
    r
}

/// Whether `a[start..start + b.len()]` equals `b`.
pub fn matches_at(a: &Vec<char>, start: usize, b: &Vec<char>) -> (r: bool)
    requires
        start + b.len() <= a.len(),
    ensures
        r == (a@.subrange(start as int, start + b.len()) == b@),
{
    let mut j: usize = 0;
    while j < b.len()
        invariant
            j <= b.len(),
            start + b.len() <= a.len(),
            a@.subrange(start as int, start + j) == b@.take(j as int),
        decreases b.len() - j,
    {
        if a[start + j] != b[j] {
            assert(a@.subrange(start as int, start + b.len())[j as int] != b@[j as int]);
            return false;
        }
        j = j + 1;
        assert(a@.subrange(start as int, start + j) =~= b@.take(j as int));
    }
    assert(b@.take(j as int) =~= b@);
    true
}

pub fn vec_eq(a: &Vec<char>, b: &Vec<char>) -> (r: bool)
    ensures
        r == (a@ == b@),
{
    if a.len() != b.len() {
        return false;
    }
    let r = matches_at(a, 0, b);
    assert(a@.subrange(0, b@.len() as int) =~= a@);
    r
}

pub fn starts_with(a: &Vec<char>, prefix: &Vec<char>) -> (r: bool)
    ensures
        r == seq_starts_with(a@, prefix@),
{
    if prefix.len() > a.len() {
        return false;
    }
    let r = matches_at(a, 0, prefix);
    assert(a@.subrange(0, prefix@.len() as int) =~= a@.take(prefix@.len() as int));
    r
}

pub fn contains_seq(a: &Vec<char>, needle: &Vec<char>) -> (r: bool)
    ensures
        r == seq_contains(a@, needle@),
{
    if needle.len() > a.len() {
        return false;
    }
    let last = a.len() - needle.len();
    let mut i: usize = 0;
    loop
        invariant
            last + needle.len() == a.len(),
            i <= last,
            forall|k: int| 0 <= k < i ==> #[trigger] a@.subrange(k, k + needle.len()) != needle@,
        decreases last - i,
    {
        if matches_at(a, i, needle) {
            return true;
        }
        if i == last {
            return false;
        }
        i = i + 1;
    }
}

/// Equality of a character vector with a string slice.
pub fn eq_str(a: &Vec<char>, b: &str) -> (r: bool)
    ensures
        r == (a@ == b@),
{
    let bv = chars_of(b);
    vec_eq(a, &bv)
}

/// Whether two texts are equal.
pub fn str_eq(a: &str, b: &str) -> (r: bool)
    ensures
        r == (a@ == b@),
{
    let av = chars_of(a);
    let bv = chars_of(b);
    vec_eq(&av, &bv)
}

} // verus!
