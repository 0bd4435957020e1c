use vstd::prelude::*;

use crate::text::{chars_of, chars_of_string, vec_eq};

verus! {

/// A JSON document as the SoundCloud API returns it. A number keeps what the
/// library reads of it: its value when it is a non-negative integer that fits
/// in 64 bits, `None` for any other number.
pub enum Json {
    Null,
    Bool(bool),
    Number(Option<u64>),
    Str(String),
    Array(Vec<Json>),
    Object(Vec<(String, Json)>),
}

/// The value of the first member named `key`, if any.
pub open spec fn first_member(fields: Seq<(String, Json)>, key: Seq<char>) -> Option<Json>
    decreases fields.len(),
{
    if fields.len() == 0 {
        None
    } else if fields[0].0@ == key {
        Some(fields[0].1)
    } else {
        first_member(fields.drop_first(), key)
    }
}

impl Json {
    /// Member lookup; anything that is not an object has no members.
    pub open spec fn member(self, key: Seq<char>) -> Option<Json> {
        match self {
            Json::Object(fields) => first_member(fields@, key),
            _ => None,
        }
    }

    pub fn get(&self, key: &str) -> (r: Option<&Json>)
        ensures
            match r {
                Some(v) => self.member(key@) == Some(*v),
                None => self.member(key@) is None,
            },
    {
        match self {
            Json::Object(fields) => {
                let k = chars_of(key);
                let mut i: usize = 0;
                assert(fields@.skip(0) =~= fields@);
                while i < fields.len()
                    invariant
                        i <= fields.len(),
                        first_member(fields@, key@) == first_member(fields@.skip(i as int), key@),
                        k@ == key@,
                        self.member(key@) == first_member(fields@, key@),
                    decreases fields.len() - i,
                {
                    let name = chars_of_string(&fields[i].0);
                    assert(fields@.skip(i as int).drop_first() =~= fields@.skip(i + 1));
                    assert(fields@.skip(i as int)[0] == fields@[i as int]);
                    let same = vec_eq(&name, &k);
                    proof {
                        let rest = fields@.skip(i as int);
                        assert(rest.len() > 0);
                        assert(rest[0].0@ == name@);
                        if same {
                            assert(first_member(rest, key@) == Some(rest[0].1));
                        } else {
                            assert(first_member(rest, key@) == first_member(rest.drop_first(), key@));
                        }
                    }
                    if same {
                        return Some(&fields[i].1);
                    }
                    i = i + 1;
                }
                None
            },
            _ => None,
        }
    }

    pub open spec fn text(self) -> Option<Seq<char>> {
        match self {
            Json::Str(s) => Some(s@),
            _ => None,
        }
    }
}

/// `obj.get(key).and_then(as_str).unwrap_or("")`.
pub open spec fn str_field(obj: Json, key: Seq<char>) -> Seq<char> {
    match obj.member(key) {
        Some(Json::Str(s)) => s@,
        _ => Seq::empty(),
    }
}

/// `obj.get(key).and_then(as_u64).unwrap_or(0)`.
pub open spec fn u64_field(obj: Json, key: Seq<char>) -> u64 {
    match obj.member(key) {
        Some(Json::Number(Some(n))) => n,
        _ => 0,
    }
}

/// `obj.get(key).and_then(as_bool).unwrap_or(false)`.
pub open spec fn bool_field(obj: Json, key: Seq<char>) -> bool {
    match obj.member(key) {
        Some(Json::Bool(b)) => b,
        _ => false,
    }
}

/// The string member `key` of `obj`, or an empty string.
pub fn parse_str(obj: &Json, key: &str) -> (r: String)
    ensures
        r@ == str_field(*obj, key@),
{
    match obj.get(key) {
        Some(Json::Str(s)) => s.clone(),
        _ => String::new(),
    }
}

/// The non-negative integer member `key` of `obj`, or 0.
pub fn parse_u64(obj: &Json, key: &str) -> (r: u64)
    ensures
        r == u64_field(*obj, key@),
{
    match obj.get(key) {
        Some(Json::Number(Some(n))) => *n,
        _ => 0,
    }
}

/// The boolean member `key` of `obj`, or false.
pub fn parse_bool(obj: &Json, key: &str) -> (r: bool)
    ensures
        r == bool_field(*obj, key@),
{
    match obj.get(key) {
        Some(Json::Bool(b)) => *b,
        _ => false,
    }
}

/// Moves the value of the first member named `key` out of an object;
/// anything that is not an object has no members.
pub fn take_member(obj: Json, key: &str) -> (r: Option<Json>)
    ensures
        r == obj.member(key@),
{
    let ghost whole = obj;
    let o = obj;
    match o {
        Json::Object(fields) => {
            let mut fields = fields;
            let ghost fs = fields@;
            let k = chars_of(key);
            let mut i: usize = 0;
            assert(fields@.skip(0) =~= fields@);
            while i < fields.len()
                invariant
                    i <= fields.len(),
                    fields@ == fs,
                    whole == obj,
                    whole.member(key@) == first_member(fs, key@),
                    first_member(fs, key@) == first_member(fs.skip(i as int), key@),
                    k@ == key@,
                decreases fields.len() - i,
            {
                let name = chars_of_string(&fields[i].0);
                assert(fs.skip(i as int).drop_first() =~= fs.skip(i + 1));
                assert(fs.skip(i as int)[0] == fs[i as int]);
                let same = vec_eq(&name, &k);
                proof {
                    let rest = fs.skip(i as int);
                    assert(rest.len() > 0);
                    assert(rest[0].0@ == name@);
                    if same {
                        assert(first_member(rest, key@) == Some(rest[0].1));
                    } else {
                        assert(first_member(rest, key@) == first_member(rest.drop_first(), key@));
                    }
                }
                if same {
                    let (_name, value) = fields.remove(i);
                    return Some(value);
                }
                i = i + 1;
            }
            None
        },
        _ => None,
    }
}

/// The string member `next_href` of a paginated response, if present.
pub fn parse_next_href(resp: &Json) -> (r: Option<String>)
    ensures
        match r {
            Some(s) => resp.member("next_href"@) == Some(Json::Str(s)) || (resp.member("next_href"@) matches Some(Json::Str(t)) && t@ == s@),
            None => !(resp.member("next_href"@) matches Some(Json::Str(_))),
        },
{
    match resp.get("next_href") {
        Some(Json::Str(s)) => Some(s.clone()),
        _ => None,
    }
}

} // verus!
