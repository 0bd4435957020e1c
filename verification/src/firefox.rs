use vstd::prelude::*;

use crate::text::{chars_of, push_str, str_eq, string_of};
use crate::token::Token;

verus! {

/// `base` joined with a relative path, as `Path::join` does on Unix: a
/// separator goes between them unless `base` is empty or already ends with one.
pub open spec fn join_path(base: Seq<char>, rel: Seq<char>) -> Seq<char> {
    if base.len() == 0 {
        rel
    } else if base.last() == '/' {
        base + rel
    } else {
        base + seq!['/'] + rel
    }
}

/// Joins a relative path onto a base path.
pub fn path_join(base: &str, rel: &str) -> (r: String)
    ensures
        r@ == join_path(base@, rel@),
{
    let b = chars_of(base);
    let mut r = String::new();
    push_str(&mut r, base);
    if b.len() > 0 && b[b.len() - 1] != '/' {
        push_str(&mut r, "/");
    }
    push_str(&mut r, rel);
    proof {
        reveal_strlit("/");
    }
    assert(r@ =~= join_path(base@, rel@));
    r
}

/// Where Firefox keeps its profiles: on macOS under the home directory's
/// Application Support, on Windows under the roaming application data, and
/// elsewhere in the standard, Snap and Flatpak locations under home. Without
/// the directory the location needs, there is none.
pub open spec fn profile_roots(operating_system: Seq<char>, home: Option<Seq<char>>, appdata: Option<Seq<char>>) -> Seq<Seq<char>> {
    if operating_system == "macos"@ {
        match home {
            Some(h) => seq![join_path(h, "Library/Application Support/Firefox/Profiles"@)],
            None => Seq::empty(),
        }
    } else if operating_system == "windows"@ {
        match appdata {
            Some(a) => seq![join_path(a, "Mozilla/Firefox/Profiles"@)],
            None => Seq::empty(),
        }
    } else {
        match home {
            Some(h) => seq![
                join_path(h, ".mozilla/firefox"@),
                join_path(h, "snap/firefox/common/.mozilla/firefox"@),
                join_path(h, ".var/app/org.mozilla.firefox/.mozilla/firefox"@),
            ],
            None => Seq::empty(),
        }
    }
}

/// The texts of a list of strings.
pub open spec fn string_views(v: Seq<String>) -> Seq<Seq<char>> {
    v.map_values(|s: String| s@)
}

/// Maps supported operating systems to Firefox-family profile roots without
/// reading process-global state.
pub fn firefox_profile_roots(operating_system: &str, home: Option<&str>, appdata: Option<&str>) -> (r: Vec<String>)
    ensures
        string_views(r@) == profile_roots(operating_system@, match home { Some(h) => Some(h@), None => None },
            match appdata { Some(a) => Some(a@), None => None }),
{
    let mut r: Vec<String> = Vec::new();
    if str_eq(operating_system, "macos") {
        if let Some(h) = home {
            r.push(path_join(h, "Library/Application Support/Firefox/Profiles"));
        }
    } else if str_eq(operating_system, "windows") {
        if let Some(a) = appdata {
            r.push(path_join(a, "Mozilla/Firefox/Profiles"));
        }
    } else {
        if let Some(h) = home {
            r.push(path_join(h, ".mozilla/firefox"));
            r.push(path_join(h, "snap/firefox/common/.mozilla/firefox"));
            r.push(path_join(h, ".var/app/org.mozilla.firefox/.mozilla/firefox"));
        }
    }
    assert(string_views(r@) =~= profile_roots(operating_system@, match home { Some(h) => Some(h@), None => None },
        match appdata { Some(a) => Some(a@), None => None }));
    r
}

/// The components of a Unix path: the texts between separators, without
/// empty ones and without `.`.
pub open spec fn components_from(s: Seq<char>, i: int, cur: Seq<char>) -> Seq<Seq<char>>
    decreases s.len() - i,
{
    let keep = |c: Seq<char>| if c.len() == 0 || c == seq!['.'] { Seq::<Seq<char>>::empty() } else { seq![c] };
    if i >= s.len() || i < 0 {
        keep(cur)
    } else if s[i] == '/' {
        keep(cur) + components_from(s, i + 1, Seq::empty())
    } else {
        components_from(s, i + 1, cur.push(s[i]))
    }
}

pub open spec fn path_components(s: Seq<char>) -> Seq<Seq<char>> {
    components_from(s, 0, Seq::empty())
}

/// The profile a cookie database belongs to: the name of the directory that
/// holds it (`Path::parent` then `Path::file_name`), none where that is `..`
/// or there is no such directory.
pub open spec fn profile_of(path: Seq<char>) -> Option<Seq<char>> {
    let c = path_components(path);
    if c.len() >= 2 && c[c.len() - 2] != seq!['.', '.'] { Some(c[c.len() - 2]) } else { None }
}

/// The views of a list of character vectors.
pub open spec fn vec_views(v: Seq<Vec<char>>) -> Seq<Seq<char>> {
    v.map_values(|w: Vec<char>| w@)
}

fn components(s: &Vec<char>) -> (r: Vec<Vec<char>>)
    ensures
        vec_views(r@) == path_components(s@),
{
    let mut out: Vec<Vec<char>> = Vec::new();
    let mut cur: Vec<char> = Vec::new();
    let mut i: usize = 0;
    while i < s.len()
        invariant
            i <= s.len(),
            vec_views(out@) + components_from(s@, i as int, cur@) == path_components(s@),
        decreases s.len() - i,
    {
        if s[i] == '/' {
            let ghost before = vec_views(out@);
            let ghost cv = cur@;
            let keep = cur.len() > 0 && !(cur.len() == 1 && cur[0] == '.');
            if keep {
                out.push(cur);
                assert(vec_views(out@) =~= before.push(cv));
                assert(cv != seq!['.']);
                assert(before.push(cv) + components_from(s@, i + 1, Seq::empty()) =~= before + (seq![cv] + components_from(s@, i + 1, Seq::empty())));
            } else {
                assert(cv.len() == 0 || cv =~= seq!['.']);
                assert(Seq::<Seq<char>>::empty() + components_from(s@, i + 1, Seq::empty()) =~= components_from(s@, i + 1, Seq::empty()));
            }
            cur = Vec::new();
            assert(cur@ =~= Seq::<char>::empty());
        } else {
            cur.push(s[i]);
        }
        i += 1;
    }
    let ghost before = vec_views(out@);
    let ghost cv = cur@;
    if cur.len() > 0 && !(cur.len() == 1 && cur[0] == '.') {
        out.push(cur);
        assert(cv != seq!['.']);
        assert(vec_views(out@) =~= before + seq![cv]);
    } else {
        assert(cv.len() == 0 || cv =~= seq!['.']);
        assert(before + Seq::<Seq<char>>::empty() =~= before);
    }
    out
}

/// The profile a cookie database belongs to.
pub fn profile_of_database(path: &str) -> (r: Option<String>)
    ensures
        match r {
            Some(p) => profile_of(path@) == Some(p@),
            None => profile_of(path@) is None,
        },
{
    let c = components(&chars_of(path));
    let n = c.len();
    if n >= 2 {
        assert(vec_views(c@)[n - 2] == c@[n - 2]@);
        let is_up = c[n - 2].len() == 2 && c[n - 2][0] == '.' && c[n - 2][1] == '.';
        if is_up {
            assert(c@[n - 2]@ =~= seq!['.', '.']);
            None
        } else {
            assert(c@[n - 2]@ != seq!['.', '.']);
            Some(string_of(&c[n - 2]))
        }
    } else {
        None
    }
}

/// Whether a cookie database can be passed over: `query` found no session
/// in it, or its path names no profile.
pub open spec fn passed_over<Q: Fn(&str) -> Option<String>>(query: Q, database: Seq<char>) -> bool {
    ||| exists|s: &str| s@ == database && #[trigger] call_ensures(query, (s,), None::<String>)
    ||| profile_of(database) is None
}

/// Tries the cookie databases in order until one holds a SoundCloud session
/// (as `query` reads it) and names its profile; missing and unrelated
/// profiles are skipped. The token comes from the first database not passed
/// over; none comes back only where every database was passed over.
pub fn find_in_databases<Q>(databases: &Vec<String>, query: Q) -> (r: Option<Token>) where
    Q: Fn(&str) -> Option<String>,

    requires
        forall|s: &str| call_requires(query, (s,)),
    ensures
        r matches Some(t) ==> exists|k: int, s: &str, v: String| 0 <= k < databases@.len() && s@ == #[trigger] databases@[k]@
            && #[trigger] call_ensures(query, (s,), Some(v))
            && t.access_token == v && t.is_firefox() && Some(t.profile()) == profile_of(databases@[k]@)
            && forall|j: int| 0 <= j < k ==> passed_over(query, #[trigger] databases@[j]@),
        r is None ==> forall|j: int| 0 <= j < databases@.len() ==> passed_over(query, #[trigger] databases@[j]@),
{
    let mut i: usize = 0;
    while i < databases.len()
        invariant
            i <= databases@.len(),
            forall|s: &str| call_requires(query, (s,)),
            forall|j: int| 0 <= j < i ==> passed_over(query, #[trigger] databases@[j]@),
        decreases databases@.len() - i,
    {
        let db: &str = databases[i].as_str();
        let found = query(db);
        let ghost got = found;
        if let Some(value) = found {
            if let Some(profile) = profile_of_database(db) {
                let ghost v = value;
                let t = Token::from_firefox(value, profile);
                assert(call_ensures(query, (db,), Some(v)));
                return Some(t);
            }
        } else {
            assert(call_ensures(query, (db,), got));
        }
        assert(passed_over(query, databases@[i as int]@));
        i += 1;
    }
    None
}

} // verus!
