use vstd::prelude::*;

verus! {

/// One entry of the profiles directory, as the directory listing gives it.
#[derive(Clone, Debug)]
pub struct ProfileEntry {
    /// The entry's full path.
    pub path: String,
    /// The last component of the path.
    pub file_name: String,
    /// Whether the entry is a directory.
    pub is_dir: bool,
}

/// `t` occurs in `s` starting at position `i`.
pub open spec fn occurs_at(s: Seq<char>, t: Seq<char>, i: int) -> bool {
    0 <= i && i + t.len() <= s.len() && s.subrange(i, i + t.len()) == t
}

pub open spec fn ends_with(s: Seq<char>, t: Seq<char>) -> bool {
    t.len() <= s.len() && occurs_at(s, t, s.len() - t.len())
}

pub open spec fn contains_text(s: Seq<char>, t: Seq<char>) -> bool {
    exists|i: int| occurs_at(s, t, i)
}

/// The profile asked for, or `default`.
pub open spec fn wanted_profile(profile: Option<Seq<char>>) -> Seq<char> {
    match profile {
        Some(p) => p,
        None => "default"@,
    }
}

/// First choice: a directory whose full path ends with the wanted name.
pub open spec fn path_match(e: ProfileEntry, w: Seq<char>) -> bool {
    e.is_dir && ends_with(e.path@, w)
}

/// Second choice: a directory whose own name contains the wanted name.
pub open spec fn name_match(e: ProfileEntry, w: Seq<char>) -> bool {
    e.is_dir && contains_text(e.file_name@, w)
}

fn chars_of(s: &str) -> (r: Vec<char>)
    ensures
        r@ == s@,
{
    let n = s.unicode_len();
    let mut r: Vec<char> = Vec::new();
    let mut i: usize = 0;
    while i < n
        invariant
            n == s@.len(),
            i <= n,
            r@ == s@.subrange(0, i as int),
        decreases n - i,
    {
        r.push(s.get_char(i));
        i = i + 1;
        assert(r@ =~= s@.subrange(0, i as int));
    }
    assert(r@ =~= s@);
    r
}

fn matches_at(s: &Vec<char>, t: &Vec<char>, i: usize) -> (r: bool)
    requires
        i + t@.len() <= s@.len(),
    ensures
        r == occurs_at(s@, t@, i as int),
{
    let n = s.len();
    let mut k: usize = 0;
    while k < t.len()
        invariant
            n == s@.len(),
            i + t@.len() <= s@.len(),
            k <= t@.len(),
            forall|j: int| 0 <= j < k ==> s@[i + j] == t@[j],
        decreases t@.len() - k,
    {
        if s[i + k] != t[k] {
            assert(s@.subrange(i as int, i + t@.len())[k as int] != t@[k as int]);
            return false;
        }
        k = k + 1;
    }
    assert(s@.subrange(i as int, i + t@.len()) =~= t@);
    true
}

fn ends_with_chars(s: &Vec<char>, t: &Vec<char>) -> (r: bool)
    ensures
        r == ends_with(s@, t@),
{
    if t.len() > s.len() {
        return false;
    }
    matches_at(s, t, s.len() - t.len())
}

fn contains_chars(s: &Vec<char>, t: &Vec<char>) -> (r: bool)
    ensures
        r == contains_text(s@, t@),
{
    if t.len() > s.len() {
        return false;
    }
    let last = s.len() - t.len();
    let mut i: usize = 0;
    loop
        invariant
            last == s@.len() - t@.len(),
            i <= last,
            forall|j: int| 0 <= j < i ==> !occurs_at(s@, t@, j),
        decreases last - i,
    {
        if matches_at(s, t, i) {
            return true;
        }
        if i == last {
            return false;
        }
        i = i + 1;
    }
}

/// Picks the profile directory among the entries of the profiles directory:
/// the first directory whose path ends with the wanted name (`default` when
/// none is given); failing that, the first directory whose name contains it.
pub fn select_profile(entries: &Vec<ProfileEntry>, profile: Option<&String>) -> (r: Option<usize>)
    ensures
        ({
            let w = wanted_profile(
                match profile {
                    Some(p) => Some(p@),
                    None => None,
                },
            );
            &&& r matches Some(i) ==> i < entries@.len() && ((path_match(entries@[i as int], w)
                && forall|j: int| 0 <= j < i ==> !path_match(#[trigger] entries@[j], w)) || ((
            forall|j: int| 0 <= j < entries@.len() ==> !path_match(#[trigger] entries@[j], w))
                && name_match(entries@[i as int], w) && forall|j: int|
                0 <= j < i ==> !name_match(#[trigger] entries@[j], w)))
            &&& r is None ==> forall|j: int|
                0 <= j < entries@.len() ==> !path_match(#[trigger] entries@[j], w) && !name_match(
                    entries@[j],
                    w,
                )
        }),
{
    let w = match profile {
        Some(p) => chars_of(p.as_str()),
        None => chars_of("default"),
    };
    let mut i: usize = 0;
    while i < entries.len()
        invariant
            w@ == wanted_profile(
                match profile {
                    Some(p) => Some(p@),
                    None => None,
                },
            ),
            i <= entries@.len(),
            forall|j: int| 0 <= j < i ==> !path_match(#[trigger] entries@[j], w@),
        decreases entries@.len() - i,
    {
        let e = &entries[i];
        if e.is_dir {
            let p = chars_of(e.path.as_str());
            if ends_with_chars(&p, &w) {
                return Some(i);
            }
        }
        i = i + 1;
    }
    let mut i: usize = 0;
    while i < entries.len()
        invariant
            w@ == wanted_profile(
                match profile {
                    Some(p) => Some(p@),
                    None => None,
                },
            ),
            i <= entries@.len(),
            forall|j: int| 0 <= j < entries@.len() ==> !path_match(#[trigger] entries@[j], w@),
            forall|j: int| 0 <= j < i ==> !name_match(#[trigger] entries@[j], w@),
        decreases entries@.len() - i,
    {
        let e = &entries[i];
        if e.is_dir {
            let n = chars_of(e.file_name.as_str());
            if contains_chars(&n, &w) {
                return Some(i);
            }
        }
        i = i + 1;
    }
    None
}

} // verus!
