//! File names: stems, extensions, prefixes and suffixes, case folding.
use vstd::prelude::*;

verus! {

/// What `str::to_lowercase` returns for a string.
pub uninterp spec fn lower_of(s: Seq<char>) -> Seq<char>;

/// Relies on `str::to_lowercase`: its result depends on the characters alone,
/// and the empty string stays empty.
#[verifier::external_body]
pub(crate) fn lowercase(s: &str) -> (r: String)
    ensures
        r@ == lower_of(s@),
        s@.len() == 0 ==> r@.len() == 0,
{
    s.to_lowercase()
}

/// What `str::trim` returns for a string.
pub uninterp spec fn trim_of(s: Seq<char>) -> Seq<char>;

/// Relies on `str::trim`: the string without leading and trailing white
/// space; it depends on the characters alone, and the empty string stays empty.
#[verifier::external_body]
pub(crate) fn trimmed(s: &str) -> (r: String)
    ensures
        r@ == trim_of(s@),
        s@.len() == 0 ==> r@.len() == 0,
{
    s.trim().to_string()
}

/// Whether a string is empty or white space only.
pub open spec fn blank(s: Seq<char>) -> bool {
    trim_of(s).len() == 0
}

/// Whether a string is empty or white space only.
pub fn is_blank(s: &str) -> (r: bool)
    ensures
        r == blank(s@),
{
    let t = trimmed(s);
    t.unicode_len() == 0
}

/// Index of the last `.` in `name`, or -1 when there is none.
pub open spec fn last_dot(name: Seq<char>) -> int
    decreases name.len(),
{
    if name.len() == 0 {
        -1
    } else if name.last() == '.' {
        name.len() - 1
    } else {
        last_dot(name.drop_last())
    }
}

/// The stem of a file name: the part before the last `.`, unless there is
/// no dot or the only meaningful dot starts the name, in which case the whole name.
pub open spec fn stem_of(name: Seq<char>) -> Seq<char> {
    if last_dot(name) <= 0 {
        name
    } else {
        name.take(last_dot(name))
    }
}

/// The extension of a file name: the part after the last `.`, if that dot
/// does not start the name.
pub open spec fn extension_of(name: Seq<char>) -> Option<Seq<char>> {
    if last_dot(name) <= 0 {
        None
    } else {
        Some(name.skip(last_dot(name) + 1))
    }
}

proof fn lemma_last_dot_bounds(name: Seq<char>)
    ensures
        -1 <= last_dot(name) < name.len(),
        last_dot(name) >= 0 ==> name[last_dot(name)] == '.',
    decreases name.len(),
{
    if name.len() > 0 && name.last() != '.' {
        lemma_last_dot_bounds(name.drop_last());
    }
}

/// Index of the last `.` in `name`, or -1.
fn find_last_dot(name: &str) -> (r: Option<usize>)
    ensures
        r is None <==> last_dot(name@) == -1,
        r is Some ==> r->0 == last_dot(name@),
{
    let n = name.unicode_len();
    let mut i: usize = n;
    assert(name@.take(n as int) =~= name@);
    while i > 0
        invariant
            i <= n,
            n == name@.len(),
            last_dot(name@) == last_dot(name@.take(i as int)),
        decreases i,
    {
        let ghost t = name@.take(i as int);
        if name.get_char(i - 1) == '.' {
            assert(t.last() == '.');
            return Some(i - 1);
        }
        assert(t.drop_last() =~= name@.take(i - 1));
        i = i - 1;
    }
    assert(name@.take(0) =~= Seq::<char>::empty());
    None
}

/// Whether `prefix` is a prefix of `s`.
pub fn starts_with(s: &str, prefix: &str) -> (r: bool)
    ensures
        r == prefix@.is_prefix_of(s@),
{
    let n = s.unicode_len();
    let m = prefix.unicode_len();
    if m > n {
        return false;
    }
    let mut i: usize = 0;
    while i < m
        invariant
            m <= n,
            n == s@.len(),
            m == prefix@.len(),
            i <= m,
            forall|k: int| 0 <= k < i ==> prefix@[k] == s@[k],
        decreases m - i,
    {
        if prefix.get_char(i) != s.get_char(i) {
            return false;
        }
        i = i + 1;
    }
    assert(prefix@ =~= s@.take(m as int));
    true
}

/// Whether `suffix` is a suffix of `s`.
pub fn ends_with(s: &str, suffix: &str) -> (r: bool)
    ensures
        r == suffix@.is_suffix_of(s@),
{
    let n = s.unicode_len();
    let m = suffix.unicode_len();
    if m > n {
        return false;
    }
    let off = n - m;
    let mut i: usize = 0;
    while i < m
        invariant
            m <= n,
            off == n - m,
            n == s@.len(),
            m == suffix@.len(),
            i <= m,
            forall|k: int| 0 <= k < i ==> suffix@[k] == s@[off + k],
        decreases m - i,
    {
        if suffix.get_char(i) != s.get_char(off + i) {
            return false;
        }
        i = i + 1;
    }
    assert(suffix@ =~= s@.skip(off as int));
    true
}

/// The stem of a file name (see `stem_of`).
pub fn file_stem(name: &str) -> (r: String)
    ensures
        r@ == stem_of(name@),
{
    proof {
        lemma_last_dot_bounds(name@);
    }
    match find_last_dot(name) {
        Some(d) if d > 0 => name.substring_char(0, d).to_owned(),
        _ => name.to_owned(),
    }
}

/// The extension of a file name (see `extension_of`).
pub fn extension(name: &str) -> (r: Option<String>)
    ensures
        r is Some <==> extension_of(name@) is Some,
        r is Some ==> r->0@ == extension_of(name@)->0,
{
    proof {
        lemma_last_dot_bounds(name@);
    }
    match find_last_dot(name) {
        Some(d) if d > 0 => {
            let n = name.unicode_len();
            Some(name.substring_char(d + 1, n).to_owned())
        },
        _ => None,
    }
}

} // verus!
