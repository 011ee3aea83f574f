//! Filesystem paths as sequences of name components.
use vstd::prelude::*;

verus! {

/// Mathematical model of a path: whether it starts at the root, and its
/// name components from the outermost to the innermost.
pub ghost struct PathView {
    pub absolute: bool,
    pub parts: Seq<Seq<char>>,
}

impl PathView {
    /// The path of the entry called `name` inside this directory.
    pub open spec fn join(self, name: Seq<char>) -> PathView {
        PathView { absolute: self.absolute, parts: self.parts.push(name) }
    }

    /// The last component, if there is one.
    pub open spec fn file_name(self) -> Option<Seq<char>> {
        if self.parts.len() == 0 {
            None
        } else {
            Some(self.parts.last())
        }
    }

    /// The first `n` components, keeping whether the path is absolute.
    pub open spec fn prefix(self, n: int) -> PathView {
        PathView { absolute: self.absolute, parts: self.parts.take(n) }
    }
}

/// A filesystem path held as name components (no separators inside a part).
pub struct FsPath {
    pub absolute: bool,
    pub parts: Vec<String>,
}

impl View for FsPath {
    type V = PathView;

    open spec fn view(&self) -> PathView {
        PathView { absolute: self.absolute, parts: strings_view(self.parts@) }
    }
}

/// Views of a sequence of paths.
pub open spec fn paths_view(v: Seq<FsPath>) -> Seq<PathView> {
    v.map_values(|p: FsPath| p@)
}

/// Views of a sequence of strings.
pub open spec fn strings_view(v: Seq<String>) -> Seq<Seq<char>> {
    v.map_values(|s: String| s@)
}

impl FsPath {
    /// A path from its components.
    pub fn new(absolute: bool, parts: Vec<String>) -> (r: FsPath)
        ensures
            r@ == (PathView { absolute, parts: strings_view(parts@) }),
    {
        FsPath { absolute, parts }
    }

    /// A copy with the same components.
    pub fn duplicate(&self) -> (r: FsPath)
        ensures
            r@ == self@,
    {
        let parts = self.parts.clone();
        proof {
            assert(parts@ =~= self.parts@);
        }
        FsPath { absolute: self.absolute, parts }
    }

    /// The first `n` components.
    pub fn prefix(&self, n: usize) -> (r: FsPath)
        requires
            n <= self@.parts.len(),
        ensures
            r@ == self@.prefix(n as int),
    {
        let mut parts: Vec<String> = Vec::new();
        let mut i: usize = 0;
        while i < n
            invariant
                n <= self.parts@.len(),
                i <= n,
                strings_view(parts@) == self@.parts.take(i as int),
            decreases n - i,
        {
            let ghost before = parts@;
            parts.push(self.parts[i].clone());
            proof {
                assert(parts@ =~= before.push(self.parts@[i as int]));
                assert(strings_view(parts@) =~= strings_view(before).push(self.parts@[i as int]@));
                assert(strings_view(parts@) =~= self@.parts.take(i + 1));
            }
            i = i + 1;
        }
        proof {
            assert(self@.parts.take(n as int) =~= self@.prefix(n as int).parts);
        }
        FsPath { absolute: self.absolute, parts }
    }

    /// The path of the entry called `name` inside this directory.
    pub fn join(&self, name: &String) -> (r: FsPath)
        ensures
            r@ == self@.join(name@),
    {
        let mut r = self.duplicate();
        r.parts.push(name.clone());
        proof {
            assert(r@.parts =~= self@.parts.push(name@));
        }
        r
    }

    /// The last component, or `None` for a root or an empty path.
    pub fn file_name(&self) -> (r: Option<String>)
        ensures
            r is Some <==> self@.file_name() is Some,
            r is Some ==> r->0@ == self@.file_name()->0,
    {
        let n = self.parts.len();
        if n == 0 {
            None
        } else {
            Some(self.parts[n - 1].clone())
        }
    }

    /// The enclosing directory, or `None` for a root or an empty path.
    pub fn parent(&self) -> (r: Option<FsPath>)
        ensures
            r is Some <==> self@.parts.len() > 0,
            r is Some ==> r->0@ == self@.prefix(self@.parts.len() - 1),
    {
        let n = self.parts.len();
        if n == 0 {
            None
        } else {
            Some(self.prefix(n - 1))
        }
    }
}


/// Adds a finished segment to the components, unless it is empty or `.`.
pub open spec fn flush(acc: Seq<Seq<char>>, cur: Seq<char>) -> Seq<Seq<char>> {
    if cur.len() == 0 || cur == "."@ {
        acc
    } else {
        acc.push(cur)
    }
}

/// The components of the rest `s` of a path text, given the segment `cur`
/// read so far and the components `acc` finished before it.
pub open spec fn split_rest(s: Seq<char>, cur: Seq<char>, acc: Seq<Seq<char>>) -> Seq<Seq<char>>
    decreases s.len(),
{
    if s.len() == 0 {
        flush(acc, cur)
    } else if s[0] == '/' {
        split_rest(s.skip(1), Seq::empty(), flush(acc, cur))
    } else {
        split_rest(s.skip(1), cur.push(s[0]), acc)
    }
}

/// The name components of a path text: the segments between `/`, without
/// empty ones and without `.`.
pub open spec fn components_of(s: Seq<char>) -> Seq<Seq<char>> {
    split_rest(s, Seq::empty(), Seq::empty())
}

/// The path that a configured directory names: itself when it starts with
/// `/`, otherwise taken inside the home directory.
pub open spec fn resolved(dir: Seq<char>, home: PathView) -> PathView {
    if dir.len() > 0 && dir[0] == '/' {
        PathView { absolute: true, parts: components_of(dir) }
    } else {
        PathView { absolute: home.absolute, parts: home.parts + components_of(dir) }
    }
}

/// Adds `seg` to `acc` unless it is empty or `.`.
fn flush_segment(acc: &mut Vec<String>, seg: &str)
    ensures
        strings_view(final(acc)@) == flush(strings_view(old(acc)@), seg@),
{
    let owned = seg.to_owned();
    let dot = String::from_str(".");
    if seg.unicode_len() == 0 || owned == dot {
        return;
    }
    let ghost before = acc@;
    acc.push(owned);
    assert(strings_view(acc@) =~= strings_view(before).push(seg@));
}

/// The name components of a path text (see `components_of`).
pub fn components(s: &str) -> (r: Vec<String>)
    ensures
        strings_view(r@) == components_of(s@),
{
    let n = s.unicode_len();
    let mut acc: Vec<String> = Vec::new();
    let mut start: usize = 0;
    let mut i: usize = 0;
    assert(s@.skip(0) =~= s@);
    assert(s@.subrange(0, 0) =~= Seq::<char>::empty());
    assert(strings_view(acc@) =~= Seq::<Seq<char>>::empty());
    while i < n
        invariant
            n == s@.len(),
            start <= i <= n,
            components_of(s@) == split_rest(
                s@.skip(i as int),
                s@.subrange(start as int, i as int),
                strings_view(acc@),
            ),
        decreases n - i,
    {
        let ghost rest = s@.skip(i as int);
        assert(rest[0] == s@[i as int]);
        assert(rest.skip(1) =~= s@.skip(i + 1));
        if s.get_char(i) == '/' {
            let seg = s.substring_char(start, i);
            flush_segment(&mut acc, seg);
            start = i + 1;
            assert(s@.subrange(start as int, i + 1) =~= Seq::<char>::empty());
        } else {
            assert(s@.subrange(start as int, i + 1) =~= s@.subrange(start as int, i as int).push(
                s@[i as int],
            ));
        }
        i = i + 1;
    }
    let seg = s.substring_char(start, n);
    flush_segment(&mut acc, seg);
    acc
}

/// The path that a configured directory names (see `resolved`).
pub fn resolve_dir(dir: &str, home: &FsPath) -> (r: FsPath)
    ensures
        r@ == resolved(dir@, home@),
{
    let parts = components(dir);
    if dir.unicode_len() > 0 && dir.get_char(0) == '/' {
        FsPath { absolute: true, parts }
    } else {
        let mut r = home.duplicate();
        let ghost base = r.parts@;
        let mut i: usize = 0;
        while i < parts.len()
            invariant
                i <= parts@.len(),
                r.absolute == home.absolute,
                strings_view(r.parts@) == home@.parts + strings_view(parts@).take(i as int),
            decreases parts@.len() - i,
        {
            let ghost before = r.parts@;
            r.parts.push(parts[i].clone());
            assert(strings_view(r.parts@) =~= strings_view(before).push(parts@[i as int]@));
            assert(strings_view(parts@).take(i + 1) =~= strings_view(parts@).take(i as int).push(
                parts@[i as int]@,
            ));
            i = i + 1;
        }
        assert(strings_view(parts@).take(parts@.len() as int) =~= strings_view(parts@));
        r
    }
}

} // verus!
