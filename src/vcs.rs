//! What the version-control step is handed: the repository root and the
//! commit message.
use vstd::prelude::*;
use crate::path::{FsPath, PathView};

verus! {

/// The name of the directory whose parent is taken as the repository root.
pub open spec fn content_dir_name() -> Seq<char> {
    "content"@
}

/// Index of the innermost component named `content`, or -1 when there is none.
pub open spec fn innermost_content(parts: Seq<Seq<char>>) -> int
    decreases parts.len(),
{
    if parts.len() == 0 {
        -1
    } else if parts.last() == content_dir_name() {
        parts.len() - 1
    } else {
        innermost_content(parts.drop_last())
    }
}

/// The repository root of a path: the parent of its innermost `content`
/// ancestor, or else its own parent.
pub open spec fn site_root_of(p: PathView) -> PathView {
    if innermost_content(p.parts) >= 0 {
        p.prefix(innermost_content(p.parts))
    } else {
        p.prefix(p.parts.len() - 1)
    }
}

proof fn lemma_innermost_content_bounds(parts: Seq<Seq<char>>)
    ensures
        -1 <= innermost_content(parts) < parts.len(),
    decreases parts.len(),
{
    if parts.len() > 0 && parts.last() != content_dir_name() {
        lemma_innermost_content_bounds(parts.drop_last());
    }
}

/// Resolves the repository root for a directory inside it. Walks the path
/// and its ancestors from the innermost; the first one named `content` gives
/// its parent; without one, the path's own parent.
pub fn get_site_root(published: &FsPath) -> (r: FsPath)
    requires
        published@.parts.len() > 0,
    ensures
        r@ == site_root_of(published@),
{
    let content = String::from_str("content");
    let n = published.parts.len();
    let mut i: usize = n;
    assert(published@.parts.take(n as int) =~= published@.parts);
    while i > 0
        invariant
            i <= n,
            n == published@.parts.len(),
            content@ == content_dir_name(),
            innermost_content(published@.parts) == innermost_content(
                published@.parts.take(i as int),
            ),
        decreases i,
    {
        let ghost t = published@.parts.take(i as int);
        if published.parts[i - 1] == content {
            assert(t.last() == content_dir_name());
            proof {
                lemma_innermost_content_bounds(published@.parts);
            }
            return published.prefix(i - 1);
        }
        assert(t.drop_last() =~= published@.parts.take(i - 1));
        i = i - 1;
    }
    assert(published@.parts.take(0) =~= Seq::<Seq<char>>::empty());
    published.prefix(n - 1)
}

/// The commit message for publishing `name`.
pub open spec fn add_message(name: Seq<char>) -> Seq<char> {
    "Add "@ + name + " to blog"@
}

/// The commit message for deleting `name`.
pub open spec fn remove_message(name: Seq<char>) -> Seq<char> {
    "Remove "@ + name + " from blog"@
}

/// Builds the commit message for publishing `name`.
pub fn add_commit_message(name: &String) -> (r: String)
    ensures
        r@ == add_message(name@),
{
    String::from_str("Add ").concat(name.as_str()).concat(" to blog")
}

/// Builds the commit message for deleting `name`.
pub fn remove_commit_message(name: &String) -> (r: String)
    ensures
        r@ == remove_message(name@),
{
    String::from_str("Remove ").concat(name.as_str()).concat(" from blog")
}

} // verus!
