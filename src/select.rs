//! Choosing what to act on: the collection and the content file.
use vstd::prelude::*;
use crate::assets::{DirEntry, entries_view, is_content_file_name, is_content_name};
use crate::config::CollectionPaths;
use crate::path::{FsPath, PathView, paths_view};

verus! {

/// The collection to use without asking: the only one, when exactly one is
/// configured.
pub fn sole_collection(cols: &Vec<CollectionPaths>) -> (r: Option<usize>)
    ensures
        r == (if cols@.len() == 1 {
            Some(0usize)
        } else {
            None::<usize>
        }),
{
    if cols.len() == 1 {
        Some(0)
    } else {
        None
    }
}

/// The position of the first collection called `name`.
pub fn collection_named(cols: &Vec<CollectionPaths>, name: &String) -> (r: Option<usize>)
    ensures
        r is Some ==> r->0 < cols@.len() && cols@[r->0 as int].name@ == name@ && forall|k: int|
            0 <= k < r->0 ==> (#[trigger] cols@[k]).name@ != name@,
        r is None ==> forall|k: int| 0 <= k < cols@.len() ==> (#[trigger] cols@[k]).name@ != name@,
{
    let mut i: usize = 0;
    while i < cols.len()
        invariant
            i <= cols@.len(),
            forall|k: int| 0 <= k < i ==> (#[trigger] cols@[k]).name@ != name@,
        decreases cols@.len() - i,
    {
        if cols[i].name == *name {
            return Some(i);
        }
        i = i + 1;
    }
    None
}

/// The content files of a listing of `dir` that can be offered, in listing
/// order: regular files with a content extension, leaving out those marked
/// as already present at the destination.
pub open spec fn candidates(
    dir: PathView,
    entries: Seq<(Seq<char>, bool)>,
    present: Seq<bool>,
) -> Seq<PathView>
    decreases entries.len(),
{
    if entries.len() == 0 {
        Seq::empty()
    } else {
        let rest = candidates(dir, entries.drop_last(), present.drop_last());
        let e = entries.last();
        if e.1 && is_content_name(e.0) && !present.last() {
            rest.push(dir.join(e.0))
        } else {
            rest
        }
    }
}

/// The content files of a listing of `dir` that can be offered;
/// `present[i]` tells whether the destination already holds a file named
/// like `entries[i]`.
pub fn content_candidates(dir: &FsPath, entries: &Vec<DirEntry>, present: &Vec<bool>) -> (r: Vec<
    FsPath,
>)
    requires
        present@.len() == entries@.len(),
    ensures
        paths_view(r@) == candidates(dir@, entries_view(entries@), present@),
{
    let mut r: Vec<FsPath> = Vec::new();
    let mut i: usize = 0;
    while i < entries.len()
        invariant
            i <= entries@.len(),
            present@.len() == entries@.len(),
            paths_view(r@) == candidates(
                dir@,
                entries_view(entries@).take(i as int),
                present@.take(i as int),
            ),
        decreases entries@.len() - i,
    {
        let e = &entries[i];
        let ghost before = r@;
        assert(entries_view(entries@).take(i + 1).drop_last() =~= entries_view(entries@).take(
            i as int,
        ));
        assert(present@.take(i + 1).drop_last() =~= present@.take(i as int));
        if e.is_file && is_content_file_name(e.name.as_str()) && !present[i] {
            r.push(dir.join(&e.name));
            assert(paths_view(r@) =~= paths_view(before).push(dir@.join(e.name@)));
        }
        i = i + 1;
    }
    assert(entries_view(entries@).take(entries@.len() as int) =~= entries_view(entries@));
    assert(present@.take(entries@.len() as int) =~= present@);
    r
}

/// The position of the first path whose file name is `name`.
pub fn position_by_name(files: &Vec<FsPath>, name: &String) -> (r: Option<usize>)
    ensures
        r is Some ==> r->0 < files@.len() && files@[r->0 as int]@.file_name() == Some(name@)
            && forall|k: int| 0 <= k < r->0 ==> (#[trigger] files@[k])@.file_name() != Some(name@),
        r is None ==> forall|k: int|
            0 <= k < files@.len() ==> (#[trigger] files@[k])@.file_name() != Some(name@),
{
    let mut i: usize = 0;
    while i < files.len()
        invariant
            i <= files@.len(),
            forall|k: int| 0 <= k < i ==> (#[trigger] files@[k])@.file_name() != Some(name@),
        decreases files@.len() - i,
    {
        match files[i].file_name() {
            Some(n) => {
                if n == *name {
                    return Some(i);
                }
            },
            None => {},
        }
        i = i + 1;
    }
    None
}

} // verus!
