//! Directory listings: matching media assets to a content file, and finding
//! content files.
use vstd::prelude::*;
use crate::names::{ends_with, extension, lower_of, lowercase, starts_with, extension_of};
use crate::path::{FsPath, PathView, paths_view};

verus! {

/// One entry of a directory listing.
pub struct DirEntry {
    pub name: String,
    /// Whether the entry is a regular file.
    pub is_file: bool,
}

impl View for DirEntry {
    type V = (Seq<char>, bool);

    open spec fn view(&self) -> (Seq<char>, bool) {
        (self.name@, self.is_file)
    }
}

/// Views of a listing.
pub open spec fn entries_view(v: Seq<DirEntry>) -> Seq<(Seq<char>, bool)> {
    v.map_values(|e: DirEntry| e@)
}

/// Whether a lower-cased name ends with a recognised image extension.
pub open spec fn has_image_suffix(name_lower: Seq<char>) -> bool {
    ||| "png"@.is_suffix_of(name_lower)
    ||| "jpg"@.is_suffix_of(name_lower)
    ||| "jpeg"@.is_suffix_of(name_lower)
    ||| "gif"@.is_suffix_of(name_lower)
    ||| "webp"@.is_suffix_of(name_lower)
    ||| "svg"@.is_suffix_of(name_lower)
}

/// Whether a lower-cased entry name is an asset of the lower-cased stem:
/// it starts with the stem and ends with an image extension.
pub open spec fn asset_matches(stem_lower: Seq<char>, name_lower: Seq<char>) -> bool {
    stem_lower.is_prefix_of(name_lower) && has_image_suffix(name_lower)
}

/// The assets of `stem_lower` in a listing of `dir`, in listing order: the
/// regular files whose lower-cased name matches.
pub open spec fn matching_assets(
    stem_lower: Seq<char>,
    dir: PathView,
    entries: Seq<(Seq<char>, bool)>,
) -> Seq<PathView>
    decreases entries.len(),
{
    if entries.len() == 0 {
        Seq::empty()
    } else {
        let rest = matching_assets(stem_lower, dir, entries.drop_last());
        let e = entries.last();
        if e.1 && asset_matches(stem_lower, lower_of(e.0)) {
            rest.push(dir.join(e.0))
        } else {
            rest
        }
    }
}

/// Every asset found is an entry inside the listed directory, so it has a
/// file name.
pub proof fn lemma_assets_named(stem_lower: Seq<char>, dir: PathView, entries: Seq<(Seq<char>, bool)>)
    ensures
        forall|i: int|
            0 <= i < matching_assets(stem_lower, dir, entries).len() ==> (#[trigger] matching_assets(
                stem_lower,
                dir,
                entries,
            )[i]).parts.len() > 0,
    decreases entries.len(),
{
    if entries.len() > 0 {
        let rest = matching_assets(stem_lower, dir, entries.drop_last());
        lemma_assets_named(stem_lower, dir, entries.drop_last());
        let e = entries.last();
        let r = matching_assets(stem_lower, dir, entries);
        assert forall|i: int| 0 <= i < r.len() implies (#[trigger] r[i]).parts.len() > 0 by {
            if i < rest.len() {
                assert(r[i] == rest[i]);
            } else {
                assert(r[i] == dir.join(e.0));
            }
        }
    }
}

/// Whether an already lower-cased name is an asset of an already
/// lower-cased stem.
pub fn asset_name_matches(stem_lower: &str, name_lower: &str) -> (r: bool)
    ensures
        r == asset_matches(stem_lower@, name_lower@),
{
    starts_with(name_lower, stem_lower) && (ends_with(name_lower, "png") || ends_with(
        name_lower,
        "jpg",
    ) || ends_with(name_lower, "jpeg") || ends_with(name_lower, "gif") || ends_with(
        name_lower,
        "webp",
    ) || ends_with(name_lower, "svg"))
}

/// Whether an entry name, compared without regard to case, is an asset of
/// the lower-cased stem.
pub fn is_matching_asset(stem_lower: &str, name: &str) -> (r: bool)
    ensures
        r == asset_matches(stem_lower@, lower_of(name@)),
{
    let name_lower = lowercase(name);
    asset_name_matches(stem_lower, name_lower.as_str())
}

/// The assets of `stem_lower` among the entries of a listing of `dir`.
/// Subdirectories are not entered; a listing of a missing directory is empty.
pub fn matching_images_for_stem(stem_lower: &str, dir: &FsPath, entries: &Vec<DirEntry>) -> (r:
    Vec<FsPath>)
    ensures
        paths_view(r@) == matching_assets(stem_lower@, dir@, entries_view(entries@)),
{
    let mut r: Vec<FsPath> = Vec::new();
    let mut i: usize = 0;
    while i < entries.len()
        invariant
            i <= entries@.len(),
            paths_view(r@) == matching_assets(
                stem_lower@,
                dir@,
                entries_view(entries@).take(i as int),
            ),
        decreases entries@.len() - i,
    {
        let e = &entries[i];
        let ghost before = r@;
        let ghost t = entries_view(entries@).take(i + 1);
        assert(t.drop_last() =~= entries_view(entries@).take(i as int));
        if e.is_file && is_matching_asset(stem_lower, e.name.as_str()) {
            r.push(dir.join(&e.name));
            assert(paths_view(r@) =~= paths_view(before).push(dir@.join(e.name@)));
        }
        i = i + 1;
    }
    assert(entries_view(entries@).take(entries@.len() as int) =~= entries_view(entries@));
    r
}

/// Whether a file name has the extension `md`.
pub open spec fn is_markdown_name(name: Seq<char>) -> bool {
    extension_of(name) == Some("md"@)
}

/// Whether a file name has one of the content extensions: `md`, `yaml`,
/// `yml`, `json`, `csv`.
pub open spec fn is_content_name(name: Seq<char>) -> bool {
    ||| extension_of(name) == Some("md"@)
    ||| extension_of(name) == Some("yaml"@)
    ||| extension_of(name) == Some("yml"@)
    ||| extension_of(name) == Some("json"@)
    ||| extension_of(name) == Some("csv"@)
}

/// Whether a name has the extension `md`.
pub fn is_markdown_file_name(name: &str) -> (r: bool)
    ensures
        r == is_markdown_name(name@),
{
    match extension(name) {
        Some(ext) => ext == String::from_str("md"),
        None => false,
    }
}

/// Whether a name has one of the content extensions.
pub fn is_content_file_name(name: &str) -> (r: bool)
    ensures
        r == is_content_name(name@),
{
    match extension(name) {
        Some(ext) => {
            ext == String::from_str("md") || ext == String::from_str("yaml") || ext
                == String::from_str("yml") || ext == String::from_str("json") || ext
                == String::from_str("csv")
        },
        None => false,
    }
}

/// Whether a listing holds a regular file with the extension `md`.
pub fn dir_has_markdown(entries: &Vec<DirEntry>) -> (r: bool)
    ensures
        r == exists|k: int|
            0 <= k < entries@.len() && #[trigger] entries@[k].is_file && is_markdown_name(
                entries@[k].name@,
            ),
{
    let mut i: usize = 0;
    while i < entries.len()
        invariant
            i <= entries@.len(),
            forall|k: int|
                0 <= k < i ==> !(#[trigger] entries@[k].is_file && is_markdown_name(
                    entries@[k].name@,
                )),
        decreases entries@.len() - i,
    {
        if entries[i].is_file && is_markdown_file_name(entries[i].name.as_str()) {
            return true;
        }
        i = i + 1;
    }
    false
}

/// Whether a listing holds a regular file with a content extension.
pub fn dir_has_supported_files(entries: &Vec<DirEntry>) -> (r: bool)
    ensures
        r == exists|k: int|
            0 <= k < entries@.len() && #[trigger] entries@[k].is_file && is_content_name(
                entries@[k].name@,
            ),
{
    let mut i: usize = 0;
    while i < entries.len()
        invariant
            i <= entries@.len(),
            forall|k: int|
                0 <= k < i ==> !(#[trigger] entries@[k].is_file && is_content_name(
                    entries@[k].name@,
                )),
        decreases entries@.len() - i,
    {
        if entries[i].is_file && is_content_file_name(entries[i].name.as_str()) {
            return true;
        }
        i = i + 1;
    }
    false
}

} // verus!
