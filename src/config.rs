//! Configuration as read from the settings file, and the resolved paths the
//! engine works on.
use vstd::prelude::*;
use crate::names::{blank, is_blank};
use crate::path::{FsPath, PathView, resolve_dir, resolved};

verus! {

/// The working area as written in the settings file.
pub struct WorkingConfig {
    pub files: String,
    pub images: Option<String>,
}

/// One publishing collection as written in the settings file.
pub struct CollectionConfig {
    pub name: String,
    pub files: String,
    pub images: Option<String>,
}

/// The whole settings file.
pub struct Config {
    pub working: WorkingConfig,
    pub collection: Vec<CollectionConfig>,
}

/// A collection with its directories resolved.
pub struct CollectionPaths {
    pub name: String,
    pub files: FsPath,
    pub images: Option<FsPath>,
}

/// The working area and the collections, resolved.
pub struct AppPaths {
    pub working_files: FsPath,
    pub working_images: Option<FsPath>,
    pub collections: Vec<CollectionPaths>,
}

/// View of an optional path.
pub open spec fn opt_path_view(o: Option<FsPath>) -> Option<PathView> {
    match o {
        Some(p) => Some(p@),
        None => None,
    }
}

/// Copies an optional path.
pub fn duplicate_opt(o: &Option<FsPath>) -> (r: Option<FsPath>)
    ensures
        opt_path_view(r) == opt_path_view(*o),
{
    match o {
        Some(p) => Some(p.duplicate()),
        None => None,
    }
}

/// Model of resolved collection paths.
pub ghost struct CollectionPathsView {
    pub name: Seq<char>,
    pub files: PathView,
    pub images: Option<PathView>,
}

impl View for CollectionPaths {
    type V = CollectionPathsView;

    open spec fn view(&self) -> CollectionPathsView {
        CollectionPathsView {
            name: self.name@,
            files: self.files@,
            images: opt_path_view(self.images),
        }
    }
}

/// Views of a sequence of collections.
pub open spec fn collections_view(v: Seq<CollectionPaths>) -> Seq<CollectionPathsView> {
    v.map_values(|c: CollectionPaths| c@)
}

/// What is wrong with a configuration.
pub enum ConfigProblem {
    /// `working.files` is empty.
    EmptyWorkingFiles,
    /// The working files directory is not a directory.
    WorkingFilesMissing(FsPath),
    /// The working files directory holds no content file.
    NoSupportedFiles(FsPath),
    /// The working images directory is not a directory.
    WorkingImagesMissing(FsPath),
    /// A collection has an empty name.
    EmptyCollectionName,
    /// Two collections share this name.
    DuplicateCollection(String),
    /// The named collection has an empty `files` path.
    EmptyCollectionFiles(String),
    /// The named collection's files directory is not a directory.
    CollectionFilesMissing { name: String, path: FsPath },
    /// The named collection's images directory is not a directory.
    CollectionImagesMissing { name: String, path: FsPath },
}

/// Model of a `ConfigProblem`.
pub ghost enum ProblemView {
    EmptyWorkingFiles,
    WorkingFilesMissing(PathView),
    NoSupportedFiles(PathView),
    WorkingImagesMissing(PathView),
    EmptyCollectionName,
    DuplicateCollection(Seq<char>),
    EmptyCollectionFiles(Seq<char>),
    CollectionFilesMissing { name: Seq<char>, path: PathView },
    CollectionImagesMissing { name: Seq<char>, path: PathView },
}

impl View for ConfigProblem {
    type V = ProblemView;

    open spec fn view(&self) -> ProblemView {
        match self {
            ConfigProblem::EmptyWorkingFiles => ProblemView::EmptyWorkingFiles,
            ConfigProblem::WorkingFilesMissing(p) => ProblemView::WorkingFilesMissing(p@),
            ConfigProblem::NoSupportedFiles(p) => ProblemView::NoSupportedFiles(p@),
            ConfigProblem::WorkingImagesMissing(p) => ProblemView::WorkingImagesMissing(p@),
            ConfigProblem::EmptyCollectionName => ProblemView::EmptyCollectionName,
            ConfigProblem::DuplicateCollection(n) => ProblemView::DuplicateCollection(n@),
            ConfigProblem::EmptyCollectionFiles(n) => ProblemView::EmptyCollectionFiles(n@),
            ConfigProblem::CollectionFilesMissing { name, path } => {
                ProblemView::CollectionFilesMissing { name: name@, path: path@ }
            },
            ConfigProblem::CollectionImagesMissing { name, path } => {
                ProblemView::CollectionImagesMissing { name: name@, path: path@ }
            },
        }
    }
}

/// Views of a sequence of problems.
pub open spec fn problems_view(v: Seq<ConfigProblem>) -> Seq<ProblemView> {
    v.map_values(|p: ConfigProblem| p@)
}

/// What the filesystem says about the configured directories, each as
/// resolved against the home directory. The per-collection facts follow the
/// order of the configuration's collections.
pub struct DirFacts {
    pub working_files_is_dir: bool,
    /// Whether the working files directory holds a content file.
    pub working_has_content: bool,
    pub working_images_is_dir: bool,
    pub files_is_dir: Vec<bool>,
    pub images_is_dir: Vec<bool>,
}

/// The resolved form of an optional configured directory.
pub open spec fn resolved_opt(dir: Option<String>, home: PathView) -> Option<PathView> {
    match dir {
        Some(d) => Some(resolved(d@, home)),
        None => None,
    }
}

/// Whether an earlier collection with a non-empty name has the same name as
/// the one at `i`.
pub open spec fn is_duplicate(cols: Seq<CollectionConfig>, i: int) -> bool {
    exists|j: int| 0 <= j < i && !blank(#[trigger] cols[j].name@) && cols[j].name@ == cols[i].name@
}

/// Whether the collection at `i` is kept: named, not a duplicate, and with
/// a files path.
pub open spec fn accepted(cols: Seq<CollectionConfig>, i: int) -> bool {
    !blank(cols[i].name@) && !is_duplicate(cols, i) && !blank(cols[i].files@)
}

/// The problems of the collection at `i`: the first of an empty name, a
/// duplicate name or an empty files path; otherwise each of its directories
/// that is not a directory.
pub open spec fn collection_problems(
    cols: Seq<CollectionConfig>,
    i: int,
    home: PathView,
    files_is_dir: bool,
    images_is_dir: bool,
) -> Seq<ProblemView> {
    let c = cols[i];
    if blank(c.name@) {
        seq![ProblemView::EmptyCollectionName]
    } else if is_duplicate(cols, i) {
        seq![ProblemView::DuplicateCollection(c.name@)]
    } else if blank(c.files@) {
        seq![ProblemView::EmptyCollectionFiles(c.name@)]
    } else {
        (if files_is_dir {
            Seq::empty()
        } else {
            seq![
                ProblemView::CollectionFilesMissing {
                    name: c.name@,
                    path: resolved(c.files@, home),
                },
            ]
        }) + match c.images {
            Some(im) if !images_is_dir => seq![
                ProblemView::CollectionImagesMissing { name: c.name@, path: resolved(im@, home) },
            ],
            _ => Seq::empty(),
        }
    }
}

/// The problems of the first `n` collections, in order.
pub open spec fn problems_upto(
    cols: Seq<CollectionConfig>,
    n: int,
    home: PathView,
    files_is_dir: Seq<bool>,
    images_is_dir: Seq<bool>,
) -> Seq<ProblemView>
    decreases n,
{
    if n <= 0 {
        Seq::empty()
    } else {
        problems_upto(cols, n - 1, home, files_is_dir, images_is_dir) + collection_problems(
            cols,
            n - 1,
            home,
            files_is_dir[n - 1],
            images_is_dir[n - 1],
        )
    }
}

/// The kept collections among the first `n`, resolved, in order.
pub open spec fn accepted_upto(cols: Seq<CollectionConfig>, n: int, home: PathView) -> Seq<
    CollectionPathsView,
>
    decreases n,
{
    if n <= 0 {
        Seq::empty()
    } else {
        let rest = accepted_upto(cols, n - 1, home);
        let c = cols[n - 1];
        if accepted(cols, n - 1) {
            rest.push(
                CollectionPathsView {
                    name: c.name@,
                    files: resolved(c.files@, home),
                    images: resolved_opt(c.images, home),
                },
            )
        } else {
            rest
        }
    }
}

/// The problems of the working area.
pub open spec fn working_problems(w: WorkingConfig, home: PathView, facts: DirFacts) -> Seq<
    ProblemView,
> {
    let files = resolved(w.files@, home);
    (if !facts.working_files_is_dir {
        seq![ProblemView::WorkingFilesMissing(files)]
    } else if !facts.working_has_content {
        seq![ProblemView::NoSupportedFiles(files)]
    } else {
        Seq::empty()
    }) + match w.images {
        Some(im) if !facts.working_images_is_dir => seq![
            ProblemView::WorkingImagesMissing(resolved(im@, home)),
        ],
        _ => Seq::empty(),
    }
}

/// Every problem of a configuration, in the order they are reported.
pub open spec fn config_problems(cfg: Config, home: PathView, facts: DirFacts) -> Seq<ProblemView> {
    if blank(cfg.working.files@) {
        seq![ProblemView::EmptyWorkingFiles]
    } else {
        working_problems(cfg.working, home, facts) + problems_upto(
            cfg.collection@,
            cfg.collection@.len() as int,
            home,
            facts.files_is_dir@,
            facts.images_is_dir@,
        )
    }
}

/// Whether an earlier collection with a non-empty name is called like the
/// one at `i`.
fn duplicate_before(cols: &Vec<CollectionConfig>, i: usize) -> (r: bool)
    requires
        i < cols@.len(),
    ensures
        r == is_duplicate(cols@, i as int),
{
    let mut j: usize = 0;
    while j < i
        invariant
            i < cols@.len(),
            j <= i,
            forall|k: int|
                0 <= k < j ==> !(!blank(#[trigger] cols@[k].name@) && cols@[k].name@
                    == cols@[i as int].name@),
        decreases i - j,
    {
        if !is_blank(cols[j].name.as_str()) && cols[j].name == cols[i].name {
            return true;
        }
        j = j + 1;
    }
    false
}

fn push_problem(v: &mut Vec<ConfigProblem>, p: ConfigProblem)
    ensures
        problems_view(final(v)@) == problems_view(old(v)@).push(p@),
{
    let ghost before = v@;
    v.push(p);
    assert(problems_view(v@) =~= problems_view(before).push(p@));
}

fn resolve_opt(dir: &Option<String>, home: &FsPath) -> (r: Option<FsPath>)
    ensures
        opt_path_view(r) == resolved_opt(*dir, home@),
{
    match dir {
        Some(d) => Some(resolve_dir(d.as_str(), home)),
        None => None,
    }
}

/// Checks a configuration against what the filesystem says of its
/// directories, and resolves it. Every problem is reported, in order; an
/// empty `working.files` is reported alone.
pub fn validate_config(cfg: &Config, home: &FsPath, facts: &DirFacts) -> (r: Result<
    AppPaths,
    Vec<ConfigProblem>,
>)
    requires
        facts.files_is_dir@.len() == cfg.collection@.len(),
        facts.images_is_dir@.len() == cfg.collection@.len(),
    ensures
        r is Err <==> config_problems(*cfg, home@, *facts).len() > 0,
        r is Err ==> problems_view(r->Err_0@) == config_problems(*cfg, home@, *facts),
        r is Ok ==> {
            &&& r->Ok_0.working_files@ == resolved(cfg.working.files@, home@)
            &&& opt_path_view(r->Ok_0.working_images) == resolved_opt(cfg.working.images, home@)
            &&& collections_view(r->Ok_0.collections@) == accepted_upto(
                cfg.collection@,
                cfg.collection@.len() as int,
                home@,
            )
        },
{
    let mut errs: Vec<ConfigProblem> = Vec::new();
    if is_blank(cfg.working.files.as_str()) {
        push_problem(&mut errs, ConfigProblem::EmptyWorkingFiles);
        assert(problems_view(errs@) =~= seq![ProblemView::EmptyWorkingFiles]);
        return Err(errs);
    }
    let working_files = resolve_dir(cfg.working.files.as_str(), home);
    let working_images = resolve_opt(&cfg.working.images, home);
    assert(problems_view(errs@) =~= Seq::empty());
    if !facts.working_files_is_dir {
        push_problem(&mut errs, ConfigProblem::WorkingFilesMissing(working_files.duplicate()));
    } else if !facts.working_has_content {
        push_problem(&mut errs, ConfigProblem::NoSupportedFiles(working_files.duplicate()));
    }
    match &working_images {
        Some(p) => {
            if !facts.working_images_is_dir {
                push_problem(&mut errs, ConfigProblem::WorkingImagesMissing(p.duplicate()));
            }
        },
        None => {},
    }
    let ghost wp = working_problems(cfg.working, home@, *facts);
    assert(problems_view(errs@) =~= wp);
    let mut cols: Vec<CollectionPaths> = Vec::new();
    assert(collections_view(cols@) =~= Seq::empty());
    let mut i: usize = 0;
    while i < cfg.collection.len()
        invariant
            i <= cfg.collection@.len(),
            facts.files_is_dir@.len() == cfg.collection@.len(),
            facts.images_is_dir@.len() == cfg.collection@.len(),
            wp == working_problems(cfg.working, home@, *facts),
            problems_view(errs@) == wp + problems_upto(
                cfg.collection@,
                i as int,
                home@,
                facts.files_is_dir@,
                facts.images_is_dir@,
            ),
            collections_view(cols@) == accepted_upto(cfg.collection@, i as int, home@),
        decreases cfg.collection@.len() - i,
    {
        let ghost before = problems_view(errs@);
        let ghost cols_before = collections_view(cols@);
        let c = &cfg.collection[i];
        if is_blank(c.name.as_str()) {
            push_problem(&mut errs, ConfigProblem::EmptyCollectionName);
        } else if duplicate_before(&cfg.collection, i) {
            push_problem(&mut errs, ConfigProblem::DuplicateCollection(c.name.clone()));
        } else if is_blank(c.files.as_str()) {
            push_problem(&mut errs, ConfigProblem::EmptyCollectionFiles(c.name.clone()));
        } else {
            let files = resolve_dir(c.files.as_str(), home);
            let images = resolve_opt(&c.images, home);
            if !facts.files_is_dir[i] {
                push_problem(
                    &mut errs,
                    ConfigProblem::CollectionFilesMissing {
                        name: c.name.clone(),
                        path: files.duplicate(),
                    },
                );
            }
            match &images {
                Some(p) => {
                    if !facts.images_is_dir[i] {
                        push_problem(
                            &mut errs,
                            ConfigProblem::CollectionImagesMissing {
                                name: c.name.clone(),
                                path: p.duplicate(),
                            },
                        );
                    }
                },
                None => {},
            }
            let entry = CollectionPaths { name: c.name.clone(), files, images };
            let ghost ev = entry@;
            cols.push(entry);
            assert(collections_view(cols@) =~= cols_before.push(ev));
        }
        proof {
            let cp = collection_problems(
                cfg.collection@,
                i as int,
                home@,
                facts.files_is_dir@[i as int],
                facts.images_is_dir@[i as int],
            );
            assert(problems_view(errs@) =~= before + cp);
            assert(wp + problems_upto(
                cfg.collection@,
                i + 1,
                home@,
                facts.files_is_dir@,
                facts.images_is_dir@,
            ) =~= before + cp);
        }
        i = i + 1;
    }
    if errs.len() > 0 {
        Err(errs)
    } else {
        assert(problems_view(errs@).len() == 0);
        Ok(AppPaths { working_files, working_images, collections: cols })
    }
}

} // verus!
