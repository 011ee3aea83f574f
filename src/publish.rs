//! Publishing: copy a content file and its media assets into a collection,
//! confirm, commit; roll back every copy on any failure or refusal.
use vstd::prelude::*;
use crate::assets::{DirEntry, lemma_assets_named, matching_assets, matching_images_for_stem};
use crate::config::{CollectionPaths, duplicate_opt, opt_path_view};
use crate::names::{file_stem, lower_of, lowercase, stem_of};
use crate::path::{FsPath, PathView, paths_view, strings_view};
use crate::txn::{
    Action,
    ActionView,
    CopyOutcome,
    CopyOutcomeView,
    EngineError,
    ErrorKind,
    ErrorKindView,
    Outcome,
    OutcomeView,
    Question,
    QuestionView,
    duplicate_paths,
    finish_err,
    listing_view,
    opt_kind_view,
    status_view,
};
use crate::vcs::{add_commit_message, add_message, get_site_root, site_root_of};

verus! {

/// Where a publish stands: what it is waiting for.
#[derive(PartialEq, Eq, Structural, Clone, Copy, Debug)]
pub enum PublishPhase {
    /// The outcome of copying the content file.
    CopyingMarkdown,
    /// The listing of the working images directory.
    ListingAssets,
    /// The outcome of copying the asset at `next`.
    CopyingAsset,
    /// The operator's answer.
    Confirming,
    /// The outcome of the version-control step.
    Committing,
    /// The failures of removing the staged files.
    RollingBack,
    /// Nothing: the transaction is over.
    Done,
}

/// Model of a publish in progress.
pub ghost struct PublishView {
    pub selected: PathView,
    pub name: Seq<char>,
    pub stem_lower: Seq<char>,
    pub dest_files: PathView,
    pub dest_images: Option<PathView>,
    pub working_images: Option<PathView>,
    /// The assets found for the content file, to be copied in order.
    pub assets: Seq<PathView>,
    /// How many assets have been copied.
    pub next: int,
    /// Every destination this transaction has written to, in order.
    pub staged: Seq<PathView>,
    /// The error to report once rollback is over; `None` for a refusal.
    pub pending: Option<ErrorKindView>,
    pub phase: PublishPhase,
}

impl PublishView {
    /// Where the content file goes.
    pub open spec fn markdown_dest(self) -> PathView {
        self.dest_files.join(self.name)
    }

    /// Whether both image directories are configured.
    pub open spec fn images_configured(self) -> bool {
        self.working_images is Some && self.dest_images is Some
    }

    /// Where the asset at `i` goes.
    pub open spec fn asset_dest(self, i: int) -> PathView {
        self.dest_images->0.join(self.assets[i].file_name()->0)
    }

    /// The destinations of the content file and of the first `n` assets.
    pub open spec fn copies(self, n: int) -> Seq<PathView> {
        seq![self.markdown_dest()] + Seq::new(n as nat, |i: int| self.asset_dest(i))
    }

    /// The same state in another phase.
    pub open spec fn with_phase(self, phase: PublishPhase) -> PublishView {
        PublishView { phase, ..self }
    }

    /// The relations that hold between the fields in every reachable state.
    pub open spec fn wf(self) -> bool {
        &&& self.dest_files.parts.len() > 0
        &&& !self.images_configured() ==> self.assets.len() == 0
        &&& forall|i: int| 0 <= i < self.assets.len() ==> (#[trigger] self.assets[i]).parts.len() > 0
        &&& 0 <= self.next <= self.assets.len()
        &&& match self.phase {
            PublishPhase::CopyingMarkdown => self.staged.len() == 0 && self.assets.len() == 0,
            PublishPhase::ListingAssets => {
                &&& self.images_configured()
                &&& self.assets.len() == 0
                &&& self.staged == self.copies(0)
            },
            PublishPhase::CopyingAsset => {
                &&& self.images_configured()
                &&& self.next < self.assets.len()
                &&& self.staged == self.copies(self.next)
            },
            PublishPhase::Confirming | PublishPhase::Committing => {
                self.staged == self.copies(self.assets.len() as int)
            },
            PublishPhase::RollingBack => {
                &&& 1 <= self.staged.len() <= self.assets.len() + 1
                &&& self.staged == self.copies(self.staged.len() - 1)
            },
            PublishPhase::Done => true,
        }
    }
}

/// Leaves for rollback: remove every staged file, then report `pending`.
pub open spec fn rollback(s: PublishView, pending: Option<ErrorKindView>) -> (
    PublishView,
    ActionView,
) {
    (
        PublishView { phase: PublishPhase::RollingBack, pending, ..s },
        ActionView::RemoveAll { paths: s.staged },
    )
}

/// Asks the operator about every staged file.
pub open spec fn confirm(s: PublishView) -> (PublishView, ActionView) {
    (
        s.with_phase(PublishPhase::Confirming),
        ActionView::Confirm { question: QuestionView::Publish, paths: s.staged },
    )
}

/// The first step: copy the content file, never over an existing one.
pub open spec fn begin(
    selected: PathView,
    dest_files: PathView,
    dest_images: Option<PathView>,
    working_images: Option<PathView>,
) -> (PublishView, ActionView) {
    let name = match selected.file_name() {
        Some(n) => n,
        None => Seq::empty(),
    };
    let s = PublishView {
        selected,
        name,
        stem_lower: lower_of(stem_of(name)),
        dest_files,
        dest_images,
        working_images,
        assets: Seq::empty(),
        next: 0,
        staged: Seq::empty(),
        pending: None,
        phase: PublishPhase::CopyingMarkdown,
    };
    if selected.file_name() is None {
        (s.with_phase(PublishPhase::Done), finish_err(ErrorKindView::InvalidName, Seq::empty()))
    } else {
        (s, ActionView::CopyNoOverwrite { src: selected, dest: s.markdown_dest() })
    }
}

/// The step after a copy.
pub open spec fn on_copied(s: PublishView, o: CopyOutcomeView) -> (PublishView, ActionView) {
    if s.phase == PublishPhase::CopyingMarkdown {
        let md = s.markdown_dest();
        match o {
            CopyOutcomeView::Copied => {
                let s1 = PublishView { staged: seq![md], ..s };
                if s.images_configured() {
                    (
                        s1.with_phase(PublishPhase::ListingAssets),
                        ActionView::ListDir { dir: s.working_images->0 },
                    )
                } else {
                    confirm(s1)
                }
            },
            CopyOutcomeView::Conflict => (
                s.with_phase(PublishPhase::Done),
                finish_err(ErrorKindView::DestinationConflict(md), Seq::empty()),
            ),
            CopyOutcomeView::Failed(r) => rollback(
                PublishView { staged: seq![md], ..s },
                Some(ErrorKindView::CopyFailure { path: md, reason: r }),
            ),
        }
    } else {
        let d = s.asset_dest(s.next);
        match o {
            CopyOutcomeView::Copied => {
                let s1 = PublishView { staged: s.staged.push(d), next: s.next + 1, ..s };
                if s.next + 1 < s.assets.len() {
                    (
                        s1,
                        ActionView::CopyNoOverwrite {
                            src: s.assets[s.next + 1],
                            dest: s.asset_dest(s.next + 1),
                        },
                    )
                } else {
                    confirm(s1)
                }
            },
            CopyOutcomeView::Conflict => rollback(s, Some(ErrorKindView::AssetConflict(d))),
            CopyOutcomeView::Failed(r) => rollback(
                PublishView { staged: s.staged.push(d), ..s },
                Some(ErrorKindView::CopyFailure { path: d, reason: r }),
            ),
        }
    }
}

/// The step after listing the working images directory.
pub open spec fn on_listed(s: PublishView, l: Result<Seq<(Seq<char>, bool)>, Seq<char>>) -> (
    PublishView,
    ActionView,
) {
    match l {
        Ok(entries) => {
            let a = matching_assets(s.stem_lower, s.working_images->0, entries);
            let s1 = PublishView { assets: a, next: 0, ..s };
            if a.len() == 0 {
                confirm(s1)
            } else {
                (
                    s1.with_phase(PublishPhase::CopyingAsset),
                    ActionView::CopyNoOverwrite { src: a[0], dest: s1.asset_dest(0) },
                )
            }
        },
        Err(r) => rollback(
            s,
            Some(ErrorKindView::ListFailure { dir: s.working_images->0, reason: r }),
        ),
    }
}

/// The step after the operator answered.
pub open spec fn on_answer(s: PublishView, yes: bool) -> (PublishView, ActionView) {
    if yes {
        (
            s.with_phase(PublishPhase::Committing),
            ActionView::RunVcs {
                root: site_root_of(s.dest_files),
                message: add_message(s.name),
                paths: s.staged,
            },
        )
    } else {
        rollback(s, None)
    }
}

/// The step after the version-control step.
pub open spec fn on_committed(s: PublishView, r: Result<(), Seq<char>>) -> (
    PublishView,
    ActionView,
) {
    match r {
        Ok(()) => (
            s.with_phase(PublishPhase::Done),
            ActionView::Finish(Ok(OutcomeView::Completed { name: s.name })),
        ),
        Err(d) => rollback(s, Some(ErrorKindView::VersionControl(d))),
    }
}

/// The last step, after removing the staged files.
pub open spec fn on_rolled_back(s: PublishView, failures: Seq<Seq<char>>) -> (
    PublishView,
    ActionView,
) {
    (
        PublishView { phase: PublishPhase::Done, pending: None, ..s },
        match s.pending {
            None => if failures.len() == 0 {
                ActionView::Finish(Ok(OutcomeView::Aborted))
            } else {
                finish_err(ErrorKindView::Aborted, failures)
            },
            Some(k) => finish_err(k, failures),
        },
    )
}

proof fn lemma_copies_push(s: PublishView, n: int)
    requires
        0 <= n,
    ensures
        s.copies(n + 1) == s.copies(n).push(s.asset_dest(n)),
{
    assert(s.copies(n + 1) =~= s.copies(n).push(s.asset_dest(n)));
}

/// Every step after a copy keeps the state well formed.
pub proof fn lemma_on_copied_wf(s: PublishView, o: CopyOutcomeView)
    requires
        s.wf(),
        s.phase == PublishPhase::CopyingMarkdown || s.phase == PublishPhase::CopyingAsset,
    ensures
        on_copied(s, o).0.wf(),
{
    let t = on_copied(s, o).0;
    if s.phase == PublishPhase::CopyingMarkdown {
        assert(s.copies(0) =~= seq![s.markdown_dest()]);
        assert(t.copies(0) =~= s.copies(0));
    } else {
        lemma_copies_push(s, s.next);
        assert(t.copies(s.next + 1) =~= s.copies(s.next + 1));
        assert(t.copies(s.next) =~= s.copies(s.next));
    }
}

/// Every step after the listing keeps the state well formed.
pub proof fn lemma_on_listed_wf(s: PublishView, l: Result<Seq<(Seq<char>, bool)>, Seq<char>>)
    requires
        s.wf(),
        s.phase == PublishPhase::ListingAssets,
    ensures
        on_listed(s, l).0.wf(),
{
    let t = on_listed(s, l).0;
    assert(t.copies(0) =~= s.copies(0));
    if let Ok(entries) = l {
        lemma_assets_named(s.stem_lower, s.working_images->0, entries);
    }
}

/// Every step after the answer keeps the state well formed.
pub proof fn lemma_on_answer_wf(s: PublishView, yes: bool)
    requires
        s.wf(),
        s.phase == PublishPhase::Confirming,
    ensures
        on_answer(s, yes).0.wf(),
{
    let t = on_answer(s, yes).0;
    assert(t.copies(s.assets.len() as int) =~= s.copies(s.assets.len() as int));
    assert(s.copies(s.assets.len() as int).len() == s.assets.len() + 1);
}

/// Every step after the version-control step keeps the state well formed.
pub proof fn lemma_on_committed_wf(s: PublishView, r: Result<(), Seq<char>>)
    requires
        s.wf(),
        s.phase == PublishPhase::Committing,
    ensures
        on_committed(s, r).0.wf(),
{
    let t = on_committed(s, r).0;
    assert(t.copies(s.assets.len() as int) =~= s.copies(s.assets.len() as int));
    assert(s.copies(s.assets.len() as int).len() == s.assets.len() + 1);
}

/// Whether `a`, issued with `t` as the new state, can only write to paths
/// that were free: copies never overwrite, and the only removal is of
/// the files this transaction itself wrote.
pub open spec fn writes_only_fresh(t: PublishView, a: ActionView) -> bool {
    match a {
        ActionView::CopyNoOverwrite { .. } => true,
        ActionView::ListDir { .. } => true,
        ActionView::Confirm { .. } => true,
        ActionView::RunVcs { .. } => true,
        ActionView::Finish(_) => true,
        ActionView::RemoveAll { paths } => paths == t.staged && t.staged == t.copies(
            t.staged.len() - 1,
        ),
        _ => false,
    }
}

/// Publishing never overwrites an existing file: every step copies only
/// without overwriting, and rollback removes only the destinations this
/// transaction copied to (the content file first, then the assets in order).
pub proof fn law_publish_never_overwrites(
    s: PublishView,
    o: CopyOutcomeView,
    l: Result<Seq<(Seq<char>, bool)>, Seq<char>>,
    yes: bool,
    r: Result<(), Seq<char>>,
    failures: Seq<Seq<char>>,
)
    requires
        s.wf(),
    ensures
        s.phase == PublishPhase::CopyingMarkdown || s.phase == PublishPhase::CopyingAsset
            ==> writes_only_fresh(on_copied(s, o).0, on_copied(s, o).1),
        s.phase == PublishPhase::ListingAssets ==> writes_only_fresh(
            on_listed(s, l).0,
            on_listed(s, l).1,
        ),
        s.phase == PublishPhase::Confirming ==> writes_only_fresh(
            on_answer(s, yes).0,
            on_answer(s, yes).1,
        ),
        s.phase == PublishPhase::Committing ==> writes_only_fresh(
            on_committed(s, r).0,
            on_committed(s, r).1,
        ),
        s.phase == PublishPhase::RollingBack ==> writes_only_fresh(
            on_rolled_back(s, failures).0,
            on_rolled_back(s, failures).1,
        ),
{
    if s.phase == PublishPhase::CopyingMarkdown || s.phase == PublishPhase::CopyingAsset {
        lemma_on_copied_wf(s, o);
    }
    if s.phase == PublishPhase::ListingAssets {
        lemma_on_listed_wf(s, l);
    }
    if s.phase == PublishPhase::Confirming {
        lemma_on_answer_wf(s, yes);
    }
    if s.phase == PublishPhase::Committing {
        lemma_on_committed_wf(s, r);
    }
}

/// When the content file already exists at its destination, publishing
/// fails with a destination conflict having written nothing: its only
/// action was a copy that does not overwrite, and nothing is staged.
pub proof fn law_existing_markdown_conflict(
    selected: PathView,
    dest_files: PathView,
    dest_images: Option<PathView>,
    working_images: Option<PathView>,
)
    requires
        selected.file_name() is Some,
    ensures
        ({
            let (s, a) = begin(selected, dest_files, dest_images, working_images);
            let (t, b) = on_copied(s, CopyOutcomeView::Conflict);
            let md = dest_files.join(selected.file_name()->0);
            &&& a == ActionView::CopyNoOverwrite { src: selected, dest: md }
            &&& b == finish_err(ErrorKindView::DestinationConflict(md), Seq::empty())
            &&& t.staged.len() == 0
            &&& t.phase == PublishPhase::Done
        }),
{
}

/// When an asset copy meets an existing file, every file copied so far,
/// the content file first among them, is removed, and the publish then
/// fails with that conflict (plus whatever removals failed).
pub proof fn law_asset_conflict_rolls_back(s: PublishView, failures: Seq<Seq<char>>)
    requires
        s.wf(),
        s.phase == PublishPhase::CopyingAsset,
    ensures
        ({
            let (t, a) = on_copied(s, CopyOutcomeView::Conflict);
            &&& a == ActionView::RemoveAll { paths: s.copies(s.next) }
            &&& s.copies(s.next)[0] == s.markdown_dest()
            &&& t.phase == PublishPhase::RollingBack
            &&& on_rolled_back(t, failures).1 == finish_err(
                ErrorKindView::AssetConflict(s.asset_dest(s.next)),
                failures,
            )
        }),
{
}

/// Declining the confirmation removes every file copied up to then, the
/// content file and all its assets; with every removal done the publish
/// ends as aborted, otherwise it fails and reports the removals that failed.
pub proof fn law_decline_removes_every_copy(s: PublishView, failures: Seq<Seq<char>>)
    requires
        s.wf(),
        s.phase == PublishPhase::Confirming,
    ensures
        ({
            let (t, a) = on_answer(s, false);
            &&& a == ActionView::RemoveAll { paths: s.copies(s.assets.len() as int) }
            &&& t.phase == PublishPhase::RollingBack
            &&& failures.len() == 0 ==> on_rolled_back(t, failures).1 == ActionView::Finish(
                Ok(OutcomeView::Aborted),
            )
            &&& failures.len() > 0 ==> on_rolled_back(t, failures).1 == finish_err(
                ErrorKindView::Aborted,
                failures,
            )
        }),
{
}

/// When the version-control step fails, every file copied is removed and
/// the publish fails with that step's diagnostic, the removals that failed
/// reported beside it.
pub proof fn law_vcs_failure_rolls_back(
    s: PublishView,
    diagnostic: Seq<char>,
    failures: Seq<Seq<char>>,
)
    requires
        s.wf(),
        s.phase == PublishPhase::Committing,
    ensures
        ({
            let (t, a) = on_committed(s, Err(diagnostic));
            &&& a == ActionView::RemoveAll { paths: s.copies(s.assets.len() as int) }
            &&& on_rolled_back(t, failures).1 == finish_err(
                ErrorKindView::VersionControl(diagnostic),
                failures,
            )
        }),
{
}

/// A publish in progress. Each method takes what the caller observed for
/// the previous action and returns the next action.
pub struct Publish {
    selected: FsPath,
    name: String,
    stem_lower: String,
    dest_files: FsPath,
    dest_images: Option<FsPath>,
    working_images: Option<FsPath>,
    assets: Vec<FsPath>,
    next: usize,
    staged: Vec<FsPath>,
    pending: Option<ErrorKind>,
    phase: PublishPhase,
}

impl View for Publish {
    type V = PublishView;

    closed spec fn view(&self) -> PublishView {
        PublishView {
            selected: self.selected@,
            name: self.name@,
            stem_lower: self.stem_lower@,
            dest_files: self.dest_files@,
            dest_images: opt_path_view(self.dest_images),
            working_images: opt_path_view(self.working_images),
            assets: paths_view(self.assets@),
            next: self.next as int,
            staged: paths_view(self.staged@),
            pending: opt_kind_view(self.pending),
            phase: self.phase,
        }
    }
}

impl Publish {
    /// Starts publishing `selected` into `destination`, taking assets from
    /// `working_images` when both image directories are configured.
    pub fn start(
        selected: &FsPath,
        destination: &CollectionPaths,
        working_images: &Option<FsPath>,
    ) -> (r: (Publish, Action))
        requires
            destination.files@.parts.len() > 0,
        ensures
            (r.0@, r.1@) == begin(
                selected@,
                destination.files@,
                opt_path_view(destination.images),
                opt_path_view(*working_images),
            ),
            r.0@.wf(),
    {
        let name_opt = selected.file_name();
        let name = match &name_opt {
            Some(n) => n.clone(),
            None => String::new(),
        };
        let stem = file_stem(name.as_str());
        let stem_lower = lowercase(stem.as_str());
        let mut p = Publish {
            selected: selected.duplicate(),
            name,
            stem_lower,
            dest_files: destination.files.duplicate(),
            dest_images: duplicate_opt(&destination.images),
            working_images: duplicate_opt(working_images),
            assets: Vec::new(),
            next: 0,
            staged: Vec::new(),
            pending: None,
            phase: PublishPhase::CopyingMarkdown,
        };
        proof {
            assert(paths_view(p.assets@) =~= Seq::empty());
            assert(paths_view(p.staged@) =~= Seq::empty());
        }
        match name_opt {
            None => {
                p.phase = PublishPhase::Done;
                let e = EngineError { kind: ErrorKind::InvalidName, rollback_failures: Vec::new() };
                proof {
                    assert(e@.rollback_failures =~= Seq::empty());
                }
                (p, Action::Finish(Err(e)))
            },
            Some(_) => {
                let dest = p.dest_files.join(&p.name);
                (p, Action::CopyNoOverwrite { src: selected.duplicate(), dest })
            },
        }
    }

    /// What the publish is waiting for.
    pub fn phase(&self) -> (r: PublishPhase)
        ensures
            r == self@.phase,
    {
        self.phase
    }

    fn asset_dest(&self, i: usize) -> (r: FsPath)
        requires
            self@.wf(),
            i < self@.assets.len(),
            self@.dest_images is Some,
        ensures
            r@ == self@.asset_dest(i as int),
    {
        let a = &self.assets[i];
        assert(self@.assets[i as int] == a@);
        let name = a.file_name().unwrap();
        match &self.dest_images {
            Some(d) => d.join(&name),
            None => FsPath::new(false, Vec::new()),
        }
    }

    fn rollback(&mut self, pending: Option<ErrorKind>) -> (a: Action)
        ensures
            (final(self)@, a@) == rollback(old(self)@, opt_kind_view(pending)),
    {
        self.phase = PublishPhase::RollingBack;
        self.pending = pending;
        Action::RemoveAll { paths: duplicate_paths(&self.staged) }
    }

    fn confirm(&mut self) -> (a: Action)
        ensures
            (final(self)@, a@) == confirm(old(self)@),
    {
        self.phase = PublishPhase::Confirming;
        Action::Confirm { question: Question::Publish, paths: duplicate_paths(&self.staged) }
    }

    /// Takes the outcome of the copy that the last action asked for.
    pub fn copied(&mut self, outcome: CopyOutcome) -> (a: Action)
        requires
            old(self)@.wf(),
            old(self)@.phase == PublishPhase::CopyingMarkdown || old(self)@.phase
                == PublishPhase::CopyingAsset,
        ensures
            (final(self)@, a@) == on_copied(old(self)@, outcome@),
            final(self)@.wf(),
    {
        let ghost s = self@;
        proof {
            lemma_on_copied_wf(s, outcome@);
        }
        if self.phase == PublishPhase::CopyingMarkdown {
            let md = self.dest_files.join(&self.name);
            match outcome {
                CopyOutcome::Copied => {
                    self.staged.push(md);
                    proof {
                        assert(self@.staged =~= seq![s.markdown_dest()]);
                        assert(s.copies(0) =~= seq![s.markdown_dest()]);
                    }
                    if self.working_images.is_some() && self.dest_images.is_some() {
                        self.phase = PublishPhase::ListingAssets;
                        let dir = match &self.working_images {
                            Some(w) => w.duplicate(),
                            None => FsPath::new(false, Vec::new()),
                        };
                        Action::ListDir { dir }
                    } else {
                        self.confirm()
                    }
                },
                CopyOutcome::Conflict => {
                    self.phase = PublishPhase::Done;
                    let e = EngineError {
                        kind: ErrorKind::DestinationConflict(md),
                        rollback_failures: Vec::new(),
                    };
                    proof {
                        assert(e@.rollback_failures =~= Seq::empty());
                    }
                    Action::Finish(Err(e))
                },
                CopyOutcome::Failed(r) => {
                    self.staged.push(md.duplicate());
                    proof {
                        assert(self@.staged =~= seq![s.markdown_dest()]);
                        assert(s.copies(0) =~= seq![s.markdown_dest()]);
                    }
                    self.rollback(Some(ErrorKind::CopyFailure { path: md, reason: r }))
                },
            }
        } else {
            let d = self.asset_dest(self.next);
            let total = self.assets.len();
            assert(self.next < total);
            match outcome {
                CopyOutcome::Copied => {
                    self.staged.push(d);
                    self.next = self.next + 1;
                    proof {
                        assert(self@.staged =~= s.staged.push(s.asset_dest(s.next)));
                        assert(s.copies(s.next + 1) =~= s.copies(s.next).push(
                            s.asset_dest(s.next),
                        ));
                    }
                    if self.next < self.assets.len() {
                        let src = self.assets[self.next].duplicate();
                        let dest = self.asset_dest(self.next);
                        Action::CopyNoOverwrite { src, dest }
                    } else {
                        self.confirm()
                    }
                },
                CopyOutcome::Conflict => self.rollback(Some(ErrorKind::AssetConflict(d))),
                CopyOutcome::Failed(r) => {
                    self.staged.push(d.duplicate());
                    proof {
                        assert(self@.staged =~= s.staged.push(s.asset_dest(s.next)));
                        assert(s.copies(s.next + 1) =~= s.copies(s.next).push(
                            s.asset_dest(s.next),
                        ));
                    }
                    self.rollback(Some(ErrorKind::CopyFailure { path: d, reason: r }))
                },
            }
        }
    }

    /// Takes the listing of the working images directory.
    pub fn listed(&mut self, listing: Result<Vec<DirEntry>, String>) -> (a: Action)
        requires
            old(self)@.wf(),
            old(self)@.phase == PublishPhase::ListingAssets,
        ensures
            (final(self)@, a@) == on_listed(old(self)@, listing_view(listing)),
            final(self)@.wf(),
    {
        let ghost s = self@;
        proof {
            lemma_on_listed_wf(s, listing_view(listing));
        }
        let dir = match &self.working_images {
            Some(w) => w.duplicate(),
            None => FsPath::new(false, Vec::new()),
        };
        match listing {
            Ok(entries) => {
                self.assets = matching_images_for_stem(self.stem_lower.as_str(), &dir, &entries);
                self.next = 0;
                if self.assets.len() == 0 {
                    self.confirm()
                } else {
                    self.phase = PublishPhase::CopyingAsset;
                    let src = self.assets[0].duplicate();
                    proof {
                        lemma_assets_named(s.stem_lower, dir@, listing_view(listing)->Ok_0);
                    }
                    let dest = self.asset_dest(0);
                    Action::CopyNoOverwrite { src, dest }
                }
            },
            Err(reason) => self.rollback(Some(ErrorKind::ListFailure { dir, reason })),
        }
    }

    /// Takes the operator's answer; a cancelled prompt counts as a no.
    pub fn answered(&mut self, yes: bool) -> (a: Action)
        requires
            old(self)@.wf(),
            old(self)@.phase == PublishPhase::Confirming,
        ensures
            (final(self)@, a@) == on_answer(old(self)@, yes),
            final(self)@.wf(),
    {
        proof {
            lemma_on_answer_wf(self@, yes);
        }
        if yes {
            self.phase = PublishPhase::Committing;
            let root = get_site_root(&self.dest_files);
            let message = add_commit_message(&self.name);
            Action::RunVcs { root, message, paths: duplicate_paths(&self.staged) }
        } else {
            self.rollback(None)
        }
    }

    /// Takes the outcome of the version-control step.
    pub fn committed(&mut self, result: Result<(), String>) -> (a: Action)
        requires
            old(self)@.wf(),
            old(self)@.phase == PublishPhase::Committing,
        ensures
            (final(self)@, a@) == on_committed(old(self)@, status_view(result)),
            final(self)@.wf(),
    {
        proof {
            lemma_on_committed_wf(self@, status_view(result));
        }
        match result {
            Ok(()) => {
                self.phase = PublishPhase::Done;
                Action::Finish(Ok(Outcome::Completed { name: self.name.clone() }))
            },
            Err(d) => self.rollback(Some(ErrorKind::VersionControl(d))),
        }
    }

    /// Takes the failures met while removing the staged files, and ends the
    /// transaction.
    pub fn rolled_back(&mut self, failures: Vec<String>) -> (a: Action)
        requires
            old(self)@.wf(),
            old(self)@.phase == PublishPhase::RollingBack,
        ensures
            (final(self)@, a@) == on_rolled_back(old(self)@, strings_view(failures@)),
            final(self)@.wf(),
    {
        self.phase = PublishPhase::Done;
        match self.pending.take() {
            None => {
                if failures.len() == 0 {
                    Action::Finish(Ok(Outcome::Aborted))
                } else {
                    Action::Finish(Err(EngineError { kind: ErrorKind::Aborted, rollback_failures: failures }))
                }
            },
            Some(k) => Action::Finish(Err(EngineError { kind: k, rollback_failures: failures })),
        }
    }
}

} // verus!
