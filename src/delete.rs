//! Deleting: optionally keep a copy in the working area, save every file to
//! be deleted in a temporary directory, confirm, remove, commit; restore
//! from the saved copies if removal or the commit fails.
use vstd::prelude::*;
use crate::assets::{DirEntry, lemma_assets_named, matching_assets, matching_images_for_stem};
use crate::config::{CollectionPaths, duplicate_opt, opt_path_view};
use crate::names::{file_stem, lower_of, lowercase, stem_of};
use crate::path::{FsPath, PathView, paths_view, strings_view};
use crate::txn::{
    Action,
    ActionView,
    BackupRecord,
    CopyOutcome,
    CopyOutcomeView,
    EngineError,
    ErrorKind,
    ErrorKindView,
    Outcome,
    OutcomeView,
    Question,
    QuestionView,
    duplicate_paths,
    finish_err,
    listing_view,
    opt_kind_view,
    records_view,
    restore_and_cleanup,
    status_view,
};
use crate::vcs::{get_site_root, remove_commit_message, remove_message, site_root_of};

verus! {

/// Where a delete stands: what it is waiting for.
#[derive(PartialEq, Eq, Structural, Clone, Copy, Debug)]
pub enum DeletePhase {
    /// Whether the file already exists in the working area.
    CheckingWorkingCopy,
    /// Whether to copy the file into the working area first.
    AskingBackup,
    /// The outcome of copying the file into the working area.
    CopyingMarkdown,
    /// The listing of the collection's images, for the working-area copy.
    ListingBackupAssets,
    /// The outcome of copying the asset at `next` into the working area.
    CopyingAsset,
    /// The failures of removing a partial working-area copy.
    DiscardingBackup,
    /// The listing of the collection's images, for the deletion set.
    ListingDeletion,
    /// The temporary backup of the deletion set.
    BackingUp,
    /// The operator's answer on deleting.
    ConfirmingDeletion,
    /// The outcome of removing the file at `removed`.
    Removing,
    /// The outcome of restoring the deletion set.
    Restoring,
    /// The outcome of the version-control step.
    Committing,
    /// The end of removing the temporary backup after a refusal.
    DiscardingTemp,
    /// The end of removing the temporary backup after a commit.
    CleaningUp,
    /// Nothing: the transaction is over.
    Done,
}

/// Model of a delete in progress.
pub ghost struct DeleteView {
    pub selected: PathView,
    pub name: Seq<char>,
    pub stem_lower: Seq<char>,
    pub collection_files: PathView,
    pub collection_images: Option<PathView>,
    pub working_files: PathView,
    pub working_images: Option<PathView>,
    /// The copies made in the working area.
    pub kept: Seq<PathView>,
    /// The assets to copy into the working area, in order.
    pub assets: Seq<PathView>,
    /// How many of them have been copied.
    pub next: int,
    /// The files to delete: the selected file, then its assets.
    pub to_delete: Seq<PathView>,
    /// The temporary directory that holds the saved copies.
    pub backup_dir: PathView,
    /// Each file to delete that existed, with its saved copy.
    pub records: Seq<(PathView, PathView)>,
    /// How many files of `to_delete` have been removed.
    pub removed: int,
    /// The error to report once compensation is over.
    pub pending: Option<ErrorKindView>,
    pub phase: DeletePhase,
}

impl DeleteView {
    /// Where the working-area copy of the file goes.
    pub open spec fn working_md(self) -> PathView {
        self.working_files.join(self.name)
    }

    /// Whether both image directories are configured.
    pub open spec fn images_configured(self) -> bool {
        self.collection_images is Some && self.working_images is Some
    }

    /// Where the working-area copy of the asset at `i` goes.
    pub open spec fn asset_dest(self, i: int) -> PathView {
        self.working_images->0.join(self.assets[i].file_name()->0)
    }

    /// The working-area copies of the file and of the first `n` assets.
    pub open spec fn kept_copies(self, n: int) -> Seq<PathView> {
        seq![self.working_md()] + Seq::new(n as nat, |i: int| self.asset_dest(i))
    }

    /// The same state in another phase.
    pub open spec fn with_phase(self, phase: DeletePhase) -> DeleteView {
        DeleteView { phase, ..self }
    }

    /// Whether the temporary backup of the deletion set has been taken.
    pub open spec fn backed_up(self) -> bool {
        ||| self.phase == DeletePhase::ConfirmingDeletion
        ||| self.phase == DeletePhase::Removing
        ||| self.phase == DeletePhase::Restoring
        ||| self.phase == DeletePhase::Committing
        ||| self.phase == DeletePhase::DiscardingTemp
        ||| self.phase == DeletePhase::CleaningUp
    }

    /// The relations that hold between the fields in every reachable state.
    pub open spec fn wf(self) -> bool {
        &&& self.collection_files.parts.len() > 0
        &&& forall|i: int| 0 <= i < self.assets.len() ==> (#[trigger] self.assets[i]).parts.len() > 0
        &&& 0 <= self.next <= self.assets.len()
        &&& self.phase == DeletePhase::CopyingAsset ==> {
            &&& self.images_configured()
            &&& self.next < self.assets.len()
        }
        &&& self.phase == DeletePhase::CopyingAsset ==> self.kept == self.kept_copies(self.next)
        &&& self.phase == DeletePhase::ListingBackupAssets ==> {
            &&& self.images_configured()
            &&& self.kept == self.kept_copies(0)
        }
        &&& self.phase == DeletePhase::DiscardingBackup ==> {
            &&& 1 <= self.kept.len() <= self.assets.len() + 1
            &&& self.kept == self.kept_copies(self.kept.len() - 1)
        }
        &&& self.phase == DeletePhase::ListingDeletion ==> self.collection_images is Some
        &&& (self.backed_up() || self.phase == DeletePhase::BackingUp) ==> self.to_delete.len()
            >= 1
        &&& self.phase == DeletePhase::Removing ==> 0 <= self.removed < self.to_delete.len()
        &&& (self.phase == DeletePhase::Restoring || self.phase == DeletePhase::DiscardingBackup)
            ==> self.pending is Some
    }
}

/// Moves on to listing the deletion set.
pub open spec fn gather(s: DeleteView) -> (DeleteView, ActionView) {
    if s.collection_images is Some {
        (
            s.with_phase(DeletePhase::ListingDeletion),
            ActionView::ListDir { dir: s.collection_images->0 },
        )
    } else {
        back_up(DeleteView { to_delete: seq![s.selected], ..s })
    }
}

/// Saves the deletion set in a temporary directory.
pub open spec fn back_up(s: DeleteView) -> (DeleteView, ActionView) {
    (s.with_phase(DeletePhase::BackingUp), ActionView::BackupToTemp { paths: s.to_delete })
}

/// Removes the partial working-area copy, then reports `k`.
pub open spec fn discard(s: DeleteView, k: ErrorKindView) -> (DeleteView, ActionView) {
    (
        DeleteView { phase: DeletePhase::DiscardingBackup, pending: Some(k), ..s },
        ActionView::RemoveAll { paths: s.kept },
    )
}

/// Puts the deletion set back from the temporary backup, then reports `k`.
pub open spec fn restore(s: DeleteView, k: ErrorKindView) -> (DeleteView, ActionView) {
    (
        DeleteView { phase: DeletePhase::Restoring, pending: Some(k), ..s },
        ActionView::RestoreAndCleanup { records: s.records, dir: s.backup_dir },
    )
}

/// Copies the asset at `i` into the working area.
pub open spec fn copy_asset(s: DeleteView, i: int) -> ActionView {
    ActionView::CopyNoOverwrite { src: s.assets[i], dest: s.asset_dest(i) }
}

/// The first step: does the working area already hold the file?
pub open spec fn begin(
    selected: PathView,
    collection_files: PathView,
    collection_images: Option<PathView>,
    working_files: PathView,
    working_images: Option<PathView>,
) -> (DeleteView, ActionView) {
    let name = match selected.file_name() {
        Some(n) => n,
        None => Seq::empty(),
    };
    let s = DeleteView {
        selected,
        name,
        stem_lower: lower_of(stem_of(name)),
        collection_files,
        collection_images,
        working_files,
        working_images,
        kept: Seq::empty(),
        assets: Seq::empty(),
        next: 0,
        to_delete: Seq::empty(),
        backup_dir: PathView { absolute: false, parts: Seq::empty() },
        records: Seq::empty(),
        removed: 0,
        pending: None,
        phase: DeletePhase::CheckingWorkingCopy,
    };
    if selected.file_name() is None {
        (s.with_phase(DeletePhase::Done), finish_err(ErrorKindView::InvalidName, Seq::empty()))
    } else {
        (s, ActionView::CheckExists { path: s.working_md() })
    }
}

/// The step after checking the working area.
pub open spec fn on_working_copy(s: DeleteView, present: bool) -> (DeleteView, ActionView) {
    if present {
        gather(s)
    } else {
        (
            s.with_phase(DeletePhase::AskingBackup),
            ActionView::Confirm {
                question: QuestionView::WorkingBackup { name: s.name },
                paths: seq![s.selected],
            },
        )
    }
}

/// The step after an answer.
pub open spec fn on_answer(s: DeleteView, yes: bool) -> (DeleteView, ActionView) {
    if s.phase == DeletePhase::AskingBackup {
        if yes {
            (
                s.with_phase(DeletePhase::CopyingMarkdown),
                ActionView::CopyNoOverwrite { src: s.selected, dest: s.working_md() },
            )
        } else {
            gather(s)
        }
    } else {
        if yes {
            (
                DeleteView { phase: DeletePhase::Removing, removed: 0, ..s },
                ActionView::RemoveFile { path: s.to_delete[0] },
            )
        } else {
            (
                s.with_phase(DeletePhase::DiscardingTemp),
                ActionView::CleanupBackups { dir: s.backup_dir },
            )
        }
    }
}

/// The step after a copy into the working area.
pub open spec fn on_copied(s: DeleteView, o: CopyOutcomeView) -> (DeleteView, ActionView) {
    if s.phase == DeletePhase::CopyingMarkdown {
        let md = s.working_md();
        match o {
            CopyOutcomeView::Copied => {
                let s1 = DeleteView { kept: seq![md], ..s };
                if s.images_configured() {
                    (
                        s1.with_phase(DeletePhase::ListingBackupAssets),
                        ActionView::ListDir { dir: s.collection_images->0 },
                    )
                } else {
                    gather(s1)
                }
            },
            CopyOutcomeView::Conflict => (
                s.with_phase(DeletePhase::Done),
                finish_err(ErrorKindView::DestinationConflict(md), Seq::empty()),
            ),
            CopyOutcomeView::Failed(r) => discard(
                DeleteView { kept: seq![md], ..s },
                ErrorKindView::CopyFailure { path: md, reason: r },
            ),
        }
    } else {
        let d = s.asset_dest(s.next);
        match o {
            CopyOutcomeView::Copied => {
                let s1 = DeleteView { kept: s.kept.push(d), next: s.next + 1, ..s };
                if s.next + 1 < s.assets.len() {
                    (s1, copy_asset(s, s.next + 1))
                } else {
                    gather(s1)
                }
            },
            CopyOutcomeView::Conflict => discard(s, ErrorKindView::DestinationConflict(d)),
            CopyOutcomeView::Failed(r) => discard(
                DeleteView { kept: s.kept.push(d), ..s },
                ErrorKindView::CopyFailure { path: d, reason: r },
            ),
        }
    }
}

/// The step after listing the collection's images.
pub open spec fn on_listed(s: DeleteView, l: Result<Seq<(Seq<char>, bool)>, Seq<char>>) -> (
    DeleteView,
    ActionView,
) {
    let dir = s.collection_images->0;
    if s.phase == DeletePhase::ListingBackupAssets {
        match l {
            Ok(entries) => {
                let a = matching_assets(s.stem_lower, dir, entries);
                let s1 = DeleteView { assets: a, next: 0, ..s };
                if a.len() == 0 {
                    gather(s1)
                } else {
                    (s1.with_phase(DeletePhase::CopyingAsset), copy_asset(s1, 0))
                }
            },
            Err(r) => discard(s, ErrorKindView::ListFailure { dir, reason: r }),
        }
    } else {
        match l {
            Ok(entries) => back_up(
                DeleteView {
                    to_delete: seq![s.selected] + matching_assets(s.stem_lower, dir, entries),
                    ..s
                },
            ),
            Err(r) => (
                s.with_phase(DeletePhase::Done),
                finish_err(ErrorKindView::ListFailure { dir, reason: r }, Seq::empty()),
            ),
        }
    }
}

/// The last step after discarding a partial working-area copy.
pub open spec fn on_rolled_back(s: DeleteView, failures: Seq<Seq<char>>) -> (
    DeleteView,
    ActionView,
) {
    (
        DeleteView { phase: DeletePhase::Done, pending: None, ..s },
        finish_err(s.pending->0, failures),
    )
}

/// The step after the temporary backup.
pub open spec fn on_backed_up(
    s: DeleteView,
    b: Result<(PathView, Seq<(PathView, PathView)>), Seq<char>>,
) -> (DeleteView, ActionView) {
    match b {
        Ok((dir, records)) => (
            DeleteView {
                phase: DeletePhase::ConfirmingDeletion,
                backup_dir: dir,
                records,
                ..s
            },
            ActionView::Confirm {
                question: QuestionView::Delete { backup_dir: dir },
                paths: s.to_delete,
            },
        ),
        Err(r) => (
            s.with_phase(DeletePhase::Done),
            finish_err(ErrorKindView::BackupFailure(r), Seq::empty()),
        ),
    }
}

/// The step after removing one file of the deletion set.
pub open spec fn on_removed(s: DeleteView, r: Result<(), Seq<char>>) -> (DeleteView, ActionView) {
    match r {
        Ok(()) => if s.removed + 1 < s.to_delete.len() {
            (
                DeleteView { removed: s.removed + 1, ..s },
                ActionView::RemoveFile { path: s.to_delete[s.removed + 1] },
            )
        } else {
            (
                DeleteView { phase: DeletePhase::Committing, removed: s.removed + 1, ..s },
                ActionView::RunVcs {
                    root: site_root_of(s.collection_files),
                    message: remove_message(s.name),
                    paths: s.to_delete,
                },
            )
        },
        Err(reason) => restore(
            s,
            ErrorKindView::Removal { path: s.to_delete[s.removed], reason },
        ),
    }
}

/// The step after the version-control step.
pub open spec fn on_committed(s: DeleteView, r: Result<(), Seq<char>>) -> (
    DeleteView,
    ActionView,
) {
    match r {
        Ok(()) => (
            s.with_phase(DeletePhase::CleaningUp),
            ActionView::CleanupBackups { dir: s.backup_dir },
        ),
        Err(d) => restore(s, ErrorKindView::VersionControl(d)),
    }
}

/// The last step after restoring: the error that caused the restore, with
/// the restore's own failure beside it.
pub open spec fn on_restored(s: DeleteView, r: Result<(), Seq<char>>) -> (
    DeleteView,
    ActionView,
) {
    (
        DeleteView { phase: DeletePhase::Done, pending: None, ..s },
        finish_err(
            s.pending->0,
            match r {
                Ok(()) => Seq::empty(),
                Err(e) => seq![e],
            },
        ),
    )
}

/// The last step after removing the temporary backup.
pub open spec fn on_cleaned_up(s: DeleteView) -> (DeleteView, ActionView) {
    (
        s.with_phase(DeletePhase::Done),
        if s.phase == DeletePhase::DiscardingTemp {
            ActionView::Finish(Ok(OutcomeView::Aborted))
        } else {
            ActionView::Finish(Ok(OutcomeView::Completed { name: s.name }))
        },
    )
}

/// What the caller can report to a delete.
pub ghost enum DeleteEvent {
    /// Whether the working area already holds the file.
    WorkingCopy(bool),
    /// The operator's answer.
    Answer(bool),
    /// How a copy into the working area went.
    Copy(CopyOutcomeView),
    /// The listing of the collection's images, or why it failed.
    Listing(Result<Seq<(Seq<char>, bool)>, Seq<char>>),
    /// The failures of removing working-area copies.
    RolledBack(Seq<Seq<char>>),
    /// The temporary directory and its records, or why saving failed.
    BackedUp(Result<(PathView, Seq<(PathView, PathView)>), Seq<char>>),
    /// How removing one file went.
    Removed(Result<(), Seq<char>>),
    /// How the version-control step went.
    Committed(Result<(), Seq<char>>),
    /// How restoring went.
    Restored(Result<(), Seq<char>>),
    /// The temporary directory was removed.
    CleanedUp,
}

/// Whether a delete in phase `p` waits for an event like `e`.
pub open spec fn expects(p: DeletePhase, e: DeleteEvent) -> bool {
    match e {
        DeleteEvent::WorkingCopy(_) => p == DeletePhase::CheckingWorkingCopy,
        DeleteEvent::Answer(_) => p == DeletePhase::AskingBackup || p
            == DeletePhase::ConfirmingDeletion,
        DeleteEvent::Copy(_) => p == DeletePhase::CopyingMarkdown || p == DeletePhase::CopyingAsset,
        DeleteEvent::Listing(_) => p == DeletePhase::ListingBackupAssets || p
            == DeletePhase::ListingDeletion,
        DeleteEvent::RolledBack(_) => p == DeletePhase::DiscardingBackup,
        DeleteEvent::BackedUp(_) => p == DeletePhase::BackingUp,
        DeleteEvent::Removed(_) => p == DeletePhase::Removing,
        DeleteEvent::Committed(_) => p == DeletePhase::Committing,
        DeleteEvent::Restored(_) => p == DeletePhase::Restoring,
        DeleteEvent::CleanedUp => p == DeletePhase::DiscardingTemp || p == DeletePhase::CleaningUp,
    }
}

/// The step a delete takes on any event it expects.
pub open spec fn step(s: DeleteView, e: DeleteEvent) -> (DeleteView, ActionView) {
    match e {
        DeleteEvent::WorkingCopy(b) => on_working_copy(s, b),
        DeleteEvent::Answer(y) => on_answer(s, y),
        DeleteEvent::Copy(o) => on_copied(s, o),
        DeleteEvent::Listing(l) => on_listed(s, l),
        DeleteEvent::RolledBack(f) => on_rolled_back(s, f),
        DeleteEvent::BackedUp(b) => on_backed_up(s, b),
        DeleteEvent::Removed(r) => on_removed(s, r),
        DeleteEvent::Committed(r) => on_committed(s, r),
        DeleteEvent::Restored(r) => on_restored(s, r),
        DeleteEvent::CleanedUp => on_cleaned_up(s),
    }
}

/// Every step keeps a delete well formed.
pub proof fn lemma_step_wf(s: DeleteView, e: DeleteEvent)
    requires
        s.wf(),
        expects(s.phase, e),
    ensures
        step(s, e).0.wf(),
{
    let t = step(s, e).0;
    if let DeleteEvent::Listing(Ok(entries)) = e {
        lemma_assets_named(s.stem_lower, s.collection_images->0, entries);
    }
    assert(t.kept_copies(0) =~= s.kept_copies(0));
    assert(s.kept_copies(0) =~= seq![s.working_md()]);
    if s.phase == DeletePhase::CopyingAsset {
        assert(s.kept_copies(s.next + 1) =~= s.kept_copies(s.next).push(s.asset_dest(s.next)));
        assert(t.kept_copies(s.next + 1) =~= s.kept_copies(s.next + 1));
        assert(t.kept_copies(s.next) =~= s.kept_copies(s.next));
    }
}

/// When copying into the working area meets an existing file or fails, the
/// copies made in this step so far (the file first, then its assets in
/// order; on a failure also the destination that failed) are removed, and
/// the delete then fails with that error before anything is deleted.
pub proof fn law_working_backup_failure_discards(
    s: DeleteView,
    o: CopyOutcomeView,
    failures: Seq<Seq<char>>,
)
    requires
        s.wf(),
        s.phase == DeletePhase::CopyingAsset,
        !(o is Copied),
    ensures
        ({
            let (t, a) = on_copied(s, o);
            let d = s.asset_dest(s.next);
            &&& a == ActionView::RemoveAll { paths: t.kept }
            &&& o is Conflict ==> t.kept == s.kept_copies(s.next)
            &&& o is Failed ==> t.kept == s.kept_copies(s.next + 1)
            &&& t.kept[0] == s.working_md()
            &&& o is Conflict ==> on_rolled_back(t, failures).1 == finish_err(
                ErrorKindView::DestinationConflict(d),
                failures,
            )
            &&& o matches CopyOutcomeView::Failed(r) ==> on_rolled_back(t, failures).1
                == finish_err(ErrorKindView::CopyFailure { path: d, reason: r }, failures)
        }),
{
    lemma_step_wf(s, DeleteEvent::Copy(o));
    assert(s.kept_copies(s.next + 1) =~= s.kept_copies(s.next).push(s.asset_dest(s.next)));
}

/// Files are removed only after the whole deletion set was saved: a step
/// enters a state with a temporary backup only from the backup step, taking
/// the directory and records it reported; the backup step is always asked
/// to save the full deletion set; once saved, the deletion set and its
/// backup no longer change; and a removal is issued only after the backup.
pub proof fn law_removal_follows_backup(s: DeleteView, e: DeleteEvent)
    requires
        s.wf(),
        expects(s.phase, e),
    ensures
        ({
            let (t, a) = step(s, e);
            &&& t.backed_up() && !s.backed_up() ==> {
                &&& s.phase == DeletePhase::BackingUp
                &&& e matches DeleteEvent::BackedUp(Ok((dir, records)))
                &&& t.backup_dir == dir
                &&& t.records == records
                &&& t.to_delete == s.to_delete
            }
            &&& t.phase == DeletePhase::BackingUp ==> a == ActionView::BackupToTemp {
                paths: t.to_delete,
            }
            &&& s.backed_up() ==> {
                &&& t.to_delete == s.to_delete
                &&& t.records == s.records
                &&& t.backup_dir == s.backup_dir
            }
            &&& a is RemoveFile ==> s.backed_up() && t.phase == DeletePhase::Removing
        }),
{
}

/// When a removal fails, no further file is removed: every saved file is
/// restored and the temporary directory dropped, and the delete then fails
/// with that removal error, the restore's own failure reported beside it.
pub proof fn law_removal_failure_restores(
    s: DeleteView,
    reason: Seq<char>,
    restored: Result<(), Seq<char>>,
)
    requires
        s.wf(),
        s.phase == DeletePhase::Removing,
    ensures
        ({
            let (t, a) = on_removed(s, Err(reason));
            &&& a == ActionView::RestoreAndCleanup { records: s.records, dir: s.backup_dir }
            &&& t.phase == DeletePhase::Restoring
            &&& on_restored(t, restored).1 == finish_err(
                ErrorKindView::Removal { path: s.to_delete[s.removed], reason },
                match restored {
                    Ok(()) => Seq::empty(),
                    Err(e) => seq![e],
                },
            )
        }),
{
}

/// When the version-control step fails after the files were removed, every
/// saved file is restored before the delete fails with that step's
/// diagnostic, the restore's own failure reported beside it.
pub proof fn law_vcs_failure_restores(
    s: DeleteView,
    diagnostic: Seq<char>,
    restored: Result<(), Seq<char>>,
)
    requires
        s.wf(),
        s.phase == DeletePhase::Committing,
    ensures
        ({
            let (t, a) = on_committed(s, Err(diagnostic));
            &&& a == ActionView::RestoreAndCleanup { records: s.records, dir: s.backup_dir }
            &&& t.phase == DeletePhase::Restoring
            &&& on_restored(t, restored).1 == finish_err(
                ErrorKindView::VersionControl(diagnostic),
                match restored {
                    Ok(()) => Seq::empty(),
                    Err(e) => seq![e],
                },
            )
        }),
{
}

/// A delete in progress. Each method takes what the caller observed for the
/// previous action and returns the next action.
pub struct Delete {
    selected: FsPath,
    name: String,
    stem_lower: String,
    collection_files: FsPath,
    collection_images: Option<FsPath>,
    working_files: FsPath,
    working_images: Option<FsPath>,
    kept: Vec<FsPath>,
    assets: Vec<FsPath>,
    next: usize,
    to_delete: Vec<FsPath>,
    backup_dir: FsPath,
    records: Vec<BackupRecord>,
    removed: usize,
    pending: Option<ErrorKind>,
    phase: DeletePhase,
}

impl View for Delete {
    type V = DeleteView;

    closed spec fn view(&self) -> DeleteView {
        DeleteView {
            selected: self.selected@,
            name: self.name@,
            stem_lower: self.stem_lower@,
            collection_files: self.collection_files@,
            collection_images: opt_path_view(self.collection_images),
            working_files: self.working_files@,
            working_images: opt_path_view(self.working_images),
            kept: paths_view(self.kept@),
            assets: paths_view(self.assets@),
            next: self.next as int,
            to_delete: paths_view(self.to_delete@),
            backup_dir: self.backup_dir@,
            records: records_view(self.records@),
            removed: self.removed as int,
            pending: opt_kind_view(self.pending),
            phase: self.phase,
        }
    }
}

/// View of a reported temporary backup.
pub open spec fn backup_view(b: Result<(FsPath, Vec<BackupRecord>), String>) -> Result<
    (PathView, Seq<(PathView, PathView)>),
    Seq<char>,
> {
    match b {
        Ok((dir, records)) => Ok((dir@, records_view(records@))),
        Err(r) => Err(r@),
    }
}

impl Delete {
    /// Starts deleting `selected` from `collection`, with `working_files`
    /// and `working_images` as the working area.
    pub fn start(
        selected: &FsPath,
        collection: &CollectionPaths,
        working_files: &FsPath,
        working_images: &Option<FsPath>,
    ) -> (r: (Delete, Action))
        requires
            collection.files@.parts.len() > 0,
        ensures
            (r.0@, r.1@) == begin(
                selected@,
                collection.files@,
                opt_path_view(collection.images),
                working_files@,
                opt_path_view(*working_images),
            ),
            r.0@.wf(),
    {
        let name_opt = selected.file_name();
        let name = match &name_opt {
            Some(n) => n.clone(),
            None => String::new(),
        };
        let stem = file_stem(name.as_str());
        let stem_lower = lowercase(stem.as_str());
        let mut d = Delete {
            selected: selected.duplicate(),
            name,
            stem_lower,
            collection_files: collection.files.duplicate(),
            collection_images: duplicate_opt(&collection.images),
            working_files: working_files.duplicate(),
            working_images: duplicate_opt(working_images),
            kept: Vec::new(),
            assets: Vec::new(),
            next: 0,
            to_delete: Vec::new(),
            backup_dir: FsPath::new(false, Vec::new()),
            records: Vec::new(),
            removed: 0,
            pending: None,
            phase: DeletePhase::CheckingWorkingCopy,
        };
        proof {
            assert(paths_view(d.kept@) =~= Seq::empty());
            assert(paths_view(d.assets@) =~= Seq::empty());
            assert(paths_view(d.to_delete@) =~= Seq::empty());
            assert(records_view(d.records@) =~= Seq::empty());
            assert(d.backup_dir@.parts =~= Seq::empty());
        }
        match name_opt {
            None => {
                d.phase = DeletePhase::Done;
                let e = EngineError { kind: ErrorKind::InvalidName, rollback_failures: Vec::new() };
                proof {
                    assert(e@.rollback_failures =~= Seq::empty());
                }
                (d, Action::Finish(Err(e)))
            },
            Some(_) => {
                let path = d.working_files.join(&d.name);
                (d, Action::CheckExists { path })
            },
        }
    }

    /// What the delete is waiting for.
    pub fn phase(&self) -> (r: DeletePhase)
        ensures
            r == self@.phase,
    {
        self.phase
    }

    fn asset_dest(&self, i: usize) -> (r: FsPath)
        requires
            self@.wf(),
            i < self@.assets.len(),
            self@.working_images is Some,
        ensures
            r@ == self@.asset_dest(i as int),
    {
        let a = &self.assets[i];
        assert(self@.assets[i as int] == a@);
        let name = a.file_name().unwrap();
        match &self.working_images {
            Some(w) => w.join(&name),
            None => FsPath::new(false, Vec::new()),
        }
    }

    fn gather(&mut self) -> (a: Action)
        ensures
            (final(self)@, a@) == gather(old(self)@),
    {
        match &self.collection_images {
            Some(dir) => {
                let dir = dir.duplicate();
                self.phase = DeletePhase::ListingDeletion;
                Action::ListDir { dir }
            },
            None => {
                self.to_delete = Vec::new();
                self.to_delete.push(self.selected.duplicate());
                proof {
                    assert(paths_view(self.to_delete@) =~= seq![self.selected@]);
                }
                self.back_up()
            },
        }
    }

    fn back_up(&mut self) -> (a: Action)
        ensures
            (final(self)@, a@) == back_up(old(self)@),
    {
        self.phase = DeletePhase::BackingUp;
        Action::BackupToTemp { paths: duplicate_paths(&self.to_delete) }
    }

    fn discard(&mut self, k: ErrorKind) -> (a: Action)
        ensures
            (final(self)@, a@) == discard(old(self)@, k@),
    {
        self.phase = DeletePhase::DiscardingBackup;
        self.pending = Some(k);
        Action::RemoveAll { paths: duplicate_paths(&self.kept) }
    }

    fn restore(&mut self, k: ErrorKind) -> (a: Action)
        ensures
            (final(self)@, a@) == restore(old(self)@, k@),
    {
        self.phase = DeletePhase::Restoring;
        self.pending = Some(k);
        restore_and_cleanup(&self.records, &self.backup_dir)
    }

    fn copy_asset(&self, i: usize) -> (a: Action)
        requires
            self@.wf(),
            i < self@.assets.len(),
            self@.working_images is Some,
        ensures
            a@ == copy_asset(self@, i as int),
    {
        let src = self.assets[i].duplicate();
        let dest = self.asset_dest(i);
        Action::CopyNoOverwrite { src, dest }
    }

    /// Takes whether the file already exists in the working area.
    pub fn working_copy(&mut self, present: bool) -> (a: Action)
        requires
            old(self)@.wf(),
            old(self)@.phase == DeletePhase::CheckingWorkingCopy,
        ensures
            (final(self)@, a@) == step(old(self)@, DeleteEvent::WorkingCopy(present)),
            final(self)@.wf(),
    {
        proof {
            lemma_step_wf(self@, DeleteEvent::WorkingCopy(present));
        }
        if present {
            self.gather()
        } else {
            self.phase = DeletePhase::AskingBackup;
            let mut paths: Vec<FsPath> = Vec::new();
            paths.push(self.selected.duplicate());
            proof {
                assert(paths_view(paths@) =~= seq![self.selected@]);
            }
            Action::Confirm { question: Question::WorkingBackup { name: self.name.clone() }, paths }
        }
    }

    /// Takes the operator's answer; a cancelled prompt counts as a no.
    pub fn answered(&mut self, yes: bool) -> (a: Action)
        requires
            old(self)@.wf(),
            old(self)@.phase == DeletePhase::AskingBackup || old(self)@.phase
                == DeletePhase::ConfirmingDeletion,
        ensures
            (final(self)@, a@) == step(old(self)@, DeleteEvent::Answer(yes)),
            final(self)@.wf(),
    {
        proof {
            lemma_step_wf(self@, DeleteEvent::Answer(yes));
        }
        if self.phase == DeletePhase::AskingBackup {
            if yes {
                self.phase = DeletePhase::CopyingMarkdown;
                let dest = self.working_files.join(&self.name);
                Action::CopyNoOverwrite { src: self.selected.duplicate(), dest }
            } else {
                self.gather()
            }
        } else {
            if yes {
                self.phase = DeletePhase::Removing;
                self.removed = 0;
                assert(self@.to_delete.len() >= 1);
                Action::RemoveFile { path: self.to_delete[0].duplicate() }
            } else {
                self.phase = DeletePhase::DiscardingTemp;
                Action::CleanupBackups { dir: self.backup_dir.duplicate() }
            }
        }
    }

    /// Takes the outcome of a copy into the working area.
    pub fn copied(&mut self, outcome: CopyOutcome) -> (a: Action)
        requires
            old(self)@.wf(),
            old(self)@.phase == DeletePhase::CopyingMarkdown || old(self)@.phase
                == DeletePhase::CopyingAsset,
        ensures
            (final(self)@, a@) == step(old(self)@, DeleteEvent::Copy(outcome@)),
            final(self)@.wf(),
    {
        let ghost s = self@;
        proof {
            lemma_step_wf(s, DeleteEvent::Copy(outcome@));
        }
        if self.phase == DeletePhase::CopyingMarkdown {
            let md = self.working_files.join(&self.name);
            match outcome {
                CopyOutcome::Copied => {
                    self.kept = Vec::new();
                    self.kept.push(md);
                    proof {
                        assert(self@.kept =~= seq![s.working_md()]);
                    }
                    if self.collection_images.is_some() && self.working_images.is_some() {
                        self.phase = DeletePhase::ListingBackupAssets;
                        let dir = match &self.collection_images {
                            Some(c) => c.duplicate(),
                            None => FsPath::new(false, Vec::new()),
                        };
                        Action::ListDir { dir }
                    } else {
                        self.gather()
                    }
                },
                CopyOutcome::Conflict => {
                    self.phase = DeletePhase::Done;
                    let e = EngineError {
                        kind: ErrorKind::DestinationConflict(md),
                        rollback_failures: Vec::new(),
                    };
                    proof {
                        assert(e@.rollback_failures =~= Seq::empty());
                    }
                    Action::Finish(Err(e))
                },
                CopyOutcome::Failed(r) => {
                    self.kept = Vec::new();
                    self.kept.push(md.duplicate());
                    proof {
                        assert(self@.kept =~= seq![s.working_md()]);
                    }
                    self.discard(ErrorKind::CopyFailure { path: md, reason: r })
                },
            }
        } else {
            let d = self.asset_dest(self.next);
            let total = self.assets.len();
            assert(self.next < total);
            match outcome {
                CopyOutcome::Copied => {
                    self.kept.push(d);
                    self.next = self.next + 1;
                    proof {
                        assert(self@.kept =~= s.kept.push(s.asset_dest(s.next)));
                    }
                    if self.next < total {
                        self.copy_asset(self.next)
                    } else {
                        self.gather()
                    }
                },
                CopyOutcome::Conflict => self.discard(ErrorKind::DestinationConflict(d)),
                CopyOutcome::Failed(r) => {
                    self.kept.push(d.duplicate());
                    proof {
                        assert(self@.kept =~= s.kept.push(s.asset_dest(s.next)));
                    }
                    self.discard(ErrorKind::CopyFailure { path: d, reason: r })
                },
            }
        }
    }

    /// Takes the listing of the collection's images directory.
    pub fn listed(&mut self, listing: Result<Vec<DirEntry>, String>) -> (a: Action)
        requires
            old(self)@.wf(),
            old(self)@.phase == DeletePhase::ListingBackupAssets || old(self)@.phase
                == DeletePhase::ListingDeletion,
        ensures
            (final(self)@, a@) == step(old(self)@, DeleteEvent::Listing(listing_view(listing))),
            final(self)@.wf(),
    {
        let ghost s = self@;
        proof {
            lemma_step_wf(s, DeleteEvent::Listing(listing_view(listing)));
        }
        let dir = match &self.collection_images {
            Some(c) => c.duplicate(),
            None => FsPath::new(false, Vec::new()),
        };
        if self.phase == DeletePhase::ListingBackupAssets {
            match listing {
                Ok(entries) => {
                    self.assets = matching_images_for_stem(self.stem_lower.as_str(), &dir, &entries);
                    self.next = 0;
                    if self.assets.len() == 0 {
                        self.gather()
                    } else {
                        self.phase = DeletePhase::CopyingAsset;
                        proof {
                            lemma_assets_named(s.stem_lower, dir@, listing_view(listing)->Ok_0);
                        }
                        self.copy_asset(0)
                    }
                },
                Err(reason) => self.discard(ErrorKind::ListFailure { dir, reason }),
            }
        } else {
            match listing {
                Ok(entries) => {
                    let found = matching_images_for_stem(self.stem_lower.as_str(), &dir, &entries);
                    let mut to_delete: Vec<FsPath> = Vec::new();
                    to_delete.push(self.selected.duplicate());
                    let mut i: usize = 0;
                    while i < found.len()
                        invariant
                            i <= found@.len(),
                            paths_view(to_delete@) == seq![s.selected] + paths_view(found@).take(
                                i as int,
                            ),
                        decreases found@.len() - i,
                    {
                        let ghost before = to_delete@;
                        to_delete.push(found[i].duplicate());
                        proof {
                            assert(paths_view(to_delete@) =~= paths_view(before).push(
                                found@[i as int]@,
                            ));
                            assert(paths_view(found@).take(i + 1) =~= paths_view(found@).take(
                                i as int,
                            ).push(found@[i as int]@));
                        }
                        i = i + 1;
                    }
                    proof {
                        assert(paths_view(found@).take(found@.len() as int) =~= paths_view(
                            found@,
                        ));
                    }
                    self.to_delete = to_delete;
                    self.back_up()
                },
                Err(reason) => {
                    self.phase = DeletePhase::Done;
                    let e = EngineError {
                        kind: ErrorKind::ListFailure { dir, reason },
                        rollback_failures: Vec::new(),
                    };
                    proof {
                        assert(e@.rollback_failures =~= Seq::empty());
                    }
                    Action::Finish(Err(e))
                },
            }
        }
    }

    /// Takes the failures met while removing a partial working-area copy,
    /// and ends the transaction.
    pub fn rolled_back(&mut self, failures: Vec<String>) -> (a: Action)
        requires
            old(self)@.wf(),
            old(self)@.phase == DeletePhase::DiscardingBackup,
        ensures
            (final(self)@, a@) == step(
                old(self)@,
                DeleteEvent::RolledBack(strings_view(failures@)),
            ),
            final(self)@.wf(),
    {
        self.phase = DeletePhase::Done;
        let k = self.pending.take().unwrap();
        Action::Finish(Err(EngineError { kind: k, rollback_failures: failures }))
    }

    /// Takes the temporary backup of the deletion set.
    pub fn backed_up(&mut self, backup: Result<(FsPath, Vec<BackupRecord>), String>) -> (a: Action)
        requires
            old(self)@.wf(),
            old(self)@.phase == DeletePhase::BackingUp,
        ensures
            (final(self)@, a@) == step(old(self)@, DeleteEvent::BackedUp(backup_view(backup))),
            final(self)@.wf(),
    {
        proof {
            lemma_step_wf(self@, DeleteEvent::BackedUp(backup_view(backup)));
        }
        match backup {
            Ok((dir, records)) => {
                self.phase = DeletePhase::ConfirmingDeletion;
                let shown = dir.duplicate();
                self.backup_dir = dir;
                self.records = records;
                Action::Confirm {
                    question: Question::Delete { backup_dir: shown },
                    paths: duplicate_paths(&self.to_delete),
                }
            },
            Err(r) => {
                self.phase = DeletePhase::Done;
                let e = EngineError {
                    kind: ErrorKind::BackupFailure(r),
                    rollback_failures: Vec::new(),
                };
                proof {
                    assert(e@.rollback_failures =~= Seq::empty());
                }
                Action::Finish(Err(e))
            },
        }
    }

    /// Takes the outcome of removing one file of the deletion set.
    pub fn removed(&mut self, result: Result<(), String>) -> (a: Action)
        requires
            old(self)@.wf(),
            old(self)@.phase == DeletePhase::Removing,
        ensures
            (final(self)@, a@) == step(old(self)@, DeleteEvent::Removed(status_view(result))),
            final(self)@.wf(),
    {
        proof {
            lemma_step_wf(self@, DeleteEvent::Removed(status_view(result)));
        }
        let total = self.to_delete.len();
        match result {
            Ok(()) => {
                self.removed = self.removed + 1;
                if self.removed < total {
                    Action::RemoveFile { path: self.to_delete[self.removed].duplicate() }
                } else {
                    self.phase = DeletePhase::Committing;
                    let root = get_site_root(&self.collection_files);
                    let message = remove_commit_message(&self.name);
                    Action::RunVcs { root, message, paths: duplicate_paths(&self.to_delete) }
                }
            },
            Err(reason) => {
                let path = self.to_delete[self.removed].duplicate();
                self.restore(ErrorKind::Removal { path, reason })
            },
        }
    }

    /// Takes the outcome of the version-control step.
    pub fn committed(&mut self, result: Result<(), String>) -> (a: Action)
        requires
            old(self)@.wf(),
            old(self)@.phase == DeletePhase::Committing,
        ensures
            (final(self)@, a@) == step(old(self)@, DeleteEvent::Committed(status_view(result))),
            final(self)@.wf(),
    {
        proof {
            lemma_step_wf(self@, DeleteEvent::Committed(status_view(result)));
        }
        match result {
            Ok(()) => {
                self.phase = DeletePhase::CleaningUp;
                Action::CleanupBackups { dir: self.backup_dir.duplicate() }
            },
            Err(d) => self.restore(ErrorKind::VersionControl(d)),
        }
    }

    /// Takes the outcome of restoring the deletion set, and ends the
    /// transaction.
    pub fn restored(&mut self, result: Result<(), String>) -> (a: Action)
        requires
            old(self)@.wf(),
            old(self)@.phase == DeletePhase::Restoring,
        ensures
            (final(self)@, a@) == step(old(self)@, DeleteEvent::Restored(status_view(result))),
            final(self)@.wf(),
    {
        self.phase = DeletePhase::Done;
        let k = self.pending.take().unwrap();
        let mut failures: Vec<String> = Vec::new();
        match result {
            Ok(()) => {},
            Err(e) => failures.push(e),
        }
        proof {
            assert(strings_view(failures@) =~= match status_view(result) {
                Ok(()) => Seq::empty(),
                Err(e) => seq![e],
            });
        }
        Action::Finish(Err(EngineError { kind: k, rollback_failures: failures }))
    }

    /// Takes the end of removing the temporary backup, and ends the
    /// transaction.
    pub fn cleaned_up(&mut self) -> (a: Action)
        requires
            old(self)@.wf(),
            old(self)@.phase == DeletePhase::DiscardingTemp || old(self)@.phase
                == DeletePhase::CleaningUp,
        ensures
            (final(self)@, a@) == step(old(self)@, DeleteEvent::CleanedUp),
            final(self)@.wf(),
    {
        let aborted = self.phase == DeletePhase::DiscardingTemp;
        self.phase = DeletePhase::Done;
        if aborted {
            Action::Finish(Ok(Outcome::Aborted))
        } else {
            Action::Finish(Ok(Outcome::Completed { name: self.name.clone() }))
        }
    }
}

} // verus!
