//! What a transaction asks its caller to do, what the caller reports back,
//! and how a transaction ends.
use vstd::prelude::*;
use crate::assets::{DirEntry, entries_view};
use crate::path::{FsPath, PathView, paths_view, strings_view};

verus! {

/// How a copy that never overwrites went.
pub enum CopyOutcome {
    /// The destination did not exist and the file was copied.
    Copied,
    /// The destination already existed; nothing was written.
    Conflict,
    /// The copy failed; the destination may hold a partial file.
    Failed(String),
}

/// Model of a `CopyOutcome`.
pub ghost enum CopyOutcomeView {
    Copied,
    Conflict,
    Failed(Seq<char>),
}

impl View for CopyOutcome {
    type V = CopyOutcomeView;

    open spec fn view(&self) -> CopyOutcomeView {
        match self {
            CopyOutcome::Copied => CopyOutcomeView::Copied,
            CopyOutcome::Conflict => CopyOutcomeView::Conflict,
            CopyOutcome::Failed(r) => CopyOutcomeView::Failed(r@),
        }
    }
}

/// A file saved before deletion, and where its copy lives.
pub struct BackupRecord {
    pub original: FsPath,
    pub backup: FsPath,
}

impl View for BackupRecord {
    type V = (PathView, PathView);

    open spec fn view(&self) -> (PathView, PathView) {
        (self.original@, self.backup@)
    }
}

/// Views of a sequence of backup records.
pub open spec fn records_view(v: Seq<BackupRecord>) -> Seq<(PathView, PathView)> {
    v.map_values(|r: BackupRecord| r@)
}

/// The question put to the operator at a confirmation point.
pub enum Question {
    /// Whether to commit the copied files of a publish.
    Publish,
    /// Whether to copy the file called `name` into the working area before
    /// deleting it.
    WorkingBackup { name: String },
    /// Whether to delete the listed files; their copies are in `backup_dir`.
    Delete { backup_dir: FsPath },
}

/// Model of a `Question`.
pub ghost enum QuestionView {
    Publish,
    WorkingBackup { name: Seq<char> },
    Delete { backup_dir: PathView },
}

impl View for Question {
    type V = QuestionView;

    open spec fn view(&self) -> QuestionView {
        match self {
            Question::Publish => QuestionView::Publish,
            Question::WorkingBackup { name } => QuestionView::WorkingBackup { name: name@ },
            Question::Delete { backup_dir } => QuestionView::Delete { backup_dir: backup_dir@ },
        }
    }
}

/// Why a transaction failed.
pub enum ErrorKind {
    /// The selected path has no file name.
    InvalidName,
    /// The content file already exists at its destination.
    DestinationConflict(FsPath),
    /// A media asset already exists at its destination.
    AssetConflict(FsPath),
    /// Copying to `path` failed.
    CopyFailure { path: FsPath, reason: String },
    /// Listing `dir` failed.
    ListFailure { dir: FsPath, reason: String },
    /// Saving the files to be deleted failed.
    BackupFailure(String),
    /// The operator declined, and the rollback that followed failed.
    Aborted,
    /// The version-control step failed; its diagnostic output.
    VersionControl(String),
    /// Removing `path` failed.
    Removal { path: FsPath, reason: String },
}

/// Model of an `ErrorKind`.
pub ghost enum ErrorKindView {
    InvalidName,
    DestinationConflict(PathView),
    AssetConflict(PathView),
    CopyFailure { path: PathView, reason: Seq<char> },
    ListFailure { dir: PathView, reason: Seq<char> },
    BackupFailure(Seq<char>),
    Aborted,
    VersionControl(Seq<char>),
    Removal { path: PathView, reason: Seq<char> },
}

impl View for ErrorKind {
    type V = ErrorKindView;

    open spec fn view(&self) -> ErrorKindView {
        match self {
            ErrorKind::InvalidName => ErrorKindView::InvalidName,
            ErrorKind::DestinationConflict(p) => ErrorKindView::DestinationConflict(p@),
            ErrorKind::AssetConflict(p) => ErrorKindView::AssetConflict(p@),
            ErrorKind::CopyFailure { path, reason } => ErrorKindView::CopyFailure {
                path: path@,
                reason: reason@,
            },
            ErrorKind::ListFailure { dir, reason } => ErrorKindView::ListFailure {
                dir: dir@,
                reason: reason@,
            },
            ErrorKind::BackupFailure(r) => ErrorKindView::BackupFailure(r@),
            ErrorKind::Aborted => ErrorKindView::Aborted,
            ErrorKind::VersionControl(d) => ErrorKindView::VersionControl(d@),
            ErrorKind::Removal { path, reason } => ErrorKindView::Removal {
                path: path@,
                reason: reason@,
            },
        }
    }
}

/// A failed transaction: the error that stopped it, and what went wrong
/// while compensating for it (reported beside the error, never in its place).
pub struct EngineError {
    pub kind: ErrorKind,
    pub rollback_failures: Vec<String>,
}

/// Model of an `EngineError`.
pub ghost struct EngineErrorView {
    pub kind: ErrorKindView,
    pub rollback_failures: Seq<Seq<char>>,
}

impl View for EngineError {
    type V = EngineErrorView;

    open spec fn view(&self) -> EngineErrorView {
        EngineErrorView {
            kind: self.kind@,
            rollback_failures: strings_view(self.rollback_failures@),
        }
    }
}

/// How a transaction that did not fail ended.
pub enum Outcome {
    /// The change landed and was committed; the file name acted upon.
    Completed { name: String },
    /// The operator declined and nothing of the transaction remains.
    Aborted,
}

/// Model of an `Outcome`.
pub ghost enum OutcomeView {
    Completed { name: Seq<char> },
    Aborted,
}

impl View for Outcome {
    type V = OutcomeView;

    open spec fn view(&self) -> OutcomeView {
        match self {
            Outcome::Completed { name } => OutcomeView::Completed { name: name@ },
            Outcome::Aborted => OutcomeView::Aborted,
        }
    }
}

/// The next thing the caller must do for a transaction, and report back.
pub enum Action {
    /// Create `dest`'s directory if missing, then copy `src` to `dest` unless
    /// `dest` exists. Report a `CopyOutcome`.
    CopyNoOverwrite { src: FsPath, dest: FsPath },
    /// List the entries of `dir` (none if it is not a directory). Report the
    /// listing or the failure.
    ListDir { dir: FsPath },
    /// Show `paths` and ask `question`. Report the answer; a cancelled prompt
    /// is a no.
    Confirm { question: Question, paths: Vec<FsPath> },
    /// Stage `paths` in the repository at `root`, commit with `message`, push.
    /// Report success or the diagnostic text.
    RunVcs { root: FsPath, message: String, paths: Vec<FsPath> },
    /// Remove every one of `paths` that exists, going on after a failure.
    /// Report the failures.
    RemoveAll { paths: Vec<FsPath> },
    /// Report whether `path` exists.
    CheckExists { path: FsPath },
    /// Copy every existing one of `paths` into a fresh temporary directory.
    /// Report the directory and the records, or the failure.
    BackupToTemp { paths: Vec<FsPath> },
    /// Remove `path` if it exists. Report success or the failure.
    RemoveFile { path: FsPath },
    /// Copy each record's backup, where it still exists, over its original;
    /// then remove `dir` and its files. Report how restoring went.
    RestoreAndCleanup { records: Vec<BackupRecord>, dir: FsPath },
    /// Remove `dir` and its files, ignoring failures. Report completion.
    CleanupBackups { dir: FsPath },
    /// The transaction is over.
    Finish(Result<Outcome, EngineError>),
}

/// Model of an `Action`.
pub ghost enum ActionView {
    CopyNoOverwrite { src: PathView, dest: PathView },
    ListDir { dir: PathView },
    Confirm { question: QuestionView, paths: Seq<PathView> },
    RunVcs { root: PathView, message: Seq<char>, paths: Seq<PathView> },
    RemoveAll { paths: Seq<PathView> },
    CheckExists { path: PathView },
    BackupToTemp { paths: Seq<PathView> },
    RemoveFile { path: PathView },
    RestoreAndCleanup { records: Seq<(PathView, PathView)>, dir: PathView },
    CleanupBackups { dir: PathView },
    Finish(Result<OutcomeView, EngineErrorView>),
}

impl View for Action {
    type V = ActionView;

    open spec fn view(&self) -> ActionView {
        match self {
            Action::CopyNoOverwrite { src, dest } => ActionView::CopyNoOverwrite {
                src: src@,
                dest: dest@,
            },
            Action::ListDir { dir } => ActionView::ListDir { dir: dir@ },
            Action::Confirm { question, paths } => ActionView::Confirm {
                question: question@,
                paths: paths_view(paths@),
            },
            Action::RunVcs { root, message, paths } => ActionView::RunVcs {
                root: root@,
                message: message@,
                paths: paths_view(paths@),
            },
            Action::RemoveAll { paths } => ActionView::RemoveAll { paths: paths_view(paths@) },
            Action::CheckExists { path } => ActionView::CheckExists { path: path@ },
            Action::BackupToTemp { paths } => ActionView::BackupToTemp {
                paths: paths_view(paths@),
            },
            Action::RemoveFile { path } => ActionView::RemoveFile { path: path@ },
            Action::RestoreAndCleanup { records, dir } => ActionView::RestoreAndCleanup {
                records: records_view(records@),
                dir: dir@,
            },
            Action::CleanupBackups { dir } => ActionView::CleanupBackups { dir: dir@ },
            Action::Finish(r) => ActionView::Finish(
                match r {
                    Ok(o) => Ok(o@),
                    Err(e) => Err(e@),
                },
            ),
        }
    }
}

/// Copies a list of paths.
pub fn duplicate_paths(v: &Vec<FsPath>) -> (r: Vec<FsPath>)
    ensures
        paths_view(r@) == paths_view(v@),
{
    let mut r: Vec<FsPath> = Vec::new();
    let mut i: usize = 0;
    while i < v.len()
        invariant
            i <= v@.len(),
            paths_view(r@) == paths_view(v@).take(i as int),
        decreases v@.len() - i,
    {
        let ghost before = r@;
        r.push(v[i].duplicate());
        assert(paths_view(r@) =~= paths_view(before).push(v@[i as int]@));
        assert(paths_view(r@) =~= paths_view(v@).take(i + 1));
        i = i + 1;
    }
    assert(paths_view(v@).take(v@.len() as int) =~= paths_view(v@));
    r
}

/// Copies a list of backup records.
pub fn duplicate_records(v: &Vec<BackupRecord>) -> (r: Vec<BackupRecord>)
    ensures
        records_view(r@) == records_view(v@),
{
    let mut r: Vec<BackupRecord> = Vec::new();
    let mut i: usize = 0;
    while i < v.len()
        invariant
            i <= v@.len(),
            records_view(r@) == records_view(v@).take(i as int),
        decreases v@.len() - i,
    {
        let ghost before = r@;
        let rec = BackupRecord { original: v[i].original.duplicate(), backup: v[i].backup.duplicate() };
        r.push(rec);
        assert(records_view(r@) =~= records_view(before).push(v@[i as int]@));
        assert(records_view(r@) =~= records_view(v@).take(i + 1));
        i = i + 1;
    }
    assert(records_view(v@).take(v@.len() as int) =~= records_view(v@));
    r
}

/// The compensation for a delete that failed after removing files: put every
/// saved file back and drop the temporary directory.
pub fn restore_and_cleanup(backups: &Vec<BackupRecord>, backup_dir: &FsPath) -> (r: Action)
    ensures
        r@ == (ActionView::RestoreAndCleanup {
            records: records_view(backups@),
            dir: backup_dir@,
        }),
{
    Action::RestoreAndCleanup { records: duplicate_records(backups), dir: backup_dir.duplicate() }
}


/// The action that ends a transaction with `kind`, reporting `failures`
/// from compensation.
pub open spec fn finish_err(kind: ErrorKindView, failures: Seq<Seq<char>>) -> ActionView {
    ActionView::Finish(Err(EngineErrorView { kind, rollback_failures: failures }))
}

/// View of an optional error kind.
pub open spec fn opt_kind_view(k: Option<ErrorKind>) -> Option<ErrorKindView> {
    match k {
        Some(k) => Some(k@),
        None => None,
    }
}

/// View of a reported directory listing.
pub open spec fn listing_view(l: Result<Vec<DirEntry>, String>) -> Result<
    Seq<(Seq<char>, bool)>,
    Seq<char>,
> {
    match l {
        Ok(v) => Ok(entries_view(v@)),
        Err(r) => Err(r@),
    }
}

/// View of a reported success or failure.
pub open spec fn status_view(r: Result<(), String>) -> Result<(), Seq<char>> {
    match r {
        Ok(()) => Ok(()),
        Err(d) => Err(d@),
    }
}

} // verus!
