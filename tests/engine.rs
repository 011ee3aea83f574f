use std::collections::{BTreeMap, BTreeSet, VecDeque};

use nuch::assets::DirEntry;
use nuch::config::CollectionPaths;
use nuch::delete::{Delete, DeletePhase};
use nuch::path::FsPath;
use nuch::publish::{Publish, PublishPhase};
use nuch::txn::{
    restore_and_cleanup, Action, BackupRecord, CopyOutcome, EngineError, ErrorKind, Outcome,
    Question,
};

fn path(s: &str) -> FsPath {
    FsPath::new(
        s.starts_with('/'),
        s.split('/').filter(|p| !p.is_empty()).map(|p| p.to_string()).collect(),
    )
}

fn text(p: &FsPath) -> String {
    format!("/{}", p.parts.join("/"))
}

/// An in-memory file tree with scripted answers and failures.
struct World {
    files: BTreeMap<String, String>,
    answers: VecDeque<bool>,
    vcs: Result<(), String>,
    fail_copy: BTreeSet<String>,
    fail_remove: BTreeSet<String>,
    fail_list: bool,
    fail_backup: bool,
    questions: Vec<String>,
    commits: Vec<(String, String, Vec<String>)>,
    backup_seen: Vec<String>,
}

impl World {
    fn new(files: &[(&str, &str)]) -> World {
        World {
            files: files.iter().map(|(p, c)| (p.to_string(), c.to_string())).collect(),
            answers: VecDeque::new(),
            vcs: Ok(()),
            fail_copy: BTreeSet::new(),
            fail_remove: BTreeSet::new(),
            fail_list: false,
            fail_backup: false,
            questions: Vec::new(),
            commits: Vec::new(),
            backup_seen: Vec::new(),
        }
    }

    fn has(&self, p: &str) -> bool {
        self.files.contains_key(p)
    }

    fn copy(&mut self, src: &FsPath, dest: &FsPath) -> CopyOutcome {
        let (s, d) = (text(src), text(dest));
        if self.has(&d) {
            return CopyOutcome::Conflict;
        }
        if self.fail_copy.contains(&d) {
            self.files.insert(d, "partial".to_string());
            return CopyOutcome::Failed("disk full".to_string());
        }
        match self.files.get(&s).cloned() {
            Some(c) => {
                self.files.insert(d, c);
                CopyOutcome::Copied
            }
            None => CopyOutcome::Failed("no such file".to_string()),
        }
    }

    fn list(&self, dir: &FsPath) -> Result<Vec<DirEntry>, String> {
        if self.fail_list {
            return Err("permission denied".to_string());
        }
        let prefix = format!("{}/", text(dir));
        Ok(self
            .files
            .keys()
            .filter_map(|k| k.strip_prefix(&prefix))
            .filter(|rest| !rest.contains('/'))
            .map(|n| DirEntry { name: n.to_string(), is_file: true })
            .collect())
    }

    fn remove(&mut self, p: &FsPath) -> Result<(), String> {
        let k = text(p);
        if self.fail_remove.contains(&k) {
            return Err("busy".to_string());
        }
        self.files.remove(&k);
        Ok(())
    }

    fn remove_all(&mut self, paths: &[FsPath]) -> Vec<String> {
        let mut failures = Vec::new();
        for p in paths {
            if self.has(&text(p)) {
                if let Err(e) = self.remove(p) {
                    failures.push(format!("Failed to remove {}: {}", text(p), e));
                }
            }
        }
        failures
    }

    fn backup(&mut self, paths: &[FsPath]) -> Result<(FsPath, Vec<BackupRecord>), String> {
        if self.fail_backup {
            return Err("no space".to_string());
        }
        let dir = path("/tmp/backup-1");
        let mut records = Vec::new();
        for p in paths {
            if let Some(c) = self.files.get(&text(p)).cloned() {
                let b = dir.join(&p.file_name().unwrap());
                self.files.insert(text(&b), c);
                records.push(BackupRecord { original: p.duplicate(), backup: b });
            }
        }
        Ok((dir, records))
    }

    fn restore(&mut self, records: &[BackupRecord], dir: &FsPath) -> Result<(), String> {
        for r in records {
            if let Some(c) = self.files.get(&text(&r.backup)).cloned() {
                self.files.insert(text(&r.original), c);
            }
        }
        self.cleanup(dir);
        Ok(())
    }

    fn cleanup(&mut self, dir: &FsPath) {
        let prefix = format!("{}/", text(dir));
        self.files.retain(|k, _| !k.starts_with(&prefix));
    }

    fn ask(&mut self, q: &Question, paths: &[FsPath]) -> bool {
        let shown: Vec<String> = paths.iter().map(text).collect();
        let label = match q {
            Question::Publish => "publish".to_string(),
            Question::WorkingBackup { name } => format!("backup {}", name),
            Question::Delete { backup_dir } => {
                self.backup_seen = shown.clone();
                format!("delete, saved in {}", text(backup_dir))
            }
        };
        self.questions.push(label);
        self.answers.pop_front().unwrap_or(false)
    }

    fn run_vcs(&mut self, root: &FsPath, message: &str, paths: &[FsPath]) -> Result<(), String> {
        self.commits.push((text(root), message.to_string(), paths.iter().map(text).collect()));
        self.vcs.clone()
    }
}

fn publish(world: &mut World, selected: &str, dest: &CollectionPaths, wi: Option<&str>) -> Result<Outcome, EngineError> {
    let wi = wi.map(path);
    let (mut p, mut action) = Publish::start(&path(selected), dest, &wi);
    loop {
        action = match action {
            Action::CopyNoOverwrite { src, dest } => {
                let o = world.copy(&src, &dest);
                p.copied(o)
            }
            Action::ListDir { dir } => {
                let l = world.list(&dir);
                p.listed(l)
            }
            Action::Confirm { question, paths } => {
                let yes = world.ask(&question, &paths);
                p.answered(yes)
            }
            Action::RunVcs { root, message, paths } => {
                let r = world.run_vcs(&root, &message, &paths);
                p.committed(r)
            }
            Action::RemoveAll { paths } => {
                let f = world.remove_all(&paths);
                p.rolled_back(f)
            }
            Action::Finish(r) => {
                assert_eq!(p.phase(), PublishPhase::Done);
                return r;
            }
            _ => panic!("a publish asked for a delete step"),
        };
    }
}

fn delete(world: &mut World, selected: &str, col: &CollectionPaths, wf: &str, wi: Option<&str>) -> Result<Outcome, EngineError> {
    let wi = wi.map(path);
    let (mut d, mut action) = Delete::start(&path(selected), col, &path(wf), &wi);
    loop {
        action = match action {
            Action::CheckExists { path } => {
                let e = world.has(&text(&path));
                d.working_copy(e)
            }
            Action::Confirm { question, paths } => {
                let yes = world.ask(&question, &paths);
                d.answered(yes)
            }
            Action::CopyNoOverwrite { src, dest } => {
                let o = world.copy(&src, &dest);
                d.copied(o)
            }
            Action::ListDir { dir } => {
                let l = world.list(&dir);
                d.listed(l)
            }
            Action::RemoveAll { paths } => {
                let f = world.remove_all(&paths);
                d.rolled_back(f)
            }
            Action::BackupToTemp { paths } => {
                let b = world.backup(&paths);
                d.backed_up(b)
            }
            Action::RemoveFile { path } => {
                let r = if world.has(&text(&path)) { world.remove(&path) } else { Ok(()) };
                d.removed(r)
            }
            Action::RunVcs { root, message, paths } => {
                let r = world.run_vcs(&root, &message, &paths);
                d.committed(r)
            }
            Action::RestoreAndCleanup { records, dir } => {
                let r = world.restore(&records, &dir);
                d.restored(r)
            }
            Action::CleanupBackups { dir } => {
                world.cleanup(&dir);
                d.cleaned_up()
            }
            Action::Finish(r) => {
                assert_eq!(d.phase(), DeletePhase::Done);
                return r;
            }
        };
    }
}

fn blog() -> CollectionPaths {
    CollectionPaths {
        name: "blog".to_string(),
        files: path("/site/content/blog"),
        images: Some(path("/site/public/images")),
    }
}

fn drafts() -> World {
    World::new(&[
        ("/w/draft.md", "# draft"),
        ("/w/images/draft.png", "png-bytes"),
        ("/w/images/other.png", "other"),
        ("/site/content/blog/old.md", "old"),
    ])
}

fn kind(r: Result<Outcome, EngineError>) -> (ErrorKind, Vec<String>) {
    match r {
        Err(e) => (e.kind, e.rollback_failures),
        Ok(_) => panic!("expected a failure"),
    }
}

#[test]
fn publish_with_asset_succeeds() {
    let mut w = drafts();
    w.answers.push_back(true);
    let r = publish(&mut w, "/w/draft.md", &blog(), Some("/w/images"));
    match r {
        Ok(Outcome::Completed { name }) => assert_eq!(name, "draft.md"),
        _ => panic!("expected success"),
    }
    assert_eq!(w.files["/site/content/blog/draft.md"], "# draft");
    assert_eq!(w.files["/site/public/images/draft.png"], "png-bytes");
    assert!(!w.has("/site/public/images/other.png"));
    assert_eq!(
        w.commits,
        vec![(
            "/site".to_string(),
            "Add draft.md to blog".to_string(),
            vec!["/site/content/blog/draft.md".to_string(), "/site/public/images/draft.png".to_string()]
        )]
    );
}

#[test]
fn publish_existing_destination_conflicts() {
    let mut w = drafts();
    w.files.insert("/site/content/blog/draft.md".to_string(), "published".to_string());
    let before = w.files.clone();
    w.answers.push_back(true);
    let (k, f) = kind(publish(&mut w, "/w/draft.md", &blog(), Some("/w/images")));
    match k {
        ErrorKind::DestinationConflict(p) => assert_eq!(text(&p), "/site/content/blog/draft.md"),
        _ => panic!("expected a destination conflict"),
    }
    assert!(f.is_empty());
    assert_eq!(w.files, before);
    assert!(w.questions.is_empty());
    assert!(w.commits.is_empty());
}

#[test]
fn publish_asset_conflict_rolls_back_markdown() {
    let mut w = drafts();
    w.files.insert("/site/public/images/draft.png".to_string(), "theirs".to_string());
    let (k, f) = kind(publish(&mut w, "/w/draft.md", &blog(), Some("/w/images")));
    match k {
        ErrorKind::AssetConflict(p) => assert_eq!(text(&p), "/site/public/images/draft.png"),
        _ => panic!("expected an asset conflict"),
    }
    assert!(f.is_empty());
    assert!(!w.has("/site/content/blog/draft.md"));
    assert_eq!(w.files["/site/public/images/draft.png"], "theirs");
}

#[test]
fn publish_declined_leaves_destination_unchanged() {
    let mut w = drafts();
    let before = w.files.clone();
    w.answers.push_back(false);
    let r = publish(&mut w, "/w/draft.md", &blog(), Some("/w/images"));
    assert!(matches!(r, Ok(Outcome::Aborted)));
    assert_eq!(w.files, before);
    assert_eq!(w.questions, vec!["publish".to_string()]);
    assert!(w.commits.is_empty());
}

#[test]
fn publish_declined_with_failed_rollback_is_an_error() {
    let mut w = drafts();
    w.fail_remove.insert("/site/content/blog/draft.md".to_string());
    w.answers.push_back(false);
    let (k, f) = kind(publish(&mut w, "/w/draft.md", &blog(), Some("/w/images")));
    assert!(matches!(k, ErrorKind::Aborted));
    assert_eq!(f, vec!["Failed to remove /site/content/blog/draft.md: busy".to_string()]);
    assert!(!w.has("/site/public/images/draft.png"));
}

#[test]
fn publish_vcs_failure_rolls_back() {
    let mut w = drafts();
    let before = w.files.clone();
    w.answers.push_back(true);
    w.vcs = Err("push rejected".to_string());
    let (k, f) = kind(publish(&mut w, "/w/draft.md", &blog(), Some("/w/images")));
    match k {
        ErrorKind::VersionControl(d) => assert_eq!(d, "push rejected"),
        _ => panic!("expected a version-control failure"),
    }
    assert!(f.is_empty());
    assert_eq!(w.files, before);
}

#[test]
fn publish_copy_failure_removes_partial_files() {
    let mut w = drafts();
    let before = w.files.clone();
    w.fail_copy.insert("/site/public/images/draft.png".to_string());
    let (k, _) = kind(publish(&mut w, "/w/draft.md", &blog(), Some("/w/images")));
    match k {
        ErrorKind::CopyFailure { path, reason } => {
            assert_eq!(text(&path), "/site/public/images/draft.png");
            assert_eq!(reason, "disk full");
        }
        _ => panic!("expected a copy failure"),
    }
    assert_eq!(w.files, before);
}

#[test]
fn publish_list_failure_rolls_back() {
    let mut w = drafts();
    let before = w.files.clone();
    w.fail_list = true;
    let (k, _) = kind(publish(&mut w, "/w/draft.md", &blog(), Some("/w/images")));
    assert!(matches!(k, ErrorKind::ListFailure { .. }));
    assert_eq!(w.files, before);
}

#[test]
fn publish_without_images_copies_markdown_only() {
    let mut w = drafts();
    w.answers.push_back(true);
    let r = publish(&mut w, "/w/draft.md", &blog(), None);
    assert!(matches!(r, Ok(Outcome::Completed { .. })));
    assert!(w.has("/site/content/blog/draft.md"));
    assert!(!w.has("/site/public/images/draft.png"));
}

#[test]
fn publish_of_nameless_path_is_invalid() {
    let mut w = drafts();
    let (k, _) = kind(publish(&mut w, "/", &blog(), None));
    assert!(matches!(k, ErrorKind::InvalidName));
}

fn published() -> World {
    World::new(&[
        ("/site/content/blog/post.md", "# post"),
        ("/site/public/images/post.png", "img"),
        ("/site/public/images/POST-2.jpg", "img2"),
        ("/site/public/images/other.png", "other"),
        ("/w/readme.md", "keep"),
    ])
}

#[test]
fn delete_with_working_backup_succeeds() {
    let mut w = published();
    w.answers.extend([true, true]);
    let r = delete(&mut w, "/site/content/blog/post.md", &blog(), "/w", Some("/w/images"));
    match r {
        Ok(Outcome::Completed { name }) => assert_eq!(name, "post.md"),
        _ => panic!("expected success"),
    }
    assert!(!w.has("/site/content/blog/post.md"));
    assert!(!w.has("/site/public/images/post.png"));
    assert!(!w.has("/site/public/images/POST-2.jpg"));
    assert!(w.has("/site/public/images/other.png"));
    assert_eq!(w.files["/w/post.md"], "# post");
    assert_eq!(w.files["/w/images/post.png"], "img");
    assert!(!w.files.keys().any(|k| k.starts_with("/tmp/")));
    assert_eq!(w.commits[0].1, "Remove post.md from blog");
    assert_eq!(w.commits[0].0, "/site");
    assert_eq!(w.backup_seen.len(), 3);
}

#[test]
fn delete_removal_failure_restores_every_file() {
    let mut w = published();
    w.answers.extend([false, true]);
    w.fail_remove.insert("/site/public/images/post.png".to_string());
    let before = w.files.clone();
    let (k, f) = kind(delete(&mut w, "/site/content/blog/post.md", &blog(), "/w", Some("/w/images")));
    match k {
        ErrorKind::Removal { path, reason } => {
            assert_eq!(text(&path), "/site/public/images/post.png");
            assert_eq!(reason, "busy");
        }
        _ => panic!("expected a removal failure"),
    }
    assert!(f.is_empty());
    assert_eq!(w.files, before);
    assert!(w.commits.is_empty());
}

#[test]
fn delete_vcs_failure_restores_every_file() {
    let mut w = published();
    w.answers.extend([false, true]);
    w.vcs = Err("not a repository".to_string());
    let before = w.files.clone();
    let (k, _) = kind(delete(&mut w, "/site/content/blog/post.md", &blog(), "/w", Some("/w/images")));
    match k {
        ErrorKind::VersionControl(d) => assert_eq!(d, "not a repository"),
        _ => panic!("expected a version-control failure"),
    }
    assert_eq!(w.files, before);
}

#[test]
fn delete_declined_keeps_working_backup() {
    let mut w = published();
    w.answers.extend([true, false]);
    let r = delete(&mut w, "/site/content/blog/post.md", &blog(), "/w", Some("/w/images"));
    assert!(matches!(r, Ok(Outcome::Aborted)));
    assert!(w.has("/site/content/blog/post.md"));
    assert!(w.has("/w/post.md"));
    assert!(!w.files.keys().any(|k| k.starts_with("/tmp/")));
}

#[test]
fn delete_skips_question_when_working_copy_exists() {
    let mut w = published();
    w.files.insert("/w/post.md".to_string(), "draft".to_string());
    w.answers.extend([true]);
    let r = delete(&mut w, "/site/content/blog/post.md", &blog(), "/w", Some("/w/images"));
    assert!(matches!(r, Ok(Outcome::Completed { .. })));
    assert_eq!(w.questions.len(), 1);
    assert_eq!(w.files["/w/post.md"], "draft");
}

#[test]
fn delete_working_backup_conflict_discards_copies() {
    let mut w = published();
    w.files.insert("/w/images/post.png".to_string(), "mine".to_string());
    w.answers.extend([true]);
    let (k, f) = kind(delete(&mut w, "/site/content/blog/post.md", &blog(), "/w", Some("/w/images")));
    match k {
        ErrorKind::DestinationConflict(p) => assert_eq!(text(&p), "/w/images/post.png"),
        _ => panic!("expected a destination conflict"),
    }
    assert!(f.is_empty());
    assert!(!w.has("/w/post.md"));
    assert_eq!(w.files["/w/images/post.png"], "mine");
    assert!(w.has("/site/content/blog/post.md"));
}

#[test]
fn delete_backup_failure_removes_nothing() {
    let mut w = published();
    w.answers.extend([false]);
    w.fail_backup = true;
    let before = w.files.clone();
    let (k, _) = kind(delete(&mut w, "/site/content/blog/post.md", &blog(), "/w", Some("/w/images")));
    match k {
        ErrorKind::BackupFailure(r) => assert_eq!(r, "no space"),
        _ => panic!("expected a backup failure"),
    }
    assert_eq!(w.files, before);
}

#[test]
fn restore_and_cleanup_names_records_and_dir() {
    let records = vec![BackupRecord { original: path("/a/x.md"), backup: path("/tmp/b/x.md") }];
    match restore_and_cleanup(&records, &path("/tmp/b")) {
        Action::RestoreAndCleanup { records, dir } => {
            assert_eq!(records.len(), 1);
            assert_eq!(text(&records[0].original), "/a/x.md");
            assert_eq!(text(&records[0].backup), "/tmp/b/x.md");
            assert_eq!(text(&dir), "/tmp/b");
        }
        _ => panic!("expected a restore"),
    }
}
