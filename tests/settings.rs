use nuch::config::{validate_config, CollectionConfig, Config, ConfigProblem, DirFacts, WorkingConfig};
use nuch::names::is_blank;
use nuch::path::{components, resolve_dir, FsPath};

fn home() -> FsPath {
    FsPath::new(true, vec!["home".to_string(), "u".to_string()])
}

fn text(p: &FsPath) -> String {
    let body = p.parts.join("/");
    if p.absolute {
        format!("/{}", body)
    } else {
        body
    }
}

fn col(name: &str, files: &str, images: Option<&str>) -> CollectionConfig {
    CollectionConfig {
        name: name.to_string(),
        files: files.to_string(),
        images: images.map(|s| s.to_string()),
    }
}

fn working(files: &str, images: Option<&str>) -> WorkingConfig {
    WorkingConfig { files: files.to_string(), images: images.map(|s| s.to_string()) }
}

fn all_dirs(n: usize) -> DirFacts {
    DirFacts {
        working_files_is_dir: true,
        working_has_content: true,
        working_images_is_dir: true,
        files_is_dir: vec![true; n],
        images_is_dir: vec![true; n],
    }
}

#[test]
fn path_text_is_split_into_components() {
    assert_eq!(components("a//b/./c/"), vec!["a", "b", "c"]);
    assert_eq!(components("/"), Vec::<String>::new());
    assert_eq!(components("x"), vec!["x"]);
}

#[test]
fn relative_dirs_resolve_inside_home() {
    assert_eq!(text(&resolve_dir("Documents/writings", &home())), "/home/u/Documents/writings");
    assert_eq!(text(&resolve_dir("/srv/site", &home())), "/srv/site");
}

#[test]
fn blank_strings() {
    assert!(is_blank("   \t"));
    assert!(is_blank(""));
    assert!(!is_blank(" a "));
}

#[test]
fn valid_config_resolves_every_path() {
    let cfg = Config {
        working: working("w", Some("w/images")),
        collection: vec![col("blog", "site/content/blog", Some("/srv/images")), col("notes", "site/notes", None)],
    };
    let paths = match validate_config(&cfg, &home(), &all_dirs(2)) {
        Ok(p) => p,
        Err(_) => panic!("expected a valid configuration"),
    };
    assert_eq!(text(&paths.working_files), "/home/u/w");
    assert_eq!(text(paths.working_images.as_ref().unwrap()), "/home/u/w/images");
    assert_eq!(paths.collections.len(), 2);
    assert_eq!(paths.collections[0].name, "blog");
    assert_eq!(text(&paths.collections[0].files), "/home/u/site/content/blog");
    assert_eq!(text(paths.collections[0].images.as_ref().unwrap()), "/srv/images");
    assert!(paths.collections[1].images.is_none());
}

#[test]
fn empty_working_files_is_reported_alone() {
    let cfg = Config { working: working("  ", None), collection: vec![col("", "", None)] };
    match validate_config(&cfg, &home(), &all_dirs(1)) {
        Err(problems) => {
            assert_eq!(problems.len(), 1);
            assert!(matches!(problems[0], ConfigProblem::EmptyWorkingFiles));
        }
        Ok(_) => panic!("expected problems"),
    }
}

#[test]
fn every_problem_is_reported_in_order() {
    let cfg = Config {
        working: working("w", Some("w/images")),
        collection: vec![
            col(" ", "a", None),
            col("blog", "site/blog", None),
            col("blog", "site/other", None),
            col("empty", "", None),
            col("gone", "site/gone", Some("site/gone-images")),
        ],
    };
    let facts = DirFacts {
        working_files_is_dir: true,
        working_has_content: false,
        working_images_is_dir: false,
        files_is_dir: vec![true, true, true, true, false],
        images_is_dir: vec![true, true, true, true, false],
    };
    let problems = match validate_config(&cfg, &home(), &facts) {
        Err(p) => p,
        Ok(_) => panic!("expected problems"),
    };
    assert_eq!(problems.len(), 7);
    assert!(matches!(&problems[0], ConfigProblem::NoSupportedFiles(p) if text(p) == "/home/u/w"));
    assert!(matches!(&problems[1], ConfigProblem::WorkingImagesMissing(p) if text(p) == "/home/u/w/images"));
    assert!(matches!(&problems[2], ConfigProblem::EmptyCollectionName));
    assert!(matches!(&problems[3], ConfigProblem::DuplicateCollection(n) if n == "blog"));
    assert!(matches!(&problems[4], ConfigProblem::EmptyCollectionFiles(n) if n == "empty"));
    assert!(matches!(&problems[5], ConfigProblem::CollectionFilesMissing { name, path } if name == "gone" && text(path) == "/home/u/site/gone"));
    assert!(matches!(&problems[6], ConfigProblem::CollectionImagesMissing { name, path } if name == "gone" && text(path) == "/home/u/site/gone-images"));
}

#[test]
fn missing_working_dir_is_reported() {
    let cfg = Config { working: working("/nowhere", None), collection: vec![] };
    let mut facts = all_dirs(0);
    facts.working_files_is_dir = false;
    match validate_config(&cfg, &home(), &facts) {
        Err(problems) => {
            assert_eq!(problems.len(), 1);
            assert!(matches!(&problems[0], ConfigProblem::WorkingFilesMissing(p) if text(p) == "/nowhere"));
        }
        Ok(_) => panic!("expected problems"),
    }
}
