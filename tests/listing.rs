use nuch::assets::{
    asset_name_matches, dir_has_markdown, dir_has_supported_files, is_matching_asset,
    matching_images_for_stem, DirEntry,
};
use nuch::names::{ends_with, extension, file_stem, starts_with};
use nuch::path::FsPath;
use nuch::select::{collection_named, content_candidates, position_by_name, sole_collection};
use nuch::config::CollectionPaths;
use nuch::vcs::{add_commit_message, get_site_root, remove_commit_message};

fn path(s: &str) -> FsPath {
    FsPath::new(
        s.starts_with('/'),
        s.split('/').filter(|p| !p.is_empty()).map(|p| p.to_string()).collect(),
    )
}

fn text(p: &FsPath) -> String {
    let body = p.parts.join("/");
    if p.absolute {
        format!("/{}", body)
    } else {
        body
    }
}

fn file(name: &str) -> DirEntry {
    DirEntry { name: name.to_string(), is_file: true }
}

#[test]
fn dir_has_markdown_detects_markdown() {
    let mut entries: Vec<DirEntry> = Vec::new();
    assert!(!dir_has_markdown(&entries));

    entries.push(file("post.md"));
    assert!(dir_has_markdown(&entries));
}

#[test]
fn matching_images_for_stem_filters_correctly() {
    let dir = path("/tmp/listing");
    let entries: Vec<DirEntry> = ["post1.png", "post1-thumb.JPG", "other.png", "post1.txt"]
        .iter()
        .map(|n| file(n))
        .collect();

    let matches = matching_images_for_stem("post1", &dir, &entries);
    assert_eq!(matches.len(), 2);
    let mut names: Vec<String> = matches
        .iter()
        .map(|p| p.file_name().unwrap().to_lowercase())
        .collect();
    names.sort();
    assert!(names.contains(&"post1.png".to_string()));
    assert!(names.contains(&"post1-thumb.jpg".to_string()));
}

#[test]
fn asset_matcher_ignores_case() {
    let dir = path("/w/images");
    let entries = vec![file("post.png"), file("POST-x.JPG"), file("other.png")];
    let found = matching_images_for_stem("post", &dir, &entries);
    let names: Vec<String> = found.iter().map(|p| p.file_name().unwrap()).collect();
    assert_eq!(names, vec!["post.png".to_string(), "POST-x.JPG".to_string()]);
    assert_eq!(text(&found[1]), "/w/images/POST-x.JPG");
}

#[test]
fn asset_matcher_skips_directories_and_other_extensions() {
    let dir = path("/w/images");
    let entries = vec![
        DirEntry { name: "post.png".to_string(), is_file: false },
        file("post.txt"),
        file("post.webp"),
        file("post.svg"),
        file("post.jpeg"),
        file("post.gif"),
    ];
    let found = matching_images_for_stem("post", &dir, &entries);
    let names: Vec<String> = found.iter().map(|p| p.file_name().unwrap()).collect();
    assert_eq!(names, vec!["post.webp", "post.svg", "post.jpeg", "post.gif"]);
    assert!(matching_images_for_stem("post", &dir, &Vec::new()).is_empty());
}

#[test]
fn case_folding_is_applied_to_names() {
    assert!(is_matching_asset("post", "POST.PNG"));
    assert!(!asset_name_matches("post", "POST.PNG"));
    assert!(asset_name_matches("post", "post.png"));
    assert!(!is_matching_asset("draft", "post.png"));
}

#[test]
fn prefixes_and_suffixes() {
    assert!(starts_with("post.png", "post"));
    assert!(!starts_with("po", "post"));
    assert!(ends_with("post.png", "png"));
    assert!(!ends_with("post.png", "jpg"));
    assert!(starts_with("x", ""));
}

#[test]
fn stems_and_extensions() {
    assert_eq!(file_stem("draft.md"), "draft");
    assert_eq!(file_stem("archive.tar.gz"), "archive.tar");
    assert_eq!(file_stem(".hidden"), ".hidden");
    assert_eq!(file_stem("plain"), "plain");
    assert_eq!(extension("draft.md"), Some("md".to_string()));
    assert_eq!(extension(".hidden"), None);
    assert_eq!(extension("plain"), None);
    assert_eq!(extension("trailing."), Some(String::new()));
}

#[test]
fn supported_files_are_detected() {
    assert!(dir_has_supported_files(&vec![file("data.csv")]));
    assert!(dir_has_supported_files(&vec![file("site.yaml")]));
    assert!(!dir_has_supported_files(&vec![file("image.png")]));
    assert!(!dir_has_supported_files(&vec![DirEntry { name: "a.md".to_string(), is_file: false }]));
}

#[test]
fn site_root_is_parent_of_content() {
    assert_eq!(text(&get_site_root(&path("/home/u/site/content/blog"))), "/home/u/site");
    assert_eq!(text(&get_site_root(&path("/home/u/site/content"))), "/home/u/site");
    assert_eq!(text(&get_site_root(&path("/a/content/b/content/c"))), "/a/content/b");
}

#[test]
fn site_root_falls_back_to_parent() {
    assert_eq!(text(&get_site_root(&path("/home/u/site/posts"))), "/home/u/site");
    assert_eq!(text(&get_site_root(&path("blog"))), "");
}

#[test]
fn commit_messages() {
    assert_eq!(add_commit_message(&"draft.md".to_string()), "Add draft.md to blog");
    assert_eq!(remove_commit_message(&"draft.md".to_string()), "Remove draft.md from blog");
}

#[test]
fn single_collection_is_chosen() {
    let one = vec![CollectionPaths { name: "blog".to_string(), files: path("/s/content"), images: None }];
    assert_eq!(sole_collection(&one), Some(0));
    let mut two = one;
    two.push(CollectionPaths { name: "notes".to_string(), files: path("/s/notes"), images: None });
    assert_eq!(sole_collection(&two), None);
    assert_eq!(collection_named(&two, &"notes".to_string()), Some(1));
    assert_eq!(collection_named(&two, &"other".to_string()), None);
}

#[test]
fn content_candidates_leave_out_published_files() {
    let dir = path("/w");
    let entries = vec![file("a.md"), file("b.md"), file("c.png"), file("d.json")];
    let present = vec![false, true, false, false];
    let found = content_candidates(&dir, &entries, &present);
    let names: Vec<String> = found.iter().map(|p| p.file_name().unwrap()).collect();
    assert_eq!(names, vec!["a.md", "d.json"]);
    assert_eq!(position_by_name(&found, &"d.json".to_string()), Some(1));
    assert_eq!(position_by_name(&found, &"b.md".to_string()), None);
}
