use lookup::cli::Cli;
use lookup::search::file_walker::{collect_files, filter_by_extension, is_candidate, walk_depth};
use lookup::utils::{Entry, EntryKind};
use std::path::Path;

fn node(path: &str, kind: EntryKind, depth: usize) -> Entry {
    let at = Path::new(path);
    Entry {
        path: path.to_string(),
        file_name: at.file_name().and_then(|name| name.to_str()).map(String::from),
        extension: at.extension().and_then(|ext| ext.to_str()).map(String::from),
        kind,
        depth,
        data: None,
    }
}

fn tree() -> Vec<Entry> {
    vec![
        node("root", EntryKind::Directory, 0),
        node("root/readme.md", EntryKind::File, 1),
        node("root/link", EntryKind::Other, 1),
        node("root/src", EntryKind::Directory, 1),
        node("root/src/main.rs", EntryKind::File, 2),
        node("root/src/deep", EntryKind::Directory, 2),
        node("root/src/deep/notes.TXT", EntryKind::File, 3),
        node("root/src/deep/Makefile", EntryKind::File, 3),
    ]
}

fn paths(entries: &[Entry]) -> Vec<&str> {
    entries.iter().map(|entry| entry.path.as_str()).collect()
}

fn tokens(list: &[&str]) -> Option<Vec<String>> {
    Some(list.iter().map(|token| token.to_string()).collect())
}

#[test]
fn files_alone_are_candidates_by_default() {
    let cli = Cli::new("x", "root");
    let files = collect_files(&cli, tree());
    assert_eq!(
        paths(&files),
        vec![
            "root/readme.md",
            "root/src/main.rs",
            "root/src/deep/notes.TXT",
            "root/src/deep/Makefile",
        ]
    );
}

#[test]
fn folders_only_keeps_directories_alone() {
    let mut cli = Cli::new("x", "root");
    cli.folders_only = true;
    let files = collect_files(&cli, tree());
    assert_eq!(paths(&files), vec!["root", "root/src", "root/src/deep"]);
}

#[test]
fn folders_only_takes_precedence_over_include_folders() {
    let mut cli = Cli::new("x", "root");
    cli.folders_only = true;
    cli.include_folders = true;
    let files = collect_files(&cli, tree());
    assert_eq!(paths(&files), vec!["root", "root/src", "root/src/deep"]);
}

#[test]
fn include_folders_keeps_every_kind() {
    let mut cli = Cli::new("x", "root");
    cli.include_folders = true;
    let files = collect_files(&cli, tree());
    assert_eq!(files, tree());
}

#[test]
fn candidates_are_handed_back_unchanged_and_in_order() {
    let cli = Cli::new("x", "root");
    let mut walked = tree();
    walked.reverse();
    walked[0].data = Some(vec![1, 2, 3]);
    let files = collect_files(&cli, walked.clone());
    let expected: Vec<Entry> =
        walked.into_iter().filter(|entry| entry.kind == EntryKind::File).collect();
    assert_eq!(files, expected);
    assert_eq!(files[0].data, Some(vec![1, 2, 3]));
}

#[test]
fn extension_list_filters_files() {
    let mut cli = Cli::new("x", "root");
    cli.extensions = tokens(&["rs", "md"]);
    let files = collect_files(&cli, tree());
    assert_eq!(paths(&files), vec!["root/readme.md", "root/src/main.rs"]);
}

#[test]
fn extension_list_ignores_ascii_case() {
    let mut cli = Cli::new("x", "root");
    cli.extensions = tokens(&["txt", "RS"]);
    let files = collect_files(&cli, tree());
    assert_eq!(paths(&files), vec!["root/src/main.rs", "root/src/deep/notes.TXT"]);
}

#[test]
fn extension_token_may_carry_a_leading_dot() {
    let mut cli = Cli::new("x", "root");
    cli.extensions = tokens(&[".md", ".Txt"]);
    let files = collect_files(&cli, tree());
    assert_eq!(paths(&files), vec!["root/readme.md", "root/src/deep/notes.TXT"]);
    let double = node("a.md", EntryKind::File, 1);
    assert!(!filter_by_extension(&double, &tokens(&["..md"])));
    assert!(!filter_by_extension(&double, &tokens(&["."])));
}

#[test]
fn file_without_extension_is_dropped_by_an_extension_list() {
    let makefile = node("root/Makefile", EntryKind::File, 1);
    assert!(filter_by_extension(&makefile, &None));
    assert!(!filter_by_extension(&makefile, &tokens(&["rs"])));
    assert!(!filter_by_extension(&makefile, &tokens(&[""])));
    assert!(!filter_by_extension(&makefile, &tokens(&[])));
}

#[test]
fn empty_extension_list_admits_no_file() {
    let mut cli = Cli::new("x", "root");
    cli.extensions = tokens(&[]);
    assert_eq!(collect_files(&cli, tree()), Vec::new());
}

#[test]
fn extension_must_match_as_a_whole() {
    let entry = node("a/b.rs", EntryKind::File, 2);
    assert!(filter_by_extension(&entry, &tokens(&["rs"])));
    assert!(filter_by_extension(&entry, &tokens(&["py", "Rs"])));
    assert!(!filter_by_extension(&entry, &tokens(&["r"])));
    assert!(!filter_by_extension(&entry, &tokens(&["rss"])));
    assert!(!filter_by_extension(&entry, &tokens(&["b.rs"])));
}

#[test]
fn only_ascii_letters_are_folded_in_extensions() {
    let entry = node("a/b.ÄB", EntryKind::File, 2);
    assert!(filter_by_extension(&entry, &tokens(&["Äb"])));
    assert!(!filter_by_extension(&entry, &tokens(&["äb"])));
}

#[test]
fn directories_are_never_filtered_by_extension() {
    let mut cli = Cli::new("x", "root");
    cli.include_folders = true;
    cli.extensions = tokens(&["rs"]);
    let mut walked = tree();
    walked.push(node("root/pkg.d", EntryKind::Directory, 1));
    let files = collect_files(&cli, walked);
    assert_eq!(
        paths(&files),
        vec!["root", "root/link", "root/src", "root/src/main.rs", "root/src/deep", "root/pkg.d"]
    );
}

#[test]
fn depth_limit_of_zero_stops_at_what_stands_in_the_root() {
    let mut cli = Cli::new("x", "root");
    cli.max_depth = Some(0);
    let files = collect_files(&cli, tree());
    assert_eq!(paths(&files), vec!["root/readme.md"]);
    cli.include_folders = true;
    let files = collect_files(&cli, tree());
    assert_eq!(paths(&files), vec!["root", "root/readme.md", "root/link", "root/src"]);
}

#[test]
fn depth_limit_counts_levels_of_subdirectories() {
    let mut cli = Cli::new("x", "root");
    cli.max_depth = Some(1);
    let files = collect_files(&cli, tree());
    assert_eq!(paths(&files), vec!["root/readme.md", "root/src/main.rs"]);
    cli.max_depth = Some(2);
    assert_eq!(collect_files(&cli, tree()).len(), 4);
    cli.max_depth = None;
    assert_eq!(collect_files(&cli, tree()).len(), 4);
}

#[test]
fn walk_has_to_reach_one_level_below_the_limit() {
    assert_eq!(walk_depth(Some(0)), 1);
    assert_eq!(walk_depth(Some(7)), 8);
    assert_eq!(walk_depth(Some(usize::MAX - 1)), usize::MAX);
    assert_eq!(walk_depth(Some(usize::MAX)), usize::MAX);
    assert_eq!(walk_depth(None), usize::MAX);
}

#[test]
fn greatest_depth_is_within_every_greatest_limit() {
    let mut cli = Cli::new("x", "root");
    cli.max_depth = Some(usize::MAX);
    assert!(is_candidate(&cli, &node("a", EntryKind::File, usize::MAX)));
    cli.max_depth = Some(usize::MAX - 1);
    assert!(is_candidate(&cli, &node("a", EntryKind::File, usize::MAX)));
    cli.max_depth = Some(usize::MAX - 2);
    assert!(!is_candidate(&cli, &node("a", EntryKind::File, usize::MAX)));
    assert!(is_candidate(&cli, &node("a", EntryKind::File, usize::MAX - 1)));
}

#[test]
fn other_kinds_are_candidates_only_with_folders_included() {
    let link = node("root/link.rs", EntryKind::Other, 1);
    let mut cli = Cli::new("x", "root");
    assert!(!is_candidate(&cli, &link));
    cli.include_folders = true;
    cli.extensions = tokens(&["md"]);
    assert!(is_candidate(&cli, &link));
    cli.folders_only = true;
    assert!(!is_candidate(&cli, &link));
}
