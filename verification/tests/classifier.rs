use lookup::utils::{is_likely_text_file, is_text_file, Entry, EntryKind, SAMPLE_SIZE};
use std::path::Path;

fn file(path: &str, data: Option<Vec<u8>>) -> Entry {
    let at = Path::new(path);
    Entry {
        path: path.to_string(),
        file_name: at.file_name().and_then(|name| name.to_str()).map(String::from),
        extension: at.extension().and_then(|ext| ext.to_str()).map(String::from),
        kind: EntryKind::File,
        depth: 1,
        data,
    }
}

#[test]
fn known_extension_is_text_without_a_look_at_the_content() {
    assert!(is_text_file(&file("src/main.rs", None)));
    assert!(is_text_file(&file("notes.txt", Some(vec![0, 0, 0, 0]))));
    assert!(is_text_file(&file("a/b/c.gitignore", None)));
    assert!(is_text_file(&file("settings.ini", None)));
}

#[test]
fn extension_is_compared_in_lower_case() {
    assert!(is_text_file(&file("README.MD", None)));
    assert!(is_text_file(&file("Page.HtMl", None)));
    assert!(is_text_file(&file("script.PY", None)));
}

#[test]
fn unknown_extension_is_not_text_whatever_the_content() {
    assert!(!is_text_file(&file("binary.bin", Some(b"plain words".to_vec()))));
    assert!(!is_text_file(&file("photo.png", Some(Vec::new()))));
    assert!(!is_text_file(&file("Makefile.am", Some(b"all:".to_vec()))));
}

#[test]
fn well_known_names_are_text() {
    for name in [
        "Makefile",
        "Dockerfile",
        "README",
        "LICENSE",
        "CHANGELOG",
        "AUTHORS",
        "CONTRIBUTORS",
        "Gemfile",
        "Rakefile",
    ] {
        assert!(is_text_file(&file(name, None)), "{}", name);
    }
}

#[test]
fn well_known_names_are_matched_exactly() {
    assert!(!is_text_file(&file("makefile", None)));
    assert!(!is_text_file(&file("readme", Some(vec![0, 0, 0]))));
    assert!(is_text_file(&file("readme", Some(b"hello".to_vec()))));
}

#[test]
fn entry_without_name_is_judged_by_content() {
    let mut root = file(".", Some(b"text".to_vec()));
    assert_eq!(root.file_name, None);
    assert_eq!(root.extension, None);
    assert!(is_text_file(&root));
    root.data = None;
    assert!(!is_text_file(&root));
}

#[test]
fn empty_file_is_text() {
    assert!(is_likely_text_file(&Some(Vec::new())));
    assert!(is_text_file(&file("empty", Some(Vec::new()))));
}

#[test]
fn unreadable_file_is_not_text() {
    assert!(!is_likely_text_file(&None));
    assert!(!is_text_file(&file("secret", None)));
}

#[test]
fn more_than_a_tenth_of_zero_bytes_is_binary() {
    let mut data = vec![b'a'; 89];
    data.extend(vec![0u8; 11]);
    assert_eq!(data.len(), 100);
    assert!(!is_likely_text_file(&Some(data)));
}

#[test]
fn a_tenth_of_zero_bytes_is_still_text() {
    let mut data = vec![b'a'; 90];
    data.extend(vec![0u8; 10]);
    assert_eq!(data.len(), 100);
    assert!(is_likely_text_file(&Some(data)));
}

#[test]
fn zero_bytes_are_counted_against_the_sample_length() {
    // 2 of 19 is more than a tenth, 1 of 19 is not.
    let mut data = vec![b'x'; 17];
    data.extend(vec![0u8; 2]);
    assert!(!is_likely_text_file(&Some(data)));
    let mut data = vec![b'x'; 18];
    data.push(0);
    assert!(is_likely_text_file(&Some(data)));
    assert!(!is_likely_text_file(&Some(vec![0u8])));
}

#[test]
fn well_formed_utf8_is_text() {
    assert!(is_likely_text_file(&Some("zażółć gęślą jaźń".as_bytes().to_vec())));
    assert!(is_likely_text_file(&Some(vec![1, 2, 3, 4, 5, 6, 7, 8])));
}

#[test]
fn malformed_utf8_is_text_when_printable_for_more_than_three_quarters() {
    assert!(is_likely_text_file(&Some(vec![0xff, b'a', b'b', b'c', b'd'])));
    assert!(is_likely_text_file(&Some(vec![0xff, b'\t', b'\n', b'\r', b' ', b'~'])));
}

#[test]
fn malformed_utf8_is_binary_when_printable_for_three_quarters_or_less() {
    assert!(!is_likely_text_file(&Some(vec![0xff, b'a', b'b', b'c'])));
    assert!(!is_likely_text_file(&Some(vec![0xff, 0xfe, b'a', b'b'])));
    assert!(!is_likely_text_file(&Some(vec![0xff, 31, 127, b'a', b'b', b'c', b'd', b'e'])));
    assert!(!is_likely_text_file(&Some(vec![0xff])));
}

#[test]
fn only_the_sample_is_looked_at() {
    let mut data = vec![b'a'; SAMPLE_SIZE];
    data.extend(vec![0u8; 4096]);
    assert!(is_likely_text_file(&Some(data)));
    let mut data = vec![0u8; SAMPLE_SIZE];
    data.extend(vec![b'a'; 4096]);
    assert!(!is_likely_text_file(&Some(data)));
}

#[test]
fn character_cut_by_the_end_of_the_sample_counts_as_malformed() {
    // The two bytes of the last character straddle the end of the sample.
    let mut data = vec![b'a'; SAMPLE_SIZE - 1];
    data.extend("é".as_bytes());
    assert!(is_likely_text_file(&Some(data)));
    let mut data = vec![1u8; SAMPLE_SIZE - 1];
    data.extend("é".as_bytes());
    assert!(std::str::from_utf8(&data).is_ok());
    assert!(!is_likely_text_file(&Some(data)));
}
