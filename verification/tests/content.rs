use lookup::search::content_searcher::{search_file_content, ContentError};
use lookup::search::create_regex;

fn bytes(text: &str) -> Option<Vec<u8>> {
    Some(text.as_bytes().to_vec())
}

fn line(number: usize, text: &str) -> (usize, String) {
    (number, text.to_string())
}

#[test]
fn matching_lines_come_in_file_order_numbered_from_one() {
    let data = bytes("alpha\nbeta needle\ngamma\nneedle delta\n");
    let found = search_file_content(&data, "needle", None, false, 100);
    assert_eq!(found, Ok(vec![line(2, "beta needle"), line(4, "needle delta")]));
}

#[test]
fn single_line_without_ending() {
    let found = search_file_content(&bytes("Hello World"), "Hello", None, false, 10000);
    assert_eq!(found, Ok(vec![line(1, "Hello World")]));
}

#[test]
fn no_match_gives_no_lines() {
    let found = search_file_content(&bytes("no match here"), "Hello", None, false, 10000);
    assert_eq!(found, Ok(Vec::new()));
    assert_eq!(search_file_content(&bytes(""), "Hello", None, false, 10000), Ok(Vec::new()));
}

#[test]
fn line_endings_are_not_part_of_the_lines() {
    let data = bytes("one x\r\ntwo x\nthree x\r\n");
    let found = search_file_content(&data, "x", None, false, 100);
    assert_eq!(found, Ok(vec![line(1, "one x"), line(2, "two x"), line(3, "three x")]));
}

#[test]
fn final_line_ending_adds_no_line() {
    let with = search_file_content(&bytes("a\nb\n"), "", None, false, 100);
    let without = search_file_content(&bytes("a\nb"), "", None, false, 100);
    assert_eq!(with, Ok(vec![line(1, "a"), line(2, "b")]));
    assert_eq!(with, without);
}

#[test]
fn empty_lines_are_lines() {
    let found = search_file_content(&bytes("\n\nx\n\n"), "", None, false, 100);
    assert_eq!(found, Ok(vec![line(1, ""), line(2, ""), line(3, "x"), line(4, "")]));
}

#[test]
fn carriage_return_alone_ends_no_line() {
    let found = search_file_content(&bytes("a\rb x\nc x\r"), "x", None, false, 100);
    assert_eq!(found, Ok(vec![line(1, "a\rb x"), line(2, "c x\r")]));
}

#[test]
fn only_one_carriage_return_belongs_to_the_ending() {
    let found = search_file_content(&bytes("x\r\r\ny"), "x", None, false, 100);
    assert_eq!(found, Ok(vec![line(1, "x\r")]));
}

#[test]
fn ignore_case_applies_to_lines() {
    let data = bytes("this has foo in it\nthis has FOO in it\nnothing\n");
    let found = search_file_content(&data, "Foo", None, true, 100);
    assert_eq!(found, Ok(vec![line(1, "this has foo in it"), line(2, "this has FOO in it")]));
    let found = search_file_content(&data, "Foo", None, false, 100);
    assert_eq!(found, Ok(Vec::new()));
}

#[test]
fn pattern_is_applied_to_each_line() {
    let data = bytes("test first\nnot a test\ntesting\n  test\n");
    let pattern = create_regex("^test", false).ok().unwrap();
    let found = search_file_content(&data, "^test", Some(&pattern), false, 100);
    assert_eq!(found, Ok(vec![line(1, "test first"), line(3, "testing")]));
}

#[test]
fn line_beyond_the_limit_fails_the_scan() {
    let data = bytes("short\nexactly ten\n");
    let found = search_file_content(&data, "short", None, false, 10);
    assert_eq!(found, Err(ContentError::LineTooLong { length: 11 }));
}

#[test]
fn line_at_the_limit_is_scanned() {
    let data = bytes("0123456789\nabc\n");
    let found = search_file_content(&data, "9", None, false, 10);
    assert_eq!(found, Ok(vec![line(1, "0123456789")]));
    let found = search_file_content(&data, "9", None, false, 9);
    assert_eq!(found, Err(ContentError::LineTooLong { length: 10 }));
}

#[test]
fn matches_before_a_long_line_are_discarded() {
    let data = bytes("hit\nhit\nthis line is far too long\nhit\n");
    let found = search_file_content(&data, "hit", None, false, 5);
    assert_eq!(found, Err(ContentError::LineTooLong { length: 25 }));
}

#[test]
fn first_long_line_is_reported() {
    let data = bytes("ab\nabcdef\nabcdefghij\n");
    let found = search_file_content(&data, "zzz", None, false, 3);
    assert_eq!(found, Err(ContentError::LineTooLong { length: 6 }));
}

#[test]
fn length_is_counted_in_bytes() {
    // Four characters, eight bytes.
    let data = bytes("éééé\n");
    assert_eq!(
        search_file_content(&data, "é", None, false, 7),
        Err(ContentError::LineTooLong { length: 8 })
    );
    assert_eq!(search_file_content(&data, "é", None, false, 8), Ok(vec![line(1, "éééé")]));
}

#[test]
fn line_ending_does_not_count_towards_the_length() {
    let found = search_file_content(&bytes("abc\r\nabc\n"), "b", None, false, 3);
    assert_eq!(found, Ok(vec![line(1, "abc"), line(2, "abc")]));
}

#[test]
fn limit_of_zero_admits_only_empty_lines() {
    assert_eq!(search_file_content(&bytes("\n\n"), "", None, false, 0).map(|l| l.len()), Ok(2));
    assert_eq!(
        search_file_content(&bytes("\na\n"), "", None, false, 0),
        Err(ContentError::LineTooLong { length: 1 })
    );
}

#[test]
fn malformed_bytes_are_replaced_and_the_scan_goes_on() {
    let data = Some(vec![b'k', b'e', b'y', 0xff, b'\n', b'k', b'e', b'y', b'\n']);
    let found = search_file_content(&data, "key", None, false, 100);
    assert_eq!(found, Ok(vec![line(1, "key\u{fffd}"), line(2, "key")]));
}

#[test]
fn replacement_character_counts_with_its_own_length() {
    // One malformed byte becomes a character of three bytes.
    let data = Some(vec![b'a', 0xff]);
    assert_eq!(
        search_file_content(&data, "a", None, false, 3),
        Err(ContentError::LineTooLong { length: 4 })
    );
    assert_eq!(search_file_content(&data, "a", None, false, 4).map(|l| l.len()), Ok(1));
}

#[test]
fn unreadable_file_fails_the_scan() {
    assert_eq!(search_file_content(&None, "x", None, false, 100), Err(ContentError::Unreadable));
}
