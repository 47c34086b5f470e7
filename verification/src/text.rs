//! Text primitives: what it means for one text to occur in another, how a
//! text falls into lines, and the standard library's string routines that the
//! search relies on, each with the contract the rest of the library is proved
//! against.

use vstd::prelude::*;
use vstd::string::*;
use vstd::utf8::*;

verus! {

/// `needle` stands in `hay` at position `at`.
pub open spec fn occurs_at(needle: Seq<char>, hay: Seq<char>, at: int) -> bool {
    &&& 0 <= at
    &&& at + needle.len() <= hay.len()
    &&& hay.subrange(at, at + needle.len()) == needle
}

/// `needle` stands somewhere in `hay`.
pub open spec fn is_substring(needle: Seq<char>, hay: Seq<char>) -> bool {
    exists|at: int| occurs_at(needle, hay, at)
}

/// The lowercase form of a text under the Unicode rules that
/// `str::to_lowercase` applies.
pub uninterp spec fn lowercase_of(text: Seq<char>) -> Seq<char>;

/// The text that `String::from_utf8_lossy` decodes from a byte sequence.
pub uninterp spec fn lossy_text(bytes: Seq<u8>) -> Seq<char>;

/// An ASCII capital letter becomes its small letter; every other character
/// stays.
pub open spec fn ascii_lower(c: char) -> char {
    if 'A' <= c && c <= 'Z' {
        (((c as u8) + 32) as u8) as char
    } else {
        c
    }
}

/// A text with each ASCII capital letter replaced by its small letter.
pub open spec fn ascii_lowercase(text: Seq<char>) -> Seq<char> {
    Seq::new(text.len(), |i: int| ascii_lower(text[i]))
}

/// Position of the first line feed in `text`, or its length where it has none.
pub open spec fn first_line_feed(text: Seq<char>) -> int
    decreases text.len(),
{
    if text.len() == 0 {
        0
    } else if text[0] == '\n' {
        0
    } else {
        1 + first_line_feed(text.drop_first())
    }
}

/// A line without the carriage return that closes it, if one does.
pub open spec fn without_carriage_return(line: Seq<char>) -> Seq<char> {
    if line.len() > 0 && line.last() == '\r' {
        line.drop_last()
    } else {
        line
    }
}

/// The lines of a text. A line ends at a line feed, or at a carriage return
/// directly followed by one; the ending is not part of the line. The last
/// line needs no ending, and a text that ends in one has no empty line after
/// it.
pub open spec fn lines_of(text: Seq<char>) -> Seq<Seq<char>>
    decreases text.len(),
{
    let cut = first_line_feed(text);
    if text.len() == 0 {
        Seq::empty()
    } else if cut < 0 || cut >= text.len() {
        seq![text]
    } else {
        seq![without_carriage_return(text.subrange(0, cut))] + lines_of(
            text.subrange(cut + 1, text.len() as int),
        )
    }
}

/// The first line feed lies inside the text or at its end, and nothing before
/// it is a line feed.
pub proof fn lemma_first_line_feed(text: Seq<char>)
    ensures
        0 <= first_line_feed(text) <= text.len(),
        first_line_feed(text) < text.len() ==> text[first_line_feed(text)] == '\n',
        forall|i: int| 0 <= i < first_line_feed(text) ==> text[i] != '\n',
    decreases text.len(),
{
    if text.len() > 0 && text[0] != '\n' {
        let rest = text.drop_first();
        lemma_first_line_feed(rest);
        assert forall|i: int| 0 <= i < first_line_feed(text) implies text[i] != '\n' by {
            if i > 0 {
                assert(text[i] == rest[i - 1]);
            }
        }
    }
}

/// Whether a text is free of line feeds and carriage returns.
pub open spec fn has_no_line_break(text: Seq<char>) -> bool {
    forall|i: int| 0 <= i < text.len() ==> text[i] != '\n' && text[i] != '\r'
}

/// A text without line breaks that occurs in another occurs in one of its
/// lines.
pub proof fn lemma_occurrence_lies_in_a_line(text: Seq<char>, needle: Seq<char>)
    requires
        is_substring(needle, text),
        needle.len() > 0,
        has_no_line_break(needle),
    ensures
        exists|line: int|
            0 <= line < lines_of(text).len() && is_substring(needle, #[trigger] lines_of(text)[line]),
    decreases text.len(),
{
    let at = choose|at: int| occurs_at(needle, text, at);
    let end = at + needle.len();
    lemma_first_line_feed(text);
    let cut = first_line_feed(text);
    assert forall|j: int| 0 <= j < needle.len() implies text[at + j] == needle[j] by {
        assert(text.subrange(at, end)[j] == needle[j]);
    }
    if cut >= text.len() {
        assert(lines_of(text)[0] == text);
        assert(occurs_at(needle, lines_of(text)[0], at));
    } else if end <= cut {
        let head = text.subrange(0, cut);
        let first = without_carriage_return(head);
        assert(lines_of(text)[0] == first);
        if head.len() > 0 && head.last() == '\r' {
            if end == cut {
                assert(text[at + (needle.len() - 1)] == needle[needle.len() - 1]);
                assert(head.last() == text[cut - 1]);
            }
        }
        assert(first.subrange(at, end) =~= needle);
        assert(occurs_at(needle, first, at));
    } else {
        if at <= cut {
            assert(text[at + (cut - at)] == needle[cut - at]);
        }
        let rest = text.subrange(cut + 1, text.len() as int);
        let moved = at - cut - 1;
        assert(rest.subrange(moved, moved + needle.len()) =~= needle);
        assert(occurs_at(needle, rest, moved));
        lemma_occurrence_lies_in_a_line(rest, needle);
        let line = choose|line: int|
            0 <= line < lines_of(rest).len() && is_substring(needle, #[trigger] lines_of(rest)[line]);
        assert(lines_of(text)[line + 1] == lines_of(rest)[line]);
    }
}

/// `str::contains` with a string pattern: whether `needle` is a substring of
/// `hay`.
#[verifier::external_body]
pub(crate) fn contains_text(hay: &str, needle: &str) -> (found: bool)
    ensures
        found == is_substring(needle@, hay@),
{
    hay.contains(needle)
}

/// `str::to_lowercase`: the result is the Unicode lowercase form of `text`,
/// which depends on `text` alone.
#[verifier::external_body]
pub(crate) fn lowercase(text: &str) -> (lowered: String)
    ensures
        lowered@ == lowercase_of(text@),
{
    text.to_lowercase()
}

/// `str::eq_ignore_ascii_case`: whether two texts are equal once the ASCII
/// capital letters of both are made small.
#[verifier::external_body]
pub(crate) fn equal_ignoring_ascii_case(a: &str, b: &str) -> (equal: bool)
    ensures
        equal == (ascii_lowercase(a@) == ascii_lowercase(b@)),
{
    a.eq_ignore_ascii_case(b)
}

/// `str::lines`: the lines of `text` in order, each as an owned string.
#[verifier::external_body]
pub(crate) fn split_lines(text: &str) -> (lines: Vec<String>)
    ensures
        lines.deep_view() == lines_of(text@),
{
    text.lines().map(String::from).collect()
}

/// `std::str::from_utf8`: succeeds exactly on well-formed UTF-8.
#[verifier::external_body]
pub(crate) fn is_utf8(bytes: &[u8]) -> (valid: bool)
    ensures
        valid == valid_utf8(bytes@),
{
    std::str::from_utf8(bytes).is_ok()
}

/// `String::from_utf8_lossy`: decodes `bytes`, putting U+FFFD in place of
/// each malformed sequence. On well-formed UTF-8 nothing is replaced and the
/// result is the text that the bytes encode.
#[verifier::external_body]
pub(crate) fn decode_lossy(bytes: &[u8]) -> (text: String)
    ensures
        text@ == lossy_text(bytes@),
        valid_utf8(bytes@) ==> text@ == decode_utf8(bytes@),
{
    String::from_utf8_lossy(bytes).into_owned()
}

/// Whether two string slices hold the same text.
pub fn same_text(a: &str, b: &str) -> (same: bool)
    ensures
        same == (a@ == b@),
{
    let x = a.as_bytes();
    let y = b.as_bytes();
    proof {
        encode_utf8_decode_utf8(a@);
        encode_utf8_decode_utf8(b@);
    }
    if x.len() != y.len() {
        return false;
    }
    let mut i: usize = 0;
    while i < x.len()
        invariant
            x@ == encode_utf8(a@),
            y@ == encode_utf8(b@),
            x.len() == y.len(),
            i <= x.len(),
            forall|j: int| 0 <= j < i ==> x@[j] == y@[j],
        decreases x.len() - i,
    {
        if x[i] != y[i] {
            return false;
        }
        i += 1;
    }
    assert(x@ =~= y@);
    true
}

} // verus!
