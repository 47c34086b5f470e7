//! Scanning the content of one file, line by line.

use crate::pattern::{Pattern, PatternView};
use crate::search::matcher::{matches_query, pattern_view, query_matches};
use crate::text::{decode_lossy, lines_of, lossy_text, split_lines};
use crate::utils::line_views;
use vstd::prelude::*;
use vstd::utf8::{decode_utf8, encode_utf8, valid_utf8};

verus! {

/// Why a scan gave no lines.
#[derive(Debug, Clone, Copy, PartialEq, Eq, Structural)]
pub enum ContentError {
    /// A line is longer than the limit; `length` is its length in bytes.
    LineTooLong { length: usize },
    /// The file could not be read.
    Unreadable,
}

/// The mathematical content of a [`ContentError`].
pub enum ContentFault {
    LineTooLong { length: nat },
    Unreadable,
}

impl View for ContentError {
    type V = ContentFault;

    open spec fn view(&self) -> ContentFault {
        match self {
            ContentError::LineTooLong { length } => ContentFault::LineTooLong {
                length: *length as nat,
            },
            ContentError::Unreadable => ContentFault::Unreadable,
        }
    }
}

/// The text that is scanned for a file of these bytes: the text they encode
/// where they are well-formed UTF-8, and their lossy decoding where not.
pub open spec fn content_text(bytes: Seq<u8>) -> Seq<char> {
    if valid_utf8(bytes) {
        decode_utf8(bytes)
    } else {
        lossy_text(bytes)
    }
}

/// Length of a line in bytes of UTF-8.
pub open spec fn byte_length(line: Seq<char>) -> nat {
    encode_utf8(line).len()
}

/// Line `at` is longer than `limit` and no line before it is.
pub open spec fn first_long_line_at(lines: Seq<Seq<char>>, limit: nat, at: int) -> bool {
    &&& 0 <= at < lines.len()
    &&& byte_length(lines[at]) > limit
    &&& forall|before: int| 0 <= before < at ==> byte_length(#[trigger] lines[before]) <= limit
}

/// Some line is longer than `limit`.
pub open spec fn has_long_line(lines: Seq<Seq<char>>, limit: nat) -> bool {
    exists|at: int| 0 <= at < lines.len() && byte_length(#[trigger] lines[at]) > limit
}

/// The lines that match, in order, each with its number counted from 1.
pub open spec fn matching_lines(
    lines: Seq<Seq<char>>,
    query: Seq<char>,
    pattern: Option<PatternView>,
    ignore_case: bool,
) -> Seq<(nat, Seq<char>)>
    decreases lines.len(),
{
    if lines.len() == 0 {
        Seq::empty()
    } else {
        let before = matching_lines(lines.drop_last(), query, pattern, ignore_case);
        if query_matches(lines.last(), query, pattern, ignore_case) {
            before.push((lines.len(), lines.last()))
        } else {
            before
        }
    }
}

/// What a scan of these lines gives: the first line that is longer than
/// `limit` fails the whole scan with its length; where there is none, the
/// matching lines come back.
pub open spec fn scan_lines(
    lines: Seq<Seq<char>>,
    query: Seq<char>,
    pattern: Option<PatternView>,
    ignore_case: bool,
    limit: nat,
) -> Result<Seq<(nat, Seq<char>)>, ContentFault> {
    if has_long_line(lines, limit) {
        let at = choose|at: int| first_long_line_at(lines, limit, at);
        Err(ContentFault::LineTooLong { length: byte_length(lines[at]) })
    } else {
        Ok(matching_lines(lines, query, pattern, ignore_case))
    }
}

/// What a scan of a file gives. A file that could not be read fails as
/// unreadable; any other is decoded, split into lines and scanned.
pub open spec fn scan_content(
    data: Option<Seq<u8>>,
    query: Seq<char>,
    pattern: Option<PatternView>,
    ignore_case: bool,
    limit: nat,
) -> Result<Seq<(nat, Seq<char>)>, ContentFault> {
    match data {
        Some(bytes) => scan_lines(lines_of(content_text(bytes)), query, pattern, ignore_case, limit),
        None => Err(ContentFault::Unreadable),
    }
}

/// Every matching line is one of the lines, stands under its own number, and
/// matches; the numbers rise.
pub proof fn lemma_matching_lines(
    lines: Seq<Seq<char>>,
    query: Seq<char>,
    pattern: Option<PatternView>,
    ignore_case: bool,
)
    ensures
        matching_lines(lines, query, pattern, ignore_case).len() <= lines.len(),
        forall|k: int|
            0 <= k < matching_lines(lines, query, pattern, ignore_case).len() ==> {
                let hit = #[trigger] matching_lines(lines, query, pattern, ignore_case)[k];
                &&& 1 <= hit.0 <= lines.len()
                &&& hit.1 == lines[hit.0 - 1]
                &&& query_matches(hit.1, query, pattern, ignore_case)
            },
        forall|k: int, l: int|
            0 <= k < l < matching_lines(lines, query, pattern, ignore_case).len() ==> (
            #[trigger] matching_lines(lines, query, pattern, ignore_case)[k]).0 < (
            #[trigger] matching_lines(lines, query, pattern, ignore_case)[l]).0,
        forall|at: int|
            0 <= at < lines.len() && query_matches(#[trigger] lines[at], query, pattern, ignore_case)
                ==> matching_lines(lines, query, pattern, ignore_case).contains(
                ((at + 1) as nat, lines[at]),
            ),
    decreases lines.len(),
{
    if lines.len() > 0 {
        let shorter = lines.drop_last();
        lemma_matching_lines(shorter, query, pattern, ignore_case);
        let before = matching_lines(shorter, query, pattern, ignore_case);
        let all = matching_lines(lines, query, pattern, ignore_case);
        assert forall|at: int|
            0 <= at < lines.len() && query_matches(
                #[trigger] lines[at],
                query,
                pattern,
                ignore_case,
            ) implies all.contains(((at + 1) as nat, lines[at])) by {
            if at < shorter.len() {
                assert(shorter[at] == lines[at]);
                let k = choose|k: int|
                    0 <= k < before.len() && before[k] == ((at + 1) as nat, lines[at]);
                assert(all[k] == ((at + 1) as nat, lines[at]));
            } else {
                assert(all[all.len() - 1] == ((at + 1) as nat, lines[at]));
            }
        }
    }
}

/// Scans the content of a file for the query. `data` holds the file's bytes,
/// or `None` where they could not be read. The bytes are read as UTF-8, with
/// U+FFFD put for what is malformed, and split into lines. A line longer than
/// `max_line_length` bytes fails the scan, whatever matched before it;
/// otherwise the matching lines come back in file order, numbered from 1.
pub fn search_file_content(
    data: &Option<Vec<u8>>,
    query: &str,
    regex: Option<&Pattern>,
    ignore_case: bool,
    max_line_length: usize,
) -> (scanned: Result<Vec<(usize, String)>, ContentError>)
    ensures
        match scanned {
            Ok(lines) => scan_content(
                data.deep_view(),
                query@,
                pattern_view(regex),
                ignore_case,
                max_line_length as nat,
            ) == Ok::<Seq<(nat, Seq<char>)>, ContentFault>(line_views(lines@)),
            Err(fault) => scan_content(
                data.deep_view(),
                query@,
                pattern_view(regex),
                ignore_case,
                max_line_length as nat,
            ) == Err::<Seq<(nat, Seq<char>)>, ContentFault>(fault@),
        },
{
    let bytes = match data {
        Some(bytes) => bytes,
        None => {
            return Err(ContentError::Unreadable);
        },
    };
    assert(data.deep_view() == Some(bytes@));
    let content = decode_lossy(bytes.as_slice());
    assert(content@ == content_text(bytes@));
    let lines = split_lines(content.as_str());
    let ghost all = lines_of(content@);
    let ghost limit = max_line_length as nat;
    let ghost pattern = pattern_view(regex);
    assert(lines@.len() == all.len());
    let mut matches: Vec<(usize, String)> = Vec::new();
    let mut i: usize = 0;
    assert(all.take(0) =~= Seq::empty());
    while i < lines.len()
        invariant
            i <= lines.len(),
            lines.deep_view() == all,
            data.deep_view() == Some(bytes@),
            all == lines_of(content_text(bytes@)),
            limit == max_line_length as nat,
            pattern == pattern_view(regex),
            forall|before: int| 0 <= before < i ==> byte_length(#[trigger] all[before]) <= limit,
            line_views(matches@) == matching_lines(all.take(i as int), query@, pattern, ignore_case),
        decreases lines.len() - i,
    {
        let line = lines[i].as_str();
        assert(line@ == all[i as int]) by {
            assert(lines.deep_view()[i as int] == lines@[i as int].deep_view());
        }
        let length = line.as_bytes().len();
        if length > max_line_length {
            proof {
                assert(first_long_line_at(all, limit, i as int));
                assert(has_long_line(all, limit));
                let at = choose|at: int| first_long_line_at(all, limit, at);
                assert(at == i);
            }
            return Err(ContentError::LineTooLong { length });
        }
        let ghost shown = line_views(matches@);
        assert(all.take(i + 1).drop_last() =~= all.take(i as int));
        assert(all.take(i + 1).last() == all[i as int]);
        if matches_query(line, query, regex, ignore_case) {
            matches.push((i + 1, line.to_owned()));
            assert(line_views(matches@) =~= shown.push(((i + 1) as nat, all[i as int])));
        }
        i += 1;
    }
    assert(all.take(i as int) =~= all);
    Ok(matches)
}

} // verus!
