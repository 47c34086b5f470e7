//! The search itself: which entries are candidates, what each is tested for,
//! and what comes out.
//!
//! Every entry is evaluated on its own, so a caller may evaluate the entries
//! in any order, or at once on several threads, and hand the outcomes to
//! [`aggregate`]; [`search_files`] does the same one entry after the other.

pub mod content_searcher;
pub mod directory_matcher;
pub mod file_walker;
pub mod guarantees;
pub mod matcher;
pub mod name_matcher;

use crate::cli::{Cli, CliView};
use crate::pattern::{regex_compiles, Pattern, PatternError, PatternView};
use crate::search::content_searcher::{
    scan_content,
    search_file_content,
    ContentError,
    ContentFault,
};
use crate::search::directory_matcher::check_directory_match;
use crate::search::file_walker::{collect_files, selected};
use crate::search::guarantees::{count_non_directories, lemma_candidates_are_files};
use crate::search::matcher::pattern_view;
use crate::search::name_matcher::{check_filename_match, name_matches};
use crate::text::is_utf8;
use crate::utils::{
    entry_views,
    is_text,
    is_text_file,
    line_views,
    result_views,
    Entry,
    EntryKind,
    EntryView,
    SearchResult,
    SearchResultView,
    SearchStats,
};
use vstd::prelude::*;
use vstd::utf8::valid_utf8;

verus! {

/// The warning on a result whose file was scanned although it is not
/// well-formed UTF-8.
pub open spec fn non_utf8_warning() -> Seq<char> {
    "File contains non-UTF-8 characters"@
}

/// The warning on a result whose file could not be read.
pub open spec fn unreadable_warning() -> Seq<char> {
    "Failed to read file (encoding issue)"@
}

/// Whether a file was read and is well-formed UTF-8.
pub open spec fn has_valid_utf8(data: Option<Seq<u8>>) -> bool {
    match data {
        Some(bytes) => valid_utf8(bytes),
        None => false,
    }
}

/// The pattern that a search under `cli` works with: the query compiled
/// under the configured case setting where it is to be read as a regular
/// expression, none where it is a literal.
pub open spec fn search_pattern(cli: CliView) -> Option<PatternView> {
    if cli.regex {
        Some(PatternView { source: cli.query, case_insensitive: cli.ignore_case })
    } else {
        None
    }
}

/// The result for an entry, if it is kept: it is, exactly if its name
/// matched or some line did.
pub open spec fn retained(
    entry: EntryView,
    by_name: bool,
    lines: Seq<(nat, Seq<char>)>,
    warning: Option<Seq<char>>,
) -> Option<SearchResultView> {
    if by_name || lines.len() > 0 {
        Some(
            SearchResultView {
                file_path: entry.path,
                matches_in_name: by_name,
                content_matches: lines,
                encoding_warning: warning,
                is_directory: entry.kind == EntryKind::Directory,
            },
        )
    } else {
        None
    }
}

/// Whether the name of a directory counts as matching: directories are asked
/// for and the name matches the query.
pub open spec fn directory_matches_by_name(
    cli: CliView,
    entry: EntryView,
    pattern: Option<PatternView>,
) -> bool {
    (cli.folders_only || cli.include_folders) && name_matches(
        entry.file_name,
        cli.query,
        pattern,
        cli.ignore_case,
    )
}

/// Whether the name of a file counts as matching: names are looked at and
/// the name matches the query.
pub open spec fn file_matches_by_name(
    cli: CliView,
    entry: EntryView,
    pattern: Option<PatternView>,
) -> bool {
    !cli.content_only && !cli.folders_only && name_matches(
        entry.file_name,
        cli.query,
        pattern,
        cli.ignore_case,
    )
}

/// Whether the content of a file is looked at: content is asked for and the
/// file is text.
pub open spec fn scans_content(cli: CliView, entry: EntryView) -> bool {
    !cli.name_only && !cli.folders_only && is_text(entry)
}

/// Whether the evaluation of an entry depends on the bytes of its file.
pub open spec fn reads_data(cli: CliView, entry: EntryView) -> bool {
    &&& entry.kind != EntryKind::Directory
    &&& !cli.name_only
    &&& !cli.folders_only
    &&& (entry.extension is Some ==> is_text(entry))
}

/// What the content of a file that is looked at adds to its evaluation.
pub open spec fn evaluate_content(
    cli: CliView,
    entry: EntryView,
    pattern: Option<PatternView>,
    by_name: bool,
) -> Option<SearchResultView> {
    if cli.utf8_only && !has_valid_utf8(entry.data) {
        None
    } else {
        match scan_content(entry.data, cli.query, pattern, cli.ignore_case, cli.max_line_length) {
            Ok(lines) => retained(
                entry,
                by_name,
                lines,
                if cli.show_encoding_warnings && !has_valid_utf8(entry.data) {
                    Some(non_utf8_warning())
                } else {
                    None
                },
            ),
            Err(ContentFault::LineTooLong { .. }) => None,
            Err(ContentFault::Unreadable) => retained(
                entry,
                by_name,
                Seq::empty(),
                if cli.show_encoding_warnings {
                    Some(unreadable_warning())
                } else {
                    None
                },
            ),
        }
    }
}

/// The outcome of evaluating one entry: its result, or nothing.
///
/// A directory is tested by name alone. Of any other entry the name is
/// tested unless only content is asked for, and the content is scanned
/// unless only names are asked for or the entry is not a text file. Where
/// the content is scanned, a file that is not well-formed UTF-8 is dropped
/// under `utf8_only`, and a file with a line beyond the limit is dropped in
/// any case, whether or not its name matched. A file that cannot be read
/// keeps the match of its name. What is left is kept if the name matched or
/// some line did.
pub open spec fn evaluate(cli: CliView, entry: EntryView, pattern: Option<PatternView>) -> Option<
    SearchResultView,
> {
    if entry.kind == EntryKind::Directory {
        retained(entry, directory_matches_by_name(cli, entry, pattern), Seq::empty(), None)
    } else if scans_content(cli, entry) {
        evaluate_content(cli, entry, pattern, file_matches_by_name(cli, entry, pattern))
    } else {
        retained(entry, file_matches_by_name(cli, entry, pattern), Seq::empty(), None)
    }
}

/// The results of a search over `files`: the outcomes of the entries that
/// are kept, in the order of the entries.
pub open spec fn found(cli: CliView, files: Seq<EntryView>, pattern: Option<PatternView>) -> Seq<
    SearchResultView,
> {
    files.filter_map(|entry: EntryView| evaluate(cli, entry, pattern))
}

/// The outcomes that hold a result, in order.
pub open spec fn kept(outcomes: Seq<Option<SearchResult>>) -> Seq<SearchResult> {
    outcomes.filter_map(|outcome: Option<SearchResult>| outcome)
}

/// Compiles the query of a search in pattern mode.
pub fn create_regex(pattern: &str, ignore_case: bool) -> (compiled: Result<Pattern, PatternError>)
    ensures
        compiled is Ok <==> regex_compiles(pattern@, ignore_case),
        compiled matches Ok(built) ==> built@ == (PatternView {
            source: pattern@,
            case_insensitive: ignore_case,
        }),
{
    Pattern::compile(pattern, ignore_case)
}

/// Whether a file was read and is well-formed UTF-8. `data` holds the
/// file's bytes, or `None` where they could not be read.
pub fn is_valid_utf8_file(data: &Option<Vec<u8>>) -> (valid: bool)
    ensures
        valid == has_valid_utf8(data.deep_view()),
{
    match data {
        Some(bytes) => {
            assert(bytes.deep_view() =~= bytes@);
            is_utf8(bytes.as_slice())
        },
        None => false,
    }
}

/// Whether [`evaluate_entry`] looks at the bytes of the entry's file. Where
/// it does not, the entry's `data` may be left empty.
pub fn needs_content(cli: &Cli, entry: &Entry) -> (needed: bool)
    ensures
        needed == reads_data(cli@, entry@),
{
    if matches!(entry.kind, EntryKind::Directory) || cli.name_only || cli.folders_only {
        return false;
    }
    match &entry.extension {
        Some(_) => is_text_file(entry),
        None => true,
    }
}

/// Builds the result for an entry, if it is kept.
fn retain(
    entry: &Entry,
    by_name: bool,
    lines: Vec<(usize, String)>,
    warning: Option<String>,
) -> (outcome: Option<SearchResult>)
    ensures
        match outcome {
            Some(result) => retained(entry@, by_name, line_views(lines@), warning.deep_view())
                == Some(result@),
            None => retained(entry@, by_name, line_views(lines@), warning.deep_view()) is None,
        },
{
    if by_name || lines.len() > 0 {
        Some(
            SearchResult {
                file_path: entry.path.clone(),
                matches_in_name: by_name,
                content_matches: lines,
                encoding_warning: warning,
                is_directory: matches!(entry.kind, EntryKind::Directory),
            },
        )
    } else {
        None
    }
}

/// Evaluates one entry against the query. `regex` is the compiled query in
/// pattern mode and `None` in literal mode.
pub fn evaluate_entry(cli: &Cli, entry: &Entry, regex: Option<&Pattern>) -> (outcome: Option<
    SearchResult,
>)
    ensures
        match outcome {
            Some(result) => evaluate(cli@, entry@, pattern_view(regex)) == Some(result@),
            None => evaluate(cli@, entry@, pattern_view(regex)) is None,
        },
{
    let query = cli.query.as_str();
    if matches!(entry.kind, EntryKind::Directory) {
        let by_name = (cli.folders_only || cli.include_folders) && check_directory_match(
            entry,
            query,
            regex,
            cli.ignore_case,
        );
        let outcome = retain(entry, by_name, Vec::new(), None);
        assert(line_views(Seq::<(usize, String)>::empty()) =~= Seq::empty());
        return outcome;
    }
    let by_name = !cli.content_only && !cli.folders_only && check_filename_match(
        entry,
        query,
        regex,
        cli.ignore_case,
    );
    if cli.name_only || cli.folders_only || !is_text_file(entry) {
        let outcome = retain(entry, by_name, Vec::new(), None);
        assert(line_views(Seq::<(usize, String)>::empty()) =~= Seq::empty());
        return outcome;
    }
    let valid = is_valid_utf8_file(&entry.data);
    if cli.utf8_only && !valid {
        return None;
    }
    match search_file_content(&entry.data, query, regex, cli.ignore_case, cli.max_line_length) {
        Ok(lines) => {
            let warning = if cli.show_encoding_warnings && !valid {
                Some("File contains non-UTF-8 characters".to_owned())
            } else {
                None
            };
            retain(entry, by_name, lines, warning)
        },
        Err(ContentError::LineTooLong { .. }) => None,
        Err(ContentError::Unreadable) => {
            let warning = if cli.show_encoding_warnings {
                Some("Failed to read file (encoding issue)".to_owned())
            } else {
                None
            };
            let outcome = retain(entry, by_name, Vec::new(), warning);
            assert(line_views(Seq::<(usize, String)>::empty()) =~= Seq::empty());
            outcome
        },
    }
}

/// Gathers the outcomes of the evaluated entries: the results in the order
/// of the outcomes, and the counters. Every outcome counts as one entry
/// searched, every result as one match found.
pub fn aggregate(outcomes: Vec<Option<SearchResult>>) -> (gathered: (Vec<SearchResult>, SearchStats))
    ensures
        gathered.0@ == kept(outcomes@),
        gathered.1.files_searched == outcomes@.len(),
        gathered.1.matches_found == gathered.0@.len(),
        gathered.1.matches_found <= gathered.1.files_searched,
{
    let ghost all = outcomes@;
    let searched = outcomes.len();
    let mut results: Vec<SearchResult> = Vec::new();
    for outcome in it: outcomes
        invariant
            it.seq() == all,
            results@ == kept(all.take(it.index() as int)),
            results@.len() <= it.index(),
    {
        proof {
            all.lemma_filter_map_take_succ(
                |outcome: Option<SearchResult>| outcome,
                it.index() as int,
            );
        }
        if let Some(result) = outcome {
            results.push(result);
        }
    }
    assert(all.take(all.len() as int) =~= all);
    let matches = results.len();
    (results, SearchStats { files_searched: searched, matches_found: matches })
}

/// Searches the candidates one after the other. The results stand in the
/// order of the candidates; every candidate counts as searched, every result
/// as a match.
pub fn search_files(cli: &Cli, files: &Vec<Entry>, regex: Option<&Pattern>) -> (searched: (
    Vec<SearchResult>,
    SearchStats,
))
    ensures
        result_views(searched.0@) == found(cli@, entry_views(files@), pattern_view(regex)),
        searched.1.files_searched == files@.len(),
        searched.1.matches_found == searched.0@.len(),
        searched.1.matches_found <= searched.1.files_searched,
{
    let ghost all = entry_views(files@);
    let ghost pattern = pattern_view(regex);
    let mut results: Vec<SearchResult> = Vec::new();
    let mut i: usize = 0;
    assert(result_views(results@) =~= found(cli@, all.take(0), pattern));
    while i < files.len()
        invariant
            i <= files.len(),
            all == entry_views(files@),
            pattern == pattern_view(regex),
            result_views(results@) == found(cli@, all.take(i as int), pattern),
            results@.len() <= i,
        decreases files.len() - i,
    {
        proof {
            all.lemma_filter_map_take_succ(
                |entry: EntryView| evaluate(cli@, entry, pattern),
                i as int,
            );
            assert(all[i as int] == files@[i as int]@);
        }
        if let Some(result) = evaluate_entry(cli, &files[i], regex) {
            let ghost before = results@;
            results.push(result);
            assert(result_views(results@) =~= result_views(before).push(result@));
        }
        i += 1;
    }
    assert(all.take(i as int) =~= all);
    let matches = results.len();
    (results, SearchStats { files_searched: files.len(), matches_found: matches })
}

/// Runs a whole search over a tree that was walked and read beforehand.
/// `walked` holds the nodes in the order of the walk, each with the bytes of
/// its file where [`needs_content`] asks for them.
///
/// In pattern mode the query is compiled first, and a query that does not
/// compile fails the search. Then the candidates are picked and searched one
/// after the other.
pub fn execute_search(cli: &Cli, walked: Vec<Entry>) -> (outcome: Result<
    (Vec<SearchResult>, SearchStats),
    PatternError,
>)
    ensures
        outcome is Err <==> cli@.regex && !regex_compiles(cli@.query, cli@.ignore_case),
        outcome matches Ok(searched) ==> {
            let files = selected(cli@, entry_views(walked@));
            &&& result_views(searched.0@) == found(cli@, files, search_pattern(cli@))
            &&& searched.1.files_searched == files.len()
            &&& searched.1.matches_found == searched.0@.len()
            &&& searched.1.matches_found <= searched.1.files_searched
            &&& !cli@.folders_only && !cli@.include_folders ==> searched.1.files_searched
                == count_non_directories(files)
        },
{
    let pattern = if cli.regex {
        match create_regex(cli.query.as_str(), cli.ignore_case) {
            Ok(compiled) => Some(compiled),
            Err(fault) => {
                return Err(fault);
            },
        }
    } else {
        None
    };
    let ghost all = entry_views(walked@);
    let files = collect_files(cli, walked);
    proof {
        if !cli@.folders_only && !cli@.include_folders {
            lemma_candidates_are_files(cli@, all);
        }
    }
    Ok(search_files(cli, &files, pattern.as_ref()))
}

} // verus!
