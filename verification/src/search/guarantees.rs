//! What holds of every evaluation and of every search, whatever the tree and
//! the configuration.

use crate::cli::CliView;
use crate::pattern::PatternView;
use crate::search::content_searcher::{
    content_text,
    has_long_line,
    lemma_matching_lines,
    matching_lines,
    scan_content,
    ContentFault,
};
use crate::search::file_walker::{selected, selects, within_depth};
use crate::search::{evaluate, found, has_valid_utf8, reads_data, scans_content};
use crate::text::{has_no_line_break, is_substring, lemma_occurrence_lies_in_a_line, lines_of};
use crate::utils::{EntryKind, EntryView, SearchResultView};
use vstd::prelude::*;

verus! {

/// Whether the content stage gives an entry up: its content is looked at,
/// and either the file is not well-formed UTF-8 while only such files are
/// wanted, or one of its lines is longer than the limit.
pub open spec fn gives_up(cli: CliView, entry: EntryView, pattern: Option<PatternView>) -> bool {
    &&& entry.kind != EntryKind::Directory
    &&& scans_content(cli, entry)
    &&& ((cli.utf8_only && !has_valid_utf8(entry.data)) || (entry.data matches Some(bytes)
        && has_long_line(lines_of(content_text(bytes)), cli.max_line_length)))
}

/// Number of entries that are not directories.
pub open spec fn count_non_directories(entries: Seq<EntryView>) -> nat {
    entries.filter(|entry: EntryView| entry.kind != EntryKind::Directory).len()
}

/// A result stands for its entry and has a match to show: its name matched
/// or it holds a matching line.
pub proof fn lemma_result_has_a_match(
    cli: CliView,
    entry: EntryView,
    pattern: Option<PatternView>,
)
    ensures
        evaluate(cli, entry, pattern) matches Some(result) ==> {
            &&& result.matches_in_name || result.content_matches.len() > 0
            &&& result.file_path == entry.path
            &&& result.is_directory == (entry.kind == EntryKind::Directory)
        },
{
}

/// The result of an entry that is kept stands among the results of the
/// search.
pub proof fn lemma_kept_entry_is_found(
    cli: CliView,
    files: Seq<EntryView>,
    pattern: Option<PatternView>,
    at: int,
)
    requires
        0 <= at < files.len(),
        evaluate(cli, files[at], pattern) is Some,
    ensures
        found(cli, files, pattern).contains(evaluate(cli, files[at], pattern)->0),
    decreases files.len(),
{
    let keep = |entry: EntryView| evaluate(cli, entry, pattern);
    let all = files.filter_map(keep);
    let rest = files.drop_last();
    if at == files.len() - 1 {
        assert(all[all.len() - 1] == evaluate(cli, files[at], pattern)->0);
    } else {
        lemma_kept_entry_is_found(cli, rest, pattern, at);
        assert(rest[at] == files[at]);
        let wanted = evaluate(cli, files[at], pattern)->0;
        let k = choose|k: int| 0 <= k < rest.filter_map(keep).len() && rest.filter_map(keep)[k]
            == wanted;
        assert(all[k] == wanted);
    }
}

/// Every result of a search is the result of one of the entries searched.
pub proof fn lemma_found_comes_from_an_entry(
    cli: CliView,
    files: Seq<EntryView>,
    pattern: Option<PatternView>,
    k: int,
)
    requires
        0 <= k < found(cli, files, pattern).len(),
    ensures
        exists|at: int|
            0 <= at < files.len() && evaluate(cli, #[trigger] files[at], pattern) == Some(
                found(cli, files, pattern)[k],
            ),
{
    let keep = |entry: EntryView| evaluate(cli, entry, pattern);
    let result = found(cli, files, pattern)[k];
    assert(files.filter_map(keep).contains(result));
    files.lemma_filter_map_contains(keep, result);
    let entry = choose|entry: EntryView| #[trigger] files.contains(entry) && keep(entry) == Some(result);
    let at = choose|at: int| 0 <= at < files.len() && files[at] == entry;
    assert(evaluate(cli, files[at], pattern) == Some(result));
}

/// In a literal search where case counts, a file whose name holds the query
/// is among the results, marked as matching by name: provided that names are
/// looked at and that the content stage does not give the file up.
pub proof fn lemma_literal_name_match_is_found(cli: CliView, files: Seq<EntryView>, at: int)
    requires
        0 <= at < files.len(),
        files[at].kind != EntryKind::Directory,
        !cli.ignore_case,
        !cli.content_only,
        !cli.folders_only,
        cli.query.len() > 0,
        files[at].file_name matches Some(name) && is_substring(cli.query, name),
        !gives_up(cli, files[at], None),
    ensures
        evaluate(cli, files[at], None) matches Some(result) && result.matches_in_name
            && result.file_path == files[at].path && found(cli, files, None).contains(result),
{
    let entry = files[at];
    let name = entry.file_name->0;
    let place = choose|place: int| crate::text::occurs_at(cli.query, name, place);
    assert(name.len() > 0);
    lemma_scan_fails_on_long_line_only(cli, entry, None);
    lemma_kept_entry_is_found(cli, files, None, at);
}

/// In a literal search where case counts, a file with a line that holds the
/// query is among the results, and the line stands among its matches under
/// its number: provided that the content of the file is looked at and could
/// be read, and that the content stage does not give the file up.
pub proof fn lemma_literal_line_match_is_found(
    cli: CliView,
    files: Seq<EntryView>,
    at: int,
    line: int,
)
    requires
        0 <= at < files.len(),
        files[at].kind != EntryKind::Directory,
        !cli.ignore_case,
        scans_content(cli, files[at]),
        !gives_up(cli, files[at], None),
        files[at].data matches Some(bytes) && 0 <= line < lines_of(content_text(bytes)).len()
            && is_substring(cli.query, lines_of(content_text(bytes))[line]),
    ensures
        evaluate(cli, files[at], None) matches Some(result) && result.content_matches.contains(
            ((line + 1) as nat, lines_of(content_text(files[at].data->0))[line]),
        ) && result.file_path == files[at].path && found(cli, files, None).contains(result),
{
    let entry = files[at];
    let lines = lines_of(content_text(entry.data->0));
    lemma_scan_fails_on_long_line_only(cli, entry, None);
    lemma_matching_lines(lines, cli.query, None, false);
    let hits = matching_lines(lines, cli.query, None, false);
    assert(hits.contains(((line + 1) as nat, lines[line])));
    let k = choose|k: int| 0 <= k < hits.len() && hits[k] == ((line + 1) as nat, lines[line]);
    assert(hits.len() > 0);
    lemma_kept_entry_is_found(cli, files, None, at);
}

/// In a literal search where case counts, a file whose content holds the
/// query is among the results and shows a matching line: provided that the
/// query has no line break in it, that the content of the file is looked at
/// and could be read, and that the content stage does not give the file up.
pub proof fn lemma_literal_content_match_is_found(cli: CliView, files: Seq<EntryView>, at: int)
    requires
        0 <= at < files.len(),
        files[at].kind != EntryKind::Directory,
        !cli.ignore_case,
        cli.query.len() > 0,
        has_no_line_break(cli.query),
        scans_content(cli, files[at]),
        !gives_up(cli, files[at], None),
        files[at].data matches Some(bytes) && is_substring(cli.query, content_text(bytes)),
    ensures
        evaluate(cli, files[at], None) matches Some(result) && result.content_matches.len() > 0
            && result.file_path == files[at].path && found(cli, files, None).contains(result),
{
    let text = content_text(files[at].data->0);
    lemma_occurrence_lies_in_a_line(text, cli.query);
    let line = choose|line: int|
        0 <= line < lines_of(text).len() && is_substring(cli.query, #[trigger] lines_of(text)[line]);
    lemma_literal_line_match_is_found(cli, files, at, line);
}

/// A scan fails for a line that is too long exactly if the file was read and
/// has such a line; otherwise it gives the matching lines of the file.
pub proof fn lemma_scan_fails_on_long_line_only(
    cli: CliView,
    entry: EntryView,
    pattern: Option<PatternView>,
)
    ensures
        match scan_content(entry.data, cli.query, pattern, cli.ignore_case, cli.max_line_length) {
            Ok(lines) => entry.data matches Some(bytes) && !has_long_line(
                lines_of(content_text(bytes)),
                cli.max_line_length,
            ) && lines == matching_lines(
                lines_of(content_text(bytes)),
                cli.query,
                pattern,
                cli.ignore_case,
            ),
            Err(ContentFault::LineTooLong { .. }) => entry.data matches Some(bytes)
                && has_long_line(lines_of(content_text(bytes)), cli.max_line_length),
            Err(ContentFault::Unreadable) => entry.data is None,
        },
{
}

/// A file with a line longer than the limit is dropped when its content is
/// looked at: it is no result, not even where its name matches.
pub proof fn lemma_long_line_drops_file(
    cli: CliView,
    entry: EntryView,
    pattern: Option<PatternView>,
)
    requires
        entry.kind != EntryKind::Directory,
        scans_content(cli, entry),
        entry.data matches Some(bytes) && has_long_line(
            lines_of(content_text(bytes)),
            cli.max_line_length,
        ),
    ensures
        evaluate(cli, entry, pattern) is None,
{
    lemma_scan_fails_on_long_line_only(cli, entry, pattern);
}

/// The matching lines of a result are those of a file that was read and has
/// no line longer than the limit.
pub proof fn lemma_lines_come_from_short_lines(
    cli: CliView,
    entry: EntryView,
    pattern: Option<PatternView>,
)
    ensures
        evaluate(cli, entry, pattern) matches Some(result) ==> result.content_matches.len() > 0
            ==> {
            &&& scans_content(cli, entry)
            &&& entry.data matches Some(bytes) && !has_long_line(
                lines_of(content_text(bytes)),
                cli.max_line_length,
            ) && result.content_matches == matching_lines(
                lines_of(content_text(bytes)),
                cli.query,
                pattern,
                cli.ignore_case,
            )
        },
{
    lemma_scan_fails_on_long_line_only(cli, entry, pattern);
}

/// No result of a search shows matching lines of a file that has a line
/// longer than the limit.
pub proof fn lemma_no_lines_from_files_with_long_lines(
    cli: CliView,
    files: Seq<EntryView>,
    pattern: Option<PatternView>,
)
    ensures
        forall|k: int|
            0 <= k < found(cli, files, pattern).len() && (#[trigger] found(
                cli,
                files,
                pattern,
            )[k]).content_matches.len() > 0 ==> exists|at: int|
                0 <= at < files.len() && evaluate(cli, #[trigger] files[at], pattern) == Some(
                    found(cli, files, pattern)[k],
                ) && files[at].data is Some && !has_long_line(
                    lines_of(content_text(files[at].data->0)),
                    cli.max_line_length,
                ),
{
    assert forall|k: int|
        0 <= k < found(cli, files, pattern).len() && (#[trigger] found(
            cli,
            files,
            pattern,
        )[k]).content_matches.len() > 0 implies exists|at: int|
        0 <= at < files.len() && evaluate(cli, #[trigger] files[at], pattern) == Some(
            found(cli, files, pattern)[k],
        ) && files[at].data is Some && !has_long_line(
            lines_of(content_text(files[at].data->0)),
            cli.max_line_length,
        ) by {
        lemma_found_comes_from_an_entry(cli, files, pattern, k);
        let at = choose|at: int|
            0 <= at < files.len() && evaluate(cli, #[trigger] files[at], pattern) == Some(
                found(cli, files, pattern)[k],
            );
        lemma_lines_come_from_short_lines(cli, files[at], pattern);
    }
}

/// Under `utf8_only` every result of a search comes from an entry that is
/// well-formed UTF-8 or whose content was not looked at.
pub proof fn lemma_utf8_only_results_are_well_formed(
    cli: CliView,
    files: Seq<EntryView>,
    pattern: Option<PatternView>,
)
    requires
        cli.utf8_only,
    ensures
        forall|k: int|
            0 <= k < found(cli, files, pattern).len() ==> exists|at: int|
                0 <= at < files.len() && evaluate(cli, #[trigger] files[at], pattern) == Some(
                    #[trigger] found(cli, files, pattern)[k],
                ) && (files[at].kind == EntryKind::Directory || !scans_content(cli, files[at])
                    || has_valid_utf8(files[at].data)),
{
    assert forall|k: int| 0 <= k < found(cli, files, pattern).len() implies exists|at: int|
        0 <= at < files.len() && evaluate(cli, #[trigger] files[at], pattern) == Some(
            #[trigger] found(cli, files, pattern)[k],
        ) && (files[at].kind == EntryKind::Directory || !scans_content(cli, files[at])
            || has_valid_utf8(files[at].data)) by {
        lemma_found_comes_from_an_entry(cli, files, pattern, k);
    }
}

/// Under `name_only` no result holds a matching line.
pub proof fn lemma_name_only_gives_no_lines(
    cli: CliView,
    files: Seq<EntryView>,
    pattern: Option<PatternView>,
)
    requires
        cli.name_only,
    ensures
        forall|k: int|
            0 <= k < found(cli, files, pattern).len() ==> (#[trigger] found(
                cli,
                files,
                pattern,
            )[k]).content_matches.len() == 0,
{
    assert forall|k: int| 0 <= k < found(cli, files, pattern).len() implies (#[trigger] found(
        cli,
        files,
        pattern,
    )[k]).content_matches.len() == 0 by {
        lemma_found_comes_from_an_entry(cli, files, pattern, k);
    }
}

/// Under `content_only` no result for a file is marked as matching by name.
/// A directory is tested by name alone, so its result is.
pub proof fn lemma_content_only_gives_no_name_match(
    cli: CliView,
    files: Seq<EntryView>,
    pattern: Option<PatternView>,
)
    requires
        cli.content_only,
    ensures
        forall|k: int|
            0 <= k < found(cli, files, pattern).len() && !(#[trigger] found(
                cli,
                files,
                pattern,
            )[k]).is_directory ==> !found(cli, files, pattern)[k].matches_in_name,
{
    assert forall|k: int|
        0 <= k < found(cli, files, pattern).len() && !(#[trigger] found(
            cli,
            files,
            pattern,
        )[k]).is_directory implies !found(cli, files, pattern)[k].matches_in_name by {
        lemma_found_comes_from_an_entry(cli, files, pattern, k);
    }
}

/// Under `utf8_only` a file whose content is looked at and is not
/// well-formed UTF-8 is no result, whether or not its name matches.
pub proof fn lemma_utf8_only_drops_malformed(
    cli: CliView,
    entry: EntryView,
    pattern: Option<PatternView>,
)
    requires
        cli.utf8_only,
        entry.kind != EntryKind::Directory,
        scans_content(cli, entry),
        !has_valid_utf8(entry.data),
    ensures
        evaluate(cli, entry, pattern) is None,
{
}

/// Where the evaluation of an entry does not depend on the bytes of its
/// file, it comes out the same whatever stands in their place.
pub proof fn lemma_unread_data_is_not_missed(
    cli: CliView,
    entry: EntryView,
    data: Option<Seq<u8>>,
    pattern: Option<PatternView>,
)
    requires
        !reads_data(cli, entry),
    ensures
        evaluate(cli, entry, pattern) == evaluate(
            cli,
            EntryView { data: data, ..entry },
            pattern,
        ),
{
}

/// Every candidate lies within the depth limit, and every entry of the walk
/// that is selected is a candidate.
pub proof fn lemma_candidates_are_the_selected(cli: CliView, walked: Seq<EntryView>)
    ensures
        forall|k: int|
            0 <= k < selected(cli, walked).len() ==> selects(cli, #[trigger] selected(cli, walked)[k])
                && within_depth(selected(cli, walked)[k].depth, cli.max_depth),
        forall|at: int|
            0 <= at < walked.len() && selects(cli, #[trigger] walked[at]) ==> selected(
                cli,
                walked,
            ).contains(walked[at]),
        selected(cli, walked).len() <= walked.len(),
{
    let wanted = |entry: EntryView| selects(cli, entry);
    #[allow(deprecated)]
    walked.filter_lemma(wanted);
}

/// Where directories are not asked for, every candidate is a file, so the
/// number of candidates is the number of entries searched that are not
/// directories.
pub proof fn lemma_candidates_are_files(cli: CliView, walked: Seq<EntryView>)
    requires
        !cli.folders_only,
        !cli.include_folders,
    ensures
        forall|k: int|
            0 <= k < selected(cli, walked).len() ==> (#[trigger] selected(cli, walked)[k]).kind
                == EntryKind::File,
        count_non_directories(selected(cli, walked)) == selected(cli, walked).len(),
{
    lemma_candidates_are_the_selected(cli, walked);
    lemma_count_without_directories(selected(cli, walked));
}

/// Among entries none of which is a directory, those that are not
/// directories are all of them.
pub proof fn lemma_count_without_directories(entries: Seq<EntryView>)
    requires
        forall|k: int| 0 <= k < entries.len() ==> (#[trigger] entries[k]).kind != EntryKind::Directory,
    ensures
        count_non_directories(entries) == entries.len(),
    decreases entries.len(),
{
    reveal(Seq::filter);
    if entries.len() > 0 {
        let rest = entries.drop_last();
        assert forall|k: int| 0 <= k < rest.len() implies (#[trigger] rest[k]).kind
            != EntryKind::Directory by {
            assert(rest[k] == entries[k]);
        }
        lemma_count_without_directories(rest);
    }
}

} // verus!
