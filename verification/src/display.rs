//! What a report says about one result, line by line. How the lines are
//! worded, coloured and printed is left to the caller.

use crate::utils::{SearchResult, SearchResultView};
use vstd::prelude::*;

verus! {

/// One line of the report on a result.
#[derive(Debug, Clone, PartialEq, Eq)]
pub enum ReportLine {
    /// The path of the entry.
    Path { path: String },
    /// The warning that the result carries.
    Warning { text: String },
    /// The name of the entry matched.
    NameMatch,
    /// The content matched in `count` lines.
    ContentSummary { count: usize },
    /// One matching line with its number.
    Match { number: usize, text: String },
    /// `remaining` matching lines are not shown.
    More { remaining: usize },
}

/// The mathematical content of a [`ReportLine`].
pub enum ReportLineView {
    Path { path: Seq<char> },
    Warning { text: Seq<char> },
    NameMatch,
    ContentSummary { count: nat },
    Match { number: nat, text: Seq<char> },
    More { remaining: nat },
}

impl View for ReportLine {
    type V = ReportLineView;

    open spec fn view(&self) -> ReportLineView {
        match self {
            ReportLine::Path { path } => ReportLineView::Path { path: path@ },
            ReportLine::Warning { text } => ReportLineView::Warning { text: text@ },
            ReportLine::NameMatch => ReportLineView::NameMatch,
            ReportLine::ContentSummary { count } => ReportLineView::ContentSummary {
                count: *count as nat,
            },
            ReportLine::Match { number, text } => ReportLineView::Match {
                number: *number as nat,
                text: text@,
            },
            ReportLine::More { remaining } => ReportLineView::More { remaining: *remaining as nat },
        }
    }
}

/// The views of a sequence of report lines, in order.
pub open spec fn report_views(lines: Seq<ReportLine>) -> Seq<ReportLineView> {
    lines.map_values(|line: ReportLine| line@)
}

/// How many of `total` matching lines are shown under a limit of `max_lines`.
pub open spec fn shown_count(total: nat, max_lines: nat) -> nat {
    if total <= max_lines {
        total
    } else {
        max_lines
    }
}

/// The first `count` matching lines as report lines.
pub open spec fn match_lines(lines: Seq<(nat, Seq<char>)>, count: nat) -> Seq<ReportLineView>
    recommends
        count <= lines.len(),
{
    Seq::new(count, |i: int| ReportLineView::Match { number: lines[i].0, text: lines[i].1 })
}

/// The part of a report that speaks of the content: nothing where no line
/// matched; otherwise the number of matching lines, the first of them up to
/// the limit, and the number of those left out, if any are.
pub open spec fn content_report(lines: Seq<(nat, Seq<char>)>, max_lines: nat) -> Seq<
    ReportLineView,
> {
    if lines.len() == 0 {
        Seq::empty()
    } else {
        seq![ReportLineView::ContentSummary { count: lines.len() }] + match_lines(
            lines,
            shown_count(lines.len(), max_lines),
        ) + if lines.len() > max_lines {
            seq![ReportLineView::More { remaining: (lines.len() - max_lines) as nat }]
        } else {
            Seq::empty()
        }
    }
}

/// The report on one result: its path, its warning if it carries one, a note
/// if its name matched, and what there is to say of its content.
pub open spec fn report_of(result: SearchResultView, max_lines: nat) -> Seq<ReportLineView> {
    seq![ReportLineView::Path { path: result.file_path }] + (match result.encoding_warning {
        Some(text) => seq![ReportLineView::Warning { text }],
        None => Seq::empty(),
    }) + (if result.matches_in_name {
        seq![ReportLineView::NameMatch]
    } else {
        Seq::empty()
    }) + content_report(result.content_matches, max_lines)
}

/// Lays out the report on one result, showing at most `max_lines` of its
/// matching lines.
pub fn describe_result(result: &SearchResult, max_lines: usize) -> (report: Vec<ReportLine>)
    ensures
        report_views(report@) == report_of(result@, max_lines as nat),
{
    let mut report: Vec<ReportLine> = Vec::new();
    report.push(ReportLine::Path { path: result.file_path.clone() });
    if let Some(text) = &result.encoding_warning {
        report.push(ReportLine::Warning { text: text.clone() });
    }
    if result.matches_in_name {
        report.push(ReportLine::NameMatch);
    }
    let total = result.content_matches.len();
    let ghost lines = result@.content_matches;
    let ghost head = report_views(report@);
    assert(head =~= seq![ReportLineView::Path { path: result@.file_path }] + (
    match result@.encoding_warning {
        Some(text) => seq![ReportLineView::Warning { text }],
        None => Seq::empty(),
    }) + (if result@.matches_in_name {
        seq![ReportLineView::NameMatch]
    } else {
        Seq::empty()
    }));
    if total == 0 {
        assert(head + content_report(lines, max_lines as nat) =~= head);
        return report;
    }
    report.push(ReportLine::ContentSummary { count: total });
    let shown = if total <= max_lines {
        total
    } else {
        max_lines
    };
    let ghost summary = seq![ReportLineView::ContentSummary { count: lines.len() }];
    let mut i: usize = 0;
    assert(report_views(report@) =~= head + summary + match_lines(lines, 0));
    while i < shown
        invariant
            i <= shown <= total,
            total == result.content_matches.len(),
            lines == result@.content_matches,
            lines.len() == total,
            report_views(report@) == head + summary + match_lines(lines, i as nat),
        decreases shown - i,
    {
        let number = result.content_matches[i].0;
        let text = result.content_matches[i].1.clone();
        let ghost before = report_views(report@);
        report.push(ReportLine::Match { number, text });
        assert(report_views(report@) =~= before.push(
            ReportLineView::Match { number: lines[i as int].0, text: lines[i as int].1 },
        ));
        assert(match_lines(lines, (i + 1) as nat) =~= match_lines(lines, i as nat).push(
            ReportLineView::Match { number: lines[i as int].0, text: lines[i as int].1 },
        ));
        i += 1;
    }
    if total > max_lines {
        let ghost before = report_views(report@);
        report.push(ReportLine::More { remaining: total - max_lines });
        assert(report_views(report@) =~= before.push(
            ReportLineView::More { remaining: (total - max_lines) as nat },
        ));
    }
    assert(report_views(report@) =~= head + content_report(lines, max_lines as nat));
    report
}

} // verus!
