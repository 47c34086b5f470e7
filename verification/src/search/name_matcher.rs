//! Matching the name of a file against the query.

use crate::pattern::{Pattern, PatternView};
use crate::search::matcher::{matches_query, pattern_view, query_matches};
use crate::utils::Entry;
use vstd::prelude::*;

verus! {

/// Whether a name matches the query. A missing or empty name never does.
pub open spec fn name_matches(
    name: Option<Seq<char>>,
    query: Seq<char>,
    pattern: Option<PatternView>,
    ignore_case: bool,
) -> bool {
    match name {
        Some(text) => text.len() > 0 && query_matches(text, query, pattern, ignore_case),
        None => false,
    }
}

/// Tests a name against the query.
pub fn matches_name(
    name: &Option<String>,
    query: &str,
    regex: Option<&Pattern>,
    ignore_case: bool,
) -> (found: bool)
    ensures
        found == name_matches(name.deep_view(), query@, pattern_view(regex), ignore_case),
{
    match name {
        Some(text) => {
            let text = text.as_str();
            !text.is_empty() && matches_query(text, query, regex, ignore_case)
        },
        None => false,
    }
}

/// Whether the name of the file at `entry` matches the query.
pub fn check_filename_match(
    entry: &Entry,
    query: &str,
    regex: Option<&Pattern>,
    ignore_case: bool,
) -> (found: bool)
    ensures
        found == name_matches(entry@.file_name, query@, pattern_view(regex), ignore_case),
{
    matches_name(&entry.file_name, query, regex, ignore_case)
}

} // verus!
