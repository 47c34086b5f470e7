//! Matching the name of a directory against the query.

use crate::pattern::Pattern;
use crate::search::matcher::pattern_view;
use crate::search::name_matcher::{matches_name, name_matches};
use crate::utils::Entry;
use vstd::prelude::*;

verus! {

/// Whether the name of the directory at `entry` matches the query. The test
/// is the one that file names are put to.
pub fn check_directory_match(
    entry: &Entry,
    query: &str,
    regex: Option<&Pattern>,
    ignore_case: bool,
) -> (found: bool)
    ensures
        found == name_matches(entry@.file_name, query@, pattern_view(regex), ignore_case),
{
    matches_name(&entry.file_name, query, regex, ignore_case)
}

} // verus!
