//! The one test that names and lines are put to: does a text match the
//! query, read either as a literal or as a compiled pattern.

use crate::pattern::{regex_matches, Pattern, PatternView};
use crate::text::{contains_text, is_substring, lowercase, lowercase_of};
use vstd::prelude::*;

verus! {

/// The view of an optional pattern.
pub open spec fn pattern_view(regex: Option<&Pattern>) -> Option<PatternView> {
    match regex {
        Some(pattern) => Some(pattern@),
        None => None,
    }
}

/// Whether `text` matches. With a pattern, the pattern decides, under the
/// case setting it was compiled with; `ignore_case` plays no part. Without
/// one, `query` must occur in `text`, both taken in lower case where
/// `ignore_case` is set and as they are where it is not.
pub open spec fn query_matches(
    text: Seq<char>,
    query: Seq<char>,
    pattern: Option<PatternView>,
    ignore_case: bool,
) -> bool {
    match pattern {
        Some(compiled) => regex_matches(compiled.source, compiled.case_insensitive, text),
        None => if ignore_case {
            is_substring(lowercase_of(query), lowercase_of(text))
        } else {
            is_substring(query, text)
        },
    }
}

/// Tests one text against the query.
pub fn matches_query(text: &str, query: &str, regex: Option<&Pattern>, ignore_case: bool) -> (found:
    bool)
    ensures
        found == query_matches(text@, query@, pattern_view(regex), ignore_case),
{
    match regex {
        Some(pattern) => pattern.matches(text),
        None => if ignore_case {
            let lowered_text = lowercase(text);
            let lowered_query = lowercase(query);
            contains_text(lowered_text.as_str(), lowered_query.as_str())
        } else {
            contains_text(text, query)
        },
    }
}

/// A literal query that stands in a text, letter for letter, matches it when
/// case counts.
pub proof fn lemma_literal_occurrence_matches(text: Seq<char>, query: Seq<char>, at: int)
    requires
        0 <= at,
        at + query.len() <= text.len(),
        text.subrange(at, at + query.len()) == query,
    ensures
        query_matches(text, query, None, false),
{
    assert(crate::text::occurs_at(query, text, at));
}

/// With case ignored, a literal match is a substring test on the lower-case
/// forms, so only those forms count: two texts that agree in lower case, and
/// two queries that do, match alike.
pub proof fn lemma_ignore_case_sees_lowercase_only(
    text: Seq<char>,
    other_text: Seq<char>,
    query: Seq<char>,
    other_query: Seq<char>,
)
    requires
        lowercase_of(text) == lowercase_of(other_text),
        lowercase_of(query) == lowercase_of(other_query),
    ensures
        query_matches(text, query, None, true) == is_substring(
            lowercase_of(query),
            lowercase_of(text),
        ),
        query_matches(text, query, None, true) == query_matches(
            other_text,
            other_query,
            None,
            true,
        ),
{
}

} // verus!
