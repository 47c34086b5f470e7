//! Compiled regular expressions. The `regex` crate does the compiling and the
//! matching; this module gives both a name that contracts can speak of.

use vstd::prelude::*;

verus! {

#[verifier::external_type_specification]
#[verifier::external_body]
pub struct ExRegex(regex::Regex);

#[verifier::external_type_specification]
#[verifier::external_body]
pub struct ExRegexError(regex::Error);

/// Whether the `regex` crate compiles `source` under the given case setting
/// and its default limits.
pub uninterp spec fn regex_compiles(source: Seq<char>, case_insensitive: bool) -> bool;

/// Whether the expression compiled from `source` under the given case setting
/// matches anywhere in `haystack`.
pub uninterp spec fn regex_matches(
    source: Seq<char>,
    case_insensitive: bool,
    haystack: Seq<char>,
) -> bool;

/// What identifies a compiled pattern: the text it was compiled from and the
/// case setting that was in force.
pub struct PatternView {
    pub source: Seq<char>,
    pub case_insensitive: bool,
}

/// A compiled regular expression together with the text and the case setting
/// it was compiled from. [`Pattern::compile`] is the only way to make one, so
/// the three always belong together.
pub struct Pattern {
    regex: regex::Regex,
    source: String,
    case_insensitive: bool,
}

impl View for Pattern {
    type V = PatternView;

    closed spec fn view(&self) -> PatternView {
        PatternView { source: self.source@, case_insensitive: self.case_insensitive }
    }
}

/// Why a pattern could not be compiled.
pub struct PatternError {
    /// The compiler's own description of the fault.
    pub message: String,
}

/// `regex::RegexBuilder::new`, `case_insensitive` and `build`: compiles
/// `source`. Whether that succeeds depends on `source` and the case setting
/// alone. The compiled expression is returned together with the two values it
/// was built from.
#[verifier::external_body]
fn build(source: &str, case_insensitive: bool) -> (built: Result<Pattern, regex::Error>)
    ensures
        built is Ok <==> regex_compiles(source@, case_insensitive),
        built matches Ok(pattern) ==> pattern@.source == source@ && pattern@.case_insensitive
            == case_insensitive,
{
    match regex::RegexBuilder::new(source).case_insensitive(case_insensitive).build() {
        Ok(regex) => Ok(Pattern { regex, source: source.to_string(), case_insensitive }),
        Err(fault) => Err(fault),
    }
}

/// `regex::Regex::is_match`: whether the expression held in `pattern` matches
/// anywhere in `haystack`. The expression is the one compiled from the
/// pattern's recorded source and case setting, so the answer depends on those
/// two and on `haystack` alone.
#[verifier::external_body]
fn is_match(pattern: &Pattern, haystack: &str) -> (found: bool)
    ensures
        found == regex_matches(pattern@.source, pattern@.case_insensitive, haystack@),
{
    pattern.regex.is_match(haystack)
}

/// The `Display` text of a `regex::Error`.
#[verifier::external_body]
fn describe(fault: &regex::Error) -> (message: String) {
    fault.to_string()
}

impl Pattern {
    /// Compiles `source` into a pattern, case-insensitive where
    /// `case_insensitive` is set. Fails exactly where the `regex` crate
    /// refuses the text.
    pub fn compile(source: &str, case_insensitive: bool) -> (compiled: Result<
        Pattern,
        PatternError,
    >)
        ensures
            compiled is Ok <==> regex_compiles(source@, case_insensitive),
            compiled matches Ok(pattern) ==> pattern@.source == source@
                && pattern@.case_insensitive == case_insensitive,
    {
        match build(source, case_insensitive) {
            Ok(pattern) => Ok(pattern),
            Err(fault) => Err(PatternError { message: describe(&fault) }),
        }
    }

    /// Whether the pattern matches anywhere in `haystack`.
    pub fn matches(&self, haystack: &str) -> (found: bool)
        ensures
            found == regex_matches(self@.source, self@.case_insensitive, haystack@),
    {
        is_match(self, haystack)
    }

    /// The text the pattern was compiled from.
    pub fn source(&self) -> (text: &str)
        ensures
            text@ == self@.source,
    {
        self.source.as_str()
    }

    /// Whether the pattern was compiled to ignore case.
    pub fn is_case_insensitive(&self) -> (flag: bool)
        ensures
            flag == self@.case_insensitive,
    {
        self.case_insensitive
    }
}

} // verus!
