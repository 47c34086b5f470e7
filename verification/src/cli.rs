//! The configuration of one search.

use vstd::prelude::*;

verus! {

/// Everything a search is told: what to look for, where, and under which
/// restrictions. A search reads it and never changes it.
#[derive(Debug, Clone)]
pub struct Cli {
    /// Text to look for in names and content; a regular expression where
    /// `regex` is set.
    pub query: String,
    /// Directory at which the search starts.
    pub directory: String,
    /// Look at names only.
    pub name_only: bool,
    /// Look at content only.
    pub content_only: bool,
    /// Look at directory names only.
    pub folders_only: bool,
    /// Let directories appear among the results.
    pub include_folders: bool,
    /// Read `query` as a regular expression.
    pub regex: bool,
    /// Match without regard to case.
    pub ignore_case: bool,
    /// How many levels of subdirectories may be entered; unbounded where absent.
    pub max_depth: Option<usize>,
    /// Extensions a file may have; every extension where absent.
    pub extensions: Option<Vec<String>>,
    /// How many matching lines of one file are shown.
    pub max_lines: usize,
    /// Leave the statistics out of the report.
    pub no_stats: bool,
    /// Pass over files that are not well-formed UTF-8.
    pub utf8_only: bool,
    /// Attach a warning to a result whose file gave trouble while being read.
    pub show_encoding_warnings: bool,
    /// Length in bytes beyond which a line makes the search give its file up.
    pub max_line_length: usize,
}

/// The mathematical content of a [`Cli`].
pub struct CliView {
    pub query: Seq<char>,
    pub directory: Seq<char>,
    pub name_only: bool,
    pub content_only: bool,
    pub folders_only: bool,
    pub include_folders: bool,
    pub regex: bool,
    pub ignore_case: bool,
    pub max_depth: Option<nat>,
    pub extensions: Option<Seq<Seq<char>>>,
    pub max_lines: nat,
    pub no_stats: bool,
    pub utf8_only: bool,
    pub show_encoding_warnings: bool,
    pub max_line_length: nat,
}

impl View for Cli {
    type V = CliView;

    open spec fn view(&self) -> CliView {
        CliView {
            query: self.query@,
            directory: self.directory@,
            name_only: self.name_only,
            content_only: self.content_only,
            folders_only: self.folders_only,
            include_folders: self.include_folders,
            regex: self.regex,
            ignore_case: self.ignore_case,
            max_depth: match self.max_depth {
                Some(depth) => Some(depth as nat),
                None => None,
            },
            extensions: self.extensions.deep_view(),
            max_lines: self.max_lines as nat,
            no_stats: self.no_stats,
            utf8_only: self.utf8_only,
            show_encoding_warnings: self.show_encoding_warnings,
            max_line_length: self.max_line_length as nat,
        }
    }
}

/// Number of matching lines shown per file unless told otherwise.
pub const DEFAULT_MAX_LINES: usize = 5;

/// Longest line, in bytes, that a scan accepts unless told otherwise.
pub const DEFAULT_MAX_LINE_LENGTH: usize = 10000;

impl Cli {
    /// A configuration that looks for `query` under `directory` with every
    /// switch off, no limit on depth or extensions, and the default limits on
    /// lines.
    pub fn new(query: &str, directory: &str) -> (cli: Cli)
        ensures
            cli@ == (CliView {
                query: query@,
                directory: directory@,
                name_only: false,
                content_only: false,
                folders_only: false,
                include_folders: false,
                regex: false,
                ignore_case: false,
                max_depth: None,
                extensions: None,
                max_lines: DEFAULT_MAX_LINES as nat,
                no_stats: false,
                utf8_only: false,
                show_encoding_warnings: false,
                max_line_length: DEFAULT_MAX_LINE_LENGTH as nat,
            }),
    {
        Cli {
            query: query.to_owned(),
            directory: directory.to_owned(),
            name_only: false,
            content_only: false,
            folders_only: false,
            include_folders: false,
            regex: false,
            ignore_case: false,
            max_depth: None,
            extensions: None,
            max_lines: DEFAULT_MAX_LINES,
            no_stats: false,
            utf8_only: false,
            show_encoding_warnings: false,
            max_line_length: DEFAULT_MAX_LINE_LENGTH,
        }
    }
}

} // verus!
