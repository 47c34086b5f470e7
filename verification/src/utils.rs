//! The values a search works on and hands back, and the classifier that
//! tells text files from binary ones.

use crate::text::{is_utf8, lowercase, lowercase_of, same_text};
use vstd::prelude::*;
use vstd::slice::slice_subrange;
use vstd::utf8::valid_utf8;

verus! {

/// What kind of node an entry is.
#[derive(Debug, Clone, Copy, PartialEq, Eq, Structural)]
pub enum EntryKind {
    File,
    Directory,
    /// Neither a regular file nor a directory.
    Other,
}

/// One node of the tree, described by the values that a search reads.
#[derive(Debug, Clone, PartialEq, Eq)]
pub struct Entry {
    /// The node's path, as it is reported.
    pub path: String,
    /// The last component of the path, where it has one and that is text.
    pub file_name: Option<String>,
    /// What follows the last dot of the last component, where a dot stands
    /// inside it and the part after it is text.
    pub extension: Option<String>,
    pub kind: EntryKind,
    /// Number of steps from the root of the search down to the node; the root
    /// itself is at 0.
    pub depth: usize,
    /// The bytes of the file where they could be read, `None` where they
    /// could not or were never asked for.
    pub data: Option<Vec<u8>>,
}

/// The mathematical content of an [`Entry`].
pub struct EntryView {
    pub path: Seq<char>,
    pub file_name: Option<Seq<char>>,
    pub extension: Option<Seq<char>>,
    pub kind: EntryKind,
    pub depth: nat,
    pub data: Option<Seq<u8>>,
}

impl View for Entry {
    type V = EntryView;

    open spec fn view(&self) -> EntryView {
        EntryView {
            path: self.path@,
            file_name: self.file_name.deep_view(),
            extension: self.extension.deep_view(),
            kind: self.kind,
            depth: self.depth as nat,
            data: self.data.deep_view(),
        }
    }
}

/// The views of a sequence of entries, in order.
pub open spec fn entry_views(entries: Seq<Entry>) -> Seq<EntryView> {
    entries.map_values(|entry: Entry| entry@)
}

/// One entry that satisfied the query.
#[derive(Debug, Clone, PartialEq, Eq)]
pub struct SearchResult {
    pub file_path: String,
    pub matches_in_name: bool,
    /// The matching lines in file order, each with its number counted from 1.
    pub content_matches: Vec<(usize, String)>,
    pub encoding_warning: Option<String>,
    pub is_directory: bool,
}

/// The mathematical content of a [`SearchResult`].
pub struct SearchResultView {
    pub file_path: Seq<char>,
    pub matches_in_name: bool,
    pub content_matches: Seq<(nat, Seq<char>)>,
    pub encoding_warning: Option<Seq<char>>,
    pub is_directory: bool,
}

/// The views of a sequence of numbered lines, in order.
pub open spec fn line_views(lines: Seq<(usize, String)>) -> Seq<(nat, Seq<char>)> {
    lines.map_values(|line: (usize, String)| (line.0 as nat, line.1@))
}

impl View for SearchResult {
    type V = SearchResultView;

    open spec fn view(&self) -> SearchResultView {
        SearchResultView {
            file_path: self.file_path@,
            matches_in_name: self.matches_in_name,
            content_matches: line_views(self.content_matches@),
            encoding_warning: self.encoding_warning.deep_view(),
            is_directory: self.is_directory,
        }
    }
}

/// The views of a sequence of results, in order.
pub open spec fn result_views(results: Seq<SearchResult>) -> Seq<SearchResultView> {
    results.map_values(|result: SearchResult| result@)
}

/// The two counters of one search.
#[derive(Debug, Clone, Copy, PartialEq, Eq)]
pub struct SearchStats {
    /// Entries that were evaluated.
    pub files_searched: usize,
    /// Entries that were kept as results.
    pub matches_found: usize,
}

/// How many leading bytes of a file the classifier looks at.
pub const SAMPLE_SIZE: usize = 512;

/// The extensions, in lower case, that mark a file as text.
pub open spec fn text_extensions() -> Seq<Seq<char>> {
    seq![
        "txt"@,
        "md"@,
        "rs"@,
        "py"@,
        "js"@,
        "ts"@,
        "html"@,
        "css"@,
        "json"@,
        "xml"@,
        "yml"@,
        "yaml"@,
        "toml"@,
        "cfg"@,
        "conf"@,
        "log"@,
        "csv"@,
        "sql"@,
        "sh"@,
        "bash"@,
        "zsh"@,
        "fish"@,
        "ps1"@,
        "bat"@,
        "cmd"@,
        "dockerfile"@,
        "makefile"@,
        "c"@,
        "cpp"@,
        "h"@,
        "hpp"@,
        "java"@,
        "go"@,
        "php"@,
        "rb"@,
        "pl"@,
        "lua"@,
        "r"@,
        "vim"@,
        "gitignore"@,
        "gitattributes"@,
        "editorconfig"@,
        "env"@,
        "ini"@,
    ]
}

/// The names that mark a file without extension as text.
pub open spec fn special_names() -> Seq<Seq<char>> {
    seq![
        "Makefile"@,
        "Dockerfile"@,
        "Cargo.lock"@,
        "package.json"@,
        "README"@,
        "LICENSE"@,
        "CHANGELOG"@,
        "AUTHORS"@,
        "CONTRIBUTORS"@,
        "Gemfile"@,
        "Rakefile"@,
        "CMakeLists.txt"@,
    ]
}

/// Number of zero bytes in `bytes`.
pub open spec fn count_null(bytes: Seq<u8>) -> nat
    decreases bytes.len(),
{
    if bytes.len() == 0 {
        0
    } else {
        count_null(bytes.drop_last()) + if bytes.last() == 0 {
            1nat
        } else {
            0nat
        }
    }
}

/// A printable ASCII character, a tab, a line feed or a carriage return.
pub open spec fn is_printable(byte: u8) -> bool {
    (32 <= byte && byte <= 126) || byte == 9 || byte == 10 || byte == 13
}

/// Number of printable bytes in `bytes`.
pub open spec fn count_printable(bytes: Seq<u8>) -> nat
    decreases bytes.len(),
{
    if bytes.len() == 0 {
        0
    } else {
        count_printable(bytes.drop_last()) + if is_printable(bytes.last()) {
            1nat
        } else {
            0nat
        }
    }
}

/// The leading bytes of a file that the classifier looks at.
pub open spec fn sample_of(bytes: Seq<u8>) -> Seq<u8> {
    if bytes.len() <= SAMPLE_SIZE {
        bytes
    } else {
        bytes.take(SAMPLE_SIZE as int)
    }
}

/// Whether a sample reads as text: it is empty, or no more than a tenth of it
/// is zero bytes and it is either well-formed UTF-8 or printable for more
/// than three quarters.
pub open spec fn sample_is_text(sample: Seq<u8>) -> bool {
    sample.len() == 0 || (10 * count_null(sample) <= sample.len() && (valid_utf8(sample) || 4
        * count_printable(sample) > 3 * sample.len()))
}

/// Whether the content of a file reads as text. A file that could not be read
/// does not.
pub open spec fn looks_like_text(data: Option<Seq<u8>>) -> bool {
    match data {
        Some(bytes) => sample_is_text(sample_of(bytes)),
        None => false,
    }
}

/// Whether an entry is a text file. An extension decides alone: the entry is
/// text exactly if its lower-case form is a known text extension. Without an
/// extension a well-known name makes the entry text, and otherwise its content
/// decides.
pub open spec fn is_text(entry: EntryView) -> bool {
    match entry.extension {
        Some(extension) => text_extensions().contains(lowercase_of(extension)),
        None => (match entry.file_name {
            Some(name) => special_names().contains(name),
            None => false,
        }) || looks_like_text(entry.data),
    }
}

/// Whether `text` is one of `list`.
fn is_listed(list: &[&str], text: &str) -> (listed: bool)
    ensures
        listed == exists|i: int| 0 <= i < list@.len() && list@[i]@ == text@,
{
    let mut i: usize = 0;
    while i < list.len()
        invariant
            i <= list@.len(),
            forall|j: int| 0 <= j < i ==> list@[j]@ != text@,
        decreases list@.len() - i,
    {
        if same_text(list[i], text) {
            return true;
        }
        i += 1;
    }
    false
}

/// Whether `extension`, already in lower case, is a known text extension.
fn is_text_extension(extension: &str) -> (known: bool)
    ensures
        known == text_extensions().contains(extension@),
{
    let list = [
        "txt",
        "md",
        "rs",
        "py",
        "js",
        "ts",
        "html",
        "css",
        "json",
        "xml",
        "yml",
        "yaml",
        "toml",
        "cfg",
        "conf",
        "log",
        "csv",
        "sql",
        "sh",
        "bash",
        "zsh",
        "fish",
        "ps1",
        "bat",
        "cmd",
        "dockerfile",
        "makefile",
        "c",
        "cpp",
        "h",
        "hpp",
        "java",
        "go",
        "php",
        "rb",
        "pl",
        "lua",
        "r",
        "vim",
        "gitignore",
        "gitattributes",
        "editorconfig",
        "env",
        "ini",
    ];
    let known = is_listed(list.as_slice(), extension);
    proof {
        let names = text_extensions();
        assert(names.len() == list@.len());
        assert forall|i: int| 0 <= i < names.len() implies names[i] == list@[i]@ by {}
        if known {
            let i = choose|i: int| 0 <= i < list@.len() && list@[i]@ == extension@;
            assert(names[i] == extension@);
        }
    }
    known
}

/// Whether `name` is one of the well-known names of text files.
fn is_special_name(name: &str) -> (special: bool)
    ensures
        special == special_names().contains(name@),
{
    let list = [
        "Makefile",
        "Dockerfile",
        "Cargo.lock",
        "package.json",
        "README",
        "LICENSE",
        "CHANGELOG",
        "AUTHORS",
        "CONTRIBUTORS",
        "Gemfile",
        "Rakefile",
        "CMakeLists.txt",
    ];
    let special = is_listed(list.as_slice(), name);
    proof {
        let names = special_names();
        assert(names.len() == list@.len());
        assert forall|i: int| 0 <= i < names.len() implies names[i] == list@[i]@ by {}
        if special {
            let i = choose|i: int| 0 <= i < list@.len() && list@[i]@ == name@;
            assert(names[i] == name@);
        }
    }
    special
}

/// Classifies a file by the first [`SAMPLE_SIZE`] bytes of its content.
/// `data` holds the file's bytes, or `None` where they could not be read.
pub fn is_likely_text_file(data: &Option<Vec<u8>>) -> (text: bool)
    ensures
        text == looks_like_text(data.deep_view()),
{
    let bytes = match data {
        Some(bytes) => bytes,
        None => {
            return false;
        },
    };
    assert(data.deep_view() == Some(bytes@));
    let size: usize = if bytes.len() <= SAMPLE_SIZE {
        bytes.len()
    } else {
        SAMPLE_SIZE
    };
    if size == 0 {
        return true;
    }
    let sample = slice_subrange(bytes.as_slice(), 0, size);
    assert(sample@ =~= sample_of(bytes@));
    let mut nulls: usize = 0;
    let mut printable: usize = 0;
    let mut i: usize = 0;
    while i < size
        invariant
            size == sample@.len(),
            size <= SAMPLE_SIZE,
            i <= size,
            nulls == count_null(sample@.take(i as int)),
            printable == count_printable(sample@.take(i as int)),
            nulls <= i,
            printable <= i,
        decreases size - i,
    {
        let byte = sample[i];
        assert(sample@.take(i + 1).drop_last() =~= sample@.take(i as int));
        if byte == 0 {
            nulls += 1;
        }
        if (32 <= byte && byte <= 126) || byte == 9 || byte == 10 || byte == 13 {
            printable += 1;
        }
        i += 1;
    }
    assert(sample@.take(size as int) =~= sample@);
    if 10 * nulls > size {
        return false;
    }
    if is_utf8(sample) {
        return true;
    }
    4 * printable > 3 * size
}

/// Whether an entry is a text file, by its extension, its name or, where
/// neither decides, its content.
pub fn is_text_file(entry: &Entry) -> (text: bool)
    ensures
        text == is_text(entry@),
{
    if let Some(extension) = &entry.extension {
        let lowered = lowercase(extension.as_str());
        return is_text_extension(lowered.as_str());
    }
    if let Some(name) = &entry.file_name {
        if is_special_name(name.as_str()) {
            return true;
        }
    }
    is_likely_text_file(&entry.data)
}

} // verus!
