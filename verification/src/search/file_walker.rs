//! Which of the entries that a walk of the tree brought are candidates for
//! the search.

use crate::cli::{Cli, CliView};
use crate::text::{ascii_lowercase, equal_ignoring_ascii_case};
use crate::utils::{entry_views, Entry, EntryKind, EntryView};
use vstd::prelude::*;
use vstd::string::*;

verus! {

/// A token of the extension list without the dot that may stand before it.
pub open spec fn without_leading_dot(token: Seq<char>) -> Seq<char> {
    if token.len() > 0 && token[0] == '.' {
        token.drop_first()
    } else {
        token
    }
}

/// Whether a token of the extension list admits an extension: the two are
/// equal but for the case of ASCII letters, the token with or without a
/// leading dot.
pub open spec fn token_admits(token: Seq<char>, extension: Seq<char>) -> bool {
    ascii_lowercase(without_leading_dot(token)) == ascii_lowercase(extension)
}

/// Whether one of the tokens admits the extension.
pub open spec fn some_token_admits(tokens: Seq<Seq<char>>, extension: Seq<char>) -> bool {
    exists|i: int| 0 <= i < tokens.len() && token_admits(#[trigger] tokens[i], extension)
}

/// Whether a file with this extension passes the extension list. Without a
/// list every file passes. With one, a file passes if some token admits its
/// extension; a file without extension does not pass.
pub open spec fn extension_allowed(
    extension: Option<Seq<char>>,
    allowed: Option<Seq<Seq<char>>>,
) -> bool {
    match allowed {
        Some(tokens) => match extension {
            Some(found) => some_token_admits(tokens, found),
            None => false,
        },
        None => true,
    }
}

/// Whether a node at `depth` lies within the limit. The root is at depth 0
/// and what stands directly in it at depth 1; a limit of `n` lets the walk
/// enter `n` levels of subdirectories, so it reaches depth `n + 1`.
pub open spec fn within_depth(depth: nat, max_depth: Option<nat>) -> bool {
    match max_depth {
        Some(limit) => depth <= limit + 1,
        None => true,
    }
}

/// Whether the configuration asks for nodes of this kind: directories alone
/// under `folders_only`, every kind under `include_folders`, and files alone
/// otherwise.
pub open spec fn kind_selected(cli: CliView, kind: EntryKind) -> bool {
    if cli.folders_only {
        kind == EntryKind::Directory
    } else if cli.include_folders {
        true
    } else {
        kind == EntryKind::File
    }
}

/// Whether an entry is a candidate: it lies within the depth limit, is of a
/// kind that is asked for and, if it is a file, passes the extension list.
pub open spec fn selects(cli: CliView, entry: EntryView) -> bool {
    &&& within_depth(entry.depth, cli.max_depth)
    &&& kind_selected(cli, entry.kind)
    &&& (entry.kind == EntryKind::File ==> extension_allowed(entry.extension, cli.extensions))
}

/// The candidates among `entries`, in the order in which they stand there.
pub open spec fn selected(cli: CliView, entries: Seq<EntryView>) -> Seq<EntryView> {
    entries.filter(|entry: EntryView| selects(cli, entry))
}

/// Appending one entry appends it to the candidates if it is one, and leaves
/// them as they are if not.
pub proof fn lemma_selected_push(cli: CliView, entries: Seq<EntryView>, entry: EntryView)
    ensures
        selected(cli, entries.push(entry)) == if selects(cli, entry) {
            selected(cli, entries).push(entry)
        } else {
            selected(cli, entries)
        },
{
    reveal(Seq::filter);
    assert(entries.push(entry).drop_last() =~= entries);
}

/// The greatest depth that a walk has to reach under a limit of `max_depth`
/// levels of subdirectories.
pub fn walk_depth(max_depth: Option<usize>) -> (depth: usize)
    ensures
        match max_depth {
            Some(limit) => depth == if limit < usize::MAX {
                limit + 1
            } else {
                usize::MAX as int
            },
            None => depth == usize::MAX,
        },
{
    match max_depth {
        Some(limit) => if limit < usize::MAX {
            limit + 1
        } else {
            usize::MAX
        },
        None => usize::MAX,
    }
}

/// Strips the dot that may stand before a token.
fn strip_leading_dot(token: &str) -> (bare: &str)
    ensures
        bare@ == without_leading_dot(token@),
{
    let length = token.unicode_len();
    if length > 0 && token.get_char(0) == '.' {
        let bare = token.substring_char(1, length);
        assert(bare@ =~= token@.drop_first());
        bare
    } else {
        token
    }
}

/// Whether an entry passes the extension list.
pub fn filter_by_extension(entry: &Entry, extensions: &Option<Vec<String>>) -> (passes: bool)
    ensures
        passes == extension_allowed(entry@.extension, extensions.deep_view()),
{
    let tokens = match extensions {
        Some(tokens) => tokens,
        None => {
            return true;
        },
    };
    let extension = match &entry.extension {
        Some(extension) => extension.as_str(),
        None => {
            return false;
        },
    };
    let ghost list = tokens.deep_view();
    assert(extensions.deep_view() == Some(list));
    let mut i: usize = 0;
    while i < tokens.len()
        invariant
            i <= tokens.len(),
            list == tokens.deep_view(),
            list.len() == tokens@.len(),
            extensions.deep_view() == Some(list),
            entry@.extension == Some(extension@),
            forall|j: int| 0 <= j < i ==> !token_admits(#[trigger] list[j], extension@),
        decreases tokens.len() - i,
    {
        assert(list[i as int] == tokens@[i as int]@);
        let bare = strip_leading_dot(tokens[i].as_str());
        if equal_ignoring_ascii_case(bare, extension) {
            assert(token_admits(list[i as int], extension@));
            return true;
        }
        i += 1;
    }
    false
}

/// Whether an entry is a candidate for the search.
pub fn is_candidate(cli: &Cli, entry: &Entry) -> (candidate: bool)
    ensures
        candidate == selects(cli@, entry@),
{
    if entry.depth > walk_depth(cli.max_depth) {
        return false;
    }
    let of_kind = if cli.folders_only {
        matches!(entry.kind, EntryKind::Directory)
    } else if cli.include_folders {
        true
    } else {
        matches!(entry.kind, EntryKind::File)
    };
    if !of_kind {
        return false;
    }
    if matches!(entry.kind, EntryKind::File) {
        filter_by_extension(entry, &cli.extensions)
    } else {
        true
    }
}

/// Picks the candidates out of what a walk of the tree brought. `walked`
/// holds the nodes in the order of the walk; the candidates come back in that
/// order, each unchanged.
pub fn collect_files(cli: &Cli, walked: Vec<Entry>) -> (files: Vec<Entry>)
    ensures
        entry_views(files@) == selected(cli@, entry_views(walked@)),
{
    let ghost all = walked@;
    let mut files: Vec<Entry> = Vec::new();
    assert(entry_views(all.take(0)) =~= Seq::empty());
    proof {
        reveal(Seq::filter);
    }
    for entry in it: walked
        invariant
            it.seq() == all,
            entry_views(files@) == selected(cli@, entry_views(all.take(it.index() as int))),
    {
        proof {
            let seen = all.take(it.index() as int);
            assert(all.take(it.index() + 1) =~= seen.push(entry));
            assert(entry_views(seen.push(entry)) =~= entry_views(seen).push(entry@));
            lemma_selected_push(cli@, entry_views(seen), entry@);
        }
        if is_candidate(cli, &entry) {
            let ghost before = files@;
            files.push(entry);
            assert(entry_views(files@) =~= entry_views(before).push(entry@));
        }
    }
    assert(all.take(all.len() as int) =~= all);
    files
}

} // verus!
