//! The listing parser: from the text of a directory index to its entries.
//!
//! Anchors are found by two patterns; what they capture is then held to the
//! rules below, so that every entry handed out is well formed whatever the
//! patterns found.

use vstd::prelude::*;
use crate::codec::{decode_chars, decoded};
use crate::model::{DirectoryItem, DirectoryItemView, ItemKind};
use crate::pattern::{describe, find_first_groups, first_groups};
use crate::text::{
    chars_of, contains, ends_with, has_infix, has_prefix, has_suffix, same_chars, starts_with,
    string_of, trim_trailing, without_trailing,
};

verus! {

/// The pattern that finds the targets of anchors that end in a slash.
pub const DIRECTORY_PATTERN: &'static str = r#"href="([^"]+/)""#;

/// The pattern that finds the targets of anchors that end in an archive
/// extension.
pub const FILE_PATTERN: &'static str = r#"href="([^"]+\.(?:zip|7z))""#;

/// A pattern that the pattern engine refused.
#[derive(Clone, Debug)]
pub struct PatternError {
    /// The pattern as it was handed over.
    pub pattern: String,
    /// The engine's own description of what is wrong.
    pub message: String,
}

/// `c` is an ASCII letter.
pub open spec fn is_ascii_letter(c: char) -> bool {
    ('a' <= c <= 'z') || ('A' <= c <= 'Z')
}

/// `c` can stand in the name of a URI scheme: a letter, a digit, `+`, `-` or
/// `.` of ASCII.
pub open spec fn is_scheme_char(c: char) -> bool {
    is_ascii_letter(c) || ('0' <= c <= '9') || c == '+' || c == '-' || c == '.'
}

/// `href` begins with a URI scheme: a letter, then any number of scheme
/// characters, then a colon.
pub open spec fn starts_with_scheme(href: Seq<char>) -> bool {
    exists|n: int|
        1 <= n < href.len() && #[trigger] href[n] == ':' && is_ascii_letter(href[0]) && forall|
            i: int,
        | 0 < i < n ==> is_scheme_char(#[trigger] href[i])
}

/// `href` is kept as a directory: it ends in a slash, is no sort-control link,
/// does not lead to the parent, and is neither absolute nor external.
pub open spec fn is_directory_target(href: Seq<char>) -> bool {
    &&& ends_with(href, "/"@)
    &&& !contains(href, "?C="@)
    &&& href != "../"@
    &&& !starts_with(href, "/"@)
    &&& !starts_with_scheme(href)
}

/// `href` is kept as a file: it ends in `.zip` or `.7z` as written, is no
/// sort-control link, and is neither absolute nor external.
pub open spec fn is_file_target(href: Seq<char>) -> bool {
    &&& ends_with(href, ".zip"@) || ends_with(href, ".7z"@)
    &&& !contains(href, "?C="@)
    &&& !starts_with(href, "/"@)
    &&& !starts_with_scheme(href)
}

/// The entry made for a directory target.
pub open spec fn directory_item(href: Seq<char>) -> DirectoryItemView {
    DirectoryItemView {
        name: decoded(without_trailing(href, '/')),
        href,
        item_type: ItemKind::Directory,
        size: None,
    }
}

/// The entry made for a file target.
pub open spec fn file_item(href: Seq<char>) -> DirectoryItemView {
    DirectoryItemView { name: decoded(href), href, item_type: ItemKind::File, size: None }
}

/// The entry made for a candidate directory target, if it is kept.
pub open spec fn directory_candidate(href: Seq<char>) -> Option<DirectoryItemView> {
    if is_directory_target(href) {
        Some(directory_item(href))
    } else {
        None
    }
}

/// The entry made for a candidate file target, if it is kept.
pub open spec fn file_candidate(href: Seq<char>) -> Option<DirectoryItemView> {
    if is_file_target(href) {
        Some(file_item(href))
    } else {
        None
    }
}

/// The entries of a listing, given the candidate targets in document order:
/// first the directories that are kept, then the files that are kept.
pub open spec fn listing(dirs: Seq<Seq<char>>, files: Seq<Seq<char>>) -> Seq<DirectoryItemView> {
    directory_items(dirs) + file_items(files)
}

/// The entries of the candidate directory targets that are kept, in order.
pub open spec fn directory_items(dirs: Seq<Seq<char>>) -> Seq<DirectoryItemView> {
    dirs.filter_map(|h: Seq<char>| directory_candidate(h))
}

/// The entries of the candidate file targets that are kept, in order.
pub open spec fn file_items(files: Seq<Seq<char>>) -> Seq<DirectoryItemView> {
    files.filter_map(|h: Seq<char>| file_candidate(h))
}

impl DirectoryItemView {
    /// The entry is one that the parser makes: its target passes the rules of
    /// its kind, and its name is that target decoded.
    pub open spec fn well_formed(self) -> bool {
        match self.item_type {
            ItemKind::Directory => is_directory_target(self.href) && self.name == decoded(
                without_trailing(self.href, '/'),
            ),
            ItemKind::File => is_file_target(self.href) && self.name == decoded(self.href),
        }
    }
}

/// `href` is one of the candidate targets.
pub open spec fn is_candidate(dirs: Seq<Seq<char>>, files: Seq<Seq<char>>, href: Seq<char>) -> bool {
    dirs.contains(href) || files.contains(href)
}

/// The candidate texts among captured groups: those that took part in their
/// match.
pub open spec fn present(groups: Seq<Option<Seq<char>>>) -> Seq<Seq<char>> {
    groups.filter_map(|g: Option<Seq<char>>| g)
}

/// The candidate targets that `pattern` finds in `content`, or `None` where
/// the pattern is refused.
pub open spec fn targets(pattern: Seq<char>, content: Seq<char>) -> Option<Seq<Seq<char>>> {
    match first_groups(pattern, content) {
        Some(groups) => Some(present(groups)),
        None => None,
    }
}

/// The entries of a directory index, or `None` where one of the two patterns
/// is refused.
pub open spec fn parsed_listing(content: Seq<char>) -> Option<Seq<DirectoryItemView>> {
    match (targets(DIRECTORY_PATTERN@, content), targets(FILE_PATTERN@, content)) {
        (Some(dirs), Some(files)) => Some(listing(dirs, files)),
        _ => None,
    }
}

/// Every entry made from candidate directory targets is a well-formed
/// directory.
pub proof fn lemma_directories_well_formed(dirs: Seq<Seq<char>>)
    ensures
        forall|i: int|
            0 <= i < directory_items(dirs).len() ==> (#[trigger] directory_items(
                dirs,
            )[i]).item_type == ItemKind::Directory && directory_items(dirs)[i].well_formed(),
    decreases dirs.len(),
{
    if dirs.len() > 0 {
        lemma_directories_well_formed(dirs.drop_last());
    }
}

/// Every entry made from candidate file targets is a well-formed file.
pub proof fn lemma_files_well_formed(files: Seq<Seq<char>>)
    ensures
        forall|i: int|
            0 <= i < file_items(files).len() ==> (#[trigger] file_items(files)[i]).item_type
                == ItemKind::File && file_items(files)[i].well_formed(),
    decreases files.len(),
{
    if files.len() > 0 {
        lemma_files_well_formed(files.drop_last());
    }
}

/// Whatever the candidates, every entry of a listing is well formed: a
/// directory's target ends in a slash, a file's in an archive extension, and
/// no target is a sort-control link, the parent, absolute or external.
pub proof fn lemma_listing_well_formed(dirs: Seq<Seq<char>>, files: Seq<Seq<char>>)
    ensures
        forall|i: int|
            0 <= i < listing(dirs, files).len() ==> (#[trigger] listing(dirs, files)[i]).well_formed(),
{
    lemma_directories_well_formed(dirs);
    lemma_files_well_formed(files);
}

/// In a listing the directories come first: no file stands before a
/// directory.
pub proof fn lemma_directories_come_first(dirs: Seq<Seq<char>>, files: Seq<Seq<char>>)
    ensures
        forall|i: int, j: int|
            0 <= i < j < listing(dirs, files).len() && (#[trigger] listing(
                dirs,
                files,
            )[i]).item_type == ItemKind::File ==> (#[trigger] listing(dirs, files)[j]).item_type
                == ItemKind::File,
{
    lemma_directories_well_formed(dirs);
    lemma_files_well_formed(files);
}

/// No entry of a listing is a sort-control link.
pub proof fn lemma_listing_has_no_sort_links(dirs: Seq<Seq<char>>, files: Seq<Seq<char>>)
    ensures
        forall|i: int|
            0 <= i < listing(dirs, files).len() ==> !contains(
                (#[trigger] listing(dirs, files)[i]).href,
                "?C="@,
            ),
{
    lemma_listing_well_formed(dirs, files);
}

/// Whether `href` begins with a URI scheme.
pub fn has_scheme(href: &Vec<char>) -> (r: bool)
    ensures
        r == starts_with_scheme(href@),
{
    if href.len() == 0 || !is_letter(href[0]) {
        return false;
    }
    let mut i: usize = 1;
    while i < href.len()
        invariant
            1 <= i <= href.len(),
            is_ascii_letter(href@[0]),
            forall|k: int| 0 < k < i ==> is_scheme_char(#[trigger] href@[k]) && href@[k] != ':',
        decreases href.len() - i,
    {
        let c = href[i];
        if c == ':' {
            return true;
        }
        if !(is_letter(c) || (c >= '0' && c <= '9') || c == '+' || c == '-' || c == '.') {
            assert(!starts_with_scheme(href@)) by {
                if starts_with_scheme(href@) {
                    let n = choose|n: int|
                        1 <= n < href@.len() && #[trigger] href@[n] == ':' && forall|k: int|
                            0 < k < n ==> is_scheme_char(#[trigger] href@[k]);
                    if n < i {
                        assert(href@[n] != ':');
                    } else {
                        assert(is_scheme_char(href@[i as int]));
                    }
                }
            }
            return false;
        }
        i += 1;
    }
    false
}

/// Whether `c` is an ASCII letter.
fn is_letter(c: char) -> (r: bool)
    ensures
        r == is_ascii_letter(c),
{
    (c >= 'a' && c <= 'z') || (c >= 'A' && c <= 'Z')
}

/// Whether `href` is kept as a directory.
fn keeps_directory(href: &Vec<char>) -> (r: bool)
    ensures
        r == is_directory_target(href@),
{
    has_suffix(href, &chars_of("/")) && !has_infix(href, &chars_of("?C=")) && !same_chars(
        href,
        &chars_of("../"),
    ) && !has_prefix(href, &chars_of("/")) && !has_scheme(href)
}

/// Whether `href` is kept as a file.
fn keeps_file(href: &Vec<char>) -> (r: bool)
    ensures
        r == is_file_target(href@),
{
    (has_suffix(href, &chars_of(".zip")) || has_suffix(href, &chars_of(".7z"))) && !has_infix(
        href,
        &chars_of("?C="),
    ) && !has_prefix(href, &chars_of("/")) && !has_scheme(href)
}

/// The candidates among captured groups, in order.
pub fn present_groups(groups: Vec<Option<String>>) -> (out: Vec<String>)
    ensures
        out.deep_view() == present(groups.deep_view()),
        forall|k: int|
            0 <= k < out.len() ==> groups.deep_view().contains(Some(#[trigger] out.deep_view()[k])),
{
    let ghost all = groups.deep_view();
    let mut out: Vec<String> = Vec::new();
    let mut i: usize = 0;
    while i < groups.len()
        invariant
            i <= groups.len(),
            all == groups.deep_view(),
            out.deep_view() == present(all.take(i as int)),
            forall|k: int|
                0 <= k < out.len() ==> all.contains(Some(#[trigger] out.deep_view()[k])),
        decreases groups.len() - i,
    {
        let ghost before = out.deep_view();
        assert(all.take(i + 1).drop_last() =~= all.take(i as int));
        match &groups[i] {
            Some(text) => {
                out.push(text.clone());
                assert(out.deep_view() =~= before.push(text@));
                assert(all[i as int] == Some(text@));
                assert forall|k: int| 0 <= k < out.len() implies all.contains(
                    Some(#[trigger] out.deep_view()[k]),
                ) by {
                    if k < before.len() {
                        assert(out.deep_view()[k] == before[k]);
                    }
                }
            },
            None => {},
        }
        i += 1;
    }
    assert(all.take(groups.len() as int) =~= all);
    out
}

/// The entries of a listing, given the candidate targets that were found in
/// it, in document order: first the directories that are kept, then the
/// files that are kept. The size of an entry is never set.
pub fn listing_entries(dirs: &Vec<String>, files: &Vec<String>) -> (items: Vec<DirectoryItem>)
    ensures
        items.deep_view() == listing(dirs.deep_view(), files.deep_view()),
        forall|i: int| 0 <= i < items.len() ==> (#[trigger] items[i])@.well_formed(),
        forall|i: int|
            0 <= i < items.len() ==> is_candidate(
                dirs.deep_view(),
                files.deep_view(),
                (#[trigger] items[i])@.href,
            ),
{
    let ghost d = dirs.deep_view();
    let ghost f = files.deep_view();
    let mut items: Vec<DirectoryItem> = Vec::new();
    let mut i: usize = 0;
    while i < dirs.len()
        invariant
            i <= dirs.len(),
            d == dirs.deep_view(),
            f == files.deep_view(),
            items.deep_view() == directory_items(d.take(i as int)),
            forall|k: int| 0 <= k < items.len() ==> (#[trigger] items[k])@.well_formed(),
            forall|k: int| 0 <= k < items.len() ==> is_candidate(d, f, (#[trigger] items[k])@.href),
        decreases dirs.len() - i,
    {
        let ghost before = items.deep_view();
        assert(d.take(i + 1).drop_last() =~= d.take(i as int));
        let href = chars_of(dirs[i].as_str());
        if keeps_directory(&href) {
            let name = decode_chars(&trim_trailing(&href, '/'));
            let item = DirectoryItem {
                name: string_of(&name),
                href: dirs[i].clone(),
                item_type: ItemKind::Directory,
                size: None,
            };
            items.push(item);
        }
        i += 1;
    }
    assert(d.take(dirs.len() as int) =~= d);
    let ghost kept = items.deep_view();
    let mut j: usize = 0;
    while j < files.len()
        invariant
            j <= files.len(),
            d == dirs.deep_view(),
            f == files.deep_view(),
            items.deep_view() == kept + file_items(f.take(j as int)),
            forall|k: int| 0 <= k < items.len() ==> (#[trigger] items[k])@.well_formed(),
            forall|k: int| 0 <= k < items.len() ==> is_candidate(d, f, (#[trigger] items[k])@.href),
        decreases files.len() - j,
    {
        let ghost before = items.deep_view();
        assert(f.take(j + 1).drop_last() =~= f.take(j as int));
        let href = chars_of(files[j].as_str());
        if keeps_file(&href) {
            let name = decode_chars(&href);
            let item = DirectoryItem {
                name: string_of(&name),
                href: files[j].clone(),
                item_type: ItemKind::File,
                size: None,
            };
            items.push(item);
            assert(items.deep_view() =~= before + seq![file_item(href@)]);
        }
        j += 1;
    }
    assert(f.take(files.len() as int) =~= f);
    items
}

/// The candidate targets that `pattern` finds in `content`.
pub(crate) fn find_targets(pattern: &str, content: &str) -> (r: Result<Vec<String>, PatternError>)
    ensures
        match r {
            Ok(found) => {
                &&& targets(pattern@, content@) == Some(found.deep_view())
                &&& forall|k: int|
                    0 <= k < found.len() ==> contains(content@, #[trigger] found.deep_view()[k])
            },
            Err(e) => targets(pattern@, content@) is None && e.pattern@ == pattern@,
        },
{
    match find_first_groups(pattern, content) {
        Ok(groups) => {
            let ghost captured = groups.deep_view();
            assert forall|i: int| 0 <= i < captured.len() implies (#[trigger] captured[i]
                matches Some(group) ==> contains(content@, group)) by {
                assert(captured[i] == groups[i].deep_view());
            }
            let found = present_groups(groups);
            assert forall|k: int| 0 <= k < found.len() implies contains(
                content@,
                #[trigger] found.deep_view()[k],
            ) by {
                assert(captured.contains(Some(found.deep_view()[k])));
            }
            Ok(found)
        },
        Err(e) => Err(PatternError { pattern: pattern.to_owned(), message: describe(&e) }),
    }
}

/// Parses the text of a directory index into its entries: the directories in
/// document order, then the files in document order.
///
/// Every target handed out is a piece of the text. Text in which no anchor
/// is found gives an empty list, not an error. The
/// only error is a pattern that the engine refuses; it names the first of
/// the two patterns that is.
pub fn parse_items_from_index(content: &str) -> (r: Result<Vec<DirectoryItem>, PatternError>)
    ensures
        match r {
            Ok(items) => {
                &&& parsed_listing(content@) == Some(items.deep_view())
                &&& forall|i: int| 0 <= i < items.len() ==> (#[trigger] items[i])@.well_formed()
                &&& forall|i: int|
                    0 <= i < items.len() ==> contains(content@, (#[trigger] items[i])@.href)
            },
            Err(e) => {
                &&& parsed_listing(content@) is None
                &&& e.pattern@ == (if targets(DIRECTORY_PATTERN@, content@) is None {
                    DIRECTORY_PATTERN@
                } else {
                    FILE_PATTERN@
                })
            },
        },
{
    let dirs = match find_targets(DIRECTORY_PATTERN, content) {
        Ok(found) => found,
        Err(e) => { return Err(e); },
    };
    let files = match find_targets(FILE_PATTERN, content) {
        Ok(found) => found,
        Err(e) => { return Err(e); },
    };
    let items = listing_entries(&dirs, &files);
    assert forall|i: int| 0 <= i < items.len() implies contains(
        content@,
        (#[trigger] items[i])@.href,
    ) by {
        assert(is_candidate(dirs.deep_view(), files.deep_view(), items[i]@.href));
    }
    Ok(items)
}

} // verus!
