//! Walking the folders of a platform by hand: what each line that the user
//! types leads to.
//!
//! The caller fetches the listing of the current folder, shows its
//! directories or, where it has none, its files, reads a line and asks here
//! what to do next.

use vstd::prelude::*;
use crate::model::{DirectoryItem, DirectoryItemView, ItemKind};
use crate::text::{
    append, chars_of, followed_by, same_chars, string_of, trim, trim_trailing, trimmed,
    without_trailing,
};
use crate::title::{strip_extensions, without_archive_extensions};

verus! {

/// What a line of input asks for.
#[derive(Clone, Copy, Debug, PartialEq, Eq, Structural)]
pub enum Choice {
    /// `q`: give up.
    Quit,
    /// `..`: go to the parent folder.
    Up,
    /// A number, as typed.
    Number(usize),
    /// Anything else.
    Other,
}

/// The value of a decimal digit.
pub open spec fn digit_value(c: char) -> Option<nat> {
    if '0' <= c <= '9' {
        Some((c as nat - '0' as nat) as nat)
    } else {
        None
    }
}

/// Every character is a decimal digit.
pub open spec fn all_digits(text: Seq<char>) -> bool {
    forall|i: int| 0 <= i < text.len() ==> digit_value(#[trigger] text[i]) is Some
}

/// The number that a sequence of decimal digits writes.
pub open spec fn decimal(digits: Seq<char>) -> nat
    decreases digits.len(),
{
    if digits.len() == 0 {
        0
    } else {
        decimal(digits.drop_last()) * 10 + digit_value(digits.last()).unwrap_or(0)
    }
}

/// The number that `text` writes: decimal digits, at least one, after an
/// optional `+`, with a value that a `usize` holds.
pub open spec fn parsed_number(text: Seq<char>) -> Option<usize> {
    let digits = if text.len() > 0 && text[0] == '+' {
        text.skip(1)
    } else {
        text
    };
    if digits.len() > 0 && all_digits(digits) && decimal(digits) <= usize::MAX {
        Some(decimal(digits) as usize)
    } else {
        None
    }
}

/// What a line of input asks for, white space at its ends set aside.
pub open spec fn choice_of(input: Seq<char>) -> Choice {
    if trimmed(input) == "q"@ {
        Choice::Quit
    } else if trimmed(input) == ".."@ {
        Choice::Up
    } else {
        match parsed_number(trimmed(input)) {
            Some(n) => Choice::Number(n),
            None => Choice::Other,
        }
    }
}

/// The position after the last slash of `path`, or 0 where it has none.
pub open spec fn after_last_slash(path: Seq<char>) -> nat
    decreases path.len(),
{
    if path.len() == 0 {
        0
    } else if path.last() == '/' {
        path.len()
    } else {
        after_last_slash(path.drop_last())
    }
}

/// The folder above `path`: `path` without its last segment. The result ends
/// in a slash, or is empty where `path` has one segment or none.
pub open spec fn parent_of(path: Seq<char>) -> Seq<char> {
    without_trailing(path, '/').take(after_last_slash(without_trailing(path, '/')) as int)
}

/// The folder below `path` that the target `href` leads to.
pub open spec fn child_of(path: Seq<char>, href: Seq<char>) -> Seq<char> {
    path + href + seq!['/']
}

/// The entries of one kind, in order.
pub open spec fn of_kind(items: Seq<DirectoryItemView>, kind: ItemKind) -> Seq<DirectoryItemView> {
    items.filter(|item: DirectoryItemView| item.item_type == kind)
}

/// What a folder shows next.
#[derive(Clone, Copy, Debug, PartialEq, Eq, Structural)]
pub enum FolderPrompt {
    /// Its directories, to choose one.
    Directories,
    /// Its files, to choose one.
    Files,
    /// Nothing: the folder has nothing to choose from, and the walk ends
    /// without a choice.
    Nothing,
}

/// What a folder with these numbers of directories and files shows next: its
/// directories, unless it has none or they were shown and passed over; else
/// its files, unless it has none.
pub open spec fn prompt_of(directories: nat, files: nat, passed_over: bool) -> FolderPrompt {
    if directories > 0 && !passed_over {
        FolderPrompt::Directories
    } else if files > 0 {
        FolderPrompt::Files
    } else {
        FolderPrompt::Nothing
    }
}

/// What follows a line of input while the directories of a folder are shown.
#[derive(Clone, Debug)]
pub enum FolderStep {
    /// Give up without a choice.
    Quit,
    /// Fetch the folder at this relative path next.
    Enter(String),
    /// The line chose no directory: go on to the files of this folder.
    ShowFiles,
}

/// What follows a line of input while the files of a folder are shown.
#[derive(Clone, Debug)]
pub enum FileStep {
    /// Give up without a choice.
    Quit,
    /// Fetch the folder at this relative path next.
    Enter(String),
    /// This file was chosen.
    Selected { title: String, href: String },
    /// The line chose nothing: fetch the same folder again.
    Retry,
}

/// A prefix of a digit sequence writes a number no larger than the whole.
proof fn lemma_decimal_prefix(digits: Seq<char>, k: int)
    requires
        0 <= k <= digits.len(),
    ensures
        decimal(digits.take(k)) <= decimal(digits),
    decreases digits.len() - k,
{
    if k == digits.len() {
        assert(digits.take(k) =~= digits);
    } else {
        lemma_decimal_prefix(digits, k + 1);
        assert(digits.take(k + 1).drop_last() =~= digits.take(k));
        assert(decimal(digits.take(k + 1)) >= decimal(digits.take(k)) * 10);
    }
}

/// Reads the number that `text` writes.
pub fn parse_number(text: &Vec<char>) -> (number: Option<usize>)
    ensures
        number == parsed_number(text@),
{
    let start: usize = if text.len() > 0 && text[0] == '+' {
        1
    } else {
        0
    };
    let ghost digits = text@.skip(start as int);
    assert(text@.skip(0) =~= text@);
    if text.len() == start {
        return None;
    }
    let mut value: usize = 0;
    let mut i: usize = start;
    while i < text.len()
        invariant
            start <= i <= text.len(),
            digits == text@.skip(start as int),
            digits.len() > 0,
            parsed_number(text@) == (if all_digits(digits) && decimal(digits) <= usize::MAX {
                Some(decimal(digits) as usize)
            } else {
                None
            }),
            value == decimal(digits.take(i - start)),
            forall|k: int| 0 <= k < i - start ==> digit_value(#[trigger] digits[k]) is Some,
        decreases text.len() - i,
    {
        let c = text[i];
        assert(digits.take(i - start + 1).drop_last() =~= digits.take(i - start));
        assert(digits.take(i - start + 1).last() == c);
        if c < '0' || c > '9' {
            return None;
        }
        let d: usize = (c as u32 - '0' as u32) as usize;
        if value > (usize::MAX - d) / 10 {
            proof {
                lemma_decimal_prefix(digits, i - start + 1);
            }
            return None;
        }
        value = value * 10 + d;
        i += 1;
    }
    assert(digits.take(digits.len() as int) =~= digits);
    Some(value)
}

/// Reads what a line of input asks for.
pub fn read_choice(input: &str) -> (choice: Choice)
    ensures
        choice == choice_of(input@),
{
    let line = trim(&chars_of(input));
    if same_chars(&line, &chars_of("q")) {
        Choice::Quit
    } else if same_chars(&line, &chars_of("..")) {
        Choice::Up
    } else {
        match parse_number(&line) {
            Some(n) => Choice::Number(n),
            None => Choice::Other,
        }
    }
}

/// The folder above `rel_path`.
pub fn parent_path(rel_path: &str) -> (parent: String)
    ensures
        parent@ == parent_of(rel_path@),
{
    let path = trim_trailing(&chars_of(rel_path), '/');
    let mut end: usize = path.len();
    assert(path@.take(end as int) =~= path@);
    while end > 0 && path[end - 1] != '/'
        invariant
            end <= path.len(),
            after_last_slash(path@.take(end as int)) == after_last_slash(path@),
        decreases end,
    {
        assert(path@.take(end as int).drop_last() =~= path@.take(end - 1));
        end -= 1;
    }
    let mut parent: Vec<char> = Vec::new();
    append(&mut parent, &path, 0, end);
    string_of(&parent)
}

/// The entries of one kind, in order.
pub fn entries_of_kind(items: &Vec<DirectoryItem>, kind: ItemKind) -> (kept: Vec<DirectoryItem>)
    ensures
        kept.deep_view() == of_kind(items.deep_view(), kind),
{
    let ghost all = items.deep_view();
    let mut kept: Vec<DirectoryItem> = Vec::new();
    let mut i: usize = 0;
    proof {
        reveal(Seq::filter);
    }
    while i < items.len()
        invariant
            i <= items.len(),
            all == items.deep_view(),
            kept.deep_view() == of_kind(all.take(i as int), kind),
        decreases items.len() - i,
    {
        proof {
            reveal(Seq::filter);
            assert(all.take(i + 1).drop_last() =~= all.take(i as int));
        }
        if items[i].item_type == kind {
            let item = items[i].clone_item();
            kept.push(item);
        }
        i += 1;
    }
    assert(all.take(items.len() as int) =~= all);
    kept
}

/// Decides what a folder shows next. `passed_over` says that its directories
/// were shown already and the line that was read chose none.
pub fn folder_prompt(directories: usize, files: usize, passed_over: bool) -> (prompt: FolderPrompt)
    ensures
        prompt == prompt_of(directories as nat, files as nat, passed_over),
{
    if directories > 0 && !passed_over {
        FolderPrompt::Directories
    } else if files > 0 {
        FolderPrompt::Files
    } else {
        FolderPrompt::Nothing
    }
}

/// Decides what follows a line of input while the directories of the folder
/// `rel_path` are shown. A number from 1 to the number of directories enters
/// that directory; a line that is neither that, `q` nor `..` leads on to the
/// files.
pub fn directory_step(rel_path: &str, directories: &Vec<DirectoryItem>, input: &str) -> (step:
    FolderStep)
    ensures
        match choice_of(input@) {
            Choice::Quit => step is Quit,
            Choice::Up => step matches FolderStep::Enter(path) && path@ == parent_of(rel_path@),
            Choice::Number(n) => if 1 <= n <= directories.len() {
                step matches FolderStep::Enter(path) && path@ == child_of(
                    rel_path@,
                    directories[n - 1].href@,
                )
            } else {
                step is ShowFiles
            },
            Choice::Other => step is ShowFiles,
        },
{
    match read_choice(input) {
        Choice::Quit => FolderStep::Quit,
        Choice::Up => FolderStep::Enter(parent_path(rel_path)),
        Choice::Number(n) => {
            if n >= 1 && n <= directories.len() {
                let below = followed_by(rel_path, directories[n - 1].href.as_str());
                let path = followed_by(below.as_str(), "/");
                proof {
                    reveal_strlit("/");
                }
                FolderStep::Enter(path)
            } else {
                FolderStep::ShowFiles
            }
        },
        Choice::Other => FolderStep::ShowFiles,
    }
}

/// Decides what follows a line of input while the files of the folder
/// `rel_path` are shown. A number from 1 to the number of files selects that
/// file, under the title that its name gives once the archive extensions
/// are taken out; a line that is neither that, `q` nor `..` asks again.
pub fn file_step(rel_path: &str, files: &Vec<DirectoryItem>, input: &str) -> (step: FileStep)
    ensures
        match choice_of(input@) {
            Choice::Quit => step is Quit,
            Choice::Up => step matches FileStep::Enter(path) && path@ == parent_of(rel_path@),
            Choice::Number(n) => if 1 <= n <= files.len() {
                step matches FileStep::Selected { title, href } && title@
                    == without_archive_extensions(files[n - 1].name@) && href@ == files[n
                    - 1].href@
            } else {
                step is Retry
            },
            Choice::Other => step is Retry,
        },
{
    match read_choice(input) {
        Choice::Quit => FileStep::Quit,
        Choice::Up => FileStep::Enter(parent_path(rel_path)),
        Choice::Number(n) => {
            if n >= 1 && n <= files.len() {
                let chosen = &files[n - 1];
                FileStep::Selected {
                    title: string_of(&strip_extensions(&chars_of(chosen.name.as_str()))),
                    href: chosen.href.clone(),
                }
            } else {
                FileStep::Retry
            }
        },
        Choice::Other => FileStep::Retry,
    }
}

} // verus!
