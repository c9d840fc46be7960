//! The title cleaner: from a raw title, as a shortcut or a queue names it, to
//! the key that is searched for.

use vstd::prelude::*;
use crate::catalog::{name_suffixes, NAME_SUFFIXES};
use crate::text::{
    chars_of, replace_all, replaced, single_spaced, squeeze_spaces, string_of, trim, trimmed,
};

verus! {

/// How many of the noise substrings are tags in brackets. They come first in
/// the table; what follows them is launcher prefixes and separators.
pub const TAG_COUNT: usize = 24;

/// `text` after each of `noise` in turn has had its occurrences replaced by
/// `filler`.
pub open spec fn without_noise(text: Seq<char>, noise: Seq<Seq<char>>, filler: Seq<char>) -> Seq<
    char,
>
    decreases noise.len(),
{
    if noise.len() == 0 {
        text
    } else {
        replaced(without_noise(text, noise.drop_last(), filler), noise.last(), filler)
    }
}

/// The search key of a raw title: every noise substring gives way to a space,
/// then white space is collapsed and trimmed.
pub open spec fn cleaned_title(title: Seq<char>) -> Seq<char> {
    single_spaced(without_noise(title, name_suffixes(), seq![' ']))
}

/// The name of a game as its shortcut has it: the bracketed tags are taken
/// out, then white space is trimmed at both ends.
pub open spec fn cleaned_game_name(name: Seq<char>) -> Seq<char> {
    trimmed(without_noise(name, name_suffixes().take(TAG_COUNT as int), Seq::empty()))
}

/// `name` without any `.zip` and then without any `.7z`, wherever they stand.
pub open spec fn without_archive_extensions(name: Seq<char>) -> Seq<char> {
    replaced(replaced(name, ".zip"@, Seq::empty()), ".7z"@, Seq::empty())
}

/// Replaces, in turn, each of the first `count` noise substrings by `filler`.
fn strip_noise(text: Vec<char>, count: usize, filler: &Vec<char>) -> (out: Vec<char>)
    requires
        count <= NAME_SUFFIXES@.len(),
    ensures
        out@ == without_noise(text@, name_suffixes().take(count as int), filler@),
{
    let ghost start = text@;
    let ghost noise = name_suffixes();
    let mut current = text;
    let mut i: usize = 0;
    while i < count
        invariant
            i <= count <= NAME_SUFFIXES@.len(),
            noise == name_suffixes(),
            current@ == without_noise(start, noise.take(i as int), filler@),
        decreases count - i,
    {
        assert(noise.take(i + 1).drop_last() =~= noise.take(i as int));
        let pattern = chars_of(NAME_SUFFIXES[i]);
        current = replace_all(&current, &pattern, filler);
        i += 1;
    }
    current
}

/// Cleans a raw title into a search key.
pub fn clean_title(title: &str) -> (cleaned: String)
    ensures
        cleaned@ == cleaned_title(title@),
{
    let mut space: Vec<char> = Vec::new();
    space.push(' ');
    let stripped = strip_noise(chars_of(title), NAME_SUFFIXES.len(), &space);
    assert(name_suffixes().take(NAME_SUFFIXES@.len() as int) =~= name_suffixes());
    string_of(&squeeze_spaces(&stripped))
}

/// Cleans the name of a shortcut into the name of its game.
pub fn clean_game_name(name: &str) -> (cleaned: String)
    ensures
        cleaned@ == cleaned_game_name(name@),
{
    let nothing: Vec<char> = Vec::new();
    let stripped = strip_noise(chars_of(name), TAG_COUNT, &nothing);
    string_of(&trim(&stripped))
}

/// Takes the archive extensions out of a character sequence.
pub fn strip_extensions(name: &Vec<char>) -> (out: Vec<char>)
    ensures
        out@ == without_archive_extensions(name@),
{
    let nothing: Vec<char> = Vec::new();
    let first = replace_all(name, &chars_of(".zip"), &nothing);
    replace_all(&first, &chars_of(".7z"), &nothing)
}

/// The title that a file name stands for: the name without its archive
/// extensions.
pub fn strip_archive_extensions(name: &str) -> (title: String)
    ensures
        title@ == without_archive_extensions(name@),
{
    string_of(&strip_extensions(&chars_of(name)))
}

} // verus!
