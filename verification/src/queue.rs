//! The download queue: a text file with one title per line, in which empty
//! lines and lines that begin with `#` do not count.

use vstd::prelude::*;
use crate::text::{
    chars_of, contains, has_infix, has_prefix, join_parts, joined, lines, split_lines,
    starts_with, string_of, trim, trimmed,
};

verus! {

/// The title that a line of the queue holds: the line trimmed, unless that is
/// empty or a comment.
pub open spec fn queued_title(line: Seq<char>) -> Option<Seq<char>> {
    if trimmed(line).len() > 0 && !starts_with(trimmed(line), "#"@) {
        Some(trimmed(line))
    } else {
        None
    }
}

/// The titles that a queue holds, in order.
pub open spec fn queued_titles(content: Seq<char>) -> Seq<Seq<char>> {
    lines(content).filter_map(|line: Seq<char>| queued_title(line))
}

/// The line stays when `title` is taken off the queue: it does not hold it.
pub open spec fn stays(line: Seq<char>, title: Seq<char>) -> Option<Seq<char>> {
    if contains(line, title) {
        None
    } else {
        Some(line)
    }
}

/// The queue without the lines that hold `title`; the lines that stay are
/// joined by line feeds, with none after the last.
pub open spec fn queue_after_removal(content: Seq<char>, title: Seq<char>) -> Seq<char> {
    joined(lines(content).filter_map(|line: Seq<char>| stays(line, title)), seq!['\n'])
}

/// Reads the titles that a queue holds.
pub fn extract_games_from_queue(content: &str) -> (games: Vec<String>)
    ensures
        games.deep_view() == queued_titles(content@),
{
    let all = split_lines(&chars_of(content));
    let ghost listed = all.deep_view();
    let comment = chars_of("#");
    let mut games: Vec<String> = Vec::new();
    let mut i: usize = 0;
    while i < all.len()
        invariant
            i <= all.len(),
            listed == all.deep_view(),
            comment@ == "#"@,
            games.deep_view() == listed.take(i as int).filter_map(
                |line: Seq<char>| queued_title(line),
            ),
        decreases all.len() - i,
    {
        assert(listed.take(i + 1).drop_last() =~= listed.take(i as int));
        assert(listed.take(i + 1).last() =~= all[i as int]@);
        let line = trim(&all[i]);
        if line.len() > 0 && !has_prefix(&line, &comment) {
            games.push(string_of(&line));
        }
        i += 1;
    }
    assert(listed.take(all.len() as int) =~= listed);
    games
}

/// Takes a title off the queue: every line that holds it goes, comments
/// included.
pub fn remove_from_queue(content: &str, game_title: &str) -> (remaining: String)
    ensures
        remaining@ == queue_after_removal(content@, game_title@),
{
    let all = split_lines(&chars_of(content));
    let ghost listed = all.deep_view();
    let title = chars_of(game_title);
    let mut kept: Vec<Vec<char>> = Vec::new();
    let mut i: usize = 0;
    while i < all.len()
        invariant
            i <= all.len(),
            listed == all.deep_view(),
            title@ == game_title@,
            kept.deep_view() == listed.take(i as int).filter_map(
                |line: Seq<char>| stays(line, game_title@),
            ),
        decreases all.len() - i,
    {
        assert(listed.take(i + 1).drop_last() =~= listed.take(i as int));
        assert(listed.take(i + 1).last() =~= all[i as int]@);
        if !has_infix(&all[i], &title) {
            let line = copy_chars(&all[i]);
            kept.push(line);
        }
        i += 1;
    }
    assert(listed.take(all.len() as int) =~= listed);
    let mut feed: Vec<char> = Vec::new();
    feed.push('\n');
    string_of(&join_parts(&kept, &feed))
}

/// A copy of a character sequence.
fn copy_chars(text: &Vec<char>) -> (copy: Vec<char>)
    ensures
        copy@ == text@,
{
    let mut copy: Vec<char> = Vec::new();
    crate::text::append(&mut copy, text, 0, text.len());
    copy
}

} // verus!
