//! Finding the files of an index that a title may mean.
//!
//! The title is cleaned and turned into four patterns, from the strictest to
//! the loosest. The first pattern that matches any file target of the index
//! decides: the targets it matches are the candidates.

use vstd::prelude::*;
use crate::listing::{find_targets, targets, PatternError};
use crate::pattern::{describe, escape, escaped_pattern, is_match, pattern_match};
use crate::text::{chars_of, followed_by, replace_all, replaced, string_of};
use crate::title::{clean_title, cleaned_title};

verus! {

/// The pattern that finds the targets of anchors that end in an archive
/// extension, the bare extension included.
pub const ARCHIVE_PATTERN: &'static str = r#"href="([^"]*\.(?:zip|7z))""#;

/// `c` is an ASCII letter or digit.
pub open spec fn is_ascii_alphanumeric(c: char) -> bool {
    ('a' <= c <= 'z') || ('A' <= c <= 'Z') || ('0' <= c <= '9')
}

/// `text` with `.*` in place of each character that is no ASCII letter or
/// digit.
pub open spec fn loosened(text: Seq<char>) -> Seq<char>
    decreases text.len(),
{
    if text.len() == 0 {
        text
    } else if is_ascii_alphanumeric(text.last()) {
        loosened(text.drop_last()).push(text.last())
    } else {
        loosened(text.drop_last()) + seq!['.', '*']
    }
}

/// The patterns that are tried for a search key, in order: the key as it
/// stands; the key with anything allowed in place of each space; the key with
/// anything allowed in place of each character that is no ASCII letter or
/// digit; the key as it stands, with anything around it.
pub open spec fn search_patterns(key: Seq<char>) -> Seq<Seq<char>> {
    seq![
        escaped_pattern(key),
        replaced(key, seq![' '], seq!['.', '*']),
        loosened(key),
        seq!['.', '*'] + escaped_pattern(key) + seq!['.', '*'],
    ]
}

/// Whether the pattern matches each of the targets, or `None` where the
/// pattern is refused.
pub open spec fn verdicts(pattern: Seq<char>, hrefs: Seq<Seq<char>>) -> Option<Seq<bool>>
    decreases hrefs.len(),
{
    if hrefs.len() == 0 {
        Some(Seq::empty())
    } else {
        match (verdicts(pattern, hrefs.drop_last()), pattern_match(pattern, hrefs.last())) {
            (Some(before), Some(found)) => Some(before.push(found)),
            _ => None,
        }
    }
}

/// The targets whose verdict is `true`, in order.
pub open spec fn matching(hrefs: Seq<Seq<char>>, found: Seq<bool>) -> Seq<Seq<char>>
    decreases hrefs.len(),
{
    if hrefs.len() == 0 || found.len() != hrefs.len() {
        Seq::empty()
    } else if found.last() {
        matching(hrefs.drop_last(), found.drop_last()).push(hrefs.last())
    } else {
        matching(hrefs.drop_last(), found.drop_last())
    }
}

/// The targets that the first of `patterns` to match any of them matches; no
/// targets where none matches any; `None` where a pattern that had to be
/// tried is refused.
pub open spec fn first_hits(patterns: Seq<Seq<char>>, hrefs: Seq<Seq<char>>) -> Option<
    Seq<Seq<char>>,
>
    decreases patterns.len(),
{
    if patterns.len() == 0 {
        Some(Seq::empty())
    } else {
        match verdicts(patterns[0], hrefs) {
            None => None,
            Some(found) => if matching(hrefs, found).len() > 0 {
                Some(matching(hrefs, found))
            } else {
                first_hits(patterns.skip(1), hrefs)
            },
        }
    }
}

/// The pattern that is refused when the patterns are tried in order, if one
/// is: one is only where no pattern before it matched any target.
pub open spec fn first_refused(patterns: Seq<Seq<char>>, hrefs: Seq<Seq<char>>) -> Option<
    Seq<char>,
>
    decreases patterns.len(),
{
    if patterns.len() == 0 {
        None
    } else {
        match verdicts(patterns[0], hrefs) {
            None => Some(patterns[0]),
            Some(found) => if matching(hrefs, found).len() > 0 {
                None
            } else {
                first_refused(patterns.skip(1), hrefs)
            },
        }
    }
}

/// The pattern that is refused in the search for `title` in the index
/// `content`, if one is.
pub open spec fn refused_pattern(title: Seq<char>, content: Seq<char>) -> Option<Seq<char>> {
    match targets(ARCHIVE_PATTERN@, content) {
        Some(hrefs) => first_refused(search_patterns(cleaned_title(title)), hrefs),
        None => Some(ARCHIVE_PATTERN@),
    }
}

/// The candidates for `title` among the file targets of the index `content`,
/// or `None` where a pattern is refused.
pub open spec fn found_games(title: Seq<char>, content: Seq<char>) -> Option<Seq<Seq<char>>> {
    match targets(ARCHIVE_PATTERN@, content) {
        Some(hrefs) => first_hits(search_patterns(cleaned_title(title)), hrefs),
        None => None,
    }
}

/// Loosens a search key.
fn loosen(key: &Vec<char>) -> (out: Vec<char>)
    ensures
        out@ == loosened(key@),
{
    let mut out: Vec<char> = Vec::new();
    let mut i: usize = 0;
    while i < key.len()
        invariant
            i <= key.len(),
            out@ == loosened(key@.take(i as int)),
        decreases key.len() - i,
    {
        let c = key[i];
        assert(key@.take(i + 1).drop_last() =~= key@.take(i as int));
        if (c >= 'a' && c <= 'z') || (c >= 'A' && c <= 'Z') || (c >= '0' && c <= '9') {
            out.push(c);
        } else {
            out.push('.');
            out.push('*');
        }
        i += 1;
    }
    assert(key@.take(key.len() as int) =~= key@);
    out
}

/// The patterns that are tried for a search key, in order.
pub fn patterns_for(key: &str) -> (patterns: Vec<String>)
    ensures
        patterns.deep_view() == search_patterns(key@),
{
    let chars = chars_of(key);
    let mut space: Vec<char> = Vec::new();
    space.push(' ');
    let mut anything: Vec<char> = Vec::new();
    anything.push('.');
    anything.push('*');
    assert(anything@ =~= seq!['.', '*']);
    proof {
        reveal_strlit(".*");
        assert(".*"@ =~= seq!['.', '*']);
    }
    let literal = escape(key);
    let begun = followed_by(".*", literal.as_str());
    let around = followed_by(begun.as_str(), ".*");
    let mut patterns: Vec<String> = Vec::new();
    patterns.push(literal);
    patterns.push(string_of(&replace_all(&chars, &space, &anything)));
    patterns.push(string_of(&loosen(&chars)));
    patterns.push(around);
    patterns
}

/// Asks the pattern engine about each target in turn.
fn verdicts_of(pattern: &str, hrefs: &Vec<String>) -> (r: Result<Vec<bool>, PatternError>)
    ensures
        match r {
            Ok(found) => verdicts(pattern@, hrefs.deep_view()) == Some(found@),
            Err(e) => verdicts(pattern@, hrefs.deep_view()) is None && e.pattern@ == pattern@,
        },
{
    let ghost all = hrefs.deep_view();
    let mut found: Vec<bool> = Vec::new();
    let mut i: usize = 0;
    while i < hrefs.len()
        invariant
            i <= hrefs.len(),
            all == hrefs.deep_view(),
            verdicts(pattern@, all.take(i as int)) == Some(found@),
        decreases hrefs.len() - i,
    {
        assert(all.take(i + 1).drop_last() =~= all.take(i as int));
        match is_match(pattern, hrefs[i].as_str()) {
            Ok(verdict) => {
                found.push(verdict);
            },
            Err(e) => {
                proof {
                    lemma_refused_stays_refused(pattern@, all, i + 1);
                }
                return Err(PatternError { pattern: pattern.to_owned(), message: describe(&e) });
            },
        }
        i += 1;
    }
    assert(all.take(hrefs.len() as int) =~= all);
    Ok(found)
}

/// Once a pattern is refused on some of the targets, it is refused on all of
/// them.
proof fn lemma_refused_stays_refused(pattern: Seq<char>, hrefs: Seq<Seq<char>>, k: int)
    requires
        0 <= k <= hrefs.len(),
        verdicts(pattern, hrefs.take(k)) is None,
    ensures
        verdicts(pattern, hrefs) is None,
    decreases hrefs.len() - k,
{
    if k == hrefs.len() {
        assert(hrefs.take(k) =~= hrefs);
    } else {
        assert(hrefs.take(k + 1).drop_last() =~= hrefs.take(k));
        lemma_refused_stays_refused(pattern, hrefs, k + 1);
    }
}

/// The targets whose verdict is `true`, in order.
pub fn keep_matching(hrefs: &Vec<String>, found: &Vec<bool>) -> (kept: Vec<String>)
    requires
        found.len() == hrefs.len(),
    ensures
        kept.deep_view() == matching(hrefs.deep_view(), found@),
{
    let ghost all = hrefs.deep_view();
    let mut kept: Vec<String> = Vec::new();
    let mut i: usize = 0;
    while i < hrefs.len()
        invariant
            i <= hrefs.len(),
            found.len() == hrefs.len(),
            all == hrefs.deep_view(),
            kept.deep_view() == matching(all.take(i as int), found@.take(i as int)),
        decreases hrefs.len() - i,
    {
        assert(all.take(i + 1).drop_last() =~= all.take(i as int));
        assert(found@.take(i + 1).drop_last() =~= found@.take(i as int));
        if found[i] {
            kept.push(hrefs[i].clone());
        }
        i += 1;
    }
    assert(all.take(hrefs.len() as int) =~= all);
    assert(found@.take(hrefs.len() as int) =~= found@);
    kept
}

/// Tries the patterns from `from` on, in order.
fn hits_from(patterns: &Vec<String>, from: usize, hrefs: &Vec<String>) -> (r: Result<
    Vec<String>,
    PatternError,
>)
    requires
        from <= patterns.len(),
    ensures
        match r {
            Ok(found) => first_hits(patterns.deep_view().skip(from as int), hrefs.deep_view())
                == Some(found.deep_view()),
            Err(e) => {
                &&& first_hits(patterns.deep_view().skip(from as int), hrefs.deep_view()) is None
                &&& first_refused(patterns.deep_view().skip(from as int), hrefs.deep_view())
                    == Some(e.pattern@)
            },
        },
    decreases patterns.len() - from,
{
    let ghost rest = patterns.deep_view().skip(from as int);
    if from == patterns.len() {
        let none: Vec<String> = Vec::new();
        return Ok(none);
    }
    assert(rest.skip(1) =~= patterns.deep_view().skip(from + 1));
    match verdicts_of(patterns[from].as_str(), hrefs) {
        Err(e) => Err(e),
        Ok(found) => {
            proof {
                lemma_verdicts_len(patterns[from as int]@, hrefs.deep_view());
            }
            let kept = keep_matching(hrefs, &found);
            if kept.len() > 0 {
                Ok(kept)
            } else {
                hits_from(patterns, from + 1, hrefs)
            }
        },
    }
}

/// There is one verdict for each target.
proof fn lemma_verdicts_len(pattern: Seq<char>, hrefs: Seq<Seq<char>>)
    ensures
        verdicts(pattern, hrefs) matches Some(found) ==> found.len() == hrefs.len(),
    decreases hrefs.len(),
{
    if hrefs.len() > 0 {
        lemma_verdicts_len(pattern, hrefs.drop_last());
    }
}

/// The candidates for a search key among file targets: the targets that the
/// first of the key's patterns to match any of them matches.
pub fn candidates_for(key: &str, hrefs: &Vec<String>) -> (r: Result<Vec<String>, PatternError>)
    ensures
        match r {
            Ok(found) => first_hits(search_patterns(key@), hrefs.deep_view()) == Some(
                found.deep_view(),
            ),
            Err(e) => {
                &&& first_hits(search_patterns(key@), hrefs.deep_view()) is None
                &&& first_refused(search_patterns(key@), hrefs.deep_view()) == Some(e.pattern@)
            },
        },
{
    let patterns = patterns_for(key);
    assert(patterns.deep_view().skip(0) =~= patterns.deep_view());
    hits_from(&patterns, 0, hrefs)
}

/// Finds the candidates for a title among the file targets of an index.
///
/// The error is a pattern that the engine refuses: a title may hold
/// characters that mean something in a pattern, and only the first and the
/// last pattern guard against them.
pub fn search_game(game_title: &str, content: &str) -> (r: Result<Vec<String>, PatternError>)
    ensures
        match r {
            Ok(found) => found_games(game_title@, content@) == Some(found.deep_view()),
            Err(e) => {
                &&& found_games(game_title@, content@) is None
                &&& refused_pattern(game_title@, content@) == Some(e.pattern@)
            },
        },
{
    let key = clean_title(game_title);
    let hrefs = match find_targets(ARCHIVE_PATTERN, content) {
        Ok(found) => found,
        Err(e) => {
            return Err(e);
        },
    };
    candidates_for(key.as_str(), &hrefs)
}

} // verus!
