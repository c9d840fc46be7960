//! The bridge to the `regex` crate, which finds the anchors of a listing and
//! matches titles against file names.
//!
//! Nothing here is proved: each item states what the crate's documentation and
//! source say of the function it calls.

use vstd::prelude::*;
use crate::text::contains;

verus! {

/// The error with which `regex` refuses a pattern.
#[verifier::external_type_specification]
#[verifier::external_body]
pub struct ExRegexError(regex::Error);

/// What `regex::Regex::new` and `regex::Regex::captures_iter` make of a
/// pattern and a text: `None` where the pattern is refused; otherwise, for
/// each match in the order in which the matches are found, the text of the
/// match's first capture group, or `None` where that group took no part.
pub uninterp spec fn first_groups(pattern: Seq<char>, text: Seq<char>) -> Option<
    Seq<Option<Seq<char>>>,
>;

/// Compiles `pattern` with `regex::Regex::new`, walks the matches in `text`
/// with `regex::Regex::captures_iter` and copies out the first capture group
/// of each with `regex::Captures::get`.
///
/// The contract claims that the outcome is determined by the two arguments,
/// and that every group handed out is a piece of the text, which is what
/// `regex::Match::as_str` returns.
#[verifier::external_body]
pub(crate) fn find_first_groups(pattern: &str, text: &str) -> (r: Result<
    Vec<Option<String>>,
    regex::Error,
>)
    ensures
        match r {
            Ok(groups) => {
                &&& first_groups(pattern@, text@) == Some(groups.deep_view())
                &&& forall|i: int|
                    0 <= i < groups.len() ==> ((#[trigger] groups[i]) matches Some(group)
                        ==> contains(text@, group@))
            },
            Err(_) => first_groups(pattern@, text@) is None,
        },
{
    let re = regex::Regex::new(pattern)?;
    Ok(re.captures_iter(text).map(|c| c.get(1).map(|m| m.as_str().to_string())).collect())
}

/// What `regex::Regex::new` and `regex::Regex::is_match` make of a pattern
/// and a text: `None` where the pattern is refused; otherwise whether the
/// pattern matches somewhere in the text.
pub uninterp spec fn pattern_match(pattern: Seq<char>, text: Seq<char>) -> Option<bool>;

/// Compiles `pattern` with `regex::Regex::new` and asks `regex::Regex::is_match`
/// whether it matches somewhere in `text`.
///
/// The contract claims only that the outcome is determined by the two
/// arguments.
#[verifier::external_body]
pub(crate) fn is_match(pattern: &str, text: &str) -> (r: Result<bool, regex::Error>)
    ensures
        match r {
            Ok(found) => pattern_match(pattern@, text@) == Some(found),
            Err(_) => pattern_match(pattern@, text@) is None,
        },
{
    Ok(regex::Regex::new(pattern)?.is_match(text))
}

/// `c` is one of the characters that mean something in a pattern, as
/// `regex_syntax::is_meta_character` lists them.
pub open spec fn is_meta(c: char) -> bool {
    c == '\\' || c == '.' || c == '+' || c == '*' || c == '?' || c == '(' || c == ')' || c == '|'
        || c == '[' || c == ']' || c == '{' || c == '}' || c == '^' || c == '$' || c == '#' || c
        == '&' || c == '-' || c == '~'
}

/// `text` with a backslash put before each character that means something in
/// a pattern.
pub open spec fn escaped_pattern(text: Seq<char>) -> Seq<char>
    decreases text.len(),
{
    if text.len() == 0 {
        text
    } else if is_meta(text.last()) {
        escaped_pattern(text.drop_last()) + seq!['\\', text.last()]
    } else {
        escaped_pattern(text.drop_last()).push(text.last())
    }
}

/// Calls `regex::escape`, which copies the text character by character and
/// writes a backslash before each one that `regex_syntax::is_meta_character`
/// accepts.
#[verifier::external_body]
pub(crate) fn escape(text: &str) -> (r: String)
    ensures
        r@ == escaped_pattern(text@),
{
    regex::escape(text)
}

/// The words in which `regex::Error` describes itself through `Display`.
/// Nothing is claimed of them.
#[verifier::external_body]
pub(crate) fn describe(error: &regex::Error) -> String {
    error.to_string()
}

} // verus!
