//! Names and addresses of the files that are kept beside the records: cover
//! pictures and the shortcuts that name the installed games.

use vstd::prelude::*;
use crate::text::{append, chars_of, followed_by, has_prefix, same_chars, starts_with, string_of};
use crate::title::{clean_game_name, cleaned_game_name};

verus! {

/// The host that relative cover addresses belong to.
pub const COVER_HOST: &'static str = "https://www.screenscraper.fr";

/// The longest file name, in bytes, that a cover is stored under, the
/// extension not counted.
pub const MAX_NAME_BYTES: usize = 100;

/// `c` cannot stand in a file name.
pub open spec fn is_forbidden(c: char) -> bool {
    c == '<' || c == '>' || c == ':' || c == '"' || c == '/' || c == '\\' || c == '|' || c == '?'
        || c == '*'
}

/// How many bytes `c` takes in UTF-8.
pub open spec fn utf8_width(c: char) -> nat {
    if (c as u32) < 0x80 {
        1
    } else if (c as u32) < 0x800 {
        2
    } else if (c as u32) < 0x10000 {
        3
    } else {
        4
    }
}

/// How many bytes `text` takes in UTF-8.
pub open spec fn utf8_len(text: Seq<char>) -> nat
    decreases text.len(),
{
    if text.len() == 0 {
        0
    } else {
        utf8_len(text.drop_last()) + utf8_width(text.last())
    }
}

/// `text` with an underscore in place of each character that cannot stand in
/// a file name.
pub open spec fn sanitized(text: Seq<char>) -> Seq<char> {
    text.map_values(
        |c: char|
            if is_forbidden(c) {
                '_'
            } else {
                c
            },
    )
}

/// How many characters of `text` make its first `limit` bytes, where some
/// number of whole characters does.
pub open spec fn chars_within(text: Seq<char>, limit: nat) -> Option<nat>
    decreases text.len(),
{
    if utf8_len(text) <= limit {
        Some(text.len())
    } else {
        chars_within(text.drop_last(), limit)
    }
}

/// `text` can be cut to `limit` bytes: it is no longer than that, or its
/// first `limit` bytes end with a whole character.
pub open spec fn cuts_cleanly(text: Seq<char>, limit: nat) -> bool {
    utf8_len(text) <= limit || exists|k: int|
        0 <= k <= text.len() && utf8_len(#[trigger] text.take(k)) == limit
}

/// The file name that a cover is stored under: the game's name with every
/// forbidden character replaced, cut to [`MAX_NAME_BYTES`] bytes.
pub open spec fn safe_name(name: Seq<char>) -> Seq<char> {
    sanitized(name).take(chars_within(sanitized(name), MAX_NAME_BYTES as nat).unwrap_or(0) as int)
}

/// The address to fetch a cover from: one without a scheme gets `https:`,
/// one without a host gets [`COVER_HOST`]. An empty address is none.
pub open spec fn cover_address(url: Seq<char>) -> Option<Seq<char>> {
    if url.len() == 0 {
        None
    } else if starts_with(url, "//"@) {
        Some("https:"@ + url)
    } else if starts_with(url, "/"@) || !starts_with(url, "http"@) {
        Some(COVER_HOST@ + url)
    } else {
        Some(url)
    }
}

/// The position of the last dot of `name`, or -1 where it has none.
pub open spec fn last_dot(name: Seq<char>) -> int
    decreases name.len(),
{
    if name.len() == 0 {
        -1
    } else if name.last() == '.' {
        name.len() - 1
    } else {
        last_dot(name.drop_last())
    }
}

/// The extension of a file name: what follows its last dot, unless that dot
/// begins the name.
pub open spec fn extension_of(name: Seq<char>) -> Option<Seq<char>> {
    if last_dot(name) >= 1 {
        Some(name.skip(last_dot(name) + 1))
    } else {
        None
    }
}

/// The stem of a file name: what precedes its last dot, or the whole name
/// where it has no extension.
pub open spec fn stem_of(name: Seq<char>) -> Seq<char> {
    if last_dot(name) >= 1 {
        name.take(last_dot(name))
    } else {
        name
    }
}

/// The game that a file in the games directory names: the cleaned stem of a
/// shortcut, which is a file with the extension `lnk`.
pub open spec fn shortcut_game(file_name: Seq<char>) -> Option<Seq<char>> {
    if extension_of(file_name) == Some("lnk"@) {
        Some(cleaned_game_name(stem_of(file_name)))
    } else {
        None
    }
}

/// How many bytes `c` takes in UTF-8.
fn width_of(c: char) -> (width: usize)
    ensures
        width == utf8_width(c),
{
    let code = c as u32;
    if code < 0x80 {
        1
    } else if code < 0x800 {
        2
    } else if code < 0x10000 {
        3
    } else {
        4
    }
}

/// A longer text takes no fewer bytes.
proof fn lemma_utf8_len_grows(text: Seq<char>, k: int)
    requires
        0 <= k <= text.len(),
    ensures
        utf8_len(text.take(k)) <= utf8_len(text),
    decreases text.len() - k,
{
    if k == text.len() {
        assert(text.take(k) =~= text);
    } else {
        lemma_utf8_len_grows(text, k + 1);
        assert(text.take(k + 1).drop_last() =~= text.take(k));
    }
}

/// Where a text is cut: after the longest run of whole characters that fits.
proof fn lemma_chars_within(text: Seq<char>, limit: nat, k: int)
    requires
        0 <= k <= text.len(),
        utf8_len(text.take(k)) <= limit,
        k < text.len() ==> utf8_len(text.take(k + 1)) > limit,
    ensures
        chars_within(text, limit) == Some(k as nat),
    decreases text.len() - k,
{
    if k == text.len() {
        assert(text.take(k) =~= text);
    } else {
        lemma_utf8_len_grows(text, k + 1);
        assert(text.drop_last().take(k) =~= text.take(k));
        if k + 1 < text.len() {
            assert(text.drop_last().take(k + 1) =~= text.take(k + 1));
        }
        if k < text.len() - 1 {
            lemma_chars_within(text.drop_last(), limit, k);
        }
    }
}

/// Replaces the forbidden characters and measures what fits.
fn sanitize(name: &Vec<char>) -> (r: (Vec<char>, usize, bool))
    ensures
        r.0@ == sanitized(name@),
        r.1 <= name.len(),
        chars_within(sanitized(name@), MAX_NAME_BYTES as nat) == Some(r.1 as nat),
        r.2 == cuts_cleanly(sanitized(name@), MAX_NAME_BYTES as nat),
{
    let ghost clean = sanitized(name@);
    let mut out: Vec<char> = Vec::new();
    let mut bytes: usize = 0;
    let mut fits: usize = 0;
    let mut exact: bool = false;
    let mut i: usize = 0;
    while i < name.len()
        invariant
            i <= name.len(),
            clean == sanitized(name@),
            out@ == clean.take(i as int),
            fits <= i,
            bytes <= MAX_NAME_BYTES + 4,
            bytes <= MAX_NAME_BYTES ==> bytes == utf8_len(clean.take(i as int)) && fits == i,
            bytes > MAX_NAME_BYTES ==> {
                &&& utf8_len(clean.take(i as int)) > MAX_NAME_BYTES
                &&& fits < i
                &&& utf8_len(clean.take(fits as int)) <= MAX_NAME_BYTES
                &&& utf8_len(clean.take(fits + 1)) > MAX_NAME_BYTES
            },
            exact == (exists|k: int|
                0 <= k <= i && utf8_len(#[trigger] clean.take(k)) == MAX_NAME_BYTES),
        decreases name.len() - i,
    {
        let c = name[i];
        let kept = if c == '<' || c == '>' || c == ':' || c == '"' || c == '/' || c == '\\' || c
            == '|' || c == '?' || c == '*' {
            '_'
        } else {
            c
        };
        assert(clean.take(i + 1).drop_last() =~= clean.take(i as int));
        out.push(kept);
        if bytes <= MAX_NAME_BYTES {
            bytes = bytes + width_of(kept);
            if bytes <= MAX_NAME_BYTES {
                fits = i + 1;
            }
        } else {
            proof {
                lemma_utf8_len_grows(clean.take(i + 1), i as int);
            }
        }
        if bytes == MAX_NAME_BYTES {
            exact = true;
        }
        proof {
            if !exact {
                assert forall|k: int| 0 <= k <= i + 1 implies utf8_len(#[trigger] clean.take(k))
                    != MAX_NAME_BYTES by {
                }
            }
        }
        i += 1;
    }
    proof {
        assert(clean.take(name.len() as int) =~= clean);
        if bytes <= MAX_NAME_BYTES {
            lemma_chars_within(clean, MAX_NAME_BYTES as nat, clean.len() as int);
        } else {
            lemma_chars_within(clean, MAX_NAME_BYTES as nat, fits as int);
        }
    }
    (out, fits, bytes <= MAX_NAME_BYTES || exact)
}

/// Whether the file name of a game's cover can be made: whether the name,
/// once its forbidden characters are replaced, can be cut to
/// [`MAX_NAME_BYTES`] bytes between two characters.
pub fn has_safe_filename(filename: &str) -> (ok: bool)
    ensures
        ok == cuts_cleanly(sanitized(filename@), MAX_NAME_BYTES as nat),
{
    sanitize(&chars_of(filename)).2
}

/// The file name that a game's cover is stored under.
pub fn safe_filename(filename: &str) -> (safe: String)
    requires
        cuts_cleanly(sanitized(filename@), MAX_NAME_BYTES as nat),
    ensures
        safe@ == safe_name(filename@),
        utf8_len(safe@) <= MAX_NAME_BYTES,
{
    let (clean, fits, _) = sanitize(&chars_of(filename));
    let mut safe: Vec<char> = Vec::new();
    append(&mut safe, &clean, 0, fits);
    proof {
        lemma_within_fits(clean@, MAX_NAME_BYTES as nat);
    }
    string_of(&safe)
}

/// What is kept of a text fits the limit.
proof fn lemma_within_fits(text: Seq<char>, limit: nat)
    ensures
        chars_within(text, limit) matches Some(k) ==> k <= text.len() && utf8_len(
            text.take(k as int),
        ) <= limit,
    decreases text.len(),
{
    if utf8_len(text) <= limit {
        assert(text.take(text.len() as int) =~= text);
    } else {
        lemma_within_fits(text.drop_last(), limit);
        match chars_within(text.drop_last(), limit) {
            Some(k) => {
                assert(text.drop_last().take(k as int) =~= text.take(k as int));
            },
            None => {},
        }
    }
}

/// The address to fetch a cover from, or none where the record names none.
pub fn cover_download_url(cover_url: &str) -> (address: Option<String>)
    ensures
        (match address {
            Some(a) => Some(a@),
            None => None,
        }) == cover_address(cover_url@),
{
    let url = chars_of(cover_url);
    if url.len() == 0 {
        None
    } else if has_prefix(&url, &chars_of("//")) {
        Some(followed_by("https:", cover_url))
    } else if has_prefix(&url, &chars_of("/")) || !has_prefix(&url, &chars_of("http")) {
        Some(followed_by(COVER_HOST, cover_url))
    } else {
        Some(cover_url.to_owned())
    }
}

/// The game that a file in the games directory names, if it is a shortcut.
pub fn shortcut_game_name(file_name: &str) -> (game: Option<String>)
    ensures
        (match game {
            Some(g) => Some(g@),
            None => None,
        }) == shortcut_game(file_name@),
{
    let name = chars_of(file_name);
    let mut end: usize = name.len();
    assert(name@.take(end as int) =~= name@);
    while end > 0 && name[end - 1] != '.'
        invariant
            end <= name.len(),
            last_dot(name@.take(end as int)) == last_dot(name@),
        decreases end,
    {
        assert(name@.take(end as int).drop_last() =~= name@.take(end - 1));
        end -= 1;
    }
    if end < 2 {
        return None;
    }
    let mut extension: Vec<char> = Vec::new();
    append(&mut extension, &name, end, name.len());
    if !same_chars(&extension, &chars_of("lnk")) {
        return None;
    }
    let mut stem: Vec<char> = Vec::new();
    append(&mut stem, &name, 0, end - 1);
    let stem_text = string_of(&stem);
    Some(clean_game_name(stem_text.as_str()))
}

} // verus!
