//! Percent-encoding of the seven characters that the index server escapes in
//! path segments: space, the two parentheses, plus, ampersand, apostrophe and
//! comma. Every other character, `%` included, passes through unchanged in
//! both directions.

use vstd::prelude::*;
use crate::text::{chars_of, lemma_replaced_passes, occurs_at, replaced, string_of};

verus! {

/// The two hexadecimal digits written after `%` for a reserved character.
pub open spec fn escape_digits(c: char) -> Option<(char, char)> {
    if c == ' ' {
        Some(('2', '0'))
    } else if c == '(' {
        Some(('2', '8'))
    } else if c == ')' {
        Some(('2', '9'))
    } else if c == '+' {
        Some(('2', 'B'))
    } else if c == '&' {
        Some(('2', '6'))
    } else if c == '\'' {
        Some(('2', '7'))
    } else if c == ',' {
        Some(('2', 'C'))
    } else {
        None
    }
}

/// `c` is one of the seven characters that are escaped.
pub open spec fn is_reserved(c: char) -> bool {
    escape_digits(c) is Some
}

/// The reserved character that `%`, `hi`, `lo` stands for, if any. The digits
/// are matched as written: `%2b` is no escape.
pub open spec fn escaped_char(hi: char, lo: char) -> Option<char> {
    if hi != '2' {
        None
    } else if lo == '0' {
        Some(' ')
    } else if lo == '8' {
        Some('(')
    } else if lo == '9' {
        Some(')')
    } else if lo == 'B' {
        Some('+')
    } else if lo == '6' {
        Some('&')
    } else if lo == '7' {
        Some('\'')
    } else if lo == 'C' {
        Some(',')
    } else {
        None
    }
}

/// What one character becomes when encoded.
pub open spec fn encoded_char(c: char) -> Seq<char> {
    match escape_digits(c) {
        Some((hi, lo)) => seq!['%', hi, lo],
        None => seq![c],
    }
}

/// `text` with each reserved character replaced by its escape.
pub open spec fn encoded(text: Seq<char>) -> Seq<char>
    decreases text.len(),
{
    if text.len() == 0 {
        text
    } else {
        encoded_char(text[0]) + encoded(text.skip(1))
    }
}

/// An escape of a reserved character begins `text`.
pub open spec fn escape_at_front(text: Seq<char>) -> bool {
    text.len() >= 3 && text[0] == '%' && escaped_char(text[1], text[2]) is Some
}

/// `text` with each escape of a reserved character replaced by that
/// character, scanning from the left and resuming after each escape.
pub open spec fn decoded(text: Seq<char>) -> Seq<char>
    decreases text.len(),
{
    if text.len() == 0 {
        text
    } else if escape_at_front(text) {
        seq![escaped_char(text[1], text[2])->0] + decoded(text.skip(3))
    } else {
        seq![text[0]] + decoded(text.skip(1))
    }
}

/// No escape of a reserved character stands anywhere in `text`.
pub open spec fn escape_free(text: Seq<char>) -> bool {
    forall|i: int| 0 <= i <= text.len() ==> !escape_at_front(#[trigger] text.skip(i))
}

fn escape_digits_of(c: char) -> (r: Option<(char, char)>)
    ensures
        r == escape_digits(c),
{
    if c == ' ' {
        Some(('2', '0'))
    } else if c == '(' {
        Some(('2', '8'))
    } else if c == ')' {
        Some(('2', '9'))
    } else if c == '+' {
        Some(('2', 'B'))
    } else if c == '&' {
        Some(('2', '6'))
    } else if c == '\'' {
        Some(('2', '7'))
    } else if c == ',' {
        Some(('2', 'C'))
    } else {
        None
    }
}

fn escaped_char_of(hi: char, lo: char) -> (r: Option<char>)
    ensures
        r == escaped_char(hi, lo),
{
    if hi != '2' {
        None
    } else if lo == '0' {
        Some(' ')
    } else if lo == '8' {
        Some('(')
    } else if lo == '9' {
        Some(')')
    } else if lo == 'B' {
        Some('+')
    } else if lo == '6' {
        Some('&')
    } else if lo == '7' {
        Some('\'')
    } else if lo == 'C' {
        Some(',')
    } else {
        None
    }
}

/// Encodes a character sequence.
pub fn encode_chars(text: &Vec<char>) -> (out: Vec<char>)
    ensures
        out@ == encoded(text@),
{
    let mut out: Vec<char> = Vec::new();
    let mut i: usize = 0;
    assert(text@.skip(0) =~= text@);
    while i < text.len()
        invariant
            i <= text.len(),
            out@ + encoded(text@.skip(i as int)) == encoded(text@),
        decreases text.len() - i,
    {
        let ghost rest = text@.skip(i as int);
        let c = text[i];
        match escape_digits_of(c) {
            Some((hi, lo)) => {
                out.push('%');
                out.push(hi);
                out.push(lo);
            },
            None => {
                out.push(c);
            },
        }
        i += 1;
        proof {
            assert(rest.skip(1) =~= text@.skip(i as int));
        }
    }
    out
}

/// Decodes a character sequence.
pub fn decode_chars(text: &Vec<char>) -> (out: Vec<char>)
    ensures
        out@ == decoded(text@),
{
    let mut out: Vec<char> = Vec::new();
    let mut i: usize = 0;
    assert(text@.skip(0) =~= text@);
    while i < text.len()
        invariant
            i <= text.len(),
            out@ + decoded(text@.skip(i as int)) == decoded(text@),
        decreases text.len() - i,
    {
        let ghost rest = text@.skip(i as int);
        let mut step: usize = 1;
        let mut c = text[i];
        if c == '%' && text.len() - i >= 3 {
            if let Some(plain) = escaped_char_of(text[i + 1], text[i + 2]) {
                c = plain;
                step = 3;
            }
        }
        out.push(c);
        i += step;
        proof {
            assert(rest.skip(step as int) =~= text@.skip(i as int));
        }
    }
    out
}

/// Turns a display name into a path segment: each of the seven reserved
/// characters becomes its escape, in place; nothing else changes.
pub fn url_encode(text: &str) -> (r: String)
    ensures
        r@ == encoded(text@),
{
    let chars = chars_of(text);
    let out = encode_chars(&chars);
    string_of(&out)
}

/// Turns a path segment into a display name: each escape of one of the seven
/// reserved characters becomes that character; any other escape stays.
pub fn url_decode(text: &str) -> (r: String)
    ensures
        r@ == decoded(text@),
{
    let chars = chars_of(text);
    let out = decode_chars(&chars);
    string_of(&out)
}

/// `text` after each reserved character in turn has had its occurrences
/// replaced by its escape: first every space, then every opening
/// parenthesis, and so on.
pub open spec fn encoded_in_turn(text: Seq<char>) -> Seq<char> {
    let spaces = replaced(text, seq![' '], seq!['%', '2', '0']);
    let opening = replaced(spaces, seq!['('], seq!['%', '2', '8']);
    let closing = replaced(opening, seq![')'], seq!['%', '2', '9']);
    let plus = replaced(closing, seq!['+'], seq!['%', '2', 'B']);
    let ampersand = replaced(plus, seq!['&'], seq!['%', '2', '6']);
    let apostrophe = replaced(ampersand, seq!['\''], seq!['%', '2', '7']);
    replaced(apostrophe, seq![','], seq!['%', '2', 'C'])
}

/// Replacing a character throughout a text replaces it in each part of the
/// text.
proof fn lemma_replaced_char_concat(a: Seq<char>, b: Seq<char>, c: char, rep: Seq<char>)
    ensures
        replaced(a + b, seq![c], rep) == replaced(a, seq![c], rep) + replaced(b, seq![c], rep),
    decreases a.len(),
{
    if a.len() == 0 {
    } else {
        lemma_replaced_char_concat(a.skip(1), b, c, rep);
        assert((a + b).skip(1) =~= a.skip(1) + b);
        assert((a + b).subrange(0, 1) =~= a.subrange(0, 1));
    }
}

/// Replacing a character that a text does not hold changes nothing.
proof fn lemma_replaced_absent(text: Seq<char>, c: char, rep: Seq<char>)
    requires
        forall|i: int| 0 <= i < text.len() ==> text[i] != c,
    ensures
        replaced(text, seq![c], rep) == text,
    decreases text.len(),
{
    if text.len() > 0 {
        lemma_replaced_absent(text.skip(1), c, rep);
        assert(seq![c][0] == c);
    }
}

/// Replacing a character in a text that is that character alone gives the
/// replacement.
proof fn lemma_replaced_alone(c: char, rep: Seq<char>)
    ensures
        replaced(seq![c], seq![c], rep) == rep,
{
    let text = seq![c];
    assert(text.subrange(0, 1) =~= text);
    assert(replaced(text.skip(1), seq![c], rep) =~= Seq::<char>::empty());
}

/// Replacing in turn turns one character into what it is encoded as.
proof fn lemma_encoded_in_turn_char(c: char)
    ensures
        encoded_in_turn(seq![c]) == encoded_char(c),
{
    let text = seq![c];
    let s1 = replaced(text, seq![' '], seq!['%', '2', '0']);
    let s2 = replaced(s1, seq!['('], seq!['%', '2', '8']);
    let s3 = replaced(s2, seq![')'], seq!['%', '2', '9']);
    let s4 = replaced(s3, seq!['+'], seq!['%', '2', 'B']);
    let s5 = replaced(s4, seq!['&'], seq!['%', '2', '6']);
    let s6 = replaced(s5, seq!['\''], seq!['%', '2', '7']);
    if c == ' ' {
        lemma_replaced_alone(c, seq!['%', '2', '0']);
    } else {
        lemma_replaced_absent(text, ' ', seq!['%', '2', '0']);
    }
    if c == '(' {
        lemma_replaced_alone(c, seq!['%', '2', '8']);
    } else {
        lemma_replaced_absent(s1, '(', seq!['%', '2', '8']);
    }
    if c == ')' {
        lemma_replaced_alone(c, seq!['%', '2', '9']);
    } else {
        lemma_replaced_absent(s2, ')', seq!['%', '2', '9']);
    }
    if c == '+' {
        lemma_replaced_alone(c, seq!['%', '2', 'B']);
    } else {
        lemma_replaced_absent(s3, '+', seq!['%', '2', 'B']);
    }
    if c == '&' {
        lemma_replaced_alone(c, seq!['%', '2', '6']);
    } else {
        lemma_replaced_absent(s4, '&', seq!['%', '2', '6']);
    }
    if c == '\'' {
        lemma_replaced_alone(c, seq!['%', '2', '7']);
    } else {
        lemma_replaced_absent(s5, '\'', seq!['%', '2', '7']);
    }
    if c == ',' {
        lemma_replaced_alone(c, seq!['%', '2', 'C']);
    } else {
        lemma_replaced_absent(s6, ',', seq!['%', '2', 'C']);
    }
}

/// Replacing in turn throughout a text replaces in turn in each part of it.
proof fn lemma_encoded_in_turn_concat(a: Seq<char>, b: Seq<char>)
    ensures
        encoded_in_turn(a + b) == encoded_in_turn(a) + encoded_in_turn(b),
{
    let a1 = replaced(a, seq![' '], seq!['%', '2', '0']);
    let b1 = replaced(b, seq![' '], seq!['%', '2', '0']);
    lemma_replaced_char_concat(a, b, ' ', seq!['%', '2', '0']);
    let a2 = replaced(a1, seq!['('], seq!['%', '2', '8']);
    let b2 = replaced(b1, seq!['('], seq!['%', '2', '8']);
    lemma_replaced_char_concat(a1, b1, '(', seq!['%', '2', '8']);
    let a3 = replaced(a2, seq![')'], seq!['%', '2', '9']);
    let b3 = replaced(b2, seq![')'], seq!['%', '2', '9']);
    lemma_replaced_char_concat(a2, b2, ')', seq!['%', '2', '9']);
    let a4 = replaced(a3, seq!['+'], seq!['%', '2', 'B']);
    let b4 = replaced(b3, seq!['+'], seq!['%', '2', 'B']);
    lemma_replaced_char_concat(a3, b3, '+', seq!['%', '2', 'B']);
    let a5 = replaced(a4, seq!['&'], seq!['%', '2', '6']);
    let b5 = replaced(b4, seq!['&'], seq!['%', '2', '6']);
    lemma_replaced_char_concat(a4, b4, '&', seq!['%', '2', '6']);
    let a6 = replaced(a5, seq!['\''], seq!['%', '2', '7']);
    let b6 = replaced(b5, seq!['\''], seq!['%', '2', '7']);
    lemma_replaced_char_concat(a5, b5, '\'', seq!['%', '2', '7']);
    lemma_replaced_char_concat(a6, b6, ',', seq!['%', '2', 'C']);
}

/// Encoding a text is replacing each reserved character in turn, throughout
/// the text, by its escape.
pub proof fn lemma_encoded_is_replacing_in_turn(text: Seq<char>)
    ensures
        encoded(text) == encoded_in_turn(text),
    decreases text.len(),
{
    if text.len() == 0 {
    } else {
        lemma_encoded_is_replacing_in_turn(text.skip(1));
        lemma_encoded_in_turn_char(text[0]);
        lemma_encoded_in_turn_concat(seq![text[0]], text.skip(1));
        assert(seq![text[0]] + text.skip(1) =~= text);
    }
}

/// `text` after each escape in turn has had its occurrences replaced by the
/// character it stands for: first every `%20`, then every `%28`, and so on.
pub open spec fn decoded_in_turn(text: Seq<char>) -> Seq<char> {
    let spaces = replaced(text, seq!['%', '2', '0'], seq![' ']);
    let opening = replaced(spaces, seq!['%', '2', '8'], seq!['(']);
    let closing = replaced(opening, seq!['%', '2', '9'], seq![')']);
    let plus = replaced(closing, seq!['%', '2', 'B'], seq!['+']);
    let ampersand = replaced(plus, seq!['%', '2', '6'], seq!['&']);
    let apostrophe = replaced(ampersand, seq!['%', '2', '7'], seq!['\'']);
    replaced(apostrophe, seq!['%', '2', 'C'], seq![','])
}

/// The reserved characters in the order in which their escapes are replaced
/// in turn.
spec fn reserved_at(rank: nat) -> char {
    if rank == 0 {
        ' '
    } else if rank == 1 {
        '('
    } else if rank == 2 {
        ')'
    } else if rank == 3 {
        '+'
    } else if rank == 4 {
        '&'
    } else if rank == 5 {
        '\''
    } else {
        ','
    }
}

/// The escape of the reserved character of a rank.
spec fn escape_of_rank(rank: nat) -> Seq<char> {
    match escape_digits(reserved_at(rank)) {
        Some((hi, lo)) => seq!['%', hi, lo],
        None => Seq::empty(),
    }
}

/// The rank of the reserved character that an escape with these digits
/// stands for.
spec fn rank_of(hi: char, lo: char) -> Option<nat> {
    if hi != '2' {
        None
    } else if lo == '0' {
        Some(0)
    } else if lo == '8' {
        Some(1)
    } else if lo == '9' {
        Some(2)
    } else if lo == 'B' {
        Some(3)
    } else if lo == '6' {
        Some(4)
    } else if lo == '7' {
        Some(5)
    } else if lo == 'C' {
        Some(6)
    } else {
        None
    }
}

/// An escape of one of the first `count` reserved characters begins `text`.
spec fn early_escape_at_front(count: nat, text: Seq<char>) -> bool {
    text.len() >= 3 && text[0] == '%' && rank_of(text[1], text[2]) is Some && rank_of(
        text[1],
        text[2],
    )->0 < count
}

/// `text` with each escape of one of the first `count` reserved characters
/// replaced by that character, in one scan from the left.
spec fn decoded_upto(count: nat, text: Seq<char>) -> Seq<char>
    decreases text.len(),
{
    if text.len() == 0 {
        text
    } else if early_escape_at_front(count, text) {
        seq![reserved_at(rank_of(text[1], text[2])->0)] + decoded_upto(count, text.skip(3))
    } else {
        seq![text[0]] + decoded_upto(count, text.skip(1))
    }
}

/// A scan that knows no escape changes nothing.
proof fn lemma_decoded_upto_none(text: Seq<char>)
    ensures
        decoded_upto(0, text) == text,
    decreases text.len(),
{
    if text.len() > 0 {
        lemma_decoded_upto_none(text.skip(1));
    }
}

/// A scan that knows every escape decodes.
proof fn lemma_decoded_upto_all(text: Seq<char>)
    ensures
        decoded_upto(7, text) == decoded(text),
    decreases text.len(),
{
    if text.len() > 0 {
        if escape_at_front(text) {
            lemma_decoded_upto_all(text.skip(3));
        } else {
            lemma_decoded_upto_all(text.skip(1));
        }
    }
}

/// How a scanned text begins: where the scan gives a character that is not
/// reserved, the text began with it and was scanned on behind it.
proof fn lemma_decoded_upto_front(count: nat, text: Seq<char>)
    ensures
        text.len() == 0 ==> decoded_upto(count, text).len() == 0,
        text.len() > 0 ==> decoded_upto(count, text).len() > 0,
        text.len() > 0 && !is_reserved(decoded_upto(count, text)[0]) ==> decoded_upto(
            count,
            text,
        )[0] == text[0] && decoded_upto(count, text).skip(1) == decoded_upto(count, text.skip(1)),
{
}

/// Replacing the escape of the next reserved character in a text that was
/// scanned for the escapes before it is scanning for one escape more.
proof fn lemma_decoded_upto_next(count: nat, text: Seq<char>)
    requires
        count < 7,
    ensures
        replaced(decoded_upto(count, text), escape_of_rank(count), seq![reserved_at(count)])
            == decoded_upto(count + 1, text),
    decreases text.len(),
{
    let pat = escape_of_rank(count);
    let rep = seq![reserved_at(count)];
    let out = decoded_upto(count, text);
    if text.len() > 0 {
        if early_escape_at_front(count, text) {
            let rest = decoded_upto(count, text.skip(3));
            lemma_decoded_upto_next(count, text.skip(3));
            assert(!occurs_at(out, pat, 0));
            lemma_replaced_passes(out, pat, rep);
            assert(out.skip(1) =~= rest);
        } else if early_escape_at_front(count + 1, text) {
            let rest = decoded_upto(count, text.skip(3));
            lemma_decoded_upto_next(count, text.skip(3));
            assert(text.skip(1).skip(1) =~= text.skip(2));
            assert(text.skip(2).skip(1) =~= text.skip(3));
            let behind1 = decoded_upto(count, text.skip(1));
            let behind2 = decoded_upto(count, text.skip(2));
            assert(out.subrange(0, 3) =~= pat);
            assert(out.skip(3) =~= rest);
        } else {
            let rest = decoded_upto(count, text.skip(1));
            lemma_decoded_upto_next(count, text.skip(1));
            assert(out.skip(1) =~= rest);
            assert(!occurs_at(out, pat, 0)) by {
                if out.len() >= 3 && out.subrange(0, 3) == pat {
                    lemma_decoded_upto_front(count, text.skip(1));
                    lemma_decoded_upto_front(count, text.skip(2));
                }
            }
            lemma_replaced_passes(out, pat, rep);
        }
    }
}

/// Decoding a text is replacing each escape in turn, throughout the text, by
/// the character it stands for.
pub proof fn lemma_decoded_is_replacing_in_turn(text: Seq<char>)
    ensures
        decoded(text) == decoded_in_turn(text),
{
    lemma_decoded_upto_none(text);
    lemma_decoded_upto_next(0, text);
    lemma_decoded_upto_next(1, text);
    lemma_decoded_upto_next(2, text);
    lemma_decoded_upto_next(3, text);
    lemma_decoded_upto_next(4, text);
    lemma_decoded_upto_next(5, text);
    lemma_decoded_upto_next(6, text);
    lemma_decoded_upto_all(text);
}

/// Decoding undoes encoding on every text in which no escape of a reserved
/// character stands.
pub proof fn lemma_decode_encode_escape_free(text: Seq<char>)
    requires
        escape_free(text),
    ensures
        decoded(encoded(text)) == text,
    decreases text.len(),
{
    if text.len() > 0 {
        let tail = text.skip(1);
        assert(escape_free(tail)) by {
            assert forall|i: int| 0 <= i <= tail.len() implies !escape_at_front(
                #[trigger] tail.skip(i),
            ) by {
                assert(tail.skip(i) =~= text.skip(i + 1));
            }
        }
        lemma_decode_encode_escape_free(tail);
        let enc = encoded(text);
        let c = text[0];
        if is_reserved(c) {
            assert(enc.skip(3) =~= encoded(tail));
        } else {
            assert(enc.skip(1) =~= encoded(tail));
            assert(!escape_at_front(enc)) by {
                if c == '%' && enc.len() >= 3 {
                    assert(text.skip(0) =~= text);
                    lemma_encoded_front(tail);
                    if tail.len() >= 1 && !is_reserved(tail[0]) {
                        lemma_encoded_front(tail.skip(1));
                    }
                }
            }
        }
    }
}

/// Decoding undoes encoding on every text made of reserved characters only.
pub proof fn lemma_decode_encode_reserved(text: Seq<char>)
    requires
        forall|i: int| 0 <= i < text.len() ==> is_reserved(#[trigger] text[i]),
    ensures
        decoded(encoded(text)) == text,
{
    assert forall|i: int| 0 <= i <= text.len() implies !escape_at_front(
        #[trigger] text.skip(i),
    ) by {
    }
    lemma_decode_encode_escape_free(text);
}

/// How an encoded text begins: with `%` where the plain text begins with a
/// reserved character, with the plain text's first character otherwise.
proof fn lemma_encoded_front(text: Seq<char>)
    ensures
        text.len() == 0 ==> encoded(text).len() == 0,
        text.len() > 0 && is_reserved(text[0]) ==> encoded(text).len() >= 3 && encoded(text)[0]
            == '%',
        text.len() > 0 && !is_reserved(text[0]) ==> encoded(text).len() >= 1 && encoded(text)[0]
            == text[0] && encoded(text).skip(1) == encoded(text.skip(1)),
{
}

} // verus!
