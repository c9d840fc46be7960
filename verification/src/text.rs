//! Character-sequence primitives shared by the rest of the crate.
//!
//! Every string is reasoned about through its view, a `Seq<char>`. The
//! executable functions work on `Vec<char>`, so that scanning a text costs
//! time linear in its length.

use vstd::prelude::*;
use vstd::string::StringExecFns;

verus! {

/// `String::push` appends exactly one character to the end of the string.
pub assume_specification[ String::push ](s: &mut String, c: char)
    ensures
        final(s)@ == old(s)@.push(c),
;

/// `c` has the Unicode property `White_Space`: it is one of the controls
/// from tab to carriage return, the space, the next-line control, the
/// no-break space, the ogham space mark, one of the spaces from en quad to
/// hair space, a line or paragraph separator, the narrow no-break space, the
/// medium mathematical space or the ideographic space.
pub open spec fn is_white_space(c: char) -> bool {
    ||| '\u{9}' <= c <= '\u{d}'
    ||| c == ' '
    ||| c == '\u{85}'
    ||| c == '\u{a0}'
    ||| c == '\u{1680}'
    ||| '\u{2000}' <= c <= '\u{200a}'
    ||| c == '\u{2028}'
    ||| c == '\u{2029}'
    ||| c == '\u{202f}'
    ||| c == '\u{205f}'
    ||| c == '\u{3000}'
}

/// `char::is_whitespace` reports whether the character has the Unicode
/// property `White_Space`.
pub assume_specification[ char::is_whitespace ](c: char) -> (b: bool)
    ensures
        b == is_white_space(c),
;

/// The lowercase form of `text` under the Unicode case mappings, which is what
/// `str::to_lowercase` returns.
pub uninterp spec fn lowercase(text: Seq<char>) -> Seq<char>;

/// `str::to_lowercase` depends on the characters of the text alone.
pub assume_specification[ str::to_lowercase ](s: &str) -> (r: String)
    ensures
        r@ == lowercase(s@),
;

/// `pat` stands in `hay` at position `i`.
pub open spec fn occurs_at(hay: Seq<char>, pat: Seq<char>, i: int) -> bool {
    &&& 0 <= i
    &&& i + pat.len() <= hay.len()
    &&& hay.subrange(i, i + pat.len()) == pat
}

/// `hay` begins with `pat`.
pub open spec fn starts_with(hay: Seq<char>, pat: Seq<char>) -> bool {
    occurs_at(hay, pat, 0)
}

/// `hay` ends with `pat`.
pub open spec fn ends_with(hay: Seq<char>, pat: Seq<char>) -> bool {
    occurs_at(hay, pat, hay.len() - pat.len())
}

/// `pat` stands somewhere in `hay`.
pub open spec fn contains(hay: Seq<char>, pat: Seq<char>) -> bool {
    exists|i: int| occurs_at(hay, pat, i)
}

/// `hay` with every occurrence of `pat` replaced by `rep`, scanning from the
/// left and resuming after each occurrence. An empty `pat` replaces nothing.
pub open spec fn replaced(hay: Seq<char>, pat: Seq<char>, rep: Seq<char>) -> Seq<char>
    decreases hay.len(),
{
    if pat.len() == 0 || hay.len() < pat.len() {
        hay
    } else if occurs_at(hay, pat, 0) {
        rep + replaced(hay.skip(pat.len() as int), pat, rep)
    } else {
        seq![hay[0]] + replaced(hay.skip(1), pat, rep)
    }
}

/// `text` without the characters `c` that end it.
pub open spec fn without_trailing(text: Seq<char>, c: char) -> Seq<char>
    decreases text.len(),
{
    if text.len() > 0 && text.last() == c {
        without_trailing(text.drop_last(), c)
    } else {
        text
    }
}

/// How many characters precede the first white space of `text`.
pub open spec fn word_len(text: Seq<char>) -> nat
    decreases text.len(),
{
    if text.len() == 0 || is_white_space(text[0]) {
        0
    } else {
        1 + word_len(text.skip(1))
    }
}

/// The words of `text`: its maximal runs of characters that are no white
/// space, in order.
pub open spec fn words(text: Seq<char>) -> Seq<Seq<char>>
    decreases text.len(),
{
    if text.len() == 0 {
        Seq::empty()
    } else if is_white_space(text[0]) {
        words(text.skip(1))
    } else {
        proof {
            lemma_word_len_bounds(text);
        }
        seq![text.take(word_len(text) as int)] + words(text.skip(word_len(text) as int))
    }
}

/// A word is no longer than the text it begins, and not empty where the text
/// begins with a character that is no white space.
pub proof fn lemma_word_len_bounds(text: Seq<char>)
    ensures
        word_len(text) <= text.len(),
        text.len() > 0 && !is_white_space(text[0]) ==> word_len(text) >= 1,
    decreases text.len(),
{
    if text.len() > 0 && !is_white_space(text[0]) {
        lemma_word_len_bounds(text.skip(1));
    }
}

/// The parts, with `sep` between each two neighbours.
pub open spec fn joined(parts: Seq<Seq<char>>, sep: Seq<char>) -> Seq<char>
    decreases parts.len(),
{
    if parts.len() == 0 {
        Seq::empty()
    } else if parts.len() == 1 {
        parts[0]
    } else {
        joined(parts.drop_last(), sep) + sep + parts.last()
    }
}

/// `text` with every run of white space turned into one space, and none at
/// either end.
pub open spec fn single_spaced(text: Seq<char>) -> Seq<char> {
    joined(words(text), seq![' '])
}

/// `text` without the white space that begins it.
pub open spec fn without_leading_space(text: Seq<char>) -> Seq<char>
    decreases text.len(),
{
    if text.len() > 0 && is_white_space(text[0]) {
        without_leading_space(text.skip(1))
    } else {
        text
    }
}

/// `text` without the white space that ends it.
pub open spec fn without_trailing_space(text: Seq<char>) -> Seq<char>
    decreases text.len(),
{
    if text.len() > 0 && is_white_space(text.last()) {
        without_trailing_space(text.drop_last())
    } else {
        text
    }
}

/// `text` without the white space at either end.
pub open spec fn trimmed(text: Seq<char>) -> Seq<char> {
    without_trailing_space(without_leading_space(text))
}

/// How many characters precede the first `sep` of `text`.
pub open spec fn field_len(text: Seq<char>, sep: char) -> nat
    decreases text.len(),
{
    if text.len() == 0 || text[0] == sep {
        0
    } else {
        1 + field_len(text.skip(1), sep)
    }
}

/// `line` without the carriage return that ends it, if one does.
pub open spec fn without_carriage_return(line: Seq<char>) -> Seq<char> {
    if line.len() > 0 && line.last() == '\r' {
        line.drop_last()
    } else {
        line
    }
}

/// The lines of `text`. A line ends at a line feed, or at the end of the
/// text; a carriage return just before the line feed belongs to the line
/// ending. A text that ends in a line feed has no empty last line.
pub open spec fn lines(text: Seq<char>) -> Seq<Seq<char>>
    decreases text.len(),
{
    if text.len() == 0 {
        Seq::empty()
    } else if field_len(text, '\n') < text.len() {
        seq![without_carriage_return(text.take(field_len(text, '\n') as int))] + lines(
            text.skip(field_len(text, '\n') as int + 1),
        )
    } else {
        seq![text]
    }
}

/// The fields of `text`: what stands before, between and after the
/// occurrences of `sep`. There is always at least one field.
pub open spec fn fields(text: Seq<char>, sep: char) -> Seq<Seq<char>>
    decreases text.len(),
{
    if field_len(text, sep) < text.len() {
        seq![text.take(field_len(text, sep) as int)] + fields(
            text.skip(field_len(text, sep) as int + 1),
            sep,
        )
    } else {
        seq![text]
    }
}

/// The characters of `s`, in order.
pub fn chars_of(s: &str) -> (v: Vec<char>)
    ensures
        v@ == s@,
{
    let mut v: Vec<char> = Vec::new();
    for c in it: s.chars()
        invariant
            it.seq() == s@,
            v@ == s@.take(it.index() as int),
    {
        v.push(c);
    }
    v
}

/// The string whose characters are `v`, in order.
pub fn string_of(v: &Vec<char>) -> (s: String)
    ensures
        s@ == v@,
{
    let mut s = String::new();
    let mut i: usize = 0;
    while i < v.len()
        invariant
            i <= v.len(),
            s@ == v@.take(i as int),
        decreases v.len() - i,
    {
        s.push(v[i]);
        i += 1;
    }
    s
}

/// `a` followed by `b`.
pub fn followed_by(a: &str, b: &str) -> (r: String)
    ensures
        r@ == a@ + b@,
{
    let mut r = a.to_owned();
    r.append(b);
    r
}

/// Whether `pat` stands in `hay` at position `i`.
pub fn matches_at(hay: &Vec<char>, pat: &Vec<char>, i: usize) -> (b: bool)
    ensures
        b == occurs_at(hay@, pat@, i as int),
{
    if pat.len() > hay.len() || i > hay.len() - pat.len() {
        return false;
    }
    let mut k: usize = 0;
    while k < pat.len()
        invariant
            k <= pat.len(),
            i + pat.len() <= hay.len(),
            forall|j: int| 0 <= j < k ==> hay@[i + j] == pat@[j],
        decreases pat.len() - k,
    {
        if hay[i + k] != pat[k] {
            return false;
        }
        k += 1;
    }
    assert(hay@.subrange(i as int, i + pat.len()) =~= pat@);
    true
}

/// Whether `hay` begins with `pat`.
pub fn has_prefix(hay: &Vec<char>, pat: &Vec<char>) -> (b: bool)
    ensures
        b == starts_with(hay@, pat@),
{
    matches_at(hay, pat, 0)
}

/// Whether `hay` ends with `pat`.
pub fn has_suffix(hay: &Vec<char>, pat: &Vec<char>) -> (b: bool)
    ensures
        b == ends_with(hay@, pat@),
{
    if pat.len() > hay.len() {
        return false;
    }
    matches_at(hay, pat, hay.len() - pat.len())
}

/// Whether `pat` stands somewhere in `hay`.
pub fn has_infix(hay: &Vec<char>, pat: &Vec<char>) -> (b: bool)
    ensures
        b == contains(hay@, pat@),
{
    if pat.len() > hay.len() {
        return false;
    }
    let last: usize = hay.len() - pat.len();
    let mut i: usize = 0;
    while i <= last
        invariant
            i <= last + 1,
            last == hay.len() - pat.len(),
            forall|j: int| 0 <= j < i ==> !occurs_at(hay@, pat@, j),
        decreases last + 1 - i,
    {
        if matches_at(hay, pat, i) {
            return true;
        }
        if i == last {
            return false;
        }
        i += 1;
    }
    false
}

/// `hay` with every occurrence of `pat` replaced by `rep`.
pub fn replace_all(hay: &Vec<char>, pat: &Vec<char>, rep: &Vec<char>) -> (out: Vec<char>)
    ensures
        out@ == replaced(hay@, pat@, rep@),
{
    let mut out: Vec<char> = Vec::new();
    if pat.len() == 0 {
        append(&mut out, hay, 0, hay.len());
        return out;
    }
    let mut i: usize = 0;
    assert(out@ + replaced(hay@.skip(0), pat@, rep@) =~= replaced(hay@, pat@, rep@)) by {
        assert(hay@.skip(0) =~= hay@);
    }
    while i < hay.len()
        invariant
            i <= hay.len(),
            pat.len() > 0,
            out@ + replaced(hay@.skip(i as int), pat@, rep@) == replaced(hay@, pat@, rep@),
        decreases hay.len() - i,
    {
        let ghost rest = hay@.skip(i as int);
        if matches_at(hay, pat, i) {
            proof {
                assert(rest.subrange(0, pat@.len() as int) =~= hay@.subrange(
                    i as int,
                    i + pat@.len(),
                ));
                assert(rest.skip(pat@.len() as int) =~= hay@.skip(i + pat@.len()));
            }
            append(&mut out, rep, 0, rep.len());
            i += pat.len();
        } else {
            proof {
                if rest.len() >= pat@.len() {
                    assert(rest.subrange(0, pat@.len() as int) =~= hay@.subrange(
                        i as int,
                        i + pat@.len(),
                    ));
                }
                assert(rest.skip(1) =~= hay@.skip(i + 1));
                lemma_replaced_passes(rest, pat@, rep@);
            }
            out.push(hay[i]);
            i += 1;
        }
    }
    out
}

/// Whether two character sequences are the same.
pub fn same_chars(a: &Vec<char>, b: &Vec<char>) -> (r: bool)
    ensures
        r == (a@ == b@),
{
    if a.len() != b.len() {
        return false;
    }
    let r = matches_at(a, b, 0);
    assert(a@.subrange(0, a@.len() as int) =~= a@);
    r
}

/// `text` without the characters `c` that end it.
pub fn trim_trailing(text: &Vec<char>, c: char) -> (out: Vec<char>)
    ensures
        out@ == without_trailing(text@, c),
{
    let mut end: usize = text.len();
    assert(text@.take(end as int) =~= text@);
    while end > 0 && text[end - 1] == c
        invariant
            end <= text.len(),
            without_trailing(text@.take(end as int), c) == without_trailing(text@, c),
        decreases end,
    {
        assert(text@.take(end as int).drop_last() =~= text@.take(end - 1));
        end -= 1;
    }
    let mut out: Vec<char> = Vec::new();
    append(&mut out, text, 0, end);
    out
}

/// The lowercase form of `text`.
pub fn to_lower(text: &Vec<char>) -> (out: Vec<char>)
    ensures
        out@ == lowercase(text@),
{
    let s = string_of(text);
    let lower = s.as_str().to_lowercase();
    chars_of(lower.as_str())
}

/// The words of `text`, in order.
pub fn split_words(text: &Vec<char>) -> (out: Vec<Vec<char>>)
    ensures
        out.deep_view() == words(text@),
        2 * out.len() <= text.len() + 1,
{
    let mut out: Vec<Vec<char>> = Vec::new();
    let mut i: usize = 0;
    assert(text@.skip(0) =~= text@);
    while i < text.len()
        invariant
            i <= text.len(),
            out.deep_view() + words(text@.skip(i as int)) == words(text@),
            2 * out.len() <= i + 1,
            i < text.len() && !is_white_space(text@[i as int]) ==> 2 * out.len() <= i,
        decreases text.len() - i,
    {
        let ghost rest = text@.skip(i as int);
        if text[i].is_whitespace() {
            assert(rest.skip(1) =~= text@.skip(i + 1));
            i += 1;
        } else {
            let mut j: usize = i + 1;
            assert(rest.skip(1) =~= text@.skip(j as int));
            while j < text.len() && !text[j].is_whitespace()
                invariant
                    i < j <= text.len(),
                    word_len(text@.skip(i as int)) == (j - i) + word_len(text@.skip(j as int)),
                decreases text.len() - j,
            {
                assert(text@.skip(j as int).skip(1) =~= text@.skip(j + 1));
                j += 1;
            }
            let mut word: Vec<char> = Vec::new();
            append(&mut word, text, i, j);
            assert(word@ =~= rest.take(word_len(rest) as int));
            assert(rest.skip(word_len(rest) as int) =~= text@.skip(j as int));
            assert(word.deep_view() =~= word@);
            out.push(word);
            i = j;
        }
    }
    out
}

/// The parts, with `sep` between each two neighbours.
pub fn join_parts(parts: &Vec<Vec<char>>, sep: &Vec<char>) -> (out: Vec<char>)
    ensures
        out@ == joined(parts.deep_view(), sep@),
{
    let ghost all = parts.deep_view();
    let mut out: Vec<char> = Vec::new();
    let mut i: usize = 0;
    while i < parts.len()
        invariant
            i <= parts.len(),
            all == parts.deep_view(),
            out@ == joined(all.take(i as int), sep@),
        decreases parts.len() - i,
    {
        assert(all.take(i + 1).drop_last() =~= all.take(i as int));
        if i > 0 {
            append(&mut out, sep, 0, sep.len());
        }
        let part = &parts[i];
        append(&mut out, part, 0, part.len());
        i += 1;
    }
    assert(all.take(parts.len() as int) =~= all);
    out
}

/// `text` with every run of white space turned into one space, and none at
/// either end.
pub fn squeeze_spaces(text: &Vec<char>) -> (out: Vec<char>)
    ensures
        out@ == single_spaced(text@),
{
    let parts = split_words(text);
    let mut sep: Vec<char> = Vec::new();
    sep.push(' ');
    join_parts(&parts, &sep)
}

/// `text` without the white space at either end.
pub fn trim(text: &Vec<char>) -> (out: Vec<char>)
    ensures
        out@ == trimmed(text@),
{
    let mut start: usize = 0;
    assert(text@.skip(0) =~= text@);
    while start < text.len() && text[start].is_whitespace()
        invariant
            start <= text.len(),
            without_leading_space(text@.skip(start as int)) == without_leading_space(text@),
        decreases text.len() - start,
    {
        assert(text@.skip(start as int).skip(1) =~= text@.skip(start + 1));
        start += 1;
    }
    let ghost rest = text@.skip(start as int);
    let mut end: usize = text.len();
    while end > start && text[end - 1].is_whitespace()
        invariant
            start <= end <= text.len(),
            without_trailing_space(text@.subrange(start as int, end as int))
                == without_trailing_space(rest),
        decreases end,
    {
        assert(text@.subrange(start as int, end as int).drop_last() =~= text@.subrange(
            start as int,
            end - 1,
        ));
        end -= 1;
    }
    let mut out: Vec<char> = Vec::new();
    append(&mut out, text, start, end);
    out
}

/// The lines of `text`, in order.
pub fn split_lines(text: &Vec<char>) -> (out: Vec<Vec<char>>)
    ensures
        out.deep_view() == lines(text@),
{
    let mut out: Vec<Vec<char>> = Vec::new();
    let mut i: usize = 0;
    assert(text@.skip(0) =~= text@);
    while i < text.len()
        invariant
            i <= text.len(),
            out.deep_view() + lines(text@.skip(i as int)) == lines(text@),
        decreases text.len() - i,
    {
        let ghost rest = text@.skip(i as int);
        let mut j: usize = i;
        while j < text.len() && text[j] != '\n'
            invariant
                i <= j <= text.len(),
                field_len(text@.skip(i as int), '\n') == (j - i) + field_len(text@.skip(j as int), '\n'),
            decreases text.len() - j,
        {
            assert(text@.skip(j as int).skip(1) =~= text@.skip(j + 1));
            j += 1;
        }
        let mut line: Vec<char> = Vec::new();
        if j < text.len() {
            let end: usize = if j > i && text[j - 1] == '\r' {
                j - 1
            } else {
                j
            };
            append(&mut line, text, i, end);
            assert(line@ =~= without_carriage_return(rest.take(field_len(rest, '\n') as int)));
            assert(rest.skip(field_len(rest, '\n') as int + 1) =~= text@.skip(j + 1));
            i = j + 1;
        } else {
            append(&mut line, text, i, j);
            i = j;
        }
        assert(line.deep_view() =~= line@);
        out.push(line);
    }
    out
}

/// The fields of `text`, in order.
pub fn split_fields(text: &Vec<char>, sep: char) -> (out: Vec<Vec<char>>)
    ensures
        out.deep_view() == fields(text@, sep),
{
    let mut out: Vec<Vec<char>> = Vec::new();
    let mut i: usize = 0;
    assert(text@.skip(0) =~= text@);
    loop
        invariant
            i <= text.len(),
            out.deep_view() + fields(text@.skip(i as int), sep) == fields(text@, sep),
        decreases text.len() - i,
    {
        let ghost rest = text@.skip(i as int);
        let mut j: usize = i;
        while j < text.len() && text[j] != sep
            invariant
                i <= j <= text.len(),
                field_len(text@.skip(i as int), sep) == (j - i) + field_len(
                    text@.skip(j as int),
                    sep,
                ),
            decreases text.len() - j,
        {
            assert(text@.skip(j as int).skip(1) =~= text@.skip(j + 1));
            j += 1;
        }
        let mut field: Vec<char> = Vec::new();
        append(&mut field, text, i, j);
        assert(field.deep_view() =~= field@);
        if j < text.len() {
            assert(field@ =~= rest.take(field_len(rest, sep) as int));
            assert(rest.skip(field_len(rest, sep) as int + 1) =~= text@.skip(j + 1));
            out.push(field);
            i = j + 1;
        } else {
            out.push(field);
            return out;
        }
    }
}

/// Appends `src[from..to]` to `dst`.
pub fn append(dst: &mut Vec<char>, src: &Vec<char>, from: usize, to: usize)
    requires
        from <= to <= src.len(),
    ensures
        final(dst)@ == old(dst)@ + src@.subrange(from as int, to as int),
{
    let mut i: usize = from;
    while i < to
        invariant
            from <= i <= to <= src.len(),
            dst@ == old(dst)@ + src@.subrange(from as int, i as int),
        decreases to - i,
    {
        dst.push(src[i]);
        i += 1;
    }
}

/// Where the pattern does not stand at the front of a text, replacing keeps
/// the first character and goes on behind it.
pub proof fn lemma_replaced_passes(hay: Seq<char>, pat: Seq<char>, rep: Seq<char>)
    requires
        hay.len() > 0,
        pat.len() > 0,
        !occurs_at(hay, pat, 0),
    ensures
        replaced(hay, pat, rep) == seq![hay[0]] + replaced(hay.skip(1), pat, rep),
{
}

} // verus!
