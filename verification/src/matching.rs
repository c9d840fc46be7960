//! The match scorer: which of several file names a title most likely means.

use vstd::prelude::*;
use crate::codec::{decode_chars, decoded};
use crate::text::{chars_of, contains, has_infix, lowercase, same_chars, split_words, to_lower, words};
use crate::title::{strip_extensions, without_archive_extensions};

verus! {

/// How many different words of `query` are also words of `candidate`.
pub open spec fn shared_words(query: Seq<Seq<char>>, candidate: Seq<Seq<char>>) -> nat {
    query.to_set().intersect(candidate.to_set()).len()
}

/// How many different words of the title are words of the name, letter case
/// set aside.
pub open spec fn word_overlap(title: Seq<char>, name: Seq<char>) -> nat {
    shared_words(words(lowercase(title)), words(lowercase(name)))
}

/// What a name earns by its region tag. Only the first tag that is found in
/// this order counts: `(USA)` or `(US)`, `(North America)`, `(Europe)`,
/// `(Asia)`.
pub open spec fn region_bonus(name: Seq<char>) -> nat {
    if contains(name, "(USA)"@) || contains(name, "(US)"@) {
        10
    } else if contains(name, "(North America)"@) {
        8
    } else if contains(name, "(Europe)"@) {
        2
    } else if contains(name, "(Asia)"@) {
        1
    } else {
        0
    }
}

/// What a name earns by the language tag `(En)`.
pub open spec fn language_bonus(name: Seq<char>) -> nat {
    if contains(name, "(En)"@) {
        3
    } else {
        0
    }
}

/// The name that a target is scored by: the target decoded, without its
/// archive extensions.
pub open spec fn scored_name(href: Seq<char>) -> Seq<char> {
    without_archive_extensions(decoded(href))
}

/// The score of a target for a title: the word overlap, plus the region
/// bonus, plus the language bonus.
pub open spec fn match_score(title: Seq<char>, href: Seq<char>) -> nat {
    word_overlap(title, scored_name(href)) + region_bonus(scored_name(href)) + language_bonus(
        scored_name(href),
    )
}

/// Candidate `i` has the highest score, and is the first to have it.
pub open spec fn is_best_match(title: Seq<char>, candidates: Seq<Seq<char>>, i: int) -> bool {
    &&& 0 <= i < candidates.len()
    &&& forall|j: int|
        0 <= j < candidates.len() ==> match_score(title, #[trigger] candidates[j]) <= match_score(
            title,
            candidates[i],
        )
    &&& forall|j: int|
        0 <= j < i ==> match_score(title, #[trigger] candidates[j]) < match_score(
            title,
            candidates[i],
        )
}

/// At most one candidate is the best match.
pub proof fn lemma_best_match_is_unique(
    title: Seq<char>,
    candidates: Seq<Seq<char>>,
    i: int,
    j: int,
)
    requires
        is_best_match(title, candidates, i),
        is_best_match(title, candidates, j),
    ensures
        i == j,
{
    if i < j {
    } else if j < i {
        assert(match_score(title, candidates[i]) <= match_score(title, candidates[j]));
    }
}

/// One more word of the query adds one to the shared words where it is new
/// and the candidate has it, and nothing otherwise.
proof fn lemma_shared_words_push(seen: Seq<Seq<char>>, word: Seq<char>, candidate: Seq<Seq<char>>)
    ensures
        shared_words(seen.push(word), candidate) == shared_words(seen, candidate) + (if !seen.contains(
            word,
        ) && candidate.contains(word) {
            1nat
        } else {
            0nat
        }),
{
    let old_set = seen.to_set();
    let cand = candidate.to_set();
    vstd::seq_lib::seq_to_set_is_finite(seen);
    vstd::seq_lib::seq_to_set_is_finite(candidate);
    assert(seen.push(word).to_set() =~= old_set.insert(word)) by {
        assert forall|w: Seq<char>| seen.push(word).to_set().contains(w) implies old_set.insert(
            word,
        ).contains(w) by {
            let k = choose|k: int| 0 <= k < seen.push(word).len() && seen.push(word)[k] == w;
        }
        assert forall|w: Seq<char>| old_set.insert(word).contains(w) implies seen.push(
            word,
        ).to_set().contains(w) by {
            if w == word {
                assert(seen.push(word)[seen.len() as int] == w);
            } else {
                let k = choose|k: int| 0 <= k < seen.len() && seen[k] == w;
                assert(seen.push(word)[k] == w);
            }
        }
    }
    let common = old_set.intersect(cand);
    if !seen.contains(word) && candidate.contains(word) {
        assert(old_set.insert(word).intersect(cand) =~= common.insert(word));
    } else if seen.contains(word) {
        assert(old_set.insert(word) =~= old_set);
    } else {
        assert(old_set.insert(word).intersect(cand) =~= common);
    }
}

/// Whether `word` is among the first `end` of `list`.
fn holds_word(list: &Vec<Vec<char>>, end: usize, word: &Vec<char>) -> (found: bool)
    requires
        end <= list.len(),
    ensures
        found == list.deep_view().take(end as int).contains(word@),
{
    let ghost all = list.deep_view();
    let mut i: usize = 0;
    while i < end
        invariant
            i <= end <= list.len(),
            all == list.deep_view(),
            forall|k: int| 0 <= k < i ==> all[k] != word@,
        decreases end - i,
    {
        assert(all[i as int] =~= list[i as int]@);
        if same_chars(&list[i], word) {
            assert(all.take(end as int)[i as int] == word@);
            return true;
        }
        i += 1;
    }
    false
}

/// Counts the different words of `query` that are words of `candidate`.
fn count_shared(query: &Vec<Vec<char>>, candidate: &Vec<Vec<char>>) -> (count: usize)
    ensures
        count == shared_words(query.deep_view(), candidate.deep_view()),
        count <= query.len(),
{
    let ghost q = query.deep_view();
    let ghost c = candidate.deep_view();
    let mut count: usize = 0;
    let mut i: usize = 0;
    assert(q.take(0).to_set().intersect(c.to_set()) =~= Set::<Seq<char>>::empty());
    while i < query.len()
        invariant
            i <= query.len(),
            q == query.deep_view(),
            c == candidate.deep_view(),
            count == shared_words(q.take(i as int), c),
            count <= i,
        decreases query.len() - i,
    {
        assert(q[i as int] =~= query[i as int]@);
        assert(q.take(i + 1) =~= q.take(i as int).push(q[i as int]));
        assert(c.take(candidate.len() as int) =~= c);
        proof {
            lemma_shared_words_push(q.take(i as int), q[i as int], c);
        }
        if !holds_word(query, i, &query[i]) && holds_word(candidate, candidate.len(), &query[i]) {
            count += 1;
        }
        i += 1;
    }
    assert(q.take(query.len() as int) =~= q);
    count
}

/// The score of the target `href` for the search key `title`.
pub fn score_match(title: &str, href: &str) -> (score: u64)
    ensures
        score == match_score(title@, href@),
{
    let name = strip_extensions(&decode_chars(&chars_of(href)));
    let title_words = split_words(&to_lower(&chars_of(title)));
    let name_words = split_words(&to_lower(&name));
    let mut score: u64 = count_shared(&title_words, &name_words) as u64;
    if has_infix(&name, &chars_of("(USA)")) || has_infix(&name, &chars_of("(US)")) {
        score += 10;
    } else if has_infix(&name, &chars_of("(North America)")) {
        score += 8;
    } else if has_infix(&name, &chars_of("(Europe)")) {
        score += 2;
    } else if has_infix(&name, &chars_of("(Asia)")) {
        score += 1;
    }
    if has_infix(&name, &chars_of("(En)")) {
        score += 3;
    }
    score
}

/// Picks, among the targets that were found for a title, the one with the
/// highest score; of several with that score, the first. Without candidates
/// there is no match.
pub fn select_best_match(game_title: &str, matches: &Vec<String>) -> (best: Option<String>)
    ensures
        match best {
            Some(href) => exists|i: int|
                is_best_match(game_title@, matches.deep_view(), i) && href@
                    == #[trigger] matches.deep_view()[i],
            None => matches.len() == 0,
        },
{
    if matches.len() == 0 {
        return None;
    }
    let ghost all = matches.deep_view();
    let mut best: usize = 0;
    let mut best_score: u64 = score_match(game_title, matches[0].as_str());
    let mut i: usize = 1;
    while i < matches.len()
        invariant
            1 <= i <= matches.len(),
            all == matches.deep_view(),
            best < i,
            best_score == match_score(game_title@, all[best as int]),
            forall|j: int|
                0 <= j < i ==> match_score(game_title@, #[trigger] all[j]) <= best_score,
            forall|j: int|
                0 <= j < best ==> match_score(game_title@, #[trigger] all[j]) < best_score,
        decreases matches.len() - i,
    {
        let score = score_match(game_title, matches[i].as_str());
        if score > best_score {
            best = i;
            best_score = score;
        }
        i += 1;
    }
    Some(matches[best].clone())
}

} // verus!
