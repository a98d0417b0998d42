//! The built-in word source.

use crate::text::same_text;
use crate::word_provider::line::{lemma_total_chars_push, total_chars};
use crate::word_provider::{answer_view, WordError};
use vstd::prelude::*;

verus! {

/// The English words, the most common first.
pub open spec fn english() -> Seq<Seq<char>> {
    seq![
        "the"@,
        "of"@,
        "and"@,
        "to"@,
        "in"@,
        "is"@,
        "you"@,
        "that"@,
        "it"@,
        "he"@,
        "was"@,
        "for"@,
        "on"@,
        "are"@,
        "as"@,
        "with"@,
        "his"@,
        "they"@,
        "at"@,
        "be"@,
        "this"@,
        "have"@,
        "from"@,
        "or"@,
        "one"@,
        "had"@,
        "by"@,
        "word"@,
        "but"@,
        "not"@,
        "what"@,
        "all"@,
        "were"@,
        "we"@,
        "when"@,
        "your"@,
        "can"@,
        "said"@,
        "there"@,
        "use"@,
        "an"@,
        "each"@,
        "which"@,
        "she"@,
        "do"@,
        "how"@,
        "their"@,
        "if"@,
        "will"@,
        "up"@,
        "other"@,
        "about"@,
        "out"@,
        "many"@,
        "then"@,
        "them"@,
        "these"@,
        "so"@,
        "some"@,
        "her"@,
        "would"@,
        "make"@,
        "like"@,
        "him"@,
        "into"@,
        "time"@,
        "has"@,
        "look"@,
        "two"@,
        "more"@,
        "write"@,
        "go"@,
        "see"@,
        "number"@,
        "no"@,
        "way"@,
        "could"@,
        "people"@,
        "my"@,
        "than"@,
        "first"@,
        "water"@,
        "been"@,
        "call"@,
        "who"@,
        "oil"@,
        "its"@,
        "now"@,
        "find"@,
        "long"@,
        "down"@,
        "day"@,
        "did"@,
        "get"@,
        "come"@,
        "made"@,
        "may"@,
        "part"@,
    ]
}

/// The words of a language, in the order in which lines are filled from
/// them, or `None` for a language that the source does not know.
pub open spec fn dictionary(language: Seq<char>) -> Option<Seq<Seq<char>>> {
    if language == "english"@ {
        Some(english())
    } else {
        None
    }
}

/// The English words, ready to fill a line from.
fn english_words() -> (words: Vec<&'static str>)
    ensures
        words.deep_view() == english(),
{
    let words = vec![
        "the",
        "of",
        "and",
        "to",
        "in",
        "is",
        "you",
        "that",
        "it",
        "he",
        "was",
        "for",
        "on",
        "are",
        "as",
        "with",
        "his",
        "they",
        "at",
        "be",
        "this",
        "have",
        "from",
        "or",
        "one",
        "had",
        "by",
        "word",
        "but",
        "not",
        "what",
        "all",
        "were",
        "we",
        "when",
        "your",
        "can",
        "said",
        "there",
        "use",
        "an",
        "each",
        "which",
        "she",
        "do",
        "how",
        "their",
        "if",
        "will",
        "up",
        "other",
        "about",
        "out",
        "many",
        "then",
        "them",
        "these",
        "so",
        "some",
        "her",
        "would",
        "make",
        "like",
        "him",
        "into",
        "time",
        "has",
        "look",
        "two",
        "more",
        "write",
        "go",
        "see",
        "number",
        "no",
        "way",
        "could",
        "people",
        "my",
        "than",
        "first",
        "water",
        "been",
        "call",
        "who",
        "oil",
        "its",
        "now",
        "find",
        "long",
        "down",
        "day",
        "did",
        "get",
        "come",
        "made",
        "may",
        "part",
    ];
    assert(words.deep_view() =~= english());
    words
}

/// How many of the leading words fit into the budget together: the count
/// stops at the first word for which no room is left.
pub open spec fn fitting(words: Seq<Seq<char>>, budget: int) -> nat
    decreases words.len(),
{
    if words.len() == 0 || words[0].len() > budget {
        0
    } else {
        1 + fitting(words.drop_first(), budget - words[0].len())
    }
}

/// The line that is filled from `words` within `budget`: the longest run of
/// leading words that spends no more than the budget. No word is cut.
pub open spec fn budgeted_line(words: Seq<Seq<char>>, budget: int) -> Seq<Seq<char>> {
    words.take(fitting(words, budget) as int)
}

/// What the source returns for a language and a budget: the budgeted line
/// of the language's words, or the reason why there is none.
pub open spec fn found(language: Seq<char>, budget: int) -> Result<Seq<Seq<char>>, WordError> {
    if budget <= 0 {
        Err(WordError::InvalidBudget)
    } else {
        match dictionary(language) {
            Some(words) => Ok(budgeted_line(words, budget)),
            None => Err(WordError::UnsupportedLanguage),
        }
    }
}

/// The count of fitting words never exceeds the number of words.
pub proof fn lemma_fitting_bound(words: Seq<Seq<char>>, budget: int)
    ensures
        fitting(words, budget) <= words.len(),
    decreases words.len(),
{
    if words.len() > 0 && words[0].len() <= budget {
        lemma_fitting_bound(words.drop_first(), budget - words[0].len());
    }
}

/// Once `taken` leading words have been taken and `left` characters are
/// left of the budget, the words that still fit are counted from there.
proof fn lemma_fitting_from(words: Seq<Seq<char>>, budget: int, taken: int, left: int)
    requires
        0 <= taken <= words.len(),
        0 <= left,
        total_chars(words.take(taken)) + left == budget,
    ensures
        fitting(words, budget) == taken + fitting(words.skip(taken), left),
    decreases taken,
{
    if taken == 0 {
        assert(words.skip(0) =~= words);
        assert(words.take(0) =~= Seq::<Seq<char>>::empty());
    } else {
        let before = taken - 1;
        assert(words.take(taken) =~= words.take(before).push(words[before]));
        lemma_total_chars_push(words.take(before), words[before]);
        lemma_fitting_from(words, budget, before, left + words[before].len());
        assert(words.skip(before).drop_first() =~= words.skip(taken));
    }
}

/// The budgeted line is the longest run of leading words within the
/// budget: it spends no more than the budget, and with the next word it
/// would spend more.
pub proof fn lemma_budgeted_line_is_longest(words: Seq<Seq<char>>, budget: int)
    requires
        0 <= budget,
    ensures
        total_chars(budgeted_line(words, budget)) <= budget,
        fitting(words, budget) <= words.len(),
        fitting(words, budget) < words.len() ==> total_chars(
            words.take(fitting(words, budget) as int + 1),
        ) > budget,
    decreases words.len(),
{
    lemma_fitting_bound(words, budget);
    if words.len() == 0 || words[0].len() > budget {
        assert(words.take(0) =~= Seq::<Seq<char>>::empty());
        if words.len() > 0 {
            assert(words.take(1) =~= Seq::<Seq<char>>::empty().push(words[0]));
            lemma_total_chars_push(Seq::<Seq<char>>::empty(), words[0]);
        }
    } else {
        let rest = words.drop_first();
        let left = budget - words[0].len();
        let count = fitting(rest, left) as int;
        lemma_budgeted_line_is_longest(rest, left);
        lemma_total_chars_prepend(words[0], rest.take(count));
        assert(words.take(count + 1) =~= seq![words[0]] + rest.take(count));
        if count < rest.len() {
            lemma_total_chars_prepend(words[0], rest.take(count + 1));
            assert(words.take(count + 2) =~= seq![words[0]] + rest.take(count + 1));
        }
    }
}

/// Putting a word in front of a line adds its length to the total.
proof fn lemma_total_chars_prepend(word: Seq<char>, line: Seq<Seq<char>>)
    ensures
        total_chars(seq![word] + line) == word.len() + total_chars(line),
    decreases line.len(),
{
    if line.len() == 0 {
        assert(seq![word] + line =~= Seq::<Seq<char>>::empty().push(word));
        lemma_total_chars_push(Seq::<Seq<char>>::empty(), word);
    } else {
        assert((seq![word] + line).drop_last() =~= seq![word] + line.drop_last());
        lemma_total_chars_prepend(word, line.drop_last());
    }
}

/// Fills a line from `words` within `budget`.
fn fill(words: &Vec<&'static str>, budget: i32) -> (line: Vec<String>)
    requires
        0 < budget,
    ensures
        line.deep_view() == budgeted_line(words.deep_view(), budget as int),
{
    let ghost all = words.deep_view();
    let mut line: Vec<String> = Vec::new();
    let mut left: usize = budget as usize;
    let mut at: usize = 0;
    proof {
        assert(all.take(0) =~= Seq::<Seq<char>>::empty());
    }
    while at < words.len()
        invariant
            at <= words.len(),
            all == words.deep_view(),
            line.deep_view() == all.take(at as int),
            total_chars(all.take(at as int)) + left == budget,
        ensures
            at <= words.len(),
            line.deep_view() == all.take(at as int),
            total_chars(all.take(at as int)) + left == budget,
            at == words.len() || all[at as int].len() > left,
        decreases words.len() - at,
    {
        let word = words[at];
        let count = word.unicode_len();
        if count > left {
            break;
        }
        proof {
            assert(all.take(at + 1) =~= all.take(at as int).push(all[at as int]));
            lemma_total_chars_push(all.take(at as int), all[at as int]);
        }
        line.push(word.to_owned());
        left -= count;
        at += 1;
        proof {
            assert(line.deep_view() =~= all.take(at as int));
        }
    }
    proof {
        lemma_fitting_from(all, budget as int, at as int, left as int);
        assert(fitting(all.skip(at as int), left as int) == 0);
    }
    line
}

/// Finds the words of one practice line.
///
/// The line is filled from the words of `language`, the most common first,
/// and holds as many of them as `max_length` characters allow. A language
/// without words here and a budget that is not positive are errors.
pub fn find(language: &str, max_length: i32) -> (line: Result<Vec<String>, WordError>)
    ensures
        answer_view(line) == found(language@, max_length as int),
        line matches Ok(words) ==> total_chars(words.deep_view()) <= max_length,
{
    if max_length <= 0 {
        return Err(WordError::InvalidBudget);
    }
    if !same_text(language, "english") {
        return Err(WordError::UnsupportedLanguage);
    }
    let words = english_words();
    let line = fill(&words, max_length);
    proof {
        lemma_budgeted_line_is_longest(english(), max_length as int);
    }
    Ok(line)
}

} // verus!
