//! A line of words and the characters it spends.

use vstd::prelude::*;

verus! {

/// The number of characters in all the words of a line together. A
/// character counts once, however many bytes encode it.
pub open spec fn total_chars(line: Seq<Seq<char>>) -> nat
    decreases line.len(),
{
    if line.len() == 0 {
        0
    } else {
        total_chars(line.drop_last()) + line.last().len()
    }
}

/// Adding a word to the end of a line adds its length to the total.
pub proof fn lemma_total_chars_push(line: Seq<Seq<char>>, word: Seq<char>)
    ensures
        total_chars(line.push(word)) == total_chars(line) + word.len(),
{
    assert(line.push(word).drop_last() =~= line);
}

/// The first `count` words of a line spend no more than the whole line.
pub proof fn lemma_total_chars_prefix(line: Seq<Seq<char>>, count: int)
    requires
        0 <= count <= line.len(),
    ensures
        total_chars(line.take(count)) <= total_chars(line),
    decreases line.len(),
{
    if count == line.len() {
        assert(line.take(count) =~= line);
    } else {
        lemma_total_chars_prefix(line.drop_last(), count);
        assert(line.drop_last().take(count) =~= line.take(count));
    }
}

/// Whether the words of `line` together have at most `budget` characters.
pub fn within_budget(line: &Vec<String>, budget: i32) -> (fits: bool)
    ensures
        fits == (total_chars(line.deep_view()) <= budget),
{
    if budget < 0 {
        return false;
    }
    let ghost words = line.deep_view();
    let mut left: usize = budget as usize;
    let mut at: usize = 0;
    while at < line.len()
        invariant
            at <= line.len(),
            words == line.deep_view(),
            0 <= budget,
            total_chars(words.take(at as int)) + left == budget,
        decreases line.len() - at,
    {
        let count = line[at].as_str().unicode_len();
        proof {
            assert(words.take(at + 1) =~= words.take(at as int).push(words[at as int]));
            lemma_total_chars_push(words.take(at as int), words[at as int]);
        }
        if count > left {
            proof {
                lemma_total_chars_prefix(words, at + 1);
            }
            return false;
        }
        left -= count;
        at += 1;
    }
    proof {
        assert(words.take(at as int) =~= words);
    }
    true
}

} // verus!
