//! The practice text: three lines of words, each within the character
//! budget.

pub mod finder;
pub mod line;

use crate::word_provider::finder::{find, found};
use crate::word_provider::line::{total_chars, within_budget};
use vstd::prelude::*;

verus! {

/// The character budget of one line.
pub const LENGTH: i32 = 70;

/// The number of lines in a practice text.
pub const LINES: usize = 3;

/// Why no practice text could be assembled.
#[derive(Debug, Clone, Copy, PartialEq, Eq, Structural)]
pub enum WordError {
    /// The word source has no words for the language.
    UnsupportedLanguage,
    /// The word source could not reach its words.
    Unavailable,
    /// The budget leaves room for no line at all: it is zero or negative.
    InvalidBudget,
    /// The word source returned a line that spends more than the budget.
    OverBudget,
}

/// What becomes of one answer of a word source: a line within the budget
/// is kept, a line beyond it is an error, and an error stays the error it
/// is.
pub open spec fn accepted(
    outcome: Result<Seq<Seq<char>>, WordError>,
    budget: int,
) -> Result<Seq<Seq<char>>, WordError> {
    match outcome {
        Ok(line) => if total_chars(line) <= budget {
            Ok(line)
        } else {
            Err(WordError::OverBudget)
        },
        Err(error) => Err(error),
    }
}

/// An answer of a word source, each word as text.
pub open spec fn answer_view(answer: Result<Vec<String>, WordError>) -> Result<
    Seq<Seq<char>>,
    WordError,
> {
    match answer {
        Ok(line) => Ok(line.deep_view()),
        Err(error) => Err(error),
    }
}

/// Holds one answer of a word source to the budget: a line within it is
/// handed on as it is, a line beyond it becomes [`WordError::OverBudget`],
/// and an error is handed on unchanged.
pub fn accept_line(outcome: Result<Vec<String>, WordError>, budget: i32) -> (line: Result<
    Vec<String>,
    WordError,
>)
    ensures
        answer_view(line) == accepted(answer_view(outcome), budget as int),
        line is Ok ==> line == outcome,
{
    match outcome {
        Ok(words) => if within_budget(&words, budget) {
            Ok(words)
        } else {
            Err(WordError::OverBudget)
        },
        Err(error) => Err(error),
    }
}

/// Assembles a practice text from a word source.
///
/// The source is asked for a line three times, each time with `language`
/// and the budget [`LENGTH`]. As soon as one answer is an error, or is a
/// line beyond the budget, that error is returned and nothing of the lines
/// before it: the text has its three lines, in the order in which they were
/// asked for, or there is no text.
pub fn assemble<F>(language: &str, source: F) -> (text: Result<Vec<Vec<String>>, WordError>)
    where F: Fn(&str, i32) -> Result<Vec<String>, WordError>
    requires
        source.requires((language, LENGTH)),
    ensures
        match text {
            Ok(lines) => {
                &&& lines.len() == LINES
                &&& forall|i: int|
                    0 <= i < lines.len() ==> source.ensures(
                        (language, LENGTH),
                        Ok(#[trigger] lines[i]),
                    )
                &&& forall|i: int|
                    0 <= i < lines.len() ==> total_chars(#[trigger] lines[i].deep_view()) <= LENGTH
            },
            Err(error) => {
                ||| source.ensures((language, LENGTH), Err(error))
                ||| error == WordError::OverBudget && exists|line: Vec<String>|
                    #[trigger] source.ensures((language, LENGTH), Ok(line)) && total_chars(
                        line.deep_view(),
                    ) > LENGTH
            },
        },
        (forall|line: Vec<String>| !#[trigger] source.ensures((language, LENGTH), Ok(line)))
            ==> text is Err,
{
    let mut lines: Vec<Vec<String>> = Vec::new();
    while lines.len() < LINES
        invariant
            lines.len() <= LINES,
            source.requires((language, LENGTH)),
            forall|i: int|
                0 <= i < lines.len() ==> source.ensures(
                    (language, LENGTH),
                    Ok(#[trigger] lines[i]),
                ),
            forall|i: int|
                0 <= i < lines.len() ==> total_chars(#[trigger] lines[i].deep_view()) <= LENGTH,
        decreases LINES - lines.len(),
    {
        let outcome = source(language, LENGTH);
        match accept_line(outcome, LENGTH) {
            Ok(line) => lines.push(line),
            Err(error) => {
                return Err(error);
            },
        }
    }
    assert(source.ensures((language, LENGTH), Ok(lines[0])));
    Ok(lines)
}

/// Assembles the practice text for `language` from the built-in words.
///
/// The text has three lines, each the line that the built-in source finds
/// for `language` within [`LENGTH`] characters. A language that the source
/// has no words for gives the source's error and no text.
pub fn get_words(language: &str) -> (text: Result<Vec<Vec<String>>, WordError>)
    ensures
        match (text, found(language@, LENGTH as int)) {
            (Ok(lines), Ok(line)) => {
                &&& lines.len() == LINES
                &&& forall|i: int| 0 <= i < lines.len() ==> #[trigger] lines[i].deep_view() == line
            },
            (Err(error), Err(cause)) => error == cause,
            _ => false,
        },
        text matches Ok(lines) ==> forall|i: int|
            0 <= i < lines.len() ==> total_chars(#[trigger] lines[i].deep_view()) <= LENGTH,
{
    let text = assemble(language, find);
    proof {
        match &text {
            Ok(lines) => {
                assert forall|i: int| 0 <= i < lines.len() implies found(
                    language@,
                    LENGTH as int,
                ) == Ok::<Seq<Seq<char>>, WordError>(#[trigger] lines[i].deep_view()) by {
                    assert(call_ensures(find, (language, LENGTH), Ok(lines[i])));
                }
                assert(found(language@, LENGTH as int) == Ok::<Seq<Seq<char>>, WordError>(
                    lines[0].deep_view(),
                ));
            },
            Err(error) => {
                assert(call_ensures(find, (language, LENGTH), Err(*error)));
            },
        }
    }
    text
}

} // verus!
