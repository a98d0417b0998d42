use std::cell::Cell;
use typy::word_provider::finder::find;
use typy::word_provider::line::within_budget;
use typy::word_provider::{accept_line, assemble, get_words, WordError, LENGTH, LINES};

fn words(list: &[&str]) -> Vec<String> {
    list.iter().map(|word| word.to_string()).collect()
}

fn first_line() -> Vec<String> {
    words(&[
        "the", "of", "and", "to", "in", "is", "you", "that", "it", "he", "was", "for", "on",
        "are", "as", "with", "his", "they", "at", "be", "this", "have", "from", "or", "one",
    ])
}

#[test]
fn test_get_words() {
    let words = get_words("english");

    for word in &words.unwrap() {
        let mut length = 0;
        for w in word {
            length += w.chars().count() as i32;
        }
        assert!(length <= LENGTH);
    }
}

#[test]
fn practice_text_has_three_lines() {
    let text = get_words("english").unwrap();
    assert_eq!(text.len(), 3);
    assert_eq!(LINES, 3);
    assert_eq!(LENGTH, 70);
}

#[test]
fn practice_text_is_the_found_line_three_times() {
    let text = get_words("english").unwrap();
    assert_eq!(text, vec![first_line(), first_line(), first_line()]);
    for line in &text {
        assert_eq!(Ok(line.clone()), find("english", LENGTH));
    }
}

#[test]
fn unknown_language_gives_no_text() {
    assert_eq!(get_words("klingon"), Err(WordError::UnsupportedLanguage));
    assert_eq!(get_words(""), Err(WordError::UnsupportedLanguage));
    assert_eq!(get_words("English"), Err(WordError::UnsupportedLanguage));
    assert_eq!(get_words("english "), Err(WordError::UnsupportedLanguage));
}

#[test]
fn find_fills_the_budget_with_whole_words() {
    assert_eq!(find("english", 70), Ok(first_line()));
    assert_eq!(find("english", 5), Ok(words(&["the", "of"])));
    assert_eq!(find("english", 7), Ok(words(&["the", "of"])));
    assert_eq!(find("english", 8), Ok(words(&["the", "of", "and"])));
    assert_eq!(find("english", 3), Ok(words(&["the"])));
}

#[test]
fn find_never_cuts_a_word() {
    assert_eq!(find("english", 1), Ok(Vec::new()));
    assert_eq!(find("english", 2), Ok(Vec::new()));
    assert_eq!(find("english", 4), Ok(words(&["the"])));
}

#[test]
fn find_stops_when_the_words_run_out() {
    let all = find("english", i32::MAX).unwrap();
    assert_eq!(all.len(), 98);
    assert_eq!(all.iter().map(|word| word.chars().count()).sum::<usize>(), 334);
    assert_eq!(find("english", 334), Ok(all.clone()));
    assert_eq!(find("english", 333).unwrap().len(), 97);
    assert_eq!(all[0], "the");
    assert_eq!(all[97], "part");
}

#[test]
fn find_rejects_a_budget_that_is_not_positive() {
    assert_eq!(find("english", 0), Err(WordError::InvalidBudget));
    assert_eq!(find("english", -1), Err(WordError::InvalidBudget));
    assert_eq!(find("english", i32::MIN), Err(WordError::InvalidBudget));
    assert_eq!(find("klingon", 0), Err(WordError::InvalidBudget));
}

#[test]
fn find_rejects_an_unknown_language() {
    assert_eq!(find("klingon", 70), Err(WordError::UnsupportedLanguage));
    assert_eq!(find("", 70), Err(WordError::UnsupportedLanguage));
    assert_eq!(find("englisch", 70), Err(WordError::UnsupportedLanguage));
}

#[test]
fn found_lines_stay_within_every_budget() {
    for budget in 1..400 {
        let line = find("english", budget).unwrap();
        let spent: usize = line.iter().map(|word| word.chars().count()).sum();
        assert!(spent <= budget as usize);
        assert!(within_budget(&line, budget));
    }
}

#[test]
fn within_budget_counts_characters() {
    assert!(within_budget(&Vec::new(), 0));
    assert!(!within_budget(&Vec::new(), -1));
    assert!(within_budget(&words(&["abc", "de"]), 5));
    assert!(within_budget(&words(&["abc", "de"]), 6));
    assert!(!within_budget(&words(&["abc", "de"]), 4));
    assert!(!within_budget(&words(&["abc", "de"]), 0));
    // Five characters in ten bytes.
    assert!(within_budget(&words(&["\u{e4}\u{f6}\u{fc}", "\u{df}\u{e9}"]), 5));
    assert!(!within_budget(&words(&["\u{e4}\u{f6}\u{fc}", "\u{df}\u{e9}"]), 4));
    assert!(within_budget(&words(&["", "", ""]), 0));
}

#[test]
fn accept_line_holds_a_line_to_the_budget() {
    assert_eq!(accept_line(Ok(words(&["abc", "de"])), 5), Ok(words(&["abc", "de"])));
    assert_eq!(accept_line(Ok(words(&["abc", "de"])), 4), Err(WordError::OverBudget));
    assert_eq!(accept_line(Ok(Vec::new()), 0), Ok(Vec::new()));
    assert_eq!(accept_line(Err(WordError::Unavailable), 70), Err(WordError::Unavailable));
    assert_eq!(
        accept_line(Err(WordError::UnsupportedLanguage), 70),
        Err(WordError::UnsupportedLanguage)
    );
}

#[test]
fn assemble_asks_three_times_with_the_same_arguments() {
    let calls = Cell::new(0);
    let text = assemble("deutsch", |language: &str, budget: i32| {
        calls.set(calls.get() + 1);
        assert_eq!(language, "deutsch");
        assert_eq!(budget, 70);
        Ok(words(&["eins", "zwei"]))
    });
    assert_eq!(calls.get(), 3);
    assert_eq!(
        text,
        Ok(vec![words(&["eins", "zwei"]), words(&["eins", "zwei"]), words(&["eins", "zwei"])])
    );
}

#[test]
fn assemble_keeps_the_lines_in_the_order_asked() {
    let calls = Cell::new(0);
    let text = assemble("english", |_: &str, _: i32| {
        calls.set(calls.get() + 1);
        Ok(vec![format!("line{}", calls.get())])
    });
    assert_eq!(text, Ok(vec![words(&["line1"]), words(&["line2"]), words(&["line3"])]));
}

#[test]
fn assemble_fails_when_the_first_call_fails() {
    let calls = Cell::new(0);
    let text = assemble("english", |_: &str, _: i32| {
        calls.set(calls.get() + 1);
        Err(WordError::Unavailable)
    });
    assert_eq!(text, Err(WordError::Unavailable));
    assert_eq!(calls.get(), 1);
}

#[test]
fn assemble_fails_when_the_second_call_fails() {
    let calls = Cell::new(0);
    let text = assemble("english", |_: &str, _: i32| {
        calls.set(calls.get() + 1);
        if calls.get() == 2 {
            Err(WordError::UnsupportedLanguage)
        } else {
            Ok(words(&["fine"]))
        }
    });
    assert_eq!(text, Err(WordError::UnsupportedLanguage));
    assert_eq!(calls.get(), 2);
}

#[test]
fn assemble_fails_when_the_third_call_fails() {
    let calls = Cell::new(0);
    let text = assemble("english", |_: &str, _: i32| {
        calls.set(calls.get() + 1);
        if calls.get() == 3 {
            Err(WordError::Unavailable)
        } else {
            Ok(words(&["fine"]))
        }
    });
    assert_eq!(text, Err(WordError::Unavailable));
    assert_eq!(calls.get(), 3);
}

#[test]
fn assemble_refuses_a_line_beyond_the_budget() {
    let long = "x".repeat(71);
    let calls = Cell::new(0);
    let text = assemble("english", |_: &str, _: i32| {
        calls.set(calls.get() + 1);
        if calls.get() == 2 {
            Ok(vec![long.clone()])
        } else {
            Ok(words(&["fine"]))
        }
    });
    assert_eq!(text, Err(WordError::OverBudget));
    assert_eq!(calls.get(), 2);
}

#[test]
fn assemble_takes_a_line_that_spends_the_budget_exactly() {
    let full = "\u{e9}".repeat(70);
    let text = assemble("fran\u{e7}ais", |_: &str, _: i32| Ok(vec![full.clone()]));
    assert_eq!(text, Ok(vec![vec![full.clone()], vec![full.clone()], vec![full.clone()]]));
}

#[test]
fn assemble_with_the_built_in_source_is_get_words() {
    assert_eq!(assemble("english", find), get_words("english"));
    assert_eq!(assemble("klingon", find), get_words("klingon"));
}
