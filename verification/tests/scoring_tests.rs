use numeracle::scoring::{score_word, score_words};
use numeracle::table::evaluate;

#[test]
fn score_of_cab_is_the_sum_of_its_letters() {
    let sc = score_word(&String::from("cab"));
    let expected = (evaluate('c') as u32) + (evaluate('a') as u32) + (evaluate('b') as u32);
    assert_eq!(sc.total, expected);
    assert_eq!(sc.total, 6);
}

#[test]
fn score_records_each_letter_value_in_order() {
    let sc = score_word(&String::from("cab"));
    assert_eq!(sc.word, "cab");
    assert_eq!(sc.letter_values, vec![('c', 3), ('a', 1), ('b', 2)]);
}

#[test]
fn scoring_is_deterministic() {
    let a = score_word(&String::from("mixed123"));
    let b = score_word(&String::from("mixed123"));
    assert_eq!(a.word, b.word);
    assert_eq!(a.letter_values, b.letter_values);
    assert_eq!(a.total, b.total);
}

#[test]
fn empty_word_scores_zero() {
    let sc = score_word(&String::new());
    assert_eq!(sc.total, 0);
    assert!(sc.letter_values.is_empty());
}

#[test]
fn digits_and_punctuation_in_words() {
    let sc = score_word(&String::from("a-1"));
    assert_eq!(sc.total, 1 + 0 + 1);
}

#[test]
fn session_sums_word_totals() {
    let words = vec![String::from("cat"), String::from("dog")];
    let session = score_words(&words);
    assert_eq!(session.scores.len(), 2);
    assert_eq!(session.scores[0].total, 8);
    assert_eq!(session.scores[1].total, 14);
    assert_eq!(session.grand_total, 22);
}

#[test]
fn empty_session_has_zero_grand_total() {
    let session = score_words(&Vec::new());
    assert!(session.scores.is_empty());
    assert_eq!(session.grand_total, 0);
}
