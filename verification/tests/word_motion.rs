use reqtui::input::{next_word, prev_word};

#[test]
fn next_word_from_whitespace_finds_first_word_char() {
    assert_eq!(next_word("  abc", 0), Some(2));
    assert_eq!(next_word("a  bc", 1), Some(3));
}

#[test]
fn next_word_stops_at_class_change() {
    assert_eq!(next_word("ab$cd", 0), Some(2));
    assert_eq!(next_word("$$ab", 0), Some(2));
}

#[test]
fn next_word_exhausted_is_none() {
    assert_eq!(next_word("abc", 0), None);
    assert_eq!(next_word("abc", 3), None);
    assert_eq!(next_word("abc   ", 3), None);
    assert_eq!(next_word("", 0), None);
}

#[test]
fn prev_word_finds_word_start() {
    assert_eq!(prev_word("ab cd", 5), Some(3));
    assert_eq!(prev_word("ab cd", 3), Some(0));
    assert_eq!(prev_word("ab$", 3), Some(2));
    assert_eq!(prev_word("  ab", 2), Some(0));
}

#[test]
fn prev_word_at_start_is_none() {
    assert_eq!(prev_word("abc", 0), None);
    assert_eq!(prev_word("", 3), None);
}

#[test]
fn word_motions_are_inverse_adjacent() {
    let line = "hello $%^ world   ";
    for col in 0..line.chars().count() {
        if let Some(i) = next_word(line, col) {
            let back = prev_word(line, i).unwrap_or(0);
            assert!(back <= col, "from {col} forward to {i} then back to {back}");
        }
    }
}
