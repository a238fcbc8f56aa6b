use reqtui::input::oneline_input::OnelineInput;
use reqtui::input::CursorMove;

fn field(text: &str, cursor_col: usize) -> OnelineInput {
    OnelineInput {
        value: text.chars().collect(),
        cursor_col,
        scroll_offset_col: 0,
        selection_start: None,
    }
}

#[test]
fn next_char() {
    let mut input = field("test", 0);
    input.move_cursor(CursorMove::NextChar);

    assert_eq!(input.cursor(), (1, 0))
}

#[test]
fn prev_char() {
    let mut input = field("test", 2);
    input.move_cursor(CursorMove::PrevChar);

    assert_eq!(input.cursor(), (1, 0))
}

#[test]
fn next_word() {
    let mut input = field("hello $%^ world   ", 1);
    input.move_cursor(CursorMove::NextWord);
    assert_eq!(input.cursor(), (6, 0));

    input.move_cursor(CursorMove::NextWord);
    assert_eq!(input.cursor(), (10, 0));

    input.move_cursor(CursorMove::NextWord);
    assert_eq!(input.cursor(), (18, 0));

    input.move_cursor(CursorMove::NextWord);
    assert_eq!(input.cursor(), (18, 0));
}

#[test]
fn prev_word() {
    let mut input = field("   hello $%^ world", 17);

    input.move_cursor(CursorMove::PrevWord);
    assert_eq!(input.cursor(), (13, 0));

    input.move_cursor(CursorMove::PrevWord);
    assert_eq!(input.cursor(), (9, 0));

    input.move_cursor(CursorMove::PrevWord);
    assert_eq!(input.cursor(), (3, 0));
}

#[test]
fn head() {
    let mut input = field("", 5);
    input.move_cursor(CursorMove::LineHead);

    assert_eq!(input.cursor(), (0, 0))
}

#[test]
fn end() {
    let mut input = field("test", 0);
    input.move_cursor(CursorMove::LineEnd);

    assert_eq!(input.cursor(), (4, 0))
}

#[test]
fn next_line() {
    let mut input = field("", 5);
    input.move_cursor(CursorMove::NextLine);

    assert_eq!(input.cursor(), (5, 0))
}

#[test]
fn prev_line() {
    let mut input = field("", 5);
    input.move_cursor(CursorMove::PrevLine);

    assert_eq!(input.cursor(), (5, 0))
}

#[test]
fn oneline_input_at_end() {
    let mut input = field("hello", 5);
    input.insert_char(',');

    assert_eq!(input.value(), "hello,")
}

#[test]
fn oneline_input_in_middle() {
    let mut input = field("hello", 3);
    input.insert_char('-');

    assert_eq!(input.value(), "hel-lo")
}

#[test]
fn at_start() {
    let mut input = field("hello", 0);
    input.delete_char();

    assert_eq!(input.value(), "hello")
}

#[test]
fn in_middle() {
    let mut input = field("hello", 2);
    input.delete_char();

    assert_eq!(input.value(), "hllo")
}

#[test]
fn at_end() {
    let mut input = field("hello", 5);
    input.delete_next_char();

    assert_eq!(input.value(), "hello")
}

#[test]
fn delete_next_char_in_middle() {
    let mut input = field("hello", 2);
    input.delete_next_char();

    assert_eq!(input.value(), "helo")
}

#[test]
fn insert_advances_cursor() {
    let mut input = field("hello", 5);
    input.insert_char(',');

    assert_eq!(input.value(), "hello,");
    assert_eq!(input.cursor(), (6, 0));
}

#[test]
fn delete_steps_cursor_back() {
    let mut input = field("hello", 2);
    input.delete_char();

    assert_eq!(input.cursor(), (1, 0));
    let mut other = field("hello", 2);
    other.delete_next_char();
    assert_eq!(other.cursor(), (2, 0));
}

#[test]
fn insert_then_delete_restores() {
    let mut input = field("some text", 4);
    input.insert_char('x');
    input.delete_char();

    assert_eq!(input.value(), "some text");
    assert_eq!(input.cursor(), (4, 0));
}

#[test]
fn next_then_prev_char_is_identity_inside() {
    let mut input = field("abc", 1);
    input.move_cursor(CursorMove::NextChar);
    input.move_cursor(CursorMove::PrevChar);

    assert_eq!(input.cursor(), (1, 0));
    assert_eq!(input.value(), "abc");
}

#[test]
fn moves_clamp_at_boundaries() {
    let mut input = field("ab", 2);
    input.move_cursor(CursorMove::NextChar);
    assert_eq!(input.cursor(), (2, 0));

    let mut start = field("ab", 0);
    start.move_cursor(CursorMove::PrevChar);
    assert_eq!(start.cursor(), (0, 0));

    let mut empty = field("", 0);
    empty.move_cursor(CursorMove::NextWord);
    assert_eq!(empty.cursor(), (0, 0));
    empty.move_cursor(CursorMove::PrevWord);
    assert_eq!(empty.cursor(), (0, 0));
}

#[test]
fn selection_yields_selected_text() {
    let mut input = field("hello world", 0);
    input.start_selection();
    for _ in 0..5 {
        input.move_cursor(CursorMove::NextChar);
    }
    assert_eq!(input.selected_text(), "hello");
    input.cancel_selection();
    assert_eq!(input.selected_text(), "");
}

#[test]
fn from_text_starts_at_head() {
    let input = OnelineInput::from_text("abc");
    assert_eq!(input.cursor(), (0, 0));
    assert_eq!(input.value(), "abc");
    assert_eq!(input.len(), 3);
    assert!(!input.is_empty());
    assert!(OnelineInput::new().is_empty());
}

#[test]
fn scroll_clamps_to_value_length() {
    let mut input = field("abcdef", 0);
    input.scroll(4, 0);
    assert_eq!(input.scroll_offset(), (4, 0));
    input.scroll(100, 0);
    assert_eq!(input.scroll_offset(), (6, 0));
    input.scroll(-2, 0);
    assert_eq!(input.scroll_offset(), (4, 0));
    input.scroll(-100, 0);
    assert_eq!(input.scroll_offset(), (0, 0));
}
