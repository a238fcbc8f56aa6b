use reqtui::input::multiline_readonly_input::MultilineReadonlyInput;
use reqtui::input::CursorMove;

#[test]
fn from_text_splits_on_newlines() {
    let input = MultilineReadonlyInput::from_text("one\ntwo\n\nfour");
    assert_eq!(input.value(), "one\ntwo\n\nfour");
    assert_eq!(input.cursor(), (0, 0));
    assert_eq!(input.len(), 3);
    assert_eq!(input.current_line().iter().collect::<String>(), "one");
}

#[test]
fn vertical_moves_clamp_column() {
    let mut input = MultilineReadonlyInput::from_text("long line\nab\nlonger line");
    input.move_cursor(CursorMove::LineEnd);
    assert_eq!(input.cursor(), (9, 0));
    input.move_cursor(CursorMove::NextLine);
    assert_eq!(input.cursor(), (2, 1));
    input.move_cursor(CursorMove::NextLine);
    assert_eq!(input.cursor(), (2, 2));
    input.move_cursor(CursorMove::NextLine);
    assert_eq!(input.cursor(), (2, 2));
    input.move_cursor(CursorMove::PrevLine);
    input.move_cursor(CursorMove::PrevLine);
    input.move_cursor(CursorMove::PrevLine);
    assert_eq!(input.cursor(), (2, 0));
}

#[test]
fn head_and_end_jump_across_lines() {
    let mut input = MultilineReadonlyInput::from_text("ab\ncdef");
    input.move_cursor(CursorMove::End);
    assert_eq!(input.cursor(), (4, 1));
    input.move_cursor(CursorMove::Head);
    assert_eq!(input.cursor(), (0, 0));
}

#[test]
fn next_word_crosses_to_next_line() {
    let mut input = MultilineReadonlyInput::from_text("ab\n  cd");
    input.move_cursor(CursorMove::NextWord);
    assert_eq!(input.cursor(), (2, 1));

    let mut last = MultilineReadonlyInput::from_text("ab cd");
    last.move_cursor(CursorMove::NextWord);
    last.move_cursor(CursorMove::NextWord);
    assert_eq!(last.cursor(), (5, 0));
}

#[test]
fn prev_word_crosses_to_previous_line() {
    let mut input = MultilineReadonlyInput::from_text("  ef\nab");
    input.move_cursor(CursorMove::NextLine);
    input.move_cursor(CursorMove::PrevWord);
    assert_eq!(input.cursor(), (2, 0));
}

#[test]
fn editing_is_a_no_op() {
    let mut input = MultilineReadonlyInput::from_text("ab\ncd");
    input.insert_char('x');
    input.delete_char();
    input.delete_next_char();
    input.insert_newline();
    assert_eq!(input.value(), "ab\ncd");
}

#[test]
fn selection_spans_lines() {
    let mut input = MultilineReadonlyInput::from_text("one\ntwo\nthree");
    input.move_cursor(CursorMove::NextLine);
    input.start_selection();
    input.move_cursor(CursorMove::NextLine);
    input.move_cursor(CursorMove::NextChar);
    input.move_cursor(CursorMove::NextChar);
    assert_eq!(input.selected_text(), "two\nth");
}

#[test]
fn scroll_clamps_to_line_count() {
    let mut input = MultilineReadonlyInput::from_text("ab\ncd\nef");
    input.scroll(1, 2);
    assert_eq!(input.scroll_offset(), (1, 2));
    input.scroll(0, 10);
    assert_eq!(input.scroll_offset(), (1, 3));
    input.scroll(-10, -1);
    assert_eq!(input.scroll_offset(), (0, 2));
}
