//! The null field: always empty, and every operation is a no-op. It stands
//! in wherever a panel has no meaningful text target.

use vstd::prelude::*;

use crate::input::{CursorMove, FieldView};

verus! {

/// The null text field.
pub struct DummyInput {}

impl View for DummyInput {
    type V = FieldView;

    open spec fn view(&self) -> FieldView {
        FieldView::null()
    }
}

impl DummyInput {
    pub open spec fn wf(&self) -> bool {
        self@.wf()
    }

    pub fn new() -> (r: Self)
        ensures
            r@ == FieldView::null(),
    {
        DummyInput {  }
    }

    pub fn value(&self) -> (r: String)
        ensures
            r@ == self@.text(),
    {
        String::new()
    }

    pub fn len(&self) -> (r: usize)
        ensures
            r == self@.cur_len(),
    {
        0
    }

    pub fn cursor(&self) -> (r: (usize, usize))
        ensures
            r.0 == self@.cursor_col,
            r.1 == self@.cursor_row,
    {
        (0, 0)
    }

    pub fn scroll_offset(&self) -> (r: (usize, usize))
        ensures
            r.0 == self@.scroll_col,
            r.1 == self@.scroll_row,
    {
        (0, 0)
    }

    pub fn move_cursor(&mut self, cursor_move: CursorMove)
        ensures
            final(self)@ == old(self)@.with_move(cursor_move),
    {
    }

    pub fn scroll(&mut self, cols: isize, rows: isize)
        ensures
            final(self)@ == old(self)@.with_scroll(cols as int, rows as int),
    {
    }

    pub fn insert_newline(&mut self)
        ensures
            final(self)@ == old(self)@,
    {
    }

    pub fn insert_char(&mut self, character: char)
        ensures
            final(self)@ == old(self)@.with_insert_char(character),
    {
    }

    pub fn delete_char(&mut self)
        ensures
            final(self)@ == old(self)@.with_delete_char(),
    {
    }

    pub fn delete_next_char(&mut self)
        ensures
            final(self)@ == old(self)@.with_delete_next_char(),
    {
    }

    pub fn start_selection(&mut self)
        ensures
            final(self)@ == old(self)@.with_start_selection(),
    {
    }

    pub fn cancel_selection(&mut self)
        ensures
            final(self)@ == old(self)@.with_cancel_selection(),
    {
    }

    pub fn selected_text(&self) -> (r: String)
        ensures
            r@ == self@.selected_text(),
    {
        String::new()
    }

    pub fn is_empty(&self) -> (r: bool)
        ensures
            r == (self@.text().len() == 0),
    {
        true
    }
}

} // verus!
