//! The editable single-line text field.

use vstd::prelude::*;

use crate::input::{
    chars_to_string, str_to_chars, lemma_next_word_spec_bounds, lemma_prev_word_spec_bounds,
    next_word, prev_word, CursorMove, FieldKind, FieldView,
};

verus! {

/// An editable single-line buffer with cursor, column scroll offset and
/// optional selection anchor; all positions in Unicode scalar values.
pub struct OnelineInput {
    pub value: Vec<char>,
    pub cursor_col: usize,
    pub scroll_offset_col: usize,
    pub selection_start: Option<usize>,
}

impl View for OnelineInput {
    type V = FieldView;

    open spec fn view(&self) -> FieldView {
        FieldView {
            kind: FieldKind::Oneline,
            lines: seq![self.value@],
            cursor_col: self.cursor_col as int,
            cursor_row: 0,
            scroll_col: self.scroll_offset_col as int,
            scroll_row: 0,
            selection: match self.selection_start {
                Some(c) => Some((c as int, 0)),
                None => None,
            },
        }
    }
}

impl OnelineInput {
    pub open spec fn wf(&self) -> bool {
        self@.wf()
    }

    pub fn new() -> (r: Self)
        ensures
            r@ == FieldView::oneline(Seq::empty()),
            r.wf(),
    {
        let r = OnelineInput { value: Vec::new(), cursor_col: 0, scroll_offset_col: 0, selection_start: None };
        proof {
            assert(r@ =~= FieldView::oneline(Seq::empty()));
        }
        r
    }

    pub fn from_text(text: &str) -> (r: Self)
        ensures
            r@ == FieldView::oneline(text@),
            r.wf(),
    {
        let r = OnelineInput {
            value: str_to_chars(text),
            cursor_col: 0,
            scroll_offset_col: 0,
            selection_start: None,
        };
        proof {
            assert(r@ =~= FieldView::oneline(text@));
        }
        r
    }

    pub fn value(&self) -> (r: String)
        ensures
            r@ == self@.text(),
    {
        chars_to_string(&self.value)
    }

    /// Count of scalar values in the (only) row.
    pub fn len(&self) -> (r: usize)
        ensures
            r == self@.cur_len(),
    {
        self.value.len()
    }

    pub fn cursor(&self) -> (r: (usize, usize))
        ensures
            r.0 == self@.cursor_col,
            r.1 == self@.cursor_row,
    {
        (self.cursor_col, 0)
    }

    pub fn scroll_offset(&self) -> (r: (usize, usize))
        ensures
            r.0 == self@.scroll_col,
            r.1 == self@.scroll_row,
    {
        (self.scroll_offset_col, 0)
    }

    pub fn move_cursor(&mut self, cursor_move: CursorMove)
        requires
            old(self).wf(),
        ensures
            final(self)@ == old(self)@.with_move(cursor_move),
            final(self).wf(),
    {
        match cursor_move {
            CursorMove::NextChar => {
                let len = self.value.len();
                if self.cursor_col < len {
                    self.cursor_col = self.cursor_col + 1;
                } else {
                    self.cursor_col = len;
                }
            },
            CursorMove::PrevChar => {
                if self.cursor_col > 0 {
                    self.cursor_col = self.cursor_col - 1;
                }
            },
            CursorMove::NextWord => {
                let line = chars_to_string(&self.value);
                proof {
                    lemma_next_word_spec_bounds(self.value@, self.cursor_col as int);
                }
                self.cursor_col = match next_word(line.as_str(), self.cursor_col) {
                    Some(i) => i,
                    None => self.value.len(),
                };
            },
            CursorMove::PrevWord => {
                let line = chars_to_string(&self.value);
                proof {
                    lemma_prev_word_spec_bounds(self.value@, self.cursor_col as int);
                }
                self.cursor_col = match prev_word(line.as_str(), self.cursor_col) {
                    Some(i) => i,
                    None => 0,
                };
            },
            CursorMove::LineHead | CursorMove::Head => {
                self.cursor_col = 0;
            },
            CursorMove::LineEnd | CursorMove::End => {
                self.cursor_col = self.value.len();
            },
            CursorMove::NextLine | CursorMove::PrevLine => {},
        }
    }

    pub fn scroll(&mut self, cols: isize, rows: isize)
        requires
            old(self).wf(),
        ensures
            final(self)@ == old(self)@.with_scroll(cols as int, rows as int),
            final(self).wf(),
    {
        let len = self.value.len();
        self.scroll_offset_col = crate::input::scroll_clamped(self.scroll_offset_col, cols, len);
    }

    pub fn insert_newline(&mut self)
        ensures
            final(self)@ == old(self)@,
    {
    }

    /// Insert `character` at the cursor and advance the cursor past it.
    pub fn insert_char(&mut self, character: char)
        requires
            old(self).wf(),
        ensures
            final(self)@ == old(self)@.with_insert_char(character),
            final(self).wf(),
    {
        if self.value.len() == usize::MAX {
            return ;
        }
        self.value.insert(self.cursor_col, character);
        self.cursor_col = self.cursor_col + 1;
        proof {
            assert(self@ =~= old(self)@.with_insert_char(character));
        }
    }

    /// Delete the scalar value before the cursor and step the cursor back;
    /// a no-op at column 0.
    pub fn delete_char(&mut self)
        requires
            old(self).wf(),
        ensures
            final(self)@ == old(self)@.with_delete_char(),
            final(self).wf(),
    {
        if self.cursor_col == 0 {
            return ;
        }
        self.value.remove(self.cursor_col - 1);
        self.cursor_col = self.cursor_col - 1;
        proof {
            assert(self@ =~= old(self)@.with_delete_char());
        }
    }

    /// Delete the scalar value at the cursor without moving it; a no-op at
    /// the end of the line.
    pub fn delete_next_char(&mut self)
        requires
            old(self).wf(),
        ensures
            final(self)@ == old(self)@.with_delete_next_char(),
            final(self).wf(),
    {
        if self.cursor_col == self.value.len() {
            return ;
        }
        self.value.remove(self.cursor_col);
        proof {
            assert(self@ =~= old(self)@.with_delete_next_char());
        }
    }

    pub fn start_selection(&mut self)
        ensures
            final(self)@ == old(self)@.with_start_selection(),
    {
        self.selection_start = Some(self.cursor_col);
    }

    pub fn cancel_selection(&mut self)
        ensures
            final(self)@ == old(self)@.with_cancel_selection(),
    {
        self.selection_start = None;
    }

    /// The text between the selection anchor and the cursor, in reading
    /// order; empty when no selection is active.
    pub fn selected_text(&self) -> (r: String)
        requires
            self.wf(),
        ensures
            r@ == self@.selected_text(),
    {
        match self.selection_start {
            None => String::new(),
            Some(anchor) => {
                let len = self.value.len();
                let a = if anchor > len {
                    len
                } else {
                    anchor
                };
                let c = self.cursor_col;
                let (lo, hi) = if a <= c {
                    (a, c)
                } else {
                    (c, a)
                };
                crate::input::seg_to_string(&self.value, lo, hi)
            },
        }
    }

    pub fn is_empty(&self) -> (r: bool)
        ensures
            r == (self@.text().len() == 0),
    {
        self.value.len() == 0
    }
}

} // verus!
