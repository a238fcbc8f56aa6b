//! The read-only multi-line text field: scrollable and selectable, never
//! mutated. It shows output text, so cursor motion may cross lines.

use vstd::prelude::*;
use vstd::string::StringExecFns;

use crate::input::{
    chars_to_string, find_first_non_ws, join_text, lemma_next_word_spec_bounds, scroll_clamped,
    lemma_prev_word_spec_bounds, lemma_split_lines_nonempty, next_word, prev_word, split_text,
    CursorMove, FieldKind, FieldView,
};

verus! {

/// A read-only multi-line buffer with cursor, scroll offset and optional
/// selection anchor; all positions in Unicode scalar values.
pub struct MultilineReadonlyInput {
    pub lines: Vec<Vec<char>>,
    pub cursor_col: usize,
    pub cursor_row: usize,
    pub scroll_offset_col: usize,
    pub scroll_offset_row: usize,
    pub selection_start: Option<(usize, usize)>,
}

impl View for MultilineReadonlyInput {
    type V = FieldView;

    open spec fn view(&self) -> FieldView {
        FieldView {
            kind: FieldKind::Multiline,
            lines: self.lines@.map_values(|l: Vec<char>| l@),
            cursor_col: self.cursor_col as int,
            cursor_row: self.cursor_row as int,
            scroll_col: self.scroll_offset_col as int,
            scroll_row: self.scroll_offset_row as int,
            selection: match self.selection_start {
                Some(p) => Some((p.0 as int, p.1 as int)),
                None => None,
            },
        }
    }
}

impl MultilineReadonlyInput {
    pub open spec fn wf(&self) -> bool {
        self@.wf()
    }

    pub fn from_text(text: &str) -> (r: Self)
        ensures
            r@ == FieldView::multiline(text@),
            r.wf(),
    {
        let r = MultilineReadonlyInput {
            lines: split_text(text),
            cursor_col: 0,
            cursor_row: 0,
            scroll_offset_col: 0,
            scroll_offset_row: 0,
            selection_start: None,
        };
        proof {
            lemma_split_lines_nonempty(text@);
            assert(r@ =~= FieldView::multiline(text@));
        }
        r
    }

    /// The line the cursor is on.
    pub fn current_line(&self) -> (r: &Vec<char>)
        requires
            self.wf(),
        ensures
            r@ == self@.cur_line(),
    {
        &self.lines[self.cursor_row]
    }

    pub fn value(&self) -> (r: String)
        ensures
            r@ == self@.text(),
    {
        join_text(&self.lines)
    }

    /// Count of scalar values in the row the cursor is on.
    pub fn len(&self) -> (r: usize)
        requires
            self.wf(),
        ensures
            r == self@.cur_len(),
    {
        self.lines[self.cursor_row].len()
    }

    pub fn cursor(&self) -> (r: (usize, usize))
        ensures
            r.0 == self@.cursor_col,
            r.1 == self@.cursor_row,
    {
        (self.cursor_col, self.cursor_row)
    }

    pub fn scroll_offset(&self) -> (r: (usize, usize))
        ensures
            r.0 == self@.scroll_col,
            r.1 == self@.scroll_row,
    {
        (self.scroll_offset_col, self.scroll_offset_row)
    }

    pub fn move_cursor(&mut self, cursor_move: CursorMove)
        requires
            old(self).wf(),
        ensures
            final(self)@ == old(self)@.with_move(cursor_move),
            final(self).wf(),
    {
        match cursor_move {
            CursorMove::NextChar => {
                let len = self.lines[self.cursor_row].len();
                if self.cursor_col < len {
                    self.cursor_col = self.cursor_col + 1;
                } else {
                    self.cursor_col = len;
                }
            },
            CursorMove::PrevChar => {
                if self.cursor_col > 0 {
                    self.cursor_col = self.cursor_col - 1;
                }
            },
            CursorMove::NextLine => {
                let count = self.lines.len();
                if self.cursor_row + 1 < count {
                    self.cursor_row = self.cursor_row + 1;
                }
                let len = self.lines[self.cursor_row].len();
                if self.cursor_col > len {
                    self.cursor_col = len;
                }
            },
            CursorMove::PrevLine => {
                if self.cursor_row > 0 {
                    self.cursor_row = self.cursor_row - 1;
                }
                let len = self.lines[self.cursor_row].len();
                if self.cursor_col > len {
                    self.cursor_col = len;
                }
            },
            CursorMove::NextWord => {
                let line = chars_to_string(&self.lines[self.cursor_row]);
                proof {
                    lemma_next_word_spec_bounds(
                        self@.cur_line(),
                        self.cursor_col as int,
                    );
                }
                match next_word(line.as_str(), self.cursor_col) {
                    Some(i) => {
                        self.cursor_col = i;
                    },
                    None => {
                        let count = self.lines.len();
                        if self.cursor_row + 1 < count {
                            self.cursor_row = self.cursor_row + 1;
                            self.cursor_col = match find_first_non_ws(
                                &self.lines[self.cursor_row],
                            ) {
                                Some(i) => i,
                                None => 0,
                            };
                        } else {
                            self.cursor_col = self.lines[self.cursor_row].len();
                        }
                    },
                }
            },
            CursorMove::PrevWord => {
                let line = chars_to_string(&self.lines[self.cursor_row]);
                proof {
                    lemma_prev_word_spec_bounds(
                        self@.cur_line(),
                        self.cursor_col as int,
                    );
                }
                match prev_word(line.as_str(), self.cursor_col) {
                    Some(i) => {
                        self.cursor_col = i;
                    },
                    None => {
                        if self.cursor_row > 0 {
                            self.cursor_row = self.cursor_row - 1;
                            self.cursor_col = match find_first_non_ws(
                                &self.lines[self.cursor_row],
                            ) {
                                Some(i) => i,
                                None => self.lines[self.cursor_row].len(),
                            };
                        } else {
                            self.cursor_col = 0;
                        }
                    },
                }
            },
            CursorMove::LineHead => {
                self.cursor_col = 0;
            },
            CursorMove::LineEnd => {
                self.cursor_col = self.lines[self.cursor_row].len();
            },
            CursorMove::Head => {
                self.cursor_col = 0;
                self.cursor_row = 0;
            },
            CursorMove::End => {
                self.cursor_row = self.lines.len() - 1;
                self.cursor_col = self.lines[self.cursor_row].len();
            },
        }
    }

    pub fn scroll(&mut self, cols: isize, rows: isize)
        requires
            old(self).wf(),
        ensures
            final(self)@ == old(self)@.with_scroll(cols as int, rows as int),
            final(self).wf(),
    {
        let col_limit = self.lines[self.cursor_row].len();
        self.scroll_offset_col = scroll_clamped(self.scroll_offset_col, cols, col_limit);
        let row_limit = self.lines.len();
        self.scroll_offset_row = scroll_clamped(self.scroll_offset_row, rows, row_limit);
    }

    pub fn insert_newline(&mut self)
        ensures
            final(self)@ == old(self)@,
    {
    }

    pub fn insert_char(&mut self, character: char)
        ensures
            final(self)@ == old(self)@.with_insert_char(character),
    {
    }

    pub fn delete_char(&mut self)
        ensures
            final(self)@ == old(self)@.with_delete_char(),
    {
    }

    pub fn delete_next_char(&mut self)
        ensures
            final(self)@ == old(self)@.with_delete_next_char(),
    {
    }

    /// The text between the selection anchor and the cursor, in reading
    /// order across lines; empty when no selection is active.
    pub fn selected_text(&self) -> (r: String)
        requires
            self.wf(),
        ensures
            r@ == self@.selected_text(),
    {
        match self.selection_start {
            None => String::new(),
            Some(p) => {
                let last_row = self.lines.len() - 1;
                let ar = if p.1 > last_row {
                    last_row
                } else {
                    p.1
                };
                let alen = self.lines[ar].len();
                let ac = if p.0 > alen {
                    alen
                } else {
                    p.0
                };
                let cr = self.cursor_row;
                let cc = self.cursor_col;
                let fwd = ar < cr || (ar == cr && ac <= cc);
                let (sc, sr) = if fwd {
                    (ac, ar)
                } else {
                    (cc, cr)
                };
                let (ec, er) = if fwd {
                    (cc, cr)
                } else {
                    (ac, ar)
                };
                if sr == er {
                    crate::input::seg_to_string(&self.lines[sr], sc, ec)
                } else {
                    let ghost seg = self@.lines.subrange(sr as int, er + 1).update(
                        0,
                        self@.lines[sr as int].subrange(sc as int, self@.lines[sr as int].len() as int),
                    ).update(er - sr, self@.lines[er as int].subrange(0, ec as int));
                    let mut r = crate::input::seg_to_string(
                        &self.lines[sr],
                        sc,
                        self.lines[sr].len(),
                    );
                    proof {
                        assert(seg.subrange(0, 1).drop_last() =~= Seq::<Seq<char>>::empty());
                        assert(r@ == crate::input::join_lines(seg.subrange(0, 1)));
                    }
                    let mut row = sr + 1;
                    while row < er
                        invariant
                            sr < row <= er < self.lines@.len(),
                            self.wf(),
                            seg == self@.lines.subrange(sr as int, er + 1).update(
                                0,
                                self@.lines[sr as int].subrange(
                                    sc as int,
                                    self@.lines[sr as int].len() as int,
                                ),
                            ).update(er - sr, self@.lines[er as int].subrange(0, ec as int)),
                            seg.len() == er - sr + 1,
                            r@ == crate::input::join_lines(seg.subrange(0, row - sr)),
                        decreases er - row,
                    {
                        crate::input::push_char(&mut r, '\n');
                        crate::input::append_chars(&mut r, &self.lines[row]);
                        proof {
                            let k = row - sr;
                            assert(seg.subrange(0, k + 1).drop_last() =~= seg.subrange(0, k as int));
                            assert(seg.subrange(0, k + 1).last() == seg[k as int]);
                            assert(seg[k as int] == self@.lines[row as int]);
                            assert(r@ =~= crate::input::join_lines(seg.subrange(0, k + 1)));
                        }
                        row += 1;
                    }
                    crate::input::push_char(&mut r, '\n');
                    let tail = crate::input::seg_to_string(&self.lines[er], 0, ec);
                    r.append(tail.as_str());
                    proof {
                        let k = er - sr;
                        assert(seg.subrange(0, k + 1).drop_last() =~= seg.subrange(0, k as int));
                        assert(seg.subrange(0, k + 1).last() == seg[k as int]);
                        assert(seg[k as int] == self@.lines[er as int].subrange(0, ec as int));
                        assert(r@ =~= crate::input::join_lines(seg.subrange(0, k + 1)));
                        assert(seg.subrange(0, seg.len() as int) =~= seg);
                    }
                    r
                }
            },
        }
    }

    pub fn is_empty(&self) -> (r: bool)
        requires
            self.wf(),
        ensures
            r == (self@.text().len() == 0),
    {
        let r = self.lines.len() == 1 && self.lines[0].len() == 0;
        proof {
            let views = self@.lines;
            if views.len() > 1 {
                assert(self@.text() == crate::input::join_lines(views.drop_last()) + seq!['\n']
                    + views.last());
            }
        }
        r
    }

    pub fn start_selection(&mut self)
        ensures
            final(self)@ == old(self)@.with_start_selection(),
    {
        self.selection_start = Some((self.cursor_col, self.cursor_row));
    }

    pub fn cancel_selection(&mut self)
        ensures
            final(self)@ == old(self)@.with_cancel_selection(),
    {
        self.selection_start = None;
    }
}

} // verus!
