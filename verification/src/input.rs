//! Editable text fields and the word-boundary scanner.
//!
//! Cursor positions, lengths and indices are counted in Unicode scalar
//! values throughout, never in storage bytes.

pub mod dummy_input;
pub mod multiline_readonly_input;
pub mod oneline_input;

use vstd::prelude::*;

use crate::input::dummy_input::DummyInput;
use crate::input::multiline_readonly_input::MultilineReadonlyInput;
use crate::input::oneline_input::OnelineInput;
use crate::key::{plain_mods, KeyCode, KeyEvent, KeyModifiers};

verus! {

/// Whether `char::is_whitespace` holds of `c`. The Unicode `White_Space`
/// property is too large to restate here, so it is left uninterpreted and
/// given meaning only through `is_whitespace` below.
pub uninterp spec fn char_whitespace(c: char) -> bool;

/// Whether `char::is_alphanumeric` holds of `c`. The Unicode `Alphabetic`
/// and `Number` properties are too large to restate here.
pub uninterp spec fn char_alphanumeric(c: char) -> bool;

/// Relies on char::is_whitespace: the result depends on the character alone.
#[verifier::external_body]
fn is_whitespace(c: char) -> (r: bool)
    ensures
        r == char_whitespace(c),
{
    c.is_whitespace()
}

/// Relies on char::is_alphanumeric: the result depends on the character alone.
#[verifier::external_body]
fn is_alphanumeric(c: char) -> (r: bool)
    ensures
        r == char_alphanumeric(c),
{
    c.is_alphanumeric()
}

/// Where the forward word scan that started on `line[col]` stops: at the
/// first later character that is not whitespace and either belongs to the
/// other word class or is reached after crossing whitespace. A scan started
/// on whitespace stops at the first non-whitespace character.
pub open spec fn word_stop(line: Seq<char>, col: int, i: int) -> bool {
    if char_whitespace(line[col]) {
        !char_whitespace(line[i])
    } else {
        &&& !char_whitespace(line[i])
        &&& (char_alphanumeric(line[i]) != char_alphanumeric(line[col]) || exists|j: int|
            col < j < i && char_whitespace(line[j]))
    }
}

/// Smallest index at or after `i` where the scan from `col` stops, if any.
pub open spec fn first_word_stop_from(line: Seq<char>, col: int, i: int) -> Option<int>
    decreases line.len() - i,
{
    if i >= line.len() {
        None
    } else if word_stop(line, col, i) {
        Some(i)
    } else {
        first_word_stop_from(line, col, i + 1)
    }
}

/// The column that a forward word motion from `col` lands on, if any:
/// the first stop of the scan that starts on `line[col]`.
pub open spec fn next_word_spec(line: Seq<char>, col: int) -> Option<int> {
    if 0 <= col < line.len() {
        first_word_stop_from(line, col, col + 1)
    } else {
        None
    }
}

/// Largest index below `end` holding a non-whitespace character, if any.
pub open spec fn last_non_ws_before(line: Seq<char>, end: int) -> Option<int>
    decreases end,
{
    if end <= 0 {
        None
    } else if !char_whitespace(line[end - 1]) {
        Some(end - 1)
    } else {
        last_non_ws_before(line, end - 1)
    }
}

/// Start of the maximal run of non-whitespace characters of one word class
/// that ends at `j`.
pub open spec fn run_start(line: Seq<char>, j: int) -> int
    decreases j,
{
    if j <= 0 {
        0
    } else if !char_whitespace(line[j - 1]) && char_alphanumeric(line[j - 1])
        == char_alphanumeric(line[j]) {
        run_start(line, j - 1)
    } else {
        j
    }
}

/// The column that a backward word motion from `col` lands on, if any: the
/// start of the word at or before the cursor, with trailing whitespace
/// skipped first, or column 0 when only whitespace precedes the cursor.
pub open spec fn prev_word_spec(line: Seq<char>, col: int) -> Option<int> {
    if col <= 0 || line.len() == 0 {
        None
    } else {
        let start = if col < line.len() {
            col - 1
        } else {
            line.len() - 1
        };
        match last_non_ws_before(line, start + 1) {
            None => Some(0),
            Some(j) => Some(run_start(line, j)),
        }
    }
}

proof fn lemma_first_stop_found(line: Seq<char>, col: int, a: int, i: int)
    requires
        col < a <= i < line.len(),
        word_stop(line, col, i),
        forall|k: int| a <= k < i ==> !word_stop(line, col, k),
    ensures
        first_word_stop_from(line, col, a) == Some(i),
    decreases i - a,
{
    if a < i {
        lemma_first_stop_found(line, col, a + 1, i);
    }
}

proof fn lemma_first_stop_none(line: Seq<char>, col: int, a: int)
    requires
        col < a,
        forall|k: int| a <= k < line.len() ==> !word_stop(line, col, k),
    ensures
        first_word_stop_from(line, col, a) is None,
    decreases line.len() - a,
{
    if a < line.len() {
        lemma_first_stop_none(line, col, a + 1);
    }
}

proof fn lemma_last_non_ws_found(line: Seq<char>, end: int, j: int)
    requires
        0 <= j < end,
        !char_whitespace(line[j]),
        forall|k: int| j < k < end ==> char_whitespace(line[k]),
    ensures
        last_non_ws_before(line, end) == Some(j),
    decreases end - j,
{
    if j < end - 1 {
        lemma_last_non_ws_found(line, end - 1, j);
    }
}

proof fn lemma_last_non_ws_none(line: Seq<char>, end: int)
    requires
        forall|k: int| 0 <= k < end ==> char_whitespace(line[k]),
    ensures
        last_non_ws_before(line, end) is None,
    decreases end,
{
    if end > 0 {
        lemma_last_non_ws_none(line, end - 1);
    }
}

proof fn lemma_first_stop_inv(line: Seq<char>, col: int, a: int, i: int)
    requires
        0 <= col < line.len(),
        col < a,
        first_word_stop_from(line, col, a) == Some(i),
    ensures
        a <= i < line.len(),
        word_stop(line, col, i),
        forall|k: int| a <= k < i ==> !word_stop(line, col, k),
    decreases line.len() - a,
{
    if a < line.len() && !word_stop(line, col, a) {
        lemma_first_stop_inv(line, col, a + 1, i);
    }
}

proof fn lemma_last_non_ws_inv(line: Seq<char>, end: int)
    requires
        end <= line.len(),
    ensures
        match last_non_ws_before(line, end) {
            Some(j) => 0 <= j < end && !char_whitespace(line[j]) && forall|k: int|
                j < k < end ==> char_whitespace(line[k]),
            None => forall|k: int| 0 <= k < end ==> char_whitespace(line[k]),
        },
    decreases end,
{
    if end > 0 && char_whitespace(line[end - 1]) {
        lemma_last_non_ws_inv(line, end - 1);
    }
}

proof fn lemma_run_start_le(line: Seq<char>, j: int)
    requires
        0 <= j,
    ensures
        0 <= run_start(line, j) <= j,
    decreases j,
{
    if j > 0 && !char_whitespace(line[j - 1]) && char_alphanumeric(line[j - 1])
        == char_alphanumeric(line[j]) {
        lemma_run_start_le(line, j - 1);
    }
}

proof fn lemma_run_start_absorb(line: Seq<char>, a: int, b: int)
    requires
        0 <= a <= b,
        forall|k: int|
            a < k <= b ==> !char_whitespace(#[trigger] line[k - 1]) && char_alphanumeric(
                line[k - 1],
            ) == char_alphanumeric(line[k]),
    ensures
        run_start(line, b) == run_start(line, a),
    decreases b - a,
{
    if a < b {
        lemma_run_start_absorb(line, a, b - 1);
    }
}

/// Law: the two word motions are inverse-adjacent. From the column that a
/// forward word motion out of `col` lands on, a backward word motion lands
/// at or before `col`.
pub proof fn lemma_word_motions_adjacent(line: Seq<char>, col: int, i: int)
    requires
        next_word_spec(line, col) == Some(i),
    ensures
        prev_word_spec(line, i) matches Some(j) && j <= col,
{
    let len = line.len() as int;
    lemma_first_stop_inv(line, col, col + 1, i);
    lemma_last_non_ws_inv(line, i);
    if char_whitespace(line[col]) {
        assert forall|k: int| col <= k < i implies char_whitespace(line[k]) by {
            if k > col {
                assert(!word_stop(line, col, k));
            }
        }
        match last_non_ws_before(line, i) {
            None => {},
            Some(jj) => {
                lemma_run_start_le(line, jj);
            },
        }
    } else {
        match last_non_ws_before(line, i) {
            None => {
                assert(char_whitespace(line[col]));  // contradiction
            },
            Some(jj) => {
                if jj < col {
                    assert(char_whitespace(line[col]));  // contradiction
                } else if jj == col {
                    lemma_run_start_le(line, col);
                } else {
                    assert(!word_stop(line, col, jj));
                    assert(char_alphanumeric(line[jj]) == char_alphanumeric(line[col])
                        && forall|m: int| col < m < jj ==> !char_whitespace(line[m]));
                    assert forall|k: int|
                        col < k <= jj implies !char_whitespace(#[trigger] line[k - 1])
                        && char_alphanumeric(line[k - 1]) == char_alphanumeric(line[k]) by {
                        if col < k - 1 < jj {
                            assert(!word_stop(line, col, k - 1));
                        }
                        if col < k < jj {
                            assert(!word_stop(line, col, k));
                        }
                    }
                    lemma_run_start_absorb(line, col, jj);
                    lemma_run_start_le(line, col);
                }
            },
        }
    }
}

/// Locate the next word boundary on `line` strictly after column `cursor_col`.
///
/// Returns `None` when the cursor sits at or past the end of the line or when
/// the scan exhausts the line; the caller treats that as "end of line".
#[verifier::loop_isolation(false)]
pub fn next_word(line: &str, cursor_col: usize) -> (r: Option<usize>)
    ensures
        match r {
            Some(i) => next_word_spec(line@, cursor_col as int) == Some(i as int),
            None => next_word_spec(line@, cursor_col as int) is None,
        },
{
    let len = line.unicode_len();
    if cursor_col >= len {
        return None;
    }
    let c = line.get_char(cursor_col);
    let c_ws = is_whitespace(c);
    let c_alnum = is_alphanumeric(c);
    let mut i = cursor_col + 1;
    let mut crossed_ws = false;
    while i < len
        invariant
            cursor_col < len == line@.len(),
            cursor_col + 1 <= i <= len,
            c == line@[cursor_col as int],
            c_ws == char_whitespace(c),
            c_alnum == char_alphanumeric(c),
            !c_ws ==> (crossed_ws <==> exists|j: int|
                cursor_col < j < i && char_whitespace(line@[j])),
            forall|k: int| cursor_col < k < i ==> !word_stop(line@, cursor_col as int, k),
        decreases len - i,
    {
        let x = line.get_char(i);
        let x_ws = is_whitespace(x);
        if c_ws {
            if !x_ws {
                proof {
                    lemma_first_stop_found(line@, cursor_col as int, cursor_col + 1, i as int);
                }
                return Some(i);
            }
        } else {
            if x_ws {
                crossed_ws = true;
            } else if is_alphanumeric(x) != c_alnum || crossed_ws {
                proof {
                    lemma_first_stop_found(line@, cursor_col as int, cursor_col + 1, i as int);
                }
                return Some(i);
            }
        }
        i += 1;
    }
    proof {
        lemma_first_stop_none(line@, cursor_col as int, cursor_col + 1);
    }
    None
}

/// Locate the start of the word at or before column `cursor_col` on `line`,
/// skipping any whitespace directly before the cursor.
///
/// Returns `None` only when the cursor is at column 0 or the line is empty.
pub fn prev_word(line: &str, cursor_col: usize) -> (r: Option<usize>)
    ensures
        match r {
            Some(i) => prev_word_spec(line@, cursor_col as int) == Some(i as int),
            None => prev_word_spec(line@, cursor_col as int) is None,
        },
{
    if cursor_col == 0 {
        return None;
    }
    let len = line.unicode_len();
    if len == 0 {
        return None;
    }
    let start = if cursor_col < len {
        cursor_col - 1
    } else {
        len - 1
    };
    let mut j = start + 1;
    loop
        invariant
            0 < len == line@.len(),
            start < len,
            0 <= j <= start + 1,
            forall|k: int| j <= k <= start ==> char_whitespace(line@[k]),
        ensures
            0 <= j <= start + 1,
            forall|k: int| j <= k <= start ==> char_whitespace(line@[k]),
            j > 0 ==> !char_whitespace(line@[j - 1]),
        decreases j,
    {
        if j == 0 {
            break;
        }
        let probe = line.get_char(j - 1);
        if !is_whitespace(probe) {
            break;
        }
        j -= 1;
    }
    if j == 0 {
        proof {
            lemma_last_non_ws_none(line@, start as int + 1);
        }
        return Some(0);
    }
    let anchor = j - 1;
    proof {
        lemma_last_non_ws_found(line@, start as int + 1, anchor as int);
    }
    let mut m = anchor;
    let mut m_alnum = is_alphanumeric(line.get_char(m));
    loop
        invariant
            0 <= m <= anchor < len == line@.len(),
            m_alnum == char_alphanumeric(line@[m as int]),
            !char_whitespace(line@[m as int]),
            run_start(line@, anchor as int) == run_start(line@, m as int),
        ensures
            0 <= m <= anchor,
            run_start(line@, anchor as int) == m as int,
        decreases m,
    {
        if m == 0 {
            break;
        }
        let before = line.get_char(m - 1);
        if is_whitespace(before) || is_alphanumeric(before) != m_alnum {
            break;
        }
        m -= 1;
        m_alnum = is_alphanumeric(line.get_char(m));
    }
    Some(m)
}

/// Bounds of a forward word motion: when it lands somewhere, it lands
/// strictly after the starting column and strictly inside the line.
pub proof fn lemma_next_word_spec_bounds(line: Seq<char>, col: int)
    ensures
        match next_word_spec(line, col) {
            Some(i) => 0 <= col < i < line.len(),
            None => true,
        },
{
    if 0 <= col < line.len() {
        match first_word_stop_from(line, col, col + 1) {
            Some(i) => {
                lemma_first_stop_inv(line, col, col + 1, i);
            },
            None => {},
        }
    }
}

/// Bounds of a backward word motion: when it lands somewhere, it lands
/// strictly before the starting column (clamped to the line) and inside it.
pub proof fn lemma_prev_word_spec_bounds(line: Seq<char>, col: int)
    ensures
        match prev_word_spec(line, col) {
            Some(j) => 0 <= j < line.len() && j < col,
            None => true,
        },
{
    if col > 0 && line.len() > 0 {
        let start = if col < line.len() {
            col - 1
        } else {
            line.len() - 1
        };
        lemma_last_non_ws_inv(line, start + 1);
        match last_non_ws_before(line, start + 1) {
            None => {},
            Some(j) => {
                lemma_run_start_le(line, j);
            },
        }
    }
}

/// A cursor motion that a field can be asked to perform.
#[derive(Clone, Copy, PartialEq, Eq, Structural, Debug)]
pub enum CursorMove {
    NextChar,
    PrevChar,
    NextWord,
    PrevWord,
    LineHead,
    LineEnd,
    Head,
    End,
    NextLine,
    PrevLine,
}

/// The capability of a field: an editable single-line buffer, a read-only
/// multi-line buffer, or the null field on which every operation is a no-op.
#[derive(Clone, Copy, PartialEq, Eq, Structural, Debug)]
pub enum FieldKind {
    Oneline,
    Multiline,
    Null,
}

/// Mathematical model of a text field: its lines of Unicode scalar values,
/// cursor, scroll offset (both as column, row) and optional selection anchor.
#[verifier::ext_equal]
pub ghost struct FieldView {
    pub kind: FieldKind,
    pub lines: Seq<Seq<char>>,
    pub cursor_col: int,
    pub cursor_row: int,
    pub scroll_col: int,
    pub scroll_row: int,
    pub selection: Option<(int, int)>,
}

/// Smallest index at or after `i` holding a non-whitespace character.
pub open spec fn first_non_ws_from(line: Seq<char>, i: int) -> Option<int>
    decreases line.len() - i,
{
    if i >= line.len() {
        None
    } else if !char_whitespace(line[i]) {
        Some(i)
    } else {
        first_non_ws_from(line, i + 1)
    }
}

/// Index of the first non-whitespace character of a line, if any.
pub open spec fn first_non_ws(line: Seq<char>) -> Option<int> {
    first_non_ws_from(line, 0)
}

/// The lines of a field joined by newlines: the text the field holds.
pub open spec fn join_lines(lines: Seq<Seq<char>>) -> Seq<char>
    decreases lines.len(),
{
    if lines.len() == 0 {
        Seq::empty()
    } else if lines.len() == 1 {
        lines[0]
    } else {
        join_lines(lines.drop_last()) + seq!['\n'] + lines.last()
    }
}

/// The text split at newlines; always at least one line.
pub open spec fn split_lines(text: Seq<char>) -> Seq<Seq<char>>
    decreases text.len(),
{
    if text.len() == 0 {
        seq![Seq::empty()]
    } else if text.last() == '\n' {
        split_lines(text.drop_last()).push(Seq::empty())
    } else {
        let rest = split_lines(text.drop_last());
        rest.update(rest.len() - 1, rest.last().push(text.last()))
    }
}

pub proof fn lemma_split_lines_nonempty(text: Seq<char>)
    ensures
        split_lines(text).len() >= 1,
    decreases text.len(),
{
    if text.len() > 0 {
        lemma_split_lines_nonempty(text.drop_last());
    }
}

impl FieldView {
    /// The line the cursor is on.
    pub open spec fn cur_line(self) -> Seq<char> {
        self.lines[self.cursor_row]
    }

    /// Length, in scalar values, of the line the cursor is on.
    pub open spec fn cur_len(self) -> int {
        self.cur_line().len() as int
    }

    pub open spec fn line_count(self) -> int {
        self.lines.len() as int
    }

    /// The text the field holds.
    pub open spec fn text(self) -> Seq<char> {
        join_lines(self.lines)
    }

    /// Well-formedness: the cursor sits inside the line table and at or
    /// before the end of its line; the null field is empty and untouched.
    pub open spec fn wf(self) -> bool {
        &&& 1 <= self.lines.len()
        &&& 0 <= self.cursor_row < self.lines.len()
        &&& 0 <= self.cursor_col <= self.cur_len()
        &&& 0 <= self.scroll_col
        &&& 0 <= self.scroll_row <= self.lines.len()
        &&& match self.kind {
            FieldKind::Oneline => self.lines.len() == 1 && self.scroll_row == 0,
            FieldKind::Multiline => true,
            FieldKind::Null => self.lines.len() == 1 && self.lines[0].len() == 0
                && self.cursor_col == 0 && self.scroll_col == 0 && self.scroll_row == 0
                && self.selection is None,
        }
    }

    /// The view of a fresh single-line field holding `text`.
    pub open spec fn oneline(text: Seq<char>) -> FieldView {
        FieldView {
            kind: FieldKind::Oneline,
            lines: seq![text],
            cursor_col: 0,
            cursor_row: 0,
            scroll_col: 0,
            scroll_row: 0,
            selection: None,
        }
    }

    /// The view of a fresh read-only multi-line field holding `text`.
    pub open spec fn multiline(text: Seq<char>) -> FieldView {
        FieldView {
            kind: FieldKind::Multiline,
            lines: split_lines(text),
            cursor_col: 0,
            cursor_row: 0,
            scroll_col: 0,
            scroll_row: 0,
            selection: None,
        }
    }

    /// The view of the null field.
    pub open spec fn null() -> FieldView {
        FieldView {
            kind: FieldKind::Null,
            lines: seq![Seq::empty()],
            cursor_col: 0,
            cursor_row: 0,
            scroll_col: 0,
            scroll_row: 0,
            selection: None,
        }
    }

    pub open spec fn at_cursor(self, col: int, row: int) -> FieldView {
        FieldView { cursor_col: col, cursor_row: row, ..self }
    }

    /// Where a single-line field's cursor lands after motion `m`.
    pub open spec fn oneline_move_col(self, m: CursorMove) -> int {
        let len = self.lines[0].len() as int;
        match m {
            CursorMove::NextChar => if self.cursor_col + 1 <= len {
                self.cursor_col + 1
            } else {
                len
            },
            CursorMove::PrevChar => if self.cursor_col > 0 {
                self.cursor_col - 1
            } else {
                0
            },
            CursorMove::NextWord => match next_word_spec(self.lines[0], self.cursor_col) {
                Some(i) => i,
                None => len,
            },
            CursorMove::PrevWord => match prev_word_spec(self.lines[0], self.cursor_col) {
                Some(i) => i,
                None => 0,
            },
            CursorMove::LineHead | CursorMove::Head => 0,
            CursorMove::LineEnd | CursorMove::End => len,
            CursorMove::NextLine | CursorMove::PrevLine => self.cursor_col,
        }
    }

    /// The field after a multi-line cursor motion `m`.
    pub open spec fn multiline_move(self, m: CursorMove) -> FieldView {
        match m {
            CursorMove::NextChar => self.at_cursor(
                if self.cursor_col + 1 <= self.cur_len() {
                    self.cursor_col + 1
                } else {
                    self.cur_len()
                },
                self.cursor_row,
            ),
            CursorMove::PrevChar => self.at_cursor(
                if self.cursor_col > 0 {
                    self.cursor_col - 1
                } else {
                    0
                },
                self.cursor_row,
            ),
            CursorMove::NextLine => {
                let nrow = if self.cursor_row + 1 <= self.line_count() - 1 {
                    self.cursor_row + 1
                } else {
                    self.line_count() - 1
                };
                let nlen = self.lines[nrow].len() as int;
                self.at_cursor(
                    if self.cursor_col <= nlen {
                        self.cursor_col
                    } else {
                        nlen
                    },
                    nrow,
                )
            },
            CursorMove::PrevLine => {
                let nrow = if self.cursor_row > 0 {
                    self.cursor_row - 1
                } else {
                    0
                };
                let nlen = self.lines[nrow].len() as int;
                self.at_cursor(
                    if self.cursor_col <= nlen {
                        self.cursor_col
                    } else {
                        nlen
                    },
                    nrow,
                )
            },
            CursorMove::NextWord => match next_word_spec(self.cur_line(), self.cursor_col) {
                Some(i) => self.at_cursor(i, self.cursor_row),
                None => if self.cursor_row < self.line_count() - 1 {
                    let nrow = self.cursor_row + 1;
                    let ncol = match first_non_ws(self.lines[nrow]) {
                        Some(i) => i,
                        None => 0,
                    };
                    self.at_cursor(ncol, nrow)
                } else {
                    self.at_cursor(self.cur_len(), self.cursor_row)
                },
            },
            CursorMove::PrevWord => match prev_word_spec(self.cur_line(), self.cursor_col) {
                Some(i) => self.at_cursor(i, self.cursor_row),
                None => if self.cursor_row > 0 {
                    let nrow = self.cursor_row - 1;
                    let ncol = match first_non_ws(self.lines[nrow]) {
                        Some(i) => i,
                        None => self.lines[nrow].len() as int,
                    };
                    self.at_cursor(ncol, nrow)
                } else {
                    self.at_cursor(0, self.cursor_row)
                },
            },
            CursorMove::LineHead => self.at_cursor(0, self.cursor_row),
            CursorMove::LineEnd => self.at_cursor(self.cur_len(), self.cursor_row),
            CursorMove::Head => self.at_cursor(0, 0),
            CursorMove::End => self.at_cursor(
                self.lines.last().len() as int,
                self.line_count() - 1,
            ),
        }
    }

    /// The field after cursor motion `m`: the null field never moves, a
    /// single-line field moves its column only, a multi-line field may also
    /// change row and then clamps the column to the new line.
    pub open spec fn with_move(self, m: CursorMove) -> FieldView {
        match self.kind {
            FieldKind::Null => self,
            FieldKind::Oneline => self.at_cursor(self.oneline_move_col(m), self.cursor_row),
            FieldKind::Multiline => self.multiline_move(m),
        }
    }

    /// The field after `insert_char(c)`: only an editable field changes —
    /// `c` enters at the cursor and the cursor advances past it. A line
    /// already at the machine's index limit stays as it is.
    pub open spec fn with_insert_char(self, c: char) -> FieldView {
        if self.kind is Oneline && self.lines[0].len() < usize::MAX {
            FieldView {
                lines: seq![self.lines[0].insert(self.cursor_col, c)],
                cursor_col: self.cursor_col + 1,
                ..self
            }
        } else {
            self
        }
    }

    /// The field after `delete_char`: only an editable field with the cursor
    /// past column 0 changes — the scalar value before the cursor leaves and
    /// the cursor steps back onto its place.
    pub open spec fn with_delete_char(self) -> FieldView {
        if self.kind is Oneline && self.cursor_col > 0 {
            FieldView {
                lines: seq![self.lines[0].remove(self.cursor_col - 1)],
                cursor_col: self.cursor_col - 1,
                ..self
            }
        } else {
            self
        }
    }

    /// The field after `delete_next_char`: only an editable field with the
    /// cursor before the end of the line changes — the scalar value at the
    /// cursor leaves and the cursor stays.
    pub open spec fn with_delete_next_char(self) -> FieldView {
        if self.kind is Oneline && self.cursor_col < self.lines[0].len() {
            FieldView { lines: seq![self.lines[0].remove(self.cursor_col)], ..self }
        } else {
            self
        }
    }

    /// The field after `scroll(cols, rows)`: the offset advances by the
    /// signed deltas, clamped to the current line length and the line count;
    /// a single-line field ignores the row delta.
    pub open spec fn with_scroll(self, cols: int, rows: int) -> FieldView {
        match self.kind {
            FieldKind::Null => self,
            FieldKind::Oneline => FieldView {
                scroll_col: clamp_int(self.scroll_col + cols, 0, self.lines[0].len() as int),
                ..self
            },
            FieldKind::Multiline => FieldView {
                scroll_col: clamp_int(self.scroll_col + cols, 0, self.cur_len()),
                scroll_row: clamp_int(self.scroll_row + rows, 0, self.line_count()),
                ..self
            },
        }
    }

    /// The field after `start_selection`: the cursor becomes the anchor.
    pub open spec fn with_start_selection(self) -> FieldView {
        if self.kind is Null {
            self
        } else {
            FieldView { selection: Some((self.cursor_col, self.cursor_row)), ..self }
        }
    }

    /// The field after `cancel_selection`: no anchor remains.
    pub open spec fn with_cancel_selection(self) -> FieldView {
        FieldView { selection: None, ..self }
    }
}

impl FieldView {
    /// A selection endpoint clamped into the field: edits made after the
    /// anchor was recorded may have left it past the end of a line.
    pub open spec fn clamped_sel_pos(self, p: (int, int)) -> (int, int) {
        let row = clamp_int(p.1, 0, self.line_count() - 1);
        let col = clamp_int(p.0, 0, self.lines[row].len() as int);
        (col, row)
    }

    /// The text between the selection anchor and the cursor, in reading
    /// order and exclusive of the later endpoint; empty when no selection
    /// is active.
    pub open spec fn selected_text(self) -> Seq<char> {
        match self.selection {
            None => Seq::empty(),
            Some(a) => {
                let p1 = self.clamped_sel_pos(a);
                let p2 = self.clamped_sel_pos((self.cursor_col, self.cursor_row));
                let fwd = p1.1 < p2.1 || (p1.1 == p2.1 && p1.0 <= p2.0);
                let start = if fwd {
                    p1
                } else {
                    p2
                };
                let end = if fwd {
                    p2
                } else {
                    p1
                };
                if start.1 == end.1 {
                    self.lines[start.1].subrange(start.0, end.0)
                } else {
                    let seg = self.lines.subrange(start.1, end.1 + 1).update(
                        0,
                        self.lines[start.1].subrange(start.0, self.lines[start.1].len() as int),
                    ).update(end.1 - start.1, self.lines[end.1].subrange(0, end.0));
                    join_lines(seg)
                }
            },
        }
    }

    /// The field after an insert-mode key: printable characters and Tab
    /// insert, Backspace and Delete delete, plain arrows and Home/End move
    /// the cursor, Enter asks for a newline (a no-op for every field kind
    /// here), and anything else is ignored.
    pub open spec fn with_insert_key(self, e: KeyEvent) -> FieldView {
        match e.code {
            KeyCode::Enter => self,
            KeyCode::Char(c) => if plain_mods(e.modifiers) {
                self.with_insert_char(c)
            } else {
                self
            },
            KeyCode::Tab => if plain_mods(e.modifiers) {
                self.with_insert_char('\t')
            } else {
                self
            },
            KeyCode::Backspace => if plain_mods(e.modifiers) {
                self.with_delete_char()
            } else {
                self
            },
            KeyCode::Delete => if plain_mods(e.modifiers) {
                self.with_delete_next_char()
            } else {
                self
            },
            KeyCode::Left => if e.modifiers is NoMods {
                self.with_move(CursorMove::PrevChar)
            } else {
                self
            },
            KeyCode::Right => if e.modifiers is NoMods {
                self.with_move(CursorMove::NextChar)
            } else {
                self
            },
            KeyCode::Up => if e.modifiers is NoMods {
                self.with_move(CursorMove::PrevLine)
            } else {
                self
            },
            KeyCode::Down => if e.modifiers is NoMods {
                self.with_move(CursorMove::NextLine)
            } else {
                self
            },
            KeyCode::Home => if plain_mods(e.modifiers) {
                self.with_move(CursorMove::Head)
            } else {
                self
            },
            KeyCode::End => if plain_mods(e.modifiers) {
                self.with_move(CursorMove::End)
            } else {
                self
            },
            _ => self,
        }
    }
}

/// An operation the model routes to whichever field is current.
#[derive(Clone, Copy, PartialEq, Eq, Structural, Debug)]
pub enum FieldOp {
    Move(CursorMove),
    InsertKey(KeyEvent),
    StartSelection,
    CancelSelection,
}

impl FieldView {
    /// The field after a routed operation.
    pub open spec fn apply(self, op: FieldOp) -> FieldView {
        match op {
            FieldOp::Move(m) => self.with_move(m),
            FieldOp::InsertKey(e) => self.with_insert_key(e),
            FieldOp::StartSelection => self.with_start_selection(),
            FieldOp::CancelSelection => self.with_cancel_selection(),
        }
    }
}

/// One text field of the interface: the closed set of field kinds behind a
/// single interface, dispatched by variant.
pub enum TextField {
    Oneline(OnelineInput),
    Multiline(MultilineReadonlyInput),
    Null(DummyInput),
}

impl View for TextField {
    type V = FieldView;

    open spec fn view(&self) -> FieldView {
        match self {
            TextField::Oneline(f) => f@,
            TextField::Multiline(f) => f@,
            TextField::Null(f) => f@,
        }
    }
}

impl TextField {
    pub open spec fn wf(&self) -> bool {
        self@.wf()
    }

    pub fn new_oneline(text: &str) -> (r: Self)
        ensures
            r@ == FieldView::oneline(text@),
            r.wf(),
    {
        TextField::Oneline(OnelineInput::from_text(text))
    }

    pub fn new_multiline(text: &str) -> (r: Self)
        ensures
            r@ == FieldView::multiline(text@),
            r.wf(),
    {
        TextField::Multiline(MultilineReadonlyInput::from_text(text))
    }

    pub fn new_null() -> (r: Self)
        ensures
            r@ == FieldView::null(),
            r.wf(),
    {
        TextField::Null(DummyInput::new())
    }

    pub fn value(&self) -> (r: String)
        ensures
            r@ == self@.text(),
    {
        match self {
            TextField::Oneline(f) => f.value(),
            TextField::Multiline(f) => f.value(),
            TextField::Null(f) => f.value(),
        }
    }

    /// Count of scalar values in the row the cursor is on.
    pub fn len(&self) -> (r: usize)
        requires
            self.wf(),
        ensures
            r == self@.cur_len(),
    {
        match self {
            TextField::Oneline(f) => f.len(),
            TextField::Multiline(f) => f.len(),
            TextField::Null(f) => f.len(),
        }
    }

    pub fn cursor(&self) -> (r: (usize, usize))
        ensures
            r.0 == self@.cursor_col,
            r.1 == self@.cursor_row,
    {
        match self {
            TextField::Oneline(f) => f.cursor(),
            TextField::Multiline(f) => f.cursor(),
            TextField::Null(f) => f.cursor(),
        }
    }

    pub fn scroll_offset(&self) -> (r: (usize, usize))
        ensures
            r.0 == self@.scroll_col,
            r.1 == self@.scroll_row,
    {
        match self {
            TextField::Oneline(f) => f.scroll_offset(),
            TextField::Multiline(f) => f.scroll_offset(),
            TextField::Null(f) => f.scroll_offset(),
        }
    }

    pub fn move_cursor(&mut self, cursor_move: CursorMove)
        requires
            old(self).wf(),
        ensures
            final(self)@ == old(self)@.with_move(cursor_move),
            final(self).wf(),
    {
        match self {
            TextField::Oneline(f) => f.move_cursor(cursor_move),
            TextField::Multiline(f) => f.move_cursor(cursor_move),
            TextField::Null(f) => f.move_cursor(cursor_move),
        }
    }

    pub fn scroll(&mut self, cols: isize, rows: isize)
        requires
            old(self).wf(),
        ensures
            final(self)@ == old(self)@.with_scroll(cols as int, rows as int),
            final(self).wf(),
    {
        match self {
            TextField::Oneline(f) => f.scroll(cols, rows),
            TextField::Multiline(f) => f.scroll(cols, rows),
            TextField::Null(f) => f.scroll(cols, rows),
        }
    }

    pub fn insert_newline(&mut self)
        ensures
            final(self)@ == old(self)@,
    {
        match self {
            TextField::Oneline(f) => f.insert_newline(),
            TextField::Multiline(f) => f.insert_newline(),
            TextField::Null(f) => f.insert_newline(),
        }
    }

    pub fn insert_char(&mut self, character: char)
        requires
            old(self).wf(),
        ensures
            final(self)@ == old(self)@.with_insert_char(character),
            final(self).wf(),
    {
        match self {
            TextField::Oneline(f) => f.insert_char(character),
            TextField::Multiline(f) => f.insert_char(character),
            TextField::Null(f) => f.insert_char(character),
        }
    }

    pub fn delete_char(&mut self)
        requires
            old(self).wf(),
        ensures
            final(self)@ == old(self)@.with_delete_char(),
            final(self).wf(),
    {
        match self {
            TextField::Oneline(f) => f.delete_char(),
            TextField::Multiline(f) => f.delete_char(),
            TextField::Null(f) => f.delete_char(),
        }
    }

    pub fn delete_next_char(&mut self)
        requires
            old(self).wf(),
        ensures
            final(self)@ == old(self)@.with_delete_next_char(),
            final(self).wf(),
    {
        match self {
            TextField::Oneline(f) => f.delete_next_char(),
            TextField::Multiline(f) => f.delete_next_char(),
            TextField::Null(f) => f.delete_next_char(),
        }
    }

    pub fn start_selection(&mut self)
        requires
            old(self).wf(),
        ensures
            final(self)@ == old(self)@.with_start_selection(),
            final(self).wf(),
    {
        match self {
            TextField::Oneline(f) => f.start_selection(),
            TextField::Multiline(f) => f.start_selection(),
            TextField::Null(f) => f.start_selection(),
        }
    }

    pub fn cancel_selection(&mut self)
        requires
            old(self).wf(),
        ensures
            final(self)@ == old(self)@.with_cancel_selection(),
            final(self).wf(),
    {
        match self {
            TextField::Oneline(f) => f.cancel_selection(),
            TextField::Multiline(f) => f.cancel_selection(),
            TextField::Null(f) => f.cancel_selection(),
        }
    }

    pub fn is_empty(&self) -> (r: bool)
        requires
            self.wf(),
        ensures
            r == (self@.text().len() == 0),
    {
        match self {
            TextField::Oneline(f) => f.is_empty(),
            TextField::Multiline(f) => f.is_empty(),
            TextField::Null(f) => f.is_empty(),
        }
    }

    /// The text between the selection anchor and the cursor, in reading
    /// order; empty when no selection is active.
    pub fn selected_text(&self) -> (r: String)
        requires
            self.wf(),
        ensures
            r@ == self@.selected_text(),
    {
        match self {
            TextField::Oneline(f) => f.selected_text(),
            TextField::Multiline(f) => f.selected_text(),
            TextField::Null(f) => f.selected_text(),
        }
    }

    /// Apply a routed operation to the field.
    pub fn apply(&mut self, op: FieldOp)
        requires
            old(self).wf(),
        ensures
            final(self)@ == old(self)@.apply(op),
            final(self).wf(),
    {
        match op {
            FieldOp::Move(m) => self.move_cursor(m),
            FieldOp::InsertKey(e) => self.handle_input(e),
            FieldOp::StartSelection => self.start_selection(),
            FieldOp::CancelSelection => self.cancel_selection(),
        }
    }

    /// Apply an insert-mode key to the field.
    pub fn handle_input(&mut self, key_event: KeyEvent)
        requires
            old(self).wf(),
        ensures
            final(self)@ == old(self)@.with_insert_key(key_event),
            final(self).wf(),
    {
        match key_event.code {
            KeyCode::Enter => self.insert_newline(),
            KeyCode::Char(c) => {
                if plain(key_event.modifiers) {
                    self.insert_char(c);
                }
            },
            KeyCode::Tab => {
                if plain(key_event.modifiers) {
                    self.insert_char('\t');
                }
            },
            KeyCode::Backspace => {
                if plain(key_event.modifiers) {
                    self.delete_char();
                }
            },
            KeyCode::Delete => {
                if plain(key_event.modifiers) {
                    self.delete_next_char();
                }
            },
            KeyCode::Left => {
                if matches!(key_event.modifiers, KeyModifiers::NoMods) {
                    self.move_cursor(CursorMove::PrevChar);
                }
            },
            KeyCode::Right => {
                if matches!(key_event.modifiers, KeyModifiers::NoMods) {
                    self.move_cursor(CursorMove::NextChar);
                }
            },
            KeyCode::Up => {
                if matches!(key_event.modifiers, KeyModifiers::NoMods) {
                    self.move_cursor(CursorMove::PrevLine);
                }
            },
            KeyCode::Down => {
                if matches!(key_event.modifiers, KeyModifiers::NoMods) {
                    self.move_cursor(CursorMove::NextLine);
                }
            },
            KeyCode::Home => {
                if plain(key_event.modifiers) {
                    self.move_cursor(CursorMove::Head);
                }
            },
            KeyCode::End => {
                if plain(key_event.modifiers) {
                    self.move_cursor(CursorMove::End);
                }
            },
            _ => {},
        }
    }
}

/// Whether the modifiers are plain typing modifiers: none, or shift alone.
fn plain(m: KeyModifiers) -> (r: bool)
    ensures
        r == plain_mods(m),
{
    matches!(m, KeyModifiers::NoMods | KeyModifiers::Shift)
}

/// Law: on an editable single-line field with room for one more scalar
/// value, `insert_char` followed immediately by `delete_char` restores the
/// original value and cursor position.
pub proof fn lemma_insert_then_delete(v: FieldView, c: char)
    requires
        v.wf(),
        v.kind is Oneline,
        v.lines[0].len() < usize::MAX,
    ensures
        v.with_insert_char(c).with_delete_char() == v,
{
    let v1 = v.with_insert_char(c);
    assert(v1.with_delete_char().lines[0] =~= v.lines[0]);
    assert(v1.with_delete_char().lines =~= v.lines);
    assert(v1.with_delete_char() =~= v);
}

/// Law: `move_cursor(NextChar)` followed by `move_cursor(PrevChar)` is a
/// no-op on every field whose cursor is not at the end of its line.
pub proof fn lemma_next_then_prev_char(v: FieldView)
    requires
        v.wf(),
        v.cursor_col < v.cur_len(),
    ensures
        v.with_move(CursorMove::NextChar).with_move(CursorMove::PrevChar) == v,
{
    assert(v.with_move(CursorMove::NextChar).with_move(CursorMove::PrevChar) =~= v);
}

pub open spec fn clamp_int(x: int, lo: int, hi: int) -> int {
    if x < lo {
        lo
    } else if x > hi {
        hi
    } else {
        x
    }
}

/// `offset` advanced by the signed `delta`, clamped to `[0, limit]`.
pub(crate) fn scroll_clamped(offset: usize, delta: isize, limit: usize) -> (r: usize)
    ensures
        r == clamp_int(offset + delta, 0, limit as int),
{
    if delta >= 0 {
        let grown = offset.saturating_add(delta as usize);
        if grown > limit {
            limit
        } else {
            grown
        }
    } else {
        let step: usize = if delta == isize::MIN {
            (isize::MAX as usize) + 1
        } else {
            (-delta) as usize
        };
        let shrunk = offset.saturating_sub(step);
        if shrunk > limit {
            limit
        } else {
            shrunk
        }
    }
}

/// Relies on String::push: appends one character to the end of the string.
#[verifier::external_body]
pub(crate) fn push_char(s: &mut String, c: char)
    ensures
        final(s)@ == old(s)@.push(c),
{
    s.push(c)
}

/// Copy the characters of a string into a vector of scalar values.
pub(crate) fn str_to_chars(s: &str) -> (r: Vec<char>)
    ensures
        r@ == s@,
{
    let len = s.unicode_len();
    let mut r: Vec<char> = Vec::new();
    let mut i: usize = 0;
    while i < len
        invariant
            i <= len == s@.len(),
            r@ == s@.subrange(0, i as int),
        decreases len - i,
    {
        r.push(s.get_char(i));
        proof {
            assert(r@ =~= s@.subrange(0, i + 1));
        }
        i += 1;
    }
    proof {
        assert(r@ =~= s@);
    }
    r
}

/// Append the scalar values of `v` to `s`.
pub(crate) fn append_chars(s: &mut String, v: &Vec<char>)
    ensures
        final(s)@ == old(s)@ + v@,
{
    let mut i: usize = 0;
    while i < v.len()
        invariant
            i <= v@.len(),
            s@ == old(s)@ + v@.subrange(0, i as int),
        decreases v@.len() - i,
    {
        push_char(s, v[i]);
        proof {
            assert(s@ =~= old(s)@ + v@.subrange(0, i + 1));
        }
        i += 1;
    }
    proof {
        assert(old(s)@ + v@.subrange(0, v@.len() as int) =~= old(s)@ + v@);
    }
}

/// Split `text` at newlines into lines of scalar values; at least one line.
pub(crate) fn split_text(text: &str) -> (r: Vec<Vec<char>>)
    ensures
        r@.map_values(|l: Vec<char>| l@) == split_lines(text@),
        r@.len() >= 1,
{
    let len = text.unicode_len();
    let mut lines: Vec<Vec<char>> = Vec::new();
    let mut cur: Vec<char> = Vec::new();
    let mut i: usize = 0;
    while i < len
        invariant
            i <= len == text@.len(),
            lines@.map_values(|l: Vec<char>| l@).push(cur@) =~= split_lines(
                text@.subrange(0, i as int),
            ),
        decreases len - i,
    {
        let ghost prev = text@.subrange(0, i as int);
        let ghost lv = lines@.map_values(|l: Vec<char>| l@);
        let c = text.get_char(i);
        proof {
            assert(text@.subrange(0, i + 1).drop_last() =~= prev);
            assert(text@.subrange(0, i + 1).last() == c);
        }
        if c == '\n' {
            let ghost cv = cur@;
            lines.push(cur);
            cur = Vec::new();
            proof {
                assert(lines@.map_values(|l: Vec<char>| l@) =~= lv.push(cv));
                assert(lines@.map_values(|l: Vec<char>| l@).push(cur@) =~= split_lines(
                    text@.subrange(0, i + 1),
                ));
            }
        } else {
            let ghost cv = cur@;
            cur.push(c);
            proof {
                let rest = split_lines(prev);
                assert(rest == lv.push(cv));
                assert(rest.update(rest.len() - 1, rest.last().push(c)) =~= lv.push(cv.push(c)));
                assert(lines@.map_values(|l: Vec<char>| l@).push(cur@) =~= split_lines(
                    text@.subrange(0, i + 1),
                ));
            }
        }
        i += 1;
    }
    proof {
        assert(text@.subrange(0, len as int) =~= text@);
    }
    lines.push(cur);
    proof {
        assert(lines@.map_values(|l: Vec<char>| l@) =~= split_lines(text@));
    }
    lines
}

/// Join lines of scalar values with newlines into one string.
pub(crate) fn join_text(lines: &Vec<Vec<char>>) -> (r: String)
    ensures
        r@ == join_lines(lines@.map_values(|l: Vec<char>| l@)),
{
    let mut r = String::new();
    let mut i: usize = 0;
    let ghost views = lines@.map_values(|l: Vec<char>| l@);
    while i < lines.len()
        invariant
            i <= lines@.len(),
            views == lines@.map_values(|l: Vec<char>| l@),
            r@ == join_lines(views.subrange(0, i as int)),
        decreases lines@.len() - i,
    {
        if i > 0 {
            push_char(&mut r, '\n');
        }
        append_chars(&mut r, &lines[i]);
        proof {
            let part = views.subrange(0, i + 1);
            assert(part.drop_last() =~= views.subrange(0, i as int));
            assert(part.last() == views[i as int]);
            if i == 0 {
                assert(r@ =~= join_lines(part));
            } else {
                assert(r@ =~= join_lines(views.subrange(0, i as int)) + seq!['\n'] + views[
                    i as int
                ]);
            }
        }
        i += 1;
    }
    proof {
        assert(views.subrange(0, views.len() as int) =~= views);
    }
    r
}

/// Index of the first non-whitespace scalar value of `line`, if any.
pub(crate) fn find_first_non_ws(line: &Vec<char>) -> (r: Option<usize>)
    ensures
        match r {
            Some(i) => first_non_ws(line@) == Some(i as int) && i < line@.len(),
            None => first_non_ws(line@) is None,
        },
{
    let mut i: usize = 0;
    while i < line.len()
        invariant
            i <= line@.len(),
            first_non_ws(line@) == first_non_ws_from(line@, i as int),
        decreases line@.len() - i,
    {
        if !is_whitespace(line[i]) {
            return Some(i);
        }
        i += 1;
    }
    None
}

/// Build a string out of a segment of a vector of scalar values.
pub(crate) fn seg_to_string(v: &Vec<char>, from: usize, to: usize) -> (r: String)
    requires
        from <= to <= v@.len(),
    ensures
        r@ == v@.subrange(from as int, to as int),
{
    let mut r = String::new();
    let mut i: usize = from;
    while i < to
        invariant
            from <= i <= to <= v@.len(),
            r@ == v@.subrange(from as int, i as int),
        decreases to - i,
    {
        push_char(&mut r, v[i]);
        proof {
            assert(r@ =~= v@.subrange(from as int, i + 1));
        }
        i += 1;
    }
    r
}

/// Build a string out of a vector of scalar values.
pub(crate) fn chars_to_string(v: &Vec<char>) -> (r: String)
    ensures
        r@ == v@,
{
    let mut r = String::new();
    let mut i: usize = 0;
    while i < v.len()
        invariant
            i <= v@.len(),
            r@ == v@.subrange(0, i as int),
        decreases v@.len() - i,
    {
        push_char(&mut r, v[i]);
        proof {
            assert(r@ =~= v@.subrange(0, i + 1));
        }
        i += 1;
    }
    proof {
        assert(r@ =~= v@);
    }
    r
}

} // verus!
