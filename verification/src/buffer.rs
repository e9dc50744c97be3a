//! The editable text together with the cursor that addresses it.
//!
//! The text is kept line by line; the cursor names a line (`row`) and a
//! character offset within it (`col`), where `col` may equal the line's width,
//! meaning "past the last character".  Cursor movement across line boundaries
//! is measured in steps: one step per character and one per line break.

use vstd::prelude::*;

use crate::errors::EditorError;

verus! {

/// Two-dimensional cursor position: zero-based character offset within the
/// line, and zero-based line index.
#[derive(Clone, Copy, Debug, PartialEq, Eq, Structural)]
pub struct Cursor {
    pub col: u16,
    pub row: u16,
}

/// The editable text content, split into lines, and the cursor addressing it.
/// A freshly created buffer holds one empty line with the cursor at (0, 0).
pub struct Buffer {
    pub lines: Vec<Vec<char>>,
    pub cursor: Cursor,
}

/// Number of cursor steps from the start of the text to the start of line
/// `r` of `s`: one step per character plus one per line break.
pub open spec fn steps_to_line(s: Seq<Seq<char>>, r: int) -> int
    decreases r,
{
    if r <= 0 {
        0
    } else {
        steps_to_line(s, r - 1) + s[r - 1].len() + 1
    }
}

/// Number of characters on the lines of `s` strictly before line `r`,
/// line breaks not counted.
pub open spec fn chars_before_line(s: Seq<Seq<char>>, r: int) -> int
    decreases r,
{
    if r <= 0 {
        0
    } else {
        chars_before_line(s, r - 1) + s[r - 1].len()
    }
}

impl Buffer {
    /// The text as a sequence of lines of characters.
    pub open spec fn lines_seq(self) -> Seq<Seq<char>> {
        self.lines@.map_values(|l: Vec<char>| l@)
    }

    /// Character count of line `i`.
    pub open spec fn line_width(self, i: int) -> int {
        self.lines@[i]@.len() as int
    }

    /// The cursor invariant: at least one line exists, the row indexes an
    /// existing line, and the column lies within that line, possibly one
    /// past its last character.
    pub open spec fn wf(self) -> bool {
        &&& self.lines@.len() >= 1
        &&& (self.cursor.row as int) < self.lines@.len()
        &&& (self.cursor.col as int) <= self.line_width(self.cursor.row as int)
    }

    /// Every line is narrow enough for its width to fit a `u16` column.
    pub open spec fn lines_fit(self) -> bool {
        forall|i: int|
            0 <= i < self.lines@.len() ==> #[trigger] self.lines@[i]@.len() <= u16::MAX
    }

    /// The cursor's position in the movement metric: steps from the start of
    /// the text, counting one step per character and one per line break.
    pub open spec fn pos(self) -> int {
        steps_to_line(self.lines_seq(), self.cursor.row as int) + self.cursor.col
    }

    /// The largest cursor position: past the last character of the last line.
    pub open spec fn end_pos(self) -> int {
        steps_to_line(self.lines_seq(), self.lines_seq().len() as int) - 1
    }

    /// The absolute character offset of the cursor in the flattened content:
    /// every character on the lines strictly before the cursor's row, plus
    /// `col` characters of the row itself; line breaks are not counted.
    pub open spec fn spec_cursor_index(self) -> int {
        chars_before_line(self.lines_seq(), self.cursor.row as int) + self.cursor.col
    }

    /// The column the cursor keeps when it lands on line `r`: its current
    /// column, clamped to that line's width.
    pub open spec fn col_clamped(self, r: int) -> u16 {
        if self.cursor.col as int <= self.line_width(r) {
            self.cursor.col
        } else {
            self.line_width(r) as u16
        }
    }

    /// Relation between a buffer and its state after `move_cursor_u(rows)`.
    pub open spec fn moved_up(self, post: Buffer, rows: int) -> bool {
        &&& post.lines == self.lines
        &&& post.cursor == self.spec_move_up(rows)
        &&& post.wf()
    }

    /// Relation between a buffer and its state after `move_cursor_d(rows)`
    /// returned `moved`.  When the move fails, the cursor wraps to row 0
    /// with the column set to the pre-move line's width; that degenerate
    /// state satisfies the cursor invariant only when the pre-move line is
    /// no wider than line 0.
    pub open spec fn moved_down(self, post: Buffer, rows: int, moved: bool) -> bool {
        &&& post.lines == self.lines
        &&& moved == (rows <= self.rows_below())
        &&& moved ==> post.cursor == (Cursor {
            col: self.col_clamped(self.cursor.row + rows),
            row: (self.cursor.row + rows) as u16,
        }) && post.wf()
        &&& !moved ==> post.cursor == (Cursor {
            col: self.line_width(self.cursor.row as int) as u16,
            row: 0,
        })
        &&& !moved && self.line_width(self.cursor.row as int) <= self.line_width(0) ==> post.wf()
    }

    /// Relation between a buffer and its state after `move_cursor_l(cols)`:
    /// the position drops by `cols` steps, clamped at the start of the text.
    pub open spec fn moved_left(self, post: Buffer, cols: int) -> bool {
        &&& post.lines == self.lines
        &&& post.wf()
        &&& post.pos() == if cols <= self.pos() {
            self.pos() - cols
        } else {
            0
        }
    }

    /// Relation between a buffer and its state after `move_cursor_r(cols)`:
    /// the position grows by `cols` steps, clamped at the end of the text.
    pub open spec fn moved_right(self, post: Buffer, cols: int) -> bool {
        &&& post.lines == self.lines
        &&& post.wf()
        &&& post.pos() == if self.pos() + cols <= self.end_pos() {
            self.pos() + cols
        } else {
            self.end_pos()
        }
    }

    /// Relation between a buffer and its state after `insert_char(c)`.
    pub open spec fn inserted_char(self, post: Buffer, c: char) -> bool {
        &&& post.wf()
        &&& post.lines_seq() == self.lines_seq().update(
            self.cursor.row as int,
            self.lines_seq()[self.cursor.row as int].insert(self.cursor.col as int, c),
        )
        &&& post.cursor.row == self.cursor.row
        &&& post.cursor.col == self.cursor.col + 1
    }

    /// Relation between a buffer and its state after `insert_newline`.
    pub open spec fn inserted_newline(self, post: Buffer) -> bool {
        &&& post.wf()
        &&& post.lines_seq() == self.lines_seq().update(
            self.cursor.row as int,
            self.lines_seq()[self.cursor.row as int].take(self.cursor.col as int),
        ).insert(
            self.cursor.row as int + 1,
            self.lines_seq()[self.cursor.row as int].skip(self.cursor.col as int),
        )
        &&& post.cursor.row == self.cursor.row + 1
        &&& post.cursor.col == 0
    }

    /// Relation between a buffer and its state after `backspace`: the
    /// character before the cursor is deleted, a line start joins the line
    /// onto the previous one, and the start of the text is left untouched.
    pub open spec fn deleted_back(self, post: Buffer) -> bool {
        &&& post.wf()
        &&& self.cursor.col > 0 ==> post.lines_seq() == self.lines_seq().update(
            self.cursor.row as int,
            self.lines_seq()[self.cursor.row as int].remove(self.cursor.col as int - 1),
        ) && post.cursor == (Cursor {
            col: (self.cursor.col - 1) as u16,
            row: self.cursor.row,
        })
        &&& self.cursor.col == 0 && self.cursor.row > 0 ==> post.lines_seq()
            == self.lines_seq().update(
            self.cursor.row as int - 1,
            self.lines_seq()[self.cursor.row as int - 1]
                + self.lines_seq()[self.cursor.row as int],
        ).remove(self.cursor.row as int) && post.cursor == (Cursor {
            col: self.line_width(self.cursor.row as int - 1) as u16,
            row: (self.cursor.row - 1) as u16,
        })
        &&& self.cursor.col == 0 && self.cursor.row == 0 ==> post.lines_seq() == self.lines_seq()
            && post.cursor == self.cursor
    }

    /// An empty buffer: one empty line, cursor at (0, 0).
    pub fn new() -> (b: Buffer)
        ensures
            b.wf(),
            b.lines_seq() == seq![Seq::<char>::empty()],
            b.cursor.col == 0 && b.cursor.row == 0,
    {
        let mut lines: Vec<Vec<char>> = Vec::new();
        lines.push(Vec::new());
        let b = Buffer { lines, cursor: Cursor { col: 0, row: 0 } };
        proof {
            assert(b.lines_seq() =~= seq![Seq::<char>::empty()]);
        }
        b
    }

    /// The count of lines in the content, or `OutOfRange` when that count
    /// does not fit the line-index range.
    pub fn num_lines(&self) -> (r: Result<u16, EditorError>)
        ensures
            self.lines@.len() <= u16::MAX ==> r == Ok::<u16, EditorError>(
                self.lines@.len() as u16,
            ),
            self.lines@.len() > u16::MAX ==> r == Err::<u16, EditorError>(EditorError::OutOfRange),
    {
        let n: usize = self.lines.len();
        if n <= u16::MAX as usize {
            Ok(n as u16)
        } else {
            Err(EditorError::OutOfRange)
        }
    }

    /// Character count of the line at the cursor's row; `CursorOutOfBounds`
    /// when the row indexes no existing line, `OutOfRange` when the width
    /// does not fit the column range.
    pub fn current_line_width(&self) -> (r: Result<u16, EditorError>)
        ensures
            (self.cursor.row as int) >= self.lines@.len() ==> r == Err::<u16, EditorError>(
                EditorError::CursorOutOfBounds,
            ),
            (self.cursor.row as int) < self.lines@.len() && self.line_width(self.cursor.row as int)
                <= u16::MAX ==> r == Ok::<u16, EditorError>(
                self.line_width(self.cursor.row as int) as u16,
            ),
            (self.cursor.row as int) < self.lines@.len() && self.line_width(self.cursor.row as int)
                > u16::MAX ==> r == Err::<u16, EditorError>(EditorError::OutOfRange),
    {
        let row: usize = self.cursor.row as usize;
        if row >= self.lines.len() {
            Err(EditorError::CursorOutOfBounds)
        } else {
            let w: usize = self.lines[row].len();
            if w <= u16::MAX as usize {
                Ok(w as u16)
            } else {
                Err(EditorError::OutOfRange)
            }
        }
    }

    /// The absolute character offset of the cursor in the flattened content,
    /// counting every character strictly before the cursor and no line breaks.
    pub fn get_cursor_index(&self) -> (r: usize)
        requires
            self.wf(),
            self.spec_cursor_index() <= usize::MAX,
        ensures
            r as int == self.spec_cursor_index(),
    {
        let mut sum: usize = 0;
        let mut i: usize = 0;
        while i < self.cursor.row as usize
            invariant
                self.wf(),
                self.spec_cursor_index() <= usize::MAX,
                i <= self.cursor.row as int,
                sum as int == chars_before_line(self.lines_seq(), i as int),
            decreases self.cursor.row as int - i,
        {
            proof {
                lemma_chars_before_line_mono(
                    self.lines_seq(),
                    i + 1,
                    self.cursor.row as int,
                );
            }
            sum = sum + self.lines[i].len();
            i = i + 1;
        }
        sum + self.cursor.col as usize
    }

    /// The cursor after an upward move by `rows`: the row decreases by
    /// `rows`, and the column is clamped to the width of the line reached;
    /// when `rows` exceeds the row, the cursor resets to the very start.
    pub open spec fn spec_move_up(self, rows: int) -> Cursor {
        if rows > self.cursor.row as int {
            Cursor { col: 0, row: 0 }
        } else {
            Cursor {
                col: self.col_clamped(self.cursor.row - rows),
                row: (self.cursor.row - rows) as u16,
            }
        }
    }

    /// Count of lines strictly below the cursor's row.
    pub open spec fn rows_below(self) -> int {
        self.lines@.len() - 1 - self.cursor.row as int
    }

    /// Moves the cursor up by `rows`, clamping the column to the width of
    /// the line reached; when `rows` exceeds the row, the cursor resets to
    /// the very start (0, 0), not merely to the topmost row.
    pub fn move_cursor_u(&mut self, rows: u16)
        requires
            old(self).wf(),
        ensures
            old(self).moved_up(*final(self), rows as int),
    {
        if rows > self.cursor.row {
            self.cursor.row = 0;
            self.cursor.col = 0;
        } else {
            self.cursor.row = self.cursor.row - rows;
            let w: usize = self.lines[self.cursor.row as usize].len();
            if self.cursor.col as usize > w {
                self.cursor.col = w as u16;
            }
        }
    }

    /// Moves the cursor down by `rows` and reports success, clamping the
    /// column to the width of the line reached.  When `rows` exceeds the
    /// count of lines below the cursor, no downward movement is performed:
    /// the cursor wraps to row 0 with the column set to the pre-move line's
    /// width, and the call reports failure.
    pub fn move_cursor_d(&mut self, rows: u16) -> (moved: bool)
        requires
            old(self).wf(),
            old(self).lines@.len() <= u16::MAX,
            rows as int > old(self).rows_below() ==> old(self).line_width(
                old(self).cursor.row as int,
            ) <= u16::MAX,
        ensures
            old(self).moved_down(*final(self), rows as int, moved),
    {
        let below: usize = self.lines.len() - 1 - self.cursor.row as usize;
        if rows as usize > below {
            let w: usize = self.lines[self.cursor.row as usize].len();
            self.cursor.row = 0;
            self.cursor.col = w as u16;
            false
        } else {
            self.cursor.row = self.cursor.row + rows;
            let w: usize = self.lines[self.cursor.row as usize].len();
            if self.cursor.col as usize > w {
                self.cursor.col = w as u16;
            }
            true
        }
    }

    /// Moves the cursor left by `cols` steps, one step per character and one
    /// per line break, continuing across line boundaries; at the start of
    /// the text the cursor clamps to (0, 0).
    pub fn move_cursor_l(&mut self, cols: u16)
        requires
            old(self).wf(),
            forall|i: int|
                0 <= i < old(self).cursor.row as int ==> #[trigger] old(self).lines@[i]@.len()
                    <= u16::MAX,
        ensures
            old(self).moved_left(*final(self), cols as int),
    {
        let mut remaining: u16 = cols;
        while remaining > 0
            invariant
                self.wf(),
                self.lines == old(self).lines,
                remaining <= cols,
                self.pos() == old(self).pos() - (cols - remaining),
                forall|i: int|
                    0 <= i < self.cursor.row as int ==> #[trigger] self.lines@[i]@.len()
                        <= u16::MAX,
            decreases remaining,
        {
            if remaining > self.cursor.col {
                if self.cursor.row == 0 {
                    self.cursor.col = 0;
                    return;
                } else {
                    remaining = remaining - self.cursor.col - 1;
                    self.cursor.row = self.cursor.row - 1;
                    let w: usize = self.lines[self.cursor.row as usize].len();
                    self.cursor.col = w as u16;
                }
            } else {
                self.cursor.col = self.cursor.col - remaining;
                remaining = 0;
            }
        }
        proof {
            self.lemma_pos_in_range();
        }
    }

    /// Moves the cursor right by `cols` steps, one step per character and
    /// one per line break, continuing across line boundaries; at the end of
    /// the last line the cursor clamps there.
    pub fn move_cursor_r(&mut self, cols: u16)
        requires
            old(self).wf(),
            old(self).lines@.len() <= u16::MAX,
            forall|i: int|
                old(self).cursor.row as int <= i < old(self).lines@.len()
                    ==> #[trigger] old(self).lines@[i]@.len() <= u16::MAX,
        ensures
            old(self).moved_right(*final(self), cols as int),
    {
        let mut remaining: u16 = cols;
        while remaining > 0
            invariant
                self.wf(),
                self.lines == old(self).lines,
                self.lines@.len() <= u16::MAX,
                remaining <= cols,
                self.pos() == old(self).pos() + (cols - remaining),
                forall|i: int|
                    self.cursor.row as int <= i < self.lines@.len()
                        ==> #[trigger] self.lines@[i]@.len() <= u16::MAX,
            decreases remaining,
        {
            let w: usize = self.lines[self.cursor.row as usize].len();
            let to_right: usize = w - self.cursor.col as usize;
            if remaining as usize > to_right {
                if self.cursor.row as usize == self.lines.len() - 1 {
                    self.cursor.col = w as u16;
                    proof {
                        lemma_steps_to_line_mono(
                            self.lines_seq(),
                            self.cursor.row as int,
                            self.cursor.row as int,
                        );
                    }
                    return;
                } else {
                    remaining = remaining - to_right as u16 - 1;
                    self.cursor.row = self.cursor.row + 1;
                    self.cursor.col = 0;
                }
            } else {
                self.cursor.col = self.cursor.col + remaining;
                remaining = 0;
            }
        }
        proof {
            self.lemma_pos_in_range();
        }
    }

    /// Inserts `c` at the cursor and advances the cursor past it.
    pub fn insert_char(&mut self, c: char)
        requires
            old(self).wf(),
            old(self).cursor.col < u16::MAX,
        ensures
            old(self).inserted_char(*final(self), c),
    {
        let row: usize = self.cursor.row as usize;
        let col: usize = self.cursor.col as usize;
        let line: &mut Vec<char> = &mut self.lines[row];
        line.insert(col, c);
        self.cursor.col = self.cursor.col + 1;
        proof {
            assert(self.lines_seq() =~= old(self).lines_seq().update(
                old(self).cursor.row as int,
                old(self).lines_seq()[old(self).cursor.row as int].insert(
                    old(self).cursor.col as int,
                    c,
                ),
            ));
        }
    }

    /// Inserts a line break at the cursor: the current line is split at the
    /// column, and the cursor moves to the start of the new line.
    pub fn insert_newline(&mut self)
        requires
            old(self).wf(),
            old(self).cursor.row < u16::MAX,
        ensures
            old(self).inserted_newline(*final(self)),
    {
        let row: usize = self.cursor.row as usize;
        let col: usize = self.cursor.col as usize;
        let line: &mut Vec<char> = &mut self.lines[row];
        let tail: Vec<char> = line.split_off(col);
        self.lines.insert(row + 1, tail);
        self.cursor.row = self.cursor.row + 1;
        self.cursor.col = 0;
        proof {
            assert(self.lines_seq() =~= old(self).lines_seq().update(
                old(self).cursor.row as int,
                old(self).lines_seq()[old(self).cursor.row as int].take(
                    old(self).cursor.col as int,
                ),
            ).insert(
                old(self).cursor.row as int + 1,
                old(self).lines_seq()[old(self).cursor.row as int].skip(
                    old(self).cursor.col as int,
                ),
            ));
        }
    }

    /// Deletes the character before the cursor.  At the start of a line the
    /// line is joined onto the previous one; at the very start of the text
    /// nothing happens.
    pub fn backspace(&mut self)
        requires
            old(self).wf(),
            old(self).cursor.col == 0 && old(self).cursor.row > 0 ==> old(self).line_width(
                old(self).cursor.row as int - 1,
            ) <= u16::MAX,
        ensures
            old(self).deleted_back(*final(self)),
    {
        if self.cursor.col > 0 {
            let row: usize = self.cursor.row as usize;
            let col: usize = self.cursor.col as usize;
            let line: &mut Vec<char> = &mut self.lines[row];
            line.remove(col - 1);
            self.cursor.col = self.cursor.col - 1;
            proof {
                assert(self.lines_seq() =~= old(self).lines_seq().update(
                    old(self).cursor.row as int,
                    old(self).lines_seq()[old(self).cursor.row as int].remove(
                        old(self).cursor.col as int - 1,
                    ),
                ));
            }
        } else if self.cursor.row > 0 {
            let row: usize = self.cursor.row as usize;
            let mut tail: Vec<char> = self.lines.remove(row);
            let prev: &mut Vec<char> = &mut self.lines[row - 1];
            let prev_w: usize = prev.len();
            prev.append(&mut tail);
            self.cursor.row = self.cursor.row - 1;
            self.cursor.col = prev_w as u16;
            proof {
                assert(self.lines_seq() =~= old(self).lines_seq().update(
                    old(self).cursor.row as int - 1,
                    old(self).lines_seq()[old(self).cursor.row as int - 1] + old(
                        self,
                    ).lines_seq()[old(self).cursor.row as int],
                ).remove(old(self).cursor.row as int));
            }
        }
    }

    /// Runtime check of the size bounds that the `u16` cursor coordinates
    /// force: the line count and every line width fit `u16`.  Callers use it
    /// to establish the movement preconditions before a session grows past
    /// those bounds, which the error design treats as fatal.
    pub fn fits_terminal(&self) -> (r: bool)
        ensures
            r == (self.lines@.len() <= u16::MAX && self.lines_fit()),
    {
        if self.lines.len() > u16::MAX as usize {
            return false;
        }
        let mut i: usize = 0;
        while i < self.lines.len()
            invariant
                self.lines@.len() <= u16::MAX,
                i <= self.lines@.len(),
                forall|j: int| 0 <= j < i ==> #[trigger] self.lines@[j]@.len() <= u16::MAX,
            decreases self.lines@.len() - i,
        {
            if self.lines[i].len() > u16::MAX as usize {
                return false;
            }
            i = i + 1;
        }
        true
    }

    /// For a well-formed buffer, the cursor position lies between the start
    /// of the text and its end.
    pub proof fn lemma_pos_in_range(self)
        requires
            self.wf(),
        ensures
            0 <= self.pos() <= self.end_pos(),
    {
        lemma_steps_to_line_mono(self.lines_seq(), 0, self.cursor.row as int);
        lemma_steps_to_line_mono(
            self.lines_seq(),
            self.cursor.row as int + 1,
            self.lines_seq().len() as int,
        );
    }
}

/// A cursor on an earlier row sits at a strictly smaller position.
proof fn lemma_row_order(a: Buffer, b: Buffer)
    requires
        a.wf(),
        b.wf(),
        a.lines_seq() == b.lines_seq(),
        (a.cursor.row as int) < b.cursor.row as int,
    ensures
        a.pos() < b.pos(),
{
    lemma_steps_to_line_mono(a.lines_seq(), a.cursor.row as int + 1, b.cursor.row as int);
}

/// Over the same text, the movement-metric position determines the cursor:
/// two well-formed cursors at the same position name the same row and column.
pub proof fn lemma_pos_injective(a: Buffer, b: Buffer)
    requires
        a.wf(),
        b.wf(),
        a.lines_seq() == b.lines_seq(),
        a.pos() == b.pos(),
    ensures
        a.cursor == b.cursor,
{
    if (a.cursor.row as int) < b.cursor.row as int {
        lemma_row_order(a, b);
    } else if (b.cursor.row as int) < a.cursor.row as int {
        lemma_row_order(b, a);
    }
}

/// Law: moving left by `k` steps and then right by `k` steps returns the
/// cursor to its original row and column, for any `k` that does not cross
/// the start of the text (the end cannot be crossed on the way back).  The
/// hypotheses on `b1` and `b2` are exactly what `move_cursor_l(k)` from
/// `b0` and `move_cursor_r(k)` from `b1` ensure.
pub proof fn lemma_left_right_round_trip(b0: Buffer, b1: Buffer, b2: Buffer, k: u16)
    requires
        b0.wf(),
        k as int <= b0.pos(),
        b0.moved_left(b1, k as int),
        b1.moved_right(b2, k as int),
    ensures
        b2.cursor == b0.cursor,
        b2.lines == b0.lines,
{
    b0.lemma_pos_in_range();
    lemma_pos_injective(b0, b2);
}

/// The buffer after one upward move by a single row.
pub open spec fn up_one(b: Buffer) -> Buffer {
    Buffer { lines: b.lines, cursor: b.spec_move_up(1) }
}

/// The buffer after `k` repetitions of an upward move by a single row.
pub open spec fn up_repeated(b: Buffer, k: nat) -> Buffer
    decreases k,
{
    if k == 0 {
        b
    } else {
        up_one(up_repeated(b, (k - 1) as nat))
    }
}

/// While the cursor has not yet reached the top, each repetition of a
/// one-row upward move decreases the row by exactly one.
proof fn lemma_up_repeated_row(b: Buffer, k: nat)
    requires
        b.wf(),
        k <= b.cursor.row,
    ensures
        up_repeated(b, k).wf(),
        up_repeated(b, k).lines == b.lines,
        up_repeated(b, k).cursor.row as int == b.cursor.row - k,
    decreases k,
{
    if k > 0 {
        lemma_up_repeated_row(b, (k - 1) as nat);
    }
}

/// Law: repeating a one-row upward move `row + 1` times always lands the
/// cursor at (0, 0), whatever the starting position.  `up_one` is exactly
/// what `move_cursor_u(1)` ensures.
pub proof fn lemma_up_repeated_reaches_origin(b: Buffer)
    requires
        b.wf(),
    ensures
        up_repeated(b, (b.cursor.row + 1) as nat).cursor == (Cursor { col: 0, row: 0 }),
{
    lemma_up_repeated_row(b, b.cursor.row as nat);
}

/// `chars_before_line` never decreases as more lines are counted.
pub proof fn lemma_chars_before_line_mono(s: Seq<Seq<char>>, a: int, b: int)
    requires
        a <= b,
    ensures
        chars_before_line(s, a) <= chars_before_line(s, b),
    decreases b - a,
{
    if a < b {
        lemma_chars_before_line_mono(s, a, b - 1);
    }
}

/// `steps_to_line` is nonnegative and grows by at least one per line.
pub proof fn lemma_steps_to_line_mono(s: Seq<Seq<char>>, a: int, b: int)
    requires
        0 <= a <= b,
    ensures
        steps_to_line(s, a) + (b - a) <= steps_to_line(s, b),
        0 <= steps_to_line(s, a),
    decreases b - a + a,
{
    if a < b {
        lemma_steps_to_line_mono(s, a, b - 1);
    } else if a > 0 {
        lemma_steps_to_line_mono(s, a - 1, a - 1);
    }
}

} // verus!
