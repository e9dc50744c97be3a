use editor_core::buffer::{Buffer, Cursor};
use editor_core::errors::EditorError;

fn buf(lines: &[&str], row: u16, col: u16) -> Buffer {
    Buffer {
        lines: lines.iter().map(|s| s.chars().collect()).collect(),
        cursor: Cursor { col, row },
    }
}

#[test]
fn new_buffer_is_one_empty_line() {
    let b = Buffer::new();
    assert_eq!(b.lines, vec![Vec::<char>::new()]);
    assert_eq!(b.cursor.row, 0);
    assert_eq!(b.cursor.col, 0);
    assert_eq!(b.num_lines(), Ok(1));
    assert_eq!(b.current_line_width(), Ok(0));
    assert_eq!(b.get_cursor_index(), 0);
}

#[test]
fn cursor_index_counts_characters_strictly_before_cursor() {
    let b = buf(&["abc", "de", "fghi"], 2, 3);
    // 3 + 2 characters on the earlier lines, plus 3 on the cursor's own line
    assert_eq!(b.get_cursor_index(), 8);
    let b2 = buf(&["abc", "de", "fghi"], 0, 0);
    assert_eq!(b2.get_cursor_index(), 0);
    let b3 = buf(&["abc", "de", "fghi"], 1, 2);
    assert_eq!(b3.get_cursor_index(), 5);
}

#[test]
fn num_lines_and_width_report_exact_counts() {
    let b = buf(&["abc", "de"], 1, 1);
    assert_eq!(b.num_lines(), Ok(2));
    assert_eq!(b.current_line_width(), Ok(2));
}

#[test]
fn current_line_width_reports_cursor_out_of_bounds() {
    // a cursor row that indexes no line is reported, not recovered
    let b = buf(&["a"], 5, 0);
    assert_eq!(b.current_line_width(), Err(EditorError::CursorOutOfBounds));
}

#[test]
fn current_line_width_reports_out_of_range_on_overwide_line() {
    let mut b = Buffer::new();
    for _ in 0..u16::MAX {
        b.insert_char('x');
    }
    assert_eq!(b.current_line_width(), Ok(u16::MAX));
    b.move_cursor_l(u16::MAX);
    assert_eq!(b.cursor.col, 0);
    b.insert_char('y');
    assert_eq!(b.current_line_width(), Err(EditorError::OutOfRange));
}

#[test]
fn num_lines_reports_out_of_range_past_line_limit() {
    let mut b = Buffer::new();
    for _ in 0..u16::MAX {
        b.insert_newline();
    }
    // 65536 lines no longer fit the u16 line-index range
    assert_eq!(b.num_lines(), Err(EditorError::OutOfRange));
}

#[test]
fn move_up_decreases_row_and_clamps_column() {
    let mut b = buf(&["a", "abc"], 1, 3);
    b.move_cursor_u(1);
    assert_eq!((b.cursor.row, b.cursor.col), (0, 1));
}

#[test]
fn move_up_past_top_resets_to_origin() {
    let mut b = buf(&["abc", "de"], 1, 2);
    b.move_cursor_u(5);
    assert_eq!((b.cursor.row, b.cursor.col), (0, 0));
}

#[test]
fn move_up_one_row_at_a_time_reaches_origin() {
    // row + 1 single-row moves always land at (0, 0)
    let mut b = buf(&["abc", "de", "f"], 2, 1);
    b.move_cursor_u(1);
    assert_eq!((b.cursor.row, b.cursor.col), (1, 1));
    b.move_cursor_u(1);
    assert_eq!((b.cursor.row, b.cursor.col), (0, 1));
    b.move_cursor_u(1);
    assert_eq!((b.cursor.row, b.cursor.col), (0, 0));
}

#[test]
fn move_down_within_bounds_succeeds_and_clamps_column() {
    let mut b = buf(&["abc", "d"], 0, 3);
    assert!(b.move_cursor_d(1));
    assert_eq!((b.cursor.row, b.cursor.col), (1, 1));
}

#[test]
fn move_down_past_bottom_wraps_and_reports_failure() {
    let mut b = buf(&["ab", "cde"], 1, 0);
    assert!(!b.move_cursor_d(1));
    // the cursor wraps to row 0, column set to the pre-move line's width
    assert_eq!((b.cursor.row, b.cursor.col), (0, 3));
}

#[test]
fn move_left_within_line() {
    let mut b = buf(&["abcd"], 0, 3);
    b.move_cursor_l(2);
    assert_eq!((b.cursor.row, b.cursor.col), (0, 1));
}

#[test]
fn move_left_crosses_line_break() {
    let mut b = buf(&["abc", "de"], 1, 1);
    // two steps: one character, then the line break
    b.move_cursor_l(2);
    assert_eq!((b.cursor.row, b.cursor.col), (0, 3));
    b.move_cursor_l(1);
    assert_eq!((b.cursor.row, b.cursor.col), (0, 2));
}

#[test]
fn move_left_clamps_at_start_of_text() {
    let mut b = buf(&["ab", "cd"], 1, 1);
    b.move_cursor_l(200);
    assert_eq!((b.cursor.row, b.cursor.col), (0, 0));
}

#[test]
fn move_right_within_line() {
    let mut b = buf(&["abcd"], 0, 1);
    b.move_cursor_r(2);
    assert_eq!((b.cursor.row, b.cursor.col), (0, 3));
}

#[test]
fn move_right_crosses_line_break() {
    let mut b = buf(&["abc", "de"], 0, 2);
    b.move_cursor_r(2);
    assert_eq!((b.cursor.row, b.cursor.col), (1, 0));
    b.move_cursor_r(1);
    assert_eq!((b.cursor.row, b.cursor.col), (1, 1));
}

#[test]
fn move_right_clamps_at_end_of_text() {
    let mut b = buf(&["ab", "cd"], 0, 0);
    b.move_cursor_r(200);
    assert_eq!((b.cursor.row, b.cursor.col), (1, 2));
}

#[test]
fn right_stays_at_end_of_last_line() {
    // buffer "ab", cursor at (0, 2): one step right with no following lines
    let mut b = buf(&["ab"], 0, 2);
    b.move_cursor_r(1);
    assert_eq!((b.cursor.row, b.cursor.col), (0, 2));
}

#[test]
fn left_then_right_returns_to_start() {
    // round trip across a line break
    let mut b = buf(&["abc", "de"], 1, 1);
    b.move_cursor_l(3);
    assert_eq!((b.cursor.row, b.cursor.col), (0, 2));
    b.move_cursor_r(3);
    assert_eq!((b.cursor.row, b.cursor.col), (1, 1));
}

#[test]
fn left_then_right_round_trip_within_line() {
    let mut b = buf(&["abcdef"], 0, 5);
    b.move_cursor_l(4);
    b.move_cursor_r(4);
    assert_eq!((b.cursor.row, b.cursor.col), (0, 5));
}

#[test]
fn insert_char_advances_cursor() {
    let mut b = Buffer::new();
    b.insert_char('h');
    b.insert_char('i');
    assert_eq!(b.lines, vec![vec!['h', 'i']]);
    assert_eq!((b.cursor.row, b.cursor.col), (0, 2));
}

#[test]
fn insert_char_in_middle_of_line() {
    let mut b = buf(&["ac"], 0, 1);
    b.insert_char('b');
    assert_eq!(b.lines, vec![vec!['a', 'b', 'c']]);
    assert_eq!((b.cursor.row, b.cursor.col), (0, 2));
}

#[test]
fn insert_newline_splits_line_at_cursor() {
    let mut b = buf(&["abcd"], 0, 2);
    b.insert_newline();
    assert_eq!(b.lines, vec![vec!['a', 'b'], vec!['c', 'd']]);
    assert_eq!((b.cursor.row, b.cursor.col), (1, 0));
}

#[test]
fn backspace_removes_character_before_cursor() {
    let mut b = buf(&["abc"], 0, 2);
    b.backspace();
    assert_eq!(b.lines, vec![vec!['a', 'c']]);
    assert_eq!((b.cursor.row, b.cursor.col), (0, 1));
}

#[test]
fn backspace_at_line_start_joins_lines() {
    let mut b = buf(&["ab", "cd"], 1, 0);
    b.backspace();
    assert_eq!(b.lines, vec![vec!['a', 'b', 'c', 'd']]);
    assert_eq!((b.cursor.row, b.cursor.col), (0, 2));
}

#[test]
fn backspace_at_start_of_text_is_a_no_op() {
    let mut b = buf(&["ab"], 0, 0);
    b.backspace();
    assert_eq!(b.lines, vec![vec!['a', 'b']]);
    assert_eq!((b.cursor.row, b.cursor.col), (0, 0));
}

#[test]
fn insert_then_backspace_restores_empty_buffer() {
    // inserting 'x' into an empty buffer and issuing Backspace restores it
    let mut b = Buffer::new();
    b.insert_char('x');
    b.backspace();
    assert_eq!(b.lines, vec![Vec::<char>::new()]);
    assert_eq!((b.cursor.row, b.cursor.col), (0, 0));
}

#[test]
fn fits_terminal_accepts_small_buffers() {
    let b = buf(&["abc", "de"], 0, 0);
    assert!(b.fits_terminal());
}

#[test]
fn fits_terminal_rejects_overwide_line() {
    let mut b = Buffer::new();
    for _ in 0..u16::MAX {
        b.insert_char('x');
    }
    assert!(b.fits_terminal());
    b.move_cursor_l(u16::MAX);
    b.insert_char('y');
    assert!(!b.fits_terminal());
}
