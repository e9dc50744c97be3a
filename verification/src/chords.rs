//! The chord recognizer: it inspects the trailing elements of an accumulated
//! key-press history and reports the action, if any, that they trigger.
//!
//! The recognizer never clears or truncates the history.  The caller clears
//! it after an `Action` or `Elevated` result and keeps it unchanged after
//! `NoAction`, so that a longer chord may still complete later.

use vstd::prelude::*;

use crate::buffer::Buffer;
use crate::keys::{Key, KeyPress};

verus! {

/// A request the caller itself has to carry out, such as ending the program.
#[derive(Clone, Copy, Debug, PartialEq, Eq, Structural)]
pub enum ElevatedRequest {
    EndProgram,
}

/// Result of handling one key press against the accumulated history.
#[derive(Clone, Copy, Debug, PartialEq, Eq, Structural)]
pub enum HandledKeypress {
    /// No pattern matched; the caller must keep the history accumulating.
    NoAction,
    /// An editing action was carried out; the caller must clear the history.
    Action,
    /// The caller must clear the history and carry out the request.
    Elevated(ElevatedRequest),
}

/// A cursor movement direction.
#[derive(Clone, Copy, Debug, PartialEq, Eq, Structural)]
pub enum Direction {
    Up,
    Down,
    Left,
    Right,
}

/// The command a chord history resolves to.
#[derive(Clone, Copy, Debug, PartialEq, Eq, Structural)]
pub enum ChordCommand {
    /// Trailing double Escape: end the session.
    Quit,
    /// Trailing single arrow key: move the cursor one step.
    Move(Direction),
    /// Trailing single printable character: insert it at the cursor.
    Insert(char),
    /// Trailing single Backspace: delete the character before the cursor.
    DeleteBack,
    /// Trailing single Enter: insert a line break.
    Newline,
    /// No pattern matched; the history keeps accumulating.
    Pending,
}

/// The command a single unmodified trailing key triggers on its own.
pub open spec fn key_command(k: KeyPress) -> ChordCommand {
    if !k.modifiers.spec_is_empty() {
        ChordCommand::Pending
    } else {
        match k.code {
            Key::Up => ChordCommand::Move(Direction::Up),
            Key::Down => ChordCommand::Move(Direction::Down),
            Key::Left => ChordCommand::Move(Direction::Left),
            Key::Right => ChordCommand::Move(Direction::Right),
            Key::Char(c) => ChordCommand::Insert(c),
            Key::Backspace => ChordCommand::DeleteBack,
            Key::Enter => ChordCommand::Newline,
            Key::Esc => ChordCommand::Pending,
            Key::Other => ChordCommand::Pending,
        }
    }
}

/// True when the history ends with two unmodified Escape presses.
pub open spec fn ends_with_double_escape(h: Seq<KeyPress>) -> bool {
    &&& h.len() >= 2
    &&& h[h.len() - 2].code == Key::Esc
    &&& h[h.len() - 2].modifiers.spec_is_empty()
    &&& h[h.len() - 1].code == Key::Esc
    &&& h[h.len() - 1].modifiers.spec_is_empty()
}

/// Classification of a chord history: the trailing double Escape wins first,
/// then the single trailing key decides, and an empty history is pending.
pub open spec fn spec_classify(h: Seq<KeyPress>) -> ChordCommand {
    if ends_with_double_escape(h) {
        ChordCommand::Quit
    } else if h.len() >= 1 {
        key_command(h[h.len() - 1])
    } else {
        ChordCommand::Pending
    }
}

/// Evaluates the accumulated history against the chord patterns, first match
/// first: trailing double Escape, then a single trailing unmodified arrow,
/// printable character, Backspace, or Enter.
pub fn classify(combo: &Vec<KeyPress>) -> (r: ChordCommand)
    ensures
        r == spec_classify(combo@),
{
    let n: usize = combo.len();
    if n >= 2 {
        let a: KeyPress = combo[n - 2];
        let b: KeyPress = combo[n - 1];
        if a.code == Key::Esc && a.modifiers.is_empty() && b.code == Key::Esc
            && b.modifiers.is_empty() {
            return ChordCommand::Quit;
        }
    }
    if n >= 1 {
        let k: KeyPress = combo[n - 1];
        if k.modifiers.is_empty() {
            match k.code {
                Key::Up => ChordCommand::Move(Direction::Up),
                Key::Down => ChordCommand::Move(Direction::Down),
                Key::Left => ChordCommand::Move(Direction::Left),
                Key::Right => ChordCommand::Move(Direction::Right),
                Key::Char(c) => ChordCommand::Insert(c),
                Key::Backspace => ChordCommand::DeleteBack,
                Key::Enter => ChordCommand::Newline,
                Key::Esc => ChordCommand::Pending,
                Key::Other => ChordCommand::Pending,
            }
        } else {
            ChordCommand::Pending
        }
    } else {
        ChordCommand::Pending
    }
}

/// Handles the latest key press: classifies the accumulated history and
/// carries the resolved command out on the buffer.  The history itself is
/// never changed; the caller clears it on `Action` or `Elevated` and keeps
/// it on `NoAction`.  The size bounds required per command are those the
/// `u16` cursor coordinates force.
pub fn handle_keypress_events(combo: &Vec<KeyPress>, buffer: &mut Buffer) -> (r: HandledKeypress)
    requires
        old(buffer).wf(),
        (spec_classify(combo@) matches ChordCommand::Move(_)) ==> old(buffer).lines@.len()
            <= u16::MAX && old(buffer).lines_fit(),
        (spec_classify(combo@) matches ChordCommand::Insert(_)) ==> old(buffer).cursor.col
            < u16::MAX,
        spec_classify(combo@) == ChordCommand::Newline ==> old(buffer).cursor.row < u16::MAX,
        spec_classify(combo@) == ChordCommand::DeleteBack && old(buffer).cursor.col == 0 && old(
            buffer,
        ).cursor.row > 0 ==> old(buffer).line_width(old(buffer).cursor.row as int - 1) <= u16::MAX,
    ensures
        ({
            let pre = *old(buffer);
            let post = *final(buffer);
            match spec_classify(combo@) {
                ChordCommand::Quit => r == HandledKeypress::Elevated(ElevatedRequest::EndProgram)
                    && post == pre,
                ChordCommand::Move(d) => r == HandledKeypress::Action && match d {
                    Direction::Up => pre.moved_up(post, 1),
                    Direction::Down => pre.moved_down(post, 1, pre.rows_below() >= 1),
                    Direction::Left => pre.moved_left(post, 1),
                    Direction::Right => pre.moved_right(post, 1),
                },
                ChordCommand::Insert(c) => r == HandledKeypress::Action && pre.inserted_char(
                    post,
                    c,
                ),
                ChordCommand::DeleteBack => r == HandledKeypress::Action && pre.deleted_back(post),
                ChordCommand::Newline => r == HandledKeypress::Action && pre.inserted_newline(
                    post,
                ),
                ChordCommand::Pending => r == HandledKeypress::NoAction && post == pre,
            }
        }),
{
    let cmd: ChordCommand = classify(combo);
    match cmd {
        ChordCommand::Quit => HandledKeypress::Elevated(ElevatedRequest::EndProgram),
        ChordCommand::Move(Direction::Up) => {
            buffer.move_cursor_u(1);
            HandledKeypress::Action
        },
        ChordCommand::Move(Direction::Down) => {
            buffer.move_cursor_d(1);
            HandledKeypress::Action
        },
        ChordCommand::Move(Direction::Left) => {
            buffer.move_cursor_l(1);
            HandledKeypress::Action
        },
        ChordCommand::Move(Direction::Right) => {
            buffer.move_cursor_r(1);
            HandledKeypress::Action
        },
        ChordCommand::Insert(c) => {
            buffer.insert_char(c);
            HandledKeypress::Action
        },
        ChordCommand::DeleteBack => {
            buffer.backspace();
            HandledKeypress::Action
        },
        ChordCommand::Newline => {
            buffer.insert_newline();
            HandledKeypress::Action
        },
        ChordCommand::Pending => HandledKeypress::NoAction,
    }
}

/// Law: a history that ends with two unmodified Escape presses always
/// resolves to the quit request, whatever came before them.
pub proof fn lemma_double_escape_quits(h: Seq<KeyPress>)
    requires
        h.len() >= 2,
        h[h.len() - 2].code == Key::Esc,
        h[h.len() - 2].modifiers.spec_is_empty(),
        h[h.len() - 1].code == Key::Esc,
        h[h.len() - 1].modifiers.spec_is_empty(),
    ensures
        spec_classify(h) == ChordCommand::Quit,
{
}

/// Law: a single unmodified Escape that does not complete the double-Escape
/// chord matches no pattern, so the history is left to keep accumulating.
pub proof fn lemma_single_escape_pending(h: Seq<KeyPress>)
    requires
        h.len() >= 1,
        h[h.len() - 1].code == Key::Esc,
        h[h.len() - 1].modifiers.spec_is_empty(),
        h.len() >= 2 ==> !(h[h.len() - 2].code == Key::Esc && h[h.len()
            - 2].modifiers.spec_is_empty()),
    ensures
        spec_classify(h) == ChordCommand::Pending,
{
}

} // verus!
