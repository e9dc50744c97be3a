//! Error conditions reported at the boundary of the text buffer.

use vstd::prelude::*;

verus! {

/// Failure conditions of the buffer's size and position queries.
#[derive(Clone, Copy, Debug, PartialEq, Eq, Structural)]
pub enum EditorError {
    /// The cursor's row does not index an existing line.  This signals an
    /// invariant violation that cannot arise while every mutation goes
    /// through the documented operations, so it is reported rather than
    /// silently recovered.
    CursorOutOfBounds,
    /// A line or column count exceeds the representable range; treated as a
    /// fatal input-size limit for the session, not a recoverable error.
    OutOfRange,
}

} // verus!
