//! Input core of a terminal line editor: a text buffer with a two-dimensional
//! cursor, and a recognizer for multi-key chords that drive editing actions.

pub mod buffer;
pub mod chords;
pub mod errors;
pub mod keys;
