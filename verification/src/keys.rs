//! Key events: a symbolic key identity together with the held modifier keys.

use vstd::prelude::*;

verus! {

/// Symbolic identity of a pressed key.  Keys that no chord pattern inspects
/// are collapsed into `Other`.
#[derive(Clone, Copy, Debug, PartialEq, Eq, Structural)]
pub enum Key {
    /// A printable character key.
    Char(char),
    Enter,
    Backspace,
    Esc,
    Up,
    Down,
    Left,
    Right,
    /// Any key the chord patterns never match on.
    Other,
}

/// The set of modifier keys held during a key press.
#[derive(Clone, Copy, Debug, PartialEq, Eq, Structural)]
pub struct Modifiers {
    pub shift: bool,
    pub control: bool,
    pub alt: bool,
    /// Any further modifier a terminal may report (super, hyper, meta, ...).
    pub other: bool,
}

impl Modifiers {
    /// True when no modifier key at all is held.
    pub open spec fn spec_is_empty(self) -> bool {
        !self.shift && !self.control && !self.alt && !self.other
    }

    /// Runtime check that no modifier key is held.
    pub fn is_empty(&self) -> (r: bool)
        ensures
            r == self.spec_is_empty(),
    {
        !self.shift && !self.control && !self.alt && !self.other
    }

    /// The empty modifier set.
    pub fn none() -> (r: Modifiers)
        ensures
            r.spec_is_empty(),
    {
        Modifiers { shift: false, control: false, alt: false, other: false }
    }
}

/// One recorded key press: key identity plus modifier set.  Immutable once
/// recorded in a chord history.
#[derive(Clone, Copy, Debug, PartialEq, Eq, Structural)]
pub struct KeyPress {
    pub code: Key,
    pub modifiers: Modifiers,
}

impl KeyPress {
    /// An unmodified press of `code`.
    pub fn plain(code: Key) -> (r: KeyPress)
        ensures
            r.code == code,
            r.modifiers.spec_is_empty(),
    {
        KeyPress { code, modifiers: Modifiers::none() }
    }
}

} // verus!
