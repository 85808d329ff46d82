//! Key presses, as the engine sees them.

use vstd::prelude::*;

verus! {

/// Which key was pressed.
#[derive(Clone, Copy, PartialEq, Eq, Structural, Debug)]
pub enum KeyCode {
    Char(char),
    Tab,
    Up,
    Down,
    Left,
    Right,
    PageUp,
    PageDown,
    End,
    Enter,
    Backspace,
    Esc,
    /// Any key the engine has no use for.
    Other,
}

/// Which modifier keys were held. `other` stands for any modifier besides
/// shift, control and alt.
#[derive(Clone, Copy, PartialEq, Eq, Structural, Debug)]
pub struct KeyModifiers {
    pub shift: bool,
    pub control: bool,
    pub alt: bool,
    pub other: bool,
}

impl KeyModifiers {
    /// No modifier is held.
    pub open spec fn none(self) -> bool {
        !self.shift && !self.control && !self.alt && !self.other
    }

    /// Control is held, and nothing else.
    pub open spec fn only_control(self) -> bool {
        !self.shift && self.control && !self.alt && !self.other
    }

    /// Whether no modifier is held.
    pub fn is_none(&self) -> (none: bool)
        ensures
            none == self.none(),
    {
        !self.shift && !self.control && !self.alt && !self.other
    }

    /// Whether control is held, and nothing else.
    pub fn is_only_control(&self) -> (only: bool)
        ensures
            only == self.only_control(),
    {
        !self.shift && self.control && !self.alt && !self.other
    }
}

/// One key press: the key and the modifiers held with it.
#[derive(Clone, Copy, PartialEq, Eq, Structural, Debug)]
pub struct KeyEvent {
    pub code: KeyCode,
    pub modifiers: KeyModifiers,
}

} // verus!
