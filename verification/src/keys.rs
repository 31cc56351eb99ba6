//! Key presses, as far as the interface tells them apart.

use vstd::prelude::*;

verus! {

/// The key that was pressed.
#[derive(Debug, Clone, Copy, PartialEq, Eq, Structural)]
pub enum KeyCode {
    Char(char),
    Down,
    Up,
    Home,
    End,
    Enter,
    Esc,
    /// Any other key.
    Other,
}

/// The modifier keys held down with a key, one bit each.
#[derive(Debug, Clone, Copy, PartialEq, Eq, Structural)]
pub struct KeyModifiers {
    pub bits: u8,
}

/// No modifier key.
pub const MODIFIERS_NONE: u8 = 0;

/// The control key, and no other.
pub const MODIFIERS_CONTROL: u8 = 2;

impl KeyModifiers {
    /// Whether no modifier key is held down.
    pub fn is_empty(&self) -> (r: bool)
        ensures
            r == (self.bits == MODIFIERS_NONE),
    {
        self.bits == MODIFIERS_NONE
    }

    /// Whether the control key, and no other modifier key, is held down.
    pub fn is_control(&self) -> (r: bool)
        ensures
            r == (self.bits == MODIFIERS_CONTROL),
    {
        self.bits == MODIFIERS_CONTROL
    }
}

/// A key press.
#[derive(Debug, Clone, Copy, PartialEq, Eq, Structural)]
pub struct KeyEvent {
    pub code: KeyCode,
    pub modifiers: KeyModifiers,
}

} // verus!
