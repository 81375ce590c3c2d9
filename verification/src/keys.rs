//! Keyboard input as the TUI components see it.

use vstd::prelude::*;

verus! {

/// The key of a key press.
#[derive(Clone, Copy, PartialEq, Eq, Debug)]
pub enum KeyCode {
    Esc,
    Up,
    Down,
    Left,
    Right,
    Enter,
    Backspace,
    Tab,
    Home,
    End,
    PageUp,
    PageDown,
    Delete,
    F(u8),
    Char(char),
    Other,
}

/// No modifier held.
pub const MOD_NONE: u8 = 0;

/// Shift held (alone).
pub const MOD_SHIFT: u8 = 1;

/// Control held (alone).
pub const MOD_CONTROL: u8 = 2;

/// Alt held (alone).
pub const MOD_ALT: u8 = 4;

/// A key press: the key and the set of held modifiers as bit flags (shift 1, control 2,
/// alt 4, super 8, hyper 16, meta 32).
#[derive(Clone, Copy, PartialEq, Eq, Debug)]
pub struct KeyEvent {
    pub code: KeyCode,
    pub modifiers: u8,
}

impl KeyEvent {
    /// A key press with the given modifiers.
    pub fn new(code: KeyCode, modifiers: u8) -> (r: Self)
        ensures
            r.code == code,
            r.modifiers == modifiers,
    {
        KeyEvent { code, modifiers }
    }
}

/// A key that types a character into a text field: no modifier, or shift alone.
pub open spec fn is_typing(k: KeyEvent) -> bool {
    k.code is Char && (k.modifiers == MOD_NONE || k.modifiers == MOD_SHIFT)
}

} // verus!
