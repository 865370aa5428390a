//! The key presses the handlers react to, as plain values.
use vstd::prelude::*;

verus! {

/// Which key was pressed.
#[derive(Debug, Clone, Copy, PartialEq, Eq, Structural)]
pub enum KeyCode {
    Char(char),
    Enter,
    Esc,
    Backspace,
    Delete,
    Left,
    Right,
    Up,
    Down,
    Home,
    End,
    Tab,
    /// Tab with Shift held.
    BackTab,
    PageUp,
    PageDown,
    /// A function key, by number.
    F(u8),
    /// Any key the handlers do not distinguish.
    Other,
}

/// A key press with the modifiers the handlers read.
#[derive(Debug, Clone, Copy, PartialEq, Eq, Structural)]
pub struct Key {
    pub code: KeyCode,
    pub ctrl: bool,
    pub alt: bool,
    pub shift: bool,
}

impl Key {
    /// A key press without modifiers.
    pub fn plain(code: KeyCode) -> (k: Key)
        ensures
            k == (Key { code, ctrl: false, alt: false, shift: false }),
    {
        Key { code, ctrl: false, alt: false, shift: false }
    }

    /// A key press with Control held.
    pub fn with_ctrl(code: KeyCode) -> (k: Key)
        ensures
            k == (Key { code, ctrl: true, alt: false, shift: false }),
    {
        Key { code, ctrl: true, alt: false, shift: false }
    }
}

} // verus!
