//! Key input as the overlays and palettes read it.
use vstd::prelude::*;

verus! {

/// The key that was pressed.
#[derive(Debug, Clone, Copy, PartialEq, Eq, Structural)]
pub enum KeyCode {
    Up,
    Down,
    Left,
    Right,
    PageUp,
    PageDown,
    Home,
    End,
    Enter,
    Backspace,
    Tab,
    Esc,
    Char(char),
    Other,
}

/// A key press with the modifier state the handlers look at.
#[derive(Debug, Clone, Copy, PartialEq, Eq, Structural)]
pub struct KeyInput {
    pub code: KeyCode,
    /// Whether Control was held.
    pub ctrl: bool,
}

impl KeyInput {
    /// A key press without modifiers.
    pub fn plain(code: KeyCode) -> (k: KeyInput)
        ensures
            k.code == code,
            !k.ctrl,
    {
        KeyInput { code, ctrl: false }
    }
}

} // verus!
