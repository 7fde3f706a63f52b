//! Key presses, as the interactive widgets read them.

use vstd::prelude::*;

verus! {

/// The key of a key press.
#[derive(Debug, Clone, Copy, PartialEq, Eq, Structural)]
pub enum KeyCode {
    Left,
    Right,
    Up,
    Down,
    Home,
    End,
    Enter,
    Esc,
    Backspace,
    /// A printable character.
    Char(char),
    /// Any key the widgets do not react to.
    Other,
}

/// A key press: the key plus whether any modifier (Shift, Ctrl, Alt, ...) was
/// held.
#[derive(Debug, Clone, Copy, PartialEq, Eq, Structural)]
pub struct KeyEvent {
    pub code: KeyCode,
    /// `true` when no modifier key was held.
    pub no_modifiers: bool,
}

impl KeyEvent {
    /// A key press with no modifiers.
    pub fn new(code: KeyCode) -> (k: KeyEvent)
        ensures
            k.code == code,
            k.no_modifiers,
    {
        KeyEvent { code, no_modifiers: true }
    }
}

} // verus!
