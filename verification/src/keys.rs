//! Key presses as the screens see them.
use vstd::prelude::*;

verus! {

/// The terminal's own key code; the screens read none of it, they only hand it on.
#[verifier::external_type_specification]
#[verifier::external_body]
pub struct ExTermKeyCode(ratatui::crossterm::event::KeyCode);

/// The keys that the screens tell apart. Every other key of the terminal is `Other`, which
/// keeps the terminal's code so that a text field can still be given it.
pub enum Key {
    Enter,
    Backspace,
    Esc,
    Tab,
    BackTab,
    Up,
    Down,
    Left,
    Right,
    Char(char),
    Other(ratatui::crossterm::event::KeyCode),
}

/// No modifier key held.
pub const NO_MODIFIERS: u8 = 0;

/// The shift key held, alone.
pub const SHIFT: u8 = 1;

/// The control key held, alone.
pub const CONTROL: u8 = 2;

/// The alt key held, alone.
pub const ALT: u8 = 4;

/// One key press: the key, and the set of modifier keys held with it, as the terminal's bits
/// (shift 1, control 2, alt 4, super 8, hyper 16, meta 32).
pub struct KeyPress {
    pub key: Key,
    pub modifiers: u8,
}

impl KeyPress {
    /// A key press.
    pub fn new(key: Key, modifiers: u8) -> (res: KeyPress)
        ensures
            res.key == key,
            res.modifiers == modifiers,
    {
        KeyPress { key, modifiers }
    }
}

} // verus!
