//! Terminal input as the editor reads it: key codes and modifier bits held as
//! plain values.

use vstd::prelude::*;

verus! {

/// Modifier bits of a key event that the editor tells apart. A key event
/// matches "no modifier", "shift" or "control" only when its bits equal the
/// constant exactly.
pub const MOD_NONE: u8 = 0;

/// The shift key alone.
pub const MOD_SHIFT: u8 = 1;

/// The control key alone.
pub const MOD_CONTROL: u8 = 2;

/// The alt key alone.
pub const MOD_ALT: u8 = 4;

/// The key that was pressed.
#[derive(Clone, Copy, Debug, PartialEq, Eq, Structural)]
pub enum KeyCode {
    Backspace,
    Enter,
    Left,
    Right,
    Up,
    Down,
    Tab,
    Esc,
    /// A character key.
    Char(char),
    /// Any key that the editor gives no meaning to.
    Other,
}

/// A key press with the modifiers held at that moment.
#[derive(Clone, Copy, Debug, PartialEq, Eq, Structural)]
pub struct KeyEvent {
    pub code: KeyCode,
    /// Modifier bits: any combination of the `MOD_` constants and of bits the
    /// editor does not name.
    pub modifiers: u8,
}

/// What the terminal reports.
#[derive(Clone, Copy, Debug, PartialEq, Eq, Structural)]
pub enum Event {
    Key(KeyEvent),
    /// Resize, mouse, focus and paste events: the editor ignores them.
    Other,
}

impl KeyEvent {
    /// The key `code` with no modifier held.
    pub open spec fn is_plain(self, code: KeyCode) -> bool {
        self.code == code && self.modifiers == MOD_NONE
    }

    /// The character key `c` with control held and nothing else.
    pub open spec fn is_ctrl(self, c: char) -> bool {
        self.code == KeyCode::Char(c) && self.modifiers == MOD_CONTROL
    }

    /// A key event without modifiers.
    pub fn plain(code: KeyCode) -> (k: KeyEvent)
        ensures
            k == (KeyEvent { code, modifiers: MOD_NONE }),
    {
        KeyEvent { code, modifiers: MOD_NONE }
    }

    /// A character key with control held.
    pub fn ctrl(c: char) -> (k: KeyEvent)
        ensures
            k == (KeyEvent { code: KeyCode::Char(c), modifiers: MOD_CONTROL }),
    {
        KeyEvent { code: KeyCode::Char(c), modifiers: MOD_CONTROL }
    }

    /// A character key without modifiers.
    pub fn char(c: char) -> (k: KeyEvent)
        ensures
            k == (KeyEvent { code: KeyCode::Char(c), modifiers: MOD_NONE }),
    {
        KeyEvent { code: KeyCode::Char(c), modifiers: MOD_NONE }
    }
}

} // verus!
