//! Key presses as the routing logic sees them.

use vstd::prelude::*;

verus! {

/// Modifier bit: shift.
pub const SHIFT: u8 = 1;

/// Modifier bit: control.
pub const CONTROL: u8 = 2;

/// Modifier bit: alt.
pub const ALT: u8 = 4;

/// Control and alt together, as terminals report AltGr.
pub const CONTROL_ALT: u8 = 6;

/// The bits of a key's modifiers that the terminal has a meaning for: shift,
/// control, alt, super, hyper and meta, from the lowest up.
pub const MODIFIER_BITS: u8 = 0x3f;

/// The key that was pressed.
#[derive(Clone, Copy, Debug, PartialEq, Eq)]
pub enum KeyCode {
    Backspace,
    Enter,
    Left,
    Right,
    Up,
    Down,
    Home,
    End,
    Tab,
    Delete,
    Esc,
    Char(char),
    /// Any key that neither the views nor the text fields react to.
    Other,
}

/// One key press or key repeat: the key and the modifier bits held with it
/// (`SHIFT`, `CONTROL`, `ALT` and the terminal's further bits above them).
#[derive(Clone, Copy, Debug, PartialEq, Eq)]
pub struct Key {
    pub code: KeyCode,
    pub modifiers: u8,
}

impl Key {
    /// Control is among the modifiers held.
    pub open spec fn spec_has_control(self) -> bool {
        self.modifiers & CONTROL != 0
    }

    /// The character that this key types into a text field: a character key
    /// pressed alone, with shift, or with control and alt together.
    pub open spec fn typed_char(self) -> Option<char> {
        match self.code {
            KeyCode::Char(c) => if self.modifiers == 0 || self.modifiers == SHIFT
                || self.modifiers == CONTROL_ALT {
                Some(c)
            } else {
                None
            },
            _ => None,
        }
    }

    /// A key pressed without modifiers.
    pub fn plain(code: KeyCode) -> (key: Key)
        ensures
            key == (Key { code, modifiers: 0 }),
    {
        Key { code, modifiers: 0 }
    }

    /// The key `c` pressed without modifiers.
    pub fn char(c: char) -> (key: Key)
        ensures
            key == (Key { code: KeyCode::Char(c), modifiers: 0 }),
            key.typed_char() == Some(c),
    {
        Key { code: KeyCode::Char(c), modifiers: 0 }
    }

    /// Whether control is among the modifiers held.
    #[verifier::when_used_as_spec(spec_has_control)]
    pub fn has_control(self) -> (held: bool)
        ensures
            held == self.spec_has_control(),
    {
        self.modifiers & CONTROL != 0
    }
}

} // verus!
