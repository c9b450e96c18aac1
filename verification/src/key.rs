//! Key presses as the editor reads them.

use vstd::prelude::*;

verus! {

/// Which key was pressed. Keys the editor gives no meaning to are `Other`.
#[derive(Clone, Copy, Debug, PartialEq, Eq, Structural)]
pub enum KeyCode {
    Backspace,
    Enter,
    Left,
    Right,
    Up,
    Down,
    Esc,
    Char(char),
    Other,
}

/// The bit that stands for the control key in `KeyModifiers`.
pub const CONTROL: u8 = 0b0000_0010;

/// The modifier keys held during a press, one bit each.
#[derive(Clone, Copy, Debug, PartialEq, Eq, Structural)]
pub struct KeyModifiers {
    pub bits: u8,
}

impl KeyModifiers {
    /// No modifier held.
    pub fn none() -> (modifiers: KeyModifiers)
        ensures
            modifiers.bits == 0,
    {
        KeyModifiers { bits: 0 }
    }

    /// The control key and nothing else.
    pub fn control() -> (modifiers: KeyModifiers)
        ensures
            modifiers.bits == CONTROL,
    {
        KeyModifiers { bits: CONTROL }
    }

    pub fn from_bits(bits: u8) -> (modifiers: KeyModifiers)
        ensures
            modifiers.bits == bits,
    {
        KeyModifiers { bits }
    }

    /// Whether control is held and no other modifier with it. Control
    /// together with shift, say, is not the control chord.
    pub open spec fn control_only(self) -> bool {
        self.bits == CONTROL
    }

    #[verifier::when_used_as_spec(control_only)]
    pub fn is_control_only(self) -> (held: bool)
        ensures
            held == self.control_only(),
    {
        self.bits == CONTROL
    }
}

/// One key press.
#[derive(Clone, Copy, Debug, PartialEq, Eq, Structural)]
pub struct KeyEvent {
    pub code: KeyCode,
    pub modifiers: KeyModifiers,
}

impl KeyEvent {
    pub fn new(code: KeyCode, modifiers: KeyModifiers) -> (event: KeyEvent)
        ensures
            event.code == code,
            event.modifiers == modifiers,
    {
        KeyEvent { code, modifiers }
    }
}

} // verus!
