//! Key presses as the two interactive components see them.

use vstd::prelude::*;

verus! {

/// The key that was pressed.
#[derive(Clone, Copy, Debug, PartialEq, Eq)]
pub enum KeyCode {
    Up,
    Down,
    Left,
    Right,
    Home,
    End,
    Enter,
    Backspace,
    Delete,
    Esc,
    Char(char),
    /// Any key the components have no binding for.
    Other,
}

/// The modifier keys held during a key press, one bit each.
#[derive(Clone, Copy, Debug, PartialEq, Eq)]
pub struct Modifiers {
    pub bits: u8,
}

pub const SHIFT: u8 = 0x01;

pub const CONTROL: u8 = 0x02;

pub const ALT: u8 = 0x04;

/// One key press: the key and the modifiers held with it.
#[derive(Clone, Copy, Debug, PartialEq, Eq)]
pub struct KeyPress {
    pub code: KeyCode,
    pub modifiers: Modifiers,
}

/// A press asks to abandon the interaction when it is `c` or `d` with the
/// control key, and no other modifier, held.
pub open spec fn is_interrupt(key: KeyPress) -> bool {
    &&& key.modifiers.bits == CONTROL
    &&& (key.code == KeyCode::Char('c') || key.code == KeyCode::Char('d'))
}

impl KeyPress {
    /// A press of `code` with no modifier held.
    pub fn plain(code: KeyCode) -> (key: KeyPress)
        ensures
            key.code == code,
            key.modifiers.bits == 0,
            !is_interrupt(key),
    {
        KeyPress { code, modifiers: Modifiers { bits: 0 } }
    }

    /// A press of the character `c` with only the control key held.
    pub fn ctrl(c: char) -> (key: KeyPress)
        ensures
            key.code == KeyCode::Char(c),
            key.modifiers.bits == CONTROL,
            is_interrupt(key) <==> (c == 'c' || c == 'd'),
    {
        KeyPress { code: KeyCode::Char(c), modifiers: Modifiers { bits: CONTROL } }
    }
}

/// Whether `key` is one of the two interrupt combinations.
pub fn check_interrupt(key: &KeyPress) -> (interrupted: bool)
    ensures
        interrupted == is_interrupt(*key),
{
    if key.modifiers.bits != CONTROL {
        return false;
    }
    match key.code {
        KeyCode::Char(c) => c == 'c' || c == 'd',
        _ => false,
    }
}

} // verus!
