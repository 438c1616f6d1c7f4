//! The input device's events, modeled as plain values.
//!
//! The device hands the main loop one key event at a time: a logical code
//! (a character or a named key) together with a press/release kind.  Every
//! screen reacts only to press-kind events; release-kind events always
//! yield a plain refresh and change nothing.

use vstd::prelude::*;

verus! {

/// The logical code a key event carries.
#[derive(Clone, Copy, Debug, PartialEq, Eq, Structural)]
pub enum KeyCode {
    /// A printable character key.
    Char(char),
    Up,
    Down,
    Left,
    Right,
    Enter,
    /// Any key the application does not distinguish.
    Other,
}

/// Whether a key event reports a press or a release.
#[derive(Clone, Copy, Debug, PartialEq, Eq, Structural)]
pub enum KeyEventKind {
    Press,
    Release,
}

/// One logical input unit, as handed to a screen's update cycle.
#[derive(Clone, Copy, Debug, PartialEq, Eq, Structural)]
pub struct KeyEvent {
    pub code: KeyCode,
    pub kind: KeyEventKind,
}

impl KeyEvent {
    /// A pressed key with the given code.
    pub fn press(code: KeyCode) -> (e: KeyEvent)
        ensures
            e == (KeyEvent { code, kind: KeyEventKind::Press }),
    {
        KeyEvent { code, kind: KeyEventKind::Press }
    }

    /// A released key with the given code.
    pub fn release(code: KeyCode) -> (e: KeyEvent)
        ensures
            e == (KeyEvent { code, kind: KeyEventKind::Release }),
    {
        KeyEvent { code, kind: KeyEventKind::Release }
    }
}

/// True when an optional event is a release: the one case every screen
/// answers with a refresh and no state change.
pub open spec fn is_release_event(ev: Option<KeyEvent>) -> bool {
    ev matches Some(e) && e.kind is Release
}

/// True of the decimal digit keys `'0'` through `'9'`.
pub open spec fn is_digit_key(c: char) -> bool {
    48 <= c as int && c as int <= 57
}

/// The numeric value of a decimal digit key.
pub open spec fn digit_value(c: char) -> int {
    c as int - 48
}

} // verus!
