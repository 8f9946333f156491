//! Key presses and cursor motions as plain values.

use vstd::prelude::*;

verus! {

/// How many ticks a key waits for the second key of a two-key sequence.
pub const MOD_KEY_TTL: u32 = 50;

/// Which key was pressed.
#[derive(Debug, PartialEq, Eq, Structural, Clone, Copy)]
pub enum KeyCode {
    Char(char),
    Backspace,
    Enter,
    Left,
    Right,
    Up,
    Down,
    Tab,
    Delete,
    Home,
    End,
    PageUp,
    PageDown,
    Esc,
    Null,
}

/// The modifier keys held down with a key. `other` stands for any modifier
/// beyond Shift, Control and Alt.
#[derive(Debug, PartialEq, Eq, Structural, Clone, Copy)]
pub struct KeyModifiers {
    pub shift: bool,
    pub control: bool,
    pub alt: bool,
    pub other: bool,
}

impl KeyModifiers {
    pub open spec fn is_none(self) -> bool {
        !self.shift && !self.control && !self.alt && !self.other
    }

    /// Control and nothing else.
    pub open spec fn is_control(self) -> bool {
        !self.shift && self.control && !self.alt && !self.other
    }

    /// Shift and nothing else.
    pub open spec fn is_shift(self) -> bool {
        self.shift && !self.control && !self.alt && !self.other
    }

    /// Alt and nothing else.
    pub open spec fn is_alt(self) -> bool {
        !self.shift && !self.control && self.alt && !self.other
    }

    /// No modifier held.
    pub fn none() -> (r: KeyModifiers)
        ensures
            r.is_none(),
    {
        KeyModifiers { shift: false, control: false, alt: false, other: false }
    }

    /// Control held, nothing else.
    pub fn control() -> (r: KeyModifiers)
        ensures
            r.is_control(),
    {
        KeyModifiers { shift: false, control: true, alt: false, other: false }
    }

    /// Shift held, nothing else.
    pub fn shift() -> (r: KeyModifiers)
        ensures
            r.is_shift(),
    {
        KeyModifiers { shift: true, control: false, alt: false, other: false }
    }

    /// Alt held, nothing else.
    pub fn alt() -> (r: KeyModifiers)
        ensures
            r.is_alt(),
    {
        KeyModifiers { shift: false, control: false, alt: true, other: false }
    }

    /// Whether Control is held and nothing else.
    pub fn only_control(&self) -> (r: bool)
        ensures
            r == self.is_control(),
    {
        !self.shift && self.control && !self.alt && !self.other
    }

    /// Whether Shift is held and nothing else.
    pub fn only_shift(&self) -> (r: bool)
        ensures
            r == self.is_shift(),
    {
        self.shift && !self.control && !self.alt && !self.other
    }

    /// Whether Alt is held and nothing else.
    pub fn only_alt(&self) -> (r: bool)
        ensures
            r == self.is_alt(),
    {
        !self.shift && !self.control && self.alt && !self.other
    }
}

/// One key press.
#[derive(Debug, PartialEq, Eq, Structural, Clone, Copy)]
pub struct KeyEvent {
    pub code: KeyCode,
    pub modifiers: KeyModifiers,
}

impl KeyEvent {
    /// The press of `code` with no modifier held.
    pub fn plain(code: KeyCode) -> (r: KeyEvent)
        ensures
            r.code == code,
            r.modifiers.is_none(),
    {
        KeyEvent { code, modifiers: KeyModifiers::none() }
    }

    /// Whether this is the press of the character `c`, whatever modifiers
    /// are held.
    pub fn is_char(&self, c: char) -> (r: bool)
        ensures
            r == (self.code == KeyCode::Char(c)),
    {
        match self.code {
            KeyCode::Char(x) => x == c,
            _ => false,
        }
    }
}

/// A motion of the text cursor inside an input field, or of the date cursor
/// in the calendar.
#[derive(Debug, PartialEq, Eq, Structural, Clone, Copy)]
pub enum CursorMove {
    Forward,
    Back,
    Up,
    Down,
    Head,
    End,
    WordForward,
    WordBack,
}

} // verus!
