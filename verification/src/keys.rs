use vstd::prelude::*;

verus! {

/// The key of a key press.
#[derive(Debug, Clone, Copy, PartialEq, Eq, Structural)]
pub enum KeyCode {
    Char(char),
    Up,
    Down,
    Left,
    Right,
    Enter,
    Backspace,
    Esc,
    Tab,
    F(u8),
    Other,
}

/// The modifier keys held with a key press; `other` stands for any modifier
/// beyond Control, Shift and Alt.
#[derive(Debug, Clone, Copy, PartialEq, Eq, Structural)]
pub struct Modifiers {
    pub control: bool,
    pub shift: bool,
    pub alt: bool,
    pub other: bool,
}

/// A key press.
#[derive(Debug, Clone, Copy, PartialEq, Eq, Structural)]
pub struct KeyPress {
    pub code: KeyCode,
    pub modifiers: Modifiers,
}

impl Modifiers {
    pub open spec fn none(self) -> bool {
        !self.control && !self.shift && !self.alt && !self.other
    }

    /// No modifier is held.
    pub fn is_empty(&self) -> (r: bool)
        ensures
            r == self.none(),
    {
        !self.control && !self.shift && !self.alt && !self.other
    }

    /// Control and Shift are held, and nothing else.
    pub fn is_control_shift(&self) -> (r: bool)
        ensures
            r == (self.control && self.shift && !self.alt && !self.other),
    {
        self.control && self.shift && !self.alt && !self.other
    }
}

} // verus!
