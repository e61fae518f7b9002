//! Mouse buttons: as the windowing system reports them, and as the
//! application tracks them.

use vstd::prelude::*;

verus! {

/// A mouse button as the windowing system names it.
#[derive(Debug, Clone, Copy, PartialEq, Eq, Hash, Structural)]
pub enum MouseButton {
    Left,
    Right,
    Middle,
    Other(u16),
}

/// A mouse button as the application tracks it: one of eight, numbered from 0.
#[derive(Debug, Clone, Copy, PartialEq, Eq, Hash, Structural)]
pub enum MouseCode {
    Button0,
    Button1,
    Button2,
    Button3,
    Button4,
    Button5,
    Button6,
    Button7,
}

impl MouseCode {
    /// The number of a button, 0 to 7.
    pub open spec fn number(self) -> u8 {
        match self {
            MouseCode::Button0 => 0,
            MouseCode::Button1 => 1,
            MouseCode::Button2 => 2,
            MouseCode::Button3 => 3,
            MouseCode::Button4 => 4,
            MouseCode::Button5 => 5,
            MouseCode::Button6 => 6,
            MouseCode::Button7 => 7,
        }
    }

    /// The number that [`MouseCode::convert`] gives to a button of the
    /// windowing system: left, right and middle are 0, 1 and 2; an extra
    /// button numbered 3 to 7 keeps its number; every other one is 7.
    pub open spec fn number_of(from: MouseButton) -> u8 {
        match from {
            MouseButton::Left => 0,
            MouseButton::Right => 1,
            MouseButton::Middle => 2,
            MouseButton::Other(other) => if 3 <= other <= 7 {
                other as u8
            } else {
                7
            },
        }
    }

    /// The button that [`MouseCode::convert`] returns for `from`.
    pub open spec fn converted(from: MouseButton) -> MouseCode {
        match Self::number_of(from) {
            0 => MouseCode::Button0,
            1 => MouseCode::Button1,
            2 => MouseCode::Button2,
            3 => MouseCode::Button3,
            4 => MouseCode::Button4,
            5 => MouseCode::Button5,
            6 => MouseCode::Button6,
            _ => MouseCode::Button7,
        }
    }

    /// The number of this button.
    pub fn code(self) -> (c: u8)
        ensures
            c == self.number(),
            c <= 7,
    {
        match self {
            MouseCode::Button0 => 0,
            MouseCode::Button1 => 1,
            MouseCode::Button2 => 2,
            MouseCode::Button3 => 3,
            MouseCode::Button4 => 4,
            MouseCode::Button5 => 5,
            MouseCode::Button6 => 6,
            MouseCode::Button7 => 7,
        }
    }

    /// Translates a button of the windowing system.
    pub fn convert(from: MouseButton) -> (button: MouseCode)
        ensures
            button == Self::converted(from),
            button.number() == Self::number_of(from),
    {
        match from {
            MouseButton::Left => MouseCode::Button0,
            MouseButton::Right => MouseCode::Button1,
            MouseButton::Middle => MouseCode::Button2,
            MouseButton::Other(other) => match other {
                3 => MouseCode::Button3,
                4 => MouseCode::Button4,
                5 => MouseCode::Button5,
                6 => MouseCode::Button6,
                _ => MouseCode::Button7,
            },
        }
    }
}

/// Two buttons with the same number are the same button.
pub proof fn lemma_number_injective(a: MouseCode, b: MouseCode)
    requires
        a.number() == b.number(),
    ensures
        a == b,
{
}

} // verus!
