use vstd::prelude::*;

use crate::keycode::KeyCode;

verus! {

/// One of the three supported mouse buttons, with codes 0, 1 and 2.
#[derive(Debug, Clone, Copy, PartialEq, Eq, Hash, PartialOrd, Ord, Structural)]
pub enum MouseButton {
    Left,
    Right,
    Middle,
}

/// The error of a button conversion that was handed an integer naming no
/// button; it carries the offending value.
#[derive(Debug, Clone, Copy, PartialEq, Eq, Structural)]
pub struct InvalidValueError {
    pub value: u8,
}

impl KeyCode for MouseButton {
    open spec fn spec_code(self) -> u8 {
        match self {
            MouseButton::Left => 0,
            MouseButton::Right => 1,
            MouseButton::Middle => 2,
        }
    }

    open spec fn count() -> u8 {
        3
    }

    open spec fn spec_from_code(c: u8) -> Option<Self> {
        if c == 0 {
            Some(MouseButton::Left)
        } else if c == 1 {
            Some(MouseButton::Right)
        } else if c == 2 {
            Some(MouseButton::Middle)
        } else {
            None
        }
    }

    proof fn lemma_count_bound() {
    }

    proof fn lemma_code(self) {
    }

    proof fn lemma_from_code(c: u8) {
    }

    fn code(self) -> (c: u8) {
        match self {
            MouseButton::Left => 0,
            MouseButton::Right => 1,
            MouseButton::Middle => 2,
        }
    }

    fn from_code(c: u8) -> (r: Option<Self>) {
        if c == 0 {
            Some(MouseButton::Left)
        } else if c == 1 {
            Some(MouseButton::Right)
        } else if c == 2 {
            Some(MouseButton::Middle)
        } else {
            None
        }
    }
}

impl TryFrom<u8> for MouseButton {
    type Error = InvalidValueError;

    /// Decodes a button from its integer code; any code beyond
    /// [`MouseButton::Middle`]'s is rejected.
    fn try_from(value: u8) -> (r: Result<Self, Self::Error>) {
        if value > MouseButton::Middle.code() {
            return Err(InvalidValueError { value });
        }
        if value == 0 {
            Ok(MouseButton::Left)
        } else if value == 1 {
            Ok(MouseButton::Right)
        } else {
            Ok(MouseButton::Middle)
        }
    }
}

impl vstd::std_specs::convert::TryFromSpecImpl<u8> for MouseButton {
    open spec fn obeys_try_from_spec() -> bool {
        true
    }

    open spec fn try_from_spec(v: u8) -> Result<Self, Self::Error> {
        match MouseButton::spec_from_code(v) {
            Some(button) => Ok(button),
            None => Err(InvalidValueError { value: v }),
        }
    }
}

impl From<MouseButton> for u8 {
    /// Encodes a button as its integer code.
    fn from(button: MouseButton) -> (r: u8) {
        button.code()
    }
}

impl vstd::std_specs::convert::FromSpecImpl<MouseButton> for u8 {
    open spec fn obeys_from_spec() -> bool {
        true
    }

    open spec fn from_spec(v: MouseButton) -> u8 {
        v.spec_code()
    }
}

} // verus!
