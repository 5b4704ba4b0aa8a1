use vstd::prelude::*;

use crate::keycode::KeyCode;

verus! {

/// A keyboard key, with dense codes `0 .. 42`: the letters come first, then
/// the function keys, then a few editing keys.
#[derive(Debug, Clone, Copy, PartialEq, Eq, Hash, PartialOrd, Ord, Structural)]
pub enum Key {
    A,
    B,
    C,
    D,
    E,
    F,
    G,
    H,
    I,
    J,
    K,
    L,
    M,
    N,
    O,
    P,
    Q,
    R,
    S,
    T,
    U,
    V,
    W,
    X,
    Y,
    Z,
    F1,
    F2,
    F3,
    F4,
    F5,
    F6,
    F7,
    F8,
    F9,
    F10,
    F11,
    F12,
    Space,
    Enter,
    Escape,
    Delete,
}

impl KeyCode for Key {
    open spec fn spec_code(self) -> u8 {
        match self {
            Key::A => 0,
            Key::B => 1,
            Key::C => 2,
            Key::D => 3,
            Key::E => 4,
            Key::F => 5,
            Key::G => 6,
            Key::H => 7,
            Key::I => 8,
            Key::J => 9,
            Key::K => 10,
            Key::L => 11,
            Key::M => 12,
            Key::N => 13,
            Key::O => 14,
            Key::P => 15,
            Key::Q => 16,
            Key::R => 17,
            Key::S => 18,
            Key::T => 19,
            Key::U => 20,
            Key::V => 21,
            Key::W => 22,
            Key::X => 23,
            Key::Y => 24,
            Key::Z => 25,
            Key::F1 => 26,
            Key::F2 => 27,
            Key::F3 => 28,
            Key::F4 => 29,
            Key::F5 => 30,
            Key::F6 => 31,
            Key::F7 => 32,
            Key::F8 => 33,
            Key::F9 => 34,
            Key::F10 => 35,
            Key::F11 => 36,
            Key::F12 => 37,
            Key::Space => 38,
            Key::Enter => 39,
            Key::Escape => 40,
            Key::Delete => 41,
        }
    }

    open spec fn count() -> u8 {
        42
    }

    open spec fn spec_from_code(c: u8) -> Option<Self> {
        match c {
            0 => Some(Key::A),
            1 => Some(Key::B),
            2 => Some(Key::C),
            3 => Some(Key::D),
            4 => Some(Key::E),
            5 => Some(Key::F),
            6 => Some(Key::G),
            7 => Some(Key::H),
            8 => Some(Key::I),
            9 => Some(Key::J),
            10 => Some(Key::K),
            11 => Some(Key::L),
            12 => Some(Key::M),
            13 => Some(Key::N),
            14 => Some(Key::O),
            15 => Some(Key::P),
            16 => Some(Key::Q),
            17 => Some(Key::R),
            18 => Some(Key::S),
            19 => Some(Key::T),
            20 => Some(Key::U),
            21 => Some(Key::V),
            22 => Some(Key::W),
            23 => Some(Key::X),
            24 => Some(Key::Y),
            25 => Some(Key::Z),
            26 => Some(Key::F1),
            27 => Some(Key::F2),
            28 => Some(Key::F3),
            29 => Some(Key::F4),
            30 => Some(Key::F5),
            31 => Some(Key::F6),
            32 => Some(Key::F7),
            33 => Some(Key::F8),
            34 => Some(Key::F9),
            35 => Some(Key::F10),
            36 => Some(Key::F11),
            37 => Some(Key::F12),
            38 => Some(Key::Space),
            39 => Some(Key::Enter),
            40 => Some(Key::Escape),
            41 => Some(Key::Delete),
            _ => None,
        }
    }

    proof fn lemma_count_bound() {
    }

    proof fn lemma_code(self) {
    }

    proof fn lemma_from_code(c: u8) {
    }

    fn code(self) -> (c: u8) {
        match self {
            Key::A => 0,
            Key::B => 1,
            Key::C => 2,
            Key::D => 3,
            Key::E => 4,
            Key::F => 5,
            Key::G => 6,
            Key::H => 7,
            Key::I => 8,
            Key::J => 9,
            Key::K => 10,
            Key::L => 11,
            Key::M => 12,
            Key::N => 13,
            Key::O => 14,
            Key::P => 15,
            Key::Q => 16,
            Key::R => 17,
            Key::S => 18,
            Key::T => 19,
            Key::U => 20,
            Key::V => 21,
            Key::W => 22,
            Key::X => 23,
            Key::Y => 24,
            Key::Z => 25,
            Key::F1 => 26,
            Key::F2 => 27,
            Key::F3 => 28,
            Key::F4 => 29,
            Key::F5 => 30,
            Key::F6 => 31,
            Key::F7 => 32,
            Key::F8 => 33,
            Key::F9 => 34,
            Key::F10 => 35,
            Key::F11 => 36,
            Key::F12 => 37,
            Key::Space => 38,
            Key::Enter => 39,
            Key::Escape => 40,
            Key::Delete => 41,
        }
    }

    fn from_code(c: u8) -> (r: Option<Self>) {
        match c {
            0 => Some(Key::A),
            1 => Some(Key::B),
            2 => Some(Key::C),
            3 => Some(Key::D),
            4 => Some(Key::E),
            5 => Some(Key::F),
            6 => Some(Key::G),
            7 => Some(Key::H),
            8 => Some(Key::I),
            9 => Some(Key::J),
            10 => Some(Key::K),
            11 => Some(Key::L),
            12 => Some(Key::M),
            13 => Some(Key::N),
            14 => Some(Key::O),
            15 => Some(Key::P),
            16 => Some(Key::Q),
            17 => Some(Key::R),
            18 => Some(Key::S),
            19 => Some(Key::T),
            20 => Some(Key::U),
            21 => Some(Key::V),
            22 => Some(Key::W),
            23 => Some(Key::X),
            24 => Some(Key::Y),
            25 => Some(Key::Z),
            26 => Some(Key::F1),
            27 => Some(Key::F2),
            28 => Some(Key::F3),
            29 => Some(Key::F4),
            30 => Some(Key::F5),
            31 => Some(Key::F6),
            32 => Some(Key::F7),
            33 => Some(Key::F8),
            34 => Some(Key::F9),
            35 => Some(Key::F10),
            36 => Some(Key::F11),
            37 => Some(Key::F12),
            38 => Some(Key::Space),
            39 => Some(Key::Enter),
            40 => Some(Key::Escape),
            41 => Some(Key::Delete),
            _ => None,
        }
    }
}

} // verus!
