//! Input-state tracking and event distribution for a keyboard/mouse macro
//! tool.
//!
//! The crate offers three pieces: a fixed-width bitset ([`state::BitState`])
//! over any finite, densely coded input domain ([`keycode::KeyCode`]); a typed
//! event model with a key-binding layer ([`event`]); and a one-to-many
//! broadcast over channels ([`broadcast`]) together with the phase discipline
//! of the background input listener ([`listener`]).

use vstd::prelude::*;

pub mod broadcast;
pub mod channel;
pub mod event;
pub mod key;
pub mod keycode;
pub mod listener;
pub mod mouse;
pub mod state;

verus! {

/// Front-end view state. The graphical shell keeps its widget state to
/// itself, so the core carries none of it yet.
#[derive(Debug, Clone, Copy, PartialEq, Eq, Structural)]
pub struct State {}

impl Default for State {
    /// The one value the type has.
    fn default() -> (r: Self)
        ensures
            r == (State {  }),
    {
        State {  }
    }
}

} // verus!
