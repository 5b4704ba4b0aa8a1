use vstd::prelude::*;

use crate::key::Key;
use crate::mouse::MouseButton;

verus! {

/// A mouse-cursor position, in screen coordinates.
#[derive(Debug, Clone, Copy, PartialEq, Eq, Structural)]
pub struct MousePosition {
    pub x: i32,
    pub y: i32,
}

/// A keyboard transition.
#[derive(Debug, Clone, Copy, PartialEq, Eq, Structural)]
pub enum KeyEvent {
    Pressed(Key),
    Released(Key),
}

/// A mouse movement or button transition.
#[derive(Debug, Clone, Copy, PartialEq, Eq, Structural)]
pub enum MouseEvent {
    Move(MousePosition),
    Pressed(MouseButton),
    Released(MouseButton),
}

/// An application event: raw input, or one of the control events that the
/// key-binding layer produces from a bound key.
#[derive(Debug, Clone, Copy, PartialEq, Eq, Structural)]
pub enum Event {
    Key(KeyEvent),
    Mouse(MouseEvent),
    Play,
    Pause,
    Record,
}

/// The keys bound to the three control events.
#[derive(Debug, Clone, Copy, PartialEq, Eq, Structural)]
pub struct KeyBinding {
    pub record: Key,
    pub play: Key,
    pub pause: Key,
}

impl Default for KeyBinding {
    /// The stock bindings: F9 records, F10 plays, F11 pauses.
    fn default() -> (r: Self)
        ensures
            r == (KeyBinding { record: Key::F9, play: Key::F10, pause: Key::F11 }),
    {
        KeyBinding { record: Key::F9, play: Key::F10, pause: Key::F11 }
    }
}

impl KeyBinding {
    /// The control event bound to `key`, if any; when bindings overlap,
    /// record wins over play and play over pause.
    pub open spec fn spec_event_from_key(self, key: Key) -> Option<Event> {
        if key == self.record {
            Some(Event::Record)
        } else if key == self.play {
            Some(Event::Play)
        } else if key == self.pause {
            Some(Event::Pause)
        } else {
            None
        }
    }

    /// Looks `key` up among the bindings.
    pub fn event_from_key(&self, key: &Key) -> (r: Option<Event>)
        ensures
            r == self.spec_event_from_key(*key),
    {
        if *key == self.record {
            Some(Event::Record)
        } else if *key == self.play {
            Some(Event::Play)
        } else if *key == self.pause {
            Some(Event::Pause)
        } else {
            None
        }
    }

    /// What a key-down notification reports: the bound control event when
    /// the key matches a binding, the raw pressed event otherwise.
    pub open spec fn spec_key_down_event(self, key: Key) -> Event {
        match self.spec_event_from_key(key) {
            Some(control) => control,
            None => Event::Key(KeyEvent::Pressed(key)),
        }
    }

    /// Translates a key-down notification.
    pub fn key_down_event(&self, key: Key) -> (e: Event)
        ensures
            e == self.spec_key_down_event(key),
    {
        match self.event_from_key(&key) {
            Some(control) => control,
            None => Event::Key(KeyEvent::Pressed(key)),
        }
    }

    /// What a key-up notification reports: nothing for a binding key —
    /// control events are edge-triggered on press, so their releases are
    /// suppressed — and the raw released event otherwise.
    pub open spec fn spec_key_up_event(self, key: Key) -> Option<Event> {
        if self.spec_event_from_key(key) is Some {
            None
        } else {
            Some(Event::Key(KeyEvent::Released(key)))
        }
    }

    /// Translates a key-up notification.
    pub fn key_up_event(&self, key: Key) -> (r: Option<Event>)
        ensures
            r == self.spec_key_up_event(key),
    {
        if self.event_from_key(&key).is_some() {
            None
        } else {
            Some(Event::Key(KeyEvent::Released(key)))
        }
    }
}

} // verus!
