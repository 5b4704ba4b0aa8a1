use kare::event::{Event, KeyBinding, KeyEvent};
use kare::key::Key;

#[test]
fn default_bindings() {
    let bindings = KeyBinding::default();
    assert_eq!(bindings.record, Key::F9);
    assert_eq!(bindings.play, Key::F10);
    assert_eq!(bindings.pause, Key::F11);
}

#[test]
fn bound_keys_map_to_control_events() {
    let bindings = KeyBinding::default();
    assert_eq!(bindings.event_from_key(&Key::F9), Some(Event::Record));
    assert_eq!(bindings.event_from_key(&Key::F10), Some(Event::Play));
    assert_eq!(bindings.event_from_key(&Key::F11), Some(Event::Pause));
    assert_eq!(bindings.event_from_key(&Key::A), None);
    assert_eq!(bindings.event_from_key(&Key::F12), None);
}

#[test]
fn key_down_resolves_binding_or_raw_press() {
    let bindings = KeyBinding::default();
    assert_eq!(bindings.key_down_event(Key::F9), Event::Record);
    assert_eq!(bindings.key_down_event(Key::F10), Event::Play);
    assert_eq!(bindings.key_down_event(Key::F11), Event::Pause);
    assert_eq!(bindings.key_down_event(Key::W), Event::Key(KeyEvent::Pressed(Key::W)));
}

#[test]
fn key_up_suppresses_binding_keys() {
    let bindings = KeyBinding::default();
    assert_eq!(bindings.key_up_event(Key::F9), None);
    assert_eq!(bindings.key_up_event(Key::F10), None);
    assert_eq!(bindings.key_up_event(Key::F11), None);
    assert_eq!(bindings.key_up_event(Key::W), Some(Event::Key(KeyEvent::Released(Key::W))));
}

#[test]
fn overlapping_bindings_prefer_record_then_play() {
    let bindings = KeyBinding { record: Key::G, play: Key::G, pause: Key::G };
    assert_eq!(bindings.event_from_key(&Key::G), Some(Event::Record));
    let bindings = KeyBinding { record: Key::F9, play: Key::G, pause: Key::G };
    assert_eq!(bindings.event_from_key(&Key::G), Some(Event::Play));
}
