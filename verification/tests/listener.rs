use kare::event::{Event, KeyBinding, KeyEvent, MouseEvent, MousePosition};
use kare::key::Key;
use kare::listener::{Listener, ListenerPhase};
use kare::mouse::MouseButton;

fn idle_listener() -> (
    Listener,
    crossbeam_channel::Receiver<Event>,
    crossbeam_channel::Sender<()>,
) {
    let (event_tx, event_rx) = crossbeam_channel::unbounded();
    let (term_tx, term_rx) = crossbeam_channel::unbounded();
    let listener = Listener::new(event_tx, term_rx, KeyBinding::default());
    (listener, event_rx, term_tx)
}

#[test]
fn phases_walk_from_idle_to_stopped() {
    let (mut listener, _events, _term) = idle_listener();
    assert_eq!(listener.phase(), ListenerPhase::Idle);
    listener.start();
    assert_eq!(listener.phase(), ListenerPhase::Running);
    listener.begin_shutdown();
    assert_eq!(listener.phase(), ListenerPhase::ShuttingDown);
    listener.finish_shutdown();
    assert_eq!(listener.phase(), ListenerPhase::Stopped);
}

#[test]
fn running_listener_forwards_translated_events() {
    let (mut listener, events, _term) = idle_listener();
    listener.start();

    let down = listener.event_for_key_down(Key::E);
    listener.forward(down).unwrap();
    let control = listener.event_for_key_down(Key::F9);
    listener.forward(control).unwrap();
    let up = listener.event_for_key_up(Key::E).unwrap();
    listener.forward(up).unwrap();
    // A release of a bound key is suppressed, so nothing is forwarded.
    assert_eq!(listener.event_for_key_up(Key::F9), None);
    listener.forward(Event::Mouse(MouseEvent::Pressed(MouseButton::Left))).unwrap();

    assert_eq!(events.try_recv(), Ok(Event::Key(KeyEvent::Pressed(Key::E))));
    assert_eq!(events.try_recv(), Ok(Event::Record));
    assert_eq!(events.try_recv(), Ok(Event::Key(KeyEvent::Released(Key::E))));
    assert_eq!(events.try_recv(), Ok(Event::Mouse(MouseEvent::Pressed(MouseButton::Left))));
    assert!(events.try_recv().is_err());
}

#[test]
fn termination_signal_reaches_the_listener() {
    let (mut listener, events, term) = idle_listener();
    listener.start();
    term.send(()).unwrap();
    assert_eq!(listener.termination().recv(), Ok(()));
    listener.begin_shutdown();
    listener.finish_shutdown();
    assert_eq!(listener.phase(), ListenerPhase::Stopped);
    // Once stopped, no hook fires: the output channel stays quiet.
    assert!(events.try_recv().is_err());
}

#[test]
fn forward_reports_a_gone_consumer() {
    let (mut listener, events, _term) = idle_listener();
    listener.start();
    drop(events);
    let event = Event::Mouse(MouseEvent::Move(MousePosition { x: 3, y: -7 }));
    let error = listener.forward(event).unwrap_err();
    assert_eq!(error.0, event);
}
