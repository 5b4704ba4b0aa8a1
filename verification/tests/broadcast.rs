use kare::broadcast::Broadcast;

#[test]
fn every_subscriber_sees_the_whole_sequence_in_order() {
    let mut broadcast: Broadcast<u32> = Broadcast::new();
    let receivers = vec![broadcast.subscribe(), broadcast.subscribe(), broadcast.subscribe()];
    let messages = [11u32, 22, 33, 44, 55];
    for message in messages {
        broadcast.send(message).unwrap();
    }
    for receiver in receivers {
        for expected in messages {
            assert_eq!(receiver.try_recv(), Ok(expected));
        }
        assert!(receiver.try_recv().is_err());
    }
}

#[test]
fn two_subscribers_both_receive_one_send() {
    let mut broadcast: Broadcast<String> = Broadcast::new();
    let first = broadcast.subscribe();
    let second = broadcast.subscribe();
    broadcast.send(String::from("ping")).unwrap();
    assert_eq!(first.try_recv(), Ok(String::from("ping")));
    assert_eq!(second.try_recv(), Ok(String::from("ping")));
}

#[test]
fn send_with_no_subscribers_succeeds() {
    let broadcast: Broadcast<u8> = Broadcast::new();
    assert!(broadcast.send(7).is_ok());
}

#[test]
fn send_fails_fast_on_a_dropped_subscriber() {
    let mut broadcast: Broadcast<u32> = Broadcast::new();
    let first = broadcast.subscribe();
    let second = broadcast.subscribe();
    drop(first);
    let error = broadcast.send(9).unwrap_err();
    assert_eq!(error.0, 9);
    // Fail-fast: the subscriber after the closed one saw nothing.
    assert!(second.try_recv().is_err());
}

#[test]
fn delivery_stops_only_at_the_closed_subscriber() {
    let mut broadcast: Broadcast<u32> = Broadcast::new();
    let first = broadcast.subscribe();
    let second = broadcast.subscribe();
    drop(second);
    let error = broadcast.send(5).unwrap_err();
    assert_eq!(error.0, 5);
    // The subscriber before the closed one was already served.
    assert_eq!(first.try_recv(), Ok(5));
}

#[test]
fn default_broadcast_is_empty() {
    let broadcast: Broadcast<u8> = Broadcast::default();
    assert!(broadcast.send(1).is_ok());
}
