use outbound_tunnel::relay::{RelayAction, RelayEvent, RelayState};

#[test]
fn data_is_delivered_and_counted_while_running() {
    let mut s = RelayState::new();
    assert!(!s.is_finished());
    let a = s.on_event(RelayEvent::Data { from_client: true, len: 5 });
    assert_eq!(a, RelayAction::Deliver);
    let a = s.on_event(RelayEvent::Data { from_client: false, len: 7 });
    assert_eq!(a, RelayAction::Deliver);
    assert_eq!(s.client_to_server, 5);
    assert_eq!(s.server_to_client, 7);
    assert!(!s.is_finished());
}

#[test]
fn relay_race_drops_the_losing_direction() {
    // Direction A reaches EOF after its bytes; direction B is still
    // mid-transfer. The session ends at the EOF and no further bytes from B
    // are delivered.
    let mut s = RelayState::new();
    s.on_event(RelayEvent::Data { from_client: true, len: 1024 });
    s.on_event(RelayEvent::Data { from_client: false, len: 100 });
    let a = s.on_event(RelayEvent::Eof { from_client: true });
    assert_eq!(a, RelayAction::Discard);
    assert!(s.is_finished());
    let a = s.on_event(RelayEvent::Data { from_client: false, len: 4096 });
    assert_eq!(a, RelayAction::Discard);
    assert_eq!(s.server_to_client, 100);
    assert_eq!(s.client_to_server, 1024);
    assert!(s.is_finished());
}

#[test]
fn fault_ends_the_session_like_eof() {
    let mut s = RelayState::new();
    s.on_event(RelayEvent::Data { from_client: false, len: 10 });
    let a = s.on_event(RelayEvent::Fault { from_client: false });
    assert_eq!(a, RelayAction::Discard);
    assert!(s.is_finished());

    let mut t = RelayState::new();
    t.on_event(RelayEvent::Data { from_client: false, len: 10 });
    let b = t.on_event(RelayEvent::Eof { from_client: false });
    assert_eq!(a, b);
    assert_eq!(s, t);
}

#[test]
fn five_byte_echo_session_ends_cleanly() {
    // A session relays a five-byte payload to the remote peer, the echo
    // comes back, and the peer closes: the race ends in success.
    let mut s = RelayState::new();
    assert_eq!(s.on_event(RelayEvent::Data { from_client: true, len: 5 }), RelayAction::Deliver);
    assert_eq!(s.on_event(RelayEvent::Data { from_client: false, len: 5 }), RelayAction::Deliver);
    assert_eq!(s.on_event(RelayEvent::Eof { from_client: false }), RelayAction::Discard);
    assert!(s.is_finished());
    assert_eq!(s.client_to_server, 5);
    assert_eq!(s.server_to_client, 5);
}

#[test]
fn counter_saturates_at_the_ceiling() {
    let mut s = RelayState::new();
    s.on_event(RelayEvent::Data { from_client: true, len: u64::MAX - 3 });
    s.on_event(RelayEvent::Data { from_client: true, len: 10 });
    assert_eq!(s.client_to_server, u64::MAX);
}
