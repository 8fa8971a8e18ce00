use rustbridge::api::ws::{SocketAction, SocketEvent, WsMessage, WsSession};
use rustbridge::api::{RegisterUpdate, VERSION};
use rustbridge::bus::BusEvent;

fn update(device_id: &str) -> RegisterUpdate {
    RegisterUpdate {
        device_id: device_id.to_string(),
        register_name: "temperature".to_string(),
        value: 25.0_f64.to_bits(),
        raw: vec![250],
        unit: Some("°C".to_string()),
        timestamp: "2015-05-15T00:00:00+00:00".to_string(),
    }
}

fn sends_update(action: &SocketAction, device_id: &str) -> bool {
    match action {
        SocketAction::Send { message: WsMessage::Update(u), required: true } => {
            u.device_id == device_id
        }
        _ => false,
    }
}

#[test]
fn greeting_carries_the_version() {
    match WsSession::greeting() {
        WsMessage::Connected { message } => {
            assert_eq!(message, format!("RustBridge WebSocket v{}", VERSION));
        }
        other => panic!("unexpected greeting: {:?}", other),
    }
}

#[test]
fn new_session_receives_every_device() {
    let mut session = WsSession::new();
    assert!(session.subscribed_devices.is_none());
    assert!(session.admits("plc-001"));
    assert!(session.admits(""));
    let action = session.step(SocketEvent::Update(update("plc-001")));
    assert!(sends_update(&action, "plc-001"));
}

#[test]
fn subscribe_replaces_the_filter() {
    let mut session = WsSession::new();
    let action = session.step(SocketEvent::Frame(WsMessage::Subscribe {
        devices: Some(vec!["plc-001".to_string(), "plc-002".to_string()]),
    }));
    assert!(matches!(action, SocketAction::Continue));
    assert!(session.admits("plc-001"));
    assert!(session.admits("plc-002"));
    assert!(!session.admits("sensor-001"));

    let action = session.step(SocketEvent::Update(update("sensor-001")));
    assert!(matches!(action, SocketAction::Continue));
    let action = session.step(SocketEvent::Update(update("plc-002")));
    assert!(sends_update(&action, "plc-002"));

    session.step(SocketEvent::Frame(WsMessage::Subscribe {
        devices: Some(vec!["sensor-001".to_string()]),
    }));
    assert!(!session.admits("plc-001"));
    assert!(session.admits("sensor-001"));
}

#[test]
fn subscribe_without_list_means_all() {
    let mut session = WsSession::new();
    session.step(SocketEvent::Frame(WsMessage::Unsubscribe));
    assert!(!session.admits("plc-001"));
    session.step(SocketEvent::Frame(WsMessage::Subscribe { devices: None }));
    assert!(session.admits("plc-001"));
    assert!(session.subscribed_devices.is_none());
}

#[test]
fn unsubscribe_receives_nothing() {
    let mut session = WsSession::new();
    let action = session.step(SocketEvent::Frame(WsMessage::Unsubscribe));
    assert!(matches!(action, SocketAction::Continue));
    assert_eq!(session.subscribed_devices, Some(vec![]));
    let action = session.step(SocketEvent::Update(update("plc-001")));
    assert!(matches!(action, SocketAction::Continue));
}

#[test]
fn subscribe_to_empty_list_receives_nothing() {
    let mut session = WsSession::new();
    session.step(SocketEvent::Frame(WsMessage::Subscribe { devices: Some(vec![]) }));
    let action = session.step(SocketEvent::Update(update("plc-001")));
    assert!(matches!(action, SocketAction::Continue));
}

#[test]
fn ping_is_answered_with_pong() {
    let mut session = WsSession::new();
    let action = session.step(SocketEvent::Frame(WsMessage::Ping));
    assert!(matches!(action, SocketAction::Send { message: WsMessage::Pong, required: true }));

    let action = session.step(SocketEvent::TransportPing(vec![1, 2, 3]));
    match action {
        SocketAction::TransportPong(payload) => assert_eq!(payload, vec![1, 2, 3]),
        other => panic!("unexpected action: {:?}", other),
    }
}

#[test]
fn malformed_frame_gets_an_error_frame() {
    let mut session = WsSession::new();
    let action = session.step(SocketEvent::Malformed("expected value at line 1".to_string()));
    match &action {
        SocketAction::Send { message: WsMessage::Error { message }, required } => {
            assert_eq!(message, "Invalid message format: expected value at line 1");
            assert!(!*required);
        }
        other => panic!("unexpected action: {:?}", other),
    }
    // A failure to deliver the error frame does not end the session.
    assert!(WsSession::continues_after(&action, false));
    assert!(session.admits("plc-001"));
}

#[test]
fn other_frames_from_the_client_are_ignored() {
    let mut session = WsSession::new();
    for message in [
        WsMessage::Pong,
        WsMessage::Update(update("plc-001")),
        WsMessage::Error { message: "x".to_string() },
        WsMessage::Connected { message: "x".to_string() },
    ] {
        let action = session.step(SocketEvent::Frame(message));
        assert!(matches!(action, SocketAction::Continue));
    }
    assert!(matches!(session.step(SocketEvent::Ignored), SocketAction::Continue));
    assert!(session.subscribed_devices.is_none());
}

#[test]
fn closing_events_end_the_session() {
    for event in [
        SocketEvent::CloseFrame,
        SocketEvent::ReceiveFailed,
        SocketEvent::StreamEnded,
        SocketEvent::BusClosed,
    ] {
        let mut session = WsSession::new();
        let action = session.step(event);
        assert!(matches!(action, SocketAction::Close));
        assert!(!WsSession::continues_after(&action, true));
    }
}

#[test]
fn lag_is_survived() {
    let mut session = WsSession::new();
    session.step(SocketEvent::Frame(WsMessage::Subscribe {
        devices: Some(vec!["plc-001".to_string()]),
    }));
    let action = session.step(SocketEvent::Lagged(12));
    assert!(matches!(action, SocketAction::Continue));
    assert!(WsSession::continues_after(&action, true));
    assert!(session.admits("plc-001"));
    assert!(!session.admits("plc-002"));
}

#[test]
fn failed_send_of_required_frame_ends_the_session() {
    let mut session = WsSession::new();
    let action = session.step(SocketEvent::Update(update("plc-001")));
    assert!(WsSession::continues_after(&action, true));
    assert!(!WsSession::continues_after(&action, false));

    let pong = session.step(SocketEvent::TransportPing(vec![]));
    assert!(WsSession::continues_after(&pong, true));
    assert!(!WsSession::continues_after(&pong, false));

    assert!(WsSession::continues_after(&SocketAction::Continue, false));
}

#[test]
fn bus_events_become_socket_events() {
    assert!(matches!(
        SocketEvent::from_bus(BusEvent::Update(update("plc-001"))),
        Some(SocketEvent::Update(u)) if u.device_id == "plc-001"
    ));
    assert!(matches!(SocketEvent::from_bus(BusEvent::Lagged(7)), Some(SocketEvent::Lagged(7))));
    assert!(matches!(SocketEvent::from_bus(BusEvent::Closed), Some(SocketEvent::BusClosed)));
    assert!(SocketEvent::from_bus(BusEvent::Empty).is_none());
}
