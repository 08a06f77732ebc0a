use bose_soundtouch::event::Volume;
use bose_soundtouch::{
    websocket_url, subprotocol_accepted, BoseError, Connection, DecodeError, EventBus, Inbound, LinkState,
    SoundTouchEvent, Step, SubscriberId, Supervisor, SupervisorAction, UserActivity, VolumeUpdate,
};

fn vol(level: u8) -> SoundTouchEvent {
    SoundTouchEvent::VolumeUpdated(VolumeUpdate {
        volume: Volume { target_volume: level, actual_volume: level, mute_enabled: false },
    })
}

fn level(e: Option<&SoundTouchEvent>) -> Option<u8> {
    match e {
        Some(SoundTouchEvent::VolumeUpdated(v)) => Some(v.volume.actual_volume),
        Some(other) => panic!("unexpected {:?}", other),
        None => None,
    }
}

fn drain(bus: &mut EventBus, id: SubscriberId) -> Vec<u8> {
    let mut out = Vec::new();
    while let Some(l) = level(bus.recv(id)) {
        out.push(l);
    }
    out
}

fn streaming() -> Connection {
    let mut c = Connection::new();
    c.begin_handshake();
    assert_eq!(c.on_handshake_response(Some(b"gabbo".as_slice())), Ok(()));
    c
}

#[test]
fn two_subscribers_receive_same_sequence() {
    let mut bus = EventBus::new();
    let a = bus.subscribe();
    let b = bus.subscribe();
    assert_ne!(a, b);
    for l in [1u8, 2, 3] {
        bus.publish(vol(l));
    }
    assert_eq!(level(bus.recv(a)), Some(1));
    bus.publish(vol(4));
    assert_eq!(drain(&mut bus, b), vec![1, 2, 3, 4]);
    assert_eq!(drain(&mut bus, a), vec![2, 3, 4]);
    assert_eq!(level(bus.recv(a)), None);
}

#[test]
fn lagging_subscriber_loses_oldest_events() {
    let mut bus = EventBus::with_capacity(2);
    let slow = bus.subscribe();
    let fast = bus.subscribe();
    bus.publish(vol(1));
    assert_eq!(level(bus.recv(fast)), Some(1));
    bus.publish(vol(2));
    bus.publish(vol(3));
    assert_eq!(drain(&mut bus, slow), vec![2, 3]);
    assert_eq!(drain(&mut bus, fast), vec![2, 3]);
}

#[test]
fn default_capacity_keeps_last_hundred() {
    let mut bus = EventBus::new();
    let id = bus.subscribe();
    for l in 0u8..150 {
        bus.publish(vol(l));
    }
    let got = drain(&mut bus, id);
    assert_eq!(got.len(), 100);
    assert_eq!(got[0], 50);
    assert_eq!(got[99], 149);
}

#[test]
fn publish_without_subscribers_is_dropped() {
    let mut bus = EventBus::new();
    bus.publish(vol(9));
    assert_eq!(bus.subscriber_len(), 0);
    let late = bus.subscribe();
    assert_eq!(level(bus.recv(late)), None);
    assert_eq!(level(bus.recv(SubscriberId { index: 5 })), None);
}

#[test]
fn late_subscriber_sees_only_later_events() {
    let mut bus = EventBus::new();
    let early = bus.subscribe();
    bus.publish(vol(1));
    let late = bus.subscribe();
    bus.publish(vol(2));
    assert_eq!(drain(&mut bus, early), vec![1, 2]);
    assert_eq!(drain(&mut bus, late), vec![2]);
}

#[test]
fn backoff_doubles_up_to_cap() {
    let mut s = Supervisor::new();
    let mut waits = Vec::new();
    for _ in 0..9 {
        waits.push(s.after_attempt(false));
    }
    assert_eq!(waits, vec![1, 2, 4, 8, 16, 32, 60, 60, 60]);
}

#[test]
fn backoff_resets_after_streaming() {
    let mut s = Supervisor::new();
    for _ in 0..4 {
        s.after_attempt(false);
    }
    assert_eq!(s.current_delay(), 16);
    assert_eq!(s.after_attempt(true), 1);
    assert_eq!(s.after_attempt(false), 2);
    assert_eq!(s.after_attempt(false), 4);
}

#[test]
fn cancellation_stops_the_supervisor() {
    let mut s = Supervisor::new();
    assert_eq!(s.on_attempt_end(false, false), SupervisorAction::Retry { after_secs: 1 });
    assert_eq!(s.on_attempt_end(false, true), SupervisorAction::Stop);
    assert_eq!(s.current_delay(), 2);
}

#[test]
fn handshake_without_subprotocol_fails_and_retries_after_initial_delay() {
    let mut bus = EventBus::new();
    let id = bus.subscribe();
    let mut c = Connection::new();
    c.begin_handshake();
    let r = c.on_handshake_response(Some(b"chat".as_slice()));
    assert!(matches!(r, Err(BoseError::ProtocolError(_))));
    assert_eq!(c.state(), LinkState::Closed);
    assert!(!c.reached_streaming());
    assert_eq!(level(bus.recv(id)), None);
    let mut s = Supervisor::new();
    assert_eq!(s.on_attempt_end(c.reached_streaming(), false), SupervisorAction::Retry { after_secs: 1 });

    let mut c = Connection::new();
    c.begin_handshake();
    assert!(matches!(c.on_handshake_response(None), Err(BoseError::ProtocolError(_))));
    assert!(!subprotocol_accepted(Some(b"gabbo2".as_slice())));
    assert!(!subprotocol_accepted(Some(b"".as_slice())));
    assert!(subprotocol_accepted(Some(b"gabbo".as_slice())));
}

#[test]
fn close_frame_publishes_one_disconnected() {
    let mut bus = EventBus::new();
    let id = bus.subscribe();
    let mut c = streaming();
    assert_eq!(c.on_inbound(Inbound::Decoded(Ok(vol(5))), &mut bus), Step::Continue);
    assert_eq!(c.on_inbound(Inbound::Decoded(Err(DecodeError::InvalidField)), &mut bus), Step::Continue);
    assert_eq!(c.on_inbound(Inbound::Other, &mut bus), Step::Continue);
    assert_eq!(c.on_inbound(Inbound::Close, &mut bus), Step::Finished(Ok(())));
    assert_eq!(c.state(), LinkState::Closed);
    assert!(c.reached_streaming());
    assert_eq!(level(bus.recv(id)), Some(5));
    assert!(matches!(bus.recv(id), Some(SoundTouchEvent::Disconnected)));
    assert!(bus.recv(id).is_none());
    let mut s = Supervisor::new();
    s.after_attempt(false);
    s.after_attempt(false);
    assert_eq!(s.on_attempt_end(c.reached_streaming(), false), SupervisorAction::Retry { after_secs: 1 });
}

#[test]
fn end_of_stream_and_transport_error() {
    let mut bus = EventBus::new();
    let id = bus.subscribe();
    let mut c = streaming();
    let e = SoundTouchEvent::UserActivity(UserActivity { device_id: "D".to_string() });
    assert_eq!(c.on_inbound(Inbound::Decoded(Ok(e)), &mut bus), Step::Continue);
    assert_eq!(c.on_inbound(Inbound::End, &mut bus), Step::Finished(Ok(())));
    assert!(matches!(bus.recv(id), Some(SoundTouchEvent::UserActivity(u)) if u.device_id == "D"));
    assert!(matches!(bus.recv(id), Some(SoundTouchEvent::Disconnected)));

    let mut c = streaming();
    let r = c.on_inbound(Inbound::TransportError("reset".to_string()), &mut bus);
    assert_eq!(r, Step::Finished(Err(BoseError::ConnectionError("reset".to_string()))));
    assert_eq!(c.state(), LinkState::Closed);
    assert!(bus.recv(id).is_none());
}

#[test]
fn connect_failure_closes_attempt() {
    let mut c = Connection::new();
    let e = c.connect_failed("refused".to_string());
    assert_eq!(e, BoseError::ConnectionError("refused".to_string()));
    assert_eq!(c.state(), LinkState::Closed);
    assert!(!c.reached_streaming());
}

#[test]
fn websocket_url_for_host() {
    assert_eq!(websocket_url("bose.local"), Ok("ws://bose.local:8080".to_string()));
    assert_eq!(websocket_url("192.168.1.143"), Ok("ws://192.168.1.143:8080".to_string()));
    assert_eq!(websocket_url("bad host"), Err(BoseError::UrlParseError("ws://bad host:8080".to_string())));
}
