use eg4_bridge::codec::resync_point;
use eg4_bridge::influx::snapshot_points;
use eg4_bridge::inputs::ReadInputAll;
use eg4_bridge::packet::{Heartbeat, Packet};
use eg4_bridge::serial::Serial;
use eg4_bridge::session::{Session, SessionAction, SessionEvent, SessionState};

fn heartbeat() -> Packet {
    Packet::Heartbeat(Heartbeat { datalog: Serial::parse("2222222222").unwrap() })
}

fn delays(actions: &[SessionAction]) -> Vec<u64> {
    actions
        .iter()
        .filter_map(|a| match a {
            SessionAction::Open { delay_ms } => Some(*delay_ms),
            _ => None,
        })
        .collect()
}

#[test]
fn backoff_doubles_up_to_a_minute_and_resets() {
    let mut s = Session::new(false);
    assert_eq!(delays(&s.on_event(SessionEvent::Start)), vec![1000]);
    let mut seen = vec![];
    for _ in 0..8 {
        seen.extend(delays(&s.on_event(SessionEvent::OpenFailed)));
    }
    assert_eq!(seen, vec![1000, 2000, 4000, 8000, 16000, 32000, 60000, 60000]);
    s.on_event(SessionEvent::Opened);
    let actions = s.on_event(SessionEvent::Frame(heartbeat()));
    assert!(matches!(actions[0], SessionAction::AnnounceConnected(_)));
    assert_eq!(s.state, SessionState::Connected);
    assert_eq!(s.backoff_ms, 1000);
}

#[test]
fn heartbeat_is_echoed_when_enabled() {
    let mut s = Session::new(true);
    s.on_event(SessionEvent::Opened);
    let actions = s.on_event(SessionEvent::Frame(heartbeat()));
    assert_eq!(actions.len(), 3);
    assert!(matches!(actions[2], SessionAction::Reply(_)));
    let again = s.on_event(SessionEvent::Frame(heartbeat()));
    assert_eq!(again.len(), 2);
}

#[test]
fn timeout_and_write_failure_reconnect() {
    let mut s = Session::new(false);
    s.on_event(SessionEvent::Opened);
    s.on_event(SessionEvent::Frame(heartbeat()));
    let a = s.on_event(SessionEvent::ReadTimeout);
    assert!(matches!(a[0], SessionAction::Close));
    assert_eq!(s.state, SessionState::Disconnected);
    let b = s.on_event(SessionEvent::WriteFailed);
    assert!(matches!(b[1], SessionAction::AnnounceDisconnect));
    assert_eq!(delays(&b), vec![2000]);
}

#[test]
fn resync_finds_next_preamble() {
    let buf = [0xA1, 0x00, 0x05, 0xA1, 0x1A, 0x02];
    assert_eq!(resync_point(&buf, 0), 3);
    assert_eq!(resync_point(&buf, 3), 6);
    assert_eq!(resync_point(&[0x00, 0xA1], 0), 1);
}

#[test]
fn snapshot_fields_are_named_by_register() {
    let all = ReadInputAll {
        read_input_1: vec![10, 11],
        read_input_2: vec![20],
        read_input_3: vec![],
        read_input_4: None,
        read_input_5: Some(vec![50]),
        read_input_6: None,
    };
    assert_eq!(
        snapshot_points(&all),
        vec![
            ("register_0".to_string(), 10),
            ("register_1".to_string(), 11),
            ("register_40".to_string(), 20),
            ("register_160".to_string(), 50),
        ]
    );
}
