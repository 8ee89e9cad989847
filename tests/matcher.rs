use eg4_bridge::matcher::{MatchError, ReplyMatcher};
use eg4_bridge::packet::{DeviceFunction, Packet, TranslatedData};
use eg4_bridge::serial::Serial;

fn td(f: DeviceFunction, register: u16) -> Packet {
    Packet::TranslatedData(TranslatedData {
        datalog: Serial::parse("2222222222").unwrap(),
        inverter: Serial::parse("5555555555").unwrap(),
        device_function: f,
        register,
        values: vec![1, 0],
    })
}

#[test]
fn replies_match_by_fingerprint_in_any_order() {
    let mut m = ReplyMatcher::new();
    let a = m.register(td(DeviceFunction::ReadHold, 0).fingerprint(), 100).unwrap();
    let b = m.register(td(DeviceFunction::ReadInput, 40).fingerprint(), 100).unwrap();
    assert_eq!(m.resolve(&td(DeviceFunction::ReadInput, 40)), Some(b));
    assert_eq!(m.resolve(&td(DeviceFunction::ReadHold, 0)), Some(a));
    assert_eq!(m.resolve(&td(DeviceFunction::ReadHold, 0)), None);
}

#[test]
fn duplicate_fingerprint_is_refused() {
    let mut m = ReplyMatcher::new();
    m.register(td(DeviceFunction::ReadHold, 0).fingerprint(), 100).unwrap();
    assert_eq!(
        m.register(td(DeviceFunction::ReadHold, 0).fingerprint(), 200),
        Err(MatchError::DuplicateInFlight)
    );
    assert!(m.register(td(DeviceFunction::ReadHold, 1).fingerprint(), 200).is_ok());
}

#[test]
fn cancelled_waiter_is_not_resolved() {
    let mut m = ReplyMatcher::new();
    let a = m.register(td(DeviceFunction::ReadHold, 0).fingerprint(), 100).unwrap();
    assert!(m.cancel(a));
    assert!(!m.cancel(a));
    assert_eq!(m.resolve(&td(DeviceFunction::ReadHold, 0)), None);
}

#[test]
fn expired_waiters_time_out() {
    let mut m = ReplyMatcher::new();
    let a = m.register(td(DeviceFunction::ReadHold, 0).fingerprint(), 100).unwrap();
    let b = m.register(td(DeviceFunction::ReadHold, 1).fingerprint(), 300).unwrap();
    assert_eq!(m.expire(200), vec![a]);
    assert_eq!(m.waiters.len(), 1);
    assert_eq!(m.resolve(&td(DeviceFunction::ReadHold, 1)), Some(b));
}
