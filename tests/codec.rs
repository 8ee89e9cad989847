use eg4_bridge::codec::{checksum, decode, decode_stream, encode, DecodeError, Decoded};
use eg4_bridge::packet::{DeviceFunction, Heartbeat, Packet, Param, TranslatedData};
use eg4_bridge::serial::Serial;

fn serial(s: &str) -> Serial {
    Serial::parse(s).unwrap()
}

fn read_hold(values: Vec<u8>) -> Packet {
    Packet::TranslatedData(TranslatedData {
        datalog: serial("2222222222"),
        inverter: serial("5555555555"),
        device_function: DeviceFunction::ReadHold,
        register: 0,
        values,
    })
}

fn frame(buf: &[u8]) -> (Packet, usize) {
    match decode(buf) {
        Decoded::Frame(p, n) => (p, n),
        other => panic!("expected a frame, got {:?}", other),
    }
}

#[test]
fn crc16_modbus_check_value() {
    assert_eq!(checksum(b"123456789", 0, 9), 0x4B37);
    assert_eq!(checksum(b"", 0, 0), 0xFFFF);
}

#[test]
fn read_hold_request_frame_layout() {
    let bytes = encode(&read_hold(vec![1, 0]));
    assert_eq!(bytes.len(), 38);
    assert_eq!(&bytes[0..2], &[0xA1, 0x1A]);
    assert_eq!(&bytes[2..4], &[2, 0]);
    assert_eq!(&bytes[4..6], &[32, 0]);
    assert_eq!(bytes[6], 1);
    assert_eq!(bytes[7], 194);
    assert_eq!(&bytes[8..18], b"2222222222");
    assert_eq!(&bytes[18..20], &[16, 0]);
    assert_eq!(bytes[20], 0);
    assert_eq!(bytes[21], 3);
    assert_eq!(&bytes[22..32], b"5555555555");
    assert_eq!(&bytes[32..34], &[0, 0]);
    assert_eq!(&bytes[34..36], &[1, 0]);
    let crc = checksum(&bytes, 20, 36);
    assert_eq!(&bytes[36..38], &crc.to_le_bytes());
}

#[test]
fn round_trip_every_kind() {
    let packets = vec![
        Packet::Heartbeat(Heartbeat { datalog: serial("2222222222") }),
        read_hold(vec![0x34, 0x12, 0x78, 0x56]),
        Packet::ReadParam(Param { datalog: serial("AB12CD34EF"), register: 7, values: vec![] }),
        Packet::WriteParam(Param { datalog: serial("AB12CD34EF"), register: 7, values: vec![9, 8] }),
    ];
    for p in packets {
        let bytes = encode(&p);
        let (q, n) = frame(&bytes);
        assert_eq!(q, p);
        assert_eq!(n, bytes.len());
    }
}

#[test]
fn partial_frame_needs_more_bytes() {
    let bytes = encode(&read_hold(vec![1, 0]));
    for cut in 0..bytes.len() {
        assert!(matches!(decode(&bytes[..cut]), Decoded::NeedMore), "cut at {}", cut);
    }
}

#[test]
fn decode_stops_at_advertised_length() {
    let mut bytes = encode(&read_hold(vec![1, 0]));
    let len = bytes.len();
    bytes.extend_from_slice(&[0xA1, 0x1A, 0xFF, 0xFF]);
    let (p, n) = frame(&bytes);
    assert_eq!(n, len);
    assert_eq!(p, read_hold(vec![1, 0]));
}

#[test]
fn bad_preamble_is_malformed() {
    let mut bytes = encode(&read_hold(vec![1, 0]));
    bytes[0] = 0x00;
    assert!(matches!(decode(&bytes), Decoded::Error(DecodeError::MalformedFrame)));
}

#[test]
fn oversized_length_is_malformed() {
    let mut bytes = encode(&read_hold(vec![1, 0]));
    bytes[4] = 0xFF;
    bytes[5] = 0xFF;
    assert!(matches!(decode(&bytes), Decoded::Error(DecodeError::MalformedFrame)));
}

#[test]
fn corrupted_value_is_checksum_error() {
    let mut bytes = encode(&read_hold(vec![1, 0]));
    bytes[34] ^= 0x01;
    assert!(matches!(decode(&bytes), Decoded::Error(DecodeError::ChecksumError)));
}

#[test]
fn unknown_tcp_function_is_surfaced() {
    let mut bytes = encode(&Packet::Heartbeat(Heartbeat { datalog: serial("2222222222") }));
    bytes[7] = 0x42;
    assert!(matches!(decode(&bytes), Decoded::Error(DecodeError::UnknownFunction(0x42))));
}

#[test]
fn stream_decodes_frames_in_order_and_stops_at_partial() {
    let a = read_hold(vec![1, 0]);
    let b = Packet::Heartbeat(Heartbeat { datalog: serial("2222222222") });
    let mut bytes = encode(&a);
    bytes.extend(encode(&b));
    let whole = bytes.len();
    bytes.extend(&encode(&a)[..10]);
    let (packets, used, error) = decode_stream(&bytes);
    assert_eq!(packets, vec![a, b]);
    assert_eq!(used, whole);
    assert_eq!(error, None);
}

#[test]
fn stream_reports_the_error_that_stopped_it() {
    let a = read_hold(vec![1, 0]);
    let mut bytes = encode(&a);
    let first = bytes.len();
    let mut bad = encode(&a);
    bad[0] = 0;
    bytes.extend(bad);
    let (packets, used, error) = decode_stream(&bytes);
    assert_eq!(packets.len(), 1);
    assert_eq!(used, first);
    assert_eq!(error, Some(DecodeError::MalformedFrame));
}
