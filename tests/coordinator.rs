use eg4_bridge::cache::RegisterCache;
use eg4_bridge::config::{Config, ConfigWrapper, HomeAssistant, Influx, Inverter, Mqtt};
use eg4_bridge::coordinator::{BacklogMeter, Coordinator, Effect, Message, Verdict};
use eg4_bridge::inputs::InputsStore;
use eg4_bridge::packet::{DeviceFunction, Heartbeat, Packet, TranslatedData};
use eg4_bridge::serial::Serial;

fn serial(s: &str) -> Serial {
    Serial::parse(s).unwrap()
}

fn inverter() -> Inverter {
    Inverter {
        enabled: true,
        host: "192.168.0.10".to_string(),
        port: 8000,
        serial: Some(serial("5555555555")),
        datalog: Some(serial("2222222222")),
        heartbeats: None,
        publish_holdings_on_connect: None,
        read_timeout: None,
        use_tcp_nodelay: None,
        register_block_size: None,
        delay_ms: None,
        read_only: None,
        register_read_interval: None,
    }
}

fn config(mqtt_enabled: bool) -> Config {
    Config {
        inverters: vec![inverter()],
        mqtt: Mqtt {
            enabled: mqtt_enabled,
            host: "localhost".to_string(),
            port: 1883,
            username: None,
            password: None,
            namespace: "lxp".to_string(),
            homeassistant: HomeAssistant { enabled: false, prefix: "homeassistant".to_string() },
            publish_individual_input: None,
        },
        influx: Influx {
            enabled: false,
            url: String::new(),
            username: None,
            password: None,
            database: String::new(),
        },
        databases: vec![],
        scheduler: None,
        loglevel: "info".to_string(),
        read_only: false,
        homeassistant_enabled: false,
        strict_data_check: false,
        datalog_file: None,
        register_file: None,
        register_read_interval: 60,
        verbose: false,
        human_timestamps: false,
        show_unknown: false,
        inverter_timeout: 300,
    }
}

fn coordinator() -> Coordinator {
    Coordinator::new(ConfigWrapper::from_config(config(true)))
}

fn reply(f: DeviceFunction, inverter_serial: &str, register: u16, values: Vec<u8>) -> Packet {
    Packet::TranslatedData(TranslatedData {
        datalog: serial("2222222222"),
        inverter: Serial { bytes: inverter_serial.as_bytes().try_into().unwrap() },
        device_function: f,
        register,
        values,
    })
}

#[test]
fn hold_reply_is_cached_and_published_retained() {
    let mut c = coordinator();
    let (verdict, effects) =
        c.process_inverter_packet(&reply(DeviceFunction::ReadHold, "5555555555", 0, vec![0x34, 0x12]), &inverter());
    assert_eq!(verdict, Verdict::Processed);
    assert_eq!(
        effects,
        vec![
            Effect::CacheWrite { datalog: serial("2222222222"), register: 0, value: 0x1234 },
            Effect::Publish(Message {
                topic: "2222222222/hold/0".to_string(),
                payload: "4660".to_string(),
                retain: true,
            }),
        ]
    );
    let mut cache = RegisterCache::new();
    for e in &effects {
        if let Effect::CacheWrite { datalog, register, value } = e {
            cache.write(*datalog, *register, *value);
        }
    }
    assert_eq!(cache.read(&serial("2222222222"), 0), Some(0x1234));
    assert_eq!(cache.read(&serial("2222222222"), 1), None);
}

#[test]
fn hold_reply_without_mqtt_only_caches() {
    let mut c = Coordinator::new(ConfigWrapper::from_config(config(false)));
    let (_, effects) = c.process_inverter_packet(
        &reply(DeviceFunction::ReadHold, "5555555555", 7, vec![1, 0, 2, 0]),
        &inverter(),
    );
    assert_eq!(
        effects,
        vec![
            Effect::CacheWrite { datalog: serial("2222222222"), register: 7, value: 1 },
            Effect::CacheWrite { datalog: serial("2222222222"), register: 8, value: 2 },
        ]
    );
}

#[test]
fn modbus_exception_is_counted_once_and_goes_nowhere() {
    let mut c = coordinator();
    let (verdict, effects) = c.process_inverter_packet(
        &reply(DeviceFunction::ReadHold, "5555555555", 0, vec![0x82, 0x00]),
        &inverter(),
    );
    assert_eq!(verdict, Verdict::ModbusException(2));
    assert!(effects.is_empty());
    assert_eq!(c.stats.modbus_errors, 1);
    assert_eq!(c.stats.serial_mismatches, 0);
}

#[test]
fn serial_mismatch_requests_one_disconnect() {
    let mut c = coordinator();
    let (verdict, effects) = c.process_inverter_packet(
        &reply(DeviceFunction::ReadHold, "9999999999", 0, vec![1, 0]),
        &inverter(),
    );
    assert_eq!(verdict, Verdict::SerialMismatch);
    assert_eq!(effects, vec![Effect::Disconnect(serial("5555555555"))]);
    assert_eq!(c.stats.serial_mismatches, 1);
    assert_eq!(c.stats.inverter_disconnections.get(&serial("5555555555")), Some(&1));
    assert_eq!(
        c.stats.last_messages.get(&serial("5555555555")).map(|s| s.as_str()),
        Some("Serial mismatch - got 9999999999, expected 5555555555")
    );
}

#[test]
fn non_alphanumeric_serial_is_rejected() {
    let mut c = coordinator();
    let (verdict, effects) = c.process_inverter_packet(
        &reply(DeviceFunction::ReadHold, "55555-5555", 0, vec![1, 0]),
        &inverter(),
    );
    assert_eq!(verdict, Verdict::InvalidSerial);
    assert!(effects.is_empty());
    assert_eq!(c.stats.serial_mismatches, 1);
    assert_eq!(c.stats.inverter_disconnections.get(&serial("5555555555")), None);
}

#[test]
fn write_single_confirmation() {
    let mut c = coordinator();
    let (_, effects) = c.process_inverter_packet(
        &reply(DeviceFunction::WriteSingle, "5555555555", 21, vec![1, 0]),
        &inverter(),
    );
    assert_eq!(
        effects,
        vec![
            Effect::CacheWrite { datalog: serial("2222222222"), register: 21, value: 1 },
            Effect::Publish(Message {
                topic: "2222222222/write/status".to_string(),
                payload: "OK: 21 = 1".to_string(),
                retain: false,
            }),
        ]
    );
}

#[test]
fn write_multi_confirmation() {
    let mut c = coordinator();
    let (_, effects) = c.process_inverter_packet(
        &reply(DeviceFunction::WriteMulti, "5555555555", 68, vec![1, 0, 2, 1]),
        &inverter(),
    );
    assert_eq!(
        effects[2],
        Effect::Publish(Message {
            topic: "2222222222/write_multi/status".to_string(),
            payload: "OK: [(68, 1), (69, 258)]".to_string(),
            retain: false,
        })
    );
}

#[test]
fn non_translated_packets_are_not_dispatched() {
    let mut c = coordinator();
    let (verdict, effects) = c.process_inverter_packet(
        &Packet::Heartbeat(Heartbeat { datalog: serial("2222222222") }),
        &inverter(),
    );
    assert_eq!(verdict, Verdict::NotTranslated);
    assert!(effects.is_empty());
}

fn page(register: u16) -> Packet {
    reply(DeviceFunction::ReadInput, "5555555555", register, vec![1; 80])
}

fn snapshots(effects: &[Effect]) -> usize {
    effects.iter().filter(|e| matches!(e, Effect::InputSnapshot { .. })).count()
}

#[test]
fn snapshot_emits_once_after_page_three() {
    let mut c = coordinator();
    let (_, e2) = c.process_inverter_packet(&page(40), &inverter());
    assert_eq!(snapshots(&e2), 0);
    assert!(matches!(e2[0], Effect::InputPage { page: 2, .. }));
    let (_, e1) = c.process_inverter_packet(&page(0), &inverter());
    assert_eq!(snapshots(&e1), 0);
    let (_, e3) = c.process_inverter_packet(&page(80), &inverter());
    assert_eq!(snapshots(&e3), 1);
    let (_, again) = c.process_inverter_packet(&page(0), &inverter());
    assert_eq!(snapshots(&again), 0);
}

#[test]
fn store_keeps_datalogs_apart() {
    let mut store = InputsStore::new();
    let a = serial("AAAAAAAAAA");
    let b = serial("BBBBBBBBBB");
    assert!(store.ingest(a, 1, vec![1]).is_none());
    assert!(store.ingest(b, 2, vec![2]).is_none());
    assert!(store.ingest(b, 3, vec![3]).is_none());
    assert!(store.ingest(a, 2, vec![4]).is_none());
    assert!(store.ingest(b, 1, vec![5]).is_some());
    assert!(store.ingest(a, 3, vec![6]).is_some());
}

#[test]
fn received_translated_data_becomes_last_message() {
    let mut c = coordinator();
    c.stats.count_received(&reply(DeviceFunction::ReadHold, "5555555555", 21, vec![1, 0]));
    assert_eq!(c.stats.packets_received, 1);
    assert_eq!(c.stats.translated_data_packets_received, 1);
    assert_eq!(
        c.stats.last_messages.get(&serial("2222222222")).map(|s| s.as_str()),
        Some("ReadHold register 21")
    );
    c.stats.count_received(&Packet::Heartbeat(Heartbeat { datalog: serial("2222222222") }));
    assert_eq!(c.stats.heartbeat_packets_received, 1);
    assert_eq!(
        c.stats.last_messages.get(&serial("2222222222")).map(|s| s.as_str()),
        Some("ReadHold register 21")
    );
}

#[test]
fn counters_rise_by_one_per_rejected_frame() {
    let mut c = coordinator();
    for n in 1..=3u64 {
        c.process_inverter_packet(&reply(DeviceFunction::ReadHold, "5555555555", 0, vec![0x81]), &inverter());
        assert_eq!(c.stats.modbus_errors, n);
        c.process_inverter_packet(&reply(DeviceFunction::ReadHold, "1111111111", 0, vec![1, 0]), &inverter());
        assert_eq!(c.stats.serial_mismatches, n);
    }
}

#[test]
fn backlog_is_drained_at_the_limit() {
    let mut m = BacklogMeter::new();
    assert!(!m.record(1000));
    assert!(m.record(24));
    assert_eq!(m.bytes, 0);
    assert!(!m.record(1023));
    assert!(m.record(usize::MAX));
}
