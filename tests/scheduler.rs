use eg4_bridge::commands::{clock, time_sync_request, Action, CommandError};
use eg4_bridge::config::{Config, ConfigWrapper, HomeAssistant, Influx, Inverter, Mqtt};
use eg4_bridge::packet::{DeviceFunction, Packet};
use eg4_bridge::scheduler::{block_starts, connect_requests, poll_requests, snapshot_slots, Scheduler};
use eg4_bridge::serial::Serial;

fn serial(s: &str) -> Serial {
    Serial::parse(s).unwrap()
}

fn inverter(datalog: &str, interval: Option<u64>) -> Inverter {
    Inverter {
        enabled: true,
        host: "h".to_string(),
        port: 8000,
        serial: Some(serial("5555555555")),
        datalog: Some(serial(datalog)),
        heartbeats: None,
        publish_holdings_on_connect: Some(true),
        read_timeout: None,
        use_tcp_nodelay: None,
        register_block_size: None,
        delay_ms: None,
        read_only: None,
        register_read_interval: interval,
    }
}

fn wrapper(inverters: Vec<Inverter>) -> ConfigWrapper {
    ConfigWrapper::from_config(Config {
        inverters,
        mqtt: Mqtt {
            enabled: false,
            host: String::new(),
            port: 1883,
            username: None,
            password: None,
            namespace: "lxp".to_string(),
            homeassistant: HomeAssistant { enabled: false, prefix: "homeassistant".to_string() },
            publish_individual_input: None,
        },
        influx: Influx { enabled: false, url: String::new(), username: None, password: None, database: String::new() },
        databases: vec![],
        scheduler: None,
        loglevel: "info".to_string(),
        read_only: false,
        homeassistant_enabled: false,
        strict_data_check: false,
        datalog_file: None,
        register_file: None,
        register_read_interval: 60,
        verbose: false,
        human_timestamps: false,
        show_unknown: false,
        inverter_timeout: 300,
    })
}

fn registers(ps: &[Packet], f: DeviceFunction) -> Vec<u16> {
    ps.iter()
        .filter_map(|p| match p {
            Packet::TranslatedData(td) if td.device_function == f => Some(td.register),
            _ => None,
        })
        .collect()
}

#[test]
fn block_starts_cover_the_range() {
    assert_eq!(block_starts(200, 40), vec![0, 40, 80, 120, 160, 200]);
    assert_eq!(block_starts(240, 100), vec![0, 100, 200]);
    assert_eq!(block_starts(200, 0), Vec::<u16>::new());
}

#[test]
fn poll_reads_every_input_block() {
    let ps = poll_requests(&inverter("2222222222", None)).unwrap();
    assert_eq!(registers(&ps, DeviceFunction::ReadInput), vec![0, 40, 80, 120, 160, 200]);
}

#[test]
fn connect_snapshot_order() {
    let ps = connect_requests(&inverter("2222222222", None)).unwrap();
    assert_eq!(ps.len(), 7 + 6);
    let holds = registers(&ps, DeviceFunction::ReadHold);
    assert_eq!(holds, vec![0, 40, 80, 120, 160, 200, 240]);
    let slots = snapshot_slots();
    assert_eq!(slots.len(), 12);
    assert_eq!(&slots[..4], &[Action::AcCharge(1), Action::ChargePriority(1), Action::ForcedDischarge(1), Action::AcFirst(1)]);
    assert_eq!(slots[11], Action::AcFirst(3));
    let regs: Vec<u16> = slots.iter().map(|a| a.register().unwrap()).collect();
    assert_eq!(&regs[8..], &[72, 80, 88, 156]);
    let mut quiet = inverter("2222222222", None);
    quiet.publish_holdings_on_connect = None;
    assert!(connect_requests(&quiet).is_none());
}

#[test]
fn per_inverter_intervals() {
    let a = inverter("2222222222", Some(10));
    let b = inverter("3333333333", None);
    let mut s = Scheduler::new(wrapper(vec![a.clone(), b.clone()]));
    assert_eq!(s.due_inverters(0).len(), 2);
    s.mark_read(serial("2222222222"), 0);
    s.mark_read(serial("3333333333"), 0);
    assert!(s.due_inverters(5).is_empty());
    let due = s.due_inverters(10);
    assert_eq!(due.len(), 1);
    assert_eq!(due[0].datalog, Some(serial("2222222222")));
    assert_eq!(s.due_inverters(60).len(), 2);
}

#[test]
fn time_sync_writes_clock_registers() {
    let inv = inverter("2222222222", None);
    match time_sync_request(&inv, 2024, 5, 17, 13, 45, 9).unwrap() {
        Packet::TranslatedData(td) => {
            assert_eq!(td.device_function, DeviceFunction::WriteMulti);
            assert_eq!(td.register, 12);
            assert_eq!(td.values, vec![24, 5, 17, 13, 45, 9]);
        }
        other => panic!("unexpected {:?}", other),
    }
    let mut ro = inv.clone();
    ro.read_only = Some(true);
    assert!(matches!(time_sync_request(&ro, 2024, 5, 17, 13, 45, 9), Err(CommandError::ReadOnly)));
}

#[test]
fn slot_reply_text() {
    assert_eq!(Action::AcCharge(2).mqtt_reply_topic(serial("2222222222")), "2222222222/ac_charge/2");
    assert_eq!(
        Action::ForcedDischarge(1).mqtt_reply_topic(serial("2222222222")),
        "2222222222/forced_discharge/1"
    );
    assert_eq!(clock(5, 7), "05:07");
    assert_eq!(clock(23, 45), "23:45");
}
