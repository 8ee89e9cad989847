use eg4_bridge::commands::Command;
use eg4_bridge::config::{Config, ConfigWrapper, HomeAssistant, Influx, Inverter, Mqtt};
use eg4_bridge::router::{result_topic, split_command_topic, to_command, RouteError, Target};
use eg4_bridge::serial::Serial;

fn serial(s: &str) -> Serial {
    Serial::parse(s).unwrap()
}

fn inverter(datalog: &str) -> Inverter {
    Inverter {
        enabled: true,
        host: "h".to_string(),
        port: 8000,
        serial: Some(serial("5555555555")),
        datalog: Some(serial(datalog)),
        heartbeats: None,
        publish_holdings_on_connect: None,
        read_timeout: None,
        use_tcp_nodelay: None,
        register_block_size: None,
        delay_ms: None,
        read_only: None,
        register_read_interval: None,
    }
}

fn command(topic: &str, payload: &str) -> Result<Command, RouteError> {
    let ct = split_command_topic(topic, "lxp")?;
    to_command(&ct.verb, payload, inverter("2222222222"))
}

fn wrapper() -> ConfigWrapper {
    ConfigWrapper::from_config(Config {
        inverters: vec![inverter("2222222222"), inverter("3333333333")],
        mqtt: Mqtt {
            enabled: true,
            host: "localhost".to_string(),
            port: 1883,
            username: None,
            password: None,
            namespace: "lxp".to_string(),
            homeassistant: HomeAssistant { enabled: false, prefix: "homeassistant".to_string() },
            publish_individual_input: None,
        },
        influx: Influx { enabled: false, url: String::new(), username: None, password: None, database: String::new() },
        databases: vec![],
        scheduler: None,
        loglevel: "info".to_string(),
        read_only: false,
        homeassistant_enabled: false,
        strict_data_check: false,
        datalog_file: None,
        register_file: None,
        register_read_interval: 60,
        verbose: false,
        human_timestamps: false,
        show_unknown: false,
        inverter_timeout: 300,
    })
}

#[test]
fn targets() {
    let ct = split_command_topic("lxp/cmd/all/read/hold/0", "lxp").unwrap();
    assert_eq!(ct.target, Target::All);
    let ct = split_command_topic("lxp/cmd/2222222222/read/hold/0", "lxp").unwrap();
    assert_eq!(ct.target, Target::Datalog(serial("2222222222")));
    assert_eq!(ct.verb.len(), 3);
    assert!(matches!(split_command_topic("other/cmd/all/x", "lxp"), Err(RouteError::NotACommand)));
    assert!(matches!(split_command_topic("lxp/cmd/nope/x", "lxp"), Err(RouteError::BadTarget)));
}

#[test]
fn read_commands() {
    assert!(matches!(command("lxp/cmd/all/read/hold/12", ""), Ok(Command::ReadHold(_, 12, 1))));
    assert!(matches!(command("lxp/cmd/all/read/hold/12", "5"), Ok(Command::ReadHold(_, 12, 5))));
    assert!(matches!(command("lxp/cmd/all/read/input/40", "40"), Ok(Command::ReadInput(_, 40, 40))));
    assert!(matches!(command("lxp/cmd/all/read/inputs/2", ""), Ok(Command::ReadInputs(_, 2))));
    assert!(matches!(command("lxp/cmd/all/read/param/7", ""), Ok(Command::ReadParam(_, 7))));
    assert!(matches!(command("lxp/cmd/all/read/ac_first/3", ""), Ok(Command::ReadAcFirstTime(_, 3))));
    assert!(matches!(command("lxp/cmd/all/read/hold/x", ""), Err(RouteError::UnknownCommand)));
    assert!(matches!(command("lxp/cmd/all/read/hold/1", "many"), Err(RouteError::BadPayload)));
}

#[test]
fn set_commands() {
    assert!(matches!(command("lxp/cmd/all/set/hold/64", "50"), Ok(Command::SetHold(_, 64, 50))));
    assert!(matches!(command("lxp/cmd/all/set/param/1", "2"), Ok(Command::WriteParam(_, 1, 2))));
    assert!(matches!(command("lxp/cmd/all/set/ac_charge", "on"), Ok(Command::AcCharge(_, true))));
    assert!(matches!(
        command("lxp/cmd/all/set/forced_discharge", "off"),
        Ok(Command::ForcedDischarge(_, false))
    ));
    assert!(matches!(command("lxp/cmd/all/set/charge_priority", "maybe"), Err(RouteError::BadPayload)));
    assert!(matches!(command("lxp/cmd/all/set/charge_rate_pct", "80"), Ok(Command::ChargeRate(_, 80))));
    assert!(matches!(command("lxp/cmd/all/set/charge_rate_pct", "101"), Err(RouteError::BadPayload)));
    assert!(matches!(
        command("lxp/cmd/all/set/discharge_cutoff_soc_limit_pct", "20"),
        Ok(Command::DischargeCutoffSocLimit(_, 20))
    ));
    match command("lxp/cmd/all/set/ac_charge/1", "23:30/05:45") {
        Ok(Command::SetAcChargeTime(_, 1, v)) => assert_eq!(v, [23, 30, 5, 45]),
        other => panic!("unexpected {:?}", other),
    }
    assert!(matches!(command("lxp/cmd/all/set/ac_charge/1", "24:00/05:45"), Err(RouteError::BadPayload)));
    assert!(matches!(command("lxp/cmd/all/set/unknown", "1"), Err(RouteError::UnknownCommand)));
}

#[test]
fn result_topics() {
    assert_eq!(result_topic("lxp/cmd/all/set/ac_charge"), "lxp/cmd/all/set/ac_charge/result");
}

#[test]
fn inverters_for_message_by_target() {
    let w = wrapper();
    assert_eq!(w.inverters_for_message("lxp/cmd/all/read/hold/0").unwrap().len(), 2);
    let only = w.inverters_for_message("lxp/cmd/3333333333/read/hold/0").unwrap();
    assert_eq!(only.len(), 1);
    assert_eq!(only[0].datalog, Some(serial("3333333333")));
    assert!(w.inverters_for_message("lxp/cmd/4444444444/read/hold/0").unwrap().is_empty());
    assert!(w.inverters_for_message("lxp/status").is_err());
}
