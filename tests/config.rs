use eg4_bridge::config::{
    Config, ConfigError, ConfigWrapper, Database, HomeAssistant, Influx, Inverter, Mqtt, Scheduler,
};
use eg4_bridge::serial::Serial;

fn serial(s: &str) -> Serial {
    Serial::parse(s).unwrap()
}

fn inverter(host: &str, datalog: &str, enabled: bool) -> Inverter {
    Inverter {
        enabled,
        host: host.to_string(),
        port: 8000,
        serial: Some(serial("5555555555")),
        datalog: Some(serial(datalog)),
        heartbeats: None,
        publish_holdings_on_connect: None,
        read_timeout: None,
        use_tcp_nodelay: None,
        register_block_size: None,
        delay_ms: None,
        read_only: None,
        register_read_interval: None,
    }
}

fn config() -> Config {
    Config {
        inverters: vec![inverter("a", "2222222222", true), inverter("b", "3333333333", false)],
        mqtt: Mqtt {
            enabled: true,
            host: "localhost".to_string(),
            port: 1883,
            username: None,
            password: None,
            namespace: "lxp".to_string(),
            homeassistant: HomeAssistant { enabled: true, prefix: "homeassistant".to_string() },
            publish_individual_input: None,
        },
        influx: Influx {
            enabled: true,
            url: "http://localhost:8086".to_string(),
            username: None,
            password: None,
            database: "solar".to_string(),
        },
        databases: vec![Database { enabled: true, url: "postgres://u@localhost/db".to_string() }],
        scheduler: Some(Scheduler { enabled: true, timesync_cron: None }),
        loglevel: "info".to_string(),
        read_only: false,
        homeassistant_enabled: false,
        strict_data_check: false,
        datalog_file: None,
        register_file: None,
        register_read_interval: 60,
        verbose: false,
        human_timestamps: false,
        show_unknown: false,
        inverter_timeout: 300,
    }
}

#[test]
fn inverter_defaults() {
    let inv = inverter("a", "2222222222", true);
    assert_eq!(inv.read_timeout(), 900);
    assert_eq!(inv.register_block_size(), 40);
    assert!(inv.use_tcp_nodelay());
    assert!(!inv.heartbeats());
    assert!(!inv.read_only());
    assert_eq!(inv.pacing_ms(), 1000);
    assert_eq!(inv.delay_ms(), None);
}

#[test]
fn default_values() {
    assert_eq!(Config::default_mqtt_port(), 1883);
    assert_eq!(Config::default_mqtt_namespace(), "lxp");
    assert_eq!(Config::default_mqtt_homeassistant_prefix(), "homeassistant");
    assert_eq!(Config::default_loglevel(), "info");
    assert_eq!(Config::default_register_read_interval(), 60);
    assert_eq!(Config::default_inverter_timeout(), 300);
    assert!(Config::default_enabled());
    assert!(!Config::default_homeassistant_enabled());
}

#[test]
fn valid_config_is_accepted() {
    assert_eq!(config().validate(), Ok(()));
    assert!(ConfigWrapper::new(config()).is_ok());
}

#[test]
fn validation_errors() {
    let mut c = config();
    c.mqtt.port = 0;
    assert_eq!(c.validate(), Err(ConfigError::MqttPort));
    let mut c = config();
    c.mqtt.host = String::new();
    assert_eq!(c.validate(), Err(ConfigError::MqttHost));
    let mut c = config();
    c.influx.url = "not a url".to_string();
    assert_eq!(c.validate(), Err(ConfigError::InfluxUrl));
    let mut c = config();
    c.influx.database = String::new();
    assert_eq!(c.validate(), Err(ConfigError::InfluxDatabase));
    let mut c = config();
    c.databases.push(Database { enabled: true, url: "::".to_string() });
    assert_eq!(c.validate(), Err(ConfigError::DatabaseUrl(1)));
    let mut c = config();
    c.inverters[0].port = 0;
    assert_eq!(c.validate(), Err(ConfigError::InverterPort(0)));
    let mut c = config();
    c.inverters[0].host = String::new();
    assert_eq!(c.validate(), Err(ConfigError::InverterHost(0)));
    let mut c = config();
    c.inverters[0].read_timeout = Some(0);
    assert_eq!(c.validate(), Err(ConfigError::InverterReadTimeout(0)));
    let mut c = config();
    c.scheduler = Some(Scheduler { enabled: true, timesync_cron: Some(String::new()) });
    assert_eq!(c.validate(), Err(ConfigError::SchedulerCron));
    let mut c = config();
    c.scheduler = Some(Scheduler { enabled: false, timesync_cron: Some(String::new()) });
    assert_eq!(c.validate(), Err(ConfigError::SchedulerCron));
}

#[test]
fn disabled_sections_are_not_checked() {
    let mut c = config();
    c.mqtt.enabled = false;
    c.mqtt.port = 0;
    c.influx.enabled = false;
    c.influx.url = String::new();
    c.inverters[1].port = 0;
    assert_eq!(c.validate(), Ok(()));
}

#[test]
fn check_uses_given_url_results() {
    let c = config();
    assert_eq!(c.check(true, &vec![true]), Ok(()));
    assert_eq!(c.check(false, &vec![true]), Err(ConfigError::InfluxUrl));
    assert_eq!(c.check(true, &vec![false]), Err(ConfigError::DatabaseUrl(0)));
}

#[test]
fn lookups() {
    let w = ConfigWrapper::from_config(config());
    assert_eq!(w.enabled_inverters().len(), 1);
    assert_eq!(w.inverters().len(), 2);
    assert_eq!(w.inverter_with_host("b").map(|i| i.host), Some("b".to_string()));
    assert!(w.inverter_with_host("c").is_none());
    assert!(w.enabled_inverter_with_datalog(serial("2222222222")).is_some());
    assert!(w.enabled_inverter_with_datalog(serial("3333333333")).is_none());
    assert!(w.enabled_inverter_with_serial(serial("5555555555")).is_some());
    assert!(w.have_enabled_database());
    assert_eq!(w.register_read_interval(), Some(60));
}

#[test]
fn auto_learn_updates() {
    let mut w = ConfigWrapper::from_config(config());
    assert_eq!(w.update_inverter_serial(serial("5555555555"), serial("6666666666")), Ok(()));
    assert_eq!(w.inverters()[0].serial, Some(serial("6666666666")));
    assert_eq!(w.inverters()[1].serial, Some(serial("5555555555")));
    assert_eq!(
        w.update_inverter_serial(serial("7777777777"), serial("6666666666")),
        Err(ConfigError::InverterNotFound)
    );
    assert_eq!(w.update_inverter_datalog(serial("3333333333"), serial("4444444444")), Ok(()));
    assert_eq!(w.inverters()[1].datalog, Some(serial("4444444444")));
}

#[test]
fn serial_parsing() {
    assert!(Serial::parse("AB12cd34EF").is_some());
    assert!(Serial::parse("AB12cd34E").is_none());
    assert!(Serial::parse("AB12cd34E-").is_none());
    assert_eq!(Serial::parse("0123456789").unwrap().bytes, *b"0123456789");
}
