use vstd::prelude::*;

use crate::serial::Serial;

verus! {

/// Whether `url::Url::parse` accepts a string as an absolute URL.
pub uninterp spec fn url_parses(s: Seq<char>) -> bool;

/// Relies on `url::Url::parse`: success depends on the text alone, and an empty string
/// is never an absolute URL.
#[verifier::external_body]
fn parse_url(s: &str) -> (r: bool)
    ensures
        r == url_parses(s@),
        s@.len() == 0 ==> !r,
{
    url::Url::parse(s).is_ok()
}

fn copy_opt_string(o: &Option<String>) -> (r: Option<String>)
    ensures
        r == *o,
{
    match o {
        Some(s) => Some(s.clone()),
        None => None,
    }
}

/// Settings of one inverter connection.
#[derive(Clone, Debug, PartialEq, Eq)]
pub struct Inverter {
    pub enabled: bool,
    pub host: String,
    pub port: u16,
    pub serial: Option<Serial>,
    pub datalog: Option<Serial>,
    pub heartbeats: Option<bool>,
    pub publish_holdings_on_connect: Option<bool>,
    pub read_timeout: Option<u64>,
    pub use_tcp_nodelay: Option<bool>,
    pub register_block_size: Option<u16>,
    pub delay_ms: Option<u64>,
    pub read_only: Option<bool>,
    pub register_read_interval: Option<u64>,
}

/// Default read timeout of an inverter connection, in seconds.
pub const DEFAULT_READ_TIMEOUT: u64 = 900;

/// Default number of registers read in one request.
pub const DEFAULT_BLOCK_SIZE: u16 = 40;

/// Default pause after an exchange, in milliseconds.
pub const DEFAULT_DELAY_MS: u64 = 1000;

pub open spec fn opt_or<T>(o: Option<T>, d: T) -> T {
    match o {
        Some(v) => v,
        None => d,
    }
}

impl Inverter {
    pub fn copied(&self) -> (r: Inverter)
        ensures
            r == *self,
    {
        Inverter {
            enabled: self.enabled,
            host: self.host.clone(),
            port: self.port,
            serial: self.serial,
            datalog: self.datalog,
            heartbeats: self.heartbeats,
            publish_holdings_on_connect: self.publish_holdings_on_connect,
            read_timeout: self.read_timeout,
            use_tcp_nodelay: self.use_tcp_nodelay,
            register_block_size: self.register_block_size,
            delay_ms: self.delay_ms,
            read_only: self.read_only,
            register_read_interval: self.register_read_interval,
        }
    }

    pub fn enabled(&self) -> (r: bool)
        ensures
            r == self.enabled,
    {
        self.enabled
    }

    pub fn host(&self) -> (r: &str)
        ensures
            r@ == self.host@,
    {
        self.host.as_str()
    }

    pub fn port(&self) -> (r: u16)
        ensures
            r == self.port,
    {
        self.port
    }

    pub fn serial(&self) -> (r: Option<Serial>)
        ensures
            r == self.serial,
    {
        self.serial
    }

    pub fn datalog(&self) -> (r: Option<Serial>)
        ensures
            r == self.datalog,
    {
        self.datalog
    }

    pub fn heartbeats(&self) -> (r: bool)
        ensures
            r == opt_or(self.heartbeats, false),
    {
        match self.heartbeats {
            Some(b) => b,
            None => false,
        }
    }

    pub fn publish_holdings_on_connect(&self) -> (r: bool)
        ensures
            r == opt_or(self.publish_holdings_on_connect, false),
    {
        match self.publish_holdings_on_connect {
            Some(b) => b,
            None => false,
        }
    }

    pub fn read_timeout(&self) -> (r: u64)
        ensures
            r == opt_or(self.read_timeout, DEFAULT_READ_TIMEOUT),
    {
        match self.read_timeout {
            Some(t) => t,
            None => DEFAULT_READ_TIMEOUT,
        }
    }

    pub fn use_tcp_nodelay(&self) -> (r: bool)
        ensures
            r == opt_or(self.use_tcp_nodelay, true),
    {
        match self.use_tcp_nodelay {
            Some(b) => b,
            None => true,
        }
    }

    pub fn register_block_size(&self) -> (r: u16)
        ensures
            r == opt_or(self.register_block_size, DEFAULT_BLOCK_SIZE),
    {
        match self.register_block_size {
            Some(n) => n,
            None => DEFAULT_BLOCK_SIZE,
        }
    }

    pub fn delay_ms(&self) -> (r: Option<u64>)
        ensures
            r == self.delay_ms,
    {
        self.delay_ms
    }

    /// The pause after each exchange: the configured delay, else one second.
    pub fn pacing_ms(&self) -> (r: u64)
        ensures
            r == opt_or(self.delay_ms, DEFAULT_DELAY_MS),
    {
        match self.delay_ms {
            Some(d) => d,
            None => DEFAULT_DELAY_MS,
        }
    }

    pub fn read_only(&self) -> (r: bool)
        ensures
            r == opt_or(self.read_only, false),
    {
        match self.read_only {
            Some(b) => b,
            None => false,
        }
    }

    pub fn register_read_interval(&self) -> (r: Option<u64>)
        ensures
            r == self.register_read_interval,
    {
        self.register_read_interval
    }
}

#[derive(Clone, Debug)]
pub struct HomeAssistant {
    pub enabled: bool,
    pub prefix: String,
}

impl HomeAssistant {
    pub fn copied(&self) -> (r: HomeAssistant)
        ensures
            r == *self,
    {
        HomeAssistant { enabled: self.enabled, prefix: self.prefix.clone() }
    }

    pub fn enabled(&self) -> (r: bool)
        ensures
            r == self.enabled,
    {
        self.enabled
    }

    pub fn prefix(&self) -> (r: &str)
        ensures
            r@ == self.prefix@,
    {
        self.prefix.as_str()
    }
}

#[derive(Clone, Debug)]
pub struct Mqtt {
    pub enabled: bool,
    pub host: String,
    pub port: u16,
    pub username: Option<String>,
    pub password: Option<String>,
    pub namespace: String,
    pub homeassistant: HomeAssistant,
    pub publish_individual_input: Option<bool>,
}

impl Mqtt {
    pub fn copied(&self) -> (r: Mqtt)
        ensures
            r == *self,
    {
        Mqtt {
            enabled: self.enabled,
            host: self.host.clone(),
            port: self.port,
            username: copy_opt_string(&self.username),
            password: copy_opt_string(&self.password),
            namespace: self.namespace.clone(),
            homeassistant: self.homeassistant.copied(),
            publish_individual_input: self.publish_individual_input,
        }
    }

    pub fn enabled(&self) -> (r: bool)
        ensures
            r == self.enabled,
    {
        self.enabled
    }

    pub fn host(&self) -> (r: &str)
        ensures
            r@ == self.host@,
    {
        self.host.as_str()
    }

    pub fn port(&self) -> (r: u16)
        ensures
            r == self.port,
    {
        self.port
    }

    pub fn username(&self) -> (r: &Option<String>)
        ensures
            *r == self.username,
    {
        &self.username
    }

    pub fn password(&self) -> (r: &Option<String>)
        ensures
            *r == self.password,
    {
        &self.password
    }

    pub fn namespace(&self) -> (r: &str)
        ensures
            r@ == self.namespace@,
    {
        self.namespace.as_str()
    }

    pub fn homeassistant(&self) -> (r: &HomeAssistant)
        ensures
            *r == self.homeassistant,
    {
        &self.homeassistant
    }

    pub fn publish_individual_input(&self) -> (r: bool)
        ensures
            r == (self.publish_individual_input == Some(true)),
    {
        match self.publish_individual_input {
            Some(b) => b,
            None => false,
        }
    }
}

#[derive(Clone, Debug)]
pub struct Influx {
    pub enabled: bool,
    pub url: String,
    pub username: Option<String>,
    pub password: Option<String>,
    pub database: String,
}

impl Influx {
    pub fn copied(&self) -> (r: Influx)
        ensures
            r == *self,
    {
        Influx {
            enabled: self.enabled,
            url: self.url.clone(),
            username: copy_opt_string(&self.username),
            password: copy_opt_string(&self.password),
            database: self.database.clone(),
        }
    }

    pub fn enabled(&self) -> (r: bool)
        ensures
            r == self.enabled,
    {
        self.enabled
    }

    pub fn url(&self) -> (r: &str)
        ensures
            r@ == self.url@,
    {
        self.url.as_str()
    }

    pub fn username(&self) -> (r: &Option<String>)
        ensures
            *r == self.username,
    {
        &self.username
    }

    pub fn password(&self) -> (r: &Option<String>)
        ensures
            *r == self.password,
    {
        &self.password
    }

    pub fn database(&self) -> (r: &str)
        ensures
            r@ == self.database@,
    {
        self.database.as_str()
    }
}

#[derive(Clone, Debug)]
pub struct Database {
    pub enabled: bool,
    pub url: String,
}

impl Database {
    pub fn copied(&self) -> (r: Database)
        ensures
            r == *self,
    {
        Database { enabled: self.enabled, url: self.url.clone() }
    }

    pub fn enabled(&self) -> (r: bool)
        ensures
            r == self.enabled,
    {
        self.enabled
    }

    pub fn url(&self) -> (r: &str)
        ensures
            r@ == self.url@,
    {
        self.url.as_str()
    }
}

#[derive(Clone, Debug)]
pub struct Scheduler {
    pub enabled: bool,
    pub timesync_cron: Option<String>,
}

impl Scheduler {
    pub fn copied(&self) -> (r: Scheduler)
        ensures
            r == *self,
    {
        Scheduler { enabled: self.enabled, timesync_cron: copy_opt_string(&self.timesync_cron) }
    }

    pub fn enabled(&self) -> (r: bool)
        ensures
            r == self.enabled,
    {
        self.enabled
    }

    pub fn timesync_cron(&self) -> (r: &Option<String>)
        ensures
            *r == self.timesync_cron,
    {
        &self.timesync_cron
    }
}

/// The whole configuration snapshot.
#[derive(Clone, Debug)]
pub struct Config {
    pub inverters: Vec<Inverter>,
    pub mqtt: Mqtt,
    pub influx: Influx,
    pub databases: Vec<Database>,
    pub scheduler: Option<Scheduler>,
    pub loglevel: String,
    pub read_only: bool,
    pub homeassistant_enabled: bool,
    pub strict_data_check: bool,
    pub datalog_file: Option<String>,
    pub register_file: Option<String>,
    pub register_read_interval: u64,
    pub verbose: bool,
    pub human_timestamps: bool,
    pub show_unknown: bool,
    pub inverter_timeout: u64,
}

/// The first rule a configuration breaks.
#[derive(Clone, Copy, Debug, PartialEq, Eq, Structural)]
pub enum ConfigError {
    MqttPort,
    MqttHost,
    InfluxUrl,
    InfluxDatabase,
    /// The enabled database at this index has a URL that does not parse.
    DatabaseUrl(usize),
    /// The enabled inverter at this index has port 0.
    InverterPort(usize),
    InverterHost(usize),
    InverterReadTimeout(usize),
    SchedulerCron,
    /// No inverter carries the serial or datalog that was to be replaced.
    InverterNotFound,
}

pub open spec fn mqtt_error(m: Mqtt) -> Option<ConfigError> {
    if !m.enabled {
        None
    } else if m.port == 0 {
        Some(ConfigError::MqttPort)
    } else if m.host@.len() == 0 {
        Some(ConfigError::MqttHost)
    } else {
        None
    }
}

pub open spec fn influx_error(i: Influx, url_ok: bool) -> Option<ConfigError> {
    if !i.enabled {
        None
    } else if !url_ok {
        Some(ConfigError::InfluxUrl)
    } else if i.database@.len() == 0 {
        Some(ConfigError::InfluxDatabase)
    } else {
        None
    }
}

/// The first enabled database, from index `k` on, whose URL does not parse.
pub open spec fn database_error_from(dbs: Seq<Database>, urls_ok: Seq<bool>, k: int) -> Option<
    ConfigError,
>
    decreases dbs.len() - k,
{
    if k < 0 || k >= dbs.len() {
        None
    } else if dbs[k].enabled && !urls_ok[k] {
        Some(ConfigError::DatabaseUrl(k as usize))
    } else {
        database_error_from(dbs, urls_ok, k + 1)
    }
}

pub open spec fn inverter_error(inv: Inverter, k: int) -> Option<ConfigError> {
    if !inv.enabled {
        None
    } else if inv.port == 0 {
        Some(ConfigError::InverterPort(k as usize))
    } else if inv.host@.len() == 0 {
        Some(ConfigError::InverterHost(k as usize))
    } else if opt_or(inv.read_timeout, DEFAULT_READ_TIMEOUT) == 0 {
        Some(ConfigError::InverterReadTimeout(k as usize))
    } else {
        None
    }
}

pub open spec fn inverters_error_from(invs: Seq<Inverter>, k: int) -> Option<ConfigError>
    decreases invs.len() - k,
{
    if k < 0 || k >= invs.len() {
        None
    } else if inverter_error(invs[k], k) is Some {
        inverter_error(invs[k], k)
    } else {
        inverters_error_from(invs, k + 1)
    }
}

pub open spec fn scheduler_error(s: Option<Scheduler>) -> Option<ConfigError> {
    match s {
        Some(sc) => if sc.timesync_cron matches Some(c) && c@.len() == 0 {
            Some(ConfigError::SchedulerCron)
        } else {
            None
        },
        None => None,
    }
}

pub open spec fn first_some(a: Option<ConfigError>, b: Option<ConfigError>) -> Option<ConfigError> {
    if a is Some {
        a
    } else {
        b
    }
}

/// The first rule that `c` breaks, checking MQTT, InfluxDB, databases, inverters and the
/// scheduler in turn; `influx_url_ok` and `database_urls_ok` say which URLs parse.
pub open spec fn config_error(c: Config, influx_url_ok: bool, database_urls_ok: Seq<bool>) -> Option<
    ConfigError,
> {
    first_some(
        mqtt_error(c.mqtt),
        first_some(
            influx_error(c.influx, influx_url_ok),
            first_some(
                database_error_from(c.databases@, database_urls_ok, 0),
                first_some(inverters_error_from(c.inverters@, 0), scheduler_error(c.scheduler)),
            ),
        ),
    )
}

pub open spec fn as_result(e: Option<ConfigError>) -> Result<(), ConfigError> {
    match e {
        Some(x) => Err(x),
        None => Ok(()),
    }
}

impl Config {
    /// Checks the configuration, given which of its URLs parse.
    pub fn check(&self, influx_url_ok: bool, database_urls_ok: &Vec<bool>) -> (r: Result<
        (),
        ConfigError,
    >)
        requires
            database_urls_ok@.len() == self.databases@.len(),
        ensures
            r == as_result(config_error(*self, influx_url_ok, database_urls_ok@)),
    {
        if self.mqtt.enabled {
            if self.mqtt.port == 0 {
                return Err(ConfigError::MqttPort);
            }
            if self.mqtt.host.as_str().is_empty() {
                return Err(ConfigError::MqttHost);
            }
        }
        if self.influx.enabled {
            if !influx_url_ok {
                return Err(ConfigError::InfluxUrl);
            }
            if self.influx.database.as_str().is_empty() {
                return Err(ConfigError::InfluxDatabase);
            }
        }
        let mut k: usize = 0;
        while k < self.databases.len()
            invariant
                k <= self.databases@.len(),
                database_urls_ok@.len() == self.databases@.len(),
                database_error_from(self.databases@, database_urls_ok@, 0)
                    == database_error_from(self.databases@, database_urls_ok@, k as int),
                mqtt_error(self.mqtt) is None,
                influx_error(self.influx, influx_url_ok) is None,
            decreases self.databases@.len() - k,
        {
            if self.databases[k].enabled && !database_urls_ok[k] {
                return Err(ConfigError::DatabaseUrl(k));
            }
            k = k + 1;
        }
        let mut k: usize = 0;
        while k < self.inverters.len()
            invariant
                k <= self.inverters@.len(),
                inverters_error_from(self.inverters@, 0) == inverters_error_from(
                    self.inverters@,
                    k as int,
                ),
                mqtt_error(self.mqtt) is None,
                influx_error(self.influx, influx_url_ok) is None,
                database_error_from(self.databases@, database_urls_ok@, 0) is None,
            decreases self.inverters@.len() - k,
        {
            let inv = &self.inverters[k];
            if inv.enabled {
                if inv.port == 0 {
                    return Err(ConfigError::InverterPort(k));
                }
                if inv.host.as_str().is_empty() {
                    return Err(ConfigError::InverterHost(k));
                }
                if inv.read_timeout() == 0 {
                    return Err(ConfigError::InverterReadTimeout(k));
                }
            }
            k = k + 1;
        }
        if let Some(sc) = &self.scheduler {
            if let Some(cron) = &sc.timesync_cron {
                if cron.as_str().is_empty() {
                    return Err(ConfigError::SchedulerCron);
                }
            }
        }
        Ok(())
    }

    /// Checks the configuration, parsing its enabled URLs.
    pub fn validate(&self) -> (r: Result<(), ConfigError>)
        ensures
            r == as_result(
                config_error(
                    *self,
                    url_parses(self.influx.url@),
                    Seq::new(self.databases@.len(), |i: int| url_parses(self.databases@[i].url@)),
                ),
            ),
    {
        let influx_ok = parse_url(self.influx.url.as_str());
        let mut oks: Vec<bool> = Vec::new();
        let mut k: usize = 0;
        while k < self.databases.len()
            invariant
                k <= self.databases@.len(),
                oks@ == Seq::new(k as nat, |i: int| url_parses(self.databases@[i].url@)),
            decreases self.databases@.len() - k,
        {
            let ok = parse_url(self.databases[k].url.as_str());
            oks.push(ok);
            assert(oks@ =~= Seq::new((k + 1) as nat, |i: int| url_parses(self.databases@[i].url@)));
            k = k + 1;
        }
        self.check(influx_ok, &oks)
    }

    pub fn default_mqtt_port() -> (r: u16)
        ensures
            r == 1883,
    {
        1883
    }

    pub fn default_mqtt_namespace() -> (r: String)
        ensures
            r@ == "lxp"@,
    {
        String::from_str("lxp")
    }

    pub fn default_mqtt_homeassistant() -> (r: HomeAssistant)
        ensures
            r.enabled,
            r.prefix@ == "homeassistant"@,
    {
        HomeAssistant { enabled: Self::default_enabled(), prefix: Self::default_mqtt_homeassistant_prefix() }
    }

    pub fn default_mqtt_homeassistant_prefix() -> (r: String)
        ensures
            r@ == "homeassistant"@,
    {
        String::from_str("homeassistant")
    }

    pub fn default_enabled() -> (r: bool)
        ensures
            r,
    {
        true
    }

    pub fn default_loglevel() -> (r: String)
        ensures
            r@ == "info"@,
    {
        String::from_str("info")
    }

    pub fn default_homeassistant_enabled() -> (r: bool)
        ensures
            !r,
    {
        false
    }

    pub fn default_strict_data_check() -> (r: bool)
        ensures
            !r,
    {
        false
    }

    pub fn default_verbose() -> (r: bool)
        ensures
            !r,
    {
        false
    }

    pub fn default_human_timestamps() -> (r: bool)
        ensures
            !r,
    {
        false
    }

    pub fn default_show_unknown() -> (r: bool)
        ensures
            !r,
    {
        false
    }

    pub fn default_register_read_interval() -> (r: u64)
        ensures
            r == 60,
    {
        60
    }

    pub fn default_inverter_timeout() -> (r: u64)
        ensures
            r == 300,
    {
        300
    }
}

/// The enabled inverters of `s`, in order.
pub open spec fn enabled_inverters_of(s: Seq<Inverter>) -> Seq<Inverter>
    decreases s.len(),
{
    if s.len() == 0 {
        s
    } else if s.last().enabled {
        enabled_inverters_of(s.drop_last()).push(s.last())
    } else {
        enabled_inverters_of(s.drop_last())
    }
}

/// The enabled databases of `s`, in order.
pub open spec fn enabled_databases_of(s: Seq<Database>) -> Seq<Database>
    decreases s.len(),
{
    if s.len() == 0 {
        s
    } else if s.last().enabled {
        enabled_databases_of(s.drop_last()).push(s.last())
    } else {
        enabled_databases_of(s.drop_last())
    }
}

pub open spec fn holds_serial(o: Option<Serial>, s: Serial) -> bool {
    o matches Some(x) && x@ == s@
}

/// `r` is the first element of `s` that `p` accepts, or `None` when none does.
pub open spec fn first_match<T>(s: Seq<T>, p: spec_fn(T) -> bool, r: Option<T>) -> bool {
    match r {
        None => forall|i: int| 0 <= i < s.len() ==> !p(#[trigger] s[i]),
        Some(x) => exists|i: int|
            0 <= i < s.len() && p(#[trigger] s[i]) && s[i] == x && forall|j: int|
                0 <= j < i ==> !p(#[trigger] s[j]),
    }
}

/// The position of the first inverter whose `serial` (or `datalog`) is `s`.
pub open spec fn first_holder(invs: Seq<Inverter>, s: Serial, by_datalog: bool, i: int) -> bool {
    0 <= i < invs.len() && holds_serial(
        if by_datalog {
            invs[i].datalog
        } else {
            invs[i].serial
        },
        s,
    ) && forall|j: int|
        0 <= j < i ==> !holds_serial(
            if by_datalog {
                #[trigger] invs[j].datalog
            } else {
                invs[j].serial
            },
            s,
        )
}

/// A configuration snapshot that the serial/datalog auto-learn path can update.
pub struct ConfigWrapper {
    pub config: Config,
}

impl ConfigWrapper {
    /// Validates `config` and wraps it.
    pub fn new(config: Config) -> (r: Result<ConfigWrapper, ConfigError>)
        ensures
            match r {
                Ok(w) => w.config == config && config_error(
                    config,
                    url_parses(config.influx.url@),
                    Seq::new(config.databases@.len(), |i: int| url_parses(config.databases@[i].url@)),
                ) is None,
                Err(e) => config_error(
                    config,
                    url_parses(config.influx.url@),
                    Seq::new(config.databases@.len(), |i: int| url_parses(config.databases@[i].url@)),
                ) == Some(e),
            },
    {
        match config.validate() {
            Ok(()) => Ok(ConfigWrapper { config }),
            Err(e) => Err(e),
        }
    }

    pub fn from_config(config: Config) -> (r: ConfigWrapper)
        ensures
            r.config == config,
    {
        ConfigWrapper { config }
    }

    pub fn register_read_interval(&self) -> (r: Option<u64>)
        ensures
            r == Some(self.config.register_read_interval),
    {
        Some(self.config.register_read_interval)
    }

    pub fn inverter_timeout(&self) -> (r: u64)
        ensures
            r == self.config.inverter_timeout,
    {
        self.config.inverter_timeout
    }

    pub fn inverters(&self) -> (r: Vec<Inverter>)
        ensures
            r@ == self.config.inverters@,
    {
        let mut r: Vec<Inverter> = Vec::new();
        let mut i: usize = 0;
        while i < self.config.inverters.len()
            invariant
                i <= self.config.inverters@.len(),
                r@ == self.config.inverters@.subrange(0, i as int),
            decreases self.config.inverters@.len() - i,
        {
            r.push(self.config.inverters[i].copied());
            assert(r@ =~= self.config.inverters@.subrange(0, i + 1));
            i = i + 1;
        }
        assert(r@ =~= self.config.inverters@);
        r
    }

    pub fn set_inverters(&mut self, new: Vec<Inverter>)
        ensures
            final(self).config == (Config { inverters: new, ..old(self).config }),
    {
        self.config.inverters = new;
    }

    pub fn enabled_inverters(&self) -> (r: Vec<Inverter>)
        ensures
            r@ == enabled_inverters_of(self.config.inverters@),
    {
        let ghost all = self.config.inverters@;
        let mut r: Vec<Inverter> = Vec::new();
        let mut i: usize = 0;
        assert(all.subrange(0, 0) =~= Seq::<Inverter>::empty());
        while i < self.config.inverters.len()
            invariant
                all == self.config.inverters@,
                i <= all.len(),
                r@ == enabled_inverters_of(all.subrange(0, i as int)),
            decreases all.len() - i,
        {
            assert(all.subrange(0, i + 1).drop_last() =~= all.subrange(0, i as int));
            if self.config.inverters[i].enabled {
                r.push(self.config.inverters[i].copied());
            }
            i = i + 1;
        }
        assert(all.subrange(0, all.len() as int) =~= all);
        r
    }

    pub fn inverter_with_host(&self, host: &str) -> (r: Option<Inverter>)
        ensures
            first_match(self.config.inverters@, |i: Inverter| i.host@ == host@, r),
    {
        let mut i: usize = 0;
        while i < self.config.inverters.len()
            invariant
                i <= self.config.inverters@.len(),
                forall|j: int| 0 <= j < i ==> (#[trigger] self.config.inverters@[j]).host@ != host@,
            decreases self.config.inverters@.len() - i,
        {
            if self.config.inverters[i].host == String::from_str(host) {
                return Some(self.config.inverters[i].copied());
            }
            i = i + 1;
        }
        None
    }

    pub fn enabled_inverter_with_datalog(&self, datalog: Serial) -> (r: Option<Inverter>)
        ensures
            first_match(
                enabled_inverters_of(self.config.inverters@),
                |i: Inverter| holds_serial(i.datalog, datalog),
                r,
            ),
    {
        let invs = self.enabled_inverters();
        let mut i: usize = 0;
        while i < invs.len()
            invariant
                i <= invs@.len(),
                invs@ == enabled_inverters_of(self.config.inverters@),
                forall|j: int| 0 <= j < i ==> !holds_serial((#[trigger] invs@[j]).datalog, datalog),
            decreases invs@.len() - i,
        {
            if let Some(d) = invs[i].datalog {
                if d.same(&datalog) {
                    return Some(invs[i].copied());
                }
            }
            i = i + 1;
        }
        None
    }

    pub fn enabled_inverter_with_serial(&self, serial: Serial) -> (r: Option<Inverter>)
        ensures
            first_match(
                enabled_inverters_of(self.config.inverters@),
                |i: Inverter| holds_serial(i.serial, serial),
                r,
            ),
    {
        let invs = self.enabled_inverters();
        let mut i: usize = 0;
        while i < invs.len()
            invariant
                i <= invs@.len(),
                invs@ == enabled_inverters_of(self.config.inverters@),
                forall|j: int| 0 <= j < i ==> !holds_serial((#[trigger] invs@[j]).serial, serial),
            decreases invs@.len() - i,
        {
            if let Some(d) = invs[i].serial {
                if d.same(&serial) {
                    return Some(invs[i].copied());
                }
            }
            i = i + 1;
        }
        None
    }

    pub fn mqtt(&self) -> (r: Mqtt)
        ensures
            r == self.config.mqtt,
    {
        self.config.mqtt.copied()
    }

    pub fn influx(&self) -> (r: Influx)
        ensures
            r == self.config.influx,
    {
        self.config.influx.copied()
    }

    pub fn databases(&self) -> (r: Vec<Database>)
        ensures
            r@ == self.config.databases@,
    {
        let mut r: Vec<Database> = Vec::new();
        let mut i: usize = 0;
        while i < self.config.databases.len()
            invariant
                i <= self.config.databases@.len(),
                r@ == self.config.databases@.subrange(0, i as int),
            decreases self.config.databases@.len() - i,
        {
            r.push(self.config.databases[i].copied());
            assert(r@ =~= self.config.databases@.subrange(0, i + 1));
            i = i + 1;
        }
        assert(r@ =~= self.config.databases@);
        r
    }

    pub fn set_databases(&mut self, new: Vec<Database>)
        ensures
            final(self).config == (Config { databases: new, ..old(self).config }),
    {
        self.config.databases = new;
    }

    pub fn have_enabled_database(&self) -> (r: bool)
        ensures
            r == (enabled_databases_of(self.config.databases@).len() > 0),
    {
        self.enabled_databases().len() > 0
    }

    pub fn enabled_databases(&self) -> (r: Vec<Database>)
        ensures
            r@ == enabled_databases_of(self.config.databases@),
    {
        let ghost all = self.config.databases@;
        let mut r: Vec<Database> = Vec::new();
        let mut i: usize = 0;
        assert(all.subrange(0, 0) =~= Seq::<Database>::empty());
        while i < self.config.databases.len()
            invariant
                all == self.config.databases@,
                i <= all.len(),
                r@ == enabled_databases_of(all.subrange(0, i as int)),
            decreases all.len() - i,
        {
            assert(all.subrange(0, i + 1).drop_last() =~= all.subrange(0, i as int));
            if self.config.databases[i].enabled {
                r.push(self.config.databases[i].copied());
            }
            i = i + 1;
        }
        assert(all.subrange(0, all.len() as int) =~= all);
        r
    }

    pub fn scheduler(&self) -> (r: Option<Scheduler>)
        ensures
            r == self.config.scheduler,
    {
        match &self.config.scheduler {
            Some(s) => Some(s.copied()),
            None => None,
        }
    }

    pub fn loglevel(&self) -> (r: String)
        ensures
            r == self.config.loglevel,
    {
        self.config.loglevel.clone()
    }

    pub fn read_only(&self) -> (r: bool)
        ensures
            r == self.config.read_only,
    {
        self.config.read_only
    }

    /// Replaces the serial of the first inverter that carries `old_serial`.
    pub fn update_inverter_serial(&mut self, old_serial: Serial, new_serial: Serial) -> (r: Result<
        (),
        ConfigError,
    >)
        ensures
            match r {
                Ok(()) => exists|i: int|
                    first_holder(old(self).config.inverters@, old_serial, false, i)
                        && final(self).config == (Config {
                        inverters: final(self).config.inverters,
                        ..old(self).config
                    }) && final(self).config.inverters@ == old(self).config.inverters@.update(
                        i,
                        Inverter { serial: Some(new_serial), ..old(self).config.inverters@[i] },
                    ),
                Err(e) => e == ConfigError::InverterNotFound && *final(self) == *old(self)
                    && forall|i: int|
                    0 <= i < old(self).config.inverters@.len() ==> !holds_serial(
                        #[trigger] old(self).config.inverters@[i].serial,
                        old_serial,
                    ),
            },
    {
        let mut i: usize = 0;
        while i < self.config.inverters.len()
            invariant
                *self == *old(self),
                i <= self.config.inverters@.len(),
                forall|j: int|
                    0 <= j < i ==> !holds_serial(
                        #[trigger] self.config.inverters@[j].serial,
                        old_serial,
                    ),
            decreases self.config.inverters@.len() - i,
        {
            if let Some(s) = self.config.inverters[i].serial {
                if s.same(&old_serial) {
                    let mut inv = self.config.inverters[i].copied();
                    inv.serial = Some(new_serial);
                    self.config.inverters.set(i, inv);
                    assert(first_holder(old(self).config.inverters@, old_serial, false, i as int));
                    return Ok(());
                }
            }
            i = i + 1;
        }
        Err(ConfigError::InverterNotFound)
    }

    /// Replaces the datalog of the first inverter that carries `old_datalog`.
    pub fn update_inverter_datalog(&mut self, old_datalog: Serial, new_datalog: Serial) -> (r:
        Result<(), ConfigError>)
        ensures
            match r {
                Ok(()) => exists|i: int|
                    first_holder(old(self).config.inverters@, old_datalog, true, i)
                        && final(self).config == (Config {
                        inverters: final(self).config.inverters,
                        ..old(self).config
                    }) && final(self).config.inverters@ == old(self).config.inverters@.update(
                        i,
                        Inverter { datalog: Some(new_datalog), ..old(self).config.inverters@[i] },
                    ),
                Err(e) => e == ConfigError::InverterNotFound && *final(self) == *old(self)
                    && forall|i: int|
                    0 <= i < old(self).config.inverters@.len() ==> !holds_serial(
                        #[trigger] old(self).config.inverters@[i].datalog,
                        old_datalog,
                    ),
            },
    {
        let mut i: usize = 0;
        while i < self.config.inverters.len()
            invariant
                *self == *old(self),
                i <= self.config.inverters@.len(),
                forall|j: int|
                    0 <= j < i ==> !holds_serial(
                        #[trigger] self.config.inverters@[j].datalog,
                        old_datalog,
                    ),
            decreases self.config.inverters@.len() - i,
        {
            if let Some(s) = self.config.inverters[i].datalog {
                if s.same(&old_datalog) {
                    let mut inv = self.config.inverters[i].copied();
                    inv.datalog = Some(new_datalog);
                    self.config.inverters.set(i, inv);
                    assert(first_holder(old(self).config.inverters@, old_datalog, true, i as int));
                    return Ok(());
                }
            }
            i = i + 1;
        }
        Err(ConfigError::InverterNotFound)
    }

    pub fn homeassistant_enabled(&self) -> (r: bool)
        ensures
            r == self.config.homeassistant_enabled,
    {
        self.config.homeassistant_enabled
    }

    pub fn datalog_file(&self) -> (r: Option<String>)
        ensures
            r == self.config.datalog_file,
    {
        copy_opt_string(&self.config.datalog_file)
    }

    pub fn strict_data_check(&self) -> (r: bool)
        ensures
            r == self.config.strict_data_check,
    {
        self.config.strict_data_check
    }

    pub fn register_file(&self) -> (r: Option<String>)
        ensures
            r == self.config.register_file,
    {
        copy_opt_string(&self.config.register_file)
    }

    pub fn verbose(&self) -> (r: bool)
        ensures
            r == self.config.verbose,
    {
        self.config.verbose
    }

    pub fn human_timestamps(&self) -> (r: bool)
        ensures
            r == self.config.human_timestamps,
    {
        self.config.human_timestamps
    }

    pub fn show_unknown(&self) -> (r: bool)
        ensures
            r == self.config.show_unknown,
    {
        self.config.show_unknown
    }
}

} // verus!
