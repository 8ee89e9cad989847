use vstd::prelude::*;

use crate::config::{ConfigWrapper, Inverter};
use crate::inputs::{complete, no_pages, page_for_register, page_of_register, pages_for, InputsStore, ReadInputAll};
use crate::packet::{pairs_of, u16_at, DeviceFunction, Packet, PacketModel, TranslatedData};
use crate::serial::{is_alnum_byte, Serial};
use crate::stats::{count_for, inc, PacketStats};
use crate::text::{decimal, push_bytes_text, push_decimal, push_str, serial_text};

verus! {

/// An MQTT message; the topic is relative to the configured namespace.
#[derive(Clone, Debug, PartialEq, Eq)]
pub struct Message {
    pub topic: String,
    pub payload: String,
    pub retain: bool,
}

/// Something the coordinator asks the rest of the system to do.
#[derive(Debug, PartialEq, Eq)]
pub enum Effect {
    /// Record a register value in the register cache.
    CacheWrite { datalog: Serial, register: u16, value: u16 },
    Publish(Message),
    /// Publish one raw input page under `{datalog}/inputs/{page}`.
    InputPage { datalog: Serial, page: u16, registers: Vec<u16> },
    /// A complete input snapshot, for MQTT (`{datalog}/inputs/all`), InfluxDB and SQL.
    InputSnapshot { datalog: Serial, all: ReadInputAll },
    /// Ask the session of this inverter serial to reconnect.
    Disconnect(Serial),
}

pub enum EffectModel {
    CacheWrite(Seq<u8>, u16, u16),
    Publish(Seq<char>, Seq<char>, bool),
    InputPage(Seq<u8>, u16, Seq<u16>),
    InputSnapshot(Seq<u8>, Seq<Option<Seq<u16>>>),
    Disconnect(Seq<u8>),
}

impl View for Effect {
    type V = EffectModel;

    open spec fn view(&self) -> EffectModel {
        match self {
            Effect::CacheWrite { datalog, register, value } => EffectModel::CacheWrite(
                datalog@,
                *register,
                *value,
            ),
            Effect::Publish(m) => EffectModel::Publish(m.topic@, m.payload@, m.retain),
            Effect::InputPage { datalog, page, registers } => EffectModel::InputPage(
                datalog@,
                *page,
                registers@,
            ),
            Effect::InputSnapshot { datalog, all } => EffectModel::InputSnapshot(datalog@, all@),
            Effect::Disconnect(s) => EffectModel::Disconnect(s@),
        }
    }
}

pub open spec fn effects_view(v: Seq<Effect>) -> Seq<EffectModel> {
    v.map_values(|e: Effect| e@)
}

/// How an inbound packet was judged.
#[derive(Clone, Copy, Debug, PartialEq, Eq, Structural)]
pub enum Verdict {
    /// Not a TranslatedData packet: nothing to dispatch.
    NotTranslated,
    /// A Modbus exception reply with this error code.
    ModbusException(u8),
    /// The inverter serial holds bytes that are not ASCII letters or digits.
    InvalidSerial,
    /// The inverter serial differs from the configured one.
    SerialMismatch,
    Processed,
}

// ---------------------------------------------------------------- topics and payloads
pub open spec fn hold_topic(d: Seq<u8>, register: u16) -> Seq<char> {
    serial_text(d) + "/hold/"@ + decimal(register as nat)
}

pub open spec fn write_status_topic(d: Seq<u8>) -> Seq<char> {
    serial_text(d) + "/write/status"@
}

pub open spec fn write_multi_status_topic(d: Seq<u8>) -> Seq<char> {
    serial_text(d) + "/write_multi/status"@
}

pub open spec fn write_status_payload(register: u16, value: u16) -> Seq<char> {
    "OK: "@ + decimal(register as nat) + " = "@ + decimal(value as nat)
}

pub open spec fn pair_text(p: (u16, u16)) -> Seq<char> {
    "("@ + decimal(p.0 as nat) + ", "@ + decimal(p.1 as nat) + ")"@
}

pub open spec fn pairs_text(s: Seq<(u16, u16)>) -> Seq<char>
    decreases s.len(),
{
    if s.len() == 0 {
        Seq::empty()
    } else if s.len() == 1 {
        pair_text(s[0])
    } else {
        pairs_text(s.drop_last()) + ", "@ + pair_text(s.last())
    }
}

/// `OK: [(r1, v1), (r2, v2), ...]`.
pub open spec fn write_multi_payload(s: Seq<(u16, u16)>) -> Seq<char> {
    "OK: ["@ + pairs_text(s) + "]"@
}

pub open spec fn mismatch_text(got: Seq<u8>, expected: Seq<u8>) -> Seq<char> {
    "Serial mismatch - got "@ + serial_text(got) + ", expected "@ + serial_text(expected)
}

fn serial_string(prefix: &str, s: &Serial, suffix: &str) -> (r: String)
    ensures
        r@ == prefix@ + serial_text(s@) + suffix@,
{
    let mut r = String::new();
    push_str(&mut r, prefix);
    push_bytes_text(&mut r, s.bytes.as_slice());
    push_str(&mut r, suffix);
    r
}

pub fn hold_topic_text(d: &Serial, register: u16) -> (r: String)
    ensures
        r@ == hold_topic(d@, register),
{
    let mut r = serial_string("", d, "/hold/");
    push_decimal(&mut r, register as u128);
    proof {
        reveal_strlit("");
    }
    assert(r@ =~= hold_topic(d@, register));
    r
}

pub fn write_status_payload_text(register: u16, value: u16) -> (r: String)
    ensures
        r@ == write_status_payload(register, value),
{
    let mut r = String::new();
    push_str(&mut r, "OK: ");
    push_decimal(&mut r, register as u128);
    push_str(&mut r, " = ");
    push_decimal(&mut r, value as u128);
    assert(r@ =~= write_status_payload(register, value));
    r
}

pub fn write_multi_payload_text(pairs: &Vec<(u16, u16)>) -> (r: String)
    ensures
        r@ == write_multi_payload(pairs@),
{
    let mut r = String::new();
    push_str(&mut r, "OK: [");
    let mut i: usize = 0;
    while i < pairs.len()
        invariant
            i <= pairs@.len(),
            r@ == "OK: ["@ + pairs_text(pairs@.subrange(0, i as int)),
        decreases pairs@.len() - i,
    {
        let ghost before = r@;
        let ghost s = pairs@.subrange(0, i + 1);
        assert(s.drop_last() =~= pairs@.subrange(0, i as int));
        if i > 0 {
            push_str(&mut r, ", ");
        }
        let (reg, val) = pairs[i];
        push_str(&mut r, "(");
        push_decimal(&mut r, reg as u128);
        push_str(&mut r, ", ");
        push_decimal(&mut r, val as u128);
        push_str(&mut r, ")");
        proof {
            if i == 0 {
                reveal_strlit("");
                assert(pairs@.subrange(0, 0).len() == 0);
                assert(r@ =~= before + pair_text(s.last()));
            } else {
                assert(r@ =~= before + ", "@ + pair_text(s.last()));
            }
        }
        i = i + 1;
    }
    push_str(&mut r, "]");
    assert(pairs@.subrange(0, pairs@.len() as int) =~= pairs@);
    assert(r@ =~= write_multi_payload(pairs@));
    r
}

// ---------------------------------------------------------------- dispatch
/// The 16-bit little-endian words of a values blob.
pub open spec fn words_of(values: Seq<u8>) -> Seq<u16> {
    Seq::new(values.len() / 2, |i: int| u16_at(values, 2 * i))
}

pub open spec fn is_modbus_exception(values: Seq<u8>) -> bool {
    values.len() >= 1 && values[0] >= 0x80
}

pub open spec fn serial_valid(s: Seq<u8>) -> bool {
    forall|i: int| 0 <= i < s.len() ==> is_alnum_byte(#[trigger] s[i])
}

pub open spec fn mismatches(configured: Option<Serial>, got: Seq<u8>) -> bool {
    configured matches Some(s) && s@ != got
}

/// The verdict on a packet from the inverter configured as `inv`.
pub open spec fn verdict_of(p: PacketModel, inv: Inverter) -> Verdict {
    match p {
        PacketModel::TranslatedData { inverter, values, .. } => if is_modbus_exception(values) {
            Verdict::ModbusException((values[0] - 0x80) as u8)
        } else if !serial_valid(inverter) {
            Verdict::InvalidSerial
        } else if mismatches(inv.serial, inverter) {
            Verdict::SerialMismatch
        } else {
            Verdict::Processed
        },
        _ => Verdict::NotTranslated,
    }
}

pub open spec fn cache_effects(d: Seq<u8>, pairs: Seq<(u16, u16)>) -> Seq<EffectModel> {
    pairs.map_values(|p: (u16, u16)| EffectModel::CacheWrite(d, p.0, p.1))
}

pub open spec fn hold_effects(d: Seq<u8>, pairs: Seq<(u16, u16)>) -> Seq<EffectModel> {
    pairs.map_values(|p: (u16, u16)| EffectModel::Publish(hold_topic(d, p.0), decimal(p.1 as nat), true))
}

/// Effects of a TranslatedData packet that passed validation; `before` are the input pages
/// held for its datalog.
pub open spec fn dispatch_effects(
    d: Seq<u8>,
    f: DeviceFunction,
    register: u16,
    values: Seq<u8>,
    mqtt: bool,
    before: Seq<Option<Seq<u16>>>,
) -> Seq<EffectModel> {
    match f {
        DeviceFunction::ReadInput => match page_of_register(register) {
            None => Seq::empty(),
            Some(page) => {
                let after = before.update(page - 1, Some(words_of(values)));
                (if mqtt {
                    seq![EffectModel::InputPage(d, page, words_of(values))]
                } else {
                    Seq::empty()
                }) + (if complete(after) {
                    seq![EffectModel::InputSnapshot(d, after)]
                } else {
                    Seq::empty()
                })
            },
        },
        DeviceFunction::ReadHold => cache_effects(d, pairs_of(register, values)) + (if mqtt {
            hold_effects(d, pairs_of(register, values))
        } else {
            Seq::empty()
        }),
        DeviceFunction::WriteSingle => {
            let value = if values.len() >= 2 {
                u16_at(values, 0)
            } else {
                0
            };
            seq![EffectModel::CacheWrite(d, register, value)] + (if mqtt {
                seq![
                    EffectModel::Publish(
                        write_status_topic(d),
                        write_status_payload(register, value),
                        false,
                    ),
                ]
            } else {
                Seq::empty()
            })
        },
        DeviceFunction::WriteMulti => cache_effects(d, pairs_of(register, values)) + (if mqtt {
            seq![
                EffectModel::Publish(
                    write_multi_status_topic(d),
                    write_multi_payload(pairs_of(register, values)),
                    false,
                ),
            ]
        } else {
            Seq::empty()
        }),
    }
}

/// Dispatches inbound packets: validates them, feeds the input store and says what to
/// cache and publish; owns the packet statistics.
pub struct Coordinator {
    pub config: ConfigWrapper,
    pub stats: PacketStats,
    pub inputs: InputsStore,
}

impl Coordinator {
    pub open spec fn wf(&self) -> bool {
        self.stats.wf() && self.inputs.wf()
    }

    pub fn new(config: ConfigWrapper) -> (r: Coordinator)
        ensures
            r.wf(),
            r.config == config,
            r.stats.is_zero(),
            r.inputs.map.view() == Map::<Seq<u8>, crate::inputs::ReadInputs>::empty(),
    {
        Coordinator { config, stats: PacketStats::new(), inputs: InputsStore::new() }
    }

    fn push_pairs_cache(out: &mut Vec<Effect>, d: Serial, pairs: &Vec<(u16, u16)>)
        ensures
            effects_view(final(out)@) == effects_view(old(out)@) + cache_effects(d@, pairs@),
    {
        let mut i: usize = 0;
        while i < pairs.len()
            invariant
                i <= pairs@.len(),
                effects_view(out@) == effects_view(old(out)@) + cache_effects(
                    d@,
                    pairs@.subrange(0, i as int),
                ),
            decreases pairs@.len() - i,
        {
            let (register, value) = pairs[i];
            let ghost prev = out@;
            let e = Effect::CacheWrite { datalog: d, register, value };
            let ghost ev = e@;
            out.push(e);
            assert(effects_view(out@) =~= effects_view(prev).push(ev));
            assert(cache_effects(d@, pairs@.subrange(0, i + 1)) =~= cache_effects(
                d@,
                pairs@.subrange(0, i as int),
            ).push(ev));
            i = i + 1;
        }
        assert(pairs@.subrange(0, pairs@.len() as int) =~= pairs@);
    }

    fn push_hold_publishes(out: &mut Vec<Effect>, d: Serial, pairs: &Vec<(u16, u16)>)
        ensures
            effects_view(final(out)@) == effects_view(old(out)@) + hold_effects(d@, pairs@),
    {
        let mut i: usize = 0;
        while i < pairs.len()
            invariant
                i <= pairs@.len(),
                effects_view(out@) == effects_view(old(out)@) + hold_effects(
                    d@,
                    pairs@.subrange(0, i as int),
                ),
            decreases pairs@.len() - i,
        {
            let (register, value) = pairs[i];
            let mut payload = String::new();
            push_decimal(&mut payload, value as u128);
            let topic = hold_topic_text(&d, register);
            let ghost prev = out@;
            let e = Effect::Publish(Message { topic, payload, retain: true });
            let ghost ev = e@;
            out.push(e);
            assert(effects_view(out@) =~= effects_view(prev).push(ev));
            assert(hold_effects(d@, pairs@.subrange(0, i + 1)) =~= hold_effects(
                d@,
                pairs@.subrange(0, i as int),
            ).push(ev));
            i = i + 1;
        }
        assert(pairs@.subrange(0, pairs@.len() as int) =~= pairs@);
    }

    fn words(values: &Vec<u8>) -> (r: Vec<u16>)
        ensures
            r@ == words_of(values@),
    {
        let mut r: Vec<u16> = Vec::new();
        let len = values.len();
        let n = len / 2;
        let mut i: usize = 0;
        while i < n
            invariant
                len == values@.len(),
                n == len / 2,
                i <= n,
                r@ == words_of(values@).subrange(0, i as int),
            decreases n - i,
        {
            r.push(values[2 * i] as u16 + 256 * (values[2 * i + 1] as u16));
            assert(r@ =~= words_of(values@).subrange(0, i + 1));
            i = i + 1;
        }
        assert(r@ =~= words_of(values@));
        r
    }
}

fn write_status_topic_text(d: &Serial) -> (r: String)
    ensures
        r@ == write_status_topic(d@),
{
    let r = serial_string("", d, "/write/status");
    proof {
        reveal_strlit("");
    }
    assert(r@ =~= write_status_topic(d@));
    r
}

fn write_multi_status_topic_text(d: &Serial) -> (r: String)
    ensures
        r@ == write_multi_status_topic(d@),
{
    let r = serial_string("", d, "/write_multi/status");
    proof {
        reveal_strlit("");
    }
    assert(r@ =~= write_multi_status_topic(d@));
    r
}

fn mismatch_message(got: &Serial, expected: &Serial) -> (r: String)
    ensures
        r@ == mismatch_text(got@, expected@),
{
    let mut r = serial_string("Serial mismatch - got ", got, ", expected ");
    push_bytes_text(&mut r, expected.bytes.as_slice());
    r
}

impl Coordinator {
    /// Validates and dispatches a packet from the inverter configured as `inverter`:
    /// a Modbus exception, a malformed serial or a serial that differs from the configured
    /// one stops processing (counted, and a mismatch asks for a reconnect); a valid packet
    /// yields its cache writes and messages and feeds the input store.
    pub fn process_inverter_packet(&mut self, packet: &Packet, inverter: &Inverter) -> (r: (
        Verdict,
        Vec<Effect>,
    ))
        requires
            old(self).wf(),
        ensures
            final(self).wf(),
            final(self).config == old(self).config,
            r.0 == verdict_of(packet@, *inverter),
            verdict_of(packet@, *inverter) is ModbusException && old(self).stats.modbus_errors
                < u64::MAX ==> final(self).stats.modbus_errors == old(self).stats.modbus_errors + 1,
            verdict_of(packet@, *inverter) is SerialMismatch && old(self).stats.serial_mismatches
                < u64::MAX ==> final(self).stats.serial_mismatches == old(self).stats.serial_mismatches + 1,
            match verdict_of(packet@, *inverter) {
                Verdict::NotTranslated => r.1@.len() == 0 && final(self).stats == old(self).stats,
                Verdict::ModbusException(_) => r.1@.len() == 0 && final(self).stats == (
                PacketStats { modbus_errors: inc(old(self).stats.modbus_errors), ..old(self).stats }),
                Verdict::InvalidSerial => r.1@.len() == 0 && final(self).stats == (PacketStats {
                    serial_mismatches: inc(old(self).stats.serial_mismatches),
                    ..old(self).stats
                }),
                Verdict::SerialMismatch => {
                    let s = inverter.serial->Some_0;
                    &&& effects_view(r.1@) == seq![EffectModel::Disconnect(s@)]
                    &&& final(self).stats == (PacketStats {
                        serial_mismatches: inc(old(self).stats.serial_mismatches),
                        inverter_disconnections: final(self).stats.inverter_disconnections,
                        last_messages: final(self).stats.last_messages,
                        ..old(self).stats
                    })
                    &&& final(self).stats.inverter_disconnections.view() == old(self).stats.inverter_disconnections.view().insert(
                        s@,
                        inc(count_for(old(self).stats.inverter_disconnections.view(), s@)),
                    )
                    &&& final(self).stats.last_messages.view().dom() == old(self).stats.last_messages.view().dom().insert(s@)
                    &&& final(self).stats.last_messages.view()[s@]@ == mismatch_text(
                        crate::packet::model_inverter(packet@),
                        s@,
                    )
                    &&& forall|k: Seq<u8>|
                        k != s@ && old(self).stats.last_messages.view().contains_key(k) ==> final(self).stats.last_messages.view()[k] == old(self).stats.last_messages.view()[k]
                },
                Verdict::Processed => final(self).stats == old(self).stats && match packet@ {
                    PacketModel::TranslatedData { datalog, function, register, values, .. } =>
                        effects_view(r.1@) == dispatch_effects(
                        datalog,
                        function,
                        register,
                        values,
                        old(self).config.config.mqtt.enabled,
                        pages_for(old(self).inputs.map.view(), datalog),
                    ),
                    _ => false,
                },
            },
            (verdict_of(packet@, *inverter) == Verdict::Processed && (packet@ matches PacketModel::TranslatedData { function: DeviceFunction::ReadInput, register, .. } && page_of_register(register) is Some))
                ==> match packet@ {
                PacketModel::TranslatedData { datalog, register, values, .. } => {
                    let page = page_of_register(register)->Some_0;
                    let after = pages_for(old(self).inputs.map.view(), datalog).update(
                        page - 1,
                        Some(words_of(values)),
                    );
                    &&& final(self).inputs.map.view().dom() == old(self).inputs.map.view().dom().insert(datalog)
                    &&& final(self).inputs.map.view()[datalog]@ == if complete(after) {
                        no_pages()
                    } else {
                        after
                    }
                    &&& forall|k: Seq<u8>|
                        k != datalog && old(self).inputs.map.view().contains_key(k) ==> final(self).inputs.map.view()[k] == old(self).inputs.map.view()[k]
                },
                _ => false,
            },
            !(verdict_of(packet@, *inverter) == Verdict::Processed && (packet@ matches PacketModel::TranslatedData { function: DeviceFunction::ReadInput, register, .. } && page_of_register(register) is Some))
                ==> final(self).inputs == old(self).inputs,
    {
        let td = match packet {
            Packet::TranslatedData(td) => td,
            _ => {
                return (Verdict::NotTranslated, Vec::new());
            },
        };
        if td.values.len() >= 1 && td.values[0] >= 0x80 {
            self.stats.increment_modbus_errors();
            return (Verdict::ModbusException(td.values[0] - 0x80), Vec::new());
        }
        if !td.inverter.is_alphanumeric() {
            self.stats.increment_serial_mismatches();
            return (Verdict::InvalidSerial, Vec::new());
        }
        if let Some(s) = inverter.serial {
            if !s.same(&td.inverter) {
                self.stats.increment_serial_mismatches();
                self.stats.record_disconnect(s);
                let msg = mismatch_message(&td.inverter, &s);
                self.stats.record_last_message(s, msg);
                let mut effects: Vec<Effect> = Vec::new();
                effects.push(Effect::Disconnect(s));
                assert(effects_view(effects@) =~= seq![EffectModel::Disconnect(s@)]);
                return (Verdict::SerialMismatch, effects);
            }
        }
        let mqtt = self.config.config.mqtt.enabled;
        let d = td.datalog;
        let mut effects: Vec<Effect> = Vec::new();
        assert(effects_view(effects@) =~= Seq::<EffectModel>::empty());
        match td.device_function {
            DeviceFunction::ReadInput => {
                match page_for_register(td.register) {
                    None => {},
                    Some(page) => {
                        let regs = Self::words(&td.values);
                        if mqtt {
                            let copy = regs.clone();
                            assert(copy@ =~= regs@);
                            effects.push(Effect::InputPage { datalog: d, page, registers: copy });
                        }
                        let snap = self.inputs.ingest(d, page, regs);
                        if let Some(all) = snap {
                            effects.push(Effect::InputSnapshot { datalog: d, all });
                        }
                        assert(effects_view(effects@) =~= dispatch_effects(
                            d@,
                            td.device_function,
                            td.register,
                            td.values@,
                            mqtt,
                            pages_for(old(self).inputs.map.view(), d@),
                        ));
                    },
                }
            },
            DeviceFunction::ReadHold => {
                let pairs = td.pairs();
                Self::push_pairs_cache(&mut effects, d, &pairs);
                if mqtt {
                    Self::push_hold_publishes(&mut effects, d, &pairs);
                }
                assert(effects_view(effects@) =~= dispatch_effects(
                    d@,
                    td.device_function,
                    td.register,
                    td.values@,
                    mqtt,
                    pages_for(old(self).inputs.map.view(), d@),
                ));
            },
            DeviceFunction::WriteSingle => {
                let value = td.value();
                effects.push(Effect::CacheWrite { datalog: d, register: td.register, value });
                if mqtt {
                    let topic = write_status_topic_text(&d);
                    let payload = write_status_payload_text(td.register, value);
                    effects.push(Effect::Publish(Message { topic, payload, retain: false }));
                }
                assert(effects_view(effects@) =~= dispatch_effects(
                    d@,
                    td.device_function,
                    td.register,
                    td.values@,
                    mqtt,
                    pages_for(old(self).inputs.map.view(), d@),
                ));
            },
            DeviceFunction::WriteMulti => {
                let pairs = td.pairs();
                Self::push_pairs_cache(&mut effects, d, &pairs);
                if mqtt {
                    let topic = write_multi_status_topic_text(&d);
                    let payload = write_multi_payload_text(&pairs);
                    effects.push(Effect::Publish(Message { topic, payload, retain: false }));
                }
                assert(effects_view(effects@) =~= dispatch_effects(
                    d@,
                    td.device_function,
                    td.register,
                    td.values@,
                    mqtt,
                    pages_for(old(self).inputs.map.view(), d@),
                ));
            },
        }
        (Verdict::Processed, effects)
    }
}

/// Bytes of inbound frames after which the receiver drains its pending backlog.
pub const BACKLOG_LIMIT: usize = 1024;

/// Counts inbound frame bytes to decide when a stalled receiver drains its backlog.
pub struct BacklogMeter {
    pub bytes: usize,
}

impl BacklogMeter {
    pub open spec fn wf(&self) -> bool {
        self.bytes < BACKLOG_LIMIT
    }

    pub fn new() -> (r: BacklogMeter)
        ensures
            r.wf(),
            r.bytes == 0,
    {
        BacklogMeter { bytes: 0 }
    }

    /// Counts a frame of `size` bytes. Once the count reaches the limit it starts over and
    /// the answer is to drain the backlog.
    pub fn record(&mut self, size: usize) -> (r: bool)
        requires
            old(self).wf(),
        ensures
            final(self).wf(),
            r == (old(self).bytes + size >= BACKLOG_LIMIT),
            final(self).bytes == if r {
                0
            } else {
                old(self).bytes + size
            },
    {
        if size >= BACKLOG_LIMIT - self.bytes {
            self.bytes = 0;
            true
        } else {
            self.bytes = self.bytes + size;
            false
        }
    }
}

} // verus!
