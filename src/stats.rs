use vstd::prelude::*;

use crate::packet::{DeviceFunction, Packet, PacketModel};
use crate::text::{decimal, push_decimal, push_str};
use crate::serial::Serial;
use crate::serial_map::SerialMap;

verus! {

/// A counter one step on, stopping at the largest value.
pub open spec fn inc(x: u64) -> u64 {
    if x < u64::MAX {
        (x + 1) as u64
    } else {
        x
    }
}

pub fn bump(x: u64) -> (r: u64)
    ensures
        r == inc(x),
{
    if x < u64::MAX {
        x + 1
    } else {
        x
    }
}

/// Process-wide counters; they only grow.
pub struct PacketStats {
    pub packets_received: u64,
    pub packets_sent: u64,
    pub heartbeat_packets_received: u64,
    pub translated_data_packets_received: u64,
    pub read_param_packets_received: u64,
    pub write_param_packets_received: u64,
    pub heartbeat_packets_sent: u64,
    pub translated_data_packets_sent: u64,
    pub read_param_packets_sent: u64,
    pub write_param_packets_sent: u64,
    pub modbus_errors: u64,
    pub mqtt_errors: u64,
    pub influx_errors: u64,
    pub database_errors: u64,
    pub register_cache_errors: u64,
    pub mqtt_messages_sent: u64,
    pub influx_writes: u64,
    pub database_writes: u64,
    pub register_cache_writes: u64,
    pub serial_mismatches: u64,
    /// Disconnections per inverter serial.
    pub inverter_disconnections: SerialMap<u64>,
    /// The last message seen per datalog or inverter.
    pub last_messages: SerialMap<String>,
}

/// The disconnection count of `s`, zero when never seen.
pub open spec fn count_for(m: Map<Seq<u8>, u64>, s: Seq<u8>) -> u64 {
    if m.contains_key(s) {
        m[s]
    } else {
        0
    }
}

impl PacketStats {
    pub open spec fn wf(&self) -> bool {
        self.inverter_disconnections.wf() && self.last_messages.wf()
    }

    /// Every counter at zero.
    pub open spec fn is_zero(&self) -> bool {
        &&& self.packets_received == 0
        &&& self.packets_sent == 0
        &&& self.heartbeat_packets_received == 0
        &&& self.translated_data_packets_received == 0
        &&& self.read_param_packets_received == 0
        &&& self.write_param_packets_received == 0
        &&& self.heartbeat_packets_sent == 0
        &&& self.translated_data_packets_sent == 0
        &&& self.read_param_packets_sent == 0
        &&& self.write_param_packets_sent == 0
        &&& self.modbus_errors == 0
        &&& self.mqtt_errors == 0
        &&& self.influx_errors == 0
        &&& self.database_errors == 0
        &&& self.register_cache_errors == 0
        &&& self.mqtt_messages_sent == 0
        &&& self.influx_writes == 0
        &&& self.database_writes == 0
        &&& self.register_cache_writes == 0
        &&& self.serial_mismatches == 0
        &&& self.inverter_disconnections.view() == Map::<Seq<u8>, u64>::empty()
        &&& self.last_messages.view() == Map::<Seq<u8>, String>::empty()
    }

    pub fn new() -> (r: PacketStats)
        ensures
            r.wf(),
            r.is_zero(),
    {
        PacketStats {
            packets_received: 0,
            packets_sent: 0,
            heartbeat_packets_received: 0,
            translated_data_packets_received: 0,
            read_param_packets_received: 0,
            write_param_packets_received: 0,
            heartbeat_packets_sent: 0,
            translated_data_packets_sent: 0,
            read_param_packets_sent: 0,
            write_param_packets_sent: 0,
            modbus_errors: 0,
            mqtt_errors: 0,
            influx_errors: 0,
            database_errors: 0,
            register_cache_errors: 0,
            mqtt_messages_sent: 0,
            influx_writes: 0,
            database_writes: 0,
            register_cache_writes: 0,
            serial_mismatches: 0,
            inverter_disconnections: SerialMap::new(),
            last_messages: SerialMap::new(),
        }
    }

    pub fn increment_serial_mismatches(&mut self)
        ensures
            *final(self) == (PacketStats {
                serial_mismatches: inc(old(self).serial_mismatches),
                ..*old(self)
            }),
    {
        self.serial_mismatches = bump(self.serial_mismatches);
    }

    pub fn increment_mqtt_errors(&mut self)
        ensures
            *final(self) == (PacketStats { mqtt_errors: inc(old(self).mqtt_errors), ..*old(self) }),
    {
        self.mqtt_errors = bump(self.mqtt_errors);
    }

    pub fn increment_cache_errors(&mut self)
        ensures
            *final(self) == (PacketStats {
                register_cache_errors: inc(old(self).register_cache_errors),
                ..*old(self)
            }),
    {
        self.register_cache_errors = bump(self.register_cache_errors);
    }

    pub fn increment_modbus_errors(&mut self)
        ensures
            *final(self) == (PacketStats { modbus_errors: inc(old(self).modbus_errors), ..*old(self) }),
    {
        self.modbus_errors = bump(self.modbus_errors);
    }

    /// Counts one more disconnection of `serial`.
    pub fn record_disconnect(&mut self, serial: Serial)
        requires
            old(self).wf(),
        ensures
            final(self).wf(),
            final(self).inverter_disconnections.view() == old(self).inverter_disconnections.view().insert(
                serial@,
                inc(count_for(old(self).inverter_disconnections.view(), serial@)),
            ),
            *final(self) == (PacketStats {
                inverter_disconnections: final(self).inverter_disconnections,
                ..*old(self)
            }),
    {
        let current = match self.inverter_disconnections.get(&serial) {
            Some(c) => *c,
            None => 0,
        };
        self.inverter_disconnections.insert(serial, bump(current));
    }

    /// Remembers `message` as the last one seen for `serial`.
    pub fn record_last_message(&mut self, serial: Serial, message: String)
        requires
            old(self).wf(),
        ensures
            final(self).wf(),
            final(self).last_messages.view() == old(self).last_messages.view().insert(
                serial@,
                message,
            ),
            *final(self) == (PacketStats { last_messages: final(self).last_messages, ..*old(self) }),
    {
        self.last_messages.insert(serial, message);
    }

    /// Counts a packet sent to an inverter, by kind.
    pub fn count_sent(&mut self, packet: &Packet)
        ensures
            final(self).packets_sent == inc(old(self).packets_sent),
            final(self).heartbeat_packets_sent == if packet is Heartbeat {
                inc(old(self).heartbeat_packets_sent)
            } else {
                old(self).heartbeat_packets_sent
            },
            final(self).translated_data_packets_sent == if packet is TranslatedData {
                inc(old(self).translated_data_packets_sent)
            } else {
                old(self).translated_data_packets_sent
            },
            final(self).read_param_packets_sent == if packet is ReadParam {
                inc(old(self).read_param_packets_sent)
            } else {
                old(self).read_param_packets_sent
            },
            final(self).write_param_packets_sent == if packet is WriteParam {
                inc(old(self).write_param_packets_sent)
            } else {
                old(self).write_param_packets_sent
            },
            *final(self) == (PacketStats {
                packets_sent: final(self).packets_sent,
                heartbeat_packets_sent: final(self).heartbeat_packets_sent,
                translated_data_packets_sent: final(self).translated_data_packets_sent,
                read_param_packets_sent: final(self).read_param_packets_sent,
                write_param_packets_sent: final(self).write_param_packets_sent,
                ..*old(self)
            }),
    {
        self.packets_sent = bump(self.packets_sent);
        match packet {
            Packet::Heartbeat(_) => self.heartbeat_packets_sent = bump(self.heartbeat_packets_sent),
            Packet::TranslatedData(_) => self.translated_data_packets_sent = bump(
                self.translated_data_packets_sent,
            ),
            Packet::ReadParam(_) => self.read_param_packets_sent = bump(
                self.read_param_packets_sent,
            ),
            Packet::WriteParam(_) => self.write_param_packets_sent = bump(
                self.write_param_packets_sent,
            ),
        }
    }

    /// Counts a packet received from an inverter, by kind; a TranslatedData packet also
    /// becomes the last message of its datalog.
    pub fn count_received(&mut self, packet: &Packet)
        requires
            old(self).wf(),
        ensures
            final(self).wf(),
            match packet@ {
                PacketModel::TranslatedData { datalog, function, register, .. } => {
                    &&& final(self).last_messages.view().dom() == old(self).last_messages.view().dom().insert(datalog)
                    &&& final(self).last_messages.view()[datalog]@ == received_text(function, register)
                    &&& forall|k: Seq<u8>|
                        k != datalog && old(self).last_messages.view().contains_key(k)
                            ==> final(self).last_messages.view()[k] == old(self).last_messages.view()[k]
                },
                _ => final(self).last_messages == old(self).last_messages,
            },
            final(self).packets_received == inc(old(self).packets_received),
            final(self).heartbeat_packets_received == if packet is Heartbeat {
                inc(old(self).heartbeat_packets_received)
            } else {
                old(self).heartbeat_packets_received
            },
            final(self).translated_data_packets_received == if packet is TranslatedData {
                inc(old(self).translated_data_packets_received)
            } else {
                old(self).translated_data_packets_received
            },
            final(self).read_param_packets_received == if packet is ReadParam {
                inc(old(self).read_param_packets_received)
            } else {
                old(self).read_param_packets_received
            },
            final(self).write_param_packets_received == if packet is WriteParam {
                inc(old(self).write_param_packets_received)
            } else {
                old(self).write_param_packets_received
            },
            *final(self) == (PacketStats {
                packets_received: final(self).packets_received,
                heartbeat_packets_received: final(self).heartbeat_packets_received,
                translated_data_packets_received: final(self).translated_data_packets_received,
                read_param_packets_received: final(self).read_param_packets_received,
                write_param_packets_received: final(self).write_param_packets_received,
                last_messages: final(self).last_messages,
                ..*old(self)
            }),
    {
        if let Packet::TranslatedData(td) = packet {
            let text = received_message(td.device_function, td.register);
            self.last_messages.insert(td.datalog, text);
        }
        self.packets_received = bump(self.packets_received);
        match packet {
            Packet::Heartbeat(_) => self.heartbeat_packets_received = bump(
                self.heartbeat_packets_received,
            ),
            Packet::TranslatedData(_) => self.translated_data_packets_received = bump(
                self.translated_data_packets_received,
            ),
            Packet::ReadParam(_) => self.read_param_packets_received = bump(
                self.read_param_packets_received,
            ),
            Packet::WriteParam(_) => self.write_param_packets_received = bump(
                self.write_param_packets_received,
            ),
        }
    }
}

pub open spec fn function_name(f: DeviceFunction) -> Seq<char> {
    match f {
        DeviceFunction::ReadHold => "ReadHold"@,
        DeviceFunction::ReadInput => "ReadInput"@,
        DeviceFunction::WriteSingle => "WriteSingle"@,
        DeviceFunction::WriteMulti => "WriteMulti"@,
    }
}

/// `{function} register {register}`, the last message kept for a datalog.
pub open spec fn received_text(f: DeviceFunction, register: u16) -> Seq<char> {
    function_name(f) + " register "@ + decimal(register as nat)
}

fn received_message(f: DeviceFunction, register: u16) -> (r: String)
    ensures
        r@ == received_text(f, register),
{
    let mut r = String::new();
    match f {
        DeviceFunction::ReadHold => push_str(&mut r, "ReadHold"),
        DeviceFunction::ReadInput => push_str(&mut r, "ReadInput"),
        DeviceFunction::WriteSingle => push_str(&mut r, "WriteSingle"),
        DeviceFunction::WriteMulti => push_str(&mut r, "WriteMulti"),
    }
    push_str(&mut r, " register ");
    push_decimal(&mut r, register as u128);
    assert(r@ =~= received_text(f, register));
    r
}

} // verus!
