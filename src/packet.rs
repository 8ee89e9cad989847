use vstd::prelude::*;

use crate::serial::Serial;

verus! {

/// Function code carried inside a TranslatedData envelope.
#[derive(Clone, Copy, Debug, PartialEq, Eq, Structural)]
pub enum DeviceFunction {
    ReadHold,
    ReadInput,
    WriteSingle,
    WriteMulti,
}

pub open spec fn device_function_code(f: DeviceFunction) -> u8 {
    match f {
        DeviceFunction::ReadHold => 3,
        DeviceFunction::ReadInput => 4,
        DeviceFunction::WriteSingle => 6,
        DeviceFunction::WriteMulti => 16,
    }
}

pub open spec fn device_function_of(b: u8) -> Option<DeviceFunction> {
    if b == 3 {
        Some(DeviceFunction::ReadHold)
    } else if b == 4 {
        Some(DeviceFunction::ReadInput)
    } else if b == 6 {
        Some(DeviceFunction::WriteSingle)
    } else if b == 16 {
        Some(DeviceFunction::WriteMulti)
    } else {
        None
    }
}

impl DeviceFunction {
    pub fn code(&self) -> (r: u8)
        ensures
            r == device_function_code(*self),
    {
        match self {
            DeviceFunction::ReadHold => 3,
            DeviceFunction::ReadInput => 4,
            DeviceFunction::WriteSingle => 6,
            DeviceFunction::WriteMulti => 16,
        }
    }

    pub fn from_code(b: u8) -> (r: Option<DeviceFunction>)
        ensures
            r == device_function_of(b),
    {
        if b == 3 {
            Some(DeviceFunction::ReadHold)
        } else if b == 4 {
            Some(DeviceFunction::ReadInput)
        } else if b == 6 {
            Some(DeviceFunction::WriteSingle)
        } else if b == 16 {
            Some(DeviceFunction::WriteMulti)
        } else {
            None
        }
    }
}

/// The frame-level function byte.
#[derive(Clone, Copy, Debug, PartialEq, Eq, Structural)]
pub enum TcpFunction {
    Heartbeat,
    TranslatedData,
    ReadParam,
    WriteParam,
}

pub open spec fn tcp_function_code(f: TcpFunction) -> u8 {
    match f {
        TcpFunction::Heartbeat => 193,
        TcpFunction::TranslatedData => 194,
        TcpFunction::ReadParam => 195,
        TcpFunction::WriteParam => 196,
    }
}

pub open spec fn tcp_function_of(b: u8) -> Option<TcpFunction> {
    if b == 193 {
        Some(TcpFunction::Heartbeat)
    } else if b == 194 {
        Some(TcpFunction::TranslatedData)
    } else if b == 195 {
        Some(TcpFunction::ReadParam)
    } else if b == 196 {
        Some(TcpFunction::WriteParam)
    } else {
        None
    }
}

impl TcpFunction {
    pub fn code(&self) -> (r: u8)
        ensures
            r == tcp_function_code(*self),
    {
        match self {
            TcpFunction::Heartbeat => 193,
            TcpFunction::TranslatedData => 194,
            TcpFunction::ReadParam => 195,
            TcpFunction::WriteParam => 196,
        }
    }

    pub fn from_code(b: u8) -> (r: Option<TcpFunction>)
        ensures
            r == tcp_function_of(b),
    {
        if b == 193 {
            Some(TcpFunction::Heartbeat)
        } else if b == 194 {
            Some(TcpFunction::TranslatedData)
        } else if b == 195 {
            Some(TcpFunction::ReadParam)
        } else if b == 196 {
            Some(TcpFunction::WriteParam)
        } else {
            None
        }
    }
}

#[derive(Clone, Debug, PartialEq, Eq)]
pub struct Heartbeat {
    pub datalog: Serial,
}

/// A Modbus-like exchange with the inverter behind a datalog.
#[derive(Clone, Debug, PartialEq, Eq)]
pub struct TranslatedData {
    pub datalog: Serial,
    pub inverter: Serial,
    pub device_function: DeviceFunction,
    pub register: u16,
    pub values: Vec<u8>,
}

/// A read or write of a datalog parameter.
#[derive(Clone, Debug, PartialEq, Eq)]
pub struct Param {
    pub datalog: Serial,
    pub register: u16,
    pub values: Vec<u8>,
}

#[derive(Clone, Debug, PartialEq, Eq)]
pub enum Packet {
    Heartbeat(Heartbeat),
    TranslatedData(TranslatedData),
    ReadParam(Param),
    WriteParam(Param),
}

/// The mathematical content of a packet.
pub enum PacketModel {
    Heartbeat { datalog: Seq<u8> },
    TranslatedData {
        datalog: Seq<u8>,
        inverter: Seq<u8>,
        function: DeviceFunction,
        register: u16,
        values: Seq<u8>,
    },
    ReadParam { datalog: Seq<u8>, register: u16, values: Seq<u8> },
    WriteParam { datalog: Seq<u8>, register: u16, values: Seq<u8> },
}

impl View for Packet {
    type V = PacketModel;

    open spec fn view(&self) -> PacketModel {
        match self {
            Packet::Heartbeat(h) => PacketModel::Heartbeat { datalog: h.datalog@ },
            Packet::TranslatedData(td) => PacketModel::TranslatedData {
                datalog: td.datalog@,
                inverter: td.inverter@,
                function: td.device_function,
                register: td.register,
                values: td.values@,
            },
            Packet::ReadParam(p) => PacketModel::ReadParam {
                datalog: p.datalog@,
                register: p.register,
                values: p.values@,
            },
            Packet::WriteParam(p) => PacketModel::WriteParam {
                datalog: p.datalog@,
                register: p.register,
                values: p.values@,
            },
        }
    }
}

pub open spec fn model_datalog(m: PacketModel) -> Seq<u8> {
    match m {
        PacketModel::Heartbeat { datalog } => datalog,
        PacketModel::TranslatedData { datalog, .. } => datalog,
        PacketModel::ReadParam { datalog, .. } => datalog,
        PacketModel::WriteParam { datalog, .. } => datalog,
    }
}

pub open spec fn model_inverter(m: PacketModel) -> Seq<u8> {
    match m {
        PacketModel::TranslatedData { inverter, .. } => inverter,
        _ => Seq::empty(),
    }
}

pub open spec fn model_tcp_function(m: PacketModel) -> TcpFunction {
    match m {
        PacketModel::Heartbeat { .. } => TcpFunction::Heartbeat,
        PacketModel::TranslatedData { .. } => TcpFunction::TranslatedData,
        PacketModel::ReadParam { .. } => TcpFunction::ReadParam,
        PacketModel::WriteParam { .. } => TcpFunction::WriteParam,
    }
}

/// The kind of exchange a packet belongs to, as used for pairing a reply with its request.
#[derive(Clone, Copy, Debug, PartialEq, Eq, Structural)]
pub enum ExchangeKind {
    Device(DeviceFunction),
    ReadParam,
    WriteParam,
    Heartbeat,
}

/// What pairs a reply with the request it answers: datalog, kind and register.
#[derive(Clone, Copy, Debug, PartialEq, Eq)]
pub struct Fingerprint {
    pub datalog: Serial,
    pub kind: ExchangeKind,
    pub register: u16,
}

pub struct FingerprintModel {
    pub datalog: Seq<u8>,
    pub kind: ExchangeKind,
    pub register: u16,
}

impl View for Fingerprint {
    type V = FingerprintModel;

    open spec fn view(&self) -> FingerprintModel {
        FingerprintModel { datalog: self.datalog@, kind: self.kind, register: self.register }
    }
}

pub open spec fn fingerprint_of(m: PacketModel) -> FingerprintModel {
    match m {
        PacketModel::Heartbeat { datalog } => FingerprintModel {
            datalog,
            kind: ExchangeKind::Heartbeat,
            register: 0,
        },
        PacketModel::TranslatedData { datalog, function, register, .. } => FingerprintModel {
            datalog,
            kind: ExchangeKind::Device(function),
            register,
        },
        PacketModel::ReadParam { datalog, register, .. } => FingerprintModel {
            datalog,
            kind: ExchangeKind::ReadParam,
            register,
        },
        PacketModel::WriteParam { datalog, register, .. } => FingerprintModel {
            datalog,
            kind: ExchangeKind::WriteParam,
            register,
        },
    }
}

impl Fingerprint {
    /// Byte-wise equality of two fingerprints.
    pub fn same(&self, other: &Fingerprint) -> (r: bool)
        ensures
            r == (self@ == other@),
    {
        self.kind == other.kind && self.register == other.register && self.datalog.same(
            &other.datalog,
        )
    }
}

impl Packet {
    pub fn datalog(&self) -> (r: Serial)
        ensures
            r@ == model_datalog(self@),
    {
        match self {
            Packet::Heartbeat(h) => h.datalog,
            Packet::TranslatedData(td) => td.datalog,
            Packet::ReadParam(p) => p.datalog,
            Packet::WriteParam(p) => p.datalog,
        }
    }

    pub fn tcp_function(&self) -> (r: TcpFunction)
        ensures
            r == model_tcp_function(self@),
    {
        match self {
            Packet::Heartbeat(_) => TcpFunction::Heartbeat,
            Packet::TranslatedData(_) => TcpFunction::TranslatedData,
            Packet::ReadParam(_) => TcpFunction::ReadParam,
            Packet::WriteParam(_) => TcpFunction::WriteParam,
        }
    }

    /// The fingerprint under which a reply to this packet is expected.
    pub fn fingerprint(&self) -> (r: Fingerprint)
        ensures
            r@ == fingerprint_of(self@),
    {
        match self {
            Packet::Heartbeat(h) => Fingerprint {
                datalog: h.datalog,
                kind: ExchangeKind::Heartbeat,
                register: 0,
            },
            Packet::TranslatedData(td) => Fingerprint {
                datalog: td.datalog,
                kind: ExchangeKind::Device(td.device_function),
                register: td.register,
            },
            Packet::ReadParam(p) => Fingerprint {
                datalog: p.datalog,
                kind: ExchangeKind::ReadParam,
                register: p.register,
            },
            Packet::WriteParam(p) => Fingerprint {
                datalog: p.datalog,
                kind: ExchangeKind::WriteParam,
                register: p.register,
            },
        }
    }
}

/// The little-endian 16-bit value at `s[i..i + 2]`.
pub open spec fn u16_at(s: Seq<u8>, i: int) -> u16 {
    (s[i] as int + 256 * (s[i + 1] as int)) as u16
}

/// The little-endian encoding of `v`.
pub open spec fn le16(v: u16) -> Seq<u8> {
    seq![(v % 256) as u8, (v / 256) as u8]
}

/// The `(register, value)` pairs of a values blob: consecutive little-endian 16-bit words,
/// the first at `first`.
pub open spec fn pairs_of(first: u16, values: Seq<u8>) -> Seq<(u16, u16)> {
    Seq::new(values.len() / 2, |i: int| ((((first as int) + i) % 65536) as u16, u16_at(values, 2 * i)))
}

impl TranslatedData {
    /// The register/value pairs carried by this packet.
    pub fn pairs(&self) -> (r: Vec<(u16, u16)>)
        ensures
            r@ == pairs_of(self.register, self.values@),
    {
        let mut r: Vec<(u16, u16)> = Vec::new();
        let len = self.values.len();
        let n = len / 2;
        let mut i: usize = 0;
        while i < n
            invariant
                len == self.values@.len(),
                n == len / 2,
                i <= n,
                r@ == pairs_of(self.register, self.values@).subrange(0, i as int),
            decreases n - i,
        {
            let lo = self.values[2 * i] as u16;
            let hi = self.values[2 * i + 1] as u16;
            let reg = ((self.register as usize + i) % 65536) as u16;
            r.push((reg, lo + 256 * hi));
            assert(r@[i as int] == pairs_of(self.register, self.values@)[i as int]);
            assert(r@ =~= pairs_of(self.register, self.values@).subrange(0, i + 1));
            i = i + 1;
        }
        assert(r@ =~= pairs_of(self.register, self.values@));
        r
    }

    /// The first 16-bit value, or 0 when fewer than two value bytes are present.
    pub fn value(&self) -> (r: u16)
        ensures
            self.values@.len() >= 2 ==> r == u16_at(self.values@, 0),
            self.values@.len() < 2 ==> r == 0,
    {
        if self.values.len() >= 2 {
            self.values[0] as u16 + 256 * (self.values[1] as u16)
        } else {
            0
        }
    }
}

pub fn copy_bytes(v: &Vec<u8>) -> (r: Vec<u8>)
    ensures
        r@ == v@,
{
    let r = v.clone();
    assert(r@ =~= v@);
    r
}

impl Packet {
    /// A copy of the packet with the same content.
    pub fn copied(&self) -> (r: Packet)
        ensures
            r@ == self@,
    {
        match self {
            Packet::Heartbeat(h) => Packet::Heartbeat(Heartbeat { datalog: h.datalog }),
            Packet::TranslatedData(td) => Packet::TranslatedData(
                TranslatedData {
                    datalog: td.datalog,
                    inverter: td.inverter,
                    device_function: td.device_function,
                    register: td.register,
                    values: copy_bytes(&td.values),
                },
            ),
            Packet::ReadParam(p) => Packet::ReadParam(
                Param { datalog: p.datalog, register: p.register, values: copy_bytes(&p.values) },
            ),
            Packet::WriteParam(p) => Packet::WriteParam(
                Param { datalog: p.datalog, register: p.register, values: copy_bytes(&p.values) },
            ),
        }
    }
}

} // verus!
