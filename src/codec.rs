use vstd::prelude::*;
use vstd::slice::slice_subrange;

use crate::packet::{
    device_function_code, device_function_of, le16, tcp_function_code, tcp_function_of, u16_at,
    DeviceFunction, Heartbeat, Packet, PacketModel, Param, TcpFunction, TranslatedData,
};
use crate::serial::Serial;

verus! {

/// First byte of every frame.
pub const PREAMBLE_0: u8 = 0xA1;

/// Second byte of every frame.
pub const PREAMBLE_1: u8 = 0x1A;

/// Bytes before the payload: preamble, protocol, length, version, function, datalog.
pub const HEADER_LEN: usize = 18;

/// Largest frame the decoder accepts; a longer advertised length is malformed.
pub const MAX_FRAME_LEN: usize = 1024;

/// Largest values blob that still fits a frame of any kind.
pub const MAX_VALUES: usize = 960;

/// Why a frame could not be decoded.
#[derive(Clone, Copy, Debug, PartialEq, Eq, Structural)]
pub enum DecodeError {
    /// Bad preamble, an impossible advertised length, or fields that disagree with it.
    MalformedFrame,
    /// The inner envelope's checksum does not match its bytes.
    ChecksumError,
    /// A function byte that the protocol does not define.
    UnknownFunction(u8),
}

/// Outcome of decoding the front of a byte buffer.
#[derive(Debug)]
pub enum Decoded {
    /// The buffer holds only the start of a frame; nothing was consumed.
    NeedMore,
    /// A whole frame: the packet and the number of bytes it occupies.
    Frame(Packet, usize),
    Error(DecodeError),
}

pub enum DecodedModel {
    NeedMore,
    Frame(PacketModel, nat),
    Error(DecodeError),
}

impl View for Decoded {
    type V = DecodedModel;

    open spec fn view(&self) -> DecodedModel {
        match self {
            Decoded::NeedMore => DecodedModel::NeedMore,
            Decoded::Frame(p, n) => DecodedModel::Frame(p@, *n as nat),
            Decoded::Error(e) => DecodedModel::Error(*e),
        }
    }
}

// ---------------------------------------------------------------- checksum
/// One shift step of the CRC-16/MODBUS register (reflected polynomial 0xA001).
pub open spec fn crc_shift(c: u16) -> u16 {
    if c & 1 == 1 {
        (c >> 1) ^ 0xA001
    } else {
        c >> 1
    }
}

pub open spec fn crc_rounds(c: u16, k: nat) -> u16
    decreases k,
{
    if k == 0 {
        c
    } else {
        crc_rounds(crc_shift(c), (k - 1) as nat)
    }
}

pub open spec fn crc_byte(c: u16, b: u8) -> u16 {
    crc_rounds(c ^ (b as u16), 8)
}

/// CRC-16/MODBUS of a byte sequence.
pub open spec fn crc16(s: Seq<u8>) -> u16
    decreases s.len(),
{
    if s.len() == 0 {
        0xFFFF
    } else {
        crc_byte(crc16(s.drop_last()), s.last())
    }
}

fn crc_byte_exec(c: u16, b: u8) -> (r: u16)
    ensures
        r == crc_byte(c, b),
{
    let start = c ^ (b as u16);
    let mut x = start;
    let mut k: usize = 0;
    while k < 8
        invariant
            k <= 8,
            crc_rounds(x, (8 - k) as nat) == crc_rounds(start, 8),
        decreases 8 - k,
    {
        assert(crc_rounds(x, (8 - k) as nat) == crc_rounds(crc_shift(x), (8 - k - 1) as nat));
        x = if x & 1 == 1 {
            (x >> 1) ^ 0xA001
        } else {
            x >> 1
        };
        k = k + 1;
    }
    x
}

/// CRC-16/MODBUS of `buf[lo..hi]`.
pub fn checksum(buf: &[u8], lo: usize, hi: usize) -> (r: u16)
    requires
        lo <= hi <= buf@.len(),
    ensures
        r == crc16(buf@.subrange(lo as int, hi as int)),
{
    let mut c: u16 = 0xFFFF;
    let mut i: usize = lo;
    assert(buf@.subrange(lo as int, lo as int).len() == 0);
    while i < hi
        invariant
            lo <= i <= hi,
            hi <= buf@.len(),
            c == crc16(buf@.subrange(lo as int, i as int)),
        decreases hi - i,
    {
        let ghost prev = buf@.subrange(lo as int, i as int);
        let ghost next = buf@.subrange(lo as int, i + 1);
        assert(next.drop_last() =~= prev);
        assert(next.last() == buf@[i as int]);
        c = crc_byte_exec(c, buf[i]);
        i = i + 1;
    }
    c
}

// ---------------------------------------------------------------- encoding
pub open spec fn protocol_of(f: TcpFunction) -> u16 {
    if f == TcpFunction::TranslatedData {
        2
    } else {
        1
    }
}

/// Bytes of a TranslatedData envelope that the checksum covers.
pub open spec fn inner_body(
    inverter: Seq<u8>,
    function: DeviceFunction,
    register: u16,
    values: Seq<u8>,
) -> Seq<u8> {
    seq![0u8, device_function_code(function)] + inverter + le16(register) + values
}

pub open spec fn translated_payload(
    inverter: Seq<u8>,
    function: DeviceFunction,
    register: u16,
    values: Seq<u8>,
) -> Seq<u8> {
    let inner = inner_body(inverter, function, register, values);
    le16(inner.len() as u16) + inner + le16(crc16(inner))
}

pub open spec fn param_payload(register: u16, values: Seq<u8>) -> Seq<u8> {
    le16(register) + le16(values.len() as u16) + values
}

pub open spec fn payload_of(m: PacketModel) -> Seq<u8> {
    match m {
        PacketModel::Heartbeat { .. } => seq![0u8],
        PacketModel::TranslatedData { inverter, function, register, values, .. } =>
            translated_payload(inverter, function, register, values),
        PacketModel::ReadParam { register, values, .. } => param_payload(register, values),
        PacketModel::WriteParam { register, values, .. } => param_payload(register, values),
    }
}

pub open spec fn model_datalog(m: PacketModel) -> Seq<u8> {
    crate::packet::model_datalog(m)
}

/// The wire frame of a packet.
pub open spec fn encode_spec(m: PacketModel) -> Seq<u8> {
    let f = crate::packet::model_tcp_function(m);
    let payload = payload_of(m);
    seq![PREAMBLE_0, PREAMBLE_1] + le16(protocol_of(f)) + le16((12 + payload.len()) as u16)
        + seq![1u8, tcp_function_code(f)] + model_datalog(m) + payload
}

/// A packet that has a frame: ten-byte serials and a values blob that fits.
pub open spec fn encodable(m: PacketModel) -> bool {
    match m {
        PacketModel::Heartbeat { datalog } => datalog.len() == 10,
        PacketModel::TranslatedData { datalog, inverter, values, .. } => datalog.len() == 10
            && inverter.len() == 10 && values.len() <= MAX_VALUES,
        PacketModel::ReadParam { datalog, values, .. } => datalog.len() == 10 && values.len()
            <= MAX_VALUES,
        PacketModel::WriteParam { datalog, values, .. } => datalog.len() == 10 && values.len()
            <= MAX_VALUES,
    }
}

fn push_le16(out: &mut Vec<u8>, v: u16)
    ensures
        final(out)@ == old(out)@ + le16(v),
{
    out.push((v % 256) as u8);
    out.push((v / 256) as u8);
    assert(out@ =~= old(out)@ + le16(v));
}

fn push_all(out: &mut Vec<u8>, src: &Vec<u8>)
    ensures
        final(out)@ == old(out)@ + src@,
{
    let mut i: usize = 0;
    while i < src.len()
        invariant
            i <= src@.len(),
            out@ == old(out)@ + src@.subrange(0, i as int),
        decreases src@.len() - i,
    {
        out.push(src[i]);
        assert(src@.subrange(0, i + 1) =~= src@.subrange(0, i as int).push(src@[i as int]));
        i = i + 1;
    }
    assert(src@.subrange(0, src@.len() as int) =~= src@);
}

fn payload_bytes(p: &Packet) -> (r: Vec<u8>)
    requires
        encodable(p@),
    ensures
        r@ == payload_of(p@),
{
    match p {
        Packet::Heartbeat(_) => {
            let mut r: Vec<u8> = Vec::new();
            r.push(0u8);
            assert(r@ =~= seq![0u8]);
            r
        },
        Packet::TranslatedData(td) => {
            let mut inner: Vec<u8> = Vec::new();
            inner.push(0u8);
            inner.push(td.device_function.code());
            td.inverter.push_to(&mut inner);
            push_le16(&mut inner, td.register);
            push_all(&mut inner, &td.values);
            assert(inner@ =~= inner_body(
                td.inverter@,
                td.device_function,
                td.register,
                td.values@,
            ));
            let crc = checksum(inner.as_slice(), 0, inner.len());
            assert(inner@.subrange(0, inner@.len() as int) =~= inner@);
            let mut r: Vec<u8> = Vec::new();
            push_le16(&mut r, inner.len() as u16);
            push_all(&mut r, &inner);
            push_le16(&mut r, crc);
            r
        },
        Packet::ReadParam(pp) => {
            let mut r: Vec<u8> = Vec::new();
            push_le16(&mut r, pp.register);
            push_le16(&mut r, pp.values.len() as u16);
            push_all(&mut r, &pp.values);
            r
        },
        Packet::WriteParam(pp) => {
            let mut r: Vec<u8> = Vec::new();
            push_le16(&mut r, pp.register);
            push_le16(&mut r, pp.values.len() as u16);
            push_all(&mut r, &pp.values);
            r
        },
    }
}

/// The wire frame of `p`, with the checksum computed afresh.
pub fn encode(p: &Packet) -> (r: Vec<u8>)
    requires
        encodable(p@),
    ensures
        r@ == encode_spec(p@),
{
    let payload = payload_bytes(p);
    let f = p.tcp_function();
    let mut r: Vec<u8> = Vec::new();
    r.push(PREAMBLE_0);
    r.push(PREAMBLE_1);
    push_le16(&mut r, if f == TcpFunction::TranslatedData { 2 } else { 1 });
    push_le16(&mut r, (12 + payload.len()) as u16);
    r.push(1u8);
    r.push(f.code());
    p.datalog().push_to(&mut r);
    push_all(&mut r, &payload);
    assert(r@ =~= encode_spec(p@));
    r
}

// ---------------------------------------------------------------- decoding
pub open spec fn parse_param(body: Seq<u8>) -> Result<(u16, Seq<u8>), DecodeError> {
    if body.len() < 4 {
        Err(DecodeError::MalformedFrame)
    } else if body.len() != 4 + u16_at(body, 2) {
        Err(DecodeError::MalformedFrame)
    } else {
        Ok((u16_at(body, 0), body.subrange(4, body.len() as int)))
    }
}

pub open spec fn parse_translated(datalog: Seq<u8>, body: Seq<u8>) -> Result<
    PacketModel,
    DecodeError,
> {
    if body.len() < 18 {
        Err(DecodeError::MalformedFrame)
    } else if u16_at(body, 0) != body.len() - 4 {
        Err(DecodeError::MalformedFrame)
    } else if crc16(body.subrange(2, body.len() - 2)) != u16_at(body, body.len() - 2) {
        Err(DecodeError::ChecksumError)
    } else {
        match device_function_of(body[3]) {
            None => Err(DecodeError::UnknownFunction(body[3])),
            Some(function) => Ok(
                PacketModel::TranslatedData {
                    datalog,
                    inverter: body.subrange(4, 14),
                    function,
                    register: u16_at(body, 14),
                    values: body.subrange(16, body.len() - 2),
                },
            ),
        }
    }
}

/// The packet in a whole frame `f` (at least a header long).
pub open spec fn parse_frame(f: Seq<u8>) -> Result<PacketModel, DecodeError> {
    let datalog = f.subrange(8, 18);
    let body = f.subrange(18, f.len() as int);
    match tcp_function_of(f[7]) {
        None => Err(DecodeError::UnknownFunction(f[7])),
        Some(TcpFunction::Heartbeat) => Ok(PacketModel::Heartbeat { datalog }),
        Some(TcpFunction::TranslatedData) => parse_translated(datalog, body),
        Some(TcpFunction::ReadParam) => match parse_param(body) {
            Ok((register, values)) => Ok(PacketModel::ReadParam { datalog, register, values }),
            Err(e) => Err(e),
        },
        Some(TcpFunction::WriteParam) => match parse_param(body) {
            Ok((register, values)) => Ok(PacketModel::WriteParam { datalog, register, values }),
            Err(e) => Err(e),
        },
    }
}

/// Length of the frame that starts `s`, as its header advertises (needs six bytes).
pub open spec fn advertised_len(s: Seq<u8>) -> int {
    6 + u16_at(s, 4)
}

/// What decoding the front of `s` yields.
pub open spec fn decode_spec(s: Seq<u8>) -> DecodedModel {
    if s.len() < 6 {
        DecodedModel::NeedMore
    } else if s[0] != PREAMBLE_0 || s[1] != PREAMBLE_1 {
        DecodedModel::Error(DecodeError::MalformedFrame)
    } else if advertised_len(s) < HEADER_LEN || advertised_len(s) > MAX_FRAME_LEN {
        DecodedModel::Error(DecodeError::MalformedFrame)
    } else if s.len() < advertised_len(s) {
        DecodedModel::NeedMore
    } else {
        match parse_frame(s.subrange(0, advertised_len(s))) {
            Ok(m) => DecodedModel::Frame(m, advertised_len(s) as nat),
            Err(e) => DecodedModel::Error(e),
        }
    }
}

fn read_u16(buf: &[u8], i: usize) -> (r: u16)
    requires
        i + 2 <= buf@.len(),
    ensures
        r == u16_at(buf@, i as int),
{
    buf[i] as u16 + 256 * (buf[i + 1] as u16)
}

fn copy_range(buf: &[u8], lo: usize, hi: usize) -> (r: Vec<u8>)
    requires
        lo <= hi <= buf@.len(),
    ensures
        r@ == buf@.subrange(lo as int, hi as int),
{
    let mut r: Vec<u8> = Vec::new();
    let mut i: usize = lo;
    while i < hi
        invariant
            lo <= i <= hi,
            hi <= buf@.len(),
            r@ == buf@.subrange(lo as int, i as int),
        decreases hi - i,
    {
        r.push(buf[i]);
        assert(r@ =~= buf@.subrange(lo as int, i + 1));
        i = i + 1;
    }
    r
}

fn decode_param(buf: &[u8], lo: usize, hi: usize) -> (r: Result<(u16, Vec<u8>), DecodeError>)
    requires
        lo <= hi <= buf@.len(),
    ensures
        match (r, parse_param(buf@.subrange(lo as int, hi as int))) {
            (Ok((reg, v)), Ok((sreg, sv))) => reg == sreg && v@ == sv,
            (Err(e), Err(se)) => e == se,
            _ => false,
        },
{
    let ghost body = buf@.subrange(lo as int, hi as int);
    if hi - lo < 4 {
        return Err(DecodeError::MalformedFrame);
    }
    let count = read_u16(buf, lo + 2);
    assert(count == u16_at(body, 2));
    if hi - lo != 4 + count as usize {
        return Err(DecodeError::MalformedFrame);
    }
    let register = read_u16(buf, lo);
    assert(register == u16_at(body, 0));
    let values = copy_range(buf, lo + 4, hi);
    assert(values@ =~= body.subrange(4, body.len() as int));
    Ok((register, values))
}

fn decode_translated(buf: &[u8], lo: usize, hi: usize, datalog: Serial) -> (r: Result<
    Packet,
    DecodeError,
>)
    requires
        lo <= hi <= buf@.len(),
    ensures
        match (r, parse_translated(datalog@, buf@.subrange(lo as int, hi as int))) {
            (Ok(p), Ok(m)) => p@ == m,
            (Err(e), Err(se)) => e == se,
            _ => false,
        },
{
    let ghost body = buf@.subrange(lo as int, hi as int);
    if hi - lo < 18 {
        return Err(DecodeError::MalformedFrame);
    }
    let inner_len = read_u16(buf, lo);
    assert(inner_len == u16_at(body, 0));
    if inner_len as usize != hi - lo - 4 {
        return Err(DecodeError::MalformedFrame);
    }
    let crc = checksum(buf, lo + 2, hi - 2);
    assert(buf@.subrange(lo + 2, hi - 2) =~= body.subrange(2, body.len() - 2));
    let stored = read_u16(buf, hi - 2);
    assert(stored == u16_at(body, body.len() - 2));
    if crc != stored {
        return Err(DecodeError::ChecksumError);
    }
    let code = buf[lo + 3];
    assert(code == body[3]);
    match DeviceFunction::from_code(code) {
        None => Err(DecodeError::UnknownFunction(code)),
        Some(device_function) => {
            let inverter = Serial::from_bytes_at(buf, lo + 4);
            assert(inverter@ =~= body.subrange(4, 14));
            let register = read_u16(buf, lo + 14);
            assert(register == u16_at(body, 14));
            let values = copy_range(buf, lo + 16, hi - 2);
            assert(values@ =~= body.subrange(16, body.len() - 2));
            Ok(
                Packet::TranslatedData(
                    TranslatedData { datalog, inverter, device_function, register, values },
                ),
            )
        },
    }
}

fn decode_frame(buf: &[u8], n: usize) -> (r: Result<Packet, DecodeError>)
    requires
        HEADER_LEN <= n <= buf@.len(),
    ensures
        match (r, parse_frame(buf@.subrange(0, n as int))) {
            (Ok(p), Ok(m)) => p@ == m,
            (Err(e), Err(se)) => e == se,
            _ => false,
        },
{
    let ghost f = buf@.subrange(0, n as int);
    let code = buf[7];
    assert(code == f[7]);
    let datalog = Serial::from_bytes_at(buf, 8);
    assert(datalog@ =~= f.subrange(8, 18));
    assert(buf@.subrange(18, n as int) =~= f.subrange(18, f.len() as int));
    match TcpFunction::from_code(code) {
        None => Err(DecodeError::UnknownFunction(code)),
        Some(TcpFunction::Heartbeat) => Ok(Packet::Heartbeat(Heartbeat { datalog })),
        Some(TcpFunction::TranslatedData) => decode_translated(buf, HEADER_LEN, n, datalog),
        Some(TcpFunction::ReadParam) => match decode_param(buf, HEADER_LEN, n) {
            Ok((register, values)) => Ok(Packet::ReadParam(Param { datalog, register, values })),
            Err(e) => Err(e),
        },
        Some(TcpFunction::WriteParam) => match decode_param(buf, HEADER_LEN, n) {
            Ok((register, values)) => Ok(Packet::WriteParam(Param { datalog, register, values })),
            Err(e) => Err(e),
        },
    }
}

/// Decodes the frame at the front of `buf` without consuming anything: a partial frame
/// yields `NeedMore`, a whole one the packet and its length.
pub fn decode(buf: &[u8]) -> (r: Decoded)
    ensures
        r@ == decode_spec(buf@),
{
    if buf.len() < 6 {
        return Decoded::NeedMore;
    }
    if buf[0] != PREAMBLE_0 || buf[1] != PREAMBLE_1 {
        return Decoded::Error(DecodeError::MalformedFrame);
    }
    let n = 6 + read_u16(buf, 4) as usize;
    if n < HEADER_LEN || n > MAX_FRAME_LEN {
        return Decoded::Error(DecodeError::MalformedFrame);
    }
    if buf.len() < n {
        return Decoded::NeedMore;
    }
    match decode_frame(buf, n) {
        Ok(p) => Decoded::Frame(p, n),
        Err(e) => Decoded::Error(e),
    }
}

// ---------------------------------------------------------------- laws
/// A TranslatedData frame carries a checksum that matches its inner envelope.
pub open spec fn checksum_valid(f: Seq<u8>) -> bool {
    f.len() >= 8 && tcp_function_of(f[7]) == Some(TcpFunction::TranslatedData) ==> f.len() >= 22
        && crc16(f.subrange(20, f.len() - 2)) == u16_at(f, f.len() - 2)
}

proof fn lemma_le16(v: u16)
    ensures
        u16_at(le16(v), 0) == v,
{
}

proof fn lemma_u16_at_concat(a: Seq<u8>, v: u16, b: Seq<u8>)
    ensures
        u16_at(a + le16(v) + b, a.len() as int) == v,
{
    lemma_le16(v);
    let s = a + le16(v) + b;
    assert(s[a.len() as int] == le16(v)[0]);
    assert(s[a.len() as int + 1] == le16(v)[1]);
}

proof fn lemma_translated_round_trip(
    datalog: Seq<u8>,
    inverter: Seq<u8>,
    function: DeviceFunction,
    register: u16,
    values: Seq<u8>,
)
    requires
        inverter.len() == 10,
        values.len() <= MAX_VALUES,
    ensures
        parse_translated(datalog, translated_payload(inverter, function, register, values)) == Ok::<
            PacketModel,
            DecodeError,
        >(PacketModel::TranslatedData { datalog, inverter, function, register, values }),
{
    let inner = inner_body(inverter, function, register, values);
    let body = translated_payload(inverter, function, register, values);
    let head = seq![0u8, device_function_code(function)] + inverter;
    assert(inner =~= head + le16(register) + values);
    lemma_u16_at_concat(Seq::empty(), inner.len() as u16, inner + le16(crc16(inner)));
    assert(body =~= Seq::empty() + le16(inner.len() as u16) + (inner + le16(crc16(inner))));
    lemma_u16_at_concat(le16(inner.len() as u16) + inner, crc16(inner), Seq::empty());
    assert(body =~= le16(inner.len() as u16) + inner + le16(crc16(inner)) + Seq::empty());
    assert(body.subrange(2, body.len() - 2) =~= inner);
    assert(body[3] == device_function_code(function));
    assert(body.subrange(4, 14) =~= inverter);
    lemma_u16_at_concat(le16(inner.len() as u16) + head, register, values + le16(crc16(inner)));
    assert(body =~= le16(inner.len() as u16) + head + le16(register) + (values + le16(
        crc16(inner),
    )));
    assert(body.subrange(16, body.len() - 2) =~= values);
}

proof fn lemma_param_round_trip(register: u16, values: Seq<u8>)
    requires
        values.len() <= MAX_VALUES,
    ensures
        parse_param(param_payload(register, values)) == Ok::<(u16, Seq<u8>), DecodeError>(
            (register, values),
        ),
{
    let body = param_payload(register, values);
    lemma_u16_at_concat(Seq::empty(), register, le16(values.len() as u16) + values);
    assert(body =~= Seq::empty() + le16(register) + (le16(values.len() as u16) + values));
    lemma_u16_at_concat(le16(register), values.len() as u16, values);
    assert(body.subrange(4, body.len() as int) =~= values);
}

proof fn lemma_frame_layout(m: PacketModel)
    requires
        encodable(m),
    ensures
        ({
            let e = encode_spec(m);
            let p = payload_of(m);
            &&& e.len() == 18 + p.len()
            &&& 18 <= e.len() <= MAX_FRAME_LEN
            &&& e[0] == PREAMBLE_0
            &&& e[1] == PREAMBLE_1
            &&& advertised_len(e) == e.len()
            &&& e.subrange(0, e.len() as int) == e
            &&& e.subrange(8, 18) == model_datalog(m)
            &&& e.subrange(18, e.len() as int) == p
            &&& e[7] == tcp_function_code(crate::packet::model_tcp_function(m))
        }),
{
    let f = crate::packet::model_tcp_function(m);
    let p = payload_of(m);
    let e = encode_spec(m);
    let d = model_datalog(m);
    let pre = seq![PREAMBLE_0, PREAMBLE_1] + le16(protocol_of(f));
    let len = (12 + p.len()) as u16;
    let post = seq![1u8, tcp_function_code(f)] + d + p;
    assert(e =~= pre + le16(len) + post);
    lemma_u16_at_concat(pre, len, post);
    assert(p.len() <= 1000) by {
        match m {
            PacketModel::TranslatedData { inverter, function, register, values, .. } => {
                assert(inner_body(inverter, function, register, values).len() == 14
                    + values.len());
            },
            _ => {},
        }
    }
    assert(e.subrange(0, e.len() as int) =~= e);
    assert(e.subrange(8, 18) =~= d);
    assert(e.subrange(18, e.len() as int) =~= p);
}

proof fn lemma_tail(e: Seq<u8>, p: Seq<u8>)
    requires
        e.len() == 18 + p.len(),
        p.len() >= 4,
        e.subrange(18, e.len() as int) == p,
    ensures
        e.subrange(20, e.len() - 2) == p.subrange(2, p.len() - 2),
        u16_at(e, e.len() - 2) == u16_at(p, p.len() - 2),
{
    assert(e.subrange(20, e.len() - 2) =~= p.subrange(2, p.len() - 2)) by {
        assert forall|k: int| 0 <= k < p.len() - 4 implies #[trigger] e[20 + k] == p[2 + k] by {
            assert(e.subrange(18, e.len() as int)[2 + k] == e[20 + k]);
        }
    }
    assert(e.subrange(18, e.len() as int)[p.len() - 2] == e[e.len() - 2]);
    assert(e.subrange(18, e.len() as int)[p.len() - 1] == e[e.len() - 1]);
}

/// Decoding the frame of an encodable packet gives back the packet, consuming the whole
/// frame, and the frame's checksum is valid.
pub proof fn lemma_round_trip(m: PacketModel)
    requires
        encodable(m),
    ensures
        decode_spec(encode_spec(m)) == DecodedModel::Frame(m, encode_spec(m).len()),
        checksum_valid(encode_spec(m)),
{
    let e = encode_spec(m);
    let p = payload_of(m);
    lemma_frame_layout(m);
    match m {
        PacketModel::Heartbeat { .. } => {},
        PacketModel::TranslatedData { datalog, inverter, function, register, values } => {
            lemma_translated_round_trip(datalog, inverter, function, register, values);
            lemma_tail(e, p);
        },
        PacketModel::ReadParam { register, values, .. } => {
            lemma_param_round_trip(register, values);
        },
        PacketModel::WriteParam { register, values, .. } => {
            lemma_param_round_trip(register, values);
        },
    }
}

/// Decoding reads nothing past the advertised frame length: once a frame decodes, any
/// buffer that starts with the same frame bytes decodes the same way; and a buffer that
/// holds a well-formed header but fewer bytes than it advertises asks for more.
pub proof fn lemma_decode_reads_only_frame(s: Seq<u8>, t: Seq<u8>)
    ensures
        (decode_spec(s) matches DecodedModel::Frame(_, n) && n <= t.len() && t.subrange(0, n as int)
            == s.subrange(0, n as int)) ==> decode_spec(t) == decode_spec(s),
        (s.len() >= 6 && s[0] == PREAMBLE_0 && s[1] == PREAMBLE_1 && HEADER_LEN <= advertised_len(
            s,
        ) <= MAX_FRAME_LEN && s.len() < advertised_len(s)) ==> decode_spec(s)
            == DecodedModel::NeedMore,
{
    if let DecodedModel::Frame(_, n) = decode_spec(s) {
        if n <= t.len() && t.subrange(0, n as int) == s.subrange(0, n as int) {
            assert(s[0] == s.subrange(0, n as int)[0]);
            assert(t[0] == t.subrange(0, n as int)[0]);
            assert(s[1] == s.subrange(0, n as int)[1]);
            assert(t[1] == t.subrange(0, n as int)[1]);
            assert(s[4] == s.subrange(0, n as int)[4]);
            assert(t[4] == t.subrange(0, n as int)[4]);
            assert(s[5] == s.subrange(0, n as int)[5]);
            assert(t[5] == t.subrange(0, n as int)[5]);
            assert(advertised_len(t) == advertised_len(s));
        }
    }
}

/// A frame may start at `i`: the preamble is there, or its first byte ends the buffer.
pub open spec fn may_start_frame(s: Seq<u8>, i: int) -> bool {
    s[i] == PREAMBLE_0 && (i + 1 == s.len() || s[i + 1] == PREAMBLE_1)
}

/// Where to resume after a malformed frame: the first position after `from` where a frame
/// may start, or the end of the buffer.
pub fn resync_point(buf: &[u8], from: usize) -> (r: usize)
    requires
        from < buf@.len(),
    ensures
        from < r <= buf@.len(),
        r < buf@.len() ==> may_start_frame(buf@, r as int),
        forall|i: int| from < i < r ==> !may_start_frame(buf@, i),
{
    let n = buf.len();
    let mut i: usize = from + 1;
    while i < n
        invariant
            n == buf@.len(),
            from < i <= n,
            forall|j: int| from < j < i ==> !may_start_frame(buf@, j),
        decreases n - i,
    {
        if buf[i] == PREAMBLE_0 && (i + 1 == n || buf[i + 1] == PREAMBLE_1) {
            return i;
        }
        i = i + 1;
    }
    n
}

/// The packets decoded one after another from the front of `s`, the bytes they occupy,
/// and the error that stopped decoding, if one did (a partial frame stops it quietly).
pub open spec fn stream_spec(s: Seq<u8>) -> (Seq<PacketModel>, nat, Option<DecodeError>)
    decreases s.len(),
{
    match decode_spec(s) {
        DecodedModel::NeedMore => (Seq::empty(), 0, None),
        DecodedModel::Error(e) => (Seq::empty(), 0, Some(e)),
        DecodedModel::Frame(p, n) => if 0 < n <= s.len() {
            let rest = stream_spec(s.subrange(n as int, s.len() as int));
            (seq![p] + rest.0, n + rest.1, rest.2)
        } else {
            (Seq::empty(), 0, None)
        },
    }
}

proof fn lemma_frame_len(s: Seq<u8>)
    ensures
        decode_spec(s) matches DecodedModel::Frame(_, n) ==> HEADER_LEN <= n <= s.len(),
{
}

/// Decodes every whole frame at the front of `buf`: the packets, the number of bytes
/// they occupy, and the error that stopped decoding, if any.
pub fn decode_stream(buf: &[u8]) -> (r: (Vec<Packet>, usize, Option<DecodeError>))
    ensures
        r.0@.map_values(|p: Packet| p@) == stream_spec(buf@).0,
        r.1 as nat == stream_spec(buf@).1,
        r.2 == stream_spec(buf@).2,
{
    let mut packets: Vec<Packet> = Vec::new();
    let mut off: usize = 0;
    let n = buf.len();
    assert(buf@.subrange(0, n as int) =~= buf@);
    loop
        invariant
            n == buf@.len(),
            off <= n,
            packets@.map_values(|p: Packet| p@) + stream_spec(buf@.subrange(off as int, n as int)).0
                == stream_spec(buf@).0,
            off + stream_spec(buf@.subrange(off as int, n as int)).1 == stream_spec(buf@).1,
            stream_spec(buf@.subrange(off as int, n as int)).2 == stream_spec(buf@).2,
        decreases n - off,
    {
        let rest = slice_subrange(buf, off, n);
        let ghost rs = buf@.subrange(off as int, n as int);
        assert(rest@ == rs);
        proof {
            lemma_frame_len(rs);
        }
        match decode(rest) {
            Decoded::NeedMore => {
                assert(packets@.map_values(|p: Packet| p@) + Seq::<PacketModel>::empty() =~= packets@.map_values(|p: Packet| p@));
                return (packets, off, None);
            },
            Decoded::Error(e) => {
                assert(packets@.map_values(|p: Packet| p@) + Seq::<PacketModel>::empty() =~= packets@.map_values(|p: Packet| p@));
                return (packets, off, Some(e));
            },
            Decoded::Frame(p, k) => {
                let ghost before = packets@.map_values(|p: Packet| p@);
                let ghost pv = p@;
                let ghost next = buf@.subrange((off + k) as int, n as int);
                assert(rs.subrange(k as int, rs.len() as int) =~= next);
                packets.push(p);
                assert(packets@.map_values(|p: Packet| p@) =~= before.push(pv));
                assert(before.push(pv) + stream_spec(next).0 =~= before + (seq![pv] + stream_spec(next).0));
                off = off + k;
            },
        }
    }
}

} // verus!
