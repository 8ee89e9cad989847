use vstd::prelude::*;

use crate::config::{opt_or, Inverter, DEFAULT_BLOCK_SIZE};
use crate::packet::{
    copy_bytes, le16, u16_at, DeviceFunction, Packet, PacketModel, Param, TranslatedData,
};
use crate::serial::Serial;
use crate::text::{decimal, push_bytes_text, push_decimal, push_str, serial_text};

verus! {

/// Register holding the AC-charge, charge-priority and forced-discharge enable bits.
pub const REGISTER_21: u16 = 21;

pub const AC_CHARGE_ENABLE: u16 = 0x0001;

pub const CHARGE_PRIORITY_ENABLE: u16 = 0x0002;

pub const FORCED_DISCHARGE_ENABLE: u16 = 0x0004;

pub const CHARGE_POWER_PERCENT: u16 = 64;

pub const DISCHARGE_POWER_PERCENT: u16 = 65;

pub const AC_CHARGE_POWER: u16 = 66;

pub const AC_CHARGE_SOC_LIMIT: u16 = 67;

pub const DISCHARGE_CUTOFF_SOC: u16 = 105;

/// Registers per input page.
pub const INPUT_PAGE_SIZE: u16 = 40;

/// Why a command failed.
#[derive(Clone, Copy, Debug, PartialEq, Eq, Structural)]
pub enum CommandError {
    /// The inverter is configured read-only and the command writes.
    ReadOnly,
    /// A holding-register read that does not lie within one known block.
    InvalidRange,
    /// A time slot outside 1..=3 or an input page outside 1..=6.
    UnsupportedCommand,
    /// A write whose reply echoes other values than were sent.
    WriteMismatch,
    /// The inverter's datalog serial is not configured.
    MissingDatalog,
    /// The inverter's own serial is not configured.
    MissingSerial,
    /// A reply that does not carry what the exchange needs.
    UnexpectedReply,
    /// The inverter answered with a Modbus exception of this code.
    ModbusException(u8),
    Timeout,
    DuplicateInFlight,
    ChannelClosed,
}

/// A time-slot group and slot number.
#[derive(Clone, Copy, Debug, PartialEq, Eq, Structural)]
pub enum Action {
    AcCharge(u16),
    AcFirst(u16),
    ChargePriority(u16),
    ForcedDischarge(u16),
}

pub open spec fn slot_base(a: Action) -> int {
    match a {
        Action::AcCharge(_) => 68,
        Action::AcFirst(_) => 152,
        Action::ChargePriority(_) => 76,
        Action::ForcedDischarge(_) => 84,
    }
}

pub open spec fn slot_number(a: Action) -> u16 {
    match a {
        Action::AcCharge(n) => n,
        Action::AcFirst(n) => n,
        Action::ChargePriority(n) => n,
        Action::ForcedDischarge(n) => n,
    }
}

/// The first of the two registers (start, end) of a time slot, for slots 1 to 3.
pub open spec fn slot_register(a: Action) -> Option<u16> {
    if 1 <= slot_number(a) <= 3 {
        Some((slot_base(a) + 2 * (slot_number(a) - 1)) as u16)
    } else {
        None
    }
}

impl Action {
    /// The first register of the slot, or `UnsupportedCommand` for a slot outside 1 to 3.
    pub fn register(&self) -> (r: Result<u16, CommandError>)
        ensures
            match slot_register(*self) {
                Some(reg) => r == Ok::<u16, CommandError>(reg),
                None => r == Err::<u16, CommandError>(CommandError::UnsupportedCommand),
            },
    {
        let (base, n): (u16, u16) = match self {
            Action::AcCharge(n) => (68, *n),
            Action::AcFirst(n) => (152, *n),
            Action::ChargePriority(n) => (76, *n),
            Action::ForcedDischarge(n) => (84, *n),
        };
        if 1 <= n && n <= 3 {
            Ok(base + 2 * (n - 1))
        } else {
            Err(CommandError::UnsupportedCommand)
        }
    }
}

/// `[start, start + count)` lies within `[lo, hi]`.
pub open spec fn within(start: int, count: int, lo: int, hi: int) -> bool {
    lo <= start && start + count - 1 <= hi
}

/// A holding-register read that lies entirely within one known block.
pub open spec fn valid_hold_read(start: u16, count: u16) -> bool {
    let (s, c) = (start as int, count as int);
    c >= 1 && (within(s, c, 0, 24) || within(s, c, 25, 28) || within(s, c, 29, 53) || within(
        s,
        c,
        54,
        63,
    ) || within(s, c, 64, 67) || within(s, c, 160, 161) || within(s, c, 162, 169) || within(
        s,
        c,
        170,
        175,
    ))
}

fn within_exec(start: u32, count: u32, lo: u32, hi: u32) -> (r: bool)
    requires
        start < 65536,
        count < 65536,
        hi < 65536,
    ensures
        r == within(start as int, count as int, lo as int, hi as int),
{
    lo <= start && start + count <= hi + 1
}

/// Whether a holding-register read of `count` registers from `start` lies within one
/// known block.
pub fn is_valid_hold_read(start: u16, count: u16) -> (r: bool)
    ensures
        r == valid_hold_read(start, count),
{
    let s = start as u32;
    let c = count as u32;
    c >= 1 && (within_exec(s, c, 0, 24) || within_exec(s, c, 25, 28) || within_exec(s, c, 29, 53)
        || within_exec(s, c, 54, 63) || within_exec(s, c, 64, 67) || within_exec(s, c, 160, 161)
        || within_exec(s, c, 162, 169) || within_exec(s, c, 170, 175))
}

/// The new value of a register after setting (`enable`) or clearing `bit`.
pub open spec fn apply_bit(value: u16, bit: u16, enable: bool) -> u16 {
    if enable {
        value | bit
    } else {
        value & !bit
    }
}

pub fn update_bit(value: u16, bit: u16, enable: bool) -> (r: u16)
    ensures
        r == apply_bit(value, bit, enable),
{
    if enable {
        value | bit
    } else {
        value & !bit
    }
}

/// A high-level command against one inverter.
#[derive(Clone, Debug)]
pub enum Command {
    ReadInputs(Inverter, u16),
    ReadInput(Inverter, u16, u16),
    ReadHold(Inverter, u16, u16),
    ReadParam(Inverter, u16),
    ReadAcChargeTime(Inverter, u16),
    ReadAcFirstTime(Inverter, u16),
    ReadChargePriorityTime(Inverter, u16),
    ReadForcedDischargeTime(Inverter, u16),
    SetHold(Inverter, u16, u16),
    WriteParam(Inverter, u16, u16),
    SetAcChargeTime(Inverter, u16, [u8; 4]),
    SetAcFirstTime(Inverter, u16, [u8; 4]),
    SetChargePriorityTime(Inverter, u16, [u8; 4]),
    SetForcedDischargeTime(Inverter, u16, [u8; 4]),
    AcCharge(Inverter, bool),
    ChargePriority(Inverter, bool),
    ForcedDischarge(Inverter, bool),
    ChargeRate(Inverter, u16),
    DischargeRate(Inverter, u16),
    AcChargeRate(Inverter, u16),
    AcChargeSocLimit(Inverter, u16),
    DischargeCutoffSocLimit(Inverter, u16),
}

pub open spec fn command_inverter(c: Command) -> Inverter {
    match c {
        Command::ReadInputs(i, _) => i,
        Command::ReadInput(i, _, _) => i,
        Command::ReadHold(i, _, _) => i,
        Command::ReadParam(i, _) => i,
        Command::ReadAcChargeTime(i, _) => i,
        Command::ReadAcFirstTime(i, _) => i,
        Command::ReadChargePriorityTime(i, _) => i,
        Command::ReadForcedDischargeTime(i, _) => i,
        Command::SetHold(i, _, _) => i,
        Command::WriteParam(i, _, _) => i,
        Command::SetAcChargeTime(i, _, _) => i,
        Command::SetAcFirstTime(i, _, _) => i,
        Command::SetChargePriorityTime(i, _, _) => i,
        Command::SetForcedDischargeTime(i, _, _) => i,
        Command::AcCharge(i, _) => i,
        Command::ChargePriority(i, _) => i,
        Command::ForcedDischarge(i, _) => i,
        Command::ChargeRate(i, _) => i,
        Command::DischargeRate(i, _) => i,
        Command::AcChargeRate(i, _) => i,
        Command::AcChargeSocLimit(i, _) => i,
        Command::DischargeCutoffSocLimit(i, _) => i,
    }
}

/// Commands that change inverter state.
pub open spec fn is_write(c: Command) -> bool {
    match c {
        Command::ReadInputs(..) | Command::ReadInput(..) | Command::ReadHold(..)
        | Command::ReadParam(..) | Command::ReadAcChargeTime(..) | Command::ReadAcFirstTime(..)
        | Command::ReadChargePriorityTime(..) | Command::ReadForcedDischargeTime(..) => false,
        _ => true,
    }
}

/// What a finished command hands back.
pub enum CompletionModel {
    Done,
    /// The four bytes (start hour, start minute, end hour, end minute) of a time slot.
    TimeSlot(Seq<u8>),
}

/// The exchanges a command is made of.
pub enum Plan {
    /// One request; any matched reply completes it.
    Read(PacketModel),
    /// One time-slot read; the reply carries the slot.
    ReadSlot(PacketModel),
    /// Single-register writes, one after the other; each reply must echo the values sent.
    Writes(Seq<PacketModel>, CompletionModel),
    /// A param write; any matched reply completes it.
    ParamWrite(PacketModel),
    /// Read one register, then write it back with `bit` set or cleared.
    UpdateBit { read: PacketModel, register: u16, bit: u16, enable: bool },
}

pub open spec fn td_model(inv: Inverter, f: DeviceFunction, register: u16, values: Seq<u8>) -> PacketModel {
    PacketModel::TranslatedData {
        datalog: inv.datalog->Some_0@,
        inverter: inv.serial->Some_0@,
        function: f,
        register,
        values,
    }
}

pub open spec fn slot_plan(inv: Inverter, a: Action) -> Plan {
    Plan::ReadSlot(td_model(inv, DeviceFunction::ReadHold, slot_register(a)->Some_0, le16(2)))
}

pub open spec fn set_slot_plan(inv: Inverter, a: Action, v: [u8; 4]) -> Plan {
    let reg = slot_register(a)->Some_0;
    Plan::Writes(
        seq![
            td_model(inv, DeviceFunction::WriteSingle, reg, v@.subrange(0, 2)),
            td_model(inv, DeviceFunction::WriteSingle, (reg + 1) as u16, v@.subrange(2, 4)),
        ],
        CompletionModel::TimeSlot(v@),
    )
}

pub open spec fn set_hold_plan(inv: Inverter, register: u16, value: u16) -> Plan {
    Plan::Writes(
        seq![td_model(inv, DeviceFunction::WriteSingle, register, le16(value))],
        CompletionModel::Done,
    )
}

pub open spec fn update_plan(inv: Inverter, bit: u16, enable: bool) -> Plan {
    Plan::UpdateBit {
        read: td_model(inv, DeviceFunction::ReadHold, REGISTER_21, le16(1)),
        register: REGISTER_21,
        bit,
        enable,
    }
}

/// Why a command is refused by its own arguments, before the inverter's identity matters.
pub open spec fn argument_error(c: Command) -> Option<CommandError> {
    match c {
        Command::ReadInputs(_, page) => if 1 <= page <= 6 {
            None
        } else {
            Some(CommandError::UnsupportedCommand)
        },
        Command::ReadHold(_, reg, n) => if valid_hold_read(reg, n) {
            None
        } else {
            Some(CommandError::InvalidRange)
        },
        Command::ReadAcChargeTime(_, n) | Command::ReadAcFirstTime(_, n)
        | Command::ReadChargePriorityTime(_, n) | Command::ReadForcedDischargeTime(_, n)
        | Command::SetAcChargeTime(_, n, _) | Command::SetAcFirstTime(_, n, _)
        | Command::SetChargePriorityTime(_, n, _) | Command::SetForcedDischargeTime(_, n, _) =>
            if 1 <= n <= 3 {
            None
        } else {
            Some(CommandError::UnsupportedCommand)
        },
        _ => None,
    }
}

/// The exchanges of a command whose arguments and inverter are in order.
pub open spec fn plan_body(c: Command) -> Plan {
    let inv = command_inverter(c);
    match c {
        Command::ReadInputs(_, page) => Plan::Read(
            td_model(
                inv,
                DeviceFunction::ReadInput,
                ((page - 1) * 40) as u16,
                le16(opt_or(inv.register_block_size, DEFAULT_BLOCK_SIZE)),
            ),
        ),
        Command::ReadInput(_, reg, n) => Plan::Read(
            td_model(inv, DeviceFunction::ReadInput, reg, le16(n)),
        ),
        Command::ReadHold(_, reg, n) => Plan::Read(
            td_model(inv, DeviceFunction::ReadHold, reg, le16(n)),
        ),
        Command::ReadParam(_, reg) => Plan::Read(
            PacketModel::ReadParam {
                datalog: inv.datalog->Some_0@,
                register: reg,
                values: Seq::empty(),
            },
        ),
        Command::ReadAcChargeTime(_, n) => slot_plan(inv, Action::AcCharge(n)),
        Command::ReadAcFirstTime(_, n) => slot_plan(inv, Action::AcFirst(n)),
        Command::ReadChargePriorityTime(_, n) => slot_plan(inv, Action::ChargePriority(n)),
        Command::ReadForcedDischargeTime(_, n) => slot_plan(inv, Action::ForcedDischarge(n)),
        Command::SetHold(_, reg, v) => set_hold_plan(inv, reg, v),
        Command::WriteParam(_, reg, v) => Plan::ParamWrite(
            PacketModel::WriteParam { datalog: inv.datalog->Some_0@, register: reg, values: le16(v) },
        ),
        Command::SetAcChargeTime(_, n, v) => set_slot_plan(inv, Action::AcCharge(n), v),
        Command::SetAcFirstTime(_, n, v) => set_slot_plan(inv, Action::AcFirst(n), v),
        Command::SetChargePriorityTime(_, n, v) => set_slot_plan(inv, Action::ChargePriority(n), v),
        Command::SetForcedDischargeTime(_, n, v) => set_slot_plan(
            inv,
            Action::ForcedDischarge(n),
            v,
        ),
        Command::AcCharge(_, e) => update_plan(inv, AC_CHARGE_ENABLE, e),
        Command::ChargePriority(_, e) => update_plan(inv, CHARGE_PRIORITY_ENABLE, e),
        Command::ForcedDischarge(_, e) => update_plan(inv, FORCED_DISCHARGE_ENABLE, e),
        Command::ChargeRate(_, v) => set_hold_plan(inv, CHARGE_POWER_PERCENT, v),
        Command::DischargeRate(_, v) => set_hold_plan(inv, DISCHARGE_POWER_PERCENT, v),
        Command::AcChargeRate(_, v) => set_hold_plan(inv, AC_CHARGE_POWER, v),
        Command::AcChargeSocLimit(_, v) => set_hold_plan(inv, AC_CHARGE_SOC_LIMIT, v),
        Command::DischargeCutoffSocLimit(_, v) => set_hold_plan(inv, DISCHARGE_CUTOFF_SOC, v),
    }
}

/// The exchanges a command asks for, or why it is refused before any is made: a write to a
/// read-only inverter, then bad arguments, then a missing datalog or serial.
pub open spec fn plan_of(c: Command) -> Result<Plan, CommandError> {
    let inv = command_inverter(c);
    if is_write(c) && opt_or(inv.read_only, false) {
        Err(CommandError::ReadOnly)
    } else if argument_error(c) is Some {
        Err(argument_error(c)->Some_0)
    } else if inv.datalog is None {
        Err(CommandError::MissingDatalog)
    } else if inv.serial is None {
        Err(CommandError::MissingSerial)
    } else {
        Ok(plan_body(c))
    }
}

pub open spec fn first_packet(p: Plan) -> PacketModel {
    match p {
        Plan::Read(q) => q,
        Plan::ReadSlot(q) => q,
        Plan::Writes(s, _) => s[0],
        Plan::ParamWrite(q) => q,
        Plan::UpdateBit { read, .. } => read,
    }
}

/// Number of requests a plan sends when every reply is as expected.
pub open spec fn plan_len(p: Plan) -> nat {
    match p {
        Plan::Writes(s, _) => s.len(),
        Plan::UpdateBit { .. } => 2,
        _ => 1,
    }
}

/// One decision of a running command.
pub enum StepModel {
    Send(PacketModel),
    Finished(CompletionModel),
    Failed(CommandError),
}

pub open spec fn values_of(m: PacketModel) -> Seq<u8> {
    match m {
        PacketModel::Heartbeat { .. } => Seq::empty(),
        PacketModel::TranslatedData { values, .. } => values,
        PacketModel::ReadParam { values, .. } => values,
        PacketModel::WriteParam { values, .. } => values,
    }
}

/// The reply is a TranslatedData that echoes the values that were sent.
pub open spec fn echoes(sent: PacketModel, reply: PacketModel) -> bool {
    reply is TranslatedData && values_of(reply) == values_of(sent)
}

/// What a command does on the reply to its request number `stage` (from 1), `sent`
/// being that request.
pub open spec fn next_step(c: Command, stage: nat, sent: PacketModel, reply: PacketModel) -> StepModel {
    if plan_of(c) is Ok && reply is TranslatedData && is_exception(values_of(reply)) {
        StepModel::Failed(CommandError::ModbusException((values_of(reply)[0] - 0x80) as u8))
    } else {
        next_regular_step(c, stage, sent, reply)
    }
}

/// A Modbus exception reply: the first value byte has its high bit set, the rest of it
/// being the error code.
pub open spec fn is_exception(values: Seq<u8>) -> bool {
    values.len() >= 1 && values[0] >= 0x80
}

/// What a command does on a reply that is not a Modbus exception.
pub open spec fn next_regular_step(c: Command, stage: nat, sent: PacketModel, reply: PacketModel) -> StepModel {
    match plan_of(c) {
        Err(e) => StepModel::Failed(e),
        Ok(Plan::Read(_)) => StepModel::Finished(CompletionModel::Done),
        Ok(Plan::ParamWrite(_)) => StepModel::Finished(CompletionModel::Done),
        Ok(Plan::ReadSlot(_)) => if reply is TranslatedData && values_of(reply).len() >= 4 {
            StepModel::Finished(CompletionModel::TimeSlot(values_of(reply).subrange(0, 4)))
        } else {
            StepModel::Failed(CommandError::UnexpectedReply)
        },
        Ok(Plan::Writes(s, done)) => if !echoes(sent, reply) {
            StepModel::Failed(CommandError::WriteMismatch)
        } else if stage < s.len() {
            StepModel::Send(s[stage as int])
        } else {
            StepModel::Finished(done)
        },
        Ok(Plan::UpdateBit { register, bit, enable, .. }) => if stage == 1 {
            if reply is TranslatedData && values_of(reply).len() >= 2 {
                StepModel::Send(
                    td_model(
                        command_inverter(c),
                        DeviceFunction::WriteSingle,
                        register,
                        le16(apply_bit(u16_at(values_of(reply), 0), bit, enable)),
                    ),
                )
            } else {
                StepModel::Failed(CommandError::UnexpectedReply)
            }
        } else if echoes(sent, reply) {
            StepModel::Finished(CompletionModel::Done)
        } else {
            StepModel::Failed(CommandError::WriteMismatch)
        },
    }
}

/// A write to a read-only inverter is refused before any request is made.
pub proof fn lemma_read_only_refuses_writes(c: Command)
    requires
        is_write(c),
        opt_or(command_inverter(c).read_only, false),
    ensures
        plan_of(c) == Err::<Plan, CommandError>(CommandError::ReadOnly),
{
}

/// A holding-register read outside every known block is refused before any request.
pub proof fn lemma_hold_read_outside_blocks(inv: Inverter, start: u16, count: u16)
    requires
        !valid_hold_read(start, count),
    ensures
        plan_of(Command::ReadHold(inv, start, count)) == Err::<Plan, CommandError>(
            CommandError::InvalidRange,
        ),
{
}

/// What a finished command hands back.
#[derive(Debug, PartialEq, Eq)]
pub enum Completion {
    Done,
    TimeSlot(Vec<u8>),
}

impl View for Completion {
    type V = CompletionModel;

    open spec fn view(&self) -> CompletionModel {
        match self {
            Completion::Done => CompletionModel::Done,
            Completion::TimeSlot(v) => CompletionModel::TimeSlot(v@),
        }
    }
}

/// One decision of a running command: send a request, or stop.
#[derive(Debug, PartialEq, Eq)]
pub enum Step {
    Send(Packet),
    Finished(Completion),
    Failed(CommandError),
}

impl View for Step {
    type V = StepModel;

    open spec fn view(&self) -> StepModel {
        match self {
            Step::Send(p) => StepModel::Send(p@),
            Step::Finished(c) => StepModel::Finished(c@),
            Step::Failed(e) => StepModel::Failed(*e),
        }
    }
}

/// Bytes equality of two blobs.
pub fn same_bytes(a: &Vec<u8>, b: &Vec<u8>) -> (r: bool)
    ensures
        r == (a@ == b@),
{
    if a.len() != b.len() {
        return false;
    }
    let mut i: usize = 0;
    while i < a.len()
        invariant
            a@.len() == b@.len(),
            i <= a@.len(),
            forall|j: int| 0 <= j < i ==> a@[j] == b@[j],
        decreases a@.len() - i,
    {
        if a[i] != b[i] {
            return false;
        }
        i = i + 1;
    }
    assert(a@ =~= b@);
    true
}

fn le16_bytes(v: u16) -> (r: Vec<u8>)
    ensures
        r@ == le16(v),
{
    let mut r: Vec<u8> = Vec::new();
    r.push((v % 256) as u8);
    r.push((v / 256) as u8);
    assert(r@ =~= le16(v));
    r
}

fn translated(datalog: Serial, inverter: Serial, f: DeviceFunction, register: u16, values: Vec<u8>) -> (r: Packet)
    ensures
        r@ == (PacketModel::TranslatedData {
            datalog: datalog@,
            inverter: inverter@,
            function: f,
            register,
            values: values@,
        }),
{
    Packet::TranslatedData(
        TranslatedData { datalog, inverter, device_function: f, register, values },
    )
}

fn slot_pair(v: &[u8; 4], first: bool) -> (r: Vec<u8>)
    ensures
        first ==> r@ == v@.subrange(0, 2),
        !first ==> r@ == v@.subrange(2, 4),
{
    let mut r: Vec<u8> = Vec::new();
    if first {
        r.push(v[0]);
        r.push(v[1]);
        assert(r@ =~= v@.subrange(0, 2));
    } else {
        r.push(v[2]);
        r.push(v[3]);
        assert(r@ =~= v@.subrange(2, 4));
    }
    r
}

fn slot_values(v: &[u8; 4]) -> (r: Vec<u8>)
    ensures
        r@ == v@,
{
    let mut r: Vec<u8> = Vec::new();
    r.push(v[0]);
    r.push(v[1]);
    r.push(v[2]);
    r.push(v[3]);
    assert(r@ =~= v@);
    r
}

impl Command {
    pub fn inverter(&self) -> (r: &Inverter)
        ensures
            *r == command_inverter(*self),
    {
        match self {
            Command::ReadInputs(i, _) => i,
            Command::ReadInput(i, _, _) => i,
            Command::ReadHold(i, _, _) => i,
            Command::ReadParam(i, _) => i,
            Command::ReadAcChargeTime(i, _) => i,
            Command::ReadAcFirstTime(i, _) => i,
            Command::ReadChargePriorityTime(i, _) => i,
            Command::ReadForcedDischargeTime(i, _) => i,
            Command::SetHold(i, _, _) => i,
            Command::WriteParam(i, _, _) => i,
            Command::SetAcChargeTime(i, _, _) => i,
            Command::SetAcFirstTime(i, _, _) => i,
            Command::SetChargePriorityTime(i, _, _) => i,
            Command::SetForcedDischargeTime(i, _, _) => i,
            Command::AcCharge(i, _) => i,
            Command::ChargePriority(i, _) => i,
            Command::ForcedDischarge(i, _) => i,
            Command::ChargeRate(i, _) => i,
            Command::DischargeRate(i, _) => i,
            Command::AcChargeRate(i, _) => i,
            Command::AcChargeSocLimit(i, _) => i,
            Command::DischargeCutoffSocLimit(i, _) => i,
        }
    }

    pub fn is_write(&self) -> (r: bool)
        ensures
            r == is_write(*self),
    {
        match self {
            Command::ReadInputs(..) | Command::ReadInput(..) | Command::ReadHold(..)
            | Command::ReadParam(..) | Command::ReadAcChargeTime(..)
            | Command::ReadAcFirstTime(..) | Command::ReadChargePriorityTime(..)
            | Command::ReadForcedDischargeTime(..) => false,
            _ => true,
        }
    }

    /// The time-slot group and slot a slot command speaks of.
    pub fn action(&self) -> (r: Option<Action>)
        ensures
            match *self {
                Command::ReadAcChargeTime(_, n) => r == Some(Action::AcCharge(n)),
                Command::ReadAcFirstTime(_, n) => r == Some(Action::AcFirst(n)),
                Command::ReadChargePriorityTime(_, n) => r == Some(Action::ChargePriority(n)),
                Command::ReadForcedDischargeTime(_, n) => r == Some(Action::ForcedDischarge(n)),
                Command::SetAcChargeTime(_, n, _) => r == Some(Action::AcCharge(n)),
                Command::SetAcFirstTime(_, n, _) => r == Some(Action::AcFirst(n)),
                Command::SetChargePriorityTime(_, n, _) => r == Some(Action::ChargePriority(n)),
                Command::SetForcedDischargeTime(_, n, _) => r == Some(Action::ForcedDischarge(n)),
                _ => r is None,
            },
    {
        match self {
            Command::ReadAcChargeTime(_, n) => Some(Action::AcCharge(*n)),
            Command::ReadAcFirstTime(_, n) => Some(Action::AcFirst(*n)),
            Command::ReadChargePriorityTime(_, n) => Some(Action::ChargePriority(*n)),
            Command::ReadForcedDischargeTime(_, n) => Some(Action::ForcedDischarge(*n)),
            Command::SetAcChargeTime(_, n, _) => Some(Action::AcCharge(*n)),
            Command::SetAcFirstTime(_, n, _) => Some(Action::AcFirst(*n)),
            Command::SetChargePriorityTime(_, n, _) => Some(Action::ChargePriority(*n)),
            Command::SetForcedDischargeTime(_, n, _) => Some(Action::ForcedDischarge(*n)),
            _ => None,
        }
    }

    pub fn argument_error(&self) -> (r: Option<CommandError>)
        ensures
            r == argument_error(*self),
    {
        match self {
            Command::ReadInputs(_, page) => if 1 <= *page && *page <= 6 {
                None
            } else {
                Some(CommandError::UnsupportedCommand)
            },
            Command::ReadHold(_, reg, n) => if is_valid_hold_read(*reg, *n) {
                None
            } else {
                Some(CommandError::InvalidRange)
            },
            Command::ReadAcChargeTime(_, n) | Command::ReadAcFirstTime(_, n)
            | Command::ReadChargePriorityTime(_, n) | Command::ReadForcedDischargeTime(_, n)
            | Command::SetAcChargeTime(_, n, _) | Command::SetAcFirstTime(_, n, _)
            | Command::SetChargePriorityTime(_, n, _) | Command::SetForcedDischargeTime(_, n, _) =>
                if 1 <= *n && *n <= 3 {
                None
            } else {
                Some(CommandError::UnsupportedCommand)
            },
            _ => None,
        }
    }

    fn first_request(&self, datalog: Serial, serial: Serial) -> (r: Packet)
        requires
            argument_error(*self) is None,
            command_inverter(*self).datalog == Some(datalog),
            command_inverter(*self).serial == Some(serial),
        ensures
            r@ == first_packet(plan_body(*self)),
    {
        match self {
            Command::ReadInputs(inv, page) => translated(
                datalog,
                serial,
                DeviceFunction::ReadInput,
                (*page - 1) * INPUT_PAGE_SIZE,
                le16_bytes(inv.register_block_size()),
            ),
            Command::ReadInput(_, reg, n) => translated(
                datalog,
                serial,
                DeviceFunction::ReadInput,
                *reg,
                le16_bytes(*n),
            ),
            Command::ReadHold(_, reg, n) => translated(
                datalog,
                serial,
                DeviceFunction::ReadHold,
                *reg,
                le16_bytes(*n),
            ),
            Command::ReadParam(_, reg) => Packet::ReadParam(
                Param { datalog, register: *reg, values: Vec::new() },
            ),
            Command::ReadAcChargeTime(..) | Command::ReadAcFirstTime(..)
            | Command::ReadChargePriorityTime(..) | Command::ReadForcedDischargeTime(..) => {
                let a = self.action().unwrap();
                let reg = match a.register() {
                    Ok(reg) => reg,
                    Err(_) => 0,
                };
                translated(datalog, serial, DeviceFunction::ReadHold, reg, le16_bytes(2))
            },
            Command::SetAcChargeTime(_, _, v) | Command::SetAcFirstTime(_, _, v)
            | Command::SetChargePriorityTime(_, _, v) | Command::SetForcedDischargeTime(_, _, v) => {
                let a = self.action().unwrap();
                let reg = match a.register() {
                    Ok(reg) => reg,
                    Err(_) => 0,
                };
                translated(datalog, serial, DeviceFunction::WriteSingle, reg, slot_pair(v, true))
            },
            Command::SetHold(_, reg, v) => translated(
                datalog,
                serial,
                DeviceFunction::WriteSingle,
                *reg,
                le16_bytes(*v),
            ),
            Command::WriteParam(_, reg, v) => Packet::WriteParam(
                Param { datalog, register: *reg, values: le16_bytes(*v) },
            ),
            Command::AcCharge(..) | Command::ChargePriority(..) | Command::ForcedDischarge(..) =>
                translated(datalog, serial, DeviceFunction::ReadHold, REGISTER_21, le16_bytes(1)),
            Command::ChargeRate(_, v) => translated(
                datalog,
                serial,
                DeviceFunction::WriteSingle,
                CHARGE_POWER_PERCENT,
                le16_bytes(*v),
            ),
            Command::DischargeRate(_, v) => translated(
                datalog,
                serial,
                DeviceFunction::WriteSingle,
                DISCHARGE_POWER_PERCENT,
                le16_bytes(*v),
            ),
            Command::AcChargeRate(_, v) => translated(
                datalog,
                serial,
                DeviceFunction::WriteSingle,
                AC_CHARGE_POWER,
                le16_bytes(*v),
            ),
            Command::AcChargeSocLimit(_, v) => translated(
                datalog,
                serial,
                DeviceFunction::WriteSingle,
                AC_CHARGE_SOC_LIMIT,
                le16_bytes(*v),
            ),
            Command::DischargeCutoffSocLimit(_, v) => translated(
                datalog,
                serial,
                DeviceFunction::WriteSingle,
                DISCHARGE_CUTOFF_SOC,
                le16_bytes(*v),
            ),
        }
    }
}

/// A command in progress: which request it is waiting on and what that request was.
pub struct CommandRun {
    pub command: Command,
    pub stage: usize,
    pub sent: Option<Packet>,
}

impl CommandRun {
    /// Waiting on the reply to request number `stage` of a plan that is under way.
    pub open spec fn awaiting(&self) -> bool {
        plan_of(self.command) is Ok && 1 <= self.stage <= plan_len(plan_of(self.command)->Ok_0)
            && self.sent is Some
    }

    /// Starts `command`: the first request to send, or why it is refused.
    pub fn start(command: Command) -> (r: (CommandRun, Step))
        ensures
            r.0.command == command,
            match plan_of(command) {
                Err(e) => r.1@ == StepModel::Failed(e),
                Ok(p) => r.1@ == StepModel::Send(first_packet(p)) && r.0.awaiting() && r.0.stage
                    == 1 && r.0.sent->Some_0@ == first_packet(p),
            },
    {
        let inv = command.inverter();
        if command.is_write() && inv.read_only() {
            return (CommandRun { command, stage: 0, sent: None }, Step::Failed(CommandError::ReadOnly));
        }
        if let Some(e) = command.argument_error() {
            return (CommandRun { command, stage: 0, sent: None }, Step::Failed(e));
        }
        let datalog = match inv.datalog {
            Some(d) => d,
            None => {
                return (
                    CommandRun { command, stage: 0, sent: None },
                    Step::Failed(CommandError::MissingDatalog),
                );
            },
        };
        let serial = match inv.serial {
            Some(s) => s,
            None => {
                return (
                    CommandRun { command, stage: 0, sent: None },
                    Step::Failed(CommandError::MissingSerial),
                );
            },
        };
        let p = command.first_request(datalog, serial);
        let q = p.copied();
        (CommandRun { command, stage: 1, sent: Some(p) }, Step::Send(q))
    }
}

impl CommandRun {
    /// Decides what follows the reply to the request in flight.
    pub fn on_reply(&mut self, reply: &Packet) -> (r: Step)
        requires
            old(self).awaiting(),
        ensures
            r@ == next_step(old(self).command, old(self).stage as nat, old(self).sent->Some_0@, reply@),
            final(self).command == old(self).command,
            r matches Step::Send(p) ==> final(self).awaiting() && final(self).stage == old(self).stage
                + 1 && final(self).sent->Some_0@ == p@,
    {
        let sent_values = match &self.sent {
            Some(p) => match p {
                Packet::TranslatedData(td) => copy_bytes(&td.values),
                Packet::ReadParam(pp) => copy_bytes(&pp.values),
                Packet::WriteParam(pp) => copy_bytes(&pp.values),
                Packet::Heartbeat(_) => Vec::new(),
            },
            None => Vec::new(),
        };
        let echoed = match reply {
            Packet::TranslatedData(td) => same_bytes(&td.values, &sent_values),
            _ => false,
        };
        if let Packet::TranslatedData(td) = reply {
            if td.values.len() >= 1 && td.values[0] >= 0x80 {
                return Step::Failed(CommandError::ModbusException(td.values[0] - 0x80));
            }
        }
        let inv = self.command.inverter();
        let datalog = inv.datalog.unwrap();
        let serial = inv.serial.unwrap();
        match &self.command {
            Command::ReadInputs(..) | Command::ReadInput(..) | Command::ReadHold(..)
            | Command::ReadParam(..) | Command::WriteParam(..) => Step::Finished(Completion::Done),
            Command::ReadAcChargeTime(..) | Command::ReadAcFirstTime(..)
            | Command::ReadChargePriorityTime(..) | Command::ReadForcedDischargeTime(..) => {
                match reply {
                    Packet::TranslatedData(td) => if td.values.len() >= 4 {
                        let mut v: Vec<u8> = Vec::new();
                        v.push(td.values[0]);
                        v.push(td.values[1]);
                        v.push(td.values[2]);
                        v.push(td.values[3]);
                        assert(v@ =~= td.values@.subrange(0, 4));
                        Step::Finished(Completion::TimeSlot(v))
                    } else {
                        Step::Failed(CommandError::UnexpectedReply)
                    },
                    _ => Step::Failed(CommandError::UnexpectedReply),
                }
            },
            Command::SetAcChargeTime(_, _, v) | Command::SetAcFirstTime(_, _, v)
            | Command::SetChargePriorityTime(_, _, v) | Command::SetForcedDischargeTime(_, _, v) => {
                if !echoed {
                    Step::Failed(CommandError::WriteMismatch)
                } else if self.stage == 1 {
                    let a = self.command.action().unwrap();
                    let reg = match a.register() {
                        Ok(reg) => reg,
                        Err(_) => 0,
                    };
                    let p = translated(
                        datalog,
                        serial,
                        DeviceFunction::WriteSingle,
                        reg + 1,
                        slot_pair(v, false),
                    );
                    let q = p.copied();
                    self.sent = Some(p);
                    self.stage = 2;
                    Step::Send(q)
                } else {
                    Step::Finished(Completion::TimeSlot(slot_values(v)))
                }
            },
            Command::AcCharge(_, enable) | Command::ChargePriority(_, enable)
            | Command::ForcedDischarge(_, enable) => {
                if self.stage == 1 {
                    match reply {
                        Packet::TranslatedData(td) => if td.values.len() >= 2 {
                            let bit = match &self.command {
                                Command::AcCharge(..) => AC_CHARGE_ENABLE,
                                Command::ChargePriority(..) => CHARGE_PRIORITY_ENABLE,
                                _ => FORCED_DISCHARGE_ENABLE,
                            };
                            let current = td.values[0] as u16 + 256 * (td.values[1] as u16);
                            let updated = update_bit(current, bit, *enable);
                            let p = translated(
                                datalog,
                                serial,
                                DeviceFunction::WriteSingle,
                                REGISTER_21,
                                le16_bytes(updated),
                            );
                            let q = p.copied();
                            self.sent = Some(p);
                            self.stage = 2;
                            Step::Send(q)
                        } else {
                            Step::Failed(CommandError::UnexpectedReply)
                        },
                        _ => Step::Failed(CommandError::UnexpectedReply),
                    }
                } else if echoed {
                    Step::Finished(Completion::Done)
                } else {
                    Step::Failed(CommandError::WriteMismatch)
                }
            },
            Command::SetHold(..) | Command::ChargeRate(..) | Command::DischargeRate(..)
            | Command::AcChargeRate(..) | Command::AcChargeSocLimit(..)
            | Command::DischargeCutoffSocLimit(..) => {
                if echoed {
                    Step::Finished(Completion::Done)
                } else {
                    Step::Failed(CommandError::WriteMismatch)
                }
            },
        }
    }
}

/// Topic group of a time-slot action.
pub open spec fn slot_group(a: Action) -> Seq<char> {
    match a {
        Action::AcCharge(_) => "/ac_charge/"@,
        Action::AcFirst(_) => "/ac_first/"@,
        Action::ChargePriority(_) => "/charge_priority/"@,
        Action::ForcedDischarge(_) => "/forced_discharge/"@,
    }
}

/// `{datalog}/{group}/{slot}`, where time-slot replies are published.
pub open spec fn slot_topic(a: Action, datalog: Seq<u8>) -> Seq<char> {
    serial_text(datalog) + slot_group(a) + decimal(slot_number(a) as nat)
}

/// A time as `HH:MM`, each part at least two digits.
pub open spec fn clock_text(h: u8, m: u8) -> Seq<char> {
    two_digits(h) + ":"@ + two_digits(m)
}

pub open spec fn two_digits(n: u8) -> Seq<char> {
    if n < 10 {
        seq!['0'] + decimal(n as nat)
    } else {
        decimal(n as nat)
    }
}

fn push_two_digits(out: &mut String, n: u8)
    ensures
        final(out)@ == old(out)@ + two_digits(n),
{
    if n < 10 {
        push_str(out, "0");
        proof {
            reveal_strlit("0");
        }
    }
    push_decimal(out, n as u128);
    assert(out@ =~= old(out)@ + two_digits(n));
}

/// The `HH:MM` text of an hour and minute.
pub fn clock(h: u8, m: u8) -> (r: String)
    ensures
        r@ == clock_text(h, m),
{
    let mut r = String::new();
    push_two_digits(&mut r, h);
    push_str(&mut r, ":");
    push_two_digits(&mut r, m);
    assert(r@ =~= clock_text(h, m));
    r
}

impl Action {
    /// Where the reply to this time-slot action is published.
    pub fn mqtt_reply_topic(&self, datalog: Serial) -> (r: String)
        ensures
            r@ == slot_topic(*self, datalog@),
    {
        let mut r = String::new();
        push_bytes_text(&mut r, datalog.bytes.as_slice());
        let n = match self {
            Action::AcCharge(n) => {
                push_str(&mut r, "/ac_charge/");
                *n
            },
            Action::AcFirst(n) => {
                push_str(&mut r, "/ac_first/");
                *n
            },
            Action::ChargePriority(n) => {
                push_str(&mut r, "/charge_priority/");
                *n
            },
            Action::ForcedDischarge(n) => {
                push_str(&mut r, "/forced_discharge/");
                *n
            },
        };
        push_decimal(&mut r, n as u128);
        assert(r@ =~= slot_topic(*self, datalog@));
        r
    }
}

/// First of the three date/time holding registers.
pub const CLOCK_REGISTER: u16 = 12;

/// The date/time bytes as registers 12 to 14 hold them: year within the century, month,
/// day, hour, minute, second.
pub open spec fn clock_bytes(year: u16, month: u8, day: u8, hour: u8, minute: u8, second: u8) -> Seq<u8> {
    seq![(year % 100) as u8, month, day, hour, minute, second]
}

/// The request that sets the inverter clock, refused for a read-only inverter or one
/// whose datalog or serial is unknown.
pub fn time_sync_request(
    inv: &Inverter,
    year: u16,
    month: u8,
    day: u8,
    hour: u8,
    minute: u8,
    second: u8,
) -> (r: Result<Packet, CommandError>)
    ensures
        opt_or(inv.read_only, false) ==> r == Err::<Packet, CommandError>(CommandError::ReadOnly),
        !opt_or(inv.read_only, false) && inv.datalog is None ==> r == Err::<Packet, CommandError>(
            CommandError::MissingDatalog,
        ),
        !opt_or(inv.read_only, false) && inv.datalog is Some && inv.serial is None ==> r == Err::<
            Packet,
            CommandError,
        >(CommandError::MissingSerial),
        r matches Ok(p) ==> p@ == td_model(
            *inv,
            DeviceFunction::WriteMulti,
            CLOCK_REGISTER,
            clock_bytes(year, month, day, hour, minute, second),
        ),
        (!opt_or(inv.read_only, false) && inv.datalog is Some && inv.serial is Some) ==> r is Ok,
{
    if inv.read_only() {
        return Err(CommandError::ReadOnly);
    }
    let datalog = match inv.datalog {
        Some(d) => d,
        None => {
            return Err(CommandError::MissingDatalog);
        },
    };
    let serial = match inv.serial {
        Some(s) => s,
        None => {
            return Err(CommandError::MissingSerial);
        },
    };
    let mut values: Vec<u8> = Vec::new();
    values.push((year % 100) as u8);
    values.push(month);
    values.push(day);
    values.push(hour);
    values.push(minute);
    values.push(second);
    assert(values@ =~= clock_bytes(year, month, day, hour, minute, second));
    Ok(translated(datalog, serial, DeviceFunction::WriteMulti, CLOCK_REGISTER, values))
}

/// A holding-register read, checked against the known blocks before it is sent.
pub struct ReadHold {
    pub inverter: Inverter,
    pub register: u16,
    pub count: u16,
}

impl ReadHold {
    pub fn new(inverter: Inverter, register: u16, count: u16) -> (r: ReadHold)
        ensures
            r == (ReadHold { inverter, register, count }),
    {
        ReadHold { inverter, register, count }
    }

    pub fn command(self) -> (r: Command)
        ensures
            r == Command::ReadHold(self.inverter, self.register, self.count),
    {
        Command::ReadHold(self.inverter, self.register, self.count)
    }
}

/// An input-register read.
pub struct ReadInputs {
    pub inverter: Inverter,
    pub register: u16,
    pub count: u16,
}

impl ReadInputs {
    pub fn new(inverter: Inverter, register: u16, count: u16) -> (r: ReadInputs)
        ensures
            r == (ReadInputs { inverter, register, count }),
    {
        ReadInputs { inverter, register, count }
    }

    pub fn command(self) -> (r: Command)
        ensures
            r == Command::ReadInput(self.inverter, self.register, self.count),
    {
        Command::ReadInput(self.inverter, self.register, self.count)
    }
}

/// A read of one time slot.
pub struct ReadTimeRegister {
    pub inverter: Inverter,
    pub action: Action,
}

impl ReadTimeRegister {
    pub fn new(inverter: Inverter, action: Action) -> (r: ReadTimeRegister)
        ensures
            r == (ReadTimeRegister { inverter, action }),
    {
        ReadTimeRegister { inverter, action }
    }

    pub fn command(self) -> (r: Command)
        ensures
            r == match self.action {
                Action::AcCharge(n) => Command::ReadAcChargeTime(self.inverter, n),
                Action::AcFirst(n) => Command::ReadAcFirstTime(self.inverter, n),
                Action::ChargePriority(n) => Command::ReadChargePriorityTime(self.inverter, n),
                Action::ForcedDischarge(n) => Command::ReadForcedDischargeTime(self.inverter, n),
            },
    {
        match self.action {
            Action::AcCharge(n) => Command::ReadAcChargeTime(self.inverter, n),
            Action::AcFirst(n) => Command::ReadAcFirstTime(self.inverter, n),
            Action::ChargePriority(n) => Command::ReadChargePriorityTime(self.inverter, n),
            Action::ForcedDischarge(n) => Command::ReadForcedDischargeTime(self.inverter, n),
        }
    }
}

/// A write of one time slot: start hour and minute, end hour and minute.
pub struct SetTimeRegister {
    pub inverter: Inverter,
    pub action: Action,
    pub values: [u8; 4],
}

impl SetTimeRegister {
    pub fn new(inverter: Inverter, action: Action, values: [u8; 4]) -> (r: SetTimeRegister)
        ensures
            r == (SetTimeRegister { inverter, action, values }),
    {
        SetTimeRegister { inverter, action, values }
    }

    pub fn command(self) -> (r: Command)
        ensures
            r == match self.action {
                Action::AcCharge(n) => Command::SetAcChargeTime(self.inverter, n, self.values),
                Action::AcFirst(n) => Command::SetAcFirstTime(self.inverter, n, self.values),
                Action::ChargePriority(n) => Command::SetChargePriorityTime(
                    self.inverter,
                    n,
                    self.values,
                ),
                Action::ForcedDischarge(n) => Command::SetForcedDischargeTime(
                    self.inverter,
                    n,
                    self.values,
                ),
            },
    {
        match self.action {
            Action::AcCharge(n) => Command::SetAcChargeTime(self.inverter, n, self.values),
            Action::AcFirst(n) => Command::SetAcFirstTime(self.inverter, n, self.values),
            Action::ChargePriority(n) => Command::SetChargePriorityTime(
                self.inverter,
                n,
                self.values,
            ),
            Action::ForcedDischarge(n) => Command::SetForcedDischargeTime(
                self.inverter,
                n,
                self.values,
            ),
        }
    }
}

} // verus!
