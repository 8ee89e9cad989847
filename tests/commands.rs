use eg4_bridge::commands::{
    is_valid_hold_read, update_bit, Action, Command, CommandError, CommandRun, Completion, Step,
};
use eg4_bridge::config::Inverter;
use eg4_bridge::packet::{DeviceFunction, Packet, TranslatedData};
use eg4_bridge::serial::Serial;

fn serial(s: &str) -> Serial {
    Serial::parse(s).unwrap()
}

fn inverter(read_only: bool) -> Inverter {
    Inverter {
        enabled: true,
        host: "192.168.0.10".to_string(),
        port: 8000,
        serial: Some(serial("5555555555")),
        datalog: Some(serial("2222222222")),
        heartbeats: None,
        publish_holdings_on_connect: None,
        read_timeout: None,
        use_tcp_nodelay: None,
        register_block_size: None,
        delay_ms: None,
        read_only: Some(read_only),
        register_read_interval: None,
    }
}

fn td(f: DeviceFunction, register: u16, values: Vec<u8>) -> Packet {
    Packet::TranslatedData(TranslatedData {
        datalog: serial("2222222222"),
        inverter: serial("5555555555"),
        device_function: f,
        register,
        values,
    })
}

#[test]
fn time_slot_registers() {
    assert_eq!(Action::AcCharge(1).register(), Ok(68));
    assert_eq!(Action::AcCharge(3).register(), Ok(72));
    assert_eq!(Action::AcFirst(2).register(), Ok(154));
    assert_eq!(Action::ChargePriority(1).register(), Ok(76));
    assert_eq!(Action::ForcedDischarge(3).register(), Ok(88));
    assert_eq!(Action::ForcedDischarge(4).register(), Err(CommandError::UnsupportedCommand));
    assert_eq!(Action::AcCharge(0).register(), Err(CommandError::UnsupportedCommand));
}

#[test]
fn hold_ranges() {
    assert!(is_valid_hold_read(0, 1));
    assert!(is_valid_hold_read(0, 25));
    assert!(!is_valid_hold_read(0, 26));
    assert!(is_valid_hold_read(170, 6));
    assert!(!is_valid_hold_read(170, 7));
    assert!(!is_valid_hold_read(100, 1));
    assert!(!is_valid_hold_read(24, 2));
    assert!(!is_valid_hold_read(5, 0));
}

#[test]
fn bit_updates() {
    assert_eq!(update_bit(0x0000, 0x0001, true), 0x0001);
    assert_eq!(update_bit(0x00F3, 0x0002, false), 0x00F1);
    assert_eq!(update_bit(0x0004, 0x0004, true), 0x0004);
}

#[test]
fn read_hold_of_register_zero_sends_one_request() {
    let (mut run, step) = CommandRun::start(Command::ReadHold(inverter(false), 0, 1));
    assert_eq!(step, Step::Send(td(DeviceFunction::ReadHold, 0, vec![1, 0])));
    let step = run.on_reply(&td(DeviceFunction::ReadHold, 0, vec![0x34, 0x12]));
    assert_eq!(step, Step::Finished(Completion::Done));
}

#[test]
fn out_of_range_read_hold_produces_no_frame() {
    let (_, step) = CommandRun::start(Command::ReadHold(inverter(false), 100, 1));
    assert_eq!(step, Step::Failed(CommandError::InvalidRange));
}

#[test]
fn read_only_inverter_refuses_every_write() {
    let inv = inverter(true);
    let writes = vec![
        Command::SetHold(inv.clone(), 64, 50),
        Command::WriteParam(inv.clone(), 1, 2),
        Command::SetAcChargeTime(inv.clone(), 1, [1, 2, 3, 4]),
        Command::AcCharge(inv.clone(), true),
        Command::ChargeRate(inv.clone(), 80),
        Command::DischargeCutoffSocLimit(inv.clone(), 20),
    ];
    for c in writes {
        let (_, step) = CommandRun::start(c);
        assert_eq!(step, Step::Failed(CommandError::ReadOnly));
    }
    let (_, step) = CommandRun::start(Command::ReadHold(inv, 0, 1));
    assert!(matches!(step, Step::Send(_)));
}

#[test]
fn ac_charge_sets_bit_and_confirms() {
    let (mut run, step) = CommandRun::start(Command::AcCharge(inverter(false), true));
    assert_eq!(step, Step::Send(td(DeviceFunction::ReadHold, 21, vec![1, 0])));
    let step = run.on_reply(&td(DeviceFunction::ReadHold, 21, vec![0, 0]));
    assert_eq!(step, Step::Send(td(DeviceFunction::WriteSingle, 21, vec![1, 0])));
    let step = run.on_reply(&td(DeviceFunction::WriteSingle, 21, vec![1, 0]));
    assert_eq!(step, Step::Finished(Completion::Done));
}

#[test]
fn ac_charge_fails_when_echo_differs() {
    let (mut run, _) = CommandRun::start(Command::AcCharge(inverter(false), true));
    run.on_reply(&td(DeviceFunction::ReadHold, 21, vec![0, 0]));
    let step = run.on_reply(&td(DeviceFunction::WriteSingle, 21, vec![0, 0]));
    assert_eq!(step, Step::Failed(CommandError::WriteMismatch));
}

#[test]
fn forced_discharge_clears_its_bit() {
    let (mut run, _) = CommandRun::start(Command::ForcedDischarge(inverter(false), false));
    let step = run.on_reply(&td(DeviceFunction::ReadHold, 21, vec![0x07, 0x10]));
    assert_eq!(step, Step::Send(td(DeviceFunction::WriteSingle, 21, vec![0x03, 0x10])));
}

#[test]
fn set_time_slot_writes_two_registers() {
    let (mut run, step) =
        CommandRun::start(Command::SetChargePriorityTime(inverter(false), 2, [1, 30, 5, 45]));
    assert_eq!(step, Step::Send(td(DeviceFunction::WriteSingle, 78, vec![1, 30])));
    let step = run.on_reply(&td(DeviceFunction::WriteSingle, 78, vec![1, 30]));
    assert_eq!(step, Step::Send(td(DeviceFunction::WriteSingle, 79, vec![5, 45])));
    let step = run.on_reply(&td(DeviceFunction::WriteSingle, 79, vec![5, 45]));
    assert_eq!(step, Step::Finished(Completion::TimeSlot(vec![1, 30, 5, 45])));
}

#[test]
fn read_time_slot_returns_start_and_end() {
    let (mut run, step) = CommandRun::start(Command::ReadAcFirstTime(inverter(false), 3));
    assert_eq!(step, Step::Send(td(DeviceFunction::ReadHold, 156, vec![2, 0])));
    let step = run.on_reply(&td(DeviceFunction::ReadHold, 156, vec![22, 0, 6, 30]));
    assert_eq!(step, Step::Finished(Completion::TimeSlot(vec![22, 0, 6, 30])));
}

#[test]
fn slot_out_of_range_is_unsupported() {
    let (_, step) = CommandRun::start(Command::ReadAcChargeTime(inverter(false), 4));
    assert_eq!(step, Step::Failed(CommandError::UnsupportedCommand));
}

#[test]
fn read_inputs_page_starts_at_page_offset() {
    let (_, step) = CommandRun::start(Command::ReadInputs(inverter(false), 3));
    assert_eq!(step, Step::Send(td(DeviceFunction::ReadInput, 80, vec![40, 0])));
    let (_, step) = CommandRun::start(Command::ReadInputs(inverter(false), 7));
    assert_eq!(step, Step::Failed(CommandError::UnsupportedCommand));
}

#[test]
fn missing_datalog_is_refused() {
    let mut inv = inverter(false);
    inv.datalog = None;
    let (_, step) = CommandRun::start(Command::ReadInput(inv, 0, 40));
    assert_eq!(step, Step::Failed(CommandError::MissingDatalog));
}

#[test]
fn modbus_exception_reply_stops_read_modify_write() {
    let (mut run, _) = CommandRun::start(Command::AcCharge(inverter(false), true));
    let step = run.on_reply(&td(DeviceFunction::ReadHold, 21, vec![0x82, 0x00]));
    assert_eq!(step, Step::Failed(CommandError::ModbusException(2)));
}

#[test]
fn modbus_exception_reply_is_not_a_time_slot() {
    let (mut run, _) = CommandRun::start(Command::ReadAcChargeTime(inverter(false), 1));
    let step = run.on_reply(&td(DeviceFunction::ReadHold, 68, vec![0x83, 0, 0, 0]));
    assert_eq!(step, Step::Failed(CommandError::ModbusException(3)));
}
