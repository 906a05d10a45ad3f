use pulsegen_core::protocol::{
    be16, be_bytes, dispatch_command, loop_iteration, payload_len, read_frame, CommandEffect,
    FatalCause, HardwareAction, IterationEffect, SystemState, CMD_FIRE_PULSE,
    CMD_READ_MEASUREMENT, CMD_SET_HIGH_VOLTAGE, CMD_SET_PWM,
};
use pulsegen_core::transport::TransportQueue;

fn ok(r: Result<CommandEffect, FatalCause>) -> CommandEffect {
    match r {
        Ok(e) => e,
        Err(_) => panic!("command was expected to dispatch"),
    }
}

#[test]
fn pwm_good_parameters_echo_the_opcode() {
    // period = 100, width = 5: accepted.
    let payload = vec![0, 100, 0, 5];
    let e = ok(dispatch_command(CMD_SET_PWM, &payload, 0, false));
    assert_eq!(e.response, vec![0x03]);
    assert!(matches!(
        e.action,
        HardwareAction::SetPwm { period: 100, width: 5 }
    ));
    assert!(!e.high_voltage_enabled);
}

#[test]
fn pwm_bad_parameters_nack_with_complement() {
    // period = 5, width = 100: width exceeds period, refused.
    let payload = vec![0, 5, 0, 100];
    let e = ok(dispatch_command(CMD_SET_PWM, &payload, 0, false));
    assert_eq!(e.response, vec![0xFC]);
    assert!(matches!(e.action, HardwareAction::NoAction));
    // period = 0 is refused too.
    let payload = vec![0, 0, 0, 0];
    let e = ok(dispatch_command(CMD_SET_PWM, &payload, 0, false));
    assert_eq!(e.response, vec![0xFC]);
    assert!(matches!(e.action, HardwareAction::NoAction));
}

#[test]
fn enable_value_out_of_range_is_fatal_not_nack() {
    let r = dispatch_command(CMD_SET_HIGH_VOLTAGE, &vec![2], 0, false);
    assert!(matches!(r, Err(FatalCause::InvalidEnableValue)));
    let r = dispatch_command(CMD_SET_HIGH_VOLTAGE, &vec![255], 0, true);
    assert!(matches!(r, Err(FatalCause::InvalidEnableValue)));
}

#[test]
fn enable_and_disable_echo_and_switch() {
    let e = ok(dispatch_command(CMD_SET_HIGH_VOLTAGE, &vec![1], 0, false));
    assert_eq!(e.response, vec![0x01]);
    assert!(e.high_voltage_enabled);
    assert!(matches!(e.action, HardwareAction::SetHighVoltage { on: true }));
    let e = ok(dispatch_command(CMD_SET_HIGH_VOLTAGE, &vec![0], 0, true));
    assert!(!e.high_voltage_enabled);
    assert!(matches!(e.action, HardwareAction::SetHighVoltage { on: false }));
}

#[test]
fn measurement_is_reported_big_endian_unmodified() {
    let e = ok(dispatch_command(CMD_READ_MEASUREMENT, &vec![], 0xABCD, false));
    assert_eq!(e.response, vec![0xAB, 0xCD]);
    assert!(matches!(e.action, HardwareAction::NoAction));
    let e = ok(dispatch_command(CMD_READ_MEASUREMENT, &vec![], 67, true));
    assert_eq!(e.response, vec![0, 67]);
}

#[test]
fn fire_pulse_echoes_and_carries_duration() {
    let e = ok(dispatch_command(CMD_FIRE_PULSE, &vec![0x01, 0x00], 0, false));
    assert_eq!(e.response, vec![0x04]);
    assert!(matches!(
        e.action,
        HardwareAction::FirePulse { duration: 256 }
    ));
}

#[test]
fn unknown_opcode_is_fatal() {
    for opcode in [0x00u8, 0x05, 0x42, 0xFF] {
        let r = dispatch_command(opcode, &vec![], 0, false);
        assert!(matches!(r, Err(FatalCause::UnknownOpcode)));
    }
}

#[test]
fn payload_lengths_match_the_table() {
    assert_eq!(payload_len(CMD_SET_HIGH_VOLTAGE), 1);
    assert_eq!(payload_len(CMD_READ_MEASUREMENT), 0);
    assert_eq!(payload_len(CMD_SET_PWM), 4);
    assert_eq!(payload_len(CMD_FIRE_PULSE), 2);
    assert_eq!(payload_len(0x99), 0);
}

#[test]
fn big_endian_helpers_agree() {
    assert_eq!(be16(0xAB, 0xCD), 0xABCD);
    assert_eq!(be_bytes(0xABCD), vec![0xAB, 0xCD]);
    assert_eq!(be16(0, 5), 5);
    assert_eq!(be_bytes(5), vec![0, 5]);
}

#[test]
fn frames_follow_the_opcode_table() {
    let mut q = TransportQueue::new();
    assert!(read_frame(&mut q).is_none());
    for b in [0x03, 0x00, 0x64, 0x00, 0x05, 0x02, 0x04, 0xAB, 0xCD] {
        q.try_push(b).unwrap();
    }
    let (op, payload) = read_frame(&mut q).unwrap();
    assert_eq!(op, CMD_SET_PWM);
    assert_eq!(payload, vec![0x00, 0x64, 0x00, 0x05]);
    let (op, payload) = read_frame(&mut q).unwrap();
    assert_eq!(op, CMD_READ_MEASUREMENT);
    assert!(payload.is_empty());
    let (op, payload) = read_frame(&mut q).unwrap();
    assert_eq!(op, CMD_FIRE_PULSE);
    assert_eq!(payload, vec![0xAB, 0xCD]);
    assert!(!q.has_data());
    assert!(read_frame(&mut q).is_none());
}

#[test]
fn peek_and_len_do_not_consume() {
    let mut q = TransportQueue::new();
    assert_eq!(q.peek(), None);
    assert_eq!(q.len(), 0);
    q.try_push(9).unwrap();
    q.try_push(8).unwrap();
    assert_eq!(q.peek(), Some(9));
    assert_eq!(q.peek(), Some(9));
    assert_eq!(q.len(), 2);
    assert_eq!(q.pop_blocking(), 9);
    assert_eq!(q.peek(), Some(8));
    assert_eq!(q.len(), 1);
}

fn run(state: &mut SystemState, m: u16, cmd: Option<(u8, Vec<u8>)>) -> IterationEffect {
    loop_iteration(state, m, cmd)
}

#[test]
fn faulted_state_is_terminal() {
    let mut state = SystemState {
        fault: None,
        high_voltage_enabled: false,
    };
    // An unknown opcode faults the machine.
    let e = run(&mut state, 0, Some((0x7F, vec![])));
    assert!(state.fault.is_some());
    assert!(e.response.is_empty());
    assert!(e.indicators.red && !e.indicators.green);
    // Once faulted, even a valid command is not dispatched any more.
    let e = run(&mut state, 0, Some((CMD_SET_HIGH_VOLTAGE, vec![1])));
    assert!(state.fault.is_some());
    assert!(!state.high_voltage_enabled);
    assert!(e.response.is_empty());
    assert!(matches!(e.action, HardwareAction::NoAction));
    assert!(e.indicators.red && !e.indicators.green);
}

#[test]
fn supervisor_runs_with_and_without_traffic() {
    let mut state = SystemState {
        fault: None,
        high_voltage_enabled: false,
    };
    // No command: indicators still follow the measurement.
    let e = run(&mut state, 66, None);
    assert!(!e.indicators.red && e.indicators.green);
    let e = run(&mut state, 67, None);
    assert!(e.indicators.red && !e.indicators.green);
    // Enabling high voltage makes danger hold whatever the measurement.
    let e = run(&mut state, 0, Some((CMD_SET_HIGH_VOLTAGE, vec![1])));
    assert!(state.high_voltage_enabled);
    assert_eq!(e.response, vec![0x01]);
    assert!(e.indicators.red && !e.indicators.green);
}
