//! Command protocol dispatcher: interprets one opcode with its fixed
//! payload and decides the hardware action, the response bytes, the new
//! high-voltage state, and whether the transaction is fatal.
//!
//! A transaction is a single-byte opcode, a fixed opcode-dependent number
//! of payload bytes, and a fixed-size response; all multi-byte values are
//! big-endian.  A recoverable parameter error exists only for the PWM
//! command and is reported by complementing the opcode.  An unknown
//! opcode, or an out-of-range enable value, is a protocol violation: the
//! system leaves normal operation for a terminal faulted state rather
//! than drive the high-voltage output from an inconsistent protocol
//! state.

use vstd::prelude::*;

use crate::supervisor::spec_danger;
use crate::supervisor::supervise;
use crate::supervisor::Indicators;
use crate::transport::TransportQueue;
use crate::transport::QUEUE_CAPACITY;

verus! {

/// Enable or disable high-voltage generation; payload one byte in {0,1}.
pub const CMD_SET_HIGH_VOLTAGE: u8 = 0x01;

/// Report the latest raw measurement; no payload.
pub const CMD_READ_MEASUREMENT: u8 = 0x02;

/// Reconfigure the PWM; payload two big-endian words, period then width.
pub const CMD_SET_PWM: u8 = 0x03;

/// Fire a timed pulse; payload one big-endian word, the duration.
pub const CMD_FIRE_PULSE: u8 = 0x04;

/// An operation the dispatcher asks the hardware collaborators to perform.
pub enum HardwareAction {
    SetHighVoltage { on: bool },
    SetPwm { period: u16, width: u16 },
    FirePulse { duration: u16 },
    NoAction,
}

/// The unrecoverable conditions: each one sends the system to the
/// terminal faulted state.
pub enum FatalCause {
    /// An opcode outside the command table.
    UnknownOpcode,
    /// An enable payload other than 0 or 1.
    InvalidEnableValue,
    /// A byte arrived while the transport queue was full.
    QueueOverflow,
    /// A receive interrupt without a received byte — most likely an
    /// overrun on the serial line.
    ReceiveError,
}

/// What the receive interrupt observed: a data byte, or an interrupt
/// with no byte pending, which signals a reception error.
pub enum ReceiveEvent {
    ByteReceived(u8),
    ErrorSignalled,
}

/// Everything a successfully dispatched command decides.
pub struct CommandEffect {
    /// The hardware operation to perform, if any.
    pub action: HardwareAction,
    /// The bytes to transmit back to the host.
    pub response: Vec<u8>,
    /// The high-voltage-enable state after the command.
    pub high_voltage_enabled: bool,
}

/// A 16-bit value from its big-endian bytes.
pub open spec fn spec_be16(h: u8, l: u8) -> u16 {
    (((h as u16) << 8) + (l as u16)) as u16
}

/// The big-endian bytes of a 16-bit value.
pub open spec fn spec_be_bytes(v: u16) -> Seq<u8> {
    seq![(v >> 8) as u8, (v & 0xFF) as u8]
}

/// Number of payload bytes each opcode is followed by.  An unknown opcode
/// is fatal before any payload is read, so its payload length is zero.
pub open spec fn spec_payload_len(opcode: u8) -> nat {
    if opcode == CMD_SET_HIGH_VOLTAGE {
        1
    } else if opcode == CMD_READ_MEASUREMENT {
        0
    } else if opcode == CMD_SET_PWM {
        4
    } else if opcode == CMD_FIRE_PULSE {
        2
    } else {
        0
    }
}

/// Number of payload bytes to read after `opcode` before dispatching.
pub fn payload_len(opcode: u8) -> (n: usize)
    ensures
        n == spec_payload_len(opcode),
{
    if opcode == CMD_SET_HIGH_VOLTAGE {
        1
    } else if opcode == CMD_READ_MEASUREMENT {
        0
    } else if opcode == CMD_SET_PWM {
        4
    } else if opcode == CMD_FIRE_PULSE {
        2
    } else {
        0
    }
}

/// PWM parameters are accepted iff the period is nonzero and the pulse
/// width does not exceed the period.
pub open spec fn spec_pwm_valid(period: u16, width: u16) -> bool {
    period != 0 && width <= period
}

/// The fatal outcome of a transaction, if any: an unknown opcode, or an
/// enable payload outside {0,1}.
pub open spec fn spec_command_fatal(opcode: u8, payload: Seq<u8>) -> Option<FatalCause> {
    if opcode == CMD_SET_HIGH_VOLTAGE {
        if payload[0] <= 1 {
            None
        } else {
            Some(FatalCause::InvalidEnableValue)
        }
    } else if opcode == CMD_READ_MEASUREMENT || opcode == CMD_SET_PWM
        || opcode == CMD_FIRE_PULSE {
        None
    } else {
        Some(FatalCause::UnknownOpcode)
    }
}

/// The hardware action a non-fatal transaction performs.
pub open spec fn spec_command_action(opcode: u8, payload: Seq<u8>) -> HardwareAction {
    if opcode == CMD_SET_HIGH_VOLTAGE {
        HardwareAction::SetHighVoltage { on: payload[0] == 1 }
    } else if opcode == CMD_SET_PWM {
        if spec_pwm_valid(spec_be16(payload[0], payload[1]), spec_be16(payload[2], payload[3])) {
            HardwareAction::SetPwm {
                period: spec_be16(payload[0], payload[1]),
                width: spec_be16(payload[2], payload[3]),
            }
        } else {
            HardwareAction::NoAction
        }
    } else if opcode == CMD_FIRE_PULSE {
        HardwareAction::FirePulse { duration: spec_be16(payload[0], payload[1]) }
    } else {
        HardwareAction::NoAction
    }
}

/// The response bytes of a non-fatal transaction: the echoed opcode, the
/// big-endian measurement, or the complemented opcode for rejected PWM
/// parameters.
pub open spec fn spec_command_response(opcode: u8, payload: Seq<u8>, measurement: u16) -> Seq<u8> {
    if opcode == CMD_SET_HIGH_VOLTAGE || opcode == CMD_FIRE_PULSE {
        seq![opcode]
    } else if opcode == CMD_READ_MEASUREMENT {
        spec_be_bytes(measurement)
    } else if opcode == CMD_SET_PWM {
        if spec_pwm_valid(spec_be16(payload[0], payload[1]), spec_be16(payload[2], payload[3])) {
            seq![opcode]
        } else {
            seq![!opcode]
        }
    } else {
        Seq::empty()
    }
}

/// The high-voltage-enable state after a non-fatal transaction.
pub open spec fn spec_command_hv(opcode: u8, payload: Seq<u8>, high_voltage_enabled: bool) -> bool {
    if opcode == CMD_SET_HIGH_VOLTAGE {
        payload[0] == 1
    } else {
        high_voltage_enabled
    }
}

/// Reads a 16-bit big-endian value as two bytes from the transport
/// queue, high byte first.
pub fn usart1_rx_u16(queue: &mut TransportQueue) -> (r: u16)
    requires
        old(queue).wf(),
        old(queue)@.len() >= 2,
    ensures
        final(queue).wf(),
        final(queue)@ == old(queue)@.skip(2),
        r == spec_be16(old(queue)@[0], old(queue)@[1]),
{
    let h = queue.pop_blocking();
    let l = queue.pop_blocking();
    proof {
        assert(queue@ =~= old(queue)@.skip(2));
    }
    be16(h, l)
}

/// Reads one complete transaction frame: the opcode, then exactly the
/// fixed payload its entry in the command table announces.  Framing is
/// implicit: no length field, no markers.  Once the opcode is consumed
/// the dispatcher is committed to the full payload, so the caller that
/// owns the receive path must block until it has arrived; here that
/// contract is the requirement that a non-empty queue already holds the
/// whole frame.
pub fn read_frame(queue: &mut TransportQueue) -> (r: Option<(u8, Vec<u8>)>)
    requires
        old(queue).wf(),
        old(queue)@.len() > 0 ==> old(queue)@.len() >= 1 + spec_payload_len(old(queue)@[0]),
    ensures
        final(queue).wf(),
        old(queue)@.len() == 0 ==> r is None && final(queue)@ == old(queue)@,
        old(queue)@.len() > 0 ==> (r matches Some(f) && {
            &&& f.0 == old(queue)@[0]
            &&& f.1@ == old(queue)@.subrange(1, 1 + spec_payload_len(old(queue)@[0]) as int)
            &&& f.1@.len() == spec_payload_len(f.0)
            &&& final(queue)@ == old(queue)@.skip(1 + spec_payload_len(old(queue)@[0]) as int)
        }),
{
    if !queue.has_data() {
        return None;
    }
    let opcode = queue.pop_blocking();
    let n = payload_len(opcode);
    let mut payload: Vec<u8> = Vec::new();
    while payload.len() < n
        invariant
            queue.wf(),
            payload@.len() <= n,
            n == spec_payload_len(opcode),
            opcode == old(queue)@[0],
            1 + n <= old(queue)@.len(),
            payload@ == old(queue)@.subrange(1, 1 + payload@.len() as int),
            queue@ == old(queue)@.skip(1 + payload@.len() as int),
        decreases n - payload@.len(),
    {
        let byte = queue.pop_blocking();
        payload.push(byte);
        proof {
            assert(payload@ =~= old(queue)@.subrange(1, 1 + payload@.len() as int));
            assert(queue@ =~= old(queue)@.skip(1 + payload@.len() as int));
        }
    }
    Some((opcode, payload))
}

/// The big-endian bytes of a 16-bit value, high byte first.
pub fn be_bytes(v: u16) -> (r: Vec<u8>)
    ensures
        r@ == spec_be_bytes(v),
{
    let mut r: Vec<u8> = Vec::new();
    proof {
        assert((v >> 8) < 256 && (v & 0xFF) < 256) by (bit_vector);
    }
    r.push((v >> 8) as u8);
    r.push((v & 0xFF) as u8);
    proof {
        assert(r@ =~= spec_be_bytes(v));
    }
    r
}

/// Executes one complete transaction whose opcode and payload have been
/// read: decides the hardware action, the response and the next
/// high-voltage state, or the fatal cause.  No state changes and no
/// action accompanies a fatal outcome or a rejected PWM request.
pub fn dispatch_command(
    opcode: u8,
    payload: &Vec<u8>,
    measurement: u16,
    high_voltage_enabled: bool,
) -> (r: Result<CommandEffect, FatalCause>)
    requires
        payload@.len() == spec_payload_len(opcode),
    ensures
        r is Ok <==> spec_command_fatal(opcode, payload@) is None,
        r matches Ok(e) ==> {
            &&& e.action == spec_command_action(opcode, payload@)
            &&& e.response@ == spec_command_response(opcode, payload@, measurement)
            &&& e.high_voltage_enabled == spec_command_hv(opcode, payload@, high_voltage_enabled)
        },
        r matches Err(cause) ==> Some(cause) == spec_command_fatal(opcode, payload@),
{
    if opcode == CMD_SET_HIGH_VOLTAGE {
        let value = payload[0];
        if value > 1 {
            return Err(FatalCause::InvalidEnableValue);
        }
        let on = value == 1;
        let mut response: Vec<u8> = Vec::new();
        response.push(opcode);
        proof {
            assert(response@ =~= spec_command_response(opcode, payload@, measurement));
        }
        Ok(CommandEffect {
            action: HardwareAction::SetHighVoltage { on },
            response,
            high_voltage_enabled: on,
        })
    } else if opcode == CMD_READ_MEASUREMENT {
        Ok(CommandEffect {
            action: HardwareAction::NoAction,
            response: be_bytes(measurement),
            high_voltage_enabled,
        })
    } else if opcode == CMD_SET_PWM {
        let period = be16(payload[0], payload[1]);
        let width = be16(payload[2], payload[3]);
        let mut response: Vec<u8> = Vec::new();
        if period != 0 && width <= period {
            response.push(opcode);
            proof {
                assert(response@ =~= spec_command_response(opcode, payload@, measurement));
            }
            Ok(CommandEffect {
                action: HardwareAction::SetPwm { period, width },
                response,
                high_voltage_enabled,
            })
        } else {
            response.push(!opcode);
            proof {
                assert(response@ =~= spec_command_response(opcode, payload@, measurement));
            }
            Ok(CommandEffect {
                action: HardwareAction::NoAction,
                response,
                high_voltage_enabled,
            })
        }
    } else if opcode == CMD_FIRE_PULSE {
        let duration = be16(payload[0], payload[1]);
        let mut response: Vec<u8> = Vec::new();
        response.push(opcode);
        proof {
            assert(response@ =~= spec_command_response(opcode, payload@, measurement));
        }
        Ok(CommandEffect {
            action: HardwareAction::FirePulse { duration },
            response,
            high_voltage_enabled,
        })
    } else {
        Err(FatalCause::UnknownOpcode)
    }
}

/// A 16-bit value from its big-endian bytes.
pub fn be16(h: u8, l: u8) -> (r: u16)
    ensures
        r == spec_be16(h, l),
{
    proof {
        assert(((h as u16) << 8) + (l as u16) <= 0xFFFF) by (bit_vector);
    }
    ((h as u16) << 8) + (l as u16)
}

/// Accepts one byte arriving from the receive interrupt: it joins the
/// back of the transport queue, or, if the queue is already full, the
/// system must fault — the byte is never dropped silently, since a lost
/// byte would desynchronise the protocol framing for good.
pub fn handle_received_byte(queue: &mut TransportQueue, byte: u8) -> (r: Result<(), FatalCause>)
    requires
        old(queue).wf(),
    ensures
        final(queue).wf(),
        old(queue)@.len() < QUEUE_CAPACITY ==> r is Ok
            && final(queue)@ == old(queue)@.push(byte),
        old(queue)@.len() == QUEUE_CAPACITY ==> r == Err::<(), FatalCause>(FatalCause::QueueOverflow)
            && final(queue)@ == old(queue)@,
{
    match queue.try_push(byte) {
        Ok(()) => Ok(()),
        Err(_) => Err(FatalCause::QueueOverflow),
    }
}

/// The whole decision of the receive interrupt: a received byte joins
/// the queue (or overflows it, fatally); an interrupt that signals no
/// received byte is a reception error and fatal in itself, since bytes
/// may have been lost on the line and the framing can no longer be
/// trusted.
pub fn handle_receive_event(queue: &mut TransportQueue, event: ReceiveEvent) -> (r: Result<
    (),
    FatalCause,
>)
    requires
        old(queue).wf(),
    ensures
        final(queue).wf(),
        (event matches ReceiveEvent::ByteReceived(byte) ==> {
            &&& old(queue)@.len() < QUEUE_CAPACITY ==> r is Ok
                && final(queue)@ == old(queue)@.push(byte)
            &&& old(queue)@.len() == QUEUE_CAPACITY ==> r == Err::<(), FatalCause>(
                FatalCause::QueueOverflow,
            ) && final(queue)@ == old(queue)@
        }),
        event is ErrorSignalled ==> r == Err::<(), FatalCause>(FatalCause::ReceiveError)
            && final(queue)@ == old(queue)@,
{
    match event {
        ReceiveEvent::ByteReceived(byte) => handle_received_byte(queue, byte),
        ReceiveEvent::ErrorSignalled => Err(FatalCause::ReceiveError),
    }
}

/// The main loop's protocol-and-control state: whether the system has
/// entered the terminal faulted state, and whether high voltage is on.
pub struct SystemState {
    /// `Some(cause)` once a fatal condition occurred; the state is
    /// terminal, no later iteration leaves it.
    pub fault: Option<FatalCause>,
    /// Whether high-voltage generation is currently enabled.
    pub high_voltage_enabled: bool,
}

/// What one main-loop iteration decides: a hardware action, response
/// bytes for the host, and the two status indicators.
pub struct IterationEffect {
    pub action: HardwareAction,
    pub response: Vec<u8>,
    pub indicators: Indicators,
}

/// One iteration of the main loop over an already-framed transaction:
/// dispatches the command if one arrived, then runs the safety
/// supervisor on the (possibly updated) high-voltage state.  A fatal
/// outcome moves the state machine to its terminal faulted state, whose
/// only exit action is the hazard indicator; once faulted, every later
/// iteration leaves the state unchanged and performs nothing else.
pub fn loop_iteration(
    state: &mut SystemState,
    measurement: u16,
    command: Option<(u8, Vec<u8>)>,
) -> (r: IterationEffect)
    requires
        command matches Some(c) ==> c.1@.len() == spec_payload_len(c.0),
    ensures
        old(state).fault is Some ==> {
            &&& *final(state) == *old(state)
            &&& r.action == HardwareAction::NoAction
            &&& r.response@ == Seq::<u8>::empty()
            &&& r.indicators.red && !r.indicators.green
        },
        old(state).fault is None && command is None ==> {
            &&& *final(state) == *old(state)
            &&& r.action == HardwareAction::NoAction
            &&& r.response@ == Seq::<u8>::empty()
            &&& r.indicators.red == spec_danger(measurement, old(state).high_voltage_enabled)
            &&& r.indicators.green == !spec_danger(measurement, old(state).high_voltage_enabled)
        },
        old(state).fault is None ==> (command matches Some(c) ==> {
            match spec_command_fatal(c.0, c.1@) {
                Some(cause) => {
                    &&& final(state).fault == Some(cause)
                    &&& final(state).high_voltage_enabled == old(state).high_voltage_enabled
                    &&& r.action == HardwareAction::NoAction
                    &&& r.response@ == Seq::<u8>::empty()
                    &&& r.indicators.red && !r.indicators.green
                },
                None => {
                    &&& final(state).fault is None
                    &&& final(state).high_voltage_enabled
                        == spec_command_hv(c.0, c.1@, old(state).high_voltage_enabled)
                    &&& r.action == spec_command_action(c.0, c.1@)
                    &&& r.response@ == spec_command_response(c.0, c.1@, measurement)
                    &&& r.indicators.red
                        == spec_danger(measurement, final(state).high_voltage_enabled)
                    &&& r.indicators.green
                        == !spec_danger(measurement, final(state).high_voltage_enabled)
                },
            }
        }),
{
    if state.fault.is_some() {
        return IterationEffect {
            action: HardwareAction::NoAction,
            response: Vec::new(),
            indicators: Indicators { red: true, green: false },
        };
    }
    match command {
        Some((opcode, payload)) => {
            match dispatch_command(opcode, &payload, measurement, state.high_voltage_enabled) {
                Ok(effect) => {
                    state.high_voltage_enabled = effect.high_voltage_enabled;
                    let indicators = supervise(measurement, state.high_voltage_enabled);
                    IterationEffect {
                        action: effect.action,
                        response: effect.response,
                        indicators,
                    }
                }
                Err(cause) => {
                    state.fault = Some(cause);
                    IterationEffect {
                        action: HardwareAction::NoAction,
                        response: Vec::new(),
                        indicators: Indicators { red: true, green: false },
                    }
                }
            }
        }
        None => {
            let indicators = supervise(measurement, state.high_voltage_enabled);
            IterationEffect {
                action: HardwareAction::NoAction,
                response: Vec::new(),
                indicators,
            }
        }
    }
}

} // verus!
