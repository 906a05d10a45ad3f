//! Integer state of the PID controller wrapper.
//!
//! The floating-point control law itself runs outside the crate; what is
//! held and decided here is everything else the wrapper owns: whether
//! control is enabled, the control interval and the timestamp of the last
//! update, the gains as raw IEEE-754 single-precision bit patterns, the
//! setpoint, and the accumulated integral term (also as a bit pattern,
//! kept in step with the law by the caller that runs it).  These are the
//! values the persisted record stores and the rate-limiting decision
//! reads.

use vstd::prelude::*;

use crate::store::read_record;
use crate::store::spec_encode;
use crate::store::spec_read;
use crate::store::write_record;
use crate::store::PersistedRecord;
use crate::store::Sector;
use crate::store::ERASED_WORD;
use crate::store::RECORD_WORDS;

verus! {

/// System timer frequency in ticks per second.
pub const SYSTEM_TIMER_FREQ: u64 = 64_000_000;

/// Divisor turning the timer frequency into the default control interval
/// of about one millisecond.
pub const CONTROL_DELTA: u64 = 1000;

/// Bit pattern of the default proportional gain (decimal one hundred).
pub const DEFAULT_KP_BITS: u32 = 0x42C8_0000;

/// Bit pattern of the default integral gain (zero).
pub const DEFAULT_KI_BITS: u32 = 0;

/// Bit pattern of the default derivative gain (zero).
pub const DEFAULT_KD_BITS: u32 = 0;

/// Bit pattern of the symmetric clamp applied to each term and to the
/// output of the control law (decimal two hundred).
pub const OUTPUT_LIMIT_BITS: u32 = 0x4348_0000;

/// The controller wrapper's own state.  The caller that owns the
/// floating-point law mirrors the gain, setpoint and integral-term fields
/// into it; this struct is the authoritative record of them.
pub struct ADCControl {
    /// Whether closed-loop control runs at all.
    pub enabled: bool,
    /// Minimum number of timer ticks between two control updates.
    pub control_ticks: u64,
    /// Timestamp, in timer ticks, of the last control update.
    pub last_control: u64,
    /// Proportional gain, IEEE-754 single-precision bit pattern.
    pub kp_bits: u32,
    /// Integral gain, IEEE-754 single-precision bit pattern.
    pub ki_bits: u32,
    /// Derivative gain, IEEE-754 single-precision bit pattern.
    pub kd_bits: u32,
    /// Target value for the measured quantity.
    pub setpoint_raw: u16,
    /// Accumulated integral term of the law, IEEE-754 single-precision
    /// bit pattern; zero after construction and after a setpoint change.
    pub integral_term_bits: u32,
}

/// The absolute difference of two timestamps.
pub open spec fn spec_abs_diff(a: u64, b: u64) -> u64 {
    if a >= b {
        (a - b) as u64
    } else {
        (b - a) as u64
    }
}

/// The compiled-in default state: control enabled, the one-millisecond
/// interval, default gains, setpoint zero, integral term zero.
pub open spec fn spec_default_control() -> ADCControl {
    ADCControl {
        enabled: true,
        control_ticks: (SYSTEM_TIMER_FREQ / CONTROL_DELTA) as u64,
        last_control: 0,
        kp_bits: DEFAULT_KP_BITS,
        ki_bits: DEFAULT_KI_BITS,
        kd_bits: DEFAULT_KD_BITS,
        setpoint_raw: 0,
        integral_term_bits: 0,
    }
}

/// `c` with the tunable fields overwritten from the record `rec`.
pub open spec fn spec_with_record(c: ADCControl, rec: PersistedRecord) -> ADCControl {
    ADCControl {
        kp_bits: rec.kp_bits,
        ki_bits: rec.ki_bits,
        kd_bits: rec.kd_bits,
        control_ticks: rec.control_ticks,
        ..c
    }
}

/// The state `new` constructs from a sector: defaults, then the persisted
/// record applied over them if the sector holds a valid one.
pub open spec fn spec_restored(sector_words: Seq<u32>) -> ADCControl {
    match spec_read(sector_words) {
        Some(rec) => spec_with_record(spec_default_control(), rec),
        None => spec_default_control(),
    }
}

impl ADCControl {
    /// The record that persisting this state writes.
    pub open spec fn spec_record(&self) -> PersistedRecord {
        PersistedRecord {
            kp_bits: self.kp_bits,
            ki_bits: self.ki_bits,
            kd_bits: self.kd_bits,
            control_ticks: self.control_ticks,
        }
    }

    /// Builds the controller state: compiled-in defaults, then gains and
    /// interval restored from the sector when it holds a valid record.
    pub fn new(sector: &Sector) -> (c: ADCControl)
        requires
            sector.wf(),
        ensures
            c == spec_restored(sector.words@),
    {
        let mut c = ADCControl {
            enabled: true,
            control_ticks: SYSTEM_TIMER_FREQ / CONTROL_DELTA,
            last_control: 0,
            kp_bits: DEFAULT_KP_BITS,
            ki_bits: DEFAULT_KI_BITS,
            kd_bits: DEFAULT_KD_BITS,
            setpoint_raw: 0,
            integral_term_bits: 0,
        };
        c.read_from_flash(sector);
        c
    }

    /// True iff control is enabled and the absolute difference between
    /// `ticks` and the last update exceeds the control interval.
    pub fn needs_control(&self, ticks: u64) -> (r: bool)
        ensures
            r == (self.enabled && spec_abs_diff(ticks, self.last_control) > self.control_ticks),
    {
        let delta = if ticks >= self.last_control {
            ticks - self.last_control
        } else {
            self.last_control - ticks
        };
        self.enabled && delta > self.control_ticks
    }

    /// Current setpoint.
    pub fn setpoint(&self) -> (r: u16)
        ensures
            r == self.setpoint_raw,
    {
        self.setpoint_raw
    }

    /// Stores a new setpoint and zeroes the accumulated integral term, so
    /// that error accumulated toward the old setpoint cannot wind up into
    /// the next control steps.  The caller that owns the floating-point
    /// law must reset its integral term at the same time.
    pub fn set_setpoint(&mut self, setpoint: u16)
        ensures
            *final(self) == (ADCControl {
                setpoint_raw: setpoint,
                integral_term_bits: 0,
                ..*old(self)
            }),
    {
        self.setpoint_raw = setpoint;
        self.integral_term_bits = 0;
    }

    /// Records one control update: the timestamp of the step and the
    /// integral term the law accumulated during it.  Everything else is
    /// untouched.
    pub fn record_control_update(&mut self, ticks: u64, integral_term_bits: u32)
        ensures
            *final(self) == (ADCControl {
                last_control: ticks,
                integral_term_bits: integral_term_bits,
                ..*old(self)
            }),
    {
        self.last_control = ticks;
        self.integral_term_bits = integral_term_bits;
    }

    /// Overwrites gains and control interval from the sector's record if
    /// its magic word matches; on a mismatch nothing at all changes, and
    /// in either case the other fields are untouched.
    pub fn read_from_flash(&mut self, sector: &Sector)
        requires
            sector.wf(),
        ensures
            *final(self) == match spec_read(sector.words@) {
                Some(rec) => spec_with_record(*old(self), rec),
                None => *old(self),
            },
    {
        match read_record(sector) {
            Some(rec) => {
                self.kp_bits = rec.kp_bits;
                self.ki_bits = rec.ki_bits;
                self.kd_bits = rec.kd_bits;
                self.control_ticks = rec.control_ticks;
            }
            None => {}
        }
    }

    /// Persists gains and control interval: erases the whole sector,
    /// then programs exactly the record's words at its base in one pass —
    /// every word past the record stays erased — and a later read yields
    /// the record back unchanged.
    pub fn store_in_flash(&self, sector: &mut Sector)
        requires
            old(sector).wf(),
        ensures
            final(sector).wf(),
            final(sector).words@.len() == old(sector).words@.len(),
            final(sector).words@.subrange(0, RECORD_WORDS as int)
                == spec_encode(self.spec_record()),
            forall|i: int| RECORD_WORDS <= i < final(sector).words@.len()
                ==> final(sector).words@[i] == ERASED_WORD,
            spec_read(final(sector).words@) == Some(self.spec_record()),
    {
        let record = PersistedRecord {
            kp_bits: self.kp_bits,
            ki_bits: self.ki_bits,
            kd_bits: self.kd_bits,
            control_ticks: self.control_ticks,
        };
        write_record(sector, &record);
    }
}

} // verus!
