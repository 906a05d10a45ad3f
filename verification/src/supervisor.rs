//! Safety supervisor: computes the danger condition from the latest
//! measurement and the high-voltage-enable state, every loop iteration,
//! and decides the two status indicators.

use vstd::prelude::*;

verus! {

/// Raw ADC reading at or above which the measured quantity is hazardous
/// on its own, independent of the high-voltage generator state.
pub const DANGER_THRESHOLD: u16 = 67;

/// The danger condition: the measurement has reached the hazard threshold,
/// or the high-voltage generator is enabled.
pub open spec fn spec_danger(measurement: u16, high_voltage_enabled: bool) -> bool {
    measurement >= DANGER_THRESHOLD || high_voltage_enabled
}

/// Desired state of the two status indicators: the red (hazard) LED and
/// the green (safe) LED.
pub struct Indicators {
    pub red: bool,
    pub green: bool,
}

/// One supervisor pass: exactly one of the two indicators is lit, the red
/// one if and only if the danger condition holds.
pub fn supervise(measurement: u16, high_voltage_enabled: bool) -> (r: Indicators)
    ensures
        r.red == spec_danger(measurement, high_voltage_enabled),
        r.green == !spec_danger(measurement, high_voltage_enabled),
{
    let danger = measurement >= DANGER_THRESHOLD || high_voltage_enabled;
    Indicators { red: danger, green: !danger }
}

} // verus!
