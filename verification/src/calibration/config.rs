//! Constants of the calibration sequences.
use vstd::prelude::*;

verus! {

pub const PWM_HZ: u32 = 16_000;

pub const PWM_PERIOD_TICKS: u16 = 2_250;

/// Nominal current-sensor conversion, used only for the physical resistance.
pub const NOMINAL_CURRENT_MA_PER_COUNT: u32 = 100;

pub const RESISTANCE_CURRENT_LOW_COUNTS: i16 = 50;

pub const RESISTANCE_CURRENT_HIGH_COUNTS: i16 = 250;

pub const INDUCTANCE_HOLD_CURRENT_COUNTS: i16 = 100;

pub const INDUCTANCE_TARGET_DI_COUNTS: i16 = 20;

pub const INDUCTANCE_PULSES_PER_AXIS: u8 = 20;

pub const FLUX_CURRENT_COUNTS: i16 = 100;

pub const FLUX_TARGET_ERPM: i32 = 6_000;

pub const HALL_CALIBRATION_CURRENT_COUNTS: i16 = 100;

/// Software limit of every phase current while a sequence runs.
pub const CALIBRATION_PHASE_CURRENT_TRIP_COUNTS: u16 = 600;

pub const CALIBRATION_BUS_MINIMUM_MV: u32 = 39_000;

pub const CALIBRATION_BUS_MAXIMUM_MV: u32 = 60_000;

} // verus!
