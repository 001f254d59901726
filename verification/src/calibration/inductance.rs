//! Discharge-anchored voltage-pulse inductance measurement.
//!
//! The rotor is PI-locked, the settled holding voltage is measured, and a
//! current-budgeted direct-voltage step is applied for the latency scan. The
//! largest one-period current rise is used for each pulse. Reporting remains
//! in native units: `L * current_scale` as nanowebers per ADC count.
use vstd::prelude::*;

use super::config::{
    INDUCTANCE_HOLD_CURRENT_COUNTS, INDUCTANCE_PULSES_PER_AXIS, INDUCTANCE_TARGET_DI_COUNTS, PWM_HZ,
};
use super::measure;
use super::measure::{div_round, ramp_i16, ramp_i32, settled, tick_bits_to_uv, tick_mv_q16_to_uv};
use super::types::{Actuation, Failure};
use crate::arith;

verus! {

pub const QUARTER_TURN: u32 = 0x4000_0000;

pub const LOCK_POSITION_COUNT: u8 = 4;

pub const PULSE_LEVEL_COUNT: u8 = 3;

pub const PULSE_DIAGNOSTIC_COUNT: u8 = 12;

/// Half a second.
pub const RAMP_CYCLES: u32 = 8_000;

/// A fifth of a second, as are the next three.
pub const SETTLE_CYCLES: u32 = 3_200;

pub const HOLD_SAMPLE_CYCLES: u32 = 3_200;

pub const AXIS_PAUSE_CYCLES: u32 = 3_200;

pub const DISCHARGE_MAX_CYCLES: u32 = 3_200;

pub const PIPELINE_SCAN_CYCLES: u8 = 5;

pub const MAX_PULSE_ATTEMPTS: u8 = 40;

pub const MIN_VALID_INDUCTANCE_NWB_PER_COUNT: u32 = 100;

pub const MAX_VALID_INDUCTANCE_NWB_PER_COUNT: u32 = 1_000_000;

/// One tick in Q16.16, the smallest pulse step.
pub const ONE_TICK_BITS: i32 = 0x1_0000;

/// Radius of the voltage circle in Q16.16 ticks.
pub const VECTOR_LIMIT_BITS: i32 = 83_427_328;

/// Highest bus voltage with which no sum of the holding window can overflow,
/// whatever the applied voltage.
pub const MAXIMUM_SAMPLE_BUS_MV: u32 = 1_300_000;

#[derive(Clone, Copy, Debug, Default, Eq, PartialEq, Structural)]
pub enum State {
    #[default]
    Idle,
    RampHold,
    SettleHold,
    SampleHold,
    Discharge,
    PulseCommand,
    PulseScan,
    RampDown,
    AxisPause,
    Complete,
    Failed,
}

impl State {
    pub open spec fn is_active(self) -> bool {
        !(self is Idle || self is Complete || self is Failed)
    }

    /// A pulse is being prepared, commanded or watched.
    pub open spec fn is_pulsing(self) -> bool {
        self is Discharge || self is PulseCommand || self is PulseScan
    }

    /// Number of the state in telemetry.
    pub open spec fn number(self) -> u8 {
        match self {
            State::Idle => 0,
            State::RampHold => 1,
            State::SettleHold => 2,
            State::SampleHold => 3,
            State::Discharge => 4,
            State::PulseCommand => 5,
            State::PulseScan => 6,
            State::RampDown => 7,
            State::AxisPause => 8,
            State::Complete => 9,
            State::Failed => 10,
        }
    }

    pub fn active(self) -> (r: bool)
        ensures
            r == self.is_active(),
    {
        !matches!(self, State::Idle | State::Complete | State::Failed)
    }

    pub fn code(self) -> (r: u8)
        ensures
            r == self.number(),
    {
        match self {
            State::Idle => 0,
            State::RampHold => 1,
            State::SettleHold => 2,
            State::SampleHold => 3,
            State::Discharge => 4,
            State::PulseCommand => 5,
            State::PulseScan => 6,
            State::RampDown => 7,
            State::AxisPause => 8,
            State::Complete => 9,
            State::Failed => 10,
        }
    }
}

#[derive(Clone, Copy, Debug, Default, Eq, PartialEq, Structural)]
pub struct Observation {
    pub measured_d_counts: i16,
    pub applied_d_tick_bits: i32,
    pub bus_voltage_mv: u32,
}

#[derive(Clone, Copy, Debug, Eq, PartialEq, Structural)]
pub struct PulseDiagnostic {
    pub pulse_step_ticks: i16,
    pub average_di_counts: i16,
    pub inductance_nwb_per_count: u32,
}

impl PulseDiagnostic {
    pub open spec fn blank() -> Self {
        PulseDiagnostic { pulse_step_ticks: 0, average_di_counts: 0, inductance_nwb_per_count: 0 }
    }
}

impl Default for PulseDiagnostic {
    fn default() -> (r: Self)
        ensures
            r == PulseDiagnostic::blank(),
    {
        PulseDiagnostic { pulse_step_ticks: 0, average_di_counts: 0, inductance_nwb_per_count: 0 }
    }
}

/// What the pulses found.
#[derive(Clone, Copy, Debug, Eq, PartialEq)]
pub struct Outcome {
    pub inductance_d_nwb_per_count: u32,
    pub inductance_q_nwb_per_count: u32,
    pub residual_dead_time_uv: u32,
    pub pulse_step_d_ticks: i16,
    pub pulse_step_q_ticks: i16,
    pub last_pulse_di_counts: i16,
    pub pulse_diagnostics: [PulseDiagnostic; 12],
}

/// Inductance of one pulse: the part of the pulse voltage that resistance does
/// not explain, over the current's rate of rise. Nothing without a rise, without
/// an inductive voltage, or outside the valid range.
pub open spec fn pulse_inductance(
    resistance_uv_per_count: int,
    pulse_step_tick_bits: int,
    bus_voltage_mv: int,
    hold_current_counts: int,
    before_counts: int,
    after_counts: int,
) -> Option<u32> {
    let di = after_counts - before_counts;
    let inductive_uv = measure::tick_microvolts(pulse_step_tick_bits, bus_voltage_mv)
        - arith::trunc_div(
        resistance_uv_per_count * (before_counts + after_counts - 2 * hold_current_counts),
        2,
    );
    let inductance = arith::sat_i64(inductive_uv * 1_000) / (PWM_HZ * di);
    if di > 0 && inductive_uv > 0 && MIN_VALID_INDUCTANCE_NWB_PER_COUNT <= inductance
        <= MAX_VALID_INDUCTANCE_NWB_PER_COUNT {
        Some(inductance as u32)
    } else {
        None
    }
}

/// Pulse step that brings a measured rise to the target rise.
pub open spec fn scaled_step(pulse_bits: int, measured_di: int, ceiling_bits: int) -> int {
    arith::clamp(
        arith::trunc_div(pulse_bits * INDUCTANCE_TARGET_DI_COUNTS, measured_di),
        ONE_TICK_BITS as int,
        ceiling_bits,
    )
}

/// Pulse step of a level: half, all and one and a half times the base.
pub open spec fn level_step(base_bits: int, level: int) -> int {
    if level == 0 {
        arith::max(arith::trunc_div(base_bits, 2), ONE_TICK_BITS as int)
    } else if level == 1 {
        base_bits
    } else {
        arith::trunc_div(arith::sat_i32(base_bits * 3), 2)
    }
}

/// Room that a holding voltage leaves on the voltage circle, at least a tick.
pub open spec fn room_beside(hold_bits: int) -> int {
    arith::max(VECTOR_LIMIT_BITS - arith::sat_i32(arith::abs(hold_bits)), ONE_TICK_BITS as int)
}

#[derive(Clone, Copy, Debug, Eq, PartialEq)]
pub struct InductanceCalibration {
    pub state: State,
    pub failure: Failure,
    pub pending_failure: Failure,
    pub cycle_in_state: u32,
    pub position: u8,
    pub pulse_level: u8,
    pub resistance_uv_per_count: u32,
    pub hold_current_sum: i64,
    pub hold_voltage_tick_bits_sum: i64,
    pub hold_voltage_tick_mv_q16_sum: i64,
    pub hold_sample_count: u32,
    pub hold_current_counts: i16,
    pub hold_voltage_tick_bits: i32,
    pub pulse_ceiling_tick_bits: i32,
    pub pulse_step_tick_bits: i32,
    pub base_pulse_step_tick_bits: i32,
    pub probing: bool,
    pub previous_current_counts: i16,
    pub best_before_counts: i16,
    pub best_after_counts: i16,
    pub best_di_counts: i16,
    pub scan_remaining: u8,
    pub pulse_attempts: u8,
    pub valid_pulses: u8,
    pub inductance_sum_nwb_per_count: u64,
    pub pulse_di_sum_counts: i32,
    pub result: Outcome,
}

impl InductanceCalibration {
    pub open spec fn idle() -> Self {
        InductanceCalibration {
            state: State::Idle,
            failure: Failure::NoFailure,
            pending_failure: Failure::NoFailure,
            cycle_in_state: 0,
            position: 0,
            pulse_level: 0,
            resistance_uv_per_count: 0,
            hold_current_sum: 0,
            hold_voltage_tick_bits_sum: 0,
            hold_voltage_tick_mv_q16_sum: 0,
            hold_sample_count: 0,
            hold_current_counts: 0,
            hold_voltage_tick_bits: 0,
            pulse_ceiling_tick_bits: 0,
            pulse_step_tick_bits: 0,
            base_pulse_step_tick_bits: 0,
            probing: true,
            previous_current_counts: 0,
            best_before_counts: 0,
            best_after_counts: 0,
            best_di_counts: i16::MIN,
            scan_remaining: 0,
            pulse_attempts: 0,
            valid_pulses: 0,
            inductance_sum_nwb_per_count: 0,
            pulse_di_sum_counts: 0,
            result: Outcome {
                inductance_d_nwb_per_count: 0,
                inductance_q_nwb_per_count: 0,
                residual_dead_time_uv: 0,
                pulse_step_d_ticks: 0,
                pulse_step_q_ticks: 0,
                last_pulse_di_counts: 0,
                pulse_diagnostics: vstd::array::spec_array_fill_for_copy_type::<PulseDiagnostic, 12>(
                    PulseDiagnostic::blank(),
                ),
            },
        }
    }

    /// Longest stay in the present state.
    pub open spec fn duration(self) -> int {
        match self.state {
            State::RampHold | State::RampDown => RAMP_CYCLES as int,
            State::SettleHold => SETTLE_CYCLES as int,
            State::SampleHold => HOLD_SAMPLE_CYCLES as int,
            State::Discharge => DISCHARGE_MAX_CYCLES as int,
            State::AxisPause => AXIS_PAUSE_CYCLES as int,
            _ => 1,
        }
    }

    /// The sums of the holding window are of that many samples.
    pub open spec fn hold_wf(self) -> bool {
        let n = self.hold_sample_count;
        &&& n <= HOLD_SAMPLE_CYCLES
        &&& -0x8000 * n <= self.hold_current_sum <= 0x8000 * n
        &&& -0x8000_0000 * n <= self.hold_voltage_tick_bits_sum <= 0x8000_0000 * n
        &&& -2_791_728_742_400_000 * n <= self.hold_voltage_tick_mv_q16_sum
            <= 2_791_728_742_400_000 * n
    }

    /// The pulse step stays inside the room that the holding voltage leaves.
    pub open spec fn pulse_wf(self) -> bool {
        &&& self.pulse_ceiling_tick_bits == room_beside(self.hold_voltage_tick_bits as int)
        &&& 0 < self.pulse_step_tick_bits <= self.pulse_ceiling_tick_bits
        &&& !self.probing ==> level_step(self.base_pulse_step_tick_bits as int, 2)
            <= self.pulse_ceiling_tick_bits
    }

    pub open spec fn wf(self) -> bool {
        &&& self.position < LOCK_POSITION_COUNT
        &&& self.pulse_level < PULSE_LEVEL_COUNT
        &&& self.hold_wf()
        &&& !self.probing ==> 0 < self.base_pulse_step_tick_bits <= VECTOR_LIMIT_BITS
        &&& self.state.is_active() ==> self.cycle_in_state < self.duration()
        &&& self.state is RampHold || self.state is SettleHold ==> self.hold_sample_count == 0
        &&& self.state is SampleHold ==> self.hold_sample_count == self.cycle_in_state
        &&& (self.state is RampHold || self.state is SettleHold || self.state is SampleHold)
            && !self.probing ==> self.pulse_step_tick_bits == level_step(
            self.base_pulse_step_tick_bits as int,
            0,
        )
        &&& self.state.is_pulsing() ==> self.pulse_wf()
        &&& self.state is AxisPause ==> self.position + 1 < LOCK_POSITION_COUNT
    }

    /// The sequence at the start of a state.
    pub open spec fn entered(self, state: State) -> Self {
        InductanceCalibration { state, cycle_in_state: 0, ..self }
    }

    /// The sequence on the way down after a failure.
    pub open spec fn abandoned(self, failure: Failure) -> Self {
        InductanceCalibration { pending_failure: failure, ..self }.entered(State::RampDown)
    }

    /// One more cycle in the present state; after its last one the next state.
    pub open spec fn waited(self, cycles: u32, next: State) -> Self {
        if self.cycle_in_state + 1 >= cycles {
            self.entered(next)
        } else {
            InductanceCalibration { cycle_in_state: (self.cycle_in_state + 1) as u32, ..self }
        }
    }

    /// The sequence with one more sample of the holding window.
    pub open spec fn hold_recorded(self, o: Observation) -> Self {
        InductanceCalibration {
            hold_current_sum: (self.hold_current_sum + o.measured_d_counts) as i64,
            hold_voltage_tick_bits_sum: (self.hold_voltage_tick_bits_sum
                + o.applied_d_tick_bits) as i64,
            hold_voltage_tick_mv_q16_sum: (self.hold_voltage_tick_mv_q16_sum
                + o.applied_d_tick_bits * o.bus_voltage_mv) as i64,
            hold_sample_count: (self.hold_sample_count + 1) as u32,
            cycle_in_state: (self.cycle_in_state + 1) as u32,
            ..self
        }
    }

    /// The sequence with the holding window averaged.
    pub open spec fn hold_averaged(self) -> Self {
        let n = self.hold_sample_count as int;
        InductanceCalibration {
            hold_current_counts: arith::sat_i16(
                measure::rounded_quotient(self.hold_current_sum as int, n),
            ) as i16,
            hold_voltage_tick_bits: arith::sat_i32(
                measure::rounded_quotient(self.hold_voltage_tick_bits_sum as int, n),
            ) as i32,
            ..self
        }
    }

    /// Holding voltage that resistance does not explain.
    pub open spec fn residual_uv(self) -> int {
        arith::sat_i64(
            measure::microvolts_of(
                measure::rounded_quotient(
                    self.hold_voltage_tick_mv_q16_sum as int,
                    self.hold_sample_count as int,
                ),
            ) - self.resistance_uv_per_count * self.hold_current_counts,
        )
    }

    /// The sequence after its averaged holding window was judged.
    pub open spec fn hold_judged(self) -> Self {
        if !measure::is_settled(
            self.hold_current_counts as int,
            INDUCTANCE_HOLD_CURRENT_COUNTS as int,
        ) {
            self.abandoned(Failure::CurrentDidNotSettle)
        } else {
            let ceiling = room_beside(self.hold_voltage_tick_bits as int);
            let known = InductanceCalibration {
                result: Outcome {
                    residual_dead_time_uv: arith::max(
                        self.result.residual_dead_time_uv as int,
                        arith::sat_u32(self.residual_uv()),
                    ) as u32,
                    ..self.result
                },
                pulse_ceiling_tick_bits: ceiling as i32,
                ..self
            };
            if self.probing {
                InductanceCalibration {
                    pulse_step_tick_bits: arith::max(ceiling / 50, ONE_TICK_BITS as int) as i32,
                    ..known
                }.entered(State::Discharge)
            } else if level_step(self.base_pulse_step_tick_bits as int, 2) > ceiling {
                known.abandoned(Failure::PulseResponse)
            } else {
                known.entered(State::Discharge)
            }
        }
    }

    /// The sequence after a sample of the holding window.
    pub open spec fn held(self, o: Observation) -> Self {
        let recorded = self.hold_recorded(o);
        if recorded.cycle_in_state < HOLD_SAMPLE_CYCLES {
            recorded
        } else {
            recorded.hold_averaged().hold_judged()
        }
    }

    /// The sequence after a sample of the discharge: it ends when the current is
    /// back at the holding current, or after its longest time.
    pub open spec fn discharged(self, measured_d_counts: int) -> Self {
        if arith::abs(measured_d_counts - self.hold_current_counts) <= 10 || self.cycle_in_state + 1
            >= DISCHARGE_MAX_CYCLES {
            self.entered(State::PulseCommand)
        } else {
            InductanceCalibration { cycle_in_state: (self.cycle_in_state + 1) as u32, ..self }
        }
    }

    /// The sequence at the start of a scan.
    pub open spec fn scan_begun(self, measured_d_counts: i16) -> Self {
        InductanceCalibration {
            previous_current_counts: measured_d_counts,
            best_before_counts: measured_d_counts,
            best_after_counts: measured_d_counts,
            best_di_counts: i16::MIN,
            scan_remaining: PIPELINE_SCAN_CYCLES,
            state: State::PulseScan,
            ..self
        }
    }

    /// The largest rise so far and its two currents, with one more sample.
    pub open spec fn rise_watched(self, measured_d_counts: i16) -> Self {
        let di = arith::sat_i16(measured_d_counts - self.previous_current_counts);
        let better = di > self.best_di_counts;
        InductanceCalibration {
            best_di_counts: if better {
                di as i16
            } else {
                self.best_di_counts
            },
            best_before_counts: if better {
                self.previous_current_counts
            } else {
                self.best_before_counts
            },
            best_after_counts: if better {
                measured_d_counts
            } else {
                self.best_after_counts
            },
            previous_current_counts: measured_d_counts,
            scan_remaining: arith::max(self.scan_remaining - 1, 0) as u8,
            ..self
        }
    }

    /// The sequence after a probing pulse: the step grows until the rise reaches
    /// its target or the room is used up, and then becomes the base.
    pub open spec fn probed(self) -> Self {
        let two_thirds = self.pulse_ceiling_tick_bits * 2 / 3;
        let found = if self.best_di_counts >= INDUCTANCE_TARGET_DI_COUNTS {
            Some(
                scaled_step(
                    self.pulse_step_tick_bits as int,
                    self.best_di_counts as int,
                    two_thirds,
                ),
            )
        } else if self.pulse_step_tick_bits >= self.pulse_ceiling_tick_bits {
            Some(two_thirds)
        } else {
            None
        };
        match found {
            Some(base) => InductanceCalibration {
                base_pulse_step_tick_bits: base as i32,
                probing: false,
                pulse_step_tick_bits: level_step(base, self.pulse_level as int) as i32,
                ..self
            },
            None => InductanceCalibration {
                pulse_step_tick_bits: arith::min(
                    arith::trunc_div(self.pulse_step_tick_bits * 3, 2),
                    self.pulse_ceiling_tick_bits as int,
                ) as i32,
                ..self
            },
        }.entered(State::Discharge)
    }

    /// The sequence with a measuring pulse counted.
    pub open spec fn pulse_counted(self, bus_voltage_mv: u32) -> Self {
        let inductance = if self.best_di_counts >= 2 {
            pulse_inductance(
                self.resistance_uv_per_count as int,
                self.pulse_step_tick_bits as int,
                bus_voltage_mv as int,
                self.hold_current_counts as int,
                self.best_before_counts as int,
                self.best_after_counts as int,
            )
        } else {
            None
        };
        let attempted = InductanceCalibration {
            pulse_attempts: arith::sat_u8(self.pulse_attempts + 1) as u8,
            ..self
        };
        match inductance {
            Some(value) => InductanceCalibration {
                inductance_sum_nwb_per_count: arith::sat_u64(
                    self.inductance_sum_nwb_per_count + value,
                ) as u64,
                pulse_di_sum_counts: arith::sat_i32(
                    self.pulse_di_sum_counts + self.best_di_counts,
                ) as i32,
                valid_pulses: arith::sat_u8(self.valid_pulses + 1) as u8,
                ..attempted
            },
            None => attempted,
        }
    }

    /// The sequence after a counted pulse: another one, the end of the level, or
    /// too many attempts.
    pub open spec fn pulse_judged(self) -> Self {
        if self.valid_pulses >= INDUCTANCE_PULSES_PER_AXIS {
            InductanceCalibration {
                cycle_in_state: 0,
                ..self.level_finished(
                    arith::sat_u32(
                        self.inductance_sum_nwb_per_count as int / self.valid_pulses as int,
                    ) as u32,
                )
            }
        } else if self.pulse_attempts >= MAX_PULSE_ATTEMPTS {
            self.abandoned(Failure::PulseResponse)
        } else {
            self.entered(State::Discharge)
        }
    }

    /// The sequence after the last sample of a scan.
    pub open spec fn pulse_finished(self, bus_voltage_mv: u32) -> Self {
        let noted = InductanceCalibration {
            result: Outcome { last_pulse_di_counts: self.best_di_counts, ..self.result },
            ..self
        };
        if self.probing {
            noted.probed()
        } else {
            noted.pulse_counted(bus_voltage_mv).pulse_judged()
        }
    }

    /// The sequence after a sample of the scan.
    pub open spec fn scanned(self, o: Observation) -> Self {
        let watched = self.rise_watched(o.measured_d_counts);
        if watched.scan_remaining == 0 {
            watched.pulse_finished(o.bus_voltage_mv)
        } else {
            watched
        }
    }

    /// The sequence without counted pulses.
    pub open spec fn without_pulses(self) -> Self {
        InductanceCalibration {
            pulse_attempts: 0,
            valid_pulses: 0,
            inductance_sum_nwb_per_count: 0,
            pulse_di_sum_counts: 0,
            ..self
        }
    }

    /// Results with a level's average: every level is kept, and the middle level
    /// of the first two positions gives the d and the q inductance.
    pub open spec fn level_results(self, average_inductance: u32) -> Outcome {
        let step_ticks = (self.pulse_step_tick_bits as int / 0x1_0000) as i16;
        let kept = Outcome {
            pulse_diagnostics: vstd::array::spec_array_update(
                self.result.pulse_diagnostics,
                self.position * PULSE_LEVEL_COUNT + self.pulse_level,
                PulseDiagnostic {
                    pulse_step_ticks: step_ticks,
                    average_di_counts: arith::wrap_i16(
                        arith::trunc_div(
                            self.pulse_di_sum_counts as int,
                            self.valid_pulses as int,
                        ),
                    ) as i16,
                    inductance_nwb_per_count: average_inductance,
                },
            ),
            ..self.result
        };
        if self.pulse_level == 1 && self.position == 0 {
            Outcome {
                inductance_d_nwb_per_count: average_inductance,
                pulse_step_d_ticks: step_ticks,
                ..kept
            }
        } else if self.pulse_level == 1 && self.position == 1 {
            Outcome {
                inductance_q_nwb_per_count: average_inductance,
                pulse_step_q_ticks: step_ticks,
                ..kept
            }
        } else {
            kept
        }
    }

    /// The sequence at the end of a level.
    pub open spec fn level_finished(self, average_inductance: u32) -> Self {
        let kept = InductanceCalibration {
            result: self.level_results(average_inductance),
            ..self
        };
        if self.pulse_level + 1 < PULSE_LEVEL_COUNT {
            InductanceCalibration {
                pulse_level: (self.pulse_level + 1) as u8,
                pulse_step_tick_bits: level_step(
                    self.base_pulse_step_tick_bits as int,
                    self.pulse_level + 1,
                ) as i32,
                state: State::Discharge,
                ..kept.without_pulses()
            }
        } else {
            InductanceCalibration { state: State::RampDown, ..kept }
        }
    }

    /// Both inductances lie in the valid range.
    pub open spec fn result_is_valid(self) -> bool {
        &&& MIN_VALID_INDUCTANCE_NWB_PER_COUNT <= self.result.inductance_d_nwb_per_count
            <= MAX_VALID_INDUCTANCE_NWB_PER_COUNT
        &&& MIN_VALID_INDUCTANCE_NWB_PER_COUNT <= self.result.inductance_q_nwb_per_count
            <= MAX_VALID_INDUCTANCE_NWB_PER_COUNT
    }

    /// The sequence after a sample of the ramp down.
    pub open spec fn lowered(self) -> Self {
        if self.cycle_in_state + 1 < RAMP_CYCLES {
            InductanceCalibration { cycle_in_state: (self.cycle_in_state + 1) as u32, ..self }
        } else if !(self.pending_failure is NoFailure) {
            InductanceCalibration {
                failure: self.pending_failure,
                pending_failure: Failure::NoFailure,
                ..self
            }.entered(State::Failed)
        } else if self.position + 1 < LOCK_POSITION_COUNT {
            self.entered(State::AxisPause)
        } else if self.result_is_valid() {
            self.entered(State::Complete)
        } else {
            InductanceCalibration { failure: Failure::InductanceRange, ..self }.entered(
                State::Failed,
            )
        }
    }

    /// The sequence with the measurements of a position forgotten; the base
    /// stays.
    pub open spec fn position_reset(self) -> Self {
        InductanceCalibration {
            cycle_in_state: 0,
            pulse_level: 0,
            hold_current_sum: 0,
            hold_voltage_tick_bits_sum: 0,
            hold_voltage_tick_mv_q16_sum: 0,
            hold_sample_count: 0,
            hold_current_counts: 0,
            hold_voltage_tick_bits: 0,
            pulse_ceiling_tick_bits: 0,
            pulse_step_tick_bits: level_step(self.base_pulse_step_tick_bits as int, 0) as i32,
            ..self.without_pulses()
        }
    }

    /// The sequence after a sample of the pause between positions.
    pub open spec fn paused(self) -> Self {
        if self.cycle_in_state + 1 >= AXIS_PAUSE_CYCLES {
            InductanceCalibration {
                state: State::RampHold,
                ..InductanceCalibration {
                    position: (self.position + 1) as u8,
                    ..self
                }.position_reset()
            }
        } else {
            InductanceCalibration { cycle_in_state: (self.cycle_in_state + 1) as u32, ..self }
        }
    }

    /// The sequence after one control sample.
    pub open spec fn observed(self, o: Observation) -> Self {
        match self.state {
            State::Idle | State::Complete | State::Failed => self,
            State::RampHold => self.waited(RAMP_CYCLES, State::SettleHold),
            State::SettleHold => self.waited(SETTLE_CYCLES, State::SampleHold),
            State::SampleHold => self.held(o),
            State::Discharge => self.discharged(o.measured_d_counts as int),
            State::PulseCommand => self.scan_begun(o.measured_d_counts),
            State::PulseScan => self.scanned(o),
            State::RampDown => self.lowered(),
            State::AxisPause => self.paused(),
        }
    }

    /// A sample can be taken: the sums of the holding window cannot overflow, and
    /// the base that a probing pulse would be scaled to is at least one tick.
    pub open spec fn accepts(self, o: Observation) -> bool {
        &&& self.state is SampleHold ==> o.bus_voltage_mv <= MAXIMUM_SAMPLE_BUS_MV
        &&& self.state is PulseScan && self.probing && self.rise_watched(
            o.measured_d_counts,
        ).scan_remaining == 0 && self.rise_watched(o.measured_d_counts).best_di_counts
            >= INDUCTANCE_TARGET_DI_COUNTS ==> self.pulse_ceiling_tick_bits * 2 / 3
            >= ONE_TICK_BITS
    }

    /// The sequence after a failure from outside.
    pub open spec fn failed(self, failure: Failure) -> Self {
        InductanceCalibration {
            state: State::Failed,
            failure,
            pending_failure: Failure::NoFailure,
            cycle_in_state: 0,
            ..self
        }
    }

    /// What the sequence asks of the power stage.
    pub open spec fn demanded(self) -> Actuation {
        let angle = (self.position * QUARTER_TURN) as u32;
        match self.state {
            State::RampHold => Actuation::Current {
                angle,
                direct_counts: measure::ramped(
                    0,
                    INDUCTANCE_HOLD_CURRENT_COUNTS as int,
                    self.cycle_in_state as int,
                    RAMP_CYCLES as int,
                ) as i16,
                quadrature_counts: 0,
            },
            State::SettleHold | State::SampleHold => Actuation::Current {
                angle,
                direct_counts: INDUCTANCE_HOLD_CURRENT_COUNTS,
                quadrature_counts: 0,
            },
            State::Discharge => Actuation::DirectVoltage {
                angle,
                direct_tick_bits: self.hold_voltage_tick_bits,
            },
            State::PulseCommand | State::PulseScan => Actuation::DirectVoltage {
                angle,
                direct_tick_bits: arith::sat_i32(
                    self.hold_voltage_tick_bits + self.pulse_step_tick_bits,
                ) as i32,
            },
            State::RampDown => Actuation::DirectVoltage {
                angle,
                direct_tick_bits: measure::ramped(
                    self.hold_voltage_tick_bits as int,
                    0,
                    self.cycle_in_state as int,
                    RAMP_CYCLES as int,
                ) as i32,
            },
            _ => Actuation::Off,
        }
    }
}

impl InductanceCalibration {
    pub fn new() -> (r: Self)
        ensures
            r == InductanceCalibration::idle(),
            r.wf(),
    {
        InductanceCalibration {
            state: State::Idle,
            failure: Failure::NoFailure,
            pending_failure: Failure::NoFailure,
            cycle_in_state: 0,
            position: 0,
            pulse_level: 0,
            resistance_uv_per_count: 0,
            hold_current_sum: 0,
            hold_voltage_tick_bits_sum: 0,
            hold_voltage_tick_mv_q16_sum: 0,
            hold_sample_count: 0,
            hold_current_counts: 0,
            hold_voltage_tick_bits: 0,
            pulse_ceiling_tick_bits: 0,
            pulse_step_tick_bits: 0,
            base_pulse_step_tick_bits: 0,
            probing: true,
            previous_current_counts: 0,
            best_before_counts: 0,
            best_after_counts: 0,
            best_di_counts: i16::MIN,
            scan_remaining: 0,
            pulse_attempts: 0,
            valid_pulses: 0,
            inductance_sum_nwb_per_count: 0,
            pulse_di_sum_counts: 0,
            result: Outcome {
                inductance_d_nwb_per_count: 0,
                inductance_q_nwb_per_count: 0,
                residual_dead_time_uv: 0,
                pulse_step_d_ticks: 0,
                pulse_step_q_ticks: 0,
                last_pulse_di_counts: 0,
                pulse_diagnostics: [PulseDiagnostic::default();12],
            },
        }
    }

    /// Starts the sequence with a measured resistance; without one it fails.
    pub fn start(&mut self, resistance_uv_per_count: u32)
        ensures
            final(self).wf(),
            *final(self) == (if resistance_uv_per_count == 0 {
                InductanceCalibration::idle().failed(Failure::MissingPrerequisite)
            } else {
                InductanceCalibration {
                    resistance_uv_per_count,
                    state: State::RampHold,
                    ..InductanceCalibration::idle()
                }
            }),
    {
        *self = InductanceCalibration::new();
        if resistance_uv_per_count == 0 {
            self.fail(Failure::MissingPrerequisite);
            return;
        }
        self.resistance_uv_per_count = resistance_uv_per_count;
        self.state = State::RampHold;
    }

    pub fn fail(&mut self, failure: Failure)
        requires
            old(self).wf(),
        ensures
            final(self).wf(),
            *final(self) == old(self).failed(failure),
    {
        self.state = State::Failed;
        self.failure = failure;
        self.pending_failure = Failure::NoFailure;
        self.cycle_in_state = 0;
    }

    pub fn state(&self) -> (r: State)
        ensures
            r == self.state,
    {
        self.state
    }

    pub fn failure(&self) -> (r: Failure)
        ensures
            r == self.failure,
    {
        self.failure
    }

    pub fn active(&self) -> (r: bool)
        ensures
            r == self.state.is_active(),
    {
        self.state.active()
    }

    pub fn result(&self) -> (r: Outcome)
        ensures
            r == self.result,
    {
        self.result
    }

    /// Valid pulses in the low byte, position and level in the high byte.
    pub fn pulse_progress(&self) -> (r: u16)
        requires
            self.wf(),
        ensures
            r == self.valid_pulses + 0x100 * (self.position * PULSE_LEVEL_COUNT + self.pulse_level),
    {
        self.valid_pulses as u16 + 0x100 * (self.position as u16 * PULSE_LEVEL_COUNT as u16
            + self.pulse_level as u16)
    }

    pub fn actuation(&self) -> (r: Actuation)
        requires
            self.wf(),
        ensures
            r == self.demanded(),
    {
        let angle: u32 = self.position as u32 * QUARTER_TURN;
        match self.state {
            State::RampHold => Actuation::Current {
                angle,
                direct_counts: ramp_i16(
                    0,
                    INDUCTANCE_HOLD_CURRENT_COUNTS,
                    self.cycle_in_state,
                    RAMP_CYCLES,
                ),
                quadrature_counts: 0,
            },
            State::SettleHold | State::SampleHold => Actuation::Current {
                angle,
                direct_counts: INDUCTANCE_HOLD_CURRENT_COUNTS,
                quadrature_counts: 0,
            },
            State::Discharge => Actuation::DirectVoltage {
                angle,
                direct_tick_bits: self.hold_voltage_tick_bits,
            },
            State::PulseCommand | State::PulseScan => Actuation::DirectVoltage {
                angle,
                direct_tick_bits: arith::sat_add_i32(
                    self.hold_voltage_tick_bits,
                    self.pulse_step_tick_bits,
                ),
            },
            State::RampDown => Actuation::DirectVoltage {
                angle,
                direct_tick_bits: ramp_i32(
                    self.hold_voltage_tick_bits,
                    0,
                    self.cycle_in_state,
                    RAMP_CYCLES,
                ),
            },
            State::Idle | State::AxisPause | State::Complete | State::Failed => Actuation::Off,
        }
    }

    /// Says whether a sample can be taken.
    pub fn can_observe(&self, observation: &Observation) -> (r: bool)
        requires
            self.wf(),
        ensures
            r == self.accepts(*observation),
    {
        if matches!(self.state, State::SampleHold) {
            return observation.bus_voltage_mv <= MAXIMUM_SAMPLE_BUS_MV;
        }
        if !matches!(self.state, State::PulseScan) || !self.probing || self.scan_remaining > 1 {
            return true;
        }
        let rise: i16 = arith::sat_i32_to_i16(
            observation.measured_d_counts as i32 - self.previous_current_counts as i32,
        );
        let best: i16 = if rise > self.best_di_counts {
            rise
        } else {
            self.best_di_counts
        };
        best < INDUCTANCE_TARGET_DI_COUNTS || self.pulse_ceiling_tick_bits * 2 / 3 >= ONE_TICK_BITS
    }

    /// Advances the sequence by one 16 kHz control sample.
    pub fn observe(&mut self, observation: Observation)
        requires
            old(self).wf(),
            old(self).accepts(observation),
        ensures
            final(self).wf(),
            *final(self) == old(self).observed(observation),
    {
        match self.state {
            State::Idle | State::Complete | State::Failed => {},
            State::RampHold => self.advance_after(RAMP_CYCLES, State::SettleHold),
            State::SettleHold => self.advance_after(SETTLE_CYCLES, State::SampleHold),
            State::SampleHold => self.observe_hold(observation),
            State::Discharge => self.observe_discharge(observation.measured_d_counts),
            State::PulseCommand => self.begin_scan(observation.measured_d_counts),
            State::PulseScan => self.observe_scan(observation),
            State::RampDown => self.observe_ramp_down(),
            State::AxisPause => self.observe_pause(),
        }
    }

    fn advance_after(&mut self, cycles: u32, next: State)
        requires
            old(self).cycle_in_state < cycles,
        ensures
            *final(self) == old(self).waited(cycles, next),
    {
        self.cycle_in_state = self.cycle_in_state + 1;
        if self.cycle_in_state >= cycles {
            self.enter(next);
        }
    }

    fn enter(&mut self, state: State)
        ensures
            *final(self) == old(self).entered(state),
    {
        self.state = state;
        self.cycle_in_state = 0;
    }

    fn abandon(&mut self, failure: Failure)
        ensures
            *final(self) == old(self).abandoned(failure),
    {
        self.pending_failure = failure;
        self.enter(State::RampDown);
    }

    fn observe_hold(&mut self, observation: Observation)
        requires
            old(self).wf(),
            old(self).state is SampleHold,
            observation.bus_voltage_mv <= MAXIMUM_SAMPLE_BUS_MV,
        ensures
            final(self).wf(),
            *final(self) == old(self).held(observation),
    {
        self.record_hold(observation);
        if self.cycle_in_state < HOLD_SAMPLE_CYCLES {
            return;
        }
        self.average_hold();
        self.judge_hold();
    }

    fn record_hold(&mut self, observation: Observation)
        requires
            old(self).hold_wf(),
            old(self).hold_sample_count < HOLD_SAMPLE_CYCLES,
            old(self).cycle_in_state < HOLD_SAMPLE_CYCLES,
            observation.bus_voltage_mv <= MAXIMUM_SAMPLE_BUS_MV,
        ensures
            final(self).hold_wf(),
            *final(self) == old(self).hold_recorded(observation),
    {
        assert(-2_791_728_742_400_000 <= observation.applied_d_tick_bits
            * observation.bus_voltage_mv <= 2_791_728_742_400_000) by (nonlinear_arith)
            requires
                -0x8000_0000 <= observation.applied_d_tick_bits <= 0x7fff_ffff,
                0 <= observation.bus_voltage_mv <= 1_300_000,
        ;
        self.hold_current_sum = self.hold_current_sum + observation.measured_d_counts as i64;
        self.hold_voltage_tick_bits_sum = self.hold_voltage_tick_bits_sum
            + observation.applied_d_tick_bits as i64;
        self.hold_voltage_tick_mv_q16_sum = self.hold_voltage_tick_mv_q16_sum
            + observation.applied_d_tick_bits as i64 * observation.bus_voltage_mv as i64;
        self.hold_sample_count = self.hold_sample_count + 1;
        self.cycle_in_state = self.cycle_in_state + 1;
    }

    fn average_hold(&mut self)
        requires
            old(self).hold_wf(),
            old(self).hold_sample_count > 0,
        ensures
            final(self).hold_wf(),
            *final(self) == old(self).hold_averaged(),
    {
        let count: i64 = self.hold_sample_count as i64;
        self.hold_current_counts = arith::sat_i64_to_i16(div_round(self.hold_current_sum, count));
        self.hold_voltage_tick_bits = arith::sat_i64_to_i32(
            div_round(self.hold_voltage_tick_bits_sum, count),
        );
    }

    fn judge_hold(&mut self)
        requires
            old(self).hold_wf(),
            old(self).hold_sample_count > 0,
            old(self).position < LOCK_POSITION_COUNT,
            old(self).pulse_level < PULSE_LEVEL_COUNT,
            !old(self).probing ==> 0 < old(self).base_pulse_step_tick_bits <= VECTOR_LIMIT_BITS,
            !old(self).probing ==> old(self).pulse_step_tick_bits == level_step(
                old(self).base_pulse_step_tick_bits as int,
                0,
            ),
        ensures
            final(self).wf(),
            *final(self) == old(self).hold_judged(),
    {
        if !settled(self.hold_current_counts, INDUCTANCE_HOLD_CURRENT_COUNTS) {
            self.abandon(Failure::CurrentDidNotSettle);
            return;
        }
        let count: i64 = self.hold_sample_count as i64;
        let hold_voltage_uv: i64 = tick_mv_q16_to_uv(
            div_round(self.hold_voltage_tick_mv_q16_sum, count),
        );
        assert(-0x8000_0000_0000 <= self.resistance_uv_per_count * self.hold_current_counts
            <= 0x8000_0000_0000) by (nonlinear_arith)
            requires
                0 <= self.resistance_uv_per_count <= 0xffff_ffff,
                -0x8000 <= self.hold_current_counts <= 0x7fff,
        ;
        let residual: i64 = hold_voltage_uv - self.resistance_uv_per_count as i64
            * self.hold_current_counts as i64;
        let residual_uv: u32 = if residual < 0 {
            0
        } else {
            arith::sat_u64_to_u32(residual as u64)
        };
        if residual_uv > self.result.residual_dead_time_uv {
            self.result.residual_dead_time_uv = residual_uv;
        }
        let room: i32 = VECTOR_LIMIT_BITS - arith::sat_abs_i32(self.hold_voltage_tick_bits);
        self.pulse_ceiling_tick_bits = if room > ONE_TICK_BITS {
            room
        } else {
            ONE_TICK_BITS
        };
        if self.probing {
            let step: i32 = self.pulse_ceiling_tick_bits / 50;
            self.pulse_step_tick_bits = if step > ONE_TICK_BITS {
                step
            } else {
                ONE_TICK_BITS
            };
        } else if pulse_step_for_level(self.base_pulse_step_tick_bits, PULSE_LEVEL_COUNT - 1)
            > self.pulse_ceiling_tick_bits {
            self.abandon(Failure::PulseResponse);
            return;
        }
        self.enter(State::Discharge);
    }

    fn observe_discharge(&mut self, measured_d_counts: i16)
        requires
            old(self).wf(),
            old(self).state is Discharge,
        ensures
            final(self).wf(),
            *final(self) == old(self).discharged(measured_d_counts as int),
    {
        self.cycle_in_state = self.cycle_in_state + 1;
        let distance: u32 = arith::unsigned_abs_i32(
            measured_d_counts as i32 - self.hold_current_counts as i32,
        );
        if distance <= 10 || self.cycle_in_state >= DISCHARGE_MAX_CYCLES {
            self.enter(State::PulseCommand);
        }
    }

    fn begin_scan(&mut self, measured_d_counts: i16)
        requires
            old(self).wf(),
            old(self).state is PulseCommand,
        ensures
            final(self).wf(),
            *final(self) == old(self).scan_begun(measured_d_counts),
    {
        self.previous_current_counts = measured_d_counts;
        self.best_before_counts = measured_d_counts;
        self.best_after_counts = measured_d_counts;
        self.best_di_counts = i16::MIN;
        self.scan_remaining = PIPELINE_SCAN_CYCLES;
        self.state = State::PulseScan;
    }

    fn observe_scan(&mut self, observation: Observation)
        requires
            old(self).wf(),
            old(self).state is PulseScan,
            old(self).accepts(observation),
        ensures
            final(self).wf(),
            *final(self) == old(self).scanned(observation),
    {
        let di: i16 = arith::sat_i32_to_i16(
            observation.measured_d_counts as i32 - self.previous_current_counts as i32,
        );
        if di > self.best_di_counts {
            self.best_di_counts = di;
            self.best_before_counts = self.previous_current_counts;
            self.best_after_counts = observation.measured_d_counts;
        }
        self.previous_current_counts = observation.measured_d_counts;
        self.scan_remaining = self.scan_remaining.saturating_sub(1);
        if self.scan_remaining == 0 {
            self.finish_pulse(observation.bus_voltage_mv);
        }
    }

    fn finish_pulse(&mut self, bus_voltage_mv: u32)
        requires
            old(self).wf(),
            old(self).state is PulseScan,
            old(self).probing && old(self).best_di_counts >= INDUCTANCE_TARGET_DI_COUNTS
                ==> old(self).pulse_ceiling_tick_bits * 2 / 3 >= ONE_TICK_BITS,
        ensures
            final(self).wf(),
            *final(self) == old(self).pulse_finished(bus_voltage_mv),
    {
        self.result.last_pulse_di_counts = self.best_di_counts;
        if self.probing {
            self.finish_probe();
        } else {
            self.count_pulse(bus_voltage_mv);
            self.judge_pulse();
        }
    }

    fn finish_probe(&mut self)
        requires
            old(self).wf(),
            old(self).state is PulseScan,
            old(self).probing,
            old(self).best_di_counts >= INDUCTANCE_TARGET_DI_COUNTS
                ==> old(self).pulse_ceiling_tick_bits * 2 / 3 >= ONE_TICK_BITS,
        ensures
            final(self).wf(),
            *final(self) == old(self).probed(),
    {
        let two_thirds: i32 = self.pulse_ceiling_tick_bits * 2 / 3;
        if self.best_di_counts >= INDUCTANCE_TARGET_DI_COUNTS {
            self.base_pulse_step_tick_bits = scale_pulse_to_target(
                self.pulse_step_tick_bits,
                self.best_di_counts,
                two_thirds,
            );
            self.probing = false;
        } else if self.pulse_step_tick_bits >= self.pulse_ceiling_tick_bits {
            self.base_pulse_step_tick_bits = two_thirds;
            self.probing = false;
        } else {
            let grown: i64 = self.pulse_step_tick_bits as i64 * 3 / 2;
            self.pulse_step_tick_bits = if grown < self.pulse_ceiling_tick_bits as i64 {
                grown as i32
            } else {
                self.pulse_ceiling_tick_bits
            };
        }
        if !self.probing {
            self.pulse_step_tick_bits = pulse_step_for_level(
                self.base_pulse_step_tick_bits,
                self.pulse_level,
            );
        }
        self.enter(State::Discharge);
    }

    fn count_pulse(&mut self, bus_voltage_mv: u32)
        ensures
            *final(self) == old(self).pulse_counted(bus_voltage_mv),
    {
        self.pulse_attempts = self.pulse_attempts.saturating_add(1);
        if self.best_di_counts < 2 {
            return;
        }
        match pulse_inductance_nwb_per_count(
            self.resistance_uv_per_count,
            self.pulse_step_tick_bits,
            bus_voltage_mv,
            self.hold_current_counts,
            self.best_before_counts,
            self.best_after_counts,
        ) {
            Some(inductance) => {
                self.inductance_sum_nwb_per_count = self.inductance_sum_nwb_per_count.saturating_add(
                    inductance as u64,
                );
                self.pulse_di_sum_counts = arith::sat_add_i32(
                    self.pulse_di_sum_counts,
                    self.best_di_counts as i32,
                );
                self.valid_pulses = self.valid_pulses.saturating_add(1);
            },
            None => {},
        }
    }

    fn judge_pulse(&mut self)
        requires
            old(self).wf(),
            old(self).state is PulseScan,
            !old(self).probing,
        ensures
            final(self).wf(),
            *final(self) == old(self).pulse_judged(),
    {
        if self.valid_pulses >= INDUCTANCE_PULSES_PER_AXIS {
            let average: u32 = arith::sat_u64_to_u32(
                self.inductance_sum_nwb_per_count / self.valid_pulses as u64,
            );
            self.finish_pulse_level(average);
            self.cycle_in_state = 0;
        } else if self.pulse_attempts >= MAX_PULSE_ATTEMPTS {
            self.abandon(Failure::PulseResponse);
        } else {
            self.enter(State::Discharge);
        }
    }

    /// Keeps the average of a level and goes on to the next one.
    pub fn finish_pulse_level(&mut self, average_inductance: u32)
        requires
            old(self).position < LOCK_POSITION_COUNT,
            old(self).pulse_level < PULSE_LEVEL_COUNT,
            old(self).valid_pulses > 0,
        ensures
            *final(self) == old(self).level_finished(average_inductance),
            final(self).result.pulse_diagnostics@ == old(self).result.pulse_diagnostics@.update(
                old(self).position * PULSE_LEVEL_COUNT + old(self).pulse_level,
                PulseDiagnostic {
                    pulse_step_ticks: (old(self).pulse_step_tick_bits as int / 0x1_0000) as i16,
                    average_di_counts: arith::wrap_i16(
                        arith::trunc_div(
                            old(self).pulse_di_sum_counts as int,
                            old(self).valid_pulses as int,
                        ),
                    ) as i16,
                    inductance_nwb_per_count: average_inductance,
                },
            ),
    {
        let step_ticks: i16 = arith::floor_div_i32(self.pulse_step_tick_bits, 0x1_0000) as i16;
        self.keep_level(average_inductance, step_ticks);
        if self.pulse_level + 1 < PULSE_LEVEL_COUNT {
            self.pulse_level = self.pulse_level + 1;
            self.pulse_step_tick_bits = pulse_step_for_level(
                self.base_pulse_step_tick_bits,
                self.pulse_level,
            );
            self.reset_pulse_accumulator();
            self.state = State::Discharge;
        } else {
            self.state = State::RampDown;
        }
    }

    fn keep_level(&mut self, average_inductance: u32, step_ticks: i16)
        requires
            old(self).position < LOCK_POSITION_COUNT,
            old(self).pulse_level < PULSE_LEVEL_COUNT,
            old(self).valid_pulses > 0,
            step_ticks == old(self).pulse_step_tick_bits as int / 0x1_0000,
        ensures
            *final(self) == (InductanceCalibration {
                result: old(self).level_results(average_inductance),
                ..*old(self)
            }),
    {
        let index: usize = self.position as usize * PULSE_LEVEL_COUNT as usize
            + self.pulse_level as usize;
        let average_di: i32 = self.pulse_di_sum_counts / self.valid_pulses as i32;
        let diagnostic = PulseDiagnostic {
            pulse_step_ticks: step_ticks,
            average_di_counts: arith::wrapping_i16(average_di),
            inductance_nwb_per_count: average_inductance,
        };
        let ghost before = self.result.pulse_diagnostics;
        self.result.pulse_diagnostics[index] = diagnostic;
        assert(self.result.pulse_diagnostics =~= vstd::array::spec_array_update(
            before,
            index as int,
            diagnostic,
        ));
        if self.pulse_level == 1 {
            if self.position == 0 {
                self.result.inductance_d_nwb_per_count = average_inductance;
                self.result.pulse_step_d_ticks = step_ticks;
            } else if self.position == 1 {
                self.result.inductance_q_nwb_per_count = average_inductance;
                self.result.pulse_step_q_ticks = step_ticks;
            }
        }
    }

    fn observe_ramp_down(&mut self)
        requires
            old(self).wf(),
            old(self).state is RampDown,
        ensures
            final(self).wf(),
            *final(self) == old(self).lowered(),
    {
        self.cycle_in_state = self.cycle_in_state + 1;
        if self.cycle_in_state < RAMP_CYCLES {
            return;
        }
        if !matches!(self.pending_failure, Failure::NoFailure) {
            self.state = State::Failed;
            self.failure = self.pending_failure;
            self.pending_failure = Failure::NoFailure;
        } else if self.position + 1 < LOCK_POSITION_COUNT {
            self.state = State::AxisPause;
        } else if self.finish_result() {
            self.state = State::Complete;
        } else {
            self.state = State::Failed;
            self.failure = Failure::InductanceRange;
        }
        self.cycle_in_state = 0;
    }

    /// Says whether both inductances are valid.
    pub fn finish_result(&self) -> (r: bool)
        ensures
            r == self.result_is_valid(),
    {
        let ld: u32 = self.result.inductance_d_nwb_per_count;
        let lq: u32 = self.result.inductance_q_nwb_per_count;
        MIN_VALID_INDUCTANCE_NWB_PER_COUNT <= ld && ld <= MAX_VALID_INDUCTANCE_NWB_PER_COUNT
            && MIN_VALID_INDUCTANCE_NWB_PER_COUNT <= lq && lq <= MAX_VALID_INDUCTANCE_NWB_PER_COUNT
    }

    fn observe_pause(&mut self)
        requires
            old(self).wf(),
            old(self).state is AxisPause,
        ensures
            final(self).wf(),
            *final(self) == old(self).paused(),
    {
        self.cycle_in_state = self.cycle_in_state + 1;
        if self.cycle_in_state >= AXIS_PAUSE_CYCLES {
            self.position = self.position + 1;
            self.reset_position();
            self.state = State::RampHold;
        }
    }

    /// Forgets the measurements of a position; the base stays.
    pub fn reset_position(&mut self)
        ensures
            *final(self) == old(self).position_reset(),
    {
        self.cycle_in_state = 0;
        self.pulse_level = 0;
        self.hold_current_sum = 0;
        self.hold_voltage_tick_bits_sum = 0;
        self.hold_voltage_tick_mv_q16_sum = 0;
        self.hold_sample_count = 0;
        self.hold_current_counts = 0;
        self.hold_voltage_tick_bits = 0;
        self.pulse_ceiling_tick_bits = 0;
        self.pulse_step_tick_bits = pulse_step_for_level(
            self.base_pulse_step_tick_bits,
            self.pulse_level,
        );
        self.reset_pulse_accumulator();
    }

    fn reset_pulse_accumulator(&mut self)
        ensures
            *final(self) == old(self).without_pulses(),
    {
        self.pulse_attempts = 0;
        self.valid_pulses = 0;
        self.inductance_sum_nwb_per_count = 0;
        self.pulse_di_sum_counts = 0;
    }
}

pub fn pulse_inductance_nwb_per_count(
    resistance_uv_per_count: u32,
    pulse_step_tick_bits: i32,
    bus_voltage_mv: u32,
    hold_current_counts: i16,
    before_counts: i16,
    after_counts: i16,
) -> (r: Option<u32>)
    ensures
        r == pulse_inductance(
            resistance_uv_per_count as int,
            pulse_step_tick_bits as int,
            bus_voltage_mv as int,
            hold_current_counts as int,
            before_counts as int,
            after_counts as int,
        ),
{
    let di: i64 = after_counts as i64 - before_counts as i64;
    if di <= 0 {
        return None;
    }
    let pulse_uv: i64 = tick_bits_to_uv(pulse_step_tick_bits, bus_voltage_mv);
    let twice_delta: i64 = before_counts as i64 + after_counts as i64 - 2
        * hold_current_counts as i64;
    assert(-0x4_0000_0000_0000 <= resistance_uv_per_count * twice_delta <= 0x4_0000_0000_0000) by (
    nonlinear_arith)
        requires
            0 <= resistance_uv_per_count <= 0xffff_ffff,
            -0x2_0000 <= twice_delta <= 0x2_0000,
    ;
    let resistive_uv: i64 = resistance_uv_per_count as i64 * twice_delta / 2;
    let inductive_uv: i64 = pulse_uv - resistive_uv;
    if inductive_uv <= 0 {
        return None;
    }
    let numerator: i64 = arith::sat_mul_i64(inductive_uv, 1_000);
    let denominator: i64 = PWM_HZ as i64 * di;
    let inductance: i64 = numerator / denominator;
    if inductance >= MIN_VALID_INDUCTANCE_NWB_PER_COUNT as i64 && inductance
        <= MAX_VALID_INDUCTANCE_NWB_PER_COUNT as i64 {
        Some(inductance as u32)
    } else {
        None
    }
}

pub fn scale_pulse_to_target(pulse_bits: i32, measured_di: i16, ceiling_bits: i32) -> (r: i32)
    requires
        measured_di != 0,
        ceiling_bits >= ONE_TICK_BITS,
    ensures
        r == scaled_step(pulse_bits as int, measured_di as int, ceiling_bits as int),
        ONE_TICK_BITS <= r <= ceiling_bits,
{
    let scaled: i128 = arith::trunc_div_i64(
        pulse_bits as i64 * INDUCTANCE_TARGET_DI_COUNTS as i64,
        measured_di as i64,
    );
    if scaled < ONE_TICK_BITS as i128 {
        ONE_TICK_BITS
    } else if scaled > ceiling_bits as i128 {
        ceiling_bits
    } else {
        scaled as i32
    }
}

pub fn pulse_step_for_level(base_bits: i32, level: u8) -> (r: i32)
    ensures
        r == level_step(base_bits as int, level as int),
{
    if level == 0 {
        let half: i32 = base_bits / 2;
        if half > ONE_TICK_BITS {
            half
        } else {
            ONE_TICK_BITS
        }
    } else if level == 1 {
        base_bits
    } else {
        arith::sat_i64_to_i32(base_bits as i64 * 3) / 2
    }
}

/// The pulse equation recovers the inductance: a pulse whose voltage is what
/// resistance and inductance ask for over one control period is measured as that
/// inductance.
pub proof fn law_pulse_equation_recovers_the_inductance(
    resistance_uv_per_count: int,
    pulse_step_tick_bits: int,
    bus_voltage_mv: int,
    hold_current_counts: int,
    before_counts: int,
    after_counts: int,
    inductance: int,
)
    requires
        0 < after_counts - before_counts <= 0x1_0000,
        MIN_VALID_INDUCTANCE_NWB_PER_COUNT <= inductance <= MAX_VALID_INDUCTANCE_NWB_PER_COUNT,
        measure::tick_microvolts(pulse_step_tick_bits, bus_voltage_mv) == arith::trunc_div(
            resistance_uv_per_count * (before_counts + after_counts - 2 * hold_current_counts),
            2,
        ) + 16 * inductance * (after_counts - before_counts),
    ensures
        pulse_inductance(
            resistance_uv_per_count,
            pulse_step_tick_bits,
            bus_voltage_mv,
            hold_current_counts,
            before_counts,
            after_counts,
        ) == Some(inductance as u32),
{
    let di = after_counts - before_counts;
    let inductive = 16 * inductance * di;
    assert(0 < inductive <= 16 * 1_000_000 * 0x1_0000 && (inductive * 1_000) == inductance * (
    16_000 * di) && (inductance * (16_000 * di)) / (16_000 * di) == inductance) by (
    nonlinear_arith)
        requires
            0 < di <= 0x1_0000,
            100 <= inductance <= 1_000_000,
            inductive == 16 * inductance * di,
    ;
}

/// A pulse never leaves the voltage circle: while a pulse is prepared or
/// applied, the holding voltage and the step together stay inside it, unless the
/// holding voltage alone leaves less than one tick.
pub proof fn law_pulse_stays_inside_the_voltage_circle(sequence: InductanceCalibration)
    requires
        sequence.wf(),
        sequence.state.is_pulsing(),
        arith::abs(sequence.hold_voltage_tick_bits as int) <= VECTOR_LIMIT_BITS - ONE_TICK_BITS,
    ensures
        arith::abs(sequence.hold_voltage_tick_bits as int) + sequence.pulse_step_tick_bits
            <= VECTOR_LIMIT_BITS,
{
}

/// Once calibrated, the ladder of steps is the same at every position: moving on
/// keeps the base, and every level is derived from it alone.
pub proof fn law_ladder_is_the_same_at_every_position(sequence: InductanceCalibration)
    ensures
        sequence.position_reset().base_pulse_step_tick_bits == sequence.base_pulse_step_tick_bits,
        sequence.position_reset().probing == sequence.probing,
        sequence.position_reset().pulse_step_tick_bits == level_step(
            sequence.base_pulse_step_tick_bits as int,
            0,
        ),
{
}

/// An explicit failure switches the power stage off at once.
pub proof fn law_failure_switches_off(sequence: InductanceCalibration, failure: Failure)
    ensures
        sequence.failed(failure).demanded() == Actuation::Off,
        !sequence.failed(failure).state.is_active(),
        sequence.failed(failure).failure == failure,
{
}

impl InductanceCalibration {
    /// The sequence after `count` equal control samples.
    pub open spec fn repeated(self, o: Observation, count: nat) -> Self
        decreases count,
    {
        if count == 0 {
            self
        } else {
            self.repeated(o, (count - 1) as nat).observed(o)
        }
    }
}

proof fn lemma_hold_window(sequence: InductanceCalibration, o: Observation, count: nat)
    requires
        sequence.state is SampleHold,
        sequence.cycle_in_state == 0,
        sequence.hold_sample_count == 0,
        sequence.hold_current_sum == 0,
        sequence.hold_voltage_tick_bits_sum == 0,
        sequence.hold_voltage_tick_mv_q16_sum == 0,
        o.bus_voltage_mv <= MAXIMUM_SAMPLE_BUS_MV,
        count < HOLD_SAMPLE_CYCLES,
    ensures
        ({
            let product = o.applied_d_tick_bits * o.bus_voltage_mv;
            &&& sequence.repeated(o, count) == (InductanceCalibration {
                hold_current_sum: (count * o.measured_d_counts) as i64,
                hold_voltage_tick_bits_sum: (count * o.applied_d_tick_bits) as i64,
                hold_voltage_tick_mv_q16_sum: (count * product) as i64,
                hold_sample_count: count as u32,
                cycle_in_state: count as u32,
                ..sequence
            })
            &&& arith::abs(count * o.measured_d_counts) <= 3_200 * 0x8000
            &&& arith::abs(count * o.applied_d_tick_bits) <= 3_200 * 0x8000_0000
            &&& arith::abs(count * product) <= 3_200 * 2_791_728_742_400_000
            &&& arith::abs(product) <= 2_791_728_742_400_000
        }),
    decreases count,
{
    let c = o.measured_d_counts as int;
    let t = o.applied_d_tick_bits as int;
    let product = o.applied_d_tick_bits * o.bus_voltage_mv;
    assert(arith::abs(product) <= 2_791_728_742_400_000) by (nonlinear_arith)
        requires
            product == o.applied_d_tick_bits * o.bus_voltage_mv,
            -0x8000_0000 <= o.applied_d_tick_bits <= 0x7fff_ffff,
            0 <= o.bus_voltage_mv <= 1_300_000,
    ;
    assert(arith::abs(count * c) <= 3_200 * 0x8000 && arith::abs(count * t) <= 3_200 * 0x8000_0000
        && arith::abs(count * product) <= 3_200 * 2_791_728_742_400_000) by (nonlinear_arith)
        requires
            0 <= count <= 3_200,
            arith::abs(c) <= 0x8000,
            arith::abs(t) <= 0x8000_0000,
            arith::abs(product) <= 2_791_728_742_400_000,
    ;
    if count > 0 {
        let before = (count - 1) as nat;
        lemma_hold_window(sequence, o, before);
        assert(count * c == before * c + c && count * t == before * t + t && count * product
            == before * product + product) by (nonlinear_arith)
            requires
                count == before + 1,
        ;
    } else {
        assert(0 * c == 0 && 0 * t == 0 && 0 * product == 0);
    }
}

/// A holding window of equal samples averages to the sample. A current within
/// three tenths of its target is accepted, and the voltage that resistance does
/// not explain is kept if it is the largest so far; any other current ends the
/// measurement.
#[verifier::rlimit(40)]
pub proof fn law_hold_window_averages_its_samples(sequence: InductanceCalibration, o: Observation)
    requires
        sequence.wf(),
        sequence.state is SampleHold,
        sequence.cycle_in_state == 0,
        sequence.hold_current_sum == 0,
        sequence.hold_voltage_tick_bits_sum == 0,
        sequence.hold_voltage_tick_mv_q16_sum == 0,
        sequence.probing,
        o.bus_voltage_mv <= MAXIMUM_SAMPLE_BUS_MV,
    ensures
        ({
            let next = sequence.repeated(o, HOLD_SAMPLE_CYCLES as nat);
            let settled = 70 <= o.measured_d_counts <= 130;
            let residual = measure::tick_microvolts(
                o.applied_d_tick_bits as int,
                o.bus_voltage_mv as int,
            ) - sequence.resistance_uv_per_count * o.measured_d_counts;
            let before = sequence.result.residual_dead_time_uv;
            &&& next.hold_current_counts == o.measured_d_counts
            &&& next.hold_voltage_tick_bits == o.applied_d_tick_bits
            &&& settled ==> {
                &&& next.state is Discharge
                &&& residual <= before ==> next.result.residual_dead_time_uv == before
                &&& before <= residual <= u32::MAX ==> next.result.residual_dead_time_uv == residual
                &&& arith::abs(o.applied_d_tick_bits as int) <= VECTOR_LIMIT_BITS - ONE_TICK_BITS
                    ==> next.pulse_ceiling_tick_bits == VECTOR_LIMIT_BITS - arith::abs(
                    o.applied_d_tick_bits as int,
                )
                &&& 50 * (next.pulse_step_tick_bits - ONE_TICK_BITS) <= next.pulse_ceiling_tick_bits
            }
            &&& !settled ==> next.state is RampDown && next.pending_failure is CurrentDidNotSettle
        }),
{
    lemma_hold_window(sequence, o, 3_199);
    let last = sequence.repeated(o, 3_199);
    let c = o.measured_d_counts as int;
    let t = o.applied_d_tick_bits as int;
    let product = o.applied_d_tick_bits * o.bus_voltage_mv;
    assert(sequence.repeated(o, 3_200) == last.observed(o));
    measure::law_mean_of_equal_samples(c, 3_200);
    measure::law_mean_of_equal_samples(t, 3_200);
    measure::law_mean_of_equal_samples(product, 3_200);
    let averaged = last.hold_recorded(o).hold_averaged();
    assert(averaged.hold_voltage_tick_mv_q16_sum == 3_200 * product);
    assert(averaged.hold_current_counts == c && averaged.hold_voltage_tick_bits == t);
    let drop = sequence.resistance_uv_per_count * o.measured_d_counts;
    assert(arith::abs(drop) <= 0xffff_ffff * 0x8000) by (nonlinear_arith)
        requires
            drop == sequence.resistance_uv_per_count * o.measured_d_counts,
            0 <= sequence.resistance_uv_per_count <= 0xffff_ffff,
            -0x8000 <= o.measured_d_counts <= 0x7fff,
    ;
    measure::law_ticks_are_shares_of_the_bus(o.applied_d_tick_bits, o.bus_voltage_mv);
    assert(arith::abs(measure::tick_microvolts(t, o.bus_voltage_mv as int)) <= 0x1_0000_0000_0000);
    assert(averaged.residual_uv() == measure::tick_microvolts(t, o.bus_voltage_mv as int) - drop);
}

/// A scan keeps the largest rise from one sample to the next, with the two
/// currents that made it, and ends after its fifth sample.
pub proof fn law_scan_keeps_the_largest_rise(sequence: InductanceCalibration, measured: i16)
    requires
        -0x4000 <= measured < 0x4000,
        -0x4000 <= sequence.previous_current_counts < 0x4000,
        sequence.best_di_counts == i16::MIN || sequence.best_after_counts
            - sequence.best_before_counts == sequence.best_di_counts,
    ensures
        ({
            let next = sequence.rise_watched(measured);
            let rise = measured - sequence.previous_current_counts;
            &&& next.best_di_counts >= rise
            &&& next.best_di_counts >= sequence.best_di_counts
            &&& next.best_di_counts == rise || next.best_di_counts == sequence.best_di_counts
            &&& next.best_di_counts == i16::MIN || next.best_after_counts - next.best_before_counts
                == next.best_di_counts
            &&& rise > sequence.best_di_counts ==> next.best_after_counts == measured
                && next.best_before_counts == sequence.previous_current_counts
            &&& next.previous_current_counts == measured
            &&& sequence.scan_remaining > 0 ==> next.scan_remaining == sequence.scan_remaining - 1
        }),
        ({
            let begun = sequence.scan_begun(measured);
            &&& begun.state is PulseScan
            &&& begun.scan_remaining == 5
            &&& begun.previous_current_counts == measured
            &&& begun.best_di_counts == i16::MIN
        }),
{
}

/// Probing looks for the step that raises the current by twenty counts: a rise
/// that reaches the target scales the step down to it, within two thirds of the
/// room, a smaller one enlarges the step by half, and at the end of the room two
/// thirds of it become the base.
#[verifier::rlimit(40)]
pub proof fn law_probing_approaches_the_target_rise(sequence: InductanceCalibration)
    requires
        sequence.pulse_wf(),
        sequence.probing,
        sequence.best_di_counts > 0,
        0x1_8000 <= sequence.pulse_ceiling_tick_bits <= 0x1000_0000,
        sequence.pulse_level == 0,
    ensures
        ({
            let next = sequence.probed();
            let step = sequence.pulse_step_tick_bits as int;
            let rise = sequence.best_di_counts as int;
            let room = sequence.pulse_ceiling_tick_bits as int;
            let base = next.base_pulse_step_tick_bits as int;
            &&& next.state is Discharge
            &&& rise >= 20 ==> {
                &&& !next.probing
                &&& 0x1_0000 <= base
                &&& 3 * base <= 2 * room
                &&& 0x1_0000 < base && 3 * (base + 1) <= 2 * room ==> rise * base <= 20 * step < rise
                    * (base + 1)
                &&& next.pulse_step_tick_bits == arith::max(base / 2, 0x1_0000)
            }
            &&& rise < 20 && step < room ==> {
                &&& next.probing
                &&& next.pulse_step_tick_bits == arith::min(step + step / 2, room)
            }
            &&& rise < 20 && step >= room ==> !next.probing && 3 * base <= 2 * room < 3 * (base + 1)
        }),
{
    let step = sequence.pulse_step_tick_bits as int;
    let rise = sequence.best_di_counts as int;
    let room = sequence.pulse_ceiling_tick_bits as int;
    let n = step * 20;
    let q = n / rise;
    assert(0 <= q && rise * q <= n < rise * (q + 1)) by (nonlinear_arith)
        requires
            q == n / rise,
            0 <= n,
            0 < rise,
    ;
    let two_thirds = room * 2 / 3;
    assert(0x1_0000 <= two_thirds && 3 * two_thirds <= 2 * room < 3 * (two_thirds + 1));
    let next = sequence.probed();
    let base = next.base_pulse_step_tick_bits as int;
    if rise >= 20 {
        assert(scaled_step(step, rise, two_thirds) == arith::clamp(q, 0x1_0000, two_thirds));
        assert(base == arith::clamp(q, 0x1_0000, two_thirds));
        assert(0x1_0000 < base && 3 * (base + 1) <= 2 * room ==> base == q);
    } else if step < room {
        assert(arith::trunc_div(step * 3, 2) == step + step / 2);
    }
}

/// A measuring pulse is an attempt, and a valid one adds its inductance and its
/// rise to the sums; a rise of less than two counts is never valid.
pub proof fn law_valid_pulse_adds_its_inductance(sequence: InductanceCalibration, bus_mv: u32)
    requires
        sequence.pulse_attempts < 100,
        sequence.valid_pulses < 100,
        sequence.inductance_sum_nwb_per_count <= 0xffff_ffff_ffff,
        arith::abs(sequence.pulse_di_sum_counts as int) <= 0x4000_0000,
    ensures
        ({
            let next = sequence.pulse_counted(bus_mv);
            let found = pulse_inductance(
                sequence.resistance_uv_per_count as int,
                sequence.pulse_step_tick_bits as int,
                bus_mv as int,
                sequence.hold_current_counts as int,
                sequence.best_before_counts as int,
                sequence.best_after_counts as int,
            );
            let valid = sequence.best_di_counts >= 2 && found is Some;
            &&& next.pulse_attempts == sequence.pulse_attempts + 1
            &&& valid ==> {
                &&& next.valid_pulses == sequence.valid_pulses + 1
                &&& next.inductance_sum_nwb_per_count == sequence.inductance_sum_nwb_per_count
                    + found->0
                &&& next.pulse_di_sum_counts == sequence.pulse_di_sum_counts
                    + sequence.best_di_counts
            }
            &&& !valid ==> next == (InductanceCalibration {
                pulse_attempts: (sequence.pulse_attempts + 1) as u8,
                ..sequence
            })
        }),
{
}

/// The inductance of a pulse is the part of its voltage that resistance does not
/// explain, over the rise in a control period: in whole units rounded down, with
/// nothing found without a rise.
pub proof fn law_inductance_is_voltage_over_rise(
    resistance_uv_per_count: int,
    pulse_step_tick_bits: int,
    bus_voltage_mv: int,
    hold_current_counts: int,
    before_counts: int,
    after_counts: int,
)
    ensures
        ({
            let rise = after_counts - before_counts;
            let drop = resistance_uv_per_count * (before_counts + after_counts - 2
                * hold_current_counts);
            let volts = measure::tick_microvolts(pulse_step_tick_bits, bus_voltage_mv);
            match pulse_inductance(
                resistance_uv_per_count,
                pulse_step_tick_bits,
                bus_voltage_mv,
                hold_current_counts,
                before_counts,
                after_counts,
            ) {
                Some(inductance) => {
                    &&& rise > 0
                    &&& 100 <= inductance <= 1_000_000
                    &&& 2 * volts - drop <= 9_000_000_000_000_000 ==> {
                        &&& 16_000 * (rise * inductance) <= 500 * (2 * volts - drop) + 1_000
                        &&& 500 * (2 * volts - drop) - 1_000 < 16_000 * (rise * (inductance + 1))
                    }
                },
                None => true,
            }
        }),
{
    let rise = after_counts - before_counts;
    let drop = resistance_uv_per_count * (before_counts + after_counts - 2 * hold_current_counts);
    let volts = measure::tick_microvolts(pulse_step_tick_bits, bus_voltage_mv);
    measure::lemma_truncated(drop, 2);
    let inductive = volts - arith::trunc_div(drop, 2);
    if rise > 0 && inductive > 0 && 2 * volts - drop <= 9_000_000_000_000_000 {
        let n = inductive * 1_000;
        let d = 16_000 * rise;
        let q = n / d;
        assert(d * q <= n < d * (q + 1)) by (nonlinear_arith)
            requires
                q == n / d,
                0 < d,
        ;
        assert(d * q == 16_000 * (rise * q) && d * (q + 1) == 16_000 * (rise * (q + 1)))
            by (nonlinear_arith)
            requires
                d == 16_000 * rise,
        ;
    }
}

/// Twenty valid pulses end a level with their mean, kept in the level's own place;
/// forty attempts without them end the measurement, and anything else goes on
/// with another pulse.
pub proof fn law_level_ends_with_its_mean(sequence: InductanceCalibration)
    requires
        sequence.wf(),
        sequence.valid_pulses <= 40,
        sequence.inductance_sum_nwb_per_count <= 0xffff_ffff,
    ensures
        ({
            let next = sequence.pulse_judged();
            let pulses = sequence.valid_pulses as int;
            let sum = sequence.inductance_sum_nwb_per_count as int;
            let place = 3 * sequence.position + sequence.pulse_level;
            let mean = next.result.pulse_diagnostics[place].inductance_nwb_per_count as int;
            &&& pulses >= 20 ==> {
                &&& pulses * mean <= sum < pulses * (mean + 1)
                &&& sequence.position == 0 && sequence.pulse_level == 1
                    ==> next.result.inductance_d_nwb_per_count == mean
                &&& sequence.position == 1 && sequence.pulse_level == 1
                    ==> next.result.inductance_q_nwb_per_count == mean
                &&& !(sequence.position == 0 && sequence.pulse_level == 1)
                    ==> next.result.inductance_d_nwb_per_count
                    == sequence.result.inductance_d_nwb_per_count
                &&& !(sequence.position == 1 && sequence.pulse_level == 1)
                    ==> next.result.inductance_q_nwb_per_count
                    == sequence.result.inductance_q_nwb_per_count
                &&& sequence.pulse_level < 2 ==> next.state is Discharge && next.pulse_level
                    == sequence.pulse_level + 1 && next.valid_pulses == 0 && next.pulse_attempts
                    == 0 && next.inductance_sum_nwb_per_count == 0
                &&& sequence.pulse_level == 2 ==> next.state is RampDown
                &&& forall|other: int|
                    0 <= other < 12 && other != place ==> (#[trigger] next.result.pulse_diagnostics[
                    other]) == sequence.result.pulse_diagnostics[other]
            }
            &&& pulses < 20 && sequence.pulse_attempts >= 40 ==> next.state is RampDown
                && next.pending_failure is PulseResponse
            &&& pulses < 20 && sequence.pulse_attempts < 40 ==> next.state is Discharge
                && next.result == sequence.result
        }),
{
    let pulses = sequence.valid_pulses as int;
    let sum = sequence.inductance_sum_nwb_per_count as int;
    if pulses >= 20 {
        let mean = sum / pulses;
        assert(0 <= mean <= sum && pulses * mean <= sum < pulses * (mean + 1)) by (nonlinear_arith)
            requires
                mean == sum / pulses,
                0 <= sum,
                1 <= pulses,
        ;
    }
}

/// The three levels of a ladder are half the base, the base and one and a half
/// times the base.
pub proof fn law_levels_are_half_whole_and_one_and_a_half(base_bits: i32)
    requires
        0x2_0000 <= base_bits <= 0x1000_0000,
    ensures
        0 <= base_bits - 2 * level_step(base_bits as int, 0) <= 1,
        level_step(base_bits as int, 1) == base_bits,
        0 <= 3 * base_bits - 2 * level_step(base_bits as int, 2) <= 1,
{
}

/// Positions are a quarter turn apart and visited in order; after the last one
/// the measurement completes if both inductances are valid, and a failure that
/// was found on the way is reported at the end of its ramp.
pub proof fn law_positions_are_visited_in_order(sequence: InductanceCalibration, o: Observation)
    requires
        sequence.wf(),
    ensures
        ({
            let next = sequence.observed(o);
            let down = sequence.state is RampDown && sequence.cycle_in_state + 1 == 8_000;
            let clean = sequence.pending_failure is NoFailure;
            let d = sequence.result.inductance_d_nwb_per_count;
            let q = sequence.result.inductance_q_nwb_per_count;
            let valid = 100 <= d <= 1_000_000 && 100 <= q <= 1_000_000;
            &&& down && !clean ==> next.state is Failed && next.failure == sequence.pending_failure
            &&& down && clean && sequence.position < 3 ==> next.state is AxisPause
            &&& down && clean && sequence.position == 3 && valid ==> next.state is Complete
            &&& down && clean && sequence.position == 3 && !valid ==> next.state is Failed
                && next.failure is InductanceRange
            &&& sequence.state is AxisPause && sequence.cycle_in_state + 1 == 3_200 ==> {
                &&& next.state is RampHold
                &&& next.position == sequence.position + 1
                &&& next.pulse_level == 0
                &&& next.hold_sample_count == 0
                &&& next.valid_pulses == 0
                &&& next.result == sequence.result
                &&& next.resistance_uv_per_count == sequence.resistance_uv_per_count
            }
            &&& sequence.state is RampHold && sequence.cycle_in_state + 1 == 8_000 ==> next.state
                is SettleHold
            &&& sequence.state is SettleHold && sequence.cycle_in_state + 1 == 3_200 ==> next.state
                is SampleHold
            &&& !(sequence.state is AxisPause) ==> next.position == sequence.position
        }),
{
}

/// The discharge ends when the current is within ten counts of the holding
/// current, or after its longest time.
pub proof fn law_discharge_waits_for_the_holding_current(
    sequence: InductanceCalibration,
    o: Observation,
)
    requires
        sequence.wf(),
        sequence.state is Discharge,
    ensures
        ({
            let next = sequence.observed(o);
            let near = -10 <= o.measured_d_counts - sequence.hold_current_counts <= 10;
            &&& near || sequence.cycle_in_state + 1 == 3_200 ==> next.state is PulseCommand
            &&& !near && sequence.cycle_in_state + 1 < 3_200 ==> next.state is Discharge
                && next.cycle_in_state == sequence.cycle_in_state + 1
        }),
{
}

/// The rotor is locked at the position's quarter turn. The d current rises in a
/// straight line and is held; from then on the holding voltage is applied, with
/// the step on top of it during a pulse, and taken down in a straight line.
pub proof fn law_actuation_follows_the_sequence(sequence: InductanceCalibration)
    requires
        sequence.wf(),
        arith::abs(sequence.hold_voltage_tick_bits as int) <= VECTOR_LIMIT_BITS,
    ensures
        match sequence.demanded() {
            Actuation::Current { angle, direct_counts, quadrature_counts } => {
                &&& angle == 0x4000_0000 * sequence.position
                &&& quadrature_counts == 0
                &&& sequence.state is RampHold ==> arith::abs(
                    8_000 * direct_counts - 100 * sequence.cycle_in_state,
                ) < 8_000
                &&& sequence.state is SettleHold || sequence.state is SampleHold ==> direct_counts
                    == 100
                &&& sequence.state is RampHold || sequence.state is SettleHold || sequence.state
                    is SampleHold
            },
            Actuation::DirectVoltage { angle, direct_tick_bits } => {
                let hold = sequence.hold_voltage_tick_bits;
                &&& angle == 0x4000_0000 * sequence.position
                &&& sequence.state is Discharge ==> direct_tick_bits == hold
                &&& sequence.state is PulseCommand || sequence.state is PulseScan
                    ==> direct_tick_bits == hold + sequence.pulse_step_tick_bits
                &&& sequence.state is RampDown ==> arith::abs(
                    8_000 * (direct_tick_bits - hold) + sequence.cycle_in_state * hold,
                ) < 8_000
                &&& sequence.state is Discharge || sequence.state is PulseCommand || sequence.state
                    is PulseScan || sequence.state is RampDown
            },
            Actuation::Off => !sequence.state.is_active() || sequence.state is AxisPause,
        },
{
    let cycle = sequence.cycle_in_state as int;
    let hold = sequence.hold_voltage_tick_bits as int;
    measure::law_ramp_is_linear(0, 100, cycle, 8_000);
    measure::lemma_ramped(0, 100, cycle, 8_000);
    measure::law_ramp_is_linear(hold, 0, cycle, 8_000);
    measure::lemma_ramped(hold, 0, cycle, 8_000);
    assert(cycle * (0 - hold) == -(cycle * hold)) by (nonlinear_arith);
}

/// A finished level is kept with its step in whole ticks and the mean of its
/// rises.
pub proof fn law_level_keeps_step_and_rise(sequence: InductanceCalibration, average: u32)
    requires
        sequence.wf(),
        20 <= sequence.valid_pulses,
        0 <= sequence.pulse_di_sum_counts <= 0x7fff * sequence.valid_pulses,
        0 <= sequence.pulse_step_tick_bits <= VECTOR_LIMIT_BITS,
    ensures
        ({
            let place = 3 * sequence.position + sequence.pulse_level;
            let kept = sequence.level_results(average).pulse_diagnostics[place];
            let pulses = sequence.valid_pulses as int;
            let rise = kept.average_di_counts as int;
            let step = kept.pulse_step_ticks as int;
            &&& kept.inductance_nwb_per_count == average
            &&& 0x1_0000 * step <= sequence.pulse_step_tick_bits < 0x1_0000 * (step + 1)
            &&& pulses * rise <= sequence.pulse_di_sum_counts < pulses * (rise + 1)
        }),
{
    let pulses = sequence.valid_pulses as int;
    let sum = sequence.pulse_di_sum_counts as int;
    let mean = sum / pulses;
    assert(0 <= mean <= 0x7fff && pulses * mean <= sum < pulses * (mean + 1)) by (nonlinear_arith)
        requires
            mean == sum / pulses,
            0 <= sum <= 0x7fff * pulses,
            20 <= pulses,
    ;
}

} // verus!
