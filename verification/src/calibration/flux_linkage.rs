//! Driven back-EMF-vector flux measurement in fixed point.
//!
//! The command frame is captured at one electrical revolution per second,
//! ramped to the measurement speed, and held while the two back-EMF vector
//! components are averaged. Taking the magnitude after component averaging
//! keeps the measurement independent of the load angle.
use vstd::prelude::*;

use super::config::{FLUX_CURRENT_COUNTS, FLUX_TARGET_ERPM};
use super::measure;
use super::measure::{ramp_i16, ramp_i32, tick_bits_to_uv};
use super::types::{Actuation, Failure};
use crate::arith;
use crate::foc::roots;
use crate::foc::roots::integer_sqrt_u64;

verus! {

pub const CAPTURE_ERPM: i32 = 60;

/// Two fifths of a second.
pub const CAPTURE_CYCLES: u32 = 6_400;

/// Four seconds.
pub const SPEED_RAMP_CYCLES: u32 = 64_000;

pub const SPEED_RAMP_OBSERVATION_CYCLES: u32 = 640;

/// Three seconds.
pub const SETTLE_CYCLES: u32 = 48_000;

/// One second.
pub const SAMPLE_CYCLES: u32 = 16_000;

/// Two seconds.
pub const RAMP_DOWN_CYCLES: u32 = 32_000;

pub const MIN_SYNC_VOLTAGE_TICKS: u32 = 64;

pub const MIN_VALID_FLUX_NWB: u32 = 100_000;

pub const MAX_VALID_FLUX_NWB: u32 = 1_000_000_000;

pub const TAU_MILLIRADIANS: i64 = 6_283;

/// Electrical angular speed of the measurement in milliradians per second.
pub const TARGET_OMEGA_MILLIRADIANS: u64 = 628_300;

#[derive(Clone, Copy, Debug, Default, Eq, PartialEq, Structural)]
pub enum State {
    #[default]
    Idle,
    Capture,
    SpeedRamp,
    Settle,
    Sample,
    RampDown,
    Complete,
    Failed,
}

impl State {
    pub open spec fn is_active(self) -> bool {
        !(self is Idle || self is Complete || self is Failed)
    }

    /// Number of the state in telemetry.
    pub open spec fn number(self) -> u8 {
        match self {
            State::Idle => 0,
            State::Capture => 1,
            State::SpeedRamp => 2,
            State::Settle => 3,
            State::Sample => 4,
            State::RampDown => 5,
            State::Complete => 6,
            State::Failed => 7,
        }
    }

    /// Cycles that the state lasts.
    pub open spec fn cycles(self) -> int {
        match self {
            State::Capture => CAPTURE_CYCLES as int,
            State::SpeedRamp => SPEED_RAMP_CYCLES as int,
            State::Settle => SETTLE_CYCLES as int,
            State::Sample => SAMPLE_CYCLES as int,
            State::RampDown => RAMP_DOWN_CYCLES as int,
            _ => 1,
        }
    }

    pub fn active(self) -> (r: bool)
        ensures
            r == self.is_active(),
    {
        !matches!(self, State::Idle | State::Complete | State::Failed)
    }

    pub fn code(self) -> (r: u8)
        ensures
            r == self.number(),
    {
        match self {
            State::Idle => 0,
            State::Capture => 1,
            State::SpeedRamp => 2,
            State::Settle => 3,
            State::Sample => 4,
            State::RampDown => 5,
            State::Complete => 6,
            State::Failed => 7,
        }
    }
}

#[derive(Clone, Copy, Debug, Default, Eq, PartialEq, Structural)]
pub struct Observation {
    pub measured_d_counts: i16,
    pub measured_q_counts: i16,
    pub applied_d_tick_bits: i32,
    pub applied_q_tick_bits: i32,
    pub bus_voltage_mv: u32,
}

/// What the measurement found.
#[derive(Clone, Copy, Debug, Default, Eq, PartialEq, Structural)]
pub struct Outcome {
    pub flux_linkage_nwb: u32,
    pub average_bemf_d_uv: i32,
    pub average_bemf_q_uv: i32,
    pub measurement_erpm: i16,
    pub sync_minimum_percent: u8,
}

/// Angle that a speed covers in one control period, in Q0.32 turns.
pub open spec fn step_of(erpm: int) -> int {
    arith::wrap_u32(arith::trunc_div(erpm * 0x1_0000_0000, 960_000))
}

/// Length of an applied voltage in whole ticks.
pub open spec fn vector_ticks(d_bits: int, q_bits: int) -> int {
    let d = d_bits / 0x1_0000;
    let q = q_bits / 0x1_0000;
    roots::isqrt(d * d + q * q)
}

/// Voltage that a current induces across the inductance at a speed.
pub open spec fn reactance_uv(erpm: int, inductance: int, current: int) -> int {
    arith::trunc_div(
        arith::sat_i64(
            arith::sat_i64(arith::trunc_div(erpm * TAU_MILLIRADIANS, 60) * inductance) * current,
        ),
        1_000_000,
    )
}

/// Flux linkage of an averaged back-EMF vector at the measurement speed.
pub open spec fn flux_of(average_d: int, average_q: int) -> int {
    arith::sat_u64(
        roots::isqrt(
            arith::sat_u64(
                arith::sat_u64(average_d * average_d) + arith::sat_u64(average_q * average_q),
            ),
        ) * 1_000_000,
    ) / TARGET_OMEGA_MILLIRADIANS as int
}

#[derive(Clone, Copy, Debug, Eq, PartialEq, Structural)]
pub struct FluxLinkageCalibration {
    pub state: State,
    pub failure: Failure,
    pub pending_failure: Failure,
    pub cycle_in_state: u32,
    pub angle: u32,
    pub electrical_rpm: i32,
    pub ramp_down_start_erpm: i32,
    pub resistance_uv_per_count: u32,
    pub inductance_nwb_per_count: u32,
    pub bemf_d_sum_uv: i64,
    pub bemf_q_sum_uv: i64,
    pub sample_count: u32,
    pub voltage_filtered_ticks: u32,
    pub voltage_maximum_ticks: u32,
    pub sync_minimum_percent: u8,
    pub result: Outcome,
}

impl FluxLinkageCalibration {
    pub open spec fn idle() -> Self {
        FluxLinkageCalibration {
            state: State::Idle,
            failure: Failure::NoFailure,
            pending_failure: Failure::NoFailure,
            cycle_in_state: 0,
            angle: 0,
            electrical_rpm: 0,
            ramp_down_start_erpm: 0,
            resistance_uv_per_count: 0,
            inductance_nwb_per_count: 0,
            bemf_d_sum_uv: 0,
            bemf_q_sum_uv: 0,
            sample_count: 0,
            voltage_filtered_ticks: 0,
            voltage_maximum_ticks: 0,
            sync_minimum_percent: 100,
            result: Outcome {
                flux_linkage_nwb: 0,
                average_bemf_d_uv: 0,
                average_bemf_q_uv: 0,
                measurement_erpm: 0,
                sync_minimum_percent: 0,
            },
        }
    }

    /// The sequence is inside its states and its speed inside the ramp.
    pub open spec fn wf(self) -> bool {
        &&& self.state.is_active() ==> self.cycle_in_state < self.state.cycles()
        &&& 0 <= self.electrical_rpm <= FLUX_TARGET_ERPM
        &&& 0 <= self.ramp_down_start_erpm <= FLUX_TARGET_ERPM
        &&& self.sample_count <= SAMPLE_CYCLES
        &&& self.state is Sample ==> self.sample_count == self.cycle_in_state
        &&& self.state is Capture || self.state is SpeedRamp || self.state is Settle
            ==> self.sample_count == 0
    }

    /// The sequence at the start of a state.
    pub open spec fn entered(self, state: State) -> Self {
        FluxLinkageCalibration { state, cycle_in_state: 0, ..self }
    }

    /// One more cycle in the present state; after its last one the next state.
    pub open spec fn waited(self, next: State) -> Self {
        if self.cycle_in_state + 1 >= self.state.cycles() {
            self.entered(next)
        } else {
            FluxLinkageCalibration { cycle_in_state: (self.cycle_in_state + 1) as u32, ..self }
        }
    }

    /// Filtered voltage with one more sample.
    pub open spec fn filtered_with(self, ticks: int) -> int {
        if self.voltage_filtered_ticks == 0 {
            ticks
        } else {
            arith::sat_u32(arith::sat_u32(self.voltage_filtered_ticks * 85) + arith::sat_u32(
                ticks * 15,
            )) / 100
        }
    }

    /// The sequence with the voltage watched: the filtered voltage, its maximum,
    /// and the smallest share of the maximum.
    pub open spec fn sync_watched(self, ticks: int) -> Self {
        let filtered = self.filtered_with(ticks);
        let maximum = arith::max(self.voltage_maximum_ticks as int, filtered);
        FluxLinkageCalibration {
            voltage_filtered_ticks: filtered as u32,
            voltage_maximum_ticks: maximum as u32,
            sync_minimum_percent: (if maximum == 0 {
                self.sync_minimum_percent as int
            } else {
                arith::min(
                    self.sync_minimum_percent as int,
                    arith::min(arith::sat_u32(filtered * 100) / maximum, 100),
                )
            }) as u8,
            ..self
        }
    }

    /// In the second half of the ramp a voltage that fell below seven tenths of
    /// its maximum shows that the rotor lost the field.
    pub open spec fn sync_is_lost(self) -> bool {
        &&& self.cycle_in_state > SPEED_RAMP_CYCLES / 2
        &&& self.voltage_maximum_ticks > MIN_SYNC_VOLTAGE_TICKS
        &&& arith::sat_u32(self.voltage_filtered_ticks * 10) < arith::sat_u32(
            self.voltage_maximum_ticks * 7,
        )
    }

    /// The sequence after a sample of the speed ramp.
    pub open spec fn accelerated(self, o: Observation) -> Self {
        let cycle = self.cycle_in_state + 1;
        let moved = FluxLinkageCalibration {
            cycle_in_state: cycle as u32,
            electrical_rpm: measure::ramped(
                CAPTURE_ERPM as int,
                FLUX_TARGET_ERPM as int,
                cycle,
                SPEED_RAMP_CYCLES as int,
            ) as i32,
            ..self
        };
        let looks = cycle % SPEED_RAMP_OBSERVATION_CYCLES as int == 0;
        let watched = if looks {
            moved.sync_watched(
                vector_ticks(o.applied_d_tick_bits as int, o.applied_q_tick_bits as int),
            )
        } else {
            moved
        };
        if looks && watched.sync_is_lost() {
            FluxLinkageCalibration {
                pending_failure: Failure::MotorNotResponding,
                ramp_down_start_erpm: watched.electrical_rpm,
                ..watched
            }.entered(State::RampDown)
        } else if cycle >= SPEED_RAMP_CYCLES {
            FluxLinkageCalibration {
                electrical_rpm: FLUX_TARGET_ERPM,
                ..watched
            }.entered(State::Settle)
        } else {
            watched
        }
    }

    /// Back-EMF of a sample on the d axis.
    pub open spec fn bemf_d(self, o: Observation) -> int {
        measure::tick_microvolts(o.applied_d_tick_bits as int, o.bus_voltage_mv as int)
            - self.resistance_uv_per_count * o.measured_d_counts + reactance_uv(
            self.electrical_rpm as int,
            self.inductance_nwb_per_count as int,
            o.measured_q_counts as int,
        )
    }

    /// Back-EMF of a sample on the q axis.
    pub open spec fn bemf_q(self, o: Observation) -> int {
        measure::tick_microvolts(o.applied_q_tick_bits as int, o.bus_voltage_mv as int)
            - self.resistance_uv_per_count * o.measured_q_counts - reactance_uv(
            self.electrical_rpm as int,
            self.inductance_nwb_per_count as int,
            o.measured_d_counts as int,
        )
    }

    /// The sequence after a sample of the measuring window.
    pub open spec fn sampled(self, o: Observation) -> Self {
        let summed = FluxLinkageCalibration {
            bemf_d_sum_uv: arith::sat_i64(self.bemf_d_sum_uv + self.bemf_d(o)) as i64,
            bemf_q_sum_uv: arith::sat_i64(self.bemf_q_sum_uv + self.bemf_q(o)) as i64,
            sample_count: (self.sample_count + 1) as u32,
            ..self
        };
        if self.cycle_in_state + 1 >= SAMPLE_CYCLES {
            FluxLinkageCalibration {
                ramp_down_start_erpm: self.electrical_rpm,
                ..summed
            }.entered(State::RampDown)
        } else {
            summed.waited(State::RampDown)
        }
    }

    /// Average back-EMF of the measuring window.
    pub open spec fn average_d(self) -> int {
        arith::trunc_div(self.bemf_d_sum_uv as int, self.sample_count as int)
    }

    pub open spec fn average_q(self) -> int {
        arith::trunc_div(self.bemf_q_sum_uv as int, self.sample_count as int)
    }

    /// The measuring window gives a flux in the valid range.
    pub open spec fn flux_is_valid(self) -> bool {
        &&& self.sample_count != 0
        &&& self.electrical_rpm == 0
        &&& MIN_VALID_FLUX_NWB <= flux_of(self.average_d(), self.average_q()) <= MAX_VALID_FLUX_NWB
    }

    /// The sequence with its result, if that is valid.
    pub open spec fn concluded(self) -> Self {
        if self.flux_is_valid() {
            FluxLinkageCalibration {
                result: Outcome {
                    flux_linkage_nwb: flux_of(self.average_d(), self.average_q()) as u32,
                    average_bemf_d_uv: arith::sat_i32(self.average_d()) as i32,
                    average_bemf_q_uv: arith::sat_i32(self.average_q()) as i32,
                    measurement_erpm: FLUX_TARGET_ERPM as i16,
                    sync_minimum_percent: self.sync_minimum_percent,
                },
                ..self
            }
        } else {
            self
        }
    }

    /// The sequence after a sample of the ramp down.
    pub open spec fn slowed(self) -> Self {
        let cycle = self.cycle_in_state + 1;
        let moved = FluxLinkageCalibration {
            cycle_in_state: cycle as u32,
            electrical_rpm: measure::ramped(
                self.ramp_down_start_erpm as int,
                0,
                cycle,
                RAMP_DOWN_CYCLES as int,
            ) as i32,
            ..self
        };
        if cycle < RAMP_DOWN_CYCLES {
            moved
        } else if !(self.pending_failure is NoFailure) {
            FluxLinkageCalibration {
                failure: self.pending_failure,
                electrical_rpm: 0,
                ..moved
            }.entered(State::Failed)
        } else if moved.flux_is_valid() {
            FluxLinkageCalibration { electrical_rpm: 0, ..moved.concluded() }.entered(
                State::Complete,
            )
        } else {
            FluxLinkageCalibration {
                failure: Failure::FluxRange,
                electrical_rpm: 0,
                ..moved
            }.entered(State::Failed)
        }
    }

    /// The sequence after one control sample: the frame turns on, and the state
    /// takes the sample.
    pub open spec fn observed(self, o: Observation) -> Self {
        let turned = FluxLinkageCalibration {
            angle: arith::wrap_u32(self.angle + step_of(self.electrical_rpm as int)) as u32,
            ..self
        };
        match self.state {
            State::Idle | State::Complete | State::Failed => self,
            State::Capture => turned.waited(State::SpeedRamp),
            State::SpeedRamp => turned.accelerated(o),
            State::Settle => turned.waited(State::Sample),
            State::Sample => turned.sampled(o),
            State::RampDown => turned.slowed(),
        }
    }

    /// The sequence after a failure from outside.
    pub open spec fn failed(self, failure: Failure) -> Self {
        FluxLinkageCalibration {
            state: State::Failed,
            failure,
            pending_failure: Failure::NoFailure,
            cycle_in_state: 0,
            ..self
        }
    }

    /// Commanded q current.
    pub open spec fn current(self) -> int {
        match self.state {
            State::Capture => measure::ramped(
                0,
                FLUX_CURRENT_COUNTS as int,
                self.cycle_in_state as int,
                CAPTURE_CYCLES as int,
            ),
            State::SpeedRamp | State::Settle | State::Sample => FLUX_CURRENT_COUNTS as int,
            State::RampDown => measure::ramped(
                FLUX_CURRENT_COUNTS as int,
                0,
                self.cycle_in_state as int,
                RAMP_DOWN_CYCLES as int,
            ),
            _ => 0,
        }
    }

    /// What the sequence asks of the power stage.
    pub open spec fn demanded(self) -> Actuation {
        if self.state.is_active() {
            Actuation::Current {
                angle: self.angle,
                direct_counts: 0,
                quadrature_counts: self.current() as i16,
            }
        } else {
            Actuation::Off
        }
    }

    pub fn new() -> (r: Self)
        ensures
            r == FluxLinkageCalibration::idle(),
            r.wf(),
    {
        FluxLinkageCalibration {
            state: State::Idle,
            failure: Failure::NoFailure,
            pending_failure: Failure::NoFailure,
            cycle_in_state: 0,
            angle: 0,
            electrical_rpm: 0,
            ramp_down_start_erpm: 0,
            resistance_uv_per_count: 0,
            inductance_nwb_per_count: 0,
            bemf_d_sum_uv: 0,
            bemf_q_sum_uv: 0,
            sample_count: 0,
            voltage_filtered_ticks: 0,
            voltage_maximum_ticks: 0,
            sync_minimum_percent: 100,
            result: Outcome {
                flux_linkage_nwb: 0,
                average_bemf_d_uv: 0,
                average_bemf_q_uv: 0,
                measurement_erpm: 0,
                sync_minimum_percent: 0,
            },
        }
    }

    /// Starts the sequence with measured parameters; without one of them it
    /// fails.
    pub fn start(
        &mut self,
        resistance_uv_per_count: u32,
        inductance_d_nwb_per_count: u32,
        inductance_q_nwb_per_count: u32,
    )
        ensures
            final(self).wf(),
            *final(self) == (if resistance_uv_per_count == 0 || inductance_d_nwb_per_count == 0
                || inductance_q_nwb_per_count == 0 {
                FluxLinkageCalibration::idle().failed(Failure::MissingPrerequisite)
            } else {
                FluxLinkageCalibration {
                    resistance_uv_per_count,
                    inductance_nwb_per_count: (arith::sat_u32(
                        inductance_d_nwb_per_count + inductance_q_nwb_per_count,
                    ) / 2) as u32,
                    electrical_rpm: CAPTURE_ERPM,
                    state: State::Capture,
                    ..FluxLinkageCalibration::idle()
                }
            }),
    {
        *self = FluxLinkageCalibration::new();
        if resistance_uv_per_count == 0 || inductance_d_nwb_per_count == 0
            || inductance_q_nwb_per_count == 0 {
            self.fail(Failure::MissingPrerequisite);
            return;
        }
        self.resistance_uv_per_count = resistance_uv_per_count;
        self.inductance_nwb_per_count = inductance_d_nwb_per_count.saturating_add(
            inductance_q_nwb_per_count,
        ) / 2;
        self.electrical_rpm = CAPTURE_ERPM;
        self.state = State::Capture;
    }

    pub fn fail(&mut self, failure: Failure)
        requires
            old(self).wf(),
        ensures
            final(self).wf(),
            *final(self) == old(self).failed(failure),
    {
        self.state = State::Failed;
        self.failure = failure;
        self.pending_failure = Failure::NoFailure;
        self.cycle_in_state = 0;
    }

    pub fn state(&self) -> (r: State)
        ensures
            r == self.state,
    {
        self.state
    }

    pub fn failure(&self) -> (r: Failure)
        ensures
            r == self.failure,
    {
        self.failure
    }

    pub fn active(&self) -> (r: bool)
        ensures
            r == self.state.is_active(),
    {
        self.state.active()
    }

    pub fn electrical_rpm(&self) -> (r: i32)
        ensures
            r == self.electrical_rpm,
    {
        self.electrical_rpm
    }

    pub fn result(&self) -> (r: Outcome)
        ensures
            r == self.result,
    {
        self.result
    }

    /// Progress of the present state in thousandths.
    pub fn progress(&self) -> (r: u16)
        ensures
            r == arith::min(self.cycle_in_state as int, self.state.cycles()) * 1_000
                / self.state.cycles(),
    {
        let denominator: u32 = match self.state {
            State::Capture => CAPTURE_CYCLES,
            State::SpeedRamp => SPEED_RAMP_CYCLES,
            State::Settle => SETTLE_CYCLES,
            State::Sample => SAMPLE_CYCLES,
            State::RampDown => RAMP_DOWN_CYCLES,
            State::Idle | State::Complete | State::Failed => 1,
        };
        let cycle: u32 = if self.cycle_in_state < denominator {
            self.cycle_in_state
        } else {
            denominator
        };
        assert((cycle * 1_000) / denominator as int <= 1_000) by (nonlinear_arith)
            requires
                0 <= cycle <= denominator,
                0 < denominator,
        ;
        (cycle * 1_000 / denominator) as u16
    }

    pub fn actuation(&self) -> (r: Actuation)
        ensures
            r == self.demanded(),
    {
        let current: i16 = match self.state {
            State::Capture => ramp_i16(
                0,
                FLUX_CURRENT_COUNTS,
                self.cycle_in_state,
                CAPTURE_CYCLES,
            ),
            State::SpeedRamp | State::Settle | State::Sample => FLUX_CURRENT_COUNTS,
            State::RampDown => ramp_i16(
                FLUX_CURRENT_COUNTS,
                0,
                self.cycle_in_state,
                RAMP_DOWN_CYCLES,
            ),
            State::Idle | State::Complete | State::Failed => {
                return Actuation::Off;
            },
        };
        Actuation::Current { angle: self.angle, direct_counts: 0, quadrature_counts: current }
    }

    /// Advances the sequence by one 16 kHz control sample.
    pub fn observe(&mut self, observation: Observation)
        requires
            old(self).wf(),
        ensures
            final(self).wf(),
            *final(self) == old(self).observed(observation),
    {
        if !self.state.active() {
            return;
        }
        self.angle = self.angle.wrapping_add(erpm_step(self.electrical_rpm));
        match self.state {
            State::Capture => self.advance_after(CAPTURE_CYCLES, State::SpeedRamp),
            State::SpeedRamp => self.observe_speed_ramp(observation),
            State::Settle => self.advance_after(SETTLE_CYCLES, State::Sample),
            State::Sample => self.observe_sample(observation),
            State::RampDown => self.observe_ramp_down(),
            State::Idle | State::Complete | State::Failed => {},
        }
    }

    fn advance_after(&mut self, cycles: u32, next: State)
        requires
            cycles == old(self).state.cycles(),
            old(self).cycle_in_state < cycles,
        ensures
            *final(self) == old(self).waited(next),
    {
        self.cycle_in_state = self.cycle_in_state + 1;
        if self.cycle_in_state >= cycles {
            self.enter(next);
        }
    }

    fn enter(&mut self, state: State)
        ensures
            *final(self) == old(self).entered(state),
    {
        self.state = state;
        self.cycle_in_state = 0;
    }

    fn observe_speed_ramp(&mut self, observation: Observation)
        requires
            old(self).wf(),
            old(self).state is SpeedRamp,
        ensures
            final(self).wf(),
            *final(self) == old(self).accelerated(observation),
    {
        self.cycle_in_state = self.cycle_in_state + 1;
        proof {
            measure::lemma_ramped(
                CAPTURE_ERPM as int,
                FLUX_TARGET_ERPM as int,
                self.cycle_in_state as int,
                SPEED_RAMP_CYCLES as int,
            );
        }
        self.electrical_rpm = ramp_i32(
            CAPTURE_ERPM,
            FLUX_TARGET_ERPM,
            self.cycle_in_state,
            SPEED_RAMP_CYCLES,
        );
        if self.cycle_in_state % SPEED_RAMP_OBSERVATION_CYCLES == 0 {
            let voltage_ticks: u32 = vector_magnitude_ticks(
                observation.applied_d_tick_bits,
                observation.applied_q_tick_bits,
            );
            self.watch_sync(voltage_ticks);
            if self.sync_lost() {
                self.pending_failure = Failure::MotorNotResponding;
                self.ramp_down_start_erpm = self.electrical_rpm;
                self.enter(State::RampDown);
                return;
            }
        }
        if self.cycle_in_state >= SPEED_RAMP_CYCLES {
            self.electrical_rpm = FLUX_TARGET_ERPM;
            self.enter(State::Settle);
        }
    }

    fn watch_sync(&mut self, voltage_ticks: u32)
        ensures
            *final(self) == old(self).sync_watched(voltage_ticks as int),
    {
        let filtered: u32 = if self.voltage_filtered_ticks == 0 {
            voltage_ticks
        } else {
            arith::sat_mul_u32(self.voltage_filtered_ticks, 85).saturating_add(
                arith::sat_mul_u32(voltage_ticks, 15),
            ) / 100
        };
        self.voltage_filtered_ticks = filtered;
        if filtered > self.voltage_maximum_ticks {
            self.voltage_maximum_ticks = filtered;
        }
        if self.voltage_maximum_ticks != 0 {
            let percent: u32 = arith::sat_mul_u32(filtered, 100) / self.voltage_maximum_ticks;
            let capped: u8 = if percent > 100 {
                100
            } else {
                percent as u8
            };
            if capped < self.sync_minimum_percent {
                self.sync_minimum_percent = capped;
            }
        }
    }

    fn sync_lost(&self) -> (r: bool)
        ensures
            r == self.sync_is_lost(),
    {
        self.cycle_in_state > SPEED_RAMP_CYCLES / 2 && self.voltage_maximum_ticks
            > MIN_SYNC_VOLTAGE_TICKS && arith::sat_mul_u32(self.voltage_filtered_ticks, 10)
            < arith::sat_mul_u32(self.voltage_maximum_ticks, 7)
    }

    fn observe_sample(&mut self, observation: Observation)
        requires
            old(self).wf(),
            old(self).state is Sample,
        ensures
            final(self).wf(),
            *final(self) == old(self).sampled(observation),
    {
        let bemf_d: i64 = back_emf_uv(
            observation.applied_d_tick_bits,
            observation.bus_voltage_mv,
            self.resistance_uv_per_count,
            observation.measured_d_counts,
        ) + reactance(
            self.electrical_rpm,
            self.inductance_nwb_per_count,
            observation.measured_q_counts,
        );
        let bemf_q: i64 = back_emf_uv(
            observation.applied_q_tick_bits,
            observation.bus_voltage_mv,
            self.resistance_uv_per_count,
            observation.measured_q_counts,
        ) - reactance(
            self.electrical_rpm,
            self.inductance_nwb_per_count,
            observation.measured_d_counts,
        );
        self.bemf_d_sum_uv = arith::sat_add_i64(self.bemf_d_sum_uv, bemf_d);
        self.bemf_q_sum_uv = arith::sat_add_i64(self.bemf_q_sum_uv, bemf_q);
        self.sample_count = self.sample_count + 1;
        self.cycle_in_state = self.cycle_in_state + 1;
        if self.cycle_in_state >= SAMPLE_CYCLES {
            self.ramp_down_start_erpm = self.electrical_rpm;
            self.enter(State::RampDown);
        }
    }

    fn observe_ramp_down(&mut self)
        requires
            old(self).wf(),
            old(self).state is RampDown,
        ensures
            final(self).wf(),
            *final(self) == old(self).slowed(),
    {
        self.cycle_in_state = self.cycle_in_state + 1;
        proof {
            measure::lemma_ramped(
                self.ramp_down_start_erpm as int,
                0,
                self.cycle_in_state as int,
                RAMP_DOWN_CYCLES as int,
            );
        }
        self.electrical_rpm = ramp_i32(
            self.ramp_down_start_erpm,
            0,
            self.cycle_in_state,
            RAMP_DOWN_CYCLES,
        );
        if self.cycle_in_state < RAMP_DOWN_CYCLES {
            return;
        }
        if !matches!(self.pending_failure, Failure::NoFailure) {
            self.state = State::Failed;
            self.failure = self.pending_failure;
        } else if self.finish_result() {
            self.state = State::Complete;
        } else {
            self.state = State::Failed;
            self.failure = Failure::FluxRange;
        }
        self.electrical_rpm = 0;
        self.cycle_in_state = 0;
    }

    /// Evaluates the averaged vector once the rotor is at rest again.
    pub fn finish_result(&mut self) -> (r: bool)
        ensures
            r == old(self).flux_is_valid(),
            *final(self) == old(self).concluded(),
    {
        if self.sample_count == 0 || self.electrical_rpm != 0 {
            return false;
        }
        let average_d: i64 = mean(self.bemf_d_sum_uv, self.sample_count);
        let average_q: i64 = mean(self.bemf_q_sum_uv, self.sample_count);
        let square_sum: u64 = square(average_d).saturating_add(square(average_q));
        let magnitude_uv: u64 = integer_sqrt_u64(square_sum);
        let flux_nwb: u64 = magnitude_uv * 1_000_000 / TARGET_OMEGA_MILLIRADIANS;
        if flux_nwb < MIN_VALID_FLUX_NWB as u64 || flux_nwb > MAX_VALID_FLUX_NWB as u64 {
            return false;
        }
        self.result = Outcome {
            flux_linkage_nwb: flux_nwb as u32,
            average_bemf_d_uv: arith::sat_i64_to_i32(average_d),
            average_bemf_q_uv: arith::sat_i64_to_i32(average_q),
            measurement_erpm: FLUX_TARGET_ERPM as i16,
            sync_minimum_percent: self.sync_minimum_percent,
        };
        true
    }
}

/// Mean of a sum.
fn mean(sum: i64, count: u32) -> (r: i64)
    requires
        count > 0,
    ensures
        r == arith::trunc_div(sum as int, count as int),
{
    sum / count as i64
}

/// Square of a value, saturated.
fn square(value: i64) -> (r: u64)
    ensures
        r == arith::sat_u64(value * value),
{
    let magnitude: u64 = arith::unsigned_abs_i64(value);
    let m: u128 = magnitude as u128;
    assert(value * value == magnitude * magnitude && 0 <= m * m
        <= 0xffff_ffff_ffff_ffff * 0xffff_ffff_ffff_ffff) by (nonlinear_arith)
        requires
            magnitude == arith::abs(value as int),
            m == magnitude,
            0 <= magnitude <= 0xffff_ffff_ffff_ffff,
    ;
    let product: u128 = m * m;
    if product > 0xffff_ffff_ffff_ffff {
        u64::MAX
    } else {
        product as u64
    }
}

/// Voltage of one axis without its resistive drop.
fn back_emf_uv(tick_bits: i32, bus_voltage_mv: u32, resistance: u32, current: i16) -> (r: i64)
    ensures
        r == measure::tick_microvolts(tick_bits as int, bus_voltage_mv as int) - resistance
            * current,
        -0x1_0000_0000_0000 <= r <= 0x1_0000_0000_0000,
{
    let voltage: i64 = tick_bits_to_uv(tick_bits, bus_voltage_mv);
    assert(-0x8000_0000_0000 <= resistance * current <= 0x8000_0000_0000) by (nonlinear_arith)
        requires
            0 <= resistance <= 0xffff_ffff,
            -0x8000 <= current <= 0x7fff,
    ;
    voltage - resistance as i64 * current as i64
}

fn reactance(electrical_rpm: i32, inductance: u32, current: i16) -> (r: i64)
    ensures
        r == reactance_uv(electrical_rpm as int, inductance as int, current as int),
        -9_300_000_000_000 <= r <= 9_300_000_000_000,
{
    let omega: i64 = electrical_rpm as i64 * TAU_MILLIRADIANS / 60;
    arith::sat_mul_i64(arith::sat_mul_i64(omega, inductance as i64), current as i64) / 1_000_000
}

/// Angle that a speed covers in one control period, in Q0.32 turns.
pub fn erpm_step(erpm: i32) -> (r: u32)
    ensures
        r == step_of(erpm as int),
{
    let step: i64 = (erpm as i64 * 0x1_0000_0000) / 960_000;
    proof {
        arith::lemma_i64(step);
    }
    step as u32
}

fn vector_magnitude_ticks(d_bits: i32, q_bits: i32) -> (r: u32)
    ensures
        r == vector_ticks(d_bits as int, q_bits as int),
{
    let d: i32 = arith::floor_div_i32(d_bits, 0x1_0000);
    let q: i32 = arith::floor_div_i32(q_bits, 0x1_0000);
    assert(0 <= d * d <= 0x4000_0000 && 0 <= q * q <= 0x4000_0000) by (nonlinear_arith)
        requires
            -0x8000 <= d <= 0x8000,
            -0x8000 <= q <= 0x8000,
    ;
    let squares: i64 = d as i64 * d as i64 + q as i64 * q as i64;
    integer_sqrt_u64(squares as u64) as u32
}

/// The measured flux does not depend on the load angle: back-EMF vectors of the
/// same length give the same flux, wherever they point.
pub proof fn law_flux_is_independent_of_the_load_angle(d: int, q: int, other_d: int, other_q: int)
    requires
        d * d + q * q == other_d * other_d + other_q * other_q,
        d * d + q * q <= u64::MAX,
    ensures
        flux_of(d, q) == flux_of(other_d, other_q),
{
    assert(d * d >= 0 && q * q >= 0 && other_d * other_d >= 0 && other_q * other_q >= 0) by (
    nonlinear_arith);
}

/// The frame's step is its speed rounded down to the angle's resolution, so the
/// frame turns at the commanded speed.
pub proof fn law_step_follows_the_speed(erpm: int)
    requires
        0 <= erpm < 960_000,
    ensures
        step_of(erpm) * 960_000 <= erpm * 0x1_0000_0000,
        erpm * 0x1_0000_0000 < (step_of(erpm) + 1) * 960_000,
{
}

impl FluxLinkageCalibration {
    /// Control samples that are left at most until the sequence ends.
    pub open spec fn remaining(self) -> int {
        let after = match self.state {
            State::Capture => SPEED_RAMP_CYCLES + SETTLE_CYCLES + SAMPLE_CYCLES + RAMP_DOWN_CYCLES,
            State::SpeedRamp => SETTLE_CYCLES + SAMPLE_CYCLES + RAMP_DOWN_CYCLES,
            State::Settle => SAMPLE_CYCLES + RAMP_DOWN_CYCLES,
            State::Sample => RAMP_DOWN_CYCLES as int,
            _ => 0,
        };
        if self.state.is_active() {
            self.state.cycles() - self.cycle_in_state + after
        } else {
            0
        }
    }
}

/// Every measurement ends: each control sample brings the end closer, and the
/// sequence is active exactly while samples are left.
pub proof fn law_measurement_always_ends(sequence: FluxLinkageCalibration, o: Observation)
    requires
        sequence.wf(),
    ensures
        sequence.state.is_active() <==> sequence.remaining() > 0,
        sequence.state.is_active() ==> sequence.observed(o).remaining() < sequence.remaining(),
        !sequence.state.is_active() ==> sequence.observed(o) == sequence,
{
}

/// An explicit failure switches the power stage off at once.
pub proof fn law_failure_switches_off(sequence: FluxLinkageCalibration, failure: Failure)
    ensures
        sequence.failed(failure).demanded() == Actuation::Off,
        !sequence.failed(failure).state.is_active(),
        sequence.failed(failure).failure == failure,
{
}

impl FluxLinkageCalibration {
    /// The sequence after `count` equal control samples.
    pub open spec fn repeated(self, o: Observation, count: nat) -> Self
        decreases count,
    {
        if count == 0 {
            self
        } else {
            self.repeated(o, (count - 1) as nat).observed(o)
        }
    }

    /// `uv` is what is left of an axis voltage without its resistive drop and
    /// with a speed voltage of the measurement speed, to within two microvolts.
    pub open spec fn is_back_emf(
        self,
        uv: int,
        tick_bits: int,
        bus_voltage_mv: int,
        current: int,
        crossing_current: int,
    ) -> bool {
        let volts = tick_bits * bus_voltage_mv * 1_000;
        let reactance = 628_300 * self.inductance_nwb_per_count * crossing_current;
        arith::abs(
            147_456_000 * (1_000_000 * (uv + self.resistance_uv_per_count * current) - reactance)
                - 1_000_000 * volts,
        ) < 2 * 147_456_000 * 1_000_000
    }
}

/// A sample that a measuring window can take without leaving a word.
pub open spec fn is_plausible(sequence: FluxLinkageCalibration, o: Observation) -> bool {
    &&& o.bus_voltage_mv <= 4_000_000
    &&& sequence.inductance_nwb_per_count <= 400_000_000
}

/// Every sample of the measuring window adds its own back-EMF to both sums: the
/// applied voltage without the resistive drop, plus the speed voltage of the q
/// current on the d axis and minus that of the d current on the q axis.
pub proof fn law_sample_adds_its_back_emf(sequence: FluxLinkageCalibration, o: Observation)
    requires
        sequence.wf(),
        sequence.state is Sample,
        sequence.electrical_rpm == FLUX_TARGET_ERPM,
        is_plausible(sequence, o),
        arith::abs(sequence.bemf_d_sum_uv as int) <= 0x4000_0000_0000_0000,
        arith::abs(sequence.bemf_q_sum_uv as int) <= 0x4000_0000_0000_0000,
    ensures
        ({
            let next = sequence.observed(o);
            let d = next.bemf_d_sum_uv - sequence.bemf_d_sum_uv;
            let q = next.bemf_q_sum_uv - sequence.bemf_q_sum_uv;
            &&& sequence.is_back_emf(
                d,
                o.applied_d_tick_bits as int,
                o.bus_voltage_mv as int,
                o.measured_d_counts as int,
                o.measured_q_counts as int,
            )
            &&& sequence.is_back_emf(
                q,
                o.applied_q_tick_bits as int,
                o.bus_voltage_mv as int,
                o.measured_q_counts as int,
                -o.measured_d_counts,
            )
            &&& next.sample_count == sequence.sample_count + 1
            &&& next.electrical_rpm == sequence.electrical_rpm
        }),
{
    lemma_sample(sequence, o);
}

proof fn lemma_sample(sequence: FluxLinkageCalibration, o: Observation)
    requires
        sequence.electrical_rpm == FLUX_TARGET_ERPM,
        is_plausible(sequence, o),
    ensures
        sequence.is_back_emf(
            sequence.bemf_d(o),
            o.applied_d_tick_bits as int,
            o.bus_voltage_mv as int,
            o.measured_d_counts as int,
            o.measured_q_counts as int,
        ),
        sequence.is_back_emf(
            sequence.bemf_q(o),
            o.applied_q_tick_bits as int,
            o.bus_voltage_mv as int,
            o.measured_q_counts as int,
            -o.measured_d_counts,
        ),
        arith::abs(sequence.bemf_d(o)) <= 0x2_0000_0000_0000,
        arith::abs(sequence.bemf_q(o)) <= 0x2_0000_0000_0000,
{
    let l = sequence.inductance_nwb_per_count as int;
    let r = sequence.resistance_uv_per_count as int;
    let i_d = o.measured_d_counts as int;
    let i_q = o.measured_q_counts as int;
    let bus = o.bus_voltage_mv as int;
    measure::law_ticks_are_shares_of_the_bus(o.applied_d_tick_bits, o.bus_voltage_mv);
    measure::law_ticks_are_shares_of_the_bus(o.applied_q_tick_bits, o.bus_voltage_mv);
    lemma_reactance(l, i_d);
    lemma_reactance(l, i_q);
    assert(arith::abs(r * i_d) <= 0x8000_0000_0000 && arith::abs(r * i_q) <= 0x8000_0000_0000)
        by (nonlinear_arith)
        requires
            0 <= r <= 0xffff_ffff,
            -0x8000 <= i_d <= 0x7fff,
            -0x8000 <= i_q <= 0x7fff,
    ;
    let v_d = o.applied_d_tick_bits * bus;
    let v_q = o.applied_q_tick_bits * bus;
    assert(arith::abs(v_d) <= 0x8000_0000 * 4_000_000) by (nonlinear_arith)
        requires
            v_d == o.applied_d_tick_bits * bus,
            -0x8000_0000 <= o.applied_d_tick_bits <= 0x7fff_ffff,
            0 <= bus <= 4_000_000,
    ;
    assert(arith::abs(v_q) <= 0x8000_0000 * 4_000_000) by (nonlinear_arith)
        requires
            v_q == o.applied_q_tick_bits * bus,
            -0x8000_0000 <= o.applied_q_tick_bits <= 0x7fff_ffff,
            0 <= bus <= 4_000_000,
    ;
    assert(628_300 * l * -i_d == -(628_300 * l * i_d)) by (nonlinear_arith);
}

proof fn lemma_reactance(inductance: int, current: int)
    requires
        0 <= inductance <= 400_000_000,
        -0x8000 <= current <= 0x7fff,
    ensures
        arith::abs(
            1_000_000 * reactance_uv(FLUX_TARGET_ERPM as int, inductance, current) - 628_300
                * inductance * current,
        ) < 1_000_000,
        arith::abs(reactance_uv(FLUX_TARGET_ERPM as int, inductance, current)) <= 9_300_000_000_000,
{
    let w = 628_300 * inductance;
    assert(arith::abs(w * current) <= 251_320_000_000_000 * 0x8000) by (nonlinear_arith)
        requires
            0 <= w <= 251_320_000_000_000,
            -0x8000 <= current <= 0x7fff,
    ;
    measure::lemma_truncated(w * current, 1_000_000);
}

/// A window of equal samples averages to the back-EMF of one of them, on both
/// axes: after the window and the ramp down the reported averages obey the motor
/// equation, and the reported flux is that of the averaged vector. The
/// measurement completes exactly if that flux is in the valid range.
#[verifier::rlimit(40)]
pub proof fn law_equal_samples_average_to_their_back_emf(
    sequence: FluxLinkageCalibration,
    o: Observation,
)
    requires
        sequence.wf(),
        sequence.state is Sample,
        sequence.cycle_in_state == 0,
        sequence.electrical_rpm == FLUX_TARGET_ERPM,
        sequence.bemf_d_sum_uv == 0,
        sequence.bemf_q_sum_uv == 0,
        sequence.pending_failure is NoFailure,
        is_plausible(sequence, o),
    ensures
        ({
            let last = sequence.repeated(o, 48_000);
            let d = last.average_d();
            let q = last.average_q();
            let flux = flux_of(d, q);
            &&& sequence.is_back_emf(
                d,
                o.applied_d_tick_bits as int,
                o.bus_voltage_mv as int,
                o.measured_d_counts as int,
                o.measured_q_counts as int,
            )
            &&& sequence.is_back_emf(
                q,
                o.applied_q_tick_bits as int,
                o.bus_voltage_mv as int,
                o.measured_q_counts as int,
                -o.measured_d_counts,
            )
            &&& last.state is Complete <==> 100_000 <= flux <= 1_000_000_000
            &&& last.state is Complete ==> {
                &&& last.result.average_bemf_d_uv == arith::sat_i32(d)
                &&& last.result.average_bemf_q_uv == arith::sat_i32(q)
                &&& last.result.flux_linkage_nwb == flux
                &&& last.result.measurement_erpm == 6_000
                &&& last.result.sync_minimum_percent == sequence.sync_minimum_percent
            }
            &&& !(last.state is Complete) ==> last.state is Failed && last.failure is FluxRange
        }),
{
    lemma_sample(sequence, o);
    lemma_window(sequence, o, 15_999);
    let full = sequence.repeated(o, 16_000);
    assert(full == sequence.repeated(o, 15_999).observed(o));
    let d = sequence.bemf_d(o);
    let q = sequence.bemf_q(o);
    assert(full.state is RampDown);
    assert(full.bemf_d_sum_uv == 16_000 * d && full.bemf_q_sum_uv == 16_000 * q);
    lemma_coast_down(sequence, o, 31_999);
    let last = sequence.repeated(o, 48_000);
    assert(last == sequence.repeated(o, 47_999).observed(o));
    measure::lemma_ramped(full.ramp_down_start_erpm as int, 0, 32_000, 32_000);
    measure::law_mean_of_equal_samples(d, 16_000);
    measure::law_mean_of_equal_samples(q, 16_000);
    assert(last.average_d() == d && last.average_q() == q);
}

proof fn lemma_window(sequence: FluxLinkageCalibration, o: Observation, count: nat)
    requires
        sequence.wf(),
        sequence.state is Sample,
        sequence.cycle_in_state == 0,
        sequence.electrical_rpm == FLUX_TARGET_ERPM,
        sequence.bemf_d_sum_uv == 0,
        sequence.bemf_q_sum_uv == 0,
        is_plausible(sequence, o),
        count < 16_000,
    ensures
        ({
            let now = sequence.repeated(o, count);
            now == FluxLinkageCalibration {
                angle: now.angle,
                cycle_in_state: count as u32,
                sample_count: count as u32,
                bemf_d_sum_uv: (count * sequence.bemf_d(o)) as i64,
                bemf_q_sum_uv: (count * sequence.bemf_q(o)) as i64,
                ..sequence
            }
        }),
        arith::abs(count * sequence.bemf_d(o)) <= 0x7d00_0000_0000_0000,
        arith::abs(count * sequence.bemf_q(o)) <= 0x7d00_0000_0000_0000,
    decreases count,
{
    lemma_sample(sequence, o);
    let d = sequence.bemf_d(o);
    let q = sequence.bemf_q(o);
    assert(arith::abs(count * d) <= 16_000 * 0x2_0000_0000_0000 && arith::abs(count * q) <= 16_000
        * 0x2_0000_0000_0000) by (nonlinear_arith)
        requires
            0 <= count < 16_000,
            arith::abs(d) <= 0x2_0000_0000_0000,
            arith::abs(q) <= 0x2_0000_0000_0000,
    ;
    if count > 0 {
        let before = (count - 1) as nat;
        lemma_window(sequence, o, before);
        assert(count * d == before * d + d && count * q == before * q + q) by (nonlinear_arith)
            requires
                count == before + 1,
        ;
        let earlier = sequence.repeated(o, before);
        assert(earlier.bemf_d(o) == d && earlier.bemf_q(o) == q);
        assert(sequence.repeated(o, count) == earlier.observed(o));
    } else {
        assert(0 * d == 0 && 0 * q == 0);
    }
}

proof fn lemma_coast_down(sequence: FluxLinkageCalibration, o: Observation, count: nat)
    requires
        count < 32_000,
        ({
            let full = sequence.repeated(o, 16_000);
            &&& full.state is RampDown
            &&& full.cycle_in_state == 0
            &&& full.electrical_rpm == full.ramp_down_start_erpm
            &&& 0 <= full.ramp_down_start_erpm <= FLUX_TARGET_ERPM
        }),
    ensures
        ({
            let full = sequence.repeated(o, 16_000);
            let now = sequence.repeated(o, 16_000 + count);
            now == FluxLinkageCalibration {
                angle: now.angle,
                electrical_rpm: now.electrical_rpm,
                cycle_in_state: count as u32,
                ..full
            }
        }),
    decreases count,
{
    if count > 0 {
        let before = (count - 1) as nat;
        lemma_coast_down(sequence, o, before);
        assert(sequence.repeated(o, 16_000 + count) == sequence.repeated(
            o,
            16_000 + before,
        ).observed(o));
    }
}

/// The flux of a back-EMF vector is its length divided by the electrical speed of
/// 628.3 rad/s, rounded down: squared, both sides enclose the squared length.
pub proof fn law_flux_is_the_back_emf_over_the_speed(d: int, q: int)
    requires
        d * d + q * q <= u64::MAX,
    ensures
        ({
            let flux = flux_of(d, q);
            let low = 628_300 * flux;
            let high = 628_300 * (flux + 1) + 1_000_000;
            low * low <= 1_000_000_000_000 * (d * d + q * q) < high * high
        }),
        flux_of(d, q) >= 0,
{
    let sum = d * d + q * q;
    assert(d * d >= 0 && q * q >= 0) by (nonlinear_arith);
    let m = roots::isqrt(sum);
    roots::lemma_isqrt(sum);
    assert(m <= 0xffff_ffff) by (nonlinear_arith)
        requires
            m * m <= 0xffff_ffff_ffff_ffff,
            0 <= m,
    ;
    let flux = flux_of(d, q);
    assert(flux == m * 1_000_000 / 628_300);
    let low = 628_300 * flux;
    let high = 628_300 * (flux + 1) + 1_000_000;
    assert(0 <= low <= 1_000_000 * m);
    assert(1_000_000 * (m + 1) <= high);
    assert(low * low <= 1_000_000_000_000 * (m * m)) by (nonlinear_arith)
        requires
            0 <= low <= 1_000_000 * m,
    ;
    assert(1_000_000_000_000 * ((m + 1) * (m + 1)) <= high * high) by (nonlinear_arith)
        requires
            0 <= 1_000_000 * (m + 1) <= high,
    ;
}

/// The commanded frame turns at the commanded speed in every active state, and
/// the speed rises in a straight line from one to a hundred revolutions per
/// second, stays there while settling and sampling, and falls in a straight line
/// to rest.
#[verifier::rlimit(40)]
pub proof fn law_frame_follows_the_speed_profile(sequence: FluxLinkageCalibration, o: Observation)
    requires
        sequence.wf(),
        sequence.state.is_active(),
    ensures
        ({
            let next = sequence.observed(o);
            let turned = arith::wrap_u32(next.angle - sequence.angle);
            let cycle = sequence.cycle_in_state + 1;
            &&& turned * 960_000 <= sequence.electrical_rpm * 0x1_0000_0000 < (turned + 1) * 960_000
            &&& sequence.state is SpeedRamp && cycle < 64_000 ==> arith::abs(
                64_000 * (next.electrical_rpm - 60) - cycle * 5_940,
            ) < 64_000
            &&& sequence.state is SpeedRamp && next.state is Settle ==> next.electrical_rpm == 6_000
                && cycle == 64_000
            &&& sequence.state is Capture || sequence.state is Settle || sequence.state is Sample
                ==> next.electrical_rpm == sequence.electrical_rpm
            &&& sequence.state is RampDown && next.state is RampDown ==> arith::abs(
                32_000 * (next.electrical_rpm - sequence.ramp_down_start_erpm) + cycle
                    * sequence.ramp_down_start_erpm,
            ) < 32_000
            &&& sequence.state is RampDown && cycle == 32_000 ==> next.electrical_rpm == 0
                && !next.state.is_active()
        }),
{
    law_step_follows_the_speed(sequence.electrical_rpm as int);
    let cycle = sequence.cycle_in_state + 1;
    assert(0 <= step_of(sequence.electrical_rpm as int) < 0x1_0000_0000);
    measure::law_ramp_is_linear(60, 6_000, cycle, 64_000);
    measure::law_ramp_is_linear(sequence.ramp_down_start_erpm as int, 0, cycle, 32_000);
    measure::lemma_ramped(60, 6_000, cycle, 64_000);
    measure::lemma_ramped(sequence.ramp_down_start_erpm as int, 0, cycle, 32_000);
    assert(cycle * (0 - sequence.ramp_down_start_erpm) == -(cycle
        * sequence.ramp_down_start_erpm)) by (nonlinear_arith);
}

/// The q current rises in a straight line while the rotor is captured, is held
/// through ramp, settling and sampling, and falls in a straight line while the
/// rotor slows down. No d current is asked for.
pub proof fn law_current_follows_its_profile(sequence: FluxLinkageCalibration)
    requires
        sequence.wf(),
        sequence.state.is_active(),
    ensures
        match sequence.demanded() {
            Actuation::Current { angle, direct_counts, quadrature_counts } => {
                let full = FLUX_CURRENT_COUNTS as int;
                let cycle = sequence.cycle_in_state as int;
                &&& angle == sequence.angle
                &&& direct_counts == 0
                &&& sequence.state is Capture ==> arith::abs(
                    6_400 * quadrature_counts - cycle * full,
                ) < 6_400
                &&& sequence.state is RampDown ==> arith::abs(
                    32_000 * (quadrature_counts - full) + cycle * full,
                ) < 32_000
                &&& sequence.state is SpeedRamp || sequence.state is Settle || sequence.state
                    is Sample ==> quadrature_counts == full
            },
            _ => false,
        },
{
    let cycle = sequence.cycle_in_state as int;
    let full = FLUX_CURRENT_COUNTS as int;
    measure::law_ramp_is_linear(0, full, cycle, 6_400);
    measure::law_ramp_is_linear(full, 0, cycle, 32_000);
    measure::lemma_ramped(0, full, cycle, 6_400);
    measure::lemma_ramped(full, 0, cycle, 32_000);
}

/// The voltage is watched every 640 samples of the ramp: the filter moves by
/// fifteen hundredths of the way to the new length, the maximum never falls, and
/// the reported minimum never rises above the present share of the maximum.
#[verifier::rlimit(40)]
pub proof fn law_voltage_watch_tracks_the_vector(sequence: FluxLinkageCalibration, o: Observation)
    requires
        sequence.wf(),
        sequence.state is SpeedRamp,
        sequence.voltage_filtered_ticks <= 0x1_0000,
        sequence.voltage_maximum_ticks <= 0x1_0000,
    ensures
        ({
            let next = sequence.observed(o);
            let d = o.applied_d_tick_bits as int / 0x1_0000;
            let q = o.applied_q_tick_bits as int / 0x1_0000;
            let looks = (sequence.cycle_in_state + 1) % 640 == 0;
            let before = sequence.voltage_filtered_ticks;
            let filtered = next.voltage_filtered_ticks as int;
            let maximum = next.voltage_maximum_ticks as int;
            &&& !looks ==> filtered == before && maximum == sequence.voltage_maximum_ticks
                && next.sync_minimum_percent == sequence.sync_minimum_percent
            &&& looks && before == 0 ==> filtered * filtered <= d * d + q * q < (filtered + 1) * (
            filtered + 1)
            &&& looks && before > 0 ==> exists|ticks: int|
                {
                    &&& 0 <= ticks
                    &&& #[trigger] (ticks * ticks) <= d * d + q * q < (ticks + 1) * (ticks + 1)
                    &&& 0 <= 85 * before + 15 * ticks - 100 * filtered < 100
                }
            &&& looks ==> maximum == arith::max(sequence.voltage_maximum_ticks as int, filtered)
            &&& looks && maximum > 0 ==> next.sync_minimum_percent * maximum <= 100 * filtered
            &&& next.sync_minimum_percent <= sequence.sync_minimum_percent
        }),
{
    let d = o.applied_d_tick_bits as int / 0x1_0000;
    let q = o.applied_q_tick_bits as int / 0x1_0000;
    assert(0 <= d * d <= 0x4000_0000 && 0 <= q * q <= 0x4000_0000) by (nonlinear_arith)
        requires
            -0x8000 <= d <= 0x8000,
            -0x8000 <= q <= 0x8000,
    ;
    roots::lemma_isqrt(d * d + q * q);
    let ticks = vector_ticks(o.applied_d_tick_bits as int, o.applied_q_tick_bits as int);
    assert(0 <= ticks <= 0x1_0000) by (nonlinear_arith)
        requires
            ticks * ticks <= 0x8000_0000,
            0 <= ticks,
    ;
    let filtered = sequence.filtered_with(ticks);
    let maximum = arith::max(sequence.voltage_maximum_ticks as int, filtered);
    if maximum > 0 {
        let percent = filtered * 100 / maximum;
        assert(percent * maximum <= 100 * filtered && 0 <= percent <= 100) by (nonlinear_arith)
            requires
                percent == filtered * 100 / maximum,
                0 <= filtered <= maximum,
                0 < maximum,
        ;
        let kept = arith::min(sequence.sync_minimum_percent as int, percent);
        assert(kept * maximum <= percent * maximum) by (nonlinear_arith)
            requires
                kept <= percent,
                0 < maximum,
        ;
    }
}

/// In the second half of the ramp a watched voltage that fell below seven tenths
/// of its maximum ends the measurement: the rotor is slowed down from where it
/// was, and the failure is reported at rest. Otherwise the ramp goes on.
pub proof fn law_lost_rotor_ends_the_measurement(sequence: FluxLinkageCalibration, o: Observation)
    requires
        sequence.wf(),
        sequence.state is SpeedRamp,
        sequence.voltage_filtered_ticks <= 0x1_0000,
        sequence.voltage_maximum_ticks <= 0x1_0000,
    ensures
        ({
            let next = sequence.observed(o);
            let cycle = sequence.cycle_in_state + 1;
            let lost = cycle % 640 == 0 && cycle > 32_000 && next.voltage_maximum_ticks > 64 && 10
                * next.voltage_filtered_ticks < 7 * next.voltage_maximum_ticks;
            &&& lost ==> {
                &&& next.state is RampDown
                &&& next.cycle_in_state == 0
                &&& next.pending_failure is MotorNotResponding
                &&& next.ramp_down_start_erpm == next.electrical_rpm
            }
            &&& !lost ==> next.pending_failure == sequence.pending_failure && (next.state
                is SpeedRamp <==> cycle < 64_000)
        }),
{
    let d = o.applied_d_tick_bits as int / 0x1_0000;
    let q = o.applied_q_tick_bits as int / 0x1_0000;
    assert(0 <= d * d <= 0x4000_0000 && 0 <= q * q <= 0x4000_0000) by (nonlinear_arith)
        requires
            -0x8000 <= d <= 0x8000,
            -0x8000 <= q <= 0x8000,
    ;
    roots::lemma_isqrt(d * d + q * q);
    let ticks = vector_ticks(o.applied_d_tick_bits as int, o.applied_q_tick_bits as int);
    assert(0 <= ticks <= 0x1_0000) by (nonlinear_arith)
        requires
            ticks * ticks <= 0x8000_0000,
            0 <= ticks,
    ;
}

/// A measurement that is waiting to report a failure reports it once the rotor
/// is at rest, and never completes.
pub proof fn law_pending_failure_is_reported_at_rest(
    sequence: FluxLinkageCalibration,
    o: Observation,
)
    requires
        sequence.wf(),
        sequence.state is RampDown,
        !(sequence.pending_failure is NoFailure),
    ensures
        ({
            let next = sequence.observed(o);
            &&& sequence.cycle_in_state + 1 < 32_000 ==> next.state is RampDown
            &&& sequence.cycle_in_state + 1 >= 32_000 ==> next.state is Failed && next.failure
                == sequence.pending_failure && next.electrical_rpm == 0
        }),
{
}

/// The numbers of the states count up along the measurement: zero while idle, one
/// more with every state up to completion, and the last for a failure.
pub proof fn law_state_numbers_follow_the_measurement(
    sequence: FluxLinkageCalibration,
    o: Observation,
)
    requires
        sequence.wf(),
        sequence.state.is_active(),
        sequence.pending_failure is NoFailure,
    ensures
        ({
            let next = sequence.observed(o);
            &&& next.state != sequence.state && next.pending_failure is NoFailure && !(next.state
                is Failed) ==> next.state.number() == sequence.state.number() + 1
            &&& next.state is Failed ==> next.state.number() == State::Complete.number() + 1
            &&& State::Idle.number() == 0
            &&& State::Capture.number() == 1
        }),
{
}

} // verus!
