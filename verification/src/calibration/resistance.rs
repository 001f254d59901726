//! Two-point phase-resistance measurement in native controller units.
//!
//! The sweep ramps to 20% current, settles and samples, ramps to full test
//! current, settles and samples, then ramps down. The differential slope
//! removes constant current offsets and bridge voltage offsets. Conversion to
//! physical resistance remains explicitly dependent on the nominal
//! current-sensor scale.
use vstd::prelude::*;

use super::config::{
    NOMINAL_CURRENT_MA_PER_COUNT, PWM_PERIOD_TICKS, RESISTANCE_CURRENT_HIGH_COUNTS,
    RESISTANCE_CURRENT_LOW_COUNTS,
};
use super::measure;
use super::measure::{div_round, settled};
use super::types::Failure;
use crate::arith;

verus! {

pub const RAMP_STEPS: u32 = 50;

/// Four milliseconds.
pub const RAMP_STEP_CYCLES: u32 = 64;

pub const RAMP_CYCLES: u32 = 3_200;

/// One second.
pub const SETTLE_CYCLES: u32 = 16_000;

/// A tenth of a second.
pub const SAMPLE_CYCLES: u32 = 1_600;

pub const MIN_EFFECTIVE_UV_PER_COUNT: u32 = 500;

pub const MAX_EFFECTIVE_UV_PER_COUNT: u32 = 20_000;

/// Highest bus voltage with which no sum of a sampling window can overflow,
/// whatever the applied voltage.
pub const MAXIMUM_SAMPLE_BUS_MV: u32 = 2_600_000;

#[derive(Clone, Copy, Debug, Default, Eq, PartialEq, Structural)]
pub enum State {
    #[default]
    Idle,
    RampLow,
    SettleLow,
    SampleLow,
    RampHigh,
    SettleHigh,
    SampleHigh,
    RampDown,
    Complete,
    Failed,
}

impl State {
    pub open spec fn is_active(self) -> bool {
        !(self is Idle || self is Complete || self is Failed)
    }

    /// Number of the state in telemetry.
    pub open spec fn number(self) -> u8 {
        match self {
            State::Idle => 0,
            State::RampLow => 1,
            State::SettleLow => 2,
            State::SampleLow => 3,
            State::RampHigh => 4,
            State::SettleHigh => 5,
            State::SampleHigh => 6,
            State::RampDown => 7,
            State::Complete => 8,
            State::Failed => 9,
        }
    }

    pub fn active(self) -> (r: bool)
        ensures
            r == self.is_active(),
    {
        !matches!(self, State::Idle | State::Complete | State::Failed)
    }

    pub fn code(self) -> (r: u8)
        ensures
            r == self.number(),
    {
        match self {
            State::Idle => 0,
            State::RampLow => 1,
            State::SettleLow => 2,
            State::SampleLow => 3,
            State::RampHigh => 4,
            State::SettleHigh => 5,
            State::SampleHigh => 6,
            State::RampDown => 7,
            State::Complete => 8,
            State::Failed => 9,
        }
    }
}

#[derive(Clone, Copy, Debug, Default, Eq, PartialEq, Structural)]
pub struct Sample {
    pub measured_d_counts: i16,
    /// Q16.16 commanded d-axis phase-voltage ticks.
    pub applied_d_tick_bits: i32,
    pub bus_voltage_mv: u32,
}

#[derive(Clone, Copy, Debug, Eq, PartialEq, Structural)]
pub struct Point {
    pub current_counts: i16,
    pub voltage_ticks: i16,
    pub bus_voltage_mv: u16,
    /// Average of `applied_d_tick_bits * bus_voltage_mv` in Q16.16 tick-mV.
    pub voltage_tick_mv_q16: i64,
}

impl Point {
    pub open spec fn null() -> Self {
        Point { current_counts: 0, voltage_ticks: 0, bus_voltage_mv: 0, voltage_tick_mv_q16: 0 }
    }
}

impl Default for Point {
    fn default() -> (r: Self)
        ensures
            r == Point::null(),
    {
        Point { current_counts: 0, voltage_ticks: 0, bus_voltage_mv: 0, voltage_tick_mv_q16: 0 }
    }
}

/// What the sweep found.
#[derive(Clone, Copy, Debug, Eq, PartialEq, Structural)]
pub struct Outcome {
    pub low: Point,
    pub high: Point,
    /// Effective terminal slope before assuming a physical current scale.
    pub effective_uv_per_count: u32,
    /// Physical phase resistance using the nominal current scale only.
    pub nominal_resistance_uohm: u32,
}

/// Sums over a sampling window.
#[derive(Clone, Copy, Debug, Eq, PartialEq, Structural)]
pub struct Accumulator {
    pub current_sum: i64,
    pub voltage_tick_bits_sum: i64,
    pub bus_voltage_sum: u64,
    pub voltage_tick_mv_q16_sum: i64,
    pub samples: u32,
}

impl Accumulator {
    pub open spec fn empty() -> Self {
        Accumulator {
            current_sum: 0,
            voltage_tick_bits_sum: 0,
            bus_voltage_sum: 0,
            voltage_tick_mv_q16_sum: 0,
            samples: 0,
        }
    }

    /// The sums are of that many samples.
    pub open spec fn wf(self) -> bool {
        &&& self.samples <= SAMPLE_CYCLES
        &&& -0x8000 * self.samples <= self.current_sum <= 0x8000 * self.samples
        &&& -0x8000_0000 * self.samples <= self.voltage_tick_bits_sum <= 0x8000_0000 * self.samples
        &&& self.bus_voltage_sum <= MAXIMUM_SAMPLE_BUS_MV * self.samples
        &&& -5_583_457_484_800_000 * self.samples <= self.voltage_tick_mv_q16_sum
            <= 5_583_457_484_800_000 * self.samples
    }

    /// The sums with one more sample.
    pub open spec fn recorded(self, sample: Sample) -> Self {
        Accumulator {
            current_sum: (self.current_sum + sample.measured_d_counts) as i64,
            voltage_tick_bits_sum: (self.voltage_tick_bits_sum + sample.applied_d_tick_bits) as i64,
            bus_voltage_sum: (self.bus_voltage_sum + sample.bus_voltage_mv) as u64,
            voltage_tick_mv_q16_sum: (self.voltage_tick_mv_q16_sum + sample.applied_d_tick_bits
                * sample.bus_voltage_mv) as i64,
            samples: (self.samples + 1) as u32,
        }
    }

    /// Averages of the sums.
    pub open spec fn averaged(self) -> Point {
        if self.samples == 0 {
            Point::null()
        } else {
            let n = self.samples as int;
            Point {
                current_counts: arith::sat_i16(
                    measure::rounded_quotient(self.current_sum as int, n),
                ) as i16,
                voltage_ticks: arith::sat_i16(
                    measure::rounded_quotient(
                        measure::rounded_quotient(self.voltage_tick_bits_sum as int, n),
                        0x1_0000,
                    ),
                ) as i16,
                bus_voltage_mv: arith::sat_u16(self.bus_voltage_sum as int / n) as u16,
                voltage_tick_mv_q16: measure::rounded_quotient(
                    self.voltage_tick_mv_q16_sum as int,
                    n,
                ) as i64,
            }
        }
    }

    fn new() -> (r: Self)
        ensures
            r == Accumulator::empty(),
    {
        Accumulator {
            current_sum: 0,
            voltage_tick_bits_sum: 0,
            bus_voltage_sum: 0,
            voltage_tick_mv_q16_sum: 0,
            samples: 0,
        }
    }

    fn record(&mut self, sample: Sample)
        requires
            old(self).wf(),
            old(self).samples < SAMPLE_CYCLES,
            sample.bus_voltage_mv <= MAXIMUM_SAMPLE_BUS_MV,
        ensures
            final(self).wf(),
            *final(self) == old(self).recorded(sample),
    {
        assert(-5_583_457_484_800_000 <= sample.applied_d_tick_bits * sample.bus_voltage_mv
            <= 5_583_457_484_800_000) by (nonlinear_arith)
            requires
                -0x8000_0000 <= sample.applied_d_tick_bits <= 0x7fff_ffff,
                0 <= sample.bus_voltage_mv <= 2_600_000,
        ;
        self.current_sum = self.current_sum + sample.measured_d_counts as i64;
        self.voltage_tick_bits_sum = self.voltage_tick_bits_sum + sample.applied_d_tick_bits as i64;
        self.bus_voltage_sum = self.bus_voltage_sum + sample.bus_voltage_mv as u64;
        self.voltage_tick_mv_q16_sum = self.voltage_tick_mv_q16_sum
            + sample.applied_d_tick_bits as i64 * sample.bus_voltage_mv as i64;
        self.samples = self.samples + 1;
    }

    fn point(self) -> (r: Point)
        requires
            self.wf(),
        ensures
            r == self.averaged(),
            -5_583_457_484_800_000 <= r.voltage_tick_mv_q16 <= 5_583_457_484_800_000,
    {
        if self.samples == 0 {
            return Point::default();
        }
        let divisor: i64 = self.samples as i64;
        proof {
            measure::lemma_rounded_quotient_bound(
                self.voltage_tick_bits_sum as int,
                divisor as int,
                0x8000_0000,
            );
            measure::lemma_rounded_quotient_bound(
                self.voltage_tick_mv_q16_sum as int,
                divisor as int,
                5_583_457_484_800_000,
            );
        }
        let mean_bits: i64 = div_round(self.voltage_tick_bits_sum, divisor);
        let bus: u64 = self.bus_voltage_sum / self.samples as u64;
        Point {
            current_counts: arith::sat_i64_to_i16(div_round(self.current_sum, divisor)),
            voltage_ticks: arith::sat_i64_to_i16(div_round(mean_bits, 0x1_0000)),
            bus_voltage_mv: arith::sat_u32_to_u16(arith::sat_u64_to_u32(bus)),
            voltage_tick_mv_q16: div_round(self.voltage_tick_mv_q16_sum, divisor),
        }
    }
}

/// Target on the stepped ramp between two currents.
pub open spec fn stepped_ramp(start: int, end: int, cycle: int) -> int {
    start + arith::trunc_div(
        (end - start) * arith::min(cycle / RAMP_STEP_CYCLES as int + 1, RAMP_STEPS as int),
        RAMP_STEPS as int,
    )
}

/// Terminal slope between two points: voltage difference over current
/// difference, in microvolts per count.
pub open spec fn slope_of(low: Point, high: Point) -> int {
    let current = high.current_counts - low.current_counts;
    let voltage = high.voltage_tick_mv_q16 - low.voltage_tick_mv_q16;
    arith::sat_u32(
        arith::abs(
            arith::trunc_div(arith::sat_i64(voltage * 1_000), 147_456_000 * current),
        ),
    )
}

/// Why two points give no resistance, if they do not.
pub open spec fn objection(low: Point, high: Point) -> Failure {
    if !measure::is_settled(low.current_counts as int, RESISTANCE_CURRENT_LOW_COUNTS as int)
        || !measure::is_settled(high.current_counts as int, RESISTANCE_CURRENT_HIGH_COUNTS as int)
        || arith::abs(high.current_counts - low.current_counts) < 100 {
        Failure::CurrentDidNotSettle
    } else if !(MIN_EFFECTIVE_UV_PER_COUNT <= slope_of(low, high) <= MAX_EFFECTIVE_UV_PER_COUNT) {
        Failure::InvalidSlope
    } else {
        Failure::NoFailure
    }
}

#[derive(Clone, Copy, Debug, Eq, PartialEq, Structural)]
pub struct ResistanceCalibration {
    pub state: State,
    pub failure: Failure,
    pub cycle_in_state: u32,
    pub low_accumulator: Accumulator,
    pub high_accumulator: Accumulator,
    pub result: Outcome,
    pub pending_failure: Failure,
}

impl ResistanceCalibration {
    pub open spec fn idle() -> Self {
        ResistanceCalibration {
            state: State::Idle,
            failure: Failure::NoFailure,
            cycle_in_state: 0,
            low_accumulator: Accumulator::empty(),
            high_accumulator: Accumulator::empty(),
            result: Outcome {
                low: Point::null(),
                high: Point::null(),
                effective_uv_per_count: 0,
                nominal_resistance_uohm: 0,
            },
            pending_failure: Failure::NoFailure,
        }
    }

    /// Cycles that the present state lasts.
    pub open spec fn duration(self) -> int {
        match self.state {
            State::RampLow | State::RampHigh | State::RampDown => RAMP_CYCLES as int,
            State::SettleLow | State::SettleHigh => SETTLE_CYCLES as int,
            State::SampleLow | State::SampleHigh => SAMPLE_CYCLES as int,
            _ => 0,
        }
    }

    /// The accumulators hold one sample for each cycle of their window.
    pub open spec fn wf(self) -> bool {
        &&& self.low_accumulator.wf()
        &&& self.high_accumulator.wf()
        &&& self.state.is_active() ==> self.cycle_in_state < self.duration()
        &&& self.state is RampLow || self.state is SettleLow ==> self.low_accumulator.samples == 0
            && self.high_accumulator.samples == 0
        &&& self.state is SampleLow ==> self.low_accumulator.samples == self.cycle_in_state
            && self.high_accumulator.samples == 0
        &&& self.state is RampHigh || self.state is SettleHigh ==> self.high_accumulator.samples
            == 0
        &&& self.state is SampleHigh ==> self.high_accumulator.samples == self.cycle_in_state
    }

    /// One more cycle in the present state; after its last one the next state.
    pub open spec fn advanced(self, next: State) -> Self {
        if self.cycle_in_state + 1 >= self.duration() {
            ResistanceCalibration { state: next, cycle_in_state: 0, ..self }
        } else {
            ResistanceCalibration { cycle_in_state: (self.cycle_in_state + 1) as u32, ..self }
        }
    }

    /// The sweep with its two points evaluated, on the way down.
    pub open spec fn evaluated(self) -> Self {
        let low = self.low_accumulator.averaged();
        let high = self.high_accumulator.averaged();
        let failure = objection(low, high);
        ResistanceCalibration {
            result: if failure is NoFailure {
                Outcome {
                    low,
                    high,
                    effective_uv_per_count: slope_of(low, high) as u32,
                    nominal_resistance_uohm: (slope_of(low, high) * 1_000
                        / NOMINAL_CURRENT_MA_PER_COUNT as int) as u32,
                }
            } else {
                Outcome { low, high, ..self.result }
            },
            pending_failure: failure,
            state: State::RampDown,
            cycle_in_state: 0,
            ..self
        }
    }

    /// The sweep at its end.
    pub open spec fn ended(self) -> Self {
        ResistanceCalibration {
            state: if self.pending_failure is NoFailure {
                State::Complete
            } else {
                State::Failed
            },
            failure: if self.pending_failure is NoFailure {
                self.failure
            } else {
                self.pending_failure
            },
            pending_failure: Failure::NoFailure,
            cycle_in_state: 0,
            ..self
        }
    }

    /// A sample can be taken: the sums of a sampling window cannot overflow.
    pub open spec fn accepts(self, sample: Sample) -> bool {
        self.state is SampleLow || self.state is SampleHigh ==> sample.bus_voltage_mv
            <= MAXIMUM_SAMPLE_BUS_MV
    }

    /// The sweep after one control sample.
    pub open spec fn ticked(self, sample: Sample) -> Self {
        match self.state {
            State::Idle | State::Complete | State::Failed => self,
            State::RampLow => self.advanced(State::SettleLow),
            State::SettleLow => self.advanced(State::SampleLow),
            State::SampleLow => ResistanceCalibration {
                low_accumulator: self.low_accumulator.recorded(sample),
                ..self
            }.advanced(State::RampHigh),
            State::RampHigh => self.advanced(State::SettleHigh),
            State::SettleHigh => self.advanced(State::SampleHigh),
            State::SampleHigh => {
                let recorded = ResistanceCalibration {
                    high_accumulator: self.high_accumulator.recorded(sample),
                    ..self
                };
                if self.cycle_in_state + 1 >= SAMPLE_CYCLES {
                    recorded.evaluated()
                } else {
                    recorded.advanced(State::RampDown)
                }
            },
            State::RampDown => if self.cycle_in_state + 1 >= RAMP_CYCLES {
                self.ended()
            } else {
                self.advanced(State::Complete)
            },
        }
    }

    /// The sweep after a failure from outside.
    pub open spec fn failed(self, failure: Failure) -> Self {
        ResistanceCalibration {
            state: State::Failed,
            failure,
            pending_failure: Failure::NoFailure,
            cycle_in_state: 0,
            ..self
        }
    }

    /// Commanded d current.
    pub open spec fn target(self) -> int {
        let low = RESISTANCE_CURRENT_LOW_COUNTS as int;
        let high = RESISTANCE_CURRENT_HIGH_COUNTS as int;
        match self.state {
            State::RampLow => stepped_ramp(0, low, self.cycle_in_state as int),
            State::SettleLow | State::SampleLow => low,
            State::RampHigh => stepped_ramp(low, high, self.cycle_in_state as int),
            State::SettleHigh | State::SampleHigh => high,
            State::RampDown => stepped_ramp(high, 0, self.cycle_in_state as int),
            _ => 0,
        }
    }

    /// Samples of the present window.
    pub open spec fn progress(self) -> int {
        match self.state {
            State::SampleLow => self.low_accumulator.samples as int,
            State::SampleHigh => self.high_accumulator.samples as int,
            _ => 0,
        }
    }

    /// Control samples that are left until the sweep ends.
    pub open spec fn remaining(self) -> int {
        let after = match self.state {
            State::RampLow => 2 * SETTLE_CYCLES + 2 * SAMPLE_CYCLES + 2 * RAMP_CYCLES,
            State::SettleLow => SETTLE_CYCLES + 2 * SAMPLE_CYCLES + 2 * RAMP_CYCLES,
            State::SampleLow => SETTLE_CYCLES + SAMPLE_CYCLES + 2 * RAMP_CYCLES,
            State::RampHigh => SETTLE_CYCLES + SAMPLE_CYCLES + RAMP_CYCLES,
            State::SettleHigh => SAMPLE_CYCLES + RAMP_CYCLES,
            State::SampleHigh => RAMP_CYCLES as int,
            _ => 0,
        };
        if self.state.is_active() {
            self.duration() - self.cycle_in_state + after
        } else {
            0
        }
    }

    pub fn new() -> (r: Self)
        ensures
            r == ResistanceCalibration::idle(),
            r.wf(),
    {
        ResistanceCalibration {
            state: State::Idle,
            failure: Failure::NoFailure,
            cycle_in_state: 0,
            low_accumulator: Accumulator::new(),
            high_accumulator: Accumulator::new(),
            result: Outcome {
                low: Point::default(),
                high: Point::default(),
                effective_uv_per_count: 0,
                nominal_resistance_uohm: 0,
            },
            pending_failure: Failure::NoFailure,
        }
    }

    pub fn start(&mut self)
        ensures
            *final(self) == (ResistanceCalibration {
                state: State::RampLow,
                ..ResistanceCalibration::idle()
            }),
            final(self).wf(),
    {
        *self = ResistanceCalibration::new();
        self.state = State::RampLow;
    }

    pub fn fail(&mut self, failure: Failure)
        requires
            old(self).wf(),
        ensures
            final(self).wf(),
            *final(self) == old(self).failed(failure),
    {
        self.state = State::Failed;
        self.failure = failure;
        self.pending_failure = Failure::NoFailure;
        self.cycle_in_state = 0;
    }

    pub fn state(&self) -> (r: State)
        ensures
            r == self.state,
    {
        self.state
    }

    pub fn failure(&self) -> (r: Failure)
        ensures
            r == self.failure,
    {
        self.failure
    }

    pub fn active(&self) -> (r: bool)
        ensures
            r == self.state.is_active(),
    {
        self.state.active()
    }

    pub fn result(&self) -> (r: Outcome)
        ensures
            r == self.result,
    {
        self.result
    }

    pub fn sample_progress(&self) -> (r: u16)
        ensures
            r == arith::sat_u16(self.progress()),
    {
        let samples: u32 = match self.state {
            State::SampleLow => self.low_accumulator.samples,
            State::SampleHigh => self.high_accumulator.samples,
            _ => 0,
        };
        arith::sat_u32_to_u16(samples)
    }

    pub fn target_counts(&self) -> (r: i16)
        ensures
            r == self.target(),
            0 <= r <= RESISTANCE_CURRENT_HIGH_COUNTS,
    {
        match self.state {
            State::RampLow => ramp(0, RESISTANCE_CURRENT_LOW_COUNTS, self.cycle_in_state),
            State::SettleLow | State::SampleLow => RESISTANCE_CURRENT_LOW_COUNTS,
            State::RampHigh => ramp(
                RESISTANCE_CURRENT_LOW_COUNTS,
                RESISTANCE_CURRENT_HIGH_COUNTS,
                self.cycle_in_state,
            ),
            State::SettleHigh | State::SampleHigh => RESISTANCE_CURRENT_HIGH_COUNTS,
            State::RampDown => ramp(RESISTANCE_CURRENT_HIGH_COUNTS, 0, self.cycle_in_state),
            State::Idle | State::Complete | State::Failed => 0,
        }
    }

    /// Says whether a sample can be taken.
    pub fn can_tick(&self, sample: &Sample) -> (r: bool)
        ensures
            r == self.accepts(*sample),
    {
        !matches!(self.state, State::SampleLow | State::SampleHigh) || sample.bus_voltage_mv
            <= MAXIMUM_SAMPLE_BUS_MV
    }

    /// Advances the sweep by one 16 kHz control sample.
    pub fn tick(&mut self, sample: Sample)
        requires
            old(self).wf(),
            old(self).accepts(sample),
        ensures
            final(self).wf(),
            *final(self) == old(self).ticked(sample),
    {
        match self.state {
            State::Idle | State::Complete | State::Failed => {},
            State::RampLow => self.advance_after(RAMP_CYCLES, State::SettleLow),
            State::SettleLow => self.advance_after(SETTLE_CYCLES, State::SampleLow),
            State::SampleLow => {
                self.low_accumulator.record(sample);
                self.advance_after(SAMPLE_CYCLES, State::RampHigh);
            },
            State::RampHigh => self.advance_after(RAMP_CYCLES, State::SettleHigh),
            State::SettleHigh => self.advance_after(SETTLE_CYCLES, State::SampleHigh),
            State::SampleHigh => {
                self.high_accumulator.record(sample);
                self.cycle_in_state = self.cycle_in_state + 1;
                if self.cycle_in_state >= SAMPLE_CYCLES {
                    self.evaluate();
                }
            },
            State::RampDown => {
                self.cycle_in_state = self.cycle_in_state + 1;
                if self.cycle_in_state >= RAMP_CYCLES {
                    if matches!(self.pending_failure, Failure::NoFailure) {
                        self.state = State::Complete;
                    } else {
                        self.state = State::Failed;
                        self.failure = self.pending_failure;
                    }
                    self.pending_failure = Failure::NoFailure;
                    self.cycle_in_state = 0;
                }
            },
        }
    }

    fn advance_after(&mut self, cycles: u32, next: State)
        requires
            old(self).state.is_active(),
            cycles == old(self).duration(),
            old(self).cycle_in_state < cycles,
        ensures
            *final(self) == old(self).advanced(next),
    {
        self.cycle_in_state = self.cycle_in_state + 1;
        if self.cycle_in_state >= cycles {
            self.state = next;
            self.cycle_in_state = 0;
        }
    }

    fn evaluate(&mut self)
        requires
            old(self).low_accumulator.wf(),
            old(self).high_accumulator.wf(),
        ensures
            *final(self) == old(self).evaluated(),
    {
        let low = self.low_accumulator.point();
        let high = self.high_accumulator.point();
        self.result.low = low;
        self.result.high = high;
        self.pending_failure = self.calculate_result();
        self.state = State::RampDown;
        self.cycle_in_state = 0;
    }

    fn calculate_result(&mut self) -> (r: Failure)
        requires
            -5_583_457_484_800_000 <= old(self).result.low.voltage_tick_mv_q16
                <= 5_583_457_484_800_000,
            -5_583_457_484_800_000 <= old(self).result.high.voltage_tick_mv_q16
                <= 5_583_457_484_800_000,
        ensures
            r == objection(old(self).result.low, old(self).result.high),
            *final(self) == (ResistanceCalibration {
                result: if r is NoFailure {
                    let slope = slope_of(old(self).result.low, old(self).result.high);
                    Outcome {
                        effective_uv_per_count: slope as u32,
                        nominal_resistance_uohm: (slope * 1_000
                            / NOMINAL_CURRENT_MA_PER_COUNT as int) as u32,
                        ..old(self).result
                    }
                } else {
                    old(self).result
                },
                ..*old(self)
            }),
    {
        let low = self.result.low;
        let high = self.result.high;
        if !settled(low.current_counts, RESISTANCE_CURRENT_LOW_COUNTS) || !settled(
            high.current_counts,
            RESISTANCE_CURRENT_HIGH_COUNTS,
        ) {
            return Failure::CurrentDidNotSettle;
        }
        let delta_current: i64 = high.current_counts as i64 - low.current_counts as i64;
        let needed: u64 = ((RESISTANCE_CURRENT_HIGH_COUNTS - RESISTANCE_CURRENT_LOW_COUNTS) / 2)
            as u64;
        if arith::unsigned_abs_i64(delta_current) < needed {
            return Failure::CurrentDidNotSettle;
        }
        let delta_voltage: i64 = high.voltage_tick_mv_q16 - low.voltage_tick_mv_q16;
        let denominator: i64 = PWM_PERIOD_TICKS as i64 * 0x1_0000 * delta_current;
        let slope: i128 = arith::trunc_div_i64(
            arith::sat_mul_i64(delta_voltage, 1_000),
            denominator,
        );
        let magnitude: i64 = arith::sat_i128_to_i64(slope);
        let effective: u32 = arith::sat_u64_to_u32(arith::unsigned_abs_i64(magnitude));
        proof {
            lemma_slope_fits(delta_voltage as int, delta_current as int);
        }
        if effective < MIN_EFFECTIVE_UV_PER_COUNT || effective > MAX_EFFECTIVE_UV_PER_COUNT {
            return Failure::InvalidSlope;
        }
        self.result.effective_uv_per_count = effective;
        self.result.nominal_resistance_uohm = effective * 1_000 / NOMINAL_CURRENT_MA_PER_COUNT;
        Failure::NoFailure
    }
}

/// A quotient by a whole number of ticks is far inside the machine range.
proof fn lemma_slope_fits(voltage: int, current: int)
    requires
        current != 0,
    ensures
        ({
            let slope = arith::trunc_div(arith::sat_i64(voltage * 1_000), 147_456_000 * current);
            i64::MIN < slope <= i64::MAX
        }),
{
    let n = arith::sat_i64(voltage * 1_000);
    let d = 147_456_000 * current;
    let size = arith::abs(n);
    let divisor = arith::abs(d);
    assert(divisor >= 147_456_000) by (nonlinear_arith)
        requires
            divisor == arith::abs(d),
            d == 147_456_000 * current,
            current != 0,
    ;
    assert(0 <= size / divisor && 2 * (size / divisor) <= size) by (nonlinear_arith)
        requires
            0 <= size,
            divisor >= 147_456_000,
    ;
    assert(arith::abs(arith::trunc_div(n, d)) == size / divisor);
}

fn ramp(start: i16, end: i16, cycle: u32) -> (r: i16)
    requires
        0 <= start <= RESISTANCE_CURRENT_HIGH_COUNTS,
        0 <= end <= RESISTANCE_CURRENT_HIGH_COUNTS,
    ensures
        r == stepped_ramp(start as int, end as int, cycle as int),
        0 <= r <= RESISTANCE_CURRENT_HIGH_COUNTS,
{
    let steps: u32 = cycle / RAMP_STEP_CYCLES + 1;
    let step: i32 = if steps < RAMP_STEPS {
        steps as i32
    } else {
        RAMP_STEPS as i32
    };
    let span: i32 = end as i32 - start as i32;
    assert(-250 * 50 <= span * step <= 250 * 50 && (span >= 0 ==> 0 <= span * step <= span * 50)
        && (span < 0 ==> span * 50 <= span * step <= 0)) by (nonlinear_arith)
        requires
            -250 <= span <= 250,
            0 <= step <= 50,
    ;
    (start as i32 + span * step / RAMP_STEPS as i32) as i16
}

/// A constant bridge voltage cancels: adding the same voltage to both points
/// changes neither the slope nor the verdict.
pub proof fn law_constant_bridge_voltage_cancels(low: Point, high: Point, offset: int)
    requires
        i64::MIN <= low.voltage_tick_mv_q16 + offset <= i64::MAX,
        i64::MIN <= high.voltage_tick_mv_q16 + offset <= i64::MAX,
    ensures
        ({
            let raised_low = Point {
                voltage_tick_mv_q16: (low.voltage_tick_mv_q16 + offset) as i64,
                ..low
            };
            let raised_high = Point {
                voltage_tick_mv_q16: (high.voltage_tick_mv_q16 + offset) as i64,
                ..high
            };
            &&& slope_of(raised_low, raised_high) == slope_of(low, high)
            &&& objection(raised_low, raised_high) == objection(low, high)
        }),
{
}

/// Two points on a line give its slope: whatever the offset, a winding of
/// `slope` microvolts per count is measured as that slope.
pub proof fn law_slope_of_a_line_is_recovered(low: Point, high: Point, slope: int)
    requires
        low.current_counts != high.current_counts,
        0 <= slope <= MAX_EFFECTIVE_UV_PER_COUNT,
        high.voltage_tick_mv_q16 - low.voltage_tick_mv_q16 == slope * 147_456 * (
        high.current_counts - low.current_counts),
    ensures
        slope_of(low, high) == slope,
{
    let current = high.current_counts - low.current_counts;
    let voltage = high.voltage_tick_mv_q16 - low.voltage_tick_mv_q16;
    let n = voltage * 1_000;
    let d = 147_456_000 * current;
    assert(n == slope * d && -0x4000_0000_0000_0000 <= n <= 0x4000_0000_0000_0000) by (
    nonlinear_arith)
        requires
            n == slope * 147_456 * current * 1_000,
            d == 147_456_000 * current,
            0 <= slope <= 20_000,
            -0x1_0000 <= current <= 0x1_0000,
    ;
    if d > 0 {
        assert((slope * d) / d == slope && slope * d >= 0) by (nonlinear_arith)
            requires
                d > 0,
                slope >= 0,
        ;
    } else {
        assert(d < 0) by (nonlinear_arith)
            requires
                d == 147_456_000 * current,
                current != 0,
                d <= 0,
        ;
        assert(slope * d == -(slope * -d) && (slope * -d) / -d == slope && slope * -d >= 0) by (
        nonlinear_arith)
            requires
                d < 0,
                slope >= 0,
        ;
    }
}

/// Every sweep ends: each control sample brings the end one sample closer, and
/// the sweep is active exactly while samples are left.
pub proof fn law_sweep_always_ends(sweep: ResistanceCalibration, sample: Sample)
    requires
        sweep.wf(),
    ensures
        sweep.state.is_active() <==> sweep.remaining() > 0,
        sweep.state.is_active() ==> sweep.ticked(sample).remaining() == sweep.remaining() - 1,
        !sweep.state.is_active() ==> sweep.ticked(sample) == sweep,
{
}

/// An explicit failure stops the sequence immediately.
pub proof fn law_failure_stops_immediately(sweep: ResistanceCalibration, failure: Failure)
    ensures
        sweep.failed(failure).target() == 0,
        !sweep.failed(failure).state.is_active(),
        sweep.failed(failure).failure == failure,
{
}

impl Accumulator {
    /// The sums with `count` more equal samples.
    pub open spec fn repeated(self, sample: Sample, count: nat) -> Self
        decreases count,
    {
        if count == 0 {
            self
        } else {
            self.repeated(sample, (count - 1) as nat).recorded(sample)
        }
    }
}

impl ResistanceCalibration {
    /// The sweep after `count` equal control samples.
    pub open spec fn repeated(self, sample: Sample, count: nat) -> Self
        decreases count,
    {
        if count == 0 {
            self
        } else {
            self.repeated(sample, (count - 1) as nat).ticked(sample)
        }
    }
}

/// `point` is what equal samples average to: their current, their voltage in whole
/// ticks to the nearest, their bus voltage, and the product of both voltages.
pub open spec fn is_average_of(point: Point, sample: Sample) -> bool {
    &&& point.current_counts == sample.measured_d_counts
    &&& point.voltage_tick_mv_q16 == sample.applied_d_tick_bits * sample.bus_voltage_mv
    &&& arith::abs(2 * (0x1_0000 * point.voltage_ticks - sample.applied_d_tick_bits)) <= 0x1_0000
        || sample.applied_d_tick_bits >= 0x7fff_8000
    &&& sample.bus_voltage_mv <= 0xffff ==> point.bus_voltage_mv == sample.bus_voltage_mv
}

proof fn lemma_sums(sample: Sample, count: nat)
    requires
        count <= SAMPLE_CYCLES,
        sample.bus_voltage_mv <= MAXIMUM_SAMPLE_BUS_MV,
    ensures
        ({
            let sums = Accumulator::empty().repeated(sample, count);
            &&& sums.current_sum == count * sample.measured_d_counts
            &&& sums.voltage_tick_bits_sum == count * sample.applied_d_tick_bits
            &&& sums.bus_voltage_sum == count * sample.bus_voltage_mv
            &&& sums.voltage_tick_mv_q16_sum == count * (sample.applied_d_tick_bits
                * sample.bus_voltage_mv)
            &&& sums.samples == count
        }),
    decreases count,
{
    let product = sample.applied_d_tick_bits * sample.bus_voltage_mv;
    assert(-5_583_457_484_800_000 <= product <= 5_583_457_484_800_000) by (nonlinear_arith)
        requires
            product == sample.applied_d_tick_bits * sample.bus_voltage_mv,
            -0x8000_0000 <= sample.applied_d_tick_bits <= 0x7fff_ffff,
            0 <= sample.bus_voltage_mv <= 2_600_000,
    ;
    let c = sample.measured_d_counts as int;
    let t = sample.applied_d_tick_bits as int;
    let b = sample.bus_voltage_mv as int;
    if count > 0 {
        let before = (count - 1) as nat;
        lemma_sums(sample, before);
        assert(count * c == before * c + c && count * t == before * t + t && count * b == before * b
            + b && count * product == before * product + product) by (nonlinear_arith)
            requires
                count == before + 1,
        ;
        assert(arith::abs(count * c) <= 1_600 * 0x8000 && arith::abs(count * t) <= 1_600
            * 0x8000_0000 && 0 <= count * b <= 1_600 * 2_600_000 && arith::abs(count * product)
            <= 1_600 * 5_583_457_484_800_000) by (nonlinear_arith)
            requires
                0 <= count <= 1_600,
                arith::abs(c) <= 0x8000,
                arith::abs(t) <= 0x8000_0000,
                0 <= b <= 2_600_000,
                arith::abs(product) <= 5_583_457_484_800_000,
        ;
    } else {
        assert(0 * c == 0 && 0 * t == 0 && 0 * b == 0 && 0 * product == 0);
    }
}

proof fn lemma_average(sample: Sample)
    requires
        sample.bus_voltage_mv <= MAXIMUM_SAMPLE_BUS_MV,
    ensures
        is_average_of(
            Accumulator::empty().repeated(sample, SAMPLE_CYCLES as nat).averaged(),
            sample,
        ),
{
    lemma_sums(sample, SAMPLE_CYCLES as nat);
    let c = sample.measured_d_counts as int;
    let t = sample.applied_d_tick_bits as int;
    let b = sample.bus_voltage_mv as int;
    let product = t * b;
    measure::law_mean_of_equal_samples(c, 1_600);
    measure::law_mean_of_equal_samples(t, 1_600);
    measure::law_mean_of_equal_samples(product, 1_600);
    measure::law_rounding_is_to_nearest(t, 0x1_0000);
    assert(-5_583_457_484_800_000 <= product <= 5_583_457_484_800_000) by (nonlinear_arith)
        requires
            product == t * b,
            -0x8000_0000 <= t <= 0x7fff_ffff,
            0 <= b <= 2_600_000,
    ;
}

/// A window of equal samples at the low current averages to the sample, and the
/// sweep goes on to the high current.
pub proof fn law_low_window_averages_its_samples(sweep: ResistanceCalibration, sample: Sample)
    requires
        sweep.state is SampleLow,
        sweep.cycle_in_state == 0,
        sweep.low_accumulator == Accumulator::empty(),
        sample.bus_voltage_mv <= MAXIMUM_SAMPLE_BUS_MV,
    ensures
        ({
            let next = sweep.repeated(sample, SAMPLE_CYCLES as nat);
            &&& next.state is RampHigh
            &&& next.cycle_in_state == 0
            &&& is_average_of(next.low_accumulator.averaged(), sample)
            &&& next.high_accumulator == sweep.high_accumulator
        }),
{
    lemma_low_window(sweep, sample, 1_599);
    let last = sweep.repeated(sample, 1_599);
    assert(sweep.repeated(sample, 1_600) == last.ticked(sample));
    assert(Accumulator::empty().repeated(sample, 1_600) == Accumulator::empty().repeated(
        sample,
        1_599,
    ).recorded(sample));
    lemma_average(sample);
}

proof fn lemma_low_window(sweep: ResistanceCalibration, sample: Sample, count: nat)
    requires
        sweep.state is SampleLow,
        sweep.cycle_in_state == 0,
        sweep.low_accumulator == Accumulator::empty(),
        count < SAMPLE_CYCLES,
    ensures
        sweep.repeated(sample, count) == (ResistanceCalibration {
            cycle_in_state: count as u32,
            low_accumulator: Accumulator::empty().repeated(sample, count),
            ..sweep
        }),
    decreases count,
{
    if count > 0 {
        lemma_low_window(sweep, sample, (count - 1) as nat);
    }
}

/// A window of equal samples at the high current completes the measurement: both
/// points are reported, and the slope between them and its resistance as soon as
/// nothing speaks against them.
pub proof fn law_high_window_evaluates_both_points(sweep: ResistanceCalibration, sample: Sample)
    requires
        sweep.state is SampleHigh,
        sweep.cycle_in_state == 0,
        sweep.high_accumulator == Accumulator::empty(),
        sample.bus_voltage_mv <= MAXIMUM_SAMPLE_BUS_MV,
    ensures
        ({
            let next = sweep.repeated(sample, SAMPLE_CYCLES as nat);
            let low = sweep.low_accumulator.averaged();
            let high = next.result.high;
            let slope = next.result.effective_uv_per_count;
            &&& next.state is RampDown
            &&& next.cycle_in_state == 0
            &&& is_average_of(high, sample)
            &&& next.result.low == low
            &&& next.pending_failure == objection(low, high)
            &&& next.pending_failure is NoFailure ==> slope == slope_of(low, high)
                && next.result.nominal_resistance_uohm == 10 * slope
        }),
{
    lemma_high_window(sweep, sample, 1_599);
    let last = sweep.repeated(sample, 1_599);
    assert(sweep.repeated(sample, 1_600) == last.ticked(sample));
    assert(Accumulator::empty().repeated(sample, 1_600) == Accumulator::empty().repeated(
        sample,
        1_599,
    ).recorded(sample));
    lemma_average(sample);
}

proof fn lemma_high_window(sweep: ResistanceCalibration, sample: Sample, count: nat)
    requires
        sweep.state is SampleHigh,
        sweep.cycle_in_state == 0,
        sweep.high_accumulator == Accumulator::empty(),
        count < SAMPLE_CYCLES,
    ensures
        sweep.repeated(sample, count) == (ResistanceCalibration {
            cycle_in_state: count as u32,
            high_accumulator: Accumulator::empty().repeated(sample, count),
            ..sweep
        }),
    decreases count,
{
    if count > 0 {
        lemma_high_window(sweep, sample, (count - 1) as nat);
    }
}

/// Points are refused exactly if a current missed its target by more than three
/// tenths, if they lie less than a hundred counts apart, or if their slope is not
/// that of a motor.
pub proof fn law_points_are_judged_by_current_and_slope(low: Point, high: Point)
    ensures
        ({
            let settled = 35 <= low.current_counts <= 65 && 175 <= high.current_counts <= 325;
            let slope = slope_of(low, high);
            &&& objection(low, high) is CurrentDidNotSettle <==> !settled
            &&& objection(low, high) is InvalidSlope <==> settled && !(500 <= slope <= 20_000)
            &&& objection(low, high) is NoFailure <==> settled && 500 <= slope <= 20_000
        }),
{
}

/// The slope is the voltage between two points over the current between them, in
/// microvolts per count, rounded down.
pub proof fn law_slope_is_voltage_over_current(low: Point, high: Point)
    requires
        low.current_counts < high.current_counts,
        0 <= high.voltage_tick_mv_q16 - low.voltage_tick_mv_q16 <= 9_000_000_000_000_000,
        slope_of(low, high) < u32::MAX,
    ensures
        ({
            let current = high.current_counts - low.current_counts;
            let voltage = high.voltage_tick_mv_q16 - low.voltage_tick_mv_q16;
            let slope = slope_of(low, high);
            147_456_000 * (current * slope) <= 1_000 * voltage < 147_456_000 * (current * (slope
                + 1))
        }),
{
    let current = high.current_counts - low.current_counts;
    let voltage = high.voltage_tick_mv_q16 - low.voltage_tick_mv_q16;
    let n = voltage * 1_000;
    let d = 147_456_000 * current;
    let q = n / d;
    assert(0 <= q && d * q <= n < d * (q + 1)) by (nonlinear_arith)
        requires
            q == n / d,
            0 <= n,
            0 < d,
    ;
    assert(slope_of(low, high) == q);
    assert(d * q == 147_456_000 * (current * q) && d * (q + 1) == 147_456_000 * (current * (q + 1)))
        by (nonlinear_arith)
        requires
            d == 147_456_000 * current,
    ;
}

/// The commanded current follows the sweep: up to the low test current, held
/// through settling and sampling, up to the high one, held again, and down to
/// none, in fifty equal steps each way.
pub proof fn law_target_follows_the_sweep(sweep: ResistanceCalibration)
    requires
        sweep.wf(),
    ensures
        ({
            let step = sweep.cycle_in_state as int / 64 + 1;
            let target = sweep.target();
            &&& sweep.state is RampLow ==> target == step
            &&& sweep.state is SettleLow || sweep.state is SampleLow ==> target == 50
            &&& sweep.state is RampHigh ==> target == 50 + 4 * step
            &&& sweep.state is SettleHigh || sweep.state is SampleHigh ==> target == 250
            &&& sweep.state is RampDown ==> target == 250 - 5 * step
            &&& !sweep.state.is_active() ==> target == 0
            &&& sweep.state is RampLow || sweep.state is RampHigh || sweep.state is RampDown ==> 1
                <= step <= 50
        }),
{
}

/// The sweep visits its states in order, each for its own time.
pub proof fn law_sweep_visits_its_states_in_order(sweep: ResistanceCalibration, sample: Sample)
    requires
        sweep.wf(),
        sweep.state.is_active(),
    ensures
        ({
            let next = sweep.ticked(sample);
            let last = sweep.cycle_in_state + 1 == sweep.duration();
            &&& !last ==> next.state == sweep.state && next.cycle_in_state == sweep.cycle_in_state
                + 1
            &&& last ==> next.cycle_in_state == 0
            &&& last && sweep.state is RampLow ==> next.state is SettleLow
            &&& last && sweep.state is SettleLow ==> next.state is SampleLow
            &&& last && sweep.state is RampHigh ==> next.state is SettleHigh
            &&& last && sweep.state is SettleHigh ==> next.state is SampleHigh
            &&& last && sweep.state is RampDown ==> next.state is Complete
                == (sweep.pending_failure is NoFailure)
            &&& last && sweep.state is RampDown && !(sweep.pending_failure is NoFailure)
                ==> next.state is Failed && next.failure == sweep.pending_failure
            &&& sweep.state is RampLow || sweep.state is RampHigh || sweep.state is RampDown
                ==> sweep.duration() == 3_200
            &&& sweep.state is SettleLow || sweep.state is SettleHigh ==> sweep.duration() == 16_000
            &&& sweep.state is SampleLow || sweep.state is SampleHigh ==> sweep.duration() == 1_600
            &&& sweep.state is RampDown ==> next.result == sweep.result
        }),
{
}

/// The numbers of the states count up along the sweep: zero while idle, one more
/// with every state up to completion, and the last for a failure.
pub proof fn law_state_numbers_follow_the_sweep(sweep: ResistanceCalibration, sample: Sample)
    requires
        sweep.wf(),
        sweep.state.is_active(),
    ensures
        ({
            let next = sweep.ticked(sample).state;
            &&& next != sweep.state && !(next is Failed) ==> next.number() == sweep.state.number()
                + 1
            &&& next is Failed ==> next.number() == State::Complete.number() + 1
            &&& State::Idle.number() == 0
            &&& State::RampLow.number() == 1
        }),
{
}

} // verus!
