//! Fixed-point Hall-center sweep.
use vstd::prelude::*;

use super::config::HALL_CALIBRATION_CURRENT_COUNTS;
use super::measure;
use super::measure::ramp_i16;
use super::types::{Actuation, Failure};
use crate::arith;

verus! {

/// One second.
pub const RAMP_CYCLES: u32 = 16_000;

/// A fifth of a second.
pub const SETTLE_CYCLES: u32 = 3_200;

/// Five milliseconds.
pub const STEP_CYCLES: u32 = 80;

pub const SWEEP_COUNT: u8 = 6;

pub const DEGREES_PER_SWEEP: u16 = 360;

pub const MIN_SAMPLES_PER_STATE: u16 = 30;

#[derive(Clone, Copy, Debug, Default, Eq, PartialEq, Structural)]
pub enum State {
    #[default]
    Idle,
    RampUp,
    Settle,
    Sweep,
    RampDown,
    Complete,
    Failed,
}

impl State {
    pub open spec fn is_active(self) -> bool {
        !(self is Idle || self is Complete || self is Failed)
    }

    /// Number of the state in telemetry.
    pub open spec fn number(self) -> u8 {
        match self {
            State::Idle => 0,
            State::RampUp => 1,
            State::Settle => 2,
            State::Sweep => 3,
            State::RampDown => 4,
            State::Complete => 5,
            State::Failed => 6,
        }
    }

    pub fn active(self) -> (r: bool)
        ensures
            r == self.is_active(),
    {
        !matches!(self, State::Idle | State::Complete | State::Failed)
    }

    pub fn code(self) -> (r: u8)
        ensures
            r == self.number(),
    {
        match self {
            State::Idle => 0,
            State::RampUp => 1,
            State::Settle => 2,
            State::Sweep => 3,
            State::RampDown => 4,
            State::Complete => 5,
            State::Failed => 6,
        }
    }
}

/// What the sweep found, indexed by raw Hall state.
#[derive(Clone, Copy, Debug, Eq, PartialEq)]
pub struct Outcome {
    pub centers_q16: [u16; 8],
    pub valid_mask: u8,
    pub minimum_samples: u8,
}

/// Angle of a whole degree in Q0.32 turns.
pub open spec fn degree_angle(degree: int) -> int {
    degree * 0x1_0000_0000 / DEGREES_PER_SWEEP as int
}

/// Angle of a step: even sweeps go forward, odd ones back.
pub open spec fn sweep_angle(sweep: int, degree: int) -> int {
    degree_angle(
        if sweep % 2 == 0 {
            degree
        } else {
            DEGREES_PER_SWEEP - 1 - degree
        },
    )
}

/// Center of a state: the mean of the offsets from its first angle, which stays
/// right across the turn boundary.
pub open spec fn center_of(anchor: int, offset_sum: int, count: int) -> int {
    arith::wrap_u32(anchor + arith::trunc_div(offset_sum, count)) / 0x1_0000
}

#[derive(Clone, Copy, Debug, Eq, PartialEq)]
pub struct HallCalibration {
    pub state: State,
    pub failure: Failure,
    pub cycle_in_state: u32,
    pub angle: u32,
    pub sweep: u8,
    pub degree: u16,
    pub anchor: [u32; 8],
    pub offset_sum: [i64; 8],
    pub counts: [u16; 8],
    pub result: Outcome,
}

impl HallCalibration {
    pub open spec fn idle() -> Self {
        HallCalibration {
            state: State::Idle,
            failure: Failure::NoFailure,
            cycle_in_state: 0,
            angle: 0,
            sweep: 0,
            degree: 0,
            anchor: vstd::array::spec_array_fill_for_copy_type::<u32, 8>(0),
            offset_sum: vstd::array::spec_array_fill_for_copy_type::<i64, 8>(0),
            counts: vstd::array::spec_array_fill_for_copy_type::<u16, 8>(0),
            result: Outcome {
                centers_q16: vstd::array::spec_array_fill_for_copy_type::<u16, 8>(0),
                valid_mask: 0,
                minimum_samples: 0,
            },
        }
    }

    /// Steps of the sweep that have been recorded.
    pub open spec fn steps(self) -> int {
        self.sweep * DEGREES_PER_SWEEP + self.degree
    }

    /// No state has more samples than steps, and each sum is of so many offsets.
    pub open spec fn wf(self) -> bool {
        &&& self.sweep <= SWEEP_COUNT
        &&& self.degree < DEGREES_PER_SWEEP
        &&& self.state is RampUp || self.state is Settle || self.state is Sweep ==> self.sweep
            < SWEEP_COUNT
        &&& forall|i: int|
            0 <= i < 8 ==> {
                &&& (#[trigger] self.counts@[i]) <= self.steps()
                &&& -0x8000_0000 * self.counts@[i] <= self.offset_sum@[i] <= 0x8000_0000
                    * self.counts@[i]
            }
    }

    /// The sequence at the start of a state.
    pub open spec fn entered(self, state: State) -> Self {
        HallCalibration { state, cycle_in_state: 0, ..self }
    }

    /// The sequence with a raw state recorded at the present angle.
    pub open spec fn recorded(self, raw_hall: u8) -> Self {
        let i = raw_hall as int % 8;
        let anchor = if self.counts@[i] == 0 {
            vstd::array::spec_array_update(self.anchor, i, self.angle)
        } else {
            self.anchor
        };
        HallCalibration {
            anchor,
            offset_sum: vstd::array::spec_array_update(
                self.offset_sum,
                i,
                (self.offset_sum@[i] + arith::wrap_i32(self.angle - anchor@[i])) as i64,
            ),
            counts: vstd::array::spec_array_update(
                self.counts,
                i,
                arith::sat_u16(self.counts@[i] + 1) as u16,
            ),
            cycle_in_state: 0,
            ..self
        }
    }

    /// The sequence one degree on; after the last sweep it ramps down.
    pub open spec fn moved_on(self) -> Self {
        let wraps = self.degree + 1 >= DEGREES_PER_SWEEP;
        let sweep = if wraps {
            self.sweep + 1
        } else {
            self.sweep as int
        };
        let degree = if wraps {
            0
        } else {
            self.degree + 1
        };
        let placed = HallCalibration { sweep: sweep as u8, degree: degree as u16, ..self };
        if wraps && sweep >= SWEEP_COUNT {
            HallCalibration { angle: 0, ..placed }.entered(State::RampDown)
        } else {
            HallCalibration { angle: sweep_angle(sweep, degree) as u32, ..placed }
        }
    }

    /// The sequence after a step of the sweep.
    pub open spec fn stepped(self, raw_hall: u8) -> Self {
        self.recorded(raw_hall).moved_on()
    }

    /// The six legal states were seen often enough and the two others never.
    pub open spec fn is_complete(self) -> bool {
        &&& self.counts@[0] == 0
        &&& self.counts@[7] == 0
        &&& forall|i: int| 1 <= i <= 6 ==> (#[trigger] self.counts@[i]) >= MIN_SAMPLES_PER_STATE
    }

    /// Smallest number of samples of a legal state.
    pub open spec fn fewest(self) -> int {
        arith::min(
            arith::min(
                arith::min(self.counts@[1] as int, self.counts@[2] as int),
                arith::min(self.counts@[3] as int, self.counts@[4] as int),
            ),
            arith::min(self.counts@[5] as int, self.counts@[6] as int),
        )
    }

    /// Center of a raw state.
    pub open spec fn center(self, i: int) -> int {
        center_of(self.anchor@[i] as int, self.offset_sum@[i] as int, self.counts@[i] as int)
    }

    /// A result is that of this sweep.
    pub open spec fn yields(self, result: Outcome) -> bool {
        &&& result.valid_mask == 0x7e
        &&& result.minimum_samples == arith::sat_u8(self.fewest())
        &&& result.centers_q16@ == seq![
            0u16,
            self.center(1) as u16,
            self.center(2) as u16,
            self.center(3) as u16,
            self.center(4) as u16,
            self.center(5) as u16,
            self.center(6) as u16,
            0u16,
        ]
    }

    /// The result of this sweep.
    pub open spec fn outcome(self) -> Outcome {
        choose|result: Outcome| self.yields(result)
    }

    /// The sequence after a failure from outside.
    pub open spec fn failed(self, failure: Failure) -> Self {
        HallCalibration { state: State::Failed, failure, cycle_in_state: 0, ..self }
    }

    /// The sequence with one more cycle counted.
    pub open spec fn counted(self) -> Self {
        HallCalibration { cycle_in_state: arith::sat_u32(self.cycle_in_state + 1) as u32, ..self }
    }

    /// The sequence after one control sample. The end of the ramp down
    /// evaluates the sweep.
    pub open spec fn observed(self, raw_hall: u8) -> Self {
        let counted = self.counted();
        if self.state is RampUp && counted.cycle_in_state >= RAMP_CYCLES {
            counted.entered(State::Settle)
        } else if self.state is Settle && counted.cycle_in_state >= SETTLE_CYCLES {
            counted.entered(State::Sweep)
        } else if self.state is Sweep && counted.cycle_in_state >= STEP_CYCLES {
            counted.stepped(raw_hall)
        } else if self.state is RampDown && counted.cycle_in_state >= RAMP_CYCLES {
            if counted.is_complete() {
                HallCalibration { result: counted.outcome(), ..counted }.entered(State::Complete)
            } else {
                counted.failed(Failure::HallStates)
            }
        } else {
            counted
        }
    }

    /// The next control sample ends a step of the sweep and is recorded.
    pub open spec fn takes_sample(self) -> bool {
        self.state is Sweep && self.counted().cycle_in_state >= STEP_CYCLES
    }

    /// The sequence that was started and then given one raw state per control
    /// sample.
    pub open spec fn run(raw_states: Seq<u8>) -> Self
        decreases raw_states.len(),
    {
        if raw_states.len() == 0 {
            HallCalibration { state: State::RampUp, ..HallCalibration::idle() }
        } else {
            HallCalibration::run(raw_states.drop_last()).observed(raw_states.last())
        }
    }

    /// Hall states that such a run recorded.
    pub open spec fn seen(raw_states: Seq<u8>) -> Seq<u8>
        decreases raw_states.len(),
    {
        if raw_states.len() == 0 {
            Seq::empty()
        } else {
            let before = HallCalibration::seen(raw_states.drop_last());
            if HallCalibration::run(raw_states.drop_last()).takes_sample() {
                before.push((raw_states.last() as int % 8) as u8)
            } else {
                before
            }
        }
    }

    /// Commanded d current.
    pub open spec fn current(self) -> int {
        let full = HALL_CALIBRATION_CURRENT_COUNTS as int;
        match self.state {
            State::RampUp => measure::ramped(
                0,
                full,
                self.cycle_in_state as int,
                RAMP_CYCLES as int,
            ),
            State::Settle | State::Sweep => full,
            State::RampDown => full - measure::ramped(
                0,
                full,
                self.cycle_in_state as int,
                RAMP_CYCLES as int,
            ),
            _ => 0,
        }
    }

    /// What the sequence asks of the power stage.
    pub open spec fn demanded(self) -> Actuation {
        if self.state.is_active() {
            Actuation::Current {
                angle: self.angle,
                direct_counts: self.current() as i16,
                quadrature_counts: 0,
            }
        } else {
            Actuation::Off
        }
    }

    pub fn new() -> (r: Self)
        ensures
            r == HallCalibration::idle(),
            r.wf(),
    {
        HallCalibration {
            state: State::Idle,
            failure: Failure::NoFailure,
            cycle_in_state: 0,
            angle: 0,
            sweep: 0,
            degree: 0,
            anchor: [0u32;8],
            offset_sum: [0i64;8],
            counts: [0u16;8],
            result: Outcome { centers_q16: [0u16;8], valid_mask: 0, minimum_samples: 0 },
        }
    }

    pub fn start(&mut self)
        ensures
            *final(self) == (HallCalibration { state: State::RampUp, ..HallCalibration::idle() }),
            final(self).wf(),
    {
        *self = HallCalibration::new();
        self.state = State::RampUp;
    }

    pub fn fail(&mut self, failure: Failure)
        requires
            old(self).wf(),
        ensures
            final(self).wf(),
            *final(self) == old(self).failed(failure),
    {
        self.state = State::Failed;
        self.failure = failure;
        self.cycle_in_state = 0;
    }

    pub fn state(&self) -> (r: State)
        ensures
            r == self.state,
    {
        self.state
    }

    pub fn failure(&self) -> (r: Failure)
        ensures
            r == self.failure,
    {
        self.failure
    }

    pub fn active(&self) -> (r: bool)
        ensures
            r == self.state.is_active(),
    {
        self.state.active()
    }

    pub fn result(&self) -> (r: Outcome)
        ensures
            r == self.result,
    {
        self.result
    }

    /// Sweep in the upper seven bits, degree in the lower nine.
    pub fn progress(&self) -> (r: u16)
        requires
            self.wf(),
        ensures
            r == self.sweep * 512 + self.degree,
    {
        self.sweep as u16 * 512 + self.degree
    }

    pub fn actuation(&self) -> (r: Actuation)
        ensures
            r == self.demanded(),
    {
        proof {
            measure::lemma_ramped(
                0,
                HALL_CALIBRATION_CURRENT_COUNTS as int,
                self.cycle_in_state as int,
                RAMP_CYCLES as int,
            );
        }
        let current: i16 = match self.state {
            State::RampUp => ramp_current(self.cycle_in_state),
            State::Settle | State::Sweep => HALL_CALIBRATION_CURRENT_COUNTS,
            State::RampDown => HALL_CALIBRATION_CURRENT_COUNTS - ramp_current(self.cycle_in_state),
            State::Idle | State::Complete | State::Failed => {
                return Actuation::Off;
            },
        };
        Actuation::Current { angle: self.angle, direct_counts: current, quadrature_counts: 0 }
    }

    /// Advances the sequence by one 16 kHz control sample.
    pub fn observe(&mut self, raw_hall: u8)
        requires
            old(self).wf(),
        ensures
            final(self).wf(),
            *final(self) == old(self).observed(raw_hall),
            final(self).state is Complete && !(old(self).state is Complete)
                ==> old(self).counted().is_complete() && old(self).counted().yields(
                final(self).result,
            ),
    {
        self.cycle_in_state = self.cycle_in_state.saturating_add(1);
        match self.state {
            State::RampUp => {
                if self.cycle_in_state >= RAMP_CYCLES {
                    self.enter(State::Settle);
                }
            },
            State::Settle => {
                if self.cycle_in_state >= SETTLE_CYCLES {
                    self.enter(State::Sweep);
                }
            },
            State::Sweep => {
                if self.cycle_in_state >= STEP_CYCLES {
                    self.record_step(raw_hall);
                }
            },
            State::RampDown => {
                if self.cycle_in_state >= RAMP_CYCLES {
                    if self.finish_result() {
                        self.enter(State::Complete);
                    } else {
                        self.fail(Failure::HallStates);
                    }
                }
            },
            State::Idle | State::Complete | State::Failed => {},
        }
    }

    fn enter(&mut self, state: State)
        ensures
            *final(self) == old(self).entered(state),
    {
        self.state = state;
        self.cycle_in_state = 0;
    }

    /// Records a raw state at the present angle and moves on.
    pub fn record_step(&mut self, raw_hall: u8)
        requires
            old(self).wf(),
            old(self).sweep < SWEEP_COUNT,
        ensures
            final(self).wf(),
            *final(self) == old(self).stepped(raw_hall),
    {
        self.record(raw_hall);
        self.degree = self.degree + 1;
        if self.degree >= DEGREES_PER_SWEEP {
            self.sweep = self.sweep + 1;
            self.degree = 0;
            if self.sweep >= SWEEP_COUNT {
                self.angle = 0;
                self.enter(State::RampDown);
                return;
            }
        }
        let degree: u16 = if self.sweep % 2 == 0 {
            self.degree
        } else {
            DEGREES_PER_SWEEP - 1 - self.degree
        };
        self.angle = (degree as u64 * 0x1_0000_0000 / DEGREES_PER_SWEEP as u64) as u32;
    }

    fn record(&mut self, raw_hall: u8)
        requires
            old(self).wf(),
            old(self).sweep < SWEEP_COUNT,
        ensures
            *final(self) == old(self).recorded(raw_hall),
            forall|i: int|
                0 <= i < 8 ==> {
                    &&& (#[trigger] final(self).counts@[i]) <= final(self).steps() + 1
                    &&& -0x8000_0000 * final(self).counts@[i] <= final(self).offset_sum@[i]
                        <= 0x8000_0000 * final(self).counts@[i]
                },
    {
        self.cycle_in_state = 0;
        let index: usize = (raw_hall % 8) as usize;
        assert(self.counts@[index as int] <= self.steps());
        if self.counts[index] == 0 {
            let ghost before = self.anchor;
            self.anchor[index] = self.angle;
            assert(self.anchor =~= vstd::array::spec_array_update(
                before,
                index as int,
                self.angle,
            ));
        }
        let offset: i32 = arith::wrapping_sub_to_i32(self.angle, self.anchor[index]);
        let sum: i64 = self.offset_sum[index] + offset as i64;
        let count: u16 = self.counts[index].saturating_add(1);
        let ghost sums = self.offset_sum;
        let ghost counts = self.counts;
        self.offset_sum[index] = sum;
        self.counts[index] = count;
        assert(self.offset_sum =~= vstd::array::spec_array_update(sums, index as int, sum));
        assert(self.counts =~= vstd::array::spec_array_update(counts, index as int, count));
        assert forall|i: int| 0 <= i < 8 implies {
            &&& (#[trigger] self.counts@[i]) <= self.steps() + 1
            &&& -0x8000_0000 * self.counts@[i] <= self.offset_sum@[i] <= 0x8000_0000
                * self.counts@[i]
        } by {
            assert(counts@[i] <= self.steps());
        }
    }

    /// Evaluates the sweep; says whether every legal state was seen often enough
    /// and no other.
    pub fn finish_result(&mut self) -> (r: bool)
        requires
            old(self).wf(),
        ensures
            r == old(self).is_complete(),
            r ==> old(self).yields(final(self).result),
            *final(self) == (HallCalibration {
                result: if r {
                    old(self).outcome()
                } else {
                    old(self).result
                },
                ..*old(self)
            }),
    {
        if self.counts[0] != 0 || self.counts[7] != 0 {
            return false;
        }
        let mut raw: usize = 1;
        let mut minimum: u16 = u16::MAX;
        while raw < 7
            invariant
                1 <= raw <= 7,
                forall|i: int| 1 <= i < raw ==> (#[trigger] self.counts@[i])
                    >= MIN_SAMPLES_PER_STATE,
                forall|i: int| 1 <= i < raw ==> minimum <= #[trigger] self.counts@[i],
                raw == 1 ==> minimum == u16::MAX,
                raw > 1 ==> exists|i: int| 1 <= i < raw && minimum == #[trigger] self.counts@[i],
                *self == *old(self),
                self.counts@[0] == 0,
                self.counts@[7] == 0,
                self.wf(),
            decreases 7 - raw,
        {
            let count: u16 = self.counts[raw];
            if count < MIN_SAMPLES_PER_STATE {
                return false;
            }
            if count < minimum || raw == 1 {
                minimum = count;
            }
            assert(minimum == self.counts@[raw as int] || raw > 1);
            raw = raw + 1;
        }
        self.result = Outcome {
            centers_q16: [
                0,
                self.state_center(1),
                self.state_center(2),
                self.state_center(3),
                self.state_center(4),
                self.state_center(5),
                self.state_center(6),
                0,
            ],
            valid_mask: 0x7e,
            minimum_samples: arith::sat_u16_to_u8(minimum),
        };
        proof {
            let w = choose|i: int| 1 <= i < 7 && minimum == #[trigger] self.counts@[i];
            assert(minimum <= self.counts@[1] && minimum <= self.counts@[2] && minimum
                <= self.counts@[3] && minimum <= self.counts@[4] && minimum <= self.counts@[5]
                && minimum <= self.counts@[6]);
            assert(w == 1 || w == 2 || w == 3 || w == 4 || w == 5 || w == 6);
            old(self).lemma_outcome_is_unique(self.result);
        }
        true
    }

    /// There is only one result of a sweep.
    proof fn lemma_outcome_is_unique(self, result: Outcome)
        requires
            self.yields(result),
        ensures
            result == self.outcome(),
    {
        let other = self.outcome();
        assert(self.yields(other));
        assert(result.centers_q16 =~= other.centers_q16);
    }

    /// Every sweep has a result.
    proof fn lemma_outcome_exists(self)
        ensures
            self.yields(self.outcome()),
    {
        let none = vstd::array::spec_array_fill_for_copy_type::<u16, 8>(0);
        let one = vstd::array::spec_array_update(none, 1, self.center(1) as u16);
        let two = vstd::array::spec_array_update(one, 2, self.center(2) as u16);
        let three = vstd::array::spec_array_update(two, 3, self.center(3) as u16);
        let four = vstd::array::spec_array_update(three, 4, self.center(4) as u16);
        let five = vstd::array::spec_array_update(four, 5, self.center(5) as u16);
        let six = vstd::array::spec_array_update(five, 6, self.center(6) as u16);
        let result = Outcome {
            centers_q16: six,
            valid_mask: 0x7e,
            minimum_samples: arith::sat_u8(self.fewest()) as u8,
        };
        assert(six@ =~= seq![
            0u16,
            self.center(1) as u16,
            self.center(2) as u16,
            self.center(3) as u16,
            self.center(4) as u16,
            self.center(5) as u16,
            self.center(6) as u16,
            0u16,
        ]);
        assert(self.yields(result));
    }

    fn state_center(&self, raw: usize) -> (r: u16)
        requires
            self.wf(),
            raw < 8,
            self.counts@[raw as int] > 0,
        ensures
            r == self.center(raw as int),
    {
        let count: i64 = self.counts[raw] as i64;
        let sum: i64 = self.offset_sum[raw];
        assert(self.counts@[raw as int] <= self.steps());
        assert(-0x8000_0000 <= arith::trunc_div(sum as int, count as int) <= 0x8000_0000) by {
            let s = arith::abs(sum as int);
            assert(0 <= s / (count as int) <= 0x8000_0000) by (nonlinear_arith)
                requires
                    0 <= s <= 0x8000_0000 * count,
                    count > 0,
            ;
        }
        let mean: i64 = sum / count;
        let center: u32 = arith::wrapping_add_u32_i64(self.anchor[raw], mean);
        (center / 0x1_0000) as u16
    }
}

fn ramp_current(cycle: u32) -> (r: i16)
    ensures
        r == measure::ramped(
            0,
            HALL_CALIBRATION_CURRENT_COUNTS as int,
            cycle as int,
            RAMP_CYCLES as int,
        ),
{
    ramp_i16(0, HALL_CALIBRATION_CURRENT_COUNTS, cycle, RAMP_CYCLES)
}

/// The circular average stays right across the turn boundary: angles near an
/// anchor, given by their signed offsets from it, average to the anchor plus the
/// mean offset, whatever the anchor.
pub proof fn law_average_is_independent_of_the_turn_boundary(
    anchor: int,
    shift: int,
    offset_sum: int,
    count: int,
)
    requires
        0 < count,
    ensures
        center_of(arith::wrap_u32(anchor + shift * 0x1_0000), offset_sum, count)
            == arith::wrap_u16(center_of(anchor, offset_sum, count) + shift),
{
    let mean = arith::trunc_div(offset_sum, count);
    let plain = anchor + mean;
    let moved = anchor + shift * 0x1_0000;
    let wrapped = arith::wrap_u32(moved);
    assert(arith::wrap_u32(wrapped + mean) == arith::wrap_u32(plain + shift * 0x1_0000));
    let low = plain % 0x1_0000;
    let high = plain / 0x1_0000;
    assert(plain + shift * 0x1_0000 == (high + shift) * 0x1_0000 + low);
    assert(arith::wrap_u32(plain) / 0x1_0000 == high % 0x1_0000);
    assert(arith::wrap_u32(plain + shift * 0x1_0000) / 0x1_0000 == (high + shift) % 0x1_0000);
}

/// The sweeps cover every whole degree once in each direction: a forward sweep
/// and the backward sweep after it visit the same angles.
pub proof fn law_sweeps_cover_the_turn_both_ways(sweep: int, degree: int)
    requires
        0 <= sweep,
        0 <= degree < DEGREES_PER_SWEEP,
    ensures
        sweep_angle(sweep + 1, DEGREES_PER_SWEEP - 1 - degree) == sweep_angle(sweep, degree),
        0 <= sweep_angle(sweep, degree) < 0x1_0000_0000,
{
}

/// An explicit failure switches the power stage off at once.
pub proof fn law_failure_switches_off(sequence: HallCalibration, failure: Failure)
    ensures
        sequence.failed(failure).demanded() == Actuation::Off,
        !sequence.failed(failure).state.is_active(),
        sequence.failed(failure).failure == failure,
{
}

/// How often a value occurs.
pub open spec fn occurrences(values: Seq<u8>, value: u8) -> nat
    decreases values.len(),
{
    if values.len() == 0 {
        0
    } else {
        occurrences(values.drop_last(), value) + if values.last() == value {
            1nat
        } else {
            0
        }
    }
}

/// A completed run recorded neither of the two states that no rotor position
/// gives, and each of the other six often enough; its result is that of what it
/// recorded.
pub proof fn law_completed_run_saw_every_legal_state(raw_states: Seq<u8>)
    requires
        HallCalibration::run(raw_states).state is Complete,
    ensures
        occurrences(HallCalibration::seen(raw_states), 0) == 0,
        occurrences(HallCalibration::seen(raw_states), 7) == 0,
        forall|raw: u8|
            1 <= raw <= 6 ==> #[trigger] occurrences(HallCalibration::seen(raw_states), raw)
                >= MIN_SAMPLES_PER_STATE,
        HallCalibration::run(raw_states).yields(HallCalibration::run(raw_states).result),
{
    lemma_run_counts_what_it_sees(raw_states);
    let run = HallCalibration::run(raw_states);
    assert(run.counts@[0] == occurrences(HallCalibration::seen(raw_states), 0));
    assert(run.counts@[7] == occurrences(HallCalibration::seen(raw_states), 7));
    assert forall|raw: u8| 1 <= raw <= 6 implies #[trigger] occurrences(
        HallCalibration::seen(raw_states),
        raw,
    ) >= MIN_SAMPLES_PER_STATE by {
        assert(run.counts@[raw as int] >= MIN_SAMPLES_PER_STATE);
    }
}

/// What holds of every run.
spec fn accounted(run: HallCalibration, seen: Seq<u8>) -> bool {
    &&& run.sweep <= SWEEP_COUNT
    &&& run.degree < DEGREES_PER_SWEEP
    &&& run.state is RampUp || run.state is Settle || run.state is Sweep ==> run.sweep
        < SWEEP_COUNT
    &&& forall|i: int| 0 <= i < 8 ==> (#[trigger] run.counts@[i]) <= run.steps()
    &&& forall|i: int|
        0 <= i < 8 ==> (#[trigger] run.counts@[i]) == occurrences(seen, i as u8)
    &&& run.state is Complete ==> run.is_complete() && run.yields(run.result)
}

proof fn lemma_run_counts_what_it_sees(raw_states: Seq<u8>)
    ensures
        accounted(HallCalibration::run(raw_states), HallCalibration::seen(raw_states)),
    decreases raw_states.len(),
{
    if raw_states.len() > 0 {
        let before = raw_states.drop_last();
        lemma_run_counts_what_it_sees(before);
        lemma_sample_is_accounted(
            HallCalibration::run(before),
            HallCalibration::seen(before),
            raw_states.last(),
        );
    }
}

proof fn lemma_sample_is_accounted(run: HallCalibration, seen: Seq<u8>, raw_hall: u8)
    requires
        accounted(run, seen),
    ensures
        accounted(
            run.observed(raw_hall),
            if run.takes_sample() {
                seen.push((raw_hall as int % 8) as u8)
            } else {
                seen
            },
        ),
{
    let counted = run.counted();
    let after = run.observed(raw_hall);
    if run.takes_sample() {
        let index = raw_hall as int % 8;
        let longer = seen.push(index as u8);
        assert(longer.drop_last() =~= seen);
        assert(run.counts@[index] <= run.steps());
        assert forall|i: int| 0 <= i < 8 implies (#[trigger] after.counts@[i]) == occurrences(
            longer,
            i as u8,
        ) && after.counts@[i] <= after.steps() by {
            assert(run.counts@[i] <= run.steps());
            assert(run.counts@[i] == occurrences(seen, i as u8));
        }
    } else if run.state is RampDown && counted.cycle_in_state >= RAMP_CYCLES
        && counted.is_complete() {
        counted.lemma_outcome_exists();
        assert(after.counts == run.counts);
        assert(after.yields(after.result));
    } else {
        assert(after.counts == run.counts);
        assert(run.state is Complete ==> after.yields(after.result));
    }
}

/// A recorded state gets one sample more, at the present angle: the first sample
/// is its anchor, every later one adds its signed distance from the anchor, and
/// no other state changes.
pub proof fn law_recording_adds_the_distance_from_the_anchor(
    sequence: HallCalibration,
    raw_hall: u8,
)
    requires
        sequence.wf(),
        sequence.counts@[raw_hall as int % 8] < 0xffff,
    ensures
        ({
            let i = raw_hall as int % 8;
            let next = sequence.recorded(raw_hall);
            let first = sequence.counts@[i] == 0;
            &&& next.counts@[i] == sequence.counts@[i] + 1
            &&& first ==> next.anchor@[i] == sequence.angle && next.offset_sum@[i]
                == sequence.offset_sum@[i]
            &&& !first ==> next.anchor@[i] == sequence.anchor@[i] && next.offset_sum@[i]
                - sequence.offset_sum@[i] == arith::wrap_i32(
                sequence.angle - sequence.anchor@[i],
            )
            &&& forall|other: int|
                0 <= other < 8 && other != i ==> (#[trigger] next.counts@[other])
                    == sequence.counts@[other] && next.anchor@[other] == sequence.anchor@[other]
                    && next.offset_sum@[other] == sequence.offset_sum@[other]
        }),
{
    let i = raw_hall as int % 8;
    assert(sequence.counts@[i] <= sequence.steps());
    assert(-0x8000_0000 * sequence.counts@[i] <= sequence.offset_sum@[i] <= 0x8000_0000
        * sequence.counts@[i]);
}

/// The center of a state lies at the mean of its angles: a single angle is its own
/// center, and two angles less than half a turn apart have theirs in the middle,
/// across the turn boundary too.
pub proof fn law_center_is_the_mean_angle(
    sequence: HallCalibration,
    raw_hall: u8,
    first: u32,
    second: u32,
)
    requires
        sequence.counts@[raw_hall as int % 8] == 0,
        sequence.offset_sum@[raw_hall as int % 8] == 0,
    ensures
        ({
            let i = raw_hall as int % 8;
            let one = HallCalibration { angle: first, ..sequence }.recorded(raw_hall);
            let two = HallCalibration { angle: second, ..one }.recorded(raw_hall);
            let distance = arith::wrap_i32(second - first);
            let middle = arith::wrap_i32(0x1_0000 * two.center(i) - first);
            &&& one.center(i) == first as int / 0x1_0000
            &&& arith::abs(distance) <= 0x4000_0000 ==> -0x1_0001 <= middle - distance / 2
                <= 0x1_0001
        }),
{
    let i = raw_hall as int % 8;
    let one = HallCalibration { angle: first, ..sequence }.recorded(raw_hall);
    let two = HallCalibration { angle: second, ..one }.recorded(raw_hall);
    let distance = arith::wrap_i32(second - first);
    assert(one.anchor@[i] == first && one.offset_sum@[i] == 0 && one.counts@[i] == 1);
    assert(arith::trunc_div(0, 1) == 0);
    assert(two.anchor@[i] == first && two.offset_sum@[i] == distance && two.counts@[i] == 2);
    let mean = arith::trunc_div(distance, 2);
    let angle = arith::wrap_u32(first + mean);
    assert(two.center(i) == angle / 0x1_0000);
    assert(0 <= angle - 0x1_0000 * (angle / 0x1_0000) < 0x1_0000);
}

/// A degree is the 360th part of a turn, rounded down to the angle's resolution;
/// even sweeps go forward from the first degree and odd ones back from the last.
pub proof fn law_degrees_divide_the_turn(sweep: int, degree: int)
    requires
        0 <= sweep,
        0 <= degree < 360,
    ensures
        0 <= degree * 0x1_0000_0000 - 360 * degree_angle(degree) < 360,
        sweep % 2 == 0 ==> sweep_angle(sweep, degree) == degree_angle(degree),
        sweep % 2 == 1 ==> sweep_angle(sweep, degree) == degree_angle(359 - degree),
{
}

/// The sequence ramps for a second, settles for a fifth, records one state every
/// five milliseconds of the sweep and moves on by a degree with it, and after the
/// sixth sweep ramps down.
pub proof fn law_sequence_follows_its_timing(sequence: HallCalibration, raw_hall: u8)
    requires
        sequence.wf(),
        sequence.cycle_in_state < 0x1_0000,
    ensures
        ({
            let next = sequence.observed(raw_hall);
            let cycle = sequence.cycle_in_state + 1;
            let last = sequence.sweep == 5 && sequence.degree == 359;
            &&& sequence.state is RampUp ==> (next.state is Settle <==> cycle >= 16_000)
            &&& sequence.state is Settle ==> (next.state is Sweep <==> cycle >= 3_200)
            &&& sequence.state is Sweep && cycle < 80 ==> next.state is Sweep && next.counts
                == sequence.counts && next.angle == sequence.angle
            &&& sequence.state is Sweep && cycle >= 80 ==> {
                &&& next.steps() == sequence.steps() + 1
                &&& next.counts == sequence.recorded(raw_hall).counts
                &&& next.offset_sum == sequence.recorded(raw_hall).offset_sum
                &&& last ==> next.state is RampDown
                &&& !last ==> next.state is Sweep && next.angle == sweep_angle(
                    next.sweep as int,
                    next.degree as int,
                )
                &&& next.cycle_in_state == 0
            }
            &&& sequence.state is RampDown && cycle < 16_000 ==> next.state is RampDown
        }),
{
    if sequence.state is Sweep && sequence.cycle_in_state + 1 >= 80 {
        let counted = sequence.counted();
        assert(counted.recorded(raw_hall).counts == sequence.recorded(raw_hall).counts);
        assert(counted.recorded(raw_hall).offset_sum == sequence.recorded(raw_hall).offset_sum);
    }
}

/// The sweep completes exactly if both impossible states were never seen and each
/// of the six others at least thirty times; the smallest number is reported.
pub proof fn law_result_needs_every_legal_state(sequence: HallCalibration, raw_hall: u8)
    requires
        sequence.state is RampDown,
        15_999 <= sequence.cycle_in_state < 0x1_0000,
    ensures
        ({
            let next = sequence.observed(raw_hall);
            let clean = sequence.counts@[0] == 0 && sequence.counts@[7] == 0;
            let seen = forall|i: int| 1 <= i <= 6 ==> (#[trigger] sequence.counts@[i]) >= 30;
            &&& clean && seen ==> next.state is Complete
            &&& !(clean && seen) ==> next.state is Failed && next.failure is HallStates
        }),
        forall|i: int| 1 <= i <= 6 ==> sequence.fewest() <= #[trigger] sequence.counts@[i],
        exists|i: int| 1 <= i <= 6 && sequence.fewest() == #[trigger] sequence.counts@[i],
{
    let counts = sequence.counts@;
    assert(sequence.counted().counts == sequence.counts);
    assert forall|i: int| 1 <= i <= 6 implies sequence.fewest() <= #[trigger] counts[i] by {
        assert(i == 1 || i == 2 || i == 3 || i == 4 || i == 5 || i == 6);
    }
    let fewest = sequence.fewest();
    if fewest == counts[1] {
    } else if fewest == counts[2] {
    } else if fewest == counts[3] {
    } else if fewest == counts[4] {
    } else if fewest == counts[5] {
    } else {
        assert(fewest == counts[6]);
    }
}

/// The d current rises in a straight line, is held through settling and sweeping,
/// and falls in a straight line, at the angle of the step and without q current.
pub proof fn law_current_follows_its_profile(sequence: HallCalibration)
    requires
        sequence.state.is_active(),
        sequence.cycle_in_state <= 16_000,
    ensures
        match sequence.demanded() {
            Actuation::Current { angle, direct_counts, quadrature_counts } => {
                let full = HALL_CALIBRATION_CURRENT_COUNTS as int;
                let cycle = sequence.cycle_in_state as int;
                &&& angle == sequence.angle
                &&& quadrature_counts == 0
                &&& sequence.state is RampUp ==> arith::abs(
                    16_000 * direct_counts - cycle * full,
                ) < 16_000
                &&& sequence.state is Settle || sequence.state is Sweep ==> direct_counts == full
                &&& sequence.state is RampDown ==> arith::abs(
                    16_000 * (full - direct_counts) - cycle * full,
                ) < 16_000
            },
            _ => false,
        },
{
    let full = HALL_CALIBRATION_CURRENT_COUNTS as int;
    measure::law_ramp_is_linear(0, full, sequence.cycle_in_state as int, 16_000);
    measure::lemma_ramped(0, full, sequence.cycle_in_state as int, 16_000);
}

/// The numbers of the states count up along the sequence: zero while idle, one
/// more with every state up to completion, and the last for a failure.
pub proof fn law_state_numbers_follow_the_sequence(sequence: HallCalibration, raw_hall: u8)
    requires
        sequence.state.is_active(),
    ensures
        ({
            let next = sequence.observed(raw_hall).state;
            &&& next != sequence.state && !(next is Failed) ==> next.number()
                == sequence.state.number() + 1
            &&& next is Failed ==> next.number() == State::Complete.number() + 1
            &&& State::Idle.number() == 0
            &&& State::RampUp.number() == 1
        }),
{
}

} // verus!
