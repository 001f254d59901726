//! Throttle calibration, demand scaling, and rest-arming.
use vstd::prelude::*;

use crate::arith;

verus! {

pub const PLAUSIBLE_LOW_ADC: u16 = 250;

pub const REST_ADC: u16 = 726;

pub const REST_MAX_ADC: u16 = 850;

pub const FULL_ADC: u16 = 3_252;

pub const PLAUSIBLE_HIGH_ADC: u16 = 3_750;

pub const DEMAND_MAX_COUNTS: u8 = 240;

/// Largest phase current that a demand can be scaled to.
pub const DEMAND_PHASE_LIMIT_COUNTS: u16 = 880;

#[derive(Clone, Copy, Debug, Eq, PartialEq, Structural)]
pub struct Demand(pub u8);

#[derive(Clone, Copy, Debug, Eq, PartialEq, Structural)]
pub enum State {
    Invalid,
    AtRest,
    Demand(Demand),
}

#[derive(Clone, Copy, Debug, Eq, PartialEq, Structural)]
pub struct Observation {
    pub raw: u16,
    pub state: State,
}

/// Demand of a reading above rest: its share of the travel, rounded up.
pub open spec fn demand_counts(raw: int) -> int {
    let span = FULL_ADC - REST_MAX_ADC;
    ((arith::min(raw, FULL_ADC as int) - REST_MAX_ADC) * DEMAND_MAX_COUNTS + span - 1) / span
}

/// Classification of a reading.
pub open spec fn classified(raw: u16) -> Observation {
    Observation {
        raw,
        state: if raw < PLAUSIBLE_LOW_ADC || raw > PLAUSIBLE_HIGH_ADC {
            State::Invalid
        } else if raw <= REST_MAX_ADC {
            State::AtRest
        } else {
            State::Demand(Demand(demand_counts(raw as int) as u8))
        },
    }
}

impl Observation {
    /// A demand is within its range.
    pub open spec fn wf(self) -> bool {
        match self.requested() {
            Some(demand) => demand.0 <= DEMAND_MAX_COUNTS,
            None => true,
        }
    }

    pub open spec fn requested(self) -> Option<Demand> {
        match self.state {
            State::Demand(demand) => Some(demand),
            _ => None,
        }
    }

    /// Observation before anything was acquired.
    pub fn invalid_zero() -> (r: Self)
        ensures
            r.wf(),
            r == (Observation { raw: 0, state: State::Invalid }),
    {
        Observation::invalid_acquisition(0)
    }

    pub fn invalid_acquisition(raw: u16) -> (r: Self)
        ensures
            r.wf(),
            r == (Observation { raw, state: State::Invalid }),
    {
        Observation { raw, state: State::Invalid }
    }

    pub fn from_raw(raw: u16) -> (r: Self)
        ensures
            r.wf(),
            r == classified(raw),
    {
        if raw < PLAUSIBLE_LOW_ADC || raw > PLAUSIBLE_HIGH_ADC {
            return Observation::invalid_acquisition(raw);
        }
        if raw <= REST_MAX_ADC {
            return Observation { raw, state: State::AtRest };
        }
        let span: u32 = (FULL_ADC - REST_MAX_ADC) as u32;
        let limited: u16 = if raw < FULL_ADC {
            raw
        } else {
            FULL_ADC
        };
        let above_rest: u32 = (limited - REST_MAX_ADC) as u32;
        let counts: u32 = (above_rest * DEMAND_MAX_COUNTS as u32 + (span - 1)) / span;
        Observation { raw, state: State::Demand(Demand(counts as u8)) }
    }

    pub fn raw(self) -> (r: u16)
        ensures
            r == self.raw,
    {
        self.raw
    }

    pub fn demand(self) -> (r: Option<Demand>)
        ensures
            r == self.requested(),
    {
        match self.state {
            State::Demand(demand) => Some(demand),
            State::Invalid | State::AtRest => None,
        }
    }

    pub fn normalized_counts(self) -> (r: u8)
        ensures
            r == (match self.requested() {
                Some(demand) => demand.0,
                None => 0,
            }),
    {
        match self.demand() {
            Some(demand) => demand.counts(),
            None => 0,
        }
    }

    pub fn is_at_rest(self) -> (r: bool)
        ensures
            r == (self.state is AtRest),
    {
        matches!(self.state, State::AtRest)
    }

    pub fn is_valid(self) -> (r: bool)
        ensures
            r == !(self.state is Invalid),
    {
        !matches!(self.state, State::Invalid)
    }
}

impl Demand {
    /// Forward torque is negative q current: the demand's share of the limit,
    /// rounded away from zero.
    pub open spec fn forward_target(self, phase_current_limit_counts: int) -> int {
        -((self.0 * arith::min(phase_current_limit_counts, DEMAND_PHASE_LIMIT_COUNTS as int)
            + DEMAND_MAX_COUNTS - 1) / DEMAND_MAX_COUNTS as int)
    }

    pub fn counts(self) -> (r: u8)
        ensures
            r == self.0,
    {
        self.0
    }

    pub fn negative_q_target(self, phase_current_limit_counts: u16) -> (r: i16)
        ensures
            r == self.forward_target(phase_current_limit_counts as int),
    {
        let limit: u16 = if phase_current_limit_counts < DEMAND_PHASE_LIMIT_COUNTS {
            phase_current_limit_counts
        } else {
            DEMAND_PHASE_LIMIT_COUNTS
        };
        assert(0 <= self.0 * limit <= 255 * 880) by (nonlinear_arith)
            requires
                0 <= self.0 <= 255,
                0 <= limit <= 880,
        ;
        let scaled: u32 = (self.0 as u32 * limit as u32 + (DEMAND_MAX_COUNTS - 1) as u32)
            / DEMAND_MAX_COUNTS as u32;
        -(scaled as i16)
    }
}

#[derive(Clone, Copy, Debug, Eq, PartialEq, Structural)]
pub struct ArmingGate {
    pub armed: bool,
}

impl ArmingGate {
    /// What a sample leaves: the brake, lost safety or an invalid throttle
    /// closes it, a throttle at rest opens it.
    pub open spec fn gated(
        self,
        throttle: Observation,
        brake_active: bool,
        safety_ready: bool,
    ) -> Self {
        ArmingGate {
            armed: !brake_active && safety_ready && !(throttle.state is Invalid) && (self.armed
                || throttle.state is AtRest),
        }
    }

    pub fn new() -> (r: Self)
        ensures
            r == (ArmingGate { armed: false }),
    {
        ArmingGate { armed: false }
    }

    pub fn armed(self) -> (r: bool)
        ensures
            r == self.armed,
    {
        self.armed
    }

    pub fn update(
        &mut self,
        throttle: Observation,
        brake_active: bool,
        safety_ready: bool,
    ) -> (r: Option<Demand>)
        ensures
            *final(self) == old(self).gated(throttle, brake_active, safety_ready),
            r == (if final(self).armed {
                throttle.requested()
            } else {
                None
            }),
    {
        if brake_active || !safety_ready || !throttle.is_valid() {
            self.armed = false;
            return None;
        }
        if throttle.is_at_rest() {
            self.armed = true;
            return None;
        }
        if self.armed {
            throttle.demand()
        } else {
            None
        }
    }
}

impl Default for ArmingGate {
    fn default() -> (r: Self)
        ensures
            r == (ArmingGate { armed: false }),
    {
        ArmingGate::new()
    }
}

/// Demand grows with the reading, is never zero above rest, and reaches its
/// maximum at full travel.
pub proof fn law_demand_is_monotonic_and_bounded(low: u16, high: u16)
    requires
        REST_MAX_ADC < low <= high <= PLAUSIBLE_HIGH_ADC,
    ensures
        0 < demand_counts(low as int) <= demand_counts(high as int) <= DEMAND_MAX_COUNTS,
        high >= FULL_ADC ==> demand_counts(high as int) == DEMAND_MAX_COUNTS,
{
}

/// Every observation that can be made holds a demand within its range: that of a
/// reading, and that of a failed acquisition.
pub proof fn law_observations_are_in_range(raw: u16)
    ensures
        classified(raw).wf(),
        (Observation { raw, state: State::Invalid }).wf(),
{
}

/// A demand in range is scaled to a forward target no larger than the limit,
/// and full demand uses all of it.
pub proof fn law_target_stays_within_the_limit(demand: Demand, limit: u16)
    requires
        demand.0 <= DEMAND_MAX_COUNTS,
    ensures
        -limit <= demand.forward_target(limit as int) <= 0,
        -DEMAND_PHASE_LIMIT_COUNTS <= demand.forward_target(limit as int),
        demand.0 == DEMAND_MAX_COUNTS && limit <= DEMAND_PHASE_LIMIT_COUNTS
            ==> demand.forward_target(limit as int) == -limit,
{
    let l = arith::min(limit as int, DEMAND_PHASE_LIMIT_COUNTS as int);
    assert(0 <= demand.0 * l <= 240 * l) by (nonlinear_arith)
        requires
            0 <= demand.0 <= 240,
            0 <= l,
    ;
}

/// A closed gate opens only at rest: until then no demand passes.
pub proof fn law_closed_gate_opens_only_at_rest(
    gate: ArmingGate,
    throttle: Observation,
    brake_active: bool,
    safety_ready: bool,
)
    requires
        !gate.armed,
    ensures
        gate.gated(throttle, brake_active, safety_ready).armed ==> throttle.state is AtRest,
        !(throttle.state is AtRest) ==> !gate.gated(throttle, brake_active, safety_ready).armed,
{
}

/// Demand is the reading's share of the travel above rest, rounded up to the next
/// count; beyond full travel it stays full. Readings at rest or outside the
/// plausible range hold none.
pub proof fn law_demand_is_proportional_to_travel(raw: u16)
    ensures
        ({
            let travel = arith::min(raw - 850, 2_402);
            match classified(raw).requested() {
                Some(demand) => {
                    &&& 850 < raw <= 3_750
                    &&& 240 * travel <= 2_402 * demand.0 < 240 * travel + 2_402
                },
                None => raw <= 850 || raw > 3_750,
            }
        }),
        classified(raw).state is AtRest <==> 250 <= raw <= 850,
        classified(raw).state is Invalid <==> (raw < 250 || raw > 3_750),
{
}

/// The target is the demand's share of the limit, rounded away from zero, in the
/// forward direction: twice the demand never asks for more than twice the
/// current.
pub proof fn law_target_is_proportional_to_demand(demand: Demand, limit: u16)
    requires
        limit <= DEMAND_PHASE_LIMIT_COUNTS,
    ensures
        ({
            let forward = -demand.forward_target(limit as int);
            demand.0 * limit <= 240 * forward < demand.0 * limit + 240
        }),
{
    assert(demand.0 * limit >= 0) by (nonlinear_arith)
        requires
            demand.0 >= 0,
            limit >= 0,
    ;
}

/// An open gate passes every demand on until the brake, lost safety or an
/// implausible throttle closes it, and rest opens a closed one.
pub proof fn law_open_gate_stays_open(
    gate: ArmingGate,
    throttle: Observation,
    brake_active: bool,
    safety_ready: bool,
)
    ensures
        ({
            let next = gate.gated(throttle, brake_active, safety_ready);
            let clear = !brake_active && safety_ready && !(throttle.state is Invalid);
            &&& next.armed ==> clear
            &&& clear && gate.armed ==> next.armed
            &&& clear && throttle.state is AtRest ==> next.armed
        }),
{
}

} // verus!
