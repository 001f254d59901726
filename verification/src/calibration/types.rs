//! Shared synchronous calibration control and failure types.
use vstd::prelude::*;

verus! {

#[derive(Clone, Copy, Debug, Default, Eq, PartialEq, Structural)]
pub enum Routine {
    #[default]
    NoRoutine,
    Resistance,
    Inductance,
    FluxLinkage,
    Hall,
}

impl Routine {
    /// Number of the routine in telemetry.
    pub open spec fn number(self) -> u8 {
        match self {
            Routine::NoRoutine => 0,
            Routine::Resistance => 1,
            Routine::Inductance => 2,
            Routine::FluxLinkage => 3,
            Routine::Hall => 4,
        }
    }

    pub fn code(self) -> (r: u8)
        ensures
            r == self.number(),
    {
        match self {
            Routine::NoRoutine => 0,
            Routine::Resistance => 1,
            Routine::Inductance => 2,
            Routine::FluxLinkage => 3,
            Routine::Hall => 4,
        }
    }
}

#[derive(Clone, Copy, Debug, Default, Eq, PartialEq, Structural)]
pub enum Failure {
    #[default]
    NoFailure,
    Stopped,
    LocalInterlock,
    CurrentSample,
    PhaseOvercurrent,
    HardwareFault,
    PwmOutput,
    ControlTiming,
    CurrentDidNotSettle,
    InvalidSlope,
    BusVoltage,
    MissingPrerequisite,
    PulseResponse,
    InductanceRange,
    MotorNotResponding,
    FluxRange,
    HallStates,
}

impl Failure {
    /// Number of the failure in telemetry and retained records.
    pub open spec fn number(self) -> u8 {
        match self {
            Failure::NoFailure => 0,
            Failure::Stopped => 1,
            Failure::LocalInterlock => 2,
            Failure::CurrentSample => 3,
            Failure::PhaseOvercurrent => 4,
            Failure::HardwareFault => 5,
            Failure::PwmOutput => 6,
            Failure::ControlTiming => 7,
            Failure::CurrentDidNotSettle => 8,
            Failure::InvalidSlope => 9,
            Failure::BusVoltage => 10,
            Failure::MissingPrerequisite => 11,
            Failure::PulseResponse => 12,
            Failure::InductanceRange => 13,
            Failure::MotorNotResponding => 14,
            Failure::FluxRange => 15,
            Failure::HallStates => 16,
        }
    }

    pub fn code(self) -> (r: u8)
        ensures
            r == self.number(),
    {
        match self {
            Failure::NoFailure => 0,
            Failure::Stopped => 1,
            Failure::LocalInterlock => 2,
            Failure::CurrentSample => 3,
            Failure::PhaseOvercurrent => 4,
            Failure::HardwareFault => 5,
            Failure::PwmOutput => 6,
            Failure::ControlTiming => 7,
            Failure::CurrentDidNotSettle => 8,
            Failure::InvalidSlope => 9,
            Failure::BusVoltage => 10,
            Failure::MissingPrerequisite => 11,
            Failure::PulseResponse => 12,
            Failure::InductanceRange => 13,
            Failure::MotorNotResponding => 14,
            Failure::FluxRange => 15,
            Failure::HallStates => 16,
        }
    }
}

/// What a sequence asks of the power stage for one control sample.
#[derive(Clone, Copy, Debug, Default, Eq, PartialEq, Structural)]
pub enum Actuation {
    #[default]
    Off,
    Current { angle: u32, direct_counts: i16, quadrature_counts: i16 },
    DirectVoltage { angle: u32, direct_tick_bits: i32 },
}

/// Every routine has a number of its own, and zero stands for none.
pub proof fn law_routines_have_numbers_of_their_own(routine: Routine, other: Routine)
    ensures
        routine.number() == other.number() ==> routine == other,
        routine.number() == 0 <==> routine is NoRoutine,
        routine.number() <= 4,
{
}

/// Every failure has a number of its own, and zero stands for none.
pub proof fn law_failures_have_numbers_of_their_own(failure: Failure, other: Failure)
    ensures
        failure.number() == other.number() ==> failure == other,
        failure.number() == 0 <==> failure is NoFailure,
        failure.number() <= 16,
{
}

} // verus!
