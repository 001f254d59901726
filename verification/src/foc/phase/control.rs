//! Numeric contract between a phase strategy and the shared FOC loop.
use vstd::prelude::*;

use crate::foc::control_types::Dq;
use crate::foc::numeric::{Fixed, Scalar};
use crate::foc::phase::strategy::PhaseStrategy;
use crate::foc::trig::Turns;

verus! {

#[derive(Copy, Debug, Default, Eq, PartialEq)]
pub struct ControlPhaseEstimate<A = Turns> {
    pub angle: A,
    pub electrical_rpm: i32,
    pub trustworthy: bool,
}

#[derive(Copy, Debug, Default, Eq, PartialEq)]
pub struct ControlPhaseInput<N: Scalar = Fixed, A = Turns> {
    pub applied_voltage: Dq<N>,
    pub measured_current: Dq<N>,
    pub electrical_angle: A,
    pub control_period_ns: u32,
}

impl<A: Copy> Clone for ControlPhaseEstimate<A> {
    fn clone(&self) -> (r: Self)
        ensures
            r == *self,
    {
        *self
    }
}

impl<N: Scalar, A: Copy> Clone for ControlPhaseInput<N, A> {
    fn clone(&self) -> (r: Self)
        ensures
            r == *self,
    {
        *self
    }
}

/// Phase source identified by its strategy.
///
/// Implementations choose what they do; a provider that does not react to
/// samples, injects nothing and offers no other source keeps the provided
/// methods.
pub trait ControlPhaseProvider<N: Scalar = Fixed>: Sized {
    type Angle: Copy;

    fn source(&self) -> PhaseStrategy;

    fn estimate(&self, elapsed_since_observation_us: u32) -> Option<
        ControlPhaseEstimate<Self::Angle>,
    >;

    fn update(&mut self, _input: &ControlPhaseInput<N, Self::Angle>)
        default_ensures
            *final(self) == *old(self),
    {
    }

    fn injection(&self) -> (r: Dq<N>)
        default_ensures
            r == Dq::<N>::null(),
    {
        Dq::new_zero()
    }

    fn request_source(&mut self, _source: PhaseStrategy) -> (r: bool)
        default_ensures
            !r,
            *final(self) == *old(self),
    {
        false
    }
}

} // verus!
