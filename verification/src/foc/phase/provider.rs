//! Numeric contract between a phase source and the synchronous FOC loop.
use vstd::prelude::*;

use crate::foc::control_types::{AlphaBeta, Dq};
use crate::foc::numeric::{Fixed, Scalar};
use crate::foc::phase::source::PhaseSource;
use crate::foc::trig::Turns;

verus! {

#[derive(Copy, Debug, Default, Eq, PartialEq)]
pub struct PhaseEstimate<A = Turns> {
    pub angle: A,
    pub electrical_rpm: i32,
    pub trustworthy: bool,
}

impl<A: Copy> Clone for PhaseEstimate<A> {
    fn clone(&self) -> (r: Self)
        ensures
            r == *self,
    {
        *self
    }
}

/// One causally paired sample for a phase estimator.
#[derive(Copy, Debug, Default, Eq, PartialEq)]
pub struct PhaseInput<N: Scalar = Fixed> {
    pub applied_voltage: AlphaBeta<N>,
    pub measured_current: AlphaBeta<N>,
    pub control_period_ns: u32,
}

impl<N: Scalar> Clone for PhaseInput<N> {
    fn clone(&self) -> (r: Self)
        ensures
            r == *self,
    {
        *self
    }
}

impl<N: Scalar> PhaseInput<N> {
    pub fn new(
        applied_voltage: AlphaBeta<N>,
        measured_current: AlphaBeta<N>,
        control_period_ns: u32,
    ) -> (r: Self)
        ensures
            r == (PhaseInput { applied_voltage, measured_current, control_period_ns }),
    {
        PhaseInput { applied_voltage, measured_current, control_period_ns }
    }
}

/// Source of electrical-phase estimates.
///
/// The model functions say what each method returns and leaves behind, so that
/// a control loop can be specified over any provider. The provided ones describe
/// a provider that ignores samples, injects nothing and has no other source to
/// switch to.
pub trait PhaseProvider<N: Scalar = Fixed>: Sized {
    type Angle: Copy;

    /// The provider can be asked for estimates and updated.
    open spec fn ready(&self) -> bool {
        true
    }

    spec fn selected_source(&self) -> PhaseSource;

    spec fn estimate_at(&self, elapsed_since_observation_us: u32) -> Option<
        PhaseEstimate<Self::Angle>,
    >;

    open spec fn control_estimate_at(
        &self,
        elapsed_since_observation_us: u32,
        control_period_ns: u32,
    ) -> Option<PhaseEstimate<Self::Angle>> {
        self.estimate_at(elapsed_since_observation_us)
    }

    open spec fn after_control_estimate(
        &self,
        elapsed_since_observation_us: u32,
        control_period_ns: u32,
    ) -> Self {
        *self
    }

    open spec fn after_update(&self, input: PhaseInput<N>) -> Self {
        *self
    }

    open spec fn present_injection(&self) -> Dq<N> {
        Dq::null()
    }

    open spec fn grants_source(&self, source: PhaseSource) -> bool {
        false
    }

    open spec fn after_source_request(&self, source: PhaseSource) -> Self {
        *self
    }

    fn source(&self) -> (r: PhaseSource)
        ensures
            r == self.selected_source(),
    ;

    fn estimate(&self, elapsed_since_observation_us: u32) -> (r: Option<
        PhaseEstimate<Self::Angle>,
    >)
        requires
            self.ready(),
        ensures
            r == self.estimate_at(elapsed_since_observation_us),
    ;

    /// Estimate used by a periodic control loop.
    ///
    /// Stateful providers can use the control period to constrain estimator
    /// motion between samples; others return their plain estimate.
    fn estimate_for_control(
        &mut self,
        elapsed_since_observation_us: u32,
        control_period_ns: u32,
    ) -> (r: Option<PhaseEstimate<Self::Angle>>)
        requires
            old(self).ready(),
        ensures
            final(self).ready(),
            r == old(self).control_estimate_at(elapsed_since_observation_us, control_period_ns),
            *final(self) == old(self).after_control_estimate(
                elapsed_since_observation_us,
                control_period_ns,
            ),
    ;

    fn update(&mut self, input: &PhaseInput<N>)
        requires
            old(self).ready(),
        ensures
            final(self).ready(),
            *final(self) == old(self).after_update(*input),
    ;

    fn injection(&self) -> (r: Dq<N>)
        ensures
            r == self.present_injection(),
    ;

    fn request_source(&mut self, source: PhaseSource) -> (r: bool)
        ensures
            r == old(self).grants_source(source),
            *final(self) == old(self).after_source_request(source),
    ;
}

} // verus!
