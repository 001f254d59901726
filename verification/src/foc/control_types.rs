//! Frame and PWM values shared by every numeric backend.
use vstd::prelude::*;

use super::numeric::{Fixed, Scalar};

verus! {

/// Vector in the stationary frame.
#[derive(Copy, Debug, Default, Eq, PartialEq)]
pub struct AlphaBeta<N: Scalar = Fixed> {
    pub alpha: N,
    pub beta: N,
}

impl<N: Scalar> Clone for AlphaBeta<N> {
    fn clone(&self) -> (r: Self)
        ensures
            r == *self,
    {
        *self
    }
}

impl<N: Scalar> AlphaBeta<N> {
    /// The null vector.
    pub open spec fn null() -> Self {
        AlphaBeta { alpha: N::zero_value(), beta: N::zero_value() }
    }

    pub fn new_zero() -> (r: Self)
        ensures
            r == Self::null(),
    {
        AlphaBeta { alpha: N::zero(), beta: N::zero() }
    }
}

/// Vector in the rotor-aligned frame.
#[derive(Copy, Debug, Default, Eq, PartialEq)]
pub struct Dq<N: Scalar = Fixed> {
    pub d: N,
    pub q: N,
}

impl<N: Scalar> Clone for Dq<N> {
    fn clone(&self) -> (r: Self)
        ensures
            r == *self,
    {
        *self
    }
}

impl<N: Scalar> Dq<N> {
    /// The null vector.
    pub open spec fn null() -> Self {
        Dq { d: N::zero_value(), q: N::zero_value() }
    }

    pub fn new(d: N, q: N) -> (r: Self)
        ensures
            r == (Dq { d, q }),
    {
        Dq { d, q }
    }

    pub fn new_zero() -> (r: Self)
        ensures
            r == Self::null(),
    {
        Dq { d: N::zero(), q: N::zero() }
    }
}

/// Timer compares of the three phases.
#[derive(Clone, Copy, Debug, Default, Eq, PartialEq, Structural)]
pub struct PwmDuty {
    pub a: u16,
    pub b: u16,
    pub c: u16,
}

impl PwmDuty {
    pub fn as_array(self) -> (r: [u16; 3])
        ensures
            r@ == seq![self.a, self.b, self.c],
    {
        [self.a, self.b, self.c]
    }
}

} // verus!
