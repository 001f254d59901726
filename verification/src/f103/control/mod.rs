//! Motor-control policy and the synchronous FOC interrupt.
use vstd::prelude::*;

pub mod cycle;
pub mod foc;
pub mod ride;

verus! {

/// A missing phase may be recovered from a standing rotor only while the
/// outputs are off.
pub fn stationary_phase_recovery_allowed(
    estimate_missing: bool,
    motor_outputs_disabled: bool,
) -> (r: bool)
    ensures
        r == (estimate_missing && motor_outputs_disabled),
{
    estimate_missing && motor_outputs_disabled
}

} // verus!
