//! Cycle-counted slew limiting for a quadrature-current request.
use vstd::prelude::*;

use crate::arith;

verus! {

/// Slew limiter for a request whose torque grows in the negative direction.
#[derive(Clone, Copy, Debug, Eq, PartialEq, Structural)]
pub struct QuadratureTargetRamp {
    pub target: i32,
    pub elapsed_cycles: u8,
    pub cycles_per_step: u8,
    pub counts_per_step: i32,
}

impl QuadratureTargetRamp {
    /// Steps have a positive length and a positive size.
    pub open spec fn wf(self) -> bool {
        &&& self.cycles_per_step > 0
        &&& self.counts_per_step > 0
    }

    /// Target granted for this cycle: a request above the present target is
    /// taken at once.
    pub open spec fn granted(self, requested: int) -> int {
        arith::max(self.target as int, requested)
    }

    /// Cycles spent on the present target, this one included; a request taken
    /// at once starts a new count.
    pub open spec fn cycles_spent(self, requested: int) -> int {
        if self.target < requested {
            1
        } else {
            arith::sat_u8(self.elapsed_cycles + 1)
        }
    }

    /// Target for the next cycle: once a step is complete it moves toward the
    /// request by one step, and never past it.
    pub open spec fn next_target(self, requested: int) -> int {
        let granted = self.granted(requested);
        if self.cycles_spent(requested) >= self.cycles_per_step && granted > requested {
            arith::max(arith::sat_i32(granted - self.counts_per_step), requested)
        } else {
            granted
        }
    }

    /// The ramp after one cycle with a request.
    pub open spec fn advanced(self, requested: int) -> Self {
        QuadratureTargetRamp {
            target: self.next_target(requested) as i32,
            elapsed_cycles: (if self.cycles_spent(requested) >= self.cycles_per_step {
                0
            } else {
                self.cycles_spent(requested)
            }) as u8,
            ..self
        }
    }

    /// The ramp after one cycle for each request.
    pub open spec fn after(self, requests: Seq<i32>) -> Self
        decreases requests.len(),
    {
        if requests.len() == 0 {
            self
        } else {
            self.after(requests.drop_last()).advanced(requests.last() as int)
        }
    }

    /// This cycle lowers the target.
    pub open spec fn drops(self, requested: int) -> bool {
        self.next_target(requested) < self.granted(requested)
    }

    /// The ramp at rest, with its configured rate.
    pub open spec fn cleared(self) -> Self {
        QuadratureTargetRamp { target: 0, elapsed_cycles: 0, ..self }
    }

    pub fn new(cycles_per_step: u8, counts_per_step: i32) -> (r: Self)
        ensures
            r.wf(),
            r.target == 0,
            r.elapsed_cycles == 0,
            r.cycles_per_step == arith::max(cycles_per_step as int, 1),
            r.counts_per_step == arith::max(counts_per_step as int, 1),
    {
        QuadratureTargetRamp {
            target: 0,
            elapsed_cycles: 0,
            cycles_per_step: if cycles_per_step == 0 {
                1
            } else {
                cycles_per_step
            },
            counts_per_step: if counts_per_step <= 0 {
                1
            } else {
                counts_per_step
            },
        }
    }

    pub fn next(&mut self, requested: i32) -> (r: i32)
        requires
            old(self).wf(),
        ensures
            final(self).wf(),
            r == old(self).granted(requested as int),
            *final(self) == old(self).advanced(requested as int),
    {
        if self.target < requested {
            self.target = requested;
            self.elapsed_cycles = 0;
        }
        let target: i32 = self.target;
        self.elapsed_cycles = self.elapsed_cycles.saturating_add(1);
        if self.elapsed_cycles >= self.cycles_per_step {
            self.elapsed_cycles = 0;
            if self.target > requested {
                let stepped: i32 = arith::sat_sub_i32(self.target, self.counts_per_step);
                self.target = if stepped > requested {
                    stepped
                } else {
                    requested
                };
            }
        }
        target
    }

    /// Clears the ramp and keeps its configured rate.
    pub fn reset(&mut self)
        ensures
            *final(self) == old(self).cleared(),
    {
        self.target = 0;
        self.elapsed_cycles = 0;
    }
}

/// The granted target never asks for more torque than requested, a reduction
/// is granted at once, and an increase is at most one step per call.
pub proof fn law_increase_is_slewed_and_reduction_is_immediate(
    ramp: QuadratureTargetRamp,
    requested: i32,
)
    requires
        ramp.wf(),
    ensures
        ramp.granted(requested as int) >= requested,
        ramp.target <= requested ==> ramp.granted(requested as int) == requested,
        ramp.next_target(requested as int) >= requested,
        ramp.next_target(requested as int) <= ramp.granted(requested as int),
        ramp.next_target(requested as int) >= ramp.granted(requested as int) - ramp.counts_per_step,
        ramp.cycles_spent(requested as int) < ramp.cycles_per_step ==> ramp.next_target(
            requested as int,
        ) == ramp.granted(requested as int),
{
}

/// After a drop the target is held for the rest of a step, whatever is
/// requested: two drops are at least `cycles_per_step` calls apart.
pub proof fn law_drops_are_a_step_apart(
    ramp: QuadratureTargetRamp,
    requested: i32,
    between: Seq<i32>,
    next: i32,
)
    requires
        ramp.wf(),
        ramp.drops(requested as int),
        ramp.advanced(requested as int).after(between).drops(next as int),
    ensures
        between.len() + 1 >= ramp.cycles_per_step,
{
    lemma_elapsed_cycles_are_counted(ramp.advanced(requested as int), between);
}

proof fn lemma_elapsed_cycles_are_counted(ramp: QuadratureTargetRamp, requests: Seq<i32>)
    requires
        ramp.wf(),
        ramp.elapsed_cycles == 0,
    ensures
        ramp.after(requests).wf(),
        ramp.after(requests).cycles_per_step == ramp.cycles_per_step,
        ramp.after(requests).elapsed_cycles <= requests.len(),
    decreases requests.len(),
{
    if requests.len() > 0 {
        lemma_elapsed_cycles_are_counted(ramp, requests.drop_last());
    }
}

/// An increase does arrive: every call counts, and the call that completes a step
/// moves the target by one whole step, or to the request if that is nearer. The
/// rate stays as configured.
pub proof fn law_increase_arrives_step_by_step(ramp: QuadratureTargetRamp, requested: i32)
    requires
        ramp.wf(),
        ramp.target > requested,
        ramp.elapsed_cycles < ramp.cycles_per_step,
    ensures
        ({
            let next = ramp.advanced(requested as int);
            let completes = ramp.elapsed_cycles + 1 == ramp.cycles_per_step;
            &&& ramp.granted(requested as int) == ramp.target
            &&& !completes ==> next.target == ramp.target && next.elapsed_cycles
                == ramp.elapsed_cycles + 1
            &&& completes && ramp.target - requested > ramp.counts_per_step ==> next.target
                == ramp.target - ramp.counts_per_step && next.elapsed_cycles == 0
            &&& completes && ramp.target - requested <= ramp.counts_per_step ==> next.target
                == requested && next.elapsed_cycles == 0
            &&& next.cycles_per_step == ramp.cycles_per_step
            &&& next.counts_per_step == ramp.counts_per_step
        }),
{
}

} // verus!
