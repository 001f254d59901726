//! Per-control-period PI controller with external saturation back-calculation.
use vstd::prelude::*;

use super::numeric::{Fixed, Scalar};
use crate::arith;
use crate::foc::numeric;

verus! {

#[derive(Copy, Debug, PartialEq)]
pub struct PIController<N: Scalar = Fixed> {
    pub proportional_gain: N,
    pub integral_gain_per_cycle: N,
    pub integral: N,
    pub previous_error: N,
}

impl<N: Scalar> Clone for PIController<N> {
    fn clone(&self) -> (r: Self)
        ensures
            r == *self,
    {
        *self
    }
}

/// Outcome of one PI evaluation, before saturation is known.
#[derive(Copy, Debug, PartialEq)]
pub struct PIUpdate<N: Scalar> {
    pub next_integral: N,
    pub raw_output: N,
    pub error: N,
}

impl<N: Scalar> Clone for PIUpdate<N> {
    fn clone(&self) -> (r: Self)
        ensures
            r == *self,
    {
        *self
    }
}

impl<N: Scalar> PIController<N> {
    /// The controller with its history cleared and its gains kept.
    pub open spec fn cleared(self) -> Self {
        PIController { integral: N::zero_value(), previous_error: N::zero_value(), ..self }
    }

    /// Trapezoidal PI law: whole-unit proportional and integral parts, with the
    /// error averaged over the last two samples in the integral.
    pub open spec fn evaluated(self, target: N, measurement: N) -> PIUpdate<N> {
        let error = target.minus(measurement);
        let average = error.plus(self.previous_error).times(N::half_value());
        let next_integral = self.integral.plus(average.times(self.integral_gain_per_cycle));
        PIUpdate {
            next_integral,
            raw_output: error.times(self.proportional_gain).truncated().plus(
                next_integral.truncated(),
            ),
            error,
        }
    }

    /// The controller after an update whose output was changed by
    /// `output_error` on its way to the actuator.
    pub open spec fn accepted(self, update: PIUpdate<N>, output_error: N) -> Self {
        PIController {
            integral: update.next_integral.plus(output_error),
            previous_error: update.error,
            ..self
        }
    }

    pub fn new(proportional_gain: N, integral_gain_per_cycle: N) -> (r: Self)
        ensures
            r.proportional_gain == proportional_gain,
            r.integral_gain_per_cycle == integral_gain_per_cycle,
            r == r.cleared(),
    {
        PIController {
            proportional_gain,
            integral_gain_per_cycle,
            integral: N::zero(),
            previous_error: N::zero(),
        }
    }

    pub fn reset(&mut self)
        ensures
            *final(self) == old(self).cleared(),
    {
        self.integral = N::zero();
        self.previous_error = N::zero();
    }

    pub fn integral(&self) -> (r: N)
        ensures
            r == self.integral,
    {
        self.integral
    }

    pub fn prepare_update(&self, target: N, measurement: N) -> (r: PIUpdate<N>)
        ensures
            r == self.evaluated(target, measurement),
    {
        proof {
            N::operators_follow_the_model();
        }
        let error = target - measurement;
        let proportional = (error * self.proportional_gain).trunc();
        let trapezoidal_error = (error + self.previous_error) * N::half();
        let next_integral = self.integral + trapezoidal_error * self.integral_gain_per_cycle;
        PIUpdate { next_integral, raw_output: proportional + next_integral.trunc(), error }
    }

    pub fn apply_back_calculation(&mut self, update: PIUpdate<N>, output_error: N)
        ensures
            *final(self) == old(self).accepted(update, output_error),
    {
        proof {
            N::operators_follow_the_model();
        }
        self.integral = update.next_integral + output_error;
        self.previous_error = update.error;
    }
}

/// Anti-windup: whatever the actuator applied in place of the raw output, the
/// accepted controller stands where it would have asked for just that. Its
/// proportional part and its new integral add up to the applied output, up to
/// the fraction of a unit that the output leaves out. Only saturation of the
/// Q16.16 range would break the balance.
pub proof fn law_back_calculation_tracks_the_applied_output(
    controller: PIController<Fixed>,
    target: Fixed,
    measurement: Fixed,
    applied: Fixed,
)
    requires
        ({
            let update = controller.evaluated(target, measurement);
            let whole = update.next_integral.truncated();
            let proportional = update.error.times(controller.proportional_gain).truncated();
            let output_error = applied.bits - update.raw_output.bits;
            &&& i32::MIN <= proportional.bits + whole.bits <= i32::MAX
            &&& i32::MIN <= output_error <= i32::MAX
            &&& i32::MIN <= update.next_integral.bits + output_error <= i32::MAX
        }),
    ensures
        ({
            let update = controller.evaluated(target, measurement);
            let accepted = controller.accepted(update, applied.minus(update.raw_output));
            let proportional = update.error.times(controller.proportional_gain).truncated();
            arith::abs(proportional.bits + accepted.integral.bits - applied.bits) < 0x1_0000
        }),
{
}

/// The regulator is linear inside the number range. The integral grows by the
/// integral gain times the mean of the last two errors, and the output is the
/// proportional gain times the error plus the integral, each cut to whole units.
/// Errors are target minus measurement.
pub proof fn law_regulator_is_linear(
    controller: PIController<Fixed>,
    target: Fixed,
    measurement: Fixed,
    output_error: Fixed,
)
    requires
        ({
            let error = target.bits - measurement.bits;
            let sum = error + controller.previous_error.bits;
            &&& arith::abs(error) <= 0x4000_0000
            &&& arith::abs(controller.previous_error.bits as int) <= 0x3fff_ffff
            &&& arith::abs(controller.integral.bits as int) <= 0x2000_0000
            &&& arith::abs(error * controller.proportional_gain.bits) <= 0x2000_0000_0000
            &&& arith::abs(sum * controller.integral_gain_per_cycle.bits) <= 0x2000_0000_0000
            &&& arith::abs(output_error.bits as int) <= 0x2000_0000
        }),
    ensures
        ({
            let error = target.bits - measurement.bits;
            let sum = error + controller.previous_error.bits;
            let update = controller.evaluated(target, measurement);
            let next = controller.accepted(update, output_error);
            let proportional = error * controller.proportional_gain.bits;
            let gain = controller.integral_gain_per_cycle.bits as int;
            &&& arith::abs(
                0x2_0000 * (update.next_integral.bits - controller.integral.bits) - sum * gain,
            ) < 0x2_0000 + arith::abs(gain)
            &&& arith::abs(
                0x1_0000 * (update.raw_output.bits - update.next_integral.bits) - proportional,
            ) < 2 * 0x1_0000_0000 + 0x1_0000
            &&& update.raw_output.bits % 0x1_0000 == 0
            &&& next.previous_error.bits == error
            &&& next.integral.bits == update.next_integral.bits + output_error.bits
            &&& next.proportional_gain == controller.proportional_gain
            &&& next.integral_gain_per_cycle == controller.integral_gain_per_cycle
        }),
{
    let error = target.minus(measurement);
    let e = error.bits as int;
    let sum = e + controller.previous_error.bits;
    let half = Fixed::half_value();
    let total = error.plus(controller.previous_error);
    assert(total.bits == sum);
    assert(total.bits * half.bits == 32_768 * sum) by (nonlinear_arith)
        requires
            total.bits == sum,
            half.bits == 32_768,
    ;
    let average = total.times(half);
    let a = average.bits as int;
    assert(-1 <= 2 * a - sum <= 1);
    let gain = controller.integral_gain_per_cycle.bits as int;
    let rest = 2 * a - sum;
    assert(2 * (a * gain) == sum * gain + rest * gain) by (nonlinear_arith)
        requires
            rest == 2 * a - sum,
    ;
    assert(arith::abs(rest * gain) <= arith::abs(gain)) by (nonlinear_arith)
        requires
            -1 <= rest <= 1,
    ;
    assert(arith::abs(gain) <= 0x8000_0000);
    numeric::law_arithmetic_is_exact_to_a_unit(average, controller.integral_gain_per_cycle);
    numeric::law_arithmetic_is_exact_to_a_unit(error, controller.proportional_gain);
    let update = controller.evaluated(target, measurement);
    numeric::law_conversions_agree(0, error.times(controller.proportional_gain));
    numeric::law_conversions_agree(0, update.next_integral);
}

/// The regulator pushes toward its target: a higher target never lowers the
/// output, and a higher measurement never raises it.
pub proof fn law_regulator_opposes_the_error(
    controller: PIController<Fixed>,
    low: Fixed,
    high: Fixed,
    other: Fixed,
)
    requires
        low.bits <= high.bits,
        controller.proportional_gain.bits >= 0,
        controller.integral_gain_per_cycle.bits >= 0,
    ensures
        controller.evaluated(low, other).raw_output.bits <= controller.evaluated(
            high,
            other,
        ).raw_output.bits,
        controller.evaluated(other, high).raw_output.bits <= controller.evaluated(
            other,
            low,
        ).raw_output.bits,
{
    lemma_output_grows(controller, low.minus(other), high.minus(other));
    lemma_output_grows(controller, other.minus(high), other.minus(low));
}

proof fn lemma_output_grows(controller: PIController<Fixed>, small: Fixed, large: Fixed)
    requires
        small.bits <= large.bits,
        controller.proportional_gain.bits >= 0,
        controller.integral_gain_per_cycle.bits >= 0,
    ensures
        small.times(controller.proportional_gain).truncated().bits <= large.times(
            controller.proportional_gain,
        ).truncated().bits,
        controller.integral.plus(
            small.plus(controller.previous_error).times(Fixed::half_value()).times(
                controller.integral_gain_per_cycle,
            ),
        ).truncated().bits <= controller.integral.plus(
            large.plus(controller.previous_error).times(Fixed::half_value()).times(
                controller.integral_gain_per_cycle,
            ),
        ).truncated().bits,
{
    lemma_product_grows(small, large, controller.proportional_gain);
    let p = small.plus(controller.previous_error);
    let q = large.plus(controller.previous_error);
    lemma_product_grows(p, q, Fixed::half_value());
    lemma_product_grows(
        p.times(Fixed::half_value()),
        q.times(Fixed::half_value()),
        controller.integral_gain_per_cycle,
    );
}

proof fn lemma_product_grows(small: Fixed, large: Fixed, gain: Fixed)
    requires
        small.bits <= large.bits,
        gain.bits >= 0,
    ensures
        small.times(gain).bits <= large.times(gain).bits,
{
    assert(small.bits * gain.bits <= large.bits * gain.bits) by (nonlinear_arith)
        requires
            small.bits <= large.bits,
            gain.bits >= 0,
    ;
}

} // verus!
