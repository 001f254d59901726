//! Current-command, supply-current, and measured-overcurrent limits.
use core::ops::Neg;
use vstd::prelude::*;

use super::control_types::Dq;
use super::numeric::{Fixed, Scalar};
use crate::arith;
use crate::foc::numeric;
use crate::foc::roots;

verus! {

/// Longest supported filter shift.
pub const MAXIMUM_FILTER_SHIFT: u8 = 30;

/// Target constrained to the current circle, with priority for the d axis. A
/// limit that is not positive constrains nothing.
pub open spec fn circle_target<N: Scalar>(max_current: N, target: Dq<N>) -> Dq<N> {
    let zero = N::zero_value();
    if max_current.below(zero) || max_current.same(zero) {
        target
    } else {
        let d = numeric::clamped(target.d, max_current.negated(), max_current);
        let limit = circle_authority(max_current, d);
        Dq { d, q: numeric::clamped(target.q, limit.negated(), limit) }
    }
}

/// Largest q current beside a d current.
pub open spec fn circle_authority<N: Scalar>(max_current: N, d: N) -> N {
    if d.same(N::zero_value()) {
        max_current
    } else {
        N::remaining_on_circle(max_current, d)
    }
}

/// One step of the modulation filter: the distance to the sample divided by
/// `2^shift`, rounded toward the present value.
pub open spec fn modulation_step(previous: int, sample: int, shift: int) -> int {
    let unit = arith::unit(arith::min(shift, MAXIMUM_FILTER_SHIFT as int) as nat);
    let difference = arith::sat_i32(sample - previous);
    arith::sat_i32(
        previous + (if difference < 0 {
            -(arith::sat_i32(-difference) / unit)
        } else {
            difference / unit
        }),
    )
}

/// q modulation of a voltage in PWM ticks: two thirds of a half period is full
/// modulation.
pub open spec fn modulation_of(q_voltage_bits: int, pwm_period_ticks: int) -> int {
    if pwm_period_ticks == 0 {
        0
    } else {
        arith::sat_i32(arith::trunc_div(3 * q_voltage_bits, 2 * pwm_period_ticks))
    }
}

/// Triple voltage below which modulation is too small to project a current:
/// a thousandth of full modulation.
pub open spec fn modulation_deadband(pwm_period_ticks: int) -> int {
    arith::sat_u32(2 * pwm_period_ticks * 0x1_0000) / 1_000
}

/// Phase-current counts whose projection on the supply stays within the bus
/// counts at a q voltage.
pub open spec fn projected_counts(
    bus_counts: int,
    q_voltage_ticks: int,
    pwm_period_ticks: int,
) -> int {
    if q_voltage_ticks == 0 {
        i32::MAX as int
    } else {
        arith::min(
            arith::sat_u32(2 * arith::sat_u32(bus_counts * pwm_period_ticks)) / arith::sat_u32(
                3 * q_voltage_ticks,
            ),
            i32::MAX as int,
        )
    }
}

/// Phase-current limit that a bus limit implies at a q voltage.
pub open spec fn projected_limit(
    bus_limit: Fixed,
    q_voltage: Fixed,
    pwm_period_ticks: int,
) -> Fixed {
    numeric::fixed(
        projected_counts(
            arith::max(bus_limit.whole() as int, 0),
            q_voltage.absolute_ceiling() as int,
            pwm_period_ticks,
        ) * 0x1_0000,
    )
}

/// Bus limit that governs a target: the input limit while the target and the
/// voltage have the same sign, the regeneration limit otherwise; none inside
/// the modulation dead band or without a q target.
pub open spec fn governing_limit(
    target: Dq<Fixed>,
    q_voltage: Fixed,
    pwm_period_ticks: int,
    bus_in_max: Option<Fixed>,
    bus_regen_max: Option<Fixed>,
) -> Option<Fixed> {
    if arith::sat_u32(3 * arith::abs(q_voltage.bits as int)) < modulation_deadband(pwm_period_ticks)
        || target.q.bits == 0 {
        None
    } else if (target.q.bits > 0) == (q_voltage.bits > 0) {
        bus_in_max
    } else {
        bus_regen_max
    }
}

/// Target after the current circle and the supply projection, with the q
/// authority that is left.
pub open spec fn supplied_target(
    max_current: Fixed,
    bus_in_max: Option<Fixed>,
    bus_regen_max: Option<Fixed>,
    q_voltage: Fixed,
    pwm_period_ticks: int,
    requested: Dq<Fixed>,
) -> (Dq<Fixed>, Fixed) {
    let target = circle_target(max_current, requested);
    let authority = circle_authority(max_current, target.d);
    match governing_limit(target, q_voltage, pwm_period_ticks, bus_in_max, bus_regen_max) {
        None => (target, authority),
        Some(bus_limit) => {
            let limit = numeric::lesser(
                projected_limit(bus_limit, q_voltage, pwm_period_ticks),
                authority,
            );
            (Dq { d: target.d, q: numeric::clamped(target.q, limit.negated(), limit) }, limit)
        },
    }
}

#[derive(Copy, Debug, PartialEq)]
pub struct CurrentLimitResult<N: Scalar = Fixed> {
    pub target: Dq<N>,
    pub quadrature_limit: N,
}

impl<N: Scalar> Clone for CurrentLimitResult<N> {
    fn clone(&self) -> (r: Self)
        ensures
            r == *self,
    {
        *self
    }
}

#[derive(Copy, Debug, PartialEq)]
pub struct CurrentLimits<N: Scalar = Fixed> {
    pub max_current: N,
    pub overcurrent_threshold: N,
    pub bus_in_max: Option<N>,
    pub bus_regen_max: Option<N>,
}

impl<N: Scalar> Clone for CurrentLimits<N> {
    fn clone(&self) -> (r: Self)
        ensures
            r == *self,
    {
        *self
    }
}

impl<N: Scalar> CurrentLimits<N> {
    pub fn new(
        max_current: N,
        overcurrent_threshold: N,
        bus_in_max: Option<N>,
        bus_regen_max: Option<N>,
    ) -> (r: Self)
        ensures
            r == (CurrentLimits { max_current, overcurrent_threshold, bus_in_max, bus_regen_max }),
    {
        CurrentLimits { max_current, overcurrent_threshold, bus_in_max, bus_regen_max }
    }

    pub fn clamp_targets(&self, target: Dq<N>) -> (r: Dq<N>)
        ensures
            r == circle_target(self.max_current, target),
    {
        clamp_to_circle(self.max_current, target)
    }

    pub fn is_overcurrent(&self, measured: Dq<N>) -> (r: bool)
        ensures
            r == (!(self.overcurrent_threshold.below(N::zero_value())
                || self.overcurrent_threshold.same(N::zero_value())) && N::outside_circle(
                measured.d,
                measured.q,
                self.overcurrent_threshold,
            )),
    {
        if self.overcurrent_threshold.less_than(N::zero()) || self.overcurrent_threshold.equals(
            N::zero(),
        ) {
            return false;
        }
        N::magnitude_exceeds(measured.d, measured.q, self.overcurrent_threshold)
    }
}

pub fn clamp_to_circle<N: Scalar>(max_current: N, target: Dq<N>) -> (r: Dq<N>)
    ensures
        r == circle_target(max_current, target),
{
    proof {
        N::operators_follow_the_model();
    }
    if max_current.less_than(N::zero()) || max_current.equals(N::zero()) {
        return target;
    }
    let direct = target.d.clamp(max_current.neg(), max_current);
    let quadrature_limit = quadrature_authority(max_current, direct);
    Dq::new(direct, target.q.clamp(quadrature_limit.neg(), quadrature_limit))
}

fn quadrature_authority<N: Scalar>(max_current: N, direct: N) -> (r: N)
    ensures
        r == circle_authority(max_current, direct),
{
    if direct.equals(N::zero()) {
        max_current
    } else {
        N::circular_remaining(max_current, direct)
    }
}

/// Moves a filtered q voltage toward a sample.
pub fn filter_modulation(previous: Fixed, sample: Fixed, filter_shift: u8) -> (r: Fixed)
    ensures
        r.bits == modulation_step(previous.bits as int, sample.bits as int, filter_shift as int),
{
    let shift: u32 = if filter_shift < MAXIMUM_FILTER_SHIFT {
        filter_shift as u32
    } else {
        MAXIMUM_FILTER_SHIFT as u32
    };
    let difference: i32 = arith::sat_sub_i32(sample.to_bits(), previous.to_bits());
    let magnitude: u32 = arith::sat_abs_i32(difference) as u32;
    proof {
        vstd::bits::lemma_u32_shr_is_div(magnitude, shift);
        vstd::arithmetic::power2::lemma_pow2_pos(shift as nat);
        let u = arith::unit(shift as nat);
        assert(0 <= magnitude as int / u <= magnitude) by (nonlinear_arith)
            requires
                u >= 1,
                magnitude >= 0,
        ;
    }
    let step: i32 = (magnitude >> shift) as i32;
    let adjustment: i32 = if difference < 0 {
        -step
    } else {
        step
    };
    Fixed::from_bits(arith::sat_add_i32(previous.to_bits(), adjustment))
}

/// q modulation of a filtered voltage.
pub fn q_modulation(q_voltage: Fixed, pwm_period_ticks: u16) -> (r: Fixed)
    ensures
        r.bits == modulation_of(q_voltage.bits as int, pwm_period_ticks as int),
{
    if pwm_period_ticks == 0 {
        return Fixed::zero();
    }
    let numerator: i64 = q_voltage.to_bits() as i64 * 3;
    let denominator: i64 = pwm_period_ticks as i64 * 2;
    Fixed::from_bits(arith::sat_i64_to_i32(numerator / denominator))
}

/// Constrains a target to the current circle and the supply.
pub fn limit_target(
    max_current: Fixed,
    bus_in_max: Option<Fixed>,
    bus_regen_max: Option<Fixed>,
    q_voltage: Fixed,
    pwm_period_ticks: u16,
    requested: Dq<Fixed>,
) -> (r: (Dq<Fixed>, Fixed))
    ensures
        r == supplied_target(
            max_current,
            bus_in_max,
            bus_regen_max,
            q_voltage,
            pwm_period_ticks as int,
            requested,
        ),
{
    let target = clamp_to_circle(max_current, requested);
    let static_quadrature_limit = quadrature_authority(max_current, target.d);
    let filtered_voltage_bits: i32 = q_voltage.to_bits();
    let deadband_bits: u32 = arith::sat_mul_u32(pwm_period_ticks as u32 * 2, 0x1_0000) / 1_000;
    if arith::sat_mul_u32(arith::unsigned_abs_i32(filtered_voltage_bits), 3) < deadband_bits
        || target.q.to_bits() == 0 {
        return (target, static_quadrature_limit);
    }
    let motoring: bool = (target.q.to_bits() > 0) == (filtered_voltage_bits > 0);
    let bus_limit = if motoring {
        bus_in_max
    } else {
        bus_regen_max
    };
    match bus_limit {
        None => (target, static_quadrature_limit),
        Some(bus_limit) => {
            let projected = phase_current_limit(
                bus_limit,
                q_voltage.abs_ceil_u32(),
                pwm_period_ticks,
            );
            let quadrature_limit = Scalar::min(projected, static_quadrature_limit);
            (
                Dq::new(target.d, Scalar::clamp(target.q, quadrature_limit.neg(), quadrature_limit)),
                quadrature_limit,
            )
        },
    }
}

/// Phase current that a bus limit allows at a q voltage.
pub fn phase_current_limit(bus_limit: Fixed, q_voltage_ticks: u32, pwm_period_ticks: u16) -> (r:
    Fixed)
    ensures
        r == numeric::fixed(
            projected_counts(
                arith::max(bus_limit.whole() as int, 0),
                q_voltage_ticks as int,
                pwm_period_ticks as int,
            ) * 0x1_0000,
        ),
{
    let whole: i32 = bus_limit.trunc_to_i32();
    let bus_counts: u32 = if whole < 0 {
        0
    } else {
        whole as u32
    };
    if q_voltage_ticks == 0 {
        return Fixed::from_integer(i32::MAX);
    }
    let divisor: u32 = arith::sat_mul_u32(q_voltage_ticks, 3);
    let phase_counts: u32 = arith::sat_mul_u32(
        arith::sat_mul_u32(bus_counts, pwm_period_ticks as u32),
        2,
    ) / divisor;
    Fixed::from_integer(
        if phase_counts > i32::MAX as u32 {
            i32::MAX
        } else {
            phase_counts as i32
        },
    )
}

/// Current limits with the filtered q voltage that projects them on the
/// supply.
#[derive(Clone, Copy, Debug, PartialEq)]
pub struct CurrentLimiter {
    pub limits: CurrentLimits<Fixed>,
    pub filtered_q_voltage_ticks: Fixed,
    pub pwm_period_ticks: u16,
    pub modulation_filter_shift: u8,
}

impl CurrentLimiter {
    /// Target and q authority for a request.
    pub open spec fn limited(self, target: Dq<Fixed>) -> (Dq<Fixed>, Fixed) {
        supplied_target(
            self.limits.max_current,
            self.limits.bus_in_max,
            self.limits.bus_regen_max,
            self.filtered_q_voltage_ticks,
            self.pwm_period_ticks as int,
            target,
        )
    }

    pub fn new(
        limits: CurrentLimits<Fixed>,
        pwm_period_ticks: u16,
        modulation_filter_shift: u8,
    ) -> (r: Self)
        ensures
            r == (CurrentLimiter {
                limits,
                filtered_q_voltage_ticks: numeric::fixed(0),
                pwm_period_ticks,
                modulation_filter_shift,
            }),
    {
        CurrentLimiter {
            limits,
            filtered_q_voltage_ticks: Fixed::zero(),
            pwm_period_ticks,
            modulation_filter_shift,
        }
    }

    pub fn limits(&self) -> (r: &CurrentLimits<Fixed>)
        ensures
            *r == self.limits,
    {
        &self.limits
    }

    pub fn set_bus_limits(&mut self, input: Option<Fixed>, regen: Option<Fixed>)
        ensures
            *final(self) == (CurrentLimiter {
                limits: CurrentLimits {
                    bus_in_max: input,
                    bus_regen_max: regen,
                    ..old(self).limits
                },
                ..*old(self)
            }),
    {
        self.limits.bus_in_max = input;
        self.limits.bus_regen_max = regen;
    }

    pub fn reset(&mut self)
        ensures
            *final(self) == (CurrentLimiter {
                filtered_q_voltage_ticks: numeric::fixed(0),
                ..*old(self)
            }),
    {
        self.filtered_q_voltage_ticks = Fixed::zero();
    }

    pub fn note_applied_voltage(&mut self, applied: Dq<Fixed>)
        ensures
            *final(self) == (CurrentLimiter {
                filtered_q_voltage_ticks: numeric::fixed(
                    modulation_step(
                        old(self).filtered_q_voltage_ticks.bits as int,
                        applied.q.bits as int,
                        old(self).modulation_filter_shift as int,
                    ),
                ),
                ..*old(self)
            }),
    {
        self.filtered_q_voltage_ticks = filter_modulation(
            self.filtered_q_voltage_ticks,
            applied.q,
            self.modulation_filter_shift,
        );
    }

    pub fn filtered_q_modulation(&self) -> (r: Fixed)
        ensures
            r.bits == modulation_of(
                self.filtered_q_voltage_ticks.bits as int,
                self.pwm_period_ticks as int,
            ),
    {
        q_modulation(self.filtered_q_voltage_ticks, self.pwm_period_ticks)
    }

    pub fn clamp_targets(&self, target: Dq<Fixed>) -> (r: Dq<Fixed>)
        ensures
            r == self.limited(target).0,
    {
        self.clamp_targets_with_limit(target).target
    }

    pub fn clamp_targets_with_limit(&self, target: Dq<Fixed>) -> (r: CurrentLimitResult<Fixed>)
        ensures
            (r.target, r.quadrature_limit) == self.limited(target),
    {
        let (target, quadrature_limit) = limit_target(
            self.limits.max_current,
            self.limits.bus_in_max,
            self.limits.bus_regen_max,
            self.filtered_q_voltage_ticks,
            self.pwm_period_ticks,
            target,
        );
        CurrentLimitResult { target, quadrature_limit }
    }

    pub fn quadrature_limit_counts(&self, direction: i8) -> (r: u16)
        ensures
            ({
                let requested = if direction < 0 {
                    self.limits.max_current.negated()
                } else {
                    self.limits.max_current
                };
                r == arith::sat_u16(
                    self.limited(
                        Dq { d: numeric::fixed(0), q: requested },
                    ).1.absolute_ceiling() as int,
                )
            }),
    {
        let requested = if direction < 0 {
            self.limits.max_current.neg()
        } else {
            self.limits.max_current
        };
        arith::sat_u32_to_u16(
            self.clamp_targets_with_limit(
                Dq::new(Fixed::zero(), requested),
            ).quadrature_limit.abs_ceil_u32(),
        )
    }

    pub fn is_overcurrent(&self, measured: Dq<Fixed>) -> (r: bool)
        ensures
            r == (self.limits.overcurrent_threshold.bits > 0 && Fixed::outside_circle(
                measured.d,
                measured.q,
                self.limits.overcurrent_threshold,
            )),
    {
        self.limits.is_overcurrent(measured)
    }
}

/// A constrained target lies inside the current circle, and a target that was
/// inside it keeps its d current.
pub proof fn law_target_stays_inside_the_circle(max_current: Fixed, target: Dq<Fixed>)
    requires
        max_current.bits > 0,
    ensures
        ({
            let limited = circle_target(max_current, target);
            &&& !Fixed::outside_circle(limited.d, limited.q, max_current)
            &&& arith::abs(target.d.bits as int) <= max_current.bits ==> limited.d == target.d
        }),
{
    let limited = circle_target(max_current, target);
    let m = max_current.bits as int;
    let d = limited.d.bits as int;
    let q = limited.q.bits as int;
    assert(-m <= d <= m);
    assert(d * d <= m * m) by (nonlinear_arith)
        requires
            -m <= d <= m,
    ;
    if d == 0 {
        assert(-m <= q <= m);
        assert(q * q <= m * m && d * d == 0) by (nonlinear_arith)
            requires
                -m <= q <= m,
                d == 0,
        ;
    } else {
        let a = arith::abs(d);
        let left = m * m - a * a;
        assert(a * a == d * d) by (nonlinear_arith)
            requires
                a == d || a == -d,
        ;
        roots::lemma_isqrt(left);
        let root = roots::isqrt(left);
        assert(root <= m) by (nonlinear_arith)
            requires
                root * root <= left,
                left <= m * m,
                m > 0,
        ;
        assert(-root <= q <= root);
        assert(q * q <= root * root) by (nonlinear_arith)
            requires
                -root <= q <= root,
        ;
    }
}

/// With regeneration forbidden, a target that opposes the applied voltage gets
/// no q current.
pub proof fn law_zero_regen_rejects_opposing_torque(
    max_current: Fixed,
    bus_in_max: Option<Fixed>,
    q_voltage: Fixed,
    pwm_period_ticks: u16,
    requested: Dq<Fixed>,
)
    requires
        max_current.bits > 0,
        arith::sat_u32(3 * arith::abs(q_voltage.bits as int)) >= modulation_deadband(
            pwm_period_ticks as int,
        ),
        q_voltage.bits > 0 ==> requested.q.bits <= 0,
        q_voltage.bits <= 0 ==> requested.q.bits >= 0,
        q_voltage.bits != 0,
    ensures
        supplied_target(
            max_current,
            bus_in_max,
            Some(numeric::fixed(0)),
            q_voltage,
            pwm_period_ticks as int,
            requested,
        ).0.q.bits == 0,
{
    let target = circle_target(max_current, requested);
    law_authority_is_not_negative(max_current, target.d);
    let zero = numeric::fixed(0);
    assert(zero.whole() == 0);
    let p = pwm_period_ticks as int;
    assert(0 * p == 0) by (nonlinear_arith);
    let ticks = q_voltage.absolute_ceiling() as int;
    assert(ticks > 0);
    let divisor = arith::sat_u32(3 * ticks);
    assert(0int / divisor == 0) by (nonlinear_arith)
        requires
            divisor > 0,
    ;
    assert(projected_limit(zero, q_voltage, p).bits == 0);
}

/// The q authority that the circle leaves is never negative.
pub proof fn law_authority_is_not_negative(max_current: Fixed, d: Fixed)
    requires
        max_current.bits > 0,
    ensures
        0 <= circle_authority(max_current, d).bits,
{
    let m = max_current.bits as int;
    let a = arith::min(arith::sat_i32(arith::abs(d.bits as int)), m);
    assert(m * m - a * a >= 0) by (nonlinear_arith)
        requires
            0 <= a <= m,
    ;
    roots::lemma_isqrt(m * m - a * a);
}

/// Limits do not depend on the direction of rotation: turning voltage and
/// torque around turns the constrained q current around.
pub proof fn law_supply_limits_are_symmetric(
    max_current: Fixed,
    bus_in_max: Option<Fixed>,
    bus_regen_max: Option<Fixed>,
    q_voltage: Fixed,
    pwm_period_ticks: u16,
    requested: Dq<Fixed>,
)
    requires
        max_current.bits > 0,
        q_voltage.bits != i32::MIN,
        q_voltage.bits != 0,
        requested.q.bits != i32::MIN,
    ensures
        ({
            let forward = supplied_target(
                max_current,
                bus_in_max,
                bus_regen_max,
                q_voltage,
                pwm_period_ticks as int,
                requested,
            );
            let backward = supplied_target(
                max_current,
                bus_in_max,
                bus_regen_max,
                q_voltage.negated(),
                pwm_period_ticks as int,
                Dq { d: requested.d, q: requested.q.negated() },
            );
            &&& backward.0.d == forward.0.d
            &&& backward.0.q == forward.0.q.negated()
            &&& backward.1 == forward.1
        }),
{
    let target = circle_target(max_current, requested);
    let mirrored = circle_target(
        max_current,
        Dq { d: requested.d, q: requested.q.negated() },
    );
    law_authority_is_not_negative(max_current, target.d);
    assert(mirrored.d == target.d);
    assert(mirrored.q == target.q.negated());
    assert(q_voltage.negated().absolute_ceiling() == q_voltage.absolute_ceiling());
    lemma_projection_is_not_negative(bus_in_max, q_voltage, pwm_period_ticks);
    lemma_projection_is_not_negative(bus_regen_max, q_voltage, pwm_period_ticks);
}

proof fn lemma_projection_is_not_negative(
    bus_limit: Option<Fixed>,
    q_voltage: Fixed,
    pwm_period_ticks: u16,
)
    requires
        q_voltage.bits != 0,
    ensures
        bus_limit is Some ==> projected_limit(
            bus_limit->0,
            q_voltage,
            pwm_period_ticks as int,
        ).bits >= 0,
{
    if bus_limit is Some {
        let bus = arith::max(bus_limit->0.whole() as int, 0);
        let n = arith::sat_u32(2 * arith::sat_u32(bus * pwm_period_ticks));
        let d = arith::sat_u32(3 * q_voltage.absolute_ceiling());
        assert(n / d >= 0) by (nonlinear_arith)
            requires
                n >= 0,
                d > 0,
        ;
    }
}

/// The phase current that a bus limit allows projects onto the supply inside
/// that limit: `counts * 3/2 * voltage <= bus * period`.
pub proof fn law_projection_respects_the_bus(
    bus_counts: int,
    q_voltage_ticks: int,
    pwm_period_ticks: int,
)
    requires
        0 <= bus_counts,
        0 <= pwm_period_ticks,
        0 < q_voltage_ticks <= u32::MAX / 3,
    ensures
        0 <= projected_counts(bus_counts, q_voltage_ticks, pwm_period_ticks),
        projected_counts(bus_counts, q_voltage_ticks, pwm_period_ticks) * (3 * q_voltage_ticks)
            <= 2 * (bus_counts * pwm_period_ticks),
{
    let product = bus_counts * pwm_period_ticks;
    assert(product >= 0) by (nonlinear_arith)
        requires
            product == bus_counts * pwm_period_ticks,
            0 <= bus_counts,
            0 <= pwm_period_ticks,
    ;
    let n = arith::sat_u32(2 * arith::sat_u32(product));
    let d = 3 * q_voltage_ticks;
    let c = projected_counts(bus_counts, q_voltage_ticks, pwm_period_ticks);
    assert(0 <= n / d && (n / d) * d <= n) by (nonlinear_arith)
        requires
            n >= 0,
            d > 0,
    ;
    assert(c * d <= (n / d) * d) by (nonlinear_arith)
        requires
            c <= n / d,
            d > 0,
    ;
}

/// The filtered voltage moves toward each sample and never beyond it.
pub proof fn law_filter_never_overshoots(previous: int, sample: int, shift: int)
    requires
        i32::MIN <= previous <= i32::MAX,
        i32::MIN <= sample <= i32::MAX,
        shift >= 0,
    ensures
        previous <= sample ==> previous <= modulation_step(previous, sample, shift) <= sample,
        previous >= sample ==> previous >= modulation_step(previous, sample, shift) >= sample,
        shift == 0 && -i32::MAX <= sample - previous <= i32::MAX ==> modulation_step(
            previous,
            sample,
            shift,
        ) == sample,
{
    let s = arith::min(shift, MAXIMUM_FILTER_SHIFT as int) as nat;
    vstd::arithmetic::power2::lemma_pow2_pos(s);
    vstd::arithmetic::power2::lemma2_to64();
    let u = arith::unit(s);
    let difference = arith::sat_i32(sample - previous);
    let magnitude = if difference < 0 {
        arith::sat_i32(-difference)
    } else {
        difference
    };
    assert(0 <= magnitude / u <= magnitude) by (nonlinear_arith)
        requires
            u >= 1,
            magnitude >= 0,
    ;
    if shift == 0 {
        assert(magnitude / u == magnitude) by (nonlinear_arith)
            requires
                u == 1,
        ;
    }
}

/// A target inside the circle is left alone; one outside it keeps its d current
/// as far as the circle reaches, keeps the sign of its q current, and uses the
/// circle up to the last unit.
pub proof fn law_circle_takes_no_more_than_it_must(max_current: Fixed, target: Dq<Fixed>)
    requires
        max_current.bits > 0,
    ensures
        ({
            let limited = circle_target(max_current, target);
            let m = max_current.bits as int;
            let d = limited.d.bits as int;
            let q = limited.q.bits as int;
            &&& !Fixed::outside_circle(target.d, target.q, max_current) ==> limited == target
            &&& d == arith::clamp(target.d.bits as int, -m, m)
            &&& target.q.bits >= 0 ==> 0 <= q <= target.q.bits
            &&& target.q.bits <= 0 ==> target.q.bits <= q <= 0
            &&& limited.q != target.q ==> d * d + (arith::abs(q) + 1) * (arith::abs(q) + 1) > m * m
        }),
{
    let m = max_current.bits as int;
    let limited = circle_target(max_current, target);
    let d = limited.d.bits as int;
    let x = target.d.bits as int;
    let y = target.q.bits as int;
    law_authority_is_not_negative(max_current, limited.d);
    if d == 0 {
        assert(d * d == 0) by (nonlinear_arith)
            requires
                d == 0,
        ;
        assert((m + 1) * (m + 1) > m * m) by (nonlinear_arith)
            requires
                m > 0,
        ;
    } else {
        numeric::law_remainder_completes_the_circle(max_current, limited.d);
    }
    let rest = circle_authority(max_current, limited.d).bits as int;
    let a = arith::abs(d);
    assert(a * a == d * d) by (nonlinear_arith)
        requires
            a == d || a == -d,
    ;
    if !Fixed::outside_circle(target.d, target.q, max_current) {
        assert(-m <= x <= m && -m <= y <= m) by (nonlinear_arith)
            requires
                x * x + y * y <= m * m,
                m > 0,
        ;
        assert(d == x);
        assert(-rest <= y <= rest) by (nonlinear_arith)
            requires
                x * x + y * y <= m * m,
                m * m < (rest + 1) * (rest + 1) + x * x,
                rest >= 0,
        ;
    }
}

/// The phase current that a bus limit allows is the largest whole one: one more
/// count would draw more than the bus limit.
pub proof fn law_projection_uses_the_bus(
    bus_counts: int,
    q_voltage_ticks: int,
    pwm_period_ticks: int,
)
    requires
        0 <= bus_counts,
        0 <= pwm_period_ticks,
        0 < q_voltage_ticks <= u32::MAX / 3,
        2 * (bus_counts * pwm_period_ticks) <= u32::MAX,
    ensures
        ({
            let counts = projected_counts(bus_counts, q_voltage_ticks, pwm_period_ticks);
            counts < i32::MAX ==> (counts + 1) * (3 * q_voltage_ticks) > 2 * (bus_counts
                * pwm_period_ticks)
        }),
{
    let product = bus_counts * pwm_period_ticks;
    assert(product >= 0) by (nonlinear_arith)
        requires
            product == bus_counts * pwm_period_ticks,
            0 <= bus_counts,
            0 <= pwm_period_ticks,
    ;
    let n = 2 * product;
    let d = 3 * q_voltage_ticks;
    assert((n / d + 1) * d > n) by (nonlinear_arith)
        requires
            n >= 0,
            d > 0,
    ;
}

/// The supply limits the q current by the power that it draws or returns. Outside
/// the dead band a q current along the applied voltage stays under the input
/// limit and one against it under the regeneration limit, in the balance of phase
/// and bus power; the d current, and a limit that is not set, change nothing. The
/// q current never grows and never changes its sign.
pub proof fn law_supply_limits_the_power(
    max_current: Fixed,
    bus_in_max: Option<Fixed>,
    bus_regen_max: Option<Fixed>,
    q_voltage: Fixed,
    pwm_period_ticks: u16,
    requested: Dq<Fixed>,
)
    requires
        max_current.bits > 0,
        q_voltage.bits != 0,
        3_000 * arith::abs(q_voltage.bits as int) >= 2 * pwm_period_ticks * 0x1_0000,
        3 * arith::abs(q_voltage.bits as int) <= u32::MAX,
    ensures
        ({
            let target = circle_target(max_current, requested);
            let (limited, authority) = supplied_target(
                max_current,
                bus_in_max,
                bus_regen_max,
                q_voltage,
                pwm_period_ticks as int,
                requested,
            );
            let along = (target.q.bits > 0) == (q_voltage.bits > 0);
            let governing = if along {
                bus_in_max
            } else {
                bus_regen_max
            };
            let ticks = (arith::abs(q_voltage.bits as int) + 0xffff) / 0x1_0000;
            &&& limited.d == target.d
            &&& target.q.bits >= 0 ==> 0 <= limited.q.bits <= target.q.bits
            &&& target.q.bits <= 0 ==> target.q.bits <= limited.q.bits <= 0
            &&& arith::abs(limited.q.bits as int) <= authority.bits || target.q.bits == 0
            &&& governing is None ==> limited == target
            &&& governing is Some && governing->0.bits >= 0 ==> arith::abs(limited.q.bits as int)
                * (3 * ticks) <= 2 * (governing->0.bits * pwm_period_ticks)
        }),
{
    let target = circle_target(max_current, requested);
    law_authority_is_not_negative(max_current, target.d);
    law_circle_takes_no_more_than_it_must(max_current, requested);
    law_target_stays_inside_the_circle(max_current, requested);
    let p = pwm_period_ticks as int;
    let authority = circle_authority(max_current, target.d);
    lemma_target_is_within_authority(max_current, requested);
    let governing = if (target.q.bits > 0) == (q_voltage.bits > 0) {
        bus_in_max
    } else {
        bus_regen_max
    };
    let ticks = q_voltage.absolute_ceiling() as int;
    lemma_projection_is_not_negative(governing, q_voltage, pwm_period_ticks);
    assert(ticks > 0);
    if governing is Some && governing->0.bits >= 0 {
        let bus = governing->0;
        let counts = bus.whole() as int;
        assert(0 <= counts * 0x1_0000 <= bus.bits);
        law_projection_respects_the_bus(counts, ticks, p);
        let c = projected_counts(counts, ticks, p);
        let limited = supplied_target(
            max_current,
            bus_in_max,
            bus_regen_max,
            q_voltage,
            p,
            requested,
        ).0;
        let q = arith::abs(limited.q.bits as int);
        if target.q.bits == 0 {
            assert(bus.bits * p >= 0) by (nonlinear_arith)
                requires
                    bus.bits >= 0,
                    p >= 0,
            ;
            assert(q * (3 * ticks) == 0) by (nonlinear_arith)
                requires
                    q == 0,
            ;
        } else {
            let v = arith::abs(q_voltage.bits as int);
            assert(arith::sat_u32(3 * v) == 3 * v);
            let band = arith::sat_u32(2 * p * 0x1_0000);
            assert(band / 1_000 <= 3 * v);
            assert(governing_limit(target, q_voltage, p, bus_in_max, bus_regen_max) == governing);
            let projected = projected_limit(bus, q_voltage, p);
            assert(projected == numeric::fixed(c * 0x1_0000));
            assert(projected.bits <= c * 0x1_0000);
            let limit = numeric::lesser(projected, authority);
            assert(limited.q == numeric::clamped(target.q, limit.negated(), limit));
            assert(q <= c * 0x1_0000);
            assert(q * (3 * ticks) <= 2 * (bus.bits * p)) by {
                assert(q * (3 * ticks) <= (c * (3 * ticks)) * 0x1_0000) by (nonlinear_arith)
                    requires
                        0 <= q <= c * 0x1_0000,
                        ticks > 0,
                ;
                assert((counts * p) * 0x1_0000 <= bus.bits * p) by (nonlinear_arith)
                    requires
                        counts * 0x1_0000 <= bus.bits,
                        p >= 0,
                ;
            }
        }
    }
}

proof fn lemma_target_is_within_authority(max_current: Fixed, requested: Dq<Fixed>)
    requires
        max_current.bits > 0,
    ensures
        ({
            let target = circle_target(max_current, requested);
            let authority = circle_authority(max_current, target.d);
            arith::abs(target.q.bits as int) <= authority.bits
        }),
{
    law_authority_is_not_negative(max_current, circle_target(max_current, requested).d);
}

/// The filter moves by the configured part of the distance to the sample, to
/// within a unit.
pub proof fn law_filter_moves_by_its_share(previous: int, sample: int, shift: int)
    requires
        i32::MIN <= previous <= i32::MAX,
        i32::MIN <= sample <= i32::MAX,
        -i32::MAX <= sample - previous <= i32::MAX,
        0 <= shift <= 30,
    ensures
        arith::abs(
            arith::unit(shift as nat) * (modulation_step(previous, sample, shift) - previous) - (
            sample - previous),
        ) < arith::unit(shift as nat),
{
    law_filter_never_overshoots(previous, sample, shift);
    vstd::arithmetic::power2::lemma_pow2_pos(shift as nat);
    let u = arith::unit(shift as nat);
    let size = arith::abs(sample - previous);
    let step = size / u;
    assert(0 <= u * step <= size < u * step + u) by (nonlinear_arith)
        requires
            step == size / u,
            u >= 1,
            size >= 0,
    ;
    assert(0 <= step <= size) by (nonlinear_arith)
        requires
            step == size / u,
            u >= 1,
            size >= 0,
    ;
    assert(u * -step == -(u * step)) by (nonlinear_arith);
}

/// Full modulation is a q voltage of two thirds of the period: the reported
/// modulation is the voltage's share of that, truncated.
pub proof fn law_modulation_is_the_share_of_the_period(q_voltage_bits: i32, pwm_period_ticks: u16)
    requires
        2 <= pwm_period_ticks,
    ensures
        ({
            let modulation = modulation_of(q_voltage_bits as int, pwm_period_ticks as int);
            arith::abs(2 * pwm_period_ticks * modulation - 3 * q_voltage_bits) < 2
                * pwm_period_ticks
        }),
{
    let n = 3 * q_voltage_bits;
    let d = 2 * pwm_period_ticks;
    let size = arith::abs(n);
    let whole = size / d;
    assert(d * whole <= size < d * whole + d && 0 <= whole) by (nonlinear_arith)
        requires
            whole == size / d,
            d >= 4,
            size >= 0,
    ;
    assert(whole <= i32::MAX) by (nonlinear_arith)
        requires
            d * whole <= size,
            size <= 3 * 0x8000_0000,
            d >= 4,
    ;
    assert(d * -whole == -(d * whole)) by (nonlinear_arith);
}

/// Inside the dead band of a thousandth of full modulation the supply limits
/// nothing: the target is what the circle leaves, with the circle's authority.
pub proof fn law_dead_band_is_not_limited(
    max_current: Fixed,
    bus_in_max: Option<Fixed>,
    bus_regen_max: Option<Fixed>,
    q_voltage: Fixed,
    pwm_period_ticks: u16,
    requested: Dq<Fixed>,
)
    requires
        max_current.bits > 0,
        pwm_period_ticks <= 0x7fff,
        3_000 * (arith::abs(q_voltage.bits as int) + 1) < 2 * pwm_period_ticks * 0x1_0000,
    ensures
        ({
            let (target, authority) = supplied_target(
                max_current,
                bus_in_max,
                bus_regen_max,
                q_voltage,
                pwm_period_ticks as int,
                requested,
            );
            &&& target == circle_target(max_current, requested)
            &&& target.d.bits == 0 ==> authority == max_current
        }),
{
    let v = arith::abs(q_voltage.bits as int);
    let band = 2 * pwm_period_ticks * 0x1_0000;
    assert(arith::sat_u32(band) == band);
    assert(3 * v < band / 1_000);
}

} // verus!
