//! Sector-based space-vector PWM shared by every numeric backend.
use vstd::prelude::*;

use super::control_types::{AlphaBeta, PwmDuty};
use super::numeric::{Fixed, Scalar};
use crate::arith;
use crate::foc::numeric;

verus! {

/// Number of the 60-degree sector that holds a stationary vector, counted
/// counter-clockwise from the alpha axis.
pub open spec fn sector_of<N: Scalar>(alpha: N, beta: N) -> int {
    let edge = N::inv_sqrt_3_value().times(beta);
    if !beta.below(N::zero_value()) {
        if !alpha.below(N::zero_value()) {
            if alpha.below(edge) {
                2
            } else {
                1
            }
        } else if alpha.below(edge.negated()) {
            3
        } else {
            2
        }
    } else if !alpha.below(N::zero_value()) {
        if alpha.below(edge.negated()) {
            5
        } else {
            6
        }
    } else if alpha.below(edge) {
        4
    } else {
        5
    }
}

/// Durations of the two active vectors that enclose a vector in its sector, in
/// the order in which the sector's switching sequence uses them.
pub open spec fn active_times<N: Scalar>(alpha: N, beta: N, sector: int) -> (N, N) {
    let edge = N::inv_sqrt_3_value().times(beta);
    let vertical = N::sqrt_3_value().times(beta);
    let three_halves = N::three_halves_value();
    if sector == 1 {
        (alpha.minus(edge).times(three_halves), vertical)
    } else if sector == 2 {
        (alpha.plus(edge).times(three_halves), alpha.negated().plus(edge).times(three_halves))
    } else if sector == 3 {
        (vertical, alpha.negated().minus(edge).times(three_halves))
    } else if sector == 4 {
        (alpha.negated().plus(edge).times(three_halves), vertical.negated())
    } else if sector == 5 {
        (alpha.negated().minus(edge).times(three_halves), alpha.minus(edge).times(three_halves))
    } else {
        (vertical.negated(), alpha.plus(edge).times(three_halves))
    }
}

/// On-times of the three phases: the longest centers both active vectors in the
/// period, the others end earlier by the active times.
pub open spec fn phase_times<N: Scalar>(alpha: N, beta: N, period: N) -> (N, N, N) {
    let sector = sector_of(alpha, beta);
    let (first, second) = active_times(alpha, beta, sector);
    let longest = period.plus(first).plus(second).times(N::half_value());
    if sector == 1 {
        (longest, longest.minus(first), longest.minus(first).minus(second))
    } else if sector == 2 {
        (longest.minus(second), longest, longest.minus(second).minus(first))
    } else if sector == 3 {
        (longest.minus(first).minus(second), longest, longest.minus(first))
    } else if sector == 4 {
        (longest.minus(second).minus(first), longest.minus(second), longest)
    } else if sector == 5 {
        (longest.minus(first), longest.minus(first).minus(second), longest)
    } else {
        (longest, longest.minus(second).minus(first), longest.minus(second))
    }
}

/// Whole timer ticks of an on-time, kept within `limit` of `neutral` and within
/// the timer's range.
pub open spec fn compare_of<N: Scalar>(value: N, neutral: int, limit: int) -> int {
    arith::clamp(value.whole() as int, arith::max(neutral - limit, 0), arith::sat_u16(neutral + limit))
}

/// Compares that [`space_vector_pwm_ticks`] selects.
pub open spec fn duties_of<N: Scalar>(voltage: AlphaBeta<N>, neutral: u16, limit: u16) -> PwmDuty {
    let (a, b, c) = phase_times(voltage.alpha, voltage.beta, N::of_integer((2 * neutral) as i32));
    PwmDuty {
        a: compare_of(a, neutral as int, limit as int) as u16,
        b: compare_of(b, neutral as int, limit as int) as u16,
        c: compare_of(c, neutral as int, limit as int) as u16,
    }
}

/// A compare lies within `limit` ticks of `neutral`.
pub open spec fn within_window(compare: u16, neutral: u16, limit: u16) -> bool {
    arith::abs(compare - neutral) <= limit
}

/// Stationary vector in timer ticks for a normalized one: a modulation `m`
/// stands for a phase voltage of `(2 / 3) * m` of the bus.
pub open spec fn normalized_voltage<N: Scalar>(alpha: N, beta: N, max_duty: u16) -> AlphaBeta<N> {
    let scale = N::of_integer(max_duty as i32).times(N::two_thirds_value());
    AlphaBeta { alpha: alpha.times(scale), beta: beta.times(scale) }
}

/// Convert normalized modulation into timer compares.
pub fn space_vector_pwm<N: Scalar>(alpha: N, beta: N, max_duty: u16) -> (r: [u16; 3])
    ensures
        ({
            let neutral = max_duty / 2;
            let duties = duties_of(
                normalized_voltage(alpha, beta, max_duty),
                neutral,
                (max_duty - neutral) as u16,
            );
            r@ == seq![duties.a, duties.b, duties.c]
        }),
{
    proof {
        N::operators_follow_the_model();
    }
    let tick_scale = N::from_i32(max_duty as i32) * N::two_thirds();
    let neutral: u16 = max_duty / 2;
    space_vector_pwm_ticks(
        AlphaBeta { alpha: alpha * tick_scale, beta: beta * tick_scale },
        neutral,
        max_duty - neutral,
    ).as_array()
}

/// Convert phase-voltage values expressed in timer ticks into compares.
///
/// `phase_limit_ticks` reserves the required bootstrap, dead-time, and ADC
/// sampling margin around `neutral`.
pub fn space_vector_pwm_ticks<N: Scalar>(
    voltage: AlphaBeta<N>,
    neutral: u16,
    phase_limit_ticks: u16,
) -> (r: PwmDuty)
    ensures
        r == duties_of(voltage, neutral, phase_limit_ticks),
        within_window(r.a, neutral, phase_limit_ticks),
        within_window(r.b, neutral, phase_limit_ticks),
        within_window(r.c, neutral, phase_limit_ticks),
{
    proof {
        N::operators_follow_the_model();
    }
    let alpha = voltage.alpha;
    let beta = voltage.beta;
    let full_period = N::from_i32(neutral as i32 * 2);
    let sector: u8 = get_sector(alpha, beta);
    let (phase_a, phase_b, phase_c) = if sector == 1 {
        let t1 = (alpha - N::inv_sqrt_3() * beta) * N::three_halves();
        let t2 = N::sqrt_3() * beta;
        let phase_a = (full_period + t1 + t2) * N::half();
        let phase_b = phase_a - t1;
        let phase_c = phase_b - t2;
        (phase_a, phase_b, phase_c)
    } else if sector == 2 {
        let t2 = (alpha + N::inv_sqrt_3() * beta) * N::three_halves();
        let t3 = (alpha.neg() + N::inv_sqrt_3() * beta) * N::three_halves();
        let phase_b = (full_period + t2 + t3) * N::half();
        let phase_a = phase_b - t3;
        let phase_c = phase_a - t2;
        (phase_a, phase_b, phase_c)
    } else if sector == 3 {
        let t3 = N::sqrt_3() * beta;
        let t4 = (alpha.neg() - N::inv_sqrt_3() * beta) * N::three_halves();
        let phase_b = (full_period + t3 + t4) * N::half();
        let phase_c = phase_b - t3;
        let phase_a = phase_c - t4;
        (phase_a, phase_b, phase_c)
    } else if sector == 4 {
        let t4 = (alpha.neg() + N::inv_sqrt_3() * beta) * N::three_halves();
        let t5 = (N::sqrt_3() * beta).neg();
        let phase_c = (full_period + t4 + t5) * N::half();
        let phase_b = phase_c - t5;
        let phase_a = phase_b - t4;
        (phase_a, phase_b, phase_c)
    } else if sector == 5 {
        let t5 = (alpha.neg() - N::inv_sqrt_3() * beta) * N::three_halves();
        let t6 = (alpha - N::inv_sqrt_3() * beta) * N::three_halves();
        let phase_c = (full_period + t5 + t6) * N::half();
        let phase_a = phase_c - t5;
        let phase_b = phase_a - t6;
        (phase_a, phase_b, phase_c)
    } else {
        let t6 = (N::sqrt_3() * beta).neg();
        let t1 = (alpha + N::inv_sqrt_3() * beta) * N::three_halves();
        let phase_a = (full_period + t6 + t1) * N::half();
        let phase_c = phase_a - t1;
        let phase_b = phase_c - t6;
        (phase_a, phase_b, phase_c)
    };
    PwmDuty {
        a: limited_compare(phase_a, neutral, phase_limit_ticks),
        b: limited_compare(phase_b, neutral, phase_limit_ticks),
        c: limited_compare(phase_c, neutral, phase_limit_ticks),
    }
}

/// Geometric sector for a stationary vector.
pub fn get_sector<N: Scalar>(alpha: N, beta: N) -> (r: u8)
    ensures
        r == sector_of(alpha, beta),
        1 <= r <= 6,
{
    proof {
        N::operators_follow_the_model();
    }
    if !beta.less_than(N::zero()) {
        if !alpha.less_than(N::zero()) {
            if alpha.less_than(N::inv_sqrt_3() * beta) {
                2
            } else {
                1
            }
        } else if alpha.less_than((N::inv_sqrt_3() * beta).neg()) {
            3
        } else {
            2
        }
    } else if !alpha.less_than(N::zero()) {
        if alpha.less_than((N::inv_sqrt_3() * beta).neg()) {
            5
        } else {
            6
        }
    } else if alpha.less_than(N::inv_sqrt_3() * beta) {
        4
    } else {
        5
    }
}

/// Turns a stationary voltage in timer ticks into compares.
pub trait TickModulator<N: Scalar> {
    /// What [`TickModulator::to_duties`] computes.
    spec fn duties_for(voltage: AlphaBeta<N>, neutral: u16, phase_limit_ticks: u16) -> PwmDuty;

    fn to_duties(voltage: AlphaBeta<N>, neutral: u16, phase_limit_ticks: u16) -> (r: PwmDuty)
        ensures
            r == Self::duties_for(voltage, neutral, phase_limit_ticks),
    ;
}

#[derive(Clone, Copy, Debug, Default)]
pub struct SvpwmTickModulator;

impl<N: Scalar> TickModulator<N> for SvpwmTickModulator {
    open spec fn duties_for(voltage: AlphaBeta<N>, neutral: u16, phase_limit_ticks: u16) -> PwmDuty {
        duties_of(voltage, neutral, phase_limit_ticks)
    }

    fn to_duties(voltage: AlphaBeta<N>, neutral: u16, phase_limit_ticks: u16) -> (r: PwmDuty) {
        space_vector_pwm_ticks(voltage, neutral, phase_limit_ticks)
    }
}

fn limited_compare<N: Scalar>(value: N, neutral: u16, phase_limit_ticks: u16) -> (r: u16)
    ensures
        r == compare_of(value, neutral as int, phase_limit_ticks as int),
        within_window(r, neutral, phase_limit_ticks),
{
    let lower: u16 = neutral.saturating_sub(phase_limit_ticks);
    let upper: u16 = neutral.saturating_add(phase_limit_ticks);
    let ticks: i32 = value.trunc_to_i32();
    if ticks < lower as i32 {
        lower
    } else if ticks > upper as i32 {
        upper
    } else {
        ticks as u16
    }
}

/// Every compare of the modulator keeps the sampling margin, for every
/// voltage.
pub proof fn law_compares_keep_the_sampling_margin<N: Scalar>(
    voltage: AlphaBeta<N>,
    neutral: u16,
    limit: u16,
)
    ensures
        ({
            let duties = duties_of(voltage, neutral, limit);
            &&& within_window(duties.a, neutral, limit)
            &&& within_window(duties.b, neutral, limit)
            &&& within_window(duties.c, neutral, limit)
        }),
{
}

/// The null vector centers all three phases, as long as the period fits the
/// Q16.16 range.
pub proof fn law_null_vector_is_centered(neutral: u16, limit: u16)
    requires
        neutral <= 16_383,
    ensures
        duties_of(AlphaBeta::<Fixed>::null(), neutral, limit) == (PwmDuty {
            a: neutral,
            b: neutral,
            c: neutral,
        }),
{
    let zero = numeric::fixed(0);
    assert(forall|k: Fixed| #[trigger] k.times(zero) == zero) by {
        assert forall|k: Fixed| #[trigger] k.times(zero) == zero by {
            assert(k.bits * zero.bits == 0) by (nonlinear_arith)
                requires
                    zero.bits == 0,
            ;
        }
    }
    assert(forall|k: Fixed| #[trigger] zero.times(k) == zero) by {
        assert forall|k: Fixed| #[trigger] zero.times(k) == zero by {
            assert(zero.bits * k.bits == 0) by (nonlinear_arith)
                requires
                    zero.bits == 0,
            ;
        }
    }
    let period = Fixed::of_integer((2 * neutral) as i32);
    assert(period.bits == 2 * neutral * 0x1_0000);
    let half = numeric::fixed(32_768);
    let longest = period.plus(zero).plus(zero).times(half);
    assert(period.plus(zero) == period);
    assert(period.bits * half.bits == neutral * 0x1_0000 * 0x1_0000) by (nonlinear_arith)
        requires
            period.bits == 2 * neutral * 0x1_0000,
            half.bits == 32_768,
    ;
    let product = period.bits * half.bits;
    assert(product == (neutral * 0x1_0000) * 0x1_0000);
    assert(arith::trunc_div(product, 0x1_0000) == neutral * 0x1_0000);
    assert(longest == period.times(half));
    assert(longest.bits == neutral * 0x1_0000);
    assert(zero.negated() == zero);
    assert(sector_of(zero, zero) == 1);
    assert(active_times(zero, zero, 1) == (zero, zero));
    assert(longest.minus(zero) == longest);
    assert(longest.whole() == neutral);
}

/// A compare lies strictly inside its window, so that no limit has changed it.
pub open spec fn inside_window(compare: u16, neutral: u16, limit: u16) -> bool {
    arith::max(neutral - limit, 0) < compare < neutral + limit
}

/// No on-time has reached the half of the largest number.
pub open spec fn on_times_fit(voltage: AlphaBeta<Fixed>, neutral: u16) -> bool {
    let (a, b, c) = phase_times(
        voltage.alpha,
        voltage.beta,
        Fixed::of_integer((2 * neutral) as i32),
    );
    a.bits < 0x3fff_ffff && b.bits < 0x3fff_ffff && c.bits < 0x3fff_ffff
}

/// Square with the sign of its root: it orders numbers as they are ordered.
pub open spec fn signed_square(value: int) -> int {
    value * arith::abs(value)
}

/// `sqrt(3) * value` lies within `margin` of `estimate`.
pub open spec fn near_sqrt_3(value: int, estimate: int, margin: int) -> bool {
    signed_square(estimate - margin) <= 3 * signed_square(value) <= signed_square(estimate + margin)
}

/// The compares carry the commanded voltage. With all of them inside the
/// window, in ticks and to within two ticks, `a - b` is
/// `(3 * alpha - sqrt(3) * beta) / 2`, `b - c` is `sqrt(3) * beta`, and the
/// longest and the shortest lie evenly about the center. The values are stated
/// in 1/65536 ticks; `2 * (a - b)` is held to four ticks. An on-time is half of
/// a sum of durations, which has to fit the number range.
pub proof fn law_compares_carry_the_voltage(voltage: AlphaBeta<Fixed>, neutral: u16, limit: u16)
    requires
        on_times_fit(voltage, neutral),
        inside_window(duties_of(voltage, neutral, limit).a, neutral, limit),
        inside_window(duties_of(voltage, neutral, limit).b, neutral, limit),
        inside_window(duties_of(voltage, neutral, limit).c, neutral, limit),
    ensures
        ({
            let duties = duties_of(voltage, neutral, limit);
            let a = duties.a * 0x1_0000;
            let b = duties.b * 0x1_0000;
            let c = duties.c * 0x1_0000;
            &&& near_sqrt_3(
                voltage.beta.bits as int,
                3 * voltage.alpha.bits - 2 * (a - b),
                0x4_0000,
            )
            &&& near_sqrt_3(voltage.beta.bits as int, b - c, 0x2_0000)
            &&& arith::abs(
                arith::max(arith::max(duties.a as int, duties.b as int), duties.c as int)
                    + arith::min(arith::min(duties.a as int, duties.b as int), duties.c as int) - 2
                    * neutral,
            ) <= 2
        }),
{
    let duties = duties_of(voltage, neutral, limit);
    let a = duties.a as int;
    let b = duties.b as int;
    let c = duties.c as int;
    let alpha = voltage.alpha.bits as int;
    let beta = voltage.beta.bits as int;
    lemma_compares_follow_the_vector(voltage.alpha, voltage.beta, neutral, limit);
    lemma_near_sqrt_3(beta, 3 * alpha - 2 * (a * 0x1_0000 - b * 0x1_0000), 0x4_0000);
    lemma_near_sqrt_3(beta, b * 0x1_0000 - c * 0x1_0000, 0x2_0000);
}

/// Compares follow a vector, with rationals on both sides of the root of three.
spec fn follow(alpha: int, beta: int, a: int, b: int, c: int, neutral: int) -> bool {
    let along = 3 * alpha - 2 * (a * 0x1_0000 - b * 0x1_0000);
    let across = b * 0x1_0000 - c * 0x1_0000;
    &&& encloses(beta, along, 0x4_0000)
    &&& encloses(beta, across, 0x2_0000)
    &&& -2 <= arith::max(arith::max(a, b), c) + arith::min(arith::min(a, b), c) - 2 * neutral <= 2
}

/// Rationals on both sides of the root of three, times a value, lie within a
/// margin of an estimate.
spec fn encloses(value: int, estimate: int, margin: int) -> bool {
    &&& 10_000_000 * (estimate - margin) <= 17_320_500 * value
    &&& 10_000_000 * (estimate - margin) <= 17_320_509 * value
    &&& 17_320_500 * value <= 10_000_000 * (estimate + margin)
    &&& 17_320_509 * value <= 10_000_000 * (estimate + margin)
}

proof fn lemma_compares_follow_the_vector(alpha: Fixed, beta: Fixed, neutral: u16, limit: u16)
    requires
        on_times_fit(AlphaBeta { alpha, beta }, neutral),
        ({
            let duties = duties_of(AlphaBeta { alpha, beta }, neutral, limit);
            &&& inside_window(duties.a, neutral, limit)
            &&& inside_window(duties.b, neutral, limit)
            &&& inside_window(duties.c, neutral, limit)
        }),
    ensures
        ({
            let duties = duties_of(AlphaBeta { alpha, beta }, neutral, limit);
            follow(
                alpha.bits as int,
                beta.bits as int,
                duties.a as int,
                duties.b as int,
                duties.c as int,
                neutral as int,
            )
        }),
{
    let sector = sector_of(alpha, beta);
    let edge = numeric::fixed(37_837).times(beta);
    let vertical = numeric::fixed(113_512).times(beta);
    let period = Fixed::of_integer((2 * neutral) as i32);
    let (first, second) = active_times(alpha, beta, sector);
    let longest = period.plus(first).plus(second).times(numeric::fixed(32_768));
    let (outer, inner) = if sector == 1 || sector == 3 || sector == 5 {
        (first, second)
    } else {
        (second, first)
    };
    let middle = longest.minus(outer);
    let shortest = middle.minus(inner);
    let n = neutral as int;
    let l = limit as int;
    lemma_active_times_are_not_negative(alpha, beta);
    let times = phase_times(alpha, beta, period);
    let duties = duties_of(AlphaBeta { alpha, beta }, neutral, limit);
    let placed = if sector == 1 {
        (longest, middle, shortest)
    } else if sector == 2 {
        (middle, longest, shortest)
    } else if sector == 3 {
        (shortest, longest, middle)
    } else if sector == 4 {
        (shortest, middle, longest)
    } else if sector == 5 {
        (middle, shortest, longest)
    } else {
        (longest, shortest, middle)
    };
    assert(times == placed);
    assert(duties.a == compare_of(placed.0, n, l));
    assert(duties.b == compare_of(placed.1, n, l));
    assert(duties.c == compare_of(placed.2, n, l));
    lemma_centered(first, second, outer, inner, neutral, limit);
    lemma_active_times_follow_the_vector(alpha, beta);
    lemma_edge(beta);
    lemma_vertical(beta);
    lemma_sector_follows(
        sector,
        alpha.bits as int,
        beta.bits as int,
        edge.bits as int,
        vertical.bits as int,
        first.bits as int,
        second.bits as int,
        longest.bits as int,
        n,
    );
}

/// Compares of a sector, from the longest on-time and the active times.
spec fn placed_compares(sector: int, first: int, second: int, longest: int) -> (int, int, int) {
    let middle = if sector == 1 || sector == 3 || sector == 5 {
        longest - first
    } else {
        longest - second
    };
    let high = longest / 0x1_0000;
    let between = middle / 0x1_0000;
    let low = (longest - first - second) / 0x1_0000;
    if sector == 1 {
        (high, between, low)
    } else if sector == 2 {
        (between, high, low)
    } else if sector == 3 {
        (low, high, between)
    } else if sector == 4 {
        (low, between, high)
    } else if sector == 5 {
        (between, low, high)
    } else {
        (high, low, between)
    }
}

/// Durations of a sector, given the products of the vertical component.
spec fn durations_follow(
    sector: int,
    alpha: int,
    edge: int,
    vertical: int,
    first: int,
    second: int,
) -> bool {
    if sector == 1 {
        2 * first <= 3 * (alpha - edge) <= 2 * first + 1 && second == vertical
    } else if sector == 2 {
        &&& 2 * first <= 3 * (alpha + edge) <= 2 * first + 1
        &&& 2 * second <= 3 * (edge - alpha) <= 2 * second + 1
    } else if sector == 3 {
        first == vertical && 2 * second <= 3 * (-alpha - edge) <= 2 * second + 4
    } else if sector == 4 {
        2 * first <= 3 * (edge - alpha) <= 2 * first + 4 && second == -vertical
    } else if sector == 5 {
        &&& 2 * first <= 3 * (-alpha - edge) <= 2 * first + 4
        &&& 2 * second <= 3 * (alpha - edge) <= 2 * second + 1
    } else {
        first == -vertical && 2 * second <= 3 * (alpha + edge) <= 2 * second + 1
    }
}

proof fn lemma_sector_follows(
    sector: int,
    alpha: int,
    beta: int,
    edge: int,
    vertical: int,
    first: int,
    second: int,
    longest: int,
    neutral: int,
)
    requires
        1 <= sector <= 6,
        durations_follow(sector, alpha, edge, vertical, first, second),
        -0x1_0000 < 0x1_0000 * edge - 37_837 * beta < 0x1_0000,
        sector == 2 || sector == 5 || -0x1_0000 < 0x1_0000 * vertical - 113_512 * beta < 0x1_0000,
        first >= 0,
        second >= 0,
        0 < longest - first - second,
        longest <= 0x4000_0000,
        2 * longest <= 2 * neutral * 0x1_0000 + first + second <= 2 * longest + 1,
    ensures
        ({
            let (a, b, c) = placed_compares(sector, first, second, longest);
            follow(alpha, beta, a, b, c, neutral)
        }),
{
    let middle = if sector == 1 || sector == 3 || sector == 5 {
        longest - first
    } else {
        longest - second
    };
    let shortest = longest - first - second;
    let high = longest / 0x1_0000;
    let between = middle / 0x1_0000;
    let low = shortest / 0x1_0000;
    assert(high * 0x1_0000 <= longest < high * 0x1_0000 + 0x1_0000);
    assert(between * 0x1_0000 <= middle < between * 0x1_0000 + 0x1_0000);
    assert(low * 0x1_0000 <= shortest < low * 0x1_0000 + 0x1_0000);
    assert(low <= between <= high);
    let (a, b, c) = placed_compares(sector, first, second, longest);
    assert(-2 <= high + low - 2 * neutral <= 2);
    let along = 3 * alpha - 2 * (a * 0x1_0000 - b * 0x1_0000);
    let across = b * 0x1_0000 - c * 0x1_0000;
    assert(encloses(beta, along, 0x4_0000));
    assert(encloses(beta, across, 0x2_0000));
}

/// Product with the inverse of the square root of three.
proof fn lemma_edge(beta: Fixed)
    ensures
        ({
            let edge = numeric::fixed(37_837).times(beta).bits;
            &&& -0x1_0000 < 0x1_0000 * edge - 37_837 * beta.bits < 0x1_0000
            &&& beta.bits >= 0 ==> edge >= 0
            &&& beta.bits <= 0 ==> edge <= 0
        }),
{
    let k = numeric::fixed(37_837);
    assert(k.bits * beta.bits == 37_837 * beta.bits) by (nonlinear_arith)
        requires
            k.bits == 37_837,
    ;
}

/// Product with the square root of three, which may leave the number range.
proof fn lemma_vertical(beta: Fixed)
    ensures
        ({
            let vertical = numeric::fixed(113_512).times(beta).bits;
            &&& i32::MIN < vertical < i32::MAX ==> -0x1_0000 < 0x1_0000 * vertical - 113_512
                * beta.bits < 0x1_0000
            &&& beta.bits >= 0 ==> vertical >= 0
            &&& beta.bits <= 0 ==> vertical <= 0
        }),
{
    let k = numeric::fixed(113_512);
    assert(k.bits * beta.bits == 113_512 * beta.bits) by (nonlinear_arith)
        requires
            k.bits == 113_512,
    ;
}

proof fn lemma_three_halves(value: Fixed)
    requires
        value.bits >= 0,
    ensures
        ({
            let r = value.times(numeric::fixed(98_304)).bits;
            &&& 0 <= 2 * r <= 3 * value.bits
            &&& r < i32::MAX ==> 3 * value.bits <= 2 * r + 1
        }),
{
    let k = numeric::fixed(98_304);
    assert(value.bits * k.bits == 98_304 * value.bits) by (nonlinear_arith)
        requires
            k.bits == 98_304,
    ;
}

proof fn lemma_half(value: Fixed)
    requires
        value.bits >= 0,
    ensures
        ({
            let r = value.times(numeric::fixed(32_768)).bits;
            0 <= 2 * r <= value.bits <= 2 * r + 1
        }),
{
    let k = numeric::fixed(32_768);
    assert(value.bits * k.bits == 32_768 * value.bits) by (nonlinear_arith)
        requires
            k.bits == 32_768,
    ;
}

/// Inside its sector a vector needs no negative duration.
proof fn lemma_active_times_are_not_negative(alpha: Fixed, beta: Fixed)
    ensures
        active_times(alpha, beta, sector_of(alpha, beta)).0.bits >= 0,
        active_times(alpha, beta, sector_of(alpha, beta)).1.bits >= 0,
        1 <= sector_of(alpha, beta) <= 6,
{
    let sector = sector_of(alpha, beta);
    let edge = numeric::fixed(37_837).times(beta);
    lemma_edge(beta);
    lemma_vertical(beta);
    if sector == 1 {
        lemma_three_halves(alpha.minus(edge));
    } else if sector == 2 {
        lemma_three_halves(alpha.plus(edge));
        lemma_three_halves(alpha.negated().plus(edge));
    } else if sector == 3 {
        lemma_three_halves(alpha.negated().minus(edge));
    } else if sector == 4 {
        lemma_three_halves(alpha.negated().plus(edge));
    } else if sector == 5 {
        lemma_three_halves(alpha.negated().minus(edge));
        lemma_three_halves(alpha.minus(edge));
    } else {
        lemma_three_halves(alpha.plus(edge));
    }
}

/// Durations within the number range, in 1/65536 ticks.
proof fn lemma_active_times_follow_the_vector(alpha: Fixed, beta: Fixed)
    requires
        active_times(alpha, beta, sector_of(alpha, beta)).0.bits < i32::MAX,
        active_times(alpha, beta, sector_of(alpha, beta)).1.bits < i32::MAX,
    ensures
        ({
            let sector = sector_of(alpha, beta);
            let edge = numeric::fixed(37_837).times(beta).bits;
            let vertical = numeric::fixed(113_512).times(beta).bits;
            let (first, second) = active_times(alpha, beta, sector);
            durations_follow(
                sector,
                alpha.bits as int,
                edge as int,
                vertical as int,
                first.bits as int,
                second.bits as int,
            )
        }),
        i32::MIN < numeric::fixed(113_512).times(beta).bits < i32::MAX || sector_of(alpha, beta)
            == 2 || sector_of(alpha, beta) == 5,
{
    let sector = sector_of(alpha, beta);
    let edge = numeric::fixed(37_837).times(beta);
    lemma_edge(beta);
    lemma_vertical(beta);
    if sector == 1 {
        lemma_three_halves(alpha.minus(edge));
    } else if sector == 2 {
        lemma_three_halves(alpha.plus(edge));
        lemma_three_halves(alpha.negated().plus(edge));
    } else if sector == 3 {
        lemma_three_halves(alpha.negated().minus(edge));
    } else if sector == 4 {
        lemma_three_halves(alpha.negated().plus(edge));
    } else if sector == 5 {
        lemma_three_halves(alpha.negated().minus(edge));
        lemma_three_halves(alpha.minus(edge));
    } else {
        lemma_three_halves(alpha.plus(edge));
    }
}

/// On-times whose compares lie inside the window are exact and centered.
proof fn lemma_centered(
    first: Fixed,
    second: Fixed,
    outer: Fixed,
    inner: Fixed,
    neutral: u16,
    limit: u16,
)
    requires
        first.bits >= 0,
        second.bits >= 0,
        (outer == first && inner == second) || (outer == second && inner == first),
        ({
            let longest = Fixed::of_integer((2 * neutral) as i32).plus(first).plus(second).times(
                numeric::fixed(32_768),
            );
            let n = neutral as int;
            let l = limit as int;
            let low = arith::max(n - l, 0);
            &&& longest.bits < 0x3fff_ffff
            &&& low < compare_of(longest, n, l) < n + l
            &&& low < compare_of(longest.minus(outer), n, l) < n + l
            &&& low < compare_of(longest.minus(outer).minus(inner), n, l) < n + l
        }),
    ensures
        ({
            let longest = Fixed::of_integer((2 * neutral) as i32).plus(first).plus(second).times(
                numeric::fixed(32_768),
            );
            let middle = longest.minus(outer);
            let shortest = middle.minus(inner);
            let n = neutral as int;
            let l = limit as int;
            &&& first.bits < i32::MAX
            &&& second.bits < i32::MAX
            &&& 0 < shortest.bits
            &&& middle.bits == longest.bits - outer.bits
            &&& shortest.bits == middle.bits - inner.bits
            &&& 2 * longest.bits <= 2 * n * 0x1_0000 + first.bits + second.bits <= 2 * longest.bits
                + 1
            &&& compare_of(longest, n, l) == longest.bits / 0x1_0000
            &&& compare_of(middle, n, l) == middle.bits / 0x1_0000
            &&& compare_of(shortest, n, l) == shortest.bits / 0x1_0000
        }),
{
    let sum = Fixed::of_integer((2 * neutral) as i32).plus(first).plus(second);
    lemma_half(sum);
}

/// An estimate within a tick of a rational close to the root is near the root.
pub(crate) proof fn lemma_near_sqrt_3(value: int, estimate: int, margin: int)
    requires
        10_000_000 * (estimate - margin) <= 17_320_500 * value,
        10_000_000 * (estimate - margin) <= 17_320_509 * value,
        17_320_500 * value <= 10_000_000 * (estimate + margin),
        17_320_509 * value <= 10_000_000 * (estimate + margin),
    ensures
        near_sqrt_3(value, estimate, margin),
{
    lemma_below_sqrt_3(value, estimate - margin);
    lemma_below_sqrt_3(-value, -(estimate + margin));
    assert(signed_square(-value) == -signed_square(value)) by (nonlinear_arith);
    let high = estimate + margin;
    assert(signed_square(-high) == -signed_square(high)) by (nonlinear_arith);
}

proof fn lemma_below_sqrt_3(value: int, bound: int)
    requires
        10_000_000 * bound <= 17_320_500 * value,
        10_000_000 * bound <= 17_320_509 * value,
    ensures
        signed_square(bound) <= 3 * signed_square(value),
{
    if value >= 0 {
        if bound >= 0 {
            assert(bound * bound <= 3 * (value * value)) by (nonlinear_arith)
                requires
                    0 <= bound,
                    0 <= value,
                    10_000_000 * bound <= 17_320_500 * value,
            ;
        } else {
            assert(bound * -bound <= 0 && value * value >= 0) by (nonlinear_arith)
                requires
                    bound < 0,
            ;
        }
    } else {
        assert(bound * bound >= 3 * (value * value)) by (nonlinear_arith)
            requires
                bound <= 0,
                value < 0,
                10_000_000 * bound <= 17_320_509 * value,
        ;
        assert(bound * -bound == -(bound * bound)) by (nonlinear_arith);
        assert(value * -value == -(value * value)) by (nonlinear_arith);
    }
}

/// A sector is the sixth of the turn that holds the vector, counted
/// counter-clockwise from the alpha axis: the upper three above it, the middle one
/// of each half steeper than 60 degrees, to within a unit of the boundary.
pub proof fn law_sector_holds_the_vector(alpha: Fixed, beta: Fixed)
    ensures
        ({
            let sector = sector_of(alpha, beta);
            let x = 0x1_0000 * arith::abs(alpha.bits as int);
            let y = 37_837 * arith::abs(beta.bits as int);
            &&& 1 <= sector <= 6
            &&& sector <= 3 <==> beta.bits >= 0
            &&& sector == 2 || sector == 5 ==> x <= y + 0x2_0000
            &&& sector == 1 || sector == 6 ==> alpha.bits >= 0 && x >= y - 0x2_0000
            &&& sector == 3 || sector == 4 ==> alpha.bits < 0 && x >= y - 0x2_0000
        }),
{
    lemma_edge(beta);
}

/// A vector well inside the window is modulated without a limit: no compare
/// touches the edge of the window, so that the compares carry the voltage.
#[verifier::rlimit(60)]
pub proof fn law_small_vectors_stay_inside_the_window(
    voltage: AlphaBeta<Fixed>,
    neutral: u16,
    limit: u16,
)
    requires
        neutral <= 8_000,
        limit <= neutral,
        3 * arith::abs(voltage.alpha.bits as int) + 4 * arith::abs(voltage.beta.bits as int)
            <= 0x4_0000 * (limit - 2),
    ensures
        on_times_fit(voltage, neutral),
        inside_window(duties_of(voltage, neutral, limit).a, neutral, limit),
        inside_window(duties_of(voltage, neutral, limit).b, neutral, limit),
        inside_window(duties_of(voltage, neutral, limit).c, neutral, limit),
{
    let alpha = voltage.alpha;
    let beta = voltage.beta;
    let sector = sector_of(alpha, beta);
    let (first, second) = active_times(alpha, beta, sector);
    lemma_active_times_are_not_negative(alpha, beta);
    lemma_spread_is_bounded(alpha, beta);
    lemma_on_times_stay_inside(first, second, neutral, limit);
    lemma_placed_inside(alpha, beta, first, second, neutral, limit);
    reveal(is_inside);
}

proof fn lemma_placed_inside(
    alpha: Fixed,
    beta: Fixed,
    first: Fixed,
    second: Fixed,
    neutral: u16,
    limit: u16,
)
    requires
        (first, second) == active_times(alpha, beta, sector_of(alpha, beta)),
        ({
            let longest = Fixed::of_integer((2 * neutral) as i32).plus(first).plus(second).times(
                Fixed::half_value(),
            );
            &&& is_inside(longest, neutral, limit)
            &&& is_inside(longest.minus(first), neutral, limit)
            &&& is_inside(longest.minus(second), neutral, limit)
            &&& is_inside(longest.minus(first).minus(second), neutral, limit)
            &&& is_inside(longest.minus(second).minus(first), neutral, limit)
        }),
    ensures
        ({
            let (a, b, c) = phase_times(
                alpha,
                beta,
                Fixed::of_integer((2 * neutral) as i32),
            );
            &&& is_inside(a, neutral, limit)
            &&& is_inside(b, neutral, limit)
            &&& is_inside(c, neutral, limit)
        }),
{
    let period = Fixed::of_integer((2 * neutral) as i32);
    let longest = period.plus(first).plus(second).times(Fixed::half_value());
    let sector = sector_of(alpha, beta);
    let placed = if sector == 1 {
        (longest, longest.minus(first), longest.minus(first).minus(second))
    } else if sector == 2 {
        (longest.minus(second), longest, longest.minus(second).minus(first))
    } else if sector == 3 {
        (longest.minus(first).minus(second), longest, longest.minus(first))
    } else if sector == 4 {
        (longest.minus(second).minus(first), longest.minus(second), longest)
    } else if sector == 5 {
        (longest.minus(first), longest.minus(first).minus(second), longest)
    } else {
        (longest, longest.minus(second).minus(first), longest.minus(second))
    };
    assert(phase_times(alpha, beta, period) == placed);
}

proof fn lemma_spread_is_bounded(alpha: Fixed, beta: Fixed)
    requires
        arith::abs(alpha.bits as int) <= 0x2a00_0000,
        arith::abs(beta.bits as int) <= 0x2000_0000,
    ensures
        ({
            let (first, second) = active_times(alpha, beta, sector_of(alpha, beta));
            2 * (first.bits + second.bits) <= 3 * arith::abs(alpha.bits as int) + 4 * arith::abs(
                beta.bits as int,
            ) + 16
        }),
{
    let sector = sector_of(alpha, beta);
    let edge = numeric::fixed(37_837).times(beta);
    lemma_edge(beta);
    let k = numeric::fixed(113_512);
    assert(k.bits * beta.bits == 113_512 * beta.bits) by (nonlinear_arith)
        requires
            k.bits == 113_512,
    ;
    if sector == 1 {
        lemma_three_halves(alpha.minus(edge));
    } else if sector == 2 {
        lemma_three_halves(alpha.plus(edge));
        lemma_three_halves(alpha.negated().plus(edge));
    } else if sector == 3 {
        lemma_three_halves(alpha.negated().minus(edge));
    } else if sector == 4 {
        lemma_three_halves(alpha.negated().plus(edge));
    } else if sector == 5 {
        lemma_three_halves(alpha.negated().minus(edge));
        lemma_three_halves(alpha.minus(edge));
    } else {
        lemma_three_halves(alpha.plus(edge));
    }
}

proof fn lemma_on_times_stay_inside(first: Fixed, second: Fixed, neutral: u16, limit: u16)
    requires
        first.bits >= 0,
        second.bits >= 0,
        neutral <= 8_000,
        limit <= neutral,
        2 * (first.bits + second.bits) <= 0x4_0000 * (limit - 2) + 16,
    ensures
        ({
            let longest = Fixed::of_integer((2 * neutral) as i32).plus(first).plus(second).times(
                Fixed::half_value(),
            );
            &&& is_inside(longest, neutral, limit)
            &&& is_inside(longest.minus(first), neutral, limit)
            &&& is_inside(longest.minus(second), neutral, limit)
            &&& is_inside(longest.minus(first).minus(second), neutral, limit)
            &&& is_inside(longest.minus(second).minus(first), neutral, limit)
        }),
{
    reveal(is_inside);
    let sum = Fixed::of_integer((2 * neutral) as i32).plus(first).plus(second);
    assert(sum.bits == 0x2_0000 * neutral + first.bits + second.bits);
    lemma_half(sum);
}

/// An on-time whose compare no limit changes.
#[verifier::opaque]
spec fn is_inside(on_time: Fixed, neutral: u16, limit: u16) -> bool {
    let n = neutral as int;
    let l = limit as int;
    &&& arith::max(n - l, 0) < compare_of(on_time, n, l) < n + l
    &&& on_time.bits < 0x3fff_ffff
}

/// A normalized vector stands for two thirds of the full duty: its ticks are that
/// share, to within four units of the duty's own resolution.
pub proof fn law_normalized_vector_is_two_thirds_of_the_duty(
    alpha: Fixed,
    beta: Fixed,
    max_duty: u16,
)
    requires
        max_duty <= 16_000,
        arith::abs(alpha.bits as int) <= 0x2_0000,
        arith::abs(beta.bits as int) <= 0x2_0000,
    ensures
        ({
            let voltage = normalized_voltage(alpha, beta, max_duty);
            let slack = 4 * (max_duty + 1);
            &&& arith::abs(3 * voltage.alpha.bits - 2 * max_duty * alpha.bits) <= slack
            &&& arith::abs(3 * voltage.beta.bits - 2 * max_duty * beta.bits) <= slack
        }),
{
    let duty = Fixed::of_integer(max_duty as i32);
    let thirds = Fixed::two_thirds_value();
    assert(duty.bits * thirds.bits == 43_690 * (0x1_0000 * max_duty)) by (nonlinear_arith)
        requires
            duty.bits == 0x1_0000 * max_duty,
            thirds.bits == 43_690,
    ;
    let scale = duty.times(thirds);
    assert(scale.bits == 43_690 * max_duty);
    lemma_normalized(alpha.bits as int, max_duty as int, scale.bits as int);
    lemma_normalized(beta.bits as int, max_duty as int, scale.bits as int);
}

proof fn lemma_normalized(value: int, duty: int, scale: int)
    requires
        0 <= duty <= 16_000,
        scale == 43_690 * duty,
        arith::abs(value) <= 0x2_0000,
    ensures
        ({
            let r = arith::trunc_div(value * scale, 0x1_0000);
            &&& arith::abs(3 * r - 2 * duty * value) <= 4 * (duty + 1)
            &&& arith::abs(r) <= 0x7000_0000
        }),
{
    let product = value * duty;
    assert(value * scale == 43_690 * product) by (nonlinear_arith)
        requires
            scale == 43_690 * duty,
            product == value * duty,
    ;
    assert(2 * duty * value == 2 * product) by (nonlinear_arith)
        requires
            product == value * duty,
    ;
    assert(arith::abs(product) <= 0x2_0000 * duty) by (nonlinear_arith)
        requires
            product == value * duty,
            arith::abs(value) <= 0x2_0000,
            0 <= duty,
    ;
}

} // verus!
