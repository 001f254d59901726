//! Clarke and Park transforms.
use vstd::prelude::*;

use super::numeric::{Fixed, Scalar};
use super::trig::{CordicSinCos, SinCos, Turns};
use crate::arith;
use crate::foc::numeric;
use crate::foc::svpwm;
use crate::foc::trig;

verus! {

/// Stationary vector of two measured phase currents.
pub open spec fn clarke_of<N: Scalar>(phase_a: N, phase_b: N) -> (N, N) {
    (phase_a, phase_a.plus(phase_b).plus(phase_b).times(N::inv_sqrt_3_value()))
}

/// Phase values of a stationary vector.
pub open spec fn inverse_clarke_of<N: Scalar>(alpha: N, beta: N) -> (N, N, N) {
    let scaled_beta = N::sqrt_3_value().times(beta);
    (
        alpha,
        alpha.negated().plus(scaled_beta).times(N::half_value()),
        alpha.negated().minus(scaled_beta).times(N::half_value()),
    )
}

/// Rotation of a stationary vector into the rotor frame.
pub open spec fn park_of<N: Scalar>(alpha: N, beta: N, sin: N, cos: N) -> (N, N) {
    (cos.times(alpha).plus(sin.times(beta)), cos.times(beta).minus(sin.times(alpha)))
}

/// Rotation of a rotor-frame vector into the stationary frame.
pub open spec fn inverse_park_of<N: Scalar>(d: N, q: N, sin: N, cos: N) -> (N, N) {
    (cos.times(d).minus(sin.times(q)), sin.times(d).plus(cos.times(q)))
}

/// Convert two measured phase currents into the stationary frame.
pub fn clarke<N: Scalar>(phase_a: N, phase_b: N) -> (r: (N, N))
    ensures
        r == clarke_of(phase_a, phase_b),
{
    proof {
        N::operators_follow_the_model();
    }
    (phase_a, (phase_a + phase_b + phase_b) * N::inv_sqrt_3())
}

/// Convert a stationary vector back to the three phase frame.
pub fn inverse_clarke<N: Scalar>(alpha: N, beta: N) -> (r: (N, N, N))
    ensures
        r == inverse_clarke_of(alpha, beta),
{
    proof {
        N::operators_follow_the_model();
    }
    let scaled_beta = N::sqrt_3() * beta;
    let opposite = alpha.neg();
    (alpha, (opposite + scaled_beta) * N::half(), (opposite - scaled_beta) * N::half())
}

/// Rotate a stationary vector into the rotor-aligned dq frame.
pub fn park<N: Scalar>(alpha: N, beta: N, sin_theta: N, cos_theta: N) -> (r: (N, N))
    ensures
        r == park_of(alpha, beta, sin_theta, cos_theta),
{
    proof {
        N::operators_follow_the_model();
    }
    (cos_theta * alpha + sin_theta * beta, cos_theta * beta - sin_theta * alpha)
}

/// Rotate a rotor-aligned dq vector back into the stationary frame.
pub fn inverse_park<N: Scalar>(d: N, q: N, sin_theta: N, cos_theta: N) -> (r: (N, N))
    ensures
        r == inverse_park_of(d, q, sin_theta, cos_theta),
{
    proof {
        N::operators_follow_the_model();
    }
    (cos_theta * d - sin_theta * q, sin_theta * d + cos_theta * q)
}

/// Rotating a vector of up to 4,096 counts into the rotor frame and back misses
/// it by less than one count, for every sine and cosine that form a unit vector
/// to Q16.16 accuracy.
pub proof fn law_park_round_trip_is_within_one_count(
    alpha: Fixed,
    beta: Fixed,
    sin: Fixed,
    cos: Fixed,
)
    requires
        arith::abs(alpha.bits as int) <= 0x1000_0000,
        arith::abs(beta.bits as int) <= 0x1000_0000,
        arith::abs(sin.bits * sin.bits + cos.bits * cos.bits - 0x1_0000_0000) <= 0x8_0000,
    ensures
        ({
            let (d, q) = park_of(alpha, beta, sin, cos);
            let (back_alpha, back_beta) = inverse_park_of(d, q, sin, cos);
            &&& arith::abs(back_alpha.bits - alpha.bits) < 0x1_0000
            &&& arith::abs(back_beta.bits - beta.bits) < 0x1_0000
        }),
{
    let a = alpha.bits as int;
    let b = beta.bits as int;
    let s = sin.bits as int;
    let c = cos.bits as int;
    assert(-70_000 < s < 70_000 && -70_000 < c < 70_000) by (nonlinear_arith)
        requires
            s * s + c * c <= 0x1_0008_0000,
    ;
    lemma_product_is_near(cos, alpha);
    lemma_product_is_near(sin, beta);
    lemma_product_is_near(cos, beta);
    lemma_product_is_near(sin, alpha);
    let (d, q) = park_of(alpha, beta, sin, cos);
    lemma_product_is_near(cos, d);
    lemma_product_is_near(sin, q);
    lemma_product_is_near(sin, d);
    lemma_product_is_near(cos, q);
    let (x, y) = inverse_park_of(d, q, sin, cos);
    let x_error = 0x1_0000 * x.bits - (c * d.bits - s * q.bits);
    let y_error = 0x1_0000 * y.bits - (s * d.bits + c * q.bits);
    lemma_round_trip(a, b, s, c, d.bits as int, q.bits as int, x.bits as int, x_error);
    assert(c * b - s * a == c * b + (-s) * a) by (nonlinear_arith);
    assert(s * d.bits + c * q.bits == c * q.bits - (-s) * d.bits) by (nonlinear_arith);
    assert(c * a + s * b == c * a - (-s) * b) by (nonlinear_arith);
    assert((-s) * (-s) == s * s) by (nonlinear_arith);
    lemma_round_trip(b, a, -s, c, q.bits as int, d.bits as int, y.bits as int, y_error);
}

/// Rotating a vector of up to 4,096 counts by the sine and cosine of any
/// electrical angle and back misses it by less than one count.
pub proof fn law_rotation_is_undone_at_every_angle(alpha: Fixed, beta: Fixed, angle: Turns)
    requires
        arith::abs(alpha.bits as int) <= 0x1000_0000,
        arith::abs(beta.bits as int) <= 0x1000_0000,
    ensures
        ({
            let (sin, cos) = CordicSinCos::sin_cos_of(angle);
            let (d, q) = park_of(alpha, beta, sin, cos);
            let (back_alpha, back_beta) = inverse_park_of(d, q, sin, cos);
            &&& arith::abs(back_alpha.bits - alpha.bits) < 0x1_0000
            &&& arith::abs(back_beta.bits - beta.bits) < 0x1_0000
        }),
{
    let (sin, cos) = CordicSinCos::sin_cos_of(angle);
    trig::law_sine_and_cosine_form_a_unit_vector(angle);
    law_park_round_trip_is_within_one_count(alpha, beta, sin, cos);
}

/// The stationary frame keeps amplitudes: the alpha component is the first phase
/// current, and the beta component times the square root of three is the first
/// phase current plus twice the second, up to the resolution of the constant.
/// The sum of the currents has to fit the number range.
pub proof fn law_clarke_keeps_the_amplitude(phase_a: Fixed, phase_b: Fixed)
    requires
        i32::MIN <= phase_a.bits + phase_b.bits <= i32::MAX,
        i32::MIN <= phase_a.bits + 2 * phase_b.bits <= i32::MAX,
    ensures
        ({
            let (alpha, beta) = clarke_of(phase_a, phase_b);
            let across = phase_a.bits + 2 * phase_b.bits;
            &&& alpha == phase_a
            &&& svpwm::near_sqrt_3(beta.bits as int, across, 3 + arith::abs(across) / 0x2_0000)
        }),
{
    let (alpha, beta) = clarke_of(phase_a, phase_b);
    let across = phase_a.bits + 2 * phase_b.bits;
    let factor = numeric::fixed(37_837);
    let sum = phase_a.plus(phase_b).plus(phase_b);
    assert(sum.bits * factor.bits == 37_837 * across) by (nonlinear_arith)
        requires
            sum.bits == across,
            factor.bits == 37_837,
    ;
    svpwm::lemma_near_sqrt_3(beta.bits as int, across, 3 + arith::abs(across) / 0x2_0000);
}

/// The three phase values of a stationary vector cancel, the first is the alpha
/// component, and the second exceeds the third by the square root of three times
/// the beta component, up to the resolution of the constant.
pub proof fn law_inverse_clarke_is_balanced(alpha: Fixed, beta: Fixed)
    requires
        arith::abs(alpha.bits as int) <= 0x2000_0000,
        arith::abs(beta.bits as int) <= 0x2000_0000,
    ensures
        ({
            let (a, b, c) = inverse_clarke_of(alpha, beta);
            &&& a == alpha
            &&& arith::abs(a.bits + b.bits + c.bits) <= 1
            &&& svpwm::near_sqrt_3(
                beta.bits as int,
                b.bits - c.bits,
                4 + arith::abs(b.bits - c.bits) / 0x2_0000,
            )
        }),
{
    let (a, b, c) = inverse_clarke_of(alpha, beta);
    let root = numeric::fixed(113_512);
    let half = numeric::fixed(32_768);
    let scaled = root.times(beta);
    assert(root.bits * beta.bits == 113_512 * beta.bits) by (nonlinear_arith)
        requires
            root.bits == 113_512,
    ;
    let high = alpha.negated().plus(scaled);
    let low = alpha.negated().minus(scaled);
    assert(high.bits * half.bits == 32_768 * high.bits) by (nonlinear_arith)
        requires
            half.bits == 32_768,
    ;
    assert(low.bits * half.bits == 32_768 * low.bits) by (nonlinear_arith)
        requires
            half.bits == 32_768,
    ;
    svpwm::lemma_near_sqrt_3(
        beta.bits as int,
        b.bits - c.bits,
        4 + arith::abs(b.bits - c.bits) / 0x2_0000,
    );
}

/// Two measured phase currents come back out of the stationary frame, and the
/// third phase carries what the other two leave over.
pub proof fn law_phases_survive_the_stationary_frame(phase_a: Fixed, phase_b: Fixed)
    requires
        arith::abs(phase_a.bits as int) <= 0x1000_0000,
        arith::abs(phase_b.bits as int) <= 0x1000_0000,
    ensures
        ({
            let (alpha, beta) = clarke_of(phase_a, phase_b);
            let (a, b, c) = inverse_clarke_of(alpha, beta);
            let margin = 3 + arith::abs(phase_a.bits + 2 * phase_b.bits) / 0x4_0000;
            &&& a == phase_a
            &&& arith::abs(b.bits - phase_b.bits) <= margin
            &&& arith::abs(c.bits + phase_a.bits + phase_b.bits) <= margin
        }),
{
    let (alpha, beta) = clarke_of(phase_a, phase_b);
    let across = phase_a.bits + 2 * phase_b.bits;
    let factor = numeric::fixed(37_837);
    let root = numeric::fixed(113_512);
    let half = numeric::fixed(32_768);
    let sum = phase_a.plus(phase_b).plus(phase_b);
    assert(sum.bits * factor.bits == 37_837 * across) by (nonlinear_arith)
        requires
            sum.bits == across,
            factor.bits == 37_837,
    ;
    let scaled = root.times(beta);
    assert(root.bits * beta.bits == 113_512 * beta.bits) by (nonlinear_arith)
        requires
            root.bits == 113_512,
    ;
    let high = alpha.negated().plus(scaled);
    let low = alpha.negated().minus(scaled);
    assert(high.bits * half.bits == 32_768 * high.bits) by (nonlinear_arith)
        requires
            half.bits == 32_768,
    ;
    assert(low.bits * half.bits == 32_768 * low.bits) by (nonlinear_arith)
        requires
            half.bits == 32_768,
    ;
}

/// A vector that points along the rotor has its whole length on the d axis and
/// nothing on the q axis, at every angle and to within a count.
pub proof fn law_rotor_axis_is_direct(alpha: Fixed, beta: Fixed, angle: Turns, length: int)
    requires
        arith::abs(length) <= 0x0f00_0000,
        ({
            let (sin, cos) = CordicSinCos::sin_cos_of(angle);
            &&& arith::abs(0x1_0000 * alpha.bits - length * cos.bits) <= 0x1_0000
            &&& arith::abs(0x1_0000 * beta.bits - length * sin.bits) <= 0x1_0000
        }),
    ensures
        ({
            let (sin, cos) = CordicSinCos::sin_cos_of(angle);
            let (d, q) = park_of(alpha, beta, sin, cos);
            &&& arith::abs(d.bits - length) < 0x1_0000
            &&& arith::abs(q.bits as int) < 0x1_0000
        }),
{
    let (sin, cos) = CordicSinCos::sin_cos_of(angle);
    trig::law_sine_and_cosine_form_a_unit_vector(angle);
    let s = sin.bits as int;
    let c = cos.bits as int;
    assert(-70_000 < s < 70_000 && -70_000 < c < 70_000) by (nonlinear_arith)
        requires
            s * s + c * c <= 0x1_0008_0000,
    ;
    assert(arith::abs(length * c) <= 0x0f00_0000 * 70_000 && arith::abs(length * s) <= 0x0f00_0000
        * 70_000) by (nonlinear_arith)
        requires
            arith::abs(length) <= 0x0f00_0000,
            -70_000 < s < 70_000,
            -70_000 < c < 70_000,
    ;
    assert(arith::abs(alpha.bits as int) <= 0x2400_0000);
    lemma_product_is_near(cos, alpha);
    lemma_product_is_near(sin, beta);
    lemma_product_is_near(cos, beta);
    lemma_product_is_near(sin, alpha);
    let a = alpha.bits as int;
    let b = beta.bits as int;
    let x = 0x1_0000 * a - length * c;
    let y = 0x1_0000 * b - length * s;
    let excess = s * s + c * c - 0x1_0000_0000;
    assert(0x1_0000 * (c * a + s * b) == 0x1_0000_0000 * length + excess * length + c * x + s * y)
        by (nonlinear_arith)
        requires
            x == 0x1_0000 * a - length * c,
            y == 0x1_0000 * b - length * s,
            excess == s * s + c * c - 0x1_0000_0000,
    ;
    assert(0x1_0000 * (c * b - s * a) == c * y - s * x) by (nonlinear_arith)
        requires
            x == 0x1_0000 * a - length * c,
            y == 0x1_0000 * b - length * s,
    ;
    assert(arith::abs(excess * length) <= 0x8_0000 * 0x0f00_0000) by (nonlinear_arith)
        requires
            arith::abs(excess) <= 0x8_0000,
            arith::abs(length) <= 0x0f00_0000,
    ;
    lemma_small_error(c, x);
    lemma_small_error(s, y);
    lemma_small_error(c, y);
    lemma_small_error(s, x);
}

proof fn lemma_small_error(factor: int, error: int)
    by (nonlinear_arith)
    requires
        -70_000 < factor < 70_000,
        -0x1_0000 <= error <= 0x1_0000,
    ensures
        -70_000 * 0x1_0000 <= factor * error <= 70_000 * 0x1_0000,
{
}

/// Turning a rotor-frame vector of up to 4,096 ticks into the stationary frame
/// and back misses it by less than one tick, at every electrical angle.
pub proof fn law_output_rotation_is_undone_at_every_angle(d: Fixed, q: Fixed, angle: Turns)
    requires
        arith::abs(d.bits as int) <= 0x1000_0000,
        arith::abs(q.bits as int) <= 0x1000_0000,
    ensures
        ({
            let (sin, cos) = CordicSinCos::sin_cos_of(angle);
            let (alpha, beta) = inverse_park_of(d, q, sin, cos);
            let (back_d, back_q) = park_of(alpha, beta, sin, cos);
            &&& arith::abs(back_d.bits - d.bits) < 0x1_0000
            &&& arith::abs(back_q.bits - q.bits) < 0x1_0000
        }),
{
    let (sin, cos) = CordicSinCos::sin_cos_of(angle);
    trig::law_sine_and_cosine_form_a_unit_vector(angle);
    let s = sin.bits as int;
    let c = cos.bits as int;
    let a = d.bits as int;
    let b = q.bits as int;
    assert(-70_000 < s < 70_000 && -70_000 < c < 70_000) by (nonlinear_arith)
        requires
            s * s + c * c <= 0x1_0008_0000,
    ;
    lemma_product_is_near(cos, d);
    lemma_product_is_near(sin, q);
    lemma_product_is_near(sin, d);
    lemma_product_is_near(cos, q);
    let (x, y) = inverse_park_of(d, q, sin, cos);
    lemma_product_is_near(cos, x);
    lemma_product_is_near(sin, y);
    lemma_product_is_near(cos, y);
    lemma_product_is_near(sin, x);
    let (v, w) = park_of(x, y, sin, cos);
    let v_error = 0x1_0000 * v.bits - (c * x.bits + s * y.bits);
    let w_error = 0x1_0000 * w.bits - (c * y.bits - s * x.bits);
    assert(c * a - s * b == c * a + (-s) * b) by (nonlinear_arith);
    assert(s * a + c * b == c * b - (-s) * a) by (nonlinear_arith);
    assert(c * x.bits + s * y.bits == c * x.bits - (-s) * y.bits) by (nonlinear_arith);
    assert((-s) * (-s) == s * s) by (nonlinear_arith);
    lemma_round_trip(a, b, -s, c, x.bits as int, y.bits as int, v.bits as int, v_error);
    lemma_round_trip(b, a, s, c, y.bits as int, x.bits as int, w.bits as int, w_error);
}

/// Phase values follow the stationary vector: components within a count give the
/// first phase within a count and the others within two.
pub proof fn lemma_phases_are_near(alpha: Fixed, beta: Fixed, other_alpha: Fixed, other_beta: Fixed)
    requires
        arith::abs(alpha.bits as int) <= 0x1800_0000,
        arith::abs(beta.bits as int) <= 0x1800_0000,
        arith::abs(other_alpha.bits as int) <= 0x1800_0000,
        arith::abs(other_beta.bits as int) <= 0x1800_0000,
        arith::abs(alpha.bits - other_alpha.bits) <= 0x1_0000,
        arith::abs(beta.bits - other_beta.bits) <= 0x1_0000,
    ensures
        ({
            let (a, b, c) = inverse_clarke_of(alpha, beta);
            let (other_a, other_b, other_c) = inverse_clarke_of(other_alpha, other_beta);
            &&& arith::abs(a.bits - other_a.bits) <= 0x1_0000
            &&& arith::abs(b.bits - other_b.bits) <= 0x1_8000
            &&& arith::abs(c.bits - other_c.bits) <= 0x1_8000
        }),
{
    lemma_phase_values(alpha, beta);
    lemma_phase_values(other_alpha, other_beta);
}

proof fn lemma_phase_values(alpha: Fixed, beta: Fixed)
    requires
        arith::abs(alpha.bits as int) <= 0x2000_0000,
        arith::abs(beta.bits as int) <= 0x2000_0000,
    ensures
        ({
            let (a, b, c) = inverse_clarke_of(alpha, beta);
            &&& a == alpha
            &&& arith::abs(0x2_0000 * b.bits + 0x1_0000 * alpha.bits - 113_512 * beta.bits)
                <= 0x3_0000
            &&& arith::abs(0x2_0000 * c.bits + 0x1_0000 * alpha.bits + 113_512 * beta.bits)
                <= 0x3_0000
        }),
{
    let root = numeric::fixed(113_512);
    let half = numeric::fixed(32_768);
    let scaled = root.times(beta);
    assert(root.bits * beta.bits == 113_512 * beta.bits) by (nonlinear_arith)
        requires
            root.bits == 113_512,
    ;
    let high = alpha.negated().plus(scaled);
    let low = alpha.negated().minus(scaled);
    assert(high.bits * half.bits == 32_768 * high.bits) by (nonlinear_arith)
        requires
            half.bits == 32_768,
    ;
    assert(low.bits * half.bits == 32_768 * low.bits) by (nonlinear_arith)
        requires
            half.bits == 32_768,
    ;
}

/// A product with a factor of about one stays in range and is truncated by less
/// than one unit.
proof fn lemma_product_is_near(factor: Fixed, value: Fixed)
    requires
        -70_000 < factor.bits < 70_000,
        arith::abs(value.bits as int) <= 0x2400_0000,
    ensures
        arith::abs(0x1_0000 * factor.times(value).bits - factor.bits * value.bits) < 0x1_0000,
        arith::abs(factor.times(value).bits as int) < 0x2800_0000,
        arith::abs(value.bits as int) <= 0x1000_0000 ==> arith::abs(
            factor.times(value).bits as int,
        ) < 0x1200_0000,
{
    let k = factor.bits as int;
    let v = value.bits as int;
    assert(-70_000 * 0x2400_0000 <= k * v <= 70_000 * 0x2400_0000) by (nonlinear_arith)
        requires
            -70_000 < k < 70_000,
            -0x2400_0000 <= v <= 0x2400_0000,
    ;
    if arith::abs(v) <= 0x1000_0000 {
        assert(-70_000 * 0x1000_0000 <= k * v <= 70_000 * 0x1000_0000) by (nonlinear_arith)
            requires
                -70_000 < k < 70_000,
                -0x1000_0000 <= v <= 0x1000_0000,
        ;
    }
}

/// One component of the round trip, with the truncation errors collected.
proof fn lemma_round_trip(
    a: int,
    b: int,
    s: int,
    c: int,
    d: int,
    q: int,
    x: int,
    x_error: int,
)
    requires
        -0x1000_0000 <= a <= 0x1000_0000,
        -70_000 < s < 70_000,
        -70_000 < c < 70_000,
        -0x8_0000 <= s * s + c * c - 0x1_0000_0000 <= 0x8_0000,
        -0x2_0000 < 0x1_0000 * d - (c * a + s * b) < 0x2_0000,
        -0x2_0000 < 0x1_0000 * q - (c * b - s * a) < 0x2_0000,
        x_error == 0x1_0000 * x - (c * d - s * q),
        -0x2_0000 < x_error < 0x2_0000,
    ensures
        -0x1_0000 < x - a < 0x1_0000,
{
    let d_error = 0x1_0000 * d - (c * a + s * b);
    let q_error = 0x1_0000 * q - (c * b - s * a);
    let excess = s * s + c * c - 0x1_0000_0000;
    assert(0x1_0000_0000 * (x - a) == excess * a + c * d_error - s * q_error + 0x1_0000 * x_error)
        by (nonlinear_arith)
        requires
            d_error == 0x1_0000 * d - (c * a + s * b),
            q_error == 0x1_0000 * q - (c * b - s * a),
            excess == s * s + c * c - 0x1_0000_0000,
            x_error == 0x1_0000 * x - (c * d - s * q),
    ;
    assert(-0x8_0000 * 0x1000_0000 <= excess * a <= 0x8_0000 * 0x1000_0000) by (nonlinear_arith)
        requires
            -0x8_0000 <= excess <= 0x8_0000,
            -0x1000_0000 <= a <= 0x1000_0000,
    ;
    assert(-70_000 * 0x2_0000 <= c * d_error <= 70_000 * 0x2_0000) by (nonlinear_arith)
        requires
            -70_000 < c < 70_000,
            -0x2_0000 < d_error < 0x2_0000,
    ;
    assert(-70_000 * 0x2_0000 <= s * q_error <= 70_000 * 0x2_0000) by (nonlinear_arith)
        requires
            -70_000 < s < 70_000,
            -0x2_0000 < q_error < 0x2_0000,
    ;
}

} // verus!
