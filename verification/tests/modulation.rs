//! Space-vector modulation and trigonometry, with both scalar backends.
use core::ops::{Add, Mul, Neg, Sub};

use oxifoc::foc::svpwm::{get_sector, space_vector_pwm, space_vector_pwm_ticks};
use oxifoc::foc::trig::{sin_cos_q31, CordicSinCos, SinCos};
use oxifoc::foc::{AlphaBeta, Fixed, PwmDuty, Scalar};

/// Floating-point backend.
#[derive(Clone, Copy, Debug, PartialEq, PartialOrd)]
struct Float(f32);

impl Add for Float {
    type Output = Float;
    fn add(self, rhs: Float) -> Float {
        Float(self.0 + rhs.0)
    }
}

impl Sub for Float {
    type Output = Float;
    fn sub(self, rhs: Float) -> Float {
        Float(self.0 - rhs.0)
    }
}

impl Mul for Float {
    type Output = Float;
    fn mul(self, rhs: Float) -> Float {
        Float(self.0 * rhs.0)
    }
}

impl Neg for Float {
    type Output = Float;
    fn neg(self) -> Float {
        Float(-self.0)
    }
}

impl Scalar for Float {
    fn zero() -> Float {
        Float(0.0)
    }
    fn one() -> Float {
        Float(1.0)
    }
    fn half() -> Float {
        Float(0.5)
    }
    fn three_halves() -> Float {
        Float(1.5)
    }
    fn two_thirds() -> Float {
        Float(2.0 / 3.0)
    }
    fn inv_sqrt_3() -> Float {
        Float(0.577_350_26)
    }
    fn two_inv_sqrt_3() -> Float {
        Float(1.154_700_5)
    }
    fn sqrt_3() -> Float {
        Float(1.732_050_8)
    }
    fn less_than(self, other: Float) -> bool {
        self.0 < other.0
    }
    fn equals(self, other: Float) -> bool {
        self.0 == other.0
    }
    fn from_i32(value: i32) -> Float {
        Float(value as f32)
    }
    fn from_ratio(numerator: i32, denominator: i32) -> Float {
        Float(numerator as f32 / denominator as f32)
    }
    fn trunc_to_i32(self) -> i32 {
        self.0 as i32
    }
    fn trunc(self) -> Float {
        self
    }
    fn sqrt(self) -> Float {
        Float(libm::sqrtf(self.0.max(0.0)))
    }
    fn abs(self) -> Float {
        Float(self.0.abs())
    }
    fn abs_ceil_u32(self) -> u32 {
        libm::ceilf(self.0.abs()) as u32
    }
    fn circular_remaining(limit: Float, direct: Float) -> Float {
        Float(libm::sqrtf((limit.0 * limit.0 - direct.0 * direct.0).max(0.0)))
    }
    fn magnitude_exceeds(direct: Float, quadrature: Float, limit: Float) -> bool {
        let limit = limit.0.max(0.0);
        direct.0 * direct.0 + quadrature.0 * quadrature.0 > limit * limit
    }
    fn limit_vector(direct: Float, quadrature: Float, limit: Float) -> (Float, Float, Float) {
        let limit = limit.0.max(0.0);
        let magnitude_squared = direct.0 * direct.0 + quadrature.0 * quadrature.0;
        if magnitude_squared <= limit * limit {
            return (direct, quadrature, Float(1.0));
        }
        let scale = limit / libm::sqrtf(magnitude_squared);
        (
            Float(direct.0 * scale),
            Float(quadrature.0 * scale),
            Float(scale),
        )
    }
    fn plus(self, rhs: Float) -> Float {
        self + rhs
    }
    fn minus(self, rhs: Float) -> Float {
        self - rhs
    }
    fn times(self, rhs: Float) -> Float {
        self * rhs
    }
    fn negated(self) -> Float {
        -self
    }
    fn below(self, rhs: Float) -> bool {
        self.less_than(rhs)
    }
    fn same(self, rhs: Float) -> bool {
        self.equals(rhs)
    }
    fn zero_value() -> Float {
        Float::zero()
    }
    fn one_value() -> Float {
        Float::one()
    }
    fn half_value() -> Float {
        Float::half()
    }
    fn three_halves_value() -> Float {
        Float::three_halves()
    }
    fn two_thirds_value() -> Float {
        Float::two_thirds()
    }
    fn inv_sqrt_3_value() -> Float {
        Float::inv_sqrt_3()
    }
    fn two_inv_sqrt_3_value() -> Float {
        Float::two_inv_sqrt_3()
    }
    fn sqrt_3_value() -> Float {
        Float::sqrt_3()
    }
    fn of_integer(value: i32) -> Float {
        Float::from_i32(value)
    }
    fn of_ratio(numerator: i32, denominator: i32) -> Float {
        Float::from_ratio(numerator, denominator)
    }
    fn whole(self) -> i32 {
        self.trunc_to_i32()
    }
    fn truncated(self) -> Float {
        self.trunc()
    }
    fn root(self) -> Float {
        self.sqrt()
    }
    fn absolute(self) -> Float {
        self.abs()
    }
    fn absolute_ceiling(self) -> u32 {
        self.abs_ceil_u32()
    }
    fn remaining_on_circle(limit: Float, direct: Float) -> Float {
        Float::circular_remaining(limit, direct)
    }
    fn outside_circle(direct: Float, quadrature: Float, limit: Float) -> bool {
        Float::magnitude_exceeds(direct, quadrature, limit)
    }
    fn limited_vector(direct: Float, quadrature: Float, limit: Float) -> (Float, Float, Float) {
        Float::limit_vector(direct, quadrature, limit)
    }
    fn operators_follow_the_model() {}
}

struct LibmSinCos;

impl SinCos<Float> for LibmSinCos {
    type Angle = Float;
    fn sin_cos(angle: Float) -> (Float, Float) {
        (Float(libm::sinf(angle.0)), Float(libm::cosf(angle.0)))
    }
    fn sin_cos_of(angle: Float) -> (Float, Float) {
        Self::sin_cos(angle)
    }
}

const NEUTRAL: u16 = 1_125;
const PHASE_LIMIT: u16 = 1_085;

#[test]
fn fixed_modulation_respects_the_sampling_margin() {
    for (alpha, beta) in [(1_250, 0), (0, 1_250), (-884, 884)] {
        let duty = space_vector_pwm_ticks(
            AlphaBeta {
                alpha: Fixed::from_integer(alpha),
                beta: Fixed::from_integer(beta),
            },
            NEUTRAL,
            PHASE_LIMIT,
        );
        for compare in duty.as_array() {
            assert!(compare.abs_diff(NEUTRAL) <= PHASE_LIMIT);
        }
    }
}

#[test]
fn zero_vector_is_centered() {
    assert_eq!(
        space_vector_pwm_ticks(
            AlphaBeta {
                alpha: Fixed::zero(),
                beta: Fixed::zero(),
            },
            NEUTRAL,
            PHASE_LIMIT,
        ),
        PwmDuty {
            a: NEUTRAL,
            b: NEUTRAL,
            c: NEUTRAL,
        }
    );
}

#[test]
fn fixed_and_float_use_the_same_sector_timing() {
    for (alpha, beta) in [
        (1_000, 100),
        (100, 1_000),
        (-900, 400),
        (-1_000, -100),
        (-100, -1_000),
        (700, -700),
    ] {
        let floating = space_vector_pwm_ticks(
            AlphaBeta {
                alpha: Float(alpha as f32),
                beta: Float(beta as f32),
            },
            NEUTRAL,
            PHASE_LIMIT,
        );
        let fixed = space_vector_pwm_ticks(
            AlphaBeta {
                alpha: Fixed::from_integer(alpha),
                beta: Fixed::from_integer(beta),
            },
            NEUTRAL,
            PHASE_LIMIT,
        );
        for (float_compare, fixed_compare) in
            floating.as_array().into_iter().zip(fixed.as_array())
        {
            assert!(float_compare.abs_diff(fixed_compare) <= 2);
        }
    }
}

#[test]
fn normalized_float_contract_is_preserved() {
    assert_eq!(space_vector_pwm(Float(0.0), Float(0.0), 1_000), [500; 3]);
    for (alpha, beta, sector) in [
        (0.5, 0.1, 1),
        (0.1, 0.5, 2),
        (-0.4, 0.4, 3),
        (-0.5, -0.1, 4),
        (-0.1, -0.5, 5),
        (0.4, -0.4, 6),
    ] {
        assert_eq!(get_sector(Float(alpha), Float(beta)), sector);
        assert!(
            space_vector_pwm(Float(alpha), Float(beta), 1_000)
                .into_iter()
                .all(|compare| compare <= 1_000)
        );
    }
}

#[test]
fn cordic_cardinal_angles_are_correct() {
    let cases = [
        (0, 0, i32::MAX),
        (0x4000_0000, i32::MAX, 0),
        (0x8000_0000, 0, -i32::MAX),
        (0xc000_0000, -i32::MAX, 0),
    ];
    for (angle, expected_sin, expected_cos) in cases {
        let (sin, cos) = sin_cos_q31(angle);
        assert!((sin - expected_sin).unsigned_abs() < 100_000);
        assert!((cos - expected_cos).unsigned_abs() < 100_000);
    }
}

#[test]
fn fixed_and_float_backends_agree_around_a_turn() {
    for eighth in 0..8_u32 {
        let turns = eighth << 29;
        let radians = eighth as f32 * core::f32::consts::FRAC_PI_4;
        let (fixed_sin, fixed_cos) = CordicSinCos::sin_cos(turns);
        let (float_sin, float_cos) = LibmSinCos::sin_cos(Float(radians));
        let fixed_sin = fixed_sin.to_bits() as f32 / 65_536.0;
        let fixed_cos = fixed_cos.to_bits() as f32 / 65_536.0;
        assert!((fixed_sin - float_sin.0).abs() < 0.000_2);
        assert!((fixed_cos - float_cos.0).abs() < 0.000_2);
    }
}
