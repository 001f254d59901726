//! Scalar backends used by the shared FOC algorithms.
//!
//! The control code is generic over [`Scalar`]. [`Fixed`] is the signed Q16.16
//! backend for processors without an FPU; a floating-point backend lives with
//! the application.
use core::ops::{Add, Mul, Neg, Sub};
use vstd::prelude::*;
use vstd::std_specs::ops::*;

use crate::arith;
use crate::foc::roots;

verus! {

/// Arithmetic required by the Clarke/Park, PI, limiting, and SVPWM paths.
///
/// Implementations define their overflow and quantization behavior through the
/// model functions below; every executable method returns what its model says.
/// The fixed backend saturates arithmetic and truncates actuator commands
/// toward zero.
pub trait Scalar: Copy + PartialEq + PartialOrd + Add<Output = Self> + Sub<Output = Self> + Mul<
    Output = Self,
> + Neg<Output = Self> {
    /// Model of `+`.
    spec fn plus(self, rhs: Self) -> Self;

    /// Model of `-`.
    spec fn minus(self, rhs: Self) -> Self;

    /// Model of `*`.
    spec fn times(self, rhs: Self) -> Self;

    /// Model of unary `-`.
    spec fn negated(self) -> Self;

    /// Model of `<`.
    spec fn below(self, rhs: Self) -> bool;

    /// Model of `==`.
    spec fn same(self, rhs: Self) -> bool;

    spec fn zero_value() -> Self;

    spec fn one_value() -> Self;

    spec fn half_value() -> Self;

    spec fn three_halves_value() -> Self;

    spec fn two_thirds_value() -> Self;

    spec fn inv_sqrt_3_value() -> Self;

    spec fn two_inv_sqrt_3_value() -> Self;

    spec fn sqrt_3_value() -> Self;

    /// Model of [`Scalar::from_i32`].
    spec fn of_integer(value: i32) -> Self;

    /// Model of [`Scalar::from_ratio`].
    spec fn of_ratio(numerator: i32, denominator: i32) -> Self;

    /// Model of [`Scalar::trunc_to_i32`].
    spec fn whole(self) -> i32;

    /// Model of [`Scalar::trunc`].
    spec fn truncated(self) -> Self;

    /// Model of [`Scalar::sqrt`].
    spec fn root(self) -> Self;

    /// Model of [`Scalar::abs`].
    spec fn absolute(self) -> Self;

    /// Model of [`Scalar::abs_ceil_u32`].
    spec fn absolute_ceiling(self) -> u32;

    /// Model of [`Scalar::circular_remaining`].
    spec fn remaining_on_circle(limit: Self, direct: Self) -> Self;

    /// Model of [`Scalar::magnitude_exceeds`].
    spec fn outside_circle(direct: Self, quadrature: Self, limit: Self) -> bool;

    /// Model of [`Scalar::limit_vector`].
    spec fn limited_vector(direct: Self, quadrature: Self, limit: Self) -> (Self, Self, Self);

    /// The operators accept every pair of values and compute their models.
    proof fn operators_follow_the_model()
        ensures
            Self::obeys_add_spec(),
            Self::obeys_sub_spec(),
            Self::obeys_mul_spec(),
            Self::obeys_neg_spec(),
            forall|a: Self, b: Self| #[trigger] a.add_req(b),
            forall|a: Self, b: Self| #[trigger] a.sub_req(b),
            forall|a: Self, b: Self| #[trigger] a.mul_req(b),
            forall|a: Self| #[trigger] a.neg_req(),
            forall|a: Self, b: Self| #[trigger] a.add_spec(b) == a.plus(b),
            forall|a: Self, b: Self| #[trigger] a.sub_spec(b) == a.minus(b),
            forall|a: Self, b: Self| #[trigger] a.mul_spec(b) == a.times(b),
            forall|a: Self| #[trigger] a.neg_spec() == a.negated(),
    ;

    fn zero() -> (r: Self)
        ensures
            r == Self::zero_value(),
    ;

    fn one() -> (r: Self)
        ensures
            r == Self::one_value(),
    ;

    fn half() -> (r: Self)
        ensures
            r == Self::half_value(),
    ;

    fn three_halves() -> (r: Self)
        ensures
            r == Self::three_halves_value(),
    ;

    fn two_thirds() -> (r: Self)
        ensures
            r == Self::two_thirds_value(),
    ;

    fn inv_sqrt_3() -> (r: Self)
        ensures
            r == Self::inv_sqrt_3_value(),
    ;

    fn two_inv_sqrt_3() -> (r: Self)
        ensures
            r == Self::two_inv_sqrt_3_value(),
    ;

    fn sqrt_3() -> (r: Self)
        ensures
            r == Self::sqrt_3_value(),
    ;

    fn less_than(self, other: Self) -> (r: bool)
        ensures
            r == self.below(other),
    ;

    fn equals(self, other: Self) -> (r: bool)
        ensures
            r == self.same(other),
    ;

    fn from_i32(value: i32) -> (r: Self)
        ensures
            r == Self::of_integer(value),
    ;

    fn from_ratio(numerator: i32, denominator: i32) -> (r: Self)
        requires
            denominator != 0,
        ensures
            r == Self::of_ratio(numerator, denominator),
    ;

    fn trunc_to_i32(self) -> (r: i32)
        ensures
            r == self.whole(),
    ;

    fn trunc(self) -> (r: Self)
        ensures
            r == self.truncated(),
    ;

    fn sqrt(self) -> (r: Self)
        ensures
            r == self.root(),
    ;

    fn abs(self) -> (r: Self)
        ensures
            r == self.absolute(),
    ;

    fn abs_ceil_u32(self) -> (r: u32)
        ensures
            r == self.absolute_ceiling(),
    ;

    /// Largest q component that stays inside the circle of radius `limit`
    /// beside the given d component.
    fn circular_remaining(limit: Self, direct: Self) -> (r: Self)
        ensures
            r == Self::remaining_on_circle(limit, direct),
    ;

    fn magnitude_exceeds(direct: Self, quadrature: Self, limit: Self) -> (r: bool)
        ensures
            r == Self::outside_circle(direct, quadrature, limit),
    ;

    /// Scales a vector back into the circle of radius `limit`; returns both
    /// components and the common scale.
    fn limit_vector(direct: Self, quadrature: Self, limit: Self) -> (r: (Self, Self, Self))
        ensures
            r == Self::limited_vector(direct, quadrature, limit),
    ;

    fn min(self, other: Self) -> (r: Self)
        ensures
            r == (if self.below(other) { self } else { other }),
    {
        if self.less_than(other) {
            self
        } else {
            other
        }
    }

    fn max(self, other: Self) -> (r: Self)
        ensures
            r == (if other.below(self) { self } else { other }),
    {
        if other.less_than(self) {
            self
        } else {
            other
        }
    }

    fn clamp(self, minimum: Self, maximum: Self) -> (r: Self)
        ensures
            r == ({
                let raised = if minimum.below(self) { self } else { minimum };
                if raised.below(maximum) { raised } else { maximum }
            }),
    {
        let raised = if minimum.less_than(self) {
            self
        } else {
            minimum
        };
        if raised.less_than(maximum) {
            raised
        } else {
            maximum
        }
    }
}

/// The lower of two scalars; the second when neither is lower.
pub open spec fn lesser<N: Scalar>(a: N, b: N) -> N {
    if a.below(b) {
        a
    } else {
        b
    }
}

/// The higher of two scalars; the second when neither is higher.
pub open spec fn greater<N: Scalar>(a: N, b: N) -> N {
    if b.below(a) {
        a
    } else {
        b
    }
}

/// Raised to `minimum`, then lowered to `maximum`.
pub open spec fn clamped<N: Scalar>(value: N, minimum: N, maximum: N) -> N {
    lesser(greater(value, minimum), maximum)
}

/// Signed Q16.16 scalar.
#[derive(Clone, Copy, Debug, Default, Eq, Ord, PartialEq, PartialOrd, Structural)]
pub struct Fixed {
    pub bits: i32,
}

/// The scalar whose raw word is nearest to `bits`.
pub open spec fn fixed(bits: int) -> Fixed {
    Fixed { bits: arith::sat_i32(bits) as i32 }
}

/// Raw word of a product, rounded toward zero and saturated.
pub open spec fn product_bits(a: int, b: int) -> int {
    arith::sat_i32(arith::trunc_div(a * b, 0x1_0000))
}

/// How many times `largest` has to be halved to fit in fifteen bits.
pub open spec fn magnitude_shift(largest: int) -> nat {
    arith::shift_below(largest, 0x8000)
}

/// `2^shift`.
pub open spec fn quantum(shift: nat) -> int {
    arith::unit(shift)
}

/// `value / 2^shift` rounded up, in a `u32` that saturates before the shift.
pub open spec fn scaled_up(value: int, shift: nat) -> int {
    arith::sat_u32(value + quantum(shift) - 1) / quantum(shift)
}

/// Length of the vector in units of `2^shift`, every rounding upward.
pub open spec fn scaled_magnitude(direct: int, quadrature: int) -> int {
    let shift = magnitude_shift(arith::max(direct, quadrature));
    let d = scaled_up(direct, shift);
    let q = scaled_up(quadrature, shift);
    roots::isqrt_ceil(d * d + q * q)
}

/// Common Q16 scale that brings a vector of the given component magnitudes
/// into a circle of radius `limit`, rounded down.
pub open spec fn vector_scale(direct: int, quadrature: int, limit: int) -> int {
    let shift = magnitude_shift(arith::max(direct, quadrature));
    arith::min(
        limit * 0x1_0000 / (scaled_magnitude(direct, quadrature) * quantum(shift)),
        0x1_0000,
    )
}

impl Fixed {
    pub fn zero() -> (r: Self)
        ensures
            r == fixed(0),
    {
        Fixed { bits: 0 }
    }

    pub fn one() -> (r: Self)
        ensures
            r == fixed(0x1_0000),
    {
        Fixed { bits: 0x1_0000 }
    }

    pub fn from_bits(bits: i32) -> (r: Self)
        ensures
            r.bits == bits,
    {
        Fixed { bits }
    }

    pub fn to_bits(self) -> (r: i32)
        ensures
            r == self.bits,
    {
        self.bits
    }

    pub fn from_integer(value: i32) -> (r: Self)
        ensures
            r == fixed(value * 0x1_0000),
    {
        Fixed { bits: arith::sat_i64_to_i32(value as i64 * 0x1_0000) }
    }

    pub fn ratio(numerator: i32, denominator: i32) -> (r: Self)
        requires
            denominator != 0,
        ensures
            r == fixed(arith::trunc_div(numerator * 0x1_0000, denominator as int)),
    {
        let scaled: i64 = numerator as i64 * 0x1_0000;
        let quotient: i64 = if denominator > 0 {
            scaled / denominator as i64
        } else {
            (-scaled) / (-(denominator as i64))
        };
        Fixed { bits: arith::sat_i64_to_i32(quotient) }
    }

    pub fn integer(self) -> (r: i32)
        ensures
            r == arith::trunc_div(self.bits as int, 0x1_0000),
    {
        self.bits / 0x1_0000
    }

    pub fn from_q31(value: i32) -> (r: Self)
        ensures
            r.bits == arith::trunc_div(value as int, 0x8000),
    {
        Fixed { bits: value / 0x8000 }
    }
}

impl vstd::std_specs::ops::AddSpecImpl for Fixed {
    open spec fn obeys_add_spec() -> bool {
        true
    }

    open spec fn add_req(self, rhs: Self) -> bool {
        true
    }

    open spec fn add_spec(self, rhs: Self) -> Self {
        fixed(self.bits + rhs.bits)
    }
}

impl Add for Fixed {
    type Output = Self;

    fn add(self, rhs: Self) -> (r: Self) {
        Fixed { bits: arith::sat_add_i32(self.bits, rhs.bits) }
    }
}

impl vstd::std_specs::ops::SubSpecImpl for Fixed {
    open spec fn obeys_sub_spec() -> bool {
        true
    }

    open spec fn sub_req(self, rhs: Self) -> bool {
        true
    }

    open spec fn sub_spec(self, rhs: Self) -> Self {
        fixed(self.bits - rhs.bits)
    }
}

impl Sub for Fixed {
    type Output = Self;

    fn sub(self, rhs: Self) -> (r: Self) {
        Fixed { bits: arith::sat_sub_i32(self.bits, rhs.bits) }
    }
}

impl vstd::std_specs::ops::MulSpecImpl for Fixed {
    open spec fn obeys_mul_spec() -> bool {
        true
    }

    open spec fn mul_req(self, rhs: Self) -> bool {
        true
    }

    open spec fn mul_spec(self, rhs: Self) -> Self {
        fixed(product_bits(self.bits as int, rhs.bits as int))
    }
}

impl Mul for Fixed {
    type Output = Self;

    fn mul(self, rhs: Self) -> (r: Self) {
        let product: i64 = arith::mul_i32_wide(self.bits, rhs.bits);
        Fixed { bits: arith::sat_i64_to_i32(product / 0x1_0000) }
    }
}

impl vstd::std_specs::ops::NegSpecImpl for Fixed {
    open spec fn obeys_neg_spec() -> bool {
        true
    }

    open spec fn neg_req(self) -> bool {
        true
    }

    open spec fn neg_spec(self) -> Self {
        fixed(-self.bits)
    }
}

impl Neg for Fixed {
    type Output = Self;

    fn neg(self) -> (r: Self) {
        Fixed { bits: arith::sat_neg_i32(self.bits) }
    }
}

impl Scalar for Fixed {
    open spec fn plus(self, rhs: Self) -> Self {
        fixed(self.bits + rhs.bits)
    }

    open spec fn minus(self, rhs: Self) -> Self {
        fixed(self.bits - rhs.bits)
    }

    open spec fn times(self, rhs: Self) -> Self {
        fixed(product_bits(self.bits as int, rhs.bits as int))
    }

    open spec fn negated(self) -> Self {
        fixed(-self.bits)
    }

    open spec fn below(self, rhs: Self) -> bool {
        self.bits < rhs.bits
    }

    open spec fn same(self, rhs: Self) -> bool {
        self == rhs
    }

    open spec fn zero_value() -> Self {
        fixed(0)
    }

    open spec fn one_value() -> Self {
        fixed(0x1_0000)
    }

    open spec fn half_value() -> Self {
        fixed(32_768)
    }

    open spec fn three_halves_value() -> Self {
        fixed(98_304)
    }

    open spec fn two_thirds_value() -> Self {
        fixed(43_690)
    }

    open spec fn inv_sqrt_3_value() -> Self {
        fixed(37_837)
    }

    open spec fn two_inv_sqrt_3_value() -> Self {
        fixed(75_674)
    }

    open spec fn sqrt_3_value() -> Self {
        fixed(113_512)
    }

    open spec fn of_integer(value: i32) -> Self {
        fixed(value * 0x1_0000)
    }

    open spec fn of_ratio(numerator: i32, denominator: i32) -> Self {
        fixed(arith::trunc_div(numerator * 0x1_0000, denominator as int))
    }

    open spec fn whole(self) -> i32 {
        arith::trunc_div(self.bits as int, 0x1_0000) as i32
    }

    open spec fn truncated(self) -> Self {
        fixed(arith::trunc_div(self.bits as int, 0x1_0000) * 0x1_0000)
    }

    open spec fn root(self) -> Self {
        fixed(roots::isqrt(arith::max(self.bits as int, 0) * 0x1_0000))
    }

    open spec fn absolute(self) -> Self {
        fixed(arith::abs(self.bits as int))
    }

    open spec fn absolute_ceiling(self) -> u32 {
        ((arith::abs(self.bits as int) + 0xffff) / 0x1_0000) as u32
    }

    open spec fn remaining_on_circle(limit: Self, direct: Self) -> Self {
        let radius = arith::max(limit.bits as int, 0);
        let d = arith::min(arith::sat_i32(arith::abs(direct.bits as int)), radius);
        fixed(roots::isqrt(radius * radius - d * d))
    }

    open spec fn outside_circle(direct: Self, quadrature: Self, limit: Self) -> bool {
        let radius = arith::max(limit.bits as int, 0);
        direct.bits * direct.bits + quadrature.bits * quadrature.bits > radius * radius
    }

    open spec fn limited_vector(direct: Self, quadrature: Self, limit: Self) -> (Self, Self, Self) {
        if !Self::outside_circle(direct, quadrature, limit) {
            (direct, quadrature, fixed(0x1_0000))
        } else if limit.bits <= 0 {
            (fixed(0), fixed(0), fixed(0))
        } else {
            let scale = fixed(
                vector_scale(
                    arith::abs(direct.bits as int),
                    arith::abs(quadrature.bits as int),
                    limit.bits as int,
                ),
            );
            (direct.times(scale), quadrature.times(scale), scale)
        }
    }

    proof fn operators_follow_the_model() {
    }

    fn zero() -> (r: Self) {
        Fixed { bits: 0 }
    }

    fn one() -> (r: Self) {
        Fixed { bits: 0x1_0000 }
    }

    fn half() -> (r: Self) {
        Fixed { bits: 32_768 }
    }

    fn three_halves() -> (r: Self) {
        Fixed { bits: 98_304 }
    }

    fn two_thirds() -> (r: Self) {
        Fixed { bits: 43_690 }
    }

    fn inv_sqrt_3() -> (r: Self) {
        Fixed { bits: 37_837 }
    }

    fn two_inv_sqrt_3() -> (r: Self) {
        Fixed { bits: 75_674 }
    }

    fn sqrt_3() -> (r: Self) {
        Fixed { bits: 113_512 }
    }

    fn less_than(self, other: Self) -> (r: bool) {
        self.bits < other.bits
    }

    fn equals(self, other: Self) -> (r: bool) {
        self.bits == other.bits
    }

    fn from_i32(value: i32) -> (r: Self) {
        Fixed::from_integer(value)
    }

    fn from_ratio(numerator: i32, denominator: i32) -> (r: Self) {
        Fixed::ratio(numerator, denominator)
    }

    fn trunc_to_i32(self) -> (r: i32) {
        self.integer()
    }

    fn trunc(self) -> (r: Self) {
        Fixed::from_integer(self.integer())
    }

    fn sqrt(self) -> (r: Self) {
        if self.bits <= 0 {
            proof {
                roots::lemma_isqrt_unique(0, 0);
            }
            return Fixed { bits: 0 };
        }
        let radicand: u64 = self.bits as u64 * 0x1_0000;
        let root: u64 = roots::integer_sqrt_u64(radicand);
        if root > i32::MAX as u64 {
            Fixed { bits: i32::MAX }
        } else {
            Fixed { bits: root as i32 }
        }
    }

    fn abs(self) -> (r: Self) {
        Fixed { bits: arith::sat_abs_i32(self.bits) }
    }

    fn abs_ceil_u32(self) -> (r: u32) {
        (arith::unsigned_abs_i32(self.bits) + 0xffff) / 0x1_0000
    }

    fn circular_remaining(limit: Self, direct: Self) -> (r: Self) {
        let radius: i64 = if limit.bits > 0 {
            limit.bits as i64
        } else {
            0
        };
        let magnitude: i64 = arith::sat_abs_i32(direct.bits) as i64;
        let d: i64 = if magnitude < radius {
            magnitude
        } else {
            radius
        };
        proof {
            assert(0 <= d * d <= radius * radius <= 0x7fff_ffff * 0x7fff_ffff) by (nonlinear_arith)
                requires
                    0 <= d <= radius <= 0x7fff_ffff,
            ;
            roots::lemma_isqrt_bound(radius * radius - d * d, 0x7fff_ffff);
        }
        let remaining: u64 = (radius * radius - d * d) as u64;
        Fixed { bits: roots::integer_sqrt_u64(remaining) as i32 }
    }

    fn magnitude_exceeds(direct: Self, quadrature: Self, limit: Self) -> (r: bool) {
        let d: i128 = arith::mul_i32_wide(direct.bits, direct.bits) as i128;
        let q: i128 = arith::mul_i32_wide(quadrature.bits, quadrature.bits) as i128;
        let radius: i32 = if limit.bits > 0 {
            limit.bits
        } else {
            0
        };
        d + q > arith::mul_i32_wide(radius, radius) as i128
    }

    fn limit_vector(direct: Self, quadrature: Self, limit: Self) -> (r: (Self, Self, Self)) {
        if !Self::magnitude_exceeds(direct, quadrature, limit) {
            return (direct, quadrature, Fixed { bits: 0x1_0000 });
        }
        if limit.bits <= 0 {
            return (Fixed { bits: 0 }, Fixed { bits: 0 }, Fixed { bits: 0 });
        }
        proof {
            if direct.bits == 0 && quadrature.bits == 0 {
                assert(direct.bits * direct.bits + quadrature.bits * quadrature.bits == 0)
                    by (nonlinear_arith)
                    requires
                        direct.bits == 0,
                        quadrature.bits == 0,
                ;
                assert(limit.bits * limit.bits >= 0) by (nonlinear_arith);
            }
        }
        let scale = Fixed {
            bits: limiting_scale(
                arith::unsigned_abs_i32(direct.bits),
                arith::unsigned_abs_i32(quadrature.bits),
                limit.bits as u32,
            ),
        };
        (direct * scale, quadrature * scale, scale)
    }
}

fn scale_component(value: u32, shift: Ghost<nat>, unit: u32) -> (r: u32)
    requires
        unit == quantum(shift@),
        1 <= unit <= 0x2_0000,
        value < 0x8000 * unit,
    ensures
        r == scaled_up(value as int, shift@),
        r <= 0x8000,
        value > 0 ==> r > 0,
        value <= 0x8000_0000 ==> value <= r * unit < value + unit,
{
    let raised: u32 = value.saturating_add(unit - 1);
    let r: u32 = raised / unit;
    proof {
        let v = value as int;
        let u = unit as int;
        assert(r * u <= raised < r * u + u) by (nonlinear_arith)
            requires
                r == raised as int / u,
                u >= 1,
                raised >= 0,
        ;
        if r > 0x8000 {
            assert(r * u >= 0x8001 * u) by (nonlinear_arith)
                requires
                    r >= 0x8001,
                    u >= 1,
            ;
        }
        if value > 0 && r == 0 {
            assert(r * u == 0) by (nonlinear_arith)
                requires
                    r == 0,
            ;
        }
    }
    r
}

/// Length of a vector of raw component magnitudes as `(length, shift)`: the
/// length counts units of `2^shift`.
///
/// As many fractional bits as possible are kept while each scaled component
/// stays within fifteen bits. Both components and the root are rounded upward,
/// which makes a scale derived from the result conservative.
pub fn conservative_magnitude(direct_bits: u32, quadrature_bits: u32) -> (r: (u32, u32))
    ensures
        r.0 == scaled_magnitude(direct_bits as int, quadrature_bits as int),
        r.1 == magnitude_shift(arith::max(direct_bits as int, quadrature_bits as int)),
        r.1 <= 17,
        direct_bits > 0 || quadrature_bits > 0 ==> r.0 > 0,
        r.0 <= 0x1_0000,
{
    let largest: u32 = if direct_bits >= quadrature_bits {
        direct_bits
    } else {
        quadrature_bits
    };
    let (shift, unit) = arith::halvings(largest, 0x8000);
    let direct: u32 = scale_component(direct_bits, Ghost(shift as nat), unit);
    let quadrature: u32 = scale_component(quadrature_bits, Ghost(shift as nat), unit);
    proof {
        let d = direct as int;
        let q = quadrature as int;
        assert(0 <= d * d <= 0x4000_0000) by (nonlinear_arith)
            requires
                0 <= d <= 0x8000,
        ;
        assert(0 <= q * q <= 0x4000_0000) by (nonlinear_arith)
            requires
                0 <= q <= 0x8000,
        ;
        if d > 0 {
            assert(d * d > 0) by (nonlinear_arith)
                requires
                    d > 0,
            ;
        }
        if q > 0 {
            assert(q * q > 0) by (nonlinear_arith)
                requires
                    q > 0,
            ;
        }
        roots::lemma_isqrt_ceil(d * d + q * q);
    }
    (roots::integer_sqrt_ceil_u32(direct * direct + quadrature * quadrature), shift)
}

fn limiting_scale(direct_bits: u32, quadrature_bits: u32, limit_bits: u32) -> (r: i32)
    requires
        direct_bits > 0 || quadrature_bits > 0,
    ensures
        r == vector_scale(direct_bits as int, quadrature_bits as int, limit_bits as int),
        0 <= r <= 0x1_0000,
{
    let (magnitude, shift) = conservative_magnitude(direct_bits, quadrature_bits);
    let (same_shift, unit) = arith::halvings(
        if direct_bits >= quadrature_bits {
            direct_bits
        } else {
            quadrature_bits
        },
        0x8000,
    );
    assert(0 < magnitude * unit <= 0x1_0000 * 0x2_0000) by (nonlinear_arith)
        requires
            0 < magnitude <= 0x1_0000,
            1 <= unit <= 0x2_0000,
    ;
    let denominator: u64 = magnitude as u64 * unit as u64;
    let numerator: u64 = limit_bits as u64 * 0x1_0000;
    let scale: u64 = numerator / denominator;
    if scale < 0x1_0000 {
        scale as i32
    } else {
        0x1_0000
    }
}

/// The estimated length covers the exact one: squared, it is at least the sum
/// of the squared components.
pub proof fn law_magnitude_covers_the_vector(direct: int, quadrature: int)
    requires
        0 <= direct <= 0x8000_0000,
        0 <= quadrature <= 0x8000_0000,
    ensures
        ({
            let shift = magnitude_shift(arith::max(direct, quadrature));
            let estimate = scaled_magnitude(direct, quadrature) * quantum(shift);
            direct * direct + quadrature * quadrature <= estimate * estimate
        }),
{
    let shift = magnitude_shift(arith::max(direct, quadrature));
    let u = quantum(shift);
    arith::lemma_shift_below(arith::max(direct, quadrature), 0x8000);
    lemma_scaled_up(direct, shift);
    lemma_scaled_up(quadrature, shift);
    let d = scaled_up(direct, shift);
    let q = scaled_up(quadrature, shift);
    assert(d * d + q * q >= 0) by (nonlinear_arith);
    roots::lemma_isqrt_ceil(d * d + q * q);
    let m = scaled_magnitude(direct, quadrature);
    assert(direct * direct + quadrature * quadrature <= (m * u) * (m * u)) by {
        assert(direct * direct <= (d * u) * (d * u)) by (nonlinear_arith)
            requires
                0 <= direct <= d * u,
        ;
        assert(quadrature * quadrature <= (q * u) * (q * u)) by (nonlinear_arith)
            requires
                0 <= quadrature <= q * u,
        ;
        assert((d * u) * (d * u) + (q * u) * (q * u) == (d * d + q * q) * (u * u))
            by (nonlinear_arith);
        assert((d * d + q * q) * (u * u) <= (m * m) * (u * u)) by (nonlinear_arith)
            requires
                d * d + q * q <= m * m,
        ;
        assert((m * m) * (u * u) == (m * u) * (m * u)) by (nonlinear_arith);
    }
}

/// The estimated length exceeds the exact one, rounded up, by at most three
/// units of its resolution.
pub proof fn law_magnitude_is_within_three_units(direct: int, quadrature: int)
    requires
        0 <= direct <= 0x8000_0000,
        0 <= quadrature <= 0x8000_0000,
    ensures
        ({
            let unit = quantum(magnitude_shift(arith::max(direct, quadrature)));
            let exact = roots::isqrt_ceil(direct * direct + quadrature * quadrature);
            scaled_magnitude(direct, quadrature) * unit <= exact + 3 * unit
        }),
{
    let shift = magnitude_shift(arith::max(direct, quadrature));
    let u = quantum(shift);
    arith::lemma_shift_below(arith::max(direct, quadrature), 0x8000);
    lemma_scaled_up(direct, shift);
    lemma_scaled_up(quadrature, shift);
    let d = scaled_up(direct, shift);
    let q = scaled_up(quadrature, shift);
    let sum = d * d + q * q;
    let exact_sum = direct * direct + quadrature * quadrature;
    assert(sum >= 0 && exact_sum >= 0) by (nonlinear_arith)
        requires
            sum == d * d + q * q,
            exact_sum == direct * direct + quadrature * quadrature,
    ;
    roots::lemma_isqrt_ceil(sum);
    roots::lemma_isqrt_ceil(exact_sum);
    let m = scaled_magnitude(direct, quadrature);
    let e = roots::isqrt_ceil(exact_sum);
    if sum > 0 {
        assert(direct <= e) by (nonlinear_arith)
            requires
                direct * direct + quadrature * quadrature <= e * e,
                0 <= direct,
                0 <= e,
        ;
        assert(quadrature <= e) by (nonlinear_arith)
            requires
                direct * direct + quadrature * quadrature <= e * e,
                0 <= quadrature,
                0 <= e,
        ;
        let t = (m - 1) * u;
        assert(t * t <= sum * (u * u)) by (nonlinear_arith)
            requires
                t == (m - 1) * u,
                (m - 1) * (m - 1) < sum,
        ;
        assert(sum * (u * u) == (d * u) * (d * u) + (q * u) * (q * u)) by (nonlinear_arith)
            requires
                sum == d * d + q * q,
        ;
        assert((d * u) * (d * u) <= (direct + u) * (direct + u)) by (nonlinear_arith)
            requires
                0 <= d * u <= direct + u,
        ;
        assert((q * u) * (q * u) <= (quadrature + u) * (quadrature + u)) by (nonlinear_arith)
            requires
                0 <= q * u <= quadrature + u,
        ;
        assert((direct + u) * (direct + u) == direct * direct + 2 * (u * direct) + u * u)
            by (nonlinear_arith);
        assert((quadrature + u) * (quadrature + u) == quadrature * quadrature + 2 * (u
            * quadrature) + u * u) by (nonlinear_arith);
        assert((e + 2 * u) * (e + 2 * u) == e * e + 4 * (u * e) + 4 * (u * u)) by (nonlinear_arith);
        assert(u * direct <= u * e && u * quadrature <= u * e && u * u >= 0) by (nonlinear_arith)
            requires
                direct <= e,
                quadrature <= e,
                1 <= u,
        ;
        assert(t <= e + 2 * u) by (nonlinear_arith)
            requires
                t * t <= (e + 2 * u) * (e + 2 * u),
                0 <= e + 2 * u,
        ;
        assert(m * u == t + u) by (nonlinear_arith)
            requires
                t == (m - 1) * u,
        ;
    } else {
        assert(m == 0) by {
            roots::lemma_isqrt_unique(0, 0);
        }
        assert(m * u == 0) by (nonlinear_arith)
            requires
                m == 0,
        ;
    }
}

proof fn lemma_scaled_up(value: int, shift: nat)
    requires
        0 <= value <= 0x8000_0000,
        1 <= quantum(shift) <= 0x2_0000,
    ensures
        0 <= scaled_up(value, shift),
        value <= scaled_up(value, shift) * quantum(shift) <= value + quantum(shift),
{
    let u = quantum(shift);
    let r = scaled_up(value, shift);
    assert(r * u <= value + u - 1 < r * u + u) by (nonlinear_arith)
        requires
            r == (value + u - 1) / u,
            u >= 1,
            value >= 0,
    ;
    assert(r >= 0) by (nonlinear_arith)
        requires
            r == (value + u - 1) / u,
            u >= 1,
            value >= 0,
    ;
}

proof fn lemma_scaled_component(component: int, scale: int)
    requires
        i32::MIN <= component <= i32::MAX,
        0 <= scale <= 0x1_0000,
    ensures
        ({
            let r = product_bits(component, scale);
            &&& arith::abs(r) * 0x1_0000 <= arith::abs(component) * scale
            &&& arith::abs(r * 0x1_0000 - component * scale) <= 0xffff
            &&& i32::MIN <= r <= i32::MAX
        }),
{
    let product = component * scale;
    assert(arith::abs(product) == arith::abs(component) * scale) by (nonlinear_arith)
        requires
            product == component * scale,
            scale >= 0,
    ;
    assert(arith::abs(product) <= arith::abs(component) * 0x1_0000) by (nonlinear_arith)
        requires
            arith::abs(product) == arith::abs(component) * scale,
            0 <= scale <= 0x1_0000,
    ;
    let whole = arith::abs(product) / 0x1_0000;
    assert(whole * 0x1_0000 <= arith::abs(product) <= whole * 0x1_0000 + 0xffff);
    assert(0 <= whole <= arith::abs(component));
    if product < 0 {
        assert(component < 0) by (nonlinear_arith)
            requires
                component * scale < 0,
                scale >= 0,
        ;
        assert(product_bits(component, scale) == -whole);
    } else {
        if component < 0 {
            assert(component * scale <= 0) by (nonlinear_arith)
                requires
                    component < 0,
                    scale >= 0,
            ;
        }
        assert(product_bits(component, scale) == whole);
    }
}

/// Limiting never leaves the circle, whatever the input: rounding is always
/// inward.
pub proof fn law_limited_vector_is_inside_the_circle(
    direct: Fixed,
    quadrature: Fixed,
    limit: Fixed,
)
    ensures
        ({
            let (d, q, scale) = Fixed::limited_vector(direct, quadrature, limit);
            !Fixed::outside_circle(d, q, limit)
        }),
{
    if Fixed::outside_circle(direct, quadrature, limit) && limit.bits > 0 {
        let x = arith::abs(direct.bits as int);
        let y = arith::abs(quadrature.bits as int);
        let l = limit.bits as int;
        let u = quantum(magnitude_shift(arith::max(x, y)));
        let m = scaled_magnitude(x, y);
        lemma_scale_below_one(direct, quadrature, limit);
        let s = vector_scale(x, y, l);
        law_magnitude_covers_the_vector(x, y);
        let e = m * u;
        assert(s * e <= l * 0x1_0000) by (nonlinear_arith)
            requires
                s <= l * 0x1_0000 / e,
                e > 0,
                l > 0,
        ;
        lemma_scaled_component(direct.bits as int, s);
        lemma_scaled_component(quadrature.bits as int, s);
        let a = product_bits(direct.bits as int, s);
        let b = product_bits(quadrature.bits as int, s);
        let p = arith::abs(a);
        let q = arith::abs(b);
        assert(a * a == p * p && b * b == q * q) by (nonlinear_arith)
            requires
                p == a || p == -a,
                q == b || q == -b,
        ;
        assert((p * 0x1_0000) * (p * 0x1_0000) <= (x * s) * (x * s)) by (nonlinear_arith)
            requires
                0 <= p * 0x1_0000 <= x * s,
        ;
        assert((q * 0x1_0000) * (q * 0x1_0000) <= (y * s) * (y * s)) by (nonlinear_arith)
            requires
                0 <= q * 0x1_0000 <= y * s,
        ;
        assert((x * s) * (x * s) + (y * s) * (y * s) <= (e * s) * (e * s)) by (nonlinear_arith)
            requires
                x * x + y * y <= e * e,
        ;
        assert((e * s) * (e * s) <= (l * 0x1_0000) * (l * 0x1_0000)) by (nonlinear_arith)
            requires
                0 <= s * e <= l * 0x1_0000,
        ;
        assert(p * p + q * q <= l * l) by (nonlinear_arith)
            requires
                (p * 0x1_0000) * (p * 0x1_0000) + (q * 0x1_0000) * (q * 0x1_0000) <= (l * 0x1_0000)
                    * (l * 0x1_0000),
        ;
    } else if Fixed::outside_circle(direct, quadrature, limit) {
        assert(fixed(0).bits * fixed(0).bits == 0) by (nonlinear_arith)
            requires
                fixed(0).bits == 0,
        ;
        let radius = arith::max(limit.bits as int, 0);
        assert(radius * radius == 0) by (nonlinear_arith)
            requires
                radius == 0,
        ;
    }
}

/// A vector outside the circle is scaled by less than one, and both components
/// by the same factor up to rounding: the cross product of input and output is
/// at most the sum of the input magnitudes.
pub proof fn law_limited_vector_keeps_its_direction(
    direct: Fixed,
    quadrature: Fixed,
    limit: Fixed,
)
    requires
        Fixed::outside_circle(direct, quadrature, limit),
    ensures
        ({
            let (d, q, scale) = Fixed::limited_vector(direct, quadrature, limit);
            &&& 0 <= scale.bits < 0x1_0000
            &&& arith::abs(d.bits * quadrature.bits - q.bits * direct.bits) <= arith::abs(
                direct.bits as int,
            ) + arith::abs(quadrature.bits as int)
        }),
{
    if limit.bits > 0 {
        lemma_scale_below_one(direct, quadrature, limit);
        let x = direct.bits as int;
        let y = quadrature.bits as int;
        let s = vector_scale(arith::abs(x), arith::abs(y), limit.bits as int);
        lemma_scaled_component(x, s);
        lemma_scaled_component(y, s);
        let a = product_bits(x, s);
        let b = product_bits(y, s);
        let ra = a * 0x1_0000 - x * s;
        let rb = b * 0x1_0000 - y * s;
        assert(0x1_0000 * (a * y - b * x) == ra * y - rb * x) by (nonlinear_arith)
            requires
                ra == a * 0x1_0000 - x * s,
                rb == b * 0x1_0000 - y * s,
        ;
        assert(arith::abs(ra * y) <= 0xffff * arith::abs(y)) by (nonlinear_arith)
            requires
                arith::abs(ra) <= 0xffff,
        ;
        assert(arith::abs(rb * x) <= 0xffff * arith::abs(x)) by (nonlinear_arith)
            requires
                arith::abs(rb) <= 0xffff,
        ;
    } else {
        assert(arith::abs(0 * quadrature.bits - 0 * direct.bits) == 0);
    }
}

proof fn lemma_scale_below_one(direct: Fixed, quadrature: Fixed, limit: Fixed)
    requires
        Fixed::outside_circle(direct, quadrature, limit),
        limit.bits > 0,
    ensures
        ({
            let x = arith::abs(direct.bits as int);
            let y = arith::abs(quadrature.bits as int);
            let e = scaled_magnitude(x, y) * quantum(magnitude_shift(arith::max(x, y)));
            &&& e > limit.bits
            &&& 0 <= vector_scale(x, y, limit.bits as int) < 0x1_0000
            &&& vector_scale(x, y, limit.bits as int) <= limit.bits * 0x1_0000 / e
        }),
{
    let x = arith::abs(direct.bits as int);
    let y = arith::abs(quadrature.bits as int);
    let l = limit.bits as int;
    let u = quantum(magnitude_shift(arith::max(x, y)));
    let e = scaled_magnitude(x, y) * u;
    law_magnitude_covers_the_vector(x, y);
    arith::lemma_shift_below(arith::max(x, y), 0x8000);
    assert(x * x == direct.bits * direct.bits) by (nonlinear_arith)
        requires
            x == direct.bits || x == -direct.bits,
    ;
    assert(y * y == quadrature.bits * quadrature.bits) by (nonlinear_arith)
        requires
            y == quadrature.bits || y == -quadrature.bits,
    ;
    let shift = magnitude_shift(arith::max(x, y));
    let d = scaled_up(x, shift);
    let q = scaled_up(y, shift);
    assert(d * d + q * q >= 0) by (nonlinear_arith);
    roots::lemma_isqrt_ceil(d * d + q * q);
    assert(e >= 0) by (nonlinear_arith)
        requires
            e == scaled_magnitude(x, y) * u,
            scaled_magnitude(x, y) >= 0,
            u >= 1,
    ;
    assert(e > l) by (nonlinear_arith)
        requires
            l * l < x * x + y * y,
            x * x + y * y <= e * e,
            0 <= e,
            0 < l,
    ;
    assert(0 <= l * 0x1_0000 / e < 0x1_0000) by (nonlinear_arith)
        requires
            0 < l < e,
    ;
}

/// The constants are what their names say, to the last bit or the one before it:
/// halves and thirds of one, and the square roots by their squares.
pub proof fn law_constants_have_their_values()
    ensures
        Fixed::zero_value().bits == 0,
        Fixed::one_value().bits == 0x1_0000,
        2 * Fixed::half_value().bits == Fixed::one_value().bits,
        2 * Fixed::three_halves_value().bits == 3 * Fixed::one_value().bits,
        ({
            let two_thirds = Fixed::two_thirds_value().bits as int;
            3 * two_thirds <= 0x2_0000 < 3 * (two_thirds + 1)
        }),
        ({
            let root = Fixed::sqrt_3_value().bits as int;
            (root - 1) * (root - 1) <= 3 * 0x1_0000_0000 < (root + 1) * (root + 1)
        }),
        ({
            let inverse = Fixed::inv_sqrt_3_value().bits as int;
            3 * (inverse * inverse) <= 0x1_0000_0000 < 3 * ((inverse + 1) * (inverse + 1))
        }),
        ({
            let double = Fixed::two_inv_sqrt_3_value().bits as int;
            3 * (double * double) <= 4 * 0x1_0000_0000 < 3 * ((double + 2) * (double + 2))
        }),
{
    let root = Fixed::sqrt_3_value().bits as int;
    assert((root - 1) * (root - 1) <= 3 * 0x1_0000_0000 < (root + 1) * (root + 1))
        by (nonlinear_arith)
        requires
            root == 113_512,
    ;
    let inverse = Fixed::inv_sqrt_3_value().bits as int;
    assert(3 * (inverse * inverse) <= 0x1_0000_0000 < 3 * ((inverse + 1) * (inverse + 1)))
        by (nonlinear_arith)
        requires
            inverse == 37_837,
    ;
    let double = Fixed::two_inv_sqrt_3_value().bits as int;
    assert(3 * (double * double) <= 4 * 0x1_0000_0000 < 3 * ((double + 2) * (double + 2)))
        by (nonlinear_arith)
        requires
            double == 75_674,
    ;
}

/// Sums and differences are exact inside the number range, and products and
/// ratios lose less than one unit there, toward zero.
pub proof fn law_arithmetic_is_exact_to_a_unit(a: Fixed, b: Fixed)
    ensures
        i32::MIN <= a.bits + b.bits <= i32::MAX ==> a.plus(b).bits == a.bits + b.bits,
        i32::MIN <= a.bits - b.bits <= i32::MAX ==> a.minus(b).bits == a.bits - b.bits,
        a.bits > i32::MIN ==> a.negated().bits == -a.bits,
        -0x7fff_ffff_0000 <= a.bits * b.bits <= 0x7fff_ffff_0000 ==> arith::abs(
            0x1_0000 * a.times(b).bits - a.bits * b.bits,
        ) < 0x1_0000,
        a.bits * b.bits > 0x7fff_ffff_0000 ==> a.times(b).bits == i32::MAX,
        a.bits * b.bits < -0x8000_0000_0000 ==> a.times(b).bits == i32::MIN,
        a.below(b) <==> a.bits < b.bits,
        a.same(b) <==> a.bits == b.bits,
{
}

/// Conversions agree with one another: whole numbers come back, truncation drops
/// the fraction toward zero, and the ceiling of a magnitude is the next whole
/// number.
pub proof fn law_conversions_agree(value: i32, scalar: Fixed)
    ensures
        -0x8000 <= value <= 0x7fff ==> Fixed::of_integer(value).whole() == value,
        -0x8000 <= value <= 0x7fff ==> Fixed::of_integer(value).bits == 0x1_0000 * value,
        scalar.truncated().bits == 0x1_0000 * scalar.whole(),
        arith::abs(scalar.bits - 0x1_0000 * scalar.whole()) < 0x1_0000,
        scalar.bits >= 0 ==> 0 <= 0x1_0000 * scalar.whole() <= scalar.bits,
        scalar.bits <= 0 ==> scalar.bits <= 0x1_0000 * scalar.whole() <= 0,
        scalar.bits > i32::MIN ==> scalar.absolute().bits == arith::abs(scalar.bits as int),
        ({
            let ceiling = scalar.absolute_ceiling() as int;
            0x1_0000 * (ceiling - 1) < arith::abs(scalar.bits as int) <= 0x1_0000 * ceiling
        }),
{
}

/// A square root is the largest number whose square is not more than its
/// argument, on the scale of the numbers; below zero it is zero.
pub proof fn law_root_is_the_inverse_of_the_square(scalar: Fixed)
    ensures
        ({
            let root = scalar.root().bits as int;
            &&& scalar.bits <= 0 ==> root == 0
            &&& scalar.bits > 0 ==> root * root <= 0x1_0000 * scalar.bits < (root + 1) * (root + 1)
            &&& root >= 0
        }),
{
    let radicand = arith::max(scalar.bits as int, 0) * 0x1_0000;
    roots::lemma_isqrt(radicand);
    roots::lemma_isqrt_bound(radicand, 0x7fff_ffff);
    if scalar.bits <= 0 {
        roots::lemma_isqrt_unique(0, 0);
    }
}

/// What remains on the circle completes it: together with the direct component
/// it reaches the radius, rounded down, and nothing remains beside a direct
/// component that fills the circle.
pub proof fn law_remainder_completes_the_circle(limit: Fixed, direct: Fixed)
    requires
        limit.bits >= 0,
    ensures
        ({
            let rest = Fixed::remaining_on_circle(limit, direct).bits as int;
            let d = arith::abs(direct.bits as int);
            let radius = limit.bits as int;
            &&& rest >= 0
            &&& d <= radius ==> rest * rest + d * d <= radius * radius < (rest + 1) * (rest + 1) + d
                * d
            &&& d >= radius ==> rest == 0
        }),
{
    let radius = limit.bits as int;
    let d = arith::min(arith::sat_i32(arith::abs(direct.bits as int)), radius);
    assert(0 <= d * d <= radius * radius <= 0x7fff_ffff * 0x7fff_ffff) by (nonlinear_arith)
        requires
            0 <= d <= radius <= 0x7fff_ffff,
    ;
    roots::lemma_isqrt(radius * radius - d * d);
    roots::lemma_isqrt_bound(radius * radius - d * d, 0x7fff_ffff);
    if d == radius {
        roots::lemma_isqrt_unique(0, 0);
    }
}

/// Limiting takes no more than it must: a vector inside the circle is untouched,
/// and one outside keeps at least its length on the circle less the resolution
/// of the length estimate, which makes the common scale the ratio of radius and
/// length to within that resolution.
pub proof fn law_limiting_is_tight(direct: Fixed, quadrature: Fixed, limit: Fixed)
    requires
        limit.bits > 0,
    ensures
        ({
            let (d, q, scale) = Fixed::limited_vector(direct, quadrature, limit);
            let x = arith::abs(direct.bits as int);
            let y = arith::abs(quadrature.bits as int);
            let unit = quantum(magnitude_shift(arith::max(x, y)));
            let length = roots::isqrt_ceil(x * x + y * y);
            &&& !Fixed::outside_circle(direct, quadrature, limit) ==> d == direct && q == quadrature
                && scale.bits == 0x1_0000
            &&& Fixed::outside_circle(direct, quadrature, limit) ==> {
                &&& (scale.bits + 1) * (length + 3 * unit) > 0x1_0000 * limit.bits
                &&& scale.bits * length <= 0x1_0000 * limit.bits
                &&& arith::abs(0x1_0000 * d.bits - direct.bits * scale.bits) <= 0xffff
                &&& arith::abs(0x1_0000 * q.bits - quadrature.bits * scale.bits) <= 0xffff
            }
        }),
{
    if Fixed::outside_circle(direct, quadrature, limit) {
        let x = arith::abs(direct.bits as int);
        let y = arith::abs(quadrature.bits as int);
        let l = limit.bits as int;
        let u = quantum(magnitude_shift(arith::max(x, y)));
        let e = scaled_magnitude(x, y) * u;
        lemma_scale_below_one(direct, quadrature, limit);
        law_magnitude_covers_the_vector(x, y);
        law_magnitude_is_within_three_units(x, y);
        let s = vector_scale(x, y, l);
        assert(s == l * 0x1_0000 / e);
        assert(s * e <= l * 0x1_0000 < (s + 1) * e) by (nonlinear_arith)
            requires
                s == l * 0x1_0000 / e,
                e > 0,
        ;
        let sum = x * x + y * y;
        assert(sum >= 0) by (nonlinear_arith)
            requires
                sum == x * x + y * y,
        ;
        roots::lemma_isqrt_ceil(sum);
        let length = roots::isqrt_ceil(sum);
        assert(l * l > 0) by (nonlinear_arith)
            requires
                l > 0,
        ;
        assert(x * x == direct.bits * direct.bits && y * y == quadrature.bits * quadrature.bits)
            by (nonlinear_arith)
            requires
                x == direct.bits || x == -direct.bits,
                y == quadrature.bits || y == -quadrature.bits,
        ;
        assert(length <= e) by (nonlinear_arith)
            requires
                sum <= e * e,
                (length - 1) * (length - 1) < sum,
                e > 0,
        ;
        assert(s * length <= s * e) by (nonlinear_arith)
            requires
                length <= e,
                0 <= s,
        ;
        assert((s + 1) * e <= (s + 1) * (length + 3 * u)) by (nonlinear_arith)
            requires
                e <= length + 3 * u,
                0 <= s,
        ;
        lemma_scaled_component(direct.bits as int, s);
        lemma_scaled_component(quadrature.bits as int, s);
    }
}

/// A vector lies outside a circle exactly if it is longer than the radius, and
/// outside one without a radius unless it is null.
pub proof fn law_circle_is_measured_by_length(direct: Fixed, quadrature: Fixed, limit: Fixed)
    ensures
        limit.bits >= 0 ==> (Fixed::outside_circle(direct, quadrature, limit) <==> direct.bits
            * direct.bits + quadrature.bits * quadrature.bits > limit.bits * limit.bits),
        limit.bits <= 0 ==> (Fixed::outside_circle(direct, quadrature, limit) <==> direct.bits != 0
            || quadrature.bits != 0),
{
    let x = direct.bits as int;
    let y = quadrature.bits as int;
    assert(x * x + y * y > 0 <==> x != 0 || y != 0) by (nonlinear_arith);
    assert(0int * 0int == 0);
}

/// A ratio is the quotient of its operands, truncated to the resolution.
pub proof fn law_ratio_is_the_quotient(numerator: i32, denominator: i32)
    requires
        denominator > 0,
        -0x8000 * denominator < numerator < 0x8000 * denominator,
    ensures
        arith::abs(denominator * Fixed::of_ratio(numerator, denominator).bits - 0x1_0000 * numerator)
            < denominator,
{
    let n = numerator * 0x1_0000;
    let d = denominator as int;
    let size = arith::abs(n);
    let q = size / d;
    assert(0 <= q && d * q <= size < d * q + d) by (nonlinear_arith)
        requires
            q == size / d,
            d > 0,
            size >= 0,
    ;
    assert(q < 0x8000_0000) by (nonlinear_arith)
        requires
            d * q <= size,
            size < 0x8000_0000 * d,
            d > 0,
    ;
    assert(d * -q == -(d * q)) by (nonlinear_arith);
}

} // verus!
