//! Electrical-angle representation and trigonometry backends.
use vstd::arithmetic::power2::*;
use vstd::prelude::*;

use super::numeric::{Fixed, Scalar};
use crate::arith;
use crate::foc::numeric;

verus! {

/// Q0.32 turns: one complete electrical revolution is `u32::MAX + 1`.
pub type Turns = u32;

/// Sine and cosine of an angle in some representation.
pub trait SinCos<N: Scalar> {
    type Angle: Copy;

    /// What [`SinCos::sin_cos`] computes.
    spec fn sin_cos_of(angle: Self::Angle) -> (N, N);

    fn sin_cos(angle: Self::Angle) -> (r: (N, N))
        ensures
            r == Self::sin_cos_of(angle),
    ;
}

/// Software integer CORDIC for Q0.32-turn angles.
#[derive(Clone, Copy, Debug, Default)]
pub struct CordicSinCos;

impl SinCos<Fixed> for CordicSinCos {
    type Angle = Turns;

    open spec fn sin_cos_of(angle: Turns) -> (Fixed, Fixed) {
        let (sin, cos) = sin_cos_turns(angle as int);
        (
            numeric::fixed(arith::trunc_div(sin, 0x8000)),
            numeric::fixed(arith::trunc_div(cos, 0x8000)),
        )
    }

    fn sin_cos(angle: Turns) -> (r: (Fixed, Fixed)) {
        let (sin, cos) = sin_cos_q31(angle);
        (Fixed::from_q31(sin), Fixed::from_q31(cos))
    }
}

/// Reciprocal of the CORDIC gain in Q2.30.
pub const CORDIC_GAIN_INV_Q30: i32 = 652_032_874;

/// `atan(2^-i)` in Q0.32 turns.
pub const CORDIC_ATAN_TURNS: [i32; 16] = [
    536_870_912,
    316_933_406,
    167_458_907,
    85_004_756,
    42_667_331,
    21_354_465,
    10_679_838,
    5_340_191,
    2_670_129,
    1_335_085,
    667_544,
    333_772,
    166_886,
    83_443,
    41_722,
    20_861,
];

/// State `(x, y, z)` after rotating the unit vector `steps` times toward the
/// angle `z`: each step turns by `atan(2^-i)` in the direction that brings the
/// residual angle to zero.
pub open spec fn cordic(angle: int, steps: nat) -> (int, int, int)
    decreases steps,
{
    if steps == 0 {
        (CORDIC_GAIN_INV_Q30 as int, 0, angle)
    } else {
        let i = (steps - 1) as nat;
        let (x, y, z) = cordic(angle, i);
        let unit = pow2(i) as int;
        let atan = CORDIC_ATAN_TURNS@[i as int] as int;
        if z >= 0 {
            (x - y / unit, y + x / unit, z - atan)
        } else {
            (x + y / unit, y - x / unit, z + atan)
        }
    }
}

/// Q1.31 sine and cosine of an angle in the first quadrant.
pub open spec fn first_quadrant(angle: int) -> (int, int) {
    let (x, y, z) = cordic(angle, 16);
    (arith::sat_i32(2 * y), arith::sat_i32(2 * x))
}

/// Q1.31 sine and cosine of an angle in Q0.32 turns.
pub open spec fn sin_cos_turns(angle: int) -> (int, int) {
    let (sin, cos) = first_quadrant(angle % 0x4000_0000);
    let quadrant = angle / 0x4000_0000;
    if quadrant == 0 {
        (sin, cos)
    } else if quadrant == 1 {
        (cos, -sin)
    } else if quadrant == 2 {
        (-sin, -cos)
    } else {
        (-cos, sin)
    }
}

/// Largest value that either vector component can have before step `i`.
spec fn component_bound(i: int) -> int {
    if i <= 1 {
        652_032_874
    } else if i == 2 {
        978_049_312
    } else if i == 3 {
        1_222_561_641
    } else if i == 4 {
        1_375_381_848
    } else if i == 5 {
        1_461_343_215
    } else if i == 6 {
        1_507_010_192
    } else if i == 7 {
        1_530_557_228
    } else {
        1_542_514_708 + (i - 8) * 7_000_000
    }
}

/// Smallest value that either vector component can have before step `i`.
spec fn component_floor(i: int) -> int {
    if i <= 0 {
        0
    } else {
        2 * 652_032_874 - component_bound(i)
    }
}

proof fn lemma_step_is_small(value: int, i: int)
    requires
        1 <= i < 16,
        -component_bound(i) <= value <= component_bound(i),
    ensures
        -(component_bound(i + 1) - component_bound(i)) <= value / (pow2(i as nat) as int)
            <= component_bound(i + 1) - component_bound(i),
{
    lemma2_to64();
    if i == 1 {
        lemma_quotient_range(value, 2, 326_016_438);
    } else if i == 2 {
        lemma_quotient_range(value, 4, 244_512_329);
    } else if i == 3 {
        lemma_quotient_range(value, 8, 152_820_207);
    } else if i == 4 {
        lemma_quotient_range(value, 16, 85_961_367);
    } else if i == 5 {
        lemma_quotient_range(value, 32, 45_666_977);
    } else if i == 6 {
        lemma_quotient_range(value, 64, 23_547_036);
    } else if i == 7 {
        lemma_quotient_range(value, 128, 11_957_480);
    } else if i == 8 {
        lemma_quotient_range(value, 256, 7_000_000);
    } else if i == 9 {
        lemma_quotient_range(value, 512, 7_000_000);
    } else if i == 10 {
        lemma_quotient_range(value, 1_024, 7_000_000);
    } else if i == 11 {
        lemma_quotient_range(value, 2_048, 7_000_000);
    } else if i == 12 {
        lemma_quotient_range(value, 4_096, 7_000_000);
    } else if i == 13 {
        lemma_quotient_range(value, 8_192, 7_000_000);
    } else if i == 14 {
        lemma_quotient_range(value, 16_384, 7_000_000);
    } else {
        lemma_quotient_range(value, 32_768, 7_000_000);
    }
}

proof fn lemma_quotient_range(value: int, unit: int, range: int)
    by (nonlinear_arith)
    requires
        unit > 0,
        -(range * unit) <= value <= range * unit,
    ensures
        -range <= value / unit <= range,
{
}

proof fn lemma_cordic_range(angle: int, steps: nat)
    requires
        0 <= angle < 0x4000_0000,
        steps <= 16,
    ensures
        ({
            let (x, y, z) = cordic(angle, steps);
            &&& component_floor(steps as int) <= x <= component_bound(steps as int)
            &&& component_floor(steps as int) <= y <= component_bound(steps as int)
            &&& steps == 0 ==> y == 0
            &&& -536_870_912 <= z <= 1_073_741_823
            &&& -component_bound(steps as int) <= component_floor(steps as int)
        }),
    decreases steps,
{
    lemma2_to64();
    if steps > 0 {
        let i = (steps - 1) as nat;
        lemma_cordic_range(angle, i);
        let (x, y, z) = cordic(angle, i);
        assert(0 < CORDIC_ATAN_TURNS@[i as int] <= 536_870_912);
        if i >= 1 {
            lemma_step_is_small(x, i as int);
            lemma_step_is_small(y, i as int);
        }
    }
}

/// 16-iteration integer CORDIC returning Q1.31 sine and cosine.
pub fn sin_cos_q31(angle: Turns) -> (r: (i32, i32))
    ensures
        (r.0 as int, r.1 as int) == sin_cos_turns(angle as int),
{
    proof {
        arith::lemma_u32(angle);
    }
    let quadrant: u32 = angle >> 30;
    let residual: u32 = angle & 0x3fff_ffff;
    let mut z: i32 = residual as i32;
    let mut x: i32 = CORDIC_GAIN_INV_Q30;
    let mut y: i32 = 0;
    let mut step: usize = 0;
    let mut unit: i32 = 1;
    proof {
        lemma2_to64();
    }
    while step < 16
        invariant
            step <= 16,
            residual < 0x4000_0000,
            unit == pow2(step as nat),
            cordic(residual as int, step as nat) == (x as int, y as int, z as int),
        decreases 16 - step,
    {
        proof {
            lemma2_to64();
            lemma_cordic_range(residual as int, step as nat);
            lemma_cordic_range(residual as int, (step + 1) as nat);
            lemma_pow2_unfold((step + 1) as nat);
            if step < 16 {
                lemma_pow2_strictly_increases(step as nat, 16);
            }
        }
        let x_shifted: i32 = arith::floor_div_i32(x, unit);
        let y_shifted: i32 = arith::floor_div_i32(y, unit);
        let atan: i32 = CORDIC_ATAN_TURNS[step];
        let ghost next = cordic(residual as int, (step + 1) as nat);
        assert(next == if z >= 0 {
            (x - y_shifted, y + x_shifted, z - atan)
        } else {
            (x + y_shifted, y - x_shifted, z + atan)
        });
        if z >= 0 {
            x = x - y_shifted;
            y = y + x_shifted;
            z = z - atan;
        } else {
            x = x + y_shifted;
            y = y - x_shifted;
            z = z + atan;
        }
        step = step + 1;
        unit = unit * 2;
    }
    proof {
        lemma_cordic_range(residual as int, 16);
    }
    let sin: i32 = arith::sat_i64_to_i32(2 * (y as i64));
    let cos: i32 = arith::sat_i64_to_i32(2 * (x as i64));
    if quadrant == 0 {
        (sin, cos)
    } else if quadrant == 1 {
        (cos, -sin)
    } else if quadrant == 2 {
        (-sin, -cos)
    } else {
        (-cos, sin)
    }
}

/// Smallest squared length of the vector before step `i`.
spec fn norm_floor(i: int) -> int {
    if i <= 0 {
        425_146_868_776_699_876
    } else if i == 1 {
        850_293_720_373_530_567
    } else if i == 2 {
        1_062_867_133_287_044_023
    } else if i == 3 {
        1_129_296_311_937_615_089
    } else if i == 4 {
        1_146_941_549_631_771_139
    } else if i == 5 {
        1_151_421_772_880_151_060
    } else if i == 6 {
        1_152_546_191_025_360_147
    } else if i == 7 {
        1_152_827_557_192_909_262
    } else if i == 8 {
        1_152_897_903_023_122_652
    } else if i == 9 {
        1_152_915_477_669_166_295
    } else if i == 10 {
        1_152_919_858_512_817_271
    } else if i == 11 {
        1_152_920_940_843_006_024
    } else if i == 12 {
        1_152_921_198_540_909_371
    } else if i == 13 {
        1_152_921_250_080_498_679
    } else if i == 14 {
        1_152_921_250_080_494_885
    } else if i == 15 {
        1_152_921_237_195_592_047
    } else {
        1_152_921_221_089_464_436
    }
}

/// Largest squared length of the vector before step `i`.
spec fn norm_bound(i: int) -> int {
    if i <= 0 {
        425_146_868_776_699_876
    } else if i == 1 {
        850_293_754_733_268_937
    } else if i == 2 {
        1_062_867_210_596_455_356
    } else if i == 3 {
        1_129_296_428_438_603_000
    } else if i == 4 {
        1_146_941_702_312_825_356
    } else if i == 5 {
        1_151_421_960_517_354_015
    } else if i == 6 {
        1_152_546_413_205_540_928
    } else if i == 7 {
        1_152_827_813_787_071_622
    } else if i == 8 {
        1_152_898_193_992_684_646
    } else if i == 9 {
        1_152_915_803_002_906_502
    } else if i == 10 {
        1_152_920_218_207_536_898
    } else if i == 11 {
        1_152_921_334_897_807_053
    } else if i == 12 {
        1_152_921_626_955_542_720
    } else if i == 13 {
        1_152_921_712_854_895_933
    } else if i == 14 {
        1_152_921_747_214_637_405
    } else if i == 15 {
        1_152_921_768_689_474_789
    } else {
        1_152_921_786_943_086_043
    }
}

/// A step turns the vector and lengthens it by `sqrt(1 + 4^-i)`, up to what the
/// shifts cut off.
proof fn lemma_step_lengthens(
    x: int,
    y: int,
    unit: int,
    sign: int,
    next_x: int,
    next_y: int,
    error: int,
)
    requires
        1 <= unit <= 0x8000,
        -1_700_000_000 <= x <= 1_700_000_000,
        -1_700_000_000 <= y <= 1_700_000_000,
        sign == 1 || sign == -1,
        next_x == x - sign * (y / unit),
        next_y == y + sign * (x / unit),
        error == unit * unit * (next_x * next_x + next_y * next_y) - (unit * unit + 1) * (x * x + y
            * y),
    ensures
        -(unit * unit * 0x4_0000_0000) <= error <= unit * unit * 0x4_0000_0000,
{
    let cut_x = x % unit;
    let cut_y = y % unit;
    let turned_x = unit * x - sign * y;
    let turned_y = unit * y + sign * x;
    vstd::arithmetic::div_mod::lemma_fundamental_div_mod(x, unit);
    vstd::arithmetic::div_mod::lemma_fundamental_div_mod(y, unit);
    assert(unit * next_x == turned_x + sign * cut_y) by (nonlinear_arith)
        requires
            next_x == x - sign * (y / unit),
            turned_x == unit * x - sign * y,
            y == unit * (y / unit) + cut_y,
    ;
    assert(unit * next_y == turned_y - sign * cut_x) by (nonlinear_arith)
        requires
            next_y == y + sign * (x / unit),
            turned_y == unit * y + sign * x,
            x == unit * (x / unit) + cut_x,
    ;
    let a = unit * next_x;
    let b = unit * next_y;
    assert(unit * unit * (next_x * next_x + next_y * next_y) == a * a + b * b) by (nonlinear_arith)
        requires
            a == unit * next_x,
            b == unit * next_y,
    ;
    let long_x = unit * x;
    let long_y = unit * y;
    let square = unit * unit;
    assert(turned_x * turned_x == long_x * long_x - 2 * sign * (long_x * y) + y * y)
        by (nonlinear_arith)
        requires
            turned_x == long_x - sign * y,
            sign * sign == 1,
    ;
    assert(turned_y * turned_y == long_y * long_y + 2 * sign * (long_y * x) + x * x)
        by (nonlinear_arith)
        requires
            turned_y == long_y + sign * x,
            sign * sign == 1,
    ;
    assert(long_x * y == long_y * x) by (nonlinear_arith)
        requires
            long_x == unit * x,
            long_y == unit * y,
    ;
    assert(long_x * long_x + long_y * long_y == square * (x * x + y * y)) by (nonlinear_arith)
        requires
            long_x == unit * x,
            long_y == unit * y,
            square == unit * unit,
    ;
    let before = x * x + y * y;
    assert((square + 1) * before == square * before + before) by (nonlinear_arith);
    assert(square >= 1) by (nonlinear_arith)
        requires
            unit >= 1,
            square == unit * unit,
    ;
    assert(a * a == turned_x * turned_x + 2 * sign * (turned_x * cut_y) + cut_y * cut_y)
        by (nonlinear_arith)
        requires
            a == turned_x + sign * cut_y,
            sign * sign == 1,
    ;
    assert(b * b == turned_y * turned_y - 2 * sign * (turned_y * cut_x) + cut_x * cut_x)
        by (nonlinear_arith)
        requires
            b == turned_y - sign * cut_x,
            sign * sign == 1,
    ;
    lemma_cut_is_small(turned_x, cut_y, x, y, unit, -sign);
    lemma_cut_is_small(turned_y, cut_x, y, x, unit, sign);
    assert(square * 0x4_0000_0000 >= 4 * (square * 3_400_000_000) + 2 * square) by (nonlinear_arith)
        requires
            square >= 1,
    ;
}

proof fn lemma_cut_is_small(turned: int, cut: int, main: int, side: int, unit: int, sign: int)
    requires
        1 <= unit,
        -1_700_000_000 <= main <= 1_700_000_000,
        -1_700_000_000 <= side <= 1_700_000_000,
        sign == 1 || sign == -1,
        turned == unit * main + sign * side,
        0 <= cut < unit,
    ensures
        -(unit * unit * 3_400_000_000) <= turned * cut <= unit * unit * 3_400_000_000,
        0 <= cut * cut <= unit * unit,
{
    assert(-(unit * 3_400_000_000) <= turned <= unit * 3_400_000_000) by (nonlinear_arith)
        requires
            1 <= unit,
            -1_700_000_000 <= main <= 1_700_000_000,
            -1_700_000_000 <= side <= 1_700_000_000,
            sign == 1 || sign == -1,
            turned == unit * main + sign * side,
    ;
    let reach = unit * 3_400_000_000;
    assert(-(reach * unit) <= turned * cut <= reach * unit) by (nonlinear_arith)
        requires
            -reach <= turned <= reach,
            0 <= cut < unit,
            0 <= reach,
    ;
    assert(reach * unit == unit * unit * 3_400_000_000) by (nonlinear_arith)
        requires
            reach == unit * 3_400_000_000,
    ;
    assert(0 <= cut * cut <= unit * unit) by (nonlinear_arith)
        requires
            0 <= cut < unit,
    ;
}

proof fn lemma_cordic_length(angle: int, steps: nat)
    requires
        0 <= angle < 0x4000_0000,
        steps <= 16,
    ensures
        ({
            let (x, y, z) = cordic(angle, steps);
            norm_floor(steps as int) <= x * x + y * y <= norm_bound(steps as int)
        }),
    decreases steps,
{
    if steps == 0 {
        let (x, y, z) = cordic(angle, 0);
        assert(x * x + y * y == 425_146_868_776_699_876) by (nonlinear_arith)
            requires
                x == 652_032_874,
                y == 0,
        ;
    } else {
        let i = (steps - 1) as nat;
        lemma_cordic_length(angle, i);
        lemma_cordic_range(angle, i);
        let (x, y, z) = cordic(angle, i);
        let (next_x, next_y, next_z) = cordic(angle, steps);
        let unit = pow2(i) as int;
        let sign: int = if z >= 0 {
            1
        } else {
            -1
        };
        let before = x * x + y * y;
        let after = next_x * next_x + next_y * next_y;
        let error = unit * unit * after - (unit * unit + 1) * before;
        lemma2_to64();
        assert(1 <= unit <= 0x8000);
        lemma_step_lengthens(x, y, unit, sign, next_x, next_y, error);
        lemma_length_table(i as int, unit, before, after, error);
    }
}

proof fn lemma_length_table(i: int, unit: int, before: int, after: int, error: int)
    requires
        0 <= i < 16,
        unit == pow2(i as nat),
        norm_floor(i) <= before <= norm_bound(i),
        error == unit * unit * after - (unit * unit + 1) * before,
        -(unit * unit * 0x4_0000_0000) <= error <= unit * unit * 0x4_0000_0000,
    ensures
        norm_floor(i + 1) <= after <= norm_bound(i + 1),
{
    lemma2_to64();
    if i == 0 {
        assert(1 * after == 2 * before + error && -17_179_869_184 <= error <= 17_179_869_184) by (nonlinear_arith)
            requires
                unit == 1,
                error == unit * unit * after - (unit * unit + 1) * before,
                -(unit * unit * 0x4_0000_0000) <= error <= unit * unit * 0x4_0000_0000,
        ;
    } else if i == 1 {
        assert(4 * after == 5 * before + error && -68_719_476_736 <= error <= 68_719_476_736) by (nonlinear_arith)
            requires
                unit == 2,
                error == unit * unit * after - (unit * unit + 1) * before,
                -(unit * unit * 0x4_0000_0000) <= error <= unit * unit * 0x4_0000_0000,
        ;
    } else if i == 2 {
        assert(16 * after == 17 * before + error && -274_877_906_944 <= error <= 274_877_906_944) by (nonlinear_arith)
            requires
                unit == 4,
                error == unit * unit * after - (unit * unit + 1) * before,
                -(unit * unit * 0x4_0000_0000) <= error <= unit * unit * 0x4_0000_0000,
        ;
    } else if i == 3 {
        assert(64 * after == 65 * before + error && -1_099_511_627_776 <= error <= 1_099_511_627_776) by (nonlinear_arith)
            requires
                unit == 8,
                error == unit * unit * after - (unit * unit + 1) * before,
                -(unit * unit * 0x4_0000_0000) <= error <= unit * unit * 0x4_0000_0000,
        ;
    } else if i == 4 {
        assert(256 * after == 257 * before + error && -4_398_046_511_104 <= error <= 4_398_046_511_104) by (nonlinear_arith)
            requires
                unit == 16,
                error == unit * unit * after - (unit * unit + 1) * before,
                -(unit * unit * 0x4_0000_0000) <= error <= unit * unit * 0x4_0000_0000,
        ;
    } else if i == 5 {
        assert(1_024 * after == 1_025 * before + error && -17_592_186_044_416 <= error <= 17_592_186_044_416) by (nonlinear_arith)
            requires
                unit == 32,
                error == unit * unit * after - (unit * unit + 1) * before,
                -(unit * unit * 0x4_0000_0000) <= error <= unit * unit * 0x4_0000_0000,
        ;
    } else if i == 6 {
        assert(4_096 * after == 4_097 * before + error && -70_368_744_177_664 <= error <= 70_368_744_177_664) by (nonlinear_arith)
            requires
                unit == 64,
                error == unit * unit * after - (unit * unit + 1) * before,
                -(unit * unit * 0x4_0000_0000) <= error <= unit * unit * 0x4_0000_0000,
        ;
    } else if i == 7 {
        assert(16_384 * after == 16_385 * before + error && -281_474_976_710_656 <= error <= 281_474_976_710_656) by (nonlinear_arith)
            requires
                unit == 128,
                error == unit * unit * after - (unit * unit + 1) * before,
                -(unit * unit * 0x4_0000_0000) <= error <= unit * unit * 0x4_0000_0000,
        ;
    } else if i == 8 {
        assert(65_536 * after == 65_537 * before + error && -1_125_899_906_842_624 <= error <= 1_125_899_906_842_624) by (nonlinear_arith)
            requires
                unit == 256,
                error == unit * unit * after - (unit * unit + 1) * before,
                -(unit * unit * 0x4_0000_0000) <= error <= unit * unit * 0x4_0000_0000,
        ;
    } else if i == 9 {
        assert(262_144 * after == 262_145 * before + error && -4_503_599_627_370_496 <= error <= 4_503_599_627_370_496) by (nonlinear_arith)
            requires
                unit == 512,
                error == unit * unit * after - (unit * unit + 1) * before,
                -(unit * unit * 0x4_0000_0000) <= error <= unit * unit * 0x4_0000_0000,
        ;
    } else if i == 10 {
        assert(1_048_576 * after == 1_048_577 * before + error && -18_014_398_509_481_984 <= error <= 18_014_398_509_481_984) by (nonlinear_arith)
            requires
                unit == 1_024,
                error == unit * unit * after - (unit * unit + 1) * before,
                -(unit * unit * 0x4_0000_0000) <= error <= unit * unit * 0x4_0000_0000,
        ;
    } else if i == 11 {
        assert(4_194_304 * after == 4_194_305 * before + error && -72_057_594_037_927_936 <= error <= 72_057_594_037_927_936) by (nonlinear_arith)
            requires
                unit == 2_048,
                error == unit * unit * after - (unit * unit + 1) * before,
                -(unit * unit * 0x4_0000_0000) <= error <= unit * unit * 0x4_0000_0000,
        ;
    } else if i == 12 {
        assert(16_777_216 * after == 16_777_217 * before + error && -288_230_376_151_711_744 <= error <= 288_230_376_151_711_744) by (nonlinear_arith)
            requires
                unit == 4_096,
                error == unit * unit * after - (unit * unit + 1) * before,
                -(unit * unit * 0x4_0000_0000) <= error <= unit * unit * 0x4_0000_0000,
        ;
    } else if i == 13 {
        assert(67_108_864 * after == 67_108_865 * before + error && -1_152_921_504_606_846_976 <= error <= 1_152_921_504_606_846_976) by (nonlinear_arith)
            requires
                unit == 8_192,
                error == unit * unit * after - (unit * unit + 1) * before,
                -(unit * unit * 0x4_0000_0000) <= error <= unit * unit * 0x4_0000_0000,
        ;
    } else if i == 14 {
        assert(268_435_456 * after == 268_435_457 * before + error && -4_611_686_018_427_387_904 <= error <= 4_611_686_018_427_387_904) by (nonlinear_arith)
            requires
                unit == 16_384,
                error == unit * unit * after - (unit * unit + 1) * before,
                -(unit * unit * 0x4_0000_0000) <= error <= unit * unit * 0x4_0000_0000,
        ;
    } else if i == 15 {
        assert(1_073_741_824 * after == 1_073_741_825 * before + error && -18_446_744_073_709_551_616 <= error <= 18_446_744_073_709_551_616) by (nonlinear_arith)
            requires
                unit == 32_768,
                error == unit * unit * after - (unit * unit + 1) * before,
                -(unit * unit * 0x4_0000_0000) <= error <= unit * unit * 0x4_0000_0000,
        ;
    }
}

/// Sine and cosine of every angle form a unit vector to Q16.16 accuracy.
pub proof fn law_sine_and_cosine_form_a_unit_vector(angle: Turns)
    ensures
        ({
            let (sin, cos) = CordicSinCos::sin_cos_of(angle);
            arith::abs(sin.bits * sin.bits + cos.bits * cos.bits - 0x1_0000_0000) <= 0x8_0000
        }),
{
    let residual = (angle as int) % 0x4000_0000;
    lemma_cordic_length(residual, 16);
    lemma_cordic_range(residual, 16);
    let (x, y, z) = cordic(residual, 16);
    assert(-0x4000_0400 < x < 0x4000_0400 && -0x4000_0400 < y < 0x4000_0400) by (nonlinear_arith)
        requires
            x * x + y * y <= 0x1000_0100_0000_0000,
    ;
    let (first_sin, first_cos) = first_quadrant(residual);
    let s = arith::trunc_div(first_sin, 0x8000);
    let c = arith::trunc_div(first_cos, 0x8000);
    lemma_rounding_keeps_the_length(x, y, c, s);
    assert(arith::trunc_div(-first_sin, 0x8000) == -s);
    assert(arith::trunc_div(-first_cos, 0x8000) == -c);
    assert((-s) * (-s) == s * s && (-c) * (-c) == c * c) by (nonlinear_arith);
}

proof fn lemma_rounding_keeps_the_length(x: int, y: int, c: int, s: int)
    requires
        -0x4000_0400 < x < 0x4000_0400,
        -0x4000_0400 < y < 0x4000_0400,
        norm_floor(16) <= x * x + y * y <= norm_bound(16),
        -0x4400 <= 0x4000 * c - x <= 0x4400,
        -0x4400 <= 0x4000 * s - y <= 0x4400,
    ensures
        -0x8_0000 <= s * s + c * c - 0x1_0000_0000 <= 0x8_0000,
{
    let cut_x = 0x4000 * c - x;
    let cut_y = 0x4000 * s - y;
    assert(0x1000_0000 * (c * c) == x * x + 2 * (x * cut_x) + cut_x * cut_x) by (nonlinear_arith)
        requires
            0x4000 * c == x + cut_x,
    ;
    assert(0x1000_0000 * (s * s) == y * y + 2 * (y * cut_y) + cut_y * cut_y) by (nonlinear_arith)
        requires
            0x4000 * s == y + cut_y,
    ;
    lemma_small_product(x, cut_x);
    lemma_small_product(y, cut_y);
}

proof fn lemma_small_product(value: int, cut: int)
    by (nonlinear_arith)
    requires
        -0x4000_0400 < value < 0x4000_0400,
        -0x4400 <= cut <= 0x4400,
    ensures
        -0x4000_0400 * 0x4400 <= value * cut <= 0x4000_0400 * 0x4400,
        0 <= cut * cut <= 0x4400 * 0x4400,
{
}

/// Advancing by a quarter turn, around the end of the revolution too, replaces
/// sine by cosine and cosine by the negated sine.
pub proof fn law_quarter_turn_exchanges_sine_and_cosine(angle: Turns)
    ensures
        ({
            let advanced = arith::wrap_u32(angle + 0x4000_0000) as u32;
            let (sin, cos) = sin_cos_turns(angle as int);
            let (advanced_sin, advanced_cos) = sin_cos_turns(advanced as int);
            advanced_sin == cos && advanced_cos == -sin
        }),
        ({
            let advanced = arith::wrap_u32(angle + 0x4000_0000) as u32;
            let (sin, cos) = CordicSinCos::sin_cos_of(angle);
            let (advanced_sin, advanced_cos) = CordicSinCos::sin_cos_of(advanced);
            advanced_sin == cos && advanced_cos == sin.negated()
        }),
{
    let turns = angle as int;
    let advanced = arith::wrap_u32(turns + 0x4000_0000);
    assert(advanced % 0x4000_0000 == turns % 0x4000_0000);
    assert(advanced / 0x4000_0000 == if turns / 0x4000_0000 == 3 {
        0
    } else {
        turns / 0x4000_0000 + 1
    });
    lemma_cordic_range(turns % 0x4000_0000, 16);
}

} // verus!
