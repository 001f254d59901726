//! Integer arithmetic shared by every module.
//!
//! The control path works on machine words: it saturates, wraps, shifts and
//! truncates. Each of those operations is stated here once over mathematical
//! integers, so that the contracts elsewhere can speak of integers only.
use vstd::arithmetic::power2::*;
use vstd::prelude::*;

verus! {

/// `value` moved to the nearest end of `[low, high]` when it lies outside.
pub open spec fn clamp(value: int, low: int, high: int) -> int {
    if value < low {
        low
    } else if value > high {
        high
    } else {
        value
    }
}

/// Nearest value that an `i32` can hold.
pub open spec fn sat_i32(value: int) -> int {
    clamp(value, i32::MIN as int, i32::MAX as int)
}

/// Nearest value that an `i64` can hold.
pub open spec fn sat_i64(value: int) -> int {
    clamp(value, i64::MIN as int, i64::MAX as int)
}

/// Nearest value that an `i16` can hold.
pub open spec fn sat_i16(value: int) -> int {
    clamp(value, i16::MIN as int, i16::MAX as int)
}

/// Nearest value that an `i8` can hold.
pub open spec fn sat_i8(value: int) -> int {
    clamp(value, i8::MIN as int, i8::MAX as int)
}

/// Nearest value that a `u32` can hold.
pub open spec fn sat_u32(value: int) -> int {
    clamp(value, 0, u32::MAX as int)
}

/// Nearest value that a `u64` can hold.
pub open spec fn sat_u64(value: int) -> int {
    clamp(value, 0, u64::MAX as int)
}

/// Nearest value that a `u16` can hold.
pub open spec fn sat_u16(value: int) -> int {
    clamp(value, 0, u16::MAX as int)
}

/// Nearest value that a `u8` can hold.
pub open spec fn sat_u8(value: int) -> int {
    clamp(value, 0, u8::MAX as int)
}

/// Absolute value.
pub open spec fn abs(value: int) -> int {
    if value < 0 {
        -value
    } else {
        value
    }
}

/// The smaller of two integers.
pub open spec fn min(a: int, b: int) -> int {
    if a <= b {
        a
    } else {
        b
    }
}

/// The larger of two integers.
pub open spec fn max(a: int, b: int) -> int {
    if a >= b {
        a
    } else {
        b
    }
}

/// Quotient rounded toward zero.
pub open spec fn trunc_div(numerator: int, denominator: int) -> int {
    if denominator > 0 {
        if numerator >= 0 {
            numerator / denominator
        } else {
            -((-numerator) / denominator)
        }
    } else if numerator >= 0 {
        -(numerator / (-denominator))
    } else {
        (-numerator) / (-denominator)
    }
}

/// Residue modulo `2^32` in `[0, 2^32)`.
pub open spec fn wrap_u32(value: int) -> int {
    value % 0x1_0000_0000
}

/// Residue modulo `2^16` in `[0, 2^16)`.
pub open spec fn wrap_u16(value: int) -> int {
    value % 0x1_0000
}

/// Residue modulo `2^8` in `[0, 2^8)`.
pub open spec fn wrap_u8(value: int) -> int {
    value % 0x100
}

/// Residue modulo `2^32` in `[-2^31, 2^31)`.
pub open spec fn wrap_i32(value: int) -> int {
    (value + 0x8000_0000) % 0x1_0000_0000 - 0x8000_0000
}

/// Residue modulo `2^16` in `[-2^15, 2^15)`.
pub open spec fn wrap_i16(value: int) -> int {
    (value + 0x8000) % 0x1_0000 - 0x8000
}

/// 1 for `true`, 0 for `false`.
pub open spec fn bit(value: bool) -> int {
    if value {
        1
    } else {
        0
    }
}

/// Byte `index` of a word in little-endian order; negative values count in
/// two's complement.
pub open spec fn byte_of(value: int, index: int) -> u8 {
    (if index == 0 {
        value % 0x100
    } else if index == 1 {
        value / 0x100 % 0x100
    } else if index == 2 {
        value / 0x1_0000 % 0x100
    } else {
        value / 0x100_0000 % 0x100
    }) as u8
}

/// How many times a nonnegative `value` has to be halved to drop below
/// `bound`.
pub open spec fn shift_below(value: int, bound: int) -> nat
    decreases value,
{
    if value < bound || value <= 0 {
        0
    } else {
        1 + shift_below(value / 2, bound)
    }
}

/// `2^shift`.
pub open spec fn unit(shift: nat) -> int {
    pow2(shift) as int
}

proof fn bits_of_i64(x: i64)
    by (bit_vector)
    ensures
        x == (x >> 32) * 0x1_0000_0000 + (x as u32),
        (x as u32) < 0x8000_0000 ==> (x as i32) == (x as u32),
        (x as u32) >= 0x8000_0000 ==> (x as i32) == (x as u32) - 0x1_0000_0000,
        (x >> 8) == x as int / 0x100,
        (x >> 15) == x as int / 0x8000,
        (x >> 16) == x as int / 0x1_0000,
        (x >> 32) == x as int / 0x1_0000_0000,
{
}

/// Right shifts of an `i64` are floor divisions; its casts wrap.
pub proof fn lemma_i64(x: i64)
    ensures
        (x as u32) == wrap_u32(x as int),
        (x as i32) == wrap_i32(x as int),
        (x >> 8) == x as int / 0x100,
        (x >> 15) == x as int / 0x8000,
        (x >> 16) == x as int / 0x1_0000,
        (x >> 32) == x as int / 0x1_0000_0000,
{
    bits_of_i64(x);
}

proof fn bits_of_u32(x: u32)
    by (bit_vector)
    ensures
        x < 0x8000_0000 ==> (x as i32) == x,
        x >= 0x8000_0000 ==> (x as i32) == x - 0x1_0000_0000,
        (x as u16) == x % 0x1_0000,
        (x as u8) == x % 0x100,
        (x >> 3) == x / 8,
        (x >> 8) == x / 0x100,
        (x >> 10) == x / 0x400,
        (x >> 16) == x / 0x1_0000,
        (x >> 17) == x / 0x2_0000,
        (x >> 24) == x / 0x100_0000,
        (x >> 30) == x / 0x4000_0000,
        (x & 0x3fff_ffff) == x % 0x4000_0000,
        x < 0x1_0000 ==> (x << 16) == x * 0x1_0000,
{
}

/// Right shifts and masks of a `u32` are divisions and remainders; its casts
/// wrap.
pub proof fn lemma_u32(x: u32)
    ensures
        (x as i32) == wrap_i32(x as int),
        (x as u16) == x % 0x1_0000,
        (x as u8) == x % 0x100,
        (x >> 3) == x / 8,
        (x >> 8) == x / 0x100,
        (x >> 10) == x / 0x400,
        (x >> 16) == x / 0x1_0000,
        (x >> 17) == x / 0x2_0000,
        (x >> 24) == x / 0x100_0000,
        (x >> 30) == x / 0x4000_0000,
        (x & 0x3fff_ffff) == x % 0x4000_0000,
        x < 0x1_0000 ==> (x << 16) == x * 0x1_0000,
{
    bits_of_u32(x);
}

proof fn bits_of_i32(x: i32)
    by (bit_vector)
    ensures
        x >= 0 ==> (x as u32) == x,
        x < 0 ==> (x as u32) == x + 0x1_0000_0000,
        (x >> 12) == x as int / 0x1000,
        (x >> 16) == x as int / 0x1_0000,
        (x >> 17) == x as int / 0x2_0000,
{
}

/// Right shifts of an `i32` are floor divisions; its cast to `u32` wraps.
pub proof fn lemma_i32(x: i32)
    ensures
        (x as u32) == wrap_u32(x as int),
        (x >> 12) == x as int / 0x1000,
        (x >> 16) == x as int / 0x1_0000,
        (x >> 17) == x as int / 0x2_0000,
{
    bits_of_i32(x);
}

pub fn sat_i64_to_i32(value: i64) -> (r: i32)
    ensures
        r == sat_i32(value as int),
{
    if value > i32::MAX as i64 {
        i32::MAX
    } else if value < i32::MIN as i64 {
        i32::MIN
    } else {
        value as i32
    }
}

pub fn sat_i64_to_i16(value: i64) -> (r: i16)
    ensures
        r == sat_i16(value as int),
{
    if value > i16::MAX as i64 {
        i16::MAX
    } else if value < i16::MIN as i64 {
        i16::MIN
    } else {
        value as i16
    }
}

pub fn sat_i32_to_i16(value: i32) -> (r: i16)
    ensures
        r == sat_i16(value as int),
{
    sat_i64_to_i16(value as i64)
}

pub fn sat_i128_to_i64(value: i128) -> (r: i64)
    ensures
        r == sat_i64(value as int),
{
    if value > i64::MAX as i128 {
        i64::MAX
    } else if value < i64::MIN as i128 {
        i64::MIN
    } else {
        value as i64
    }
}

pub fn sat_u64_to_u32(value: u64) -> (r: u32)
    ensures
        r == sat_u32(value as int),
{
    if value > u32::MAX as u64 {
        u32::MAX
    } else {
        value as u32
    }
}

pub fn sat_u32_to_u16(value: u32) -> (r: u16)
    ensures
        r == sat_u16(value as int),
{
    if value > u16::MAX as u32 {
        u16::MAX
    } else {
        value as u16
    }
}

pub fn sat_u16_to_u8(value: u16) -> (r: u8)
    ensures
        r == sat_u8(value as int),
{
    if value > u8::MAX as u16 {
        u8::MAX
    } else {
        value as u8
    }
}

pub fn sat_add_i32(a: i32, b: i32) -> (r: i32)
    ensures
        r == sat_i32(a + b),
{
    sat_i64_to_i32(a as i64 + b as i64)
}

pub fn sat_sub_i32(a: i32, b: i32) -> (r: i32)
    ensures
        r == sat_i32(a - b),
{
    sat_i64_to_i32(a as i64 - b as i64)
}

pub fn sat_neg_i32(a: i32) -> (r: i32)
    ensures
        r == sat_i32(-a),
{
    if a == i32::MIN {
        i32::MAX
    } else {
        -a
    }
}

pub fn sat_abs_i32(a: i32) -> (r: i32)
    ensures
        r == sat_i32(abs(a as int)),
{
    if a < 0 {
        sat_neg_i32(a)
    } else {
        a
    }
}

pub fn unsigned_abs_i32(a: i32) -> (r: u32)
    ensures
        r == abs(a as int),
{
    if a < 0 {
        (-(a as i64)) as u32
    } else {
        a as u32
    }
}

pub fn unsigned_abs_i16(a: i16) -> (r: u16)
    ensures
        r == abs(a as int),
{
    if a < 0 {
        (-(a as i32)) as u16
    } else {
        a as u16
    }
}

pub fn unsigned_abs_i64(a: i64) -> (r: u64)
    ensures
        r == abs(a as int),
{
    if a < 0 {
        (-(a as i128)) as u64
    } else {
        a as u64
    }
}

pub fn sat_mul_u32(a: u32, b: u32) -> (r: u32)
    ensures
        r == sat_u32(a * b),
{
    assert(a * b <= 0xffff_ffff * 0xffff_ffff) by (nonlinear_arith)
        requires
            0 <= a <= 0xffff_ffff,
            0 <= b <= 0xffff_ffff,
    ;
    assert(a * b >= 0) by (nonlinear_arith);
    sat_u64_to_u32(a as u64 * b as u64)
}

pub fn mul_i32_wide(a: i32, b: i32) -> (r: i64)
    ensures
        r == a * b,
        -0x4000_0000_0000_0000 <= r <= 0x4000_0000_0000_0000,
{
    proof {
        lemma_i32_product(a, b);
    }
    a as i64 * b as i64
}

/// The product of two `i32` values fits in 63 bits.
pub proof fn lemma_i32_product(a: i32, b: i32)
    ensures
        -0x4000_0000_0000_0000 <= a * b <= 0x4000_0000_0000_0000,
{
    assert(-0x4000_0000_0000_0000 <= a * b <= 0x4000_0000_0000_0000) by (nonlinear_arith)
        requires
            -0x8000_0000 <= a <= 0x7fff_ffff,
            -0x8000_0000 <= b <= 0x7fff_ffff,
    ;
}

pub fn sat_mul_i64(a: i64, b: i64) -> (r: i64)
    ensures
        r == sat_i64(a * b),
{
    assert(-0x4000_0000_0000_0000_0000_0000_0000_0000 <= a * b
        <= 0x4000_0000_0000_0000_0000_0000_0000_0000) by (nonlinear_arith)
        requires
            -0x8000_0000_0000_0000 <= a <= 0x7fff_ffff_ffff_ffff,
            -0x8000_0000_0000_0000 <= b <= 0x7fff_ffff_ffff_ffff,
    ;
    sat_i128_to_i64(a as i128 * b as i128)
}

pub fn sat_add_i64(a: i64, b: i64) -> (r: i64)
    ensures
        r == sat_i64(a + b),
{
    sat_i128_to_i64(a as i128 + b as i128)
}

/// Truncating quotient with a divisor of either sign.
pub fn trunc_div_i64(numerator: i64, denominator: i64) -> (r: i128)
    requires
        denominator != 0,
    ensures
        r == trunc_div(numerator as int, denominator as int),
{
    if denominator > 0 {
        (numerator as i128) / (denominator as i128)
    } else {
        (-(numerator as i128)) / (-(denominator as i128))
    }
}

pub fn wrapping_add_u32_i32(angle: u32, step: i32) -> (r: u32)
    ensures
        r == wrap_u32(angle + step),
{
    proof {
        lemma_i32(step);
    }
    angle.wrapping_add(step as u32)
}

pub fn wrapping_add_u32_i64(angle: u32, step: i64) -> (r: u32)
    requires
        -0x8000_0000 <= step <= 0x8000_0000,
    ensures
        r == wrap_u32(angle + step),
{
    let sum: i64 = angle as i64 + step;
    if sum < 0 {
        (sum + 0x1_0000_0000) as u32
    } else if sum >= 0x1_0000_0000 {
        (sum - 0x1_0000_0000) as u32
    } else {
        sum as u32
    }
}

pub fn wrapping_sub_to_i32(a: u32, b: u32) -> (r: i32)
    ensures
        r == wrap_i32(a - b),
{
    let difference: u32 = a.wrapping_sub(b);
    proof {
        lemma_u32(difference);
    }
    difference as i32
}

/// Both bytes of a word, low byte first.
pub fn bytes_u16(value: u16) -> (r: [u8; 2])
    ensures
        r@ == seq![byte_of(value as int, 0), byte_of(value as int, 1)],
{
    [(value % 0x100) as u8, (value / 0x100) as u8]
}

/// Both bytes of a signed word, low byte first.
pub fn bytes_i16(value: i16) -> (r: [u8; 2])
    ensures
        r@ == seq![byte_of(value as int, 0), byte_of(value as int, 1)],
{
    let word: u16 = if value < 0 {
        (value as i32 + 0x1_0000) as u16
    } else {
        value as u16
    };
    bytes_u16(word)
}

/// All bytes of a word, low byte first.
pub fn bytes_u32(value: u32) -> (r: [u8; 4])
    ensures
        r@ == seq![
            byte_of(value as int, 0),
            byte_of(value as int, 1),
            byte_of(value as int, 2),
            byte_of(value as int, 3),
        ],
{
    [
        (value % 0x100) as u8,
        (value / 0x100 % 0x100) as u8,
        (value / 0x1_0000 % 0x100) as u8,
        (value / 0x100_0000) as u8,
    ]
}

/// All bytes of a signed word, low byte first.
pub fn bytes_i32(value: i32) -> (r: [u8; 4])
    ensures
        r@ == seq![
            byte_of(value as int, 0),
            byte_of(value as int, 1),
            byte_of(value as int, 2),
            byte_of(value as int, 3),
        ],
{
    let word: u32 = if value < 0 {
        (value as i64 + 0x1_0000_0000) as u32
    } else {
        value as u32
    };
    proof {
        let v = value as int;
        let w = word as int;
        if v < 0 {
            assert(w == v + 0x1_0000_0000);
            assert(w / 0x100 == v / 0x100 + 0x100_0000);
            assert(w / 0x1_0000 == v / 0x1_0000 + 0x1_0000);
            assert(w / 0x100_0000 == v / 0x100_0000 + 0x100);
        }
    }
    bytes_u32(word)
}

/// A signed value within one byte, saturated, as that byte.
pub fn byte_i16(value: i16) -> (r: u8)
    ensures
        r == byte_of(sat_i8(value as int), 0),
{
    let clamped: i16 = if value < -128 {
        -128
    } else if value > 127 {
        127
    } else {
        value
    };
    bytes_i16(clamped)[0]
}

/// 1 for `true`, 0 for `false`.
pub fn flag(value: bool) -> (r: u8)
    ensures
        r == bit(value),
{
    if value {
        1
    } else {
        0
    }
}

/// The low word of a value, as a signed word.
pub fn wrapping_i16(value: i32) -> (r: i16)
    ensures
        r == wrap_i16(value as int),
{
    let low: i32 = value - floor_div_i32(value, 0x1_0000) * 0x1_0000;
    if low >= 0x8000 {
        (low - 0x1_0000) as i16
    } else {
        low as i16
    }
}

pub fn wrapping_add_i32(a: i32, b: i32) -> (r: i32)
    ensures
        r == wrap_i32(a + b),
{
    a.wrapping_add(b)
}

pub fn wrapping_sub_i32(a: i32, b: i32) -> (r: i32)
    ensures
        r == wrap_i32(a - b),
{
    a.wrapping_sub(b)
}

/// Floor division of a signed word by a positive one.
pub fn floor_div_i32(value: i32, divisor: i32) -> (r: i32)
    requires
        divisor > 0,
    ensures
        r == value as int / divisor as int,
{
    let truncated: i32 = value / divisor;
    let ghost d = divisor as int;
    let ghost v = value as int;
    let ghost t = truncated as int;
    if value >= 0 {
        return truncated;
    }
    proof {
        let n = (-v) / d;
        assert(t == -n);
        assert(n * d <= -v < n * d + d) by (nonlinear_arith)
            requires
                n == (-v) / d,
                d > 0,
                -v > 0,
        ;
        assert(t * d == -(n * d)) by (nonlinear_arith)
            requires
                t == -n,
        ;
        assert(0 <= n <= -v) by (nonlinear_arith)
            requires
                n == (-v) / d,
                d > 0,
                -v > 0,
        ;
    }
    if truncated as i64 * divisor as i64 == value as i64 {
        proof {
            lemma_quotient(v, d, t);
        }
        truncated
    } else {
        proof {
            assert((t - 1) * d == t * d - d) by (nonlinear_arith);
            if t == i32::MIN {
                assert(t * d < v || d == 1) by (nonlinear_arith)
                    requires
                        t == -0x8000_0000,
                        v >= -0x8000_0000,
                        d >= 1,
                ;
                assert(t * d == t) by (nonlinear_arith)
                    requires
                        d == 1,
                ;
            }
            lemma_quotient(v, d, t - 1);
        }
        truncated - 1
    }
}

proof fn lemma_quotient(value: int, divisor: int, quotient: int)
    requires
        divisor > 0,
        quotient * divisor <= value < quotient * divisor + divisor,
    ensures
        value / divisor == quotient,
{
    let r = value - quotient * divisor;
    vstd::arithmetic::div_mod::lemma_fundamental_div_mod_converse(value, divisor, quotient, r);
}

/// What the number of halvings says about a word: it is the smallest shift
/// that brings the value below the bound.
pub proof fn lemma_shift_below(value: int, bound: int)
    requires
        0 <= value <= u32::MAX,
        0x8000 <= bound,
    ensures
        1 <= unit(shift_below(value, bound)) <= 0x2_0000,
        shift_below(value, bound) <= 17,
        value < bound * unit(shift_below(value, bound)),
        shift_below(value, bound) > 0 ==> bound * unit(shift_below(value, bound)) <= 2 * value,
{
    lemma2_to64();
    lemma_shift_steps(value, bound, 17);
    let s = shift_below(value, bound);
    if s < 17 {
        lemma_pow2_strictly_increases(s, 17);
    }
    lemma_pow2_pos(s);
}

proof fn lemma_shift_steps(value: int, bound: int, budget: nat)
    requires
        0 <= value < 0x8000 * unit(budget),
        0x8000 <= bound,
    ensures
        shift_below(value, bound) <= budget,
        value < bound * unit(shift_below(value, bound)),
        shift_below(value, bound) > 0 ==> bound * unit(shift_below(value, bound)) <= 2 * value,
    decreases budget,
{
    lemma2_to64();
    if value < bound {
        assert(unit(0) == 1);
    } else {
        if budget == 0 {
            assert(unit(budget) == 1);
        }
        lemma_pow2_unfold(budget);
        lemma_shift_steps(value / 2, bound, (budget - 1) as nat);
        let t = shift_below(value / 2, bound);
        lemma_pow2_unfold(t + 1);
        assert(bound * unit(t + 1) == 2 * (bound * unit(t))) by (nonlinear_arith)
            requires
                unit(t + 1) == 2 * unit(t),
        ;
        if t == 0 {
            assert(bound * unit(t) == bound) by (nonlinear_arith)
                requires
                    unit(t) == 1,
            ;
        }
    }
}

/// Number of halvings that bring `value` below `bound`, with the matching
/// power of two.
pub fn halvings(value: u32, bound: u32) -> (r: (u32, u32))
    requires
        0x8000 <= bound,
    ensures
        r.0 == shift_below(value as int, bound as int),
        r.1 == unit(r.0 as nat),
        r.0 <= 17,
        1 <= r.1 <= 0x2_0000,
        value < bound * r.1,
        r.0 > 0 ==> bound * r.1 <= 2 * value,
{
    let mut rest: u32 = value;
    let mut shift: u32 = 0;
    let mut power: u32 = 1;
    proof {
        lemma2_to64();
        lemma_shift_below(value as int, bound as int);
    }
    while rest >= bound
        invariant
            0x8000 <= bound,
            shift_below(value as int, bound as int) == shift + shift_below(rest as int, bound as int),
            shift_below(value as int, bound as int) <= 17,
            power == unit(shift as nat),
            1 <= power <= 0x2_0000,
        decreases rest,
    {
        proof {
            lemma2_to64();
            lemma_pow2_unfold((shift + 1) as nat);
            lemma_pow2_strictly_increases(shift as nat, 17);
            if shift < 16 {
                lemma_pow2_strictly_increases((shift + 1) as nat, 17);
            }
        }
        rest = rest / 2;
        power = power * 2;
        shift = shift + 1;
    }
    (shift, power)
}

/// The two bytes of an unsigned word make it up.
pub proof fn lemma_unsigned_word(value: int)
    requires
        0 <= value <= u16::MAX,
    ensures
        byte_of(value, 0) + 0x100 * byte_of(value, 1) == value,
{
}

/// The two bytes of a signed word make it up, in two's complement.
pub proof fn lemma_signed_word(value: i16)
    ensures
        wrap_i16(byte_of(value as int, 0) + 0x100 * byte_of(value as int, 1)) == value,
{
}

/// The lower three and all four bytes of a long word make up its residues.
pub proof fn lemma_long_word(value: int)
    requires
        i32::MIN <= value <= u32::MAX,
    ensures
        byte_of(value, 0) + 0x100 * byte_of(value, 1) == value % 0x1_0000,
        byte_of(value, 2) + 0x100 * byte_of(value, 3) == value / 0x1_0000 % 0x1_0000,
        value % 0x1_0000 + 0x1_0000 * (value / 0x1_0000 % 0x1_0000) == wrap_u32(value),
        value % 0x1_0000 + 0x1_0000 * (value / 0x1_0000 % 0x100) == value % 0x100_0000,
{
    assert(value / 0x1_0000 % 0x1_0000 == value / 0x1_0000 % 0x100 + 0x100 * (value / 0x100_0000
        % 0x100));
    assert(value % 0x1_0000 == value % 0x100 + 0x100 * (value / 0x100 % 0x100));
}

} // verus!
