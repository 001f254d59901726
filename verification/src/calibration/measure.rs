//! Integer helpers that the calibration sequences share.
use vstd::prelude::*;

use crate::arith;
use crate::calibration::config::PWM_PERIOD_TICKS;

verus! {

/// Quotient rounded to nearest, halves away from zero.
pub open spec fn rounded_quotient(value: int, divisor: int) -> int {
    if value < 0 {
        arith::trunc_div(value - divisor / 2, divisor)
    } else {
        arith::trunc_div(value + divisor / 2, divisor)
    }
}

pub fn div_round(value: i64, divisor: i64) -> (r: i64)
    requires
        0 < divisor <= 0xffff_ffff,
        i64::MIN + 0x8000_0000 <= value <= i64::MAX - 0x8000_0000,
    ensures
        r == rounded_quotient(value as int, divisor as int),
{
    if value < 0 {
        (value - divisor / 2) / divisor
    } else {
        (value + divisor / 2) / divisor
    }
}

/// Rounding moves a value by less than one: a quotient of a bounded sum is
/// bounded by the mean.
pub proof fn lemma_rounded_quotient_bound(value: int, divisor: int, bound: int)
    requires
        0 < divisor,
        0 <= bound,
        -(bound * divisor) <= value <= bound * divisor,
    ensures
        -bound <= rounded_quotient(value, divisor) <= bound,
{
    let half = divisor / 2;
    assert(0 <= half < divisor) by (nonlinear_arith)
        requires
            half == divisor / 2,
            0 < divisor,
    ;
    if value < 0 {
        let n = half - value;
        assert(0 <= n / divisor <= bound) by (nonlinear_arith)
            requires
                0 <= n <= half + bound * divisor,
                0 <= half < divisor,
                0 < divisor,
                0 <= bound,
        ;
    } else {
        let n = value + half;
        assert(0 <= n / divisor <= bound) by (nonlinear_arith)
            requires
                0 <= n <= half + bound * divisor,
                0 <= half < divisor,
                0 < divisor,
                0 <= bound,
        ;
    }
}

/// A mean current is close enough to its target: within three tenths of it, at
/// least two counts.
pub open spec fn is_settled(measured: int, target: int) -> bool {
    arith::abs(measured - target) <= arith::max(arith::abs(target) * 3 / 10, 2)
}

pub fn settled(measured: i16, target: i16) -> (r: bool)
    ensures
        r == is_settled(measured as int, target as int),
{
    let tolerance: u32 = arith::unsigned_abs_i32(target as i32) * 3 / 10;
    let distance: u32 = arith::unsigned_abs_i32(measured as i32 - target as i32);
    distance <= if tolerance < 2 {
        2
    } else {
        tolerance
    }
}

/// Value on a straight line from `start` to `end`, `cycle` of `duration` steps
/// along.
pub open spec fn ramped(start: int, end: int, cycle: int, duration: int) -> int {
    start + arith::trunc_div((end - start) * arith::min(cycle, duration), duration)
}

/// A ramp stays between its ends.
pub proof fn lemma_ramped(start: int, end: int, cycle: int, duration: int)
    requires
        0 < duration,
        0 <= cycle,
    ensures
        start <= end ==> start <= ramped(start, end, cycle, duration) <= end,
        end <= start ==> end <= ramped(start, end, cycle, duration) <= start,
        cycle >= duration ==> ramped(start, end, cycle, duration) == end,
        cycle == 0 ==> ramped(start, end, cycle, duration) == start,
{
    let c = arith::min(cycle, duration);
    let span = arith::abs(end - start);
    assert(0 <= span * c <= span * duration && 0 <= (span * c) / duration <= span) by (
    nonlinear_arith)
        requires
            0 <= c <= duration,
            0 < duration,
            0 <= span,
    ;
    if c == duration {
        assert((span * duration) / duration == span) by (nonlinear_arith)
            requires
                0 < duration,
        ;
    }
    if c == 0 {
        assert(0int / duration == 0) by (nonlinear_arith)
            requires
                0 < duration,
        ;
        assert(span * 0 == 0);
        assert((end - start) * 0 == 0);
    }
    if end < start {
        assert((end - start) * c == -(span * c)) by (nonlinear_arith)
            requires
                span == start - end,
        ;
        if span * c == 0 {
            assert(0int / duration == 0) by (nonlinear_arith)
                requires
                    0 < duration,
            ;
        }
    }
}

pub fn ramp_i32(start: i32, end: i32, cycle: u32, duration: u32) -> (r: i32)
    requires
        0 < duration <= 0x1_0000,
    ensures
        r == ramped(start as int, end as int, cycle as int, duration as int),
{
    let steps: i64 = if cycle < duration {
        cycle as i64
    } else {
        duration as i64
    };
    let span: i64 = end as i64 - start as i64;
    proof {
        lemma_ramped(start as int, end as int, cycle as int, duration as int);
    }
    assert(-0x1_0000_0000_0000 <= span * steps <= 0x1_0000_0000_0000) by (nonlinear_arith)
        requires
            -0xffff_ffff <= span <= 0xffff_ffff,
            0 <= steps <= 0x1_0000,
    ;
    let product: i64 = span * steps;
    let moved: i64 = product / duration as i64;
    (start as i64 + moved) as i32
}

pub fn ramp_i16(start: i16, end: i16, cycle: u32, duration: u32) -> (r: i16)
    requires
        0 < duration <= 0x1_0000,
    ensures
        r == ramped(start as int, end as int, cycle as int, duration as int),
{
    proof {
        lemma_ramped(start as int, end as int, cycle as int, duration as int);
    }
    ramp_i32(start as i32, end as i32, cycle, duration) as i16
}

/// Microvolts of a voltage given in Q16.16 tick-millivolts.
pub open spec fn microvolts_of(tick_mv_q16: int) -> int {
    arith::trunc_div(arith::sat_i64(tick_mv_q16 * 1_000), 147_456_000)
}

pub fn tick_mv_q16_to_uv(tick_mv_q16: i64) -> (r: i64)
    ensures
        r == microvolts_of(tick_mv_q16 as int),
        -62_550_206_000 < r < 62_550_206_000,
{
    let divisor: i64 = PWM_PERIOD_TICKS as i64 * 0x1_0000;
    arith::sat_mul_i64(tick_mv_q16, 1_000) / divisor
}

/// Microvolts of a number of Q16.16 ticks on a bus.
pub open spec fn tick_microvolts(tick_bits: int, bus_voltage_mv: int) -> int {
    microvolts_of(tick_bits * bus_voltage_mv)
}

pub fn tick_bits_to_uv(tick_bits: i32, bus_voltage_mv: u32) -> (r: i64)
    ensures
        r == tick_microvolts(tick_bits as int, bus_voltage_mv as int),
        -62_550_206_000 < r < 62_550_206_000,
{
    assert(-0x7fff_ffff_8000_0000 <= tick_bits * bus_voltage_mv <= 0x7fff_ffff_8000_0000) by (
    nonlinear_arith)
        requires
            -0x8000_0000 <= tick_bits <= 0x7fff_ffff,
            0 <= bus_voltage_mv <= 0xffff_ffff,
    ;
    tick_mv_q16_to_uv(tick_bits as i64 * bus_voltage_mv as i64)
}

/// A ramp is a straight line: after `cycle` of `duration` steps it has covered
/// that part of the way to its end, up to one unit, and it stays at its end.
pub proof fn law_ramp_is_linear(start: int, end: int, cycle: int, duration: int)
    requires
        0 < duration,
        0 <= cycle,
    ensures
        cycle <= duration ==> arith::abs(
            duration * (ramped(start, end, cycle, duration) - start) - cycle * (end - start),
        ) < duration,
        cycle >= duration ==> ramped(start, end, cycle, duration) == end,
        cycle == 0 ==> ramped(start, end, cycle, duration) == start,
{
    lemma_ramped(start, end, cycle, duration);
    let c = arith::min(cycle, duration);
    let way = (end - start) * c;
    let moved = arith::trunc_div(way, duration);
    lemma_truncated(way, duration);
    if cycle <= duration {
        assert(cycle * (end - start) == way) by (nonlinear_arith)
            requires
                way == (end - start) * c,
                c == cycle,
        ;
        assert(duration * (ramped(start, end, cycle, duration) - start) == duration * moved);
    }
}

/// Truncation loses less than one unit, toward zero.
pub proof fn lemma_truncated(value: int, divisor: int)
    requires
        0 < divisor,
    ensures
        arith::abs(divisor * arith::trunc_div(value, divisor) - value) < divisor,
        value >= 0 ==> 0 <= divisor * arith::trunc_div(value, divisor) <= value,
        value <= 0 ==> value <= divisor * arith::trunc_div(value, divisor) <= 0,
{
    let size = arith::abs(value);
    let quotient = size / divisor;
    assert(0 <= divisor * quotient <= size < divisor * quotient + divisor) by (nonlinear_arith)
        requires
            quotient == size / divisor,
            0 < divisor,
            0 <= size,
    ;
    assert(divisor * -quotient == -(divisor * quotient)) by (nonlinear_arith);
}

/// A rounded quotient is the nearest one: it misses by at most half.
pub proof fn law_rounding_is_to_nearest(value: int, divisor: int)
    requires
        0 < divisor,
    ensures
        arith::abs(2 * (value - divisor * rounded_quotient(value, divisor))) <= divisor,
{
    let half = divisor / 2;
    if value < 0 {
        lemma_truncated(value - half, divisor);
    } else {
        lemma_truncated(value + half, divisor);
    }
}

/// The mean of equal samples is the sample.
pub proof fn law_mean_of_equal_samples(sample: int, count: int)
    requires
        0 < count,
    ensures
        rounded_quotient(count * sample, count) == sample,
        arith::trunc_div(count * sample, count) == sample,
{
    law_rounding_is_to_nearest(count * sample, count);
    let r = rounded_quotient(count * sample, count);
    assert(r == sample) by (nonlinear_arith)
        requires
            -count <= 2 * (count * sample - count * r) <= count,
            0 < count,
    ;
    lemma_truncated(count * sample, count);
    let t = arith::trunc_div(count * sample, count);
    assert(t == sample) by (nonlinear_arith)
        requires
            -count < count * t - count * sample < count,
            0 < count,
    ;
}

/// A tick is the 2,250th part of the bus: the microvolts of a number of ticks
/// are that share of the bus voltage, truncated. The bus is one that the range
/// of the product can hold.
pub proof fn law_ticks_are_shares_of_the_bus(tick_bits: i32, bus_voltage_mv: u32)
    requires
        bus_voltage_mv <= 4_000_000,
    ensures
        arith::abs(
            2_250 * 0x1_0000 * tick_microvolts(tick_bits as int, bus_voltage_mv as int) - tick_bits
                * bus_voltage_mv * 1_000,
        ) < 2_250 * 0x1_0000,
{
    let product = tick_bits * bus_voltage_mv;
    assert(-0x8000_0000 * 4_000_000 <= product <= 0x8000_0000 * 4_000_000) by (nonlinear_arith)
        requires
            product == tick_bits * bus_voltage_mv,
            -0x8000_0000 <= tick_bits <= 0x7fff_ffff,
            0 <= bus_voltage_mv <= 4_000_000,
    ;
    lemma_truncated(product * 1_000, 147_456_000);
}

} // verus!
