//! Slow fractional current-offset tracking while the inverter is undriven.
use vstd::prelude::*;

use crate::arith;

verus! {

/// Largest estimate: 4,095 counts with sixteen fraction bits.
pub const MAX_ESTIMATE: u32 = 268_369_920;

/// Offset estimates of two phases in Q16 counts.
#[derive(Clone, Copy, Debug, Eq, PartialEq, Structural)]
pub struct CurrentOffsetTracker {
    pub phase_a: u32,
    pub phase_b: u32,
}

/// Estimate after one raw sample: it moves by `2^-17` of its distance to the
/// sample, rounded away from the estimate, and stays within the ADC range.
pub open spec fn followed(estimate: int, raw: int) -> int {
    let present = arith::min(estimate, i32::MAX as int);
    let distance = arith::sat_i32(arith::wrap_i32(raw * 0x1_0000) - present);
    let correction = if distance >= 0 {
        arith::sat_i32(distance + 0x1_ffff) / 0x2_0000
    } else {
        distance / 0x2_0000
    };
    arith::clamp(arith::sat_i32(present + correction), 0, MAX_ESTIMATE as int)
}

/// Whole counts nearest to an estimate, within the ADC range.
pub open spec fn rounded(estimate: int) -> int {
    arith::min(arith::sat_u32(estimate + 0x8000) / 0x1_0000, 4_095)
}

impl CurrentOffsetTracker {
    /// The tracker after one pair of raw samples.
    pub open spec fn after(self, raw_a: u16, raw_b: u16) -> Self {
        CurrentOffsetTracker {
            phase_a: followed(self.phase_a as int, raw_a as int) as u32,
            phase_b: followed(self.phase_b as int, raw_b as int) as u32,
        }
    }

    pub fn new(phase_a: u16, phase_b: u16) -> (r: Self)
        ensures
            r.phase_a == phase_a * 0x1_0000,
            r.phase_b == phase_b * 0x1_0000,
    {
        CurrentOffsetTracker {
            phase_a: phase_a as u32 * 0x1_0000,
            phase_b: phase_b as u32 * 0x1_0000,
        }
    }

    pub fn observe_undriven(&mut self, raw_a: u16, raw_b: u16)
        ensures
            *final(self) == old(self).after(raw_a, raw_b),
    {
        self.phase_a = observe(self.phase_a, raw_a);
        self.phase_b = observe(self.phase_b, raw_b);
    }

    pub fn offsets(self) -> (r: (u16, u16))
        ensures
            r.0 == rounded(self.phase_a as int),
            r.1 == rounded(self.phase_b as int),
            r.0 <= 4_095,
            r.1 <= 4_095,
    {
        (sample(self.phase_a), sample(self.phase_b))
    }
}

fn observe(estimate: u32, raw: u16) -> (r: u32)
    ensures
        r == followed(estimate as int, raw as int),
{
    let scaled: u32 = raw as u32 * 0x1_0000;
    proof {
        arith::lemma_u32(scaled);
    }
    let target: i32 = scaled as i32;
    let present: i32 = if estimate > i32::MAX as u32 {
        i32::MAX
    } else {
        estimate as i32
    };
    let delta: i32 = arith::sat_sub_i32(target, present);
    let correction: i32 = if delta >= 0 {
        arith::sat_add_i32(delta, 0x1_ffff) / 0x2_0000
    } else {
        arith::floor_div_i32(delta, 0x2_0000)
    };
    let next: i32 = arith::sat_add_i32(present, correction);
    if next < 0 {
        0
    } else if next > MAX_ESTIMATE as i32 {
        MAX_ESTIMATE
    } else {
        next as u32
    }
}

fn sample(estimate: u32) -> (r: u16)
    ensures
        r == rounded(estimate as int),
        r <= 4_095,
{
    let whole: u32 = estimate.saturating_add(0x8000) / 0x1_0000;
    if whole > 4_095 {
        4_095
    } else {
        whole as u16
    }
}

/// An estimate within the ADC range moves toward the sample, never past it,
/// and always by something while they differ.
pub proof fn law_tracking_approaches_without_overshoot(estimate: int, raw: int)
    requires
        0 <= estimate <= MAX_ESTIMATE,
        0 <= raw <= 4_095,
    ensures
        0 <= followed(estimate, raw) <= MAX_ESTIMATE,
        estimate < raw * 0x1_0000 ==> estimate < followed(estimate, raw) <= raw * 0x1_0000,
        estimate > raw * 0x1_0000 ==> raw * 0x1_0000 <= followed(estimate, raw) < estimate,
        estimate == raw * 0x1_0000 ==> followed(estimate, raw) == estimate,
{
}

/// Tracking is slow: a sample moves the estimate by its distance over 131,072,
/// rounded up to the next fraction.
pub proof fn law_tracking_moves_by_its_share(estimate: int, raw: int)
    requires
        0 <= estimate <= MAX_ESTIMATE,
        0 <= raw <= 4_095,
    ensures
        ({
            let distance = raw * 0x1_0000 - estimate;
            let moved = followed(estimate, raw) - estimate;
            &&& distance >= 0 ==> 0x2_0000 * (moved - 1) < distance <= 0x2_0000 * moved
            &&& distance <= 0 ==> 0x2_0000 * moved <= distance < 0x2_0000 * (moved + 1)
        }),
{
}

/// The reported offset is the whole count nearest to the estimate, and each
/// phase follows its own samples.
pub proof fn law_offset_is_the_nearest_count(
    tracker: CurrentOffsetTracker,
    raw_a: u16,
    raw_b: u16,
)
    requires
        tracker.phase_a <= MAX_ESTIMATE,
        tracker.phase_b <= MAX_ESTIMATE,
        raw_a <= 4_095,
        raw_b <= 4_095,
    ensures
        arith::abs(0x1_0000 * rounded(tracker.phase_a as int) - tracker.phase_a) <= 0x8000,
        ({
            let next = tracker.after(raw_a, raw_b);
            &&& next.phase_a == followed(tracker.phase_a as int, raw_a as int)
            &&& next.phase_b == followed(tracker.phase_b as int, raw_b as int)
            &&& tracker.phase_a == raw_a * 0x1_0000 ==> next.phase_a == tracker.phase_a
            &&& tracker.phase_b == raw_b * 0x1_0000 ==> next.phase_b == tracker.phase_b
        }),
{
}

} // verus!
