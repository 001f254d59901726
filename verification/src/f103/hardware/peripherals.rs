//! Fault latching, Hall capture, current conversion, and output gating.
//!
//! Everything here works on values read from registers; what to write back is
//! the result.
use vstd::prelude::*;

use crate::arith;
use crate::f103::config::{FOC_HARD_PHASE_LIMIT_TICKS, PWM_ARR, PWM_NEUTRAL};
use crate::f103::safety::{pwm_failure_cause, pwm_pin_flag};
use crate::foc::control_types::PwmDuty;

verus! {

pub const FAULT_HARDWARE_BREAK: u32 = 1;

pub const FAULT_PWM_RANGE: u32 = 2;

pub const FAULT_HALL_CAPTURE: u32 = 4;

pub const FAULT_CONTROL_TIMING: u32 = 8;

pub const TIM2_TICKS_PER_OVERFLOW: u32 = 65_536;

pub const ADC_CALIBRATION_SAMPLES: u32 = 256;

/// Largest reading of the twelve-bit converter.
pub const ADC_FULL_SCALE: u16 = 4_095;

/// Plausible midpoint offsets.
pub const OFFSET_MINIMUM: u16 = 257;

pub const OFFSET_MAXIMUM: u16 = 3_839;

/// Largest spread of the offset samples.
pub const OFFSET_SPREAD_MAXIMUM: u16 = 128;

#[derive(Clone, Copy, Debug, PartialEq, Eq, Structural)]
pub enum ClockError {
    HsiTimeout,
    HseTimeout,
    HsiSwitchTimeout,
    PllDisableTimeout,
    PllTimeout,
    SwitchTimeout,
}

#[derive(Clone, Copy, Debug, PartialEq, Eq, Structural)]
pub enum AdcError {
    ResetCalibrationTimeout,
    CalibrationTimeout,
    ConversionTimeout,
    CalibrationInvalid,
}

#[derive(Clone, Copy, Debug, PartialEq, Eq, Structural)]
pub enum CurrentSampleError {
    NotReady,
    OutOfRange,
}

#[derive(Clone, Copy, Debug, Default, PartialEq, Eq, Structural)]
pub struct CurrentOffsets {
    pub phase_a: u16,
    pub phase_b: u16,
}

#[derive(Clone, Copy, Debug, Default, PartialEq, Eq, Structural)]
pub struct PhaseCurrentSample {
    pub raw_a: u16,
    pub raw_b: u16,
    pub phase_a: i16,
    pub phase_b: i16,
    pub phase_c: i16,
}

impl PhaseCurrentSample {
    /// Largest magnitude of the three phases.
    pub open spec fn peak(self) -> int {
        arith::max(
            arith::max(arith::abs(self.phase_a as int), arith::abs(self.phase_b as int)),
            arith::abs(self.phase_c as int),
        )
    }

    pub fn peak_magnitude(self) -> (r: u16)
        ensures
            r == self.peak(),
    {
        let a: u16 = arith::unsigned_abs_i16(self.phase_a);
        let b: u16 = arith::unsigned_abs_i16(self.phase_b);
        let c: u16 = arith::unsigned_abs_i16(self.phase_c);
        let ab: u16 = if a >= b {
            a
        } else {
            b
        };
        if ab >= c {
            ab
        } else {
            c
        }
    }

    pub fn exceeds_limit(self, limit: u16) -> (r: bool)
        ensures
            r == (self.peak() > limit),
    {
        self.peak_magnitude() > limit
    }
}

/// Phase currents of a pair of readings: phase C closes the sum to zero.
pub open spec fn currents_of(raw_a: u16, raw_b: u16, offsets: CurrentOffsets) -> PhaseCurrentSample {
    PhaseCurrentSample {
        raw_a,
        raw_b,
        phase_a: (raw_a - offsets.phase_a) as i16,
        phase_b: (raw_b - offsets.phase_b) as i16,
        phase_c: (-(raw_a - offsets.phase_a) - (raw_b - offsets.phase_b)) as i16,
    }
}

/// Readings and offsets lie within the converter's range.
pub open spec fn readings_in_range(raw_a: u16, raw_b: u16, offsets: CurrentOffsets) -> bool {
    &&& raw_a <= ADC_FULL_SCALE
    &&& raw_b <= ADC_FULL_SCALE
    &&& offsets.phase_a <= ADC_FULL_SCALE
    &&& offsets.phase_b <= ADC_FULL_SCALE
}

/// Converts a pair of injected readings, if both conversions are complete.
pub fn read_phase_currents(
    readings: Option<(u16, u16)>,
    offsets: CurrentOffsets,
) -> (r: Result<PhaseCurrentSample, CurrentSampleError>)
    ensures
        match readings {
            None => r == Err::<PhaseCurrentSample, CurrentSampleError>(
                CurrentSampleError::NotReady,
            ),
            Some((raw_a, raw_b)) => if readings_in_range(raw_a, raw_b, offsets) {
                r == Ok::<PhaseCurrentSample, CurrentSampleError>(
                    currents_of(raw_a, raw_b, offsets),
                )
            } else {
                r == Err::<PhaseCurrentSample, CurrentSampleError>(CurrentSampleError::OutOfRange)
            },
        },
{
    match readings {
        None => Err(CurrentSampleError::NotReady),
        Some((raw_a, raw_b)) => {
            if raw_a > ADC_FULL_SCALE || raw_b > ADC_FULL_SCALE || offsets.phase_a > ADC_FULL_SCALE
                || offsets.phase_b > ADC_FULL_SCALE {
                return Err(CurrentSampleError::OutOfRange);
            }
            let phase_a: i16 = raw_a as i16 - offsets.phase_a as i16;
            let phase_b: i16 = raw_b as i16 - offsets.phase_b as i16;
            let phase_c: i16 = -phase_a - phase_b;
            Ok(PhaseCurrentSample { raw_a, raw_b, phase_a, phase_b, phase_c })
        },
    }
}

/// Running statistics of the offset samples of one phase.
#[derive(Clone, Copy, Debug, PartialEq, Eq, Structural)]
pub struct OffsetAverage {
    pub sum: u32,
    pub minimum: u16,
    pub maximum: u16,
}

/// Sum of a sequence of readings.
pub open spec fn sum_of(samples: Seq<u16>) -> int
    decreases samples.len(),
{
    if samples.len() == 0 {
        0
    } else {
        sum_of(samples.drop_last()) + samples.last()
    }
}

/// Smallest of a sequence of readings.
pub open spec fn minimum_of(samples: Seq<u16>) -> int
    decreases samples.len(),
{
    if samples.len() == 0 {
        u16::MAX as int
    } else {
        arith::min(minimum_of(samples.drop_last()), samples.last() as int)
    }
}

/// Largest of a sequence of readings.
pub open spec fn maximum_of(samples: Seq<u16>) -> int
    decreases samples.len(),
{
    if samples.len() == 0 {
        0
    } else {
        arith::max(maximum_of(samples.drop_last()), samples.last() as int)
    }
}

/// The mean of a full run of samples.
pub open spec fn mean_of(samples: Seq<u16>) -> int {
    sum_of(samples) / ADC_CALIBRATION_SAMPLES as int
}

/// A run of offset samples is usable: a plausible mean and little spread.
pub open spec fn offset_is_plausible(samples: Seq<u16>) -> bool {
    &&& OFFSET_MINIMUM <= mean_of(samples) <= OFFSET_MAXIMUM
    &&& maximum_of(samples) - minimum_of(samples) <= OFFSET_SPREAD_MAXIMUM
}

fn average_offset(samples: &[u16]) -> (r: OffsetAverage)
    requires
        samples@.len() == ADC_CALIBRATION_SAMPLES,
    ensures
        r.sum == sum_of(samples@),
        r.minimum == minimum_of(samples@),
        r.maximum == maximum_of(samples@),
        r.sum <= ADC_CALIBRATION_SAMPLES * u16::MAX,
{
    let mut average = OffsetAverage { sum: 0, minimum: u16::MAX, maximum: 0 };
    let mut index: usize = 0;
    assert(samples@.take(0) =~= Seq::<u16>::empty());
    while index < samples.len()
        invariant
            index <= samples@.len() == ADC_CALIBRATION_SAMPLES,
            average.sum == sum_of(samples@.take(index as int)),
            average.minimum == minimum_of(samples@.take(index as int)),
            average.maximum == maximum_of(samples@.take(index as int)),
            average.sum <= index * u16::MAX,
        decreases samples@.len() - index,
    {
        let sample: u16 = samples[index];
        assert(samples@.take(index + 1).drop_last() =~= samples@.take(index as int));
        average.sum = average.sum + sample as u32;
        if sample < average.minimum {
            average.minimum = sample;
        }
        if sample > average.maximum {
            average.maximum = sample;
        }
        index = index + 1;
    }
    assert(samples@.take(index as int) =~= samples@);
    average
}

/// Midpoint offsets from a run of samples taken with the bridge disabled.
pub fn calibrate_current_offsets(samples_a: &[u16], samples_b: &[u16]) -> (r: Result<
    CurrentOffsets,
    AdcError,
>)
    requires
        samples_a@.len() == ADC_CALIBRATION_SAMPLES,
        samples_b@.len() == ADC_CALIBRATION_SAMPLES,
    ensures
        match r {
            Ok(offsets) => {
                &&& offset_is_plausible(samples_a@)
                &&& offset_is_plausible(samples_b@)
                &&& offsets.phase_a == mean_of(samples_a@)
                &&& offsets.phase_b == mean_of(samples_b@)
            },
            Err(error) => error == AdcError::CalibrationInvalid && !(offset_is_plausible(
                samples_a@,
            ) && offset_is_plausible(samples_b@)),
        },
{
    let a = average_offset(samples_a);
    let b = average_offset(samples_b);
    let phase_a: u16 = (a.sum / ADC_CALIBRATION_SAMPLES) as u16;
    let phase_b: u16 = (b.sum / ADC_CALIBRATION_SAMPLES) as u16;
    if phase_a < OFFSET_MINIMUM || phase_a > OFFSET_MAXIMUM || phase_b < OFFSET_MINIMUM || phase_b
        > OFFSET_MAXIMUM || a.maximum.saturating_sub(a.minimum) > OFFSET_SPREAD_MAXIMUM
        || b.maximum.saturating_sub(b.minimum) > OFFSET_SPREAD_MAXIMUM {
        return Err(AdcError::CalibrationInvalid);
    }
    Ok(CurrentOffsets { phase_a, phase_b })
}

/// Latched faults. A fault stays until it is acknowledged locally.
#[derive(Clone, Copy, Debug, Default, PartialEq, Eq, Structural)]
pub struct FaultLatch {
    pub hardware_break: bool,
    pub pwm_range: bool,
    pub hall_capture: bool,
    pub control_timing: bool,
}

impl FaultLatch {
    pub open spec fn mask(self) -> int {
        FAULT_HARDWARE_BREAK * arith::bit(self.hardware_break) + FAULT_PWM_RANGE * arith::bit(
            self.pwm_range,
        ) + FAULT_HALL_CAPTURE * arith::bit(self.hall_capture) + FAULT_CONTROL_TIMING * arith::bit(
            self.control_timing,
        )
    }

    /// No fault is latched.
    pub open spec fn rearmed() -> Self {
        FaultLatch {
            hardware_break: false,
            pwm_range: false,
            hall_capture: false,
            control_timing: false,
        }
    }

    /// Some fault is latched.
    pub open spec fn is_set(self) -> bool {
        self.hardware_break || self.pwm_range || self.hall_capture || self.control_timing
    }

    pub fn any(&self) -> (r: bool)
        ensures
            r == self.is_set(),
    {
        self.hardware_break || self.pwm_range || self.hall_capture || self.control_timing
    }
}

pub fn fault_flags(faults: &FaultLatch) -> (r: u32)
    ensures
        r == faults.mask(),
{
    FAULT_HARDWARE_BREAK * arith::flag(faults.hardware_break) as u32 + FAULT_PWM_RANGE
        * arith::flag(faults.pwm_range) as u32 + FAULT_HALL_CAPTURE * arith::flag(
        faults.hall_capture,
    ) as u32 + FAULT_CONTROL_TIMING * arith::flag(faults.control_timing) as u32
}

pub fn latch_hardware_break(faults: &mut FaultLatch)
    ensures
        *final(faults) == (FaultLatch { hardware_break: true, ..*old(faults) }),
{
    faults.hardware_break = true;
}

pub fn latch_hall_capture_fault(faults: &mut FaultLatch)
    ensures
        *final(faults) == (FaultLatch { hall_capture: true, ..*old(faults) }),
{
    faults.hall_capture = true;
}

pub fn latch_control_timing_fault(faults: &mut FaultLatch)
    ensures
        *final(faults) == (FaultLatch { control_timing: true, ..*old(faults) }),
{
    faults.control_timing = true;
}

/// Rearms the latch, unless the break input is still active.
pub fn acknowledge_faults(faults: &mut FaultLatch, break_active: bool) -> (r: bool)
    ensures
        r == !break_active,
        *final(faults) == (if r {
            FaultLatch::rearmed()
        } else {
            *old(faults)
        }),
{
    if break_active {
        return false;
    }
    faults.hardware_break = false;
    faults.pwm_range = false;
    faults.hall_capture = false;
    faults.control_timing = false;
    true
}

/// What the Hall timer reports on entry to its interrupt.
#[derive(Clone, Copy, Debug, PartialEq, Eq)]
pub struct HallTimerEvent {
    pub overflowed: bool,
    pub rising_capture: Option<u16>,
    pub falling_capture: Option<u16>,
    /// A capture was lost before it could be read.
    pub overcapture: bool,
    /// Hall pins, read after the capture.
    pub raw: u8,
}

/// Captured Hall edges.
#[derive(Clone, Copy, Debug, Default, PartialEq, Eq, Structural)]
pub struct HallCapture {
    pub raw: u8,
    pub interval_us: u32,
    pub sequence: u32,
    pub overflows: u32,
    pub configured: bool,
}

/// Time of an extended counter.
pub open spec fn extended_time(overflows: int, ticks: int) -> int {
    arith::sat_u32(arith::sat_u32(overflows * TIM2_TICKS_PER_OVERFLOW) + ticks)
}

impl HallTimerEvent {
    /// A lost capture, or both edges at once, cannot be ordered.
    pub open spec fn is_ambiguous(self) -> bool {
        self.overcapture || (self.rising_capture is Some && self.falling_capture is Some)
    }

    pub open spec fn capture(self) -> Option<u16> {
        if self.rising_capture is Some {
            self.rising_capture
        } else {
            self.falling_capture
        }
    }
}

impl HallCapture {
    /// The capture state after an interrupt.
    pub open spec fn after(self, event: HallTimerEvent) -> Self {
        let overflows = arith::wrap_u32(self.overflows + arith::bit(event.overflowed)) as u32;
        if event.is_ambiguous() {
            HallCapture { overflows, ..self }
        } else {
            match event.capture() {
                None => HallCapture { overflows, ..self },
                Some(ticks) => HallCapture {
                    raw: event.raw,
                    interval_us: extended_time(overflows as int, ticks as int) as u32,
                    sequence: arith::wrap_u32(self.sequence + 1) as u32,
                    overflows: 0,
                    ..self
                },
            }
        }
    }

    /// Counts a captured edge; an ambiguous capture latches a fault instead.
    pub fn handle(&mut self, faults: &mut FaultLatch, event: HallTimerEvent)
        ensures
            *final(self) == old(self).after(event),
            *final(faults) == (FaultLatch {
                hall_capture: old(faults).hall_capture || event.is_ambiguous(),
                ..*old(faults)
            }),
    {
        if event.overflowed {
            self.overflows = self.overflows.wrapping_add(1);
        }
        if event.overcapture || (event.rising_capture.is_some() && event.falling_capture.is_some()) {
            latch_hall_capture_fault(faults);
            return;
        }
        let captured = if event.rising_capture.is_some() {
            event.rising_capture
        } else {
            event.falling_capture
        };
        match captured {
            None => {},
            Some(ticks) => {
                self.interval_us = extend_time(self.overflows, ticks);
                self.overflows = 0;
                self.raw = event.raw;
                self.sequence = self.sequence.wrapping_add(1);
            },
        }
    }

    /// Restarts stationary timing at ride entry.
    pub fn restart(&mut self)
        ensures
            *final(self) == (HallCapture { overflows: 0, ..*old(self) }),
    {
        self.overflows = 0;
    }
}

fn extend_time(overflows: u32, ticks: u16) -> (r: u32)
    ensures
        r == extended_time(overflows as int, ticks as int),
{
    arith::sat_mul_u32(overflows, TIM2_TICKS_PER_OVERFLOW).saturating_add(ticks as u32)
}

/// Edge sequence, raw Hall state, and extended microsecond interval. A changed
/// sequence means a new edge is available.
pub fn hall_edge_snapshot(capture: &HallCapture) -> (r: (u32, u8, u32))
    ensures
        r == (capture.sequence, capture.raw, capture.interval_us),
{
    (capture.sequence, capture.raw, capture.interval_us)
}

/// Time since the last edge at a counter reading.
pub fn hall_edge_age_us(capture: &HallCapture, counter: u16) -> (r: u32)
    ensures
        r == extended_time(capture.overflows as int, counter as int),
{
    extend_time(capture.overflows, counter)
}

pub fn hall_is_quiet(capture: &HallCapture, counter: u16, required_ticks: u32) -> (r: bool)
    ensures
        r == (!capture.configured || extended_time(capture.overflows as int, counter as int)
            >= required_ticks),
{
    !capture.configured || hall_edge_age_us(capture, counter) >= required_ticks
}

/// Hall state of the three pins.
pub fn hall_state(a: bool, b: bool, c: bool) -> (r: u8)
    ensures
        r == arith::bit(a) + 2 * arith::bit(b) + 4 * arith::bit(c),
        r < 8,
{
    arith::flag(a) + 2 * arith::flag(b) + 4 * arith::flag(c)
}

/// A compare is within the period and within the hard window around neutral.
pub open spec fn compare_is_permitted(compare: u16) -> bool {
    compare <= PWM_ARR && arith::abs(compare - PWM_NEUTRAL) <= FOC_HARD_PHASE_LIMIT_TICKS
}

/// All three compares are permitted.
pub open spec fn duties_are_permitted(duty: PwmDuty) -> bool {
    compare_is_permitted(duty.a) && compare_is_permitted(duty.b) && compare_is_permitted(duty.c)
}

fn permit_compare(compare: u16) -> (r: bool)
    ensures
        r == compare_is_permitted(compare),
{
    let distance: u16 = if compare >= PWM_NEUTRAL {
        compare - PWM_NEUTRAL
    } else {
        PWM_NEUTRAL - compare
    };
    compare <= PWM_ARR && distance <= FOC_HARD_PHASE_LIMIT_TICKS
}

/// Checks compares before they are written; a violation latches a fault. The
/// explicit range check preserves the current-sample window whatever the
/// modulator does.
pub fn write_pwm_duties(faults: &mut FaultLatch, duty: PwmDuty) -> (r: bool)
    ensures
        r == duties_are_permitted(duty),
        *final(faults) == (FaultLatch { pwm_range: old(faults).pwm_range || !r, ..*old(faults) }),
{
    if permit_compare(duty.a) && permit_compare(duty.b) && permit_compare(duty.c) {
        true
    } else {
        faults.pwm_range = true;
        false
    }
}

/// Compares that apply no voltage.
pub fn write_pwm_neutral() -> (r: PwmDuty)
    ensures
        r == (PwmDuty { a: PWM_NEUTRAL, b: PWM_NEUTRAL, c: PWM_NEUTRAL }),
        duties_are_permitted(r),
{
    PwmDuty { a: PWM_NEUTRAL, b: PWM_NEUTRAL, c: PWM_NEUTRAL }
}

/// Registers that decide whether the outputs may be enabled.
#[derive(Clone, Copy, Debug, PartialEq, Eq, Structural)]
pub struct OutputStage {
    pub break_active: bool,
    pub power_stage_disabled: bool,
    pub channels_enabled: bool,
    pub main_output_enabled: bool,
}

/// What to do about a request to enable the outputs.
#[derive(Clone, Copy, Debug, PartialEq, Eq, Structural)]
pub enum EnableStep {
    /// Refuse, and take the outputs away.
    Shutdown,
    /// Refuse without touching anything.
    Refuse,
    /// The outputs are on already.
    AlreadyEnabled,
    /// Route the pins and set the enables.
    Configure,
}

/// Answer to an enable request.
pub open spec fn enable_step(faults: FaultLatch, stage: OutputStage) -> EnableStep {
    if stage.break_active || faults.is_set() {
        EnableStep::Shutdown
    } else if stage.power_stage_disabled {
        EnableStep::Refuse
    } else if stage.channels_enabled && stage.main_output_enabled {
        EnableStep::AlreadyEnabled
    } else {
        EnableStep::Configure
    }
}

/// Why an enable request is refused.
pub open spec fn cause_of_refusal(faults: FaultLatch, stage: OutputStage) -> u8 {
    if stage.break_active {
        pwm_failure_cause::BREAK_ACTIVE
    } else if faults.is_set() {
        pwm_failure_cause::FAULT_LATCHED
    } else if stage.power_stage_disabled {
        pwm_failure_cause::POWER_STAGE_DISABLED
    } else {
        pwm_failure_cause::NONE
    }
}

/// Cause that is recorded with a refused enable request.
pub fn refusal_cause(faults: &FaultLatch, stage: OutputStage) -> (r: u8)
    ensures
        r == cause_of_refusal(*faults, stage),
{
    if stage.break_active {
        pwm_failure_cause::BREAK_ACTIVE
    } else if faults.any() {
        pwm_failure_cause::FAULT_LATCHED
    } else if stage.power_stage_disabled {
        pwm_failure_cause::POWER_STAGE_DISABLED
    } else {
        pwm_failure_cause::NONE
    }
}

/// Pin conditions that are recorded with a rejected output.
pub fn pin_flags(stage: OutputStage, clock_failed: bool) -> (r: u8)
    ensures
        r == pwm_pin_flag::BREAK_ACTIVE * arith::bit(stage.break_active)
            + pwm_pin_flag::POWER_STAGE_DISABLED * arith::bit(stage.power_stage_disabled)
            + pwm_pin_flag::CLOCK_SECURITY_FAILURE * arith::bit(clock_failed),
{
    pwm_pin_flag::BREAK_ACTIVE * arith::flag(stage.break_active)
        + pwm_pin_flag::POWER_STAGE_DISABLED * arith::flag(stage.power_stage_disabled)
        + pwm_pin_flag::CLOCK_SECURITY_FAILURE * arith::flag(clock_failed)
}

/// Decides an enable request. An active break input latches its fault.
pub fn enable_motor_outputs(faults: &mut FaultLatch, stage: OutputStage) -> (r: EnableStep)
    ensures
        *final(faults) == (FaultLatch {
            hardware_break: old(faults).hardware_break || stage.break_active,
            ..*old(faults)
        }),
        r == enable_step(*old(faults), stage),
{
    if stage.break_active {
        latch_hardware_break(faults);
        return EnableStep::Shutdown;
    }
    if faults.any() {
        return EnableStep::Shutdown;
    }
    if stage.power_stage_disabled {
        return EnableStep::Refuse;
    }
    if stage.channels_enabled && stage.main_output_enabled {
        return EnableStep::AlreadyEnabled;
    }
    EnableStep::Configure
}

/// Nothing forbids the outputs at this instant.
pub fn outputs_permitted(faults: &FaultLatch, break_active: bool) -> (r: bool)
    ensures
        r == (!faults.is_set() && !break_active),
{
    !faults.any() && !break_active
}

/// The enables read back as written, with no break and the power stage on.
pub fn enable_confirmed(stage: OutputStage) -> (r: bool)
    ensures
        r == (stage.channels_enabled && stage.main_output_enabled && !stage.break_active
            && !stage.power_stage_disabled),
{
    stage.main_output_enabled && !stage.break_active && !stage.power_stage_disabled
        && stage.channels_enabled
}

/// A request is refused exactly when there is a cause to record.
pub proof fn law_every_refusal_has_a_cause(faults: FaultLatch, stage: OutputStage)
    ensures
        (enable_step(faults, stage) is Shutdown || enable_step(faults, stage) is Refuse) <==> (
        cause_of_refusal(faults, stage) != pwm_failure_cause::NONE),
{
}

/// The three phase currents always add up to zero, and none exceeds twice the
/// converter's range.
pub proof fn law_phase_currents_cancel(raw_a: u16, raw_b: u16, offsets: CurrentOffsets)
    requires
        readings_in_range(raw_a, raw_b, offsets),
    ensures
        ({
            let sample = currents_of(raw_a, raw_b, offsets);
            &&& sample.phase_a + sample.phase_b + sample.phase_c == 0
            &&& sample.peak() <= 2 * ADC_FULL_SCALE
        }),
{
}

/// Permitted compares stay before the current sample of the same period.
pub proof fn law_permitted_compares_precede_the_sample(duty: PwmDuty)
    requires
        duties_are_permitted(duty),
    ensures
        duty.a < crate::f103::config::PWM_SAMPLE_CC4,
        duty.b < crate::f103::config::PWM_SAMPLE_CC4,
        duty.c < crate::f103::config::PWM_SAMPLE_CC4,
{
}

/// The fault mask is zero exactly when nothing is latched.
pub proof fn law_fault_mask_reports_every_fault(faults: FaultLatch)
    ensures
        (faults.mask() != 0) == faults.is_set(),
{
}

/// A current is the reading's distance from its own offset: a higher reading is a
/// more positive current, and the peak is the largest of the three magnitudes.
pub proof fn law_currents_are_distances_from_the_offsets(
    raw_a: u16,
    raw_b: u16,
    offsets: CurrentOffsets,
)
    requires
        readings_in_range(raw_a, raw_b, offsets),
    ensures
        ({
            let sample = currents_of(raw_a, raw_b, offsets);
            let peak = sample.peak();
            &&& offsets.phase_a + sample.phase_a == raw_a
            &&& offsets.phase_b + sample.phase_b == raw_b
            &&& sample.raw_a == raw_a
            &&& sample.raw_b == raw_b
            &&& -peak <= sample.phase_a <= peak
            &&& -peak <= sample.phase_b <= peak
            &&& -peak <= sample.phase_c <= peak
            &&& peak == sample.phase_a || peak == -sample.phase_a || peak == sample.phase_b || peak
                == -sample.phase_b || peak == sample.phase_c || peak == -sample.phase_c
        }),
{
}

/// The mean of offset samples lies between the smallest and the largest of them,
/// and both are among them.
pub proof fn law_offset_mean_lies_within_the_samples(samples: Seq<u16>)
    requires
        samples.len() == ADC_CALIBRATION_SAMPLES,
    ensures
        minimum_of(samples) <= mean_of(samples) <= maximum_of(samples),
        forall|i: int|
            0 <= i < samples.len() ==> minimum_of(samples) <= #[trigger] samples[i] <= maximum_of(
                samples,
            ),
        exists|i: int| 0 <= i < samples.len() && #[trigger] samples[i] == minimum_of(samples),
        exists|i: int| 0 <= i < samples.len() && #[trigger] samples[i] == maximum_of(samples),
        (forall|i: int| 0 <= i < samples.len() ==> #[trigger] samples[i] == samples[0])
            ==> mean_of(samples) == samples[0],
{
    lemma_sum_is_bounded(samples);
    lemma_extremes(samples);
    let low = minimum_of(samples);
    let high = maximum_of(samples);
    assert(256 * low <= sum_of(samples) <= 256 * high);
    if forall|i: int| 0 <= i < samples.len() ==> #[trigger] samples[i] == samples[0] {
        assert(low == samples[0] && high == samples[0]);
    }
}

proof fn lemma_sum_is_bounded(samples: Seq<u16>)
    ensures
        samples.len() * minimum_of(samples) <= sum_of(samples) <= samples.len() * maximum_of(
            samples,
        ),
        0 <= minimum_of(samples) <= u16::MAX,
        0 <= maximum_of(samples) <= u16::MAX,
    decreases samples.len(),
{
    if samples.len() == 0 {
        assert(0 * minimum_of(samples) == 0 && 0 * maximum_of(samples) == 0);
    } else {
        let rest = samples.drop_last();
        lemma_sum_is_bounded(rest);
        let n = rest.len() as int;
        let low = minimum_of(samples);
        let high = maximum_of(samples);
        assert(n * low <= n * minimum_of(rest) && n * maximum_of(rest) <= n * high)
            by (nonlinear_arith)
            requires
                low <= minimum_of(rest),
                maximum_of(rest) <= high,
                0 <= n,
        ;
        assert(samples.len() * low == n * low + low && samples.len() * high == n * high + high)
            by (nonlinear_arith)
            requires
                samples.len() == n + 1,
        ;
    }
}

proof fn lemma_extremes(samples: Seq<u16>)
    requires
        samples.len() > 0,
    ensures
        forall|i: int|
            0 <= i < samples.len() ==> minimum_of(samples) <= #[trigger] samples[i] <= maximum_of(
                samples,
            ),
        exists|i: int| 0 <= i < samples.len() && #[trigger] samples[i] == minimum_of(samples),
        exists|i: int| 0 <= i < samples.len() && #[trigger] samples[i] == maximum_of(samples),
    decreases samples.len(),
{
    let rest = samples.drop_last();
    let last = samples.len() - 1;
    if rest.len() > 0 {
        lemma_extremes(rest);
        let low = choose|i: int| 0 <= i < rest.len() && #[trigger] rest[i] == minimum_of(rest);
        let high = choose|i: int| 0 <= i < rest.len() && #[trigger] rest[i] == maximum_of(rest);
        assert(samples[low] == rest[low] && samples[high] == rest[high]);
        assert forall|i: int| 0 <= i < samples.len() implies minimum_of(samples)
            <= #[trigger] samples[i] <= maximum_of(samples) by {
            if i < last {
                assert(samples[i] == rest[i]);
            }
        }
    } else {
        assert(minimum_of(rest) == u16::MAX && maximum_of(rest) == 0);
    }
    assert(samples[last] == samples.last());
}

/// Each fault has a bit of its own in the mask.
pub proof fn law_fault_mask_is_lossless(faults: FaultLatch)
    ensures
        faults.hardware_break <==> faults.mask() % 2 == 1,
        faults.pwm_range <==> faults.mask() / 2 % 2 == 1,
        faults.hall_capture <==> faults.mask() / 4 % 2 == 1,
        faults.control_timing <==> faults.mask() / 8 % 2 == 1,
        0 <= faults.mask() < 16,
{
}

/// A captured edge is counted once, brings the pins read with it and the time
/// since the edge before it: the overflows since then, this interrupt's included,
/// and the captured counter. Everything else only counts overflows, and an
/// ambiguous capture counts no edge.
pub proof fn law_hall_edges_are_timed_by_the_extended_counter(
    capture: HallCapture,
    event: HallTimerEvent,
)
    requires
        capture.overflows < 0xffff,
    ensures
        ({
            let after = capture.after(event);
            let overflows = capture.overflows + if event.overflowed {
                1int
            } else {
                0
            };
            let ambiguous = event.overcapture || (event.rising_capture is Some
                && event.falling_capture is Some);
            let edge = !ambiguous && (event.rising_capture is Some || event.falling_capture
                is Some);
            let ticks = if event.rising_capture is Some {
                event.rising_capture->0
            } else {
                event.falling_capture->0
            };
            &&& edge ==> {
                &&& after.interval_us == 0x1_0000 * overflows + ticks
                &&& after.raw == event.raw
                &&& after.sequence == arith::wrap_u32(capture.sequence + 1)
                &&& after.overflows == 0
            }
            &&& !edge ==> {
                &&& after.interval_us == capture.interval_us
                &&& after.raw == capture.raw
                &&& after.sequence == capture.sequence
                &&& after.overflows == overflows
            }
            &&& event.is_ambiguous() <==> ambiguous
            &&& after.configured == capture.configured
        }),
{
}

/// Outputs go on only without a break, a fault or a disabled power stage, and an
/// active break or a fault takes them away.
pub proof fn law_outputs_need_a_clear_stage(faults: FaultLatch, stage: OutputStage)
    ensures
        ({
            let step = enable_step(faults, stage);
            let clear = !stage.break_active && !faults.is_set() && !stage.power_stage_disabled;
            &&& step is Configure || step is AlreadyEnabled <==> clear
            &&& step is Shutdown <==> stage.break_active || faults.is_set()
            &&& step is AlreadyEnabled ==> stage.channels_enabled && stage.main_output_enabled
            &&& clear && !(stage.channels_enabled && stage.main_output_enabled) ==> step
                is Configure
            &&& stage.break_active ==> cause_of_refusal(faults, stage)
                == pwm_failure_cause::BREAK_ACTIVE
        }),
{
}

/// A compare is permitted exactly between 22 and 2,228 ticks.
pub proof fn law_permitted_compares_keep_the_hard_window(compare: u16)
    ensures
        compare_is_permitted(compare) <==> 22 <= compare <= 2_228,
{
}

} // verus!
