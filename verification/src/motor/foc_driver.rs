//! Synchronous fixed-point FOC motor driver.
//!
//! The driver owns the current controller, selected phase provider, circular
//! current-command envelope, supply-current projection, and measured dq trip.
//! Platform code retains raw ADC sampling, PWM register writes, and immediate
//! hardware shutdown so those operations remain explicit at the ISR boundary.
use vstd::prelude::*;

use crate::arith;
use crate::foc::controller;
use crate::foc::controller::{
    DecouplingModel, FixedFocController, FocController, NoDecoupling,
};
use crate::foc::control_types::{AlphaBeta, Dq, PwmDuty};
use crate::foc::current_limits;
use crate::foc::numeric;
use crate::foc::numeric::{Fixed, Scalar};
use crate::foc::phase::observer;
use crate::foc::phase::{PhaseEstimate, PhaseInput, PhaseProvider};
use crate::foc::transforms;
use crate::foc::trig::{CordicSinCos, SinCos, Turns};

verus! {

/// Current-command, supply-current, and measured-overcurrent limits.
///
/// The command is first constrained to the d-priority current circle. The
/// driver then constrains q current from filtered q-axis modulation so the
/// projected DC-side current remains inside the selected motoring or regen
/// bound. Finally, measured dq magnitude is checked against the hard trip.
#[derive(Clone, Copy, Debug, Eq, PartialEq)]
pub struct CurrentLimits {
    /// Maximum commanded dq magnitude in current-sensor counts.
    pub max_current: Fixed,
    /// Hard measured dq trip magnitude in current-sensor counts.
    pub overcurrent_threshold: Fixed,
    /// Maximum projected battery discharge current; `None` is unlimited.
    pub bus_in_max: Option<Fixed>,
    /// Maximum projected battery charge current; `None` is unlimited.
    pub bus_regen_max: Option<Fixed>,
}

impl CurrentLimits {
    /// The measured current lies outside a positive trip circle.
    pub open spec fn trips(self, measured: Dq) -> bool {
        self.overcurrent_threshold.bits > 0 && Fixed::outside_circle(
            measured.d,
            measured.q,
            self.overcurrent_threshold,
        )
    }

    pub fn new(
        max_current: Fixed,
        overcurrent_threshold: Fixed,
        bus_in_max: Option<Fixed>,
        bus_regen_max: Option<Fixed>,
    ) -> (r: Self)
        ensures
            r == (CurrentLimits { max_current, overcurrent_threshold, bus_in_max, bus_regen_max }),
    {
        CurrentLimits { max_current, overcurrent_threshold, bus_in_max, bus_regen_max }
    }

    pub fn clamp_targets(&self, target: Dq) -> (r: Dq)
        ensures
            r == current_limits::circle_target(self.max_current, target),
    {
        current_limits::clamp_to_circle(self.max_current, target)
    }

    pub fn is_overcurrent(&self, measured: Dq) -> (r: bool)
        ensures
            r == self.trips(measured),
    {
        if self.overcurrent_threshold.to_bits() <= 0 {
            return false;
        }
        Fixed::magnitude_exceeds(measured.d, measured.q, self.overcurrent_threshold)
    }
}

#[derive(Clone, Copy, Debug, Eq, PartialEq, Structural)]
pub enum StepError {
    /// Measured dq magnitude crossed the configured hard trip.
    Overcurrent,
}

/// Complete result of one current-control step.
#[derive(Clone, Copy, Debug, Eq, PartialEq)]
pub struct FocOutput {
    /// Final target after the current circle and supply-current clamp.
    pub target: Dq,
    /// Positive q-axis authority remaining after both clamps.
    pub quadrature_limit: Fixed,
    pub measured_current: Dq,
    pub applied_voltage: Dq,
    pub duties: PwmDuty,
    pub voltage_limited: bool,
}

/// A stationary vector in physical units.
pub open spec fn physical(vector: AlphaBeta, scale: Fixed) -> AlphaBeta {
    AlphaBeta {
        alpha: numeric::fixed(
            observer::q16_product(vector.alpha.bits as int, scale.bits as int),
        ),
        beta: numeric::fixed(observer::q16_product(vector.beta.bits as int, scale.bits as int)),
    }
}

/// Owns current regulation, current limits, and the selected phase provider.
pub struct FocDriver<
    Phase,
    const DEAD_TIME_NUMERATOR: u32,
    const DEAD_TIME_DENOMINATOR: u32,
    Decoupling: DecouplingModel<Fixed> = NoDecoupling,
> {
    pub controller: FixedFocController<DEAD_TIME_NUMERATOR, DEAD_TIME_DENOMINATOR, Decoupling>,
    pub phase: Phase,
    pub current_limits: CurrentLimits,
    pub bus_mod_q_filt_ticks: Fixed,
    pub pwm_period_ticks: u16,
    pub modulation_filter_shift: u8,
    pub volts_per_pwm_tick: Fixed,
    pub amps_per_current_count: Fixed,
    pub previous_applied_voltage: AlphaBeta,
}

impl<
    Phase,
    const DEAD_TIME_NUMERATOR: u32,
    const DEAD_TIME_DENOMINATOR: u32,
    Decoupling: DecouplingModel<Fixed>,
> FocDriver<Phase, DEAD_TIME_NUMERATOR, DEAD_TIME_DENOMINATOR, Decoupling> {
    /// Target after both clamps, with the q authority that is left.
    pub open spec fn limited(self, target: Dq) -> (Dq, Fixed) {
        current_limits::supplied_target(
            self.current_limits.max_current,
            self.current_limits.bus_in_max,
            self.current_limits.bus_regen_max,
            self.bus_mod_q_filt_ticks,
            self.pwm_period_ticks as int,
            target,
        )
    }

    /// The driver with its history cleared: controller state, filtered voltage
    /// and observer pairing.
    pub open spec fn cleared(self) -> Self {
        FocDriver {
            controller: self.controller.cleared(),
            bus_mod_q_filt_ticks: numeric::fixed(0),
            previous_applied_voltage: AlphaBeta::null(),
            ..self
        }
    }

    /// The filtered q voltage after a sample.
    pub open spec fn filtered(self, applied: Dq) -> Fixed {
        numeric::fixed(
            current_limits::modulation_step(
                self.bus_mod_q_filt_ticks.bits as int,
                applied.q.bits as int,
                self.modulation_filter_shift as int,
            ),
        )
    }

    pub fn new(
        controller: FixedFocController<DEAD_TIME_NUMERATOR, DEAD_TIME_DENOMINATOR, Decoupling>,
        phase: Phase,
        current_limits: CurrentLimits,
        pwm_period_ticks: u16,
        modulation_filter_shift: u8,
    ) -> (r: Self)
        ensures
            r == (FocDriver {
                controller,
                phase,
                current_limits,
                bus_mod_q_filt_ticks: numeric::fixed(0),
                pwm_period_ticks,
                modulation_filter_shift,
                volts_per_pwm_tick: numeric::fixed(0x1_0000),
                amps_per_current_count: numeric::fixed(0x1_0000),
                previous_applied_voltage: AlphaBeta::null(),
            }),
    {
        FocDriver {
            controller,
            phase,
            current_limits,
            bus_mod_q_filt_ticks: Fixed::zero(),
            pwm_period_ticks,
            modulation_filter_shift,
            volts_per_pwm_tick: Fixed::one(),
            amps_per_current_count: Fixed::one(),
            previous_applied_voltage: AlphaBeta::new_zero(),
        }
    }

    /// Configure the physical scales supplied to phase observers.
    pub fn with_observer_scales(
        self,
        volts_per_pwm_tick: Fixed,
        amps_per_current_count: Fixed,
    ) -> (r: Self)
        ensures
            r == (FocDriver { volts_per_pwm_tick, amps_per_current_count, ..self }),
    {
        FocDriver { volts_per_pwm_tick, amps_per_current_count, ..self }
    }

    /// Refresh the bus-dependent voltage scale without disturbing the
    /// previous-cycle voltage/current pairing.
    pub fn set_volts_per_pwm_tick(&mut self, volts_per_pwm_tick: Fixed)
        ensures
            *final(self) == (FocDriver { volts_per_pwm_tick, ..*old(self) }),
    {
        self.volts_per_pwm_tick = volts_per_pwm_tick;
    }

    pub fn phase(&self) -> (r: &Phase)
        ensures
            *r == self.phase,
    {
        &self.phase
    }

    pub fn phase_mut(&mut self) -> (r: &mut Phase)
        ensures
            *r == old(self).phase,
            *final(self) == (FocDriver { phase: *final(r), ..*old(self) }),
    {
        &mut self.phase
    }

    pub fn current_limits(&self) -> (r: &CurrentLimits)
        ensures
            *r == self.current_limits,
    {
        &self.current_limits
    }

    pub fn set_current_limits(&mut self, limits: CurrentLimits)
        ensures
            *final(self) == (FocDriver { current_limits: limits, ..*old(self) }),
    {
        self.current_limits = limits;
    }

    pub fn set_bus_limits(&mut self, input: Option<Fixed>, regen: Option<Fixed>)
        ensures
            *final(self) == (FocDriver {
                current_limits: CurrentLimits {
                    bus_in_max: input,
                    bus_regen_max: regen,
                    ..old(self).current_limits
                },
                ..*old(self)
            }),
    {
        self.current_limits.bus_in_max = input;
        self.current_limits.bus_regen_max = regen;
    }

    pub fn set_actuation_advance(&mut self, advance: Fixed)
        ensures
            *final(self) == (FocDriver {
                controller: FocController {
                    actuation_advance: numeric::clamped(
                        advance,
                        Fixed::half_value().negated(),
                        Fixed::half_value(),
                    ),
                    ..old(self).controller
                },
                ..*old(self)
            }),
    {
        self.controller.set_actuation_advance(advance);
    }

    pub fn reset(&mut self)
        ensures
            *final(self) == old(self).cleared(),
    {
        self.controller.reset();
        self.bus_mod_q_filt_ticks = Fixed::zero();
        self.previous_applied_voltage = AlphaBeta::new_zero();
    }

    pub fn filtered_q_modulation(&self) -> (r: Fixed)
        ensures
            r.bits == current_limits::modulation_of(
                self.bus_mod_q_filt_ticks.bits as int,
                self.pwm_period_ticks as int,
            ),
    {
        current_limits::q_modulation(self.bus_mod_q_filt_ticks, self.pwm_period_ticks)
    }

    pub fn note_applied_voltage(&mut self, applied: Dq)
        ensures
            *final(self) == (FocDriver {
                bus_mod_q_filt_ticks: old(self).filtered(applied),
                ..*old(self)
            }),
    {
        self.bus_mod_q_filt_ticks = current_limits::filter_modulation(
            self.bus_mod_q_filt_ticks,
            applied.q,
            self.modulation_filter_shift,
        );
    }

    pub fn clamp_targets_with_limit(&self, target: Dq) -> (r: (Dq, Fixed))
        ensures
            r == self.limited(target),
    {
        current_limits::limit_target(
            self.current_limits.max_current,
            self.current_limits.bus_in_max,
            self.current_limits.bus_regen_max,
            self.bus_mod_q_filt_ticks,
            self.pwm_period_ticks,
            target,
        )
    }
}

impl<
    Phase,
    const DEAD_TIME_NUMERATOR: u32,
    const DEAD_TIME_DENOMINATOR: u32,
    Decoupling: DecouplingModel<Fixed>,
> FocDriver<Phase, DEAD_TIME_NUMERATOR, DEAD_TIME_DENOMINATOR, Decoupling> where
    Phase: PhaseProvider<Fixed, Angle = Turns>,
 {
    /// The controller after regulating toward the limited target.
    pub open spec fn regulated(
        self,
        phase_a: Fixed,
        phase_b: Fixed,
        estimate: PhaseEstimate<Turns>,
        target: Dq,
    ) -> FixedFocController<DEAD_TIME_NUMERATOR, DEAD_TIME_DENOMINATOR, Decoupling> {
        self.controller.regulated(
            phase_a,
            phase_b,
            estimate.angle,
            estimate.electrical_rpm,
            self.limited(target).0,
            self.phase.present_injection(),
            self.volts_per_pwm_tick,
        )
    }

    /// Measured current of a sample in the rotor frame.
    pub open spec fn measured(
        phase_a: Fixed,
        phase_b: Fixed,
        estimate: PhaseEstimate<Turns>,
    ) -> Dq {
        controller::sampled_current::<Fixed, CordicSinCos>(phase_a, phase_b, estimate.angle).1
    }

    /// Sample that the phase provider sees: the voltage that was applied while
    /// the present current was flowing.
    pub open spec fn observed(self, measured: AlphaBeta, control_period_ns: u32) -> PhaseInput {
        PhaseInput {
            applied_voltage: self.previous_applied_voltage,
            measured_current: physical(measured, self.amps_per_current_count),
            control_period_ns,
        }
    }

    /// The driver after a step whose current stayed inside the trip.
    pub open spec fn stepped(
        self,
        phase_a: Fixed,
        phase_b: Fixed,
        estimate: PhaseEstimate<Turns>,
        target: Dq,
        control_period_ns: u32,
    ) -> Self {
        let controller = self.regulated(phase_a, phase_b, estimate, target);
        FocDriver {
            controller,
            bus_mod_q_filt_ticks: self.filtered(controller.applied_voltage),
            phase: self.phase.after_update(
                self.observed(controller.measured_stationary, control_period_ns),
            ),
            previous_applied_voltage: physical(
                controller.applied_stationary,
                self.volts_per_pwm_tick,
            ),
            ..self
        }
    }

    /// Report of a step whose current stayed inside the trip.
    pub open spec fn output(
        self,
        phase_a: Fixed,
        phase_b: Fixed,
        estimate: PhaseEstimate<Turns>,
        target: Dq,
        pwm_neutral: u16,
    ) -> FocOutput {
        let controller = self.regulated(phase_a, phase_b, estimate, target);
        FocOutput {
            target: self.limited(target).0,
            quadrature_limit: self.limited(target).1,
            measured_current: Self::measured(phase_a, phase_b, estimate),
            applied_voltage: controller.applied_voltage,
            duties: controller.duties(phase_a, phase_b, pwm_neutral),
            voltage_limited: controller.voltage_limited,
        }
    }

    pub fn estimate_for_control(
        &mut self,
        elapsed_since_observation_us: u32,
        control_period_ns: u32,
    ) -> (r: Option<PhaseEstimate<Turns>>)
        requires
            old(self).phase.ready(),
        ensures
            final(self).phase.ready(),
            r == old(self).phase.control_estimate_at(
                elapsed_since_observation_us,
                control_period_ns,
            ),
            *final(self) == (FocDriver {
                phase: old(self).phase.after_control_estimate(
                    elapsed_since_observation_us,
                    control_period_ns,
                ),
                ..*old(self)
            }),
    {
        self.phase.estimate_for_control(elapsed_since_observation_us, control_period_ns)
    }

    /// One complete current-control step. A measured current beyond the trip
    /// clears the controller and leaves everything else as it was.
    pub fn step_current_control(
        &mut self,
        phase_a: Fixed,
        phase_b: Fixed,
        estimate: PhaseEstimate<Turns>,
        target: Dq,
        pwm_neutral: u16,
        control_period_ns: u32,
    ) -> (r: Result<FocOutput, StepError>)
        requires
            old(self).phase.ready(),
            FixedFocController::<
                DEAD_TIME_NUMERATOR,
                DEAD_TIME_DENOMINATOR,
                Decoupling,
            >::dead_time_is_a_ratio(),
            Decoupling::accepts(
                estimate.electrical_rpm,
                old(self).limited(target).0,
                old(self).volts_per_pwm_tick,
            ),
        ensures
            final(self).phase.ready(),
            if old(self).current_limits.trips(Self::measured(phase_a, phase_b, estimate)) {
                &&& r == Err::<FocOutput, StepError>(StepError::Overcurrent)
                &&& *final(self) == (FocDriver {
                    controller: old(self).controller.cleared(),
                    ..*old(self)
                })
            } else {
                &&& r == Ok::<FocOutput, StepError>(
                    old(self).output(phase_a, phase_b, estimate, target, pwm_neutral),
                )
                &&& *final(self) == old(self).stepped(
                    phase_a,
                    phase_b,
                    estimate,
                    target,
                    control_period_ns,
                )
            },
    {
        let (target, quadrature_limit) = self.clamp_targets_with_limit(target);
        let injection = self.phase.injection();
        let (measured_current, duties) = self.controller.step_with_velocity_and_injection(
            phase_a,
            phase_b,
            estimate.angle,
            estimate.electrical_rpm,
            target,
            injection,
            self.volts_per_pwm_tick,
            pwm_neutral,
        );
        if self.current_limits.is_overcurrent(measured_current) {
            self.controller.reset();
            return Err(StepError::Overcurrent);
        }
        let applied_voltage = self.controller.applied_voltage();
        self.note_applied_voltage(applied_voltage);
        let voltage_limited: bool = self.controller.voltage_limited();
        let measured_stationary = scale_observer_vector(
            self.controller.measured_stationary(),
            self.amps_per_current_count,
        );
        let applied_stationary = scale_observer_vector(
            self.controller.applied_stationary(),
            self.volts_per_pwm_tick,
        );
        let input = PhaseInput::new(
            self.previous_applied_voltage,
            measured_stationary,
            control_period_ns,
        );
        self.phase.update(&input);
        self.previous_applied_voltage = applied_stationary;
        Ok(
            FocOutput {
                target,
                quadrature_limit,
                measured_current,
                applied_voltage,
                duties,
                voltage_limited,
            },
        )
    }
}

/// Controller current and voltage are already bounded by the ADC and PWM
/// envelopes. Their physical scales cannot approach Q16.16 overflow, so the
/// observer bridge needs only the fixed-point product, not another saturation
/// around each axis.
fn scale_observer_vector(vector: AlphaBeta, scale: Fixed) -> (r: AlphaBeta)
    ensures
        r == physical(vector, scale),
{
    AlphaBeta {
        alpha: Fixed::from_bits(observer::multiply_q16(vector.alpha.to_bits(), scale.to_bits())),
        beta: Fixed::from_bits(observer::multiply_q16(vector.beta.to_bits(), scale.to_bits())),
    }
}

/// The phase provider always pairs a current sample with the voltage of the
/// step before: what it sees in the second of two steps is what the first one
/// applied.
pub proof fn law_observer_receives_the_previous_voltage<
    Phase: PhaseProvider<Fixed, Angle = Turns>,
    const NUMERATOR: u32,
    const DENOMINATOR: u32,
    D: DecouplingModel<Fixed>,
>(
    driver: FocDriver<Phase, NUMERATOR, DENOMINATOR, D>,
    phase_a: Fixed,
    phase_b: Fixed,
    estimate: PhaseEstimate<Turns>,
    target: Dq,
    control_period_ns: u32,
    next_measured: AlphaBeta,
)
    ensures
        driver.stepped(phase_a, phase_b, estimate, target, control_period_ns).observed(
            next_measured,
            control_period_ns,
        ).applied_voltage == physical(
            driver.regulated(phase_a, phase_b, estimate, target).applied_stationary,
            driver.volts_per_pwm_tick,
        ),
{
}

/// A step commands no current outside the circle, reports the target it
/// regulated toward, and applies no voltage outside the controller's circle.
pub proof fn law_step_stays_inside_both_circles<
    Phase: PhaseProvider<Fixed, Angle = Turns>,
    const NUMERATOR: u32,
    const DENOMINATOR: u32,
    D: DecouplingModel<Fixed>,
>(
    driver: FocDriver<Phase, NUMERATOR, DENOMINATOR, D>,
    phase_a: Fixed,
    phase_b: Fixed,
    estimate: PhaseEstimate<Turns>,
    target: Dq,
    pwm_neutral: u16,
)
    requires
        driver.current_limits.max_current.bits > 0,
    ensures
        ({
            let output = driver.output(phase_a, phase_b, estimate, target, pwm_neutral);
            &&& !Fixed::outside_circle(
                output.target.d,
                output.target.q,
                driver.current_limits.max_current,
            )
            &&& !Fixed::outside_circle(
                output.applied_voltage.d,
                output.applied_voltage.q,
                driver.controller.vector_limit_ticks,
            )
        }),
{
    let max = driver.current_limits.max_current;
    current_limits::law_target_stays_inside_the_circle(max, target);
    let circle = current_limits::circle_target(max, target);
    current_limits::law_authority_is_not_negative(max, circle.d);
    let limited = driver.limited(target).0;
    let c = circle.q.bits as int;
    let q = limited.q.bits as int;
    lemma_smaller_square(q, c);
    let requested = driver.regulated(phase_a, phase_b, estimate, target).requested_voltage;
    numeric::law_limited_vector_is_inside_the_circle(
        requested.d,
        requested.q,
        driver.controller.vector_limit_ticks,
    );
}

proof fn lemma_smaller_square(small: int, large: int)
    ensures
        -arith::abs(large) <= small <= arith::abs(large) ==> small * small <= large
            * large,
{
    assert(-arith::abs(large) <= small <= arith::abs(large) ==> small * small <= large
        * large) by (nonlinear_arith);
}

/// A target that no limit forbids is regulated toward as it is: inside the
/// current circle and without supply limits the driver changes nothing.
pub proof fn law_permitted_target_is_unchanged<
    Phase: PhaseProvider<Fixed, Angle = Turns>,
    const NUMERATOR: u32,
    const DENOMINATOR: u32,
    D: DecouplingModel<Fixed>,
>(
    driver: FocDriver<Phase, NUMERATOR, DENOMINATOR, D>,
    phase_a: Fixed,
    phase_b: Fixed,
    estimate: PhaseEstimate<Turns>,
    target: Dq,
    pwm_neutral: u16,
)
    requires
        driver.current_limits.max_current.bits > 0,
        target.d.bits * target.d.bits + target.q.bits * target.q.bits
            <= driver.current_limits.max_current.bits * driver.current_limits.max_current.bits,
        driver.current_limits.bus_in_max is None,
        driver.current_limits.bus_regen_max is None,
    ensures
        driver.output(phase_a, phase_b, estimate, target, pwm_neutral).target == target,
{
    let max = driver.current_limits.max_current;
    numeric::law_circle_is_measured_by_length(target.d, target.q, max);
    current_limits::law_circle_takes_no_more_than_it_must(max, target);
}

/// A step trips exactly if the measured vector is longer than a positive
/// threshold; a threshold that is not positive never trips.
pub proof fn law_trip_compares_lengths(limits: CurrentLimits, measured: Dq)
    ensures
        limits.trips(measured) <==> {
            &&& limits.overcurrent_threshold.bits > 0
            &&& measured.d.bits * measured.d.bits + measured.q.bits * measured.q.bits
                > limits.overcurrent_threshold.bits * limits.overcurrent_threshold.bits
        },
{
    numeric::law_circle_is_measured_by_length(
        measured.d,
        measured.q,
        limits.overcurrent_threshold,
    );
}

/// What a step reports and hands on: the measured current is that of the phases
/// at the estimate's angle, the filtered voltage moves toward the applied q
/// voltage and never past it, and limits, scales and period stay as they were.
#[verifier::rlimit(40)]
pub proof fn law_step_reports_the_sampled_current<
    Phase: PhaseProvider<Fixed, Angle = Turns>,
    const NUMERATOR: u32,
    const DENOMINATOR: u32,
    D: DecouplingModel<Fixed>,
>(
    driver: FocDriver<Phase, NUMERATOR, DENOMINATOR, D>,
    phase_a: Fixed,
    phase_b: Fixed,
    estimate: PhaseEstimate<Turns>,
    target: Dq,
    pwm_neutral: u16,
    control_period_ns: u32,
)
    requires
        arith::abs(phase_a.bits as int) <= 0x0900_0000,
        arith::abs(phase_b.bits as int) <= 0x0900_0000,
    ensures
        ({
            let output = driver.output(phase_a, phase_b, estimate, target, pwm_neutral);
            let next = driver.stepped(phase_a, phase_b, estimate, target, control_period_ns);
            let (sin, cos) = CordicSinCos::sin_cos_of(estimate.angle);
            let (alpha, beta) = transforms::inverse_park_of(
                output.measured_current.d,
                output.measured_current.q,
                sin,
                cos,
            );
            let (a, b, c) = transforms::inverse_clarke_of(alpha, beta);
            let before = driver.bus_mod_q_filt_ticks.bits;
            let after = next.bus_mod_q_filt_ticks.bits;
            let applied = output.applied_voltage.q.bits;
            &&& arith::abs(a.bits - phase_a.bits) <= 0x2_0000
            &&& arith::abs(b.bits - phase_b.bits) <= 0x2_0000
            &&& arith::abs(c.bits + phase_a.bits + phase_b.bits) <= 0x2_0000
            &&& before <= applied ==> before <= after <= applied
            &&& before >= applied ==> before >= after >= applied
            &&& next.controller.applied_voltage == output.applied_voltage
            &&& next.controller.voltage_limited == output.voltage_limited
            &&& next.current_limits == driver.current_limits
            &&& next.pwm_period_ticks == driver.pwm_period_ticks
            &&& next.volts_per_pwm_tick == driver.volts_per_pwm_tick
            &&& next.amps_per_current_count == driver.amps_per_current_count
        }),
{
    controller::law_measured_current_is_the_phase_current(phase_a, phase_b, estimate.angle);
    let applied = driver.regulated(phase_a, phase_b, estimate, target).applied_voltage;
    current_limits::law_filter_never_overshoots(
        driver.bus_mod_q_filt_ticks.bits as int,
        applied.q.bits as int,
        driver.modulation_filter_shift as int,
    );
}

/// Physical units are the raw ones times their scale, rounded down.
pub proof fn law_physical_vector_is_scaled(vector: AlphaBeta, scale: Fixed)
    requires
        arith::abs(vector.alpha.bits * scale.bits) <= 0x4000_0000_0000,
        arith::abs(vector.beta.bits * scale.bits) <= 0x4000_0000_0000,
    ensures
        ({
            let r = physical(vector, scale);
            &&& 0x1_0000 * r.alpha.bits <= vector.alpha.bits * scale.bits < 0x1_0000 * (r.alpha.bits
                + 1)
            &&& 0x1_0000 * r.beta.bits <= vector.beta.bits * scale.bits < 0x1_0000 * (r.beta.bits
                + 1)
        }),
{
}

/// A step hands the phase provider the measured current in physical units, and
/// the controller the estimate's angle and speed, the limited target and the
/// voltage of a tick.
pub proof fn law_step_hands_on_its_inputs<
    Phase: PhaseProvider<Fixed, Angle = Turns>,
    const NUMERATOR: u32,
    const DENOMINATOR: u32,
    D: DecouplingModel<Fixed>,
>(
    driver: FocDriver<Phase, NUMERATOR, DENOMINATOR, D>,
    phase_a: Fixed,
    phase_b: Fixed,
    estimate: PhaseEstimate<Turns>,
    target: Dq,
    pwm_neutral: u16,
    control_period_ns: u32,
)
    ensures
        ({
            let next = driver.stepped(phase_a, phase_b, estimate, target, control_period_ns);
            let output = driver.output(phase_a, phase_b, estimate, target, pwm_neutral);
            let (stationary, measured) = controller::sampled_current::<Fixed, CordicSinCos>(
                phase_a,
                phase_b,
                estimate.angle,
            );
            let input = driver.observed(stationary, control_period_ns);
            &&& next.phase == driver.phase.after_update(input)
            &&& input.measured_current == physical(stationary, driver.amps_per_current_count)
            &&& input.applied_voltage == driver.previous_applied_voltage
            &&& input.control_period_ns == control_period_ns
            &&& next.controller.measured_stationary == stationary
            &&& output.measured_current == measured
            &&& next.controller.feedforward_voltage == D::feedforward_for(
                estimate.electrical_rpm,
                output.target,
                driver.volts_per_pwm_tick,
            )
            &&& next.controller.direct.previous_error.bits == arith::sat_i32(
                output.target.d.bits - measured.d.bits,
            )
            &&& next.controller.quadrature.previous_error.bits == arith::sat_i32(
                output.target.q.bits - measured.q.bits,
            )
            &&& output.duties == next.controller.duties(phase_a, phase_b, pwm_neutral)
        }),
{
}

} // verus!
