//! Synchronous field-oriented current controller.
use core::marker::PhantomData;
use vstd::prelude::*;

use super::control_types::{AlphaBeta, Dq, PwmDuty};
use super::numeric::{Fixed, Scalar};
use super::pi_controller::PIController;
use super::svpwm::{SvpwmTickModulator, TickModulator};
use super::transforms::{clarke, inverse_park, park};
use super::trig::{CordicSinCos, SinCos, Turns};
use crate::arith;
use crate::foc::numeric;
use crate::foc::svpwm;
use crate::foc::transforms;

verus! {

/// Compile-time motor model used for reference-current dq decoupling and
/// permanent-magnet back-EMF feedforward.
pub trait DecouplingModel<N: Scalar> {
    /// Operating points that the model can evaluate.
    open spec fn accepts(electrical_rpm: i32, target: Dq<N>, volts_per_pwm_tick: N) -> bool {
        true
    }

    /// Voltage that the model predicts.
    spec fn feedforward_for(electrical_rpm: i32, target: Dq<N>, volts_per_pwm_tick: N) -> Dq<N>;

    fn feedforward(electrical_rpm: i32, target: Dq<N>, volts_per_pwm_tick: N) -> (r: Dq<N>)
        requires
            Self::accepts(electrical_rpm, target, volts_per_pwm_tick),
        ensures
            r == Self::feedforward_for(electrical_rpm, target, volts_per_pwm_tick),
    ;
}

#[derive(Clone, Copy, Debug, Default)]
pub struct NoDecoupling;

impl<N: Scalar> DecouplingModel<N> for NoDecoupling {
    open spec fn accepts(electrical_rpm: i32, target: Dq<N>, volts_per_pwm_tick: N) -> bool {
        true
    }

    open spec fn feedforward_for(
        electrical_rpm: i32,
        target: Dq<N>,
        volts_per_pwm_tick: N,
    ) -> Dq<N> {
        Dq::null()
    }

    fn feedforward(_electrical_rpm: i32, _target: Dq<N>, _volts_per_pwm_tick: N) -> (r: Dq<N>) {
        Dq::new_zero()
    }
}

/// Fixed-point motor model. Inductance parameters are pre-combined with the
/// current-sense scale as Q16.16 mWb per ADC count; flux is Q16.16 mWb.
pub struct FixedDecoupling<
    const LD_FLUX_PER_COUNT_BITS: u32,
    const LQ_FLUX_PER_COUNT_BITS: u32,
    const FLUX_LINKAGE_MWB_BITS: u32,
>;

/// Voltage scales below this raw value belong to a bus under 17.6 V across a
/// 2,250-tick period, far below the undervoltage cutoff; they get no
/// feedforward.
pub const MINIMUM_VOLTS_PER_TICK_BITS: i32 = 512;

/// Q8 tick numerator of a Q16.16 mWb motor parameter: 6863 is `2*pi/60` in
/// Q16.16, and the quotient is rounded to nearest.
pub open spec fn speed_scale_q8(parameter_bits: int) -> int {
    (6_863 * parameter_bits + 128_000) / 256_000
}

/// Whole PWM ticks of a speed voltage whose Q8 numerator is `numerator`.
pub open spec fn speed_voltage_ticks(numerator: int, volts_per_tick_bits: int) -> int {
    arith::trunc_div(arith::trunc_div(numerator, volts_per_tick_bits), 256)
}

/// The value fits in an `i32`.
pub open spec fn fits_i32(value: int) -> bool {
    i32::MIN <= value <= i32::MAX
}

impl<
    const LD_FLUX_PER_COUNT_BITS: u32,
    const LQ_FLUX_PER_COUNT_BITS: u32,
    const FLUX_LINKAGE_MWB_BITS: u32,
> DecouplingModel<Fixed> for FixedDecoupling<
    LD_FLUX_PER_COUNT_BITS,
    LQ_FLUX_PER_COUNT_BITS,
    FLUX_LINKAGE_MWB_BITS,
> {
    /// The speed voltages stay within the word: the driver constrains current
    /// references and the phase source supplies a plausible speed.
    open spec fn accepts(
        electrical_rpm: i32,
        target: Dq<Fixed>,
        volts_per_pwm_tick: Fixed,
    ) -> bool {
        let d = target.d.bits as int / 0x1_0000;
        let q = target.q.bits as int / 0x1_0000;
        ||| electrical_rpm == 0
        ||| volts_per_pwm_tick.bits < MINIMUM_VOLTS_PER_TICK_BITS
        ||| {
            &&& fits_i32(electrical_rpm * q)
            &&& fits_i32(electrical_rpm * q * speed_scale_q8(LQ_FLUX_PER_COUNT_BITS as int))
            &&& fits_i32(electrical_rpm * d)
            &&& fits_i32(electrical_rpm * d * speed_scale_q8(LD_FLUX_PER_COUNT_BITS as int))
            &&& fits_i32(electrical_rpm * speed_scale_q8(FLUX_LINKAGE_MWB_BITS as int))
        }
    }

    open spec fn feedforward_for(
        electrical_rpm: i32,
        target: Dq<Fixed>,
        volts_per_pwm_tick: Fixed,
    ) -> Dq<Fixed> {
        let volts = volts_per_pwm_tick.bits as int;
        if electrical_rpm == 0 || volts < MINIMUM_VOLTS_PER_TICK_BITS {
            Dq::null()
        } else {
            let d = target.d.bits as int / 0x1_0000;
            let q = target.q.bits as int / 0x1_0000;
            let lq = speed_scale_q8(LQ_FLUX_PER_COUNT_BITS as int);
            let ld = speed_scale_q8(LD_FLUX_PER_COUNT_BITS as int);
            let flux = speed_scale_q8(FLUX_LINKAGE_MWB_BITS as int);
            let direct = -speed_voltage_ticks(electrical_rpm * q * lq, volts);
            let quadrature = speed_voltage_ticks(electrical_rpm * d * ld, volts)
                + speed_voltage_ticks(electrical_rpm * flux, volts);
            Dq {
                d: numeric::fixed(direct * 0x1_0000),
                q: numeric::fixed(quadrature * 0x1_0000),
            }
        }
    }

    fn feedforward(
        electrical_rpm: i32,
        target: Dq<Fixed>,
        volts_per_pwm_tick: Fixed,
    ) -> (r: Dq<Fixed>) {
        let volts: i32 = volts_per_pwm_tick.to_bits();
        if electrical_rpm == 0 || volts < MINIMUM_VOLTS_PER_TICK_BITS {
            return Dq::new_zero();
        }
        proof {
            arith::lemma_i32(target.d.bits);
            arith::lemma_i32(target.q.bits);
        }
        let direct_counts: i32 = target.d.to_bits() >> 16;
        let quadrature_counts: i32 = target.q.to_bits() >> 16;
        let ld_scale: i32 = ((6_863 * (LD_FLUX_PER_COUNT_BITS as i64) + 128_000) / 256_000) as i32;
        let lq_scale: i32 = ((6_863 * (LQ_FLUX_PER_COUNT_BITS as i64) + 128_000) / 256_000) as i32;
        let flux_scale: i32 = ((6_863 * (FLUX_LINKAGE_MWB_BITS as i64) + 128_000) / 256_000) as i32;
        let direct_ticks: i32 = -speed_ticks(electrical_rpm * quadrature_counts * lq_scale, volts);
        let quadrature_ticks: i32 = speed_ticks(electrical_rpm * direct_counts * ld_scale, volts)
            + speed_ticks(electrical_rpm * flux_scale, volts);
        Dq::new(Fixed::from_integer(direct_ticks), Fixed::from_integer(quadrature_ticks))
    }
}

fn speed_ticks(numerator: i32, volts_per_tick_bits: i32) -> (r: i32)
    requires
        volts_per_tick_bits >= MINIMUM_VOLTS_PER_TICK_BITS,
    ensures
        r == speed_voltage_ticks(numerator as int, volts_per_tick_bits as int),
        -16_384 <= r <= 16_384,
{
    let quotient: i32 = numerator / volts_per_tick_bits;
    assert(-4_194_304 <= quotient <= 4_194_304) by (nonlinear_arith)
        requires
            quotient == arith::trunc_div(numerator as int, volts_per_tick_bits as int),
            volts_per_tick_bits >= 512,
            -0x8000_0000 <= numerator <= 0x7fff_ffff,
    ;
    quotient / 256
}

/// Current controller: transforms, PI regulation, circular voltage limit,
/// output-frame advance, dead-time compensation and modulation.
pub struct FocController<
    N: Scalar,
    T: SinCos<N>,
    M: TickModulator<N>,
    D: DecouplingModel<N>,
    const DEAD_TIME_NUMERATOR: u32,
    const DEAD_TIME_DENOMINATOR: u32,
> {
    pub direct: PIController<N>,
    pub quadrature: PIController<N>,
    pub vector_limit_ticks: N,
    pub phase_limit_ticks: u16,
    pub requested_voltage: Dq<N>,
    pub feedforward_voltage: Dq<N>,
    pub applied_voltage: Dq<N>,
    pub applied_stationary: AlphaBeta<N>,
    pub measured_stationary: AlphaBeta<N>,
    pub voltage_limited: bool,
    pub actuation_advance: N,
    pub backend: PhantomData<(T, M, D)>,
}

/// The Q16.16 controller.
pub type FixedFocController<
    const DEAD_TIME_NUMERATOR: u32,
    const DEAD_TIME_DENOMINATOR: u32,
    D = NoDecoupling,
> = FocController<
    Fixed,
    CordicSinCos,
    SvpwmTickModulator,
    D,
    DEAD_TIME_NUMERATOR,
    DEAD_TIME_DENOMINATOR,
>;

/// Stationary and rotor-frame currents of one sample.
pub open spec fn sampled_current<N: Scalar, T: SinCos<N>>(
    phase_a: N,
    phase_b: N,
    angle: T::Angle,
) -> (AlphaBeta<N>, Dq<N>) {
    let (sin, cos) = T::sin_cos_of(angle);
    let (alpha, beta) = transforms::clarke_of(phase_a, phase_b);
    let (d, q) = transforms::park_of(alpha, beta, sin, cos);
    (AlphaBeta { alpha, beta }, Dq { d, q })
}

/// Rotation of a stationary vector by a small angle in radians: third-order
/// sine, second-order cosine.
pub open spec fn rotated_by<N: Scalar>(alpha: N, beta: N, angle: N) -> (N, N) {
    if angle.same(N::zero_value()) {
        (alpha, beta)
    } else {
        let square = angle.times(angle);
        let sin = angle.minus(square.times(angle).times(N::of_ratio(1, 6)));
        let cos = N::one_value().minus(square.times(N::half_value()));
        (alpha.times(cos).minus(beta.times(sin)), alpha.times(sin).plus(beta.times(cos)))
    }
}

/// Stationary correction of the dead-time error: one vector per combination of
/// phase-current signs.
pub open spec fn dead_time_vector<N: Scalar>(factor: N, phase_a: N, phase_b: N) -> (N, N) {
    let zero = N::zero_value();
    let a = !phase_a.below(zero);
    let b = !phase_b.below(zero);
    let c = !phase_a.plus(phase_b).negated().below(zero);
    let x = factor.times(N::two_thirds_value());
    let y = factor.times(N::two_inv_sqrt_3_value());
    if a && !b && !c {
        (x.plus(x), zero)
    } else if a && b && !c {
        (x, y)
    } else if !a && b && !c {
        (x.negated(), y)
    } else if !a && b && c {
        (x.plus(x).negated(), zero)
    } else if !a && !b && c {
        (x.negated(), y.negated())
    } else if a && !b && c {
        (x, y.negated())
    } else {
        (zero, zero)
    }
}

impl<
    N: Scalar,
    T: SinCos<N>,
    M: TickModulator<N>,
    D: DecouplingModel<N>,
    const DEAD_TIME_NUMERATOR: u32,
    const DEAD_TIME_DENOMINATOR: u32,
> FocController<N, T, M, D, DEAD_TIME_NUMERATOR, DEAD_TIME_DENOMINATOR> {
    /// The dead-time factor is a ratio of two `i32` values; enabled
    /// specializations have a nonzero denominator.
    pub open spec fn dead_time_is_a_ratio() -> bool {
        &&& DEAD_TIME_NUMERATOR <= i32::MAX
        &&& DEAD_TIME_DENOMINATOR <= i32::MAX
        &&& DEAD_TIME_NUMERATOR == 0 || DEAD_TIME_DENOMINATOR != 0
    }

    /// Dead-time correction in phase-voltage ticks; zero disables it.
    pub open spec fn dead_time_factor() -> N {
        if DEAD_TIME_NUMERATOR == 0 {
            N::zero_value()
        } else {
            N::of_ratio(DEAD_TIME_NUMERATOR as i32, DEAD_TIME_DENOMINATOR as i32)
        }
    }

    /// The controller with every history and report cleared; gains, limits and
    /// advance stay.
    pub open spec fn cleared(self) -> Self {
        FocController {
            direct: self.direct.cleared(),
            quadrature: self.quadrature.cleared(),
            requested_voltage: Dq::null(),
            feedforward_voltage: Dq::null(),
            applied_voltage: Dq::null(),
            applied_stationary: AlphaBeta::null(),
            measured_stationary: AlphaBeta::null(),
            voltage_limited: false,
            ..self
        }
    }

    /// The controller after sampling `measured` and applying `requested`, PI
    /// state aside: the request is limited to the voltage circle, turned into
    /// the stationary frame and advanced.
    pub open spec fn driven(
        self,
        angle: T::Angle,
        measured: AlphaBeta<N>,
        feedforward: Dq<N>,
        requested: Dq<N>,
    ) -> Self {
        let (sin, cos) = T::sin_cos_of(angle);
        let (d, q, scale) = N::limited_vector(requested.d, requested.q, self.vector_limit_ticks);
        let (v, w) = transforms::inverse_park_of(d, q, sin, cos);
        let (alpha, beta) = rotated_by(v, w, self.actuation_advance);
        FocController {
            measured_stationary: measured,
            requested_voltage: requested,
            feedforward_voltage: feedforward,
            applied_voltage: Dq { d, q },
            voltage_limited: !scale.same(N::one_value()),
            applied_stationary: AlphaBeta { alpha, beta },
            ..self
        }
    }

    /// Modulator command: the applied stationary voltage with the dead-time
    /// correction added.
    pub open spec fn modulated(self, phase_a: N, phase_b: N) -> AlphaBeta<N> {
        let factor = Self::dead_time_factor();
        if factor.same(N::zero_value()) {
            self.applied_stationary
        } else {
            let (x, y) = dead_time_vector(factor, phase_a, phase_b);
            AlphaBeta {
                alpha: self.applied_stationary.alpha.plus(x),
                beta: self.applied_stationary.beta.plus(y),
            }
        }
    }

    /// Compares for the controller's present output.
    pub open spec fn duties(self, phase_a: N, phase_b: N, neutral: u16) -> PwmDuty {
        M::duties_for(self.modulated(phase_a, phase_b), neutral, self.phase_limit_ticks)
    }

    /// The controller after one regulated step: both PI outputs plus
    /// feedforward and injection are applied, and each integrator is charged
    /// with the share of its own output that the voltage circle removed.
    pub open spec fn regulated(
        self,
        phase_a: N,
        phase_b: N,
        angle: T::Angle,
        electrical_rpm: i32,
        target: Dq<N>,
        injection: Dq<N>,
        volts_per_pwm_tick: N,
    ) -> Self {
        let (stationary, measured) = sampled_current::<N, T>(phase_a, phase_b, angle);
        let d = self.direct.evaluated(target.d, measured.d);
        let q = self.quadrature.evaluated(target.q, measured.q);
        let feedforward = D::feedforward_for(electrical_rpm, target, volts_per_pwm_tick);
        let requested = Dq {
            d: d.raw_output.plus(feedforward.d).plus(injection.d),
            q: q.raw_output.plus(feedforward.q).plus(injection.q),
        };
        let scale = N::limited_vector(requested.d, requested.q, self.vector_limit_ticks).2;
        let excess = scale.minus(N::one_value());
        FocController {
            direct: self.direct.accepted(d, d.raw_output.times(excess)),
            quadrature: self.quadrature.accepted(q, q.raw_output.times(excess)),
            ..self.driven(angle, stationary, feedforward, requested)
        }
    }

    pub fn new(
        direct: PIController<N>,
        quadrature: PIController<N>,
        vector_limit_ticks: N,
        phase_limit_ticks: u16,
    ) -> (r: Self)
        ensures
            r.direct == direct,
            r.quadrature == quadrature,
            r.vector_limit_ticks == vector_limit_ticks,
            r.phase_limit_ticks == phase_limit_ticks,
            r.actuation_advance == N::zero_value(),
            r == (FocController { direct, quadrature, ..r.cleared() }),
    {
        FocController {
            direct,
            quadrature,
            vector_limit_ticks,
            phase_limit_ticks,
            requested_voltage: Dq::new_zero(),
            feedforward_voltage: Dq::new_zero(),
            applied_voltage: Dq::new_zero(),
            applied_stationary: AlphaBeta::new_zero(),
            measured_stationary: AlphaBeta::new_zero(),
            voltage_limited: false,
            actuation_advance: N::zero(),
            backend: PhantomData,
        }
    }

    pub fn reset(&mut self)
        ensures
            *final(self) == old(self).cleared(),
    {
        self.direct.reset();
        self.quadrature.reset();
        self.requested_voltage = Dq::new_zero();
        self.feedforward_voltage = Dq::new_zero();
        self.applied_voltage = Dq::new_zero();
        self.applied_stationary = AlphaBeta::new_zero();
        self.measured_stationary = AlphaBeta::new_zero();
        self.voltage_limited = false;
    }

    pub fn applied_voltage(&self) -> (r: Dq<N>)
        ensures
            r == self.applied_voltage,
    {
        self.applied_voltage
    }

    pub fn requested_voltage(&self) -> (r: Dq<N>)
        ensures
            r == self.requested_voltage,
    {
        self.requested_voltage
    }

    pub fn feedforward_voltage(&self) -> (r: Dq<N>)
        ensures
            r == self.feedforward_voltage,
    {
        self.feedforward_voltage
    }

    pub fn applied_stationary(&self) -> (r: AlphaBeta<N>)
        ensures
            r == self.applied_stationary,
    {
        self.applied_stationary
    }

    pub fn measured_stationary(&self) -> (r: AlphaBeta<N>)
        ensures
            r == self.measured_stationary,
    {
        self.measured_stationary
    }

    pub fn voltage_limited(&self) -> (r: bool)
        ensures
            r == self.voltage_limited,
    {
        self.voltage_limited
    }

    /// Dead-time factor after conversion to the modulator's phase-voltage tick
    /// domain. A zero numerator disables compensation; enabled specializations
    /// require a nonzero denominator.
    pub fn dead_time_comp_ticks(&self) -> (r: N)
        requires
            Self::dead_time_is_a_ratio(),
        ensures
            r == Self::dead_time_factor(),
    {
        if DEAD_TIME_NUMERATOR == 0 {
            N::zero()
        } else {
            N::from_ratio(DEAD_TIME_NUMERATOR as i32, DEAD_TIME_DENOMINATOR as i32)
        }
    }

    /// Set the electrical angle traversed between the current sample and the
    /// PWM command taking effect. The correction is applied only to the
    /// output voltage frame; the sampled current remains transformed at the
    /// measurement angle.
    pub fn set_actuation_advance(&mut self, advance: N)
        ensures
            *final(self) == (FocController {
                actuation_advance: numeric::clamped(
                    advance,
                    N::half_value().negated(),
                    N::half_value(),
                ),
                ..*old(self)
            }),
    {
        proof {
            N::operators_follow_the_model();
        }
        self.actuation_advance = advance.clamp(N::half().neg(), N::half());
    }

    pub fn actuation_advance(&self) -> (r: N)
        ensures
            r == self.actuation_advance,
    {
        self.actuation_advance
    }

    pub fn step(
        &mut self,
        phase_a: N,
        phase_b: N,
        electrical_angle: T::Angle,
        target: Dq<N>,
        pwm_neutral: u16,
    ) -> (r: (Dq<N>, PwmDuty))
        requires
            Self::dead_time_is_a_ratio(),
            D::accepts(0, target, N::one_value()),
        ensures
            *final(self) == old(self).regulated(
                phase_a,
                phase_b,
                electrical_angle,
                0,
                target,
                Dq::null(),
                N::one_value(),
            ),
            r.0 == sampled_current::<N, T>(phase_a, phase_b, electrical_angle).1,
            r.1 == final(self).duties(phase_a, phase_b, pwm_neutral),
    {
        self.step_with_injection(
            phase_a,
            phase_b,
            electrical_angle,
            target,
            Dq::new_zero(),
            pwm_neutral,
        )
    }

    pub fn step_with_injection(
        &mut self,
        phase_a: N,
        phase_b: N,
        electrical_angle: T::Angle,
        target: Dq<N>,
        voltage_injection: Dq<N>,
        pwm_neutral: u16,
    ) -> (r: (Dq<N>, PwmDuty))
        requires
            Self::dead_time_is_a_ratio(),
            D::accepts(0, target, N::one_value()),
        ensures
            *final(self) == old(self).regulated(
                phase_a,
                phase_b,
                electrical_angle,
                0,
                target,
                voltage_injection,
                N::one_value(),
            ),
            r.0 == sampled_current::<N, T>(phase_a, phase_b, electrical_angle).1,
            r.1 == final(self).duties(phase_a, phase_b, pwm_neutral),
    {
        self.step_with_velocity_and_injection(
            phase_a,
            phase_b,
            electrical_angle,
            0,
            target,
            voltage_injection,
            N::one(),
            pwm_neutral,
        )
    }

    /// Apply a dq voltage command directly while retaining the controller's
    /// transforms, circular voltage limit, dead-time compensation, and SVPWM.
    /// Detection sequences use this after a PI-regulated rotor lock to create
    /// precisely timed voltage pulses without advancing either PI integrator.
    pub fn step_direct_voltage(
        &mut self,
        phase_a: N,
        phase_b: N,
        electrical_angle: T::Angle,
        voltage: Dq<N>,
        pwm_neutral: u16,
    ) -> (r: (Dq<N>, PwmDuty))
        requires
            Self::dead_time_is_a_ratio(),
        ensures
            *final(self) == old(self).driven(
                electrical_angle,
                sampled_current::<N, T>(phase_a, phase_b, electrical_angle).0,
                Dq::null(),
                voltage,
            ),
            r.0 == sampled_current::<N, T>(phase_a, phase_b, electrical_angle).1,
            r.1 == final(self).duties(phase_a, phase_b, pwm_neutral),
    {
        let (sin, cos) = T::sin_cos(electrical_angle);
        let (alpha, beta) = clarke(phase_a, phase_b);
        self.measured_stationary = AlphaBeta { alpha, beta };
        let (measured_d, measured_q) = park(alpha, beta, sin, cos);
        self.requested_voltage = voltage;
        self.feedforward_voltage = Dq::new_zero();
        let _ = self.apply_request(sin, cos, voltage);
        let duties = self.modulate(phase_a, phase_b, pwm_neutral);
        (Dq::new(measured_d, measured_q), duties)
    }

    pub fn step_with_velocity_and_injection(
        &mut self,
        phase_a: N,
        phase_b: N,
        electrical_angle: T::Angle,
        electrical_rpm: i32,
        target: Dq<N>,
        voltage_injection: Dq<N>,
        volts_per_pwm_tick: N,
        pwm_neutral: u16,
    ) -> (r: (Dq<N>, PwmDuty))
        requires
            Self::dead_time_is_a_ratio(),
            D::accepts(electrical_rpm, target, volts_per_pwm_tick),
        ensures
            *final(self) == old(self).regulated(
                phase_a,
                phase_b,
                electrical_angle,
                electrical_rpm,
                target,
                voltage_injection,
                volts_per_pwm_tick,
            ),
            r.0 == sampled_current::<N, T>(phase_a, phase_b, electrical_angle).1,
            r.1 == final(self).duties(phase_a, phase_b, pwm_neutral),
    {
        proof {
            N::operators_follow_the_model();
        }
        let (sin, cos) = T::sin_cos(electrical_angle);
        let (alpha, beta) = clarke(phase_a, phase_b);
        self.measured_stationary = AlphaBeta { alpha, beta };
        let (measured_d, measured_q) = park(alpha, beta, sin, cos);
        let measured = Dq::new(measured_d, measured_q);
        let direct_update = self.direct.prepare_update(target.d, measured.d);
        let quadrature_update = self.quadrature.prepare_update(target.q, measured.q);
        let feedforward = D::feedforward(electrical_rpm, target, volts_per_pwm_tick);
        let requested = Dq::new(
            direct_update.raw_output + feedforward.d + voltage_injection.d,
            quadrature_update.raw_output + feedforward.q + voltage_injection.q,
        );
        self.requested_voltage = requested;
        self.feedforward_voltage = feedforward;
        let voltage_scale = self.apply_request(sin, cos, requested);
        self.direct.apply_back_calculation(
            direct_update,
            direct_update.raw_output * (voltage_scale - N::one()),
        );
        self.quadrature.apply_back_calculation(
            quadrature_update,
            quadrature_update.raw_output * (voltage_scale - N::one()),
        );
        let duties = self.modulate(phase_a, phase_b, pwm_neutral);
        (measured, duties)
    }

    /// Limits a request to the voltage circle and records it in both frames.
    fn apply_request(&mut self, sin: N, cos: N, requested: Dq<N>) -> (scale: N)
        ensures
            scale == N::limited_vector(
                requested.d,
                requested.q,
                old(self).vector_limit_ticks,
            ).2,
            *final(self) == ({
                let (d, q, scale) = N::limited_vector(
                    requested.d,
                    requested.q,
                    old(self).vector_limit_ticks,
                );
                let (v, w) = transforms::inverse_park_of(d, q, sin, cos);
                let (alpha, beta) = rotated_by(v, w, old(self).actuation_advance);
                FocController {
                    applied_voltage: Dq { d, q },
                    voltage_limited: !scale.same(N::one_value()),
                    applied_stationary: AlphaBeta { alpha, beta },
                    ..*old(self)
                }
            }),
    {
        let (applied_d, applied_q, voltage_scale) = N::limit_vector(
            requested.d,
            requested.q,
            self.vector_limit_ticks,
        );
        self.applied_voltage = Dq::new(applied_d, applied_q);
        self.voltage_limited = !voltage_scale.equals(N::one());
        let (voltage_alpha, voltage_beta) = inverse_park(applied_d, applied_q, sin, cos);
        let (alpha, beta) = self.apply_actuation_advance(voltage_alpha, voltage_beta);
        self.applied_stationary = AlphaBeta { alpha, beta };
        voltage_scale
    }

    fn modulate(&self, phase_a: N, phase_b: N, pwm_neutral: u16) -> (r: PwmDuty)
        requires
            Self::dead_time_is_a_ratio(),
        ensures
            r == self.duties(phase_a, phase_b, pwm_neutral),
    {
        let (alpha, beta) = self.apply_dead_time_comp(
            self.applied_stationary.alpha,
            self.applied_stationary.beta,
            phase_a,
            phase_b,
        );
        M::to_duties(AlphaBeta { alpha, beta }, pwm_neutral, self.phase_limit_ticks)
    }

    fn apply_actuation_advance(&self, alpha: N, beta: N) -> (r: (N, N))
        ensures
            r == rotated_by(alpha, beta, self.actuation_advance),
    {
        proof {
            N::operators_follow_the_model();
        }
        let advance = self.actuation_advance;
        if advance.equals(N::zero()) {
            return (alpha, beta);
        }
        let advance_squared = advance * advance;
        let sin = advance - advance_squared * advance * N::from_ratio(1, 6);
        let cos = N::one() - advance_squared * N::half();
        (alpha * cos - beta * sin, alpha * sin + beta * cos)
    }

    /// Adds the correction for the voltage that dead time takes from each
    /// phase, by the sign of its current.
    pub fn apply_dead_time_comp(&self, alpha: N, beta: N, phase_a: N, phase_b: N) -> (r: (N, N))
        requires
            Self::dead_time_is_a_ratio(),
        ensures
            r == ({
                let factor = Self::dead_time_factor();
                if factor.same(N::zero_value()) {
                    (alpha, beta)
                } else {
                    let (x, y) = dead_time_vector(factor, phase_a, phase_b);
                    (alpha.plus(x), beta.plus(y))
                }
            }),
    {
        proof {
            N::operators_follow_the_model();
        }
        let factor = self.dead_time_comp_ticks();
        if factor.equals(N::zero()) {
            return (alpha, beta);
        }
        let phase_c = (phase_a + phase_b).neg();
        let a: bool = !phase_a.less_than(N::zero());
        let b: bool = !phase_b.less_than(N::zero());
        let c: bool = !phase_c.less_than(N::zero());
        let alpha_step = factor * N::two_thirds();
        let beta_step = factor * N::two_inv_sqrt_3();
        let (comp_alpha, comp_beta) = match (a, b, c) {
            (true, false, false) => (alpha_step + alpha_step, N::zero()),
            (true, true, false) => (alpha_step, beta_step),
            (false, true, false) => (alpha_step.neg(), beta_step),
            (false, true, true) => ((alpha_step + alpha_step).neg(), N::zero()),
            (false, false, true) => (alpha_step.neg(), beta_step.neg()),
            (true, false, true) => (alpha_step, beta_step.neg()),
            _ => (N::zero(), N::zero()),
        };
        (alpha + comp_alpha, beta + comp_beta)
    }
}

/// Scales a voltage back into the circle of radius `limit_ticks`.
pub fn limit_voltage<N: Scalar>(voltage: Dq<N>, limit_ticks: N) -> (r: Dq<N>)
    ensures
        ({
            let (d, q, scale) = N::limited_vector(voltage.d, voltage.q, limit_ticks);
            r == (Dq { d, q })
        }),
{
    let (direct, quadrature, _) = N::limit_vector(voltage.d, voltage.q, limit_ticks);
    Dq::new(direct, quadrature)
}

/// A regulated step never applies a voltage outside the configured circle.
pub proof fn law_applied_voltage_is_inside_the_circle<
    T: SinCos<Fixed>,
    M: TickModulator<Fixed>,
    D: DecouplingModel<Fixed>,
    const NUMERATOR: u32,
    const DENOMINATOR: u32,
>(
    controller: FocController<Fixed, T, M, D, NUMERATOR, DENOMINATOR>,
    angle: T::Angle,
    measured: AlphaBeta<Fixed>,
    feedforward: Dq<Fixed>,
    requested: Dq<Fixed>,
)
    ensures
        ({
            let applied = controller.driven(angle, measured, feedforward, requested).applied_voltage;
            !Fixed::outside_circle(applied.d, applied.q, controller.vector_limit_ticks)
        }),
{
    numeric::law_limited_vector_is_inside_the_circle(
        requested.d,
        requested.q,
        controller.vector_limit_ticks,
    );
}

/// A direct voltage command leaves both PI controllers as they were.
pub proof fn law_direct_voltage_keeps_the_integrators<
    N: Scalar,
    T: SinCos<N>,
    M: TickModulator<N>,
    D: DecouplingModel<N>,
    const NUMERATOR: u32,
    const DENOMINATOR: u32,
>(
    controller: FocController<N, T, M, D, NUMERATOR, DENOMINATOR>,
    angle: T::Angle,
    measured: AlphaBeta<N>,
    voltage: Dq<N>,
)
    ensures
        ({
            let next = controller.driven(angle, measured, Dq::null(), voltage);
            next.direct == controller.direct && next.quadrature == controller.quadrature
        }),
{
}

/// The advance rotates only the output frame: two controllers that differ in
/// nothing else measure, request and apply the same dq values and keep the same
/// PI state.
pub proof fn law_advance_rotates_only_the_output_frame<
    N: Scalar,
    T: SinCos<N>,
    M: TickModulator<N>,
    D: DecouplingModel<N>,
    const NUMERATOR: u32,
    const DENOMINATOR: u32,
>(
    controller: FocController<N, T, M, D, NUMERATOR, DENOMINATOR>,
    advance: N,
    phase_a: N,
    phase_b: N,
    angle: T::Angle,
    electrical_rpm: i32,
    target: Dq<N>,
    injection: Dq<N>,
    volts_per_pwm_tick: N,
)
    ensures
        ({
            let advanced = FocController { actuation_advance: advance, ..controller };
            let x = controller.regulated(
                phase_a,
                phase_b,
                angle,
                electrical_rpm,
                target,
                injection,
                volts_per_pwm_tick,
            );
            let y = advanced.regulated(
                phase_a,
                phase_b,
                angle,
                electrical_rpm,
                target,
                injection,
                volts_per_pwm_tick,
            );
            y == (FocController {
                actuation_advance: advance,
                applied_stationary: y.applied_stationary,
                ..x
            })
        }),
{
}

/// Dead-time compensation changes only the modulator command: controllers with
/// different factors and otherwise equal state report the same voltages and
/// currents after a step and keep the same PI state.
pub proof fn law_dead_time_changes_only_the_modulator_command<
    N: Scalar,
    T: SinCos<N>,
    M: TickModulator<N>,
    D: DecouplingModel<N>,
    const NUMERATOR: u32,
    const DENOMINATOR: u32,
    const OTHER_NUMERATOR: u32,
    const OTHER_DENOMINATOR: u32,
>(
    x: FocController<N, T, M, D, NUMERATOR, DENOMINATOR>,
    y: FocController<N, T, M, D, OTHER_NUMERATOR, OTHER_DENOMINATOR>,
    phase_a: N,
    phase_b: N,
    angle: T::Angle,
    electrical_rpm: i32,
    target: Dq<N>,
    injection: Dq<N>,
    volts_per_pwm_tick: N,
)
    requires
        x.direct == y.direct,
        x.quadrature == y.quadrature,
        x.vector_limit_ticks == y.vector_limit_ticks,
        x.actuation_advance == y.actuation_advance,
    ensures
        ({
            let next_x = x.regulated(
                phase_a,
                phase_b,
                angle,
                electrical_rpm,
                target,
                injection,
                volts_per_pwm_tick,
            );
            let next_y = y.regulated(
                phase_a,
                phase_b,
                angle,
                electrical_rpm,
                target,
                injection,
                volts_per_pwm_tick,
            );
            &&& next_x.direct == next_y.direct
            &&& next_x.quadrature == next_y.quadrature
            &&& next_x.requested_voltage == next_y.requested_voltage
            &&& next_x.feedforward_voltage == next_y.feedforward_voltage
            &&& next_x.applied_voltage == next_y.applied_voltage
            &&& next_x.applied_stationary == next_y.applied_stationary
            &&& next_x.measured_stationary == next_y.measured_stationary
            &&& next_x.voltage_limited == next_y.voltage_limited
        }),
{
}

/// A reset forgets every step: what follows it does not depend on what came
/// before.
pub proof fn law_reset_forgets_every_step<
    N: Scalar,
    T: SinCos<N>,
    M: TickModulator<N>,
    D: DecouplingModel<N>,
    const NUMERATOR: u32,
    const DENOMINATOR: u32,
>(
    controller: FocController<N, T, M, D, NUMERATOR, DENOMINATOR>,
    phase_a: N,
    phase_b: N,
    angle: T::Angle,
    electrical_rpm: i32,
    target: Dq<N>,
    injection: Dq<N>,
    volts_per_pwm_tick: N,
)
    ensures
        controller.regulated(
            phase_a,
            phase_b,
            angle,
            electrical_rpm,
            target,
            injection,
            volts_per_pwm_tick,
        ).cleared() == controller.cleared(),
        controller.cleared().cleared() == controller.cleared(),
{
}

/// The advance that a Q16.16 controller accepts is at most half a radian.
pub proof fn law_advance_stays_in_the_small_angle_range(advance: Fixed)
    ensures
        ({
            let accepted = numeric::clamped(
                advance,
                Fixed::half_value().negated(),
                Fixed::half_value(),
            );
            &&& arith::abs(accepted.bits as int) <= 0x8000
            &&& arith::abs(advance.bits as int) <= 0x8000 ==> accepted == advance
        }),
{
}

/// What a step reports is the current that flows: the measured rotor-frame
/// vector, turned back into the three phases, is the two sampled currents and
/// what they leave for the third, to within two counts at every angle.
#[verifier::rlimit(40)]
pub proof fn law_measured_current_is_the_phase_current(
    phase_a: Fixed,
    phase_b: Fixed,
    angle: Turns,
)
    requires
        arith::abs(phase_a.bits as int) <= 0x0900_0000,
        arith::abs(phase_b.bits as int) <= 0x0900_0000,
    ensures
        ({
            let (sin, cos) = CordicSinCos::sin_cos_of(angle);
            let (stationary, measured) = sampled_current::<Fixed, CordicSinCos>(
                phase_a,
                phase_b,
                angle,
            );
            let (alpha, beta) = transforms::inverse_park_of(measured.d, measured.q, sin, cos);
            let (a, b, c) = transforms::inverse_clarke_of(alpha, beta);
            &&& arith::abs(a.bits - phase_a.bits) <= 0x2_0000
            &&& arith::abs(b.bits - phase_b.bits) <= 0x2_0000
            &&& arith::abs(c.bits + phase_a.bits + phase_b.bits) <= 0x2_0000
            &&& arith::abs(stationary.alpha.bits - alpha.bits) < 0x1_0000
            &&& arith::abs(stationary.beta.bits - beta.bits) < 0x1_0000
        }),
{
    let (sin, cos) = CordicSinCos::sin_cos_of(angle);
    let (x, y) = transforms::clarke_of(phase_a, phase_b);
    lemma_stationary_is_bounded(phase_a, phase_b);
    transforms::law_rotation_is_undone_at_every_angle(x, y, angle);
    let (d, q) = transforms::park_of(x, y, sin, cos);
    let (alpha, beta) = transforms::inverse_park_of(d, q, sin, cos);
    lemma_phases_return(phase_a, phase_b, alpha, beta);
}

proof fn lemma_stationary_is_bounded(phase_a: Fixed, phase_b: Fixed)
    requires
        arith::abs(phase_a.bits as int) <= 0x0900_0000,
        arith::abs(phase_b.bits as int) <= 0x0900_0000,
    ensures
        arith::abs(transforms::clarke_of(phase_a, phase_b).0.bits as int) <= 0x1000_0000,
        arith::abs(transforms::clarke_of(phase_a, phase_b).1.bits as int) <= 0x1000_0000,
{
    let sum = phase_a.plus(phase_b).plus(phase_b);
    let factor = numeric::fixed(37_837);
    assert(sum.bits * factor.bits == 37_837 * sum.bits) by (nonlinear_arith)
        requires
            factor.bits == 37_837,
    ;
}

proof fn lemma_phases_return(phase_a: Fixed, phase_b: Fixed, alpha: Fixed, beta: Fixed)
    requires
        arith::abs(phase_a.bits as int) <= 0x0900_0000,
        arith::abs(phase_b.bits as int) <= 0x0900_0000,
        ({
            let (x, y) = transforms::clarke_of(phase_a, phase_b);
            &&& arith::abs(alpha.bits - x.bits) < 0x1_0000
            &&& arith::abs(beta.bits - y.bits) < 0x1_0000
        }),
    ensures
        ({
            let (a, b, c) = transforms::inverse_clarke_of(alpha, beta);
            &&& arith::abs(a.bits - phase_a.bits) <= 0x2_0000
            &&& arith::abs(b.bits - phase_b.bits) <= 0x2_0000
            &&& arith::abs(c.bits + phase_a.bits + phase_b.bits) <= 0x2_0000
        }),
{
    let (x, y) = transforms::clarke_of(phase_a, phase_b);
    lemma_stationary_is_bounded(phase_a, phase_b);
    transforms::law_phases_survive_the_stationary_frame(phase_a, phase_b);
    transforms::lemma_phases_are_near(alpha, beta, x, y);
}

/// Without an advance the stationary output is the applied rotor-frame voltage
/// seen from the stationary frame: turned back at the step's angle it is that
/// voltage to within a tick, and a request inside the circle is applied as it is.
#[verifier::rlimit(40)]
pub proof fn law_output_lies_in_the_rotor_frame<
    M: TickModulator<Fixed>,
    D: DecouplingModel<Fixed>,
    const NUMERATOR: u32,
    const DENOMINATOR: u32,
>(
    controller: FocController<Fixed, CordicSinCos, M, D, NUMERATOR, DENOMINATOR>,
    angle: Turns,
    measured: AlphaBeta<Fixed>,
    feedforward: Dq<Fixed>,
    requested: Dq<Fixed>,
)
    requires
        controller.actuation_advance.bits == 0,
        0 <= controller.vector_limit_ticks.bits <= 0x1000_0000,
    ensures
        ({
            let next = controller.driven(angle, measured, feedforward, requested);
            let (sin, cos) = CordicSinCos::sin_cos_of(angle);
            let (d, q) = transforms::park_of(
                next.applied_stationary.alpha,
                next.applied_stationary.beta,
                sin,
                cos,
            );
            let inside = !Fixed::outside_circle(
                requested.d,
                requested.q,
                controller.vector_limit_ticks,
            );
            &&& arith::abs(d.bits - next.applied_voltage.d.bits) < 0x1_0000
            &&& arith::abs(q.bits - next.applied_voltage.q.bits) < 0x1_0000
            &&& inside ==> next.applied_voltage == requested
            &&& next.voltage_limited <==> !inside
            &&& next.requested_voltage == requested
            &&& next.measured_stationary == measured
        }),
{
    let limit = controller.vector_limit_ticks;
    let next = controller.driven(angle, measured, feedforward, requested);
    let applied = next.applied_voltage;
    numeric::law_limited_vector_is_inside_the_circle(requested.d, requested.q, limit);
    if Fixed::outside_circle(requested.d, requested.q, limit) {
        numeric::law_limited_vector_keeps_its_direction(requested.d, requested.q, limit);
    }
    let l = limit.bits as int;
    let x = applied.d.bits as int;
    let y = applied.q.bits as int;
    assert(-l <= x <= l && -l <= y <= l) by (nonlinear_arith)
        requires
            x * x + y * y <= l * l,
            0 <= l,
    ;
    transforms::law_output_rotation_is_undone_at_every_angle(applied.d, applied.q, angle);
}

/// The advance turns the output forward: for a positive one the cross product of
/// the vector and its advanced form is positive, between 95 and 100 percent of
/// the advance times the squared length, and for a negative one it is the other
/// way round. The projection on the vector keeps at least seven eighths. Rounding
/// moves each by at most two units of the components.
pub proof fn law_advance_turns_the_output_forward(alpha: Fixed, beta: Fixed, advance: Fixed)
    requires
        arith::abs(alpha.bits as int) <= 0x1000_0000,
        arith::abs(beta.bits as int) <= 0x1000_0000,
        arith::abs(advance.bits as int) <= 0x8000,
    ensures
        ({
            let (x, y) = rotated_by(alpha, beta, advance);
            let square = alpha.bits * alpha.bits + beta.bits * beta.bits;
            let cross = alpha.bits * y.bits - beta.bits * x.bits;
            let along = alpha.bits * x.bits + beta.bits * y.bits;
            let forward = if advance.bits >= 0 {
                cross
            } else {
                -cross
            };
            let size = arith::abs(advance.bits as int);
            let slack = 0x2_0000 * (arith::abs(alpha.bits as int) + arith::abs(beta.bits as int));
            &&& 100 * (0x1_0000 * forward + slack) >= (95 * size - 200) * square
            &&& 0x1_0000 * forward <= size * square + slack
            &&& 0x1_0000 * along + slack >= 57_344 * square
            &&& 0x1_0000 * along <= 0x1_0000 * square + slack
        }),
{
    let a = alpha.bits as int;
    let b = beta.bits as int;
    let (x, y) = rotated_by(alpha, beta, advance);
    let square = a * a + b * b;
    assert(square >= 0) by (nonlinear_arith)
        requires
            square == a * a + b * b,
    ;
    if advance.bits == 0 {
        assert(a * b - b * a == 0) by (nonlinear_arith);
        assert(-200 * square <= 0);
        assert((95 * 0 - 200) * square == -200 * square);
        assert(0 * square == 0);
    } else {
        let turn = advance.times(advance);
        let sin = advance.minus(turn.times(advance).times(Fixed::of_ratio(1, 6)));
        let cos = Fixed::one_value().minus(turn.times(Fixed::half_value()));
        lemma_small_angle(advance);
        let s = sin.bits as int;
        let c = cos.bits as int;
        lemma_small_product(alpha, cos);
        lemma_small_product(beta, sin);
        lemma_small_product(alpha, sin);
        lemma_small_product(beta, cos);
        let u = 0x1_0000 * x.bits - (a * c - b * s);
        let v = 0x1_0000 * y.bits - (a * s + b * c);
        assert(-0x2_0000 < u < 0x2_0000 && -0x2_0000 < v < 0x2_0000);
        let cross = a * y.bits - b * x.bits;
        let along = a * x.bits + b * y.bits;
        assert(0x1_0000 * cross == s * square + a * v - b * u) by (nonlinear_arith)
            requires
                cross == a * y.bits - b * x.bits,
                u == 0x1_0000 * x.bits - (a * c - b * s),
                v == 0x1_0000 * y.bits - (a * s + b * c),
                square == a * a + b * b,
        ;
        assert(0x1_0000 * along == c * square + a * u + b * v) by (nonlinear_arith)
            requires
                along == a * x.bits + b * y.bits,
                u == 0x1_0000 * x.bits - (a * c - b * s),
                v == 0x1_0000 * y.bits - (a * s + b * c),
                square == a * a + b * b,
        ;
        lemma_rounding_slack(a, u);
        lemma_rounding_slack(a, v);
        lemma_rounding_slack(b, u);
        lemma_rounding_slack(b, v);
        let size = arith::abs(advance.bits as int);
        let turned = if advance.bits >= 0 {
            s
        } else {
            -s
        };
        assert(100 * (turned * square) >= (95 * size - 200) * square && turned * square <= size
            * square) by (nonlinear_arith)
            requires
                95 * size - 200 <= 100 * turned,
                turned <= size,
                square >= 0,
        ;
        assert(57_344 * square <= c * square <= 0x1_0000 * square) by (nonlinear_arith)
            requires
                57_344 <= c <= 0x1_0000,
                square >= 0,
        ;
        assert((-s) * square == -(s * square)) by (nonlinear_arith);
    }
}

proof fn lemma_rounding_slack(value: int, rest: int)
    requires
        -0x2_0000 < rest < 0x2_0000,
    ensures
        arith::abs(value * rest) <= 0x2_0000 * arith::abs(value),
{
    assert(arith::abs(value * rest) <= 0x2_0000 * arith::abs(value)) by (nonlinear_arith)
        requires
            -0x2_0000 < rest < 0x2_0000,
    ;
}

proof fn lemma_small_product(value: Fixed, factor: Fixed)
    requires
        arith::abs(value.bits as int) <= 0x1000_0000,
        arith::abs(factor.bits as int) <= 0x1_0000,
    ensures
        arith::abs(0x1_0000 * value.times(factor).bits - value.bits * factor.bits) < 0x1_0000,
        arith::abs(value.times(factor).bits as int) <= 0x1000_0000,
{
    let a = value.bits as int;
    let k = factor.bits as int;
    assert(arith::abs(a * k) <= 0x1000_0000 * 0x1_0000) by (nonlinear_arith)
        requires
            arith::abs(a) <= 0x1000_0000,
            arith::abs(k) <= 0x1_0000,
    ;
}

/// Sine and cosine of a small angle lie between those of the straight line and
/// of the half-radian bound.
proof fn lemma_small_angle(advance: Fixed)
    requires
        arith::abs(advance.bits as int) <= 0x8000,
    ensures
        ({
            let turn = advance.times(advance);
            let sin = advance.minus(turn.times(advance).times(Fixed::of_ratio(1, 6)));
            let cos = Fixed::one_value().minus(turn.times(Fixed::half_value()));
            let size = arith::abs(advance.bits as int);
            let turned = if advance.bits >= 0 {
                sin.bits as int
            } else {
                -sin.bits
            };
            &&& 95 * size - 200 <= 100 * turned <= 100 * size
            &&& -0x1_0000 <= sin.bits <= 0x1_0000
            &&& 57_344 <= cos.bits <= 0x1_0000
        }),
{
    let a = advance.bits as int;
    let size = arith::abs(a);
    let turn = advance.times(advance);
    assert(0 <= a * a <= 0x8000 * size && a * a <= 0x4000_0000) by (nonlinear_arith)
        requires
            size == a || size == -a,
            0 <= size <= 0x8000,
    ;
    let t = turn.bits as int;
    assert(0 <= t <= 0x4000 && 2 * t <= size);
    let cube = turn.times(advance);
    assert(arith::abs(t * a) <= 0x4000 * size && (a >= 0 ==> t * a >= 0) && (a <= 0 ==> t * a <= 0))
        by (nonlinear_arith)
        requires
            size == a || size == -a,
            0 <= size,
            0 <= t <= 0x4000,
    ;
    let sixth = Fixed::of_ratio(1, 6);
    assert(sixth.bits == 10_922);
    let k = cube.bits as int;
    assert(arith::abs(k) * 4 <= size);
    assert(k * sixth.bits == 10_922 * k) by (nonlinear_arith)
        requires
            sixth.bits == 10_922,
    ;
    let half = Fixed::half_value();
    assert(t * half.bits == 32_768 * t) by (nonlinear_arith)
        requires
            half.bits == 32_768,
    ;
}

/// Sign of a phase current.
pub open spec fn current_sign(current: int) -> int {
    if current < 0 {
        -1
    } else {
        1
    }
}

/// The dead-time correction raises every phase by the factor along the sign of
/// its own current: between two phases it makes the difference of their signs
/// times the factor. In phase values, `a - b` is `(3 * alpha - sqrt(3) * beta) /
/// 2` and `b - c` is `sqrt(3) * beta`.
#[verifier::rlimit(40)]
pub proof fn law_dead_time_correction_follows_the_currents(
    factor: Fixed,
    phase_a: Fixed,
    phase_b: Fixed,
)
    requires
        0 <= factor.bits <= 0x1000_0000,
        i32::MIN < phase_a.bits + phase_b.bits <= i32::MAX,
    ensures
        ({
            let (x, y) = dead_time_vector(factor, phase_a, phase_b);
            let a = current_sign(phase_a.bits as int);
            let b = current_sign(phase_b.bits as int);
            let c = current_sign(-(phase_a.bits + phase_b.bits));
            let margin = 8 + factor.bits / 0x2000;
            &&& svpwm::near_sqrt_3(y.bits as int, factor.bits * (b - c), margin)
            &&& svpwm::near_sqrt_3(y.bits as int, 3 * x.bits - 2 * factor.bits * (a - b), margin)
        }),
{
    let (x, y) = dead_time_vector(factor, phase_a, phase_b);
    let a = current_sign(phase_a.bits as int);
    let b = current_sign(phase_b.bits as int);
    let c = current_sign(-(phase_a.bits + phase_b.bits));
    let margin = 8 + factor.bits / 0x2000;
    let thirds = Fixed::two_thirds_value();
    let roots = Fixed::two_inv_sqrt_3_value();
    assert(factor.bits * thirds.bits == 43_690 * factor.bits) by (nonlinear_arith)
        requires
            thirds.bits == 43_690,
    ;
    assert(factor.bits * roots.bits == 75_674 * factor.bits) by (nonlinear_arith)
        requires
            roots.bits == 75_674,
    ;
    let f = factor.bits as int;
    assert(f * (b - c) == if b == c {
        0
    } else if b > c {
        2 * f
    } else {
        -2 * f
    }) by (nonlinear_arith)
        requires
            b == 1 || b == -1,
            c == 1 || c == -1,
    ;
    assert(2 * f * (a - b) == if a == b {
        0
    } else if a > b {
        4 * f
    } else {
        -4 * f
    }) by (nonlinear_arith)
        requires
            a == 1 || a == -1,
            b == 1 || b == -1,
    ;
    svpwm::lemma_near_sqrt_3(y.bits as int, f * (b - c), margin);
    svpwm::lemma_near_sqrt_3(y.bits as int, 3 * x.bits - 2 * f * (a - b), margin);
}

/// With compensation off the compares are those of the stationary output.
pub proof fn law_disabled_compensation_modulates_the_output<
    N: Scalar,
    T: SinCos<N>,
    M: TickModulator<N>,
    D: DecouplingModel<N>,
    const DENOMINATOR: u32,
>(
    controller: FocController<N, T, M, D, 0, DENOMINATOR>,
    phase_a: N,
    phase_b: N,
    neutral: u16,
)
    requires
        N::zero_value().same(N::zero_value()),
    ensures
        controller.duties(phase_a, phase_b, neutral) == M::duties_for(
            controller.applied_stationary,
            neutral,
            controller.phase_limit_ticks,
        ),
{
}

/// Each axis is regulated on its own: a higher q target never lowers the
/// requested q voltage and leaves the d request alone, and the other way round.
/// Both loops remember their own error.
#[verifier::rlimit(40)]
pub proof fn law_axes_are_regulated_on_their_own<
    T: SinCos<Fixed>,
    M: TickModulator<Fixed>,
    const NUMERATOR: u32,
    const DENOMINATOR: u32,
>(
    controller: FocController<Fixed, T, M, NoDecoupling, NUMERATOR, DENOMINATOR>,
    phase_a: Fixed,
    phase_b: Fixed,
    angle: T::Angle,
    electrical_rpm: i32,
    low: Dq<Fixed>,
    high: Dq<Fixed>,
    injection: Dq<Fixed>,
    volts_per_pwm_tick: Fixed,
)
    requires
        low.d.bits <= high.d.bits,
        low.q.bits <= high.q.bits,
        controller.direct.proportional_gain.bits >= 0,
        controller.direct.integral_gain_per_cycle.bits >= 0,
        controller.quadrature.proportional_gain.bits >= 0,
        controller.quadrature.integral_gain_per_cycle.bits >= 0,
    ensures
        ({
            let measured = sampled_current::<Fixed, T>(phase_a, phase_b, angle).1;
            let x = controller.regulated(
                phase_a,
                phase_b,
                angle,
                electrical_rpm,
                low,
                injection,
                volts_per_pwm_tick,
            );
            let y = controller.regulated(
                phase_a,
                phase_b,
                angle,
                electrical_rpm,
                high,
                injection,
                volts_per_pwm_tick,
            );
            &&& x.requested_voltage.d.bits <= y.requested_voltage.d.bits
            &&& x.requested_voltage.q.bits <= y.requested_voltage.q.bits
            &&& low.d == high.d ==> x.requested_voltage.d == y.requested_voltage.d
            &&& low.q == high.q ==> x.requested_voltage.q == y.requested_voltage.q
            &&& x.direct.previous_error.bits == arith::sat_i32(low.d.bits - measured.d.bits)
            &&& x.quadrature.previous_error.bits == arith::sat_i32(low.q.bits - measured.q.bits)
            &&& x.measured_stationary == sampled_current::<Fixed, T>(phase_a, phase_b, angle).0
        }),
{
    let measured = sampled_current::<Fixed, T>(phase_a, phase_b, angle).1;
    crate::foc::pi_controller::law_regulator_opposes_the_error(
        controller.direct,
        low.d,
        high.d,
        measured.d,
    );
    crate::foc::pi_controller::law_regulator_opposes_the_error(
        controller.quadrature,
        low.q,
        high.q,
        measured.q,
    );
}

/// A step requests the regulator's answer and, on top of it and unscaled, the
/// feedforward and the injection. Regulators at rest whose current is on target
/// add nothing.
#[verifier::rlimit(40)]
pub proof fn law_request_adds_feedforward_and_injection<
    T: SinCos<Fixed>,
    M: TickModulator<Fixed>,
    D: DecouplingModel<Fixed>,
    const NUMERATOR: u32,
    const DENOMINATOR: u32,
>(
    controller: FocController<Fixed, T, M, D, NUMERATOR, DENOMINATOR>,
    phase_a: Fixed,
    phase_b: Fixed,
    angle: T::Angle,
    electrical_rpm: i32,
    target: Dq<Fixed>,
    injection: Dq<Fixed>,
    volts_per_pwm_tick: Fixed,
)
    requires
        controller.direct == controller.direct.cleared(),
        controller.quadrature == controller.quadrature.cleared(),
        target == sampled_current::<Fixed, T>(phase_a, phase_b, angle).1,
    ensures
        ({
            let feedforward = D::feedforward_for(electrical_rpm, target, volts_per_pwm_tick);
            let next = controller.regulated(
                phase_a,
                phase_b,
                angle,
                electrical_rpm,
                target,
                injection,
                volts_per_pwm_tick,
            );
            &&& next.feedforward_voltage == feedforward
            &&& next.requested_voltage.d.bits == arith::sat_i32(
                feedforward.d.bits + injection.d.bits,
            )
            &&& next.requested_voltage.q.bits == arith::sat_i32(
                feedforward.q.bits + injection.q.bits,
            )
            &&& next.direct == controller.direct
            &&& next.quadrature == controller.quadrature
        }),
{
    let measured = sampled_current::<Fixed, T>(phase_a, phase_b, angle).1;
    lemma_regulator_rests(controller.direct, measured.d);
    lemma_regulator_rests(controller.quadrature, measured.q);
    let next = controller.regulated(
        phase_a,
        phase_b,
        angle,
        electrical_rpm,
        target,
        injection,
        volts_per_pwm_tick,
    );
    let scale = Fixed::limited_vector(
        next.requested_voltage.d,
        next.requested_voltage.q,
        controller.vector_limit_ticks,
    ).2;
    let excess = scale.minus(Fixed::one_value());
    let zero = numeric::fixed(0);
    assert(zero.times(excess) == zero) by {
        assert(zero.bits * excess.bits == 0) by (nonlinear_arith)
            requires
                zero.bits == 0,
        ;
    }
}

proof fn lemma_regulator_rests(regulator: PIController<Fixed>, measurement: Fixed)
    requires
        regulator == regulator.cleared(),
    ensures
        ({
            let update = regulator.evaluated(measurement, measurement);
            &&& update.raw_output == numeric::fixed(0)
            &&& update.next_integral == numeric::fixed(0)
            &&& update.error == numeric::fixed(0)
        }),
{
    let zero = numeric::fixed(0);
    let half = Fixed::half_value();
    assert(zero.bits * half.bits == 0 && zero.bits * regulator.integral_gain_per_cycle.bits == 0
        && zero.bits * regulator.proportional_gain.bits == 0) by (nonlinear_arith)
        requires
            zero.bits == 0,
    ;
}

/// Inside the circle the integrators keep what they integrated; outside it each
/// gives back the part of its own output that the circle took, so that the
/// proportional part and the new integral add up to the output times the common
/// scale, to within two units.
#[verifier::rlimit(40)]
pub proof fn law_limited_step_unwinds_the_integrators<
    T: SinCos<Fixed>,
    M: TickModulator<Fixed>,
    D: DecouplingModel<Fixed>,
    const NUMERATOR: u32,
    const DENOMINATOR: u32,
>(
    controller: FocController<Fixed, T, M, D, NUMERATOR, DENOMINATOR>,
    phase_a: Fixed,
    phase_b: Fixed,
    angle: T::Angle,
    electrical_rpm: i32,
    target: Dq<Fixed>,
    injection: Dq<Fixed>,
    volts_per_pwm_tick: Fixed,
)
    requires
        ({
            let measured = sampled_current::<Fixed, T>(phase_a, phase_b, angle).1;
            &&& in_range(controller.direct, target.d, measured.d)
            &&& in_range(controller.quadrature, target.q, measured.q)
        }),
    ensures
        ({
            let measured = sampled_current::<Fixed, T>(phase_a, phase_b, angle).1;
            let next = controller.regulated(
                phase_a,
                phase_b,
                angle,
                electrical_rpm,
                target,
                injection,
                volts_per_pwm_tick,
            );
            let scale = Fixed::limited_vector(
                next.requested_voltage.d,
                next.requested_voltage.q,
                controller.vector_limit_ticks,
            ).2.bits as int;
            &&& stands_at_its_share(
                controller.direct,
                target.d,
                measured.d,
                next.direct.integral,
                scale,
            )
            &&& stands_at_its_share(
                controller.quadrature,
                target.q,
                measured.q,
                next.quadrature.integral,
                scale,
            )
        }),
{
    let measured = sampled_current::<Fixed, T>(phase_a, phase_b, angle).1;
    let next = controller.regulated(
        phase_a,
        phase_b,
        angle,
        electrical_rpm,
        target,
        injection,
        volts_per_pwm_tick,
    );
    let d = next.requested_voltage.d;
    let q = next.requested_voltage.q;
    let limit = controller.vector_limit_ticks;
    if Fixed::outside_circle(d, q, limit) {
        numeric::law_limited_vector_keeps_its_direction(d, q, limit);
    }
    let scale = Fixed::limited_vector(d, q, limit).2;
    lemma_share(controller.direct, target.d, measured.d, scale);
    lemma_share(controller.quadrature, target.q, measured.q, scale);
}

/// A regulator's parts stay well inside the number range.
pub open spec fn in_range(
    regulator: PIController<Fixed>,
    target: Fixed,
    measurement: Fixed,
) -> bool {
    let update = regulator.evaluated(target, measurement);
    let proportional = update.error.times(regulator.proportional_gain).truncated();
    &&& arith::abs(update.next_integral.bits as int) <= 0x2000_0000
    &&& arith::abs(proportional.bits as int) <= 0x2000_0000
}

/// Proportional part and integral add up to the output times a Q16.16 scale.
pub open spec fn stands_at_its_share(
    regulator: PIController<Fixed>,
    target: Fixed,
    measurement: Fixed,
    integral: Fixed,
    scale: int,
) -> bool {
    let update = regulator.evaluated(target, measurement);
    let proportional = update.error.times(regulator.proportional_gain).truncated();
    arith::abs(
        0x1_0000 * (proportional.bits + integral.bits) - scale * update.raw_output.bits,
    ) < 0x2_0000 * 0x1_0000
}

proof fn lemma_share(
    regulator: PIController<Fixed>,
    target: Fixed,
    measurement: Fixed,
    scale: Fixed,
)
    requires
        0 <= scale.bits <= 0x1_0000,
        in_range(regulator, target, measurement),
    ensures
        ({
            let update = regulator.evaluated(target, measurement);
            let output_error = update.raw_output.times(scale.minus(Fixed::one_value()));
            stands_at_its_share(
                regulator,
                target,
                measurement,
                regulator.accepted(update, output_error).integral,
                scale.bits as int,
            )
        }),
{
    let update = regulator.evaluated(target, measurement);
    let raw = update.raw_output.bits as int;
    let excess = scale.minus(Fixed::one_value());
    let e = excess.bits as int;
    numeric::law_conversions_agree(0, update.next_integral);
    assert(arith::abs(raw) <= 0x4000_0000);
    assert(raw * e == scale.bits * raw - 0x1_0000 * raw) by (nonlinear_arith)
        requires
            e == scale.bits - 0x1_0000,
    ;
    assert(arith::abs(raw * e) <= 0x1_0000 * arith::abs(raw)) by (nonlinear_arith)
        requires
            -0x1_0000 <= e <= 0,
    ;
    numeric::law_arithmetic_is_exact_to_a_unit(update.raw_output, excess);
}

/// The feedforward is the motor's speed voltage: minus the q flux on the d axis,
/// the d flux and the magnet's on the q axis, each times the speed and divided by
/// the volts of a tick, to within a tick per term. A standing rotor or a bus that
/// is too low gets none.
pub proof fn law_feedforward_is_the_speed_voltage<
    const LD: u32,
    const LQ: u32,
    const FLUX: u32,
>(electrical_rpm: i32, target: Dq<Fixed>, volts_per_pwm_tick: Fixed)
    requires
        <FixedDecoupling<LD, LQ, FLUX> as DecouplingModel<Fixed>>::accepts(
            electrical_rpm,
            target,
            volts_per_pwm_tick,
        ),
    ensures
        ({
            let voltage = <FixedDecoupling<LD, LQ, FLUX> as DecouplingModel<
                Fixed,
            >>::feedforward_for(electrical_rpm, target, volts_per_pwm_tick);
            let volts = volts_per_pwm_tick.bits as int;
            let d = target.d.bits as int / 0x1_0000;
            let q = target.q.bits as int / 0x1_0000;
            let d_flux = electrical_rpm * d * speed_scale_q8(LD as int);
            let q_flux = electrical_rpm * q * speed_scale_q8(LQ as int);
            let magnet = electrical_rpm * speed_scale_q8(FLUX as int);
            &&& electrical_rpm == 0 || volts < 512 ==> voltage == Dq::<Fixed>::null()
            &&& electrical_rpm != 0 && volts >= 512 ==> {
                &&& arith::abs(volts * voltage.d.bits + 0x100 * q_flux) < 0x1_0000 * volts
                &&& arith::abs(volts * voltage.q.bits - 0x100 * (d_flux + magnet)) <= 0x2_0001
                    * volts
            }
        }),
{
    let volts = volts_per_pwm_tick.bits as int;
    if electrical_rpm != 0 && volts >= 512 {
        let d = target.d.bits as int / 0x1_0000;
        let q = target.q.bits as int / 0x1_0000;
        let d_flux = electrical_rpm * d * speed_scale_q8(LD as int);
        let q_flux = electrical_rpm * q * speed_scale_q8(LQ as int);
        let magnet = electrical_rpm * speed_scale_q8(FLUX as int);
        lemma_speed_ticks(d_flux, volts);
        lemma_speed_ticks(q_flux, volts);
        lemma_speed_ticks(magnet, volts);
        let x = speed_voltage_ticks(q_flux, volts);
        let y = speed_voltage_ticks(d_flux, volts) + speed_voltage_ticks(magnet, volts);
        let voltage = <FixedDecoupling<LD, LQ, FLUX> as DecouplingModel<Fixed>>::feedforward_for(
            electrical_rpm,
            target,
            volts_per_pwm_tick,
        );
        assert(voltage.d.bits == -x * 0x1_0000);
        let short = y * 0x1_0000 - voltage.q.bits;
        assert(0 <= short <= 1);
        assert(0 <= volts * short <= volts && volts * voltage.q.bits == volts * (y * 0x1_0000)
            - volts * short) by (nonlinear_arith)
            requires
                short == y * 0x1_0000 - voltage.q.bits,
                0 <= short <= 1,
                volts >= 512,
        ;
        assert(volts * (-x * 0x1_0000) == -0x100 * (0x100 * volts * x)) by (nonlinear_arith);
        let a = speed_voltage_ticks(d_flux, volts);
        let b = speed_voltage_ticks(magnet, volts);
        assert(volts * (y * 0x1_0000) == 0x100 * (0x100 * volts * a) + 0x100 * (0x100 * volts * b))
            by (nonlinear_arith)
            requires
                y == a + b,
        ;
    }
}

/// The numerator of a speed voltage is the parameter times `2 * pi / 60`, over a
/// thousand, in Q8 and rounded to nearest.
pub proof fn law_speed_scale_is_rounded_to_nearest(parameter: int)
    requires
        0 <= parameter,
    ensures
        arith::abs(256_000 * speed_scale_q8(parameter) - 6_863 * parameter) <= 128_000,
{
}

proof fn lemma_speed_ticks(numerator: int, volts: int)
    requires
        fits_i32(numerator),
        volts >= 512,
    ensures
        arith::abs(0x100 * volts * speed_voltage_ticks(numerator, volts) - numerator) < 0x100
            * volts,
        -16_384 <= speed_voltage_ticks(numerator, volts) <= 16_384,
{
    let quotient = arith::trunc_div(numerator, volts);
    let ticks = arith::trunc_div(quotient, 256);
    let size = arith::abs(numerator);
    let whole = size / volts;
    assert(whole * volts <= size < whole * volts + volts && 0 <= whole <= 4_194_304)
        by (nonlinear_arith)
        requires
            whole == size / volts,
            volts >= 512,
            0 <= size <= 0x8000_0000,
    ;
    let part = whole / 256;
    assert(256 * part <= whole <= 256 * part + 255);
    assert(0x100 * volts * part <= size < 0x100 * volts * part + 0x100 * volts)
        by (nonlinear_arith)
        requires
            256 * part <= whole <= 256 * part + 255,
            whole * volts <= size < whole * volts + volts,
            volts >= 512,
    ;
    assert(0x100 * volts * -part == -(0x100 * volts * part)) by (nonlinear_arith);
}

/// A positive advance turns the whole output of a step forward, a negative one
/// back: against the output of the same step without advance the cross product has
/// the advance's sign and about its size, and nothing else of the step changes.
pub proof fn law_step_output_is_advanced<
    T: SinCos<Fixed>,
    M: TickModulator<Fixed>,
    D: DecouplingModel<Fixed>,
    const NUMERATOR: u32,
    const DENOMINATOR: u32,
>(
    controller: FocController<Fixed, T, M, D, NUMERATOR, DENOMINATOR>,
    angle: T::Angle,
    measured: AlphaBeta<Fixed>,
    feedforward: Dq<Fixed>,
    requested: Dq<Fixed>,
)
    requires
        arith::abs(controller.actuation_advance.bits as int) <= 0x8000,
        ({
            let straight = FocController { actuation_advance: Fixed { bits: 0 }, ..controller };
            let plain = straight.driven(angle, measured, feedforward, requested).applied_stationary;
            arith::abs(plain.alpha.bits as int) <= 0x1000_0000 && arith::abs(
                plain.beta.bits as int,
            ) <= 0x1000_0000
        }),
    ensures
        ({
            let straight = FocController { actuation_advance: Fixed { bits: 0 }, ..controller };
            let next = straight.driven(angle, measured, feedforward, requested);
            let plain = next.applied_stationary;
            let after = controller.driven(angle, measured, feedforward, requested);
            let turned = after.applied_stationary;
            let a = plain.alpha.bits as int;
            let b = plain.beta.bits as int;
            let square = a * a + b * b;
            let cross = a * turned.beta.bits - b * turned.alpha.bits;
            let forward = if controller.actuation_advance.bits >= 0 {
                cross
            } else {
                -cross
            };
            let size = arith::abs(controller.actuation_advance.bits as int);
            let slack = 0x2_0000 * (arith::abs(a) + arith::abs(b));
            &&& 100 * (0x1_0000 * forward + slack) >= (95 * size - 200) * square
            &&& 0x1_0000 * forward <= size * square + slack
            &&& after.applied_voltage == next.applied_voltage
            &&& after.voltage_limited == next.voltage_limited
        }),
{
    let straight = FocController { actuation_advance: Fixed { bits: 0 }, ..controller };
    let plain = straight.driven(angle, measured, feedforward, requested).applied_stationary;
    law_advance_turns_the_output_forward(plain.alpha, plain.beta, controller.actuation_advance);
}

/// What reaches the modulator is the stationary output plus the correction for
/// the phase currents of the step: its phases are raised along the signs of their
/// own currents by the configured ratio.
pub proof fn law_modulator_gets_the_corrected_output<
    T: SinCos<Fixed>,
    M: TickModulator<Fixed>,
    D: DecouplingModel<Fixed>,
    const NUMERATOR: u32,
    const DENOMINATOR: u32,
>(
    controller: FocController<Fixed, T, M, D, NUMERATOR, DENOMINATOR>,
    phase_a: Fixed,
    phase_b: Fixed,
)
    requires
        0 < NUMERATOR <= 4_096,
        0 < DENOMINATOR <= 4_096,
        i32::MIN < phase_a.bits + phase_b.bits <= i32::MAX,
        arith::abs(controller.applied_stationary.alpha.bits as int) <= 0x2000_0000,
        arith::abs(controller.applied_stationary.beta.bits as int) <= 0x2000_0000,
    ensures
        ({
            let command = controller.modulated(phase_a, phase_b);
            let output = controller.applied_stationary;
            let x = command.alpha.bits - output.alpha.bits;
            let y = command.beta.bits - output.beta.bits;
            let factor = FocController::<
                Fixed,
                T,
                M,
                D,
                NUMERATOR,
                DENOMINATOR,
            >::dead_time_factor().bits as int;
            let a = current_sign(phase_a.bits as int);
            let b = current_sign(phase_b.bits as int);
            let c = current_sign(-(phase_a.bits + phase_b.bits));
            let margin = 8 + factor / 0x2000;
            &&& DENOMINATOR * factor <= 0x1_0000 * NUMERATOR < DENOMINATOR * (factor + 1)
            &&& svpwm::near_sqrt_3(y, factor * (b - c), margin)
            &&& svpwm::near_sqrt_3(y, 3 * x - 2 * factor * (a - b), margin)
        }),
{
    let factor = FocController::<Fixed, T, M, D, NUMERATOR, DENOMINATOR>::dead_time_factor();
    let n = 0x1_0000 * NUMERATOR;
    let d = DENOMINATOR as int;
    let q = n / d;
    assert(0 < q <= n && d * q <= n < d * (q + 1)) by (nonlinear_arith)
        requires
            q == n / d,
            0 < d <= 4_096,
            0x1_0000 <= n,
    ;
    assert(factor.bits == q);
    law_dead_time_correction_follows_the_currents(factor, phase_a, phase_b);
    let (x, y) = dead_time_vector(factor, phase_a, phase_b);
    lemma_correction_is_bounded(factor, phase_a, phase_b);
}

proof fn lemma_correction_is_bounded(factor: Fixed, phase_a: Fixed, phase_b: Fixed)
    requires
        0 <= factor.bits <= 0x1000_0000,
    ensures
        arith::abs(dead_time_vector(factor, phase_a, phase_b).0.bits as int) <= 0x1800_0000,
        arith::abs(dead_time_vector(factor, phase_a, phase_b).1.bits as int) <= 0x1800_0000,
{
    let thirds = Fixed::two_thirds_value();
    let roots = Fixed::two_inv_sqrt_3_value();
    assert(factor.bits * thirds.bits == 43_690 * factor.bits) by (nonlinear_arith)
        requires
            thirds.bits == 43_690,
    ;
    assert(factor.bits * roots.bits == 75_674 * factor.bits) by (nonlinear_arith)
        requires
            roots.bits == 75_674,
    ;
}

} // verus!
