//! Sensorless phase observer for the synchronous FOC controller.
//!
//! [`BackEmfObserver`] is an MXLEMMING-style flux integrator with a PLL in the
//! fixed-point units of the control loop. Voltage and current inputs are
//! physical volts and amps; flux is in milliwebers so that sub-0.1 mH motor
//! inductance keeps useful Q16.16 precision.
use vstd::prelude::*;

use super::provider::PhaseInput;
use crate::arith;
use crate::foc::control_types::AlphaBeta;
use crate::foc::numeric;
use crate::foc::numeric::Fixed;
use crate::foc::trig::{CordicSinCos, SinCos, Turns};

verus! {

/// One half in Q16.16.
pub const READY_MIN_CONFIDENCE_BITS: i32 = 0x8000;

pub const READY_MIN_ERPM: i32 = 287;

/// 0.2 rad in Q0.32 turns.
pub const READY_ACQUIRE_MAX_ERROR_Q32: u32 = 136_713_055;

/// 0.6 rad in Q0.32 turns.
pub const READY_HOLD_MAX_ERROR_Q32: u32 = 410_139_165;

/// Two revolutions in Q32 turns.
pub const READY_VALID_TRAVEL_Q32: u64 = 0x2_0000_0000;

/// `2*pi` in Q16.
pub const TAU_Q16: i64 = 411_775;

/// Highest control rate at which every representable velocity has a speed in
/// revolutions per minute.
pub const MAXIMUM_CONTROL_FREQUENCY_HZ: u32 = 71_582_788;

/// Q16.16 product, rounded down and wrapped to a word.
pub open spec fn q16_product(left: int, right: int) -> int {
    arith::wrap_i32(left * right / 0x1_0000)
}

/// Product with a Q32 coefficient, rounded down.
pub open spec fn q32_product(value: int, coefficient: int) -> int {
    value * coefficient / 0x1_0000_0000
}

/// `numerator / denominator` in units of `1 / scale`: both operands are first
/// shifted to at most fifteen significant bits. Zero without a positive
/// denominator.
pub open spec fn short_ratio(numerator: int, denominator: int, scale: int) -> int {
    if denominator <= 0 {
        0
    } else {
        let shift = arith::shift_below(arith::max(arith::abs(numerator), denominator), 0x8000);
        arith::trunc_div(
            arith::sat_i32((numerator / arith::unit(shift)) * scale),
            arith::max(denominator / arith::unit(shift), 1),
        )
    }
}

/// Polynomial arctangent in Q0.32 turns.
pub open spec fn atan2_of(y: int, x: int) -> int {
    if x == 0 && y == 0 {
        0
    } else {
        let ratio = atan2_ratio(y, x);
        let square = ratio * ratio / 0x8000;
        let polynomial = 134_183_864 * square / 0x8000 - 671_056_031;
        let base = if x >= 0 {
            0x2000_0000int
        } else {
            0x6000_0000
        };
        let angle = base + polynomial * ratio / 0x8000;
        arith::wrap_u32(
            if y < 0 {
                -angle
            } else {
                angle
            },
        )
    }
}

/// Q15 argument of the arctangent polynomial.
pub open spec fn atan2_ratio(y: int, x: int) -> int {
    let height = arith::sat_i32(arith::abs(y));
    if x >= 0 {
        short_ratio(arith::sat_i32(x - height), arith::sat_i32(x + height), 0x8000)
    } else {
        short_ratio(arith::sat_i32(x + height), arith::sat_i32(height - x), 0x8000)
    }
}

/// Norm used for readiness: the larger component plus three eighths of the
/// smaller one.
pub open spec fn approximate_magnitude(alpha: int, beta: int) -> int {
    let a = arith::abs(alpha);
    let b = arith::abs(beta);
    arith::min(
        arith::max(a, b) + arith::sat_u32(3 * arith::min(a, b)) / 8,
        i32::MAX as int,
    )
}

/// `value` kept within `limit` of zero.
pub open spec fn symmetric_clamp(value: int, limit: int) -> int {
    arith::clamp(value, -limit, limit)
}

/// Filter step: moves by the Q32 coefficient's share of the distance.
pub open spec fn filtered(previous: int, sample: int, coefficient: int) -> int {
    previous + q32_product(sample - previous, coefficient)
}

/// `2^32 / denominator` rounded to nearest, ties up; the largest word for a
/// denominator of at most one.
pub open spec fn q32_reciprocal(denominator: int) -> int {
    if denominator <= 1 {
        u32::MAX as int
    } else {
        (0x2_0000_0000 + denominator) / (2 * denominator)
    }
}

/// Q0.32 turns per control cycle at a speed.
pub open spec fn step_for_erpm(electrical_rpm: int, control_frequency_hz: int) -> int {
    arith::sat_i32(
        electrical_rpm * q32_reciprocal(arith::max(arith::sat_u32(control_frequency_hz * 60), 1)),
    )
}

/// Speed of a Q0.32 step per control cycle, rounded down.
pub open spec fn erpm_for_step(step: int, control_frequency_hz: int) -> int {
    arith::sat_i32(step * (control_frequency_hz * 60) / 0x1_0000_0000)
}

/// Back-EMF expected at a speed, Q16.16 volts.
pub open spec fn expected_bemf(volts_per_erpm_q24: int, electrical_rpm: int) -> int {
    arith::sat_i32(volts_per_erpm_q24 * electrical_rpm / 0x100)
}

/// `numerator * 2^32 / denominator` rounded down, at most the largest word.
pub open spec fn q32_ratio(numerator: int, denominator: int) -> int {
    if denominator == 0 {
        u32::MAX as int
    } else {
        arith::sat_u32(numerator * 0x1_0000_0000 / denominator)
    }
}

/// Fixed-point MXLEMMING flux observer with a phase-locked loop.
///
/// Constructor units preserve the physical motor model: resistance is ohms,
/// inductance is millihenries, and flux linkage is milliwebers.
#[derive(Clone, Copy, Debug, Eq, PartialEq, Structural)]
pub struct BackEmfObserver {
    pub flux_alpha_mwb: Fixed,
    pub flux_beta_mwb: Fixed,
    pub current_alpha_last_a: Fixed,
    pub current_beta_last_a: Fixed,
    pub phase_raw: Turns,
    pub phase_pll: Turns,
    pub velocity_step_q32: i32,
    pub phase_error_filtered_q32: u32,
    pub flux_magnitude_mwb: Fixed,
    pub confidence: Fixed,
    pub bemf_q_filtered_v: Fixed,
    pub valid_travel_q32: u64,
    pub invalid_cycles: u32,
    pub ready_latched: bool,
    pub resistance_ohms: Fixed,
    pub inductance_millihenries: Fixed,
    pub flux_linkage_mwb: Fixed,
    pub inverse_flux_linkage: Fixed,
    pub bemf_volts_per_erpm_q24: i32,
    pub control_frequency_hz: u32,
    pub flux_voltage_step: Fixed,
    pub centering_step: Fixed,
    pub bemf_filter_step: Fixed,
    pub pll_kp_step_q32: u32,
    pub pll_ki_step_q32: u32,
    pub phase_error_filter_step_q32: u32,
    pub valid_revoke_cycles: u32,
}

impl BackEmfObserver {
    /// The flux linkage is positive, the control rate is one whose speeds can
    /// be expressed, and the filtered error is the magnitude of a signed angle.
    pub open spec fn wf(self) -> bool {
        &&& self.flux_linkage_mwb.bits > 0
        &&& 0 < self.control_frequency_hz <= MAXIMUM_CONTROL_FREQUENCY_HZ
        &&& self.phase_error_filtered_q32 <= i32::MAX
    }

    /// The observer with its estimate forgotten and its motor model kept.
    pub open spec fn cleared(self) -> Self {
        BackEmfObserver {
            flux_alpha_mwb: numeric::fixed(0),
            flux_beta_mwb: numeric::fixed(0),
            current_alpha_last_a: numeric::fixed(0),
            current_beta_last_a: numeric::fixed(0),
            phase_raw: 0,
            phase_pll: 0,
            velocity_step_q32: 0,
            phase_error_filtered_q32: 0x7fff_ffff,
            flux_magnitude_mwb: numeric::fixed(0),
            confidence: numeric::fixed(0),
            bemf_q_filtered_v: numeric::fixed(0),
            valid_travel_q32: 0,
            invalid_cycles: 0,
            ready_latched: false,
            ..self
        }
    }

    /// Signed speed of the PLL.
    pub open spec fn erpm(self) -> int {
        erpm_for_step(self.velocity_step_q32 as int, self.control_frequency_hz as int)
    }

    /// Conditions for trusting the estimate: confident flux, locked PLL,
    /// sufficient speed, and back-EMF corroborated over two revolutions. A
    /// latched estimate tolerates a larger PLL error.
    pub open spec fn readiness(self, holding: bool, electrical_rpm: int) -> bool {
        &&& self.confidence.bits >= READY_MIN_CONFIDENCE_BITS
        &&& self.phase_error_filtered_q32 < (if holding {
            READY_HOLD_MAX_ERROR_Q32
        } else {
            READY_ACQUIRE_MAX_ERROR_Q32
        })
        &&& arith::abs(electrical_rpm) >= READY_MIN_ERPM
        &&& self.valid_travel_q32 >= READY_VALID_TRAVEL_Q32
    }

    /// The filtered back-EMF agrees with the speed: same sign, and between one
    /// quarter and five halves of the expected voltage.
    pub open spec fn corroborates(self, electrical_rpm: int) -> bool {
        let measured = self.bemf_q_filtered_v.bits as int;
        let expected = expected_bemf(self.bemf_volts_per_erpm_q24 as int, electrical_rpm);
        &&& arith::abs(electrical_rpm) >= READY_MIN_ERPM
        &&& measured != 0 && expected != 0 && (measured > 0) == (expected > 0)
        &&& 4 * arith::abs(measured) >= arith::abs(expected)
        &&& 2 * arith::abs(measured) <= 5 * arith::abs(expected)
    }

    /// The observer with its validity credit brought up to date: agreement
    /// earns travel up to two revolutions; disagreement takes it away, at once
    /// before it is complete and after a hold interval once it is.
    pub open spec fn validated(self, electrical_rpm: int) -> Self {
        if self.corroborates(electrical_rpm) {
            BackEmfObserver {
                invalid_cycles: 0,
                valid_travel_q32: arith::min(
                    arith::sat_u64(
                        self.valid_travel_q32 + arith::abs(self.velocity_step_q32 as int),
                    ),
                    READY_VALID_TRAVEL_Q32 as int,
                ) as u64,
                ..self
            }
        } else if self.valid_travel_q32 >= READY_VALID_TRAVEL_Q32 && arith::sat_u32(
            self.invalid_cycles + 1,
        ) < self.valid_revoke_cycles {
            BackEmfObserver { invalid_cycles: arith::sat_u32(self.invalid_cycles + 1) as u32, ..self }
        } else {
            BackEmfObserver { invalid_cycles: 0, valid_travel_q32: 0, ..self }
        }
    }

    /// Voltage left after the resistive drop, per axis.
    pub open spec fn emf(self, input: PhaseInput) -> (int, int) {
        let resistance = self.resistance_ohms.bits as int;
        (
            arith::wrap_i32(
                input.applied_voltage.alpha.bits - q16_product(
                    resistance,
                    input.measured_current.alpha.bits as int,
                ),
            ),
            arith::wrap_i32(
                input.applied_voltage.beta.bits - q16_product(
                    resistance,
                    input.measured_current.beta.bits as int,
                ),
            ),
        )
    }

    /// Flux after integrating one axis: `psi += e * dt - L * delta_i`.
    pub open spec fn integrated(self, flux: int, emf: int, current: int, last: int) -> int {
        arith::sat_i32(
            flux + q16_product(emf, self.flux_voltage_step.bits as int) - q16_product(
                self.inductance_millihenries.bits as int,
                arith::wrap_i32(current - last),
            ),
        )
    }

    /// Flux after centering: outside the linkage circle it is pulled back by at
    /// most one half, and each component is clamped to the linkage.
    pub open spec fn centered(self, flux: int, magnitude: int) -> int {
        let limit = self.flux_linkage_mwb.bits as int;
        let pulled = if magnitude > limit {
            let normalized = q16_product(magnitude, self.inverse_flux_linkage.bits as int);
            let error = arith::wrap_i32(0x1_0000 - q16_product(normalized, normalized));
            let pull = arith::clamp(
                q16_product(error, self.centering_step.bits as int),
                -0x8000,
                0,
            );
            arith::wrap_i32(flux + q16_product(flux, pull))
        } else {
            flux
        };
        symmetric_clamp(pulled, limit)
    }

    /// The observer after the flux stage of an update.
    pub open spec fn with_flux(self, input: PhaseInput) -> Self {
        let (e_alpha, e_beta) = self.emf(input);
        let alpha = self.integrated(
            self.flux_alpha_mwb.bits as int,
            e_alpha,
            input.measured_current.alpha.bits as int,
            self.current_alpha_last_a.bits as int,
        );
        let beta = self.integrated(
            self.flux_beta_mwb.bits as int,
            e_beta,
            input.measured_current.beta.bits as int,
            self.current_beta_last_a.bits as int,
        );
        let magnitude = approximate_magnitude(alpha, beta);
        BackEmfObserver {
            flux_alpha_mwb: numeric::fixed(self.centered(alpha, magnitude)),
            flux_beta_mwb: numeric::fixed(self.centered(beta, magnitude)),
            current_alpha_last_a: input.measured_current.alpha,
            current_beta_last_a: input.measured_current.beta,
            flux_magnitude_mwb: numeric::fixed(magnitude),
            confidence: numeric::fixed(
                arith::clamp(
                    q16_product(magnitude, self.inverse_flux_linkage.bits as int),
                    0,
                    0x1_0000,
                ),
            ),
            ..self
        }
    }

    /// The observer after its PLL has followed the flux angle.
    pub open spec fn with_phase(self) -> Self {
        let raw = atan2_of(self.flux_beta_mwb.bits as int, self.flux_alpha_mwb.bits as int);
        let error = arith::wrap_i32(raw - self.phase_pll);
        let velocity = arith::sat_i32(
            self.velocity_step_q32 + q32_product(error, self.pll_ki_step_q32 as int),
        );
        let step = arith::sat_i32(velocity + q32_product(error, self.pll_kp_step_q32 as int));
        BackEmfObserver {
            phase_raw: raw as u32,
            velocity_step_q32: velocity as i32,
            phase_pll: arith::wrap_u32(self.phase_pll + step) as u32,
            phase_error_filtered_q32: filtered(
                self.phase_error_filtered_q32 as int,
                arith::min(arith::abs(error), i32::MAX as int),
                self.phase_error_filter_step_q32 as int,
            ) as u32,
            ..self
        }
    }

    /// The observer after filtering the q component of the back-EMF, which is
    /// the projection of `emf` on the estimated q axis.
    pub open spec fn with_bemf(self, emf: (int, int)) -> Self {
        let cross = arith::wrap_i32(
            q16_product(emf.1, self.flux_alpha_mwb.bits as int) - q16_product(
                emf.0,
                self.flux_beta_mwb.bits as int,
            ),
        );
        let floor = self.flux_linkage_mwb.bits as int / 10;
        let bemf = short_ratio(
            cross,
            arith::max(self.flux_magnitude_mwb.bits as int, floor),
            0x1_0000,
        );
        let step = q16_product(
            arith::wrap_i32(bemf - self.bemf_q_filtered_v.bits),
            self.bemf_filter_step.bits as int,
        );
        BackEmfObserver {
            bemf_q_filtered_v: numeric::fixed(
                arith::wrap_i32(self.bemf_q_filtered_v.bits + step),
            ),
            ..self
        }
    }

    /// The observer after one voltage and current sample.
    pub open spec fn updated(self, input: PhaseInput) -> Self {
        let advanced = self.with_flux(input).with_phase().with_bemf(self.emf(input));
        let checked = advanced.validated(advanced.erpm());
        BackEmfObserver {
            ready_latched: checked.readiness(self.ready_latched, checked.erpm()),
            ..checked
        }
    }

    /// The observer locked to a trusted phase and speed, with full validity
    /// credit.
    pub open spec fn seeded(self, phase: u32, electrical_rpm: i32) -> Self {
        let (sin, cos) = CordicSinCos::sin_cos_of(phase);
        let linkage = self.flux_linkage_mwb.bits as int;
        BackEmfObserver {
            flux_alpha_mwb: numeric::fixed(numeric::product_bits(linkage, cos.bits as int)),
            flux_beta_mwb: numeric::fixed(numeric::product_bits(linkage, sin.bits as int)),
            current_alpha_last_a: numeric::fixed(0),
            current_beta_last_a: numeric::fixed(0),
            phase_raw: phase,
            phase_pll: phase,
            velocity_step_q32: step_for_erpm(
                electrical_rpm as int,
                self.control_frequency_hz as int,
            ) as i32,
            phase_error_filtered_q32: 0,
            flux_magnitude_mwb: self.flux_linkage_mwb,
            confidence: numeric::fixed(0x1_0000),
            bemf_q_filtered_v: numeric::fixed(
                expected_bemf(self.bemf_volts_per_erpm_q24 as int, electrical_rpm as int),
            ),
            valid_travel_q32: READY_VALID_TRAVEL_Q32,
            invalid_cycles: 0,
            ready_latched: arith::abs(electrical_rpm as int) >= READY_MIN_ERPM,
            ..self
        }
    }

    /// An observer without an estimate: the motor model, and the gains that follow
    /// from it and from the control rate.
    pub open spec fn fresh(
        resistance_ohms: Fixed,
        inductance_millihenries: Fixed,
        flux_linkage_mwb: Fixed,
        control_frequency_hz: u32,
    ) -> Self {
        let frequency = control_frequency_hz as int;
        BackEmfObserver {
            flux_alpha_mwb: numeric::fixed(0),
            flux_beta_mwb: numeric::fixed(0),
            current_alpha_last_a: numeric::fixed(0),
            current_beta_last_a: numeric::fixed(0),
            phase_raw: 0,
            phase_pll: 0,
            velocity_step_q32: 0,
            phase_error_filtered_q32: 0x7fff_ffff,
            flux_magnitude_mwb: numeric::fixed(0),
            confidence: numeric::fixed(0),
            bemf_q_filtered_v: numeric::fixed(0),
            valid_travel_q32: 0,
            invalid_cycles: 0,
            ready_latched: false,
            resistance_ohms,
            inductance_millihenries,
            flux_linkage_mwb,
            inverse_flux_linkage: numeric::fixed(0x1_0000_0000int / flux_linkage_mwb.bits as int),
            bemf_volts_per_erpm_q24: ((flux_linkage_mwb.bits * TAU_Q16 * 256 + 1_966_080_000)
                / 3_932_160_000) as i32,
            control_frequency_hz,
            flux_voltage_step: numeric::fixed(65_536_000int / frequency),
            centering_step: numeric::fixed(32_768_000int / frequency),
            bemf_filter_step: numeric::fixed(2_621_440int / frequency),
            pll_kp_step_q32: q32_ratio(1_000, frequency) as u32,
            pll_ki_step_q32: q32_ratio(20_000, frequency * frequency) as u32,
            phase_error_filter_step_q32: q32_ratio(100, frequency) as u32,
            valid_revoke_cycles: (arith::sat_u32(2 * frequency) / 5) as u32,
        }
    }

    /// Build the round-rotor observer used by the Hall crossover.
    ///
    /// The gains are nonlinear centering of 500 per second, a PLL with
    /// `kp = 1000 / s` and `ki = 20000 / s^2`, a 25 ms back-EMF filter, a 10 ms
    /// phase-error filter, and 400 ms of tolerated disagreement.
    pub fn new(
        resistance_ohms: Fixed,
        inductance_millihenries: Fixed,
        flux_linkage_mwb: Fixed,
        control_frequency_hz: u32,
    ) -> (r: Self)
        requires
            control_frequency_hz > 0,
            flux_linkage_mwb.bits > 0,
        ensures
            r == BackEmfObserver::fresh(
                resistance_ohms,
                inductance_millihenries,
                flux_linkage_mwb,
                control_frequency_hz,
            ),
            control_frequency_hz <= MAXIMUM_CONTROL_FREQUENCY_HZ ==> r.wf(),
    {
        let flux: i64 = flux_linkage_mwb.to_bits() as i64;
        let inverse_flux: i64 = 0x1_0000_0000 / flux;
        let frequency: u64 = control_frequency_hz as u64;
        proof {
            assert(0 <= 0x1_0000_0000int / flux as int) by (nonlinear_arith)
                requires
                    flux > 0,
            ;
            assert(65_536_000int / frequency as int <= 65_536_000 && 32_768_000int
                / frequency as int <= 32_768_000 && 2_621_440int / frequency as int <= 2_621_440)
                by (nonlinear_arith)
                requires
                    frequency >= 1,
            ;
            assert(frequency * frequency <= 0xffff_ffff * 0xffff_ffff) by (nonlinear_arith)
                requires
                    0 <= frequency <= 0xffff_ffff,
            ;
        }
        let bemf_coefficient: i64 = (flux * TAU_Q16 * 256 + 1_966_080_000) / 3_932_160_000;
        BackEmfObserver {
            flux_alpha_mwb: Fixed::zero(),
            flux_beta_mwb: Fixed::zero(),
            current_alpha_last_a: Fixed::zero(),
            current_beta_last_a: Fixed::zero(),
            phase_raw: 0,
            phase_pll: 0,
            velocity_step_q32: 0,
            phase_error_filtered_q32: u32::MAX / 2,
            flux_magnitude_mwb: Fixed::zero(),
            confidence: Fixed::zero(),
            bemf_q_filtered_v: Fixed::zero(),
            valid_travel_q32: 0,
            invalid_cycles: 0,
            ready_latched: false,
            resistance_ohms,
            inductance_millihenries,
            flux_linkage_mwb,
            inverse_flux_linkage: Fixed::from_bits(arith::sat_i64_to_i32(inverse_flux)),
            bemf_volts_per_erpm_q24: bemf_coefficient as i32,
            control_frequency_hz,
            flux_voltage_step: Fixed::from_bits((65_536_000 / frequency) as i32),
            centering_step: Fixed::from_bits((32_768_000 / frequency) as i32),
            bemf_filter_step: Fixed::from_bits((2_621_440 / frequency) as i32),
            pll_kp_step_q32: ratio_q32(1_000, frequency),
            pll_ki_step_q32: ratio_q32(20_000, frequency * frequency),
            phase_error_filter_step_q32: ratio_q32(100, frequency),
            valid_revoke_cycles: arith::sat_mul_u32(control_frequency_hz, 2) / 5,
        }
    }

    pub fn phase(&self) -> (r: Turns)
        ensures
            r == self.phase_pll,
    {
        self.phase_pll
    }

    pub fn phase_raw(&self) -> (r: Turns)
        ensures
            r == self.phase_raw,
    {
        self.phase_raw
    }

    pub fn electrical_rpm(&self) -> (r: i32)
        requires
            self.control_frequency_hz <= MAXIMUM_CONTROL_FREQUENCY_HZ,
        ensures
            r == self.erpm(),
    {
        let cycles_per_minute: i64 = self.control_frequency_hz as i64 * 60;
        assert(-0x8000_0000_0000_0000 <= self.velocity_step_q32 * cycles_per_minute
            <= 0x7fff_ffff_ffff_ffff) by (nonlinear_arith)
            requires
                -0x8000_0000 <= self.velocity_step_q32 <= 0x7fff_ffff,
                0 <= cycles_per_minute <= 0x1_0000_0000,
        ;
        let product: i64 = self.velocity_step_q32 as i64 * cycles_per_minute;
        proof {
            arith::lemma_i64(product);
        }
        arith::sat_i64_to_i32(product >> 32)
    }

    pub fn confidence(&self) -> (r: Fixed)
        ensures
            r == self.confidence,
    {
        self.confidence
    }

    pub fn flux_magnitude_mwb(&self) -> (r: Fixed)
        ensures
            r == self.flux_magnitude_mwb,
    {
        self.flux_magnitude_mwb
    }

    pub fn bemf_q_filtered_v(&self) -> (r: Fixed)
        ensures
            r == self.bemf_q_filtered_v,
    {
        self.bemf_q_filtered_v
    }

    pub fn phase_error_filtered_q32(&self) -> (r: u32)
        ensures
            r == self.phase_error_filtered_q32,
    {
        self.phase_error_filtered_q32
    }

    /// External-validity progress, where 255 represents the two-revolution
    /// corroboration threshold.
    pub fn validity_progress(&self) -> (r: u8)
        ensures
            r == arith::sat_u8(self.valid_travel_q32 as int / 0x200_0000),
    {
        let progress: u64 = self.valid_travel_q32 / 0x200_0000;
        if progress > u8::MAX as u64 {
            u8::MAX
        } else {
            progress as u8
        }
    }

    pub fn is_ready(&self) -> (r: bool)
        ensures
            r == self.ready_latched,
    {
        self.ready_latched
    }

    /// Seed phase and velocity from a trustworthy physical sensor.
    ///
    /// A trusted seed also grants the two-revolution external-validity credit.
    /// Live back-EMF disagreement still revokes that credit after the normal
    /// hold interval.
    pub fn seed(&mut self, phase: Turns, electrical_rpm: i32)
        ensures
            *final(self) == old(self).seeded(phase, electrical_rpm),
            old(self).wf() ==> final(self).wf(),
    {
        let (sin, cos) = CordicSinCos::sin_cos(phase);
        self.flux_alpha_mwb = self.flux_linkage_mwb * cos;
        self.flux_beta_mwb = self.flux_linkage_mwb * sin;
        self.current_alpha_last_a = Fixed::zero();
        self.current_beta_last_a = Fixed::zero();
        self.phase_raw = phase;
        self.phase_pll = phase;
        self.velocity_step_q32 = erpm_to_step(electrical_rpm, self.control_frequency_hz);
        self.phase_error_filtered_q32 = 0;
        self.flux_magnitude_mwb = self.flux_linkage_mwb;
        self.confidence = Fixed::one();
        self.bemf_q_filtered_v = expected_bemf_voltage(
            self.bemf_volts_per_erpm_q24,
            electrical_rpm,
        );
        self.valid_travel_q32 = READY_VALID_TRAVEL_Q32;
        self.invalid_cycles = 0;
        self.ready_latched = self.readiness_met(false, electrical_rpm);
    }

    pub fn reset(&mut self)
        ensures
            *final(self) == old(self).cleared(),
            old(self).wf() ==> final(self).wf(),
    {
        self.flux_alpha_mwb = Fixed::zero();
        self.flux_beta_mwb = Fixed::zero();
        self.current_alpha_last_a = Fixed::zero();
        self.current_beta_last_a = Fixed::zero();
        self.phase_raw = 0;
        self.phase_pll = 0;
        self.velocity_step_q32 = 0;
        self.phase_error_filtered_q32 = u32::MAX / 2;
        self.flux_magnitude_mwb = Fixed::zero();
        self.confidence = Fixed::zero();
        self.bemf_q_filtered_v = Fixed::zero();
        self.valid_travel_q32 = 0;
        self.invalid_cycles = 0;
        self.ready_latched = false;
    }

    /// Integrate one causally paired voltage/current sample.
    pub fn update(&mut self, input: &PhaseInput)
        requires
            old(self).wf(),
        ensures
            final(self).wf(),
            *final(self) == old(self).updated(*input),
    {
        let resistance: i32 = self.resistance_ohms.to_bits();
        let e_alpha: i32 = arith::wrapping_sub_i32(
            input.applied_voltage.alpha.to_bits(),
            multiply_q16(resistance, input.measured_current.alpha.to_bits()),
        );
        let e_beta: i32 = arith::wrapping_sub_i32(
            input.applied_voltage.beta.to_bits(),
            multiply_q16(resistance, input.measured_current.beta.to_bits()),
        );
        proof {
            assert((e_alpha as int, e_beta as int) == self.emf(*input));
        }
        self.update_flux(e_alpha, e_beta, input);
        self.update_phase();
        self.update_bemf(e_alpha, e_beta);
        let electrical_rpm: i32 = self.electrical_rpm();
        self.update_validity(electrical_rpm);
        let was_ready: bool = self.ready_latched;
        self.ready_latched = self.readiness_met(was_ready, electrical_rpm);
    }

    fn integrate(&self, flux: i32, emf: i32, current: i32, last: i32) -> (r: i32)
        ensures
            r == self.integrated(flux as int, emf as int, current as int, last as int),
    {
        let gained: i32 = multiply_q16(emf, self.flux_voltage_step.to_bits());
        let inductive: i32 = multiply_q16(
            self.inductance_millihenries.to_bits(),
            arith::wrapping_sub_i32(current, last),
        );
        arith::sat_i64_to_i32(flux as i64 + gained as i64 - inductive as i64)
    }

    fn center(&self, flux: i32, magnitude: i32) -> (r: i32)
        requires
            self.flux_linkage_mwb.bits > 0,
        ensures
            r == self.centered(flux as int, magnitude as int),
    {
        let limit: i32 = self.flux_linkage_mwb.to_bits();
        let mut pulled: i32 = flux;
        if magnitude > limit {
            let normalized: i32 = multiply_q16(magnitude, self.inverse_flux_linkage.to_bits());
            let error: i32 = arith::wrapping_sub_i32(
                0x1_0000,
                multiply_q16(normalized, normalized),
            );
            let demand: i32 = multiply_q16(error, self.centering_step.to_bits());
            let pull: i32 = if demand < -0x8000 {
                -0x8000
            } else if demand > 0 {
                0
            } else {
                demand
            };
            pulled = arith::wrapping_add_i32(flux, multiply_q16(flux, pull));
        }
        if pulled > limit {
            limit
        } else if pulled < -limit {
            -limit
        } else {
            pulled
        }
    }

    fn update_flux(&mut self, e_alpha: i32, e_beta: i32, input: &PhaseInput)
        requires
            old(self).wf(),
            old(self).emf(*input) == (e_alpha as int, e_beta as int),
        ensures
            final(self).wf(),
            *final(self) == old(self).with_flux(*input),
    {
        let current_alpha: i32 = input.measured_current.alpha.to_bits();
        let current_beta: i32 = input.measured_current.beta.to_bits();
        let alpha: i32 = self.integrate(
            self.flux_alpha_mwb.to_bits(),
            e_alpha,
            current_alpha,
            self.current_alpha_last_a.to_bits(),
        );
        let beta: i32 = self.integrate(
            self.flux_beta_mwb.to_bits(),
            e_beta,
            current_beta,
            self.current_beta_last_a.to_bits(),
        );
        let magnitude: i32 = approximate_magnitude_bits(alpha, beta);
        let certainty: i32 = multiply_q16(magnitude, self.inverse_flux_linkage.to_bits());
        let centered_alpha: i32 = self.center(alpha, magnitude);
        let centered_beta: i32 = self.center(beta, magnitude);
        self.flux_alpha_mwb = Fixed::from_bits(centered_alpha);
        self.flux_beta_mwb = Fixed::from_bits(centered_beta);
        self.current_alpha_last_a = input.measured_current.alpha;
        self.current_beta_last_a = input.measured_current.beta;
        self.flux_magnitude_mwb = Fixed::from_bits(magnitude);
        self.confidence = Fixed::from_bits(
            if certainty < 0 {
                0
            } else if certainty > 0x1_0000 {
                0x1_0000
            } else {
                certainty
            },
        );
    }

    fn update_phase(&mut self)
        requires
            old(self).wf(),
        ensures
            final(self).wf(),
            *final(self) == old(self).with_phase(),
    {
        self.phase_raw = atan2_turns(self.flux_beta_mwb.to_bits(), self.flux_alpha_mwb.to_bits());
        let phase_error: i32 = signed_angle_difference(self.phase_raw, self.phase_pll);
        self.velocity_step_q32 = arith::sat_add_i32(
            self.velocity_step_q32,
            multiply_q32(phase_error, self.pll_ki_step_q32),
        );
        let proportional_step: i32 = multiply_q32(phase_error, self.pll_kp_step_q32);
        self.phase_pll = arith::wrapping_add_u32_i32(
            self.phase_pll,
            arith::sat_add_i32(self.velocity_step_q32, proportional_step),
        );
        let magnitude: u32 = arith::unsigned_abs_i32(phase_error);
        self.phase_error_filtered_q32 = ema_u32(
            self.phase_error_filtered_q32,
            if magnitude > i32::MAX as u32 {
                i32::MAX as u32
            } else {
                magnitude
            },
            self.phase_error_filter_step_q32,
        );
    }

    fn update_bemf(&mut self, e_alpha: i32, e_beta: i32)
        requires
            old(self).wf(),
        ensures
            final(self).wf(),
            *final(self) == old(self).with_bemf((e_alpha as int, e_beta as int)),
    {
        let cross: i32 = arith::wrapping_sub_i32(
            multiply_q16(e_beta, self.flux_alpha_mwb.to_bits()),
            multiply_q16(e_alpha, self.flux_beta_mwb.to_bits()),
        );
        let floor: i32 = self.flux_linkage_mwb.to_bits() / 10;
        let magnitude: i32 = self.flux_magnitude_mwb.to_bits();
        let bemf_q: i32 = divide_q16(
            cross,
            if magnitude > floor {
                magnitude
            } else {
                floor
            },
        );
        let step: i32 = multiply_q16(
            arith::wrapping_sub_i32(bemf_q, self.bemf_q_filtered_v.to_bits()),
            self.bemf_filter_step.to_bits(),
        );
        self.bemf_q_filtered_v = Fixed::from_bits(
            arith::wrapping_add_i32(self.bemf_q_filtered_v.to_bits(), step),
        );
    }

    fn update_validity(&mut self, electrical_rpm: i32)
        ensures
            *final(self) == old(self).validated(electrical_rpm as int),
    {
        let expected: i64 = expected_bemf_voltage(
            self.bemf_volts_per_erpm_q24,
            electrical_rpm,
        ).to_bits() as i64;
        let measured: i64 = self.bemf_q_filtered_v.to_bits() as i64;
        let measured_abs: i64 = if measured < 0 {
            -measured
        } else {
            measured
        };
        let expected_abs: i64 = if expected < 0 {
            -expected
        } else {
            expected
        };
        let same_direction: bool = measured != 0 && expected != 0 && (measured > 0) == (expected
            > 0);
        let corroborated: bool = arith::unsigned_abs_i32(electrical_rpm) >= READY_MIN_ERPM as u32
            && same_direction && measured_abs * 4 >= expected_abs && measured_abs * 2
            <= expected_abs * 5;
        let validity_granted: bool = self.valid_travel_q32 >= READY_VALID_TRAVEL_Q32;
        if corroborated {
            self.invalid_cycles = 0;
            let travel: u64 = self.valid_travel_q32.saturating_add(
                arith::unsigned_abs_i32(self.velocity_step_q32) as u64,
            );
            self.valid_travel_q32 = if travel < READY_VALID_TRAVEL_Q32 {
                travel
            } else {
                READY_VALID_TRAVEL_Q32
            };
        } else if validity_granted {
            self.invalid_cycles = self.invalid_cycles.saturating_add(1);
            if self.invalid_cycles >= self.valid_revoke_cycles {
                self.valid_travel_q32 = 0;
                self.invalid_cycles = 0;
            }
        } else {
            self.valid_travel_q32 = 0;
            self.invalid_cycles = 0;
        }
    }

    fn readiness_met(&self, holding: bool, electrical_rpm: i32) -> (r: bool)
        ensures
            r == self.readiness(holding, electrical_rpm as int),
    {
        let error_limit: u32 = if holding {
            READY_HOLD_MAX_ERROR_Q32
        } else {
            READY_ACQUIRE_MAX_ERROR_Q32
        };
        self.confidence.to_bits() >= READY_MIN_CONFIDENCE_BITS && self.phase_error_filtered_q32
            < error_limit && arith::unsigned_abs_i32(electrical_rpm) >= READY_MIN_ERPM as u32
            && self.valid_travel_q32 >= READY_VALID_TRAVEL_Q32
    }
}

/// Shortest signed way from `reference` to `angle`.
pub fn signed_angle_difference(angle: Turns, reference: Turns) -> (r: i32)
    ensures
        r == arith::wrap_i32(angle - reference),
{
    arith::wrapping_sub_to_i32(angle, reference)
}

pub fn erpm_to_step(electrical_rpm: i32, control_frequency_hz: u32) -> (r: i32)
    ensures
        r == step_for_erpm(electrical_rpm as int, control_frequency_hz as int),
{
    let minute: u32 = arith::sat_mul_u32(control_frequency_hz, 60);
    let cycles_per_minute: u32 = if minute == 0 {
        1
    } else {
        minute
    };
    let step_per_erpm_q32: u32 = reciprocal_q32_rounded(cycles_per_minute);
    arith::sat_i64_to_i32(mul_i32_u32(electrical_rpm, step_per_erpm_q32))
}

fn mul_i32_u32(a: i32, b: u32) -> (r: i64)
    ensures
        r == a * b,
{
    assert(-0x8000_0000_0000_0000 <= a * b <= 0x7fff_ffff_ffff_ffff) by (nonlinear_arith)
        requires
            -0x8000_0000 <= a <= 0x7fff_ffff,
            0 <= b <= 0xffff_ffff,
    ;
    a as i64 * b as i64
}

/// Approximate `2^32 / denominator` with a rounded integer reciprocal.
/// Expressing the seed conversion as a reciprocal multiply keeps its error
/// bounded while using only 32-bit division.
pub fn reciprocal_q32_rounded(denominator: u32) -> (r: u32)
    ensures
        r == q32_reciprocal(denominator as int),
{
    if denominator <= 1 {
        return u32::MAX;
    }
    let quotient: u32 = u32::MAX / denominator;
    let remainder: u32 = u32::MAX % denominator + 1;
    let ghost d = denominator as int;
    let ghost q = quotient as int;
    proof {
        assert(q * d + remainder == 0x1_0000_0000) by (nonlinear_arith)
            requires
                q == 0xffff_ffffint / d,
                remainder == 0xffff_ffffint % d + 1,
                d > 0,
        ;
        assert(q <= 0x7fff_ffff) by (nonlinear_arith)
            requires
                q == 0xffff_ffffint / d,
                d >= 2,
        ;
        if remainder >= d - remainder {
            assert((0x2_0000_0000 + d) / (2 * d) == q + 1) by (nonlinear_arith)
                requires
                    q * d + remainder == 0x1_0000_0000,
                    d <= 2 * remainder,
                    remainder <= d,
                    d >= 2,
            ;
        } else {
            assert((0x2_0000_0000 + d) / (2 * d) == q) by (nonlinear_arith)
                requires
                    q * d + remainder == 0x1_0000_0000,
                    2 * remainder < d,
                    0 < remainder,
                    d >= 2,
            ;
        }
    }
    if remainder >= denominator - remainder {
        quotient + 1
    } else {
        quotient
    }
}

fn expected_bemf_voltage(volts_per_erpm_q24: i32, electrical_rpm: i32) -> (r: Fixed)
    ensures
        r == numeric::fixed(expected_bemf(volts_per_erpm_q24 as int, electrical_rpm as int)),
{
    let product: i64 = arith::mul_i32_wide(volts_per_erpm_q24, electrical_rpm);
    proof {
        arith::lemma_i64(product);
    }
    Fixed::from_bits(arith::sat_i64_to_i32(product >> 8))
}

fn approximate_magnitude_bits(alpha: i32, beta: i32) -> (r: i32)
    ensures
        r == approximate_magnitude(alpha as int, beta as int),
{
    let a: u32 = arith::unsigned_abs_i32(alpha);
    let b: u32 = arith::unsigned_abs_i32(beta);
    let maximum: u32 = if a >= b {
        a
    } else {
        b
    };
    let minimum: u32 = if a >= b {
        b
    } else {
        a
    };
    let norm: u32 = maximum + arith::sat_mul_u32(minimum, 3) / 8;
    if norm > i32::MAX as u32 {
        i32::MAX
    } else {
        norm as i32
    }
}

/// Q16.16 product without saturation.
pub fn multiply_q16(left: i32, right: i32) -> (r: i32)
    ensures
        r == q16_product(left as int, right as int),
{
    let product: i64 = arith::mul_i32_wide(left, right);
    let shifted: i64 = product >> 16;
    proof {
        arith::lemma_i64(product);
        arith::lemma_i64(shifted);
    }
    shifted as i32
}

fn multiply_q32(value: i32, coefficient_q32: u32) -> (r: i32)
    ensures
        r == q32_product(value as int, coefficient_q32 as int),
{
    let product: i64 = mul_i32_u32(value, coefficient_q32);
    let shifted: i64 = product >> 32;
    proof {
        arith::lemma_i64(product);
    }
    shifted as i32
}

fn short_quotient(numerator: i32, denominator: i32, scale: i32) -> (r: i32)
    requires
        0 < scale <= 0x1_0000,
    ensures
        r == short_ratio(numerator as int, denominator as int, scale as int),
{
    if denominator <= 0 {
        return 0;
    }
    let magnitude: u32 = arith::unsigned_abs_i32(numerator);
    let largest: u32 = if magnitude >= denominator as u32 {
        magnitude
    } else {
        denominator as u32
    };
    let (shift, unit) = arith::halvings(largest, 0x8000);
    let scaled_numerator: i32 = arith::floor_div_i32(numerator, unit as i32);
    let scaled_denominator: i32 = denominator / (unit as i32);
    let divisor: i32 = if scaled_denominator < 1 {
        1
    } else {
        scaled_denominator
    };
    let product: i64 = arith::mul_i32_wide(scaled_numerator, scale);
    arith::sat_i64_to_i32(product) / divisor
}

/// Divide two Q16.16 values and return their Q16.16 ratio without a 64-bit
/// divide. Scaling both operands to at most 15 significant bits keeps the
/// shifted numerator in a word.
pub fn divide_q16(numerator: i32, denominator: i32) -> (r: i32)
    ensures
        r == short_ratio(numerator as int, denominator as int, 0x1_0000),
{
    short_quotient(numerator, denominator, 0x1_0000)
}

fn ema_u32(previous: u32, sample: u32, coefficient_q32: u32) -> (r: u32)
    requires
        previous <= i32::MAX,
        sample <= i32::MAX,
    ensures
        r == filtered(previous as int, sample as int, coefficient_q32 as int),
        r <= i32::MAX,
{
    let difference: i32 = sample as i32 - previous as i32;
    let step: i32 = multiply_q32(difference, coefficient_q32);
    proof {
        let d = difference as int;
        let c = coefficient_q32 as int;
        assert(d >= 0 ==> 0 <= d * c / 0x1_0000_0000 <= d) by (nonlinear_arith)
            requires
                0 <= c < 0x1_0000_0000,
        ;
        assert(d < 0 ==> d <= d * c / 0x1_0000_0000 <= 0) by (nonlinear_arith)
            requires
                0 <= c < 0x1_0000_0000,
        ;
    }
    (previous as i64 + step as i64) as u32
}

fn ratio_q32(numerator: u64, denominator: u64) -> (r: u32)
    requires
        numerator <= 0xffff_ffff,
    ensures
        r == q32_ratio(numerator as int, denominator as int),
{
    if denominator == 0 {
        return u32::MAX;
    }
    let value: u64 = (numerator * 0x1_0000_0000) / denominator;
    arith::sat_u64_to_u32(value)
}

/// Polynomial atan2, returning Q0.32 electrical turns.
pub fn atan2_turns(y: i32, x: i32) -> (r: Turns)
    ensures
        r == atan2_of(y as int, x as int),
{
    if x == 0 && y == 0 {
        return 0;
    }
    let absolute_y: i32 = arith::sat_abs_i32(y);
    let ratio: i32 = if x >= 0 {
        short_quotient(
            arith::sat_sub_i32(x, absolute_y),
            arith::sat_add_i32(x, absolute_y),
            0x8000,
        )
    } else {
        short_quotient(
            arith::sat_add_i32(x, absolute_y),
            arith::sat_sub_i32(absolute_y, x),
            0x8000,
        )
    };
    let base: i64 = if x >= 0 {
        0x2000_0000
    } else {
        0x6000_0000
    };
    let ghost k = ratio as int;
    proof {
        lemma_atan2_ratio_is_small(y as int, x as int);
        assert(0 <= k * k <= 0x4_0000_0000) by (nonlinear_arith)
            requires
                -0x2_0000 <= k <= 0x2_0000,
        ;
    }
    let square: i64 = (ratio as i64 * ratio as i64) / 0x8000;
    let polynomial: i64 = (134_183_864 * square) / 0x8000 - 671_056_031;
    assert(-0x1000_0000_0000_0000 <= polynomial * k <= 0x1000_0000_0000_0000) by (nonlinear_arith)
        requires
            -0x2_0000 <= k <= 0x2_0000,
            -671_056_031 <= polynomial <= 0x100_0000_0000,
    ;
    let correction: i64 = polynomial * (ratio as i64);
    proof {
        arith::lemma_i64(correction);
    }
    let angle: i64 = base + (correction >> 15);
    proof {
        arith::lemma_i64(angle);
        arith::lemma_i64((-angle) as i64);
    }
    if y < 0 {
        (-angle) as u32
    } else {
        angle as u32
    }
}

/// The polynomial's argument stays near one: numerator and denominator are the
/// difference and the sum of the same two lengths.
proof fn lemma_atan2_ratio_is_small(y: int, x: int)
    requires
        i32::MIN <= y <= i32::MAX,
        i32::MIN <= x <= i32::MAX,
        x != 0 || y != 0,
    ensures
        -0x2_0000 <= atan2_ratio(y, x) <= 0x2_0000,
{
    let height = arith::sat_i32(arith::abs(y));
    let (n, d) = if x >= 0 {
        (arith::sat_i32(x - height), arith::sat_i32(x + height))
    } else {
        (arith::sat_i32(x + height), arith::sat_i32(height - x))
    };
    assert(d > 0);
    assert(arith::abs(n) <= d + 1);
    let largest = arith::max(arith::abs(n), d);
    arith::lemma_shift_below(largest, 0x8000);
    let shift = arith::shift_below(largest, 0x8000);
    let u = arith::unit(shift);
    let sn = n / u;
    let sd = arith::max(d / u, 1);
    assert(sn * u <= n < sn * u + u) by (nonlinear_arith)
        requires
            sn == n / u,
            u >= 1,
    ;
    assert((d / u) * u <= d < (d / u) * u + u) by (nonlinear_arith)
        requires
            u >= 1,
            d >= 0,
    ;
    let q = d / u;
    assert(-0x8000 <= sn <= 0x8000) by (nonlinear_arith)
        requires
            sn * u <= n < sn * u + u,
            -largest <= n <= largest,
            largest < 0x8000 * u,
            u >= 1,
    ;
    if shift == 0 {
        assert(u == 1) by {
            vstd::arithmetic::power2::lemma2_to64();
        }
        assert(sn == n && q == d) by (nonlinear_arith)
            requires
                u == 1,
                sn * u <= n < sn * u + u,
                q * u <= d < q * u + u,
        ;
        lemma_ratio_range(sn, sd, d + 1);
    } else {
        assert(q >= 0x2000) by (nonlinear_arith)
            requires
                0x8000 * u <= 2 * largest,
                largest <= d + 1,
                d < q * u + u,
                u >= 1,
        ;
        lemma_ratio_range(sn, sd, 0x8000);
    }
}

proof fn lemma_ratio_range(numerator: int, denominator: int, bound: int)
    requires
        denominator >= 1,
        -0x8000 <= numerator <= 0x8000,
        -bound <= numerator <= bound,
        bound <= 4 * denominator,
    ensures
        -0x2_0000 <= arith::trunc_div(arith::sat_i32(numerator * 0x8000), denominator) <= 0x2_0000,
{
    let product = numerator * 0x8000;
    assert(-0x2_0000 * denominator <= product <= 0x2_0000 * denominator);
    if product >= 0 {
        assert(0 <= product / denominator <= 0x2_0000) by (nonlinear_arith)
            requires
                0 <= product <= 0x2_0000 * denominator,
                denominator >= 1,
        ;
    } else {
        assert(0 <= (-product) / denominator <= 0x2_0000) by (nonlinear_arith)
            requires
                0 <= -product <= 0x2_0000 * denominator,
                denominator >= 1,
        ;
    }
}

/// A ready estimate always has confident flux, a settled PLL, sufficient speed
/// and two revolutions of corroborated travel; becoming ready asks for a tighter
/// PLL than staying ready.
pub proof fn law_ready_estimate_is_corroborated(observer: BackEmfObserver, input: PhaseInput)
    requires
        observer.wf(),
        observer.updated(input).ready_latched,
    ensures
        observer.updated(input).confidence.bits >= READY_MIN_CONFIDENCE_BITS,
        arith::abs(observer.updated(input).erpm()) >= READY_MIN_ERPM,
        observer.updated(input).valid_travel_q32 >= READY_VALID_TRAVEL_Q32,
        observer.updated(input).phase_error_filtered_q32 < READY_HOLD_MAX_ERROR_Q32,
        !observer.ready_latched ==> observer.updated(input).phase_error_filtered_q32
            < READY_ACQUIRE_MAX_ERROR_Q32,
{
}

/// Nothing has been integrated: no flux, no remembered current, no confidence.
pub open spec fn unexcited(observer: BackEmfObserver) -> bool {
    &&& observer.flux_alpha_mwb.bits == 0
    &&& observer.flux_beta_mwb.bits == 0
    &&& observer.current_alpha_last_a.bits == 0
    &&& observer.current_beta_last_a.bits == 0
    &&& observer.confidence.bits == 0
    &&& !observer.ready_latched
}

/// An observer that sees neither voltage nor current stays unexcited, so it
/// never becomes ready on its own.
pub proof fn law_unexcited_observer_is_never_ready(observer: BackEmfObserver, control_period_ns: u32)
    requires
        observer.wf(),
        unexcited(observer),
    ensures
        unexcited(
            observer.updated(
                PhaseInput {
                    applied_voltage: AlphaBeta::null(),
                    measured_current: AlphaBeta::null(),
                    control_period_ns,
                },
            ),
        ),
{
    let input = PhaseInput::<Fixed> {
        applied_voltage: AlphaBeta::null(),
        measured_current: AlphaBeta::null(),
        control_period_ns,
    };
    let r = observer.resistance_ohms.bits as int;
    let l = observer.inductance_millihenries.bits as int;
    let v = observer.flux_voltage_step.bits as int;
    let i = observer.inverse_flux_linkage.bits as int;
    assert(r * 0 == 0 && l * 0 == 0 && 0 * v == 0 && 0 * i == 0) by (nonlinear_arith);
    assert(q16_product(r, 0) == 0);
    assert(q16_product(l, 0) == 0);
    assert(q16_product(0, v) == 0);
    assert(q16_product(0, i) == 0);
    assert(observer.emf(input) == (0int, 0int));
    assert(observer.integrated(0, 0, 0, 0) == 0);
    assert(approximate_magnitude(0, 0) == 0);
}

/// Clearing the observer forgets every sample and every seed.
pub proof fn law_reset_forgets_updates_and_seeds(
    observer: BackEmfObserver,
    input: PhaseInput,
    phase: u32,
    electrical_rpm: i32,
)
    ensures
        observer.updated(input).cleared() == observer.cleared(),
        observer.seeded(phase, electrical_rpm).cleared() == observer.cleared(),
{
}

/// The integrated flux never leaves the square of the flux linkage, and the
/// confidence stays between zero and one.
pub proof fn law_flux_stays_within_the_linkage(observer: BackEmfObserver, input: PhaseInput)
    requires
        observer.wf(),
    ensures
        arith::abs(observer.updated(input).flux_alpha_mwb.bits as int)
            <= observer.flux_linkage_mwb.bits,
        arith::abs(observer.updated(input).flux_beta_mwb.bits as int)
            <= observer.flux_linkage_mwb.bits,
        0 <= observer.updated(input).confidence.bits <= 0x1_0000,
{
}

/// A seeded observer reports the seeded phase, and is ready at once exactly
/// when the seeded speed reaches the readiness threshold.
pub proof fn law_seed_is_trusted_at_speed(
    observer: BackEmfObserver,
    phase: u32,
    electrical_rpm: i32,
)
    ensures
        observer.seeded(phase, electrical_rpm).phase_pll == phase,
        observer.seeded(phase, electrical_rpm).ready_latched == observer.seeded(
            phase,
            electrical_rpm,
        ).readiness(false, electrical_rpm as int),
{
}

/// At a 16 kHz control rate a speed survives the conversion to a phase step
/// and back within two revolutions per minute.
pub proof fn law_speed_survives_step_conversion(electrical_rpm: int)
    requires
        -76_000 <= electrical_rpm <= 76_000,
    ensures
        arith::abs(
            erpm_for_step(step_for_erpm(electrical_rpm, 16_000), 16_000) - electrical_rpm,
        ) <= 2,
{
    assert(q32_reciprocal(960_000) == 4_474);
    let step = step_for_erpm(electrical_rpm, 16_000);
    assert(step == electrical_rpm * 4_474);
    assert(step * 960_000 == electrical_rpm * 4_295_040_000);
}

/// A Q16.16 product that fits a word is exact to a unit, rounded down.
pub proof fn law_product_is_rounded_down(left: int, right: int)
    requires
        -0x8000_0000_0000 <= left * right <= 0x7fff_ffff_ffff,
    ensures
        ({
            let product = q16_product(left, right);
            0x1_0000 * product <= left * right < 0x1_0000 * (product + 1)
        }),
{
}

/// One axis of the flux follows the motor equation: it changes by the time step
/// times the applied voltage less the resistive drop, and less the inductance
/// times the change of current, to within two units. Only a sample that would
/// leave the word is excepted.
pub proof fn law_flux_follows_the_motor_equation(
    observer: BackEmfObserver,
    flux: int,
    emf: int,
    current: int,
    last: int,
)
    requires
        arith::abs(flux) <= 0x2000_0000,
        i32::MIN <= current - last <= i32::MAX,
        arith::abs(emf * observer.flux_voltage_step.bits) <= 0x2000_0000_0000,
        arith::abs(observer.inductance_millihenries.bits * (current - last)) <= 0x2000_0000_0000,
    ensures
        arith::abs(
            0x1_0000 * (observer.integrated(flux, emf, current, last) - flux) - (emf
                * observer.flux_voltage_step.bits - observer.inductance_millihenries.bits * (current
                - last)),
        ) <= 0x2_0000,
{
    law_product_is_rounded_down(emf, observer.flux_voltage_step.bits as int);
    law_product_is_rounded_down(observer.inductance_millihenries.bits as int, current - last);
}

/// What is integrated is the applied voltage without the resistive drop of the
/// measured current, axis by axis.
pub proof fn law_emf_is_the_voltage_without_the_drop(observer: BackEmfObserver, input: PhaseInput)
    requires
        ({
            let r = observer.resistance_ohms.bits;
            &&& arith::abs(input.applied_voltage.alpha.bits as int) <= 0x2000_0000
            &&& arith::abs(input.applied_voltage.beta.bits as int) <= 0x2000_0000
            &&& arith::abs(r * input.measured_current.alpha.bits) <= 0x2000_0000_0000
            &&& arith::abs(r * input.measured_current.beta.bits) <= 0x2000_0000_0000
        }),
    ensures
        ({
            let r = observer.resistance_ohms.bits;
            let (alpha, beta) = observer.emf(input);
            let drop_alpha = input.applied_voltage.alpha.bits - alpha;
            let drop_beta = input.applied_voltage.beta.bits - beta;
            &&& 0x1_0000 * drop_alpha <= r * input.measured_current.alpha.bits < 0x1_0000 * (
            drop_alpha + 1)
            &&& 0x1_0000 * drop_beta <= r * input.measured_current.beta.bits < 0x1_0000 * (drop_beta
                + 1)
        }),
{
}

/// The flux stage keeps the axes apart and remembers the sample's currents. Flux
/// inside the linkage circle is stored as integrated; outside it each component
/// only shrinks, by no more than half, and keeps its sign.
#[verifier::rlimit(40)]
pub proof fn law_centering_only_shrinks_the_flux(
    observer: BackEmfObserver,
    input: PhaseInput,
)
    requires
        observer.wf(),
        observer.flux_linkage_mwb.bits <= 0x2000_0000,
    ensures
        ({
            let next = observer.with_flux(input);
            let (e_alpha, e_beta) = observer.emf(input);
            let alpha = observer.integrated(
                observer.flux_alpha_mwb.bits as int,
                e_alpha,
                input.measured_current.alpha.bits as int,
                observer.current_alpha_last_a.bits as int,
            );
            let beta = observer.integrated(
                observer.flux_beta_mwb.bits as int,
                e_beta,
                input.measured_current.beta.bits as int,
                observer.current_beta_last_a.bits as int,
            );
            let inside = approximate_magnitude(alpha, beta) <= observer.flux_linkage_mwb.bits;
            &&& inside ==> next.flux_alpha_mwb.bits == alpha && next.flux_beta_mwb.bits == beta
            &&& shrunk(alpha, next.flux_alpha_mwb.bits as int, observer.flux_linkage_mwb.bits as int)
            &&& shrunk(beta, next.flux_beta_mwb.bits as int, observer.flux_linkage_mwb.bits as int)
            &&& next.current_alpha_last_a == input.measured_current.alpha
            &&& next.current_beta_last_a == input.measured_current.beta
        }),
{
    let (e_alpha, e_beta) = observer.emf(input);
    let alpha = observer.integrated(
        observer.flux_alpha_mwb.bits as int,
        e_alpha,
        input.measured_current.alpha.bits as int,
        observer.current_alpha_last_a.bits as int,
    );
    let beta = observer.integrated(
        observer.flux_beta_mwb.bits as int,
        e_beta,
        input.measured_current.beta.bits as int,
        observer.current_beta_last_a.bits as int,
    );
    let magnitude = approximate_magnitude(alpha, beta);
    lemma_centered(observer, alpha, magnitude);
    lemma_centered(observer, beta, magnitude);
}

/// `centered` lies between half of `flux` and all of it, within a limit: less
/// than half is left only to stay inside the limit.
pub open spec fn shrunk(flux: int, centered: int, limit: int) -> bool {
    &&& flux >= 0 ==> arith::min(flux / 2, limit) <= centered <= arith::min(flux, limit)
    &&& flux <= 0 ==> arith::max(flux, -limit) <= centered <= arith::max(flux / 2 + 1, -limit)
}

proof fn lemma_centered(observer: BackEmfObserver, flux: int, magnitude: int)
    requires
        observer.wf(),
        observer.flux_linkage_mwb.bits <= 0x2000_0000,
        i32::MIN <= flux <= i32::MAX,
        arith::abs(flux) <= magnitude || magnitude == i32::MAX,
    ensures
        magnitude <= observer.flux_linkage_mwb.bits ==> observer.centered(flux, magnitude) == flux,
        shrunk(flux, observer.centered(flux, magnitude), observer.flux_linkage_mwb.bits as int),
{
    let limit = observer.flux_linkage_mwb.bits as int;
    if magnitude > limit {
        let normalized = q16_product(magnitude, observer.inverse_flux_linkage.bits as int);
        let error = arith::wrap_i32(0x1_0000 - q16_product(normalized, normalized));
        let demand = q16_product(error, observer.centering_step.bits as int);
        let pull = arith::clamp(demand, -0x8000, 0);
        lemma_pull(flux, pull);
        let pulled = arith::wrap_i32(flux + q16_product(flux, pull));
        assert(observer.centered(flux, magnitude) == symmetric_clamp(pulled, limit));
    }
}

proof fn lemma_pull(flux: int, pull: int)
    requires
        i32::MIN <= flux <= i32::MAX,
        -0x8000 <= pull <= 0,
    ensures
        ({
            let pulled = arith::wrap_i32(flux + q16_product(flux, pull));
            &&& flux >= 0 ==> flux / 2 <= pulled <= flux
            &&& flux <= 0 ==> flux <= pulled <= flux / 2 + 1
        }),
{
    let product = flux * pull;
    assert(flux >= 0 ==> -0x8000 * flux <= product <= 0) by (nonlinear_arith)
        requires
            product == flux * pull,
            -0x8000 <= pull <= 0,
    ;
    assert(flux <= 0 ==> 0 <= product <= -0x8000 * flux) by (nonlinear_arith)
        requires
            product == flux * pull,
            -0x8000 <= pull <= 0,
    ;
    let part = product / 0x1_0000;
    assert(-0x4000_0000 <= part <= 0x4000_0000);
    assert(q16_product(flux, pull) == part);
}

/// The estimate of a length is between the longer component and the sum of both,
/// and its square within 6 percent below and 15 percent above the true one.
pub proof fn law_approximate_length_is_close(alpha: int, beta: int)
    requires
        arith::abs(alpha) <= 0x2000_0000,
        arith::abs(beta) <= 0x2000_0000,
    ensures
        ({
            let length = approximate_magnitude(alpha, beta);
            let square = alpha * alpha + beta * beta;
            &&& arith::max(arith::abs(alpha), arith::abs(beta)) <= length
            &&& length <= arith::abs(alpha) + arith::abs(beta)
            &&& 94 * square <= 100 * ((length + 1) * (length + 1))
            &&& 100 * (length * length) <= 115 * square
        }),
{
    let x = arith::max(arith::abs(alpha), arith::abs(beta));
    let y = arith::min(arith::abs(alpha), arith::abs(beta));
    let length = approximate_magnitude(alpha, beta);
    let square = alpha * alpha + beta * beta;
    assert(square == x * x + y * y) by (nonlinear_arith)
        requires
            square == alpha * alpha + beta * beta,
            (x == alpha || x == -alpha) && (y == beta || y == -beta) || (x == beta || x == -beta)
                && (y == alpha || y == -alpha),
    ;
    assert(8 * length <= 8 * x + 3 * y <= 8 * (length + 1));
    let eight = 8 * x + 3 * y;
    assert(eight * eight <= (8 * (length + 1)) * (8 * (length + 1))) by (nonlinear_arith)
        requires
            0 <= eight <= 8 * (length + 1),
    ;
    assert((8 * length) * (8 * length) <= eight * eight) by (nonlinear_arith)
        requires
            0 <= 8 * length <= eight,
    ;
    assert(eight * eight == 64 * (x * x) + 48 * (x * y) + 9 * (y * y)) by (nonlinear_arith)
        requires
            eight == 8 * x + 3 * y,
    ;
    assert(y * y <= x * y && y * y <= x * x) by (nonlinear_arith)
        requires
            0 <= y <= x,
    ;
    assert(0 <= (3 * x - 8 * y) * (3 * x - 8 * y)) by (nonlinear_arith);
    assert((3 * x - 8 * y) * (3 * x - 8 * y) == 9 * (x * x) - 48 * (x * y) + 64 * (y * y))
        by (nonlinear_arith);
    assert((8 * (length + 1)) * (8 * (length + 1)) == 64 * ((length + 1) * (length + 1)))
        by (nonlinear_arith);
    assert((8 * length) * (8 * length) == 64 * (length * length)) by (nonlinear_arith);
    assert(0 <= x * x && 0 <= y * y && 0 <= x * y) by (nonlinear_arith)
        requires
            0 <= y <= x,
    ;
}

/// The loop locks onto the flux angle. With no error it coasts: the speed stays
/// and the phase advances by it. An angle that leads speeds the loop up and moves
/// the phase ahead of the coasting one, an angle that lags does the opposite, and
/// each by its gain times the error, to within a unit.
#[verifier::rlimit(40)]
pub proof fn law_loop_follows_the_flux_angle(observer: BackEmfObserver)
    requires
        arith::abs(observer.velocity_step_q32 as int) <= 0x2000_0000,
        observer.pll_kp_step_q32 <= 0x4000_0000,
        observer.pll_ki_step_q32 <= 0x1000_0000,
    ensures
        ({
            let next = observer.with_phase();
            let error = arith::wrap_i32(next.phase_raw - observer.phase_pll);
            let gained = next.velocity_step_q32 - observer.velocity_step_q32;
            let advance = arith::wrap_i32(next.phase_pll - observer.phase_pll);
            let ahead = advance - next.velocity_step_q32;
            let ki = error * observer.pll_ki_step_q32;
            let kp = error * observer.pll_kp_step_q32;
            &&& 0x1_0000_0000 * gained <= ki < 0x1_0000_0000 * (gained + 1)
            &&& 0x1_0000_0000 * ahead <= kp < 0x1_0000_0000 * (ahead + 1)
            &&& error == 0 ==> gained == 0 && ahead == 0
            &&& error >= 0 ==> gained >= 0 && ahead >= 0
            &&& error < 0 && observer.pll_ki_step_q32 > 0 ==> gained < 0
            &&& error < 0 && observer.pll_kp_step_q32 > 0 ==> ahead < 0
        }),
{
    let raw = atan2_of(observer.flux_beta_mwb.bits as int, observer.flux_alpha_mwb.bits as int);
    lemma_angle_is_a_word(
        observer.flux_beta_mwb.bits as int,
        observer.flux_alpha_mwb.bits as int,
    );
    lemma_loop_step(
        raw,
        observer.phase_pll as int,
        observer.velocity_step_q32 as int,
        observer.pll_ki_step_q32 as int,
        observer.pll_kp_step_q32 as int,
    );
}

proof fn lemma_angle_is_a_word(y: int, x: int)
    ensures
        0 <= atan2_of(y, x) <= u32::MAX,
{
}

proof fn lemma_loop_step(raw: int, pll: int, before: int, ki: int, kp: int)
    requires
        0 <= pll <= u32::MAX,
        arith::abs(before) <= 0x2000_0000,
        0 <= kp <= 0x4000_0000,
        0 <= ki <= 0x1000_0000,
    ensures
        ({
            let error = arith::wrap_i32(raw - pll);
            let velocity = arith::sat_i32(before + q32_product(error, ki));
            let step = arith::sat_i32(velocity + q32_product(error, kp));
            let gained = velocity - before;
            let advance = arith::wrap_i32(arith::wrap_u32(pll + step) - pll);
            let ahead = advance - velocity;
            &&& 0x1_0000_0000 * gained <= error * ki < 0x1_0000_0000 * (gained + 1)
            &&& 0x1_0000_0000 * ahead <= error * kp < 0x1_0000_0000 * (ahead + 1)
            &&& error == 0 ==> gained == 0 && ahead == 0
            &&& error >= 0 ==> gained >= 0 && ahead >= 0
            &&& error < 0 && ki > 0 ==> gained < 0
            &&& error < 0 && kp > 0 ==> ahead < 0
        }),
{
    let error = arith::wrap_i32(raw - pll);
    lemma_loop_gain(error, ki, 0x1000_0000);
    lemma_loop_gain(error, kp, 0x4000_0000);
    let velocity = before + q32_product(error, ki);
    let step = velocity + q32_product(error, kp);
    assert(-0x7000_0000 <= step <= 0x7000_0000);
    assert(arith::wrap_i32(arith::wrap_u32(pll + step) - pll) == step);
}

proof fn lemma_loop_gain(error: int, gain: int, bound: int)
    requires
        -0x8000_0000 <= error < 0x8000_0000,
        0 <= gain <= bound <= 0x4000_0000,
    ensures
        -bound <= q32_product(error, gain) <= bound,
        error >= 0 ==> q32_product(error, gain) >= 0,
        error == 0 ==> q32_product(error, gain) == 0,
        error < 0 && gain > 0 ==> q32_product(error, gain) < 0,
        0x1_0000_0000 * q32_product(error, gain) <= error * gain,
        error * gain < 0x1_0000_0000 * (q32_product(error, gain) + 1),
{
    let product = error * gain;
    assert(-0x8000_0000 * bound <= product <= 0x8000_0000 * bound) by (nonlinear_arith)
        requires
            product == error * gain,
            -0x8000_0000 <= error < 0x8000_0000,
            0 <= gain <= bound,
    ;
    assert(error >= 0 ==> product >= 0) by (nonlinear_arith)
        requires
            product == error * gain,
            0 <= gain,
    ;
    assert(error == 0 ==> product == 0) by (nonlinear_arith)
        requires
            product == error * gain,
    ;
    assert(error < 0 && gain > 0 ==> product < 0) by (nonlinear_arith)
        requires
            product == error * gain,
    ;
}

/// The filtered error moves toward the magnitude of the present one, by the
/// filter's share of the distance, and never past it.
#[verifier::rlimit(40)]
pub proof fn law_error_filter_follows_the_error(observer: BackEmfObserver)
    requires
        observer.wf(),
    ensures
        ({
            let next = observer.with_phase();
            let error = arith::wrap_i32(next.phase_raw - observer.phase_pll);
            let sample = arith::min(arith::abs(error), 0x7fff_ffff);
            let before = observer.phase_error_filtered_q32 as int;
            let after = next.phase_error_filtered_q32 as int;
            let share = (sample - before) * observer.phase_error_filter_step_q32;
            &&& 0x1_0000_0000 * (after - before) <= share < 0x1_0000_0000 * (after - before + 1)
            &&& sample >= before ==> before <= after <= sample
            &&& sample <= before ==> sample <= after <= before
        }),
{
    let raw = atan2_of(observer.flux_beta_mwb.bits as int, observer.flux_alpha_mwb.bits as int);
    let error = arith::wrap_i32(raw - observer.phase_pll);
    let sample = arith::min(arith::abs(error), 0x7fff_ffff);
    let d = sample - observer.phase_error_filtered_q32;
    let c = observer.phase_error_filter_step_q32 as int;
    assert(d >= 0 ==> 0 <= d * c <= d * 0x1_0000_0000) by (nonlinear_arith)
        requires
            0 <= c < 0x1_0000_0000,
    ;
    assert(d <= 0 ==> d * 0x1_0000_0000 <= d * c <= 0) by (nonlinear_arith)
        requires
            0 <= c < 0x1_0000_0000,
    ;
}

/// The angle of a vector turns around with its vertical component.
pub proof fn law_angle_is_odd(y: int, x: int)
    requires
        0 < y <= i32::MAX,
        i32::MIN <= x <= i32::MAX,
    ensures
        arith::wrap_u32(atan2_of(y, x) + atan2_of(-y, x)) == 0,
{
}

/// Agreement between back-EMF and speed is a matter of sign and size: the same
/// direction, at least the readiness speed, and between a quarter and five halves
/// of the expected voltage. It earns the travelled angle up to two revolutions;
/// disagreement takes incomplete credit at once, and complete credit only after
/// the hold interval.
pub proof fn law_credit_follows_the_agreement(observer: BackEmfObserver, electrical_rpm: int)
    requires
        observer.valid_travel_q32 <= READY_VALID_TRAVEL_Q32,
        observer.valid_revoke_cycles < u32::MAX,
        observer.invalid_cycles < u32::MAX,
    ensures
        ({
            let next = observer.validated(electrical_rpm);
            let measured = observer.bemf_q_filtered_v.bits as int;
            let expected = expected_bemf(observer.bemf_volts_per_erpm_q24 as int, electrical_rpm);
            let agrees = (electrical_rpm >= 287 || electrical_rpm <= -287) && ((measured > 0
                && expected > 0 && expected <= 4 * measured && 2 * measured <= 5 * expected) || (
            measured < 0 && expected < 0 && 4 * measured <= expected && 5 * expected <= 2
                * measured));
            let credit = observer.valid_travel_q32 as int;
            let complete = credit == 0x2_0000_0000;
            let step = arith::abs(observer.velocity_step_q32 as int);
            &&& agrees ==> next.valid_travel_q32 == arith::min(credit + step, 0x2_0000_0000)
                && next.invalid_cycles == 0
            &&& !agrees && !complete ==> next.valid_travel_q32 == 0
            &&& !agrees && complete && observer.invalid_cycles + 1 < observer.valid_revoke_cycles
                ==> next.valid_travel_q32 == credit && next.invalid_cycles
                == observer.invalid_cycles + 1
            &&& !agrees && complete && observer.invalid_cycles + 1 >= observer.valid_revoke_cycles
                ==> next.valid_travel_q32 == 0 && next.invalid_cycles == 0
        }),
{
}

/// The expected back-EMF is proportional to the speed, rounded down.
pub proof fn law_expected_back_emf_is_proportional(volts_per_erpm_q24: i32, electrical_rpm: i32)
    requires
        arith::abs(volts_per_erpm_q24 * electrical_rpm) <= 0x40_0000_0000,
    ensures
        ({
            let volts = expected_bemf(volts_per_erpm_q24 as int, electrical_rpm as int);
            0x100 * volts <= volts_per_erpm_q24 * electrical_rpm < 0x100 * (volts + 1)
        }),
{
}

/// Readiness is owed to an estimate that has everything it asks for, and holding
/// it tolerates an error that acquiring does not.
pub proof fn law_readiness_is_owed(observer: BackEmfObserver, input: PhaseInput)
    ensures
        ({
            let next = observer.updated(input);
            let limit: u32 = if observer.ready_latched {
                410_139_165
            } else {
                136_713_055
            };
            next.ready_latched <==> {
                &&& next.confidence.bits >= 0x8000
                &&& next.phase_error_filtered_q32 < limit
                &&& next.erpm() >= 287 || next.erpm() <= -287
                &&& next.valid_travel_q32 >= 0x2_0000_0000
            }
        }),
{
}

/// A seed is complete: the flux points along the seeded phase with the length of
/// the linkage, nothing is in doubt, and the filtered back-EMF is the expected
/// one.
pub proof fn law_seed_points_along_the_phase(
    observer: BackEmfObserver,
    phase: u32,
    electrical_rpm: i32,
)
    requires
        observer.wf(),
        observer.flux_linkage_mwb.bits <= 0x2000_0000,
    ensures
        ({
            let next = observer.seeded(phase, electrical_rpm);
            let (sin, cos) = CordicSinCos::sin_cos_of(phase);
            let linkage = observer.flux_linkage_mwb.bits;
            &&& arith::abs(0x1_0000 * next.flux_alpha_mwb.bits - linkage * cos.bits) < 0x1_0000
            &&& arith::abs(0x1_0000 * next.flux_beta_mwb.bits - linkage * sin.bits) < 0x1_0000
            &&& next.confidence.bits == 0x1_0000
            &&& next.phase_error_filtered_q32 == 0
            &&& next.valid_travel_q32 == 0x2_0000_0000
            &&& next.bemf_q_filtered_v.bits == expected_bemf(
                observer.bemf_volts_per_erpm_q24 as int,
                electrical_rpm as int,
            )
            &&& next.ready_latched <==> (electrical_rpm >= 287 || electrical_rpm <= -287)
        }),
{
    let (sin, cos) = CordicSinCos::sin_cos_of(phase);
    crate::foc::trig::law_sine_and_cosine_form_a_unit_vector(phase);
    let s = sin.bits as int;
    let c = cos.bits as int;
    assert(-70_000 < s < 70_000 && -70_000 < c < 70_000) by (nonlinear_arith)
        requires
            s * s + c * c <= 0x1_0008_0000,
    ;
    let l = observer.flux_linkage_mwb.bits as int;
    assert(arith::abs(l * s) <= 0x2000_0000 * 70_000 && arith::abs(l * c) <= 0x2000_0000 * 70_000)
        by (nonlinear_arith)
        requires
            0 < l <= 0x2000_0000,
            -70_000 < s < 70_000,
            -70_000 < c < 70_000,
    ;
}

/// The gains of a fresh observer follow from the control rate: times the rate
/// they are the documented rates, rounded down. Flux integrates volt-milliseconds,
/// centering takes 500 per second, the back-EMF filter 25 ms, the loop 1,000 per
/// second and 20,000 per second squared, the error filter 10 ms, and credit is
/// held for 400 ms.
pub proof fn law_gains_follow_the_control_rate(
    resistance_ohms: Fixed,
    inductance_millihenries: Fixed,
    flux_linkage_mwb: Fixed,
    control_frequency_hz: u32,
)
    requires
        1_000 < control_frequency_hz <= MAXIMUM_CONTROL_FREQUENCY_HZ,
        flux_linkage_mwb.bits > 2,
    ensures
        ({
            let r = BackEmfObserver::fresh(
                resistance_ohms,
                inductance_millihenries,
                flux_linkage_mwb,
                control_frequency_hz,
            );
            let f = control_frequency_hz as int;
            let l = flux_linkage_mwb.bits as int;
            let kp = r.pll_kp_step_q32 as int;
            let ki = r.pll_ki_step_q32 as int;
            let error_step = r.phase_error_filter_step_q32 as int;
            &&& is_quotient(65_536_000, f, r.flux_voltage_step.bits as int)
            &&& is_quotient(32_768_000, f, r.centering_step.bits as int)
            &&& is_quotient(2_621_440, f, r.bemf_filter_step.bits as int)
            &&& is_quotient(4_294_967_296_000, f, kp)
            &&& is_quotient(85_899_345_920_000, f * f, ki)
            &&& is_quotient(429_496_729_600, f, error_step)
            &&& is_quotient(2 * f, 5, r.valid_revoke_cycles as int)
            &&& is_quotient(0x1_0000_0000, l, r.inverse_flux_linkage.bits as int)
            &&& r.resistance_ohms == resistance_ohms
            &&& r.inductance_millihenries == inductance_millihenries
            &&& r.flux_linkage_mwb == flux_linkage_mwb
            &&& !r.ready_latched
        }),
{
    let f = control_frequency_hz as int;
    let l = flux_linkage_mwb.bits as int;
    lemma_quotient(65_536_000, f);
    lemma_quotient(32_768_000, f);
    lemma_quotient(2_621_440, f);
    lemma_quotient(4_294_967_296_000, f);
    lemma_quotient(429_496_729_600, f);
    assert(f * f >= 1_000_000) by (nonlinear_arith)
        requires
            f > 1_000,
    ;
    lemma_quotient(85_899_345_920_000, f * f);
    lemma_quotient(0x1_0000_0000, l);
    lemma_small_quotient(4_294_967_296_000, f, 0xffff_ffff);
    lemma_small_quotient(429_496_729_600, f, 0xffff_ffff);
    lemma_small_quotient(85_899_345_920_000, f * f, 0xffff_ffff);
    lemma_small_quotient(0x1_0000_0000, l, 0x7fff_ffff);
    lemma_small_quotient(65_536_000, f, 0x7fff_ffff);
    lemma_small_quotient(32_768_000, f, 0x7fff_ffff);
    lemma_small_quotient(2_621_440, f, 0x7fff_ffff);
}

/// `quotient` is `numerator / denominator` rounded down.
pub open spec fn is_quotient(numerator: int, denominator: int, quotient: int) -> bool {
    denominator * quotient <= numerator < denominator * (quotient + 1)
}

proof fn lemma_quotient(numerator: int, denominator: int)
    requires
        denominator > 0,
    ensures
        is_quotient(numerator, denominator, numerator / denominator),
{
    let q = numerator / denominator;
    assert(denominator * q <= numerator < denominator * (q + 1)) by (nonlinear_arith)
        requires
            q == numerator / denominator,
            denominator > 0,
    ;
}

proof fn lemma_small_quotient(numerator: int, denominator: int, bound: int)
    requires
        denominator > 0,
        0 <= numerator < bound * denominator + denominator,
        0 <= bound,
    ensures
        0 <= numerator / denominator <= bound,
{
    let q = numerator / denominator;
    assert(0 <= q <= bound) by (nonlinear_arith)
        requires
            q == numerator / denominator,
            denominator > 0,
            0 <= numerator < bound * denominator + denominator,
    ;
}

/// A short ratio keeps the sign and is the ratio of its operands, up to one unit
/// and to the resolution of fifteen bits; operands that fit fifteen bits lose
/// nothing but the fraction.
pub proof fn law_short_ratio_is_close(numerator: int, denominator: int, scale: int)
    requires
        -0x4000_0000 <= numerator <= 0x4000_0000,
        0 < denominator <= 0x4000_0000,
        0 < scale <= 0x1_0000,
    ensures
        ({
            let ratio = short_ratio(numerator, denominator, scale);
            let largest = arith::max(arith::abs(numerator), denominator);
            let miss = arith::abs(ratio * denominator - numerator * scale);
            &&& largest < 0x8000 ==> miss < denominator
            &&& 0x4000 * miss <= 0x4000 * denominator + (arith::abs(ratio) + scale) * largest
            &&& numerator >= 0 ==> ratio >= 0
            &&& numerator <= 0 ==> ratio <= 0
        }),
{
    let largest = arith::max(arith::abs(numerator), denominator);
    let shift = arith::shift_below(largest, 0x8000);
    arith::lemma_shift_below(largest, 0x8000);
    let u = arith::unit(shift);
    let sn = numerator / u;
    let q = denominator / u;
    let sd = arith::max(q, 1);
    assert(sn * u <= numerator < sn * u + u && q * u <= denominator < q * u + u)
        by (nonlinear_arith)
        requires
            sn == numerator / u,
            q == denominator / u,
            u >= 1,
    ;
    assert(-0x8000 <= sn <= 0x7fff) by (nonlinear_arith)
        requires
            sn * u <= numerator < sn * u + u,
            -largest <= numerator <= largest,
            largest < 0x8000 * u,
            u >= 1,
    ;
    assert(numerator >= 0 ==> sn >= 0) by (nonlinear_arith)
        requires
            sn * u <= numerator < sn * u + u,
            u >= 1,
    ;
    assert(numerator <= 0 ==> sn <= 0) by (nonlinear_arith)
        requires
            sn * u <= numerator < sn * u + u,
            u >= 1,
    ;
    let product = sn * scale;
    assert(-0x8000_0000 <= product <= 0x7fff_0000 && (sn >= 0 ==> product >= 0) && (sn <= 0
        ==> product <= 0)) by (nonlinear_arith)
        requires
            product == sn * scale,
            -0x8000 <= sn <= 0x7fff,
            0 < scale <= 0x1_0000,
    ;
    let ratio = short_ratio(numerator, denominator, scale);
    lemma_signed_quotient(product, sd);
    assert(ratio == arith::trunc_div(product, sd));
    if shift == 0 {
        vstd::arithmetic::power2::lemma2_to64();
        assert(sn == numerator && q == denominator) by (nonlinear_arith)
            requires
                u == 1,
                sn * u <= numerator < sn * u + u,
                q * u <= denominator < q * u + u,
        ;
        assert(largest < 0x8000);
        assert((arith::abs(ratio) + scale) * largest >= 0) by (nonlinear_arith)
            requires
                largest >= 0,
                scale > 0,
        ;
    } else {
        assert(0x4000 * u <= largest);
        lemma_short_ratio(numerator, denominator, scale, u, sn, q, ratio, largest);
    }
}

proof fn lemma_signed_quotient(numerator: int, denominator: int)
    requires
        denominator >= 1,
    ensures
        arith::abs(arith::trunc_div(numerator, denominator) * denominator - numerator)
            < denominator,
        numerator >= 0 ==> arith::trunc_div(numerator, denominator) >= 0,
        numerator <= 0 ==> arith::trunc_div(numerator, denominator) <= 0,
{
    let size = arith::abs(numerator);
    let r = size / denominator;
    assert(0 <= r && r * denominator <= size < r * denominator + denominator) by (nonlinear_arith)
        requires
            r == size / denominator,
            denominator >= 1,
            size >= 0,
    ;
    assert(-r * denominator == -(r * denominator)) by (nonlinear_arith);
}

proof fn lemma_short_ratio(
    numerator: int,
    denominator: int,
    scale: int,
    u: int,
    sn: int,
    q: int,
    ratio: int,
    largest: int,
)
    requires
        u >= 1,
        0 < scale <= 0x1_0000,
        sn * u <= numerator < sn * u + u,
        q * u <= denominator < q * u + u,
        q >= 0,
        0x4000 * u <= largest,
        ({
            let sd = arith::max(q, 1);
            arith::abs(ratio * sd - sn * scale) < sd
        }),
    ensures
        0x4000 * arith::abs(ratio * denominator - numerator * scale) <= 0x4000 * denominator + (
        arith::abs(ratio) + scale) * largest,
{
    let rest = denominator - q * u;
    let cut = numerator - sn * u;
    let size = arith::abs(ratio);
    let r = ratio * q - sn * scale;
    assert(ratio * denominator - numerator * scale == r * u + ratio * rest - scale * cut)
        by (nonlinear_arith)
        requires
            rest == denominator - q * u,
            cut == numerator - sn * u,
            r == ratio * q - sn * scale,
    ;
    assert(0 <= scale * cut <= scale * u - scale) by (nonlinear_arith)
        requires
            0 <= cut <= u - 1,
            0 < scale,
    ;
    assert(arith::abs(ratio * rest) <= size * u - size) by (nonlinear_arith)
        requires
            0 <= rest <= u - 1,
            size == arith::abs(ratio),
    ;
    assert((size + scale) * (0x4000 * u) <= (size + scale) * largest) by (nonlinear_arith)
        requires
            0x4000 * u <= largest,
            size >= 0,
            scale > 0,
    ;
    assert((size + scale) * (0x4000 * u) == 0x4000 * (size * u) + 0x4000 * (scale * u))
        by (nonlinear_arith);
    if q >= 1 {
        assert(arith::abs(r * u) <= q * u) by (nonlinear_arith)
            requires
                -q < r < q,
                u >= 1,
        ;
    } else {
        assert(ratio * q == 0) by (nonlinear_arith)
            requires
                q == 0,
        ;
        let one = arith::max(q, 1);
        assert(ratio * one == ratio) by (nonlinear_arith)
            requires
                one == 1,
        ;
        assert(r == -ratio);
        assert(r * u + ratio * rest == ratio * (rest - u)) by (nonlinear_arith)
            requires
                r == -ratio,
        ;
        assert(q * u == 0) by (nonlinear_arith)
            requires
                q == 0,
        ;
        assert(arith::abs(ratio * (rest - u)) <= size * u) by (nonlinear_arith)
            requires
                -u <= rest - u <= 0,
                size == arith::abs(ratio),
        ;
    }
}

/// `cross` is the cross product of flux and voltage, and the filtered back-EMF has
/// moved toward its ratio to the flux by the filter's share.
pub open spec fn leads_the_flux(observer: BackEmfObserver, emf: (int, int), cross: int) -> bool {
    let flux = arith::max(
        observer.flux_magnitude_mwb.bits as int,
        observer.flux_linkage_mwb.bits as int / 10,
    );
    let before = observer.bemf_q_filtered_v.bits as int;
    let distance = short_ratio(cross, flux, 0x1_0000) - before;
    let moved = observer.with_bemf(emf).bemf_q_filtered_v.bits - before;
    &&& arith::abs(
        0x1_0000 * cross - (emf.1 * observer.flux_alpha_mwb.bits - emf.0
            * observer.flux_beta_mwb.bits),
    ) <= 0x2_0000
    &&& arith::abs(distance) <= 0x2000_0000 ==> 0x1_0000 * moved <= distance
        * observer.bemf_filter_step.bits < 0x1_0000 * (moved + 1)
}

/// The q back-EMF is filtered toward the part of the voltage that leads the flux
/// by a quarter turn: the filter moves by its share of the distance to the cross
/// product over the flux, and the cross product is that of flux and voltage, to
/// within two units.
pub proof fn law_back_emf_leads_the_flux(observer: BackEmfObserver, emf: (int, int))
    requires
        observer.wf(),
        arith::abs(emf.1 * observer.flux_alpha_mwb.bits) <= 0x2000_0000_0000,
        arith::abs(emf.0 * observer.flux_beta_mwb.bits) <= 0x2000_0000_0000,
        arith::abs(observer.bemf_q_filtered_v.bits as int) <= 0x1000_0000,
        0 <= observer.bemf_filter_step.bits <= 0x1_0000,
    ensures
        exists|cross: int| #[trigger]
            leads_the_flux(observer, emf, cross),
{
    let a = emf.1 * observer.flux_alpha_mwb.bits;
    let b = emf.0 * observer.flux_beta_mwb.bits;
    let cross = a / 0x1_0000 - b / 0x1_0000;
    let flux = arith::max(
        observer.flux_magnitude_mwb.bits as int,
        observer.flux_linkage_mwb.bits as int / 10,
    );
    let before = observer.bemf_q_filtered_v.bits as int;
    let ratio = short_ratio(cross, flux, 0x1_0000);
    let distance = ratio - before;
    let k = observer.bemf_filter_step.bits as int;
    if arith::abs(distance) <= 0x2000_0000 {
        assert(arith::abs(distance * k) <= 0x2000_0000 * 0x1_0000) by (nonlinear_arith)
            requires
                arith::abs(distance) <= 0x2000_0000,
                0 <= k <= 0x1_0000,
        ;
    }
    assert(leads_the_flux(observer, emf, cross));
}

/// Confidence is the length of the flux as a share of the linkage, at most one,
/// rounded down; the length is that of the integrated flux.
pub proof fn law_confidence_is_the_share_of_the_linkage(
    observer: BackEmfObserver,
    input: PhaseInput,
)
    requires
        observer.wf(),
        observer.flux_linkage_mwb.bits <= 0x2000_0000,
        is_quotient(
            0x1_0000_0000,
            observer.flux_linkage_mwb.bits as int,
            observer.inverse_flux_linkage.bits as int,
        ),
    ensures
        ({
            let next = observer.with_flux(input);
            let length = next.flux_magnitude_mwb.bits as int;
            let linkage = observer.flux_linkage_mwb.bits as int;
            let confidence = next.confidence.bits as int;
            &&& length <= linkage ==> {
                &&& linkage * confidence <= 0x1_0000 * length
                &&& 0x1_0000 * (0x1_0000 * length - linkage * confidence) <= linkage * (0x1_0000
                    + length)
            }
            &&& 0 <= confidence <= 0x1_0000
        }),
{
    let next = observer.with_flux(input);
    let length = next.flux_magnitude_mwb.bits as int;
    let linkage = observer.flux_linkage_mwb.bits as int;
    let inverse = observer.inverse_flux_linkage.bits as int;
    if length <= linkage {
        lemma_share_of_the_linkage(length, linkage, inverse);
    }
}

proof fn lemma_share_of_the_linkage(length: int, linkage: int, inverse: int)
    requires
        0 <= length <= linkage <= 0x2000_0000,
        0 < linkage,
        is_quotient(0x1_0000_0000, linkage, inverse),
    ensures
        ({
            let share = q16_product(length, inverse);
            &&& 0 <= share <= 0x1_0000
            &&& linkage * share <= 0x1_0000 * length
            &&& 0x1_0000 * (0x1_0000 * length - linkage * share) <= linkage * (0x1_0000 + length)
        }),
{
    let product = length * inverse;
    assert(0 <= inverse) by (nonlinear_arith)
        requires
            0x1_0000_0000 < linkage * (inverse + 1),
            0 < linkage,
    ;
    assert(0 <= product <= linkage * inverse) by (nonlinear_arith)
        requires
            product == length * inverse,
            0 <= length <= linkage,
            0 <= inverse,
    ;
    let share = product / 0x1_0000;
    assert(q16_product(length, inverse) == share);
    let rest = product - 0x1_0000 * share;
    let short = 0x1_0000_0000 - linkage * inverse;
    assert(linkage * (inverse + 1) == linkage * inverse + linkage) by (nonlinear_arith);
    assert(0x1_0000 * (linkage * share) == length * (linkage * inverse) - linkage * rest)
        by (nonlinear_arith)
        requires
            rest == product - 0x1_0000 * share,
            product == length * inverse,
    ;
    assert(length * (linkage * inverse) == 0x1_0000_0000 * length - length * short)
        by (nonlinear_arith)
        requires
            short == 0x1_0000_0000 - linkage * inverse,
    ;
    assert(0 <= length * short <= length * linkage) by (nonlinear_arith)
        requires
            0 <= short <= linkage,
            0 <= length,
    ;
    assert(0 <= linkage * rest <= linkage * 0x1_0000) by (nonlinear_arith)
        requires
            0 <= rest <= 0x1_0000,
            0 < linkage,
    ;
    assert(linkage * (0x1_0000 + length) == linkage * 0x1_0000 + length * linkage)
        by (nonlinear_arith);
}

} // verus!
