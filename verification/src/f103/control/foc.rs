//! 16 kHz Hall/back-EMF fixed-point current control.
//!
//! [`ControlRuntime`] holds everything the control interrupt owns. One control
//! cycle is a sequence of calls, because registers are read and written between
//! them: [`ControlRuntime::sense`], for a start from rest
//! [`ControlRuntime::confirm_stationary`] and [`ControlRuntime::confirm_restart`],
//! then [`ControlRuntime::estimate`], [`ControlRuntime::drive`] and
//! [`ControlRuntime::finish`]. A call that ends the cycle has already stopped
//! the control state; the outputs are to be disabled and the compares returned
//! to neutral.
use vstd::prelude::*;

use crate::arith;
use crate::f103::config;
use crate::f103::control::stationary_phase_recovery_allowed;
use crate::f103::hardware::peripherals;
use crate::f103::hardware::peripherals::{
    acknowledge_faults, fault_flags, latch_control_timing_fault, latch_hall_capture_fault,
    read_phase_currents, CurrentOffsets, FaultLatch, PhaseCurrentSample,
};
use crate::f103::safety;
use crate::f103::safety::checkpoint;
use crate::f103::safety::{
    clear_current_pwm_failure, record_control_checkpoint, record_control_cycle,
    record_control_timing, record_safety_loss, Forensics,
};
use crate::foc::control_types::{Dq, PwmDuty};
use crate::foc::controller::{FixedFocController, FocController, NoDecoupling};
use crate::foc::hall_sensor::{HallGeometry, HallSensor};
use crate::foc::numeric;
use crate::foc::numeric::{Fixed, Scalar};
use crate::foc::offset_tracker;
use crate::foc::offset_tracker::CurrentOffsetTracker;
use crate::foc::phase::{
    BackEmfObserver, ObserverDiagnostics, PhaseEstimate, PhaseManager, PhaseProvider, PhaseSource,
};
use crate::foc::pi_controller::PIController;
use crate::foc::ramp::QuadratureTargetRamp;
use crate::foc::trig::Turns;
use crate::motor::foc_driver::{CurrentLimits, FocDriver, FocOutput};

verus! {

pub const HALL_RECOVERY_STABLE_CYCLES: u8 = 5;

pub const CONTROL_BUDGET_WARNING_CYCLES: u32 = 3_900;

pub const CONTROL_BUDGET_CYCLES: u32 = 4_500;

pub const CONTROL_PERIOD_NS: u32 = 62_500;

/// One IIR step per 1/32 of the error gives the 2 ms bus-modulation filter at
/// 16 kHz.
pub const BUS_MODULATION_FILTER_SHIFT: u8 = 5;

/// Phase-derived speed is bounded before it reaches timing-dependent controller
/// paths.
pub const CONTROL_ERPM_LIMIT: i32 = 76_000;

/// Time between the edge-age reading and its use.
pub const EDGE_AGE_LATENCY_US: u32 = 3;

/// Hall silence that an updater reset asks for.
pub const UPDATER_HALL_QUIET_US: u32 = 500_000;

pub type RideFocDriver = FocDriver<PhaseManager<HallSensor>, 50, 3, NoDecoupling>;

pub type RideFocController = FixedFocController<50, 3, NoDecoupling>;

#[derive(Clone, Copy, Debug, Default, Eq, PartialEq, Structural)]
pub enum SafetyLossReason {
    #[default]
    NoLoss,
    ControlTiming,
    CurrentSample,
    PhaseOvercurrent,
    HallCaptureSequence,
    HallTransition,
    HallStationaryMismatch,
    PhaseEstimate,
    HardwareFault,
    OutputLease,
    PwmOutput,
}

impl SafetyLossReason {
    /// Number of the reason in telemetry and retained records.
    pub open spec fn number(self) -> u8 {
        match self {
            SafetyLossReason::NoLoss => 0,
            SafetyLossReason::ControlTiming => 1,
            SafetyLossReason::CurrentSample => 2,
            SafetyLossReason::PhaseOvercurrent => 3,
            SafetyLossReason::HallCaptureSequence => 4,
            SafetyLossReason::HallTransition => 5,
            SafetyLossReason::HallStationaryMismatch => 6,
            SafetyLossReason::PhaseEstimate => 7,
            SafetyLossReason::HardwareFault => 8,
            SafetyLossReason::OutputLease => 9,
            SafetyLossReason::PwmOutput => 10,
        }
    }

    pub fn code(self) -> (r: u8)
        ensures
            r == self.number(),
    {
        match self {
            SafetyLossReason::NoLoss => 0,
            SafetyLossReason::ControlTiming => 1,
            SafetyLossReason::CurrentSample => 2,
            SafetyLossReason::PhaseOvercurrent => 3,
            SafetyLossReason::HallCaptureSequence => 4,
            SafetyLossReason::HallTransition => 5,
            SafetyLossReason::HallStationaryMismatch => 6,
            SafetyLossReason::PhaseEstimate => 7,
            SafetyLossReason::HardwareFault => 8,
            SafetyLossReason::OutputLease => 9,
            SafetyLossReason::PwmOutput => 10,
        }
    }
}

#[derive(Clone, Copy, Debug, Eq, PartialEq, Structural)]
pub struct DirectCurrentPeakEvent {
    pub generation: u8,
    pub measured_d_counts: i16,
    pub measured_q_counts: i16,
    pub target_q_counts: i16,
    pub hall_raw: u8,
    pub hall_angle_direction: i8,
    pub edge_age_us: u16,
    pub hall_interval_us: u16,
    pub angle_error_q8: i8,
    pub requested_d_ticks: i16,
    pub requested_q_ticks: i16,
    pub feedforward_d_ticks: i16,
    pub feedforward_q_ticks: i16,
    pub applied_d_ticks: i16,
    pub applied_q_ticks: i16,
    pub voltage_limited: bool,
    pub angle_rate_limited: bool,
}

impl DirectCurrentPeakEvent {
    /// An event that nothing was captured in.
    pub open spec fn blank(generation: u8) -> Self {
        DirectCurrentPeakEvent {
            generation,
            measured_d_counts: 0,
            measured_q_counts: 0,
            target_q_counts: 0,
            hall_raw: 0,
            hall_angle_direction: 0,
            edge_age_us: 0,
            hall_interval_us: 0,
            angle_error_q8: 0,
            requested_d_ticks: 0,
            requested_q_ticks: 0,
            feedforward_d_ticks: 0,
            feedforward_q_ticks: 0,
            applied_d_ticks: 0,
            applied_q_ticks: 0,
            voltage_limited: false,
            angle_rate_limited: false,
        }
    }

    fn empty(generation: u8) -> (r: Self)
        ensures
            r == DirectCurrentPeakEvent::blank(generation),
    {
        DirectCurrentPeakEvent {
            generation,
            measured_d_counts: 0,
            measured_q_counts: 0,
            target_q_counts: 0,
            hall_raw: 0,
            hall_angle_direction: 0,
            edge_age_us: 0,
            hall_interval_us: 0,
            angle_error_q8: 0,
            requested_d_ticks: 0,
            requested_q_ticks: 0,
            feedforward_d_ticks: 0,
            feedforward_q_ticks: 0,
            applied_d_ticks: 0,
            applied_q_ticks: 0,
            voltage_limited: false,
            angle_rate_limited: false,
        }
    }
}

impl Default for DirectCurrentPeakEvent {
    fn default() -> (r: Self)
        ensures
            r == DirectCurrentPeakEvent::blank(0),
    {
        DirectCurrentPeakEvent::empty(0)
    }
}

#[derive(Clone, Copy, Debug, Default, Eq, PartialEq, Structural)]
pub struct TimingMaxima {
    pub pre_driver_cycles: u16,
    pub driver_step_cycles: u16,
}

#[derive(Clone, Copy, Debug, Eq, PartialEq, Structural)]
pub struct Snapshot {
    pub hall_valid: bool,
    pub current_valid: bool,
    pub output_active: bool,
    pub voltage_limited: bool,
    pub target_q_counts: i16,
    pub phase_current_limit_counts: u16,
    pub measured_d_counts: i16,
    pub measured_q_counts: i16,
    pub applied_d_ticks: i16,
    pub applied_q_ticks: i16,
    pub pwm_span_ticks: u16,
    pub maximum_phase_current_abs: u16,
    pub maximum_direct_current_abs: u16,
    pub maximum_quadrature_error_abs: u16,
    pub maximum_pwm_span_ticks: u16,
    pub maximum_direct_event: DirectCurrentPeakEvent,
    pub safety_events: u32,
    pub last_safety_loss_reason: u8,
    pub phase_current_trips: u32,
    pub hall_sequence: u32,
    pub hall_interval_us: u32,
    pub hall_progress: i32,
    pub electrical_rpm: i32,
    pub observer_configured: bool,
    pub observer_ready: bool,
    pub observer_active: bool,
    pub observer_blend: u8,
    pub observer_confidence: u8,
    pub observer_validity_progress: u8,
    pub observer_electrical_rpm: i16,
    pub observer_hall_error_q16: i16,
    pub observer_flux_centi_mwb: u16,
    pub observer_bemf_q_mv: i16,
    pub observer_phase_error_q16: u16,
    pub maximum_pre_driver_cycles: u16,
    pub maximum_driver_step_cycles: u16,
    pub fault_flags: u32,
    pub control_cycles: u32,
    pub injected_samples: u32,
    pub control_max_cycles: u32,
    pub control_budget_warnings: u32,
    pub control_budget_overruns: u32,
}

#[derive(Clone, Copy, Debug, Eq, PartialEq, Structural)]
pub struct ControlDiagnostics {
    pub hall_valid: bool,
    pub current_valid: bool,
    pub output_active: bool,
    pub voltage_limited: bool,
    pub direct_event_pending: bool,
    pub target_q_counts: i16,
    pub phase_current_limit_counts: u16,
    pub measured_d_counts: i16,
    pub measured_q_counts: i16,
    pub applied_d_ticks: i16,
    pub applied_q_ticks: i16,
    pub pwm_span_ticks: u16,
    pub maximum_phase_current_abs: u32,
    pub maximum_direct_current_abs: u32,
    pub maximum_quadrature_error_abs: u32,
    pub maximum_pwm_span_ticks: u32,
    pub maximum_direct_event: DirectCurrentPeakEvent,
    pub fault_direct_event: DirectCurrentPeakEvent,
    pub fault_direct_event_valid: bool,
    pub safety_events: u32,
    pub last_safety_loss_reason: u8,
    pub phase_current_trips: u32,
    pub hall_sequence: u32,
    pub hall_interval_us: u32,
    pub hall_progress: i32,
    pub electrical_rpm: i32,
    pub observer_configured: bool,
    pub observer_ready: bool,
    pub observer_active: bool,
    pub observer_blend: u8,
    pub observer_confidence: u8,
    pub observer_validity_progress: u8,
    pub observer_electrical_rpm: i16,
    pub observer_hall_error_q16: i16,
    pub observer_flux_centi_mwb: u16,
    pub observer_bemf_q_mv: i16,
    pub observer_phase_error_q16: u16,
    pub timing_maxima: TimingMaxima,
    pub injected_samples: u32,
    pub control_max_cycles: u32,
    pub control_budget_warnings: u32,
    pub control_budget_overruns: u32,
}

impl ControlDiagnostics {
    /// Nothing has been observed yet.
    pub open spec fn initial(hall_valid: bool, observer_configured: bool) -> Self {
        ControlDiagnostics {
            hall_valid,
            current_valid: false,
            output_active: false,
            voltage_limited: false,
            direct_event_pending: false,
            target_q_counts: 0,
            phase_current_limit_counts: 0,
            measured_d_counts: 0,
            measured_q_counts: 0,
            applied_d_ticks: 0,
            applied_q_ticks: 0,
            pwm_span_ticks: 0,
            maximum_phase_current_abs: 0,
            maximum_direct_current_abs: 0,
            maximum_quadrature_error_abs: 0,
            maximum_pwm_span_ticks: 0,
            maximum_direct_event: DirectCurrentPeakEvent::blank(0),
            fault_direct_event: DirectCurrentPeakEvent::blank(0),
            fault_direct_event_valid: false,
            safety_events: 0,
            last_safety_loss_reason: 0,
            phase_current_trips: 0,
            hall_sequence: 0,
            hall_interval_us: 0,
            hall_progress: 0,
            electrical_rpm: 0,
            observer_configured,
            observer_ready: false,
            observer_active: false,
            observer_blend: 0,
            observer_confidence: 0,
            observer_validity_progress: 0,
            observer_electrical_rpm: 0,
            observer_hall_error_q16: 0,
            observer_flux_centi_mwb: 0,
            observer_bemf_q_mv: 0,
            observer_phase_error_q16: 0,
            timing_maxima: TimingMaxima { pre_driver_cycles: 0, driver_step_cycles: 0 },
            injected_samples: 0,
            control_max_cycles: 0,
            control_budget_warnings: 0,
            control_budget_overruns: 0,
        }
    }

    fn new(hall_valid: bool, observer_configured: bool) -> (r: Self)
        ensures
            r == ControlDiagnostics::initial(hall_valid, observer_configured),
    {
        ControlDiagnostics {
            hall_valid,
            current_valid: false,
            output_active: false,
            voltage_limited: false,
            direct_event_pending: false,
            target_q_counts: 0,
            phase_current_limit_counts: 0,
            measured_d_counts: 0,
            measured_q_counts: 0,
            applied_d_ticks: 0,
            applied_q_ticks: 0,
            pwm_span_ticks: 0,
            maximum_phase_current_abs: 0,
            maximum_direct_current_abs: 0,
            maximum_quadrature_error_abs: 0,
            maximum_pwm_span_ticks: 0,
            maximum_direct_event: DirectCurrentPeakEvent::empty(0),
            fault_direct_event: DirectCurrentPeakEvent::empty(0),
            fault_direct_event_valid: false,
            safety_events: 0,
            last_safety_loss_reason: 0,
            phase_current_trips: 0,
            hall_sequence: 0,
            hall_interval_us: 0,
            hall_progress: 0,
            electrical_rpm: 0,
            observer_configured,
            observer_ready: false,
            observer_active: false,
            observer_blend: 0,
            observer_confidence: 0,
            observer_validity_progress: 0,
            observer_electrical_rpm: 0,
            observer_hall_error_q16: 0,
            observer_flux_centi_mwb: 0,
            observer_bemf_q_mv: 0,
            observer_phase_error_q16: 0,
            timing_maxima: TimingMaxima { pre_driver_cycles: 0, driver_step_cycles: 0 },
            injected_samples: 0,
            control_max_cycles: 0,
            control_budget_warnings: 0,
            control_budget_overruns: 0,
        }
    }

    /// The report with the outputs off.
    pub open spec fn stopped(self) -> Self {
        ControlDiagnostics {
            output_active: false,
            voltage_limited: false,
            target_q_counts: 0,
            phase_current_limit_counts: 0,
            measured_d_counts: 0,
            measured_q_counts: 0,
            applied_d_ticks: 0,
            applied_q_ticks: 0,
            pwm_span_ticks: 0,
            ..self
        }
    }

    /// The report with the peak event kept for the fault that was found.
    pub open spec fn frozen(self, fault_found: bool) -> Self {
        if fault_found {
            ControlDiagnostics {
                fault_direct_event: self.maximum_direct_event,
                fault_direct_event_valid: true,
                ..self
            }
        } else {
            self
        }
    }

    /// The report after a safety loss.
    pub open spec fn lost(self, reason: SafetyLossReason) -> Self {
        ControlDiagnostics {
            last_safety_loss_reason: reason.number(),
            safety_events: arith::wrap_u32(self.safety_events + 1) as u32,
            ..self
        }
    }

    /// The report after a cycle was timed.
    #[verifier::opaque]
    pub open spec fn cycle_counted(self, elapsed: u32) -> Self {
        ControlDiagnostics {
            control_max_cycles: arith::max(self.control_max_cycles as int, elapsed as int) as u32,
            control_budget_warnings: arith::wrap_u32(
                self.control_budget_warnings + arith::bit(elapsed > CONTROL_BUDGET_WARNING_CYCLES),
            ) as u32,
            control_budget_overruns: arith::wrap_u32(
                self.control_budget_overruns + arith::bit(elapsed > CONTROL_BUDGET_CYCLES),
            ) as u32,
            ..self
        }
    }

    /// The report with the observer's state in telemetry units.
    pub open spec fn observed(self, d: ObserverDiagnostics) -> Self {
        ControlDiagnostics {
            observer_configured: d.configured,
            observer_ready: d.ready,
            observer_active: d.active,
            observer_blend: unit_byte(d.blend),
            observer_confidence: unit_byte(d.confidence),
            observer_validity_progress: d.validity_progress,
            observer_electrical_rpm: arith::sat_i16(d.electrical_rpm as int) as i16,
            observer_hall_error_q16: (d.hall_error_q32 as int / 0x1_0000) as i16,
            observer_flux_centi_mwb: arith::sat_u16(scaled_units(d.flux_magnitude_mwb, 100)) as u16,
            observer_bemf_q_mv: arith::sat_i16(scaled_units(d.bemf_q_v, 1_000)) as i16,
            observer_phase_error_q16: (d.phase_error_filtered_q32 as int / 0x1_0000) as u16,
            ..self
        }
    }

    /// The report after an accepted driver step. A new largest d current, or
    /// the first sample of an episode, replaces the captured event.
    pub open spec fn stepped(
        self,
        output: FocOutput,
        event: DirectCurrentPeakEvent,
        span: int,
    ) -> Self {
        let direct = arith::abs(event.measured_d_counts as int);
        let is_peak = direct > self.maximum_direct_current_abs;
        let quadrature_error = arith::abs(
            event.target_q_counts - event.measured_q_counts,
        );
        ControlDiagnostics {
            target_q_counts: event.target_q_counts,
            phase_current_limit_counts: arith::sat_u16(
                output.quadrature_limit.absolute_ceiling() as int,
            ) as u16,
            measured_d_counts: event.measured_d_counts,
            measured_q_counts: event.measured_q_counts,
            applied_d_ticks: event.applied_d_ticks,
            applied_q_ticks: event.applied_q_ticks,
            pwm_span_ticks: span as u16,
            voltage_limited: output.voltage_limited,
            maximum_direct_current_abs: arith::max(
                self.maximum_direct_current_abs as int,
                direct,
            ) as u32,
            direct_event_pending: false,
            maximum_direct_event: if is_peak || self.direct_event_pending {
                DirectCurrentPeakEvent {
                    generation: arith::max(
                        arith::wrap_u8(self.maximum_direct_event.generation + 1),
                        1,
                    ) as u8,
                    ..event
                }
            } else {
                self.maximum_direct_event
            },
            maximum_quadrature_error_abs: arith::max(
                self.maximum_quadrature_error_abs as int,
                quadrature_error,
            ) as u32,
            maximum_pwm_span_ticks: arith::max(self.maximum_pwm_span_ticks as int, span) as u32,
            ..self
        }
    }
}

impl Snapshot {
    /// The report that diagnostics, faults and the cycle counter amount to: the
    /// maxima saturate, and a fault's peak event takes precedence.
    pub open spec fn of(d: ControlDiagnostics, faults: FaultLatch, control_cycles: u32) -> Self {
        Snapshot {
            hall_valid: d.hall_valid,
            current_valid: d.current_valid,
            output_active: d.output_active,
            voltage_limited: d.voltage_limited,
            target_q_counts: d.target_q_counts,
            phase_current_limit_counts: d.phase_current_limit_counts,
            measured_d_counts: d.measured_d_counts,
            measured_q_counts: d.measured_q_counts,
            applied_d_ticks: d.applied_d_ticks,
            applied_q_ticks: d.applied_q_ticks,
            pwm_span_ticks: d.pwm_span_ticks,
            maximum_phase_current_abs: arith::sat_u16(d.maximum_phase_current_abs as int) as u16,
            maximum_direct_current_abs: arith::sat_u16(d.maximum_direct_current_abs as int) as u16,
            maximum_quadrature_error_abs: arith::sat_u16(
                d.maximum_quadrature_error_abs as int,
            ) as u16,
            maximum_pwm_span_ticks: arith::sat_u16(d.maximum_pwm_span_ticks as int) as u16,
            maximum_direct_event: if d.fault_direct_event_valid {
                d.fault_direct_event
            } else {
                d.maximum_direct_event
            },
            safety_events: d.safety_events,
            last_safety_loss_reason: d.last_safety_loss_reason,
            phase_current_trips: d.phase_current_trips,
            hall_sequence: d.hall_sequence,
            hall_interval_us: d.hall_interval_us,
            hall_progress: d.hall_progress,
            electrical_rpm: d.electrical_rpm,
            observer_configured: d.observer_configured,
            observer_ready: d.observer_ready,
            observer_active: d.observer_active,
            observer_blend: d.observer_blend,
            observer_confidence: d.observer_confidence,
            observer_validity_progress: d.observer_validity_progress,
            observer_electrical_rpm: d.observer_electrical_rpm,
            observer_hall_error_q16: d.observer_hall_error_q16,
            observer_flux_centi_mwb: d.observer_flux_centi_mwb,
            observer_bemf_q_mv: d.observer_bemf_q_mv,
            observer_phase_error_q16: d.observer_phase_error_q16,
            maximum_pre_driver_cycles: d.timing_maxima.pre_driver_cycles,
            maximum_driver_step_cycles: d.timing_maxima.driver_step_cycles,
            fault_flags: faults.mask() as u32,
            control_cycles,
            injected_samples: d.injected_samples,
            control_max_cycles: d.control_max_cycles,
            control_budget_warnings: d.control_budget_warnings,
            control_budget_overruns: d.control_budget_overruns,
        }
    }
}

/// A share of one as a byte, rounded to nearest.
pub open spec fn unit_byte(value: Fixed) -> u8 {
    ((arith::clamp(value.bits as int, 0, 0x1_0000) * 255 + 0x8000) / 0x1_0000) as u8
}

/// A value in smaller units, rounded down and saturated.
pub open spec fn scaled_units(value: Fixed, scale: int) -> int {
    arith::sat_i32(value.bits * scale / 0x1_0000)
}

/// Distance between the largest and the smallest compare.
pub open spec fn span_of(duty: PwmDuty) -> int {
    arith::max(arith::max(duty.a as int, duty.b as int), duty.c as int) - arith::min(
        arith::min(duty.a as int, duty.b as int),
        duty.c as int,
    )
}

/// Angle that the rotor turns in one control period, in Q16.16 radians: 1757 /
/// 4096 approximates `2*pi*65536/(60*16000)`.
pub open spec fn advance_of(electrical_rpm: int) -> int {
    electrical_rpm * 1_757 / 0x1000
}

/// A lease ends at its deadline; the clock wraps.
pub open spec fn lease_holds(now: int, deadline: int) -> bool {
    0 < arith::wrap_u32(deadline - now) < 0x8000_0000
}

/// What the foreground asks of the control interrupt.
#[derive(Clone, Copy, Debug, Eq, PartialEq, Structural)]
pub struct CommandMailbox {
    pub target_q_counts: i32,
    pub dc_current_limit_counts: u16,
    pub control_cycle: u32,
    pub deadline: u32,
    pub safety_epoch: u32,
    pub enabled: bool,
    pub observer_volts_per_pwm_tick_bits: i32,
}

impl CommandMailbox {
    pub open spec fn idle() -> Self {
        CommandMailbox {
            target_q_counts: 0,
            dc_current_limit_counts: 0,
            control_cycle: 0,
            deadline: 0,
            safety_epoch: 0,
            enabled: false,
            observer_volts_per_pwm_tick_bits: 0,
        }
    }

    /// The mailbox without authority.
    pub open spec fn revoked(self) -> Self {
        CommandMailbox {
            enabled: false,
            target_q_counts: 0,
            dc_current_limit_counts: 0,
            deadline: self.control_cycle,
            ..self
        }
    }

    /// The mailbox with a lease for a target inside the ride envelope.
    pub open spec fn authorized(
        self,
        target_q_counts: i16,
        dc_current_limit_counts: u16,
        lifetime_cycles: u32,
        safety_epoch: u32,
    ) -> Self {
        CommandMailbox {
            target_q_counts: arith::clamp(
                target_q_counts as int,
                -config::RIDE_PHASE_CURRENT_LIMIT_COUNTS,
                0,
            ) as i32,
            dc_current_limit_counts: arith::min(
                dc_current_limit_counts as int,
                config::RIDE_DC_BUS_CURRENT_LIMIT_COUNTS as int,
            ) as u16,
            safety_epoch,
            deadline: arith::wrap_u32(self.control_cycle + lifetime_cycles) as u32,
            enabled: true,
            ..self
        }
    }

    pub fn new() -> (r: Self)
        ensures
            r == CommandMailbox::idle(),
    {
        CommandMailbox {
            target_q_counts: 0,
            dc_current_limit_counts: 0,
            control_cycle: 0,
            deadline: 0,
            safety_epoch: 0,
            enabled: false,
            observer_volts_per_pwm_tick_bits: 0,
        }
    }
}

/// Refresh the observer's conversion from commanded PWM ticks to phase volts.
/// The foreground owns the relatively expensive divider; the interrupt only
/// consumes the resulting Q16.16 scale.
pub fn set_bus_voltage_mv(mailbox: &mut CommandMailbox, bus_voltage_mv: u32)
    ensures
        *final(mailbox) == (CommandMailbox {
            observer_volts_per_pwm_tick_bits: (arith::min(
                bus_voltage_mv as int,
                config::MAXIMUM_BUS_VOLTAGE_MV as int,
            ) * 0x1_0000 / (config::PWM_ARR * 1_000)) as i32,
            ..*old(mailbox)
        }),
{
    mailbox.observer_volts_per_pwm_tick_bits = config::observer_volts_per_pwm_tick_bits(
        bus_voltage_mv,
    );
}

/// Grants a short, renewable local-ride lease. Only the foreground ride state
/// machine calls this; CAN frames never create motor authority.
pub fn authorize_ride_target(
    mailbox: &mut CommandMailbox,
    target_q_counts: i16,
    dc_current_limit_counts: u16,
    lifetime_cycles: u32,
    safety_epoch: u32,
)
    ensures
        *final(mailbox) == old(mailbox).authorized(
            target_q_counts,
            dc_current_limit_counts,
            lifetime_cycles,
            safety_epoch,
        ),
{
    let limit: i32 = config::RIDE_PHASE_CURRENT_LIMIT_COUNTS as i32;
    let requested: i32 = target_q_counts as i32;
    mailbox.target_q_counts = if requested < -limit {
        -limit
    } else if requested > 0 {
        0
    } else {
        requested
    };
    mailbox.dc_current_limit_counts = if dc_current_limit_counts
        < config::RIDE_DC_BUS_CURRENT_LIMIT_COUNTS {
        dc_current_limit_counts
    } else {
        config::RIDE_DC_BUS_CURRENT_LIMIT_COUNTS
    };
    mailbox.safety_epoch = safety_epoch;
    mailbox.deadline = mailbox.control_cycle.wrapping_add(lifetime_cycles);
    mailbox.enabled = true;
}

pub fn revoke_ride_authority(mailbox: &mut CommandMailbox)
    ensures
        *final(mailbox) == old(mailbox).revoked(),
{
    mailbox.enabled = false;
    mailbox.target_q_counts = 0;
    mailbox.dc_current_limit_counts = 0;
    mailbox.deadline = mailbox.control_cycle;
}

/// An updater may take over: no command, outputs off, and a quiet rotor.
pub fn safe_for_updater_reset(
    mailbox: &CommandMailbox,
    motor_outputs_disabled: bool,
    hall_is_quiet: bool,
) -> (r: bool)
    ensures
        r == (!mailbox.enabled && motor_outputs_disabled && hall_is_quiet),
{
    !mailbox.enabled && motor_outputs_disabled && hall_is_quiet
}

fn lease_is_active(now: u32, deadline: u32) -> (r: bool)
    ensures
        r == lease_holds(now as int, deadline as int),
{
    let remaining: u32 = deadline.wrapping_sub(now);
    remaining != 0 && remaining < 0x8000_0000
}

/// What the control interrupt remembers between cycles.
pub struct ControlState {
    pub driver: RideFocDriver,
    pub target_ramp: QuadratureTargetRamp,
    pub offsets: CurrentOffsets,
    pub offset_tracker: CurrentOffsetTracker,
    pub hardware_hall_sequence: u32,
    pub hall_recovery_raw: u8,
    pub hall_recovery_cycles: u8,
    pub command_was_enabled: bool,
    pub diagnostics: ControlDiagnostics,
}

impl ControlState {
    pub open spec fn wf(self) -> bool {
        self.driver.phase.ready() && self.target_ramp.wf()
    }

    /// The state with its Hall sensor replaced.
    pub open spec fn with_hall(self, hall: HallSensor) -> Self {
        ControlState {
            driver: FocDriver { phase: PhaseManager { hall, ..self.driver.phase }, ..self.driver },
            ..self
        }
    }

    /// The state with its report replaced.
    pub open spec fn reporting(self, diagnostics: ControlDiagnostics) -> Self {
        ControlState { diagnostics, ..self }
    }

    /// The state with the Hall angle reported valid or not.
    pub open spec fn hall_reported(self, valid: bool) -> Self {
        self.reporting(ControlDiagnostics { hall_valid: valid, ..self.diagnostics })
    }

    /// The state after control was stopped.
    pub open spec fn stopped(self, fault_found: bool) -> Self {
        ControlState {
            driver: self.driver.cleared(),
            target_ramp: self.target_ramp.cleared(),
            command_was_enabled: false,
            diagnostics: self.diagnostics.frozen(fault_found).stopped(),
            ..self
        }
    }

    /// The state after the offsets followed an undriven sample.
    pub open spec fn offsets_followed(self, sample: PhaseCurrentSample) -> Self {
        let tracker = self.offset_tracker.after(sample.raw_a, sample.raw_b);
        ControlState {
            offset_tracker: tracker,
            offsets: CurrentOffsets {
                phase_a: offset_tracker::rounded(tracker.phase_a as int) as u16,
                phase_b: offset_tracker::rounded(tracker.phase_b as int) as u16,
            },
            ..self
        }
    }

    /// The state after the Hall sensor took an edge.
    #[verifier::opaque]
    pub open spec fn edge_taken(self, sequence: u32, raw: u8, interval_us: u32) -> Self {
        let hall = self.driver.phase.hall.after_edge(raw, interval_us);
        let taken = ControlState { hardware_hall_sequence: sequence, ..self.with_hall(hall) };
        if self.driver.phase.hall.edge_outcome(raw, interval_us) is Err {
            taken
        } else {
            ControlState {
                hall_recovery_cycles: 0,
                diagnostics: ControlDiagnostics {
                    hall_sequence: sequence,
                    hall_interval_us: hall.measured_interval_us,
                    hall_progress: arith::wrap_i32(
                        self.diagnostics.hall_progress + arith::sat_i8(
                            hall.direction * hall.geometry.positive_angle_direction,
                        ),
                    ) as i32,
                    electrical_rpm: (if hall.direction * hall.geometry.positive_angle_direction
                        < 0 {
                        -hall.erpm_magnitude()
                    } else {
                        hall.erpm_magnitude()
                    }) as i32,
                    ..self.diagnostics
                },
                ..taken
            }
        }
    }

    /// The recovery counter after a live Hall state: a valid state has to stay
    /// the same for a number of cycles.
    pub open spec fn recovery_counted(self, raw: u8) -> (u8, u8) {
        if self.driver.phase.hall.geometry.sector_of(raw) is None {
            (0, 0)
        } else if raw != self.hall_recovery_raw {
            (raw, 1)
        } else {
            (raw, arith::sat_u8(self.hall_recovery_cycles + 1) as u8)
        }
    }

    /// A standing rotor has been seen long enough to take its sector again.
    pub open spec fn recovers(self, raw: u8) -> bool {
        &&& self.driver.phase.hall.geometry.sector_of(raw) is Some
        &&& raw == self.hall_recovery_raw
        &&& self.recovery_counted(raw).1 >= HALL_RECOVERY_STABLE_CYCLES
    }

    /// The state after an attempt to recover a standing rotor.
    pub open spec fn recovery_tried(self, raw: u8) -> Self {
        let (recovery_raw, cycles) = self.recovery_counted(raw);
        let counted = ControlState {
            hall_recovery_raw: recovery_raw,
            hall_recovery_cycles: cycles,
            ..self
        };
        if self.recovers(raw) {
            let hall = self.driver.phase.hall;
            ControlState {
                hall_recovery_cycles: 0,
                diagnostics: ControlDiagnostics {
                    hall_interval_us: 0,
                    electrical_rpm: 0,
                    ..self.diagnostics
                },
                ..counted.with_hall(hall.seeded(raw, hall.geometry.sector_of(raw)->0))
            }
        } else {
            counted
        }
    }

    /// The state after asking its phase provider for an estimate.
    pub open spec fn asked(self, edge_age_us: u32) -> Self {
        ControlState {
            driver: FocDriver {
                phase: self.driver.phase.after_control_estimate(edge_age_us, CONTROL_PERIOD_NS),
                ..self.driver
            },
            ..self
        }
    }

    /// The estimate that its phase provider gives.
    pub open spec fn answer(self, edge_age_us: u32) -> Option<PhaseEstimate<Turns>> {
        self.driver.phase.control_estimate_at(edge_age_us, CONTROL_PERIOD_NS)
    }

    /// The driver set up for a step: supply limits, output-frame advance and
    /// voltage scale.
    pub open spec fn prepared(
        self,
        dc_limit: u16,
        electrical_rpm: int,
        volts_per_tick_bits: i32,
    ) -> RideFocDriver {
        FocDriver {
            current_limits: CurrentLimits {
                bus_in_max: Some(numeric::fixed(dc_limit * 0x1_0000)),
                bus_regen_max: Some(
                    numeric::fixed(config::RIDE_DC_BUS_REGEN_LIMIT_COUNTS * 0x1_0000),
                ),
                ..self.driver.current_limits
            },
            controller: FocController {
                actuation_advance: numeric::clamped(
                    numeric::fixed(advance_of(electrical_rpm)),
                    Fixed::half_value().negated(),
                    Fixed::half_value(),
                ),
                ..self.driver.controller
            },
            volts_per_pwm_tick: Fixed { bits: volts_per_tick_bits },
            ..self.driver
        }
    }
}

impl ControlState {
    /// The state ready for a driver step on what the foreground asks.
    #[verifier::opaque]
    pub open spec fn readied(
        self,
        mailbox: CommandMailbox,
        electrical_rpm: int,
        pre_driver_cycles: u32,
    ) -> Self {
        ControlState {
            driver: self.prepared(
                mailbox.dc_current_limit_counts,
                electrical_rpm,
                mailbox.observer_volts_per_pwm_tick_bits,
            ),
            target_ramp: self.target_ramp.advanced(mailbox.target_q_counts as int),
            diagnostics: ControlDiagnostics {
                timing_maxima: TimingMaxima {
                    pre_driver_cycles: arith::max(
                        self.diagnostics.timing_maxima.pre_driver_cycles as int,
                        arith::sat_u16(pre_driver_cycles as int),
                    ) as u16,
                    ..self.diagnostics.timing_maxima
                },
                ..self.diagnostics
            },
            ..self
        }
    }
}

/// Values of one control cycle.
#[derive(Clone, Copy, Debug, Eq, PartialEq, Structural)]
pub struct CycleContext {
    pub control_cycle: u32,
    pub command_enabled: bool,
    pub command_started: bool,
    pub lease_active: bool,
    pub output_was_active: bool,
    /// The command starts on a standing rotor, whose live Hall state has to be
    /// confirmed.
    pub stationary_start: bool,
    pub current: PhaseCurrentSample,
}

impl CycleContext {
    /// The outputs are on or about to be.
    pub open spec fn is_driven(self) -> bool {
        self.lease_active || self.output_was_active
    }
}

/// Everything the control interrupt owns.
pub struct ControlRuntime {
    pub state: ControlState,
    pub mailbox: CommandMailbox,
    pub faults: FaultLatch,
    pub forensics: Forensics,
}

/// A speed within the range that control uses.
pub open spec fn bounded_erpm(electrical_rpm: int) -> int {
    arith::clamp(electrical_rpm, -CONTROL_ERPM_LIMIT, CONTROL_ERPM_LIMIT as int)
}

impl ControlRuntime {
    pub open spec fn wf(self) -> bool {
        self.state.wf()
    }

    /// The runtime with its state replaced.
    pub open spec fn with_state(self, state: ControlState) -> Self {
        ControlRuntime { state, ..self }
    }

    /// The runtime after a safety loss: it is counted, recorded, and takes the
    /// authority away.
    pub open spec fn lost(self, reason: SafetyLossReason) -> Self {
        ControlRuntime {
            state: self.state.reporting(self.state.diagnostics.lost(reason)),
            mailbox: self.mailbox.revoked(),
            forensics: self.forensics.loss_noted(reason.number()),
            ..self
        }
    }

    /// The runtime after control was stopped, with a safety loss or without.
    #[verifier::opaque]
    pub open spec fn halted(self, loss: Option<SafetyLossReason>) -> Self {
        let stopped = self.with_state(self.state.stopped(self.faults.is_set()));
        match loss {
            Some(reason) => stopped.lost(reason),
            None => stopped,
        }
    }

    /// The runtime with a new cycle counted.
    pub open spec fn entered(self) -> Self {
        let cycle = arith::wrap_u32(self.mailbox.control_cycle + 1) as u32;
        ControlRuntime {
            mailbox: CommandMailbox { control_cycle: cycle, ..self.mailbox },
            forensics: self.forensics.cycle_entered(cycle),
            ..self
        }
    }

    /// A command of the present safety epoch is enabled.
    pub open spec fn commanded(self) -> bool {
        self.mailbox.enabled && self.mailbox.safety_epoch == self.state.diagnostics.safety_events
    }

    /// That command still has a lease.
    pub open spec fn leased(self) -> bool {
        self.commanded() && lease_holds(
            self.mailbox.control_cycle as int,
            self.mailbox.deadline as int,
        )
    }

    /// The outputs are on or about to be.
    pub open spec fn is_driven(self) -> bool {
        self.leased() || self.state.diagnostics.output_active
    }

    /// The runtime after a missing current sample. While driven this is a loss
    /// of timing.
    pub open spec fn sample_missed(self) -> Self {
        let missed = self.with_state(
            self.state.reporting(
                ControlDiagnostics { current_valid: false, ..self.state.diagnostics },
            ),
        );
        let latched = ControlRuntime {
            faults: FaultLatch {
                control_timing: self.faults.control_timing || (self.is_driven()
                    && !self.faults.is_set()),
                ..self.faults
            },
            ..missed
        };
        latched.halted(
            if self.is_driven() {
                Some(SafetyLossReason::CurrentSample)
            } else {
                None
            },
        )
    }

    /// The runtime after a current sample.
    pub open spec fn sample_taken(self, sample: PhaseCurrentSample) -> Self {
        let diagnostics = self.state.diagnostics;
        ControlRuntime {
            state: self.state.reporting(
                ControlDiagnostics {
                    injected_samples: arith::wrap_u32(diagnostics.injected_samples + 1) as u32,
                    current_valid: true,
                    maximum_phase_current_abs: (if self.is_driven() {
                        arith::max(diagnostics.maximum_phase_current_abs as int, sample.peak())
                    } else {
                        diagnostics.maximum_phase_current_abs as int
                    }) as u32,
                    ..diagnostics
                },
            ),
            forensics: self.forensics.marked(checkpoint::CURRENT_SAMPLED),
            ..self
        }
    }

    /// The runtime after a phase current beyond the trip.
    pub open spec fn tripped(self) -> Self {
        self.with_state(
            self.state.reporting(
                ControlDiagnostics {
                    phase_current_trips: arith::wrap_u32(
                        self.state.diagnostics.phase_current_trips + 1,
                    ) as u32,
                    ..self.state.diagnostics
                },
            ),
        ).halted(Some(SafetyLossReason::PhaseOvercurrent))
    }

    /// The runtime after a Hall edge that does not follow the last one.
    pub open spec fn edge_missed(self) -> Self {
        ControlRuntime {
            faults: FaultLatch { hall_capture: true, ..self.faults },
            ..self
        }.hall_lost(Some(SafetyLossReason::HallCaptureSequence))
    }

    /// The runtime after the Hall sensor refused an edge.
    pub open spec fn edge_refused(self) -> Self {
        self.hall_lost(Some(SafetyLossReason::HallTransition))
    }

    /// The runtime once there is no Hall angle: that is reported, and control is
    /// stopped.
    #[verifier::opaque]
    pub open spec fn hall_lost(self, loss: Option<SafetyLossReason>) -> Self {
        self.with_state(self.state.hall_reported(false)).halted(loss)
    }

    /// The runtime after a look at the captured Hall edge, and whether the
    /// cycle goes on.
    pub open spec fn edge_seen(self, sequence: u32, raw: u8, interval_us: u32) -> (Self, bool) {
        let last = self.state.hardware_hall_sequence;
        if sequence == last {
            (self, true)
        } else if last != 0 && arith::wrap_u32(sequence - last) != 1 {
            (self.edge_missed(), false)
        } else {
            let taken = self.with_state(self.state.edge_taken(sequence, raw, interval_us));
            if self.state.driver.phase.hall.edge_outcome(raw, interval_us) is Err {
                (taken.edge_refused(), false)
            } else {
                (taken, true)
            }
        }
    }

    /// The cycle's values, once its sample has been taken.
    pub open spec fn context(self, sample: PhaseCurrentSample, output_was_active: bool) -> CycleContext {
        let started = self.commanded() && !self.state.command_was_enabled;
        CycleContext {
            control_cycle: self.mailbox.control_cycle,
            command_enabled: self.commanded(),
            command_started: started,
            lease_active: self.leased(),
            output_was_active,
            stationary_start: started && (self.state.driver.phase.hall.direction == 0
                || self.state.driver.phase.hall.measured_interval_us == 0),
            current: sample,
        }
    }

    /// The runtime after sensing, with the cycle's values if it goes on.
    pub open spec fn sensed(
        self,
        readings: Option<(u16, u16)>,
        motor_outputs_disabled: bool,
        edge: (u32, u8, u32),
    ) -> (Self, Option<CycleContext>) {
        let entered = self.entered();
        match readings {
            None => (entered.sample_missed(), None),
            Some((raw_a, raw_b)) => if !peripherals::readings_in_range(
                raw_a,
                raw_b,
                self.state.offsets,
            ) {
                (entered.sample_missed(), None)
            } else {
                let sample = peripherals::currents_of(raw_a, raw_b, self.state.offsets);
                let sampled = entered.sample_taken(sample);
                if sample.peak() > config::PHASE_CURRENT_TRIP_COUNTS && entered.is_driven() {
                    (sampled.tripped(), None)
                } else {
                    let followed = if !entered.leased() && motor_outputs_disabled {
                        sampled.with_state(sampled.state.offsets_followed(sample))
                    } else {
                        sampled
                    };
                    let (seen, goes_on) = followed.edge_seen(edge.0, edge.1, edge.2);
                    if goes_on {
                        (
                            seen,
                            Some(seen.context(sample, self.state.diagnostics.output_active)),
                        )
                    } else {
                        (seen, None)
                    }
                }
            },
        }
    }

    /// The runtime after a standing rotor was found elsewhere.
    pub open spec fn mismatched(self) -> Self {
        self.hall_lost(Some(SafetyLossReason::HallStationaryMismatch))
    }

    /// The runtime with the command noted; a new one asks for an observer seed.
    #[verifier::opaque]
    pub open spec fn command_noted(self, context: CycleContext) -> Self {
        self.with_state(
            ControlState {
                driver: FocDriver {
                    phase: PhaseManager {
                        observer_seed_requested: context.command_started
                            || self.state.driver.phase.observer_seed_requested,
                        ..self.state.driver.phase
                    },
                    ..self.state.driver
                },
                command_was_enabled: context.command_enabled,
                ..self.state
            },
        )
    }

    /// State after the phase was asked for, and the estimate. A missing
    /// estimate may be recovered from a standing rotor while the outputs are
    /// off.
    #[verifier::opaque]
    pub open spec fn phase_asked(
        self,
        edge_age_us: u32,
        live_hall: u8,
        motor_outputs_disabled: bool,
    ) -> (ControlState, Option<PhaseEstimate<Turns>>) {
        let asked = self.state.asked(edge_age_us);
        let answer = self.state.answer(edge_age_us);
        if answer is None && motor_outputs_disabled {
            let tried = asked.recovery_tried(live_hall);
            if asked.recovers(live_hall) {
                (tried.asked(0), tried.answer(0))
            } else {
                (tried, None)
            }
        } else {
            (asked, answer)
        }
    }

    /// The runtime after estimating, with the estimate if the cycle goes on.
    pub open spec fn estimated(
        self,
        context: CycleContext,
        edge_age_us: u32,
        live_hall: u8,
        motor_outputs_disabled: bool,
    ) -> (Self, Option<PhaseEstimate<Turns>>) {
        let noted = self.command_noted(context);
        let (state, answer) = noted.phase_asked(
            arith::sat_u32(edge_age_us + EDGE_AGE_LATENCY_US) as u32,
            live_hall,
            motor_outputs_disabled,
        );
        let asked = noted.with_state(state);
        if answer is None {
            (asked.phase_lost(context.is_driven()), None)
        } else {
            let known = asked.phase_known();
            let verdict = known.drive_refusal(context);
            if verdict is Some {
                (known.halted(verdict->0), None)
            } else {
                (known, answer)
            }
        }
    }

    /// The runtime once the rotor's phase is found missing.
    pub open spec fn phase_lost(self, driven: bool) -> Self {
        self.hall_lost(
            if driven {
                Some(SafetyLossReason::PhaseEstimate)
            } else {
                None
            },
        )
    }

    /// The runtime once the rotor's phase is known.
    #[verifier::opaque]
    pub open spec fn phase_known(self) -> Self {
        ControlRuntime {
            state: ControlState { hall_recovery_cycles: 0, ..self.state.hall_reported(true) },
            forensics: self.forensics.marked(checkpoint::PHASE_ESTIMATED),
            ..self
        }
    }

    /// Why the outputs may not be driven although the phase is known: a latched
    /// fault, or no lease. What is inside is the safety loss to note, if any.
    pub open spec fn drive_refusal(self, context: CycleContext) -> Option<
        Option<SafetyLossReason>,
    > {
        if self.faults.is_set() {
            Some(
                if context.output_was_active {
                    Some(SafetyLossReason::HardwareFault)
                } else {
                    None
                },
            )
        } else if !context.lease_active {
            Some(
                if context.command_enabled {
                    Some(SafetyLossReason::OutputLease)
                } else {
                    None
                },
            )
        } else {
            None
        }
    }

    /// The runtime with the observer's state published, every 256th cycle but
    /// not while it is being seeded.
    #[verifier::opaque]
    pub open spec fn observer_published(self, context: CycleContext) -> Self {
        if context.control_cycle % 256 == 0 && !context.command_started {
            self.with_state(
                self.state.reporting(
                    self.state.diagnostics.observed(self.state.driver.phase.reported()),
                ),
            )
        } else {
            self
        }
    }

    /// The runtime ready for the driver step: the driver is set up, the ramp
    /// has advanced, and the time spent so far is noted.
    #[verifier::opaque]
    pub open spec fn step_prepared(
        self,
        context: CycleContext,
        estimate: PhaseEstimate<Turns>,
        pre_driver_cycles: u32,
    ) -> Self {
        let published = self.observer_published(context);
        published.with_state(
            published.state.readied(
                self.mailbox,
                bounded_erpm(estimate.electrical_rpm as int),
                pre_driver_cycles,
            ),
        )
    }

    /// The request of the driver step.
    pub open spec fn requested(self) -> Dq {
        Dq {
            d: numeric::fixed(0),
            q: numeric::fixed(
                self.state.target_ramp.granted(self.mailbox.target_q_counts as int) * 0x1_0000,
            ),
        }
    }

    /// The runtime after the driver tripped: its controller is cleared.
    #[verifier::opaque]
    pub open spec fn step_tripped(self) -> Self {
        self.with_state(
            ControlState {
                driver: FocDriver {
                    controller: self.state.driver.controller.cleared(),
                    ..self.state.driver
                },
                ..self.state
            },
        ).tripped()
    }

    /// The runtime after an accepted driver step was reported.
    #[verifier::opaque]
    pub open spec fn step_reported(
        self,
        output: FocOutput,
        angle: Turns,
        edge_age_us: u32,
    ) -> Self {
        ControlRuntime {
            state: self.state.reporting(
                self.state.diagnostics.stepped(
                    output,
                    peak_event(
                        self.state.driver,
                        output,
                        angle,
                        arith::sat_u32(edge_age_us + EDGE_AGE_LATENCY_US),
                    ),
                    span_of(output.duties),
                ),
            ),
            forensics: self.forensics.marked(checkpoint::DRIVER_COMPLETE),
            ..self
        }
    }

    /// The runtime after driving, with the compares if the cycle goes on.
    pub open spec fn driven(
        self,
        context: CycleContext,
        estimate: PhaseEstimate<Turns>,
        edge_age_us: u32,
        pre_driver_cycles: u32,
    ) -> (Self, Option<PwmDuty>) {
        let ready = self.step_prepared(context, estimate, pre_driver_cycles);
        let driver = ready.state.driver;
        let phase_a = numeric::fixed(context.current.phase_a * 0x1_0000);
        let phase_b = numeric::fixed(context.current.phase_b * 0x1_0000);
        let bounded = PhaseEstimate {
            electrical_rpm: bounded_erpm(estimate.electrical_rpm as int) as i32,
            ..estimate
        };
        let target = self.requested();
        if driver.current_limits.trips(RideFocDriver::measured(phase_a, phase_b, bounded)) {
            (ready.step_tripped(), None)
        } else {
            let output = driver.output(phase_a, phase_b, bounded, target, config::PWM_NEUTRAL);
            let stepped = ready.with_state(
                ControlState {
                    driver: driver.stepped(phase_a, phase_b, bounded, target, CONTROL_PERIOD_NS),
                    ..ready.state
                },
            );
            (stepped.step_reported(output, estimate.angle, edge_age_us), Some(output.duties))
        }
    }

    /// The runtime after the driver step was timed.
    pub open spec fn driver_timed(self, elapsed: u32) -> Self {
        let maxima = self.state.diagnostics.timing_maxima;
        self.with_state(
            self.state.reporting(
                ControlDiagnostics {
                    timing_maxima: TimingMaxima {
                        driver_step_cycles: arith::max(
                            maxima.driver_step_cycles as int,
                            arith::sat_u16(elapsed as int),
                        ) as u16,
                        ..maxima
                    },
                    ..self.state.diagnostics
                },
            ),
        )
    }

    /// The runtime after the compares were accepted or refused.
    pub open spec fn finished(self, accepted: bool) -> Self {
        if accepted {
            ControlRuntime {
                state: self.state.reporting(
                    ControlDiagnostics { output_active: true, ..self.state.diagnostics },
                ),
                forensics: self.forensics.marked(checkpoint::PWM_WRITTEN),
                ..self
            }
        } else {
            self.halted(Some(SafetyLossReason::PwmOutput))
        }
    }

    /// The runtime at the start of a new capture of the largest d current.
    pub open spec fn episode_begun(self) -> Self {
        let generation = self.state.diagnostics.maximum_direct_event.generation;
        self.with_state(
            self.state.reporting(
                ControlDiagnostics {
                    maximum_direct_current_abs: 0,
                    maximum_direct_event: DirectCurrentPeakEvent::blank(generation),
                    fault_direct_event_valid: false,
                    direct_event_pending: true,
                    ..self.state.diagnostics
                },
            ),
        )
    }

    /// What an acknowledgement leaves: no fault and fresh records when it was
    /// granted, everything as it was when it was refused.
    pub open spec fn acknowledged(self, granted: bool, after: Self) -> bool {
        if granted {
            &&& after.faults == FaultLatch::rearmed()
            &&& safety::episode_starts(self.forensics, after.forensics)
            &&& after == ControlRuntime {
                faults: after.faults,
                forensics: after.forensics,
                ..self.episode_begun()
            }
        } else {
            after == self
        }
    }

    /// The runtime after a cycle over budget: the timing fault is latched.
    #[verifier::opaque]
    pub open spec fn overrun(self) -> Self {
        ControlRuntime {
            faults: FaultLatch { control_timing: true, ..self.faults },
            state: self.state.reporting(self.state.diagnostics.frozen(true).stopped()),
            ..self
        }.lost(SafetyLossReason::ControlTiming)
    }

    /// The runtime after a cycle was timed. A cycle over budget latches a fault
    /// once.
    pub open spec fn timed(self, elapsed: u32) -> Self {
        let counted = self.with_state(
            self.state.reporting(self.state.diagnostics.cycle_counted(elapsed)),
        );
        let judged = if elapsed > CONTROL_BUDGET_CYCLES && !self.faults.control_timing {
            counted.overrun()
        } else {
            counted
        };
        ControlRuntime {
            forensics: judged.forensics.cycle_timed(
                elapsed,
                judged.state.diagnostics.control_max_cycles,
            ),
            ..judged
        }
    }
}

/// Fields of the cycle that may become the captured peak.
pub open spec fn peak_event(
    driver: RideFocDriver,
    output: FocOutput,
    angle: Turns,
    edge_age_us: int,
) -> DirectCurrentPeakEvent {
    let hall = driver.phase.hall;
    DirectCurrentPeakEvent {
        generation: 0,
        measured_d_counts: output.measured_current.d.whole() as i16,
        measured_q_counts: output.measured_current.q.whole() as i16,
        target_q_counts: output.target.q.whole() as i16,
        hall_raw: hall.raw,
        hall_angle_direction: hall.direction,
        edge_age_us: arith::sat_u16(edge_age_us) as u16,
        hall_interval_us: arith::sat_u16(hall.measured_interval_us as int) as u16,
        angle_error_q8: (arith::wrap_i16(
            hall.unlimited_angle as int / 0x1_0000 - angle as int / 0x1_0000,
        ) / 0x100) as i8,
        requested_d_ticks: driver.controller.requested_voltage.d.whole() as i16,
        requested_q_ticks: driver.controller.requested_voltage.q.whole() as i16,
        feedforward_d_ticks: driver.controller.feedforward_voltage.d.whole() as i16,
        feedforward_q_ticks: driver.controller.feedforward_voltage.q.whole() as i16,
        applied_d_ticks: output.applied_voltage.d.whole() as i16,
        applied_q_ticks: output.applied_voltage.q.whole() as i16,
        voltage_limited: output.voltage_limited,
        angle_rate_limited: angle != hall.unlimited_angle,
    }
}

impl ControlRuntime {
    fn mark(&mut self, value: u8)
        ensures
            *final(self) == (ControlRuntime {
                forensics: old(self).forensics.marked(value),
                ..*old(self)
            }),
    {
        record_control_checkpoint(&mut self.forensics, value);
    }

    /// Counts and records a safety loss and revokes the ride authority.
    fn note_safety_loss(&mut self, reason: SafetyLossReason)
        ensures
            *final(self) == old(self).lost(reason),
    {
        self.state.diagnostics.note_loss(reason);
        record_safety_loss(&mut self.forensics, reason.code());
        revoke_ride_authority(&mut self.mailbox);
    }

    /// Stops control; the outputs are to be disabled and the compares returned
    /// to neutral.
    fn stop_control(&mut self, safety_loss: Option<SafetyLossReason>)
        requires
            old(self).wf(),
        ensures
            final(self).wf(),
            *final(self) == old(self).halted(safety_loss),
    {
        reveal(ControlRuntime::halted);
        if self.faults.any() {
            freeze_direct_event(&mut self.state.diagnostics);
        }
        publish_stopped_output(&mut self.state.diagnostics);
        self.state.driver.reset();
        self.state.target_ramp.reset();
        self.state.command_was_enabled = false;
        match safety_loss {
            Some(reason) => self.note_safety_loss(reason),
            None => {},
        }
    }
}

impl ControlState {
    fn report_hall(&mut self, valid: bool)
        requires
            old(self).wf(),
        ensures
            final(self).wf(),
            *final(self) == old(self).hall_reported(valid),
    {
        self.diagnostics.hall_valid = valid;
    }

    fn report_missing_sample(&mut self)
        requires
            old(self).wf(),
        ensures
            final(self).wf(),
            *final(self) == old(self).reporting(
                ControlDiagnostics { current_valid: false, ..old(self).diagnostics },
            ),
    {
        self.diagnostics.current_valid = false;
    }

    fn report_trip(&mut self)
        requires
            old(self).wf(),
        ensures
            final(self).wf(),
            *final(self) == old(self).reporting(
                ControlDiagnostics {
                    phase_current_trips: arith::wrap_u32(
                        old(self).diagnostics.phase_current_trips + 1,
                    ) as u32,
                    ..old(self).diagnostics
                },
            ),
    {
        self.diagnostics.phase_current_trips = self.diagnostics.phase_current_trips.wrapping_add(1);
    }
}

impl ControlDiagnostics {
    fn note_loss(&mut self, reason: SafetyLossReason)
        ensures
            *final(self) == old(self).lost(reason),
    {
        self.last_safety_loss_reason = reason.code();
        self.safety_events = self.safety_events.wrapping_add(1);
    }
}

fn freeze_direct_event(diagnostics: &mut ControlDiagnostics)
    ensures
        *final(diagnostics) == old(diagnostics).frozen(true),
{
    diagnostics.fault_direct_event = diagnostics.maximum_direct_event;
    diagnostics.fault_direct_event_valid = true;
}

fn publish_stopped_output(diagnostics: &mut ControlDiagnostics)
    ensures
        *final(diagnostics) == old(diagnostics).stopped(),
{
    diagnostics.output_active = false;
    diagnostics.voltage_limited = false;
    diagnostics.target_q_counts = 0;
    diagnostics.phase_current_limit_counts = 0;
    diagnostics.measured_d_counts = 0;
    diagnostics.measured_q_counts = 0;
    diagnostics.applied_d_ticks = 0;
    diagnostics.applied_q_ticks = 0;
    diagnostics.pwm_span_ticks = 0;
}

/// Raises a maximum; says whether it did.
fn update_max(target: &mut u32, value: u32) -> (r: bool)
    ensures
        r == (value > *old(target)),
        *final(target) == arith::max(*old(target) as int, value as int),
{
    if value > *target {
        *target = value;
        true
    } else {
        false
    }
}

impl ControlRuntime {
    /// A new cycle: it is counted and recorded. Returns whether a command of
    /// the present safety epoch is enabled and whether it has a lease.
    fn enter_cycle(&mut self) -> (r: (bool, bool))
        ensures
            *final(self) == old(self).entered(),
            r.0 == old(self).entered().commanded(),
            r.1 == old(self).entered().leased(),
    {
        let cycle: u32 = self.mailbox.control_cycle.wrapping_add(1);
        self.mailbox.control_cycle = cycle;
        record_control_cycle(&mut self.forensics, cycle);
        let commanded = self.mailbox.enabled && self.mailbox.safety_epoch
            == self.state.diagnostics.safety_events;
        (commanded, commanded && lease_is_active(cycle, self.mailbox.deadline))
    }

    fn miss_sample(&mut self, driven: bool)
        requires
            old(self).wf(),
            driven == old(self).is_driven(),
        ensures
            final(self).wf(),
            *final(self) == old(self).sample_missed(),
    {
        self.state.report_missing_sample();
        if driven && !self.faults.any() {
            latch_control_timing_fault(&mut self.faults);
        }
        self.stop_control(
            if driven {
                Some(SafetyLossReason::CurrentSample)
            } else {
                None
            },
        );
    }

    fn take_sample(&mut self, sample: PhaseCurrentSample, driven: bool)
        requires
            old(self).wf(),
            driven == old(self).is_driven(),
        ensures
            final(self).wf(),
            *final(self) == old(self).sample_taken(sample),
    {
        let samples: u32 = self.state.diagnostics.injected_samples.wrapping_add(1);
        self.state.diagnostics.injected_samples = samples;
        self.state.diagnostics.current_valid = true;
        self.mark(checkpoint::CURRENT_SAMPLED);
        if driven {
            let peak: u32 = sample.peak_magnitude() as u32;
            let _ = update_max(&mut self.state.diagnostics.maximum_phase_current_abs, peak);
        }
    }

    fn trip(&mut self)
        requires
            old(self).wf(),
        ensures
            final(self).wf(),
            *final(self) == old(self).tripped(),
    {
        self.state.report_trip();
        self.stop_control(Some(SafetyLossReason::PhaseOvercurrent));
    }

    fn follow_offsets(&mut self, sample: PhaseCurrentSample)
        requires
            old(self).wf(),
        ensures
            final(self).wf(),
            *final(self) == old(self).with_state(old(self).state.offsets_followed(sample)),
    {
        self.state.offset_tracker.observe_undriven(sample.raw_a, sample.raw_b);
        let (phase_a, phase_b) = self.state.offset_tracker.offsets();
        self.state.offsets = CurrentOffsets { phase_a, phase_b };
    }

    fn miss_edge(&mut self)
        requires
            old(self).wf(),
        ensures
            final(self).wf(),
            *final(self) == old(self).edge_missed(),
    {
        latch_hall_capture_fault(&mut self.faults);
        self.lose_hall(Some(SafetyLossReason::HallCaptureSequence));
    }

    fn refuse_edge(&mut self)
        requires
            old(self).wf(),
        ensures
            final(self).wf(),
            *final(self) == old(self).edge_refused(),
    {
        self.lose_hall(Some(SafetyLossReason::HallTransition));
    }

    fn lose_hall(&mut self, loss: Option<SafetyLossReason>)
        requires
            old(self).wf(),
        ensures
            final(self).wf(),
            *final(self) == old(self).hall_lost(loss),
    {
        reveal(ControlRuntime::hall_lost);
        self.state.report_hall(false);
        self.stop_control(loss);
    }

    /// Takes a new Hall edge; says whether the cycle goes on.
    fn see_edge(&mut self, sequence: u32, raw: u8, interval_us: u32) -> (r: bool)
        requires
            old(self).wf(),
        ensures
            final(self).wf(),
            (*final(self), r) == old(self).edge_seen(sequence, raw, interval_us),
    {
        let last: u32 = self.state.hardware_hall_sequence;
        if sequence == last {
            return true;
        }
        if last != 0 && sequence.wrapping_sub(last) != 1 {
            self.miss_edge();
            return false;
        }
        if !self.state.take_edge(sequence, raw, interval_us) {
            self.refuse_edge();
            return false;
        }
        true
    }

    /// Starts a cycle with the completed current readings, if both conversions
    /// are complete, and the captured Hall edge: sequence number, raw state
    /// and interval in microseconds. Returns the cycle's values if it goes on.
    pub fn sense(
        &mut self,
        readings: Option<(u16, u16)>,
        motor_outputs_disabled: bool,
        edge: (u32, u8, u32),
    ) -> (r: Option<CycleContext>)
        requires
            old(self).wf(),
        ensures
            final(self).wf(),
            (*final(self), r) == old(self).sensed(readings, motor_outputs_disabled, edge),
    {
        let output_was_active = self.state.diagnostics.output_active;
        let (command_enabled, lease_active) = self.enter_cycle();
        let driven = lease_active || output_was_active;
        let current = match read_phase_currents(readings, self.state.offsets) {
            Ok(sample) => sample,
            Err(_) => {
                self.miss_sample(driven);
                return None;
            },
        };
        self.take_sample(current, driven);
        if current.exceeds_limit(config::PHASE_CURRENT_TRIP_COUNTS) && driven {
            self.trip();
            return None;
        }
        if !lease_active && motor_outputs_disabled {
            self.follow_offsets(current);
        }
        if !self.see_edge(edge.0, edge.1, edge.2) {
            return None;
        }
        let command_started = command_enabled && !self.state.command_was_enabled;
        proof {
            let followed = if !lease_active && motor_outputs_disabled {
                old(self).entered().sample_taken(current).state.offsets_followed(current)
            } else {
                old(self).entered().sample_taken(current).state
            };
            followed.lemma_edge_keeps_the_command(edge.0, edge.1, edge.2);
        }
        Some(
            CycleContext {
                control_cycle: self.mailbox.control_cycle,
                command_enabled,
                command_started,
                lease_active,
                output_was_active,
                stationary_start: command_started
                    && self.state.driver.phase.hall.is_stationary(),
                current,
            },
        )
    }

    /// For a start from rest: the live Hall state has to be the known one. If
    /// it is, the Hall interval is to be restarted.
    pub fn confirm_stationary(&mut self, live_hall: u8) -> (r: bool)
        requires
            old(self).wf(),
        ensures
            final(self).wf(),
            r == (live_hall == old(self).state.driver.phase.hall.raw),
            *final(self) == (if r {
                *old(self)
            } else {
                old(self).mismatched()
            }),
    {
        if live_hall != self.state.driver.phase.hall.raw_state() {
            self.lose_hall(Some(SafetyLossReason::HallStationaryMismatch));
            return false;
        }
        true
    }

    /// For a start from rest, after the Hall interval was restarted: the live
    /// Hall state has to have stayed the same. If it has, the next captured
    /// interval counts from the start of the run.
    pub fn confirm_restart(&mut self, live_before: u8, live_after: u8) -> (r: bool)
        requires
            old(self).wf(),
        ensures
            final(self).wf(),
            r == (live_before == live_after),
            *final(self) == (if r {
                old(self).with_state(
                    old(self).state.with_hall(
                        HallSensor {
                            next_interval_since_run_start: true,
                            ..old(self).state.driver.phase.hall
                        },
                    ),
                )
            } else {
                old(self).mismatched()
            }),
    {
        if live_after != live_before {
            self.lose_hall(Some(SafetyLossReason::HallStationaryMismatch));
            return false;
        }
        self.state.driver.phase.hall.discard_next_interval();
        true
    }
}

impl ControlState {
    /// An edge changes neither the safety epoch nor the known command.
    proof fn lemma_edge_keeps_the_command(self, sequence: u32, raw: u8, interval_us: u32)
        ensures
            self.edge_taken(sequence, raw, interval_us).diagnostics.safety_events
                == self.diagnostics.safety_events,
            self.edge_taken(sequence, raw, interval_us).command_was_enabled
                == self.command_was_enabled,
    {
        reveal(ControlState::edge_taken);
    }

    /// Hands an edge to the Hall sensor; says whether it was accepted.
    fn take_edge(&mut self, sequence: u32, raw: u8, interval_us: u32) -> (r: bool)
        requires
            old(self).wf(),
        ensures
            final(self).wf(),
            r == old(self).driver.phase.hall.edge_outcome(raw, interval_us) is Ok,
            *final(self) == old(self).edge_taken(sequence, raw, interval_us),
    {
        reveal(ControlState::edge_taken);
        self.hardware_hall_sequence = sequence;
        let outcome = self.driver.phase.hall.update_edge(raw, interval_us);
        if outcome.is_err() {
            return false;
        }
        self.hall_recovery_cycles = 0;
        let direction: i32 = self.driver.phase.hall.physical_direction() as i32;
        let interval: u32 = self.driver.phase.hall.sector_interval_us();
        let electrical_rpm: i32 = self.driver.phase.hall.electrical_rpm();
        self.diagnostics.hall_sequence = sequence;
        self.diagnostics.hall_interval_us = interval;
        self.diagnostics.hall_progress = arith::wrapping_add_i32(
            self.diagnostics.hall_progress,
            direction,
        );
        self.diagnostics.electrical_rpm = electrical_rpm;
        true
    }
}

impl ControlState {
    /// Watches a live Hall state; says whether the sensor was placed there.
    fn recover_stationary_hall(&mut self, raw: u8) -> (r: bool)
        requires
            old(self).wf(),
        ensures
            final(self).wf(),
            r == old(self).recovers(raw),
            *final(self) == old(self).recovery_tried(raw),
    {
        if !self.driver.phase.hall.geometry.raw_is_valid(raw) {
            self.hall_recovery_raw = 0;
            self.hall_recovery_cycles = 0;
            return false;
        }
        if raw != self.hall_recovery_raw {
            self.hall_recovery_raw = raw;
            self.hall_recovery_cycles = 1;
            return false;
        }
        let cycles: u8 = self.hall_recovery_cycles.saturating_add(1);
        self.hall_recovery_cycles = cycles;
        if cycles < HALL_RECOVERY_STABLE_CYCLES {
            return false;
        }
        let _ = self.driver.phase.hall.seed(raw);
        self.hall_recovery_cycles = 0;
        self.diagnostics.hall_interval_us = 0;
        self.diagnostics.electrical_rpm = 0;
        true
    }

    fn ask_phase(&mut self, edge_age_us: u32) -> (r: Option<PhaseEstimate<Turns>>)
        requires
            old(self).wf(),
        ensures
            final(self).wf(),
            r == old(self).answer(edge_age_us),
            *final(self) == old(self).asked(edge_age_us),
    {
        self.driver.estimate_for_control(edge_age_us, CONTROL_PERIOD_NS)
    }
}

impl ControlRuntime {
    fn note_command(&mut self, context: CycleContext)
        requires
            old(self).wf(),
        ensures
            final(self).wf(),
            *final(self) == old(self).command_noted(context),
    {
        reveal(ControlRuntime::command_noted);
        if context.command_started {
            self.state.driver.phase.request_observer_seed();
        }
        self.state.command_was_enabled = context.command_enabled;
    }

    fn find_phase(&mut self, edge_age_us: u32, live_hall: u8, motor_outputs_disabled: bool) -> (r:
        Option<PhaseEstimate<Turns>>)
        requires
            old(self).wf(),
        ensures
            final(self).wf(),
            (final(self).state, r) == old(self).phase_asked(
                edge_age_us,
                live_hall,
                motor_outputs_disabled,
            ),
            *final(self) == old(self).with_state(final(self).state),
    {
        reveal(ControlRuntime::phase_asked);
        let estimate = self.state.ask_phase(edge_age_us);
        if stationary_phase_recovery_allowed(estimate.is_none(), motor_outputs_disabled) {
            if self.state.recover_stationary_hall(live_hall) {
                return self.state.ask_phase(0);
            }
            return None;
        }
        estimate
    }

    /// Continues a cycle with the age of the last Hall edge and the live Hall
    /// state: the rotor's phase, and whether the outputs may be driven.
    pub fn estimate(
        &mut self,
        context: CycleContext,
        edge_age_us: u32,
        live_hall: u8,
        motor_outputs_disabled: bool,
    ) -> (r: Option<PhaseEstimate<Turns>>)
        requires
            old(self).wf(),
        ensures
            final(self).wf(),
            (*final(self), r) == old(self).estimated(
                context,
                edge_age_us,
                live_hall,
                motor_outputs_disabled,
            ),
    {
        self.note_command(context);
        let age: u32 = edge_age_us.saturating_add(EDGE_AGE_LATENCY_US);
        let driven = context.lease_active || context.output_was_active;
        let estimate = match self.find_phase(age, live_hall, motor_outputs_disabled) {
            Some(estimate) => estimate,
            None => {
                self.lose_phase(driven);
                return None;
            },
        };
        self.know_phase();
        match self.refuse_drive(context) {
            Some(loss) => {
                self.stop_control(loss);
                None
            },
            None => Some(estimate),
        }
    }

    fn lose_phase(&mut self, driven: bool)
        requires
            old(self).wf(),
        ensures
            final(self).wf(),
            *final(self) == old(self).phase_lost(driven),
    {
        self.lose_hall(
            if driven {
                Some(SafetyLossReason::PhaseEstimate)
            } else {
                None
            },
        );
    }

    fn know_phase(&mut self)
        requires
            old(self).wf(),
        ensures
            final(self).wf(),
            *final(self) == old(self).phase_known(),
    {
        reveal(ControlRuntime::phase_known);
        self.state.hall_recovery_cycles = 0;
        self.state.diagnostics.hall_valid = true;
        self.mark(checkpoint::PHASE_ESTIMATED);
    }

    fn refuse_drive(&self, context: CycleContext) -> (r: Option<Option<SafetyLossReason>>)
        ensures
            r == self.drive_refusal(context),
    {
        if self.faults.any() {
            return Some(
                if context.output_was_active {
                    Some(SafetyLossReason::HardwareFault)
                } else {
                    None
                },
            );
        }
        if !context.lease_active {
            return Some(
                if context.command_enabled {
                    Some(SafetyLossReason::OutputLease)
                } else {
                    None
                },
            );
        }
        None
    }
}

/// A share of one as a byte.
fn fixed_unit_to_u8(value: Fixed) -> (r: u8)
    ensures
        r == unit_byte(value),
{
    let bits: i32 = value.to_bits();
    let share: u32 = if bits < 0 {
        0
    } else if bits > 0x1_0000 {
        0x1_0000
    } else {
        bits as u32
    };
    ((share * 255 + 0x8000) / 0x1_0000) as u8
}

fn fixed_to_scaled_i32(value: Fixed, scale: i32) -> (r: i32)
    requires
        0 < scale <= 1_000,
    ensures
        r == scaled_units(value, scale as int),
{
    let bits: i64 = value.to_bits() as i64;
    let product: i64 = arith::mul_i32_wide(value.to_bits(), scale);
    let quotient: i64 = product / 0x1_0000;
    let floored: i64 = if quotient * 0x1_0000 > product {
        quotient - 1
    } else {
        quotient
    };
    arith::sat_i64_to_i32(floored)
}

fn fixed_to_i16(value: Fixed) -> (r: i16)
    ensures
        r == value.whole(),
{
    value.integer() as i16
}

fn pwm_span(duty: PwmDuty) -> (r: u16)
    ensures
        r == span_of(duty),
{
    let ab_low: u16 = if duty.a <= duty.b {
        duty.a
    } else {
        duty.b
    };
    let ab_high: u16 = if duty.a >= duty.b {
        duty.a
    } else {
        duty.b
    };
    let minimum: u16 = if ab_low <= duty.c {
        ab_low
    } else {
        duty.c
    };
    let maximum: u16 = if ab_high >= duty.c {
        ab_high
    } else {
        duty.c
    };
    maximum - minimum
}

/// Angle that the rotor turns in one control period.
pub fn actuation_advance_from_erpm(electrical_rpm: i32) -> (r: Fixed)
    requires
        i32::MIN <= electrical_rpm * 1_757 <= i32::MAX,
    ensures
        r == numeric::fixed(advance_of(electrical_rpm as int)),
{
    Fixed::from_bits(arith::floor_div_i32(electrical_rpm * 1_757, 0x1000))
}

fn publish_observer_diagnostics(
    published: &mut ControlDiagnostics,
    diagnostics: ObserverDiagnostics,
)
    ensures
        *final(published) == old(published).observed(diagnostics),
{
    published.observer_configured = diagnostics.configured;
    published.observer_ready = diagnostics.ready;
    published.observer_active = diagnostics.active;
    published.observer_blend = fixed_unit_to_u8(diagnostics.blend);
    published.observer_confidence = fixed_unit_to_u8(diagnostics.confidence);
    published.observer_validity_progress = diagnostics.validity_progress;
    published.observer_electrical_rpm = arith::sat_i32_to_i16(diagnostics.electrical_rpm);
    published.observer_hall_error_q16 = arith::floor_div_i32(
        diagnostics.hall_error_q32,
        0x1_0000,
    ) as i16;
    let flux_centi_mwb: i32 = fixed_to_scaled_i32(diagnostics.flux_magnitude_mwb, 100);
    published.observer_flux_centi_mwb = if flux_centi_mwb < 0 {
        0
    } else {
        arith::sat_u32_to_u16(flux_centi_mwb as u32)
    };
    published.observer_bemf_q_mv = arith::sat_i32_to_i16(
        fixed_to_scaled_i32(diagnostics.bemf_q_v, 1_000),
    );
    published.observer_phase_error_q16 = (diagnostics.phase_error_filtered_q32 / 0x1_0000) as u16;
}

/// Raises a timing maximum by a duration in timer cycles.
fn note_timing_maximum(maximum: &mut u16, elapsed_cycles: u32)
    ensures
        *final(maximum) == arith::max(*old(maximum) as int, arith::sat_u16(elapsed_cycles as int)),
{
    let elapsed: u16 = arith::sat_u32_to_u16(elapsed_cycles);
    if elapsed > *maximum {
        *maximum = elapsed;
    }
}

impl ControlRuntime {
    fn publish_observer(&mut self, context: CycleContext)
        requires
            old(self).wf(),
        ensures
            final(self).wf(),
            *final(self) == old(self).observer_published(context),
    {
        reveal(ControlRuntime::observer_published);
        if context.control_cycle % 256 == 0 && !context.command_started {
            let diagnostics = self.state.driver.phase.observer_diagnostics();
            publish_observer_diagnostics(&mut self.state.diagnostics, diagnostics);
        }
    }

    /// Sets the driver up for a step and advances the ramp; returns the ramp's
    /// target.
    fn prepare_step(
        &mut self,
        context: CycleContext,
        estimate: PhaseEstimate<Turns>,
        pre_driver_cycles: u32,
    ) -> (r: i32)
        requires
            old(self).wf(),
        ensures
            final(self).wf(),
            r == old(self).state.target_ramp.granted(old(self).mailbox.target_q_counts as int),
            *final(self) == old(self).step_prepared(context, estimate, pre_driver_cycles),
    {
        reveal(ControlRuntime::step_prepared);
        reveal(ControlRuntime::observer_published);
        self.publish_observer(context);
        self.state.make_ready(
            &self.mailbox,
            bound_erpm(estimate.electrical_rpm),
            pre_driver_cycles,
        )
    }

    /// Drives the cycle: one current-control step on the estimate, with the
    /// time spent so far in timer cycles. Returns the compares to write.
    pub fn drive(
        &mut self,
        context: CycleContext,
        estimate: PhaseEstimate<Turns>,
        edge_age_us: u32,
        pre_driver_cycles: u32,
    ) -> (r: Option<PwmDuty>)
        requires
            old(self).wf(),
        ensures
            final(self).wf(),
            (*final(self), r) == old(self).driven(
                context,
                estimate,
                edge_age_us,
                pre_driver_cycles,
            ),
    {
        let requested_q: i32 = self.prepare_step(context, estimate, pre_driver_cycles);
        let bounded = PhaseEstimate {
            angle: estimate.angle,
            electrical_rpm: bound_erpm(estimate.electrical_rpm),
            trustworthy: estimate.trustworthy,
        };
        let outcome = self.state.driver.step_current_control(
            Fixed::from_integer(context.current.phase_a as i32),
            Fixed::from_integer(context.current.phase_b as i32),
            bounded,
            Dq { d: Fixed::zero(), q: Fixed::from_integer(requested_q) },
            config::PWM_NEUTRAL,
            CONTROL_PERIOD_NS,
        );
        match outcome {
            Ok(output) => {
                self.report_step(output, estimate.angle, edge_age_us);
                Some(output.duties)
            },
            Err(_) => {
                proof {
                    reveal(ControlRuntime::step_tripped);
                }
                self.trip();
                None
            },
        }
    }

    fn report_step(&mut self, output: FocOutput, angle: Turns, edge_age_us: u32)
        requires
            old(self).wf(),
        ensures
            final(self).wf(),
            *final(self) == old(self).step_reported(output, angle, edge_age_us),
    {
        reveal(ControlRuntime::step_reported);
        let event = observed_peak(
            &self.state.driver,
            output,
            angle,
            edge_age_us.saturating_add(EDGE_AGE_LATENCY_US),
        );
        publish_step(&mut self.state.diagnostics, output, event);
        self.mark(checkpoint::DRIVER_COMPLETE);
    }
}

impl ControlState {
    fn prepare_driver(&mut self, dc_limit: u16, electrical_rpm: i32, volts_per_tick_bits: i32)
        requires
            old(self).wf(),
            -CONTROL_ERPM_LIMIT <= electrical_rpm <= CONTROL_ERPM_LIMIT,
        ensures
            final(self).wf(),
            *final(self) == (ControlState {
                driver: old(self).prepared(dc_limit, electrical_rpm as int, volts_per_tick_bits),
                ..*old(self)
            }),
    {
        self.driver.set_bus_limits(
            Some(Fixed::from_integer(dc_limit as i32)),
            Some(Fixed::from_integer(config::RIDE_DC_BUS_REGEN_LIMIT_COUNTS as i32)),
        );
        self.driver.set_actuation_advance(actuation_advance_from_erpm(electrical_rpm));
        self.driver.set_volts_per_pwm_tick(Fixed::from_bits(volts_per_tick_bits));
    }

    /// Makes ready for a driver step; returns the ramp's target.
    fn make_ready(
        &mut self,
        mailbox: &CommandMailbox,
        electrical_rpm: i32,
        pre_driver_cycles: u32,
    ) -> (r: i32)
        requires
            old(self).wf(),
            -CONTROL_ERPM_LIMIT <= electrical_rpm <= CONTROL_ERPM_LIMIT,
        ensures
            final(self).wf(),
            r == old(self).target_ramp.granted(mailbox.target_q_counts as int),
            *final(self) == old(self).readied(*mailbox, electrical_rpm as int, pre_driver_cycles),
    {
        reveal(ControlState::readied);
        self.prepare_driver(
            mailbox.dc_current_limit_counts,
            electrical_rpm,
            mailbox.observer_volts_per_pwm_tick_bits,
        );
        let requested_q: i32 = self.target_ramp.next(mailbox.target_q_counts);
        note_timing_maximum(
            &mut self.diagnostics.timing_maxima.pre_driver_cycles,
            pre_driver_cycles,
        );
        requested_q
    }
}

fn bound_erpm(electrical_rpm: i32) -> (r: i32)
    ensures
        r == bounded_erpm(electrical_rpm as int),
{
    if electrical_rpm < -CONTROL_ERPM_LIMIT {
        -CONTROL_ERPM_LIMIT
    } else if electrical_rpm > CONTROL_ERPM_LIMIT {
        CONTROL_ERPM_LIMIT
    } else {
        electrical_rpm
    }
}

/// Difference of two angles in 1/256 turns.
fn angle_error_q8(angle: Turns, reference: Turns) -> (r: i8)
    ensures
        r == arith::wrap_i16(angle as int / 0x1_0000 - reference as int / 0x1_0000) / 0x100,
{
    let difference: i32 = (angle / 0x1_0000) as i32 - (reference / 0x1_0000) as i32;
    let wrapped: i32 = if difference >= 0x8000 {
        difference - 0x1_0000
    } else if difference < -0x8000 {
        difference + 0x1_0000
    } else {
        difference
    };
    arith::floor_div_i32(wrapped, 0x100) as i8
}

fn observed_peak(driver: &RideFocDriver, output: FocOutput, angle: Turns, edge_age_us: u32) -> (r:
    DirectCurrentPeakEvent)
    ensures
        r == peak_event(*driver, output, angle, edge_age_us as int),
{
    let hall = driver.phase.hall;
    DirectCurrentPeakEvent {
        generation: 0,
        measured_d_counts: fixed_to_i16(output.measured_current.d),
        measured_q_counts: fixed_to_i16(output.measured_current.q),
        target_q_counts: fixed_to_i16(output.target.q),
        hall_raw: hall.raw_state(),
        hall_angle_direction: hall.angle_direction(),
        edge_age_us: arith::sat_u32_to_u16(edge_age_us),
        hall_interval_us: arith::sat_u32_to_u16(hall.sector_interval_us()),
        angle_error_q8: angle_error_q8(hall.unlimited_angle(), angle),
        requested_d_ticks: fixed_to_i16(driver.controller.requested_voltage().d),
        requested_q_ticks: fixed_to_i16(driver.controller.requested_voltage().q),
        feedforward_d_ticks: fixed_to_i16(driver.controller.feedforward_voltage().d),
        feedforward_q_ticks: fixed_to_i16(driver.controller.feedforward_voltage().q),
        applied_d_ticks: fixed_to_i16(output.applied_voltage.d),
        applied_q_ticks: fixed_to_i16(output.applied_voltage.q),
        voltage_limited: output.voltage_limited,
        angle_rate_limited: angle != hall.unlimited_angle(),
    }
}

/// Replaces the captured event.
fn capture_direct_current_peak(diagnostics: &mut ControlDiagnostics, event: DirectCurrentPeakEvent)
    ensures
        *final(diagnostics) == (ControlDiagnostics {
            maximum_direct_event: DirectCurrentPeakEvent {
                generation: arith::max(
                    arith::wrap_u8(old(diagnostics).maximum_direct_event.generation + 1),
                    1,
                ) as u8,
                ..event
            },
            ..*old(diagnostics)
        }),
{
    let next: u8 = diagnostics.maximum_direct_event.generation.wrapping_add(1);
    diagnostics.maximum_direct_event = event;
    diagnostics.maximum_direct_event.generation = if next < 1 {
        1
    } else {
        next
    };
}

fn publish_step(
    diagnostics: &mut ControlDiagnostics,
    output: FocOutput,
    event: DirectCurrentPeakEvent,
)
    ensures
        *final(diagnostics) == old(diagnostics).stepped(output, event, span_of(output.duties)),
{
    let span: u16 = pwm_span(output.duties);
    diagnostics.target_q_counts = event.target_q_counts;
    diagnostics.phase_current_limit_counts = arith::sat_u32_to_u16(
        output.quadrature_limit.abs_ceil_u32(),
    );
    diagnostics.measured_d_counts = event.measured_d_counts;
    diagnostics.measured_q_counts = event.measured_q_counts;
    diagnostics.applied_d_ticks = event.applied_d_ticks;
    diagnostics.applied_q_ticks = event.applied_q_ticks;
    diagnostics.pwm_span_ticks = span;
    diagnostics.voltage_limited = output.voltage_limited;
    let direct: u32 = arith::unsigned_abs_i16(event.measured_d_counts) as u32;
    let direct_is_max = update_max(&mut diagnostics.maximum_direct_current_abs, direct);
    if direct_is_max || diagnostics.direct_event_pending {
        capture_direct_current_peak(diagnostics, event);
    }
    diagnostics.direct_event_pending = false;
    let error: i32 = event.target_q_counts as i32 - event.measured_q_counts as i32;
    let _ = update_max(
        &mut diagnostics.maximum_quadrature_error_abs,
        arith::unsigned_abs_i32(error),
    );
    let _ = update_max(&mut diagnostics.maximum_pwm_span_ticks, span as u32);
}

impl ControlRuntime {
    /// Notes the duration of the driver step in timer cycles.
    pub fn note_driver_step(&mut self, elapsed_cycles: u32)
        requires
            old(self).wf(),
        ensures
            final(self).wf(),
            *final(self) == old(self).driver_timed(elapsed_cycles),
    {
        note_timing_maximum(
            &mut self.state.diagnostics.timing_maxima.driver_step_cycles,
            elapsed_cycles,
        );
    }

    /// Ends a driven cycle: the compares were written and the outputs enabled,
    /// or not.
    pub fn finish(&mut self, accepted: bool)
        requires
            old(self).wf(),
        ensures
            final(self).wf(),
            *final(self) == old(self).finished(accepted),
    {
        if !accepted {
            self.stop_control(Some(SafetyLossReason::PwmOutput));
            return;
        }
        self.mark(checkpoint::PWM_WRITTEN);
        self.state.diagnostics.output_active = true;
    }

    fn latch_overrun(&mut self)
        requires
            old(self).wf(),
        ensures
            final(self).wf(),
            *final(self) == old(self).overrun(),
    {
        reveal(ControlRuntime::overrun);
        latch_control_timing_fault(&mut self.faults);
        freeze_direct_event(&mut self.state.diagnostics);
        publish_stopped_output(&mut self.state.diagnostics);
        self.note_safety_loss(SafetyLossReason::ControlTiming);
    }

    /// Accounts for the duration of a whole cycle in timer cycles. A cycle over
    /// budget latches the timing fault.
    pub fn note_cycle(&mut self, elapsed: u32)
        requires
            old(self).wf(),
        ensures
            final(self).wf(),
            *final(self) == old(self).timed(elapsed),
    {
        count_cycle(&mut self.state.diagnostics, elapsed);
        if elapsed > CONTROL_BUDGET_CYCLES && !self.faults.control_timing {
            self.latch_overrun();
        }
        let maximum: u32 = self.state.diagnostics.control_max_cycles;
        record_control_timing(&mut self.forensics, elapsed, maximum);
    }

    /// Starts a fresh control-peak capture after the hardware fault latch has
    /// been acknowledged. The first active control sample is captured even
    /// when d is exactly zero, then normal maximum-|d| ownership resumes for
    /// the episode.
    pub fn begin_fault_diagnostic_episode(&mut self)
        requires
            old(self).wf(),
        ensures
            final(self).wf(),
            *final(self) == old(self).episode_begun(),
    {
        let generation: u8 = self.state.diagnostics.maximum_direct_event.generation;
        self.state.diagnostics.maximum_direct_current_abs = 0;
        self.state.diagnostics.maximum_direct_event = DirectCurrentPeakEvent::empty(generation);
        self.state.diagnostics.fault_direct_event_valid = false;
        self.state.diagnostics.direct_event_pending = true;
    }

    /// Acknowledges the latched faults, which the break input can refuse. Both
    /// the recorded output failure and the control peak begin a new episode.
    pub fn acknowledge_faults(&mut self, break_active: bool) -> (r: bool)
        requires
            old(self).wf(),
        ensures
            final(self).wf(),
            r == !break_active,
            old(self).acknowledged(r, *final(self)),
    {
        if !acknowledge_faults(&mut self.faults, break_active) {
            return false;
        }
        clear_current_pwm_failure(&mut self.forensics);
        self.begin_fault_diagnostic_episode();
        true
    }

    /// Report of the control interrupt.
    pub fn snapshot(&self) -> (r: Snapshot)
        ensures
            r == Snapshot::of(self.state.diagnostics, self.faults, self.mailbox.control_cycle),
    {
        report(&self.state.diagnostics, &self.faults, self.mailbox.control_cycle)
    }
}

fn report(d: &ControlDiagnostics, faults: &FaultLatch, control_cycles: u32) -> (r: Snapshot)
    ensures
        r == Snapshot::of(*d, *faults, control_cycles),
{
    Snapshot {
        hall_valid: d.hall_valid,
        current_valid: d.current_valid,
        output_active: d.output_active,
        voltage_limited: d.voltage_limited,
        target_q_counts: d.target_q_counts,
        phase_current_limit_counts: d.phase_current_limit_counts,
        measured_d_counts: d.measured_d_counts,
        measured_q_counts: d.measured_q_counts,
        applied_d_ticks: d.applied_d_ticks,
        applied_q_ticks: d.applied_q_ticks,
        pwm_span_ticks: d.pwm_span_ticks,
        maximum_phase_current_abs: arith::sat_u32_to_u16(d.maximum_phase_current_abs),
        maximum_direct_current_abs: arith::sat_u32_to_u16(d.maximum_direct_current_abs),
        maximum_quadrature_error_abs: arith::sat_u32_to_u16(d.maximum_quadrature_error_abs),
        maximum_pwm_span_ticks: arith::sat_u32_to_u16(d.maximum_pwm_span_ticks),
        maximum_direct_event: if d.fault_direct_event_valid {
            d.fault_direct_event
        } else {
            d.maximum_direct_event
        },
        safety_events: d.safety_events,
        last_safety_loss_reason: d.last_safety_loss_reason,
        phase_current_trips: d.phase_current_trips,
        hall_sequence: d.hall_sequence,
        hall_interval_us: d.hall_interval_us,
        hall_progress: d.hall_progress,
        electrical_rpm: d.electrical_rpm,
        observer_configured: d.observer_configured,
        observer_ready: d.observer_ready,
        observer_active: d.observer_active,
        observer_blend: d.observer_blend,
        observer_confidence: d.observer_confidence,
        observer_validity_progress: d.observer_validity_progress,
        observer_electrical_rpm: d.observer_electrical_rpm,
        observer_hall_error_q16: d.observer_hall_error_q16,
        observer_flux_centi_mwb: d.observer_flux_centi_mwb,
        observer_bemf_q_mv: d.observer_bemf_q_mv,
        observer_phase_error_q16: d.observer_phase_error_q16,
        maximum_pre_driver_cycles: d.timing_maxima.pre_driver_cycles,
        maximum_driver_step_cycles: d.timing_maxima.driver_step_cycles,
        fault_flags: fault_flags(faults),
        control_cycles,
        injected_samples: d.injected_samples,
        control_max_cycles: d.control_max_cycles,
        control_budget_warnings: d.control_budget_warnings,
        control_budget_overruns: d.control_budget_overruns,
    }
}

/// Report of a control interrupt that was never started.
impl Default for Snapshot {
    fn default() -> (r: Self)
        ensures
            r == Snapshot::of(
                ControlDiagnostics::initial(false, false),
                FaultLatch::rearmed(),
                0,
            ),
    {
        let faults = FaultLatch {
            hardware_break: false,
            pwm_range: false,
            hall_capture: false,
            control_timing: false,
        };
        report(&ControlDiagnostics::new(false, false), &faults, 0)
    }
}

fn count_cycle(diagnostics: &mut ControlDiagnostics, elapsed: u32)
    ensures
        *final(diagnostics) == old(diagnostics).cycle_counted(elapsed),
{
    reveal(ControlDiagnostics::cycle_counted);
    let _ = update_max(&mut diagnostics.control_max_cycles, elapsed);
    if elapsed > CONTROL_BUDGET_WARNING_CYCLES {
        diagnostics.control_budget_warnings = diagnostics.control_budget_warnings.wrapping_add(1);
    }
    if elapsed > CONTROL_BUDGET_CYCLES {
        diagnostics.control_budget_overruns = diagnostics.control_budget_overruns.wrapping_add(1);
    }
}

/// A controller at rest with the gains and limits of the board.
pub open spec fn is_ride_controller(controller: RideFocController) -> bool {
    &&& controller == controller.cleared()
    &&& controller.direct == controller.quadrature
    &&& controller.direct.proportional_gain == numeric::fixed(0x8000)
    &&& controller.direct.integral_gain_per_cycle == numeric::fixed(2_420)
    &&& controller.vector_limit_ticks == numeric::fixed(83_427_328)
    &&& controller.phase_limit_ticks == config::FOC_PHASE_LIMIT_TICKS
    &&& controller.actuation_advance == numeric::fixed(0)
}

/// Current controller with the gains and limits of the board.
pub fn ride_foc_controller() -> (r: RideFocController)
    ensures
        is_ride_controller(r),
{
    let pi = PIController::new(
        config::current_pi_proportional_gain(),
        config::current_pi_integral_gain_per_cycle(),
    );
    FocController::new(
        pi,
        pi,
        config::foc_vector_limit_ticks(),
        config::FOC_PHASE_LIMIT_TICKS,
    )
}

fn ride_current_limits() -> (r: CurrentLimits)
    ensures
        r.max_current == numeric::fixed(config::RIDE_PHASE_CURRENT_LIMIT_COUNTS * 0x1_0000),
        r.overcurrent_threshold == numeric::fixed(config::PHASE_CURRENT_TRIP_COUNTS * 0x1_0000),
        r.bus_in_max == Some(
            numeric::fixed(config::RIDE_DC_BUS_CURRENT_LIMIT_COUNTS * 0x1_0000),
        ),
        r.bus_regen_max == Some(
            numeric::fixed(config::RIDE_DC_BUS_REGEN_LIMIT_COUNTS * 0x1_0000),
        ),
{
    CurrentLimits::new(
        Fixed::from_integer(config::RIDE_PHASE_CURRENT_LIMIT_COUNTS as i32),
        Fixed::from_integer(config::PHASE_CURRENT_TRIP_COUNTS as i32),
        Some(Fixed::from_integer(config::RIDE_DC_BUS_CURRENT_LIMIT_COUNTS as i32)),
        Some(Fixed::from_integer(config::RIDE_DC_BUS_REGEN_LIMIT_COUNTS as i32)),
    )
}

/// Gains, limits and scales of the ride.
pub open spec fn is_tuned_for_the_ride(driver: RideFocDriver) -> bool {
    &&& is_ride_controller(driver.controller)
    &&& driver.current_limits.max_current == numeric::fixed(
        config::RIDE_PHASE_CURRENT_LIMIT_COUNTS * 0x1_0000,
    )
    &&& driver.current_limits.overcurrent_threshold == numeric::fixed(
        config::PHASE_CURRENT_TRIP_COUNTS * 0x1_0000,
    )
    &&& driver.current_limits.bus_in_max == Some(
        numeric::fixed(config::RIDE_DC_BUS_CURRENT_LIMIT_COUNTS * 0x1_0000),
    )
    &&& driver.current_limits.bus_regen_max == Some(
        numeric::fixed(config::RIDE_DC_BUS_REGEN_LIMIT_COUNTS * 0x1_0000),
    )
    &&& driver.pwm_period_ticks == config::PWM_ARR
    &&& driver.modulation_filter_shift == BUS_MODULATION_FILTER_SHIFT
    &&& driver.volts_per_pwm_tick == numeric::fixed(0)
    &&& driver.amps_per_current_count == numeric::fixed(6_553)
}

/// Phase of the ride at its start: a Hall sensor at the live state, or at none if
/// that is not a legal one, and a fresh observer, which takes over at speed.
pub open spec fn initial_phase(
    geometry: &'static HallGeometry,
    live_hall: u8,
) -> PhaseManager<HallSensor> {
    PhaseManager {
        hall: match geometry.sector_of(live_hall) {
            Some(sector) => HallSensor::unseeded(geometry).seeded(live_hall, sector),
            None => HallSensor::unseeded(geometry),
        },
        observer: Some(
            BackEmfObserver::fresh(
                numeric::fixed(2_818),
                numeric::fixed(4_915),
                numeric::fixed(878_182),
                config::PWM_HZ,
            ),
        ),
        source: PhaseSource::HallToObserver {
            blend_low_erpm: config::OBSERVER_BLEND_LOW_ERPM,
            blend_high_erpm: config::OBSERVER_BLEND_HIGH_ERPM,
        },
        observer_seed_requested: false,
        last_observer_blend: numeric::fixed(0),
        last_observer_hall_error_q32: 0,
    }
}

/// Phase source of the ride: Hall at low speed, the observer at high speed.
fn ride_phase(geometry: &'static HallGeometry, live_hall: u8) -> (r: PhaseManager<HallSensor>)
    ensures
        r.ready(),
        r == initial_phase(geometry, live_hall),
{
    let mut hall = HallSensor::new(geometry);
    let _ = hall.seed(live_hall);
    let mut phase = PhaseManager::with_hall(hall);
    phase.set_observer(
        BackEmfObserver::new(
            config::motor_phase_resistance_ohms(),
            config::motor_phase_inductance_millihenries(),
            config::motor_flux_linkage_milliwebers(),
            config::PWM_HZ,
        ),
    );
    let _ = phase.set_source(
        PhaseSource::HallToObserver {
            blend_low_erpm: config::OBSERVER_BLEND_LOW_ERPM,
            blend_high_erpm: config::OBSERVER_BLEND_HIGH_ERPM,
        },
    );
    phase
}

fn ride_foc_driver(phase: PhaseManager<HallSensor>) -> (r: RideFocDriver)
    ensures
        r.phase == phase,
        r == r.cleared(),
        is_tuned_for_the_ride(r),
{
    FocDriver::new(
        ride_foc_controller(),
        phase,
        ride_current_limits(),
        config::PWM_ARR,
        BUS_MODULATION_FILTER_SHIFT,
    ).with_observer_scales(Fixed::zero(), config::phase_current_amps_per_adc_count())
}

/// Builds the control interrupt's state from the measured offsets and the live
/// Hall state. Nothing is commanded and no fault is latched.
pub fn start(
    geometry: &'static HallGeometry,
    offsets: CurrentOffsets,
    live_hall: u8,
    forensics: Forensics,
) -> (r: ControlRuntime)
    ensures
        r.wf(),
        r.mailbox == CommandMailbox::idle(),
        !r.faults.is_set(),
        r.forensics == forensics,
        is_tuned_for_the_ride(r.state.driver),
        r.state.driver == r.state.driver.cleared(),
        r.state.driver.phase == initial_phase(geometry, live_hall),
        r.state.target_ramp == r.state.target_ramp.cleared(),
        r.state.target_ramp.cycles_per_step == config::TARGET_RAMP_CYCLES_PER_STEP,
        r.state.target_ramp.counts_per_step == config::TARGET_RAMP_COUNTS_PER_STEP,
        r.state.offsets == offsets,
        r.state.offset_tracker.phase_a == offsets.phase_a * 0x1_0000,
        r.state.offset_tracker.phase_b == offsets.phase_b * 0x1_0000,
        r.state.hardware_hall_sequence == 0,
        r.state.hall_recovery_raw == 0,
        r.state.hall_recovery_cycles == 0,
        !r.state.command_was_enabled,
        r.state.diagnostics == ControlDiagnostics::initial(
            geometry.sector_of(live_hall) is Some,
            true,
        ),
{
    let phase = ride_phase(geometry, live_hall);
    let hall_valid = phase.hall.is_valid();
    let state = ControlState {
        driver: ride_foc_driver(phase),
        target_ramp: QuadratureTargetRamp::new(
            config::TARGET_RAMP_CYCLES_PER_STEP,
            config::TARGET_RAMP_COUNTS_PER_STEP,
        ),
        offsets,
        offset_tracker: CurrentOffsetTracker::new(offsets.phase_a, offsets.phase_b),
        hardware_hall_sequence: 0,
        hall_recovery_raw: 0,
        hall_recovery_cycles: 0,
        command_was_enabled: false,
        diagnostics: ControlDiagnostics::new(hall_valid, true),
    };
    ControlRuntime {
        state,
        mailbox: CommandMailbox::new(),
        faults: FaultLatch {
            hardware_break: false,
            pwm_range: false,
            hall_capture: false,
            control_timing: false,
        },
        forensics,
    }
}

/// A safety loss ends every authority granted before it: whatever the loss, no
/// command is enabled afterwards, and a command of an earlier epoch is not
/// taken up again.
pub proof fn law_safety_loss_revokes_authority(runtime: ControlRuntime, reason: SafetyLossReason)
    ensures
        !runtime.lost(reason).mailbox.enabled,
        !runtime.lost(reason).commanded(),
        !runtime.lost(reason).leased(),
        runtime.mailbox.safety_epoch == runtime.state.diagnostics.safety_events
            ==> runtime.lost(reason).mailbox.safety_epoch
            != runtime.lost(reason).state.diagnostics.safety_events,
{
}

/// A stopped cycle reports no output, clears the current controller and the
/// ramp, and latched faults stay latched.
pub proof fn law_stop_clears_the_drive(runtime: ControlRuntime, loss: Option<SafetyLossReason>)
    ensures
        !runtime.halted(loss).state.diagnostics.output_active,
        runtime.halted(loss).state.diagnostics.target_q_counts == 0,
        runtime.halted(loss).state.driver == runtime.state.driver.cleared(),
        runtime.halted(loss).state.target_ramp == runtime.state.target_ramp.cleared(),
        runtime.halted(loss).faults == runtime.faults,
        loss is Some ==> !runtime.halted(loss).mailbox.enabled,
        loss is None ==> runtime.halted(loss).mailbox == runtime.mailbox,
{
    reveal(ControlRuntime::halted);
}

/// A cycle reaches the driver only with an active lease and without a latched
/// fault.
pub proof fn law_only_a_leased_cycle_without_fault_is_driven(
    runtime: ControlRuntime,
    context: CycleContext,
    edge_age_us: u32,
    live_hall: u8,
    motor_outputs_disabled: bool,
)
    ensures
        runtime.estimated(context, edge_age_us, live_hall, motor_outputs_disabled).1 is Some
            ==> context.lease_active && !runtime.faults.is_set(),
{
    reveal(ControlRuntime::phase_known);
    reveal(ControlRuntime::command_noted);
}

/// A cycle over budget latches the timing fault: from then on no cycle reaches
/// the driver, and the overrun that latched it also ends the authority.
pub proof fn law_overrun_latches_the_output_off(
    runtime: ControlRuntime,
    elapsed: u32,
    context: CycleContext,
    edge_age_us: u32,
    live_hall: u8,
    motor_outputs_disabled: bool,
)
    requires
        elapsed > CONTROL_BUDGET_CYCLES,
    ensures
        runtime.timed(elapsed).faults.control_timing,
        !runtime.faults.control_timing ==> !runtime.timed(elapsed).commanded()
            && !runtime.timed(elapsed).state.diagnostics.output_active,
        runtime.timed(elapsed).estimated(
            context,
            edge_age_us,
            live_hall,
            motor_outputs_disabled,
        ).1 is None,
{
    reveal(ControlRuntime::overrun);
    law_only_a_leased_cycle_without_fault_is_driven(
        runtime.timed(elapsed),
        context,
        edge_age_us,
        live_hall,
        motor_outputs_disabled,
    );
}

/// A lease ends on its own: once as many cycles as its lifetime have been
/// entered, it no longer holds, whatever the cycle counter was when it was
/// granted.
pub proof fn law_lease_expires(
    mailbox: CommandMailbox,
    target_q_counts: i16,
    dc_current_limit_counts: u16,
    lifetime_cycles: u32,
    safety_epoch: u32,
    elapsed: int,
)
    requires
        lifetime_cycles < 0x8000_0000,
        0 <= elapsed,
    ensures
        0 <= elapsed < lifetime_cycles ==> lease_holds(
            arith::wrap_u32(mailbox.control_cycle + elapsed),
            mailbox.authorized(
                target_q_counts,
                dc_current_limit_counts,
                lifetime_cycles,
                safety_epoch,
            ).deadline as int,
        ),
        lifetime_cycles <= elapsed <= 0x8000_0000 ==> !lease_holds(
            arith::wrap_u32(mailbox.control_cycle + elapsed),
            mailbox.authorized(
                target_q_counts,
                dc_current_limit_counts,
                lifetime_cycles,
                safety_epoch,
            ).deadline as int,
        ),
{
}

/// Whatever is asked, the granted target pulls forward by no more than the ride
/// limit and never brakes, and the granted supply current stays inside the ride
/// limit.
pub proof fn law_authority_stays_inside_the_ride_envelope(
    mailbox: CommandMailbox,
    target_q_counts: i16,
    dc_current_limit_counts: u16,
    lifetime_cycles: u32,
    safety_epoch: u32,
)
    ensures
        ({
            let granted = mailbox.authorized(
                target_q_counts,
                dc_current_limit_counts,
                lifetime_cycles,
                safety_epoch,
            );
            &&& -config::RIDE_PHASE_CURRENT_LIMIT_COUNTS <= granted.target_q_counts <= 0
            &&& granted.dc_current_limit_counts <= config::RIDE_DC_BUS_CURRENT_LIMIT_COUNTS
        }),
{
}

} // verus!
