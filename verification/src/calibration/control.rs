//! Synchronous current and direct-voltage paths for calibration.
//!
//! One control cycle is a sequence of calls, because registers are read and
//! written between them: [`CalibrationControl::begin`],
//! [`CalibrationControl::command`], [`CalibrationControl::observe`] and
//! [`CalibrationControl::finish`]. Whenever `output_active` falls, the outputs
//! are to be disabled and the compares returned to neutral.
use vstd::prelude::*;

use super::config::{
    CALIBRATION_BUS_MAXIMUM_MV, CALIBRATION_BUS_MINIMUM_MV, CALIBRATION_PHASE_CURRENT_TRIP_COUNTS,
};
use super::flux_linkage;
use super::flux_linkage::FluxLinkageCalibration;
use super::hall_calibration::HallCalibration;
use super::inductance;
use super::inductance::InductanceCalibration;
use super::resistance;
use super::resistance::{Point, ResistanceCalibration};
use super::types::{Actuation, Failure, Routine};
use crate::arith;
use crate::f103::config as board;
use crate::f103::control::foc;
use crate::f103::control::foc::{
    actuation_advance_from_erpm, ride_foc_controller, RideFocController, CONTROL_BUDGET_CYCLES,
};
use crate::f103::hardware::peripherals;
use crate::f103::hardware::peripherals::{
    acknowledge_faults, fault_flags, latch_control_timing_fault, read_phase_currents,
    CurrentOffsets, FaultLatch, PhaseCurrentSample,
};
use crate::f103::safety;
use crate::f103::safety::checkpoint;
use crate::f103::safety::{
    clear_current_pwm_failure, record_control_checkpoint, record_control_cycle,
    record_control_timing, record_safety_loss, Forensics,
};
use crate::foc::control_types::{Dq, PwmDuty};
use crate::foc::controller;
use crate::foc::controller::FocController;
use crate::foc::numeric;
use crate::foc::numeric::{Fixed, Scalar};
use crate::foc::trig::CordicSinCos;

verus! {

#[derive(Clone, Copy, Debug)]
pub struct Snapshot {
    pub routine: Routine,
    pub state: u8,
    pub failure: Failure,
    pub active: bool,
    pub output_active: bool,
    pub voltage_limited: bool,
    pub target_d_counts: i16,
    pub measured_d_counts: i16,
    pub applied_d_ticks: i16,
    pub maximum_phase_current_abs: u16,
    pub low: Point,
    pub high: Point,
    pub effective_uv_per_count: u32,
    pub nominal_resistance_uohm: u32,
    pub sample_progress: u16,
    pub inductance_d_nwb_per_count: u32,
    pub inductance_q_nwb_per_count: u32,
    pub residual_dead_time_uv: u32,
    pub pulse_step_d_ticks: i16,
    pub pulse_step_q_ticks: i16,
    pub last_pulse_di_counts: i16,
    pub flux_linkage_nwb: u32,
    pub average_bemf_d_uv: i32,
    pub average_bemf_q_uv: i32,
    pub flux_measurement_erpm: i16,
    pub sync_minimum_percent: u8,
    pub hall_centers_q16: [u16; 8],
    pub hall_valid_mask: u8,
    pub hall_minimum_samples: u8,
    pub injected_samples: u32,
    pub control_cycles: u32,
    pub maximum_control_cycles: u32,
    pub timing_overruns: u16,
    pub fault_flags: u32,
}

/// What a cycle measured and applied, and the compares to write.
#[derive(Clone, Copy, Debug)]
pub struct Step {
    pub measured_d_counts: i16,
    pub measured_q_counts: i16,
    pub applied_d_tick_bits: i32,
    pub applied_q_tick_bits: i32,
    pub bus_voltage_mv: u32,
    pub duties: Option<PwmDuty>,
}

/// Everything the calibration's control interrupt owns.
pub struct CalibrationControl {
    pub controller: RideFocController,
    pub routine: Routine,
    pub resistance: ResistanceCalibration,
    pub inductance: InductanceCalibration,
    pub flux_linkage: FluxLinkageCalibration,
    pub hall: HallCalibration,
    pub offsets: CurrentOffsets,
    pub output_active: bool,
    pub voltage_limited: bool,
    pub target_d_counts: i16,
    pub measured_d_counts: i16,
    pub applied_d_ticks: i16,
    pub maximum_phase_current_abs: u16,
    pub injected_samples: u32,
    pub maximum_control_cycles: u32,
    pub timing_overruns: u16,
    pub requested_routine: Routine,
    pub abort_reason: Failure,
    pub bus_voltage_mv: u32,
    pub control_cycles: u32,
    pub faults: FaultLatch,
    pub forensics: Forensics,
}

impl CalibrationControl {
    pub open spec fn wf(self) -> bool {
        &&& self.resistance.wf()
        &&& self.inductance.wf()
        &&& self.flux_linkage.wf()
        &&& self.hall.wf()
    }

    /// The chosen routine is running.
    pub open spec fn is_active(self) -> bool {
        match self.routine {
            Routine::Resistance => self.resistance.state.is_active(),
            Routine::Inductance => self.inductance.state.is_active(),
            Routine::FluxLinkage => self.flux_linkage.state.is_active(),
            Routine::Hall => self.hall.state.is_active(),
            Routine::NoRoutine => false,
        }
    }

    pub open spec fn state_number(self) -> u8 {
        match self.routine {
            Routine::Resistance => self.resistance.state.number(),
            Routine::Inductance => self.inductance.state.number(),
            Routine::FluxLinkage => self.flux_linkage.state.number(),
            Routine::Hall => self.hall.state.number(),
            Routine::NoRoutine => 0,
        }
    }

    pub open spec fn failure(self) -> Failure {
        match self.routine {
            Routine::Resistance => self.resistance.failure,
            Routine::Inductance => self.inductance.failure,
            Routine::FluxLinkage => self.flux_linkage.failure,
            Routine::Hall => self.hall.failure,
            Routine::NoRoutine => Failure::NoFailure,
        }
    }

    pub open spec fn progress(self) -> int {
        match self.routine {
            Routine::Resistance => arith::sat_u16(self.resistance.progress()),
            Routine::Inductance => self.inductance.valid_pulses + 0x100 * (self.inductance.position
                * inductance::PULSE_LEVEL_COUNT + self.inductance.pulse_level),
            Routine::FluxLinkage => arith::min(
                self.flux_linkage.cycle_in_state as int,
                self.flux_linkage.state.cycles(),
            ) * 1_000 / self.flux_linkage.state.cycles(),
            Routine::Hall => self.hall.sweep * 512 + self.hall.degree,
            Routine::NoRoutine => 0,
        }
    }

    /// What the chosen routine asks of the power stage.
    pub open spec fn demanded(self) -> Actuation {
        match self.routine {
            Routine::Resistance => Actuation::Current {
                angle: 0,
                direct_counts: self.resistance.target() as i16,
                quadrature_counts: 0,
            },
            Routine::Inductance => self.inductance.demanded(),
            Routine::FluxLinkage => self.flux_linkage.demanded(),
            Routine::Hall => self.hall.demanded(),
            Routine::NoRoutine => Actuation::Off,
        }
    }

    /// Speed of the commanded frame.
    pub open spec fn frame_erpm(self) -> int {
        if self.routine is FluxLinkage {
            self.flux_linkage.electrical_rpm as int
        } else {
            0
        }
    }

    /// The control with its output stopped.
    pub open spec fn output_stopped(self) -> Self {
        CalibrationControl {
            controller: if self.output_active {
                self.controller.cleared()
            } else {
                self.controller
            },
            output_active: false,
            voltage_limited: false,
            target_d_counts: 0,
            ..self
        }
    }

    /// The control with the chosen routine failed; without one the failure is
    /// the resistance sweep's.
    pub open spec fn routine_failed(self, failure: Failure) -> Self {
        match self.routine {
            Routine::Inductance => CalibrationControl {
                inductance: self.inductance.failed(failure),
                ..self
            },
            Routine::FluxLinkage => CalibrationControl {
                flux_linkage: self.flux_linkage.failed(failure),
                ..self
            },
            Routine::Hall => CalibrationControl { hall: self.hall.failed(failure), ..self },
            Routine::NoRoutine | Routine::Resistance => CalibrationControl {
                resistance: self.resistance.failed(failure),
                ..self
            },
        }
    }

    /// The control after a failure: recorded, with the output stopped.
    #[verifier::opaque]
    pub open spec fn failed(self, failure: Failure) -> Self {
        let routine = self.routine_failed(failure);
        CalibrationControl {
            forensics: routine.forensics.loss_noted(failure.number()),
            ..routine
        }.output_stopped()
    }

    /// The control at the start of a routine: results of the earlier ones are
    /// its parameters.
    #[verifier::opaque]
    pub open spec fn started(self, routine: Routine) -> Self {
        let ready = CalibrationControl {
            controller: self.controller.cleared(),
            maximum_phase_current_abs: 0,
            routine,
            ..self
        };
        let slope = self.resistance.result.effective_uv_per_count;
        let ld = self.inductance.result.inductance_d_nwb_per_count;
        let lq = self.inductance.result.inductance_q_nwb_per_count;
        match routine {
            Routine::Resistance => CalibrationControl {
                resistance: ResistanceCalibration {
                    state: resistance::State::RampLow,
                    ..ResistanceCalibration::idle()
                },
                ..ready
            },
            Routine::Inductance => CalibrationControl {
                inductance: if slope == 0 {
                    InductanceCalibration::idle().failed(Failure::MissingPrerequisite)
                } else {
                    InductanceCalibration {
                        resistance_uv_per_count: slope,
                        state: inductance::State::RampHold,
                        ..InductanceCalibration::idle()
                    }
                },
                ..ready
            },
            Routine::FluxLinkage => CalibrationControl {
                flux_linkage: if slope == 0 || ld == 0 || lq == 0 {
                    FluxLinkageCalibration::idle().failed(Failure::MissingPrerequisite)
                } else {
                    FluxLinkageCalibration {
                        resistance_uv_per_count: slope,
                        inductance_nwb_per_count: (arith::sat_u32(ld + lq) / 2) as u32,
                        electrical_rpm: flux_linkage::CAPTURE_ERPM,
                        state: flux_linkage::State::Capture,
                        ..FluxLinkageCalibration::idle()
                    }
                },
                ..ready
            },
            Routine::Hall => CalibrationControl {
                hall: HallCalibration {
                    state: super::hall_calibration::State::RampUp,
                    ..HallCalibration::idle()
                },
                ..ready
            },
            Routine::NoRoutine => self,
        }
    }

    /// The control with a new cycle counted.
    pub open spec fn entered(self) -> Self {
        let cycle = arith::wrap_u32(self.control_cycles + 1) as u32;
        CalibrationControl {
            control_cycles: cycle,
            forensics: self.forensics.cycle_entered(cycle),
            ..self
        }
    }

    /// The control with a current sample taken, and every request consumed.
    pub open spec fn sampled(self) -> Self {
        CalibrationControl {
            injected_samples: arith::wrap_u32(self.injected_samples + 1) as u32,
            forensics: self.forensics.marked(checkpoint::CURRENT_SAMPLED),
            requested_routine: Routine::NoRoutine,
            abort_reason: Failure::NoFailure,
            ..self
        }
    }

    /// The bus voltage permits a run.
    pub open spec fn bus_is_in_range(self) -> bool {
        CALIBRATION_BUS_MINIMUM_MV <= self.bus_voltage_mv <= CALIBRATION_BUS_MAXIMUM_MV
    }

    /// The control and the sample, once the routine's conditions are checked.
    pub open spec fn checked(self, sample: PhaseCurrentSample) -> (Self, Option<
        PhaseCurrentSample,
    >) {
        let watched = CalibrationControl {
            maximum_phase_current_abs: arith::max(
                self.maximum_phase_current_abs as int,
                sample.peak(),
            ) as u16,
            ..self
        };
        if !self.is_active() {
            (self.output_stopped(), None)
        } else if sample.peak() > CALIBRATION_PHASE_CURRENT_TRIP_COUNTS {
            (watched.failed(Failure::PhaseOvercurrent), None)
        } else if !self.bus_is_in_range() {
            (watched.failed(Failure::BusVoltage), None)
        } else {
            (watched, Some(sample))
        }
    }

    /// The control after the beginning of a cycle, with the sample if the
    /// routine is to be driven.
    pub open spec fn begun(self, readings: Option<(u16, u16)>) -> (Self, Option<
        PhaseCurrentSample,
    >) {
        let entered = self.entered();
        match readings {
            None => (entered.failed(Failure::CurrentSample), None),
            Some((raw_a, raw_b)) => if !peripherals::readings_in_range(
                raw_a,
                raw_b,
                self.offsets,
            ) {
                (entered.failed(Failure::CurrentSample), None)
            } else {
                let taken = entered.sampled();
                if !(self.abort_reason is NoFailure) {
                    (taken.failed(self.abort_reason), None)
                } else if self.faults.is_set() {
                    (taken.failed(Failure::HardwareFault), None)
                } else {
                    taken.started(self.requested_routine).checked(
                        peripherals::currents_of(raw_a, raw_b, self.offsets),
                    )
                }
            },
        }
    }

    /// The control after its controller took a step that gave the compares.
    pub open spec fn controlled(self, controller: RideFocController, target_d_counts: i16) -> Self {
        CalibrationControl {
            controller,
            target_d_counts,
            applied_d_ticks: arith::sat_i16(controller.applied_voltage.d.whole() as int) as i16,
            voltage_limited: controller.voltage_limited,
            forensics: self.forensics.marked(checkpoint::DRIVER_COMPLETE),
            ..self
        }
    }

    /// The controller with the output frame advanced by the commanded speed.
    pub open spec fn aimed(self) -> RideFocController {
        FocController {
            actuation_advance: numeric::clamped(
                numeric::fixed(foc::advance_of(self.frame_erpm())),
                Fixed::half_value().negated(),
                Fixed::half_value(),
            ),
            ..self.controller
        }
    }

    /// The controller after doing what a routine asks.
    pub open spec fn actuated(self, sample: PhaseCurrentSample, actuation: Actuation) -> RideFocController {
        let phase_a = numeric::fixed(sample.phase_a * 0x1_0000);
        let phase_b = numeric::fixed(sample.phase_b * 0x1_0000);
        match actuation {
            Actuation::Off => self.aimed(),
            Actuation::Current {
                angle,
                direct_counts,
                quadrature_counts,
            } => self.aimed().regulated(
                phase_a,
                phase_b,
                angle,
                0,
                Dq {
                    d: numeric::fixed(direct_counts * 0x1_0000),
                    q: numeric::fixed(quadrature_counts * 0x1_0000),
                },
                Dq::null(),
                numeric::fixed(0x1_0000),
            ),
            Actuation::DirectVoltage { angle, direct_tick_bits } => self.aimed().driven(
                angle,
                controller::sampled_current::<Fixed, CordicSinCos>(phase_a, phase_b, angle).0,
                Dq::null(),
                Dq { d: Fixed { bits: direct_tick_bits }, q: numeric::fixed(0) },
            ),
        }
    }

    /// The control after doing what the routine asks, with the step.
    pub open spec fn commanded(self, sample: PhaseCurrentSample) -> (Self, Step) {
        let phase_a = numeric::fixed(sample.phase_a * 0x1_0000);
        let phase_b = numeric::fixed(sample.phase_b * 0x1_0000);
        let actuation = self.demanded();
        let controller = self.actuated(sample, actuation);
        match actuation {
            Actuation::Off => (
                CalibrationControl { controller, ..self }.output_stopped(),
                Step {
                    measured_d_counts: 0,
                    measured_q_counts: 0,
                    applied_d_tick_bits: 0,
                    applied_q_tick_bits: 0,
                    bus_voltage_mv: self.bus_voltage_mv,
                    duties: None,
                },
            ),
            Actuation::Current { angle, direct_counts, .. } => self.driven(
                controller,
                phase_a,
                phase_b,
                angle,
                direct_counts,
            ),
            Actuation::DirectVoltage { angle, .. } => self.driven(
                controller,
                phase_a,
                phase_b,
                angle,
                0,
            ),
        }
    }

    /// The control and the step of a driven cycle.
    pub open spec fn driven(
        self,
        controller: RideFocController,
        phase_a: Fixed,
        phase_b: Fixed,
        angle: u32,
        target_d_counts: i16,
    ) -> (Self, Step) {
        let measured = controller::sampled_current::<Fixed, CordicSinCos>(
            phase_a,
            phase_b,
            angle,
        ).1;
        (
            CalibrationControl {
                measured_d_counts: arith::sat_i16(measured.d.whole() as int) as i16,
                ..self.controlled(controller, target_d_counts)
            },
            Step {
                measured_d_counts: arith::sat_i16(measured.d.whole() as int) as i16,
                measured_q_counts: arith::sat_i16(measured.q.whole() as int) as i16,
                applied_d_tick_bits: controller.applied_voltage.d.bits,
                applied_q_tick_bits: controller.applied_voltage.q.bits,
                bus_voltage_mv: self.bus_voltage_mv,
                duties: Some(controller.duties(phase_a, phase_b, board::PWM_NEUTRAL)),
            },
        )
    }

    /// The chosen routine can take a step.
    pub open spec fn accepts(self, step: Step) -> bool {
        &&& self.routine is Resistance ==> self.resistance.accepts(resistance_view(step))
        &&& self.routine is Inductance ==> self.inductance.accepts(inductance_view(step))
    }

    /// The control with a step shown to the chosen routine.
    pub open spec fn shown(self, step: Step, live_hall: u8) -> Self {
        match self.routine {
            Routine::Resistance => CalibrationControl {
                resistance: self.resistance.ticked(resistance_view(step)),
                ..self
            },
            Routine::Inductance => CalibrationControl {
                inductance: self.inductance.observed(inductance_view(step)),
                ..self
            },
            Routine::FluxLinkage => CalibrationControl {
                flux_linkage: self.flux_linkage.observed(flux_view(step)),
                ..self
            },
            Routine::Hall => CalibrationControl { hall: self.hall.observed(live_hall), ..self },
            Routine::NoRoutine => self,
        }
    }

    /// The control after a step was observed, with the compares to write if the
    /// routine goes on.
    pub open spec fn observed(self, step: Step, live_hall: u8) -> (Self, Option<PwmDuty>) {
        let shown = self.shown(step, live_hall);
        if step.duties is None {
            (shown, None)
        } else if !shown.is_active() {
            (shown.output_stopped(), None)
        } else {
            (shown, step.duties)
        }
    }

    /// The control after the compares were accepted or refused.
    pub open spec fn finished(self, accepted: bool) -> Self {
        if accepted {
            CalibrationControl {
                output_active: true,
                forensics: self.forensics.marked(checkpoint::PWM_WRITTEN),
                ..self
            }
        } else {
            self.failed(Failure::PwmOutput)
        }
    }

    /// The control after a cycle was timed.
    pub open spec fn timed(self, elapsed: u32) -> Self {
        let noted = CalibrationControl {
            maximum_control_cycles: arith::max(
                self.maximum_control_cycles as int,
                elapsed as int,
            ) as u32,
            ..self
        };
        let judged = if elapsed > CONTROL_BUDGET_CYCLES {
            CalibrationControl {
                timing_overruns: arith::sat_u16(self.timing_overruns + 1) as u16,
                faults: FaultLatch { control_timing: true, ..self.faults },
                ..noted
            }.failed(Failure::ControlTiming)
        } else {
            noted
        };
        CalibrationControl {
            forensics: judged.forensics.cycle_timed(elapsed, noted.maximum_control_cycles),
            ..judged
        }
    }

    /// A routine may be requested: none is running, no fault is latched, and the
    /// results it builds on are there.
    pub open spec fn admits(self, routine: Routine) -> bool {
        &&& !self.is_active()
        &&& !self.faults.is_set()
        &&& routine is Inductance || routine is FluxLinkage
            ==> self.resistance.result.effective_uv_per_count != 0
        &&& routine is FluxLinkage ==> self.inductance.result.inductance_d_nwb_per_count != 0
            && self.inductance.result.inductance_q_nwb_per_count != 0
    }
}

/// A step as the resistance sweep sees it.
pub open spec fn resistance_view(step: Step) -> resistance::Sample {
    resistance::Sample {
        measured_d_counts: step.measured_d_counts,
        applied_d_tick_bits: step.applied_d_tick_bits,
        bus_voltage_mv: step.bus_voltage_mv,
    }
}

/// A step as the inductance sequence sees it.
pub open spec fn inductance_view(step: Step) -> inductance::Observation {
    inductance::Observation {
        measured_d_counts: step.measured_d_counts,
        applied_d_tick_bits: step.applied_d_tick_bits,
        bus_voltage_mv: step.bus_voltage_mv,
    }
}

/// A step as the flux sequence sees it.
pub open spec fn flux_view(step: Step) -> flux_linkage::Observation {
    flux_linkage::Observation {
        measured_d_counts: step.measured_d_counts,
        measured_q_counts: step.measured_q_counts,
        applied_d_tick_bits: step.applied_d_tick_bits,
        applied_q_tick_bits: step.applied_q_tick_bits,
        bus_voltage_mv: step.bus_voltage_mv,
    }
}

/// Builds the calibration's control state around the current controller of the
/// ride. Nothing is requested.
pub fn start(offsets: CurrentOffsets, forensics: Forensics) -> (r: CalibrationControl)
    ensures
        r.wf(),
        foc::is_ride_controller(r.controller),
        r.routine is NoRoutine,
        r.resistance == ResistanceCalibration::idle(),
        r.inductance == InductanceCalibration::idle(),
        r.flux_linkage == FluxLinkageCalibration::idle(),
        r.hall == HallCalibration::idle(),
        r.offsets == offsets,
        !r.output_active,
        !r.voltage_limited,
        r.target_d_counts == 0,
        r.measured_d_counts == 0,
        r.applied_d_ticks == 0,
        r.maximum_phase_current_abs == 0,
        r.injected_samples == 0,
        r.maximum_control_cycles == 0,
        r.timing_overruns == 0,
        r.requested_routine is NoRoutine,
        r.abort_reason is NoFailure,
        r.bus_voltage_mv == 0,
        r.control_cycles == 0,
        !r.faults.is_set(),
        r.forensics == forensics,
{
    CalibrationControl {
        controller: ride_foc_controller(),
        routine: Routine::NoRoutine,
        resistance: ResistanceCalibration::new(),
        inductance: InductanceCalibration::new(),
        flux_linkage: FluxLinkageCalibration::new(),
        hall: HallCalibration::new(),
        offsets,
        output_active: false,
        voltage_limited: false,
        target_d_counts: 0,
        measured_d_counts: 0,
        applied_d_ticks: 0,
        maximum_phase_current_abs: 0,
        injected_samples: 0,
        maximum_control_cycles: 0,
        timing_overruns: 0,
        requested_routine: Routine::NoRoutine,
        abort_reason: Failure::NoFailure,
        bus_voltage_mv: 0,
        control_cycles: 0,
        faults: FaultLatch {
            hardware_break: false,
            pwm_range: false,
            hall_capture: false,
            control_timing: false,
        },
        forensics,
    }
}

impl CalibrationControl {
    pub fn set_bus_voltage_mv(&mut self, bus_voltage_mv: u32)
        ensures
            *final(self) == (CalibrationControl { bus_voltage_mv, ..*old(self) }),
    {
        self.bus_voltage_mv = bus_voltage_mv;
    }

    pub fn sequence_active(&self) -> (r: bool)
        ensures
            r == self.is_active(),
    {
        match self.routine {
            Routine::Resistance => self.resistance.active(),
            Routine::Inductance => self.inductance.active(),
            Routine::FluxLinkage => self.flux_linkage.active(),
            Routine::Hall => self.hall.active(),
            Routine::NoRoutine => false,
        }
    }

    fn sequence_state(&self) -> (r: u8)
        ensures
            r == self.state_number(),
    {
        match self.routine {
            Routine::Resistance => self.resistance.state().code(),
            Routine::Inductance => self.inductance.state().code(),
            Routine::FluxLinkage => self.flux_linkage.state().code(),
            Routine::Hall => self.hall.state().code(),
            Routine::NoRoutine => 0,
        }
    }

    fn sequence_failure(&self) -> (r: Failure)
        ensures
            r == self.failure(),
    {
        match self.routine {
            Routine::Resistance => self.resistance.failure(),
            Routine::Inductance => self.inductance.failure(),
            Routine::FluxLinkage => self.flux_linkage.failure(),
            Routine::Hall => self.hall.failure(),
            Routine::NoRoutine => Failure::NoFailure,
        }
    }

    fn sequence_progress(&self) -> (r: u16)
        requires
            self.wf(),
        ensures
            r == self.progress(),
    {
        match self.routine {
            Routine::Resistance => self.resistance.sample_progress(),
            Routine::Inductance => self.inductance.pulse_progress(),
            Routine::FluxLinkage => self.flux_linkage.progress(),
            Routine::Hall => self.hall.progress(),
            Routine::NoRoutine => 0,
        }
    }

    fn sequence_actuation(&self) -> (r: Actuation)
        requires
            self.wf(),
        ensures
            r == self.demanded(),
    {
        match self.routine {
            Routine::Resistance => Actuation::Current {
                angle: 0,
                direct_counts: self.resistance.target_counts(),
                quadrature_counts: 0,
            },
            Routine::Inductance => self.inductance.actuation(),
            Routine::FluxLinkage => self.flux_linkage.actuation(),
            Routine::Hall => self.hall.actuation(),
            Routine::NoRoutine => Actuation::Off,
        }
    }

    fn sequence_electrical_rpm(&self) -> (r: i32)
        requires
            self.wf(),
        ensures
            r == self.frame_erpm(),
            0 <= r <= 6_000,
    {
        match self.routine {
            Routine::FluxLinkage => self.flux_linkage.electrical_rpm(),
            _ => 0,
        }
    }

    fn request(&mut self, routine: Routine) -> (r: bool)
        ensures
            r == old(self).admits(routine),
            *final(self) == (if r {
                CalibrationControl { requested_routine: routine, ..*old(self) }
            } else {
                *old(self)
            }),
    {
        if self.sequence_active() || self.faults.any() {
            return false;
        }
        if matches!(routine, Routine::Inductance | Routine::FluxLinkage)
            && self.resistance.result.effective_uv_per_count == 0 {
            return false;
        }
        if matches!(routine, Routine::FluxLinkage) && (
        self.inductance.result.inductance_d_nwb_per_count == 0
            || self.inductance.result.inductance_q_nwb_per_count == 0) {
            return false;
        }
        self.requested_routine = routine;
        true
    }

    pub fn request_resistance(&mut self) -> (r: bool)
        ensures
            r == old(self).admits(Routine::Resistance),
            *final(self) == (if r {
                CalibrationControl { requested_routine: Routine::Resistance, ..*old(self) }
            } else {
                *old(self)
            }),
    {
        self.request(Routine::Resistance)
    }

    /// Needs a measured resistance.
    pub fn request_inductance(&mut self) -> (r: bool)
        ensures
            r == old(self).admits(Routine::Inductance),
            *final(self) == (if r {
                CalibrationControl { requested_routine: Routine::Inductance, ..*old(self) }
            } else {
                *old(self)
            }),
    {
        self.request(Routine::Inductance)
    }

    /// Needs a measured resistance and both inductances.
    pub fn request_flux_linkage(&mut self) -> (r: bool)
        ensures
            r == old(self).admits(Routine::FluxLinkage),
            *final(self) == (if r {
                CalibrationControl { requested_routine: Routine::FluxLinkage, ..*old(self) }
            } else {
                *old(self)
            }),
    {
        self.request(Routine::FluxLinkage)
    }

    pub fn request_hall(&mut self) -> (r: bool)
        ensures
            r == old(self).admits(Routine::Hall),
            *final(self) == (if r {
                CalibrationControl { requested_routine: Routine::Hall, ..*old(self) }
            } else {
                *old(self)
            }),
    {
        self.request(Routine::Hall)
    }

    /// Acknowledges the latched faults, which the break input can refuse. The
    /// recorded output failure begins a new episode.
    pub fn acknowledge_faults(&mut self, break_active: bool) -> (r: bool)
        ensures
            r == !break_active,
            *final(self) == (CalibrationControl {
                faults: if r {
                    FaultLatch::rearmed()
                } else {
                    old(self).faults
                },
                forensics: final(self).forensics,
                ..*old(self)
            }),
            if r {
                safety::episode_starts(old(self).forensics, final(self).forensics)
            } else {
                final(self).forensics == old(self).forensics
            },
    {
        if !acknowledge_faults(&mut self.faults, break_active) {
            return false;
        }
        clear_current_pwm_failure(&mut self.forensics);
        true
    }

    /// Asks the control interrupt to stop; without a reason it was stopped.
    pub fn abort(&mut self, reason: Failure)
        ensures
            *final(self) == (CalibrationControl {
                abort_reason: if reason is NoFailure {
                    Failure::Stopped
                } else {
                    reason
                },
                ..*old(self)
            }),
    {
        self.abort_reason = if matches!(reason, Failure::NoFailure) {
            Failure::Stopped
        } else {
            reason
        };
    }

    fn stop_output(&mut self)
        requires
            old(self).wf(),
        ensures
            final(self).wf(),
            *final(self) == old(self).output_stopped(),
    {
        if self.output_active {
            self.controller.reset();
        }
        self.output_active = false;
        self.voltage_limited = false;
        self.target_d_counts = 0;
    }

    fn fail_and_stop(&mut self, failure: Failure)
        requires
            old(self).wf(),
        ensures
            final(self).wf(),
            *final(self) == old(self).failed(failure),
    {
        reveal(CalibrationControl::failed);
        match self.routine {
            Routine::Inductance => self.inductance.fail(failure),
            Routine::FluxLinkage => self.flux_linkage.fail(failure),
            Routine::Hall => self.hall.fail(failure),
            Routine::NoRoutine | Routine::Resistance => self.resistance.fail(failure),
        }
        record_safety_loss(&mut self.forensics, failure.code());
        self.stop_output();
    }

    fn start_routine(&mut self, routine: Routine)
        requires
            old(self).wf(),
        ensures
            final(self).wf(),
            *final(self) == old(self).started(routine),
    {
        reveal(CalibrationControl::started);
        if matches!(routine, Routine::NoRoutine) {
            return;
        }
        self.controller.reset();
        self.maximum_phase_current_abs = 0;
        self.routine = routine;
        let slope: u32 = self.resistance.result.effective_uv_per_count;
        match routine {
            Routine::Resistance => self.resistance.start(),
            Routine::Inductance => self.inductance.start(slope),
            Routine::FluxLinkage => self.flux_linkage.start(
                slope,
                self.inductance.result.inductance_d_nwb_per_count,
                self.inductance.result.inductance_q_nwb_per_count,
            ),
            Routine::Hall => self.hall.start(),
            Routine::NoRoutine => {},
        }
    }

    fn enter_cycle(&mut self)
        ensures
            *final(self) == old(self).entered(),
    {
        let cycle: u32 = self.control_cycles.wrapping_add(1);
        self.control_cycles = cycle;
        record_control_cycle(&mut self.forensics, cycle);
    }

    /// Consumes every request exactly once even if an abort or hardware fault
    /// wins this cycle: clearing a later fault must never revive an old start.
    fn take_requests(&mut self)
        ensures
            *final(self) == old(self).sampled(),
    {
        self.injected_samples = self.injected_samples.wrapping_add(1);
        record_control_checkpoint(&mut self.forensics, checkpoint::CURRENT_SAMPLED);
        self.requested_routine = Routine::NoRoutine;
        self.abort_reason = Failure::NoFailure;
    }

    fn check(&mut self, sample: PhaseCurrentSample) -> (r: Option<PhaseCurrentSample>)
        requires
            old(self).wf(),
        ensures
            final(self).wf(),
            (*final(self), r) == old(self).checked(sample),
            r is Some ==> final(self).is_active() && final(self).bus_is_in_range(),
    {
        if !self.sequence_active() {
            self.stop_output();
            return None;
        }
        let peak: u16 = sample.peak_magnitude();
        if peak > self.maximum_phase_current_abs {
            self.maximum_phase_current_abs = peak;
        }
        if peak > CALIBRATION_PHASE_CURRENT_TRIP_COUNTS {
            self.fail_and_stop(Failure::PhaseOvercurrent);
            return None;
        }
        if self.bus_voltage_mv < CALIBRATION_BUS_MINIMUM_MV || self.bus_voltage_mv
            > CALIBRATION_BUS_MAXIMUM_MV {
            self.fail_and_stop(Failure::BusVoltage);
            return None;
        }
        Some(sample)
    }

    /// Begins a cycle with the completed current readings, if both conversions
    /// are complete. Returns the sample if the routine is to be driven.
    pub fn begin(&mut self, readings: Option<(u16, u16)>) -> (r: Option<PhaseCurrentSample>)
        requires
            old(self).wf(),
        ensures
            final(self).wf(),
            (*final(self), r) == old(self).begun(readings),
    {
        self.enter_cycle();
        let current = match read_phase_currents(readings, self.offsets) {
            Ok(sample) => sample,
            Err(_) => {
                self.fail_and_stop(Failure::CurrentSample);
                return None;
            },
        };
        let requested = self.requested_routine;
        let abort = self.abort_reason;
        self.take_requests();
        if !matches!(abort, Failure::NoFailure) {
            self.fail_and_stop(abort);
            return None;
        }
        if self.faults.any() {
            self.fail_and_stop(Failure::HardwareFault);
            return None;
        }
        self.start_routine(requested);
        self.check(current)
    }

    /// Does what the routine asks with the sample.
    #[verifier::rlimit(20)]
    pub fn command(&mut self, sample: PhaseCurrentSample) -> (r: Step)
        requires
            old(self).wf(),
        ensures
            final(self).wf(),
            (*final(self), r) == old(self).commanded(sample),
    {
        let actuation = self.sequence_actuation();
        self.controller.set_actuation_advance(
            actuation_advance_from_erpm(self.sequence_electrical_rpm()),
        );
        let phase_a = Fixed::from_integer(sample.phase_a as i32);
        let phase_b = Fixed::from_integer(sample.phase_b as i32);
        match actuation {
            Actuation::Off => {
                self.stop_output();
                Step {
                    measured_d_counts: 0,
                    measured_q_counts: 0,
                    applied_d_tick_bits: 0,
                    applied_q_tick_bits: 0,
                    bus_voltage_mv: self.bus_voltage_mv,
                    duties: None,
                }
            },
            Actuation::Current { angle, direct_counts, quadrature_counts } => {
                let (measured, duties) = self.controller.step(
                    phase_a,
                    phase_b,
                    angle,
                    Dq {
                        d: Fixed::from_integer(direct_counts as i32),
                        q: Fixed::from_integer(quadrature_counts as i32),
                    },
                    board::PWM_NEUTRAL,
                );
                self.report_step(measured, duties, direct_counts)
            },
            Actuation::DirectVoltage { angle, direct_tick_bits } => {
                let (measured, duties) = self.controller.step_direct_voltage(
                    phase_a,
                    phase_b,
                    angle,
                    Dq { d: Fixed::from_bits(direct_tick_bits), q: Fixed::zero() },
                    board::PWM_NEUTRAL,
                );
                self.report_step(measured, duties, 0)
            },
        }
    }

    fn report_step(&mut self, measured: Dq, duties: PwmDuty, target_d_counts: i16) -> (r: Step)
        requires
            old(self).wf(),
        ensures
            final(self).wf(),
            *final(self) == (CalibrationControl {
                measured_d_counts: arith::sat_i16(measured.d.whole() as int) as i16,
                ..old(self).controlled(old(self).controller, target_d_counts)
            }),
            r == (Step {
                measured_d_counts: arith::sat_i16(measured.d.whole() as int) as i16,
                measured_q_counts: arith::sat_i16(measured.q.whole() as int) as i16,
                applied_d_tick_bits: old(self).controller.applied_voltage.d.bits,
                applied_q_tick_bits: old(self).controller.applied_voltage.q.bits,
                bus_voltage_mv: old(self).bus_voltage_mv,
                duties: Some(duties),
            }),
    {
        record_control_checkpoint(&mut self.forensics, checkpoint::DRIVER_COMPLETE);
        let applied = self.controller.applied_voltage();
        self.target_d_counts = target_d_counts;
        self.measured_d_counts = arith::sat_i32_to_i16(measured.d.integer());
        self.applied_d_ticks = arith::sat_i32_to_i16(applied.d.integer());
        self.voltage_limited = self.controller.voltage_limited();
        Step {
            measured_d_counts: self.measured_d_counts,
            measured_q_counts: arith::sat_i32_to_i16(measured.q.integer()),
            applied_d_tick_bits: applied.d.to_bits(),
            applied_q_tick_bits: applied.q.to_bits(),
            bus_voltage_mv: self.bus_voltage_mv,
            duties: Some(duties),
        }
    }

    /// Says whether the chosen routine can take a step.
    pub fn can_observe(&self, step: &Step) -> (r: bool)
        requires
            self.wf(),
        ensures
            r == self.accepts(*step),
    {
        match self.routine {
            Routine::Resistance => self.resistance.can_tick(
                &resistance::Sample {
                    measured_d_counts: step.measured_d_counts,
                    applied_d_tick_bits: step.applied_d_tick_bits,
                    bus_voltage_mv: step.bus_voltage_mv,
                },
            ),
            Routine::Inductance => self.inductance.can_observe(
                &inductance::Observation {
                    measured_d_counts: step.measured_d_counts,
                    applied_d_tick_bits: step.applied_d_tick_bits,
                    bus_voltage_mv: step.bus_voltage_mv,
                },
            ),
            _ => true,
        }
    }

    fn observe_sequence(&mut self, step: Step, live_hall: u8)
        requires
            old(self).wf(),
            old(self).accepts(step),
        ensures
            final(self).wf(),
            *final(self) == old(self).shown(step, live_hall),
    {
        match self.routine {
            Routine::Resistance => self.resistance.tick(
                resistance::Sample {
                    measured_d_counts: step.measured_d_counts,
                    applied_d_tick_bits: step.applied_d_tick_bits,
                    bus_voltage_mv: step.bus_voltage_mv,
                },
            ),
            Routine::Inductance => self.inductance.observe(
                inductance::Observation {
                    measured_d_counts: step.measured_d_counts,
                    applied_d_tick_bits: step.applied_d_tick_bits,
                    bus_voltage_mv: step.bus_voltage_mv,
                },
            ),
            Routine::FluxLinkage => self.flux_linkage.observe(
                flux_linkage::Observation {
                    measured_d_counts: step.measured_d_counts,
                    measured_q_counts: step.measured_q_counts,
                    applied_d_tick_bits: step.applied_d_tick_bits,
                    applied_q_tick_bits: step.applied_q_tick_bits,
                    bus_voltage_mv: step.bus_voltage_mv,
                },
            ),
            Routine::Hall => self.hall.observe(live_hall),
            Routine::NoRoutine => {},
        }
    }

    /// Shows a step to the routine. Returns the compares to write if the routine
    /// goes on.
    pub fn observe(&mut self, step: Step, live_hall: u8) -> (r: Option<PwmDuty>)
        requires
            old(self).wf(),
            old(self).accepts(step),
        ensures
            final(self).wf(),
            (*final(self), r) == old(self).observed(step, live_hall),
    {
        self.observe_sequence(step, live_hall);
        if step.duties.is_none() {
            return None;
        }
        if !self.sequence_active() {
            self.stop_output();
            return None;
        }
        step.duties
    }

    /// Ends a driven cycle: the compares were written and the outputs enabled,
    /// or not.
    pub fn finish(&mut self, accepted: bool)
        requires
            old(self).wf(),
        ensures
            final(self).wf(),
            *final(self) == old(self).finished(accepted),
    {
        if !accepted {
            self.fail_and_stop(Failure::PwmOutput);
            return;
        }
        self.output_active = true;
        record_control_checkpoint(&mut self.forensics, checkpoint::PWM_WRITTEN);
    }

    /// Accounts for the duration of a whole cycle in timer cycles. A cycle over
    /// budget latches the timing fault.
    pub fn note_cycle(&mut self, elapsed: u32)
        requires
            old(self).wf(),
        ensures
            final(self).wf(),
            *final(self) == old(self).timed(elapsed),
    {
        if elapsed > self.maximum_control_cycles {
            self.maximum_control_cycles = elapsed;
        }
        let maximum: u32 = self.maximum_control_cycles;
        if elapsed > CONTROL_BUDGET_CYCLES {
            self.timing_overruns = self.timing_overruns.saturating_add(1);
            latch_control_timing_fault(&mut self.faults);
            self.fail_and_stop(Failure::ControlTiming);
        }
        record_control_timing(&mut self.forensics, elapsed, maximum);
    }

    /// Report of the control interrupt.
    pub fn snapshot(&self) -> (r: Snapshot)
        requires
            self.wf(),
        ensures
            r == (Snapshot {
                routine: self.routine,
                state: self.state_number(),
                failure: self.failure(),
                active: self.is_active(),
                output_active: self.output_active,
                voltage_limited: self.voltage_limited,
                target_d_counts: self.target_d_counts,
                measured_d_counts: self.measured_d_counts,
                applied_d_ticks: self.applied_d_ticks,
                maximum_phase_current_abs: self.maximum_phase_current_abs,
                low: self.resistance.result.low,
                high: self.resistance.result.high,
                effective_uv_per_count: self.resistance.result.effective_uv_per_count,
                nominal_resistance_uohm: self.resistance.result.nominal_resistance_uohm,
                sample_progress: self.progress() as u16,
                inductance_d_nwb_per_count: self.inductance.result.inductance_d_nwb_per_count,
                inductance_q_nwb_per_count: self.inductance.result.inductance_q_nwb_per_count,
                residual_dead_time_uv: self.inductance.result.residual_dead_time_uv,
                pulse_step_d_ticks: self.inductance.result.pulse_step_d_ticks,
                pulse_step_q_ticks: self.inductance.result.pulse_step_q_ticks,
                last_pulse_di_counts: self.inductance.result.last_pulse_di_counts,
                flux_linkage_nwb: self.flux_linkage.result.flux_linkage_nwb,
                average_bemf_d_uv: self.flux_linkage.result.average_bemf_d_uv,
                average_bemf_q_uv: self.flux_linkage.result.average_bemf_q_uv,
                flux_measurement_erpm: self.flux_linkage.result.measurement_erpm,
                sync_minimum_percent: self.flux_linkage.result.sync_minimum_percent,
                hall_centers_q16: self.hall.result.centers_q16,
                hall_valid_mask: self.hall.result.valid_mask,
                hall_minimum_samples: self.hall.result.minimum_samples,
                injected_samples: self.injected_samples,
                control_cycles: self.control_cycles,
                maximum_control_cycles: self.maximum_control_cycles,
                timing_overruns: self.timing_overruns,
                fault_flags: self.faults.mask() as u32,
            }),
    {
        let resistance = self.resistance.result();
        let inductance = self.inductance.result();
        let flux_linkage = self.flux_linkage.result();
        let hall = self.hall.result();
        Snapshot {
            routine: self.routine,
            state: self.sequence_state(),
            failure: self.sequence_failure(),
            active: self.sequence_active(),
            output_active: self.output_active,
            voltage_limited: self.voltage_limited,
            target_d_counts: self.target_d_counts,
            measured_d_counts: self.measured_d_counts,
            applied_d_ticks: self.applied_d_ticks,
            maximum_phase_current_abs: self.maximum_phase_current_abs,
            low: resistance.low,
            high: resistance.high,
            effective_uv_per_count: resistance.effective_uv_per_count,
            nominal_resistance_uohm: resistance.nominal_resistance_uohm,
            sample_progress: self.sequence_progress(),
            inductance_d_nwb_per_count: inductance.inductance_d_nwb_per_count,
            inductance_q_nwb_per_count: inductance.inductance_q_nwb_per_count,
            residual_dead_time_uv: inductance.residual_dead_time_uv,
            pulse_step_d_ticks: inductance.pulse_step_d_ticks,
            pulse_step_q_ticks: inductance.pulse_step_q_ticks,
            last_pulse_di_counts: inductance.last_pulse_di_counts,
            flux_linkage_nwb: flux_linkage.flux_linkage_nwb,
            average_bemf_d_uv: flux_linkage.average_bemf_d_uv,
            average_bemf_q_uv: flux_linkage.average_bemf_q_uv,
            flux_measurement_erpm: flux_linkage.measurement_erpm,
            sync_minimum_percent: flux_linkage.sync_minimum_percent,
            hall_centers_q16: hall.centers_q16,
            hall_valid_mask: hall.valid_mask,
            hall_minimum_samples: hall.minimum_samples,
            injected_samples: self.injected_samples,
            control_cycles: self.control_cycles,
            maximum_control_cycles: self.maximum_control_cycles,
            timing_overruns: self.timing_overruns,
            fault_flags: fault_flags(&self.faults),
        }
    }
}

/// A failure stops the output and ends the running routine, whichever it is.
pub proof fn law_failure_ends_the_routine(control: CalibrationControl, failure: Failure)
    ensures
        !control.failed(failure).is_active(),
        !control.failed(failure).output_active,
        control.failed(failure).target_d_counts == 0,
        !(control.routine is NoRoutine) ==> control.failed(failure).failure() == failure,
{
    reveal(CalibrationControl::failed);
}

/// Every request is consumed by the cycle that sees it: a start that lost to an
/// abort or a fault is never revived by a later cycle.
pub proof fn law_lost_request_is_never_revived(
    control: CalibrationControl,
    readings: (u16, u16),
)
    requires
        peripherals::readings_in_range(readings.0, readings.1, control.offsets),
        !(control.abort_reason is NoFailure) || control.faults.is_set(),
    ensures
        control.begun(Some(readings)).1 is None,
        control.begun(Some(readings)).0.requested_routine is NoRoutine,
        control.begun(Some(readings)).0.abort_reason is NoFailure,
        !control.begun(Some(readings)).0.is_active(),
{
    reveal(CalibrationControl::failed);
}

/// Resistance comes before inductance, and both before flux: a routine that
/// builds on a missing result is not admitted.
pub proof fn law_routines_build_on_each_other(control: CalibrationControl)
    ensures
        control.resistance.result.effective_uv_per_count == 0 ==> !control.admits(
            Routine::Inductance,
        ) && !control.admits(Routine::FluxLinkage),
        control.inductance.result.inductance_d_nwb_per_count == 0 ==> !control.admits(
            Routine::FluxLinkage,
        ),
        control.inductance.result.inductance_q_nwb_per_count == 0 ==> !control.admits(
            Routine::FluxLinkage,
        ),
{
}

/// A running routine is driven while nothing speaks against it: with usable
/// readings, no fault, no abort, no request, a current inside the trip and a bus
/// in range the cycle goes on with the readings' distances from the offsets.
pub proof fn law_clean_cycle_goes_on(control: CalibrationControl, raw_a: u16, raw_b: u16)
    requires
        peripherals::readings_in_range(raw_a, raw_b, control.offsets),
        control.abort_reason is NoFailure,
        control.requested_routine is NoRoutine,
        !control.faults.is_set(),
        control.is_active(),
        peripherals::currents_of(raw_a, raw_b, control.offsets).peak() <= 600,
        39_000 <= control.bus_voltage_mv <= 60_000,
    ensures
        ({
            let (next, sample) = control.begun(Some((raw_a, raw_b)));
            &&& sample is Some
            &&& sample->0.phase_a == raw_a - control.offsets.phase_a
            &&& sample->0.phase_b == raw_b - control.offsets.phase_b
            &&& next.is_active()
            &&& next.demanded() == control.demanded()
            &&& next.injected_samples == arith::wrap_u32(control.injected_samples + 1)
            &&& next.control_cycles == arith::wrap_u32(control.control_cycles + 1)
            &&& next.maximum_phase_current_abs >= sample->0.peak()
            &&& next.maximum_phase_current_abs >= control.maximum_phase_current_abs
            &&& next.output_active == control.output_active
        }),
{
    reveal(CalibrationControl::started);
}

/// Each lost condition ends a running routine with its own failure: a missing
/// sample, an abort with its reason, a latched fault, a current beyond the trip,
/// and a bus out of range, in this order.
pub proof fn law_lost_condition_ends_the_routine(
    control: CalibrationControl,
    raw_a: u16,
    raw_b: u16,
)
    requires
        control.is_active(),
        control.requested_routine is NoRoutine,
    ensures
        control.begun(None).1 is None,
        control.begun(None).0.failure() is CurrentSample,
        ({
            let (next, sample) = control.begun(Some((raw_a, raw_b)));
            let peak = peripherals::currents_of(raw_a, raw_b, control.offsets).peak();
            let usable = peripherals::readings_in_range(raw_a, raw_b, control.offsets);
            let aborted = !(control.abort_reason is NoFailure);
            let faulted = control.faults.is_set();
            let bus = 39_000 <= control.bus_voltage_mv <= 60_000;
            &&& !usable ==> next.failure() is CurrentSample
            &&& usable && aborted ==> next.failure() == control.abort_reason
            &&& usable && !aborted && faulted ==> next.failure() is HardwareFault
            &&& usable && !aborted && !faulted && peak > 600 ==> next.failure() is PhaseOvercurrent
            &&& usable && !aborted && !faulted && peak <= 600 && !bus ==> next.failure()
                is BusVoltage
            &&& !usable || aborted || faulted || peak > 600 || !bus ==> sample is None
                && !next.is_active() && !next.output_active
        }),
{
    reveal(CalibrationControl::started);
    reveal(CalibrationControl::failed);
}

/// A requested routine starts from its beginning, on the results of the earlier
/// ones: the slope for the inductance, the slope and the mean of both inductances
/// for the flux. A missing result fails it instead, and results that are there
/// stay.
pub proof fn law_requested_routine_starts(control: CalibrationControl)
    ensures
        ({
            let next = control.started(Routine::Resistance);
            &&& next.routine is Resistance
            &&& next.resistance.state is RampLow
            &&& next.resistance.cycle_in_state == 0
            &&& next.inductance == control.inductance
        }),
        ({
            let next = control.started(Routine::Inductance);
            let slope = control.resistance.result.effective_uv_per_count;
            &&& next.routine is Inductance
            &&& slope != 0 ==> next.inductance.state is RampHold
                && next.inductance.resistance_uv_per_count == slope && next.inductance.probing
                && next.inductance.position == 0
            &&& slope == 0 ==> next.inductance.state is Failed && next.inductance.failure
                is MissingPrerequisite
            &&& next.resistance == control.resistance
        }),
        ({
            let next = control.started(Routine::FluxLinkage);
            let slope = control.resistance.result.effective_uv_per_count;
            let d = control.inductance.result.inductance_d_nwb_per_count;
            let q = control.inductance.result.inductance_q_nwb_per_count;
            let mean = next.flux_linkage.inductance_nwb_per_count;
            &&& next.routine is FluxLinkage
            &&& slope != 0 && d != 0 && q != 0 ==> next.flux_linkage.state is Capture
                && next.flux_linkage.resistance_uv_per_count == slope
                && next.flux_linkage.electrical_rpm == 60
            &&& slope != 0 && d != 0 && q != 0 && d + q <= u32::MAX ==> 2 * mean <= d + q <= 2
                * mean + 1
            &&& slope == 0 || d == 0 || q == 0 ==> next.flux_linkage.state is Failed
                && next.flux_linkage.failure is MissingPrerequisite
        }),
        ({
            let next = control.started(Routine::Hall);
            &&& next.routine is Hall
            &&& next.hall.state is RampUp
            &&& next.hall.sweep == 0
            &&& next.hall.degree == 0
        }),
        control.started(Routine::NoRoutine) == control,
{
    reveal(CalibrationControl::started);
}

/// A step does what the routine asks: a current is regulated at its angle toward
/// its counts, a voltage is applied directly without moving the integrators, and
/// without either no compares come out. The step reports the measured vector and
/// the voltage that was applied.
pub proof fn law_step_does_what_the_routine_asks(
    control: CalibrationControl,
    sample: PhaseCurrentSample,
)
    ensures
        ({
            let (next, step) = control.commanded(sample);
            let phase_a = numeric::fixed(sample.phase_a * 0x1_0000);
            let phase_b = numeric::fixed(sample.phase_b * 0x1_0000);
            &&& step.bus_voltage_mv == control.bus_voltage_mv
            &&& match control.demanded() {
                Actuation::Off => step.duties is None && !next.output_active,
                Actuation::Current { angle, direct_counts, quadrature_counts } => {
                    let measured = controller::sampled_current::<Fixed, CordicSinCos>(
                        phase_a,
                        phase_b,
                        angle,
                    ).1;
                    &&& step.duties is Some
                    &&& next.target_d_counts == direct_counts
                    &&& next.controller.direct.previous_error.bits == arith::sat_i32(
                        arith::sat_i32(direct_counts * 0x1_0000) - measured.d.bits,
                    )
                    &&& next.controller.quadrature.previous_error.bits == arith::sat_i32(
                        arith::sat_i32(quadrature_counts * 0x1_0000) - measured.q.bits,
                    )
                    &&& step.applied_d_tick_bits == next.controller.applied_voltage.d.bits
                    &&& step.applied_q_tick_bits == next.controller.applied_voltage.q.bits
                    &&& step.measured_d_counts == arith::sat_i16(measured.d.whole() as int)
                    &&& step.measured_q_counts == arith::sat_i16(measured.q.whole() as int)
                },
                Actuation::DirectVoltage { angle, direct_tick_bits } => {
                    let measured = controller::sampled_current::<Fixed, CordicSinCos>(
                        phase_a,
                        phase_b,
                        angle,
                    ).1;
                    &&& step.duties is Some
                    &&& next.target_d_counts == 0
                    &&& next.controller.requested_voltage.d.bits == direct_tick_bits
                    &&& next.controller.requested_voltage.q.bits == 0
                    &&& next.controller.direct == control.controller.direct
                    &&& next.controller.quadrature == control.controller.quadrature
                    &&& step.applied_d_tick_bits == next.controller.applied_voltage.d.bits
                    &&& step.measured_d_counts == arith::sat_i16(measured.d.whole() as int)
                },
            }
        }),
{
}

/// A step is shown to the chosen routine alone, and its compares are written only
/// while that routine goes on.
pub proof fn law_only_the_chosen_routine_advances(
    control: CalibrationControl,
    step: Step,
    live_hall: u8,
)
    ensures
        ({
            let (next, compares) = control.observed(step, live_hall);
            &&& !(control.routine is Resistance) ==> next.resistance == control.resistance
            &&& !(control.routine is Inductance) ==> next.inductance == control.inductance
            &&& !(control.routine is FluxLinkage) ==> next.flux_linkage == control.flux_linkage
            &&& !(control.routine is Hall) ==> next.hall == control.hall
            &&& control.routine is Hall ==> next.hall == control.hall.observed(live_hall)
            &&& next.routine == control.routine
            &&& compares is Some ==> next.is_active() && compares == step.duties
            &&& next.is_active() ==> compares == step.duties
            &&& step.duties is Some && !next.is_active() ==> !next.output_active
        }),
{
}

/// Refused compares and a cycle over budget end the routine with their own
/// failures, the latter with the timing fault latched; accepted compares mean an
/// active output.
pub proof fn law_output_and_timing_are_judged(control: CalibrationControl, elapsed: u32)
    requires
        control.is_active(),
    ensures
        control.finished(true).output_active,
        control.finished(true).is_active(),
        control.finished(false).failure() is PwmOutput,
        !control.finished(false).is_active(),
        control.timed(elapsed).maximum_control_cycles >= elapsed,
        control.timed(elapsed).maximum_control_cycles >= control.maximum_control_cycles,
        elapsed <= CONTROL_BUDGET_CYCLES ==> control.timed(elapsed).is_active() && control.timed(
            elapsed,
        ).faults == control.faults && control.timed(elapsed).timing_overruns
            == control.timing_overruns,
        elapsed > CONTROL_BUDGET_CYCLES ==> control.timed(elapsed).failure() is ControlTiming
            && control.timed(elapsed).faults.control_timing && control.timed(elapsed).timing_overruns
            == arith::min(control.timing_overruns + 1, 0xffff),
{
    reveal(CalibrationControl::failed);
}

/// A routine is admitted as soon as nothing runs, nothing is latched and what it
/// builds on is there; resistance and Hall build on nothing.
pub proof fn law_admission_is_owed(control: CalibrationControl)
    requires
        !control.is_active(),
        !control.faults.is_set(),
    ensures
        control.admits(Routine::Resistance),
        control.admits(Routine::Hall),
        control.resistance.result.effective_uv_per_count != 0 ==> control.admits(
            Routine::Inductance,
        ),
        control.resistance.result.effective_uv_per_count != 0
            && control.inductance.result.inductance_d_nwb_per_count != 0
            && control.inductance.result.inductance_q_nwb_per_count != 0 ==> control.admits(
            Routine::FluxLinkage,
        ),
{
}

/// Each sequence sees the step in its own terms: the resistance sweep and the
/// inductance pulses the d axis, the flux measurement both axes, all with the bus
/// voltage of the cycle.
pub proof fn law_step_is_shown_as_it_was(control: CalibrationControl, step: Step, live_hall: u8)
    ensures
        ({
            let next = control.shown(step, live_hall);
            &&& control.routine is Resistance ==> next.resistance == control.resistance.ticked(
                resistance::Sample {
                    measured_d_counts: step.measured_d_counts,
                    applied_d_tick_bits: step.applied_d_tick_bits,
                    bus_voltage_mv: step.bus_voltage_mv,
                },
            )
            &&& control.routine is Inductance ==> next.inductance == control.inductance.observed(
                inductance::Observation {
                    measured_d_counts: step.measured_d_counts,
                    applied_d_tick_bits: step.applied_d_tick_bits,
                    bus_voltage_mv: step.bus_voltage_mv,
                },
            )
            &&& control.routine is FluxLinkage ==> next.flux_linkage
                == control.flux_linkage.observed(
                flux_linkage::Observation {
                    measured_d_counts: step.measured_d_counts,
                    measured_q_counts: step.measured_q_counts,
                    applied_d_tick_bits: step.applied_d_tick_bits,
                    applied_q_tick_bits: step.applied_q_tick_bits,
                    bus_voltage_mv: step.bus_voltage_mv,
                },
            )
        }),
{
}

/// The output frame is advanced by the rotation of the commanded frame in one
/// control period; only the flux measurement turns it.
pub proof fn law_output_is_aimed_by_the_commanded_speed(control: CalibrationControl)
    requires
        0 <= control.flux_linkage.electrical_rpm <= 6_000,
    ensures
        ({
            let advance = control.aimed().actuation_advance.bits as int;
            let speed = if control.routine is FluxLinkage {
                control.flux_linkage.electrical_rpm as int
            } else {
                0
            };
            &&& arith::abs(1_000_000 * advance - 428_932 * speed) <= 1_000_000 + 25 * speed
            &&& control.aimed().direct == control.controller.direct
            &&& control.aimed().quadrature == control.controller.quadrature
            &&& control.aimed().vector_limit_ticks == control.controller.vector_limit_ticks
        }),
{
}

/// What the chosen routine reports is its own: its state, its failure and what it
/// asks of the power stage.
pub proof fn law_chosen_routine_is_reported(control: CalibrationControl)
    ensures
        control.routine is Resistance ==> control.state_number() == control.resistance.state.number()
            && control.failure() == control.resistance.failure && control.demanded()
            == (Actuation::Current {
            angle: 0,
            direct_counts: control.resistance.target() as i16,
            quadrature_counts: 0,
        }),
        control.routine is Inductance ==> control.state_number() == control.inductance.state.number()
            && control.failure() == control.inductance.failure && control.demanded()
            == control.inductance.demanded(),
        control.routine is FluxLinkage ==> control.state_number()
            == control.flux_linkage.state.number() && control.failure()
            == control.flux_linkage.failure && control.demanded() == control.flux_linkage.demanded(),
        control.routine is Hall ==> control.state_number() == control.hall.state.number()
            && control.failure() == control.hall.failure && control.demanded()
            == control.hall.demanded(),
        control.routine is NoRoutine ==> !control.is_active() && control.demanded()
            == Actuation::Off,
{
}

} // verus!
