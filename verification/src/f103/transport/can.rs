//! Poll-free bxCAN transport for the required stock-bike interface.
//!
//! The telemetry schedule, the project pages, and what a received frame asks
//! for. Registers are read and written by the caller.
use vstd::prelude::*;

use crate::arith;
use crate::f103::config;
use crate::f103::control::foc;
use crate::f103::hardware::peripherals;
use crate::f103::protocol;
use crate::f103::protocol::Frame;
use crate::f103::safety::{BootDiagnostics, PwmFailureContext};
use crate::f103::sensors::analog;
use crate::f103::sensors::environment;

verus! {

pub const TELEMETRY_PERIOD_MS: u32 = 50;

/// Transmit mailboxes of the controller.
pub const MAILBOXES: u8 = 3;

/// Bit timing register for 250 kbit/s: two and seven time quanta less one, and
/// the prescaler less one.
pub const CAN_BTR_250K: u32 = 2_555_915;

/// Places in the telemetry schedules.
#[derive(Clone, Copy, Debug, Eq, PartialEq, Structural)]
pub struct Scheduler {
    pub telemetry_slot: u8,
    pub stock_fault_page: u8,
    pub project_page: u8,
    pub next_telemetry_ms: u32,
}

/// What the telemetry reports.
#[derive(Clone, Copy, Debug)]
pub struct Report {
    pub vehicle_speed_tenths_kph: u16,
    pub distance_counter: u32,
    pub dc_bus_undervoltage: bool,
    pub effective_current_limit: u16,
    pub derating_reasons: u8,
    pub ride_stage: u8,
    pub live_hall_state: u8,
    pub inputs: analog::Snapshot,
    pub control: foc::Snapshot,
    pub boot: BootDiagnostics,
    pub latest_pwm_failure: PwmFailureContext,
}

impl Report {
    pub open spec fn controller_temperature(self) -> Option<i16> {
        if self.inputs.analog_valid {
            Some(
                environment::controller_temperature_of(
                    self.inputs.controller_temperature_adc as int,
                ) as i16,
            )
        } else {
            None
        }
    }

    pub open spec fn motor_temperature(self) -> Option<i16> {
        if self.inputs.analog_valid {
            environment::motor_temperature_of(self.inputs.motor_temperature_adc as int)
        } else {
            None
        }
    }

    /// Content of the stock frames.
    pub open spec fn stock(self, fault_page: u8) -> protocol::StockTelemetry {
        protocol::StockTelemetry {
            vehicle_speed_tenths_kph: self.vehicle_speed_tenths_kph,
            distance_counter: self.distance_counter,
            brake_active: self.inputs.brake_active,
            controller_temperature_deci_c: self.controller_temperature(),
            motor_temperature_deci_c: self.motor_temperature(),
            fault_page,
            hardware_break: self.control.fault_flags as int % 2 == 1,
            dc_bus_undervoltage: self.dc_bus_undervoltage,
            hall_invalid: !self.control.hall_valid,
        }
    }

    /// Content of the passive input pages.
    pub open spec fn passive(self) -> protocol::PassiveInputTelemetry {
        protocol::PassiveInputTelemetry {
            analog_valid: self.inputs.analog_valid,
            brake_active: self.inputs.brake_active,
            throttle_valid: !(self.inputs.throttle.state is Invalid),
            throttle_at_rest: self.inputs.throttle.state is AtRest,
            throttle_raw: self.inputs.throttle.raw,
            throttle_demand: match self.inputs.throttle.requested() {
                Some(demand) => demand.0,
                None => 0,
            },
            throttle_current_limit_counts: config::RIDE_PHASE_CURRENT_LIMIT_COUNTS,
            live_hall_state: self.live_hall_state,
            bus_voltage_mv: (if self.inputs.analog_valid {
                arith::sat_u16(environment::voltage_of(self.inputs.bus_voltage_adc as int))
            } else {
                0
            }) as u16,
            effective_current_limit: self.effective_current_limit,
            derating_reasons: self.derating_reasons,
            controller_temperature_deci_c: self.controller_temperature(),
            motor_temperature_deci_c: self.motor_temperature(),
        }
    }

    pub open spec fn timing(self) -> protocol::ControlTimingTelemetry {
        protocol::ControlTimingTelemetry {
            current_trips: self.control.phase_current_trips,
            maximum_cycles: self.control.control_max_cycles,
            warning_count: self.control.control_budget_warnings,
        }
    }

    pub open spec fn live(self) -> protocol::ControlLiveTelemetry {
        protocol::ControlLiveTelemetry {
            hall_valid: self.control.hall_valid,
            current_valid: self.control.current_valid,
            output_active: self.control.output_active,
            voltage_limited: self.control.voltage_limited,
            ride_stage: self.ride_stage,
            target_q_counts: self.control.target_q_counts,
            measured_d_counts: self.control.measured_d_counts,
            measured_q_counts: self.control.measured_q_counts,
        }
    }

    pub open spec fn output(self) -> protocol::ControlOutputTelemetry {
        protocol::ControlOutputTelemetry {
            phase_limit_counts: self.control.phase_current_limit_counts,
            applied_d_ticks: self.control.applied_d_ticks,
            applied_q_ticks: self.control.applied_q_ticks,
            pwm_span_ticks: self.control.pwm_span_ticks,
        }
    }

    pub open spec fn fault(self) -> protocol::ControlFaultTelemetry {
        protocol::ControlFaultTelemetry {
            fault_flags: self.control.fault_flags,
            safety_events: arith::sat_u16(self.control.safety_events as int) as u16,
            last_safety_loss_reason: self.control.last_safety_loss_reason,
        }
    }

    pub open spec fn peak(self) -> protocol::ControlPeakTelemetry {
        protocol::ControlPeakTelemetry {
            maximum_phase_current_abs: self.control.maximum_phase_current_abs,
            maximum_direct_current_abs: self.control.maximum_direct_current_abs,
            maximum_quadrature_error_abs: self.control.maximum_quadrature_error_abs,
            maximum_pwm_span_ticks: self.control.maximum_pwm_span_ticks,
        }
    }

    pub open spec fn peak_event(self) -> protocol::ControlPeakEventTelemetry {
        let event = self.control.maximum_direct_event;
        protocol::ControlPeakEventTelemetry {
            generation: event.generation,
            measured_d_counts: event.measured_d_counts,
            measured_q_counts: event.measured_q_counts,
            target_q_counts: event.target_q_counts,
            hall_raw: event.hall_raw,
            hall_angle_direction: event.hall_angle_direction,
            edge_age_us: event.edge_age_us,
            hall_interval_us: event.hall_interval_us,
            angle_error_q8: event.angle_error_q8,
            requested_d_ticks: event.requested_d_ticks,
            requested_q_ticks: event.requested_q_ticks,
            feedforward_d_ticks: event.feedforward_d_ticks,
            feedforward_q_ticks: event.feedforward_q_ticks,
            applied_d_ticks: event.applied_d_ticks,
            applied_q_ticks: event.applied_q_ticks,
            voltage_limited: event.voltage_limited,
            angle_rate_limited: event.angle_rate_limited,
        }
    }

    pub open spec fn observer_status(self) -> protocol::ObserverStatusTelemetry {
        protocol::ObserverStatusTelemetry {
            configured: self.control.observer_configured,
            ready: self.control.observer_ready,
            active: self.control.observer_active,
            blend: self.control.observer_blend,
            confidence: self.control.observer_confidence,
            electrical_rpm: self.control.observer_electrical_rpm,
            hall_error_q16: self.control.observer_hall_error_q16,
        }
    }

    pub open spec fn observer_model(self) -> protocol::ObserverModelTelemetry {
        protocol::ObserverModelTelemetry {
            flux_centi_mwb: self.control.observer_flux_centi_mwb,
            bemf_q_mv: self.control.observer_bemf_q_mv,
            phase_error_q16: self.control.observer_phase_error_q16,
            validity_progress: self.control.observer_validity_progress,
        }
    }

    pub open spec fn timing_breakdown(self) -> protocol::ControlTimingBreakdownTelemetry {
        protocol::ControlTimingBreakdownTelemetry {
            maximum_pre_driver_cycles: self.control.maximum_pre_driver_cycles,
            maximum_driver_step_cycles: self.control.maximum_driver_step_cycles,
            hall_electrical_rpm_div4: arith::sat_i16(
                arith::trunc_div(self.control.electrical_rpm as int, 4),
            ) as i16,
            observer_acquisition_flags: arith::bit(
                self.control.observer_phase_error_q16
                    >= protocol::OBSERVER_ACQUIRE_MAX_PLL_ERROR_Q16,
            ) as u8,
        }
    }

    pub open spec fn reset_summary(self) -> protocol::ResetSummaryTelemetry {
        protocol::ResetSummaryTelemetry {
            reset_flags: self.boot.reset_flags,
            retained_context_valid: self.boot.retained_context_valid,
            fatal_reason: self.boot.fatal_reason,
            checkpoint: self.boot.checkpoint,
            last_control_cycles: arith::sat_u16(self.boot.last_control_cycles as int) as u16,
            maximum_control_cycles: arith::sat_u16(self.boot.maximum_control_cycles as int) as u16,
        }
    }

    pub open spec fn crash_context(self) -> protocol::CrashContextTelemetry {
        protocol::CrashContextTelemetry {
            detail: self.boot.detail,
            control_cycle: self.boot.control_cycle,
            program_counter: self.boot.program_counter,
            link_register: self.boot.link_register,
        }
    }

    /// Bytes of the project page at a place in the schedule. The reset forensics
    /// and the latest output failure have places of their own, so that neither
    /// hides the other.
    pub open spec fn project_bytes(self, place: u8) -> Seq<u8> {
        if place == 0 {
            protocol::throttle_page(self.passive())
        } else if place == 1 {
            protocol::supply_page(self.passive())
        } else if place == 2 {
            protocol::timing_page(self.timing())
        } else if place == 3 {
            protocol::live_page(self.live())
        } else if place == 4 {
            protocol::output_page(self.output())
        } else if place == 5 {
            protocol::fault_page(self.fault())
        } else if place == 6 {
            protocol::peak_page(self.peak())
        } else if place == 7 {
            protocol::peak_current_page(self.peak_event())
        } else if place == 8 {
            protocol::peak_hall_page(self.peak_event())
        } else if place == 9 {
            protocol::peak_request_page(self.peak_event())
        } else if place == 10 {
            protocol::peak_output_page(self.peak_event())
        } else if place == 11 {
            protocol::observer_status_page(self.observer_status())
        } else if place == 12 {
            protocol::observer_model_page(self.observer_model())
        } else if place == 13 {
            protocol::timing_breakdown_page(self.timing_breakdown())
        } else if place == 14 {
            protocol::reset_page(self.reset_summary())
        } else if place == 15 {
            protocol::crash_page(self.crash_context())
        } else if place == 16 {
            protocol::failure_state_page(self.latest_pwm_failure.words@)
        } else if place == 17 {
            protocol::failure_compare_page(self.latest_pwm_failure.words@)
        } else {
            protocol::version_page()
        }
    }

    fn controller_temperature_deci_c(&self) -> (r: Option<i16>)
        ensures
            r == self.controller_temperature(),
    {
        if self.inputs.analog_valid {
            Some(
                environment::controller_temperature_deci_c(self.inputs.controller_temperature_adc),
            )
        } else {
            None
        }
    }

    fn motor_temperature_deci_c(&self) -> (r: Option<i16>)
        ensures
            r == self.motor_temperature(),
    {
        if self.inputs.analog_valid {
            environment::motor_temperature_deci_c(self.inputs.motor_temperature_adc)
        } else {
            None
        }
    }

    fn stock_telemetry(&self, fault_page: u8) -> (r: protocol::StockTelemetry)
        ensures
            r == self.stock(fault_page),
    {
        protocol::StockTelemetry {
            vehicle_speed_tenths_kph: self.vehicle_speed_tenths_kph,
            distance_counter: self.distance_counter,
            brake_active: self.inputs.brake_active,
            controller_temperature_deci_c: self.controller_temperature_deci_c(),
            motor_temperature_deci_c: self.motor_temperature_deci_c(),
            fault_page,
            hardware_break: self.control.fault_flags % 2 == peripherals::FAULT_HARDWARE_BREAK,
            dc_bus_undervoltage: self.dc_bus_undervoltage,
            hall_invalid: !self.control.hall_valid,
        }
    }

    fn passive_telemetry(&self) -> (r: protocol::PassiveInputTelemetry)
        ensures
            r == self.passive(),
    {
        protocol::PassiveInputTelemetry {
            analog_valid: self.inputs.analog_valid,
            brake_active: self.inputs.brake_active,
            throttle_valid: self.inputs.throttle.is_valid(),
            throttle_at_rest: self.inputs.throttle.is_at_rest(),
            throttle_raw: self.inputs.throttle.raw(),
            throttle_demand: self.inputs.throttle.normalized_counts(),
            throttle_current_limit_counts: config::RIDE_PHASE_CURRENT_LIMIT_COUNTS,
            live_hall_state: self.live_hall_state,
            bus_voltage_mv: if self.inputs.analog_valid {
                arith::sat_u32_to_u16(environment::bus_voltage_mv(self.inputs.bus_voltage_adc))
            } else {
                0
            },
            effective_current_limit: self.effective_current_limit,
            derating_reasons: self.derating_reasons,
            controller_temperature_deci_c: self.controller_temperature_deci_c(),
            motor_temperature_deci_c: self.motor_temperature_deci_c(),
        }
    }

    fn peak_event_telemetry(&self) -> (r: protocol::ControlPeakEventTelemetry)
        ensures
            r == self.peak_event(),
    {
        let event = self.control.maximum_direct_event;
        protocol::ControlPeakEventTelemetry {
            generation: event.generation,
            measured_d_counts: event.measured_d_counts,
            measured_q_counts: event.measured_q_counts,
            target_q_counts: event.target_q_counts,
            hall_raw: event.hall_raw,
            hall_angle_direction: event.hall_angle_direction,
            edge_age_us: event.edge_age_us,
            hall_interval_us: event.hall_interval_us,
            angle_error_q8: event.angle_error_q8,
            requested_d_ticks: event.requested_d_ticks,
            requested_q_ticks: event.requested_q_ticks,
            feedforward_d_ticks: event.feedforward_d_ticks,
            feedforward_q_ticks: event.feedforward_q_ticks,
            applied_d_ticks: event.applied_d_ticks,
            applied_q_ticks: event.applied_q_ticks,
            voltage_limited: event.voltage_limited,
            angle_rate_limited: event.angle_rate_limited,
        }
    }

    /// Places 2 to 6: the current loop.
    fn control_frame(&self, place: u8) -> (r: Frame)
        requires
            2 <= place <= 6,
        ensures
            r@ == protocol::page(self.project_bytes(place)),
    {
        if place == 2 {
            protocol::control_timing_telemetry(
                protocol::ControlTimingTelemetry {
                    current_trips: self.control.phase_current_trips,
                    maximum_cycles: self.control.control_max_cycles,
                    warning_count: self.control.control_budget_warnings,
                },
            )
        } else if place == 3 {
            protocol::control_live_telemetry(
                protocol::ControlLiveTelemetry {
                    hall_valid: self.control.hall_valid,
                    current_valid: self.control.current_valid,
                    output_active: self.control.output_active,
                    voltage_limited: self.control.voltage_limited,
                    ride_stage: self.ride_stage,
                    target_q_counts: self.control.target_q_counts,
                    measured_d_counts: self.control.measured_d_counts,
                    measured_q_counts: self.control.measured_q_counts,
                },
            )
        } else if place == 4 {
            protocol::control_output_telemetry(
                protocol::ControlOutputTelemetry {
                    phase_limit_counts: self.control.phase_current_limit_counts,
                    applied_d_ticks: self.control.applied_d_ticks,
                    applied_q_ticks: self.control.applied_q_ticks,
                    pwm_span_ticks: self.control.pwm_span_ticks,
                },
            )
        } else if place == 5 {
            protocol::control_fault_telemetry(
                protocol::ControlFaultTelemetry {
                    fault_flags: self.control.fault_flags,
                    safety_events: arith::sat_u32_to_u16(self.control.safety_events),
                    last_safety_loss_reason: self.control.last_safety_loss_reason,
                },
            )
        } else {
            protocol::control_peak_telemetry(
                protocol::ControlPeakTelemetry {
                    maximum_phase_current_abs: self.control.maximum_phase_current_abs,
                    maximum_direct_current_abs: self.control.maximum_direct_current_abs,
                    maximum_quadrature_error_abs: self.control.maximum_quadrature_error_abs,
                    maximum_pwm_span_ticks: self.control.maximum_pwm_span_ticks,
                },
            )
        }
    }

    /// Places 11 to 13: the observer and timing.
    fn observer_frame(&self, place: u8) -> (r: Frame)
        requires
            11 <= place <= 13,
        ensures
            r@ == protocol::page(self.project_bytes(place)),
    {
        if place == 11 {
            protocol::observer_status_telemetry(
                protocol::ObserverStatusTelemetry {
                    configured: self.control.observer_configured,
                    ready: self.control.observer_ready,
                    active: self.control.observer_active,
                    blend: self.control.observer_blend,
                    confidence: self.control.observer_confidence,
                    electrical_rpm: self.control.observer_electrical_rpm,
                    hall_error_q16: self.control.observer_hall_error_q16,
                },
            )
        } else if place == 12 {
            protocol::observer_model_telemetry(
                protocol::ObserverModelTelemetry {
                    flux_centi_mwb: self.control.observer_flux_centi_mwb,
                    bemf_q_mv: self.control.observer_bemf_q_mv,
                    phase_error_q16: self.control.observer_phase_error_q16,
                    validity_progress: self.control.observer_validity_progress,
                },
            )
        } else {
            protocol::control_timing_breakdown_telemetry(
                protocol::ControlTimingBreakdownTelemetry {
                    maximum_pre_driver_cycles: self.control.maximum_pre_driver_cycles,
                    maximum_driver_step_cycles: self.control.maximum_driver_step_cycles,
                    hall_electrical_rpm_div4: arith::sat_i32_to_i16(
                        self.control.electrical_rpm / 4,
                    ),
                    observer_acquisition_flags: protocol::observer_acquisition_flags(
                        self.control.observer_phase_error_q16,
                    ),
                },
            )
        }
    }

    /// Places 14 to 17: what the previous boot left behind, and the latest output
    /// failure.
    fn forensic_frame(&self, place: u8) -> (r: Frame)
        requires
            14 <= place <= 17,
        ensures
            r@ == protocol::page(self.project_bytes(place)),
    {
        if place >= 16 {
            protocol::pwm_failure_telemetry(place + 8, self.latest_pwm_failure.words())
        } else if place == 14 {
            protocol::reset_summary_telemetry(
                protocol::ResetSummaryTelemetry {
                    reset_flags: self.boot.reset_flags,
                    retained_context_valid: self.boot.retained_context_valid,
                    fatal_reason: self.boot.fatal_reason,
                    checkpoint: self.boot.checkpoint,
                    last_control_cycles: arith::sat_u32_to_u16(self.boot.last_control_cycles),
                    maximum_control_cycles: arith::sat_u32_to_u16(self.boot.maximum_control_cycles),
                },
            )
        } else {
            protocol::crash_context_telemetry(
                protocol::CrashContextTelemetry {
                    detail: self.boot.detail,
                    control_cycle: self.boot.control_cycle,
                    program_counter: self.boot.program_counter,
                    link_register: self.boot.link_register,
                },
            )
        }
    }

    /// The project page at a place in the schedule.
    pub fn project_frame(&self, place: u8) -> (r: Frame)
        ensures
            r@ == protocol::page(self.project_bytes(place)),
    {
        if place <= 1 {
            protocol::passive_input_telemetry(place, self.passive_telemetry())
        } else if place <= 6 {
            self.control_frame(place)
        } else if place <= 10 {
            protocol::control_peak_event_telemetry(place - 7, self.peak_event_telemetry())
        } else if place <= 13 {
            self.observer_frame(place)
        } else if place <= 17 {
            self.forensic_frame(place)
        } else {
            protocol::firmware_version_telemetry()
        }
    }
}

impl Scheduler {
    /// Telemetry is due: its time has come or is past; the clock wraps.
    pub open spec fn due(self, now_ms: u32) -> bool {
        self.next_telemetry_ms == now_ms || arith::wrap_u32(self.next_telemetry_ms - now_ms)
            >= 0x8000_0000
    }

    /// The schedule after a service that was due.
    pub open spec fn served(self, now_ms: u32) -> Self {
        Scheduler {
            next_telemetry_ms: arith::wrap_u32(now_ms + TELEMETRY_PERIOD_MS) as u32,
            telemetry_slot: protocol::cycled(
                self.telemetry_slot as int,
                protocol::TELEMETRY_SLOTS as int,
            ) as u8,
            stock_fault_page: (if self.telemetry_slot == 1 {
                (self.stock_fault_page + 1) % 4
            } else {
                self.stock_fault_page as int
            }) as u8,
            ..self
        }
    }

    pub fn new() -> (r: Self)
        ensures
            r == (Scheduler {
                telemetry_slot: 0,
                stock_fault_page: 0,
                project_page: 0,
                next_telemetry_ms: 0,
            }),
    {
        Scheduler { telemetry_slot: 0, stock_fault_page: 0, project_page: 0, next_telemetry_ms: 0 }
    }
}

/// Stock frames of the present slot, if telemetry is due.
pub fn service(scheduler: &mut Scheduler, now_ms: u32, report: &Report) -> (r: Option<
    [Option<Frame>; 3],
>)
    ensures
        r is Some <==> old(scheduler).due(now_ms),
        match r {
            Some(frames) => {
                &&& (
                    protocol::wire(frames[0]),
                    protocol::wire(frames[1]),
                    protocol::wire(frames[2]),
                ) == report.stock(old(scheduler).stock_fault_page).slot_wires(
                    old(scheduler).telemetry_slot,
                )
                &&& *final(scheduler) == old(scheduler).served(now_ms)
            },
            None => *final(scheduler) == *old(scheduler),
        },
{
    let next: u32 = scheduler.next_telemetry_ms;
    if next != now_ms && next.wrapping_sub(now_ms) < 0x8000_0000 {
        return None;
    }
    scheduler.next_telemetry_ms = now_ms.wrapping_add(TELEMETRY_PERIOD_MS);
    let slot: u8 = scheduler.telemetry_slot;
    scheduler.telemetry_slot = protocol::next_telemetry_slot(slot);
    let fault_page: u8 = scheduler.stock_fault_page;
    if slot == 1 {
        scheduler.stock_fault_page = fault_page.wrapping_add(1) % 4;
    }
    Some(protocol::telemetry_slot(slot, report.stock_telemetry(fault_page)))
}

/// The present project page, if the stock frames have left a mailbox free.
pub fn service_project(scheduler: &Scheduler, mailboxes_used: u8, report: &Report) -> (r: Option<
    Frame,
>)
    ensures
        protocol::wire(r) == (if mailboxes_used < MAILBOXES {
            Some(protocol::page(report.project_bytes(scheduler.project_page)))
        } else {
            None
        }),
{
    if mailboxes_used < MAILBOXES {
        Some(report.project_frame(scheduler.project_page))
    } else {
        None
    }
}

/// Accounts for a project page: only a transmitted one moves the schedule on.
pub fn note_project(scheduler: &mut Scheduler, transmitted: bool)
    ensures
        *final(scheduler) == (Scheduler {
            project_page: (if transmitted {
                protocol::cycled(
                    old(scheduler).project_page as int,
                    protocol::PROJECT_TELEMETRY_PAGES as int,
                )
            } else {
                old(scheduler).project_page as int
            }) as u8,
            ..*old(scheduler)
        }),
{
    if transmitted {
        scheduler.project_page = protocol::next_project_telemetry_page(scheduler.project_page);
    }
}

/// Takes a pending reset request; it is one-shot.
pub fn take_reset_request(requested: &mut bool) -> (r: bool)
    ensures
        r == *old(requested),
        !*final(requested),
{
    let pending = *requested;
    *requested = false;
    pending
}

/// The lowest empty mailbox in the transmit status word.
pub fn empty_mailbox(transmit_status: u32) -> (r: Option<u8>)
    ensures
        r == (if transmit_status as int / 0x400_0000 % 2 == 1 {
            Some(0u8)
        } else if transmit_status as int / 0x800_0000 % 2 == 1 {
            Some(1u8)
        } else if transmit_status as int / 0x1000_0000 % 2 == 1 {
            Some(2u8)
        } else {
            None
        }),
{
    if transmit_status / 0x400_0000 % 2 == 1 {
        Some(0)
    } else if transmit_status / 0x800_0000 % 2 == 1 {
        Some(1)
    } else if transmit_status / 0x1000_0000 % 2 == 1 {
        Some(2)
    } else {
        None
    }
}

/// A word whose bytes are given, lowest first.
pub open spec fn word_of(bytes: Seq<u8>, first: int) -> int {
    bytes[first] + bytes[first + 1] * 0x100 + bytes[first + 2] * 0x1_0000 + bytes[first + 3]
        * 0x100_0000
}

/// Content of a transmit mailbox: the identifier in its upper eleven bits, the
/// length, and the data bytes.
pub open spec fn mailbox_of(frame: (u16, u8, Seq<u8>)) -> Seq<int> {
    seq![
        arith::wrap_u32(frame.0 * 0x20_0000),
        frame.1 as int,
        word_of(frame.2, 0),
        word_of(frame.2, 4),
    ]
}

/// Frame in a receive mailbox. Extended and remote frames are not taken, and a
/// length above eight means eight.
pub open spec fn frame_in(identifier: int, length: int, low: int, high: int) -> Option<
    (u16, u8, Seq<u8>),
> {
    if identifier / 2 % 4 == 0 {
        Some(
            (
                (identifier / 0x20_0000) as u16,
                arith::min(length % 16, 8) as u8,
                seq![
                    arith::byte_of(low, 0),
                    arith::byte_of(low, 1),
                    arith::byte_of(low, 2),
                    arith::byte_of(low, 3),
                    arith::byte_of(high, 0),
                    arith::byte_of(high, 1),
                    arith::byte_of(high, 2),
                    arith::byte_of(high, 3),
                ],
            ),
        )
    } else {
        None
    }
}

/// Words of a transmit mailbox: identifier, length, and the data bytes. The
/// identifier word plus one starts the transmission.
pub fn mailbox_words(frame: Frame) -> (r: [u32; 4])
    ensures
        forall|i: int| 0 <= i < 4 ==> #[trigger] r[i] == mailbox_of(frame@)[i],
{
    let d = frame.data;
    [
        frame.id as u32 % 0x800 * 0x20_0000,
        frame.len as u32,
        d[0] as u32 + d[1] as u32 * 0x100 + d[2] as u32 * 0x1_0000 + d[3] as u32 * 0x100_0000,
        d[4] as u32 + d[5] as u32 * 0x100 + d[6] as u32 * 0x1_0000 + d[7] as u32 * 0x100_0000,
    ]
}

/// A frame in the words of a receive mailbox. Extended and remote frames are
/// not taken.
pub fn received_frame(identifier: u32, length: u32, low: u32, high: u32) -> (r: Option<Frame>)
    ensures
        protocol::wire(r) == frame_in(
            identifier as int,
            length as int,
            low as int,
            high as int,
        ),
{
    if identifier / 2 % 4 != 0 {
        return None;
    }
    let l = arith::bytes_u32(low);
    let h = arith::bytes_u32(high);
    let len: u8 = if length % 16 < 8 {
        (length % 16) as u8
    } else {
        8
    };
    Some(
        Frame::new(
            (identifier / 0x20_0000) as u16,
            len,
            [l[0], l[1], l[2], l[3], h[0], h[1], h[2], h[3]],
        ),
    )
}

/// What a received frame asks for.
#[derive(Clone, Copy, Debug, Eq, PartialEq)]
pub enum Reaction {
    Respond(Frame),
    RequestReset,
    Ignore,
}

/// An empty frame may be an identity query; a frame with data may ask for the
/// updater.
pub fn react(frame: Frame) -> (r: Reaction)
    ensures
        match r {
            Reaction::Respond(response) => frame.len == 0 && protocol::identity(frame.id) == Some(
                response@,
            ),
            Reaction::RequestReset => frame.len != 0 && protocol::requests_updater(frame),
            Reaction::Ignore => if frame.len == 0 {
                protocol::identity(frame.id) is None
            } else {
                !protocol::requests_updater(frame)
            },
        },
{
    if frame.len == 0 {
        match protocol::identity_response(frame.id) {
            Some(response) => Reaction::Respond(response),
            None => Reaction::Ignore,
        }
    } else if protocol::is_updater_reset(frame) {
        Reaction::RequestReset
    } else {
        Reaction::Ignore
    }
}

/// The bytes of a word are the ones it was made of.
proof fn lemma_word_of(bytes: Seq<u8>, first: int)
    ensures
        arith::byte_of(word_of(bytes, first), 0) == bytes[first],
        arith::byte_of(word_of(bytes, first), 1) == bytes[first + 1],
        arith::byte_of(word_of(bytes, first), 2) == bytes[first + 2],
        arith::byte_of(word_of(bytes, first), 3) == bytes[first + 3],
{
    let a = bytes[first] as int;
    let b = bytes[first + 1] as int;
    let c = bytes[first + 2] as int;
    let d = bytes[first + 3] as int;
    let word = word_of(bytes, first);
    assert(word % 0x100 == a);
    assert(word / 0x100 == b + c * 0x100 + d * 0x1_0000);
    assert(word / 0x1_0000 == c + d * 0x100);
    assert(word / 0x100_0000 == d);
}

/// A frame survives the mailboxes: what one side writes the other side reads.
pub proof fn law_frame_survives_the_mailboxes(frame: Frame)
    requires
        frame.id < 0x800,
        frame.len <= 8,
    ensures
        ({
            let mailbox = mailbox_of(frame@);
            frame_in(mailbox[0], mailbox[1], mailbox[2], mailbox[3]) == Some(frame@)
        }),
{
    let mailbox = mailbox_of(frame@);
    lemma_word_of(frame.data@, 0);
    lemma_word_of(frame.data@, 4);
    assert(mailbox[0] == frame.id * 0x20_0000);
    let back = frame_in(mailbox[0], mailbox[1], mailbox[2], mailbox[3])->0;
    assert(frame.data@ =~= back.2);
}

/// The reset forensics, the output failure and the version each have a place in
/// the rotation, whatever there is to report: no page hides another.
pub proof fn law_forensic_pages_have_places_of_their_own(report: Report)
    ensures
        report.project_bytes(14)[0] == 22,
        report.project_bytes(15)[0] == 23,
        report.project_bytes(16)[0] == 24,
        report.project_bytes(17)[0] == 25,
        report.project_bytes(18)[0] == 18,
{
}

/// Stock telemetry is due again after one period and not before, whatever the
/// clock reads.
pub proof fn law_service_repeats_every_period(scheduler: Scheduler, now_ms: u32, elapsed_ms: int)
    requires
        0 <= elapsed_ms < 0x8000_0000,
    ensures
        scheduler.served(now_ms).due(arith::wrap_u32(now_ms + elapsed_ms) as u32)
            == (elapsed_ms >= TELEMETRY_PERIOD_MS),
{
}

/// The two input pages carry the inputs: throttle reading, demand, limit,
/// interlocks and Hall state on the first; DC limit, derating, bus voltage in
/// tenths of a volt and both temperatures on the second.
#[verifier::rlimit(40)]
pub proof fn law_input_pages_carry_the_inputs(report: Report)
    requires
        report.effective_current_limit <= 510,
    ensures
        ({
            let bytes = report.project_bytes(0);
            let throttle = report.inputs.throttle;
            &&& bytes[0] == 8
            &&& protocol::unsigned_word(bytes, 2) == throttle.raw
            &&& throttle.requested() is Some ==> bytes[4] == (throttle.requested()->0).0
            &&& throttle.requested() is None ==> bytes[4] == 0
            &&& 2 * (bytes[5] + 0x100 * (bytes[7] as int / 8)) == 838
            &&& protocol::has_flag(bytes[6], 1) == (throttle.state is AtRest)
            &&& protocol::has_flag(bytes[6], 2) == report.inputs.brake_active
            &&& protocol::has_flag(bytes[6], 4) == report.inputs.analog_valid
            &&& protocol::has_flag(bytes[6], 16) == !(throttle.state is Invalid)
            &&& bytes[7] % 8 == report.live_hall_state % 8
        }),
        ({
            let bytes = report.project_bytes(1);
            let bus = environment::voltage_of(report.inputs.bus_voltage_adc as int);
            let shown = protocol::unsigned_word(bytes, 4);
            &&& bytes[0] == 9
            &&& bytes[1] + bytes[3] == report.effective_current_limit
            &&& bytes[2] == report.derating_reasons
            &&& report.inputs.analog_valid && bus <= 0xffff ==> 100 * shown <= bus < 100 * (shown
                + 1)
            &&& !report.inputs.analog_valid ==> shown == 0 && bytes[6] == 0 && bytes[7] == 0
            &&& report.inputs.analog_valid ==> bytes[6] == protocol::temperature_byte(
                Some(
                    environment::controller_temperature_of(
                        report.inputs.controller_temperature_adc as int,
                    ) as i16,
                ),
            )
            &&& report.inputs.analog_valid ==> bytes[7] == protocol::temperature_byte(
                environment::motor_temperature_of(report.inputs.motor_temperature_adc as int),
            )
        }),
{
}

/// The counter page carries trips, the longest cycle and warnings, and the fault
/// page the whole fault mask, the safety losses and the latest reason.
#[verifier::rlimit(40)]
pub proof fn law_counter_and_fault_pages_carry_the_losses(report: Report)
    ensures
        ({
            let bytes = report.project_bytes(2);
            let c = report.control;
            &&& bytes[0] == 6
            &&& protocol::unsigned_word(bytes, 2) == arith::min(
                c.phase_current_trips as int,
                0xffff,
            )
            &&& protocol::unsigned_word(bytes, 4) == arith::min(c.control_max_cycles as int, 0xffff)
            &&& protocol::unsigned_word(bytes, 6) == arith::min(
                c.control_budget_warnings as int,
                0xffff,
            )
        }),
        ({
            let bytes = report.project_bytes(5);
            let c = report.control;
            &&& bytes[0] == 12
            &&& protocol::unsigned_word(bytes, 1) + 0x1_0000 * protocol::unsigned_word(bytes, 3)
                == c.fault_flags
            &&& protocol::unsigned_word(bytes, 5) == arith::min(c.safety_events as int, 0xffff)
            &&& bytes[7] == c.last_safety_loss_reason
        }),
{
    let c = report.control;
    arith::lemma_unsigned_word(arith::sat_u16(c.phase_current_trips as int));
    arith::lemma_unsigned_word(arith::sat_u16(c.control_max_cycles as int));
    arith::lemma_unsigned_word(arith::sat_u16(c.control_budget_warnings as int));
    arith::lemma_unsigned_word(arith::sat_u16(c.safety_events as int));
    arith::lemma_long_word(c.fault_flags as int);
}

/// The live page carries the loop's flags, stage, target and measured current.
#[verifier::rlimit(40)]
pub proof fn law_live_page_carries_the_loop(report: Report)
    ensures
        ({
            let bytes = report.project_bytes(3);
            let c = report.control;
            &&& bytes[0] == 10
            &&& protocol::has_flag(bytes[1], 1) == c.hall_valid
            &&& protocol::has_flag(bytes[1], 2) == c.current_valid
            &&& protocol::has_flag(bytes[1], 4) == c.output_active
            &&& protocol::has_flag(bytes[1], 8) == c.voltage_limited
            &&& bytes[1] as int / 16 == report.ride_stage % 8
            &&& protocol::signed_word(bytes, 2) == c.target_q_counts
            &&& protocol::signed_word(bytes, 4) == c.measured_d_counts
            &&& protocol::signed_word(bytes, 6) == c.measured_q_counts
        }),
{
    arith::lemma_signed_word(report.control.target_q_counts);
    arith::lemma_signed_word(report.control.measured_d_counts);
    arith::lemma_signed_word(report.control.measured_q_counts);
}

/// The output page carries the current limit, the applied voltage and the span in
/// units of sixteen ticks, and the peak page the largest values in the same
/// units.
#[verifier::rlimit(40)]
pub proof fn law_output_and_peak_pages_carry_the_drive(report: Report)
    ensures
        ({
            let bytes = report.project_bytes(4);
            let c = report.control;
            &&& bytes[0] == 11
            &&& protocol::unsigned_word(bytes, 1) == c.phase_current_limit_counts
            &&& protocol::signed_word(bytes, 3) == c.applied_d_ticks
            &&& protocol::signed_word(bytes, 5) == c.applied_q_ticks
            &&& bytes[7] == arith::min(c.pwm_span_ticks as int / 16, 255)
        }),
        ({
            let bytes = report.project_bytes(6);
            let c = report.control;
            &&& bytes[0] == 13
            &&& protocol::unsigned_word(bytes, 1) == c.maximum_phase_current_abs
            &&& protocol::unsigned_word(bytes, 3) == c.maximum_direct_current_abs
            &&& protocol::unsigned_word(bytes, 5) == c.maximum_quadrature_error_abs
            &&& bytes[7] == arith::min(c.maximum_pwm_span_ticks as int / 16, 255)
        }),
{
    let c = report.control;
    arith::lemma_signed_word(c.applied_d_ticks);
    arith::lemma_signed_word(c.applied_q_ticks);
    arith::lemma_unsigned_word(c.phase_current_limit_counts as int);
    arith::lemma_unsigned_word(c.maximum_phase_current_abs as int);
    arith::lemma_unsigned_word(c.maximum_direct_current_abs as int);
    arith::lemma_unsigned_word(c.maximum_quadrature_error_abs as int);
}

/// The current page of the largest d current carries its currents, and the Hall
/// page what the Hall sensor showed with them.
#[verifier::rlimit(40)]
pub proof fn law_peak_pages_carry_currents_and_hall(report: Report)
    ensures
        ({
            let e = report.control.maximum_direct_event;
            let currents = report.project_bytes(7);
            &&& currents[0] == 14
            &&& currents[1] == e.generation
            &&& protocol::signed_word(currents, 2) == e.measured_d_counts
            &&& protocol::signed_word(currents, 4) == e.measured_q_counts
            &&& protocol::signed_word(currents, 6) == e.target_q_counts
        }),
        ({
            let e = report.control.maximum_direct_event;
            let hall = report.project_bytes(8);
            &&& hall[0] == 15
            &&& hall[1] == e.generation
            &&& hall[2] % 8 == e.hall_raw % 8
            &&& protocol::has_flag(hall[2], 8) == (e.hall_angle_direction < 0)
            &&& protocol::has_flag(hall[2], 16) == (e.hall_angle_direction > 0)
            &&& protocol::has_flag(hall[2], 32) == e.voltage_limited
            &&& protocol::has_flag(hall[2], 64) == e.angle_rate_limited
            &&& protocol::unsigned_word(hall, 3) == e.edge_age_us
            &&& protocol::unsigned_word(hall, 5) == e.hall_interval_us
            &&& hall[7] == arith::wrap_u8(e.angle_error_q8 as int)
        }),
{
    let e = report.control.maximum_direct_event;
    arith::lemma_signed_word(e.measured_d_counts);
    arith::lemma_signed_word(e.measured_q_counts);
    arith::lemma_signed_word(e.target_q_counts);
    arith::lemma_unsigned_word(e.edge_age_us as int);
    arith::lemma_unsigned_word(e.hall_interval_us as int);
}

/// The two voltage pages of the largest d current carry what was requested, the
/// feedforward in it, and what was applied, with the generation of the event.
#[verifier::rlimit(40)]
pub proof fn law_peak_pages_carry_the_voltages(report: Report)
    ensures
        ({
            let e = report.control.maximum_direct_event;
            let requested = report.project_bytes(9);
            &&& requested[0] == 16
            &&& requested[1] == e.generation
            &&& protocol::signed_word(requested, 2) == e.requested_d_ticks
            &&& protocol::signed_word(requested, 4) == e.requested_q_ticks
            &&& protocol::signed_word(requested, 6) == e.feedforward_d_ticks
        }),
        ({
            let e = report.control.maximum_direct_event;
            let applied = report.project_bytes(10);
            &&& applied[0] == 17
            &&& applied[1] == e.generation
            &&& protocol::signed_word(applied, 2) == e.applied_d_ticks
            &&& protocol::signed_word(applied, 4) == e.applied_q_ticks
            &&& protocol::signed_word(applied, 6) == e.feedforward_q_ticks
        }),
{
    let e = report.control.maximum_direct_event;
    arith::lemma_signed_word(e.requested_d_ticks);
    arith::lemma_signed_word(e.requested_q_ticks);
    arith::lemma_signed_word(e.feedforward_d_ticks);
    arith::lemma_signed_word(e.applied_d_ticks);
    arith::lemma_signed_word(e.applied_q_ticks);
    arith::lemma_signed_word(e.feedforward_q_ticks);
}

/// The observer pages carry its state, model and lock, and the timing page the
/// Hall speed at four revolutions per count with the acquisition flag.
#[verifier::rlimit(40)]
pub proof fn law_observer_pages_carry_the_estimate(report: Report)
    ensures
        ({
            let c = report.control;
            let status = report.project_bytes(11);
            let model = report.project_bytes(12);
            let timing = report.project_bytes(13);
            let speed = protocol::signed_word(timing, 5);
            &&& status[0] == 19 && model[0] == 20 && timing[0] == 21
            &&& protocol::has_flag(status[1], 1) == c.observer_configured
            &&& protocol::has_flag(status[1], 2) == c.observer_ready
            &&& protocol::has_flag(status[1], 4) == c.observer_active
            &&& status[2] == c.observer_blend
            &&& status[3] == c.observer_confidence
            &&& protocol::signed_word(status, 4) == c.observer_electrical_rpm
            &&& protocol::signed_word(status, 6) == c.observer_hall_error_q16
            &&& protocol::unsigned_word(model, 1) == c.observer_flux_centi_mwb
            &&& protocol::signed_word(model, 3) == c.observer_bemf_q_mv
            &&& protocol::unsigned_word(model, 5) == c.observer_phase_error_q16
            &&& model[7] == c.observer_validity_progress
            &&& protocol::unsigned_word(timing, 1) == c.maximum_pre_driver_cycles
            &&& protocol::unsigned_word(timing, 3) == c.maximum_driver_step_cycles
            &&& -131_000 <= c.electrical_rpm <= 131_000 ==> arith::abs(
                4 * speed - c.electrical_rpm,
            ) < 4
            &&& protocol::has_flag(timing[7], 1) == (c.observer_phase_error_q16 >= 2_086)
        }),
{
    let c = report.control;
    arith::lemma_signed_word(c.observer_electrical_rpm);
    arith::lemma_signed_word(c.observer_hall_error_q16);
    arith::lemma_signed_word(c.observer_bemf_q_mv);
    arith::lemma_signed_word(arith::sat_i16(arith::trunc_div(c.electrical_rpm as int, 4)) as i16);
}

/// The forensic pages carry what the previous boot left and the latest rejected
/// output: causes, progress, addresses, and the attempted compares.
#[verifier::rlimit(40)]
pub proof fn law_forensic_pages_carry_the_records(report: Report)
    ensures
        ({
            let b = report.boot;
            let reset = report.project_bytes(14);
            let crash = report.project_bytes(15);
            let state = report.project_bytes(16);
            let compares = report.project_bytes(17);
            let words = report.latest_pwm_failure.words@;
            &&& reset[1] % 64 == b.reset_flags % 64
            &&& protocol::has_flag(reset[1], 128) == b.retained_context_valid
            &&& reset[2] == b.fatal_reason
            &&& reset[3] == b.checkpoint
            &&& protocol::unsigned_word(reset, 4) == arith::min(
                b.last_control_cycles as int,
                0xffff,
            )
            &&& protocol::unsigned_word(reset, 6) == arith::min(
                b.maximum_control_cycles as int,
                0xffff,
            )
            &&& -128 <= b.detail <= 127 ==> crash[1] == arith::wrap_u8(b.detail as int)
            &&& protocol::unsigned_word(crash, 2) == b.control_cycle % 0x1_0000
            &&& protocol::unsigned_word(crash, 4) == b.program_counter % 0x1_0000
            &&& protocol::unsigned_word(crash, 6) == b.link_register % 0x1_0000
            &&& state[1] == words[0] % 0x100
            &&& state[2] == words[0] / 0x100 % 0x100
            &&& state[3] == words[0] / 0x1_0000 % 0x100
            &&& protocol::unsigned_word(state, 6) == words[2] % 0x1_0000
            &&& compares[1] == state[1]
            &&& protocol::unsigned_word(compares, 2) == words[2] / 0x1_0000
            &&& protocol::unsigned_word(compares, 4) == words[3] % 0x1_0000
            &&& protocol::unsigned_word(compares, 6) == words[3] / 0x1_0000
        }),
{
    let words = report.latest_pwm_failure.words@;
    arith::lemma_long_word(words[0] as int);
    arith::lemma_long_word(words[2] as int);
    arith::lemma_long_word(words[3] as int);
    arith::lemma_long_word(report.boot.control_cycle as int);
    arith::lemma_long_word(report.boot.program_counter as int);
    arith::lemma_long_word(report.boot.link_register as int);
}

/// The stock frames report the vehicle as it is: speed, distance and brake, the
/// temperatures of valid readings only, and the local faults.
pub proof fn law_stock_frames_report_the_vehicle(report: Report, fault_page: u8)
    ensures
        ({
            let stock = report.stock(fault_page);
            &&& stock.vehicle_speed_tenths_kph == report.vehicle_speed_tenths_kph
            &&& stock.distance_counter == report.distance_counter
            &&& stock.brake_active == report.inputs.brake_active
            &&& stock.fault_page == fault_page
            &&& stock.hardware_break == (report.control.fault_flags as int % 2 == 1)
            &&& stock.dc_bus_undervoltage == report.dc_bus_undervoltage
            &&& stock.hall_invalid == !report.control.hall_valid
            &&& !report.inputs.analog_valid ==> stock.controller_temperature_deci_c is None
                && stock.motor_temperature_deci_c is None
            &&& report.inputs.analog_valid ==> stock.controller_temperature_deci_c is Some
        }),
{
}

/// The schedule moves on by one slot of sixty, and the fault page by one of four
/// after each status frame.
pub proof fn law_schedule_moves_on(scheduler: Scheduler, now_ms: u32)
    requires
        scheduler.telemetry_slot < 60,
        scheduler.stock_fault_page < 4,
    ensures
        ({
            let next = scheduler.served(now_ms);
            &&& next.telemetry_slot == (scheduler.telemetry_slot + 1) % 60
            &&& scheduler.telemetry_slot == 1 ==> next.stock_fault_page == (
            scheduler.stock_fault_page + 1) % 4
            &&& scheduler.telemetry_slot != 1 ==> next.stock_fault_page
                == scheduler.stock_fault_page
            &&& next.project_page == scheduler.project_page
        }),
{
}

/// Extended and remote frames are not taken, and a taken frame has at most eight
/// bytes.
pub proof fn law_only_standard_data_frames_are_taken(
    identifier: u32,
    length: u32,
    low: u32,
    high: u32,
)
    ensures
        ({
            let frame = frame_in(identifier as int, length as int, low as int, high as int);
            let extended = identifier as int / 4 % 2 == 1;
            let remote = identifier as int / 2 % 2 == 1;
            &&& frame is Some <==> !extended && !remote
            &&& frame is Some ==> (frame->0).1 <= 8 && (frame->0).0 < 0x800
        }),
{
}

/// A mailbox holds the identifier in its topmost eleven bits, the length, and the
/// data with the first byte lowest.
pub proof fn law_mailbox_starts_with_the_first_byte(frame: Frame)
    requires
        frame.id < 0x800,
    ensures
        ({
            let mailbox = mailbox_of(frame@);
            &&& mailbox[0] / 0x20_0000 == frame.id
            &&& mailbox[0] % 0x20_0000 == 0
            &&& mailbox[1] == frame.len
            &&& mailbox[2] % 0x100 == frame.data[0]
            &&& mailbox[2] / 0x100 % 0x100 == frame.data[1]
            &&& mailbox[2] / 0x100_0000 == frame.data[3]
            &&& mailbox[3] % 0x100 == frame.data[4]
            &&& mailbox[3] / 0x100_0000 == frame.data[7]
        }),
{
    lemma_word_of(frame.data@, 0);
    lemma_word_of(frame.data@, 4);
}

} // verus!
