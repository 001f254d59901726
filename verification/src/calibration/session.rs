//! Arming, commands and status of the calibration's foreground loop.
use vstd::prelude::*;

use super::config::{CALIBRATION_BUS_MAXIMUM_MV, CALIBRATION_BUS_MINIMUM_MV};
use super::control;
use super::inductance;
use super::inductance::PULSE_DIAGNOSTIC_COUNT;
use super::protocol;
use super::protocol::{Command, Status};
use super::types::{Failure, Routine};
use crate::arith;
use crate::f103::hardware::peripherals::{CurrentOffsets, FaultLatch};
use crate::f103::safety;
use crate::f103::sensors::analog;

verus! {

pub const TELEMETRY_PERIOD_MS: u32 = 50;

/// A deadline lies ahead; the clock wraps.
pub open spec fn is_ahead(now: int, deadline: int) -> bool {
    0 < arith::wrap_u32(deadline - now) < 0x8000_0000
}

pub fn deadline_active(now: u32, deadline: u32) -> (r: bool)
    ensures
        r == is_ahead(now as int, deadline as int),
{
    let remaining: u32 = deadline.wrapping_sub(now);
    remaining != 0 && remaining < 0x8000_0000
}

pub fn deadline_due(now: u32, deadline: u32) -> (r: bool)
    ensures
        r == !is_ahead(now as int, deadline as int),
{
    deadline == now || deadline.wrapping_sub(now) >= 0x8000_0000
}

/// The local conditions of a calibration: control is running, the inputs are
/// valid and at rest, nothing derates, and the bus voltage is in range.
pub open spec fn conditions_hold(
    control_started: bool,
    inputs: analog::Snapshot,
    environment_limit: Option<u16>,
    environment_reasons: u8,
    bus_voltage_mv: u32,
) -> bool {
    &&& control_started
    &&& inputs.analog_valid
    &&& inputs.throttle.state is AtRest
    &&& !inputs.brake_active
    &&& environment_limit is Some
    &&& environment_reasons == 0
    &&& CALIBRATION_BUS_MINIMUM_MV <= bus_voltage_mv <= CALIBRATION_BUS_MAXIMUM_MV
}

pub fn local_ready(
    control_started: bool,
    inputs: &analog::Snapshot,
    environment_limit: Option<u16>,
    environment_reasons: u8,
    bus_voltage_mv: u32,
) -> (r: bool)
    ensures
        r == conditions_hold(
            control_started,
            *inputs,
            environment_limit,
            environment_reasons,
            bus_voltage_mv,
        ),
{
    control_started && inputs.analog_valid && inputs.throttle.is_at_rest() && !inputs.brake_active
        && environment_limit.is_some() && environment_reasons == 0 && bus_voltage_mv
        >= CALIBRATION_BUS_MINIMUM_MV && bus_voltage_mv <= CALIBRATION_BUS_MAXIMUM_MV
}

/// What the foreground knows when it handles a command.
#[derive(Clone, Copy, Debug, Eq, PartialEq, Structural)]
pub struct Conditions {
    pub now_ms: u32,
    pub local_ready: bool,
    pub active: bool,
    pub faulted: bool,
    pub motor_outputs_disabled: bool,
    pub hall_quiet: bool,
}

/// What a command leads to.
#[derive(Clone, Copy, Debug, Eq, PartialEq, Structural)]
pub struct Order {
    pub abort: bool,
    pub acknowledge_faults: bool,
    pub run: Routine,
}

impl Order {
    pub open spec fn nothing() -> Self {
        Order { abort: false, acknowledge_faults: false, run: Routine::NoRoutine }
    }
}

/// Arming state of one boot.
#[derive(Clone, Copy, Debug, Eq, PartialEq, Structural)]
pub struct Session {
    pub challenge: u16,
    pub armed: bool,
    pub arm_deadline_ms: u32,
}

impl Session {
    /// An arm command with this challenge is accepted.
    pub open spec fn may_arm(self, received: u16, c: Conditions) -> bool {
        &&& received == self.challenge
        &&& c.local_ready
        &&& !c.active
        &&& !c.faulted
        &&& c.motor_outputs_disabled
        &&& c.hall_quiet
    }

    /// A run command with this challenge is accepted.
    pub open spec fn may_run(self, received: u16, c: Conditions) -> bool {
        &&& self.armed
        &&& is_ahead(c.now_ms as int, self.arm_deadline_ms as int)
        &&& received == self.challenge
        &&& c.local_ready
        &&& c.hall_quiet
    }

    /// The session without its arming.
    pub open spec fn disarmed(self) -> Self {
        Session { armed: false, ..self }
    }

    /// The session and the order after a run command: it uses the arming up.
    pub open spec fn ran(self, routine: Routine, received: u16, c: Conditions) -> (Self, Order) {
        (
            self.disarmed(),
            if self.may_run(received, c) {
                Order { run: routine, ..Order::nothing() }
            } else {
                Order::nothing()
            },
        )
    }

    /// The session and the order after a command.
    pub open spec fn handled(self, command: Command, c: Conditions) -> (Self, Order) {
        match command {
            Command::Stop => (
                self.disarmed(),
                Order { abort: c.active, acknowledge_faults: c.local_ready, ..Order::nothing() },
            ),
            Command::Arm { challenge } => (
                if self.may_arm(challenge, c) {
                    Session {
                        armed: true,
                        arm_deadline_ms: arith::wrap_u32(
                            c.now_ms + protocol::ARM_WINDOW_MS,
                        ) as u32,
                        ..self
                    }
                } else {
                    self.disarmed()
                },
                Order::nothing(),
            ),
            Command::RunResistance { challenge } => self.ran(Routine::Resistance, challenge, c),
            Command::RunInductance { challenge } => self.ran(Routine::Inductance, challenge, c),
            Command::RunFluxLinkage { challenge } => self.ran(Routine::FluxLinkage, challenge, c),
            Command::RunHall { challenge } => self.ran(Routine::Hall, challenge, c),
        }
    }

    /// Disarmed, as after every reset.
    pub fn new(offsets: CurrentOffsets, boot_nonce: u16) -> (r: Self)
        ensures
            r == (Session {
                challenge: protocol::challenge_of(offsets.phase_a, offsets.phase_b, boot_nonce),
                armed: false,
                arm_deadline_ms: 0,
            }),
    {
        Session {
            challenge: protocol::challenge(offsets.phase_a, offsets.phase_b, boot_nonce),
            armed: false,
            arm_deadline_ms: 0,
        }
    }

    /// Withdraws an arming whose conditions or window are over. Says whether a
    /// running routine is to be aborted by the local interlock.
    pub fn refresh(&mut self, now_ms: u32, active: bool, local_ready: bool) -> (r: bool)
        ensures
            r == (active && !local_ready),
            *final(self) == (Session {
                armed: old(self).armed && !r && is_ahead(
                    now_ms as int,
                    old(self).arm_deadline_ms as int,
                ),
                ..*old(self)
            }),
    {
        let interlocked = active && !local_ready;
        if interlocked {
            self.armed = false;
        }
        if self.armed && !deadline_active(now_ms, self.arm_deadline_ms) {
            self.armed = false;
        }
        interlocked
    }

    fn run(&mut self, routine: Routine, received: u16, conditions: &Conditions) -> (r: Order)
        ensures
            (*final(self), r) == old(self).ran(routine, received, *conditions),
    {
        let ready = self.armed && deadline_active(conditions.now_ms, self.arm_deadline_ms)
            && received == self.challenge && conditions.local_ready && conditions.hall_quiet;
        self.armed = false;
        Order {
            abort: false,
            acknowledge_faults: false,
            run: if ready {
                routine
            } else {
                Routine::NoRoutine
            },
        }
    }

    /// Handles a command.
    pub fn handle(&mut self, command: Command, conditions: &Conditions) -> (r: Order)
        ensures
            (*final(self), r) == old(self).handled(command, *conditions),
    {
        match command {
            Command::Stop => {
                self.armed = false;
                Order {
                    abort: conditions.active,
                    acknowledge_faults: conditions.local_ready,
                    run: Routine::NoRoutine,
                }
            },
            Command::Arm { challenge } => {
                self.armed = challenge == self.challenge && conditions.local_ready
                    && !conditions.active && !conditions.faulted
                    && conditions.motor_outputs_disabled && conditions.hall_quiet;
                if self.armed {
                    self.arm_deadline_ms = conditions.now_ms.wrapping_add(protocol::ARM_WINDOW_MS);
                }
                Order { abort: false, acknowledge_faults: false, run: Routine::NoRoutine }
            },
            Command::RunResistance { challenge } => self.run(
                Routine::Resistance,
                challenge,
                conditions,
            ),
            Command::RunInductance { challenge } => self.run(
                Routine::Inductance,
                challenge,
                conditions,
            ),
            Command::RunFluxLinkage { challenge } => self.run(
                Routine::FluxLinkage,
                challenge,
                conditions,
            ),
            Command::RunHall { challenge } => self.run(Routine::Hall, challenge, conditions),
        }
    }
}

/// The control interrupt with an order's abort asked for.
pub open spec fn aborted(
    order: Order,
    control: control::CalibrationControl,
) -> control::CalibrationControl {
    if order.abort {
        control::CalibrationControl { abort_reason: Failure::Stopped, ..control }
    } else {
        control
    }
}

/// The control interrupt with an order's routine asked for.
pub open spec fn requested(
    order: Order,
    control: control::CalibrationControl,
) -> control::CalibrationControl {
    if !(order.run is NoRoutine) && control.admits(order.run) {
        control::CalibrationControl { requested_routine: order.run, ..control }
    } else {
        control
    }
}

/// Asks the control interrupt for what an order says. Says whether faults were
/// acknowledged, which the break input can refuse.
pub fn carry_out(
    order: &Order,
    control: &mut control::CalibrationControl,
    break_active: bool,
) -> (r: bool)
    ensures
        r == (order.acknowledge_faults && !break_active),
        ({
            let acknowledged = control::CalibrationControl {
                faults: if r {
                    FaultLatch::rearmed()
                } else {
                    old(control).faults
                },
                forensics: final(control).forensics,
                ..aborted(*order, *old(control))
            };
            &&& *final(control) == requested(*order, acknowledged)
            &&& if r {
                safety::episode_starts(old(control).forensics, final(control).forensics)
            } else {
                final(control).forensics == old(control).forensics
            }
        }),
{
    if order.abort {
        control.abort(Failure::Stopped);
    }
    let acknowledged = order.acknowledge_faults && control.acknowledge_faults(break_active);
    request(order, control);
    acknowledged
}

fn request(order: &Order, control: &mut control::CalibrationControl)
    ensures
        *final(control) == requested(*order, *old(control)),
{
    let _ = match order.run {
        Routine::Resistance => control.request_resistance(),
        Routine::Inductance => control.request_inductance(),
        Routine::FluxLinkage => control.request_flux_linkage(),
        Routine::Hall => control.request_hall(),
        Routine::NoRoutine => false,
    };
}

/// Page and diagnostic slot that the next status frame carries.
#[derive(Clone, Copy, Debug, Eq, PartialEq, Structural)]
pub struct StatusRotation {
    pub page: u8,
    pub diagnostic_slot: u8,
}

impl StatusRotation {
    pub open spec fn wf(self) -> bool {
        self.page < protocol::STATUS_PAGE_COUNT && self.diagnostic_slot < PULSE_DIAGNOSTIC_COUNT
    }

    /// Frames sent since the first page with the first slot.
    pub open spec fn position(self) -> int {
        self.diagnostic_slot * protocol::STATUS_PAGE_COUNT + self.page
    }

    pub fn new() -> (r: Self)
        ensures
            r.wf(),
            r.position() == 0,
    {
        StatusRotation { page: 0, diagnostic_slot: 0 }
    }

    /// Moves on after a frame was sent: to the next page, and with the first page
    /// to the next slot.
    pub fn sent(&mut self)
        requires
            old(self).wf(),
        ensures
            final(self).wf(),
            final(self).position() == (old(self).position() + 1) % (protocol::STATUS_PAGE_COUNT
                * PULSE_DIAGNOSTIC_COUNT),
    {
        self.page = (self.page + 1) % protocol::STATUS_PAGE_COUNT;
        if self.page == 0 {
            self.diagnostic_slot = (self.diagnostic_slot + 1) % PULSE_DIAGNOSTIC_COUNT;
        }
    }
}

/// What the status reports beside the control snapshot.
#[derive(Clone, Copy, Debug, Eq, PartialEq, Structural)]
pub struct Surroundings {
    pub local_ready: bool,
    pub hall_quiet: bool,
    pub motor_outputs_disabled: bool,
    pub can_rx_fifo_overrun: bool,
    pub can_command_queue_drop: bool,
    pub bus_voltage_mv: u32,
    pub environment_reasons: u8,
    pub offsets: CurrentOffsets,
    pub diagnostic_slot: u8,
}

/// Status of a session. The sweep's centers average both directions, so the
/// forward and the reverse pages carry the same ones; the Hall speed is not
/// measured.
pub open spec fn status_of(
    session: Session,
    c: control::CalibrationControl,
    s: Surroundings,
) -> Status {
    Status {
        routine: c.routine.number(),
        state: c.state_number(),
        failure: c.failure().number(),
        challenge: session.challenge,
        armed: session.armed,
        local_ready: s.local_ready,
        output_active: c.output_active,
        voltage_limited: c.voltage_limited,
        hall_quiet: s.hall_quiet,
        motor_outputs_disabled: s.motor_outputs_disabled,
        can_rx_fifo_overrun: s.can_rx_fifo_overrun,
        can_command_queue_drop: s.can_command_queue_drop,
        low_current_counts: c.resistance.result.low.current_counts,
        low_voltage_ticks: c.resistance.result.low.voltage_ticks,
        high_current_counts: c.resistance.result.high.current_counts,
        high_voltage_ticks: c.resistance.result.high.voltage_ticks,
        effective_uv_per_count: c.resistance.result.effective_uv_per_count,
        nominal_resistance_uohm: c.resistance.result.nominal_resistance_uohm,
        target_d_counts: c.target_d_counts,
        measured_d_counts: c.measured_d_counts,
        applied_d_ticks: c.applied_d_ticks,
        maximum_phase_current_abs: c.maximum_phase_current_abs,
        bus_voltage_mv: arith::sat_u16(s.bus_voltage_mv as int) as u16,
        offset_a: s.offsets.phase_a,
        offset_b: s.offsets.phase_b,
        environment_reasons: s.environment_reasons,
        sample_progress: c.progress() as u16,
        fault_flags: c.faults.mask() as u32,
        maximum_control_cycles: arith::sat_u16(c.maximum_control_cycles as int) as u16,
        timing_overruns: c.timing_overruns,
        inductance_d_nwb_per_count: c.inductance.result.inductance_d_nwb_per_count,
        inductance_q_nwb_per_count: c.inductance.result.inductance_q_nwb_per_count,
        residual_dead_time_uv: c.inductance.result.residual_dead_time_uv,
        pulse_step_d_ticks: c.inductance.result.pulse_step_d_ticks,
        pulse_step_q_ticks: c.inductance.result.pulse_step_q_ticks,
        last_pulse_di_counts: c.inductance.result.last_pulse_di_counts,
        flux_linkage_nwb: c.flux_linkage.result.flux_linkage_nwb,
        average_bemf_d_uv: c.flux_linkage.result.average_bemf_d_uv,
        average_bemf_q_uv: c.flux_linkage.result.average_bemf_q_uv,
        flux_measurement_erpm: c.flux_linkage.result.measurement_erpm,
        hall_measurement_erpm: 0,
        sync_minimum_percent: c.flux_linkage.result.sync_minimum_percent,
        hall_forward_centers_q16: c.hall.result.centers_q16,
        hall_reverse_centers_q16: c.hall.result.centers_q16,
        hall_valid_mask: c.hall.result.valid_mask,
        hall_forward_minimum_samples: c.hall.result.minimum_samples,
        hall_reverse_minimum_samples: c.hall.result.minimum_samples,
        pulse_diagnostic_slot: (s.diagnostic_slot as int % 12) as u8,
        pulse_diagnostic: c.inductance.result.pulse_diagnostics@[s.diagnostic_slot as int % 12],
    }
}

pub fn status(session: &Session, control: &control::CalibrationControl, around: &Surroundings) -> (r:
    Status)
    requires
        control.wf(),
    ensures
        r == status_of(*session, *control, *around),
{
    let c = control.snapshot();
    let slot: u8 = around.diagnostic_slot % PULSE_DIAGNOSTIC_COUNT;
    Status {
        routine: c.routine.code(),
        state: c.state,
        failure: c.failure.code(),
        challenge: session.challenge,
        armed: session.armed,
        local_ready: around.local_ready,
        output_active: c.output_active,
        voltage_limited: c.voltage_limited,
        hall_quiet: around.hall_quiet,
        motor_outputs_disabled: around.motor_outputs_disabled,
        can_rx_fifo_overrun: around.can_rx_fifo_overrun,
        can_command_queue_drop: around.can_command_queue_drop,
        low_current_counts: c.low.current_counts,
        low_voltage_ticks: c.low.voltage_ticks,
        high_current_counts: c.high.current_counts,
        high_voltage_ticks: c.high.voltage_ticks,
        effective_uv_per_count: c.effective_uv_per_count,
        nominal_resistance_uohm: c.nominal_resistance_uohm,
        target_d_counts: c.target_d_counts,
        measured_d_counts: c.measured_d_counts,
        applied_d_ticks: c.applied_d_ticks,
        maximum_phase_current_abs: c.maximum_phase_current_abs,
        bus_voltage_mv: arith::sat_u32_to_u16(around.bus_voltage_mv),
        offset_a: around.offsets.phase_a,
        offset_b: around.offsets.phase_b,
        environment_reasons: around.environment_reasons,
        sample_progress: c.sample_progress,
        fault_flags: c.fault_flags,
        maximum_control_cycles: arith::sat_u32_to_u16(c.maximum_control_cycles),
        timing_overruns: c.timing_overruns,
        inductance_d_nwb_per_count: c.inductance_d_nwb_per_count,
        inductance_q_nwb_per_count: c.inductance_q_nwb_per_count,
        residual_dead_time_uv: c.residual_dead_time_uv,
        pulse_step_d_ticks: c.pulse_step_d_ticks,
        pulse_step_q_ticks: c.pulse_step_q_ticks,
        last_pulse_di_counts: c.last_pulse_di_counts,
        flux_linkage_nwb: c.flux_linkage_nwb,
        average_bemf_d_uv: c.average_bemf_d_uv,
        average_bemf_q_uv: c.average_bemf_q_uv,
        flux_measurement_erpm: c.flux_measurement_erpm,
        hall_measurement_erpm: 0,
        sync_minimum_percent: c.sync_minimum_percent,
        hall_forward_centers_q16: c.hall_centers_q16,
        hall_reverse_centers_q16: c.hall_centers_q16,
        hall_valid_mask: c.hall_valid_mask,
        hall_forward_minimum_samples: c.hall_minimum_samples,
        hall_reverse_minimum_samples: c.hall_minimum_samples,
        pulse_diagnostic_slot: slot,
        pulse_diagnostic: control.inductance.result.pulse_diagnostics[slot as usize],
    }
}

/// Only an armed session runs anything: a run command with the wrong challenge,
/// outside the window, or with a local condition missing orders nothing, and
/// every run command uses the arming up.
pub proof fn law_run_needs_a_fresh_arming(session: Session, command: Command, c: Conditions)
    ensures
        !(session.handled(command, c).1.run is NoRoutine) ==> {
            &&& session.armed
            &&& c.local_ready
            &&& c.hall_quiet
            &&& is_ahead(c.now_ms as int, session.arm_deadline_ms as int)
            &&& !session.handled(command, c).0.armed
        },
{
}

/// Stopping needs no arming and no challenge: a stop aborts whatever runs and
/// disarms.
pub proof fn law_stop_is_unconditional(session: Session, c: Conditions)
    ensures
        session.handled(Command::Stop, c).1.abort == c.active,
        !session.handled(Command::Stop, c).0.armed,
{
}

/// An arming lasts for its window and no longer, whatever the clock reads.
pub proof fn law_arming_lasts_for_its_window(
    session: Session,
    challenge: u16,
    c: Conditions,
    elapsed_ms: int,
)
    requires
        session.may_arm(challenge, c),
        0 <= elapsed_ms <= 0x8000_0000,
    ensures
        is_ahead(
            arith::wrap_u32(c.now_ms + elapsed_ms),
            session.handled(Command::Arm { challenge }, c).0.arm_deadline_ms as int,
        ) == (elapsed_ms < protocol::ARM_WINDOW_MS),
{
}

/// An arming is owed to the right challenge under the right conditions, and every
/// other arm command disarms.
pub proof fn law_arming_needs_challenge_and_conditions(
    session: Session,
    challenge: u16,
    c: Conditions,
)
    ensures
        ({
            let (next, order) = session.handled(Command::Arm { challenge }, c);
            &&& next.armed <==> {
                &&& challenge == session.challenge
                &&& c.local_ready
                &&& !c.active
                &&& !c.faulted
                &&& c.motor_outputs_disabled
                &&& c.hall_quiet
            }
            &&& next.challenge == session.challenge
            &&& order.run is NoRoutine
            &&& !order.abort
            &&& !order.acknowledge_faults
        }),
{
}

/// An armed session in its window runs the routine that is asked for with the
/// right challenge, and that routine alone.
pub proof fn law_armed_session_runs_what_is_asked(session: Session, challenge: u16, c: Conditions)
    requires
        session.armed,
        challenge == session.challenge,
        c.local_ready,
        c.hall_quiet,
        0 < arith::wrap_u32(session.arm_deadline_ms - c.now_ms) < 0x8000_0000,
    ensures
        session.handled(Command::RunResistance { challenge }, c).1.run is Resistance,
        session.handled(Command::RunInductance { challenge }, c).1.run is Inductance,
        session.handled(Command::RunFluxLinkage { challenge }, c).1.run is FluxLinkage,
        session.handled(Command::RunHall { challenge }, c).1.run is Hall,
        !session.handled(Command::RunHall { challenge }, c).1.abort,
{
}

/// An order reaches the control interrupt as it was given: a stop as an abort, a
/// routine as a request if it is admitted.
pub proof fn law_order_reaches_the_control(order: Order, c: control::CalibrationControl)
    ensures
        order.abort ==> aborted(order, c).abort_reason is Stopped,
        !order.abort ==> aborted(order, c) == c,
        !(order.run is NoRoutine) && c.admits(order.run) ==> requested(
            order,
            c,
        ).requested_routine == order.run,
        !c.admits(order.run) ==> requested(order, c) == c,
        order.run is NoRoutine ==> requested(order, c) == c,
{
}

/// Each condition is needed, and together they are enough.
pub proof fn law_conditions_are_all_needed(
    control_started: bool,
    inputs: analog::Snapshot,
    environment_limit: Option<u16>,
    environment_reasons: u8,
    bus_voltage_mv: u32,
)
    ensures
        conditions_hold(
            control_started,
            inputs,
            environment_limit,
            environment_reasons,
            bus_voltage_mv,
        ) <==> !(!control_started || !inputs.analog_valid || inputs.brake_active
            || environment_limit is None || environment_reasons != 0 || bus_voltage_mv < 39_000
            || bus_voltage_mv > 60_000 || inputs.throttle.state is Invalid
            || inputs.throttle.requested() is Some),
{
}

/// The status shows the session, the control and the four results, each in its own
/// field.
pub proof fn law_status_shows_the_results(
    session: Session,
    c: control::CalibrationControl,
    s: Surroundings,
)
    ensures
        ({
            let r = status_of(session, c, s);
            &&& r.challenge == session.challenge && r.armed == session.armed
            &&& r.routine == c.routine.number() && r.failure == c.failure().number()
            &&& r.local_ready == s.local_ready && r.hall_quiet == s.hall_quiet
            &&& r.motor_outputs_disabled == s.motor_outputs_disabled
            &&& r.can_rx_fifo_overrun == s.can_rx_fifo_overrun
            &&& r.can_command_queue_drop == s.can_command_queue_drop
            &&& r.output_active == c.output_active && r.voltage_limited == c.voltage_limited
            &&& r.target_d_counts == c.target_d_counts
            &&& r.measured_d_counts == c.measured_d_counts
            &&& r.applied_d_ticks == c.applied_d_ticks
            &&& r.maximum_phase_current_abs == c.maximum_phase_current_abs
            &&& r.offset_a == s.offsets.phase_a && r.offset_b == s.offsets.phase_b
            &&& r.environment_reasons == s.environment_reasons
            &&& s.bus_voltage_mv <= 0xffff ==> r.bus_voltage_mv == s.bus_voltage_mv
            &&& r.fault_flags != 0 <==> c.faults.is_set()
            &&& r.timing_overruns == c.timing_overruns
        }),
        ({
            let r = status_of(session, c, s);
            let resistance = c.resistance.result;
            let inductance = c.inductance.result;
            let flux = c.flux_linkage.result;
            &&& r.low_current_counts == resistance.low.current_counts
            &&& r.low_voltage_ticks == resistance.low.voltage_ticks
            &&& r.high_current_counts == resistance.high.current_counts
            &&& r.high_voltage_ticks == resistance.high.voltage_ticks
            &&& r.effective_uv_per_count == resistance.effective_uv_per_count
            &&& r.nominal_resistance_uohm == resistance.nominal_resistance_uohm
            &&& r.inductance_d_nwb_per_count == inductance.inductance_d_nwb_per_count
            &&& r.inductance_q_nwb_per_count == inductance.inductance_q_nwb_per_count
            &&& r.residual_dead_time_uv == inductance.residual_dead_time_uv
            &&& r.pulse_step_d_ticks == inductance.pulse_step_d_ticks
            &&& r.pulse_step_q_ticks == inductance.pulse_step_q_ticks
            &&& r.last_pulse_di_counts == inductance.last_pulse_di_counts
            &&& s.diagnostic_slot < 12 ==> r.pulse_diagnostic_slot == s.diagnostic_slot
                && r.pulse_diagnostic == inductance.pulse_diagnostics[s.diagnostic_slot as int]
            &&& r.flux_linkage_nwb == flux.flux_linkage_nwb
            &&& r.average_bemf_d_uv == flux.average_bemf_d_uv
            &&& r.average_bemf_q_uv == flux.average_bemf_q_uv
            &&& r.flux_measurement_erpm == flux.measurement_erpm
            &&& r.sync_minimum_percent == flux.sync_minimum_percent
            &&& r.hall_forward_centers_q16 == c.hall.result.centers_q16
            &&& r.hall_valid_mask == c.hall.result.valid_mask
            &&& r.hall_forward_minimum_samples == c.hall.result.minimum_samples
        }),
{
}

/// A stop acknowledges faults exactly under the local conditions, and asks for
/// nothing to run.
pub proof fn law_stop_acknowledges_under_local_conditions(session: Session, c: Conditions)
    ensures
        ({
            let (next, order) = session.handled(Command::Stop, c);
            &&& order.acknowledge_faults == c.local_ready
            &&& order.run is NoRoutine
            &&& next.challenge == session.challenge
        }),
{
}

} // verus!
