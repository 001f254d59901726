//! What holds of a control cycle as a whole, across its stages.
use vstd::prelude::*;

use crate::arith;
use crate::f103::config;
use crate::f103::control::foc;
use crate::f103::control::foc::{
    CommandMailbox, ControlDiagnostics, ControlRuntime, ControlState, CycleContext,
    DirectCurrentPeakEvent, RideFocDriver, SafetyLossReason,
};
use crate::f103::hardware::peripherals;
use crate::foc::control_types::PwmDuty;
use crate::foc::numeric;
use crate::foc::numeric::{Fixed, Scalar};
use crate::foc::offset_tracker;
use crate::foc::phase::{ObserverDiagnostics, PhaseEstimate, PhaseProvider};
use crate::foc::trig::Turns;
use crate::motor::foc_driver::FocOutput;

verus! {

/// The drive is at rest: no output is reported, and neither the current
/// controller nor the ramp remembers anything.
#[verifier::opaque]
pub open spec fn is_at_rest(runtime: ControlRuntime) -> bool {
    &&& !runtime.state.diagnostics.output_active
    &&& runtime.state.diagnostics.target_q_counts == 0
    &&& runtime.state.driver == runtime.state.driver.cleared()
    &&& runtime.state.target_ramp == runtime.state.target_ramp.cleared()
    &&& !runtime.state.command_was_enabled
}

proof fn lemma_halted_is_at_rest(runtime: ControlRuntime, loss: Option<SafetyLossReason>)
    ensures
        is_at_rest(runtime.halted(loss)),
{
    reveal(is_at_rest);
    reveal(ControlRuntime::halted);
}

/// A cycle that sensing ends leaves the drive at rest.
pub proof fn law_sensing_ends_at_rest(
    runtime: ControlRuntime,
    readings: Option<(u16, u16)>,
    motor_outputs_disabled: bool,
    edge: (u32, u8, u32),
)
    ensures
        ({
            let (sensed, context) = runtime.sensed(readings, motor_outputs_disabled, edge);
            context is None ==> is_at_rest(sensed)
        }),
{
    assert forall|any: ControlRuntime, loss: Option<SafetyLossReason>| is_at_rest(
        #[trigger] any.halted(loss),
    ) by {
        lemma_halted_is_at_rest(any, loss);
    }
    reveal(ControlRuntime::hall_lost);
}

/// A cycle that estimating ends leaves the drive at rest.
pub proof fn law_estimating_ends_at_rest(
    runtime: ControlRuntime,
    context: CycleContext,
    edge_age_us: u32,
    live_hall: u8,
    motor_outputs_disabled: bool,
)
    ensures
        ({
            let (estimated, estimate) = runtime.estimated(
                context,
                edge_age_us,
                live_hall,
                motor_outputs_disabled,
            );
            estimate is None ==> is_at_rest(estimated)
        }),
{
    assert forall|any: ControlRuntime, loss: Option<SafetyLossReason>| is_at_rest(
        #[trigger] any.halted(loss),
    ) by {
        lemma_halted_is_at_rest(any, loss);
    }
    reveal(ControlRuntime::hall_lost);
}

/// A cycle that driving ends leaves the drive at rest.
pub proof fn law_driving_ends_at_rest(
    runtime: ControlRuntime,
    context: CycleContext,
    estimate: PhaseEstimate<Turns>,
    edge_age_us: u32,
    pre_driver_cycles: u32,
)
    ensures
        ({
            let (driven, compares) = runtime.driven(
                context,
                estimate,
                edge_age_us,
                pre_driver_cycles,
            );
            compares is None ==> is_at_rest(driven)
        }),
{
    assert forall|any: ControlRuntime, loss: Option<SafetyLossReason>| is_at_rest(
        #[trigger] any.halted(loss),
    ) by {
        lemma_halted_is_at_rest(any, loss);
    }
    reveal(ControlRuntime::step_tripped);
}

/// Refused compares, and a standing rotor found elsewhere, leave the drive at
/// rest.
pub proof fn law_refusal_ends_at_rest(runtime: ControlRuntime)
    ensures
        is_at_rest(runtime.finished(false)),
        is_at_rest(runtime.mismatched()),
{
    reveal(ControlRuntime::hall_lost);
    lemma_halted_is_at_rest(runtime, Some(SafetyLossReason::PwmOutput));
    lemma_halted_is_at_rest(
        runtime.with_state(runtime.state.hall_reported(false)),
        Some(SafetyLossReason::HallStationaryMismatch),
    );
}

/// A usable sample carries the cycle on: with no new edge and no overcurrent the
/// cycle gets its values, the currents are the readings' distances from the
/// offsets, the cycle and the sample are counted, and a command of the present
/// epoch counts as started exactly once.
#[verifier::rlimit(40)]
pub proof fn law_usable_sample_goes_on(
    runtime: ControlRuntime,
    raw_a: u16,
    raw_b: u16,
    motor_outputs_disabled: bool,
    raw_hall: u8,
    interval_us: u32,
)
    requires
        peripherals::readings_in_range(raw_a, raw_b, runtime.state.offsets),
        ({
            let sample = peripherals::currents_of(raw_a, raw_b, runtime.state.offsets);
            sample.peak() <= config::PHASE_CURRENT_TRIP_COUNTS || !runtime.entered().is_driven()
        }),
    ensures
        ({
            let sequence = runtime.state.hardware_hall_sequence;
            let (sensed, context) = runtime.sensed(
                Some((raw_a, raw_b)),
                motor_outputs_disabled,
                (sequence, raw_hall, interval_us),
            );
            let cycle = arith::wrap_u32(runtime.mailbox.control_cycle + 1);
            let commanded = runtime.mailbox.enabled && runtime.mailbox.safety_epoch
                == runtime.state.diagnostics.safety_events;
            let left = arith::wrap_u32(runtime.mailbox.deadline - cycle);
            &&& context is Some
            &&& context->0.control_cycle == cycle
            &&& context->0.current.phase_a == raw_a - runtime.state.offsets.phase_a
            &&& context->0.current.phase_b == raw_b - runtime.state.offsets.phase_b
            &&& context->0.command_enabled == commanded
            &&& context->0.command_started == (commanded && !runtime.state.command_was_enabled)
            &&& context->0.lease_active == (commanded && 0 < left < 0x8000_0000)
            &&& context->0.output_was_active == runtime.state.diagnostics.output_active
            &&& sensed.state.diagnostics.current_valid
            &&& sensed.state.diagnostics.injected_samples == arith::wrap_u32(
                runtime.state.diagnostics.injected_samples + 1,
            )
            &&& sensed.faults == runtime.faults
            &&& sensed.mailbox.enabled == runtime.mailbox.enabled
            &&& sensed.mailbox.target_q_counts == runtime.mailbox.target_q_counts
        }),
{
}

/// Offsets follow the readings only while nothing is or may be driven: with a
/// lease, or with the outputs still on, they stand.
pub proof fn law_offsets_follow_only_undriven_samples(
    runtime: ControlRuntime,
    raw_a: u16,
    raw_b: u16,
    motor_outputs_disabled: bool,
    raw_hall: u8,
    interval_us: u32,
)
    requires
        peripherals::readings_in_range(raw_a, raw_b, runtime.state.offsets),
        ({
            let sample = peripherals::currents_of(raw_a, raw_b, runtime.state.offsets);
            sample.peak() <= config::PHASE_CURRENT_TRIP_COUNTS || !runtime.entered().is_driven()
        }),
    ensures
        ({
            let (sensed, context) = runtime.sensed(
                Some((raw_a, raw_b)),
                motor_outputs_disabled,
                (runtime.state.hardware_hall_sequence, raw_hall, interval_us),
            );
            let tracker = runtime.state.offset_tracker;
            &&& context->0.lease_active || !motor_outputs_disabled ==> sensed.state.offsets
                == runtime.state.offsets && sensed.state.offset_tracker == tracker
            &&& !context->0.lease_active && motor_outputs_disabled ==> sensed.state.offset_tracker
                == tracker.after(raw_a, raw_b)
        }),
{
}

/// A phase current beyond the trip ends a driven cycle: the authority is gone,
/// the trip and the loss are counted, and the reason is reported.
pub proof fn law_overcurrent_ends_a_driven_cycle(
    runtime: ControlRuntime,
    raw_a: u16,
    raw_b: u16,
    motor_outputs_disabled: bool,
    edge: (u32, u8, u32),
)
    requires
        peripherals::readings_in_range(raw_a, raw_b, runtime.state.offsets),
        peripherals::currents_of(raw_a, raw_b, runtime.state.offsets).peak()
            > config::PHASE_CURRENT_TRIP_COUNTS,
        runtime.entered().is_driven(),
    ensures
        ({
            let (sensed, context) = runtime.sensed(
                Some((raw_a, raw_b)),
                motor_outputs_disabled,
                edge,
            );
            let before = runtime.state.diagnostics;
            let after = sensed.state.diagnostics;
            &&& context is None
            &&& !sensed.mailbox.enabled
            &&& after.phase_current_trips == arith::wrap_u32(before.phase_current_trips + 1)
            &&& after.safety_events == arith::wrap_u32(before.safety_events + 1)
            &&& after.last_safety_loss_reason == SafetyLossReason::PhaseOvercurrent.number()
            &&& !after.output_active
        }),
{
    reveal(ControlRuntime::halted);
}

/// A missing or impossible sample ends the cycle. While driven it latches the
/// timing fault, unless another fault is latched already, and counts as a loss;
/// undriven it only invalidates the current.
pub proof fn law_missing_sample_ends_the_cycle(
    runtime: ControlRuntime,
    readings: Option<(u16, u16)>,
    motor_outputs_disabled: bool,
    edge: (u32, u8, u32),
)
    requires
        match readings {
            None => true,
            Some((raw_a, raw_b)) => !peripherals::readings_in_range(
                raw_a,
                raw_b,
                runtime.state.offsets,
            ),
        },
    ensures
        ({
            let (sensed, context) = runtime.sensed(readings, motor_outputs_disabled, edge);
            let driven = runtime.entered().is_driven();
            let before = runtime.state.diagnostics;
            let after = sensed.state.diagnostics;
            &&& context is None
            &&& !after.current_valid
            &&& driven ==> sensed.faults.is_set() && !sensed.mailbox.enabled && after.safety_events
                == arith::wrap_u32(before.safety_events + 1) && after.last_safety_loss_reason
                == SafetyLossReason::CurrentSample.number()
            &&& driven && !runtime.faults.is_set() ==> sensed.faults.control_timing
            &&& !driven ==> sensed.faults == runtime.faults && after.safety_events
                == before.safety_events && sensed.mailbox.enabled == runtime.mailbox.enabled
        }),
{
    reveal(ControlRuntime::halted);
}

/// Edges are taken one by one: a gap in their sequence latches the capture fault
/// and ends the authority, a refused edge ends it without one, and an accepted
/// edge moves the progress by its direction relative to the forward one.
#[verifier::rlimit(40)]
pub proof fn law_edges_are_taken_one_by_one(
    runtime: ControlRuntime,
    sequence: u32,
    raw: u8,
    interval_us: u32,
)
    requires
        sequence != runtime.state.hardware_hall_sequence,
    ensures
        ({
            let (seen, goes_on) = runtime.edge_seen(sequence, raw, interval_us);
            let last = runtime.state.hardware_hall_sequence;
            let hall = runtime.state.driver.phase.hall;
            let gap = last != 0 && sequence != arith::wrap_u32(last + 1);
            let accepted = hall.edge_outcome(raw, interval_us) is Ok;
            let after = hall.after_edge(raw, interval_us);
            let forward = after.direction * after.geometry.positive_angle_direction;
            &&& gap ==> !goes_on && seen.faults.hall_capture && !seen.mailbox.enabled
                && !seen.state.diagnostics.hall_valid
            &&& !gap && !accepted ==> !goes_on && seen.faults == runtime.faults
                && !seen.mailbox.enabled && !seen.state.diagnostics.hall_valid
            &&& !gap && accepted ==> {
                &&& goes_on
                &&& seen.state.hardware_hall_sequence == sequence
                &&& seen.state.driver.phase.hall == after
                &&& seen.state.diagnostics.hall_sequence == sequence
                &&& seen.state.diagnostics.hall_interval_us == after.measured_interval_us
                &&& forward == 1 ==> seen.state.diagnostics.hall_progress == arith::wrap_i32(
                    runtime.state.diagnostics.hall_progress + 1,
                )
                &&& forward == -1 ==> seen.state.diagnostics.hall_progress == arith::wrap_i32(
                    runtime.state.diagnostics.hall_progress - 1,
                )
                &&& seen.mailbox == runtime.mailbox
                &&& seen.faults == runtime.faults
            }
        }),
{
    reveal(ControlRuntime::halted);
    reveal(ControlRuntime::hall_lost);
    reveal(ControlState::edge_taken);
}

/// A cycle with a lease, without a fault and with a phase is driven, on the
/// estimate that the phase source gives for the edge's age three microseconds
/// later; a command that just started has asked for a seed before that.
#[verifier::rlimit(40)]
pub proof fn law_leased_cycle_is_driven(
    runtime: ControlRuntime,
    context: CycleContext,
    edge_age_us: u32,
    live_hall: u8,
    motor_outputs_disabled: bool,
)
    requires
        context.lease_active,
        !runtime.faults.is_set(),
        edge_age_us <= 0xffff_fff0,
    ensures
        ({
            let phase = runtime.command_noted(context).state.driver.phase;
            let answer = phase.control_estimate_at((edge_age_us + 3) as u32, 62_500);
            let (estimated, estimate) = runtime.estimated(
                context,
                edge_age_us,
                live_hall,
                motor_outputs_disabled,
            );
            &&& answer is Some ==> estimate == answer && estimated.state.diagnostics.hall_valid
                && estimated.mailbox == runtime.mailbox
            &&& answer is None && !motor_outputs_disabled ==> estimate is None
                && !estimated.mailbox.enabled && estimated.state.diagnostics.last_safety_loss_reason
                == SafetyLossReason::PhaseEstimate.number()
            &&& context.command_started ==> phase.observer_seed_requested
            &&& phase.hall == runtime.state.driver.phase.hall
            &&& phase.observer == runtime.state.driver.phase.observer
            &&& phase.source == runtime.state.driver.phase.source
        }),
{
    reveal(ControlRuntime::command_noted);
    reveal(ControlRuntime::phase_asked);
    reveal(ControlRuntime::phase_known);
    reveal(ControlRuntime::halted);
    reveal(ControlRuntime::hall_lost);
}

/// Why a known phase is not driven: a latched fault, which is a loss only if the
/// outputs were on, or a command without a lease, which is one always. Without a
/// command the cycle just stays off.
pub proof fn law_undriven_cycle_reports_its_reason(runtime: ControlRuntime, context: CycleContext)
    ensures
        ({
            let refusal = runtime.drive_refusal(context);
            let fault = runtime.faults.is_set();
            &&& refusal is None <==> !fault && context.lease_active
            &&& fault && context.output_was_active ==> refusal == Some(
                Some(SafetyLossReason::HardwareFault),
            )
            &&& fault && !context.output_was_active ==> refusal == Some(
                None::<SafetyLossReason>,
            )
            &&& !fault && !context.lease_active && context.command_enabled ==> refusal == Some(
                Some(SafetyLossReason::OutputLease),
            )
            &&& !fault && !context.lease_active && !context.command_enabled ==> refusal == Some(
                None::<SafetyLossReason>,
            )
        }),
{
}

/// A standing rotor is recovered after five equal looks at a legal state, and not
/// before: any other state starts the count again.
pub proof fn law_recovery_needs_five_equal_looks(state: ControlState, raw: u8)
    requires
        state.hall_recovery_cycles < 250,
    ensures
        ({
            let legal = state.driver.phase.hall.geometry.sector_of(raw) is Some;
            let same = raw == state.hall_recovery_raw;
            let (counted_raw, cycles) = state.recovery_counted(raw);
            &&& state.recovers(raw) <==> legal && same && state.hall_recovery_cycles + 1 >= 5
            &&& legal && same ==> cycles == state.hall_recovery_cycles + 1 && counted_raw == raw
            &&& legal && !same ==> cycles == 1 && counted_raw == raw
            &&& !legal ==> cycles == 0
            &&& state.recovers(raw) ==> {
                let tried = state.recovery_tried(raw);
                &&& tried.driver.phase.hall.valid
                &&& tried.driver.phase.hall.raw == raw
                &&& tried.driver.phase.hall.angle_erpm() == 0
                &&& tried.diagnostics.electrical_rpm == 0
            }
            &&& !state.recovers(raw) ==> state.recovery_tried(raw).driver == state.driver
        }),
{
}

/// The driver of a step is set up for what the foreground granted: the supply
/// limit of the mailbox, the regeneration limit of the ride, the voltage of a
/// tick, and an advance of one period's rotation.
pub proof fn law_step_uses_the_granted_limits(
    state: ControlState,
    dc_limit: u16,
    electrical_rpm: int,
    volts_per_tick_bits: i32,
)
    requires
        -76_000 <= electrical_rpm <= 76_000,
        dc_limit <= 480,
    ensures
        ({
            let driver = state.prepared(dc_limit, electrical_rpm, volts_per_tick_bits);
            let advance = driver.controller.actuation_advance.bits as int;
            &&& driver.current_limits.bus_in_max == Some(Fixed { bits: (dc_limit * 0x1_0000) as i32 })
            &&& driver.current_limits.bus_regen_max == Some(Fixed { bits: 0x28_0000 })
            &&& driver.current_limits.max_current == state.driver.current_limits.max_current
            &&& driver.current_limits.overcurrent_threshold
                == state.driver.current_limits.overcurrent_threshold
            &&& driver.volts_per_pwm_tick.bits == volts_per_tick_bits
            &&& driver.phase == state.driver.phase
            &&& arith::abs(1_000_000 * advance - 428_932 * electrical_rpm) <= 1_000_000 + 25
                * arith::abs(electrical_rpm)
        }),
{
}

/// The step is asked for what the ramp grants of the foreground's target, on the
/// q axis alone, and its compares are those that the driver gives for the sampled
/// currents at the estimated angle.
#[verifier::rlimit(40)]
pub proof fn law_driven_cycle_follows_the_ramp(
    runtime: ControlRuntime,
    context: CycleContext,
    estimate: PhaseEstimate<Turns>,
    edge_age_us: u32,
    pre_driver_cycles: u32,
)
    requires
        -838 <= runtime.mailbox.target_q_counts <= 0,
        -838 <= runtime.state.target_ramp.target <= 0,
        -76_000 <= estimate.electrical_rpm <= 76_000,
    ensures
        ({
            let target = runtime.requested();
            let (driven, compares) = runtime.driven(
                context,
                estimate,
                edge_age_us,
                pre_driver_cycles,
            );
            let driver = runtime.step_prepared(context, estimate, pre_driver_cycles).state.driver;
            let phase_a = Fixed { bits: (context.current.phase_a * 0x1_0000) as i32 };
            let phase_b = Fixed { bits: (context.current.phase_b * 0x1_0000) as i32 };
            let measured = RideFocDriver::measured(phase_a, phase_b, estimate);
            let output = driver.output(phase_a, phase_b, estimate, target, config::PWM_NEUTRAL);
            &&& target.d.bits == 0
            &&& target.q.bits == 0x1_0000 * arith::max(
                runtime.state.target_ramp.target as int,
                runtime.mailbox.target_q_counts as int,
            )
            &&& driver.current_limits.trips(measured) ==> compares is None
                && !driven.mailbox.enabled
            &&& !driver.current_limits.trips(measured) ==> {
                &&& compares == Some(output.duties)
                &&& driven.state.diagnostics.measured_d_counts == output.measured_current.d.whole()
                    as i16
                &&& driven.state.diagnostics.measured_q_counts == output.measured_current.q.whole()
                    as i16
                &&& driven.state.diagnostics.target_q_counts == output.target.q.whole() as i16
                &&& driven.state.diagnostics.voltage_limited == output.voltage_limited
                &&& driven.mailbox == runtime.mailbox
                &&& driven.faults == runtime.faults
            }
            &&& driver.current_limits.bus_in_max == Some(
                numeric::fixed(runtime.mailbox.dc_current_limit_counts * 0x1_0000),
            )
        }),
{
    reveal(ControlRuntime::step_prepared);
    reveal(ControlRuntime::observer_published);
    reveal(ControlState::readied);
    reveal(ControlRuntime::step_tripped);
    reveal(ControlRuntime::step_reported);
    reveal(ControlRuntime::halted);
}

/// Accepted compares mean an active output, and nothing else changes for the
/// next cycle; refused ones are a loss with its own reason.
pub proof fn law_accepted_compares_are_active(runtime: ControlRuntime)
    ensures
        runtime.finished(true).state.diagnostics.output_active,
        runtime.finished(true).mailbox == runtime.mailbox,
        runtime.finished(true).faults == runtime.faults,
        runtime.finished(true).state.driver == runtime.state.driver,
        !runtime.finished(false).mailbox.enabled,
        runtime.finished(false).state.diagnostics.last_safety_loss_reason
            == SafetyLossReason::PwmOutput.number(),
{
    reveal(ControlRuntime::halted);
}

/// Timing is judged by its budget: the maximum never falls, a cycle over 3,900
/// counts a warning, and only one over 4,500 counts an overrun and latches the
/// fault.
pub proof fn law_timing_is_judged_by_the_budget(runtime: ControlRuntime, elapsed: u32)
    ensures
        ({
            let before = runtime.state.diagnostics;
            let after = runtime.timed(elapsed).state.diagnostics;
            let slow = elapsed > 3_900;
            let over = elapsed > 4_500;
            &&& after.control_max_cycles >= before.control_max_cycles
            &&& after.control_max_cycles >= elapsed
            &&& after.control_max_cycles == before.control_max_cycles || after.control_max_cycles
                == elapsed
            &&& slow ==> after.control_budget_warnings == arith::wrap_u32(
                before.control_budget_warnings + 1,
            )
            &&& !slow ==> after.control_budget_warnings == before.control_budget_warnings
            &&& over ==> after.control_budget_overruns == arith::wrap_u32(
                before.control_budget_overruns + 1,
            )
            &&& !over ==> after.control_budget_overruns == before.control_budget_overruns
                && runtime.timed(elapsed).faults == runtime.faults && runtime.timed(elapsed).mailbox
                == runtime.mailbox
        }),
{
    reveal(ControlDiagnostics::cycle_counted);
    reveal(ControlRuntime::overrun);
}

/// A permitted grant is taken as it is, belongs to the epoch it names, and is
/// enabled.
pub proof fn law_permitted_grant_is_taken_as_it_is(
    mailbox: CommandMailbox,
    target_q_counts: i16,
    dc_current_limit_counts: u16,
    lifetime_cycles: u32,
    safety_epoch: u32,
)
    requires
        -838 <= target_q_counts <= 0,
        dc_current_limit_counts <= 480,
    ensures
        ({
            let granted = mailbox.authorized(
                target_q_counts,
                dc_current_limit_counts,
                lifetime_cycles,
                safety_epoch,
            );
            &&& granted.enabled
            &&& granted.target_q_counts == target_q_counts
            &&& granted.dc_current_limit_counts == dc_current_limit_counts
            &&& granted.safety_epoch == safety_epoch
            &&& granted.control_cycle == mailbox.control_cycle
            &&& granted.observer_volts_per_pwm_tick_bits
                == mailbox.observer_volts_per_pwm_tick_bits
            &&& !granted.revoked().enabled
            &&& granted.revoked().target_q_counts == 0
            &&& granted.revoked().dc_current_limit_counts == 0
        }),
{
}

/// Telemetry units: a share of one becomes the nearest of 255 parts, a scaled
/// value is rounded down, and the span reaches from the smallest compare to the
/// largest.
pub proof fn law_report_units_are_rounded(value: Fixed, scale: int, duty: PwmDuty)
    requires
        0 < scale <= 1_000,
        arith::abs(value.bits as int) <= 0x4000_0000,
    ensures
        ({
            let share = arith::clamp(value.bits as int, 0, 0x1_0000);
            arith::abs(0x1_0000 * foc::unit_byte(value) - 255 * share) <= 0x8000
        }),
        ({
            let units = foc::scaled_units(value, scale);
            0x1_0000 * units <= value.bits * scale < 0x1_0000 * (units + 1)
        }),
        ({
            let span = foc::span_of(duty);
            &&& span >= arith::abs(duty.a - duty.b)
            &&& span >= arith::abs(duty.b - duty.c)
            &&& span >= arith::abs(duty.a - duty.c)
            &&& span == arith::abs(duty.a - duty.b) || span == arith::abs(duty.b - duty.c) || span
                == arith::abs(duty.a - duty.c)
        }),
{
    let product = value.bits * scale;
    assert(arith::abs(product) <= 0x4000_0000 * 1_000) by (nonlinear_arith)
        requires
            product == value.bits * scale,
            arith::abs(value.bits as int) <= 0x4000_0000,
            0 < scale <= 1_000,
    ;
}

/// The largest currents and spans of an episode never fall, cover every step, and
/// are reached by one.
pub proof fn law_peaks_cover_every_step(
    d: ControlDiagnostics,
    output: FocOutput,
    event: DirectCurrentPeakEvent,
    span: int,
)
    requires
        0 <= span <= u16::MAX,
    ensures
        ({
            let next = d.stepped(output, event, span);
            let direct = arith::abs(event.measured_d_counts as int);
            let error = arith::abs(event.target_q_counts - event.measured_q_counts);
            &&& next.maximum_direct_current_abs >= d.maximum_direct_current_abs
            &&& next.maximum_direct_current_abs >= direct
            &&& next.maximum_direct_current_abs == d.maximum_direct_current_abs
                || next.maximum_direct_current_abs == direct
            &&& next.maximum_quadrature_error_abs >= d.maximum_quadrature_error_abs
            &&& next.maximum_quadrature_error_abs >= error
            &&& next.maximum_pwm_span_ticks >= d.maximum_pwm_span_ticks
            &&& next.maximum_pwm_span_ticks >= span
            &&& direct > d.maximum_direct_current_abs || d.direct_event_pending ==> {
                &&& next.maximum_direct_event.measured_d_counts == event.measured_d_counts
                &&& next.maximum_direct_event.generation != 0
                &&& next.maximum_direct_event.generation != d.maximum_direct_event.generation
            }
            &&& direct <= d.maximum_direct_current_abs && !d.direct_event_pending
                ==> next.maximum_direct_event == d.maximum_direct_event
            &&& !next.direct_event_pending
        }),
{
}

/// The snapshot shows the loop as it stands: validity, target, currents, voltages,
/// counters, Hall progress and the observer, with the faults of the latch and,
/// once a fault was found, the event that was kept for it.
pub proof fn law_snapshot_shows_the_loop(
    d: ControlDiagnostics,
    faults: peripherals::FaultLatch,
    control_cycles: u32,
)
    ensures
        ({
            let s = foc::Snapshot::of(d, faults, control_cycles);
            &&& s.hall_valid == d.hall_valid && s.current_valid == d.current_valid
            &&& s.output_active == d.output_active && s.voltage_limited == d.voltage_limited
            &&& s.target_q_counts == d.target_q_counts
            &&& s.phase_current_limit_counts == d.phase_current_limit_counts
            &&& s.measured_d_counts == d.measured_d_counts
            &&& s.measured_q_counts == d.measured_q_counts
            &&& s.applied_d_ticks == d.applied_d_ticks && s.applied_q_ticks == d.applied_q_ticks
            &&& s.pwm_span_ticks == d.pwm_span_ticks
            &&& s.safety_events == d.safety_events
            &&& s.last_safety_loss_reason == d.last_safety_loss_reason
            &&& s.phase_current_trips == d.phase_current_trips
            &&& s.hall_sequence == d.hall_sequence && s.hall_interval_us == d.hall_interval_us
            &&& s.hall_progress == d.hall_progress && s.electrical_rpm == d.electrical_rpm
            &&& s.observer_ready == d.observer_ready && s.observer_active == d.observer_active
            &&& s.observer_blend == d.observer_blend
            &&& s.observer_confidence == d.observer_confidence
            &&& s.observer_electrical_rpm == d.observer_electrical_rpm
            &&& s.observer_hall_error_q16 == d.observer_hall_error_q16
            &&& s.injected_samples == d.injected_samples && s.control_cycles == control_cycles
            &&& s.control_max_cycles == d.control_max_cycles
            &&& s.control_budget_warnings == d.control_budget_warnings
            &&& s.control_budget_overruns == d.control_budget_overruns
            &&& s.fault_flags != 0 <==> faults.is_set()
            &&& d.fault_direct_event_valid ==> s.maximum_direct_event == d.fault_direct_event
            &&& !d.fault_direct_event_valid ==> s.maximum_direct_event == d.maximum_direct_event
            &&& d.maximum_phase_current_abs <= 0xffff ==> s.maximum_phase_current_abs
                == d.maximum_phase_current_abs
            &&& d.maximum_direct_current_abs <= 0xffff ==> s.maximum_direct_current_abs
                == d.maximum_direct_current_abs
            &&& d.maximum_quadrature_error_abs <= 0xffff ==> s.maximum_quadrature_error_abs
                == d.maximum_quadrature_error_abs
        }),
{
}

/// A fault keeps the event of the largest d current as it was when the fault was
/// found, and stopping shows no current, voltage or target any more.
pub proof fn law_fault_keeps_its_event(d: ControlDiagnostics)
    ensures
        d.frozen(true).fault_direct_event_valid,
        d.frozen(true).fault_direct_event == d.maximum_direct_event,
        d.frozen(false) == d,
        ({
            let s = d.stopped();
            &&& !s.output_active && !s.voltage_limited
            &&& s.target_q_counts == 0 && s.phase_current_limit_counts == 0
            &&& s.measured_d_counts == 0 && s.measured_q_counts == 0
            &&& s.applied_d_ticks == 0 && s.applied_q_ticks == 0 && s.pwm_span_ticks == 0
            &&& s.safety_events == d.safety_events
            &&& s.maximum_direct_event == d.maximum_direct_event
            &&& s.hall_progress == d.hall_progress
        }),
{
}

/// A loss is counted once, named, recorded, and ends the authority.
pub proof fn law_loss_is_counted_and_named(runtime: ControlRuntime, reason: SafetyLossReason)
    ensures
        ({
            let next = runtime.lost(reason);
            &&& next.state.diagnostics.safety_events == arith::wrap_u32(
                runtime.state.diagnostics.safety_events + 1,
            )
            &&& next.state.diagnostics.last_safety_loss_reason == reason.number()
            &&& next.forensics.retained.detail == reason.number()
            &&& next.mailbox.target_q_counts == 0
            &&& next.mailbox.dc_current_limit_counts == 0
            &&& next.faults == runtime.faults
            &&& next.state.driver == runtime.state.driver
        }),
{
}

/// Every reason has a number of its own, and none stands for no loss.
pub proof fn law_reasons_have_numbers_of_their_own(
    reason: SafetyLossReason,
    other: SafetyLossReason,
)
    ensures
        reason.number() == other.number() ==> reason == other,
        reason.number() == 0 <==> reason is NoLoss,
        reason.number() <= 10,
{
}

/// The observer's report is turned into telemetry units field by field: shares to
/// the nearest of 255 parts, the flux in hundredths of a milliweber, the back-EMF
/// in millivolts, and angles in 1/65536 turns.
pub proof fn law_observer_report_has_telemetry_units(
    d: ControlDiagnostics,
    report: ObserverDiagnostics,
)
    requires
        0 <= report.flux_magnitude_mwb.bits <= 0x200_0000,
        arith::abs(report.bemf_q_v.bits as int) <= 0x1f_0000,
    ensures
        ({
            let next = d.observed(report);
            let flux = next.observer_flux_centi_mwb as int;
            let volts = next.observer_bemf_q_mv as int;
            let angle = next.observer_hall_error_q16 as int;
            let lock = next.observer_phase_error_q16 as int;
            &&& next.observer_configured == report.configured
            &&& next.observer_ready == report.ready
            &&& next.observer_active == report.active
            &&& next.observer_validity_progress == report.validity_progress
            &&& next.observer_blend == foc::unit_byte(report.blend)
            &&& next.observer_confidence == foc::unit_byte(report.confidence)
            &&& -0x8000 <= report.electrical_rpm <= 0x7fff ==> next.observer_electrical_rpm
                == report.electrical_rpm
            &&& 0x1_0000 * flux <= 100 * report.flux_magnitude_mwb.bits < 0x1_0000 * (flux + 1)
            &&& 0x1_0000 * volts <= 1_000 * report.bemf_q_v.bits < 0x1_0000 * (volts + 1)
            &&& 0x1_0000 * angle <= report.hall_error_q32 < 0x1_0000 * (angle + 1)
            &&& 0x1_0000 * lock <= report.phase_error_filtered_q32 < 0x1_0000 * (lock + 1)
            &&& next.safety_events == d.safety_events
            &&& next.hall_progress == d.hall_progress
        }),
{
}

/// The captured event holds the cycle's own values: both currents, target,
/// requested, feedforward and applied voltage, and the Hall sensor's state.
pub proof fn law_event_holds_the_cycle(
    driver: RideFocDriver,
    output: FocOutput,
    angle: Turns,
    edge_age_us: int,
)
    requires
        0 <= edge_age_us,
    ensures
        ({
            let e = foc::peak_event(driver, output, angle, edge_age_us);
            let hall = driver.phase.hall;
            let c = driver.controller;
            &&& e.measured_d_counts == output.measured_current.d.whole() as i16
            &&& e.measured_q_counts == output.measured_current.q.whole() as i16
            &&& e.target_q_counts == output.target.q.whole() as i16
            &&& e.requested_d_ticks == c.requested_voltage.d.whole() as i16
            &&& e.requested_q_ticks == c.requested_voltage.q.whole() as i16
            &&& e.feedforward_d_ticks == c.feedforward_voltage.d.whole() as i16
            &&& e.feedforward_q_ticks == c.feedforward_voltage.q.whole() as i16
            &&& e.applied_d_ticks == output.applied_voltage.d.whole() as i16
            &&& e.applied_q_ticks == output.applied_voltage.q.whole() as i16
            &&& e.hall_raw == hall.raw
            &&& e.hall_angle_direction == hall.direction
            &&& e.edge_age_us == arith::min(edge_age_us, 0xffff)
            &&& e.hall_interval_us == arith::min(hall.measured_interval_us as int, 0xffff)
            &&& e.voltage_limited == output.voltage_limited
            &&& e.angle_rate_limited <==> angle != hall.unlimited_angle
            &&& angle == hall.unlimited_angle ==> e.angle_error_q8 == 0
        }),
{
}

/// An accepted edge reports the speed of the rotor with the sign of forward
/// motion.
pub proof fn law_edge_reports_the_signed_speed(
    state: ControlState,
    sequence: u32,
    raw: u8,
    interval_us: u32,
)
    requires
        state.driver.phase.hall.edge_outcome(raw, interval_us) is Ok,
    ensures
        ({
            let next = state.edge_taken(sequence, raw, interval_us);
            let hall = state.driver.phase.hall.after_edge(raw, interval_us);
            let forward = hall.direction * hall.geometry.positive_angle_direction;
            let speed = next.diagnostics.electrical_rpm as int;
            &&& next.driver.phase.hall == hall
            &&& hall.measured_width_q16 <= 18_000 && hall.measured_interval_us >= 100 ==> {
                &&& arith::abs(speed) == hall.erpm_magnitude()
                &&& forward >= 0 ==> speed >= 0
                &&& forward < 0 ==> speed <= 0
            }
        }),
{
    reveal(ControlState::edge_taken);
    let hall = state.driver.phase.hall.after_edge(raw, interval_us);
    let w = arith::sat_u32(hall.measured_width_q16 * 234_375);
    let i = hall.measured_interval_us as int;
    if i >= 100 {
        assert(0 <= w / i <= w) by (nonlinear_arith)
            requires
                0 <= w,
                1 <= i,
        ;
        assert(0 <= w / i / 256 <= 0x100_0000);
    }
}

/// A standing rotor that was recovered is estimated at once, at the center of its
/// sector.
pub proof fn law_recovered_rotor_is_estimated(
    runtime: ControlRuntime,
    edge_age_us: u32,
    live_hall: u8,
)
    requires
        runtime.state.answer(edge_age_us) is None,
    ensures
        ({
            let (state, estimate) = runtime.phase_asked(edge_age_us, live_hall, true);
            let asked = runtime.state.asked(edge_age_us);
            let (kept, none) = runtime.phase_asked(edge_age_us, live_hall, false);
            &&& none is None
            &&& kept == asked
            &&& !asked.recovers(live_hall) ==> estimate is None
            &&& asked.recovers(live_hall) ==> estimate == asked.recovery_tried(live_hall).answer(0)
        }),
{
    reveal(ControlRuntime::phase_asked);
}

/// A driven cycle moves the ramp on toward the foreground's target, and a cycle
/// that starts a command on a rotor without speed asks for its confirmation.
pub proof fn law_cycle_moves_the_ramp_on(
    runtime: ControlRuntime,
    context: CycleContext,
    estimate: PhaseEstimate<Turns>,
    pre_driver_cycles: u32,
)
    ensures
        ({
            let ready = runtime.step_prepared(context, estimate, pre_driver_cycles);
            let before = runtime.state.diagnostics.timing_maxima.pre_driver_cycles;
            let after = ready.state.diagnostics.timing_maxima.pre_driver_cycles;
            &&& ready.state.target_ramp == runtime.state.target_ramp.advanced(
                runtime.mailbox.target_q_counts as int,
            )
            &&& after >= before
            &&& pre_driver_cycles <= 0xffff ==> after >= pre_driver_cycles
            &&& ready.mailbox == runtime.mailbox
            &&& ready.faults == runtime.faults
            &&& ready.state.driver.phase == runtime.state.driver.phase
            &&& ready.state.offsets == runtime.state.offsets
        }),
{
    reveal(ControlRuntime::step_prepared);
    reveal(ControlRuntime::observer_published);
    reveal(ControlState::readied);
}

/// A command that starts on a rotor without direction or measured speed has its
/// live Hall state confirmed first; a rolling rotor needs no confirmation.
pub proof fn law_standing_start_is_confirmed(
    runtime: ControlRuntime,
    sample: peripherals::PhaseCurrentSample,
    output_was_active: bool,
)
    ensures
        ({
            let context = runtime.context(sample, output_was_active);
            let hall = runtime.state.driver.phase.hall;
            let rolling = hall.direction != 0 && hall.measured_interval_us != 0;
            &&& context.stationary_start <==> context.command_started && !rolling
            &&& context.current == sample
            &&& context.lease_active ==> context.command_enabled
            &&& context.command_started ==> context.command_enabled
        }),
{
}

/// While driven, the largest phase current covers every sample; undriven samples
/// leave it alone.
pub proof fn law_phase_peak_covers_driven_samples(
    runtime: ControlRuntime,
    sample: peripherals::PhaseCurrentSample,
)
    requires
        sample.peak() <= 0xffff,
    ensures
        ({
            let before = runtime.state.diagnostics.maximum_phase_current_abs;
            let after = runtime.sample_taken(sample).state.diagnostics.maximum_phase_current_abs;
            &&& runtime.is_driven() ==> after >= sample.peak() && after >= before && (after
                == before || after == sample.peak())
            &&& !runtime.is_driven() ==> after == before
        }),
{
}

/// The observer is reported every 256th cycle, but not in the cycle that starts a
/// command.
pub proof fn law_observer_is_reported_every_256_cycles(
    runtime: ControlRuntime,
    context: CycleContext,
)
    ensures
        ({
            let next = runtime.observer_published(context);
            let due = context.control_cycle % 256 == 0 && !context.command_started;
            &&& due ==> next.state.diagnostics == runtime.state.diagnostics.observed(
                runtime.state.driver.phase.reported(),
            )
            &&& !due ==> next == runtime
        }),
{
    reveal(ControlRuntime::observer_published);
}

/// Each way to lose the Hall angle is reported by its own reason: a gap in the
/// sequence, a refused edge, and a standing rotor found elsewhere. None of them
/// leaves a valid Hall angle or an authority.
pub proof fn law_lost_hall_angle_is_named(runtime: ControlRuntime)
    ensures
        ({
            let gap = runtime.edge_missed();
            let refused = runtime.edge_refused();
            let elsewhere = runtime.mismatched();
            &&& gap.state.diagnostics.last_safety_loss_reason
                == SafetyLossReason::HallCaptureSequence.number()
            &&& refused.state.diagnostics.last_safety_loss_reason
                == SafetyLossReason::HallTransition.number()
            &&& elsewhere.state.diagnostics.last_safety_loss_reason
                == SafetyLossReason::HallStationaryMismatch.number()
            &&& !gap.state.diagnostics.hall_valid && !refused.state.diagnostics.hall_valid
                && !elsewhere.state.diagnostics.hall_valid
            &&& !gap.mailbox.enabled && !refused.mailbox.enabled && !elsewhere.mailbox.enabled
            &&& gap.faults.hall_capture
            &&& refused.faults == runtime.faults && elsewhere.faults == runtime.faults
        }),
{
    reveal(ControlRuntime::halted);
    reveal(ControlRuntime::hall_lost);
}

/// The offsets in use are the tracked ones to the nearest count, phase by phase.
pub proof fn law_offsets_are_the_tracked_ones(
    state: ControlState,
    sample: peripherals::PhaseCurrentSample,
)
    requires
        state.offset_tracker.phase_a <= offset_tracker::MAX_ESTIMATE,
        state.offset_tracker.phase_b <= offset_tracker::MAX_ESTIMATE,
        sample.raw_a <= 4_095,
        sample.raw_b <= 4_095,
    ensures
        ({
            let next = state.offsets_followed(sample);
            let tracker = state.offset_tracker.after(sample.raw_a, sample.raw_b);
            &&& next.offset_tracker == tracker
            &&& arith::abs(0x1_0000 * next.offsets.phase_a - tracker.phase_a) <= 0x8000
            &&& arith::abs(0x1_0000 * next.offsets.phase_b - tracker.phase_b) <= 0x8000
            &&& next.driver == state.driver
        }),
{
    offset_tracker::law_tracking_approaches_without_overshoot(
        state.offset_tracker.phase_a as int,
        sample.raw_a as int,
    );
    offset_tracker::law_tracking_approaches_without_overshoot(
        state.offset_tracker.phase_b as int,
        sample.raw_b as int,
    );
}

} // verus!
