//! Stages of the ride control interrupt.
use oxifoc::f103::config::hall_geometry;
use oxifoc::f103::control::foc::{
    actuation_advance_from_erpm, authorize_ride_target, revoke_ride_authority,
    ride_foc_controller, safe_for_updater_reset, set_bus_voltage_mv, start, CommandMailbox,
    ControlRuntime, SafetyLossReason, Snapshot, CONTROL_BUDGET_CYCLES,
};
use oxifoc::f103::control::ride::{Command, Stage};
use oxifoc::f103::foreground::{apply_command, local_sensors, ride_observation};
use oxifoc::f103::hardware::peripherals::{write_pwm_duties, CurrentOffsets, FAULT_CONTROL_TIMING};
use oxifoc::f103::safety::{
    capture_boot_diagnostics, record_pwm_failure, PwmFailureContext, RetainedContext,
    RCC_RESET_POWER,
};
use oxifoc::f103::sensors::analog;
use oxifoc::foc::phase::BackEmfObserver;
use oxifoc::foc::{Fixed, HallGeometry, HallSensor, PwmDuty};

const REST: Option<(u16, u16)> = Some((2_048, 2_048));
const STANDING: (u32, u8, u32) = (0, 5, 0);

fn runtime() -> ControlRuntime {
    start(
        Box::leak(Box::new(hall_geometry())),
        CurrentOffsets { phase_a: 2_048, phase_b: 2_048 },
        5,
        capture_boot_diagnostics(RCC_RESET_POWER, RetainedContext::active()),
    )
}

/// One whole cycle of a standing rotor; returns the compares that were written.
fn cycle(runtime: &mut ControlRuntime, outputs_disabled: bool) -> Option<PwmDuty> {
    let context = runtime.sense(REST, outputs_disabled, STANDING)?;
    if context.stationary_start
        && !(runtime.confirm_stationary(5) && runtime.confirm_restart(5, 5))
    {
        return None;
    }
    let estimate = runtime.estimate(context, 0, 5, outputs_disabled)?;
    let duty = runtime.drive(context, estimate, 0, 900)?;
    runtime.note_driver_step(1_200);
    let accepted = write_pwm_duties(&mut runtime.faults, duty);
    runtime.finish(accepted);
    runtime.note_cycle(2_500);
    Some(duty)
}

#[test]
fn idle_cycle_drives_nothing() {
    let mut runtime = runtime();
    assert_eq!(cycle(&mut runtime, true), None);
    let snapshot = runtime.snapshot();
    assert!(snapshot.hall_valid && snapshot.current_valid);
    assert!(!snapshot.output_active);
    assert_eq!(snapshot.safety_events, 0);
    assert_eq!(snapshot.control_cycles, 1);
    assert_eq!(snapshot.injected_samples, 1);
}

#[test]
fn leased_cycle_is_driven_and_its_ramp_starts_from_zero() {
    let mut runtime = runtime();
    set_bus_voltage_mv(&mut runtime.mailbox, 48_000);
    authorize_ride_target(&mut runtime.mailbox, -100, 480, 160, 0);
    assert_eq!(cycle(&mut runtime, true), Some(PwmDuty { a: 1_125, b: 1_125, c: 1_125 }));
    let snapshot = runtime.snapshot();
    assert!(snapshot.output_active);
    assert_eq!(snapshot.target_q_counts, 0);
    assert_eq!(snapshot.maximum_pre_driver_cycles, 900);
    assert_eq!(snapshot.maximum_driver_step_cycles, 1_200);
    assert_eq!(snapshot.control_max_cycles, 2_500);
    for _ in 0..32 {
        assert!(cycle(&mut runtime, false).is_some());
    }
    assert_eq!(runtime.snapshot().target_q_counts, -8);
}

#[test]
fn lease_expires_without_renewal() {
    let mut runtime = runtime();
    authorize_ride_target(&mut runtime.mailbox, -100, 480, 10, 0);
    let mut driven = 0;
    while cycle(&mut runtime, false).is_some() {
        driven += 1;
    }
    assert_eq!(driven, 9);
    let snapshot = runtime.snapshot();
    assert!(!snapshot.output_active);
    assert_eq!(snapshot.last_safety_loss_reason, SafetyLossReason::OutputLease.code());
    assert_eq!(snapshot.safety_events, 1);
    assert!(!runtime.mailbox.enabled);
}

#[test]
fn command_of_an_earlier_epoch_is_not_taken_up() {
    let mut runtime = runtime();
    authorize_ride_target(&mut runtime.mailbox, -100, 480, 10, 0);
    assert_eq!(runtime.sense(None, false, STANDING), None);
    assert_eq!(
        runtime.snapshot().last_safety_loss_reason,
        SafetyLossReason::CurrentSample.code()
    );
    assert_eq!(runtime.snapshot().fault_flags, FAULT_CONTROL_TIMING);
    let mut fresh = self::runtime();
    authorize_ride_target(&mut fresh.mailbox, -100, 480, 10, 7);
    assert_eq!(cycle(&mut fresh, true), None);
}

#[test]
fn overcurrent_trips_a_driven_cycle() {
    let mut runtime = runtime();
    authorize_ride_target(&mut runtime.mailbox, -100, 480, 160, 0);
    assert!(cycle(&mut runtime, true).is_some());
    assert_eq!(runtime.sense(Some((2_048 + 1_345, 2_048)), false, STANDING), None);
    let snapshot = runtime.snapshot();
    assert_eq!(snapshot.phase_current_trips, 1);
    assert_eq!(
        snapshot.last_safety_loss_reason,
        SafetyLossReason::PhaseOvercurrent.code()
    );
    assert_eq!(snapshot.maximum_phase_current_abs, 1_345);
    assert!(!snapshot.output_active);
}

#[test]
fn hall_edges_are_followed_and_gaps_are_refused() {
    let mut runtime = runtime();
    assert!(runtime.sense(REST, true, (1, 1, 2_000)).is_some());
    assert_eq!(runtime.snapshot().hall_sequence, 1);
    assert_eq!(runtime.sense(REST, true, (3, 3, 2_000)), None);
    let snapshot = runtime.snapshot();
    assert_eq!(
        snapshot.last_safety_loss_reason,
        SafetyLossReason::HallCaptureSequence.code()
    );
    assert!(!snapshot.hall_valid);
    let mut other = self::runtime();
    assert_eq!(other.sense(REST, true, (1, 2, 2_000)), None);
    assert_eq!(
        other.snapshot().last_safety_loss_reason,
        SafetyLossReason::HallTransition.code()
    );
}

#[test]
fn standing_rotor_must_be_where_it_was_left() {
    let mut runtime = runtime();
    authorize_ride_target(&mut runtime.mailbox, -100, 480, 160, 0);
    let context = runtime.sense(REST, true, STANDING).unwrap();
    assert!(context.stationary_start && context.lease_active && context.command_started);
    assert!(!runtime.confirm_stationary(1));
    assert_eq!(
        runtime.snapshot().last_safety_loss_reason,
        SafetyLossReason::HallStationaryMismatch.code()
    );
}

#[test]
fn overrun_latches_the_output_off() {
    let mut runtime = runtime();
    authorize_ride_target(&mut runtime.mailbox, -100, 480, 160, 0);
    assert!(cycle(&mut runtime, true).is_some());
    runtime.note_cycle(CONTROL_BUDGET_CYCLES);
    assert_eq!(runtime.snapshot().fault_flags, 0);
    runtime.note_cycle(CONTROL_BUDGET_CYCLES + 1);
    let snapshot = runtime.snapshot();
    assert_eq!(snapshot.fault_flags, FAULT_CONTROL_TIMING);
    assert_eq!(snapshot.control_budget_overruns, 1);
    assert!(!snapshot.output_active);
    assert_eq!(
        snapshot.last_safety_loss_reason,
        SafetyLossReason::ControlTiming.code()
    );
    authorize_ride_target(&mut runtime.mailbox, -100, 480, 160, snapshot.safety_events);
    assert_eq!(cycle(&mut runtime, false), None);
}

#[test]
fn refused_compares_are_a_safety_loss() {
    let mut runtime = runtime();
    authorize_ride_target(&mut runtime.mailbox, -100, 480, 160, 0);
    let context = runtime.sense(REST, true, STANDING).unwrap();
    let estimate = runtime.estimate(context, 0, 5, true).unwrap();
    assert!(runtime.drive(context, estimate, 0, 900).is_some());
    runtime.finish(false);
    assert!(!runtime.snapshot().output_active);
    assert_eq!(
        runtime.snapshot().last_safety_loss_reason,
        SafetyLossReason::PwmOutput.code()
    );
}

#[test]
fn authority_stays_inside_the_ride_envelope() {
    let mut mailbox = CommandMailbox::new();
    authorize_ride_target(&mut mailbox, -2_000, 2_000, 160, 0);
    assert_eq!(mailbox.target_q_counts, -838);
    assert_eq!(mailbox.dc_current_limit_counts, 480);
    authorize_ride_target(&mut mailbox, 300, 100, 160, 0);
    assert_eq!(mailbox.target_q_counts, 0);
    assert_eq!(mailbox.dc_current_limit_counts, 100);
    assert!(!safe_for_updater_reset(&mailbox, true, true));
    revoke_ride_authority(&mut mailbox);
    assert!(!mailbox.enabled);
    assert!(safe_for_updater_reset(&mailbox, true, true));
    assert!(!safe_for_updater_reset(&mailbox, false, true));
    assert!(!safe_for_updater_reset(&mailbox, true, false));
}

#[test]
fn foreground_carries_commands_and_observations() {
    let mut commanded = runtime();
    let command = Command {
        energize: true,
        acknowledge_faults: false,
        target_q_counts: -40,
        dc_current_limit_counts: 200,
        stage: Stage::Tracking,
    };
    assert!(!apply_command(&mut commanded, &command, 3, false));
    assert!(commanded.mailbox.enabled);
    assert_eq!(commanded.mailbox.target_q_counts, -40);
    assert_eq!(commanded.mailbox.safety_epoch, 3);
    assert_eq!(commanded.mailbox.deadline, 160);
    assert!(!apply_command(&mut commanded, &Command::off(), 3, false));
    assert!(!commanded.mailbox.enabled);

    let inputs = analog::Snapshot { bus_voltage_adc: 2_600, ..analog::Snapshot::default() };
    assert_eq!(local_sensors(&inputs).bus_voltage_adc, 2_600);
    let observation = ride_observation(5, &inputs, Some(99), &runtime().snapshot());
    assert_eq!(observation.now_ms, 5);
    assert_eq!(observation.environment_dc_limit_counts, Some(99));
    assert!(observation.hall_valid);
}

#[test]
fn ride_starts_with_a_tuned_controller_and_a_fresh_observer() {
    let runtime = runtime();
    let controller = runtime.state.driver.controller;
    assert_eq!(controller.direct.proportional_gain, Fixed::from_bits(0x8000));
    assert_eq!(controller.quadrature.integral_gain_per_cycle, Fixed::from_bits(2_420));
    let fresh = BackEmfObserver::new(
        Fixed::from_bits(2_818),
        Fixed::from_bits(4_915),
        Fixed::from_bits(878_182),
        16_000,
    );
    assert_eq!(runtime.state.driver.phase.observer, Some(fresh));
    assert_eq!(fresh.flux_voltage_step.to_bits(), 4_096);
    assert_eq!(fresh.pll_kp_step_q32, 268_435_456);
    assert_eq!(fresh.pll_ki_step_q32, 335_544);
    assert_eq!(fresh.valid_revoke_cycles, 6_400);
    assert!(runtime.state.driver.phase.hall.is_valid());
}

#[test]
fn illegal_live_hall_state_starts_an_unseeded_sensor() {
    let geometry: &'static HallGeometry = Box::leak(Box::new(hall_geometry()));
    let runtime = start(
        geometry,
        CurrentOffsets { phase_a: 2_048, phase_b: 2_048 },
        7,
        capture_boot_diagnostics(RCC_RESET_POWER, RetainedContext::active()),
    );
    assert_eq!(runtime.state.driver.phase.hall, HallSensor::new(geometry));
    assert!(!runtime.snapshot().hall_valid);
}

#[test]
fn control_that_never_started_reports_nothing() {
    let report = Snapshot::default();
    assert!(!report.hall_valid && !report.current_valid && !report.output_active);
    assert!(!report.observer_configured);
    assert_eq!((report.fault_flags, report.control_cycles, report.safety_events), (0, 0, 0));
}

#[test]
fn acknowledgement_rearms_and_authorizes_nothing() {
    let mut runtime = runtime();
    authorize_ride_target(&mut runtime.mailbox, -100, 480, 160, 0);
    assert!(cycle(&mut runtime, true).is_some());
    runtime.note_cycle(CONTROL_BUDGET_CYCLES + 1);
    assert_eq!(runtime.snapshot().fault_flags, FAULT_CONTROL_TIMING);
    let failure = PwmFailureContext::new(3, 0, 0, 0, 0, 0, [0, 0, 0]);
    record_pwm_failure(&mut runtime.forensics, failure);
    let generation = runtime.state.diagnostics.maximum_direct_event.generation;
    let command = Command { acknowledge_faults: true, ..Command::off() };

    assert!(!apply_command(&mut runtime, &command, 1, true));
    assert_eq!(runtime.snapshot().fault_flags, FAULT_CONTROL_TIMING);
    assert_eq!(runtime.forensics.retained.pwm_failure, failure);

    assert!(apply_command(&mut runtime, &command, 1, false));
    assert_eq!(runtime.snapshot().fault_flags, 0);
    assert!(!runtime.mailbox.enabled);
    assert_eq!(runtime.mailbox.target_q_counts, 0);
    assert_eq!(runtime.forensics.retained.pwm_failure, PwmFailureContext::empty());
    assert_eq!(runtime.forensics.latest_pwm_failure, failure);
    assert!(runtime.state.diagnostics.direct_event_pending);
    assert_eq!(runtime.state.diagnostics.maximum_direct_event.generation, generation);

    let both = Command { energize: true, ..command };
    runtime.faults.pwm_range = true;
    assert!(!apply_command(&mut runtime, &both, 1, false));
    assert!(runtime.faults.any());
}

#[test]
fn ride_controller_carries_the_board_gains() {
    let controller = ride_foc_controller();
    assert_eq!(controller.dead_time_comp_ticks(), Fixed::ratio(50, 3));
    assert_eq!(controller.vector_limit_ticks, Fixed::from_integer(1_273));
    assert_eq!(controller.phase_limit_ticks, 1_103);
    // One sixteen-thousandth of a second at 9,600 electrical revolutions per
    // minute is a hundredth of a turn.
    assert!((actuation_advance_from_erpm(9_600).to_bits() - 4_117).abs() <= 2);
    assert_eq!(actuation_advance_from_erpm(0), Fixed::from_integer(0));
}
