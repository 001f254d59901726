//! What holds of the board's inputs and supervision, on concrete values.
use oxifoc::f103::config::{observer_volts_per_pwm_tick_bits, CanTiming, SafetyInterlock};
use oxifoc::f103::control::ride::{hall_timeout_ms, RideController, Stage};
use oxifoc::f103::foreground::{self, FeedGate};
use oxifoc::f103::hardware::peripherals::{
    acknowledge_faults, calibrate_current_offsets, enable_confirmed, enable_motor_outputs,
    fault_flags, hall_edge_age_us, hall_edge_snapshot, hall_is_quiet, hall_state,
    latch_control_timing_fault, latch_hall_capture_fault, latch_hardware_break,
    outputs_permitted, pin_flags, read_phase_currents, refusal_cause, write_pwm_duties,
    write_pwm_neutral, AdcError, CurrentOffsets, CurrentSampleError, EnableStep, FaultLatch, HallCapture, HallTimerEvent, OutputStage,
    FAULT_CONTROL_TIMING, FAULT_HALL_CAPTURE, FAULT_HARDWARE_BREAK, FAULT_PWM_RANGE,
};
use oxifoc::f103::safety::{
    boot_diagnostics_snapshot, capture_boot_diagnostics, checkpoint, clear_current_pwm_failure,
    fatal_reason, feed_main_loop, latched_safe_off, latest_pwm_failure_snapshot,
    pwm_failure_cause, record_control_checkpoint,
    record_control_cycle, record_control_timing, record_fatal, record_pwm_failure,
    record_safety_loss, start, timer_update_entered, window_refresh_is_legal, PwmFailureContext,
    RetainedContext, Watchdog, RCC_RESET_INDEPENDENT_WATCHDOG, RCC_RESET_POWER,
};
use oxifoc::f103::sensors::analog::{latest, AnalogScan, InputMonitor};
use oxifoc::f103::sensors::environment::{thermal_limit_counts, EnvironmentMonitor, RawLocalSensors};
use oxifoc::f103::sensors::inputs::DebouncedActiveLow;
use oxifoc::f103::sensors::throttle::{ArmingGate, Observation};
use oxifoc::f103::sensors::wheel::{Capture, DistanceCounter, Estimator, State};
use oxifoc::f103::sensors::wheel_capture::{snapshot, TimerEvent, WheelCapture};
use oxifoc::foc::PwmDuty;

const OFFSETS: CurrentOffsets = CurrentOffsets { phase_a: 2_048, phase_b: 2_000 };

fn idle_latch() -> FaultLatch {
    FaultLatch { hardware_break: false, pwm_range: false, hall_capture: false, control_timing: false }
}

#[test]
fn faults_are_acknowledged_with_the_break_input_inactive() {
    let mut faults =
        FaultLatch { hardware_break: true, pwm_range: true, hall_capture: true, control_timing: true };
    assert!(!acknowledge_faults(&mut faults, true));
    assert_eq!(fault_flags(&faults), 15);
    assert!(acknowledge_faults(&mut faults, false));
    assert_eq!(faults, idle_latch());
}

#[test]
fn phase_currents_cancel() {
    let sample = read_phase_currents(Some((2_148, 1_970)), OFFSETS).unwrap();
    assert_eq!((sample.phase_a, sample.phase_b, sample.phase_c), (100, -30, -70));
    assert_eq!(sample.phase_a + sample.phase_b + sample.phase_c, 0);
    assert_eq!(sample.peak_magnitude(), 100);
    assert!(sample.exceeds_limit(99));
    assert!(!sample.exceeds_limit(100));
}

#[test]
fn unusable_current_samples_are_refused() {
    assert_eq!(read_phase_currents(None, OFFSETS), Err(CurrentSampleError::NotReady));
    assert_eq!(
        read_phase_currents(Some((4_096, 2_000)), OFFSETS),
        Err(CurrentSampleError::OutOfRange)
    );
}

#[test]
fn current_offsets_are_averaged_and_qualified() {
    let steady_a = vec![2_048_u16; 256];
    let steady_b = vec![2_000_u16; 256];
    assert_eq!(calibrate_current_offsets(&steady_a, &steady_b), Ok(OFFSETS));
    let mut noisy = steady_a.clone();
    noisy[17] = 2_300;
    assert_eq!(
        calibrate_current_offsets(&noisy, &steady_b),
        Err(AdcError::CalibrationInvalid)
    );
    let low = vec![100_u16; 256];
    assert_eq!(calibrate_current_offsets(&low, &steady_b), Err(AdcError::CalibrationInvalid));
}

#[test]
fn fault_mask_reports_every_fault() {
    let mut faults = idle_latch();
    assert_eq!(fault_flags(&faults), 0);
    assert!(!faults.any());
    latch_hardware_break(&mut faults);
    assert_eq!(fault_flags(&faults), FAULT_HARDWARE_BREAK);
    latch_hall_capture_fault(&mut faults);
    latch_control_timing_fault(&mut faults);
    assert!(!write_pwm_duties(&mut faults, PwmDuty { a: 0, b: 1_125, c: 1_125 }));
    assert_eq!(
        fault_flags(&faults),
        FAULT_HARDWARE_BREAK | FAULT_PWM_RANGE | FAULT_HALL_CAPTURE | FAULT_CONTROL_TIMING
    );
    assert!(faults.any());
}

#[test]
fn permitted_compares_stay_inside_the_hard_window() {
    let mut faults = idle_latch();
    assert!(write_pwm_duties(&mut faults, write_pwm_neutral()));
    assert!(write_pwm_duties(&mut faults, PwmDuty { a: 22, b: 2_228, c: 1_125 }));
    assert!(!faults.any());
    assert!(!write_pwm_duties(&mut faults, PwmDuty { a: 22, b: 2_229, c: 1_125 }));
    assert!(faults.pwm_range);
}

#[test]
fn outputs_need_a_clean_latch_and_an_inactive_break() {
    let stage = OutputStage {
        break_active: false,
        power_stage_disabled: false,
        channels_enabled: false,
        main_output_enabled: true,
    };
    let mut faults = idle_latch();
    assert_eq!(enable_motor_outputs(&mut faults, stage), EnableStep::Configure);
    let enabled = OutputStage { channels_enabled: true, ..stage };
    assert_eq!(enable_motor_outputs(&mut faults, enabled), EnableStep::AlreadyEnabled);
    assert!(enable_confirmed(enabled));
    assert!(!enable_confirmed(stage));
    let broken = OutputStage { break_active: true, ..stage };
    assert_eq!(enable_motor_outputs(&mut faults, broken), EnableStep::Shutdown);
    assert!(faults.hardware_break);
    assert!(!outputs_permitted(&faults, false));
    assert!(outputs_permitted(&idle_latch(), false));
    assert!(!outputs_permitted(&idle_latch(), true));
}

#[test]
fn hall_capture_counts_edges_and_latches_overcapture() {
    let mut capture =
        HallCapture { raw: 5, interval_us: 0, sequence: 0, overflows: 0, configured: true };
    let mut faults = idle_latch();
    let quiet = HallTimerEvent {
        overflowed: true,
        rising_capture: None,
        falling_capture: None,
        overcapture: false,
        raw: 5,
    };
    capture.handle(&mut faults, quiet);
    assert_eq!(hall_edge_age_us(&capture, 1_000), 66_536);
    assert!(!hall_is_quiet(&capture, 1_000, 500_000));
    let edge = HallTimerEvent {
        overflowed: false,
        rising_capture: Some(1_500),
        falling_capture: None,
        overcapture: false,
        raw: 1,
    };
    capture.handle(&mut faults, edge);
    assert_eq!(hall_edge_snapshot(&capture), (1, 1, 67_036));
    assert!(!faults.any());
    capture.handle(&mut faults, HallTimerEvent { overcapture: true, ..edge });
    assert!(faults.hall_capture);
    assert_eq!(hall_state(true, false, true), 5);
}

#[test]
fn retained_failure_record_is_lossless_and_first_wins() {
    let first = PwmFailureContext::new(3, 1, 2, 0x1234, 0x8c00, 0x0555, [10, 20, 30]);
    assert_eq!(first.decoded(), (3, 1, 2, 0x1234, 0x8c00, 0x0555, [10, 20, 30]));
    assert_eq!(first.cause(), 3);
    let mut forensics = capture_boot_diagnostics(RCC_RESET_POWER, RetainedContext::active());
    record_pwm_failure(&mut forensics, first);
    record_pwm_failure(&mut forensics, PwmFailureContext::new(4, 0, 0, 0, 0, 0, [0, 0, 0]));
    assert_eq!(forensics.retained.pwm_failure, first);
    clear_current_pwm_failure(&mut forensics);
    assert_eq!(forensics.retained.pwm_failure, PwmFailureContext::empty());
    assert!(forensics.retained.is_valid());
}

#[test]
fn retained_record_explains_a_watchdog_reset() {
    let mut forensics = capture_boot_diagnostics(RCC_RESET_POWER, RetainedContext::active());
    record_control_cycle(&mut forensics, 77);
    record_control_checkpoint(&mut forensics, checkpoint::ENTERED);
    record_control_timing(&mut forensics, 1_000, 2_000);
    record_safety_loss(&mut forensics, 9);
    record_fatal(&mut forensics, fatal_reason::HARD_FAULT, -5, 0x0800_4000, 0x0800_5000);
    let next = capture_boot_diagnostics(RCC_RESET_INDEPENDENT_WATCHDOG, forensics.retained);
    let boot = boot_diagnostics_snapshot(&next);
    assert!(boot.retained_context_valid);
    assert_eq!(boot.fatal_reason, fatal_reason::HARD_FAULT);
    assert_eq!(boot.detail, -5);
    assert_eq!(boot.control_cycle, 77);
    assert_eq!(boot.last_control_cycles, 1_000);
    assert_eq!(boot.maximum_control_cycles, 2_000);
    assert_eq!(boot.program_counter, 0x0800_4000);
    assert_eq!(latest_pwm_failure_snapshot(&next), PwmFailureContext::empty());
    let cold = capture_boot_diagnostics(RCC_RESET_POWER, forensics.retained);
    assert!(!boot_diagnostics_snapshot(&cold).retained_context_valid);
}

#[test]
fn watchdogs_are_fed_only_after_they_started() {
    let mut watchdog = Watchdog { started: false, timer_updates_since_feed: 0 };
    assert!(!timer_update_entered(&mut watchdog));
    assert!(!feed_main_loop(&watchdog));
    start(&mut watchdog);
    assert!(feed_main_loop(&watchdog));
    let mut feeds = 0;
    for _ in 0..1_024 {
        if timer_update_entered(&mut watchdog) {
            feeds += 1;
        }
    }
    assert_eq!(feeds, 4);
    assert!(window_refresh_is_legal(0x40));
    assert!(!window_refresh_is_legal(0x3f));
    assert!(!window_refresh_is_legal(0x7f));
}

#[test]
fn stalled_control_starves_the_watchdog() {
    let mut gate = FeedGate::new(10, 10);
    assert!(!gate.pass(5, 11, 11, false));
    assert!(gate.pass(10, 11, 11, false));
    assert!(!gate.pass(20, 11, 12, false));
    assert!(!gate.pass(30, 12, 11, false));
    assert!(gate.pass(40, 12, 12, false));
}

#[test]
fn latched_safe_off_keeps_the_watchdog_fed() {
    let mut gate = FeedGate::new(10, 10);
    assert!(!gate.pass(10, 11, 10, latched_safe_off(0, false, true)));
    assert!(!gate.pass(10, 11, 10, latched_safe_off(1, true, true)));
    assert!(!gate.pass(10, 11, 10, latched_safe_off(1, false, false)));
    assert!(gate.pass(10, 11, 10, latched_safe_off(1, false, true)));
    assert!(!gate.pass(19, 12, 10, true));
    assert!(!gate.pass(20, 11, 10, true));
    assert!(gate.pass(20, 12, 10, true));
}

#[test]
fn refused_outputs_have_a_cause() {
    let ready = OutputStage {
        break_active: false,
        power_stage_disabled: false,
        channels_enabled: false,
        main_output_enabled: false,
    };
    let mut faults = idle_latch();
    assert_eq!(refusal_cause(&faults, ready), pwm_failure_cause::NONE);
    let disabled = OutputStage { power_stage_disabled: true, ..ready };
    assert_eq!(refusal_cause(&faults, disabled), pwm_failure_cause::POWER_STAGE_DISABLED);
    faults.hall_capture = true;
    assert_eq!(refusal_cause(&faults, disabled), pwm_failure_cause::FAULT_LATCHED);
    let braked = OutputStage { break_active: true, ..disabled };
    assert_eq!(refusal_cause(&faults, braked), pwm_failure_cause::BREAK_ACTIVE);
    assert_eq!(pin_flags(ready, false), 0);
    assert_eq!(pin_flags(braked, true), 7);
    assert_eq!(pin_flags(disabled, false), 2);
}

#[test]
fn debounced_input_settles_after_the_required_run() {
    let mut input = DebouncedActiveLow::new(4);
    assert!(!input.active());
    for _ in 0..3 {
        assert!(!input.update(true));
    }
    assert!(input.update(true));
    for _ in 0..3 {
        assert!(input.update(false));
    }
    assert!(!input.update(false));
}

#[test]
fn heat_never_adds_current() {
    let mut previous = 392;
    for temperature in 0..150 {
        let limit = thermal_limit_counts(temperature * 10, 700, 800);
        assert!(limit <= previous);
        previous = limit;
    }
    assert_eq!(thermal_limit_counts(700, 700, 800), 392);
    assert_eq!(thermal_limit_counts(750, 700, 800), 196);
    assert_eq!(thermal_limit_counts(800, 700, 800), 0);
}

#[test]
fn environment_fails_closed_without_a_valid_scan() {
    let mut monitor = EnvironmentMonitor::new(0);
    let sensors = RawLocalSensors {
        valid: false,
        bus_voltage_adc: 2_800,
        motor_temperature_adc: 2_000,
        controller_temperature_adc: 2_000,
    };
    assert_eq!(monitor.update(50, sensors), None);
}

#[test]
fn missing_scan_invalidates_the_throttle() {
    let complete = AnalogScan {
        complete: true,
        channel_enabled: true,
        samples: [1_000, 900, 2_800, 0, 1_200],
    };
    let (mut monitor, consumed) = InputMonitor::initialize(0, true, false, complete);
    assert!(!monitor.takes_scan(0, true, true));
    assert!(monitor.takes_scan(100, true, true));
    assert!(!monitor.takes_scan(100, false, true));
    assert!(consumed);
    assert!(latest(&monitor).throttle.is_valid());
    assert_eq!(latest(&monitor).throttle.raw(), 900);
    let missing = AnalogScan { complete: false, ..complete };
    monitor.service(10, false, missing);
    assert!(!latest(&monitor).throttle.is_valid());
    assert!(!latest(&monitor).analog_valid);
}

#[test]
fn closed_gate_opens_only_at_rest() {
    let mut gate = ArmingGate::new();
    assert_eq!(gate.update(Observation::from_raw(2_000), false, true), None);
    assert!(!gate.armed());
    gate.update(Observation::from_raw(726), false, true);
    assert!(gate.armed());
    assert!(gate.update(Observation::from_raw(2_000), false, true).is_some());
    gate.update(Observation::from_raw(2_000), true, true);
    assert!(!gate.armed());
}

#[test]
fn throttle_demand_is_monotonic_and_bounded() {
    let mut previous = 0;
    for raw in 851..=3_750 {
        let demand = Observation::from_raw(raw).normalized_counts();
        assert!(previous <= demand && demand <= 240);
        previous = demand;
    }
    assert_eq!(previous, 240);
    let full = Observation::from_raw(3_252).demand().unwrap();
    assert_eq!(full.negative_q_target(838), -838);
    assert_eq!(full.negative_q_target(0), 0);
}

#[test]
fn distance_accounts_for_every_pulse() {
    let mut counter = DistanceCounter::new();
    let mut pulses: u32 = 0;
    for step in [1, 320, 5, 1_000, 7] {
        pulses += step;
        let value = counter.update(pulses);
        assert_eq!(value * 100_000 + counter.distance_remainder_mm, pulses * 312);
    }
}

#[test]
fn only_a_quiet_wheel_permits_an_update() {
    let mut estimator = Estimator::new();
    assert!(!estimator.state().safe_for_update());
    let quiet = Capture { quiet: true, ..Capture::default() };
    assert_eq!(estimator.update(quiet), State::Quiet);
    assert!(foreground::updater_reset_permitted(true, estimator.state(), true));
    assert!(!foreground::updater_reset_permitted(false, estimator.state(), true));
    assert!(!foreground::updater_reset_permitted(true, estimator.state(), false));
    assert!(!foreground::updater_reset_permitted(true, State::Implausible, true));
}

#[test]
fn wheel_pulses_are_counted_once() {
    let mut capture = WheelCapture::new();
    let pulse = TimerEvent { update_pending: false, capture: Some(100), overcapture: false };
    capture.handle(pulse);
    capture.handle(TimerEvent { update_pending: true, capture: None, overcapture: false });
    capture.handle(TimerEvent { capture: Some(200), ..pulse });
    assert_eq!(snapshot(&capture).pulse_count, 2);
    assert_eq!(snapshot(&capture).interval_us, 65_636);
    assert!(!snapshot(&capture).quiet);
    for _ in 0..13 {
        capture.handle(TimerEvent { update_pending: true, capture: None, overcapture: false });
    }
    assert!(snapshot(&capture).quiet);
}

#[test]
fn lost_prerequisite_forbids_the_outputs() {
    let ready = SafetyInterlock {
        current_offsets_valid: true,
        hall_calibration_valid: true,
        command_fresh: true,
        break_active: false,
        software_fault_active: false,
    };
    assert!(ready.may_enable_power_stage());
    assert!(!SafetyInterlock::default().may_enable_power_stage());
    let mut stale = ready;
    stale.note_command_timeout();
    assert!(!stale.may_enable_power_stage());
    let mut broken = ready;
    broken.note_break();
    assert!(!broken.may_enable_power_stage());
}

#[test]
fn board_formulas_have_their_exact_values() {
    assert_eq!(CanTiming::f103_250k().bitrate(36_000_000), 250_000);
    assert_eq!(observer_volts_per_pwm_tick_bits(48_000), 1_398);
    assert_eq!(observer_volts_per_pwm_tick_bits(u32::MAX), 2_210);
    assert_eq!(hall_timeout_ms(0), 100);
    assert_eq!(hall_timeout_ms(u32::MAX), 500);
    assert_eq!(RideController::new(3).stage(), Stage::Disarmed);
}
