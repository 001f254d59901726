//! Ride authority.
use oxifoc::f103::config::RIDE_DC_BUS_CURRENT_LIMIT_COUNTS;
use oxifoc::f103::control::ride::{
    hall_timeout_ms, Command, Observation, RideController, Stage, STARTUP_FORWARD_TRANSITIONS,
};
use oxifoc::f103::control::stationary_phase_recovery_allowed;
use oxifoc::f103::sensors::throttle::{
    Observation as ThrottleObservation, FULL_ADC, REST_ADC,
};

fn observation(now_ms: u32, throttle_raw: u16) -> Observation {
    Observation {
        now_ms,
        throttle: ThrottleObservation::from_raw(throttle_raw),
        brake_active: false,
        environment_dc_limit_counts: Some(RIDE_DC_BUS_CURRENT_LIMIT_COUNTS),
        hall_valid: true,
        current_valid: true,
        fault_flags: 0,
        safety_events: 0,
        hall_sequence: 0,
        hall_progress: 0,
        hall_interval_us: 10_000,
        electrical_rpm: 0,
    }
}

fn arm(controller: &mut RideController) {
    assert_eq!(
        controller.update(observation(0, REST_ADC)).stage,
        Stage::Ready
    );
}

#[test]
fn boot_high_cannot_start_until_a_valid_rest_sample() {
    let mut controller = RideController::new(0);
    assert_eq!(controller.update(observation(0, FULL_ADC)), Command::off());
    assert_eq!(
        controller.update(observation(1, REST_ADC)).stage,
        Stage::Ready
    );
    let command = controller.update(observation(2, FULL_ADC));
    assert!(command.energize);
    assert_eq!(command.target_q_counts, -838);
}

#[test]
fn brake_and_safety_events_remove_authority_and_require_rest() {
    for brake in [false, true] {
        let mut controller = RideController::new(0);
        arm(&mut controller);
        assert!(controller.update(observation(1, FULL_ADC)).energize);
        let mut stopped = observation(2, FULL_ADC);
        stopped.brake_active = brake;
        stopped.safety_events = u32::from(!brake);
        assert_eq!(controller.update(stopped), Command::off());
        assert_eq!(controller.update(observation(3, FULL_ADC)), Command::off());
    }
}

#[test]
fn a_latched_fault_can_only_be_acknowledged_at_valid_throttle_rest() {
    let mut controller = RideController::new(0);
    arm(&mut controller);

    let mut faulted = observation(1, FULL_ADC);
    faulted.fault_flags = 1;
    let command = controller.update(faulted);
    assert_eq!(command, Command::off());
    assert!(!command.acknowledge_faults);

    faulted.now_ms = 2;
    assert!(!controller.update(faulted).acknowledge_faults);

    faulted.now_ms = 3;
    faulted.throttle = ThrottleObservation::invalid_acquisition(REST_ADC);
    assert!(!controller.update(faulted).acknowledge_faults);

    faulted.now_ms = 4;
    faulted.throttle = ThrottleObservation::from_raw(REST_ADC);
    let acknowledgement = controller.update(faulted);
    assert!(!acknowledgement.energize);
    assert!(acknowledgement.acknowledge_faults);
    assert_eq!(acknowledgement.stage, Stage::Disarmed);

    let ready = controller.update(observation(5, REST_ADC));
    assert!(!ready.acknowledge_faults);
    assert_eq!(ready.stage, Stage::Ready);
}

#[test]
fn startup_requires_twelve_net_forward_transitions() {
    let mut controller = RideController::new(0);
    arm(&mut controller);
    assert_eq!(
        controller.update(observation(1, FULL_ADC)).stage,
        Stage::AwaitingFirstEdge
    );
    for progress in 1..STARTUP_FORWARD_TRANSITIONS {
        let mut edge = observation(1 + progress as u32, FULL_ADC);
        edge.hall_sequence = progress as u32;
        edge.hall_progress = progress;
        assert_eq!(controller.update(edge).stage, Stage::StartupTracking);
    }
    let mut final_edge = observation(20, FULL_ADC);
    final_edge.hall_sequence = 12;
    final_edge.hall_progress = 12;
    assert_eq!(controller.update(final_edge).stage, Stage::Tracking);
}

#[test]
fn startup_and_dynamic_hall_deadlines_fail_closed() {
    let mut controller = RideController::new(0);
    arm(&mut controller);
    assert!(controller.update(observation(1, FULL_ADC)).energize);
    assert!(controller.update(observation(500, FULL_ADC)).energize);
    assert_eq!(controller.update(observation(501, FULL_ADC)), Command::off());

    let mut controller = RideController::new(0);
    arm(&mut controller);
    controller.update(observation(1, FULL_ADC));
    let mut edge_at_deadline = observation(501, FULL_ADC);
    edge_at_deadline.hall_sequence = 1;
    edge_at_deadline.hall_progress = 1;
    assert_eq!(
        controller.update(edge_at_deadline).stage,
        Stage::StartupTracking
    );

    let mut controller = RideController::new(0);
    arm(&mut controller);
    controller.update(observation(1, FULL_ADC));
    let mut edge = observation(10, FULL_ADC);
    edge.hall_sequence = 1;
    edge.hall_progress = 1;
    edge.hall_interval_us = 75_000;
    assert!(controller.update(edge).energize);
    let mut second_edge = observation(20, FULL_ADC);
    second_edge.hall_sequence = 2;
    second_edge.hall_progress = 2;
    second_edge.hall_interval_us = 75_000;
    assert!(controller.update(second_edge).energize);
    let mut overdue = observation(170, FULL_ADC);
    overdue.hall_sequence = 2;
    overdue.hall_progress = 2;
    assert_eq!(controller.update(overdue), Command::off());

    let mut controller = RideController::new(0);
    arm(&mut controller);
    controller.update(observation(1, FULL_ADC));
    let mut first_edge = observation(100, FULL_ADC);
    first_edge.hall_sequence = 1;
    first_edge.hall_progress = 1;
    assert!(controller.update(first_edge).energize);
    let mut first_edge_overdue = observation(600, FULL_ADC);
    first_edge_overdue.hall_sequence = 1;
    first_edge_overdue.hall_progress = 1;
    assert_eq!(controller.update(first_edge_overdue), Command::off());
}

#[test]
fn reverse_roll_start_keeps_authority_until_forward_progress_resumes() {
    let mut controller = RideController::new(0);
    arm(&mut controller);
    assert!(controller.update(observation(1, FULL_ADC)).energize);

    let mut reverse_edge = observation(100, FULL_ADC);
    reverse_edge.hall_sequence = 1;
    reverse_edge.hall_progress = -1;
    assert_eq!(
        controller.update(reverse_edge).stage,
        Stage::StartupTracking
    );

    let mut turning_around = observation(601, FULL_ADC);
    turning_around.hall_sequence = 1;
    turning_around.hall_progress = -1;
    assert_eq!(
        controller.update(turning_around).stage,
        Stage::StartupTracking
    );

    let mut recovered_start = observation(700, FULL_ADC);
    recovered_start.hall_sequence = 2;
    recovered_start.hall_progress = 0;
    recovered_start.hall_interval_us = 50_000;
    assert_eq!(
        controller.update(recovered_start).stage,
        Stage::StartupTracking
    );

    let mut forward_edge_overdue = observation(801, FULL_ADC);
    forward_edge_overdue.hall_sequence = 2;
    forward_edge_overdue.hall_progress = 0;
    assert_eq!(controller.update(forward_edge_overdue), Command::off());
}

#[test]
fn reverse_roll_start_still_obeys_the_absolute_startup_deadline() {
    let mut controller = RideController::new(0);
    arm(&mut controller);
    controller.update(observation(1, FULL_ADC));

    let mut reverse_edge = observation(100, FULL_ADC);
    reverse_edge.hall_sequence = 1;
    reverse_edge.hall_progress = -1;
    assert!(controller.update(reverse_edge).energize);

    let mut startup_overdue = observation(2_001, FULL_ADC);
    startup_overdue.hall_sequence = 1;
    startup_overdue.hall_progress = -1;
    assert_eq!(controller.update(startup_overdue), Command::off());
}

#[test]
fn tracking_uses_zero_current_coast_only_above_safe_hall_entry_speed() {
    let mut controller = RideController::new(0);
    arm(&mut controller);
    controller.update(observation(1, FULL_ADC));
    let mut tracking = observation(20, FULL_ADC);
    tracking.hall_sequence = 12;
    tracking.hall_progress = 12;
    tracking.electrical_rpm = 3_000;
    assert_eq!(controller.update(tracking).stage, Stage::Tracking);

    let mut coast = observation(21, REST_ADC);
    coast.hall_sequence = 12;
    coast.hall_progress = 12;
    coast.electrical_rpm = 3_000;
    let command = controller.update(coast);
    assert!(command.energize);
    assert_eq!(command.target_q_counts, 0);
    assert_eq!(command.stage, Stage::Coasting);

    let mut stopped = coast;
    stopped.now_ms = 22;
    stopped.electrical_rpm = 2_500;
    assert_eq!(controller.update(stopped), Command::off());
}

#[test]
fn hall_timeout_is_twice_the_sector_interval_and_bounded() {
    assert_eq!(hall_timeout_ms(1), 100);
    assert_eq!(hall_timeout_ms(50_000), 100);
    assert_eq!(hall_timeout_ms(100_000), 200);
    assert_eq!(hall_timeout_ms(300_000), 500);
}

#[test]
fn disabled_pwm_allows_a_missing_phase_to_recover_before_energizing() {
    assert!(stationary_phase_recovery_allowed(true, true));
    assert!(!stationary_phase_recovery_allowed(false, true));
    assert!(!stationary_phase_recovery_allowed(true, false));
}
