//! Wheel speed and distance.
use oxifoc::f103::sensors::wheel::{
    extended_capture_timestamp, qualified_interval_us, Capture, DistanceCounter, Estimator, State,
    MINIMUM_INTERVAL_US,
};

#[test]
fn captured_period_converts_to_stock_speed_units() {
    let mut estimator = Estimator::new();
    let state = estimator.update(Capture {
        primed: true,
        interval_us: 166_667,
        pulse_count: 2,
        ..Capture::default()
    });
    assert_eq!(state.speed_tenths_kph(), 67);
}

#[test]
fn update_requires_observed_quiet_and_two_new_pulses() {
    let mut estimator = Estimator::new();
    assert!(!estimator.state().safe_for_update());
    assert_eq!(
        estimator.update(Capture {
            quiet: true,
            ..Capture::default()
        }),
        State::Quiet
    );
    assert!(estimator.state().safe_for_update());
    assert_eq!(
        estimator.update(Capture {
            primed: true,
            pulse_count: 1,
            ..Capture::default()
        }),
        State::AwaitingSecondPulse
    );
    assert!(!estimator.state().safe_for_update());
}

#[test]
fn overcapture_and_impossibly_short_intervals_are_explicit() {
    let mut estimator = Estimator::new();
    assert_eq!(
        estimator.update(Capture {
            primed: true,
            interval_us: 20_000,
            pulse_count: 2,
            capture_overruns: 1,
            ..Capture::default()
        }),
        State::Implausible
    );
    assert_eq!(
        estimator.update(Capture {
            primed: true,
            interval_us: MINIMUM_INTERVAL_US - 1,
            pulse_count: 3,
            capture_overruns: 1,
            ..Capture::default()
        }),
        State::Implausible
    );
}

#[test]
fn distance_accumulates_fractional_stock_units() {
    let mut distance = DistanceCounter::new();
    assert_eq!(distance.update(320), 0);
    assert_eq!(distance.update(321), 1);
    assert_eq!(distance.update(641), 1);
    assert_eq!(distance.update(642), 2);
}

#[test]
fn timestamp_extension_resolves_capture_overflow_order() {
    assert_eq!(extended_capture_timestamp(7, 0xff00, true), 0x0007_ff00);
    assert_eq!(extended_capture_timestamp(7, 0x0010, true), 0x0008_0010);
    assert_eq!(
        qualified_interval_us(0xffff_ff00, 0x0000_0100, true, false),
        0x200
    );
    assert_eq!(qualified_interval_us(1_000, 900_000, true, true), 0);
}
