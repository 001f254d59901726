//! Offset tracking, PI regulation, ramps and transforms.
use oxifoc::foc::offset_tracker::CurrentOffsetTracker;
use oxifoc::foc::ramp::QuadratureTargetRamp;
use oxifoc::foc::transforms::{clarke, inverse_park, park};
use oxifoc::foc::{Fixed, PIController};

#[test]
fn tracking_is_slow_and_retains_fractional_progress() {
    let mut tracker = CurrentOffsetTracker::new(2_000, 2_001);
    tracker.observe_undriven(2_100, 1_900);
    assert_eq!(tracker.offsets(), (2_000, 2_001));
    for _ in 0..(1 << 17) {
        tracker.observe_undriven(2_100, 1_900);
    }
    let (phase_a, phase_b) = tracker.offsets();
    assert!((2_060..2_100).contains(&phase_a));
    assert!((1_900..1_940).contains(&phase_b));
}

fn fixed_pi() -> PIController<Fixed> {
    PIController::new(Fixed::ratio(512, 1_024), Fixed::ratio(605, 16_384))
}

#[test]
fn configured_fixed_gains_preserve_the_integer_controller_response() {
    let pi = fixed_pi();
    let first = pi.prepare_update(Fixed::from_integer(480), Fixed::zero());
    assert_eq!(first.raw_output.integer(), 248);
    assert_eq!(first.next_integral.to_bits(), 580_800);
}

#[test]
fn back_calculation_tracks_the_applied_output() {
    let mut pi = fixed_pi();
    let update = pi.prepare_update(Fixed::from_integer(480), Fixed::zero());
    pi.apply_back_calculation(update, Fixed::from_integer(-100));
    assert_eq!(pi.integral().integer(), -91);
}

#[test]
fn torque_increase_is_slew_limited_and_reduction_is_immediate() {
    let mut ramp = QuadratureTargetRamp::new(16, 4);
    for expected in [0, -4, -8, -12] {
        assert_eq!(ramp.next(-100), expected);
        for _ in 1..16 {
            assert_eq!(ramp.next(-100), expected);
        }
    }
    assert_eq!(ramp.next(-2), -2);
}

#[test]
fn reset_preserves_the_configured_slew_rate() {
    let mut ramp = QuadratureTargetRamp::new(3, 7);
    for _ in 0..4 {
        let _ = ramp.next(-100);
    }
    ramp.reset();
    assert_eq!(ramp.next(-100), 0);
    assert_eq!(ramp.next(-100), 0);
    assert_eq!(ramp.next(-100), 0);
    assert_eq!(ramp.next(-100), -7);
}

#[test]
fn fixed_clarke_keeps_adc_count_accuracy() {
    let (alpha, beta) = clarke(Fixed::from_integer(1_000), Fixed::from_integer(-500));
    assert_eq!(alpha.integer(), 1_000);
    assert!(beta.integer().unsigned_abs() <= 1);
}

#[test]
fn fixed_park_round_trip_is_within_one_count() {
    let alpha = Fixed::from_integer(480);
    let beta = Fixed::from_integer(-320);
    let sin = Fixed::ratio(3, 5);
    let cos = Fixed::ratio(4, 5);
    let (d, q) = park(alpha, beta, sin, cos);
    let (roundtrip_alpha, roundtrip_beta) = inverse_park(d, q, sin, cos);
    assert!((roundtrip_alpha.integer() - alpha.integer()).unsigned_abs() <= 1);
    assert!((roundtrip_beta.integer() - beta.integer()).unsigned_abs() <= 1);
}
