//! Current limiter.
use oxifoc::foc::current_limits::{CurrentLimiter, CurrentLimits};
use oxifoc::foc::{Dq, Fixed};

fn limits() -> CurrentLimits<Fixed> {
    CurrentLimits::new(
        Fixed::from_integer(838),
        Fixed::from_integer(1_344),
        Some(Fixed::from_integer(480)),
        Some(Fixed::zero()),
    )
}

#[test]
fn current_limits_current_targets_use_a_direct_priority_circle() {
    let limits = CurrentLimits::new(
        Fixed::from_integer(100),
        Fixed::from_integer(130),
        None,
        None,
    );
    assert_eq!(
        limits.clamp_targets(Dq::new(Fixed::from_integer(60), Fixed::from_integer(100),)),
        Dq::new(Fixed::from_integer(60), Fixed::from_integer(80)),
    );
}

#[test]
fn current_limits_measured_overcurrent_uses_dq_magnitude() {
    let limits = CurrentLimits::new(
        Fixed::from_integer(100),
        Fixed::from_integer(130),
        None,
        None,
    );
    assert!(
        !limits.is_overcurrent(Dq::new(Fixed::from_integer(50), Fixed::from_integer(120),))
    );
    assert!(limits.is_overcurrent(Dq::new(Fixed::from_integer(50), Fixed::from_integer(121),)));
}

#[test]
fn current_limits_bus_limit_scales_with_q_axis_modulation_without_speed_input() {
    let mut limiter = CurrentLimiter::new(limits(), 2_250, 0);
    limiter.note_applied_voltage(Dq::new(Fixed::zero(), Fixed::from_integer(-1_125)));
    assert_eq!(limiter.filtered_q_modulation(), Fixed::ratio(-3, 4));
    assert_eq!(limiter.quadrature_limit_counts(-1), 640);
    assert_eq!(
        limiter.clamp_targets(Dq::new(Fixed::zero(), Fixed::from_integer(-838),)),
        Dq::new(Fixed::zero(), Fixed::from_integer(-640)),
    );
}

#[test]
fn current_limits_zero_regen_limit_rejects_opposing_torque() {
    let mut limiter = CurrentLimiter::new(limits(), 2_250, 0);
    limiter.note_applied_voltage(Dq::new(Fixed::zero(), Fixed::from_integer(-1_125)));
    assert_eq!(
        limiter.clamp_targets(Dq::new(Fixed::zero(), Fixed::from_integer(100),)),
        Dq::new(Fixed::zero(), Fixed::zero()),
    );
}

#[test]
fn current_limits_bus_limits_are_symmetric_across_rotation_direction() {
    let limits = CurrentLimits::new(
        Fixed::from_integer(100),
        Fixed::from_integer(130),
        Some(Fixed::from_integer(10)),
        Some(Fixed::zero()),
    );
    let mut limiter = CurrentLimiter::new(limits, 2_250, 0);
    limiter.note_applied_voltage(Dq::new(Fixed::zero(), Fixed::from_integer(750)));
    assert_eq!(
        limiter
            .clamp_targets(Dq::new(Fixed::zero(), Fixed::from_integer(30)))
            .q,
        Fixed::from_integer(20),
    );
    assert_eq!(
        limiter
            .clamp_targets(Dq::new(Fixed::zero(), Fixed::from_integer(-5)))
            .q,
        Fixed::zero(),
    );

    limiter.note_applied_voltage(Dq::new(Fixed::zero(), Fixed::from_integer(-750)));
    assert_eq!(
        limiter
            .clamp_targets(Dq::new(Fixed::zero(), Fixed::from_integer(-30)))
            .q,
        Fixed::from_integer(-20),
    );
    assert_eq!(
        limiter
            .clamp_targets(Dq::new(Fixed::zero(), Fixed::from_integer(5)))
            .q,
        Fixed::zero(),
    );
}

#[test]
fn current_limits_modulation_filter_uses_the_configured_control_period_ratio() {
    let mut limiter = CurrentLimiter::new(limits(), 2_250, 5);
    for _ in 0..32 {
        limiter.note_applied_voltage(Dq::new(Fixed::zero(), Fixed::from_integer(-1_125)));
    }
    let modulation = limiter.filtered_q_modulation();
    assert!(modulation < Fixed::ratio(-47, 100));
    assert!(modulation > Fixed::ratio(-49, 100));
}
