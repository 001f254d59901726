//! What holds of the control core as a whole, on concrete values.
use oxifoc::foc::current_limits::{filter_modulation, phase_current_limit, CurrentLimiter};
use oxifoc::foc::numeric::conservative_magnitude;
use oxifoc::foc::offset_tracker::CurrentOffsetTracker;
use oxifoc::foc::phase::manager::ratio_u32_q16;
use oxifoc::foc::phase::{
    BackEmfObserver, PhaseManager, PhaseProvider, PhaseSource, PhaseSourceError, PhaseStrategy,
};
use oxifoc::foc::ramp::QuadratureTargetRamp;
use oxifoc::foc::roots::{integer_sqrt_ceil_u32, integer_sqrt_u64};
use oxifoc::foc::svpwm::space_vector_pwm_ticks;
use oxifoc::foc::transforms::{inverse_clarke, inverse_park, park};
use oxifoc::foc::trig::{sin_cos_q31, CordicSinCos, SinCos};
use oxifoc::foc::{
    AlphaBeta, Dq, Fixed, FixedFocController, HallError, HallGeometry, HallSensor, NoDecoupling,
    PIController, PwmDuty, Scalar,
};

fn geometry() -> &'static HallGeometry {
    Box::leak(Box::new(HallGeometry::new(
        [5, 1, 3, 2, 6, 4],
        [5_699, 16_526, 26_499, 37_754, 49_151, 59_124],
        -1,
    )))
}

fn whole(value: i32) -> Fixed {
    Fixed::from_integer(value)
}

fn observer() -> BackEmfObserver {
    BackEmfObserver::new(
        Fixed::from_bits(2_818),
        Fixed::from_bits(4_915),
        Fixed::from_bits(878_182),
        16_000,
    )
}

fn controller<const NUMERATOR: u32, const DENOMINATOR: u32>(
) -> FixedFocController<NUMERATOR, DENOMINATOR, NoDecoupling> {
    let pi = PIController::new(Fixed::ratio(1, 2), Fixed::ratio(1, 16));
    FixedFocController::new(pi, pi, whole(1_000), 1_103)
}

#[test]
fn offset_tracking_approaches_the_sample_without_overshoot() {
    let mut tracker = CurrentOffsetTracker::new(2_000, 2_000);
    for _ in 0..200_000 {
        let before = tracker;
        tracker.observe_undriven(2_100, 1_900);
        assert!(before.phase_a <= tracker.phase_a && tracker.phase_a <= 2_100 << 16);
        assert!(1_900 << 16 <= tracker.phase_b && tracker.phase_b <= before.phase_b);
    }
    let (a, b) = tracker.offsets();
    assert!(2_050 < a && a <= 2_100);
    assert!(1_900 <= b && b < 1_950);
}

#[test]
fn ramp_slews_increases_and_grants_reductions_at_once() {
    let mut ramp = QuadratureTargetRamp::new(1, 4);
    assert_eq!(ramp.next(-100), 0);
    assert_eq!(ramp.next(-100), -4);
    assert_eq!(ramp.next(-100), -8);
    assert_eq!(ramp.next(-3), -3);
    ramp.reset();
    assert_eq!(ramp.next(0), 0);
}

#[test]
fn ramp_drops_are_a_step_apart() {
    let mut ramp = QuadratureTargetRamp::new(3, 4);
    let granted: Vec<i32> = (0..8).map(|_| ramp.next(-100)).collect();
    assert_eq!(granted, [0, 0, 0, -4, -4, -4, -8, -8]);
    // A reduction starts a new step.
    assert_eq!(ramp.next(-2), -2);
    assert_eq!(ramp.next(-100), -2);
    assert_eq!(ramp.next(-100), -2);
    assert_eq!(ramp.next(-100), -6);
}

#[test]
fn hall_sectors_tile_the_turn() {
    let geometry = geometry();
    let mut width: u32 = 0;
    for raw in geometry.electrical_states() {
        width += u32::from(geometry.sector(*raw).unwrap().width_q16);
    }
    assert_eq!(width, 65_536);
    assert!(geometry.sector(0).is_none());
    assert!(geometry.sector(7).is_none());
    assert!(!geometry.raw_is_valid(7));
}

#[test]
fn refused_hall_edges_revoke_the_angle() {
    for (raw, interval, expected) in [
        (0, 1_000, HallError::InvalidState),
        (6, 1_000, HallError::InvalidTransition),
        (3, 50, HallError::EdgeTooFast),
    ] {
        let mut sensor = HallSensor::new(geometry());
        sensor.seed(5).unwrap();
        sensor.update_edge(1, 1_000).unwrap();
        assert!(sensor.angle(0).is_some());
        assert_eq!(sensor.update_edge(raw, interval), Err(expected));
        assert!(!sensor.is_valid());
        assert_eq!(sensor.angle(0), None);
    }
}

#[test]
fn accepted_hall_edge_reaches_the_captured_state() {
    let mut sensor = HallSensor::new(geometry());
    sensor.seed(5).unwrap();
    assert_eq!(sensor.update_edge(1, 1_000), Ok(()));
    assert_eq!(sensor.raw_state(), 1);
    assert!(sensor.is_valid());
    assert_eq!(sensor.seed(0), Err(HallError::InvalidState));
}

#[test]
fn hall_interpolation_stays_inside_the_sector() {
    let mut sensor = HallSensor::new(geometry());
    sensor.seed(5).unwrap();
    sensor.update_edge(1, 1_000).unwrap();
    sensor.update_edge(3, 1_000).unwrap();
    let sector = geometry().sector(3).unwrap();
    let entry = sensor.angle(0).unwrap();
    let mut previous: u32 = 0;
    for age in 0..2_000 {
        let travelled = sensor.angle(age).unwrap().wrapping_sub(entry);
        assert!(previous <= travelled);
        assert!(travelled <= u32::from(sector.width_q16) << 16);
        previous = travelled;
    }
}

/// A sensor that moves backward, through states 5, 4 and 6.
fn moving_backward(interval_us: u32) -> HallSensor {
    let mut sensor = HallSensor::new(geometry());
    sensor.seed(5).unwrap();
    sensor.update_edge(4, interval_us).unwrap();
    sensor.update_edge(6, interval_us).unwrap();
    sensor
}

#[test]
fn hall_interpolation_follows_a_backward_rotation() {
    let sensor = moving_backward(1_000);
    let entry = sensor.angle(0).unwrap();
    assert_eq!(entry, 59_124 << 16);
    let mut previous: u32 = 0;
    for age in 0..6_000 {
        let travelled = entry.wrapping_sub(sensor.angle(age).unwrap());
        assert!(previous <= travelled);
        previous = travelled;
    }
    assert_eq!(previous, 9_973 << 16);
}

#[test]
fn hall_reversal_holds_the_entered_center() {
    let mut sensor = moving_backward(1_000);
    assert_eq!(sensor.update_edge(4, 759), Ok(()));
    assert!(sensor.is_valid());
    assert_eq!(sensor.raw_state(), 4);
    assert_eq!(sensor.angle_direction(), 1);
    assert_eq!(sensor.electrical_rpm(), 0);
    assert_eq!(sensor.sector_interval_us(), 0);
    for age in [0, 1_000, 1_000_000, u32::MAX] {
        assert_eq!(sensor.angle(age), Some(65_179 << 16));
    }
    assert_eq!(sensor.estimate_for_control(0, 62_500).unwrap().angle, 65_179 << 16);

    assert_eq!(sensor.update_edge(5, 1_000), Ok(()));
    assert_eq!(sensor.sector_interval_us(), 1_000);
    assert_eq!(sensor.angle(0), Some(5_699 << 16));
    assert!(sensor.angle_electrical_rpm() > 0);
}

#[test]
fn hall_reversal_is_still_held_to_the_edge_rate() {
    let mut sensor = moving_backward(1_000);
    assert_eq!(sensor.update_edge(4, 99), Err(HallError::EdgeTooFast));
    assert_eq!(sensor.angle(0), None);
}

#[test]
fn opposite_first_run_edge_is_timed_from_the_center() {
    let mut sensor = moving_backward(1_000);
    sensor.discard_next_interval();
    assert_eq!(sensor.update_edge(4, 5_000), Ok(()));
    assert!(sensor.is_valid());
    assert_eq!(sensor.raw_state(), 4);
    assert_eq!(sensor.angle_direction(), 1);
    assert_eq!(sensor.sector_interval_us(), 9_998);
    assert_eq!(sensor.angle(0), Some(59_124 << 16));

    let mut sensor = moving_backward(1_000);
    sensor.discard_next_interval();
    assert_eq!(sensor.update_edge(4, 40), Err(HallError::EdgeTooFast));
}

#[test]
fn first_run_edges_without_an_interval() {
    // Held at a center after a reversal, either direction is timed from there.
    for (raw, direction) in [(5, 1), (6, -1)] {
        let mut sensor = moving_backward(1_000);
        sensor.update_edge(4, 759).unwrap();
        sensor.discard_next_interval();
        assert_eq!(sensor.update_edge(raw, 5_000), Ok(()));
        assert_eq!(sensor.angle_direction(), direction);
        assert!((9_990..=10_010).contains(&sensor.sector_interval_us()));
    }
    // One crossed boundary gives neither a center nor an interval.
    let mut sensor = HallSensor::new(geometry());
    sensor.seed(5).unwrap();
    sensor.update_edge(4, 1_000).unwrap();
    sensor.discard_next_interval();
    assert_eq!(sensor.update_edge(6, 5_000), Err(HallError::InvalidTransition));
}

#[test]
fn slow_hall_sensor_stands_at_the_sector_center() {
    let mut sensor = moving_backward(200_000);
    assert!(sensor.electrical_rpm() > 0);
    for age in [0, 50_000, 10_000_000] {
        assert_eq!(sensor.angle(age), Some(54_137 << 16));
        assert_eq!(sensor.estimate_for_control(age, 62_500).unwrap().angle, 54_137 << 16);
    }
    // Without a complete interval there is no speed.
    let mut sensor = HallSensor::new(geometry());
    sensor.seed(5).unwrap();
    sensor.update_edge(4, 1_000).unwrap();
    assert_eq!(sensor.angle(0), Some(65_179 << 16));
    // At speed the estimate goes stale first, then its speed has decayed.
    let sensor = moving_backward(1_000);
    assert_eq!(sensor.entered_duration_us(), 823);
    assert!(sensor.angle(6_584).is_some());
    assert_eq!(sensor.angle(6_585), None);
    assert_eq!(sensor.angle(18_000), None);
    assert_eq!(sensor.angle(18_300), Some(54_137 << 16));
}

#[test]
fn quarter_turn_exchanges_sine_and_cosine() {
    for angle in [
        0,
        1,
        0x1234_5678,
        0x3fff_ffff,
        0x7654_3210,
        0xbfff_ffff,
        0xc000_0000,
        0xdead_beef,
        u32::MAX,
    ] {
        let (sin, cos) = sin_cos_q31(angle);
        assert_eq!(sin_cos_q31(angle.wrapping_add(0x4000_0000)), (cos, -sin));
    }
}

#[test]
fn sine_and_cosine_form_a_unit_vector() {
    for step in 0..4_096_u32 {
        let (sin, cos) = CordicSinCos::sin_cos(step << 20);
        let sin = i64::from(sin.to_bits());
        let cos = i64::from(cos.to_bits());
        assert!((sin * sin + cos * cos - 0x1_0000_0000).abs() <= 0x8_0000);
    }
}

#[test]
fn rotation_is_undone_at_every_angle() {
    for step in 0..256_u32 {
        let (sin, cos) = CordicSinCos::sin_cos(step << 24);
        let (d, q) = park(whole(-3_000), whole(4_000), sin, cos);
        let (alpha, beta) = inverse_park(d, q, sin, cos);
        assert!((alpha.to_bits() + (3_000 << 16)).abs() < 0x1_0000);
        assert!((beta.to_bits() - (4_000 << 16)).abs() < 0x1_0000);
    }
}

#[test]
fn inverse_clarke_balances_the_phases() {
    let (a, b, c) = inverse_clarke(whole(100), whole(0));
    assert_eq!((a, b, c), (whole(100), whole(-50), whole(-50)));
}

#[test]
fn back_calculation_stands_at_the_applied_output() {
    let mut pi = PIController::<Fixed>::new(Fixed::ratio(1, 2), Fixed::ratio(1, 16));
    let update = pi.prepare_update(whole(1_001), whole(0));
    assert_eq!(update.raw_output, whole(531));
    let applied = whole(300);
    pi.apply_back_calculation(update, applied - update.raw_output);
    // The proportional part is 500; the rest of the applied 300 is in the
    // integral, with the fraction that the output left out.
    assert_eq!(pi.integral().integer(), -199);
    assert!((500 * 65_536 + pi.integral().to_bits() - applied.to_bits()).abs() < 0x1_0000);
    pi.reset();
    assert_eq!(pi.integral(), whole(0));
}

#[test]
fn magnitude_covers_the_vector_closely() {
    for (d, q) in [(3, 4), (0, 0), (30_000, 40_000), (0x8000_0000, 0x8000_0000), (1, 65_536)] {
        let (magnitude, shift) = conservative_magnitude(d, q);
        let covered = u128::from(magnitude) << shift;
        let square = u128::from(d) * u128::from(d) + u128::from(q) * u128::from(q);
        assert!(covered * covered >= square);
        let slack = 3_u128 << shift;
        assert!(covered < slack || (covered - slack) * (covered - slack) <= square);
    }
    assert_eq!(conservative_magnitude(3, 4), (5, 0));
}

#[test]
fn limited_vector_is_inside_the_circle_and_keeps_its_direction() {
    let limit = whole(100);
    for (d, q) in [(300, 400), (-300, 400), (1, -20_000), (-32_000, -32_000)] {
        let (x, y, scale) = Fixed::limit_vector(whole(d), whole(q), limit);
        let (x, y) = (i64::from(x.to_bits()), i64::from(y.to_bits()));
        let radius = i64::from(limit.to_bits());
        assert!(x * x + y * y <= radius * radius);
        assert!(x * i64::from(d) >= 0 && y * i64::from(q) >= 0);
        assert!(scale.to_bits() >= 0 && scale.to_bits() < 65_536);
    }
    let (x, y, scale) = Fixed::limit_vector(whole(30), whole(-40), limit);
    assert_eq!((x, y, scale), (whole(30), whole(-40), whole(1)));
}

#[test]
fn scalar_formulas_have_their_exact_values() {
    assert_eq!(Fixed::circular_remaining(whole(5), whole(3)), whole(4));
    assert_eq!(Fixed::circular_remaining(whole(5), whole(-9)), whole(0));
    assert!(Fixed::magnitude_exceeds(whole(3), whole(4), Fixed::from_bits((5 << 16) - 1)));
    assert!(!Fixed::magnitude_exceeds(whole(3), whole(4), whole(5)));
    assert_eq!(whole(9).sqrt(), whole(3));
    assert_eq!(whole(-9).sqrt(), whole(0));
    assert_eq!(Fixed::from_bits(-98_304).trunc(), whole(-1));
    assert_eq!(Fixed::from_bits(-98_304).trunc_to_i32(), -1);
    assert_eq!(Fixed::from_bits(-98_304).abs_ceil_u32(), 2);
    assert_eq!(whole(40_000), Fixed::from_bits(i32::MAX));
    assert_eq!(Scalar::max(whole(2), whole(3)), whole(3));
    assert_eq!(Scalar::min(whole(2), whole(3)), whole(2));
    assert_eq!(integer_sqrt_u64(u64::MAX), 0xffff_ffff);
    assert_eq!(integer_sqrt_u64(24), 4);
    assert_eq!(integer_sqrt_ceil_u32(24), 5);
    assert_eq!(integer_sqrt_ceil_u32(25), 5);
    assert_eq!(ratio_u32_q16(1, 4), Fixed::ratio(1, 4));
    assert_eq!(ratio_u32_q16(7, 0), whole(1));
}

#[test]
fn applied_voltage_stays_inside_the_circle() {
    let mut controller = controller::<0, 1>();
    for _ in 0..50 {
        controller.step(
            whole(0),
            whole(0),
            0x2345_6789,
            Dq::new(whole(3_000), whole(-4_000)),
            1_125,
        );
        let applied = controller.applied_voltage();
        assert!(!Fixed::magnitude_exceeds(applied.d, applied.q, whole(1_000)));
    }
    assert!(controller.voltage_limited());
}

#[test]
fn direct_voltage_leaves_the_integrators_alone() {
    let mut controller = controller::<0, 1>();
    controller.step(whole(10), whole(-5), 0, Dq::new(whole(40), whole(40)), 1_125);
    let direct = controller.direct;
    let quadrature = controller.quadrature;
    controller.step_direct_voltage(whole(10), whole(-5), 0, Dq::new(whole(7), whole(0)), 1_125);
    assert_eq!(controller.direct, direct);
    assert_eq!(controller.quadrature, quadrature);
    assert_eq!(controller.applied_voltage(), Dq::new(whole(7), whole(0)));
}

#[test]
fn advance_rotates_the_output_frame_alone() {
    let mut plain = controller::<0, 1>();
    let mut advanced = controller::<0, 1>();
    advanced.set_actuation_advance(Fixed::ratio(1, 10));
    let target = Dq::new(whole(0), whole(200));
    let (current, duties) = plain.step(whole(10), whole(20), 0x1000_0000, target, 1_125);
    let (same_current, other_duties) =
        advanced.step(whole(10), whole(20), 0x1000_0000, target, 1_125);
    assert_eq!(current, same_current);
    assert_eq!(plain.applied_voltage(), advanced.applied_voltage());
    assert_ne!(duties, other_duties);
}

#[test]
fn dead_time_changes_the_modulator_command_alone() {
    let mut plain = controller::<0, 1>();
    let mut compensated = controller::<50, 3>();
    let target = Dq::new(whole(0), whole(200));
    let (current, duties) = plain.step(whole(500), whole(-250), 0, target, 1_125);
    let (same_current, other_duties) =
        compensated.step(whole(500), whole(-250), 0, target, 1_125);
    assert_eq!(current, same_current);
    assert_eq!(plain.applied_voltage(), compensated.applied_voltage());
    assert_eq!(plain.applied_stationary(), compensated.applied_stationary());
    assert_ne!(duties, other_duties);
    assert_eq!(compensated.dead_time_comp_ticks(), Fixed::ratio(50, 3));
}

#[test]
fn reset_controller_forgets_every_step() {
    let fresh = controller::<50, 3>();
    let mut used = controller::<50, 3>();
    used.step(whole(500), whole(-250), 77, Dq::new(whole(9), whole(200)), 1_125);
    used.reset();
    assert_eq!(used.direct, fresh.direct);
    assert_eq!(used.quadrature, fresh.quadrature);
    assert_eq!(used.requested_voltage(), fresh.requested_voltage());
    assert_eq!(used.feedforward_voltage(), fresh.feedforward_voltage());
    assert_eq!(used.applied_voltage(), fresh.applied_voltage());
    assert_eq!(used.applied_stationary(), fresh.applied_stationary());
    assert_eq!(used.measured_stationary(), fresh.measured_stationary());
    assert!(!used.voltage_limited());
}

fn limits(
    input: Option<Fixed>,
    regen: Option<Fixed>,
) -> oxifoc::foc::current_limits::CurrentLimits<Fixed> {
    oxifoc::foc::current_limits::CurrentLimits::new(whole(500), whole(900), input, regen)
}

#[test]
fn limited_target_stays_inside_the_circle() {
    let limiter = CurrentLimiter::new(limits(None, None), 2_250, 5);
    let target = limiter.clamp_targets(Dq::new(whole(300), whole(-1_000)));
    assert_eq!(target, Dq::new(whole(300), whole(-400)));
    let target = limiter.clamp_targets(Dq::new(whole(-800), whole(50)));
    assert_eq!(target, Dq::new(whole(-500), whole(0)));
}

#[test]
fn supply_limits_are_symmetric_and_respect_the_bus() {
    let mut limiter =
        CurrentLimiter::new(limits(Some(whole(100)), Some(whole(100))), 2_250, 0);
    limiter.note_applied_voltage(Dq::new(whole(0), whole(1_000)));
    let drive = limiter.clamp_targets_with_limit(Dq::new(whole(0), whole(500)));
    limiter.note_applied_voltage(Dq::new(whole(0), whole(-1_000)));
    let mirrored = limiter.clamp_targets_with_limit(Dq::new(whole(0), whole(-500)));
    assert_eq!(drive.target.q, -mirrored.target.q);
    assert_eq!(drive.quadrature_limit, mirrored.quadrature_limit);
    // A phase current of 150 at 1,000 ticks of a 2,250-tick period draws 100
    // from the bus.
    assert_eq!(phase_current_limit(whole(100), 1_000, 2_250), whole(150));
    assert_eq!(drive.target.q, whole(150));
}

#[test]
fn absent_regeneration_rejects_opposing_torque() {
    let mut limiter = CurrentLimiter::new(limits(Some(whole(100)), Some(whole(0))), 2_250, 0);
    limiter.note_applied_voltage(Dq::new(whole(0), whole(1_000)));
    assert_eq!(limiter.clamp_targets(Dq::new(whole(0), whole(-500))).q, whole(0));
    assert!(limiter.clamp_targets(Dq::new(whole(0), whole(500))).q > whole(0));
    assert_eq!(limiter.quadrature_limit_counts(-1), 0);
}

#[test]
fn modulation_filter_never_overshoots() {
    let mut value = whole(0);
    for _ in 0..400 {
        let next = filter_modulation(value, whole(1_000), 5);
        assert!(value <= next && next <= whole(1_000));
        value = next;
    }
    assert!(value > whole(990));
}

#[test]
fn overcurrent_threshold_of_zero_never_trips() {
    let limiter = CurrentLimiter::new(limits(None, None), 2_250, 5);
    assert!(limiter.is_overcurrent(Dq::new(whole(900), whole(1))));
    assert!(!limiter.is_overcurrent(Dq::new(whole(900), whole(0))));
    let disabled = oxifoc::foc::current_limits::CurrentLimits::new(
        whole(500),
        whole(0),
        None,
        None,
    );
    assert!(!disabled.is_overcurrent(Dq::new(whole(900), whole(900))));
}

#[test]
fn refused_sources_leave_the_manager_unchanged() {
    let mut manager = PhaseManager::with_hall(HallSensor::new(geometry()));
    for (source, expected) in [
        (PhaseSource::Observer, PhaseSourceError::ObserverNotConfigured),
        (PhaseSource::Encoder, PhaseSourceError::EncoderNotAvailable),
        (PhaseSource::Hfi, PhaseSourceError::HfiNotConfigured),
        (PhaseSource::Manual, PhaseSourceError::ManualSourceNotConfigured),
        (PhaseSource::OpenLoop, PhaseSourceError::ManualSourceNotConfigured),
    ] {
        assert_eq!(manager.set_source(source), Err(expected));
        assert_eq!(manager.source(), PhaseSource::Hall);
        assert!(!manager.request_source(source));
    }
    manager.set_observer(observer());
    assert_eq!(manager.set_source(PhaseSource::Observer), Ok(()));
    assert_eq!(manager.source(), PhaseSource::Observer);
}

#[test]
fn crossover_band_divides_the_speed_range() {
    let mut sensor = HallSensor::new(geometry());
    sensor.seed(5).unwrap();
    let mut manager = PhaseManager::with_hall(sensor);
    manager.set_observer(observer());
    manager
        .set_source(PhaseSource::HallToObserver { blend_low_erpm: 3_000, blend_high_erpm: 6_000 })
        .unwrap();
    let hall = manager.hall().angle(0).unwrap();

    manager.observer_mut().unwrap().seed(hall.wrapping_add(0x1000_0000), 2_900);
    let slow = manager.estimate(0).unwrap();
    assert_eq!(slow.angle, hall);

    manager.observer_mut().unwrap().seed(hall.wrapping_add(0x1000_0000), 6_500);
    let fast = manager.estimate(0).unwrap();
    assert_eq!(fast.angle, hall.wrapping_add(0x1000_0000));

    // A quarter turn and more is ambiguous while the sensor has a say.
    manager.observer_mut().unwrap().seed(hall.wrapping_add(0x5000_0000), 4_500);
    assert_eq!(manager.estimate_for_control(0, 62_500).unwrap().angle, hall);
    assert_eq!(manager.observer().unwrap().phase(), hall);

    manager.reset_observer();
    assert_eq!(manager.estimate(0).unwrap().angle, hall);
}

#[test]
fn requested_seed_is_served_once() {
    let mut sensor = HallSensor::new(geometry());
    sensor.seed(5).unwrap();
    let mut manager = PhaseManager::with_hall(sensor);
    manager.set_observer(observer());
    manager.request_observer_seed();
    let estimate = manager.estimate_for_control(0, 62_500).unwrap();
    assert_eq!(manager.observer().unwrap().phase(), estimate.angle);
    assert!(!manager.observer_seed_requested);
}

#[test]
fn seeded_observer_is_trusted_only_at_speed_and_forgets_on_reset() {
    let fresh = observer();
    let mut seeded = fresh;
    seeded.seed(0x1234_0000, 6_000);
    assert!(seeded.is_ready());
    assert_eq!(seeded.phase(), 0x1234_0000);
    assert!((seeded.electrical_rpm() - 6_000).abs() <= 1);
    let mut slow = fresh;
    slow.seed(0x1234_0000, 100);
    assert!(!slow.is_ready());
    seeded.reset();
    assert_eq!(seeded, fresh);
}

#[test]
fn null_vector_is_centered() {
    let duty = space_vector_pwm_ticks(AlphaBeta::<Fixed>::new_zero(), 1_125, 1_103);
    assert_eq!(duty, PwmDuty { a: 1_125, b: 1_125, c: 1_125 });
    assert_eq!(duty.as_array(), [1_125, 1_125, 1_125]);
}

#[test]
fn compares_keep_the_sampling_margin() {
    for step in 0..64_u32 {
        let (sin, cos) = CordicSinCos::sin_cos(step << 26);
        let voltage = AlphaBeta { alpha: cos * whole(5_000), beta: sin * whole(5_000) };
        for compare in space_vector_pwm_ticks(voltage, 1_125, 1_103).as_array() {
            assert!(22 <= compare && compare <= 2_228);
        }
    }
}

#[test]
fn compares_carry_the_voltage() {
    let voltage = AlphaBeta { alpha: whole(300), beta: whole(200) };
    assert_eq!(
        space_vector_pwm_ticks(voltage, 1_125, 1_103),
        PwmDuty { a: 1_436, b: 1_159, c: 813 }
    );
    // Far beyond the board's window the compares are still exact.
    let wide = AlphaBeta { alpha: whole(6_000), beta: whole(0) };
    assert_eq!(
        space_vector_pwm_ticks(wide, 9_000, 30_000),
        PwmDuty { a: 13_500, b: 4_500, c: 4_500 }
    );
    let root = 3.0_f64.sqrt();
    for step in 0..360_u32 {
        let (sin, cos) = CordicSinCos::sin_cos(step * 11_930_464);
        let voltage = AlphaBeta { alpha: cos * whole(1_200), beta: sin * whole(1_200) };
        let duty = space_vector_pwm_ticks(voltage, 1_125, 1_103);
        let alpha = f64::from(voltage.alpha.to_bits()) / 65_536.0;
        let beta = f64::from(voltage.beta.to_bits()) / 65_536.0;
        let (a, b, c) = (f64::from(duty.a), f64::from(duty.b), f64::from(duty.c));
        assert!((a - b - (3.0 * alpha - root * beta) / 2.0).abs() <= 2.0);
        assert!((b - c - root * beta).abs() <= 2.0);
        assert!((a.max(b).max(c) + a.min(b).min(c) - 2_250.0).abs() <= 2.0);
    }
}

#[test]
fn sources_name_the_estimators_they_need() {
    let blended = PhaseSource::HallToObserver { blend_low_erpm: 1, blend_high_erpm: 2 };
    assert!(blended.requires_hall() && blended.requires_observer());
    assert!(!PhaseSource::Encoder.requires_hall());
    assert!(PhaseStrategy::HfiToEncoder.requires_encoder());
    assert!(PhaseStrategy::HfiToEncoder.requires_hfi());
    assert!(PhaseStrategy::OpenLoop.is_manual());
    assert!(!PhaseStrategy::Observer.is_manual());
}
