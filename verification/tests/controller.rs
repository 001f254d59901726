//! Current controller.
use oxifoc::foc::controller::limit_voltage;
use oxifoc::foc::svpwm::SvpwmTickModulator;
use oxifoc::foc::trig::{CordicSinCos, Turns};
use oxifoc::foc::{
    DecouplingModel, Dq, Fixed, FixedDecoupling, FixedFocController, FocController, PIController,
    Scalar,
};

fn fixed_controller() -> FixedFocController<0, 1> {
    let pi = PIController::new(Fixed::ratio(512, 1_024), Fixed::ratio(605, 16_384));
    FocController::new(pi, pi, Fixed::from_integer(1_250), 1_085)
}

#[test]
fn vector_limit_is_circular_and_preserves_direction() {
    let diagonal = limit_voltage(
        Dq::new(Fixed::from_integer(1_000), Fixed::from_integer(1_000)),
        Fixed::from_integer(1_250),
    );
    assert!((diagonal.d - diagonal.q).abs_ceil_u32() <= 1);
    assert!((882..=884).contains(&diagonal.d.integer()));
    assert!(!Fixed::magnitude_exceeds(
        diagonal.d,
        diagonal.q,
        Fixed::from_integer(1_250),
    ));

    let shallow = limit_voltage(
        Dq::new(Fixed::from_integer(2_000), Fixed::from_integer(50)),
        Fixed::from_integer(1_250),
    );
    let cross_product_error = (i64::from(shallow.d.to_bits()) * 50
        - i64::from(shallow.q.to_bits()) * 2_000)
        .unsigned_abs();
    assert!(cross_product_error <= 2_000);
    assert!((1_248..=1_250).contains(&shallow.d.integer()));
    assert!(!Fixed::magnitude_exceeds(
        shallow.d,
        shallow.q,
        Fixed::from_integer(1_250),
    ));
}

#[test]
fn controller_reports_and_resets_voltage_limiting() {
    let mut controller = fixed_controller();
    let _ = controller.step(
        Fixed::zero(),
        Fixed::zero(),
        0,
        Dq::new(Fixed::from_integer(10_000), Fixed::zero()),
        1_125,
    );
    assert!(controller.voltage_limited());
    controller.reset();
    assert!(!controller.voltage_limited());
    assert_eq!(
        controller.applied_voltage(),
        Dq::new(Fixed::zero(), Fixed::zero())
    );
}

#[test]
fn direct_voltage_uses_the_shared_limit_and_modulator_without_pi_output() {
    let mut controller = fixed_controller();
    let (measured, duties) = controller.step_direct_voltage(
        Fixed::from_integer(12),
        Fixed::from_integer(-4),
        0,
        Dq::new(Fixed::from_integer(2_000), Fixed::zero()),
        1_125,
    );

    assert!((11..=12).contains(&measured.d.integer()));
    assert!(controller.voltage_limited());
    assert!((1_249..=1_250).contains(&controller.applied_voltage().d.integer()));
    assert_eq!(controller.feedforward_voltage(), Dq::default());
    assert!(duties.as_array().into_iter().all(|duty| duty <= 2_210));
}

#[test]
fn fixed_controller_back_calculation_tracks_the_applied_vector() {
    let mut controller = fixed_controller();
    for _ in 0..100 {
        let (_, duty) = controller.step(
            Fixed::zero(),
            Fixed::zero(),
            0 as Turns,
            Dq::new(Fixed::from_integer(10_000), Fixed::zero()),
            1_125,
        );
        assert!(duty.a.abs_diff(1_125) <= 1_085);
        assert!(duty.b.abs_diff(1_125) <= 1_085);
        assert!(duty.c.abs_diff(1_125) <= 1_085);
    }
    let (_, duty) = controller.step(
        Fixed::zero(),
        Fixed::zero(),
        0,
        Dq::new(Fixed::from_integer(-100), Fixed::zero()),
        1_125,
    );
    assert!(duty.a < 1_125);
}

#[test]
fn actuation_advance_rotates_only_the_output_voltage_frame() {
    let mut unadvanced = fixed_controller();
    let mut advanced = fixed_controller();
    advanced.set_actuation_advance(Fixed::ratio(1, 10));

    let input = (
        Fixed::from_integer(240),
        Fixed::from_integer(-173),
        0x2000_0000,
        Dq::new(Fixed::zero(), Fixed::from_integer(-320)),
        1_125,
    );
    let (plain_current, plain_duty) =
        unadvanced.step(input.0, input.1, input.2, input.3, input.4);
    let (advanced_current, advanced_duty) =
        advanced.step(input.0, input.1, input.2, input.3, input.4);

    assert_eq!(advanced_current, plain_current);
    assert_ne!(advanced_duty, plain_duty);
    assert_eq!(advanced.actuation_advance(), Fixed::ratio(1, 10));
}

#[test]
fn actuation_advance_is_bounded_to_the_small_angle_model() {
    let mut controller = fixed_controller();
    controller.set_actuation_advance(Fixed::from_integer(2));
    assert_eq!(controller.actuation_advance(), Fixed::ratio(1, 2));
    controller.set_actuation_advance(Fixed::from_integer(-2));
    assert_eq!(controller.actuation_advance(), Fixed::ratio(-1, 2));
}

#[test]
fn dead_time_compensation_follows_all_six_phase_current_sign_regions() {
    let pi = PIController::new(Fixed::zero(), Fixed::zero());
    let controller = FixedFocController::<9, 1>::new(pi, pi, Fixed::from_integer(1_250), 1_085);
    let alpha_step = Fixed::from_integer(9) * Fixed::two_thirds();
    let beta_step = Fixed::from_integer(9) * Fixed::two_inv_sqrt_3();
    for (phase_a, phase_b, expected_alpha, expected_beta) in [
        (2, -1, alpha_step + alpha_step, Fixed::zero()),
        (1, 1, alpha_step, beta_step),
        (-1, 2, -alpha_step, beta_step),
        (-2, 1, -(alpha_step + alpha_step), Fixed::zero()),
        (-1, -1, -alpha_step, -beta_step),
        (1, -2, alpha_step, -beta_step),
    ] {
        let compensated = controller.apply_dead_time_comp(
            Fixed::zero(),
            Fixed::zero(),
            Fixed::from_integer(phase_a),
            Fixed::from_integer(phase_b),
        );
        assert_eq!(compensated, (expected_alpha, expected_beta));
    }
}

#[test]
fn dead_time_compensation_changes_only_the_modulator_command() {
    let mut plain = fixed_controller();
    let pi = PIController::new(Fixed::ratio(512, 1_024), Fixed::ratio(605, 16_384));
    let mut compensated =
        FixedFocController::<9, 1>::new(pi, pi, Fixed::from_integer(1_250), 1_085);
    let input = (
        Fixed::from_integer(100),
        Fixed::from_integer(-60),
        0,
        Dq::new(Fixed::zero(), Fixed::zero()),
        1_125,
    );
    let (plain_current, plain_duty) = plain.step(input.0, input.1, input.2, input.3, input.4);
    let (compensated_current, compensated_duty) =
        compensated.step(input.0, input.1, input.2, input.3, input.4);

    assert_eq!(compensated_current, plain_current);
    assert_eq!(compensated.applied_voltage(), plain.applied_voltage());
    assert_eq!(compensated.applied_stationary(), plain.applied_stationary());
    assert_ne!(compensated_duty, plain_duty);
    assert_eq!(compensated.dead_time_comp_ticks(), Fixed::from_integer(9));
}

#[test]
fn fixed_decoupling_matches_the_reference_current_speed_voltage_terms() {
    type Motor = FixedDecoupling<409, 409, 799_539>;
    let volts_per_tick = Fixed::ratio(523, 22_500);
    let forward = Motor::feedforward(
        6_000,
        Dq::new(Fixed::zero(), Fixed::from_integer(838)),
        volts_per_tick,
    );
    assert!((-143..=-140).contains(&forward.d.integer()));
    assert!((328..=331).contains(&forward.q.integer()));

    let reverse = Motor::feedforward(
        -6_000,
        Dq::new(Fixed::zero(), Fixed::from_integer(-838)),
        volts_per_tick,
    );
    assert!((-143..=-140).contains(&reverse.d.integer()));
    assert!((-331..=-328).contains(&reverse.q.integer()));
}

#[test]
fn no_decoupling_contributes_zero_voltage_at_speed() {
    let proportional = PIController::new(Fixed::one(), Fixed::zero());
    let mut controller: FixedFocController<0, 1> = FixedFocController::new(
        proportional,
        proportional,
        Fixed::from_integer(1_273),
        1_103,
    );
    let _ = controller.step_with_velocity_and_injection(
        Fixed::zero(),
        Fixed::zero(),
        0,
        -31_000,
        Dq::new(Fixed::from_integer(11), Fixed::from_integer(-17)),
        Dq::default(),
        Fixed::ratio(523, 22_500),
        1_125,
    );

    assert_eq!(controller.feedforward_voltage(), Dq::default());
    assert_eq!(
        controller.requested_voltage(),
        Dq::new(Fixed::from_integer(11), Fixed::from_integer(-17))
    );
}

struct SaturatingFeedforward;

impl DecouplingModel<Fixed> for SaturatingFeedforward {
    fn feedforward_for(electrical_rpm: i32, target: Dq, volts_per_pwm_tick: Fixed) -> Dq {
        Self::feedforward(electrical_rpm, target, volts_per_pwm_tick)
    }

    fn feedforward(_electrical_rpm: i32, _target: Dq<Fixed>, _volts_per_tick: Fixed) -> Dq {
        Dq::new(Fixed::from_integer(100), Fixed::zero())
    }
}

#[test]
fn feedforward_is_inside_the_circle_but_outside_pi_anti_windup() {
    type Controller =
        FocController<Fixed, CordicSinCos, SvpwmTickModulator, SaturatingFeedforward, 0, 1>;
    let pi = PIController::new(Fixed::zero(), Fixed::zero());
    let mut controller = Controller::new(pi, pi, Fixed::from_integer(50), 100);
    let _ = controller.step_with_velocity_and_injection(
        Fixed::zero(),
        Fixed::zero(),
        0,
        1_000,
        Dq::default(),
        Dq::default(),
        Fixed::one(),
        100,
    );

    assert!(controller.voltage_limited());
    assert_eq!(
        controller.requested_voltage(),
        Dq::new(Fixed::from_integer(100), Fixed::zero())
    );
    assert_eq!(
        controller.feedforward_voltage(),
        Dq::new(Fixed::from_integer(100), Fixed::zero())
    );
    assert_eq!(controller.applied_voltage().d.integer(), 50);
    assert_eq!(controller.direct.integral(), Fixed::zero());

    controller.reset();
    assert_eq!(controller.requested_voltage(), Dq::default());
    assert_eq!(controller.feedforward_voltage(), Dq::default());
}
