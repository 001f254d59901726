//! Back-EMF observer.
use oxifoc::foc::phase::observer::{
    atan2_turns, divide_q16, erpm_to_step, reciprocal_q32_rounded, signed_angle_difference,
};
use oxifoc::foc::phase::{BackEmfObserver, PhaseInput};
use oxifoc::foc::trig::Turns;
use oxifoc::foc::{AlphaBeta, Fixed};

fn fixed(value: f32) -> Fixed {
    Fixed::from_bits((value * 65_536.0) as i32)
}

fn turns(value: f32) -> Turns {
    (f64::from(value.rem_euclid(1.0)) * 4_294_967_296.0_f64) as u32
}

fn turn_error(left: Turns, right: Turns) -> f32 {
    (f64::from(signed_angle_difference(left, right)) / 4_294_967_296.0_f64) as f32
}

#[test]
fn polynomial_atan2_tracks_the_unit_circle() {
    let mut maximum_error = 0.0_f32;
    for index in 0..4096 {
        let angle = index as f32 / 4096.0 * core::f32::consts::TAU;
        let actual = atan2_turns(fixed(angle.sin()).to_bits(), fixed(angle.cos()).to_bits());
        maximum_error =
            maximum_error.max(turn_error(actual, turns(angle / core::f32::consts::TAU)).abs());
    }
    assert!(
        maximum_error < 0.002,
        "atan2 error was {maximum_error} turns"
    );
}

fn run_ideal_observer(electrical_rpm: i32) -> BackEmfObserver {
    const FREQUENCY: u32 = 16_000;
    let resistance = fixed(0.0884);
    let inductance_millihenries = fixed(0.039);
    let flux_mwb = fixed(12.2);
    let mut observer =
        BackEmfObserver::new(resistance, inductance_millihenries, flux_mwb, FREQUENCY);
    let mut phase_turns = 0.1_f32;
    observer.seed(turns(phase_turns), electrical_rpm);
    let turns_per_cycle = electrical_rpm as f32 / (60.0 * FREQUENCY as f32);
    let omega = electrical_rpm as f32 * core::f32::consts::TAU / 60.0;
    let lambda_wb = 0.0122_f32;
    for _ in 0..32_000 {
        let angle = phase_turns * core::f32::consts::TAU;
        observer.update(&PhaseInput::new(
            AlphaBeta {
                alpha: fixed(-omega * lambda_wb * angle.sin()),
                beta: fixed(omega * lambda_wb * angle.cos()),
            },
            AlphaBeta::default(),
            62_500,
        ));
        phase_turns = (phase_turns + turns_per_cycle).rem_euclid(1.0);
    }
    assert!(
        turn_error(observer.phase(), turns(phase_turns)).abs() < 0.04,
        "phase error={} turns",
        turn_error(observer.phase(), turns(phase_turns)),
    );
    observer
}

#[test]
fn seeded_observer_tracks_forward_rotation() {
    for electrical_rpm in [3_000, 6_000, 20_000, 40_000] {
        let observer = run_ideal_observer(electrical_rpm);
        assert!((observer.electrical_rpm() - electrical_rpm).unsigned_abs() < 150);
        assert!(observer.is_ready());
    }
}

#[test]
fn seeded_observer_tracks_reverse_rotation() {
    for electrical_rpm in [-3_000, -6_000, -20_000, -40_000] {
        let observer = run_ideal_observer(electrical_rpm);
        assert!((observer.electrical_rpm() - electrical_rpm).unsigned_abs() < 150);
        assert!(observer.is_ready());
    }
}

#[test]
fn unexcited_observer_never_becomes_ready() {
    let mut observer = BackEmfObserver::new(fixed(0.0884), fixed(0.039), fixed(12.2), 16_000);
    for _ in 0..10_000 {
        observer.update(&PhaseInput::default());
    }
    assert!(!observer.is_ready());
    assert_eq!(observer.confidence(), Fixed::zero());
}

fn run_loaded_observer(electrical_rpm: i32, final_q_current_a: f32) -> BackEmfObserver {
    const FREQUENCY: u32 = 16_000;
    const DT: f32 = 1.0 / FREQUENCY as f32;
    const RESISTANCE_OHMS: f32 = 0.0884;
    const INDUCTANCE_HENRIES: f32 = 0.000_039;
    const FLUX_LINKAGE_WEBERS: f32 = 0.0122;

    let mut observer = BackEmfObserver::new(
        fixed(RESISTANCE_OHMS),
        fixed(INDUCTANCE_HENRIES * 1_000.0),
        fixed(FLUX_LINKAGE_WEBERS * 1_000.0),
        FREQUENCY,
    );
    let mut phase_turns = 0.1_f32;
    observer.seed(turns(phase_turns), electrical_rpm);
    let turns_per_cycle = electrical_rpm as f32 / (60.0 * FREQUENCY as f32);
    let mut current_alpha = 0.0_f32;
    let mut current_beta = 0.0_f32;
    let angle = phase_turns * core::f32::consts::TAU;
    let mut flux_alpha = FLUX_LINKAGE_WEBERS * angle.cos();
    let mut flux_beta = FLUX_LINKAGE_WEBERS * angle.sin();

    for cycle in 0..32_000 {
        phase_turns = (phase_turns + turns_per_cycle).rem_euclid(1.0);
        let angle = phase_turns * core::f32::consts::TAU;
        let current_ramp = (cycle as f32 / 100.0).min(1.0);
        let q_current = final_q_current_a * current_ramp;
        let next_current_alpha = -q_current * angle.sin();
        let next_current_beta = q_current * angle.cos();
        let next_flux_alpha = FLUX_LINKAGE_WEBERS * angle.cos();
        let next_flux_beta = FLUX_LINKAGE_WEBERS * angle.sin();
        let voltage_alpha = RESISTANCE_OHMS * next_current_alpha
            + (next_flux_alpha - flux_alpha) / DT
            + INDUCTANCE_HENRIES * (next_current_alpha - current_alpha) / DT;
        let voltage_beta = RESISTANCE_OHMS * next_current_beta
            + (next_flux_beta - flux_beta) / DT
            + INDUCTANCE_HENRIES * (next_current_beta - current_beta) / DT;

        observer.update(&PhaseInput::new(
            AlphaBeta {
                alpha: fixed(voltage_alpha),
                beta: fixed(voltage_beta),
            },
            AlphaBeta {
                alpha: fixed(next_current_alpha),
                beta: fixed(next_current_beta),
            },
            62_500,
        ));
        current_alpha = next_current_alpha;
        current_beta = next_current_beta;
        flux_alpha = next_flux_alpha;
        flux_beta = next_flux_beta;
    }

    assert!(
        turn_error(observer.phase(), turns(phase_turns)).abs() < 0.04,
        "loaded phase error={} turns",
        turn_error(observer.phase(), turns(phase_turns)),
    );
    observer
}

#[test]
fn motor_model_cancels_resistive_and_inductive_drop_under_load() {
    for electrical_rpm in [3_000, -3_000] {
        let observer = run_loaded_observer(electrical_rpm, 60.0);
        assert!(
            (observer.electrical_rpm() - electrical_rpm).unsigned_abs() < 150,
            "observer speed={} expected={electrical_rpm}",
            observer.electrical_rpm(),
        );
        assert!(observer.is_ready());
    }
}

#[test]
fn q16_division_preserves_sign_and_fraction() {
    for (numerator, denominator) in [(3.8, 12.2), (-3.8, 12.2), (48.0, 12.2)] {
        let actual = divide_q16(fixed(numerator).to_bits(), fixed(denominator).to_bits());
        let expected = fixed(numerator / denominator).to_bits();
        assert!((actual - expected).unsigned_abs() < 256);
    }
    assert_eq!(divide_q16(Fixed::one().to_bits(), 0), 0);
}

#[test]
fn rounded_erpm_reciprocal_preserves_seed_speed() {
    const FREQUENCY: u32 = 16_000;
    assert_eq!(reciprocal_q32_rounded(FREQUENCY * 60), 4_474);

    for electrical_rpm in -76_000..=76_000 {
        let velocity_step = erpm_to_step(electrical_rpm, FREQUENCY);
        let recovered = ((i64::from(velocity_step) * i64::from(FREQUENCY * 60)) >> 32) as i32;
        assert!(
            (recovered - electrical_rpm).unsigned_abs() <= 2,
            "requested={electrical_rpm} recovered={recovered}",
        );
    }
}
