//! Flux linkage measurement.
use oxifoc::calibration::config::{FLUX_TARGET_ERPM, PWM_HZ};
use oxifoc::calibration::flux_linkage::{erpm_step, FluxLinkageCalibration, TAU_MILLIRADIANS};

#[test]
fn vector_equation_recovers_flux_independent_of_load_angle() {
    let lambda_nwb = 13_400_000_i64;
    let erpm = 6_000_i64;
    let omega_mrad = erpm * TAU_MILLIRADIANS / 60;
    let bemf_uv = lambda_nwb * omega_mrad / 1_000_000;
    let recovered = bemf_uv.unsigned_abs() * 1_000_000 / omega_mrad as u64;
    assert!((recovered as i64 - lambda_nwb).unsigned_abs() < 2_000);
}

#[test]
fn erpm_step_integrates_one_turn_per_second_at_sixty_erpm() {
    let accumulated = u64::from(erpm_step(60)) * u64::from(PWM_HZ);
    assert!((accumulated as i64 - (1_i64 << 32)).unsigned_abs() < u64::from(PWM_HZ));
}

#[test]
fn averaged_vector_result_reports_the_expected_flux() {
    let omega_mrad = i64::from(FLUX_TARGET_ERPM) * TAU_MILLIRADIANS / 60;
    let expected_nwb = 13_400_000_i64;
    let bemf_uv = expected_nwb * omega_mrad / 1_000_000;
    let mut calibration = FluxLinkageCalibration::new();
    calibration.sample_count = 100;
    calibration.bemf_d_sum_uv = bemf_uv * 60;
    calibration.bemf_q_sum_uv = bemf_uv * 80;
    calibration.electrical_rpm = 0;
    assert!(calibration.finish_result());
    assert!(
        calibration
            .result()
            .flux_linkage_nwb
            .abs_diff(expected_nwb as u32)
            < 2_000
    );
}
