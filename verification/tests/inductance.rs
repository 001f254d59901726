//! Inductance pulses.
use oxifoc::calibration::inductance::{
    pulse_inductance_nwb_per_count, pulse_step_for_level, scale_pulse_to_target,
    InductanceCalibration, PulseDiagnostic, LOCK_POSITION_COUNT,
};

#[test]
fn native_pulse_equation_recovers_effective_inductance() {
    // 52.3 V bus, 100-tick pulse, 43 mV/count resistance coefficient,
    // 20-count rise around a 100-count hold.
    let pulse_bits = 100 << 16;
    let pulse_uv = 100_i64 * 52_300 * 1_000 / 2_250;
    let expected_di = 20_i64;
    let resistance_uv = 4_300_i64 * expected_di / 2;
    let expected = (pulse_uv - resistance_uv) * 1_000 / (16_000 * expected_di);
    assert_eq!(
        pulse_inductance_nwb_per_count(4_300, pulse_bits, 52_300, 100, 100, 120),
        Some(expected as u32)
    );
}

#[test]
fn pulse_probe_scales_back_to_the_current_target() {
    assert_eq!(scale_pulse_to_target(120 << 16, 30, 500 << 16), 80 << 16);
}

#[test]
fn calibrated_pulse_builds_the_same_three_level_ladder_at_every_position() {
    let mut calibration = InductanceCalibration::new();
    calibration.base_pulse_step_tick_bits = 40 << 16;
    calibration.probing = false;

    for position in 0..LOCK_POSITION_COUNT {
        calibration.position = position;
        calibration.reset_position();
        assert_eq!(calibration.pulse_step_tick_bits, 20 << 16);
        assert_eq!(
            pulse_step_for_level(calibration.base_pulse_step_tick_bits, 1),
            40 << 16
        );
        assert_eq!(
            pulse_step_for_level(calibration.base_pulse_step_tick_bits, 2),
            60 << 16
        );
    }

    assert!(!calibration.probing);
}

#[test]
fn completed_level_retains_angle_step_average_di_and_inductance() {
    let mut calibration = InductanceCalibration::new();
    calibration.position = 2;
    calibration.pulse_level = 1;
    calibration.base_pulse_step_tick_bits = 40 << 16;
    calibration.pulse_step_tick_bits = 40 << 16;
    calibration.valid_pulses = 20;
    calibration.pulse_di_sum_counts = 360;

    calibration.finish_pulse_level(2_750);

    assert_eq!(
        calibration.result().pulse_diagnostics[7],
        PulseDiagnostic {
            pulse_step_ticks: 40,
            average_di_counts: 18,
            inductance_nwb_per_count: 2_750,
        }
    );
}
