//! Resistance sweep.
use oxifoc::calibration::config::PWM_PERIOD_TICKS;
use oxifoc::calibration::resistance::{ResistanceCalibration, Sample, State};
use oxifoc::calibration::types::Failure;

fn run_to_completion(calibration: &mut ResistanceCalibration) {
    for _ in 0..50_000 {
        let current = calibration.target_counts();
        // At 45 V and ARR=2250, one tick is 20 mV. The simulated winding
        // has a 4 mV/count slope plus a constant 340 mV bridge offset.
        let voltage = 17 + i32::from(current) / 5;
        calibration.tick(Sample {
            measured_d_counts: current,
            applied_d_tick_bits: voltage << 16,
            bus_voltage_mv: 45_000,
        });
        if !calibration.active() {
            return;
        }
    }
    panic!("calibration did not finish");
}

#[test]
fn two_point_slope_cancels_constant_bridge_voltage() {
    let mut calibration = ResistanceCalibration::new();
    calibration.start();
    run_to_completion(&mut calibration);

    assert_eq!(calibration.state(), State::Complete);
    assert_eq!(calibration.failure(), Failure::NoFailure);
    assert_eq!(calibration.result().effective_uv_per_count, 4_000);
    assert_eq!(calibration.result().nominal_resistance_uohm, 40_000);
    assert_eq!(calibration.result().low.current_counts, 50);
    assert_eq!(calibration.result().high.current_counts, 250);
}

#[test]
fn fractional_voltage_ticks_preserve_the_loaded_motor_slope() {
    let mut calibration = ResistanceCalibration::new();
    calibration.start();
    for _ in 0..50_000 {
        let current = calibration.target_counts();
        let slope_bits =
            i64::from(current) * 4_300 * i64::from(PWM_PERIOD_TICKS) * (1_i64 << 16)
                / (52_300 * 1_000);
        calibration.tick(Sample {
            measured_d_counts: current,
            applied_d_tick_bits: (12_i64 * (1_i64 << 16) + slope_bits) as i32,
            bus_voltage_mv: 52_300,
        });
        if !calibration.active() {
            break;
        }
    }

    assert_eq!(calibration.state(), State::Complete);
    assert!(calibration.result().effective_uv_per_count.abs_diff(4_300) <= 1);
}

#[test]
fn a_current_loop_that_does_not_land_is_rejected_after_ramp_down() {
    let mut calibration = ResistanceCalibration::new();
    calibration.start();
    for _ in 0..50_000 {
        calibration.tick(Sample {
            measured_d_counts: 0,
            applied_d_tick_bits: 17 << 16,
            bus_voltage_mv: 45_000,
        });
        if !calibration.active() {
            break;
        }
    }
    assert_eq!(calibration.state(), State::Failed);
    assert_eq!(calibration.failure(), Failure::CurrentDidNotSettle);
}

#[test]
fn explicit_failure_stops_the_sequence_immediately() {
    let mut calibration = ResistanceCalibration::new();
    calibration.start();
    calibration.fail(Failure::Stopped);
    assert_eq!(calibration.target_counts(), 0);
    assert_eq!(calibration.state(), State::Failed);
    assert_eq!(calibration.failure(), Failure::Stopped);
}
