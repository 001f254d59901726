//! Hall-center sweep.
use oxifoc::calibration::hall_calibration::{
    HallCalibration, State, DEGREES_PER_SWEEP, SWEEP_COUNT,
};

#[test]
fn fixed_circular_average_handles_the_turn_boundary() {
    let angles = [u32::MAX - (1 << 24), 0, 1 << 24];
    let anchor = angles[0];
    let mut offset_sum = 0_i64;
    for angle in &angles {
        offset_sum += i64::from(angle.wrapping_sub(anchor) as i32);
    }
    let center = anchor.wrapping_add((offset_sum / 3) as i32 as u32);
    assert!(center < 1 << 20 || center > u32::MAX - (1 << 20));
}

#[test]
fn six_bidirectional_sweeps_recover_all_raw_state_centers() {
    let raw_by_sector = [1_u8, 3, 2, 6, 4, 5];
    let mut calibration = HallCalibration::new();
    calibration.state = State::Sweep;
    for _ in 0..u32::from(SWEEP_COUNT) * u32::from(DEGREES_PER_SWEEP) {
        let sector = ((u64::from(calibration.angle) * 6) >> 32) as usize;
        calibration.record_step(raw_by_sector[sector]);
    }
    assert_eq!(calibration.state, State::RampDown);
    assert!(calibration.finish_result());
    let result = calibration.result();
    assert_eq!(result.valid_mask, 0x7e);
    assert!(result.minimum_samples >= 30);
    for (sector, raw) in raw_by_sector.into_iter().enumerate() {
        let expected = ((sector as u32 * 60 + 30) * 65_536 / 360) as u16;
        assert!(result.centers_q16[usize::from(raw)].abs_diff(expected) < 200);
    }
}
