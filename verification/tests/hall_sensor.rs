//! Hall sensor geometry and interpolation.
use oxifoc::foc::hall_sensor::{scale_interval, STALE_SECTOR_MULTIPLE};
use oxifoc::foc::phase::PhaseProvider;
use oxifoc::foc::{HallError, HallGeometry, HallSensor};

fn test_geometry() -> &'static HallGeometry {
    Box::leak(Box::new(HallGeometry::new(
        [5, 1, 3, 2, 6, 4],
        [5_699, 16_526, 26_499, 37_754, 49_151, 59_124],
        -1,
    )))
}

fn tracker() -> HallSensor {
    HallSensor::new(test_geometry())
}

#[test]
fn stationary_seed_uses_the_recovered_sector_center() {
    let mut hall = tracker();
    hall.seed(5).unwrap();
    assert_eq!(hall.angle(40_000), Some(u32::from(11_112_u16) << 16));
}

#[test]
fn physical_forward_sequence_decreases_calibrated_angle() {
    let mut hall = tracker();
    hall.seed(5).unwrap();
    hall.update_edge(4, 1_000).unwrap();
    hall.update_edge(6, 1_000).unwrap();
    let edge = hall.angle(0).unwrap();
    let halfway = hall.angle(500).unwrap();
    assert!(edge.wrapping_sub(halfway) > 0);
    assert!(hall.electrical_rpm() > 0);
    assert!(hall.angle_electrical_rpm() < 0);
    assert_eq!(
        hall.estimate(500).unwrap().electrical_rpm,
        hall.angle_electrical_rpm()
    );
    for raw in [2, 3, 1, 5] {
        hall.update_edge(raw, 1_000).unwrap();
    }
    assert_eq!(hall.raw_state(), 5);
    assert!(hall.is_valid());
}

#[test]
fn physical_reverse_sequence_increases_calibrated_angle() {
    let mut hall = tracker();
    hall.seed(5).unwrap();
    hall.update_edge(1, 1_000).unwrap();
    hall.update_edge(3, 1_000).unwrap();
    assert!(
        hall.angle(500)
            .unwrap()
            .wrapping_sub(hall.angle(0).unwrap())
            > 0
    );
    assert!(hall.electrical_rpm() < 0);
    assert!(hall.angle_electrical_rpm() > 0);
}

#[test]
fn invalid_transition_revokes_angle() {
    let mut hall = tracker();
    hall.seed(5).unwrap();
    assert_eq!(hall.update_edge(2, 100), Err(HallError::InvalidTransition));
    assert_eq!(hall.angle(100), None);
}

#[test]
fn moving_estimate_eventually_becomes_stale() {
    let mut hall = tracker();
    hall.seed(5).unwrap();
    hall.update_edge(4, 1_000).unwrap();
    hall.update_edge(6, 1_000).unwrap();
    let stale_after = hall
        .entered_duration_us()
        .saturating_mul(STALE_SECTOR_MULTIPLE);
    assert!(hall.angle(stale_after).is_some());
    assert_eq!(hall.angle(stale_after + 1), None);
}

#[test]
fn unequal_sectors_reach_the_entered_boundary_without_stopping_early() {
    let mut hall = tracker();
    hall.seed(5).unwrap();
    hall.update_edge(4, 1_000).unwrap();
    hall.update_edge(6, 1_000).unwrap();
    let end = hall.angle(hall.entered_duration_us()).unwrap();
    assert_eq!(
        end,
        u32::from(test_geometry().sector(6).unwrap().boundary_q16) << 16
    );
}

#[test]
fn control_estimate_limits_an_early_edge_correction() {
    const CONTROL_PERIOD_NS: u32 = 62_500;

    let mut hall = tracker();
    hall.seed(5).unwrap();
    hall.update_edge(4, 1_000).unwrap();
    let _ = hall.estimate_for_control(0, CONTROL_PERIOD_NS).unwrap();
    hall.update_edge(6, 1_000).unwrap();
    for edge_age_us in [0, 63, 125, 188, 250, 313, 375, 438, 500] {
        let _ = hall
            .estimate_for_control(edge_age_us, CONTROL_PERIOD_NS)
            .unwrap();
    }
    let before = hall
        .estimate_for_control(500, CONTROL_PERIOD_NS)
        .unwrap()
        .angle;

    hall.update_edge(2, 500).unwrap();
    let unlimited = hall.angle(0).unwrap();
    let limited = hall
        .estimate_for_control(0, CONTROL_PERIOD_NS)
        .unwrap()
        .angle;
    let limited_step = limited.wrapping_sub(before) as i32;
    let unlimited_step = unlimited.wrapping_sub(before) as i32;

    assert!(limited_step.unsigned_abs() < unlimited_step.unsigned_abs());
    assert_eq!(hall.unlimited_angle(), unlimited);
}

#[test]
fn low_speed_control_estimate_preserves_the_unlimited_angle() {
    let mut hall = tracker();
    hall.seed(5).unwrap();
    hall.update_edge(4, 200_000).unwrap();
    hall.update_edge(6, 200_000).unwrap();

    let unlimited = hall.angle(50_000).unwrap();
    let limited = hall.estimate_for_control(50_000, 62_500).unwrap().angle;

    assert_eq!(limited, unlimited);
}

#[test]
fn actuation_advance_follows_the_signed_angle_motion() {
    let mut hall = tracker();
    hall.seed(5).unwrap();
    hall.update_edge(4, 1_000).unwrap();
    hall.update_edge(6, 1_000).unwrap();

    let _ = hall.estimate_for_control(0, 62_500).unwrap();
    let advance = hall.actuation_advance();
    assert!(advance.to_bits() < 0);
    assert!((3_500..=5_000).contains(&advance.to_bits().unsigned_abs()));
}

#[test]
fn first_run_edge_derives_a_complete_interval_from_the_sector_center() {
    let mut hall = tracker();
    hall.seed(5).unwrap();
    hall.discard_next_interval();
    hall.update_edge(4, 5_000).unwrap();

    assert!((9_900..=10_100).contains(&hall.sector_interval_us()));
    assert!((950..=1_050).contains(&hall.electrical_rpm()));
    assert!(hall.angle(5_000).unwrap() != hall.angle(0).unwrap());
}

#[test]
fn interval_scaling_matches_the_wide_reference_without_overflow() {
    let intervals = [0, 1, 999, 65_535, 1_000_000, u32::MAX];
    let numerators = [1, 9_973, 11_397, u16::MAX];
    let denominators = [1, 5_699, 9_973, u16::MAX];

    for interval in intervals {
        for numerator in numerators {
            for denominator in denominators {
                let expected = (u64::from(interval) * u64::from(numerator)
                    / u64::from(denominator))
                .min(u64::from(u32::MAX)) as u32;
                assert_eq!(
                    scale_interval(interval, numerator, denominator),
                    expected,
                    "interval={interval} numerator={numerator} denominator={denominator}"
                );
            }
        }
    }
    assert_eq!(scale_interval(1_000, 5_699, 0), 0);
}

#[test]
fn geometry_uses_the_supplied_sequence_and_boundaries() {
    assert_eq!(test_geometry().electrical_states(), &[5, 1, 3, 2, 6, 4]);
    assert_eq!(
        test_geometry().boundaries_q16(),
        &[5_699, 16_526, 26_499, 37_754, 49_151, 59_124]
    );
    assert_eq!(test_geometry().calibrated_center(5), 11_112);
}

#[test]
fn geometry_indexes_calibration_directly_by_raw_state() {
    let sector = test_geometry().sector(5).unwrap();
    assert_eq!(sector.boundary_q16, 5_699);
    assert_eq!(sector.width_q16, 10_827);
    assert_eq!(sector.next_raw, 1);
    assert_eq!(sector.previous_raw, 4);

    let wrapping_sector = test_geometry().sector(4).unwrap();
    assert_eq!(wrapping_sector.boundary_q16, 59_124);
    assert_eq!(wrapping_sector.width_q16, 12_111);
    assert_eq!(wrapping_sector.next_raw, 5);
    assert_eq!(wrapping_sector.previous_raw, 6);

    assert!(test_geometry().sector(0).is_none());
    assert!(test_geometry().sector(7).is_none());
    assert!(test_geometry().sector(8).is_none());
}
