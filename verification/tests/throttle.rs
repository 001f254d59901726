//! Throttle and digital inputs.
use oxifoc::f103::sensors::inputs::DebouncedActiveLow;
use oxifoc::f103::sensors::throttle::{
    ArmingGate, Observation, DEMAND_MAX_COUNTS, FULL_ADC, PLAUSIBLE_HIGH_ADC, PLAUSIBLE_LOW_ADC,
    REST_ADC, REST_MAX_ADC,
};

#[test]
fn active_low_input_requires_four_matching_samples() {
    let mut input = DebouncedActiveLow::new(4);
    for _ in 0..3 {
        assert!(!input.update(true));
    }
    assert!(input.update(true));
    for _ in 0..3 {
        assert!(input.update(false));
    }
    assert!(!input.update(false));
}

#[test]
fn opposite_sample_restarts_the_debounce_window() {
    let mut input = DebouncedActiveLow::new(4);
    assert!(!input.update(true));
    assert!(!input.update(true));
    assert!(!input.update(false));
    for expected in [false, false, false, true] {
        assert_eq!(input.update(true), expected);
    }
}

#[test]
fn calibration_boundaries_are_classified() {
    assert!(!Observation::from_raw(PLAUSIBLE_LOW_ADC - 1).is_valid());
    assert!(Observation::from_raw(PLAUSIBLE_LOW_ADC).is_at_rest());
    assert!(Observation::from_raw(REST_MAX_ADC).is_at_rest());
    assert!(Observation::from_raw(REST_MAX_ADC + 1).demand().is_some());
    assert_eq!(
        Observation::from_raw(FULL_ADC).normalized_counts(),
        DEMAND_MAX_COUNTS
    );
    assert_eq!(
        Observation::from_raw(PLAUSIBLE_HIGH_ADC).normalized_counts(),
        DEMAND_MAX_COUNTS
    );
    assert!(!Observation::from_raw(PLAUSIBLE_HIGH_ADC + 1).is_valid());
}

#[test]
fn demand_is_monotonic_and_bounded() {
    let mut previous = 0;
    for raw in REST_MAX_ADC + 1..=PLAUSIBLE_HIGH_ADC {
        let demand = Observation::from_raw(raw).normalized_counts();
        assert!(demand >= previous);
        assert!(demand <= DEMAND_MAX_COUNTS);
        previous = demand;
    }
}

#[test]
fn full_throttle_uses_confirmed_forward_sign_and_current_scale() {
    let demand = Observation::from_raw(FULL_ADC).demand().unwrap();
    assert_eq!(demand.negative_q_target(880), -880);
    assert_eq!(demand.negative_q_target(60), -60);
    assert_eq!(demand.negative_q_target(900), -880);
}

#[test]
fn boot_high_cannot_arm_until_throttle_returns_to_rest() {
    let mut gate = ArmingGate::new();
    let demand = Observation::from_raw(2_000);
    assert_eq!(gate.update(demand, false, true), None);
    assert!(!gate.armed());
    assert_eq!(
        gate.update(Observation::from_raw(REST_ADC), false, true),
        None
    );
    assert!(gate.armed());
    assert_eq!(gate.update(demand, false, true), demand.demand());
}

#[test]
fn brake_invalid_input_and_safety_loss_require_rearming_at_rest() {
    for (observation, brake, ready) in [
        (Observation::from_raw(2_000), true, true),
        (Observation::invalid_acquisition(REST_ADC), false, true),
        (Observation::from_raw(2_000), false, false),
    ] {
        let mut gate = ArmingGate { armed: true };
        assert_eq!(gate.update(observation, brake, ready), None);
        assert!(!gate.armed());
        assert_eq!(gate.update(Observation::from_raw(2_000), false, true), None);
    }
}
