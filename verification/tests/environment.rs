//! Local environment limits.
use oxifoc::f103::sensors::environment::{
    bus_voltage_mv, controller_temperature_deci_c, motor_temperature_deci_c, reason,
    thermal_limit_counts, EnvironmentMonitor, RawLocalSensors,
};

fn nominal() -> RawLocalSensors {
    RawLocalSensors {
        valid: true,
        bus_voltage_adc: 2_945,
        motor_temperature_adc: 2_000,
        controller_temperature_adc: 1_774,
    }
}

#[test]
fn recovered_sensor_conversions_match_reference_points() {
    assert_eq!(bus_voltage_mv(2_945), 54_571);
    assert_eq!(controller_temperature_deci_c(1_774), 252);
    assert_eq!(motor_temperature_deci_c(3_124), Some(-400));
    assert_eq!(motor_temperature_deci_c(2_000), Some(280));
    assert_eq!(motor_temperature_deci_c(110), Some(1_500));
    assert_eq!(motor_temperature_deci_c(3_125), None);
}

#[test]
fn missing_local_sensor_data_removes_drive_authority() {
    let mut monitor = EnvironmentMonitor::new(0);
    assert_eq!(monitor.update(0, RawLocalSensors::default()), None);
    assert_eq!(monitor.update(50, nominal()), Some(392));
}

#[test]
fn local_temperatures_derate_to_zero() {
    assert_eq!(thermal_limit_counts(700, 700, 800), 392);
    assert_eq!(thermal_limit_counts(750, 700, 800), 196);
    assert_eq!(thermal_limit_counts(800, 700, 800), 0);
    assert_eq!(thermal_limit_counts(1_150, 1_000, 1_300), 196);

    let mut monitor = EnvironmentMonitor::new(0);
    let mut hot = nominal();
    hot.controller_temperature_adc = 1_162;
    assert!(monitor.update(0, hot).is_some());
    assert_ne!(
        monitor.derating_reasons() & reason::CONTROLLER_TEMPERATURE,
        0
    );
}

#[test]
fn undervoltage_uses_twenty_samples_and_hysteretic_recovery() {
    let mut monitor = EnvironmentMonitor::new(0);
    let mut low = nominal();
    low.bus_voltage_adc = 2_000;
    for sample in 0..19 {
        assert_ne!(monitor.update(sample * 50, low), Some(0));
    }
    assert_eq!(monitor.update(19 * 50, low), Some(0));
    for sample in 20..40 {
        assert_eq!(monitor.update(sample * 50, nominal()), Some(0));
    }
    assert_eq!(monitor.update(40 * 50, nominal()), Some(392));
    assert_eq!(monitor.derating_reasons(), 0);
}

#[test]
fn missing_local_data_is_reported_with_zero_authority() {
    let mut monitor = EnvironmentMonitor::new(0);
    assert_eq!(monitor.update(0, RawLocalSensors::default()), None);
    assert_eq!(monitor.derating_reasons(), reason::LOCAL_DATA_MISSING);
}
