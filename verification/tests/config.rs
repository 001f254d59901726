//! Board constants.
use oxifoc::f103::config::{
    foc_dead_time_comp_ticks, foc_vector_limit_ticks, hall_geometry,
    motor_flux_linkage_milliwebers, motor_phase_inductance_millihenries,
    motor_phase_resistance_ohms, observer_volts_per_pwm_tick_bits,
    phase_current_amps_per_adc_count, regular_adc_sequence_register_1,
    regular_adc_sequence_register_3, sample_injected_on_timer_update, CanTiming, SafetyInterlock,
    CAN_BITRATE, FOC_HARD_PHASE_LIMIT_TICKS, FOC_PHASE_LIMIT_TICKS,
    MOTOR_INDUCTIVE_FLUX_MWB_PER_COUNT_BITS, PCLK1_HZ, PHASE_CURRENT_MA_PER_ADC_COUNT,
    PHASE_CURRENT_TRIP_COUNTS, PWM_NEUTRAL, PWM_SAMPLE_CC4, REGULAR_ADC_CHANNELS,
    RIDE_DC_BUS_CURRENT_LIMIT_COUNTS, RIDE_PHASE_CURRENT_LIMIT_COUNTS,
};
use oxifoc::foc::svpwm::space_vector_pwm_ticks;
use oxifoc::foc::transforms::inverse_park;
use oxifoc::foc::trig::{CordicSinCos, SinCos};
use oxifoc::foc::{AlphaBeta, Fixed};

#[test]
fn can_timing_matches_the_recovered_bus() {
    assert_eq!(CanTiming::f103_250k().bitrate(PCLK1_HZ), CAN_BITRATE);
}

#[test]
fn interlock_defaults_to_safe() {
    let mut interlock = SafetyInterlock {
        current_offsets_valid: true,
        hall_calibration_valid: true,
        command_fresh: true,
        ..SafetyInterlock::default()
    };
    assert!(interlock.may_enable_power_stage());
    interlock.note_break();
    assert!(!interlock.may_enable_power_stage());
}

#[test]
fn injected_sample_is_consumed_only_at_underflow() {
    assert!(sample_injected_on_timer_update(false));
    assert!(!sample_injected_on_timer_update(true));
}

#[test]
fn observer_voltage_scale_uses_the_live_bus_and_pwm_period() {
    assert_eq!(observer_volts_per_pwm_tick_bits(0), 0);
    assert_eq!(observer_volts_per_pwm_tick_bits(52_300), 1_523);
    assert_eq!(observer_volts_per_pwm_tick_bits(100_000), 2_210);
}

#[test]
fn hall_geometry_matches_the_hardware_validated_stock_table() {
    assert_eq!(hall_geometry().electrical_states(), &[5, 1, 3, 2, 6, 4]);
    assert_eq!(
        hall_geometry().boundaries_q16(),
        &[5_699, 16_526, 26_499, 37_754, 49_151, 59_124]
    );
}

#[test]
fn regular_adc_rank_contract_matches_the_recovered_board() {
    assert_eq!(REGULAR_ADC_CHANNELS, [13, 15, 8, 5, 16]);
    assert_eq!(regular_adc_sequence_register_1(), 0x0040_0000);
    assert_eq!(regular_adc_sequence_register_3(), 0x0102_a1ed);
}

#[test]
fn ride_current_envelope_matches_the_full_power_configuration() {
    assert_eq!(RIDE_PHASE_CURRENT_LIMIT_COUNTS, 838);
    assert_eq!(RIDE_DC_BUS_CURRENT_LIMIT_COUNTS, 480);
    assert_eq!(PHASE_CURRENT_TRIP_COUNTS, 1_344);
    assert_eq!(
        i32::from(RIDE_PHASE_CURRENT_LIMIT_COUNTS) * PHASE_CURRENT_MA_PER_ADC_COUNT,
        83_800
    );
    assert_eq!(
        i32::from(RIDE_DC_BUS_CURRENT_LIMIT_COUNTS) * PHASE_CURRENT_MA_PER_ADC_COUNT,
        48_000
    );
    assert!(
        u32::from(PHASE_CURRENT_TRIP_COUNTS) * 5
            >= u32::from(RIDE_PHASE_CURRENT_LIMIT_COUNTS) * 8
    );
}

#[test]
fn observer_model_uses_the_loaded_terminal_fit_in_the_adc_count_domain() {
    assert_eq!(PHASE_CURRENT_MA_PER_ADC_COUNT, 100);
    assert_eq!(phase_current_amps_per_adc_count(), Fixed::ratio(1, 10));
    assert_eq!(motor_phase_resistance_ohms(), Fixed::ratio(43, 1_000));
    assert_eq!(motor_phase_inductance_millihenries(), Fixed::ratio(75, 1_000));
    assert_eq!(motor_flux_linkage_milliwebers(), Fixed::ratio(134, 10));
    assert_eq!(MOTOR_INDUCTIVE_FLUX_MWB_PER_COUNT_BITS, 492);

    let resistive_volts_per_count =
        motor_phase_resistance_ohms() * phase_current_amps_per_adc_count();
    assert!(
        (resistive_volts_per_count.to_bits() - Fixed::ratio(43, 10_000).to_bits()).abs() <= 2
    );
    let inductive_flux_mwb_per_count =
        motor_phase_inductance_millihenries() * phase_current_amps_per_adc_count();
    assert!(
        (inductive_flux_mwb_per_count.to_bits() - MOTOR_INDUCTIVE_FLUX_MWB_PER_COUNT_BITS)
            .abs()
            <= 1
    );
}

#[test]
fn voltage_envelope_matches_the_stock_f103_circle() {
    assert_eq!(foc_vector_limit_ticks().integer(), 1_273);
    assert_eq!(FOC_PHASE_LIMIT_TICKS, 1_103);
    assert_eq!(FOC_HARD_PHASE_LIMIT_TICKS, 1_103);
    assert_eq!(foc_dead_time_comp_ticks(), Fixed::ratio(50, 3));
    assert!(PWM_NEUTRAL + FOC_HARD_PHASE_LIMIT_TICKS < PWM_SAMPLE_CC4);

    let mut maximum_span = 0;
    for step in 0..4_096_u32 {
        let (sin, cos) = CordicSinCos::sin_cos(step << 20);
        let (alpha, beta) = inverse_park(foc_vector_limit_ticks(), Fixed::zero(), sin, cos);
        let duty = space_vector_pwm_ticks(
            AlphaBeta { alpha, beta },
            PWM_NEUTRAL,
            FOC_PHASE_LIMIT_TICKS,
        );
        let compares = duty.as_array();
        let minimum = compares.into_iter().min().unwrap();
        let maximum = compares.into_iter().max().unwrap();
        maximum_span = maximum_span.max(maximum - minimum);
        assert!(maximum < PWM_SAMPLE_CC4);
        assert!(
            compares
                .into_iter()
                .all(|compare| compare.abs_diff(PWM_NEUTRAL) <= FOC_HARD_PHASE_LIMIT_TICKS)
        );
    }
    assert!(maximum_span >= 2_204);
}
