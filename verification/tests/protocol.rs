//! CAN frames of the controller.
use oxifoc::f103::protocol::{
    control_fault_telemetry, control_live_telemetry, control_output_telemetry,
    control_peak_event_telemetry, control_peak_telemetry, control_timing_breakdown_telemetry,
    control_timing_telemetry, crash_context_telemetry, firmware_version_telemetry,
    identity_response, is_updater_reset, next_project_telemetry_page, next_telemetry_slot,
    observer_acquisition_flags, observer_model_telemetry, observer_status_telemetry,
    passive_input_telemetry, pwm_failure_telemetry, reset_summary_telemetry, telemetry_slot,
    ControlFaultTelemetry, ControlLiveTelemetry, ControlOutputTelemetry,
    ControlPeakEventTelemetry, ControlPeakTelemetry, ControlTimingBreakdownTelemetry,
    ControlTimingTelemetry, CrashContextTelemetry, Frame, ObserverModelTelemetry,
    ObserverStatusTelemetry, PassiveInputTelemetry, ResetSummaryTelemetry, StockTelemetry,
    OBSERVER_ACQUIRE_BLOCK_PLL_ERROR,
};

#[test]
fn observer_acquisition_flags_track_the_quantized_pll_gate() {
    assert_eq!(observer_acquisition_flags(2_085), 0);
    assert_eq!(observer_acquisition_flags(2_086), 1);
}

#[test]
fn updater_magic_requires_exact_prefix_and_minimum_length() {
    let valid = Frame::new(0x67f, 5, [0xaa, 0x55, 0x2a, 0, 0x2a, 0, 0, 0]);
    assert!(is_updater_reset(valid));
    assert!(is_updater_reset(Frame::new(
        0x67f,
        8,
        [0xaa, 0x55, 0x2a, 0, 0x2a, 0, 0x55, 0xaa],
    )));
    assert!(!is_updater_reset(Frame { id: 0x67e, ..valid }));
    assert!(!is_updater_reset(Frame { len: 4, ..valid }));
    assert!(!is_updater_reset(Frame::new(
        0x67f,
        8,
        [0xaa, 0x55, 0x2a, 0, 0, 0, 0x55, 0xaa],
    )));
}

#[test]
fn identity_matches_stock_capture() {
    assert_eq!(identity_response(0x210).unwrap().data, *b"S73RX_22");
    assert_eq!(identity_response(0x211).unwrap().data, *b"05060002");
    assert_eq!(identity_response(0x212).unwrap().len, 4);
}

#[test]
fn telemetry_schedule_contains_required_ids() {
    let mut found = [false; 8];
    let ids = [0x200, 0x201, 0x202, 0x203, 0x204, 0x265, 0x266, 0x64a];
    for slot in 0..60 {
        for frame in telemetry_slot(slot, StockTelemetry::default())
            .into_iter()
            .flatten()
        {
            for (index, id) in ids.iter().enumerate() {
                found[index] |= frame.id == *id;
            }
        }
    }
    assert!(found.into_iter().all(|value| value));
}

#[test]
fn telemetry_schedule_keeps_its_sixty_slot_phase_across_u8_wrap() {
    let mut slot = 0;
    let mut visits = [0_u16; 60];
    for _ in 0..600 {
        visits[usize::from(slot)] += 1;
        slot = next_telemetry_slot(slot);
    }
    assert_eq!(slot, 0);
    assert!(visits.into_iter().all(|count| count == 10));
}

#[test]
fn project_telemetry_rotates_through_all_nineteen_slots() {
    let mut page = 0;
    let mut visits = [0_u8; 19];
    for _ in 0..190 {
        visits[usize::from(page)] += 1;
        page = next_project_telemetry_page(page);
    }
    assert_eq!(page, 0);
    assert!(visits.into_iter().all(|count| count == 10));
}

#[test]
fn local_brake_temperatures_and_faults_reach_stock_frames() {
    let snapshot = StockTelemetry {
        vehicle_speed_tenths_kph: 14,
        distance_counter: 0x1234_5678,
        brake_active: true,
        controller_temperature_deci_c: Some(410),
        motor_temperature_deci_c: Some(270),
        fault_page: 0,
        hardware_break: true,
        dc_bus_undervoltage: false,
        hall_invalid: true,
    };
    assert_eq!(
        telemetry_slot(0, snapshot)[0].unwrap().data,
        [0x8c, 0, 0, 0, 0x64, 0, 0, 0]
    );
    assert_eq!(telemetry_slot(0, snapshot)[1].unwrap().data[4], 0x40);
    assert_eq!(telemetry_slot(1, snapshot)[1].unwrap().data[6], 0x48);
    assert_eq!(
        telemetry_slot(2, snapshot)[2].unwrap().data,
        [0x22, 67, 0x78, 0x56, 0x78, 0x56, 0x34, 0x12]
    );
    assert_eq!(telemetry_slot(3, snapshot)[1].unwrap().data[0], 81);
}

#[test]
fn stock_fault_pages_report_local_protection_state() {
    let mut snapshot = StockTelemetry {
        controller_temperature_deci_c: Some(800),
        motor_temperature_deci_c: Some(1_300),
        hardware_break: true,
        dc_bus_undervoltage: true,
        hall_invalid: true,
        ..StockTelemetry::default()
    };
    assert_eq!(telemetry_slot(1, snapshot)[1].unwrap().data[6], 0x58);
    snapshot.fault_page = 1;
    assert_eq!(telemetry_slot(1, snapshot)[1].unwrap().data[6], 0xc1);
    snapshot.fault_page = 2;
    assert_eq!(telemetry_slot(1, snapshot)[1].unwrap().data[6], 0x82);
}

#[test]
fn passive_input_pages_use_the_established_field_locations() {
    let snapshot = PassiveInputTelemetry {
        analog_valid: true,
        brake_active: false,
        throttle_valid: true,
        throttle_at_rest: true,
        throttle_raw: 726,
        throttle_demand: 0,
        throttle_current_limit_counts: 838,
        live_hall_state: 5,
        bus_voltage_mv: 52_300,
        effective_current_limit: 250,
        derating_reasons: 0,
        controller_temperature_deci_c: Some(410),
        motor_temperature_deci_c: Some(270),
    };
    assert_eq!(
        passive_input_telemetry(0, snapshot).data,
        [8, 0, 0xd6, 0x02, 0, 0xa3, 0x15, 0x0d]
    );
    assert_eq!(
        passive_input_telemetry(1, snapshot).data,
        [9, 250, 0, 0, 0x0b, 0x02, 81, 67]
    );
}

#[test]
fn passive_input_page_preserves_wide_dc_current_limits() {
    let snapshot = PassiveInputTelemetry {
        effective_current_limit: 480,
        ..PassiveInputTelemetry::default()
    };
    assert_eq!(
        passive_input_telemetry(1, snapshot).data[..4],
        [9, 255, 0, 225]
    );
}

#[test]
fn timing_page_uses_the_established_field_locations() {
    assert_eq!(
        control_timing_telemetry(ControlTimingTelemetry {
            current_trips: 1,
            maximum_cycles: 1_396,
            warning_count: 2,
        })
        .data,
        [6, 0, 1, 0, 0x74, 0x05, 2, 0]
    );
}

#[test]
fn control_commissioning_pages_are_compact_and_lossless() {
    let live = ControlLiveTelemetry {
        hall_valid: true,
        current_valid: true,
        output_active: true,
        voltage_limited: true,
        ride_stage: 4,
        target_q_counts: -838,
        measured_d_counts: -17,
        measured_q_counts: -801,
    };
    assert_eq!(
        control_live_telemetry(live).data,
        [10, 0x4f, 0xba, 0xfc, 0xef, 0xff, 0xdf, 0xfc]
    );

    let output = ControlOutputTelemetry {
        phase_limit_counts: 838,
        applied_d_ticks: -123,
        applied_q_ticks: -1_240,
        pwm_span_ticks: 2_168,
    };
    assert_eq!(
        control_output_telemetry(output).data,
        [11, 0x46, 0x03, 0x85, 0xff, 0x28, 0xfb, 135]
    );

    let faults = ControlFaultTelemetry {
        fault_flags: 0x1234_5678,
        safety_events: 0xabcd,
        last_safety_loss_reason: 7,
    };
    assert_eq!(
        control_fault_telemetry(faults).data,
        [12, 0x78, 0x56, 0x34, 0x12, 0xcd, 0xab, 7]
    );

    let peaks = ControlPeakTelemetry {
        maximum_phase_current_abs: 1_337,
        maximum_direct_current_abs: 55,
        maximum_quadrature_error_abs: 222,
        maximum_pwm_span_ticks: 2_168,
    };
    assert_eq!(
        control_peak_telemetry(peaks).data,
        [13, 0x39, 0x05, 55, 0, 222, 0, 135]
    );

    let event = ControlPeakEventTelemetry {
        generation: 7,
        measured_d_counts: -782,
        measured_q_counts: -358,
        target_q_counts: -732,
        hall_raw: 5,
        hall_angle_direction: -1,
        edge_age_us: 321,
        hall_interval_us: 1_234,
        angle_error_q8: 0x11,
        requested_d_ticks: -600,
        requested_q_ticks: -1_800,
        feedforward_d_ticks: -505,
        feedforward_q_ticks: -1_704,
        applied_d_ticks: -123,
        applied_q_ticks: -1_273,
        voltage_limited: true,
        angle_rate_limited: true,
    };
    assert_eq!(
        control_peak_event_telemetry(0, event).data,
        [14, 7, 0xf2, 0xfc, 0x9a, 0xfe, 0x24, 0xfd]
    );
    assert_eq!(
        control_peak_event_telemetry(1, event).data,
        [15, 7, 0x6d, 0x41, 0x01, 0xd2, 0x04, 0x11]
    );
    assert_eq!(
        control_peak_event_telemetry(2, event).data,
        [16, 7, 0xa8, 0xfd, 0xf8, 0xf8, 0x07, 0xfe]
    );
    assert_eq!(
        control_peak_event_telemetry(3, event).data,
        [17, 7, 0x85, 0xff, 0x07, 0xfb, 0x58, 0xf9]
    );
    assert_eq!(
        observer_status_telemetry(ObserverStatusTelemetry {
            configured: true,
            ready: true,
            active: true,
            blend: 192,
            confidence: 247,
            electrical_rpm: -7_500,
            hall_error_q16: -1_024,
        })
        .data,
        [19, 7, 192, 247, 0xb4, 0xe2, 0x00, 0xfc]
    );
    assert_eq!(
        observer_model_telemetry(ObserverModelTelemetry {
            flux_centi_mwb: 1_220,
            bemf_q_mv: -9_876,
            phase_error_q16: 456,
            validity_progress: 255,
        })
        .data,
        [20, 0xc4, 0x04, 0x6c, 0xd9, 0xc8, 0x01, 255]
    );
    assert_eq!(
        control_timing_breakdown_telemetry(ControlTimingBreakdownTelemetry {
            maximum_pre_driver_cycles: 321,
            maximum_driver_step_cycles: 2_345,
            hall_electrical_rpm_div4: -3_250,
            observer_acquisition_flags: OBSERVER_ACQUIRE_BLOCK_PLL_ERROR,
        })
        .data,
        [21, 0x41, 0x01, 0x29, 0x09, 0x4e, 0xf3, 1]
    );
    assert_eq!(
        firmware_version_telemetry().data,
        [18, 10, b'0', b'.', b'3', b'.', b'0', 0]
    );
}

#[test]
fn reset_forensics_pages_preserve_the_previous_boot_context() {
    assert_eq!(
        reset_summary_telemetry(ResetSummaryTelemetry {
            reset_flags: 0x18,
            retained_context_valid: true,
            fatal_reason: 2,
            checkpoint: 4,
            last_control_cycles: 4_321,
            maximum_control_cycles: 4_498,
        })
        .data,
        [22, 0x98, 2, 4, 0xe1, 0x10, 0x92, 0x11]
    );
    assert_eq!(
        crash_context_telemetry(CrashContextTelemetry {
            detail: -3,
            control_cycle: 0x1234_5678,
            program_counter: 0x0800_9abc,
            link_register: 0xffff_fff9,
        })
        .data,
        [23, 0xfd, 0x78, 0x56, 0xbc, 0x9a, 0xf9, 0xff]
    );

    let pwm = [
        u32::from_le_bytes([6, 0x0b, 3, 0]),
        u32::from(0x0081_u16) | (u32::from(0x9d19_u16) << 16),
        u32::from(0x1ddd_u16) | (u32::from(22_u16) << 16),
        u32::from(1_125_u16) | (u32::from(2_228_u16) << 16),
    ];
    assert_eq!(
        pwm_failure_telemetry(24, pwm).data,
        [24, 6, 0x0b, 3, 0x81, 0x9d, 0xdd, 0x1d]
    );
    assert_eq!(
        pwm_failure_telemetry(25, pwm).data,
        [25, 6, 22, 0, 0x65, 0x04, 0xb4, 0x08]
    );
}
