//! CAN contract of the calibration.
use oxifoc::calibration::inductance::PulseDiagnostic;
use oxifoc::calibration::protocol::{
    decode_command, status_frame, Command, Status, COMMAND_ID, FIRMWARE_VERSION, SCHEMA, STATUS_ID,
    TRAILER,
};
use oxifoc::f103::protocol::Frame;

fn command(tag: [u8; 4], challenge: u16) -> Frame {
    let challenge = challenge.to_le_bytes();
    Frame::new(
        COMMAND_ID,
        8,
        [
            tag[0],
            tag[1],
            tag[2],
            tag[3],
            challenge[0],
            challenge[1],
            TRAILER[0],
            TRAILER[1],
        ],
    )
}

#[test]
fn arm_and_run_require_the_complete_magic_frame() {
    assert_eq!(
        decode_command(command(*b"ARMC", 0x1234)),
        Some(Command::Arm { challenge: 0x1234 })
    );
    assert_eq!(
        decode_command(command(*b"RUNR", 0xabcd)),
        Some(Command::RunResistance { challenge: 0xabcd })
    );
    assert_eq!(
        decode_command(command(*b"RUNL", 0x4321)),
        Some(Command::RunInductance { challenge: 0x4321 })
    );
    assert_eq!(
        decode_command(command(*b"RUNF", 0x5678)),
        Some(Command::RunFluxLinkage { challenge: 0x5678 })
    );
    assert_eq!(
        decode_command(command(*b"RUNH", 0x9abc)),
        Some(Command::RunHall { challenge: 0x9abc })
    );
    let mut malformed = command(*b"RUNR", 1);
    malformed.data[7] = 0;
    assert_eq!(decode_command(malformed), None);
}

#[test]
fn stop_is_intentionally_immediate() {
    assert_eq!(
        decode_command(Frame::new(COMMAND_ID, 4, *b"STOP\0\0\0\0")),
        Some(Command::Stop)
    );
}

#[test]
fn status_page_zero_carries_the_interlocks_and_challenge() {
    let frame = status_frame(
        0,
        Status {
            state: 3,
            failure: 0,
            challenge: 0x1234,
            armed: true,
            local_ready: true,
            output_active: true,
            hall_quiet: true,
            motor_outputs_disabled: true,
            can_rx_fifo_overrun: true,
            can_command_queue_drop: true,
            ..Status::default()
        },
    );
    assert_eq!(frame.id, STATUS_ID);
    assert_eq!(frame.data, [0xc0, SCHEMA, 3, 0, 0x34, 0x12, 0xf7, 0]);
}

#[test]
fn inductance_pages_preserve_native_results_and_pulse_diagnostics() {
    let status = Status {
        inductance_d_nwb_per_count: 7_500,
        inductance_q_nwb_per_count: 8_250,
        residual_dead_time_uv: 25_184,
        pulse_step_d_ticks: 53,
        pulse_step_q_ticks: 53,
        last_pulse_di_counts: 27,
        pulse_diagnostic_slot: 7,
        pulse_diagnostic: PulseDiagnostic {
            pulse_step_ticks: 40,
            average_di_counts: 18,
            inductance_nwb_per_count: 2_750,
        },
        ..Status::default()
    };
    assert_eq!(
        &status_frame(7, status).data[1..5],
        &7_500_u32.to_le_bytes()
    );
    assert_eq!(
        &status_frame(7, status).data[5..8],
        &8_250_u32.to_le_bytes()[..3]
    );
    assert_eq!(
        status_frame(8, status).data,
        [0xc8, 25, 0, 53, 0, 53, 0, 27]
    );
    assert_eq!(
        status_frame(15, status).data,
        [0xcf, 7, 12, 40, 0, 18, 19, 1]
    );
}

#[test]
fn flux_and_hall_pages_preserve_signed_vectors_and_raw_state_indexing() {
    let status = Status {
        flux_linkage_nwb: 13_400_000,
        average_bemf_d_uv: -1_234_567,
        average_bemf_q_uv: 7_654_321,
        flux_measurement_erpm: 6_000,
        hall_measurement_erpm: 5_960,
        sync_minimum_percent: 84,
        hall_forward_centers_q16: [0, 5_461, 27_307, 16_384, 49_152, 60_075, 38_229, 0],
        hall_reverse_centers_q16: [0, 5_400, 27_200, 16_300, 49_000, 60_000, 38_100, 0],
        hall_valid_mask: 0x7e,
        hall_forward_minimum_samples: 180,
        hall_reverse_minimum_samples: 175,
        ..Status::default()
    };
    assert_eq!(
        status_frame(11, status).data,
        [0xcb, 0x3c, 0x05, 0x70, 0x17, 0x48, 0x17, 84]
    );
    assert_eq!(
        &status_frame(12, status).data[1..5],
        &(-1_234_567_i32).to_le_bytes()
    );
    assert_eq!(status_frame(9, status).data[1..3], 5_461_u16.to_le_bytes());
    assert_eq!(status_frame(9, status).data[7], 180);
    assert_eq!(status_frame(13, status).data[1..3], 5_400_u16.to_le_bytes());
    assert_eq!(
        status_frame(14, status).data[5..7],
        38_100_u16.to_le_bytes()
    );
    assert_eq!(status_frame(14, status).data[7], 0x7e);
}

#[test]
fn telemetry_version_matches_the_crate_version() {
    assert_eq!(FIRMWARE_VERSION, [0, 3, 2]);
}
