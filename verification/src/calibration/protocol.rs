//! Compact CAN contract for an explicitly armed calibration image.
use vstd::prelude::*;

use super::inductance::{PulseDiagnostic, PULSE_DIAGNOSTIC_COUNT};
use crate::arith;
use crate::f103::protocol as telemetry;
use crate::f103::protocol::Frame;

verus! {

pub const SCHEMA: u8 = 4;

pub const FIRMWARE_VERSION: [u8; 3] = [0, 3, 2];

pub const ARM_WINDOW_MS: u32 = 10_000;

pub const COMMAND_ID: u16 = 0x2f2;

pub const STATUS_ID: u16 = 0x2f7;

pub const STATUS_PAGE_COUNT: u8 = 16;

/// Last two bytes of every challenged command.
pub const TRAILER: [u8; 2] = [0xa5, 0x5a];

#[derive(Clone, Copy, Debug, Eq, PartialEq, Structural)]
pub enum Command {
    Arm { challenge: u16 },
    RunResistance { challenge: u16 },
    RunInductance { challenge: u16 },
    RunFluxLinkage { challenge: u16 },
    RunHall { challenge: u16 },
    Stop,
}

/// The first four bytes of a frame are the given letters.
pub open spec fn starts_with(frame: Frame, a: u8, b: u8, c: u8, d: u8) -> bool {
    &&& frame.data@[0] == a
    &&& frame.data@[1] == b
    &&& frame.data@[2] == c
    &&& frame.data@[3] == d
}

/// Command of a frame. `STOP` needs nothing else; every other command needs a
/// full frame with its challenge and the trailer.
pub open spec fn command_of(frame: Frame) -> Option<Command> {
    let challenge = (frame.data@[4] + frame.data@[5] * 0x100) as u16;
    if frame.id != COMMAND_ID {
        None
    } else if frame.len >= 4 && starts_with(frame, 83, 84, 79, 80) {
        Some(Command::Stop)
    } else if frame.len != 8 || frame.data@[6] != TRAILER[0] || frame.data@[7] != TRAILER[1] {
        None
    } else if starts_with(frame, 65, 82, 77, 67) {
        Some(Command::Arm { challenge })
    } else if starts_with(frame, 82, 85, 78, 82) {
        Some(Command::RunResistance { challenge })
    } else if starts_with(frame, 82, 85, 78, 76) {
        Some(Command::RunInductance { challenge })
    } else if starts_with(frame, 82, 85, 78, 70) {
        Some(Command::RunFluxLinkage { challenge })
    } else if starts_with(frame, 82, 85, 78, 72) {
        Some(Command::RunHall { challenge })
    } else {
        None
    }
}

fn begins(frame: &Frame, a: u8, b: u8, c: u8, d: u8) -> (r: bool)
    ensures
        r == starts_with(*frame, a, b, c, d),
{
    frame.data[0] == a && frame.data[1] == b && frame.data[2] == c && frame.data[3] == d
}

/// The letters are `STOP`, `ARMC`, `RUNR`, `RUNL`, `RUNF` and `RUNH`.
pub fn decode_command(frame: Frame) -> (r: Option<Command>)
    ensures
        r == command_of(frame),
{
    if frame.id != COMMAND_ID {
        return None;
    }
    if frame.len >= 4 && begins(&frame, 83, 84, 79, 80) {
        return Some(Command::Stop);
    }
    if frame.len != 8 || frame.data[6] != TRAILER[0] || frame.data[7] != TRAILER[1] {
        return None;
    }
    let challenge: u16 = frame.data[4] as u16 + frame.data[5] as u16 * 0x100;
    if begins(&frame, 65, 82, 77, 67) {
        Some(Command::Arm { challenge })
    } else if begins(&frame, 82, 85, 78, 82) {
        Some(Command::RunResistance { challenge })
    } else if begins(&frame, 82, 85, 78, 76) {
        Some(Command::RunInductance { challenge })
    } else if begins(&frame, 82, 85, 78, 70) {
        Some(Command::RunFluxLinkage { challenge })
    } else if begins(&frame, 82, 85, 78, 72) {
        Some(Command::RunHall { challenge })
    } else {
        None
    }
}

/// A word rotated left by five bits.
pub open spec fn rotated_left_5(word: u16) -> u16 {
    ((word as int * 32) % 0x1_0000 + word as int / 2_048) as u16
}

/// A word rotated right by three bits.
pub open spec fn rotated_right_3(word: u16) -> u16 {
    (word as int / 8 + (word as int % 8) * 8_192) as u16
}

/// Challenge of a boot, mixed from the current offsets and a boot nonce.
pub open spec fn challenge_of(offset_a: u16, offset_b: u16, boot_nonce: u16) -> u16 {
    rotated_left_5(offset_a) ^ rotated_right_3(offset_b) ^ boot_nonce ^ 0xa55a
}

pub fn challenge(offset_a: u16, offset_b: u16, boot_nonce: u16) -> (r: u16)
    ensures
        r == challenge_of(offset_a, offset_b, boot_nonce),
{
    let left: u16 = (offset_a as u32 * 32 % 0x1_0000) as u16 + offset_a / 2_048;
    let right: u16 = offset_b / 8 + offset_b % 8 * 8_192;
    left ^ right ^ boot_nonce ^ 0xa55a
}

#[derive(Clone, Copy, Debug, Default, Eq, PartialEq)]
pub struct Status {
    pub routine: u8,
    pub state: u8,
    pub failure: u8,
    pub challenge: u16,
    pub armed: bool,
    pub local_ready: bool,
    pub output_active: bool,
    pub voltage_limited: bool,
    pub hall_quiet: bool,
    pub motor_outputs_disabled: bool,
    pub can_rx_fifo_overrun: bool,
    pub can_command_queue_drop: bool,
    pub low_current_counts: i16,
    pub low_voltage_ticks: i16,
    pub high_current_counts: i16,
    pub high_voltage_ticks: i16,
    pub effective_uv_per_count: u32,
    pub nominal_resistance_uohm: u32,
    pub target_d_counts: i16,
    pub measured_d_counts: i16,
    pub applied_d_ticks: i16,
    pub maximum_phase_current_abs: u16,
    pub bus_voltage_mv: u16,
    pub offset_a: u16,
    pub offset_b: u16,
    pub environment_reasons: u8,
    pub sample_progress: u16,
    pub fault_flags: u32,
    pub maximum_control_cycles: u16,
    pub timing_overruns: u16,
    pub inductance_d_nwb_per_count: u32,
    pub inductance_q_nwb_per_count: u32,
    pub residual_dead_time_uv: u32,
    pub pulse_step_d_ticks: i16,
    pub pulse_step_q_ticks: i16,
    pub last_pulse_di_counts: i16,
    pub flux_linkage_nwb: u32,
    pub average_bemf_d_uv: i32,
    pub average_bemf_q_uv: i32,
    pub flux_measurement_erpm: i16,
    pub hall_measurement_erpm: i16,
    pub sync_minimum_percent: u8,
    pub hall_forward_centers_q16: [u16; 8],
    pub hall_reverse_centers_q16: [u16; 8],
    pub hall_valid_mask: u8,
    pub hall_forward_minimum_samples: u8,
    pub hall_reverse_minimum_samples: u8,
    pub pulse_diagnostic_slot: u8,
    pub pulse_diagnostic: PulseDiagnostic,
}

/// Interlocks, one bit each.
pub open spec fn flags_of(status: Status) -> u8 {
    (arith::bit(status.armed) + 2 * arith::bit(status.local_ready) + 4 * arith::bit(
        status.output_active,
    ) + 8 * arith::bit(status.voltage_limited) + 16 * arith::bit(status.hall_quiet) + 32
        * arith::bit(status.motor_outputs_disabled) + 64 * arith::bit(status.can_rx_fifo_overrun)
        + 128 * arith::bit(status.can_command_queue_drop)) as u8
}

fn pack_flags(status: &Status) -> (r: u8)
    ensures
        r == flags_of(*status),
{
    arith::flag(status.armed) + 2 * arith::flag(status.local_ready) + 4 * arith::flag(
        status.output_active,
    ) + 8 * arith::flag(status.voltage_limited) + 16 * arith::flag(status.hall_quiet) + 32
        * arith::flag(status.motor_outputs_disabled) + 64 * arith::flag(
        status.can_rx_fifo_overrun,
    ) + 128 * arith::flag(status.can_command_queue_drop)
}

/// Page 0: interlocks and challenge.
pub open spec fn page_0(status: Status) -> Seq<u8> {
    seq![
        0xc0,
        SCHEMA,
        status.state,
        status.failure,
        arith::byte_of(status.challenge as int, 0),
        arith::byte_of(status.challenge as int, 1),
        flags_of(status),
        status.routine,
    ]
}

/// Page 1: currents of both resistance points.
pub open spec fn page_1(status: Status) -> Seq<u8> {
    seq![
        0xc1,
        arith::byte_of(status.low_current_counts as int, 0),
        arith::byte_of(status.low_current_counts as int, 1),
        arith::byte_of(status.low_voltage_ticks as int, 0),
        arith::byte_of(status.low_voltage_ticks as int, 1),
        arith::byte_of(status.high_current_counts as int, 0),
        arith::byte_of(status.high_current_counts as int, 1),
        0,
    ]
}

/// Page 2: resistance.
pub open spec fn page_2(status: Status) -> Seq<u8> {
    seq![
        0xc2,
        arith::byte_of(status.effective_uv_per_count as int, 0),
        arith::byte_of(status.effective_uv_per_count as int, 1),
        arith::byte_of(status.effective_uv_per_count as int, 2),
        arith::byte_of(status.effective_uv_per_count as int, 3),
        arith::byte_of(arith::sat_u16(status.nominal_resistance_uohm as int / 1_000), 0),
        arith::byte_of(arith::sat_u16(status.nominal_resistance_uohm as int / 1_000), 1),
        100,
    ]
}

/// Page 3: live current and voltage.
pub open spec fn page_3(status: Status) -> Seq<u8> {
    seq![
        0xc3,
        arith::byte_of(status.target_d_counts as int, 0),
        arith::byte_of(status.target_d_counts as int, 1),
        arith::byte_of(status.measured_d_counts as int, 0),
        arith::byte_of(status.measured_d_counts as int, 1),
        arith::byte_of(status.applied_d_ticks as int, 0),
        arith::byte_of(status.applied_d_ticks as int, 1),
        arith::sat_u8(status.maximum_phase_current_abs as int / 4) as u8,
    ]
}

/// Page 4: bus voltage, current offsets and environment.
pub open spec fn page_4(status: Status) -> Seq<u8> {
    seq![
        0xc4,
        arith::byte_of(status.bus_voltage_mv as int, 0),
        arith::byte_of(status.bus_voltage_mv as int, 1),
        arith::byte_of(status.offset_a as int, 0),
        arith::byte_of(status.offset_a as int, 1),
        arith::byte_of(status.offset_b as int, 0),
        arith::byte_of(status.offset_b as int, 1),
        status.environment_reasons,
    ]
}

/// Page 5: faults and timing.
pub open spec fn page_5(status: Status) -> Seq<u8> {
    seq![
        0xc5,
        arith::byte_of(status.fault_flags as int, 0),
        arith::byte_of(status.fault_flags as int, 1),
        arith::byte_of(status.fault_flags as int, 2),
        arith::byte_of(status.fault_flags as int, 3),
        arith::byte_of(status.maximum_control_cycles as int, 0),
        arith::byte_of(status.maximum_control_cycles as int, 1),
        arith::sat_u8(status.timing_overruns as int) as u8,
    ]
}

/// Page 6: progress and version.
pub open spec fn page_6(status: Status) -> Seq<u8> {
    seq![
        0xc6,
        arith::byte_of(status.high_voltage_ticks as int, 0),
        arith::byte_of(status.high_voltage_ticks as int, 1),
        arith::byte_of(status.sample_progress as int, 0),
        arith::byte_of(status.sample_progress as int, 1),
        FIRMWARE_VERSION[0],
        FIRMWARE_VERSION[1],
        FIRMWARE_VERSION[2],
    ]
}

/// Page 7: inductances.
pub open spec fn page_7(status: Status) -> Seq<u8> {
    seq![
        0xc7,
        arith::byte_of(status.inductance_d_nwb_per_count as int, 0),
        arith::byte_of(status.inductance_d_nwb_per_count as int, 1),
        arith::byte_of(status.inductance_d_nwb_per_count as int, 2),
        arith::byte_of(status.inductance_d_nwb_per_count as int, 3),
        arith::byte_of(arith::min(status.inductance_q_nwb_per_count as int, 0xff_ffff), 0),
        arith::byte_of(arith::min(status.inductance_q_nwb_per_count as int, 0xff_ffff), 1),
        arith::byte_of(arith::min(status.inductance_q_nwb_per_count as int, 0xff_ffff), 2),
    ]
}

/// Page 8: pulses and residual voltage.
pub open spec fn page_8(status: Status) -> Seq<u8> {
    seq![
        0xc8,
        arith::byte_of(status.residual_dead_time_uv as int / 1_000, 0),
        arith::byte_of(status.residual_dead_time_uv as int / 1_000, 1),
        arith::byte_of(status.pulse_step_d_ticks as int, 0),
        arith::byte_of(status.pulse_step_d_ticks as int, 1),
        arith::byte_of(status.pulse_step_q_ticks as int, 0),
        arith::byte_of(status.pulse_step_q_ticks as int, 1),
        arith::byte_of(arith::sat_i8(status.last_pulse_di_counts as int), 0),
    ]
}

/// Page 9: first forward Hall centers.
pub open spec fn page_9(status: Status) -> Seq<u8> {
    seq![
        0xc9,
        arith::byte_of(status.hall_forward_centers_q16[1] as int, 0),
        arith::byte_of(status.hall_forward_centers_q16[1] as int, 1),
        arith::byte_of(status.hall_forward_centers_q16[2] as int, 0),
        arith::byte_of(status.hall_forward_centers_q16[2] as int, 1),
        arith::byte_of(status.hall_forward_centers_q16[3] as int, 0),
        arith::byte_of(status.hall_forward_centers_q16[3] as int, 1),
        status.hall_forward_minimum_samples,
    ]
}

/// Page 10: other forward Hall centers.
pub open spec fn page_10(status: Status) -> Seq<u8> {
    seq![
        0xca,
        arith::byte_of(status.hall_forward_centers_q16[4] as int, 0),
        arith::byte_of(status.hall_forward_centers_q16[4] as int, 1),
        arith::byte_of(status.hall_forward_centers_q16[5] as int, 0),
        arith::byte_of(status.hall_forward_centers_q16[5] as int, 1),
        arith::byte_of(status.hall_forward_centers_q16[6] as int, 0),
        arith::byte_of(status.hall_forward_centers_q16[6] as int, 1),
        status.hall_valid_mask,
    ]
}

/// Page 11: flux linkage.
pub open spec fn page_11(status: Status) -> Seq<u8> {
    seq![
        0xcb,
        arith::byte_of(status.flux_linkage_nwb as int / 10_000, 0),
        arith::byte_of(status.flux_linkage_nwb as int / 10_000, 1),
        arith::byte_of(status.flux_measurement_erpm as int, 0),
        arith::byte_of(status.flux_measurement_erpm as int, 1),
        arith::byte_of(status.hall_measurement_erpm as int, 0),
        arith::byte_of(status.hall_measurement_erpm as int, 1),
        status.sync_minimum_percent,
    ]
}

/// Page 12: back-EMF vector.
pub open spec fn page_12(status: Status) -> Seq<u8> {
    seq![
        0xcc,
        arith::byte_of(status.average_bemf_d_uv as int, 0),
        arith::byte_of(status.average_bemf_d_uv as int, 1),
        arith::byte_of(status.average_bemf_d_uv as int, 2),
        arith::byte_of(status.average_bemf_d_uv as int, 3),
        arith::byte_of(arith::clamp(status.average_bemf_q_uv as int, -0x80_0000, 0x7f_ffff), 0),
        arith::byte_of(arith::clamp(status.average_bemf_q_uv as int, -0x80_0000, 0x7f_ffff), 1),
        arith::byte_of(arith::clamp(status.average_bemf_q_uv as int, -0x80_0000, 0x7f_ffff), 2),
    ]
}

/// Page 13: first reverse Hall centers.
pub open spec fn page_13(status: Status) -> Seq<u8> {
    seq![
        0xcd,
        arith::byte_of(status.hall_reverse_centers_q16[1] as int, 0),
        arith::byte_of(status.hall_reverse_centers_q16[1] as int, 1),
        arith::byte_of(status.hall_reverse_centers_q16[2] as int, 0),
        arith::byte_of(status.hall_reverse_centers_q16[2] as int, 1),
        arith::byte_of(status.hall_reverse_centers_q16[3] as int, 0),
        arith::byte_of(status.hall_reverse_centers_q16[3] as int, 1),
        status.hall_reverse_minimum_samples,
    ]
}

/// Page 14: other reverse Hall centers.
pub open spec fn page_14(status: Status) -> Seq<u8> {
    seq![
        0xce,
        arith::byte_of(status.hall_reverse_centers_q16[4] as int, 0),
        arith::byte_of(status.hall_reverse_centers_q16[4] as int, 1),
        arith::byte_of(status.hall_reverse_centers_q16[5] as int, 0),
        arith::byte_of(status.hall_reverse_centers_q16[5] as int, 1),
        arith::byte_of(status.hall_reverse_centers_q16[6] as int, 0),
        arith::byte_of(status.hall_reverse_centers_q16[6] as int, 1),
        status.hall_valid_mask,
    ]
}

/// Page 15: one pulse diagnostic.
pub open spec fn page_15(status: Status) -> Seq<u8> {
    seq![
        0xcf,
        status.pulse_diagnostic_slot,
        PULSE_DIAGNOSTIC_COUNT,
        arith::byte_of(status.pulse_diagnostic.pulse_step_ticks as int, 0),
        arith::byte_of(status.pulse_diagnostic.pulse_step_ticks as int, 1),
        arith::byte_of(arith::sat_i8(status.pulse_diagnostic.average_di_counts as int), 0),
        arith::byte_of(arith::sat_u16(status.pulse_diagnostic.inductance_nwb_per_count as int / 10), 0),
        arith::byte_of(arith::sat_u16(status.pulse_diagnostic.inductance_nwb_per_count as int / 10), 1),
    ]
}

/// Bytes of a status page.
pub open spec fn status_bytes(page: int, status: Status) -> Seq<u8> {
    if page == 0 {
        page_0(status)
    } else if page == 1 {
        page_1(status)
    } else if page == 2 {
        page_2(status)
    } else if page == 3 {
        page_3(status)
    } else if page == 4 {
        page_4(status)
    } else if page == 5 {
        page_5(status)
    } else if page == 6 {
        page_6(status)
    } else if page == 7 {
        page_7(status)
    } else if page == 8 {
        page_8(status)
    } else if page == 9 {
        page_9(status)
    } else if page == 10 {
        page_10(status)
    } else if page == 11 {
        page_11(status)
    } else if page == 12 {
        page_12(status)
    } else if page == 13 {
        page_13(status)
    } else if page == 14 {
        page_14(status)
    } else {
        page_15(status)
    }
}

fn interlock_page(status: &Status) -> (r: [u8; 8])
    ensures
        r@ == page_0(*status),
{
    let challenge = arith::bytes_u16(status.challenge);
    [
        0xc0,
        SCHEMA,
        status.state,
        status.failure,
        challenge[0],
        challenge[1],
        pack_flags(status),
        status.routine,
    ]
}

fn points_page(status: &Status) -> (r: [u8; 8])
    ensures
        r@ == page_1(*status),
{
    let a = arith::bytes_i16(status.low_current_counts);
    let b = arith::bytes_i16(status.low_voltage_ticks);
    let c = arith::bytes_i16(status.high_current_counts);
    [
        0xc1,
        a[0],
        a[1],
        b[0],
        b[1],
        c[0],
        c[1],
        0,
    ]
}

fn slope_page(status: &Status) -> (r: [u8; 8])
    ensures
        r@ == page_2(*status),
{
    let slope = arith::bytes_u32(status.effective_uv_per_count);
    let nominal = arith::bytes_u16(arith::sat_u32_to_u16(status.nominal_resistance_uohm / 1_000));
    [
        0xc2,
        slope[0],
        slope[1],
        slope[2],
        slope[3],
        nominal[0],
        nominal[1],
        100,
    ]
}

fn live_page(status: &Status) -> (r: [u8; 8])
    ensures
        r@ == page_3(*status),
{
    let a = arith::bytes_i16(status.target_d_counts);
    let b = arith::bytes_i16(status.measured_d_counts);
    let c = arith::bytes_i16(status.applied_d_ticks);
    [
        0xc3,
        a[0],
        a[1],
        b[0],
        b[1],
        c[0],
        c[1],
        arith::sat_u16_to_u8(status.maximum_phase_current_abs / 4),
    ]
}

fn supply_page(status: &Status) -> (r: [u8; 8])
    ensures
        r@ == page_4(*status),
{
    let a = arith::bytes_u16(status.bus_voltage_mv);
    let b = arith::bytes_u16(status.offset_a);
    let c = arith::bytes_u16(status.offset_b);
    [
        0xc4,
        a[0],
        a[1],
        b[0],
        b[1],
        c[0],
        c[1],
        status.environment_reasons,
    ]
}

fn fault_page(status: &Status) -> (r: [u8; 8])
    ensures
        r@ == page_5(*status),
{
    let faults = arith::bytes_u32(status.fault_flags);
    let cycles = arith::bytes_u16(status.maximum_control_cycles);
    [
        0xc5,
        faults[0],
        faults[1],
        faults[2],
        faults[3],
        cycles[0],
        cycles[1],
        arith::sat_u16_to_u8(status.timing_overruns),
    ]
}

fn progress_page(status: &Status) -> (r: [u8; 8])
    ensures
        r@ == page_6(*status),
{
    let ticks = arith::bytes_i16(status.high_voltage_ticks);
    let progress = arith::bytes_u16(status.sample_progress);
    [
        0xc6,
        ticks[0],
        ticks[1],
        progress[0],
        progress[1],
        FIRMWARE_VERSION[0],
        FIRMWARE_VERSION[1],
        FIRMWARE_VERSION[2],
    ]
}

fn inductance_page(status: &Status) -> (r: [u8; 8])
    ensures
        r@ == page_7(*status),
{
    let d = arith::bytes_u32(status.inductance_d_nwb_per_count);
    let q = arith::bytes_u32(
        if status.inductance_q_nwb_per_count < 0xff_ffff {
            status.inductance_q_nwb_per_count
        } else {
            0xff_ffff
        },
    );
    [
        0xc7,
        d[0],
        d[1],
        d[2],
        d[3],
        q[0],
        q[1],
        q[2],
    ]
}

fn pulse_page(status: &Status) -> (r: [u8; 8])
    ensures
        r@ == page_8(*status),
{
    let residual = arith::bytes_u32(status.residual_dead_time_uv / 1_000);
    let d = arith::bytes_i16(status.pulse_step_d_ticks);
    let q = arith::bytes_i16(status.pulse_step_q_ticks);
    [
        0xc8,
        residual[0],
        residual[1],
        d[0],
        d[1],
        q[0],
        q[1],
        arith::byte_i16(status.last_pulse_di_counts),
    ]
}

fn forward_low_page(status: &Status) -> (r: [u8; 8])
    ensures
        r@ == page_9(*status),
{
    let a = arith::bytes_u16(status.hall_forward_centers_q16[1]);
    let b = arith::bytes_u16(status.hall_forward_centers_q16[2]);
    let c = arith::bytes_u16(status.hall_forward_centers_q16[3]);
    [
        0xc9,
        a[0],
        a[1],
        b[0],
        b[1],
        c[0],
        c[1],
        status.hall_forward_minimum_samples,
    ]
}

fn forward_high_page(status: &Status) -> (r: [u8; 8])
    ensures
        r@ == page_10(*status),
{
    let a = arith::bytes_u16(status.hall_forward_centers_q16[4]);
    let b = arith::bytes_u16(status.hall_forward_centers_q16[5]);
    let c = arith::bytes_u16(status.hall_forward_centers_q16[6]);
    [
        0xca,
        a[0],
        a[1],
        b[0],
        b[1],
        c[0],
        c[1],
        status.hall_valid_mask,
    ]
}

fn flux_page(status: &Status) -> (r: [u8; 8])
    ensures
        r@ == page_11(*status),
{
    let flux = arith::bytes_u32(status.flux_linkage_nwb / 10_000);
    let commanded = arith::bytes_i16(status.flux_measurement_erpm);
    let observed = arith::bytes_i16(status.hall_measurement_erpm);
    [
        0xcb,
        flux[0],
        flux[1],
        commanded[0],
        commanded[1],
        observed[0],
        observed[1],
        status.sync_minimum_percent,
    ]
}

fn bemf_page(status: &Status) -> (r: [u8; 8])
    ensures
        r@ == page_12(*status),
{
    let d = arith::bytes_i32(status.average_bemf_d_uv);
    let q = arith::bytes_i32(
        if status.average_bemf_q_uv < -0x80_0000 {
            -0x80_0000
        } else if status.average_bemf_q_uv > 0x7f_ffff {
            0x7f_ffff
        } else {
            status.average_bemf_q_uv
        },
    );
    [
        0xcc,
        d[0],
        d[1],
        d[2],
        d[3],
        q[0],
        q[1],
        q[2],
    ]
}

fn reverse_low_page(status: &Status) -> (r: [u8; 8])
    ensures
        r@ == page_13(*status),
{
    let a = arith::bytes_u16(status.hall_reverse_centers_q16[1]);
    let b = arith::bytes_u16(status.hall_reverse_centers_q16[2]);
    let c = arith::bytes_u16(status.hall_reverse_centers_q16[3]);
    [
        0xcd,
        a[0],
        a[1],
        b[0],
        b[1],
        c[0],
        c[1],
        status.hall_reverse_minimum_samples,
    ]
}

fn reverse_high_page(status: &Status) -> (r: [u8; 8])
    ensures
        r@ == page_14(*status),
{
    let a = arith::bytes_u16(status.hall_reverse_centers_q16[4]);
    let b = arith::bytes_u16(status.hall_reverse_centers_q16[5]);
    let c = arith::bytes_u16(status.hall_reverse_centers_q16[6]);
    [
        0xce,
        a[0],
        a[1],
        b[0],
        b[1],
        c[0],
        c[1],
        status.hall_valid_mask,
    ]
}

fn diagnostic_page(status: &Status) -> (r: [u8; 8])
    ensures
        r@ == page_15(*status),
{
    let diagnostic = status.pulse_diagnostic;
    let step = arith::bytes_i16(diagnostic.pulse_step_ticks);
    let inductance = arith::bytes_u16(
        arith::sat_u32_to_u16(diagnostic.inductance_nwb_per_count / 10),
    );
    [
        0xcf,
        status.pulse_diagnostic_slot,
        PULSE_DIAGNOSTIC_COUNT,
        step[0],
        step[1],
        arith::byte_i16(diagnostic.average_di_counts),
        inductance[0],
        inductance[1],
    ]
}

pub fn status_frame(page: u8, status: Status) -> (r: Frame)
    ensures
        r@ == (STATUS_ID, 8u8, status_bytes(page as int % 16, status)),
{
    let data = match page % STATUS_PAGE_COUNT {
        0 => interlock_page(&status),
        1 => points_page(&status),
        2 => slope_page(&status),
        3 => live_page(&status),
        4 => supply_page(&status),
        5 => fault_page(&status),
        6 => progress_page(&status),
        7 => inductance_page(&status),
        8 => pulse_page(&status),
        9 => forward_low_page(&status),
        10 => forward_high_page(&status),
        11 => flux_page(&status),
        12 => bemf_page(&status),
        13 => reverse_low_page(&status),
        14 => reverse_high_page(&status),
        _ => diagnostic_page(&status),
    };
    Frame::new(STATUS_ID, 8, data)
}

/// `STOP` is immediate: its four letters on the command identifier are enough,
/// whatever follows them.
pub proof fn law_stop_needs_no_challenge(frame: Frame)
    requires
        frame.id == COMMAND_ID,
        frame.len >= 4,
        starts_with(frame, 83, 84, 79, 80),
    ensures
        command_of(frame) == Some(Command::Stop),
{
}

/// Every command but `STOP` needs a full frame with the trailer.
pub proof fn law_other_commands_need_the_complete_frame(frame: Frame)
    requires
        frame.len != 8 || frame.data@[6] != TRAILER[0] || frame.data@[7] != TRAILER[1],
    ensures
        command_of(frame) is None || command_of(frame) == Some(Command::Stop),
{
}

/// Boots with different nonces have different challenges, so a command of one
/// boot is not taken in the other.
pub proof fn law_challenge_belongs_to_its_boot(
    offset_a: u16,
    offset_b: u16,
    boot_nonce: u16,
    other_nonce: u16,
)
    requires
        boot_nonce != other_nonce,
    ensures
        challenge_of(offset_a, offset_b, boot_nonce) != challenge_of(
            offset_a,
            offset_b,
            other_nonce,
        ),
{
    let left = rotated_left_5(offset_a);
    let right = rotated_right_3(offset_b);
    assert(left ^ right ^ boot_nonce ^ 0xa55a != left ^ right ^ other_nonce ^ 0xa55a)
        by (bit_vector)
        requires
            boot_nonce != other_nonce,
    ;
}

/// Every command has its own letters, and a challenged one carries its challenge
/// in the two bytes behind them, lowest first.
pub proof fn law_commands_are_told_apart_by_their_letters(frame: Frame)
    requires
        frame.id == COMMAND_ID,
        frame.len == 8,
        frame.data@[6] == 0xa5,
        frame.data@[7] == 0x5a,
    ensures
        ({
            let challenge = telemetry::unsigned_word(frame.data@, 4);
            let letters = (frame.data@[0], frame.data@[1], frame.data@[2], frame.data@[3]);
            match command_of(frame) {
                Some(Command::Stop) => letters == (83u8, 84u8, 79u8, 80u8),
                Some(Command::Arm { challenge: received }) => letters == (65u8, 82u8, 77u8, 67u8)
                    && received == challenge,
                Some(Command::RunResistance { challenge: received }) => letters == (
                    82u8,
                    85u8,
                    78u8,
                    82u8,
                ) && received == challenge,
                Some(Command::RunInductance { challenge: received }) => letters == (
                    82u8,
                    85u8,
                    78u8,
                    76u8,
                ) && received == challenge,
                Some(Command::RunFluxLinkage { challenge: received }) => letters == (
                    82u8,
                    85u8,
                    78u8,
                    70u8,
                ) && received == challenge,
                Some(Command::RunHall { challenge: received }) => letters == (82u8, 85u8, 78u8, 72u8)
                    && received == challenge,
                None => letters != (83u8, 84u8, 79u8, 80u8) && letters != (65u8, 82u8, 77u8, 67u8)
                    && letters != (82u8, 85u8, 78u8, 82u8) && letters != (82u8, 85u8, 78u8, 76u8)
                    && letters != (82u8, 85u8, 78u8, 70u8) && letters != (82u8, 85u8, 78u8, 72u8),
            }
        }),
{
}

/// Frames of other identifiers are no commands.
pub proof fn law_other_frames_are_no_commands(frame: Frame)
    requires
        frame.id != COMMAND_ID,
    ensures
        command_of(frame) is None,
{
}

/// The first page carries the interlocks, one bit each, and the challenge.
#[verifier::rlimit(40)]
pub proof fn law_first_page_carries_the_session(status: Status)
    ensures
        ({
            let bytes = status_bytes(0, status);
            &&& bytes[0] == 0xc0
            &&& bytes[2] == status.state
            &&& bytes[3] == status.failure
            &&& telemetry::unsigned_word(bytes, 4) == status.challenge
            &&& bytes[7] == status.routine
        }),
        ({
            let flags = status_bytes(0, status)[6];
            &&& telemetry::has_flag(flags, 1) == status.armed
            &&& telemetry::has_flag(flags, 2) == status.local_ready
            &&& telemetry::has_flag(flags, 4) == status.output_active
            &&& telemetry::has_flag(flags, 8) == status.voltage_limited
            &&& telemetry::has_flag(flags, 16) == status.hall_quiet
            &&& telemetry::has_flag(flags, 32) == status.motor_outputs_disabled
            &&& telemetry::has_flag(flags, 64) == status.can_rx_fifo_overrun
            &&& telemetry::has_flag(flags, 128) == status.can_command_queue_drop
        }),
{
    arith::lemma_unsigned_word(status.challenge as int);
}

/// The resistance pages carry both points, the progress, the slope in full and the
/// resistance in milliohms.
#[verifier::rlimit(40)]
pub proof fn law_resistance_pages_carry_the_points(status: Status)
    ensures
        ({
            let bytes = status_bytes(1, status);
            &&& bytes[0] == 0xc1
            &&& telemetry::signed_word(bytes, 1) == status.low_current_counts
            &&& telemetry::signed_word(bytes, 3) == status.low_voltage_ticks
            &&& telemetry::signed_word(bytes, 5) == status.high_current_counts
        }),
        ({
            let bytes = status_bytes(6, status);
            &&& bytes[0] == 0xc6
            &&& telemetry::signed_word(bytes, 1) == status.high_voltage_ticks
            &&& telemetry::unsigned_word(bytes, 3) == status.sample_progress
        }),
        ({
            let bytes = status_bytes(2, status);
            let shown = telemetry::unsigned_word(bytes, 5);
            &&& bytes[0] == 0xc2
            &&& telemetry::unsigned_word(bytes, 1) + 0x1_0000 * telemetry::unsigned_word(bytes, 3)
                == status.effective_uv_per_count
            &&& status.nominal_resistance_uohm < 65_536_000 ==> 1_000 * shown
                <= status.nominal_resistance_uohm < 1_000 * (shown + 1)
        }),
{
    arith::lemma_signed_word(status.low_current_counts);
    arith::lemma_signed_word(status.low_voltage_ticks);
    arith::lemma_signed_word(status.high_current_counts);
    arith::lemma_signed_word(status.high_voltage_ticks);
    arith::lemma_unsigned_word(status.sample_progress as int);
    arith::lemma_unsigned_word(arith::sat_u16(status.nominal_resistance_uohm as int / 1_000));
    arith::lemma_long_word(status.effective_uv_per_count as int);
}

/// The live pages carry current and voltage, bus, offsets, environment, faults and
/// timing.
#[verifier::rlimit(40)]
pub proof fn law_live_pages_carry_the_control(status: Status)
    ensures
        ({
            let bytes = status_bytes(3, status);
            &&& bytes[0] == 0xc3
            &&& telemetry::signed_word(bytes, 1) == status.target_d_counts
            &&& telemetry::signed_word(bytes, 3) == status.measured_d_counts
            &&& telemetry::signed_word(bytes, 5) == status.applied_d_ticks
            &&& bytes[7] == arith::min(status.maximum_phase_current_abs as int / 4, 255)
        }),
        ({
            let bytes = status_bytes(4, status);
            &&& bytes[0] == 0xc4
            &&& telemetry::unsigned_word(bytes, 1) == status.bus_voltage_mv
            &&& telemetry::unsigned_word(bytes, 3) == status.offset_a
            &&& telemetry::unsigned_word(bytes, 5) == status.offset_b
            &&& bytes[7] == status.environment_reasons
        }),
        ({
            let bytes = status_bytes(5, status);
            &&& bytes[0] == 0xc5
            &&& telemetry::unsigned_word(bytes, 1) + 0x1_0000 * telemetry::unsigned_word(bytes, 3)
                == status.fault_flags
            &&& telemetry::unsigned_word(bytes, 5) == status.maximum_control_cycles
            &&& bytes[7] == arith::min(status.timing_overruns as int, 255)
        }),
{
    arith::lemma_signed_word(status.target_d_counts);
    arith::lemma_signed_word(status.measured_d_counts);
    arith::lemma_signed_word(status.applied_d_ticks);
    arith::lemma_unsigned_word(status.bus_voltage_mv as int);
    arith::lemma_unsigned_word(status.offset_a as int);
    arith::lemma_unsigned_word(status.offset_b as int);
    arith::lemma_unsigned_word(status.maximum_control_cycles as int);
    arith::lemma_long_word(status.fault_flags as int);
}

/// The inductance pages carry both inductances, the pulses, the residual voltage
/// in millivolts and one level of the ladder.
#[verifier::rlimit(40)]
pub proof fn law_inductance_pages_carry_the_pulses(status: Status)
    ensures
        ({
            let bytes = status_bytes(7, status);
            &&& bytes[0] == 0xc7
            &&& telemetry::unsigned_word(bytes, 1) + 0x1_0000 * telemetry::unsigned_word(bytes, 3)
                == status.inductance_d_nwb_per_count
            &&& telemetry::unsigned_word(bytes, 5) + 0x1_0000 * bytes[7] == arith::min(
                status.inductance_q_nwb_per_count as int,
                0xff_ffff,
            )
        }),
        ({
            let bytes = status_bytes(8, status);
            let shown = telemetry::unsigned_word(bytes, 1);
            &&& bytes[0] == 0xc8
            &&& status.residual_dead_time_uv < 65_536_000 ==> 1_000 * shown
                <= status.residual_dead_time_uv < 1_000 * (shown + 1)
            &&& telemetry::signed_word(bytes, 3) == status.pulse_step_d_ticks
            &&& telemetry::signed_word(bytes, 5) == status.pulse_step_q_ticks
            &&& -128 <= status.last_pulse_di_counts <= 127 ==> bytes[7] == arith::wrap_u8(
                status.last_pulse_di_counts as int,
            )
        }),
        ({
            let bytes = status_bytes(15, status);
            let level = status.pulse_diagnostic;
            &&& bytes[0] == 0xcf
            &&& bytes[1] == status.pulse_diagnostic_slot
            &&& bytes[2] == 12
            &&& telemetry::signed_word(bytes, 3) == level.pulse_step_ticks
            &&& -128 <= level.average_di_counts <= 127 ==> bytes[5] == arith::wrap_u8(
                level.average_di_counts as int,
            )
            &&& level.inductance_nwb_per_count < 655_360 ==> 10 * telemetry::unsigned_word(bytes, 6)
                <= level.inductance_nwb_per_count < 10 * (telemetry::unsigned_word(bytes, 6) + 1)
        }),
{
    arith::lemma_signed_word(status.pulse_step_d_ticks);
    arith::lemma_signed_word(status.pulse_step_q_ticks);
    arith::lemma_signed_word(status.pulse_diagnostic.pulse_step_ticks);
    arith::lemma_long_word(status.inductance_d_nwb_per_count as int);
    arith::lemma_long_word(arith::min(status.inductance_q_nwb_per_count as int, 0xff_ffff));
    arith::lemma_unsigned_word(
        arith::sat_u16(status.pulse_diagnostic.inductance_nwb_per_count as int / 10),
    );
    let residual = status.residual_dead_time_uv as int / 1_000;
    if status.residual_dead_time_uv < 65_536_000 {
        arith::lemma_unsigned_word(residual);
    }
}

/// The Hall pages carry the six centers of each direction with the mask and the
/// sample counts, and the flux pages the linkage in hundredths of a milliweber,
/// the speed and the back-EMF vector.
#[verifier::rlimit(40)]
pub proof fn law_hall_and_flux_pages_carry_the_results(status: Status)
    ensures
        ({
            let f = status.hall_forward_centers_q16;
            let r = status.hall_reverse_centers_q16;
            &&& status_bytes(9, status)[0] == 0xc9 && status_bytes(10, status)[0] == 0xca
            &&& status_bytes(13, status)[0] == 0xcd && status_bytes(14, status)[0] == 0xce
            &&& telemetry::unsigned_word(status_bytes(9, status), 1) == f[1]
            &&& telemetry::unsigned_word(status_bytes(9, status), 3) == f[2]
            &&& telemetry::unsigned_word(status_bytes(9, status), 5) == f[3]
            &&& telemetry::unsigned_word(status_bytes(10, status), 1) == f[4]
            &&& telemetry::unsigned_word(status_bytes(10, status), 3) == f[5]
            &&& telemetry::unsigned_word(status_bytes(10, status), 5) == f[6]
            &&& telemetry::unsigned_word(status_bytes(13, status), 1) == r[1]
            &&& telemetry::unsigned_word(status_bytes(13, status), 3) == r[2]
            &&& telemetry::unsigned_word(status_bytes(13, status), 5) == r[3]
            &&& telemetry::unsigned_word(status_bytes(14, status), 1) == r[4]
            &&& telemetry::unsigned_word(status_bytes(14, status), 3) == r[5]
            &&& telemetry::unsigned_word(status_bytes(14, status), 5) == r[6]
            &&& status_bytes(9, status)[7] == status.hall_forward_minimum_samples
            &&& status_bytes(13, status)[7] == status.hall_reverse_minimum_samples
            &&& status_bytes(10, status)[7] == status.hall_valid_mask
            &&& status_bytes(14, status)[7] == status.hall_valid_mask
        }),
        ({
            let bytes = status_bytes(11, status);
            let shown = telemetry::unsigned_word(bytes, 1);
            &&& bytes[0] == 0xcb
            &&& status.flux_linkage_nwb < 655_360_000 ==> 10_000 * shown <= status.flux_linkage_nwb
                < 10_000 * (shown + 1)
            &&& telemetry::signed_word(bytes, 3) == status.flux_measurement_erpm
            &&& telemetry::signed_word(bytes, 5) == status.hall_measurement_erpm
            &&& bytes[7] == status.sync_minimum_percent
        }),
        ({
            let bytes = status_bytes(12, status);
            &&& bytes[0] == 0xcc
            &&& telemetry::unsigned_word(bytes, 1) + 0x1_0000 * telemetry::unsigned_word(bytes, 3)
                == arith::wrap_u32(status.average_bemf_d_uv as int)
            &&& -0x80_0000 <= status.average_bemf_q_uv <= 0x7f_ffff ==> telemetry::unsigned_word(
                bytes,
                5,
            ) + 0x1_0000 * bytes[7] == status.average_bemf_q_uv as int % 0x100_0000
        }),
{
    assert forall|i: int| 0 <= i < 8 implies arith::byte_of(
        #[trigger] status.hall_forward_centers_q16[i] as int,
        0,
    ) + 0x100 * arith::byte_of(status.hall_forward_centers_q16[i] as int, 1)
        == status.hall_forward_centers_q16[i] by {
        arith::lemma_unsigned_word(status.hall_forward_centers_q16[i] as int);
    }
    assert forall|i: int| 0 <= i < 8 implies arith::byte_of(
        #[trigger] status.hall_reverse_centers_q16[i] as int,
        0,
    ) + 0x100 * arith::byte_of(status.hall_reverse_centers_q16[i] as int, 1)
        == status.hall_reverse_centers_q16[i] by {
        arith::lemma_unsigned_word(status.hall_reverse_centers_q16[i] as int);
    }
    arith::lemma_signed_word(status.flux_measurement_erpm);
    arith::lemma_signed_word(status.hall_measurement_erpm);
    if status.flux_linkage_nwb < 655_360_000 {
        arith::lemma_unsigned_word(status.flux_linkage_nwb as int / 10_000);
    }
    arith::lemma_long_word(status.average_bemf_d_uv as int);
    arith::lemma_long_word(arith::clamp(status.average_bemf_q_uv as int, -0x80_0000, 0x7f_ffff));
}

} // verus!
