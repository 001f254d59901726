//! Minimal stock-bike CAN wire contract.
use vstd::prelude::*;

use crate::arith;

verus! {

pub const PROJECT_TELEMETRY_SCHEMA: u8 = 10;

pub const OBSERVER_ACQUIRE_BLOCK_PLL_ERROR: u8 = 1;

pub const OBSERVER_ACQUIRE_MAX_PLL_ERROR_Q16: u16 = 2_086;

/// Identifier of every project telemetry page.
pub const PROJECT_TELEMETRY_ID: u16 = 0x2f7;

pub const TELEMETRY_SLOTS: u8 = 60;

pub const PROJECT_TELEMETRY_PAGES: u8 = 19;

/// Application version in ASCII.
pub const FIRMWARE_VERSION: [u8; 5] = [48, 46, 51, 46, 48];

#[derive(Clone, Copy, Debug, Default, PartialEq, Eq)]
pub struct Frame {
    pub id: u16,
    pub len: u8,
    pub data: [u8; 8],
}

impl View for Frame {
    type V = (u16, u8, Seq<u8>);

    open spec fn view(&self) -> (u16, u8, Seq<u8>) {
        (self.id, self.len, self.data@)
    }
}

/// View of an optional frame.
pub open spec fn wire(frame: Option<Frame>) -> Option<(u16, u8, Seq<u8>)> {
    match frame {
        Some(frame) => Some(frame@),
        None => None,
    }
}

/// A project telemetry page.
pub open spec fn page(bytes: Seq<u8>) -> (u16, u8, Seq<u8>) {
    (PROJECT_TELEMETRY_ID, 8, bytes)
}

impl Frame {
    pub fn new(id: u16, len: u8, data: [u8; 8]) -> (r: Self)
        ensures
            r == (Frame { id, len, data }),
    {
        Frame { id, len, data }
    }
}

/// Stock answer to an identity query.
pub open spec fn identity(id: u16) -> Option<(u16, u8, Seq<u8>)> {
    if id == 0x210 {
        Some((0x210u16, 8u8, seq![83u8, 55, 51, 82, 88, 95, 50, 50]))
    } else if id == 0x211 {
        Some((0x211u16, 8u8, seq![48u8, 53, 48, 54, 48, 48, 48, 50]))
    } else if id == 0x212 {
        Some((0x212u16, 4u8, seq![85u8, 83, 0, 0, 0, 0, 0, 0]))
    } else {
        None
    }
}

pub fn identity_response(id: u16) -> (r: Option<Frame>)
    ensures
        wire(r) == identity(id),
{
    if id == 0x210 {
        Some(Frame::new(0x210, 8, [83, 55, 51, 82, 88, 95, 50, 50]))
    } else if id == 0x211 {
        Some(Frame::new(0x211, 8, [48, 53, 48, 54, 48, 48, 48, 50]))
    } else if id == 0x212 {
        Some(Frame::new(0x212, 4, [85, 83, 0, 0, 0, 0, 0, 0]))
    } else {
        None
    }
}

/// The frame asks for the updater.
pub open spec fn requests_updater(frame: Frame) -> bool {
    &&& frame.id == 0x67f
    &&& frame.len >= 5
    &&& frame.data@.subrange(0, 5) == seq![0xaau8, 0x55, 0x2a, 0, 0x2a]
}

pub fn is_updater_reset(frame: Frame) -> (r: bool)
    ensures
        r == requests_updater(frame),
{
    let matches: bool = frame.data[0] == 0xaa && frame.data[1] == 0x55 && frame.data[2] == 0x2a
        && frame.data[3] == 0 && frame.data[4] == 0x2a;
    proof {
        let head = frame.data@.subrange(0, 5);
        let magic = seq![0xaau8, 0x55, 0x2a, 0, 0x2a];
        if matches {
            assert(head =~= magic);
        } else {
            assert(head[0] == frame.data[0] && head[1] == frame.data[1] && head[2] == frame.data[2]
                && head[3] == frame.data[3] && head[4] == frame.data[4]);
        }
    }
    frame.id == 0x67f && frame.len >= 5 && matches
}

#[derive(Clone, Copy, Debug, Default, PartialEq, Eq)]
pub struct StockTelemetry {
    pub vehicle_speed_tenths_kph: u16,
    pub distance_counter: u32,
    pub brake_active: bool,
    pub controller_temperature_deci_c: Option<i16>,
    pub motor_temperature_deci_c: Option<i16>,
    pub fault_page: u8,
    pub hardware_break: bool,
    pub dc_bus_undervoltage: bool,
    pub hall_invalid: bool,
}

/// Temperature byte: whole degrees above -40, zero without a reading.
pub open spec fn temperature_byte(temperature_deci_c: Option<i16>) -> u8 {
    match temperature_deci_c {
        None => 0,
        Some(temperature) => arith::sat_u8(arith::trunc_div(temperature as int, 10) + 40) as u8,
    }
}

impl StockTelemetry {
    /// Fault word of the selected page.
    pub open spec fn fault_word(self) -> int {
        let page = self.fault_page as int % 4;
        if page == 0 {
            8 * arith::bit(self.hardware_break) + 16 * arith::bit(self.dc_bus_undervoltage) + 64
                * arith::bit(self.hall_invalid)
        } else if page == 1 {
            match self.controller_temperature_deci_c {
                None => 1,
                Some(t) => 1 + 64 * arith::bit(t >= 700) + 128 * arith::bit(t >= 800),
            }
        } else if page == 2 {
            match self.motor_temperature_deci_c {
                None => 2,
                Some(t) => 2 + 64 * arith::bit(1_000 < t < 1_300) + 128 * arith::bit(t >= 1_300),
            }
        } else {
            3
        }
    }

    pub open spec fn motion(self) -> (u16, u8, Seq<u8>) {
        let speed = arith::sat_u16(self.vehicle_speed_tenths_kph * 10);
        (
            0x201,
            5,
            seq![
                arith::byte_of(speed, 0),
                arith::byte_of(speed, 1),
                0,
                0,
                (0x60 + 4 * arith::bit(self.brake_active)) as u8,
                0,
                0,
                0,
            ],
        )
    }

    pub open spec fn profile(self) -> (u16, u8, Seq<u8>) {
        (
            0x64a,
            8,
            seq![0x2b, 0x41, 0x63, 0, (0x40 * arith::bit(self.brake_active)) as u8, 0, 0, 0],
        )
    }

    pub open spec fn status(self) -> (u16, u8, Seq<u8>) {
        (
            0x200,
            8,
            seq![
                0,
                0,
                0,
                0,
                0,
                0,
                arith::byte_of(self.fault_word(), 0),
                arith::byte_of(self.fault_word(), 1),
            ],
        )
    }

    pub open spec fn limits(self) -> (u16, u8, Seq<u8>) {
        let distance = self.distance_counter as int;
        (
            0x202,
            8,
            seq![
                0x22,
                temperature_byte(self.motor_temperature_deci_c),
                arith::byte_of(distance, 0),
                arith::byte_of(distance, 1),
                arith::byte_of(distance, 0),
                arith::byte_of(distance, 1),
                arith::byte_of(distance, 2),
                arith::byte_of(distance, 3),
            ],
        )
    }

    pub open spec fn temperature(self) -> (u16, u8, Seq<u8>) {
        (
            0x204,
            8,
            seq![temperature_byte(self.controller_temperature_deci_c), 0, 3, 0, 0, 0, 0, 0],
        )
    }

    /// Frames of a slot: motion and profile alternate with the placeholder
    /// status, and the slow frames have fixed places in the sixty-slot cycle.
    pub open spec fn slot_wires(self, slot: u8) -> (
        Option<(u16, u8, Seq<u8>)>,
        Option<(u16, u8, Seq<u8>)>,
        Option<(u16, u8, Seq<u8>)>,
    ) {
        let empty = Some((0x203u16, 8u8, seq![0u8, 0, 0, 0, 0, 0, 0, 0]));
        let even = slot % 2 == 0;
        let first = if even {
            Some(self.motion())
        } else {
            empty
        };
        let second = if even {
            Some(self.profile())
        } else {
            None
        };
        let place = slot as int % 60;
        if place == 1 {
            (
                first,
                Some(self.status()),
                Some((0x265u16, 8u8, seq![0u8, 72, 84, 77, 84, 0x13, 0, 0])),
            )
        } else if place == 2 || place == 22 || place == 42 {
            (first, second, Some(self.limits()))
        } else if place == 3 {
            (first, Some(self.temperature()), None)
        } else if place == 7 {
            (first, Some((0x266u16, 8u8, seq![0u8, 3, 12, 0, 0, 0x20, 0x10, 0x22])), None)
        } else {
            (first, second, None)
        }
    }
}

pub fn telemetry_slot(slot: u8, snapshot: StockTelemetry) -> (r: [Option<Frame>; 3])
    ensures
        (wire(r[0]), wire(r[1]), wire(r[2])) == snapshot.slot_wires(slot),
{
    let even: bool = slot % 2 == 0;
    let first = if even {
        Some(motion_frame(snapshot))
    } else {
        Some(Frame::new(0x203, 8, [0, 0, 0, 0, 0, 0, 0, 0]))
    };
    let second = if even {
        Some(profile_frame(snapshot))
    } else {
        None
    };
    let place: u8 = slot % TELEMETRY_SLOTS;
    if place == 1 {
        [
            first,
            Some(controller_status(snapshot)),
            Some(Frame::new(0x265, 8, [0, 72, 84, 77, 84, 0x13, 0, 0])),
        ]
    } else if place == 2 || place == 22 || place == 42 {
        [first, second, Some(controller_limits(snapshot))]
    } else if place == 3 {
        [
            first,
            Some(
                Frame::new(
                    0x204,
                    8,
                    [
                        encode_temperature(snapshot.controller_temperature_deci_c),
                        0,
                        3,
                        0,
                        0,
                        0,
                        0,
                        0,
                    ],
                ),
            ),
            None,
        ]
    } else if place == 7 {
        [first, Some(Frame::new(0x266, 8, [0, 3, 12, 0, 0, 0x20, 0x10, 0x22])), None]
    } else {
        [first, second, None]
    }
}

fn motion_frame(snapshot: StockTelemetry) -> (r: Frame)
    ensures
        r@ == snapshot.motion(),
{
    let speed = arith::bytes_u16(
        arith::sat_u32_to_u16(snapshot.vehicle_speed_tenths_kph as u32 * 10),
    );
    Frame::new(
        0x201,
        5,
        [speed[0], speed[1], 0, 0, 0x60 + 4 * arith::flag(snapshot.brake_active), 0, 0, 0],
    )
}

fn profile_frame(snapshot: StockTelemetry) -> (r: Frame)
    ensures
        r@ == snapshot.profile(),
{
    Frame::new(
        0x64a,
        8,
        [0x2b, 0x41, 0x63, 0, 0x40 * arith::flag(snapshot.brake_active), 0, 0, 0],
    )
}

fn controller_status(snapshot: StockTelemetry) -> (r: Frame)
    ensures
        r@ == snapshot.status(),
{
    let faults = arith::bytes_u16(stock_fault_word(snapshot));
    Frame::new(0x200, 8, [0, 0, 0, 0, 0, 0, faults[0], faults[1]])
}

fn stock_fault_word(snapshot: StockTelemetry) -> (r: u16)
    ensures
        r == snapshot.fault_word(),
{
    let page: u8 = snapshot.fault_page % 4;
    let mut word: u16 = page as u16;
    if page == 0 {
        word = word + 8 * arith::flag(snapshot.hardware_break) as u16;
        word = word + 16 * arith::flag(snapshot.dc_bus_undervoltage) as u16;
        word = word + 64 * arith::flag(snapshot.hall_invalid) as u16;
    } else if page == 1 {
        if let Some(temperature) = snapshot.controller_temperature_deci_c {
            word = word + 64 * arith::flag(temperature >= 700) as u16;
            word = word + 128 * arith::flag(temperature >= 800) as u16;
        }
    } else if page == 2 {
        if let Some(temperature) = snapshot.motor_temperature_deci_c {
            word = word + 64 * arith::flag(temperature > 1_000 && temperature < 1_300) as u16;
            word = word + 128 * arith::flag(temperature >= 1_300) as u16;
        }
    }
    word
}

fn controller_limits(snapshot: StockTelemetry) -> (r: Frame)
    ensures
        r@ == snapshot.limits(),
{
    let distance = arith::bytes_u32(snapshot.distance_counter);
    Frame::new(
        0x202,
        8,
        [
            0x22,
            encode_temperature(snapshot.motor_temperature_deci_c),
            distance[0],
            distance[1],
            distance[0],
            distance[1],
            distance[2],
            distance[3],
        ],
    )
}

fn encode_temperature(temperature_deci_c: Option<i16>) -> (r: u8)
    ensures
        r == temperature_byte(temperature_deci_c),
{
    match temperature_deci_c {
        None => 0,
        Some(temperature) => {
            let degrees: i16 = temperature / 10 + 40;
            if degrees < 0 {
                0
            } else if degrees > 255 {
                255
            } else {
                degrees as u8
            }
        },
    }
}

/// Place after a place in a cycle of the given length.
pub open spec fn cycled(place: int, length: int) -> int {
    if place >= length - 1 {
        0
    } else {
        place + 1
    }
}

/// Place reached from the start after a number of steps.
pub open spec fn cycled_times(length: int, steps: nat) -> int
    decreases steps,
{
    if steps == 0 {
        0
    } else {
        cycled(cycled_times(length, (steps - 1) as nat), length)
    }
}

pub fn next_telemetry_slot(slot: u8) -> (r: u8)
    ensures
        r == cycled(slot as int, TELEMETRY_SLOTS as int),
{
    if slot >= TELEMETRY_SLOTS - 1 {
        0
    } else {
        slot + 1
    }
}

pub fn next_project_telemetry_page(page: u8) -> (r: u8)
    ensures
        r == cycled(page as int, PROJECT_TELEMETRY_PAGES as int),
{
    if page >= PROJECT_TELEMETRY_PAGES - 1 {
        0
    } else {
        page + 1
    }
}

#[derive(Clone, Copy, Debug, Default, PartialEq, Eq)]
pub struct PassiveInputTelemetry {
    pub analog_valid: bool,
    pub brake_active: bool,
    pub throttle_valid: bool,
    pub throttle_at_rest: bool,
    pub throttle_raw: u16,
    pub throttle_demand: u8,
    pub throttle_current_limit_counts: u16,
    pub live_hall_state: u8,
    pub bus_voltage_mv: u16,
    pub effective_current_limit: u16,
    pub derating_reasons: u8,
    pub controller_temperature_deci_c: Option<i16>,
    pub motor_temperature_deci_c: Option<i16>,
}

#[derive(Clone, Copy, Debug, Default, PartialEq, Eq, Structural)]
pub struct ControlTimingTelemetry {
    pub current_trips: u32,
    pub maximum_cycles: u32,
    pub warning_count: u32,
}

#[derive(Clone, Copy, Debug, Default, PartialEq, Eq, Structural)]
pub struct ControlLiveTelemetry {
    pub hall_valid: bool,
    pub current_valid: bool,
    pub output_active: bool,
    pub voltage_limited: bool,
    pub ride_stage: u8,
    pub target_q_counts: i16,
    pub measured_d_counts: i16,
    pub measured_q_counts: i16,
}

#[derive(Clone, Copy, Debug, Default, PartialEq, Eq, Structural)]
pub struct ControlOutputTelemetry {
    pub phase_limit_counts: u16,
    pub applied_d_ticks: i16,
    pub applied_q_ticks: i16,
    pub pwm_span_ticks: u16,
}

#[derive(Clone, Copy, Debug, Default, PartialEq, Eq, Structural)]
pub struct ControlFaultTelemetry {
    pub fault_flags: u32,
    pub safety_events: u16,
    pub last_safety_loss_reason: u8,
}

#[derive(Clone, Copy, Debug, Default, PartialEq, Eq, Structural)]
pub struct ControlPeakTelemetry {
    pub maximum_phase_current_abs: u16,
    pub maximum_direct_current_abs: u16,
    pub maximum_quadrature_error_abs: u16,
    pub maximum_pwm_span_ticks: u16,
}

#[derive(Clone, Copy, Debug, Default, PartialEq, Eq, Structural)]
pub struct ControlPeakEventTelemetry {
    pub generation: u8,
    pub measured_d_counts: i16,
    pub measured_q_counts: i16,
    pub target_q_counts: i16,
    pub hall_raw: u8,
    pub hall_angle_direction: i8,
    pub edge_age_us: u16,
    pub hall_interval_us: u16,
    pub angle_error_q8: i8,
    pub requested_d_ticks: i16,
    pub requested_q_ticks: i16,
    pub feedforward_d_ticks: i16,
    pub feedforward_q_ticks: i16,
    pub applied_d_ticks: i16,
    pub applied_q_ticks: i16,
    pub voltage_limited: bool,
    pub angle_rate_limited: bool,
}

#[derive(Clone, Copy, Debug, Default, PartialEq, Eq, Structural)]
pub struct ObserverStatusTelemetry {
    pub configured: bool,
    pub ready: bool,
    pub active: bool,
    pub blend: u8,
    pub confidence: u8,
    pub electrical_rpm: i16,
    pub hall_error_q16: i16,
}

#[derive(Clone, Copy, Debug, Default, PartialEq, Eq, Structural)]
pub struct ObserverModelTelemetry {
    pub flux_centi_mwb: u16,
    pub bemf_q_mv: i16,
    pub phase_error_q16: u16,
    pub validity_progress: u8,
}

#[derive(Clone, Copy, Debug, Default, PartialEq, Eq, Structural)]
pub struct ControlTimingBreakdownTelemetry {
    pub maximum_pre_driver_cycles: u16,
    pub maximum_driver_step_cycles: u16,
    pub hall_electrical_rpm_div4: i16,
    pub observer_acquisition_flags: u8,
}

#[derive(Clone, Copy, Debug, Default, PartialEq, Eq, Structural)]
pub struct ResetSummaryTelemetry {
    pub reset_flags: u8,
    pub retained_context_valid: bool,
    pub fatal_reason: u8,
    pub checkpoint: u8,
    pub last_control_cycles: u16,
    pub maximum_control_cycles: u16,
}

#[derive(Clone, Copy, Debug, Default, PartialEq, Eq, Structural)]
pub struct CrashContextTelemetry {
    pub detail: i16,
    pub control_cycle: u32,
    pub program_counter: u32,
    pub link_register: u32,
}

pub fn observer_acquisition_flags(phase_error_q16: u16) -> (r: u8)
    ensures
        r == arith::bit(phase_error_q16 >= OBSERVER_ACQUIRE_MAX_PLL_ERROR_Q16),
{
    arith::flag(phase_error_q16 >= OBSERVER_ACQUIRE_MAX_PLL_ERROR_Q16)
}

/// The even passive commissioning page: throttle and interlocks.
pub open spec fn throttle_page(snapshot: PassiveInputTelemetry) -> Seq<u8> {
    let half_limit = snapshot.throttle_current_limit_counts as int / 2;
    seq![
        8,
        0,
        arith::byte_of(snapshot.throttle_raw as int, 0),
        arith::byte_of(snapshot.throttle_raw as int, 1),
        snapshot.throttle_demand,
        arith::byte_of(half_limit, 0),
        (arith::bit(snapshot.throttle_at_rest) + 2 * arith::bit(snapshot.brake_active) + 4
            * arith::bit(snapshot.analog_valid) + 16 * arith::bit(snapshot.throttle_valid)) as u8,
        (snapshot.live_hall_state as int % 8 + 8 * (arith::byte_of(half_limit, 1) as int % 2)) as u8,
    ]
}

/// The odd passive commissioning page: DC limit, supply and temperatures. One
/// byte holds the limit as far as it goes, another what exceeds it.
pub open spec fn supply_page(snapshot: PassiveInputTelemetry) -> Seq<u8> {
    let limit = snapshot.effective_current_limit as int;
    let bus = snapshot.bus_voltage_mv as int / 100;
    seq![
        9,
        arith::sat_u8(limit) as u8,
        snapshot.derating_reasons,
        arith::sat_u8(limit - 255) as u8,
        arith::byte_of(bus, 0),
        arith::byte_of(bus, 1),
        temperature_byte(snapshot.controller_temperature_deci_c),
        temperature_byte(snapshot.motor_temperature_deci_c),
    ]
}

/// The two passive commissioning pages retain the established page-8 and page-9
/// field locations. They never grant motor authority.
pub fn passive_input_telemetry(page_index: u8, snapshot: PassiveInputTelemetry) -> (r: Frame)
    ensures
        r@ == page(
            if page_index % 2 == 0 {
                throttle_page(snapshot)
            } else {
                supply_page(snapshot)
            },
        ),
{
    if page_index % 2 == 0 {
        let raw = arith::bytes_u16(snapshot.throttle_raw);
        let current_limit = arith::bytes_u16(snapshot.throttle_current_limit_counts / 2);
        let interlocks: u8 = arith::flag(snapshot.throttle_at_rest) + 2 * arith::flag(
            snapshot.brake_active,
        ) + 4 * arith::flag(snapshot.analog_valid) + 16 * arith::flag(snapshot.throttle_valid);
        Frame::new(
            PROJECT_TELEMETRY_ID,
            8,
            [
                8,
                0,
                raw[0],
                raw[1],
                snapshot.throttle_demand,
                current_limit[0],
                interlocks,
                snapshot.live_hall_state % 8 + 8 * (current_limit[1] % 2),
            ],
        )
    } else {
        let bus_voltage = arith::bytes_u16(snapshot.bus_voltage_mv / 100);
        // Byte 1 remains a saturating legacy view. Byte 3 carries the exact
        // overflow above 255 so widened limits remain lossless to new tools.
        let legacy_current_limit: u8 = arith::sat_u16_to_u8(snapshot.effective_current_limit);
        let current_limit_overflow: u8 = arith::sat_u16_to_u8(
            snapshot.effective_current_limit.saturating_sub(255),
        );
        Frame::new(
            PROJECT_TELEMETRY_ID,
            8,
            [
                9,
                legacy_current_limit,
                snapshot.derating_reasons,
                current_limit_overflow,
                bus_voltage[0],
                bus_voltage[1],
                encode_temperature(snapshot.controller_temperature_deci_c),
                encode_temperature(snapshot.motor_temperature_deci_c),
            ],
        )
    }
}

/// Page 6: trips, longest cycle and warnings.
pub open spec fn timing_page(snapshot: ControlTimingTelemetry) -> Seq<u8> {
    seq![
        6,
        0,
        arith::byte_of(arith::sat_u16(snapshot.current_trips as int), 0),
        arith::byte_of(arith::sat_u16(snapshot.current_trips as int), 1),
        arith::byte_of(arith::sat_u16(snapshot.maximum_cycles as int), 0),
        arith::byte_of(arith::sat_u16(snapshot.maximum_cycles as int), 1),
        arith::byte_of(arith::sat_u16(snapshot.warning_count as int), 0),
        arith::byte_of(arith::sat_u16(snapshot.warning_count as int), 1),
    ]
}

/// Established page 6 fields used by the bench tooling to verify that the
/// 16 kHz interrupt has margin on the target MCU.
pub fn control_timing_telemetry(snapshot: ControlTimingTelemetry) -> (r: Frame)
    ensures
        r@ == page(timing_page(snapshot)),
{
    let current_trips = arith::bytes_u16(arith::sat_u32_to_u16(snapshot.current_trips));
    let maximum_cycles = arith::bytes_u16(arith::sat_u32_to_u16(snapshot.maximum_cycles));
    let warnings = arith::bytes_u16(arith::sat_u32_to_u16(snapshot.warning_count));
    Frame::new(
        PROJECT_TELEMETRY_ID,
        8,
        [
            6,
            0,
            current_trips[0],
            current_trips[1],
            maximum_cycles[0],
            maximum_cycles[1],
            warnings[0],
            warnings[1],
        ],
    )
}

/// Page 10: flags, ride stage, target and measured current.
pub open spec fn live_page(snapshot: ControlLiveTelemetry) -> Seq<u8> {
    seq![
        10,
        (arith::bit(snapshot.hall_valid) + 2 * arith::bit(snapshot.current_valid) + 4
            * arith::bit(snapshot.output_active) + 8 * arith::bit(
            snapshot.voltage_limited,
        ) + 16 * (snapshot.ride_stage as int % 8)) as u8,
        arith::byte_of(snapshot.target_q_counts as int, 0),
        arith::byte_of(snapshot.target_q_counts as int, 1),
        arith::byte_of(snapshot.measured_d_counts as int, 0),
        arith::byte_of(snapshot.measured_d_counts as int, 1),
        arith::byte_of(snapshot.measured_q_counts as int, 0),
        arith::byte_of(snapshot.measured_q_counts as int, 1),
    ]
}

/// Page 10: instantaneous current-loop demand and response. The ride stage is
/// packed into the upper flag nibble and therefore remains limited to 0 to 7.
pub fn control_live_telemetry(snapshot: ControlLiveTelemetry) -> (r: Frame)
    ensures
        r@ == page(live_page(snapshot)),
{
    let target = arith::bytes_i16(snapshot.target_q_counts);
    let direct = arith::bytes_i16(snapshot.measured_d_counts);
    let quadrature = arith::bytes_i16(snapshot.measured_q_counts);
    let flags: u8 = arith::flag(snapshot.hall_valid) + 2 * arith::flag(snapshot.current_valid) + 4
        * arith::flag(snapshot.output_active) + 8 * arith::flag(snapshot.voltage_limited) + 16 * (
    snapshot.ride_stage % 8);
    Frame::new(
        PROJECT_TELEMETRY_ID,
        8,
        [
            10,
            flags,
            target[0],
            target[1],
            direct[0],
            direct[1],
            quadrature[0],
            quadrature[1],
        ],
    )
}

/// Page 11: current limit, applied voltage and PWM span.
pub open spec fn output_page(snapshot: ControlOutputTelemetry) -> Seq<u8> {
    seq![
        11,
        arith::byte_of(snapshot.phase_limit_counts as int, 0),
        arith::byte_of(snapshot.phase_limit_counts as int, 1),
        arith::byte_of(snapshot.applied_d_ticks as int, 0),
        arith::byte_of(snapshot.applied_d_ticks as int, 1),
        arith::byte_of(snapshot.applied_q_ticks as int, 0),
        arith::byte_of(snapshot.applied_q_ticks as int, 1),
        arith::sat_u8(snapshot.pwm_span_ticks as int / 16) as u8,
    ]
}

/// Page 11: instantaneous dynamic current limit and applied modulation. PWM
/// span is encoded in 16-tick units so the complete timer range fits in one
/// byte.
pub fn control_output_telemetry(snapshot: ControlOutputTelemetry) -> (r: Frame)
    ensures
        r@ == page(output_page(snapshot)),
{
    let phase_limit = arith::bytes_u16(snapshot.phase_limit_counts);
    let direct = arith::bytes_i16(snapshot.applied_d_ticks);
    let quadrature = arith::bytes_i16(snapshot.applied_q_ticks);
    Frame::new(
        PROJECT_TELEMETRY_ID,
        8,
        [
            11,
            phase_limit[0],
            phase_limit[1],
            direct[0],
            direct[1],
            quadrature[0],
            quadrature[1],
            arith::sat_u16_to_u8(snapshot.pwm_span_ticks / 16),
        ],
    )
}

/// Page 12: fault mask, safety losses and the latest reason.
pub open spec fn fault_page(snapshot: ControlFaultTelemetry) -> Seq<u8> {
    seq![
        12,
        arith::byte_of(snapshot.fault_flags as int, 0),
        arith::byte_of(snapshot.fault_flags as int, 1),
        arith::byte_of(snapshot.fault_flags as int, 2),
        arith::byte_of(snapshot.fault_flags as int, 3),
        arith::byte_of(snapshot.safety_events as int, 0),
        arith::byte_of(snapshot.safety_events as int, 1),
        snapshot.last_safety_loss_reason,
    ]
}

/// Page 12: the complete internal hardware/software fault mask, saturated
/// safety-loss count, and most recent loss reason.
pub fn control_fault_telemetry(snapshot: ControlFaultTelemetry) -> (r: Frame)
    ensures
        r@ == page(fault_page(snapshot)),
{
    let faults = arith::bytes_u32(snapshot.fault_flags);
    let safety_events = arith::bytes_u16(snapshot.safety_events);
    Frame::new(
        PROJECT_TELEMETRY_ID,
        8,
        [
            12,
            faults[0],
            faults[1],
            faults[2],
            faults[3],
            safety_events[0],
            safety_events[1],
            snapshot.last_safety_loss_reason,
        ],
    )
}

/// Page 13: the largest values.
pub open spec fn peak_page(snapshot: ControlPeakTelemetry) -> Seq<u8> {
    seq![
        13,
        arith::byte_of(snapshot.maximum_phase_current_abs as int, 0),
        arith::byte_of(snapshot.maximum_phase_current_abs as int, 1),
        arith::byte_of(snapshot.maximum_direct_current_abs as int, 0),
        arith::byte_of(snapshot.maximum_direct_current_abs as int, 1),
        arith::byte_of(snapshot.maximum_quadrature_error_abs as int, 0),
        arith::byte_of(snapshot.maximum_quadrature_error_abs as int, 1),
        arith::sat_u8(snapshot.maximum_pwm_span_ticks as int / 16) as u8,
    ]
}

/// Page 13: boot-retained phase/q-error/PWM peaks and the current fault
/// episode's maximum |d|. PWM span uses the same 16-tick scale as page 11.
pub fn control_peak_telemetry(snapshot: ControlPeakTelemetry) -> (r: Frame)
    ensures
        r@ == page(peak_page(snapshot)),
{
    let phase = arith::bytes_u16(snapshot.maximum_phase_current_abs);
    let direct = arith::bytes_u16(snapshot.maximum_direct_current_abs);
    let quadrature = arith::bytes_u16(snapshot.maximum_quadrature_error_abs);
    Frame::new(
        PROJECT_TELEMETRY_ID,
        8,
        [
            13,
            phase[0],
            phase[1],
            direct[0],
            direct[1],
            quadrature[0],
            quadrature[1],
            arith::sat_u16_to_u8(snapshot.maximum_pwm_span_ticks / 16),
        ],
    )
}

/// Page 14: dq current and target of the peak.
pub open spec fn peak_current_page(s: ControlPeakEventTelemetry) -> Seq<u8> {
    seq![
        14,
        s.generation,
        arith::byte_of(s.measured_d_counts as int, 0),
        arith::byte_of(s.measured_d_counts as int, 1),
        arith::byte_of(s.measured_q_counts as int, 0),
        arith::byte_of(s.measured_q_counts as int, 1),
        arith::byte_of(s.target_q_counts as int, 0),
        arith::byte_of(s.target_q_counts as int, 1),
    ]
}

/// Page 15: Hall state and timing of the peak.
pub open spec fn peak_hall_page(s: ControlPeakEventTelemetry) -> Seq<u8> {
    seq![
        15,
        s.generation,
        (s.hall_raw as int % 8 + 8 * arith::bit(s.hall_angle_direction < 0) + 16 * arith::bit(
            s.hall_angle_direction > 0,
        ) + 32 * arith::bit(s.voltage_limited) + 64 * arith::bit(s.angle_rate_limited)) as u8,
        arith::byte_of(s.edge_age_us as int, 0),
        arith::byte_of(s.edge_age_us as int, 1),
        arith::byte_of(s.hall_interval_us as int, 0),
        arith::byte_of(s.hall_interval_us as int, 1),
        arith::byte_of(s.angle_error_q8 as int, 0),
    ]
}

/// Page 16: voltage requested at the peak, with the d feedforward.
pub open spec fn peak_request_page(s: ControlPeakEventTelemetry) -> Seq<u8> {
    seq![
        16,
        s.generation,
        arith::byte_of(s.requested_d_ticks as int, 0),
        arith::byte_of(s.requested_d_ticks as int, 1),
        arith::byte_of(s.requested_q_ticks as int, 0),
        arith::byte_of(s.requested_q_ticks as int, 1),
        arith::byte_of(s.feedforward_d_ticks as int, 0),
        arith::byte_of(s.feedforward_d_ticks as int, 1),
    ]
}

/// Page 17: voltage applied at the peak, with the q feedforward.
pub open spec fn peak_output_page(s: ControlPeakEventTelemetry) -> Seq<u8> {
    seq![
        17,
        s.generation,
        arith::byte_of(s.applied_d_ticks as int, 0),
        arith::byte_of(s.applied_d_ticks as int, 1),
        arith::byte_of(s.applied_q_ticks as int, 0),
        arith::byte_of(s.applied_q_ticks as int, 1),
        arith::byte_of(s.feedforward_q_ticks as int, 0),
        arith::byte_of(s.feedforward_q_ticks as int, 1),
    ]
}

/// Pages 14 to 17: fields captured from the exact 16 kHz cycle that established
/// the current fault episode's maximum |d|. Pages 16 and 17 separate the
/// pre-limit request, motor-model feedforward, and applied voltage. Every page
/// repeats the event generation so readers never combine fields from different
/// peaks.
pub fn control_peak_event_telemetry(page_index: u8, snapshot: ControlPeakEventTelemetry) -> (r:
    Frame)
    ensures
        r@ == page(
            if page_index == 0 {
                peak_current_page(snapshot)
            } else if page_index == 1 {
                peak_hall_page(snapshot)
            } else if page_index == 2 {
                peak_request_page(snapshot)
            } else {
                peak_output_page(snapshot)
            },
        ),
{
    if page_index == 0 {
        signed_event_page(
            14,
            snapshot.generation,
            snapshot.measured_d_counts,
            snapshot.measured_q_counts,
            snapshot.target_q_counts,
        )
    } else if page_index == 1 {
        let edge_age = arith::bytes_u16(snapshot.edge_age_us);
        let interval = arith::bytes_u16(snapshot.hall_interval_us);
        let angle_error = arith::bytes_i16(snapshot.angle_error_q8 as i16);
        let hall_flags: u8 = snapshot.hall_raw % 8 + 8 * arith::flag(
            snapshot.hall_angle_direction < 0,
        ) + 16 * arith::flag(snapshot.hall_angle_direction > 0) + 32 * arith::flag(
            snapshot.voltage_limited,
        ) + 64 * arith::flag(snapshot.angle_rate_limited);
        Frame::new(
            PROJECT_TELEMETRY_ID,
            8,
            [
                15,
                snapshot.generation,
                hall_flags,
                edge_age[0],
                edge_age[1],
                interval[0],
                interval[1],
                angle_error[0],
            ],
        )
    } else if page_index == 2 {
        signed_event_page(
            16,
            snapshot.generation,
            snapshot.requested_d_ticks,
            snapshot.requested_q_ticks,
            snapshot.feedforward_d_ticks,
        )
    } else {
        signed_event_page(
            17,
            snapshot.generation,
            snapshot.applied_d_ticks,
            snapshot.applied_q_ticks,
            snapshot.feedforward_q_ticks,
        )
    }
}

fn signed_event_page(number: u8, generation: u8, a: i16, b: i16, c: i16) -> (r: Frame)
    ensures
        r@ == page(
            seq![
                number,
                generation,
                arith::byte_of(a as int, 0),
                arith::byte_of(a as int, 1),
                arith::byte_of(b as int, 0),
                arith::byte_of(b as int, 1),
                arith::byte_of(c as int, 0),
                arith::byte_of(c as int, 1),
            ],
        ),
{
    let a = arith::bytes_i16(a);
    let b = arith::bytes_i16(b);
    let c = arith::bytes_i16(c);
    Frame::new(
        PROJECT_TELEMETRY_ID,
        8,
        [number, generation, a[0], a[1], b[0], b[1], c[0], c[1]],
    )
}

/// Page 19: observer state and angle disagreement.
pub open spec fn observer_status_page(snapshot: ObserverStatusTelemetry) -> Seq<u8> {
    seq![
        19,
        (arith::bit(snapshot.configured) + 2 * arith::bit(snapshot.ready) + 4 * arith::bit(
            snapshot.active,
        )) as u8,
        snapshot.blend,
        snapshot.confidence,
        arith::byte_of(snapshot.electrical_rpm as int, 0),
        arith::byte_of(snapshot.electrical_rpm as int, 1),
        arith::byte_of(snapshot.hall_error_q16 as int, 0),
        arith::byte_of(snapshot.hall_error_q16 as int, 1),
    ]
}

/// Page 19: active Hall-to-observer handoff state and angle disagreement.
pub fn observer_status_telemetry(snapshot: ObserverStatusTelemetry) -> (r: Frame)
    ensures
        r@ == page(observer_status_page(snapshot)),
{
    let rpm = arith::bytes_i16(snapshot.electrical_rpm);
    let hall_error = arith::bytes_i16(snapshot.hall_error_q16);
    let flags: u8 = arith::flag(snapshot.configured) + 2 * arith::flag(snapshot.ready) + 4
        * arith::flag(snapshot.active);
    Frame::new(
        PROJECT_TELEMETRY_ID,
        8,
        [
            19,
            flags,
            snapshot.blend,
            snapshot.confidence,
            rpm[0],
            rpm[1],
            hall_error[0],
            hall_error[1],
        ],
    )
}

/// Page 20: observer model and lock.
pub open spec fn observer_model_page(snapshot: ObserverModelTelemetry) -> Seq<u8> {
    seq![
        20,
        arith::byte_of(snapshot.flux_centi_mwb as int, 0),
        arith::byte_of(snapshot.flux_centi_mwb as int, 1),
        arith::byte_of(snapshot.bemf_q_mv as int, 0),
        arith::byte_of(snapshot.bemf_q_mv as int, 1),
        arith::byte_of(snapshot.phase_error_q16 as int, 0),
        arith::byte_of(snapshot.phase_error_q16 as int, 1),
        snapshot.validity_progress,
    ]
}

/// Page 20: observer model magnitude, back-EMF corroboration, PLL lock error,
/// and progress toward the two-revolution external-validity threshold.
pub fn observer_model_telemetry(snapshot: ObserverModelTelemetry) -> (r: Frame)
    ensures
        r@ == page(observer_model_page(snapshot)),
{
    let flux = arith::bytes_u16(snapshot.flux_centi_mwb);
    let bemf = arith::bytes_i16(snapshot.bemf_q_mv);
    let phase_error = arith::bytes_u16(snapshot.phase_error_q16);
    Frame::new(
        PROJECT_TELEMETRY_ID,
        8,
        [
            20,
            flux[0],
            flux[1],
            bemf[0],
            bemf[1],
            phase_error[0],
            phase_error[1],
            snapshot.validity_progress,
        ],
    )
}

/// Page 21: timing maxima, Hall speed and acquisition state.
pub open spec fn timing_breakdown_page(snapshot: ControlTimingBreakdownTelemetry) -> Seq<u8> {
    seq![
        21,
        arith::byte_of(snapshot.maximum_pre_driver_cycles as int, 0),
        arith::byte_of(snapshot.maximum_pre_driver_cycles as int, 1),
        arith::byte_of(snapshot.maximum_driver_step_cycles as int, 0),
        arith::byte_of(snapshot.maximum_driver_step_cycles as int, 1),
        arith::byte_of(snapshot.hall_electrical_rpm_div4 as int, 0),
        arith::byte_of(snapshot.hall_electrical_rpm_div4 as int, 1),
        snapshot.observer_acquisition_flags,
    ]
}

/// Page 21 separates TIM1 entry through phase selection from the FOC driver
/// step, Hall speed at 4 eRPM/count, and observer acquisition state. Bit zero
/// marks the quantized 0.2-radian PLL-error gate; the remaining flag bits are
/// reserved.
pub fn control_timing_breakdown_telemetry(snapshot: ControlTimingBreakdownTelemetry) -> (r: Frame)
    ensures
        r@ == page(timing_breakdown_page(snapshot)),
{
    let pre_driver = arith::bytes_u16(snapshot.maximum_pre_driver_cycles);
    let driver = arith::bytes_u16(snapshot.maximum_driver_step_cycles);
    let hall_rpm = arith::bytes_i16(snapshot.hall_electrical_rpm_div4);
    Frame::new(
        PROJECT_TELEMETRY_ID,
        8,
        [
            21,
            pre_driver[0],
            pre_driver[1],
            driver[0],
            driver[1],
            hall_rpm[0],
            hall_rpm[1],
            snapshot.observer_acquisition_flags,
        ],
    )
}

/// Page 22: reset cause and last progress.
pub open spec fn reset_page(snapshot: ResetSummaryTelemetry) -> Seq<u8> {
    seq![
        22,
        (snapshot.reset_flags as int % 64 + 128 * arith::bit(
            snapshot.retained_context_valid,
        )) as u8,
        snapshot.fatal_reason,
        snapshot.checkpoint,
        arith::byte_of(snapshot.last_control_cycles as int, 0),
        arith::byte_of(snapshot.last_control_cycles as int, 1),
        arith::byte_of(snapshot.maximum_control_cycles as int, 0),
        arith::byte_of(snapshot.maximum_control_cycles as int, 1),
    ]
}

/// Page 22 identifies why the MCU reset and, for watchdog resets, where the
/// preceding control interrupt last made progress. Bit 7 marks retained
/// context as valid; the low six bits retain the decoded RCC reset causes.
pub fn reset_summary_telemetry(snapshot: ResetSummaryTelemetry) -> (r: Frame)
    ensures
        r@ == page(reset_page(snapshot)),
{
    let last = arith::bytes_u16(snapshot.last_control_cycles);
    let maximum = arith::bytes_u16(snapshot.maximum_control_cycles);
    let flags: u8 = snapshot.reset_flags % 64 + 128 * arith::flag(snapshot.retained_context_valid);
    Frame::new(
        PROJECT_TELEMETRY_ID,
        8,
        [
            22,
            flags,
            snapshot.fatal_reason,
            snapshot.checkpoint,
            last[0],
            last[1],
            maximum[0],
            maximum[1],
        ],
    )
}

/// Page 23: exception context.
pub open spec fn crash_page(snapshot: CrashContextTelemetry) -> Seq<u8> {
    seq![
        23,
        arith::byte_of(arith::sat_i8(snapshot.detail as int), 0),
        arith::byte_of(snapshot.control_cycle as int, 0),
        arith::byte_of(snapshot.control_cycle as int, 1),
        arith::byte_of(snapshot.program_counter as int, 0),
        arith::byte_of(snapshot.program_counter as int, 1),
        arith::byte_of(snapshot.link_register as int, 0),
        arith::byte_of(snapshot.link_register as int, 1),
    ]
}

/// Page 23 carries compact exception context from the preceding watchdog
/// reset. Application addresses fit below 0x0801_0000, so their low 16 bits
/// identify the exact instruction. They also distinguish normal link addresses
/// from Cortex-M EXC_RETURN values.
pub fn crash_context_telemetry(snapshot: CrashContextTelemetry) -> (r: Frame)
    ensures
        r@ == page(crash_page(snapshot)),
{
    let cycle = arith::bytes_u32(snapshot.control_cycle);
    let pc = arith::bytes_u32(snapshot.program_counter);
    let lr = arith::bytes_u32(snapshot.link_register);
    let detail = arith::bytes_i16(
        if snapshot.detail < -128 {
            -128
        } else if snapshot.detail > 127 {
            127
        } else {
            snapshot.detail
        },
    );
    Frame::new(
        PROJECT_TELEMETRY_ID,
        8,
        [
            23,
            detail[0],
            cycle[0],
            cycle[1],
            pc[0],
            pc[1],
            lr[0],
            lr[1],
        ],
    )
}

/// Page 24: the predicate that rejected an output, with the timer's state.
pub open spec fn failure_state_page(words: Seq<u32>) -> Seq<u8> {
    seq![
        24,
        arith::byte_of(words[0] as int, 0),
        arith::byte_of(words[0] as int, 1),
        arith::byte_of(words[0] as int, 2),
        arith::byte_of(words[1] as int, 0),
        arith::byte_of(words[1] as int, 3),
        arith::byte_of(words[2] as int, 0),
        arith::byte_of(words[2] as int, 1),
    ]
}

/// Page 25: the compares of a rejected output.
pub open spec fn failure_compare_page(words: Seq<u32>) -> Seq<u8> {
    seq![
        25,
        arith::byte_of(words[0] as int, 0),
        arith::byte_of(words[2] as int, 2),
        arith::byte_of(words[2] as int, 3),
        arith::byte_of(words[3] as int, 0),
        arith::byte_of(words[3] as int, 1),
        arith::byte_of(words[3] as int, 2),
        arith::byte_of(words[3] as int, 3),
    ]
}

/// Pages 24 and 25 preserve the first rejected output state from the latest
/// fault episode. Page 24 carries the predicate and relevant TIM1 state; page
/// 25 carries all three attempted compares.
pub fn pwm_failure_telemetry(page: u8, words: [u32; 4]) -> (r: Frame)
    ensures
        r@ == self::page(
            if page == 24 {
                failure_state_page(words@)
            } else {
                failure_compare_page(words@)
            },
        ),
{
    let header = arith::bytes_u32(words[0]);
    let timer = arith::bytes_u32(words[1]);
    let ccer_a = arith::bytes_u32(words[2]);
    let b_c = arith::bytes_u32(words[3]);
    if page == 24 {
        Frame::new(
            PROJECT_TELEMETRY_ID,
            8,
            [24, header[0], header[1], header[2], timer[0], timer[3], ccer_a[0], ccer_a[1]],
        )
    } else {
        Frame::new(
            PROJECT_TELEMETRY_ID,
            8,
            [25, header[0], ccer_a[2], ccer_a[3], b_c[0], b_c[1], b_c[2], b_c[3]],
        )
    }
}

/// Page 18: telemetry schema and version.
pub open spec fn version_page() -> Seq<u8> {
    seq![18, PROJECT_TELEMETRY_SCHEMA] + FIRMWARE_VERSION@ + seq![0u8]
}

/// Page 18 identifies the exact version and project telemetry schema in ride
/// logs without changing the stock identity responses.
pub fn firmware_version_telemetry() -> (r: Frame)
    ensures
        r@ == page(version_page()),
{
    let frame = Frame::new(
        PROJECT_TELEMETRY_ID,
        8,
        [
            18,
            PROJECT_TELEMETRY_SCHEMA,
            FIRMWARE_VERSION[0],
            FIRMWARE_VERSION[1],
            FIRMWARE_VERSION[2],
            FIRMWARE_VERSION[3],
            FIRMWARE_VERSION[4],
            0,
        ],
    );
    assert(frame.data@ =~= seq![18, PROJECT_TELEMETRY_SCHEMA] + FIRMWARE_VERSION@ + seq![0u8]);
    frame
}

/// A schedule visits its places in order, again and again: after any number of
/// steps it stands at the remainder.
pub proof fn law_schedule_keeps_its_phase(length: int, steps: nat)
    requires
        length > 0,
    ensures
        cycled_times(length, steps) == steps as int % length,
    decreases steps,
{
    if steps == 0 {
        assert(0int % length == 0) by (nonlinear_arith)
            requires
                length > 0,
        ;
    } else {
        law_schedule_keeps_its_phase(length, (steps - 1) as nat);
        let before = steps - 1;
        let q = before / length;
        let m = before % length;
        assert(before == q * length + m && 0 <= m < length) by (nonlinear_arith)
            requires
                q == before / length,
                m == before % length,
                length > 0,
        ;
        if m == length - 1 {
            assert((q + 1) * length == q * length + length) by (nonlinear_arith);
            vstd::arithmetic::div_mod::lemma_fundamental_div_mod_converse(
                steps as int,
                length,
                q + 1,
                0,
            );
        } else {
            vstd::arithmetic::div_mod::lemma_fundamental_div_mod_converse(
                steps as int,
                length,
                q,
                m + 1,
            );
        }
    }
}

/// The two bytes of the supply page that carry the DC limit add up to it, up to
/// twice the range of a byte.
pub proof fn law_wide_dc_limit_is_lossless(snapshot: PassiveInputTelemetry)
    requires
        snapshot.effective_current_limit <= 510,
    ensures
        supply_page(snapshot)[1] + supply_page(snapshot)[3] == snapshot.effective_current_limit,
{
}

/// Two signed words with the same bytes are equal, so a page that carries both
/// bytes of a value loses nothing.
pub proof fn law_word_is_recovered_from_its_bytes(value: int)
    requires
        i16::MIN <= value <= i16::MAX,
    ensures
        arith::wrap_i16(arith::byte_of(value, 0) + arith::byte_of(value, 1) * 0x100) == value,
{
}

/// Unsigned word in two bytes of a frame, lowest first.
pub open spec fn unsigned_word(bytes: Seq<u8>, first: int) -> int {
    bytes[first] + 0x100 * bytes[first + 1]
}

/// Signed word in two bytes of a frame, lowest first.
pub open spec fn signed_word(bytes: Seq<u8>, first: int) -> int {
    arith::wrap_i16(unsigned_word(bytes, first))
}

/// A bit of a byte is set.
pub open spec fn has_flag(byte: u8, weight: int) -> bool {
    byte as int / weight % 2 == 1
}

/// A temperature byte holds the degrees above -40, and zero without a reading.
pub proof fn law_temperature_byte_holds_the_degrees(temperature_deci_c: Option<i16>)
    ensures
        match temperature_deci_c {
            None => temperature_byte(temperature_deci_c) == 0,
            Some(t) => {
                let degrees = temperature_byte(temperature_deci_c) - 40;
                &&& -400 <= t <= 2_150 ==> arith::abs(10 * degrees - t) < 10
                &&& t < -400 ==> degrees == -40
                &&& t > 2_150 ==> degrees == 215
            },
        },
{
}

/// The stock frames carry their values: the speed in hundredths, the brake, the
/// distance in full and its low word beside it, both temperatures, and the fault
/// word of the selected page.
#[verifier::rlimit(40)]
pub proof fn law_stock_frames_carry_their_values(snapshot: StockTelemetry)
    ensures
        ({
            let (id, len, bytes) = snapshot.motion();
            &&& id == 0x201
            &&& len == 5
            &&& snapshot.vehicle_speed_tenths_kph <= 6_553 ==> unsigned_word(bytes, 0) == 10
                * snapshot.vehicle_speed_tenths_kph
            &&& has_flag(bytes[4], 4) == snapshot.brake_active
            &&& has_flag(snapshot.profile().2[4], 0x40) == snapshot.brake_active
        }),
        ({
            let (id, len, bytes) = snapshot.limits();
            &&& id == 0x202
            &&& len == 8
            &&& unsigned_word(bytes, 4) + 0x1_0000 * unsigned_word(bytes, 6)
                == snapshot.distance_counter
            &&& unsigned_word(bytes, 2) == unsigned_word(bytes, 4)
            &&& bytes[1] == temperature_byte(snapshot.motor_temperature_deci_c)
        }),
        snapshot.temperature().0 == 0x204,
        snapshot.temperature().2[0] == temperature_byte(snapshot.controller_temperature_deci_c),
        ({
            let (id, len, bytes) = snapshot.status();
            let page = snapshot.fault_page as int % 4;
            let controller = snapshot.controller_temperature_deci_c;
            let motor = snapshot.motor_temperature_deci_c;
            let flags = bytes[6];
            &&& id == 0x200
            &&& flags % 4 == page
            &&& bytes[7] == 0
            &&& has_flag(flags, 8) == (page == 0 && snapshot.hardware_break)
            &&& has_flag(flags, 16) == (page == 0 && snapshot.dc_bus_undervoltage)
            &&& page == 0 ==> has_flag(flags, 64) == snapshot.hall_invalid
            &&& page == 1 ==> has_flag(flags, 64) == (controller is Some && controller->0 >= 700)
            &&& page == 1 ==> has_flag(flags, 128) == (controller is Some && controller->0 >= 800)
            &&& page == 2 ==> has_flag(flags, 64) == (motor is Some && 1_000 < motor->0 < 1_300)
            &&& page == 2 ==> has_flag(flags, 128) == (motor is Some && motor->0 >= 1_300)
        }),
{
    let distance = snapshot.distance_counter as int;
    arith::lemma_long_word(distance);
}

/// Even slots carry motion and profile, odd ones the placeholder; the controller
/// limits come in three places of the sixty, status, temperature and the two
/// constant frames in one each.
pub proof fn law_slots_carry_their_frames(snapshot: StockTelemetry, slot: u8)
    requires
        slot < 60,
    ensures
        ({
            let (first, second, third) = snapshot.slot_wires(slot);
            &&& slot % 2 == 0 ==> first == Some(snapshot.motion()) && second == Some(
                snapshot.profile(),
            )
            &&& slot % 2 == 1 ==> first is Some && (first->0).0 == 0x203
            &&& slot == 1 ==> second == Some(snapshot.status()) && third is Some && (third->0).0
                == 0x265
            &&& slot == 3 ==> second == Some(snapshot.temperature())
            &&& slot == 7 ==> second is Some && (second->0).0 == 0x266
            &&& slot % 2 == 1 && slot != 1 && slot != 3 && slot != 7 ==> second is None
            &&& third == Some(snapshot.limits()) <==> slot == 2 || slot == 22 || slot == 42
            &&& third is Some <==> slot == 1 || slot == 2 || slot == 22 || slot == 42
        }),
{
}

} // verus!
