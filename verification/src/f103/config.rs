//! Board constants and power-stage interlock for the F103RE design.
//!
//! This module contains the fixed hardware map and the conservative ride
//! envelope selected for this controller and motor. Current offsets remain a
//! per-boot measurement; the Hall boundaries and current limits below are
//! explicit application constants.
use vstd::prelude::*;

use crate::arith;
use crate::foc::hall_sensor;
use crate::foc::hall_sensor::HallGeometry;
use crate::foc::numeric;
use crate::foc::numeric::Fixed;

verus! {

pub const SYSCLK_HZ: u32 = 72_000_000;

pub const APPLICATION_FLASH_ORIGIN: u32 = 0x0800_3800;

pub const PCLK1_HZ: u32 = 36_000_000;

pub const APB1_TIMER_HZ: u32 = 72_000_000;

pub const ADC_HZ: u32 = 12_000_000;

pub const PWM_HZ: u32 = 16_000;

pub const PWM_ARR: u16 = 2_250;

pub const PWM_NEUTRAL: u16 = 1_125;

pub const PWM_DEAD_TIME_TICKS: u8 = 25;

pub const PWM_SAMPLE_CC4: u16 = 2_248;

/// The normalized `t_dead * f_pwm` factor in this controller's phase-voltage
/// tick domain: (25 / 36 MHz) * 16 kHz * (2 * 2,250 / 3) is 50 / 3 ticks.
pub const FOC_DEAD_TIME_COMP_NUMERATOR: u32 = 50;

pub const FOC_DEAD_TIME_COMP_DENOMINATOR: u32 = 3;

/// The S310 application uses a 1,273-tick voltage circle and approximately
/// 22..2,227 timer compares with this same 2,250-tick PWM period.
pub const FOC_PHASE_LIMIT_TICKS: u16 = 1_103;

pub const FOC_HARD_PHASE_LIMIT_TICKS: u16 = 1_103;

pub const TARGET_RAMP_CYCLES_PER_STEP: u8 = 16;

pub const TARGET_RAMP_COUNTS_PER_STEP: i32 = 4;

pub const HALL_TIMER_HZ: u32 = 1_000_000;

pub const HALL_TIMER_PRESCALER: u16 = 71;

/// Loaded terminal power balance gives approximately 94 to 100 mA per phase-ADC
/// count. Inverter losses bias that estimate upward, so 100 mA/count remains a
/// nominal conversion; the protection and current-loop envelopes stay in the
/// directly observed ADC-count domain.
pub const PHASE_CURRENT_MA_PER_ADC_COUNT: i32 = 100;

/// 75 uH * 0.10 A/count is 0.0075 mWb/count, rounded to Q16.16.
pub const MOTOR_INDUCTIVE_FLUX_MWB_PER_COUNT_BITS: i32 = 492;

pub const OBSERVER_BLEND_LOW_ERPM: i32 = 3_000;

pub const OBSERVER_BLEND_HIGH_ERPM: i32 = 6_000;

pub const PHASE_CURRENT_TRIP_COUNTS: u16 = 1_344;

pub const RIDE_PHASE_CURRENT_LIMIT_COUNTS: u16 = 838;

pub const RIDE_DC_BUS_CURRENT_LIMIT_COUNTS: u16 = 480;

/// Projected charge current that the ride envelope tolerates.
pub const RIDE_DC_BUS_REGEN_LIMIT_COUNTS: u16 = 40;

pub const VBUS_UV_PER_COUNT: u32 = 18_530;

pub const THROTTLE_ADC_CHANNEL: u8 = 15;

/// ASCII letter of the port.
pub const THROTTLE_GPIO_PORT: u8 = 67;

pub const THROTTLE_GPIO_PIN: u8 = 5;

pub const MOTOR_TEMPERATURE_ADC_CHANNEL: u8 = 13;

pub const MOTOR_TEMPERATURE_GPIO_PIN: u8 = 3;

pub const VBUS_ADC_CHANNEL: u8 = 8;

/// ASCII letter of the port.
pub const VBUS_GPIO_PORT: u8 = 66;

pub const VBUS_GPIO_PIN: u8 = 0;

pub const UNUSED_TORQUE_ADC_CHANNEL: u8 = 5;

pub const UNUSED_TORQUE_GPIO_PIN: u8 = 5;

pub const CONTROLLER_TEMPERATURE_ADC_CHANNEL: u8 = 16;

pub const REGULAR_ADC_CHANNELS: [u8; 5] = [
    MOTOR_TEMPERATURE_ADC_CHANNEL,
    THROTTLE_ADC_CHANNEL,
    VBUS_ADC_CHANNEL,
    UNUSED_TORQUE_ADC_CHANNEL,
    CONTROLLER_TEMPERATURE_ADC_CHANNEL,
];

/// ASCII letter of the port.
pub const BRAKE_GPIO_PORT: u8 = 67;

pub const BRAKE_GPIO_PIN: u8 = 4;

/// ASCII letter of the port.
pub const WHEEL_SPEED_GPIO_PORT: u8 = 66;

pub const WHEEL_SPEED_GPIO_PIN: u8 = 4;

/// ASCII letter of the port.
pub const CADENCE_GPIO_PORT: u8 = 66;

pub const CADENCE_GPIO_PIN: u8 = 9;

pub const CAN_BITRATE: u32 = 250_000;

pub const CAN_PRESCALER: u16 = 12;

pub const CAN_BS1_TQ: u8 = 8;

pub const CAN_BS2_TQ: u8 = 3;

pub const CAN_SJW_TQ: u8 = 1;

pub const CAN_RIDE_TUNING_ID: u16 = 0x2f1;

pub const CAN_STOP_CALIBRATION_ID: u16 = 0x2f2;

pub const CAN_FOC_STATUS_ID: u16 = 0x2f7;

/// Highest bus voltage that the board ADC can report.
pub const MAXIMUM_BUS_VOLTAGE_MV: u32 = 75_900;

/// Dead-time correction in phase-voltage ticks.
pub fn foc_dead_time_comp_ticks() -> (r: Fixed)
    ensures
        r.bits == 1_092_266,
{
    Fixed::ratio(FOC_DEAD_TIME_COMP_NUMERATOR as i32, FOC_DEAD_TIME_COMP_DENOMINATOR as i32)
}

/// Radius of the voltage circle.
pub fn foc_vector_limit_ticks() -> (r: Fixed)
    ensures
        r == numeric::fixed(83_427_328),
{
    Fixed::from_integer(1_273)
}

pub fn current_pi_proportional_gain() -> (r: Fixed)
    ensures
        r == numeric::fixed(0x8000),
{
    Fixed::ratio(512, 1_024)
}

pub fn current_pi_integral_gain_per_cycle() -> (r: Fixed)
    ensures
        r == numeric::fixed(2_420),
{
    Fixed::ratio(605, 16_384)
}

pub fn phase_current_amps_per_adc_count() -> (r: Fixed)
    ensures
        r == numeric::fixed(6_553),
{
    Fixed::ratio(PHASE_CURRENT_MA_PER_ADC_COUNT, 1_000)
}

/// Effective loaded terminal model: together with the inductance this
/// reproduces 4.3 mV/count of resistive drop and 7.5 uH*A/count of inductive
/// flux in the observer's input domain.
pub fn motor_phase_resistance_ohms() -> (r: Fixed)
    ensures
        r == numeric::fixed(2_818),
{
    Fixed::ratio(43, 1_000)
}

pub fn motor_phase_inductance_millihenries() -> (r: Fixed)
    ensures
        r == numeric::fixed(4_915),
{
    Fixed::ratio(75, 1_000)
}

pub fn motor_flux_linkage_milliwebers() -> (r: Fixed)
    ensures
        r == numeric::fixed(878_182),
{
    Fixed::ratio(134, 10)
}

/// Hall calibration of the board's motor.
pub fn hall_geometry() -> (r: HallGeometry)
    ensures
        r.wf(),
        r.electrical_states@ == seq![5u8, 1, 3, 2, 6, 4],
        r.boundaries_q16@ == seq![5_699u16, 16_526, 26_499, 37_754, 49_151, 59_124],
        r.positive_angle_direction == -1,
{
    let states: [u8; 6] = [5, 1, 3, 2, 6, 4];
    let boundaries: [u16; 6] = [5_699, 16_526, 26_499, 37_754, 49_151, 59_124];
    assert(hall_sensor::calibration_is_consistent(states, boundaries, -1i8));
    HallGeometry::new(states, boundaries, -1)
}

/// TIM1 updates at both extrema in center-aligned mode. The completed CC4
/// injected sample is consumed only at underflow, where DIR reads clear.
pub fn sample_injected_on_timer_update(timer_counting_down: bool) -> (r: bool)
    ensures
        r == !timer_counting_down,
{
    !timer_counting_down
}

/// Q16.16 phase volts represented by one commanded PWM timer tick.
pub fn observer_volts_per_pwm_tick_bits(bus_voltage_mv: u32) -> (r: i32)
    ensures
        r == arith::min(bus_voltage_mv as int, MAXIMUM_BUS_VOLTAGE_MV as int) * 0x1_0000 / (PWM_ARR
            * 1_000),
        0 <= r <= 2_210,
{
    // Reducing 65536/1000 by eight before multiplying keeps the product in a
    // word.
    let bounded_mv: u32 = if bus_voltage_mv > MAXIMUM_BUS_VOLTAGE_MV {
        MAXIMUM_BUS_VOLTAGE_MV
    } else {
        bus_voltage_mv
    };
    (bounded_mv * 8_192 / (PWM_ARR as u32 * 125)) as i32
}

/// Sequence length field of the regular ADC conversion.
pub fn regular_adc_sequence_register_1() -> (r: u32)
    ensures
        r == (REGULAR_ADC_CHANNELS@.len() - 1) * 0x10_0000,
{
    (REGULAR_ADC_CHANNELS.len() as u32 - 1) * 0x10_0000
}

/// Channels of the regular ADC conversion, five bits per rank.
pub fn regular_adc_sequence_register_3() -> (r: u32)
    ensures
        r == REGULAR_ADC_CHANNELS[0] + REGULAR_ADC_CHANNELS[1] * 0x20 + REGULAR_ADC_CHANNELS[2]
            * 0x400 + REGULAR_ADC_CHANNELS[3] * 0x8000 + REGULAR_ADC_CHANNELS[4] * 0x10_0000,
{
    REGULAR_ADC_CHANNELS[0] as u32 + REGULAR_ADC_CHANNELS[1] as u32 * 0x20
        + REGULAR_ADC_CHANNELS[2] as u32 * 0x400 + REGULAR_ADC_CHANNELS[3] as u32 * 0x8000
        + REGULAR_ADC_CHANNELS[4] as u32 * 0x10_0000
}

#[derive(Clone, Copy, Debug, PartialEq, Eq, Structural)]
pub struct CanTiming {
    pub prescaler: u16,
    pub bs1_tq: u8,
    pub bs2_tq: u8,
    pub sjw_tq: u8,
}

impl CanTiming {
    /// Timing of the board's bus.
    pub fn f103_250k() -> (r: Self)
        ensures
            r == (CanTiming {
                prescaler: CAN_PRESCALER,
                bs1_tq: CAN_BS1_TQ,
                bs2_tq: CAN_BS2_TQ,
                sjw_tq: CAN_SJW_TQ,
            }),
    {
        CanTiming {
            prescaler: CAN_PRESCALER,
            bs1_tq: CAN_BS1_TQ,
            bs2_tq: CAN_BS2_TQ,
            sjw_tq: CAN_SJW_TQ,
        }
    }

    pub fn bitrate(self, peripheral_clock_hz: u32) -> (r: u32)
        requires
            self.prescaler > 0,
        ensures
            r == peripheral_clock_hz as int / self.prescaler as int / (1 + self.bs1_tq
                + self.bs2_tq),
    {
        peripheral_clock_hz / self.prescaler as u32 / (1 + self.bs1_tq as u32 + self.bs2_tq as u32)
    }
}

/// Prerequisites for energising the inverter. Every field starts false, so a
/// reset, malformed CAN frame, or incomplete commissioning leaves PA2 high
/// (power stage disabled).
#[derive(Clone, Copy, Debug, PartialEq, Eq, Structural)]
pub struct SafetyInterlock {
    pub current_offsets_valid: bool,
    pub hall_calibration_valid: bool,
    pub command_fresh: bool,
    pub break_active: bool,
    pub software_fault_active: bool,
}

impl Default for SafetyInterlock {
    fn default() -> (r: Self)
        ensures
            r == (SafetyInterlock {
                current_offsets_valid: false,
                hall_calibration_valid: false,
                command_fresh: false,
                break_active: false,
                software_fault_active: false,
            }),
    {
        SafetyInterlock {
            current_offsets_valid: false,
            hall_calibration_valid: false,
            command_fresh: false,
            break_active: false,
            software_fault_active: false,
        }
    }
}

impl SafetyInterlock {
    /// Everything needed is present and nothing forbids the outputs.
    pub open spec fn permits(self) -> bool {
        &&& self.current_offsets_valid
        &&& self.hall_calibration_valid
        &&& self.command_fresh
        &&& !self.break_active
        &&& !self.software_fault_active
    }

    pub fn may_enable_power_stage(self) -> (r: bool)
        ensures
            r == self.permits(),
    {
        self.current_offsets_valid && self.hall_calibration_valid && self.command_fresh
            && !self.break_active && !self.software_fault_active
    }

    pub fn note_command_timeout(&mut self)
        ensures
            *final(self) == (SafetyInterlock { command_fresh: false, ..*old(self) }),
    {
        self.command_fresh = false;
    }

    pub fn note_break(&mut self)
        ensures
            *final(self) == (SafetyInterlock { break_active: true, ..*old(self) }),
    {
        self.break_active = true;
    }
}

/// A command timeout or a break forbids the outputs whatever else holds.
pub proof fn law_lost_prerequisite_forbids_the_outputs(interlock: SafetyInterlock)
    ensures
        !(SafetyInterlock { command_fresh: false, ..interlock }).permits(),
        !(SafetyInterlock { break_active: true, ..interlock }).permits(),
{
}

/// The envelope is consistent: the ride limit leaves the trip a margin of 60%,
/// every permitted compare lies before the current sample, and the crossover
/// band is not empty.
pub proof fn law_ride_envelope_is_consistent()
    ensures
        RIDE_PHASE_CURRENT_LIMIT_COUNTS < PHASE_CURRENT_TRIP_COUNTS,
        PHASE_CURRENT_TRIP_COUNTS * 5 >= RIDE_PHASE_CURRENT_LIMIT_COUNTS * 8,
        FOC_PHASE_LIMIT_TICKS <= FOC_HARD_PHASE_LIMIT_TICKS,
        PWM_NEUTRAL + FOC_HARD_PHASE_LIMIT_TICKS < PWM_SAMPLE_CC4,
        PWM_SAMPLE_CC4 < PWM_ARR,
        TARGET_RAMP_CYCLES_PER_STEP > 0,
        0 < OBSERVER_BLEND_LOW_ERPM < OBSERVER_BLEND_HIGH_ERPM,
{
}

/// The interlock is owed to complete prerequisites, and each missing one alone
/// forbids the outputs.
pub proof fn law_every_prerequisite_counts(interlock: SafetyInterlock)
    ensures
        interlock.permits() ==> !(SafetyInterlock { current_offsets_valid: false, ..interlock })
            .permits(),
        interlock.permits() ==> !(SafetyInterlock { hall_calibration_valid: false, ..interlock })
            .permits(),
        interlock.permits() ==> !(SafetyInterlock { software_fault_active: true, ..interlock })
            .permits(),
        (SafetyInterlock {
            current_offsets_valid: true,
            hall_calibration_valid: true,
            command_fresh: true,
            break_active: false,
            software_fault_active: false,
        }).permits(),
{
}

} // verus!
