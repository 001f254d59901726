//! Local voltage and temperature conversion plus the ride-current envelope.
use vstd::prelude::*;

use crate::arith;

pub mod reason;

verus! {

pub const UPDATE_PERIOD_MS: u32 = 50;

pub const DC_BUS_UNDERVOLTAGE_MV: u32 = 39_000;

pub const DC_BUS_UNDERVOLTAGE_SAMPLES: u8 = 20;

pub const CONTROLLER_DERATE_START_DECI_C: i16 = 700;

pub const CONTROLLER_STOP_DECI_C: i16 = 800;

pub const MOTOR_DERATE_START_DECI_C: i16 = 1_000;

pub const MOTOR_STOP_DECI_C: i16 = 1_300;

/// DC current granted while nothing derates.
pub const FULL_DC_LIMIT_COUNTS: u16 = 392;

#[derive(Clone, Copy, Debug, Default, Eq, PartialEq, Structural)]
pub struct RawLocalSensors {
    pub valid: bool,
    pub bus_voltage_adc: u16,
    pub motor_temperature_adc: u16,
    pub controller_temperature_adc: u16,
}

#[derive(Clone, Copy, Debug, Eq, PartialEq)]
pub struct EnvironmentMonitor {
    pub undervoltage_count: u8,
    pub undervoltage_active: bool,
    pub last_update_ms: u32,
    pub latest_limit: Option<u16>,
    pub derating_reasons: u8,
}

/// Bus voltage of a reading.
pub open spec fn voltage_of(raw: int) -> int {
    raw * 18_975 / 1_024
}

/// Controller temperature of a reading.
pub open spec fn controller_temperature_of(raw: int) -> int {
    arith::sat_i16(250 + arith::trunc_div((1_430 - raw * 3_300 / 4_096) * 100, 43))
}

/// One linear piece of the thermistor curve, in whole degrees.
pub open spec fn thermistor_piece(intercept: int, slope: int, millivolts: int) -> int {
    intercept - slope * millivolts / 1_000
}

/// Motor temperature at a sensor voltage, in whole degrees.
pub open spec fn motor_degrees(mv: int) -> int {
    if mv >= 2_518 {
        -40
    } else if mv >= 2_476 {
        thermistor_piece(619, 262, mv)
    } else if mv >= 2_411 {
        thermistor_piece(390, 169, mv)
    } else if mv >= 2_271 {
        thermistor_piece(206, 93, mv)
    } else if mv >= 1_930 {
        thermistor_piece(122, 56, mv)
    } else if mv >= 1_041 {
        thermistor_piece(90, 39, mv)
    } else if mv >= 763 {
        thermistor_piece(98, 47, mv)
    } else if mv >= 547 {
        thermistor_piece(108, 60, mv)
    } else if mv >= 352 {
        thermistor_piece(123, 87, mv)
    } else if mv >= 222 {
        thermistor_piece(141, 138, mv)
    } else if mv >= 147 {
        thermistor_piece(160, 227, mv)
    } else if mv >= 88 {
        thermistor_piece(184, 390, mv)
    } else {
        150
    }
}

/// Motor temperature of a reading; `None` for an open or shorted sensor.
pub open spec fn motor_temperature_of(raw: int) -> Option<i16> {
    if raw < 110 || raw > 3_124 {
        None
    } else {
        Some(arith::min(motor_degrees(raw * 3_300 / 4_096) * 10, 1_500) as i16)
    }
}

/// Current that a temperature leaves: all of it up to the start, none from the
/// stop, and linearly less between.
pub open spec fn thermal_limit(temperature: int, start: int, stop: int) -> int {
    if temperature <= start {
        FULL_DC_LIMIT_COUNTS as int
    } else if temperature >= stop {
        0
    } else {
        FULL_DC_LIMIT_COUNTS * arith::sat_i16(stop - temperature) / arith::sat_i16(stop - start)
    }
}

/// Undervoltage counter and verdict after a voltage: twenty low samples set
/// it, and as many good ones empty the counter again before it clears.
pub open spec fn undervoltage_after(count: int, active: bool, voltage_mv: int) -> (int, bool) {
    if voltage_mv < DC_BUS_UNDERVOLTAGE_MV {
        let next = arith::min(arith::sat_u8(count + 1), DC_BUS_UNDERVOLTAGE_SAMPLES as int);
        (next, active || next == DC_BUS_UNDERVOLTAGE_SAMPLES)
    } else if count == 0 {
        (0, false)
    } else {
        (count - 1, active)
    }
}

/// Undervoltage state after a run of samples that are all low or all good.
pub open spec fn undervoltage_run(count: int, active: bool, low: bool, samples: nat) -> (int, bool)
    decreases samples,
{
    if samples == 0 {
        (count, active)
    } else {
        let (c, a) = undervoltage_run(count, active, low, (samples - 1) as nat);
        undervoltage_after(
            c,
            a,
            if low {
                0
            } else {
                DC_BUS_UNDERVOLTAGE_MV as int
            },
        )
    }
}

impl EnvironmentMonitor {
    /// An update is due.
    pub open spec fn due(self, now_ms: u32) -> bool {
        arith::wrap_u32(now_ms - self.last_update_ms) >= UPDATE_PERIOD_MS
    }

    /// The monitor with the local data missing.
    pub open spec fn blind(self) -> Self {
        EnvironmentMonitor {
            latest_limit: None,
            derating_reasons: reason::LOCAL_DATA_MISSING,
            ..self
        }
    }

    /// The monitor after an update.
    pub open spec fn assessed(self, now_ms: u32, sensors: RawLocalSensors) -> Self {
        let (count, active) = undervoltage_after(
            self.undervoltage_count as int,
            self.undervoltage_active,
            voltage_of(sensors.bus_voltage_adc as int),
        );
        let timed = EnvironmentMonitor { last_update_ms: now_ms, ..self };
        let voltage_checked = EnvironmentMonitor {
            undervoltage_count: count as u8,
            undervoltage_active: active,
            ..timed
        };
        let controller = controller_temperature_of(sensors.controller_temperature_adc as int);
        if !self.due(now_ms) {
            self
        } else if !sensors.valid {
            timed.blind()
        } else {
            match motor_temperature_of(sensors.motor_temperature_adc as int) {
                None => voltage_checked.blind(),
                Some(motor) => EnvironmentMonitor {
                    latest_limit: Some(
                        (if active {
                            0
                        } else {
                            arith::min(
                                thermal_limit(
                                    controller,
                                    CONTROLLER_DERATE_START_DECI_C as int,
                                    CONTROLLER_STOP_DECI_C as int,
                                ),
                                thermal_limit(
                                    motor as int,
                                    MOTOR_DERATE_START_DECI_C as int,
                                    MOTOR_STOP_DECI_C as int,
                                ),
                            )
                        }) as u16,
                    ),
                    derating_reasons: (arith::bit(controller > CONTROLLER_DERATE_START_DECI_C)
                        * reason::CONTROLLER_TEMPERATURE + arith::bit(
                        motor > MOTOR_DERATE_START_DECI_C,
                    ) * reason::MOTOR_TEMPERATURE + arith::bit(active)
                        * reason::DC_BUS_UNDERVOLTAGE) as u8,
                    ..voltage_checked
                },
            }
        }
    }

    /// A monitor whose first update is due at once.
    pub fn new(now_ms: u32) -> (r: Self)
        ensures
            r == (EnvironmentMonitor {
                undervoltage_count: 0,
                undervoltage_active: false,
                last_update_ms: arith::wrap_u32(now_ms - UPDATE_PERIOD_MS) as u32,
                latest_limit: None,
                derating_reasons: reason::LOCAL_DATA_MISSING,
            }),
            r.due(now_ms),
    {
        EnvironmentMonitor {
            undervoltage_count: 0,
            undervoltage_active: false,
            last_update_ms: now_ms.wrapping_sub(UPDATE_PERIOD_MS),
            latest_limit: None,
            derating_reasons: reason::LOCAL_DATA_MISSING,
        }
    }

    /// DC current that the environment grants; `None` without local data.
    pub fn update(&mut self, now_ms: u32, sensors: RawLocalSensors) -> (r: Option<u16>)
        ensures
            *final(self) == old(self).assessed(now_ms, sensors),
            r == final(self).latest_limit,
    {
        if now_ms.wrapping_sub(self.last_update_ms) < UPDATE_PERIOD_MS {
            return self.latest_limit;
        }
        self.last_update_ms = now_ms;
        if !sensors.valid {
            self.latest_limit = None;
            self.derating_reasons = reason::LOCAL_DATA_MISSING;
            return None;
        }
        let bus_voltage: u32 = bus_voltage_mv(sensors.bus_voltage_adc);
        self.update_undervoltage(bus_voltage);
        let motor_temperature: i16 = match motor_temperature_deci_c(sensors.motor_temperature_adc) {
            Some(temperature) => temperature,
            None => {
                self.latest_limit = None;
                self.derating_reasons = reason::LOCAL_DATA_MISSING;
                return None;
            },
        };
        let controller_temperature: i16 = controller_temperature_deci_c(
            sensors.controller_temperature_adc,
        );
        let mut reasons: u8 = 0;
        if controller_temperature > CONTROLLER_DERATE_START_DECI_C {
            reasons = reasons + reason::CONTROLLER_TEMPERATURE;
        }
        if motor_temperature > MOTOR_DERATE_START_DECI_C {
            reasons = reasons + reason::MOTOR_TEMPERATURE;
        }
        let controller_limit: u16 = thermal_limit_counts(
            controller_temperature,
            CONTROLLER_DERATE_START_DECI_C,
            CONTROLLER_STOP_DECI_C,
        );
        let motor_limit: u16 = thermal_limit_counts(
            motor_temperature,
            MOTOR_DERATE_START_DECI_C,
            MOTOR_STOP_DECI_C,
        );
        let mut limit: u16 = if controller_limit < motor_limit {
            controller_limit
        } else {
            motor_limit
        };
        if self.undervoltage_active {
            limit = 0;
            reasons = reasons + reason::DC_BUS_UNDERVOLTAGE;
        }
        self.derating_reasons = reasons;
        self.latest_limit = Some(limit);
        self.latest_limit
    }

    pub fn undervoltage_active(&self) -> (r: bool)
        ensures
            r == self.undervoltage_active,
    {
        self.undervoltage_active
    }

    pub fn derating_reasons(&self) -> (r: u8)
        ensures
            r == self.derating_reasons,
    {
        self.derating_reasons
    }

    fn update_undervoltage(&mut self, voltage_mv: u32)
        ensures
            ({
                let (count, active) = undervoltage_after(
                    old(self).undervoltage_count as int,
                    old(self).undervoltage_active,
                    voltage_mv as int,
                );
                *final(self) == (EnvironmentMonitor {
                    undervoltage_count: count as u8,
                    undervoltage_active: active,
                    ..*old(self)
                })
            }),
    {
        if voltage_mv < DC_BUS_UNDERVOLTAGE_MV {
            let count: u8 = self.undervoltage_count.saturating_add(1);
            self.undervoltage_count = if count < DC_BUS_UNDERVOLTAGE_SAMPLES {
                count
            } else {
                DC_BUS_UNDERVOLTAGE_SAMPLES
            };
            if self.undervoltage_count == DC_BUS_UNDERVOLTAGE_SAMPLES {
                self.undervoltage_active = true;
            }
        } else if self.undervoltage_count == 0 {
            self.undervoltage_active = false;
        } else {
            self.undervoltage_count = self.undervoltage_count - 1;
        }
    }
}

impl Default for EnvironmentMonitor {
    fn default() -> (r: Self)
        ensures
            r == (EnvironmentMonitor {
                undervoltage_count: 0,
                undervoltage_active: false,
                last_update_ms: arith::wrap_u32(-UPDATE_PERIOD_MS) as u32,
                latest_limit: None,
                derating_reasons: reason::LOCAL_DATA_MISSING,
            }),
    {
        EnvironmentMonitor::new(0)
    }
}

pub fn bus_voltage_mv(raw: u16) -> (r: u32)
    ensures
        r == voltage_of(raw as int),
{
    raw as u32 * 18_975 / 1_024
}

pub fn controller_temperature_deci_c(raw: u16) -> (r: i16)
    ensures
        r == controller_temperature_of(raw as int),
{
    let sensor_mv: i32 = raw as i32 * 3_300 / 4_096;
    let temperature: i32 = 250 + (1_430 - sensor_mv) * 100 / 43;
    arith::sat_i32_to_i16(temperature)
}

pub fn motor_temperature_deci_c(raw: u16) -> (r: Option<i16>)
    ensures
        r == motor_temperature_of(raw as int),
{
    if raw < 110 || raw > 3_124 {
        return None;
    }
    let millivolts: i32 = raw as i32 * 3_300 / 4_096;
    let whole_degrees: i32 = if millivolts >= 2_518 {
        -40
    } else if millivolts >= 2_476 {
        thermistor_segment(619, 262, millivolts)
    } else if millivolts >= 2_411 {
        thermistor_segment(390, 169, millivolts)
    } else if millivolts >= 2_271 {
        thermistor_segment(206, 93, millivolts)
    } else if millivolts >= 1_930 {
        thermistor_segment(122, 56, millivolts)
    } else if millivolts >= 1_041 {
        thermistor_segment(90, 39, millivolts)
    } else if millivolts >= 763 {
        thermistor_segment(98, 47, millivolts)
    } else if millivolts >= 547 {
        thermistor_segment(108, 60, millivolts)
    } else if millivolts >= 352 {
        thermistor_segment(123, 87, millivolts)
    } else if millivolts >= 222 {
        thermistor_segment(141, 138, millivolts)
    } else if millivolts >= 147 {
        thermistor_segment(160, 227, millivolts)
    } else if millivolts >= 88 {
        thermistor_segment(184, 390, millivolts)
    } else {
        150
    };
    let tenths: i32 = whole_degrees * 10;
    Some(
        if tenths < 1_500 {
            tenths as i16
        } else {
            1_500
        },
    )
}

fn thermistor_segment(intercept: i32, slope: i32, millivolts: i32) -> (r: i32)
    requires
        0 <= intercept <= 1_000,
        0 <= slope <= 1_000,
        0 <= millivolts <= 3_300,
    ensures
        r == thermistor_piece(intercept as int, slope as int, millivolts as int),
        -3_300 <= r <= 1_000,
{
    assert(0 <= slope * millivolts <= 3_300_000) by (nonlinear_arith)
        requires
            0 <= slope <= 1_000,
            0 <= millivolts <= 3_300,
    ;
    intercept - slope * millivolts / 1_000
}

pub fn thermal_limit_counts(temperature: i16, start: i16, stop: i16) -> (r: u16)
    ensures
        r == thermal_limit(temperature as int, start as int, stop as int),
        r <= FULL_DC_LIMIT_COUNTS,
{
    if temperature <= start {
        return FULL_DC_LIMIT_COUNTS;
    }
    if temperature >= stop {
        return 0;
    }
    let remaining: u32 = arith::sat_i32_to_i16(stop as i32 - temperature as i32) as u32;
    let span: u32 = arith::sat_i32_to_i16(stop as i32 - start as i32) as u32;
    assert(FULL_DC_LIMIT_COUNTS * remaining / span as int <= FULL_DC_LIMIT_COUNTS)
        by (nonlinear_arith)
        requires
            FULL_DC_LIMIT_COUNTS == 392,
            0 <= remaining <= span,
            span > 0,
    ;
    (FULL_DC_LIMIT_COUNTS as u32 * remaining / span) as u16
}

/// Hotter never means more current.
pub proof fn law_heat_never_adds_current(cool: i16, hot: i16, start: i16, stop: i16)
    requires
        cool <= hot,
        start < stop,
    ensures
        0 <= thermal_limit(hot as int, start as int, stop as int) <= thermal_limit(
            cool as int,
            start as int,
            stop as int,
        ) <= FULL_DC_LIMIT_COUNTS,
{
    let f = FULL_DC_LIMIT_COUNTS as int;
    let span = arith::sat_i16(stop - start);
    let h = arith::sat_i16(stop - hot);
    let c = arith::sat_i16(stop - cool);
    if start < hot < stop {
        assert(0 <= f * h / span <= f) by (nonlinear_arith)
            requires
                f == 392,
                0 <= h <= span,
                span > 0,
        ;
        if start < cool {
            assert(f * h / span <= f * c / span <= f) by (nonlinear_arith)
                requires
                    f == 392,
                    0 <= h <= c <= span,
                    span > 0,
            ;
        }
    } else if start < cool < stop {
        assert(0 <= f * c / span <= f) by (nonlinear_arith)
            requires
                f == 392,
                0 <= c <= span,
                span > 0,
        ;
    }
}

/// Undervoltage takes twenty low samples to set, and after that as many good
/// ones and one more to clear.
pub proof fn law_undervoltage_has_hysteresis(samples: nat)
    ensures
        samples < DC_BUS_UNDERVOLTAGE_SAMPLES ==> undervoltage_run(0, false, true, samples) == (
            samples as int,
            false,
        ),
        samples >= DC_BUS_UNDERVOLTAGE_SAMPLES ==> undervoltage_run(0, false, true, samples) == (
            DC_BUS_UNDERVOLTAGE_SAMPLES as int,
            true,
        ),
        samples <= DC_BUS_UNDERVOLTAGE_SAMPLES ==> undervoltage_run(
            DC_BUS_UNDERVOLTAGE_SAMPLES as int,
            true,
            false,
            samples,
        ) == (DC_BUS_UNDERVOLTAGE_SAMPLES - samples, true),
        samples > DC_BUS_UNDERVOLTAGE_SAMPLES ==> undervoltage_run(
            DC_BUS_UNDERVOLTAGE_SAMPLES as int,
            true,
            false,
            samples,
        ) == (0int, false),
    decreases samples,
{
    if samples > 0 {
        law_undervoltage_has_hysteresis((samples - 1) as nat);
    }
}

/// A due update without local data removes the current; undervoltage grants
/// none; no update grants more than the full limit.
pub proof fn law_environment_fails_closed(
    monitor: EnvironmentMonitor,
    now_ms: u32,
    sensors: RawLocalSensors,
)
    requires
        monitor.due(now_ms),
    ensures
        ({
            let after = monitor.assessed(now_ms, sensors);
            &&& !sensors.valid ==> after.latest_limit is None
            &&& motor_temperature_of(sensors.motor_temperature_adc as int) is None
                ==> after.latest_limit is None
            &&& after.latest_limit is Some ==> after.latest_limit->0 <= FULL_DC_LIMIT_COUNTS
            &&& after.latest_limit is Some && after.undervoltage_active ==> after.latest_limit->0
                == 0
        }),
{
    if sensors.valid {
        let controller = controller_temperature_of(sensors.controller_temperature_adc as int);
        law_heat_never_adds_current(
            controller as i16,
            controller as i16,
            CONTROLLER_DERATE_START_DECI_C,
            CONTROLLER_STOP_DECI_C,
        );
    }
}

/// Neither temperature is granted more than its own share: a motor or controller
/// at its stop gets nothing, between start and stop each allows the full current
/// times the distance left to the stop, and without undervoltage the grant is
/// the largest whole count under both. A reason is reported exactly when the
/// grant is less than the full limit.
#[verifier::rlimit(40)]
pub proof fn law_grant_respects_both_temperatures(
    monitor: EnvironmentMonitor,
    now_ms: u32,
    sensors: RawLocalSensors,
)
    requires
        monitor.due(now_ms),
        sensors.valid,
        motor_temperature_of(sensors.motor_temperature_adc as int) is Some,
    ensures
        ({
            let motor = motor_temperature_of(sensors.motor_temperature_adc as int)->0;
            let controller = controller_temperature_of(sensors.controller_temperature_adc as int);
            let after = monitor.assessed(now_ms, sensors);
            let grant = after.latest_limit->0;
            &&& after.latest_limit is Some
            &&& grant <= 392
            &&& motor >= 1_300 || controller >= 800 || after.undervoltage_active ==> grant == 0
            &&& 1_000 < motor < 1_300 ==> 300 * grant <= 392 * (1_300 - motor)
            &&& 700 < controller < 800 ==> 100 * grant <= 392 * (800 - controller)
            &&& !after.undervoltage_active && motor < 1_300 && controller < 800 ==> {
                ||| grant == 392 && motor <= 1_000 && controller <= 700
                ||| motor > 1_000 && 300 * (grant + 1) > 392 * (1_300 - motor)
                ||| controller > 700 && 100 * (grant + 1) > 392 * (800 - controller)
            }
            &&& after.derating_reasons == 0 <==> grant == 392
            &&& after.last_update_ms == now_ms
        }),
{
    let motor = motor_temperature_of(sensors.motor_temperature_adc as int)->0 as int;
    let controller = controller_temperature_of(sensors.controller_temperature_adc as int);
    lemma_allowance(motor, 1_000, 1_300);
    lemma_allowance(controller, 700, 800);
}

proof fn lemma_allowance(temperature: int, start: int, stop: int)
    requires
        0 < start < stop < 2_000,
    ensures
        ({
            let limit = thermal_limit(temperature, start, stop);
            &&& 0 <= limit <= 392
            &&& temperature >= stop ==> limit == 0
            &&& temperature <= start ==> limit == 392
            &&& start < temperature < stop ==> (stop - start) * limit <= 392 * (stop - temperature)
                < (stop - start) * (limit + 1)
        }),
        start < temperature ==> thermal_limit(temperature, start, stop) < 392,
{
    if start < temperature < stop {
        let span = stop - start;
        let left = 392 * (stop - temperature);
        let limit = left / span;
        assert(span * limit <= left < span * (limit + 1)) by (nonlinear_arith)
            requires
                limit == left / span,
                span > 0,
        ;
        assert(0 <= limit < 392) by (nonlinear_arith)
            requires
                span * limit <= left < span * (limit + 1),
                0 <= left < 392 * span,
                span > 0,
        ;
    }
}

/// Between updates nothing changes: the last grant stands.
pub proof fn law_grant_stands_between_updates(
    monitor: EnvironmentMonitor,
    now_ms: u32,
    sensors: RawLocalSensors,
)
    requires
        now_ms >= monitor.last_update_ms,
    ensures
        now_ms - monitor.last_update_ms < 50 ==> monitor.assessed(now_ms, sensors) == monitor,
        now_ms - monitor.last_update_ms >= 50 ==> monitor.assessed(now_ms, sensors).last_update_ms
            == now_ms,
{
}

/// A valid sample below 39 V counts toward undervoltage, every other valid one
/// against it, and a sample that is not valid does neither. The verdict falls
/// only with the count at its top, and is lifted only with the count at zero.
pub proof fn law_voltage_samples_are_counted(
    monitor: EnvironmentMonitor,
    now_ms: u32,
    sensors: RawLocalSensors,
)
    requires
        monitor.due(now_ms),
        monitor.undervoltage_count <= 20,
    ensures
        ({
            let after = monitor.assessed(now_ms, sensors);
            let low = sensors.bus_voltage_adc * 18_975 < 39_000 * 1_024;
            let before = monitor.undervoltage_count;
            &&& sensors.valid && low ==> after.undervoltage_count == arith::min(before + 1, 20)
            &&& sensors.valid && !low ==> after.undervoltage_count == arith::max(before - 1, 0)
            &&& !sensors.valid ==> after.undervoltage_count == before
            &&& after.undervoltage_active && !monitor.undervoltage_active
                ==> after.undervoltage_count == 20
            &&& !after.undervoltage_active && monitor.undervoltage_active ==> before == 0
            &&& sensors.valid && low && before >= 19 ==> after.undervoltage_active
            &&& sensors.valid && !low && before == 0 ==> !after.undervoltage_active
        }),
{
}

/// The bus reading is proportional, with 75.9 V at full scale; the controller
/// reads 25 C at 1,430 mV and a degree more for every 4.3 mV less; a higher motor
/// reading is a colder motor, up to the degree by which two pieces of its curve
/// overlap.
#[verifier::rlimit(40)]
pub proof fn law_readings_follow_the_sensors(raw: u16, higher: u16)
    requires
        raw <= higher <= 4_095,
    ensures
        0 <= 75_900 * raw - 4_096 * voltage_of(raw as int) < 4_096,
        ({
            let deci_c = controller_temperature_of(raw as int);
            let millivolts = raw * 3_300 / 4_096;
            arith::abs(43 * (deci_c - 250) - 100 * (1_430 - millivolts)) < 43
        }),
        ({
            let warm = motor_temperature_of(raw as int);
            let cold = motor_temperature_of(higher as int);
            &&& warm is Some <==> 110 <= raw <= 3_124
            &&& warm is Some ==> -400 <= warm->0 <= 1_500
            &&& warm is Some && cold is Some ==> cold->0 <= warm->0 + 10
        }),
{
    lemma_thermistor_falls(raw * 3_300 / 4_096, higher * 3_300 / 4_096);
}

proof fn lemma_thermistor_falls(warm_mv: int, cold_mv: int)
    requires
        0 <= warm_mv <= cold_mv <= 3_300,
    ensures
        motor_degrees(cold_mv) <= motor_degrees(warm_mv) + 1,
        -40 <= motor_degrees(warm_mv) <= 150,
{
}

/// Each reason has its own bit: the controller's heat, the motor's heat, and the
/// voltage; missing data is reported alone.
pub proof fn law_reasons_name_their_causes(
    monitor: EnvironmentMonitor,
    now_ms: u32,
    sensors: RawLocalSensors,
)
    requires
        monitor.due(now_ms),
    ensures
        ({
            let after = monitor.assessed(now_ms, sensors);
            let reasons = after.derating_reasons as int;
            let motor = motor_temperature_of(sensors.motor_temperature_adc as int);
            let controller = controller_temperature_of(sensors.controller_temperature_adc as int);
            &&& after.latest_limit is None ==> reasons == 64
            &&& after.latest_limit is Some ==> {
                &&& reasons % 2 == 1 <==> controller > 700
                &&& reasons / 2 % 2 == 1 <==> motor->0 > 1_000
                &&& reasons / 32 % 2 == 1 <==> after.undervoltage_active
                &&& reasons / 64 % 2 == 0
            }
        }),
{
}

} // verus!
