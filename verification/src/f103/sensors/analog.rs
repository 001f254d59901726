//! Passive local ride-input acquisition.
use vstd::prelude::*;

use super::environment;
use super::inputs::DebouncedActiveLow;
use super::throttle;
use super::throttle::Observation;
use crate::arith;

verus! {

pub const ANALOG_SAMPLE_PERIOD_MS: u32 = 10;

pub const BRAKE_DEBOUNCE_SAMPLES: u8 = 4;

/// Largest reading of the twelve-bit converter.
pub const ADC_FULL_SCALE: u16 = 4_095;

/// State of the regular scan's DMA channel, with its buffer in rank order:
/// motor temperature, throttle, bus voltage, unused torque, controller
/// temperature.
#[derive(Clone, Copy, Debug, Eq, PartialEq)]
pub struct AnalogScan {
    pub complete: bool,
    pub channel_enabled: bool,
    pub samples: [u16; 5],
}

/// Readings of one scan.
#[derive(Clone, Copy, Debug, Default, Eq, PartialEq, Structural)]
pub struct AnalogReadings {
    pub valid: bool,
    pub motor_temperature: u16,
    pub throttle: u16,
    pub bus_voltage: u16,
    pub controller_temperature: u16,
}

impl AnalogReadings {
    /// No readings.
    pub open spec fn missing() -> Self {
        AnalogReadings {
            valid: false,
            motor_temperature: 0,
            throttle: 0,
            bus_voltage: 0,
            controller_temperature: 0,
        }
    }
}

impl AnalogScan {
    pub open spec fn is_usable(self) -> bool {
        self.complete && self.channel_enabled
    }

    /// Readings of a usable scan: valid when every rank, the unused one too, is
    /// within the converter's range.
    pub open spec fn readings(self) -> AnalogReadings {
        AnalogReadings {
            valid: self.samples[0] <= ADC_FULL_SCALE && self.samples[1] <= ADC_FULL_SCALE
                && self.samples[2] <= ADC_FULL_SCALE && self.samples[3] <= ADC_FULL_SCALE
                && self.samples[4] <= ADC_FULL_SCALE,
            motor_temperature: self.samples[0],
            throttle: self.samples[1],
            bus_voltage: self.samples[2],
            controller_temperature: self.samples[4],
        }
    }
}

#[derive(Clone, Copy, Debug, Eq, PartialEq, Structural)]
pub struct Snapshot {
    pub analog_valid: bool,
    pub brake_active: bool,
    pub throttle: Observation,
    pub bus_voltage_adc: u16,
    pub motor_temperature_adc: u16,
    pub controller_temperature_adc: u16,
    pub sampled_at_ms: u32,
}

impl Default for Snapshot {
    fn default() -> (r: Self)
        ensures
            r == (Snapshot {
                analog_valid: false,
                brake_active: false,
                throttle: Observation { raw: 0, state: throttle::State::Invalid },
                bus_voltage_adc: 0,
                motor_temperature_adc: 0,
                controller_temperature_adc: 0,
                sampled_at_ms: 0,
            }),
    {
        Snapshot {
            analog_valid: false,
            brake_active: false,
            throttle: Observation::invalid_zero(),
            bus_voltage_adc: 0,
            motor_temperature_adc: 0,
            controller_temperature_adc: 0,
            sampled_at_ms: 0,
        }
    }
}

/// Debounced brake and the latest analog readings.
#[derive(Clone, Copy, Debug, Eq, PartialEq, Structural)]
pub struct InputMonitor {
    pub adc_initialized: bool,
    pub brake: DebouncedActiveLow,
    pub last_digital_ms: u32,
    pub last_analog_ms: u32,
    pub readings: AnalogReadings,
    pub sampled_at_ms: u32,
}

impl InputMonitor {
    /// A new millisecond brings a brake sample.
    pub open spec fn digital_due(self, now_ms: u32) -> bool {
        now_ms != self.last_digital_ms
    }

    /// Enough time has passed for another scan.
    pub open spec fn analog_due(self, now_ms: u32) -> bool {
        arith::wrap_u32(now_ms - self.last_analog_ms) >= ANALOG_SAMPLE_PERIOD_MS
    }

    /// A due scan is taken from the channel.
    pub open spec fn consumes(self, now_ms: u32, scan: AnalogScan) -> bool {
        self.analog_due(now_ms) && self.adc_initialized && scan.is_usable()
    }

    /// The monitor after a service call.
    pub open spec fn serviced(self, now_ms: u32, pin_is_low: bool, scan: AnalogScan) -> Self {
        let digital = if self.digital_due(now_ms) {
            InputMonitor {
                brake: self.brake.sampled(pin_is_low),
                last_digital_ms: now_ms,
                ..self
            }
        } else {
            self
        };
        if self.analog_due(now_ms) {
            InputMonitor {
                readings: if self.adc_initialized && scan.is_usable() {
                    scan.readings()
                } else {
                    AnalogReadings::missing()
                },
                sampled_at_ms: now_ms,
                last_analog_ms: now_ms,
                ..digital
            }
        } else {
            digital
        }
    }

    /// A monitor before its first service call.
    pub open spec fn fresh(now_ms: u32, adc_initialized: bool) -> Self {
        InputMonitor {
            adc_initialized,
            brake: DebouncedActiveLow {
                required_samples: BRAKE_DEBOUNCE_SAMPLES,
                low_samples: 0,
                high_samples: 0,
                active: false,
            },
            last_digital_ms: arith::wrap_u32(now_ms - 1) as u32,
            last_analog_ms: arith::wrap_u32(now_ms - ANALOG_SAMPLE_PERIOD_MS) as u32,
            readings: AnalogReadings::missing(),
            sampled_at_ms: 0,
        }
    }

    /// What the latest service calls show.
    pub open spec fn shown(self) -> Snapshot {
        Snapshot {
            analog_valid: self.readings.valid,
            brake_active: self.brake.active,
            throttle: if self.readings.valid {
                throttle::classified(self.readings.throttle)
            } else {
                Observation { raw: self.readings.throttle, state: throttle::State::Invalid }
            },
            bus_voltage_adc: self.readings.bus_voltage,
            motor_temperature_adc: self.readings.motor_temperature,
            controller_temperature_adc: self.readings.controller_temperature,
            sampled_at_ms: self.sampled_at_ms,
        }
    }

    /// A monitor after its first samples. The flag tells whether the scan was
    /// consumed.
    pub fn initialize(
        now_ms: u32,
        adc_initialized: bool,
        brake_pin_is_low: bool,
        scan: AnalogScan,
    ) -> (r: (Self, bool))
        ensures
            r.0 == InputMonitor::fresh(now_ms, adc_initialized).serviced(
                now_ms,
                brake_pin_is_low,
                scan,
            ),
            r.1 == InputMonitor::fresh(now_ms, adc_initialized).consumes(now_ms, scan),
    {
        let mut monitor = InputMonitor {
            adc_initialized,
            brake: DebouncedActiveLow::new(BRAKE_DEBOUNCE_SAMPLES),
            last_digital_ms: now_ms.wrapping_sub(1),
            last_analog_ms: now_ms.wrapping_sub(ANALOG_SAMPLE_PERIOD_MS),
            readings: missing_readings(),
            sampled_at_ms: 0,
        };
        let consumed: bool = monitor.service(now_ms, brake_pin_is_low, scan);
        (monitor, consumed)
    }

    /// Says whether the next service call consumes a scan with these channel
    /// flags, so that the flag can be cleared before the samples are read.
    pub fn takes_scan(&self, now_ms: u32, complete: bool, channel_enabled: bool) -> (r: bool)
        ensures
            r == (self.analog_due(now_ms) && self.adc_initialized && complete && channel_enabled),
    {
        now_ms.wrapping_sub(self.last_analog_ms) >= ANALOG_SAMPLE_PERIOD_MS && self.adc_initialized
            && complete && channel_enabled
    }

    /// Takes the samples that are due; tells whether the scan was consumed.
    pub fn service(&mut self, now_ms: u32, brake_pin_is_low: bool, scan: AnalogScan) -> (r: bool)
        ensures
            *final(self) == old(self).serviced(now_ms, brake_pin_is_low, scan),
            r == old(self).consumes(now_ms, scan),
    {
        if now_ms != self.last_digital_ms {
            let _ = self.brake.update(brake_pin_is_low);
            self.last_digital_ms = now_ms;
        }
        if now_ms.wrapping_sub(self.last_analog_ms) >= ANALOG_SAMPLE_PERIOD_MS {
            let usable: bool = self.adc_initialized && scan.complete && scan.channel_enabled;
            self.readings = if usable {
                read_scan(scan)
            } else {
                missing_readings()
            };
            self.sampled_at_ms = now_ms;
            self.last_analog_ms = now_ms;
            return usable;
        }
        false
    }
}

fn missing_readings() -> (r: AnalogReadings)
    ensures
        r == AnalogReadings::missing(),
{
    AnalogReadings {
        valid: false,
        motor_temperature: 0,
        throttle: 0,
        bus_voltage: 0,
        controller_temperature: 0,
    }
}

fn read_scan(scan: AnalogScan) -> (r: AnalogReadings)
    ensures
        r == scan.readings(),
{
    let samples = scan.samples;
    AnalogReadings {
        valid: samples[0] <= ADC_FULL_SCALE && samples[1] <= ADC_FULL_SCALE && samples[2]
            <= ADC_FULL_SCALE && samples[3] <= ADC_FULL_SCALE && samples[4] <= ADC_FULL_SCALE,
        motor_temperature: samples[0],
        throttle: samples[1],
        bus_voltage: samples[2],
        controller_temperature: samples[4],
    }
}

/// Latest inputs. Without valid readings the throttle is invalid.
pub fn latest(monitor: &InputMonitor) -> (r: Snapshot)
    ensures
        r == monitor.shown(),
        r.throttle.wf(),
{
    let readings = monitor.readings;
    Snapshot {
        analog_valid: readings.valid,
        brake_active: monitor.brake.active(),
        throttle: if readings.valid {
            Observation::from_raw(readings.throttle)
        } else {
            Observation::invalid_acquisition(readings.throttle)
        },
        bus_voltage_adc: readings.bus_voltage,
        motor_temperature_adc: readings.motor_temperature,
        controller_temperature_adc: readings.controller_temperature,
        sampled_at_ms: monitor.sampled_at_ms,
    }
}

pub fn bus_voltage_mv(raw: u16) -> (r: u32)
    ensures
        r == environment::voltage_of(raw as int),
{
    environment::bus_voltage_mv(raw)
}

/// Nothing that was not acquired counts: a due service call without a usable
/// scan leaves an invalid throttle.
pub proof fn law_missing_scan_invalidates_the_throttle(
    monitor: InputMonitor,
    now_ms: u32,
    pin_is_low: bool,
    scan: AnalogScan,
)
    requires
        monitor.analog_due(now_ms),
        !monitor.consumes(now_ms, scan),
    ensures
        monitor.serviced(now_ms, pin_is_low, scan).shown().throttle.state is Invalid,
        !monitor.serviced(now_ms, pin_is_low, scan).shown().analog_valid,
{
}

/// A due scan reaches the snapshot rank by rank: motor temperature, throttle, bus
/// voltage and controller temperature, stamped with its time. It counts as valid
/// exactly if no rank, the unused one included, is beyond the converter's range,
/// and then the throttle is classified by its reading.
pub proof fn law_due_scan_reaches_the_snapshot(
    monitor: InputMonitor,
    now_ms: u32,
    pin_is_low: bool,
    scan: AnalogScan,
)
    requires
        arith::wrap_u32(now_ms - monitor.last_analog_ms) >= 10,
        monitor.adc_initialized,
        scan.complete,
        scan.channel_enabled,
    ensures
        ({
            let shown = monitor.serviced(now_ms, pin_is_low, scan).shown();
            &&& shown.motor_temperature_adc == scan.samples[0]
            &&& shown.throttle.raw == scan.samples[1]
            &&& shown.bus_voltage_adc == scan.samples[2]
            &&& shown.controller_temperature_adc == scan.samples[4]
            &&& shown.sampled_at_ms == now_ms
            &&& shown.analog_valid <==> forall|rank: int|
                0 <= rank < 5 ==> #[trigger] scan.samples[rank] <= 4_095
            &&& shown.analog_valid ==> shown.throttle == throttle::classified(scan.samples[1])
            &&& !shown.analog_valid ==> shown.throttle.state is Invalid
        }),
{
    let shown = monitor.serviced(now_ms, pin_is_low, scan).shown();
    if shown.analog_valid {
        assert forall|rank: int| 0 <= rank < 5 implies #[trigger] scan.samples[rank] <= 4_095 by {
            assert(rank == 0 || rank == 1 || rank == 2 || rank == 3 || rank == 4);
        }
    } else {
        assert(!(scan.samples[0] <= 4_095 && scan.samples[1] <= 4_095 && scan.samples[2] <= 4_095
            && scan.samples[3] <= 4_095 && scan.samples[4] <= 4_095));
    }
}

/// Between scans the analog side stands still, and the brake is sampled once in
/// every new millisecond.
pub proof fn law_inputs_are_sampled_when_due(
    monitor: InputMonitor,
    now_ms: u32,
    pin_is_low: bool,
    scan: AnalogScan,
)
    ensures
        ({
            let next = monitor.serviced(now_ms, pin_is_low, scan);
            &&& arith::wrap_u32(now_ms - monitor.last_analog_ms) < 10 ==> next.readings
                == monitor.readings && next.sampled_at_ms == monitor.sampled_at_ms
                && next.last_analog_ms == monitor.last_analog_ms
            &&& arith::wrap_u32(now_ms - monitor.last_analog_ms) >= 10 ==> next.last_analog_ms
                == now_ms
            &&& now_ms == monitor.last_digital_ms ==> next.brake == monitor.brake
            &&& now_ms != monitor.last_digital_ms ==> next.brake == monitor.brake.sampled(pin_is_low)
            &&& next.last_digital_ms == now_ms
            &&& next.shown().brake_active == next.brake.active
        }),
{
}

} // verus!
