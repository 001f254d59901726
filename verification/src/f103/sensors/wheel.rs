//! Wheel-pulse qualification for stock speed, distance, and updater safety.
use vstd::prelude::*;

use crate::arith;

verus! {

pub const DISTANCE_PER_PULSE_MM: u16 = 312;

pub const MINIMUM_INTERVAL_US: u32 = 1_000;

/// Millimetres in one stock distance unit.
pub const DISTANCE_UNIT_MM: u32 = 100_000;

#[derive(Clone, Copy, Debug, Default, Eq, PartialEq, Structural)]
pub struct Capture {
    pub primed: bool,
    pub quiet: bool,
    pub interval_us: u32,
    pub pulse_count: u32,
    pub capture_overruns: u16,
}

#[derive(Clone, Copy, Debug, Default, Eq, PartialEq, Structural)]
pub enum State {
    #[default]
    Uninitialized,
    Quiet,
    AwaitingSecondPulse,
    Tracking { speed_tenths_kph: u16 },
    Implausible,
}

impl State {
    pub fn speed_tenths_kph(self) -> (r: u16)
        ensures
            r == (match self {
                State::Tracking { speed_tenths_kph } => speed_tenths_kph,
                _ => 0,
            }),
    {
        match self {
            State::Tracking { speed_tenths_kph } => speed_tenths_kph,
            _ => 0,
        }
    }

    pub fn safe_for_update(self) -> (r: bool)
        ensures
            r == (self is Quiet),
    {
        matches!(self, State::Quiet)
    }
}

/// Speed of one pulse distance per interval, in tenths of a kilometre per hour.
pub open spec fn speed_of(interval_us: int) -> int {
    arith::sat_u16(DISTANCE_PER_PULSE_MM * 36_000 / interval_us)
}

#[derive(Clone, Copy, Debug, Default, Eq, PartialEq, Structural)]
pub struct Estimator {
    pub last_pulse_count: u32,
    pub last_capture_overruns: u16,
    pub state: State,
}

impl Estimator {
    /// The estimator after a capture. A quiet wheel resynchronizes it, a lost
    /// pulse makes it implausible, and only a new pulse changes the speed.
    pub open spec fn after(self, capture: Capture) -> Self {
        let synchronized = Estimator {
            last_pulse_count: capture.pulse_count,
            last_capture_overruns: capture.capture_overruns,
            ..self
        };
        if capture.quiet {
            Estimator { state: State::Quiet, ..synchronized }
        } else if !capture.primed {
            Estimator { state: State::Uninitialized, ..self }
        } else if capture.capture_overruns != self.last_capture_overruns {
            Estimator { state: State::Implausible, ..synchronized }
        } else if capture.pulse_count == self.last_pulse_count {
            self
        } else {
            Estimator {
                state: if capture.interval_us == 0 {
                    State::AwaitingSecondPulse
                } else if capture.interval_us < MINIMUM_INTERVAL_US {
                    State::Implausible
                } else {
                    State::Tracking { speed_tenths_kph: speed_of(capture.interval_us as int) as u16 }
                },
                ..synchronized
            }
        }
    }

    pub fn new() -> (r: Self)
        ensures
            r == (Estimator {
                last_pulse_count: 0,
                last_capture_overruns: 0,
                state: State::Uninitialized,
            }),
    {
        Estimator { last_pulse_count: 0, last_capture_overruns: 0, state: State::Uninitialized }
    }

    pub fn update(&mut self, capture: Capture) -> (r: State)
        ensures
            *final(self) == old(self).after(capture),
            r == final(self).state,
    {
        if capture.quiet {
            self.last_capture_overruns = capture.capture_overruns;
            self.last_pulse_count = capture.pulse_count;
            self.state = State::Quiet;
            return self.state;
        }
        if !capture.primed {
            self.state = State::Uninitialized;
            return self.state;
        }
        if capture.capture_overruns != self.last_capture_overruns {
            self.last_capture_overruns = capture.capture_overruns;
            self.last_pulse_count = capture.pulse_count;
            self.state = State::Implausible;
            return self.state;
        }
        if capture.pulse_count == self.last_pulse_count {
            return self.state;
        }
        self.last_pulse_count = capture.pulse_count;
        if capture.interval_us == 0 {
            self.state = State::AwaitingSecondPulse;
            return self.state;
        }
        if capture.interval_us < MINIMUM_INTERVAL_US {
            self.state = State::Implausible;
            return self.state;
        }
        let speed: u16 = arith::sat_u32_to_u16(
            DISTANCE_PER_PULSE_MM as u32 * 36_000 / capture.interval_us,
        );
        self.state = State::Tracking { speed_tenths_kph: speed };
        self.state
    }

    pub fn state(self) -> (r: State)
        ensures
            r == self.state,
    {
        self.state
    }
}

#[derive(Clone, Copy, Debug, Default, Eq, PartialEq, Structural)]
pub struct DistanceCounter {
    pub last_pulse_count: u32,
    pub distance_remainder_mm: u32,
    pub value: u32,
}

impl DistanceCounter {
    /// Millimetres to account for after a pulse count.
    pub open spec fn accumulated(self, pulse_count: u32) -> int {
        arith::sat_u32(
            arith::sat_u32(
                arith::wrap_u32(pulse_count - self.last_pulse_count) * DISTANCE_PER_PULSE_MM,
            ) + self.distance_remainder_mm,
        )
    }

    /// The counter after a pulse count: whole units are counted, the rest is
    /// kept.
    pub open spec fn after(self, pulse_count: u32) -> Self {
        let accumulated = self.accumulated(pulse_count);
        DistanceCounter {
            last_pulse_count: pulse_count,
            value: arith::wrap_u32(self.value + accumulated / DISTANCE_UNIT_MM as int) as u32,
            distance_remainder_mm: (accumulated % DISTANCE_UNIT_MM as int) as u32,
        }
    }

    pub fn new() -> (r: Self)
        ensures
            r == (DistanceCounter { last_pulse_count: 0, distance_remainder_mm: 0, value: 0 }),
    {
        DistanceCounter { last_pulse_count: 0, distance_remainder_mm: 0, value: 0 }
    }

    pub fn update(&mut self, pulse_count: u32) -> (r: u32)
        ensures
            *final(self) == old(self).after(pulse_count),
            r == final(self).value,
    {
        let new_pulses: u32 = pulse_count.wrapping_sub(self.last_pulse_count);
        self.last_pulse_count = pulse_count;
        let accumulated: u32 = arith::sat_mul_u32(
            new_pulses,
            DISTANCE_PER_PULSE_MM as u32,
        ).saturating_add(self.distance_remainder_mm);
        self.value = self.value.wrapping_add(accumulated / DISTANCE_UNIT_MM);
        self.distance_remainder_mm = accumulated % DISTANCE_UNIT_MM;
        self.value
    }

    pub fn value(self) -> (r: u32)
        ensures
            r == self.value,
    {
        self.value
    }
}

/// Timestamp of a capture that may have raced with a counter overflow: a low
/// capture beside a pending overflow belongs to the next epoch.
pub open spec fn capture_time(overflow_epoch: int, capture: int, update_pending: bool) -> int {
    arith::wrap_u16(
        if update_pending && capture < 0x8000 {
            overflow_epoch + 1
        } else {
            overflow_epoch
        },
    ) * 0x1_0000 + capture
}

pub fn extended_capture_timestamp(
    overflow_epoch: u32,
    capture: u16,
    update_pending: bool,
) -> (r: u32)
    ensures
        r == capture_time(overflow_epoch as int, capture as int, update_pending),
{
    let epoch: u32 = if update_pending && capture < 0x8000 {
        overflow_epoch.wrapping_add(1)
    } else {
        overflow_epoch
    };
    (epoch % 0x1_0000) * 0x1_0000 + capture as u32
}

pub fn qualified_interval_us(
    previous: u32,
    current: u32,
    was_primed: bool,
    was_quiet: bool,
) -> (r: u32)
    ensures
        r == (if was_primed && !was_quiet {
            arith::wrap_u32(current - previous)
        } else {
            0
        }),
{
    if was_primed && !was_quiet {
        current.wrapping_sub(previous)
    } else {
        0
    }
}

/// No distance is lost: whole units and the remainder together account for
/// every pulse.
pub proof fn law_distance_accounts_for_every_pulse(counter: DistanceCounter, pulse_count: u32)
    requires
        counter.distance_remainder_mm < DISTANCE_UNIT_MM,
        arith::wrap_u32(pulse_count - counter.last_pulse_count) * DISTANCE_PER_PULSE_MM
            + counter.distance_remainder_mm <= u32::MAX,
        counter.value < u32::MAX - u32::MAX / DISTANCE_UNIT_MM,
    ensures
        ({
            let after = counter.after(pulse_count);
            &&& after.distance_remainder_mm < DISTANCE_UNIT_MM
            &&& after.value * DISTANCE_UNIT_MM + after.distance_remainder_mm == counter.value
                * DISTANCE_UNIT_MM + counter.distance_remainder_mm + arith::wrap_u32(
                pulse_count - counter.last_pulse_count,
            ) * DISTANCE_PER_PULSE_MM
        }),
{
}

/// An update may only follow an observed quiet wheel: every other capture ends
/// that permission, except one that brings nothing new.
pub proof fn law_only_a_quiet_wheel_permits_an_update(estimator: Estimator, capture: Capture)
    ensures
        capture.quiet ==> estimator.after(capture).state is Quiet,
        estimator.after(capture).state is Quiet && !capture.quiet ==> estimator.after(capture)
            == estimator && capture.pulse_count == estimator.last_pulse_count,
{
}

/// A pulse distance of 312 mm per interval gives the speed in tenths of a
/// kilometre per hour, rounded down, and only a pulse that is new, complete and
/// not impossibly short gives one.
pub proof fn law_new_pulse_gives_the_speed(estimator: Estimator, capture: Capture)
    requires
        !capture.quiet,
        capture.primed,
        capture.capture_overruns == estimator.last_capture_overruns,
        capture.pulse_count != estimator.last_pulse_count,
    ensures
        match estimator.after(capture).state {
            State::Tracking { speed_tenths_kph } => {
                let speed = speed_tenths_kph as int;
                let interval = capture.interval_us as int;
                &&& interval >= 1_000
                &&& speed * interval <= 11_232_000 < (speed + 1) * interval
            },
            State::AwaitingSecondPulse => capture.interval_us == 0,
            State::Implausible => 0 < capture.interval_us < 1_000,
            _ => false,
        },
        estimator.after(capture).last_pulse_count == capture.pulse_count,
{
    let interval = capture.interval_us as int;
    if interval >= 1_000 {
        let speed = 11_232_000int / interval;
        assert(speed * interval <= 11_232_000 < (speed + 1) * interval && 0 <= speed <= 11_232)
            by (nonlinear_arith)
            requires
                speed == 11_232_000int / interval,
                interval >= 1_000,
        ;
    }
}

/// A lost capture makes the wheel implausible, a sensor that is not primed makes
/// it unknown, and a capture that brings nothing new changes nothing: the same
/// capture twice is the same as once.
pub proof fn law_wheel_state_follows_the_capture(estimator: Estimator, capture: Capture)
    requires
        !capture.quiet,
    ensures
        !capture.primed ==> estimator.after(capture).state is Uninitialized,
        capture.primed && capture.capture_overruns != estimator.last_capture_overruns
            ==> estimator.after(capture).state is Implausible,
        capture.primed && capture.capture_overruns == estimator.last_capture_overruns
            && capture.pulse_count == estimator.last_pulse_count ==> estimator.after(capture)
            == estimator,
        estimator.after(capture).after(capture) == estimator.after(capture),
{
}

} // verus!
