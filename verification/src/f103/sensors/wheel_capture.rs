//! TIM3 capture state of the PB4 wheel sensor.
//!
//! The interrupt hands over what the timer's status register says; the state
//! here turns it into pulse counts and qualified intervals.
use vstd::prelude::*;

use super::wheel;
use super::wheel::{extended_capture_timestamp, qualified_interval_us, Capture};
use crate::arith;

verus! {

/// Counter overflows without a pulse after which the wheel counts as quiet.
pub const TIM3_QUIET_OVERFLOWS: u32 = 13;

/// What the timer reports on entry to its interrupt.
#[derive(Clone, Copy, Debug, Eq, PartialEq)]
pub struct TimerEvent {
    pub update_pending: bool,
    /// Captured counter value, if a capture is pending.
    pub capture: Option<u16>,
    /// A capture was lost before it could be read.
    pub overcapture: bool,
}

/// Everything the capture interrupt remembers.
#[derive(Clone, Copy, Debug, Eq, PartialEq, Structural)]
pub struct WheelCapture {
    pub published: Capture,
    pub overflow_epoch: u32,
    pub quiet_overflows: u32,
    pub last_capture_timestamp: u32,
}

impl WheelCapture {
    pub open spec fn idle() -> Self {
        WheelCapture {
            published: Capture {
                primed: false,
                quiet: false,
                interval_us: 0,
                pulse_count: 0,
                capture_overruns: 0,
            },
            overflow_epoch: 0,
            quiet_overflows: 0,
            last_capture_timestamp: 0,
        }
    }

    /// The state with a lost capture counted.
    pub open spec fn overrun_counted(self, overcapture: bool) -> Self {
        WheelCapture {
            published: Capture {
                capture_overruns: arith::wrap_u16(
                    self.published.capture_overruns + arith::bit(overcapture),
                ) as u16,
                ..self.published
            },
            ..self
        }
    }

    /// The state with the overflow epoch advanced.
    pub open spec fn epoch_advanced(self, update_pending: bool) -> Self {
        WheelCapture {
            overflow_epoch: arith::wrap_u32(self.overflow_epoch + arith::bit(update_pending))
                as u32,
            ..self
        }
    }

    /// The state after a pulse: it is counted, and its interval is known when
    /// the wheel was turning before.
    pub open spec fn pulsed(self, capture: u16, update_pending: bool) -> Self {
        let timestamp = wheel::capture_time(
            self.overflow_epoch as int,
            capture as int,
            update_pending,
        );
        WheelCapture {
            published: Capture {
                primed: true,
                quiet: false,
                interval_us: if self.published.primed && !self.published.quiet {
                    arith::wrap_u32(timestamp - self.last_capture_timestamp) as u32
                } else {
                    0
                },
                pulse_count: arith::wrap_u32(self.published.pulse_count + 1) as u32,
                ..self.published
            },
            last_capture_timestamp: timestamp as u32,
            quiet_overflows: arith::bit(update_pending && capture >= 0x8000) as u32,
            ..self
        }
    }

    /// The state after an overflow without a pulse: the wheel turns quiet at
    /// the last overflow of a quiet run.
    pub open spec fn overflowed(self) -> Self {
        let quiet = arith::min(
            arith::sat_u32(self.quiet_overflows + 1),
            TIM3_QUIET_OVERFLOWS as int,
        );
        WheelCapture {
            published: if self.quiet_overflows < TIM3_QUIET_OVERFLOWS && quiet
                == TIM3_QUIET_OVERFLOWS {
                Capture { primed: false, quiet: true, interval_us: 0, ..self.published }
            } else {
                self.published
            },
            quiet_overflows: quiet as u32,
            ..self
        }
    }

    /// The state after an interrupt.
    pub open spec fn after(self, event: TimerEvent) -> Self {
        let counted = self.overrun_counted(event.overcapture);
        let handled = match event.capture {
            Some(capture) => counted.pulsed(capture, event.update_pending),
            None => if event.update_pending {
                counted.overflowed()
            } else {
                counted
            },
        };
        handled.epoch_advanced(event.update_pending)
    }

    pub fn new() -> (r: Self)
        ensures
            r == WheelCapture::idle(),
    {
        WheelCapture {
            published: Capture {
                primed: false,
                quiet: false,
                interval_us: 0,
                pulse_count: 0,
                capture_overruns: 0,
            },
            overflow_epoch: 0,
            quiet_overflows: 0,
            last_capture_timestamp: 0,
        }
    }

    pub fn handle(&mut self, event: TimerEvent)
        ensures
            *final(self) == old(self).after(event),
    {
        if event.overcapture {
            self.published.capture_overruns = self.published.capture_overruns.wrapping_add(1);
        }
        match event.capture {
            Some(capture) => {
                let timestamp: u32 = extended_capture_timestamp(
                    self.overflow_epoch,
                    capture,
                    event.update_pending,
                );
                let interval: u32 = qualified_interval_us(
                    self.last_capture_timestamp,
                    timestamp,
                    self.published.primed,
                    self.published.quiet,
                );
                self.last_capture_timestamp = timestamp;
                self.quiet_overflows = if event.update_pending && capture >= 0x8000 {
                    1
                } else {
                    0
                };
                self.published.primed = true;
                self.published.quiet = false;
                self.published.interval_us = interval;
                self.published.pulse_count = self.published.pulse_count.wrapping_add(1);
            },
            None => {
                if event.update_pending {
                    let previous: u32 = self.quiet_overflows;
                    let next: u32 = previous.saturating_add(1);
                    let quiet: u32 = if next < TIM3_QUIET_OVERFLOWS {
                        next
                    } else {
                        TIM3_QUIET_OVERFLOWS
                    };
                    self.quiet_overflows = quiet;
                    if previous < TIM3_QUIET_OVERFLOWS && quiet == TIM3_QUIET_OVERFLOWS {
                        self.published.primed = false;
                        self.published.quiet = true;
                        self.published.interval_us = 0;
                    }
                }
            },
        }
        if event.update_pending {
            self.overflow_epoch = self.overflow_epoch.wrapping_add(1);
        }
    }
}

/// Coherent copy of what the interrupt published.
pub fn snapshot(capture: &WheelCapture) -> (r: Capture)
    ensures
        r == capture.published,
{
    capture.published
}

/// Every pulse is counted once, and a wheel is never reported both turning and
/// quiet.
pub proof fn law_pulses_are_counted_once(state: WheelCapture, event: TimerEvent)
    requires
        !(state.published.primed && state.published.quiet),
    ensures
        state.after(event).published.pulse_count == arith::wrap_u32(
            state.published.pulse_count + arith::bit(event.capture is Some),
        ),
        !(state.after(event).published.primed && state.after(event).published.quiet),
{
}

/// The interval of a pulse is the time since the pulse before it, in counter
/// ticks, around overflows too: an overflow that is pending beside a capture from
/// the lower half of the range came first, beside one from the upper half later.
pub proof fn law_interval_is_the_time_between_pulses(
    state: WheelCapture,
    first: TimerEvent,
    second: TimerEvent,
)
    requires
        first.capture is Some,
        second.capture is Some,
    ensures
        ({
            let a = first.capture->0;
            let b = second.capture->0;
            let overflows = arith::bit(first.update_pending && a >= 0x8000) + arith::bit(
                second.update_pending && b < 0x8000,
            );
            state.after(first).after(second).published.interval_us == arith::wrap_u32(
                0x1_0000 * overflows + b - a,
            )
        }),
        state.after(first).published.primed,
        !state.after(first).published.quiet,
{
    let a = first.capture->0 as int;
    let b = second.capture->0 as int;
    let between = state.after(first);
    let e = state.overflow_epoch as int;
    let early = arith::bit(first.update_pending && a < 0x8000);
    let late = arith::bit(first.update_pending && a >= 0x8000);
    let next = arith::bit(second.update_pending && b < 0x8000);
    assert(arith::bit(first.update_pending) == early + late);
    lemma_elapsed(e, early, late, next, a, b);
    assert(between.last_capture_timestamp == wheel::capture_time(e, a, first.update_pending));
    assert(between.overflow_epoch == arith::wrap_u32(e + early + late));
}

proof fn lemma_elapsed(epoch: int, early: int, late: int, next: int, a: int, b: int)
    requires
        0 <= epoch <= u32::MAX,
        0 <= early,
        0 <= late,
        early + late <= 1,
        0 <= next <= 1,
        0 <= a < 0x1_0000,
        0 <= b < 0x1_0000,
    ensures
        ({
            let start = arith::wrap_u16(epoch + early) * 0x1_0000 + a;
            let end = arith::wrap_u16(arith::wrap_u32(epoch + early + late) + next) * 0x1_0000 + b;
            &&& arith::wrap_u32(end - start) == arith::wrap_u32(0x1_0000 * (late + next) + b - a)
            &&& 0 <= start <= u32::MAX
            &&& 0 <= end <= u32::MAX
        }),
{
    let x = epoch + early;
    let y = arith::wrap_u32(epoch + early + late) + next;
    let overflows = late + next;
    assert(y == x + overflows || y == x + overflows - 0x1_0000_0000);
    assert(arith::wrap_u16(y) == arith::wrap_u16(x + overflows));
    let turned = arith::wrap_u16(x + overflows) - arith::wrap_u16(x);
    assert(turned == overflows || turned == overflows - 0x1_0000);
}

/// The first pulse after rest has no interval.
pub proof fn law_first_pulse_has_no_interval(state: WheelCapture, event: TimerEvent)
    requires
        event.capture is Some,
        !state.published.primed || state.published.quiet,
    ensures
        state.after(event).published.interval_us == 0,
        state.after(event).published.primed,
{
}

impl WheelCapture {
    /// The state after overflows without a pulse.
    pub open spec fn after_overflows(self, count: nat) -> Self
        decreases count,
    {
        if count == 0 {
            self
        } else {
            self.after_overflows((count - 1) as nat).after(
                TimerEvent { update_pending: true, capture: None, overcapture: false },
            )
        }
    }
}

/// The wheel turns quiet with the thirteenth overflow without a pulse and not
/// before; pulses and lost captures are counted on as before.
pub proof fn law_wheel_turns_quiet(state: WheelCapture, count: nat)
    requires
        state.published.primed,
        !state.published.quiet,
        state.quiet_overflows == 0,
    ensures
        ({
            let after = state.after_overflows(count);
            &&& after.published.quiet <==> count >= 13
            &&& after.published.primed <==> count < 13
            &&& count >= 13 ==> after.published.interval_us == 0
            &&& count < 13 ==> after.published == state.published
            &&& after.published.pulse_count == state.published.pulse_count
            &&& after.published.capture_overruns == state.published.capture_overruns
            &&& after.quiet_overflows == arith::min(count as int, 13)
            &&& after.overflow_epoch == arith::wrap_u32(state.overflow_epoch + count)
        }),
    decreases count,
{
    if count > 0 {
        law_wheel_turns_quiet(state, (count - 1) as nat);
    }
}

/// A lost capture is counted, whatever else the interrupt brings.
pub proof fn law_lost_captures_are_counted(state: WheelCapture, event: TimerEvent)
    ensures
        state.after(event).published.capture_overruns == arith::wrap_u16(
            state.published.capture_overruns + if event.overcapture {
                1int
            } else {
                0
            },
        ),
{
}

} // verus!
