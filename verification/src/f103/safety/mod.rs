//! Watchdog supervision and reset forensics.
//!
//! The records here are plain values. The application keeps one [`Forensics`]
//! with its retained part in memory that survives a watchdog reset, and asks
//! [`Watchdog`] when to feed.
use vstd::prelude::*;

use crate::arith;

pub mod checkpoint;
pub mod fatal_reason;
pub mod pwm_failure_cause;
pub mod pwm_pin_flag;
pub mod reset_flag;

verus! {

pub const RCC_RESET_PIN: u32 = 0x0400_0000;

pub const RCC_RESET_POWER: u32 = 0x0800_0000;

pub const RCC_RESET_SOFTWARE: u32 = 0x1000_0000;

pub const RCC_RESET_INDEPENDENT_WATCHDOG: u32 = 0x2000_0000;

pub const RCC_RESET_WINDOW_WATCHDOG: u32 = 0x4000_0000;

pub const RCC_RESET_LOW_POWER: u32 = 0x8000_0000;

pub const RETAINED_MAGIC: u32 = 0x4f58_4652;

/// Bitwise complement of [`RETAINED_MAGIC`].
pub const RETAINED_MAGIC_INVERSE: u32 = 0xb0a7_b9ad;

pub const TIMER_UPDATES_PER_WINDOW_FEED: u32 = 256;

pub const WWDG_COUNTER_MAXIMUM: u32 = 0x7f;

pub const WWDG_RESET_THRESHOLD: u32 = 0x40;

/// First rejected output of a fault episode, packed into four words.
#[derive(Clone, Copy, Debug, Eq, PartialEq)]
pub struct PwmFailureContext {
    pub words: [u32; 4],
}

impl PwmFailureContext {
    /// The record that holds no failure.
    pub fn empty() -> (r: Self)
        ensures
            r.words@ == seq![0u32, 0, 0, 0],
    {
        PwmFailureContext { words: [0, 0, 0, 0] }
    }

    pub fn new(
        cause: u8,
        fault_flags: u8,
        pin_flags: u8,
        timer_status: u16,
        timer_bdtr: u16,
        timer_ccer: u16,
        compares: [u16; 3],
    ) -> (r: Self)
        ensures
            r.words@ == packed(
                cause,
                fault_flags,
                pin_flags,
                timer_status,
                timer_bdtr,
                timer_ccer,
                compares@,
            ),
    {
        PwmFailureContext {
            words: [
                cause as u32 + fault_flags as u32 * 0x100 + pin_flags as u32 * 0x1_0000,
                timer_status as u32 + timer_bdtr as u32 * 0x1_0000,
                timer_ccer as u32 + compares[0] as u32 * 0x1_0000,
                compares[1] as u32 + compares[2] as u32 * 0x1_0000,
            ],
        }
    }

    pub fn cause(self) -> (r: u8)
        ensures
            r == self.words[0] as int % 0x100,
    {
        (self.words[0] % 0x100) as u8
    }

    pub fn words(self) -> (r: [u32; 4])
        ensures
            r == self.words,
    {
        self.words
    }

    /// The packed fields.
    pub fn decoded(self) -> (r: (u8, u8, u8, u16, u16, u16, [u16; 3]))
        ensures
            (r.0, r.1, r.2, r.3, r.4, r.5, r.6@) == unpacked(self.words@),
    {
        let words = self.words;
        (
            (words[0] % 0x100) as u8,
            (words[0] / 0x100 % 0x100) as u8,
            (words[0] / 0x1_0000 % 0x100) as u8,
            (words[1] % 0x1_0000) as u16,
            (words[1] / 0x1_0000) as u16,
            (words[2] % 0x1_0000) as u16,
            [
                (words[2] / 0x1_0000) as u16,
                (words[3] % 0x1_0000) as u16,
                (words[3] / 0x1_0000) as u16,
            ],
        )
    }
}

impl Default for PwmFailureContext {
    fn default() -> (r: Self)
        ensures
            r.words@ == seq![0u32, 0, 0, 0],
    {
        PwmFailureContext::empty()
    }
}

/// Words of a failure record.
pub open spec fn packed(
    cause: u8,
    fault_flags: u8,
    pin_flags: u8,
    timer_status: u16,
    timer_bdtr: u16,
    timer_ccer: u16,
    compares: Seq<u16>,
) -> Seq<u32> {
    seq![
        (cause + fault_flags * 0x100 + pin_flags * 0x1_0000) as u32,
        (timer_status + timer_bdtr * 0x1_0000) as u32,
        (timer_ccer + compares[0] * 0x1_0000) as u32,
        (compares[1] + compares[2] * 0x1_0000) as u32,
    ]
}

/// Fields of a failure record.
pub open spec fn unpacked(words: Seq<u32>) -> (u8, u8, u8, u16, u16, u16, Seq<u16>) {
    (
        (words[0] % 0x100) as u8,
        (words[0] / 0x100 % 0x100) as u8,
        (words[0] / 0x1_0000 % 0x100) as u8,
        (words[1] % 0x1_0000) as u16,
        (words[1] / 0x1_0000) as u16,
        (words[2] % 0x1_0000) as u16,
        seq![
            (words[2] / 0x1_0000) as u16,
            (words[3] % 0x1_0000) as u16,
            (words[3] / 0x1_0000) as u16,
        ],
    )
}

#[derive(Clone, Copy, Debug, Eq, PartialEq)]
pub struct BootDiagnostics {
    pub reset_flags: u8,
    pub retained_context_valid: bool,
    pub fatal_reason: u8,
    pub checkpoint: u8,
    pub detail: i16,
    pub control_cycle: u32,
    pub last_control_cycles: u32,
    pub maximum_control_cycles: u32,
    pub program_counter: u32,
    pub link_register: u32,
    pub pwm_failure: PwmFailureContext,
}

impl BootDiagnostics {
    /// Only the reset causes are known.
    pub open spec fn knows_only(self, reset_flags: u8) -> bool {
        &&& self.reset_flags == reset_flags
        &&& !self.retained_context_valid
        &&& self.fatal_reason == fatal_reason::NONE
        &&& self.checkpoint == checkpoint::IDLE
        &&& self.detail == 0
        &&& self.control_cycle == 0
        &&& self.last_control_cycles == 0
        &&& self.maximum_control_cycles == 0
        &&& self.program_counter == 0
        &&& self.link_register == 0
        &&& self.pwm_failure.words@ == seq![0u32, 0, 0, 0]
    }
}

impl Default for BootDiagnostics {
    fn default() -> (r: Self)
        ensures
            r.knows_only(0),
    {
        BootDiagnostics {
            reset_flags: 0,
            retained_context_valid: false,
            fatal_reason: fatal_reason::NONE,
            checkpoint: checkpoint::IDLE,
            detail: 0,
            control_cycle: 0,
            last_control_cycles: 0,
            maximum_control_cycles: 0,
            program_counter: 0,
            link_register: 0,
            pwm_failure: PwmFailureContext::empty(),
        }
    }
}

/// Record that survives a watchdog reset. Its two-word signature tells a record
/// from arbitrary memory.
#[derive(Clone, Copy, Debug, Eq, PartialEq)]
pub struct RetainedContext {
    pub magic: u32,
    pub magic_inverse: u32,
    pub fatal_reason: u32,
    pub checkpoint: u32,
    pub detail: i32,
    pub control_cycle: u32,
    pub last_control_cycles: u32,
    pub maximum_control_cycles: u32,
    pub program_counter: u32,
    pub link_register: u32,
    pub pwm_failure: PwmFailureContext,
}

impl RetainedContext {
    pub open spec fn is_signed(self) -> bool {
        self.magic == RETAINED_MAGIC && self.magic_inverse == RETAINED_MAGIC_INVERSE
    }

    /// A signed record of a boot in which nothing has happened yet.
    pub open spec fn is_fresh(self) -> bool {
        &&& self.is_signed()
        &&& self.fatal_reason == fatal_reason::NONE
        &&& self.checkpoint == checkpoint::IDLE
        &&& self.detail == 0
        &&& self.control_cycle == 0
        &&& self.last_control_cycles == 0
        &&& self.maximum_control_cycles == 0
        &&& self.program_counter == 0
        &&& self.link_register == 0
        &&& self.pwm_failure.words@ == seq![0u32, 0, 0, 0]
    }

    pub fn active() -> (r: Self)
        ensures
            r.is_fresh(),
    {
        RetainedContext {
            magic: RETAINED_MAGIC,
            magic_inverse: RETAINED_MAGIC_INVERSE,
            fatal_reason: fatal_reason::NONE as u32,
            checkpoint: checkpoint::IDLE as u32,
            detail: 0,
            control_cycle: 0,
            last_control_cycles: 0,
            maximum_control_cycles: 0,
            program_counter: 0,
            link_register: 0,
            pwm_failure: PwmFailureContext::empty(),
        }
    }

    pub fn is_valid(self) -> (r: bool)
        ensures
            r == self.is_signed(),
    {
        self.magic == RETAINED_MAGIC && self.magic_inverse == RETAINED_MAGIC_INVERSE
    }
}

/// The RCC's six reset causes occupy its topmost bits in the report's order.
pub fn compact_reset_flags(raw: u32) -> (r: u8)
    ensures
        r == raw as int / RCC_RESET_PIN as int,
{
    (raw / RCC_RESET_PIN) as u8
}

pub fn pwm_failure_slot_is_empty(header: u32) -> (r: bool)
    ensures
        r == (header as int % 0x100 == pwm_failure_cause::NONE),
{
    (header % 0x100) as u8 == pwm_failure_cause::NONE
}

/// The control interrupt made progress: its cycles advance together with
/// injected samples, or alone while a fault holds the outputs safely off.
pub fn watchdog_progressed(
    previous_control_cycles: u32,
    control_cycles: u32,
    previous_injected_samples: u32,
    injected_samples: u32,
    latched_safe_off: bool,
) -> (r: bool)
    ensures
        r == (control_cycles != previous_control_cycles && (injected_samples
            != previous_injected_samples || latched_safe_off)),
{
    control_cycles != previous_control_cycles && (injected_samples != previous_injected_samples
        || latched_safe_off)
}

/// A fault is latched, the outputs are reported off and their channels are
/// verified off.
pub fn latched_safe_off(
    fault_flags: u32,
    output_active: bool,
    motor_outputs_disabled: bool,
) -> (r: bool)
    ensures
        r == (fault_flags != 0 && !output_active && motor_outputs_disabled),
{
    fault_flags != 0 && !output_active && motor_outputs_disabled
}

/// The reset came from one of the watchdogs.
pub open spec fn by_watchdog(raw_reset_flags: int) -> bool {
    raw_reset_flags / (RCC_RESET_INDEPENDENT_WATCHDOG as int) % 4 != 0
}

/// What the retained record says about a watchdog reset; any other reset, and
/// an unsigned record, says nothing beyond the reset causes.
pub fn boot_diagnostics(raw_reset_flags: u32, retained: RetainedContext) -> (r: BootDiagnostics)
    ensures
        by_watchdog(raw_reset_flags as int) && retained.is_signed() ==> r == (BootDiagnostics {
            reset_flags: (raw_reset_flags / RCC_RESET_PIN) as u8,
            retained_context_valid: true,
            fatal_reason: arith::wrap_u8(retained.fatal_reason as int) as u8,
            checkpoint: arith::wrap_u8(retained.checkpoint as int) as u8,
            detail: arith::sat_i16(retained.detail as int) as i16,
            control_cycle: retained.control_cycle,
            last_control_cycles: retained.last_control_cycles,
            maximum_control_cycles: retained.maximum_control_cycles,
            program_counter: retained.program_counter,
            link_register: retained.link_register,
            pwm_failure: retained.pwm_failure,
        }),
        !(by_watchdog(raw_reset_flags as int) && retained.is_signed()) ==> r.knows_only(
            (raw_reset_flags / RCC_RESET_PIN) as u8,
        ),
{
    let reset_flags: u8 = compact_reset_flags(raw_reset_flags);
    let watchdog_reset: bool = reset_flags / reset_flag::INDEPENDENT_WATCHDOG % 4 != 0;
    if watchdog_reset && retained.is_valid() {
        BootDiagnostics {
            reset_flags,
            retained_context_valid: true,
            fatal_reason: (retained.fatal_reason % 0x100) as u8,
            checkpoint: (retained.checkpoint % 0x100) as u8,
            detail: arith::sat_i32_to_i16(retained.detail),
            control_cycle: retained.control_cycle,
            last_control_cycles: retained.last_control_cycles,
            maximum_control_cycles: retained.maximum_control_cycles,
            program_counter: retained.program_counter,
            link_register: retained.link_register,
            pwm_failure: retained.pwm_failure,
        }
    } else {
        let mut diagnostics = BootDiagnostics::default();
        diagnostics.reset_flags = reset_flags;
        diagnostics
    }
}

/// Reset forensics of one boot: the record being retained, what the previous
/// boot left behind, and the latest rejected output of either.
#[derive(Clone, Copy, Debug, Eq, PartialEq)]
pub struct Forensics {
    pub retained: RetainedContext,
    pub boot: BootDiagnostics,
    pub latest_pwm_failure: PwmFailureContext,
}

/// Takes over the record of the previous boot and starts a fresh one.
pub fn capture_boot_diagnostics(raw_reset_flags: u32, retained: RetainedContext) -> (r: Forensics)
    ensures
        r.retained.is_fresh(),
        r.latest_pwm_failure == r.boot.pwm_failure,
        r.boot.reset_flags == raw_reset_flags / RCC_RESET_PIN,
        r.boot.retained_context_valid == (by_watchdog(raw_reset_flags as int)
            && retained.is_signed()),
        r.boot.retained_context_valid ==> r.boot == (BootDiagnostics {
            reset_flags: (raw_reset_flags / RCC_RESET_PIN) as u8,
            retained_context_valid: true,
            fatal_reason: arith::wrap_u8(retained.fatal_reason as int) as u8,
            checkpoint: arith::wrap_u8(retained.checkpoint as int) as u8,
            detail: arith::sat_i16(retained.detail as int) as i16,
            control_cycle: retained.control_cycle,
            last_control_cycles: retained.last_control_cycles,
            maximum_control_cycles: retained.maximum_control_cycles,
            program_counter: retained.program_counter,
            link_register: retained.link_register,
            pwm_failure: retained.pwm_failure,
        }),
        !r.boot.retained_context_valid ==> r.boot.knows_only(
            (raw_reset_flags / RCC_RESET_PIN) as u8,
        ),
{
    let boot = boot_diagnostics(raw_reset_flags, retained);
    Forensics {
        retained: RetainedContext::active(),
        boot,
        latest_pwm_failure: boot.pwm_failure,
    }
}

pub fn boot_diagnostics_snapshot(forensics: &Forensics) -> (r: BootDiagnostics)
    ensures
        r == forensics.boot,
{
    forensics.boot
}

pub fn latest_pwm_failure_snapshot(forensics: &Forensics) -> (r: PwmFailureContext)
    ensures
        r == forensics.latest_pwm_failure,
{
    forensics.latest_pwm_failure
}

impl Forensics {
    /// The records after a progress mark.
    pub open spec fn marked(self, mark: u8) -> Self {
        Forensics {
            retained: RetainedContext { checkpoint: mark as u32, ..self.retained },
            ..self
        }
    }

    /// The records after a control cycle was entered.
    pub open spec fn cycle_entered(self, control_cycle: u32) -> Self {
        Forensics {
            retained: RetainedContext {
                control_cycle,
                checkpoint: checkpoint::ENTERED as u32,
                ..self.retained
            },
            ..self
        }
    }

    /// The records after a control cycle was timed.
    pub open spec fn cycle_timed(self, last: u32, maximum: u32) -> Self {
        Forensics {
            retained: RetainedContext {
                last_control_cycles: last,
                maximum_control_cycles: maximum,
                checkpoint: checkpoint::COMPLETE as u32,
                ..self.retained
            },
            ..self
        }
    }

    /// The records after a safety loss.
    pub open spec fn loss_noted(self, reason: u8) -> Self {
        Forensics {
            retained: RetainedContext { detail: reason as i32, ..self.retained },
            ..self
        }
    }

    /// The records after a rejected output: the first one of an episode stays.
    pub open spec fn pwm_failure_noted(self, context: PwmFailureContext) -> Self {
        if self.retained.pwm_failure.words[0] as int % 0x100 != pwm_failure_cause::NONE {
            self
        } else {
            Forensics {
                retained: RetainedContext { pwm_failure: context, ..self.retained },
                latest_pwm_failure: context,
                ..self
            }
        }
    }
}

pub fn record_control_cycle(forensics: &mut Forensics, control_cycle: u32)
    ensures
        *final(forensics) == old(forensics).cycle_entered(control_cycle),
{
    forensics.retained.control_cycle = control_cycle;
    forensics.retained.checkpoint = checkpoint::ENTERED as u32;
}

pub fn record_control_checkpoint(forensics: &mut Forensics, value: u8)
    ensures
        *final(forensics) == old(forensics).marked(value),
{
    forensics.retained.checkpoint = value as u32;
}

pub fn record_control_timing(forensics: &mut Forensics, last: u32, maximum: u32)
    ensures
        *final(forensics) == old(forensics).cycle_timed(last, maximum),
{
    forensics.retained.last_control_cycles = last;
    forensics.retained.maximum_control_cycles = maximum;
    forensics.retained.checkpoint = checkpoint::COMPLETE as u32;
}

/// When no exception supersedes it, the detail describes the final control
/// safety-loss reason.
pub fn record_safety_loss(forensics: &mut Forensics, reason: u8)
    ensures
        *final(forensics) == old(forensics).loss_noted(reason),
{
    forensics.retained.detail = reason as i32;
}

/// Keeps the first rejected output of the current fault episode.
pub fn record_pwm_failure(forensics: &mut Forensics, context: PwmFailureContext)
    ensures
        *final(forensics) == old(forensics).pwm_failure_noted(context),
{
    if !pwm_failure_slot_is_empty(forensics.retained.pwm_failure.words[0]) {
        return;
    }
    forensics.retained.pwm_failure = context;
    forensics.latest_pwm_failure = context;
}

/// Between the two records lies the start of a new fault episode: the current
/// failure is gone, and nothing else has changed.
pub open spec fn episode_starts(before: Forensics, after: Forensics) -> bool {
    &&& after.retained.pwm_failure.words@ == seq![0u32, 0, 0, 0]
    &&& after == Forensics {
        retained: RetainedContext {
            pwm_failure: after.retained.pwm_failure,
            ..before.retained
        },
        ..before
    }
}

/// Starts a new fault episode; the latest failure stays available.
pub fn clear_current_pwm_failure(forensics: &mut Forensics)
    ensures
        episode_starts(*old(forensics), *final(forensics)),
{
    forensics.retained.pwm_failure = PwmFailureContext::empty();
}

pub fn record_fatal(
    forensics: &mut Forensics,
    reason: u8,
    detail: i16,
    program_counter: u32,
    link_register: u32,
)
    ensures
        *final(forensics) == (Forensics {
            retained: RetainedContext {
                fatal_reason: reason as u32,
                detail: detail as i32,
                program_counter,
                link_register,
                ..old(forensics).retained
            },
            ..*old(forensics)
        }),
{
    forensics.retained.fatal_reason = reason as u32;
    forensics.retained.detail = detail as i32;
    forensics.retained.program_counter = program_counter;
    forensics.retained.link_register = link_register;
}

/// Feeding state of both watchdogs. The window watchdog is fed by the control
/// timer, the independent one by the foreground.
#[derive(Clone, Copy, Debug, Default, Eq, PartialEq, Structural)]
pub struct Watchdog {
    pub started: bool,
    pub timer_updates_since_feed: u32,
}

impl Watchdog {
    /// A timer update is the one that feeds the window watchdog.
    pub open spec fn window_is_due(self) -> bool {
        self.started && arith::wrap_u32(self.timer_updates_since_feed + 1)
            >= TIMER_UPDATES_PER_WINDOW_FEED
    }
}

/// Marks both watchdogs as running.
pub fn start(watchdog: &mut Watchdog)
    ensures
        *final(watchdog) == (Watchdog { started: true, timer_updates_since_feed: 0 }),
{
    watchdog.timer_updates_since_feed = 0;
    watchdog.started = true;
}

/// Records a timer update; tells whether the window watchdog is to be fed.
pub fn timer_update_entered(watchdog: &mut Watchdog) -> (r: bool)
    ensures
        r == old(watchdog).window_is_due(),
        *final(watchdog) == (if !old(watchdog).started {
            *old(watchdog)
        } else {
            Watchdog {
                timer_updates_since_feed: (if r {
                    0
                } else {
                    arith::wrap_u32(old(watchdog).timer_updates_since_feed + 1)
                }) as u32,
                ..*old(watchdog)
            }
        }),
{
    if !watchdog.started {
        return false;
    }
    let updates: u32 = watchdog.timer_updates_since_feed.wrapping_add(1);
    watchdog.timer_updates_since_feed = updates;
    if updates >= TIMER_UPDATES_PER_WINDOW_FEED {
        watchdog.timer_updates_since_feed = 0;
        return true;
    }
    false
}

/// The foreground may feed the independent watchdog once it runs.
pub fn feed_main_loop(watchdog: &Watchdog) -> (r: bool)
    ensures
        r == watchdog.started,
{
    watchdog.started
}

/// The window watchdog accepts a refresh at this counter: below the top of its
/// window and not yet at the reset threshold.
pub fn window_refresh_is_legal(counter: u32) -> (r: bool)
    ensures
        r == (WWDG_RESET_THRESHOLD <= counter < WWDG_COUNTER_MAXIMUM),
{
    WWDG_RESET_THRESHOLD <= counter && counter < WWDG_COUNTER_MAXIMUM
}

/// No field of a rejected output is lost in its packed form.
pub proof fn law_pwm_failure_record_is_lossless(
    cause: u8,
    fault_flags: u8,
    pin_flags: u8,
    timer_status: u16,
    timer_bdtr: u16,
    timer_ccer: u16,
    compares: Seq<u16>,
)
    requires
        compares.len() == 3,
    ensures
        unpacked(
            packed(
                cause,
                fault_flags,
                pin_flags,
                timer_status,
                timer_bdtr,
                timer_ccer,
                compares,
            ),
        ) == (cause, fault_flags, pin_flags, timer_status, timer_bdtr, timer_ccer, compares),
{
    let words = packed(
        cause,
        fault_flags,
        pin_flags,
        timer_status,
        timer_bdtr,
        timer_ccer,
        compares,
    );
    assert(unpacked(words).6 =~= compares);
}

/// Within an episode the first rejected output with a cause wins.
pub proof fn law_first_failure_wins(
    forensics: Forensics,
    first: PwmFailureContext,
    later: PwmFailureContext,
)
    requires
        forensics.retained.pwm_failure.words[0] as int % 0x100 == pwm_failure_cause::NONE,
        first.words[0] as int % 0x100 != pwm_failure_cause::NONE,
    ensures
        forensics.pwm_failure_noted(first).retained.pwm_failure == first,
        forensics.pwm_failure_noted(first).pwm_failure_noted(later)
            == forensics.pwm_failure_noted(first),
{
}

/// A fresh record is signed, and recording progress keeps it so.
pub proof fn law_recording_keeps_the_signature(
    forensics: Forensics,
    mark: u8,
    cycle: u32,
    last: u32,
    maximum: u32,
    context: PwmFailureContext,
)
    requires
        forensics.retained.is_signed(),
    ensures
        forensics.marked(mark).retained.is_signed(),
        forensics.cycle_entered(cycle).retained.is_signed(),
        forensics.cycle_timed(last, maximum).retained.is_signed(),
        forensics.loss_noted(mark).retained.is_signed(),
        forensics.pwm_failure_noted(context).retained.is_signed(),
{
}

/// A record holds what was noted last, each kind in its own field, and nothing
/// but the noted fields changes.
pub proof fn law_records_hold_what_was_noted(
    forensics: Forensics,
    mark: u8,
    cycle: u32,
    last: u32,
    maximum: u32,
)
    ensures
        forensics.marked(mark).retained.checkpoint == mark,
        forensics.cycle_entered(cycle).retained.control_cycle == cycle,
        forensics.cycle_timed(last, maximum).retained.last_control_cycles == last,
        forensics.cycle_timed(last, maximum).retained.maximum_control_cycles == maximum,
        forensics.loss_noted(mark).retained.detail == mark,
        forensics.cycle_entered(cycle).cycle_timed(last, maximum).retained.control_cycle == cycle,
        forensics.cycle_timed(last, maximum).loss_noted(mark).retained.last_control_cycles == last,
        forensics.marked(mark).retained.pwm_failure == forensics.retained.pwm_failure,
        forensics.cycle_entered(cycle).boot == forensics.boot,
        forensics.loss_noted(mark).latest_pwm_failure == forensics.latest_pwm_failure,
{
}

/// A rejected output of a new episode becomes the latest failure; the episode
/// before it stays readable until then.
pub proof fn law_latest_failure_survives_the_episode(
    forensics: Forensics,
    rearmed: Forensics,
    context: PwmFailureContext,
)
    requires
        episode_starts(forensics, rearmed),
    ensures
        rearmed.latest_pwm_failure == forensics.latest_pwm_failure,
        rearmed.pwm_failure_noted(context).latest_pwm_failure == context,
        rearmed.pwm_failure_noted(context).retained.pwm_failure == context,
        rearmed.retained.is_signed() == forensics.retained.is_signed(),
{
    assert(rearmed.retained.pwm_failure.words[0] == rearmed.retained.pwm_failure.words@[0]);
}

/// Only the two watchdog causes make a reset a watchdog's; power, pin, software
/// and low-power causes alone do not.
pub proof fn law_watchdog_reset_needs_a_watchdog_cause(raw_reset_flags: u32)
    ensures
        by_watchdog(raw_reset_flags as int) <==> !(raw_reset_flags % 0x8000_0000 < 0x2000_0000),
{
}

/// A running window watchdog is fed by every 256th timer update.
pub proof fn law_window_is_fed_every_256_updates(watchdog: Watchdog)
    requires
        watchdog.timer_updates_since_feed < 256,
    ensures
        watchdog.window_is_due() <==> watchdog.started && watchdog.timer_updates_since_feed == 255,
{
}

} // verus!
