//! Watchdogs and reset forensics.
use oxifoc::f103::safety::{
    boot_diagnostics, checkpoint, compact_reset_flags, fatal_reason, pwm_failure_slot_is_empty,
    watchdog_progressed, PwmFailureContext, RetainedContext, RCC_RESET_INDEPENDENT_WATCHDOG,
    RCC_RESET_LOW_POWER, RCC_RESET_PIN, RCC_RESET_POWER, RCC_RESET_SOFTWARE,
    RCC_RESET_WINDOW_WATCHDOG, RETAINED_MAGIC,
};

#[test]
fn reset_flags_are_compacted_without_losing_a_cause() {
    assert_eq!(
        compact_reset_flags(
            RCC_RESET_PIN
                | RCC_RESET_POWER
                | RCC_RESET_SOFTWARE
                | RCC_RESET_INDEPENDENT_WATCHDOG
                | RCC_RESET_WINDOW_WATCHDOG
                | RCC_RESET_LOW_POWER
        ),
        0x3f
    );
}

#[test]
fn pwm_failure_context_has_a_lossless_four_word_retained_form() {
    let context =
        PwmFailureContext::new(6, 0x0b, 3, 0x0081, 0x9d19, 0x1ddd, [22, 1_125, 2_228]);
    assert_eq!(
        context.decoded(),
        (6, 0x0b, 3, 0x0081, 0x9d19, 0x1ddd, [22, 1_125, 2_228])
    );
    assert_eq!(core::mem::size_of::<RetainedContext>(), 56);
}

#[test]
fn pwm_failure_capture_is_first_failure_wins_until_rearmed() {
    assert!(pwm_failure_slot_is_empty(
        PwmFailureContext::empty().words()[0]
    ));
    assert!(!pwm_failure_slot_is_empty(
        PwmFailureContext::new(2, 1, 5, 0, 0, 0, [0; 3]).words()[0]
    ));
}

#[test]
fn a_latched_safe_off_fault_keeps_the_watchdog_alive_without_adc_progress() {
    assert!(watchdog_progressed(100, 101, 200, 201, false));
    assert!(!watchdog_progressed(100, 101, 200, 200, false));
    assert!(watchdog_progressed(100, 101, 200, 200, true));
    assert!(!watchdog_progressed(100, 100, 200, 201, true));
}

#[test]
fn valid_context_is_reported_only_after_a_watchdog_reset() {
    let retained = RetainedContext {
        fatal_reason: u32::from(fatal_reason::HARD_FAULT),
        checkpoint: u32::from(checkpoint::DRIVER_COMPLETE),
        detail: -3,
        control_cycle: 0x1234_5678,
        last_control_cycles: 4_321,
        maximum_control_cycles: 4_498,
        program_counter: 0x0800_9abc,
        link_register: 0xffff_fff9,
        pwm_failure: PwmFailureContext::new(
            6,
            1,
            3,
            0x0081,
            0x9d19,
            0x1ddd,
            [22, 1_125, 2_228],
        ),
        ..RetainedContext::active()
    };
    let watchdog = boot_diagnostics(RCC_RESET_INDEPENDENT_WATCHDOG, retained);
    assert!(watchdog.retained_context_valid);
    assert_eq!(watchdog.fatal_reason, fatal_reason::HARD_FAULT);
    assert_eq!(watchdog.checkpoint, checkpoint::DRIVER_COMPLETE);
    assert_eq!(watchdog.control_cycle, 0x1234_5678);
    assert_eq!(watchdog.program_counter, 0x0800_9abc);
    assert_eq!(
        watchdog.pwm_failure,
        PwmFailureContext::new(6, 1, 3, 0x0081, 0x9d19, 0x1ddd, [22, 1_125, 2_228],)
    );

    let power = boot_diagnostics(RCC_RESET_POWER, retained);
    assert!(!power.retained_context_valid);
    assert_eq!(power.fatal_reason, fatal_reason::NONE);
    assert_eq!(power.pwm_failure, PwmFailureContext::default());
}

#[test]
fn corrupt_retained_signature_is_never_reported() {
    let retained = RetainedContext {
        magic_inverse: RETAINED_MAGIC,
        fatal_reason: u32::from(fatal_reason::HARD_FAULT),
        ..RetainedContext::active()
    };
    let diagnostics = boot_diagnostics(RCC_RESET_WINDOW_WATCHDOG, retained);
    assert!(!diagnostics.retained_context_valid);
    assert_eq!(diagnostics.program_counter, 0);
}
