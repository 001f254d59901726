//! Message schedule and bxCAN framing.
use oxifoc::f103::config::hall_geometry;
use oxifoc::f103::control::foc;
use oxifoc::f103::hardware::peripherals::CurrentOffsets;
use oxifoc::f103::protocol::{pwm_failure_telemetry, Frame};
use oxifoc::f103::safety::{
    capture_boot_diagnostics, BootDiagnostics, PwmFailureContext, RetainedContext,
    RCC_RESET_POWER,
};
use oxifoc::f103::sensors::analog;
use oxifoc::f103::transport::can::{
    empty_mailbox, mailbox_words, note_project, react, received_frame, service, service_project,
    take_reset_request, Reaction, Report, Scheduler, CAN_BTR_250K,
};

fn report(boot: BootDiagnostics) -> Report {
    let runtime = foc::start(
        Box::leak(Box::new(hall_geometry())),
        CurrentOffsets { phase_a: 2_048, phase_b: 2_048 },
        5,
        capture_boot_diagnostics(RCC_RESET_POWER, RetainedContext::active()),
    );
    Report {
        vehicle_speed_tenths_kph: 251,
        distance_counter: 7,
        dc_bus_undervoltage: false,
        effective_current_limit: 480,
        derating_reasons: 0,
        ride_stage: 1,
        live_hall_state: 5,
        inputs: analog::Snapshot::default(),
        control: runtime.snapshot(),
        boot,
        latest_pwm_failure: PwmFailureContext::empty(),
    }
}

#[test]
fn frame_survives_the_mailboxes() {
    let frame = Frame::new(0x2f7, 8, [1, 2, 3, 4, 0x85, 0x86, 0x87, 0x88]);
    let words = mailbox_words(frame);
    assert_eq!(words, [0x2f7 << 21, 8, 0x0403_0201, 0x8887_8685]);
    assert_eq!(received_frame(words[0], words[1], words[2], words[3]), Some(frame));
    // Extended and remote frames are not ours.
    assert_eq!(received_frame(words[0] | 4, words[1], words[2], words[3]), None);
    assert_eq!(received_frame(words[0] | 2, words[1], words[2], words[3]), None);
}

#[test]
fn first_empty_mailbox_is_taken() {
    assert_eq!(empty_mailbox(0), None);
    assert_eq!(empty_mailbox(0x1c00_0000), Some(0));
    assert_eq!(empty_mailbox(0x1800_0000), Some(1));
    assert_eq!(empty_mailbox(0x1000_0000), Some(2));
    assert_eq!(CAN_BTR_250K, (2 << 20) | (7 << 16) | 11);
}

#[test]
fn received_frames_are_answered_or_ignored() {
    assert_eq!(react(Frame::new(0x300, 0, [0; 8])), Reaction::Ignore);
    assert!(matches!(react(Frame::new(0x210, 0, [0; 8])), Reaction::Respond(_)));
    let reset = Frame::new(0x67f, 8, [0xaa, 0x55, 0x2a, 0x00, 0x2a, 0, 0, 0]);
    assert_eq!(react(reset), Reaction::RequestReset);
    let other = Frame::new(0x67e, 8, reset.data);
    assert_eq!(react(other), Reaction::Ignore);
}

#[test]
fn reset_request_is_taken_once() {
    let mut requested = true;
    assert!(take_reset_request(&mut requested));
    assert!(!take_reset_request(&mut requested));
}

#[test]
fn service_repeats_every_period() {
    let report = report(BootDiagnostics::default());
    let mut scheduler = Scheduler::new();
    assert!(service(&mut scheduler, 0, &report).is_some());
    assert!(service(&mut scheduler, 49, &report).is_none());
    assert!(service(&mut scheduler, 50, &report).is_some());
    assert_eq!(scheduler.telemetry_slot, 2);
    assert_eq!(scheduler.stock_fault_page, 1);
    // The clock wraps.
    let mut late = Scheduler { next_telemetry_ms: u32::MAX, ..Scheduler::new() };
    assert!(service(&mut late, 3, &report).is_some());
    assert_eq!(late.next_telemetry_ms, 53);
}

#[test]
fn only_a_transmitted_page_moves_the_schedule() {
    let report = report(BootDiagnostics::default());
    let mut scheduler = Scheduler::new();
    assert_eq!(service_project(&scheduler, 3, &report), None);
    let mut pages = Vec::new();
    for _ in 0..19 {
        let frame = service_project(&scheduler, 2, &report).unwrap();
        assert_eq!(frame.id, 0x2f7);
        note_project(&mut scheduler, false);
        assert_eq!(service_project(&scheduler, 2, &report), Some(frame));
        note_project(&mut scheduler, true);
        pages.push(frame.data[0]);
    }
    assert_eq!(&pages[..6], &[8, 9, 6, 10, 11, 12]);
    assert_eq!(scheduler.project_page, 0);
    assert!(pages.contains(&22) && pages.contains(&23));
}

#[test]
fn every_project_page_has_a_place_of_its_own() {
    let pages = [8, 9, 6, 10, 11, 12, 13, 14, 15, 16, 17, 19, 20, 21, 22, 23, 24, 25, 18];
    let boot = BootDiagnostics {
        pwm_failure: PwmFailureContext::new(2, 0, 0, 0, 0, 0, [1, 2, 3]),
        ..BootDiagnostics::default()
    };
    for report in [report(BootDiagnostics::default()), report(boot)] {
        for (place, page) in pages.into_iter().enumerate() {
            assert_eq!(report.project_frame(place as u8).data[0], page);
        }
    }
}

#[test]
fn failure_pages_report_the_latest_failure() {
    let boot = BootDiagnostics {
        pwm_failure: PwmFailureContext::new(2, 0, 0, 0, 0, 0, [1, 2, 3]),
        ..BootDiagnostics::default()
    };
    let latest = PwmFailureContext::new(6, 1, 4, 0x1234, 0x5678, 0x0555, [0x1a1, 0x2b2, 0x3c3]);
    let report = Report { latest_pwm_failure: latest, ..report(boot) };
    assert_eq!(report.project_frame(16), pwm_failure_telemetry(24, latest.words()));
    assert_eq!(report.project_frame(17), pwm_failure_telemetry(25, latest.words()));
    assert_ne!(report.project_frame(16), pwm_failure_telemetry(24, boot.pwm_failure.words()));
}
