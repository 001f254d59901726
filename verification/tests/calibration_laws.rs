//! Calibration sequences, their session and their control cycle.
use oxifoc::calibration::control::{self, CalibrationControl};
use oxifoc::calibration::flux_linkage::{self, FluxLinkageCalibration};
use oxifoc::calibration::hall_calibration::HallCalibration;
use oxifoc::calibration::inductance::{
    self, pulse_inductance_nwb_per_count, scale_pulse_to_target, InductanceCalibration,
};
use oxifoc::calibration::measure::{
    div_round, ramp_i16, ramp_i32, settled, tick_bits_to_uv, tick_mv_q16_to_uv,
};
use oxifoc::calibration::protocol::{challenge, status_frame, Command};
use oxifoc::calibration::resistance::{ResistanceCalibration, Sample, State};
use oxifoc::calibration::session::{
    carry_out, deadline_active, deadline_due, local_ready, status, Conditions, Order, Session,
    StatusRotation, Surroundings,
};
use oxifoc::calibration::types::{Actuation, Failure, Routine};
use oxifoc::f103::hardware::peripherals::{write_pwm_duties, CurrentOffsets};
use oxifoc::f103::safety::{
    capture_boot_diagnostics, record_pwm_failure, PwmFailureContext, RetainedContext,
    RCC_RESET_POWER,
};
use oxifoc::f103::sensors::analog;
use oxifoc::f103::sensors::throttle::Observation;

const OFFSETS: CurrentOffsets = CurrentOffsets { phase_a: 2_048, phase_b: 2_048 };

fn fresh() -> CalibrationControl {
    control::start(
        OFFSETS,
        capture_boot_diagnostics(RCC_RESET_POWER, RetainedContext::active()),
    )
}

/// Direct current, in counts, of a winding behind the applied voltage.
struct Winding {
    current: f64,
    uv_per_count: f64,
}

impl Winding {
    fn readings(&self) -> Option<(u16, u16)> {
        let counts = self.current.round() as i32;
        Some(((2_048 + counts) as u16, (2_048 - counts / 2) as u16))
    }

    fn drive(&mut self, applied_tick_bits: i32, bus_voltage_mv: u32) {
        let microvolts =
            f64::from(applied_tick_bits) / 65_536.0 * f64::from(bus_voltage_mv) * 1_000.0 / 2_250.0;
        let settled = microvolts / self.uv_per_count;
        self.current += (settled - self.current) / 16.0;
    }
}

/// One control cycle against a winding.
fn cycle(control: &mut CalibrationControl, winding: &mut Winding) {
    let Some(sample) = control.begin(winding.readings()) else {
        winding.drive(0, 0);
        return;
    };
    let step = control.command(sample);
    assert!(control.can_observe(&step));
    winding.drive(step.applied_d_tick_bits, step.bus_voltage_mv);
    let Some(duty) = control.observe(step, 5) else {
        return;
    };
    let accepted = write_pwm_duties(&mut control.faults, duty);
    control.finish(accepted);
    control.note_cycle(2_000);
}

#[test]
fn resistance_routine_measures_a_winding() {
    let mut control = fresh();
    control.set_bus_voltage_mv(48_000);
    let mut winding = Winding { current: 0.0, uv_per_count: 4_000.0 };
    assert!(!control.request_inductance());
    assert!(!control.request_flux_linkage());
    assert!(control.request_resistance());
    cycle(&mut control, &mut winding);
    assert!(control.sequence_active());
    let mut cycles = 0;
    while control.sequence_active() {
        cycle(&mut control, &mut winding);
        cycles += 1;
        assert!(cycles < 100_000);
    }
    let snapshot = control.snapshot();
    assert_eq!(snapshot.failure, Failure::NoFailure);
    assert!((3_900..=4_100).contains(&snapshot.effective_uv_per_count));
    assert!(!snapshot.output_active);
    assert!(snapshot.maximum_phase_current_abs < 600);
    assert!(control.request_inductance());
}

#[test]
fn lost_sample_ends_the_routine() {
    let mut control = fresh();
    control.set_bus_voltage_mv(48_000);
    let mut winding = Winding { current: 0.0, uv_per_count: 4_000.0 };
    assert!(control.request_resistance());
    for _ in 0..10 {
        cycle(&mut control, &mut winding);
    }
    assert!(control.sequence_active());
    assert_eq!(control.begin(None), None);
    assert!(!control.sequence_active());
    assert_eq!(control.snapshot().failure, Failure::CurrentSample);
    assert!(!control.snapshot().output_active);
}

#[test]
fn aborted_routine_reports_why() {
    let mut control = fresh();
    control.set_bus_voltage_mv(48_000);
    let mut winding = Winding { current: 0.0, uv_per_count: 4_000.0 };
    assert!(control.request_hall());
    for _ in 0..10 {
        cycle(&mut control, &mut winding);
    }
    control.abort(Failure::Stopped);
    cycle(&mut control, &mut winding);
    assert!(!control.sequence_active());
    assert_eq!(control.snapshot().failure, Failure::Stopped);
}

#[test]
fn overrun_is_counted_and_ends_the_routine() {
    let mut control = fresh();
    control.set_bus_voltage_mv(48_000);
    let mut winding = Winding { current: 0.0, uv_per_count: 4_000.0 };
    assert!(control.request_resistance());
    for _ in 0..10 {
        cycle(&mut control, &mut winding);
    }
    control.note_cycle(4_501);
    assert_eq!(control.snapshot().timing_overruns, 1);
    assert_eq!(control.snapshot().failure, Failure::ControlTiming);
}

#[test]
fn constant_bridge_voltage_cancels_in_the_slope() {
    // A bridge that loses a fixed voltage shows the same slope.
    let mut slopes = Vec::new();
    for loss_ticks in [0, 20] {
        let mut sweep = ResistanceCalibration::new();
        sweep.start();
        while sweep.active() {
            let target = i32::from(sweep.target_counts());
            sweep.tick(Sample {
                measured_d_counts: sweep.target_counts(),
                applied_d_tick_bits: (target * 13_107) + (loss_ticks << 16),
                bus_voltage_mv: 45_000,
            });
        }
        assert_eq!(sweep.state(), State::Complete);
        slopes.push(sweep.result().effective_uv_per_count);
    }
    assert_eq!(slopes[0], slopes[1]);
    // A fifth of a tick per count at twenty millivolts per tick.
    assert!((3_999..=4_000).contains(&slopes[0]));
}

#[test]
fn failed_sweep_asks_for_no_current() {
    let mut sweep = ResistanceCalibration::new();
    sweep.start();
    assert!(sweep.active());
    sweep.fail(Failure::LocalInterlock);
    assert_eq!(sweep.state(), State::Failed);
    assert_eq!(sweep.failure(), Failure::LocalInterlock);
    assert_eq!(sweep.target_counts(), 0);
}

#[test]
fn pulse_equation_recovers_the_inductance() {
    // Ten ticks at 45 V drive a twenty-count rise in one period against no
    // resistance: L = V * T / di.
    let inductance = pulse_inductance_nwb_per_count(1, 10 << 16, 45_000, 0, 0, 20).unwrap();
    let expected = 10 * 45_000_000 / 2_250 / 16 / 20;
    assert!((i64::from(inductance) - expected).abs() <= 1);
    assert_eq!(pulse_inductance_nwb_per_count(1, 10 << 16, 45_000, 0, 0, 0), None);
    let step = scale_pulse_to_target(10 << 16, 10, 100 << 16);
    assert!((1 << 16) <= step && step <= (100 << 16));
}

#[test]
fn inductance_needs_a_resistance() {
    let mut sequence = InductanceCalibration::new();
    sequence.start(0);
    assert!(!sequence.active());
    assert_eq!(sequence.failure(), Failure::MissingPrerequisite);
    assert_eq!(sequence.actuation(), Actuation::Off);
    sequence.start(4_000);
    assert!(sequence.active());
    sequence.fail(Failure::Stopped);
    assert_eq!(sequence.actuation(), Actuation::Off);
}

#[test]
fn flux_needs_resistance_and_inductance() {
    let mut sequence = FluxLinkageCalibration::new();
    sequence.start(4_000, 0, 50_000);
    assert_eq!(sequence.failure(), Failure::MissingPrerequisite);
    sequence.start(4_000, 40_000, 50_000);
    assert!(sequence.active());
    let mut cycles = 0;
    while sequence.active() {
        sequence.observe(flux_linkage::Observation {
            measured_d_counts: 0,
            measured_q_counts: 0,
            applied_d_tick_bits: 0,
            applied_q_tick_bits: 0,
            bus_voltage_mv: 48_000,
        });
        cycles += 1;
        assert!(cycles < 400_000);
    }
    // A motor without a back-EMF does not respond.
    assert_ne!(sequence.failure(), Failure::NoFailure);
    assert_eq!(sequence.actuation(), Actuation::Off);
}

#[test]
fn hall_sweep_fails_without_every_state() {
    let mut sequence = HallCalibration::new();
    sequence.start();
    let mut cycles = 0;
    while sequence.active() {
        sequence.observe(5);
        cycles += 1;
        assert!(cycles < 400_000);
    }
    assert_eq!(sequence.failure(), Failure::HallStates);
    assert_eq!(sequence.actuation(), Actuation::Off);
}

/// A whole run against a rotor that follows the field; says how often each
/// state was shown.
fn sweep(disturbance: Option<(u32, u8)>) -> (HallCalibration, [u32; 8]) {
    let raw_by_sector = [1_u8, 3, 2, 6, 4, 5];
    let mut sequence = HallCalibration::new();
    sequence.start();
    let mut cycles = 0;
    let mut shown = [0; 8];
    while sequence.active() {
        let sector = ((u64::from(sequence.angle) * 6) >> 32) as usize;
        let raw = match disturbance {
            Some((at, raw)) if at == cycles => raw,
            _ => raw_by_sector[sector],
        };
        shown[usize::from(raw)] += 1;
        sequence.observe(raw);
        cycles += 1;
        assert!(cycles < 400_000);
    }
    (sequence, shown)
}

#[test]
fn completed_hall_sweep_saw_every_legal_state() {
    let (sequence, shown) = sweep(None);
    assert_eq!(sequence.failure(), Failure::NoFailure);
    assert_eq!(sequence.counts[0], 0);
    assert_eq!(sequence.counts[7], 0);
    for raw in 1..7 {
        assert!((354..=366).contains(&sequence.counts[raw]));
        assert!(shown[raw] >= 354 * 80);
    }
    assert_eq!(sequence.counts.iter().sum::<u16>(), 6 * 360);
    let result = sequence.result();
    assert_eq!(result.valid_mask, 0x7e);
    assert_eq!(result.minimum_samples, 255);
    assert!(result.centers_q16[1].abs_diff(5_461) < 200);
}

#[test]
fn recorded_illegal_hall_state_fails_the_sweep() {
    // The first step of the sweep is recorded in its eightieth cycle.
    let (sequence, _) = sweep(Some((16_000 + 3_200 + 79, 7)));
    assert_eq!(sequence.counts[7], 1);
    assert_eq!(sequence.failure(), Failure::HallStates);
    assert_eq!(sequence.result().valid_mask, 0);
    // Between steps nothing is recorded.
    let (sequence, shown) = sweep(Some((16_000 + 3_200 + 40, 7)));
    assert_eq!(shown[7], 1);
    assert_eq!(sequence.failure(), Failure::NoFailure);
}

#[test]
fn stop_acknowledges_faults_with_the_break_input_inactive() {
    let mut session = Session::new(OFFSETS, 77);
    let mut control = fresh();
    control.faults.control_timing = true;
    let failure = PwmFailureContext::new(3, 0, 0, 0, 0, 0, [0, 0, 0]);
    record_pwm_failure(&mut control.forensics, failure);
    let order = session.handle(Command::Stop, &ready(0));
    assert!(order.acknowledge_faults && !order.abort);

    assert!(!carry_out(&order, &mut control, true));
    assert!(control.faults.any());
    assert_eq!(control.forensics.retained.pwm_failure, failure);

    assert!(carry_out(&order, &mut control, false));
    assert!(!control.faults.any());
    assert_eq!(control.forensics.retained.pwm_failure, PwmFailureContext::empty());
    assert_eq!(control.forensics.latest_pwm_failure, failure);
}

#[test]
fn measure_formulas_have_their_exact_values() {
    assert_eq!(div_round(7, 2), 4);
    assert_eq!(div_round(-7, 2), -4);
    assert_eq!(div_round(5, 3), 2);
    assert!(settled(100, 100));
    assert!(!settled(-100, 100));
    assert_eq!(ramp_i32(0, 100, 5, 10), 50);
    assert_eq!(ramp_i16(100, 0, 20, 10), 0);
    assert_eq!(tick_bits_to_uv(1 << 16, 45_000), 20_000);
    assert_eq!(tick_mv_q16_to_uv(45_000 << 16), 20_000);
    assert_ne!(challenge(2_048, 2_048, 1), challenge(2_048, 2_048, 2));
}

fn ready(now_ms: u32) -> Conditions {
    Conditions {
        now_ms,
        local_ready: true,
        active: false,
        faulted: false,
        motor_outputs_disabled: true,
        hall_quiet: true,
    }
}

#[test]
fn run_needs_a_fresh_arming() {
    let mut session = Session::new(OFFSETS, 77);
    let challenge = session.challenge;
    assert!(!session.armed);
    let order = session.handle(Command::RunHall { challenge }, &ready(0));
    assert_eq!(order.run, Routine::NoRoutine);

    session.handle(Command::Arm { challenge: challenge.wrapping_add(1) }, &ready(0));
    assert!(!session.armed);
    session.handle(Command::Arm { challenge }, &ready(0));
    assert!(session.armed);
    let order = session.handle(Command::RunHall { challenge }, &ready(100));
    assert_eq!(order.run, Routine::Hall);
    assert!(!session.armed);

    let mut control = fresh();
    assert!(!carry_out(&order, &mut control, false));
    assert_eq!(control.requested_routine, Routine::Hall);
}

#[test]
fn arming_lasts_for_its_window() {
    let mut session = Session::new(OFFSETS, 77);
    let challenge = session.challenge;
    session.handle(Command::Arm { challenge }, &ready(0));
    assert!(!session.refresh(9_999, false, true));
    assert!(session.armed);
    session.refresh(10_000, false, true);
    assert!(!session.armed);
    assert!(deadline_active(5, 6));
    assert!(deadline_due(6, 6));
    assert!(deadline_due(2, u32::MAX));
}

#[test]
fn stop_is_unconditional() {
    let mut session = Session::new(OFFSETS, 77);
    let challenge = session.challenge;
    session.handle(Command::Arm { challenge }, &ready(0));
    let unready = Conditions {
        local_ready: false,
        active: true,
        motor_outputs_disabled: false,
        hall_quiet: false,
        ..ready(5)
    };
    let order = session.handle(Command::Stop, &unready);
    assert_eq!(
        order,
        Order { abort: true, acknowledge_faults: false, run: Routine::NoRoutine }
    );
    assert!(!session.armed);
    assert!(session.refresh(5, true, false));
}

#[test]
fn local_conditions_are_all_needed() {
    let inputs = analog::Snapshot {
        analog_valid: true,
        brake_active: false,
        throttle: Observation::from_raw(726),
        ..analog::Snapshot::default()
    };
    assert!(local_ready(true, &inputs, Some(392), 0, 48_000));
    assert!(!local_ready(false, &inputs, Some(392), 0, 48_000));
    assert!(!local_ready(true, &inputs, None, 0, 48_000));
    assert!(!local_ready(true, &inputs, Some(392), 1, 48_000));
    assert!(!local_ready(true, &inputs, Some(392), 0, 38_999));
    assert!(!local_ready(true, &inputs, Some(392), 0, 60_001));
    let braked = analog::Snapshot { brake_active: true, ..inputs };
    assert!(!local_ready(true, &braked, Some(392), 0, 48_000));
}

#[test]
fn calibration_starts_with_the_controller_of_the_ride() {
    let controller = fresh().controller;
    assert_eq!(controller.direct.proportional_gain.to_bits(), 0x8000);
    assert_eq!(controller.direct.integral_gain_per_cycle.to_bits(), 2_420);
    assert_eq!(controller.quadrature, controller.direct);
    assert_eq!(controller.vector_limit_ticks.to_bits(), 1_273 << 16);
    assert_eq!(controller.phase_limit_ticks, 1_103);
    assert_eq!(controller.actuation_advance.to_bits(), 0);
}

#[test]
fn only_sampling_windows_bound_the_bus_voltage() {
    let sample =
        Sample { measured_d_counts: 0, applied_d_tick_bits: 0, bus_voltage_mv: u32::MAX };
    let mut sweep = ResistanceCalibration::new();
    sweep.start();
    assert!(sweep.can_tick(&sample));
    sweep.tick(sample);
    assert_eq!(sweep.cycle_in_state, 1);
    sweep.state = State::SampleLow;
    assert!(!sweep.can_tick(&sample));
    assert!(sweep.can_tick(&Sample { bus_voltage_mv: 2_600_000, ..sample }));

    let observation =
        inductance::Observation { measured_d_counts: 0, applied_d_tick_bits: 0, bus_voltage_mv: u32::MAX };
    let mut pulses = InductanceCalibration::new();
    pulses.start(1_000);
    assert!(pulses.can_observe(&observation));
    pulses.state = inductance::State::SampleHold;
    assert!(!pulses.can_observe(&observation));
}

#[test]
fn status_rotation_shows_every_slot() {
    let mut rotation = StatusRotation::new();
    for slot in 0..12 {
        for page in 0..16 {
            assert_eq!(rotation, StatusRotation { page, diagnostic_slot: slot });
            rotation.sent();
        }
    }
    assert_eq!(rotation, StatusRotation::new());
}

#[test]
fn status_reports_the_session_and_its_surroundings() {
    let session = Session::new(OFFSETS, 77);
    let around = Surroundings {
        local_ready: true,
        hall_quiet: true,
        motor_outputs_disabled: true,
        can_rx_fifo_overrun: false,
        can_command_queue_drop: true,
        bus_voltage_mv: 48_000,
        environment_reasons: 0,
        offsets: OFFSETS,
        diagnostic_slot: 0,
    };
    let status = status(&session, &fresh(), &around);
    assert_eq!(status.challenge, session.challenge);
    assert_eq!(status.bus_voltage_mv, 48_000);
    assert_eq!(status.offset_a, 2_048);
    assert!(status.local_ready && status.can_command_queue_drop && !status.armed);
    assert_eq!(status_frame(0, status).id, 0x2f7);
    assert_eq!(status_frame(0, status).data, status_frame(16, status).data);
}
