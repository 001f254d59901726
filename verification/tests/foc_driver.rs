//! Motor driver.
use oxifoc::foc::phase::{PhaseEstimate, PhaseInput, PhaseProvider, PhaseSource};
use oxifoc::foc::trig::Turns;
use oxifoc::foc::{AlphaBeta, Dq, Fixed, FocController, PIController};
use oxifoc::motor::{CurrentLimits, FocDriver};

#[derive(Clone, Copy, Debug, Default, Eq, PartialEq)]
struct TestPhase;

impl PhaseProvider for TestPhase {
    type Angle = Turns;

    fn source(&self) -> PhaseSource {
        PhaseSource::Hall
    }

    fn estimate(&self, _elapsed_since_observation_us: u32) -> Option<PhaseEstimate<Turns>> {
        Some(PhaseEstimate {
            angle: 0,
            electrical_rpm: 0,
            trustworthy: true,
        })
    }

    fn estimate_for_control(
        &mut self,
        elapsed_since_observation_us: u32,
        _control_period_ns: u32,
    ) -> Option<PhaseEstimate<Turns>> {
        self.estimate(elapsed_since_observation_us)
    }

    fn update(&mut self, _input: &PhaseInput) {}

    fn injection(&self) -> Dq {
        Dq::default()
    }

    fn request_source(&mut self, _source: PhaseSource) -> bool {
        false
    }

    fn selected_source(&self) -> PhaseSource {
        self.source()
    }

    fn estimate_at(&self, elapsed_since_observation_us: u32) -> Option<PhaseEstimate<Turns>> {
        self.estimate(elapsed_since_observation_us)
    }
}

#[derive(Clone, Copy, Debug, Default, Eq, PartialEq)]
struct CapturingPhase {
    input: PhaseInput,
}

impl PhaseProvider for CapturingPhase {
    type Angle = Turns;

    fn source(&self) -> PhaseSource {
        PhaseSource::Observer
    }

    fn estimate(&self, _elapsed_since_observation_us: u32) -> Option<PhaseEstimate<Turns>> {
        Some(PhaseEstimate {
            angle: 0,
            electrical_rpm: 0,
            trustworthy: true,
        })
    }

    fn estimate_for_control(
        &mut self,
        elapsed_since_observation_us: u32,
        _control_period_ns: u32,
    ) -> Option<PhaseEstimate<Turns>> {
        self.estimate(elapsed_since_observation_us)
    }

    fn update(&mut self, input: &PhaseInput) {
        self.input = *input;
    }

    fn injection(&self) -> Dq {
        Dq::default()
    }

    fn request_source(&mut self, _source: PhaseSource) -> bool {
        false
    }

    fn selected_source(&self) -> PhaseSource {
        self.source()
    }

    fn estimate_at(&self, elapsed_since_observation_us: u32) -> Option<PhaseEstimate<Turns>> {
        self.estimate(elapsed_since_observation_us)
    }
}

fn limits() -> CurrentLimits {
    CurrentLimits::new(
        Fixed::from_integer(838),
        Fixed::from_integer(1_344),
        Some(Fixed::from_integer(480)),
        Some(Fixed::zero()),
    )
}

fn driver(filter_shift: u8) -> FocDriver<TestPhase, 0, 1> {
    let pi = PIController::new(Fixed::zero(), Fixed::zero());
    FocDriver::new(
        FocController::new(pi, pi, Fixed::from_integer(1_273), 1_103),
        TestPhase,
        limits(),
        2_250,
        filter_shift,
    )
}

#[test]
fn foc_driver_current_targets_use_a_direct_priority_circle() {
    let limits = CurrentLimits::new(
        Fixed::from_integer(100),
        Fixed::from_integer(130),
        None,
        None,
    );
    assert_eq!(
        limits.clamp_targets(Dq::new(Fixed::from_integer(60), Fixed::from_integer(100),)),
        Dq::new(Fixed::from_integer(60), Fixed::from_integer(80)),
    );
}

#[test]
fn foc_driver_measured_overcurrent_uses_dq_magnitude() {
    let limits = CurrentLimits::new(
        Fixed::from_integer(100),
        Fixed::from_integer(130),
        None,
        None,
    );
    assert!(
        !limits.is_overcurrent(Dq::new(Fixed::from_integer(50), Fixed::from_integer(120),))
    );
    assert!(limits.is_overcurrent(Dq::new(Fixed::from_integer(50), Fixed::from_integer(121),)));
}

#[test]
fn foc_driver_bus_limit_scales_with_q_axis_modulation_without_speed_input() {
    let mut driver = driver(0);
    driver.note_applied_voltage(Dq::new(Fixed::zero(), Fixed::from_integer(-1_125)));
    assert_eq!(driver.filtered_q_modulation(), Fixed::ratio(-3, 4));
    let (target, quadrature_limit) =
        driver.clamp_targets_with_limit(Dq::new(Fixed::zero(), Fixed::from_integer(-838)));
    assert_eq!(quadrature_limit, Fixed::from_integer(640));
    assert_eq!(target.q, Fixed::from_integer(-640));
}

#[test]
fn foc_driver_zero_regen_limit_rejects_opposing_torque() {
    let mut driver = driver(0);
    driver.note_applied_voltage(Dq::new(Fixed::zero(), Fixed::from_integer(-1_125)));
    let (target, _) =
        driver.clamp_targets_with_limit(Dq::new(Fixed::zero(), Fixed::from_integer(100)));
    assert_eq!(target.q, Fixed::zero());
}

#[test]
fn foc_driver_bus_limits_are_symmetric_across_rotation_direction() {
    let limits = CurrentLimits::new(
        Fixed::from_integer(100),
        Fixed::from_integer(130),
        Some(Fixed::from_integer(10)),
        Some(Fixed::zero()),
    );
    let pi = PIController::new(Fixed::zero(), Fixed::zero());
    let mut driver: FocDriver<TestPhase, 0, 1> = FocDriver::new(
        FocController::new(pi, pi, Fixed::from_integer(1_273), 1_103),
        TestPhase,
        limits,
        2_250,
        0,
    );
    driver.note_applied_voltage(Dq::new(Fixed::zero(), Fixed::from_integer(750)));
    let (forward, _) =
        driver.clamp_targets_with_limit(Dq::new(Fixed::zero(), Fixed::from_integer(30)));
    let (forward_regen, _) =
        driver.clamp_targets_with_limit(Dq::new(Fixed::zero(), Fixed::from_integer(-5)));
    assert_eq!(forward.q, Fixed::from_integer(20));
    assert_eq!(forward_regen.q, Fixed::zero());

    driver.note_applied_voltage(Dq::new(Fixed::zero(), Fixed::from_integer(-750)));
    let (reverse, _) =
        driver.clamp_targets_with_limit(Dq::new(Fixed::zero(), Fixed::from_integer(-30)));
    let (reverse_regen, _) =
        driver.clamp_targets_with_limit(Dq::new(Fixed::zero(), Fixed::from_integer(5)));
    assert_eq!(reverse.q, Fixed::from_integer(-20));
    assert_eq!(reverse_regen.q, Fixed::zero());
}

#[test]
fn foc_driver_modulation_filter_uses_the_configured_control_period_ratio() {
    let mut driver = driver(5);
    for _ in 0..32 {
        driver.note_applied_voltage(Dq::new(Fixed::zero(), Fixed::from_integer(-1_125)));
    }
    let modulation = driver.filtered_q_modulation();
    assert!(modulation < Fixed::ratio(-47, 100));
    assert!(modulation > Fixed::ratio(-49, 100));
}

#[test]
fn observer_receives_previous_voltage_with_the_current_sample() {
    let proportional = PIController::new(Fixed::one(), Fixed::zero());
    let mut driver: FocDriver<CapturingPhase, 0, 1> = FocDriver::new(
        FocController::new(proportional, proportional, Fixed::from_integer(100), 100),
        CapturingPhase::default(),
        CurrentLimits::new(
            Fixed::from_integer(100),
            Fixed::from_integer(200),
            None,
            None,
        ),
        200,
        0,
    )
    .with_observer_scales(Fixed::from_integer(2), Fixed::from_integer(3));

    driver
        .step_current_control(
            Fixed::zero(),
            Fixed::zero(),
            PhaseEstimate {
                angle: 0,
                electrical_rpm: 0,
                trustworthy: true,
            },
            Dq::new(Fixed::from_integer(10), Fixed::zero()),
            100,
            62_500,
        )
        .unwrap();
    assert_eq!(driver.phase().input.applied_voltage, AlphaBeta::default());

    driver
        .step_current_control(
            Fixed::from_integer(2),
            Fixed::from_integer(-1),
            PhaseEstimate {
                angle: 0,
                electrical_rpm: 0,
                trustworthy: true,
            },
            Dq::default(),
            100,
            62_500,
        )
        .unwrap();
    let applied = driver.phase().input.applied_voltage;
    assert!((applied.alpha.to_bits() - Fixed::from_integer(20).to_bits()).unsigned_abs() <= 32);
    assert!(applied.beta.to_bits().unsigned_abs() <= 32);
    assert_eq!(
        driver.phase().input.measured_current,
        AlphaBeta {
            alpha: Fixed::from_integer(6),
            beta: Fixed::zero(),
        }
    );
}
