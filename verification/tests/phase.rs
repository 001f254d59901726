//! Phase sources and the phase manager.
use oxifoc::foc::phase::manager::ratio_u32_q16;
use oxifoc::foc::phase::{
    BackEmfObserver, PhaseEstimate, PhaseInput, PhaseManager, PhaseProvider, PhaseSource,
    PhaseSourceError, PhaseStrategy,
};
use oxifoc::foc::trig::Turns;
use oxifoc::foc::{Dq, Fixed};

#[test]
fn sources_report_their_provider_requirements() {
    let crossover = PhaseSource::HallToObserver {
        blend_low_erpm: 3_000,
        blend_high_erpm: 6_000,
    };

    assert!(PhaseSource::Hall.requires_hall());
    assert!(!PhaseSource::Hall.requires_observer());
    assert!(!PhaseSource::Observer.requires_hall());
    assert!(PhaseSource::Observer.requires_observer());
    assert!(crossover.requires_hall());
    assert!(crossover.requires_observer());
}

#[test]
fn experimental_sources_retain_their_sensor_requirements() {
    assert!(PhaseStrategy::Hall.requires_hall());
    assert!(PhaseStrategy::HallToObserver.requires_hall());
    assert!(PhaseStrategy::HallToObserver.requires_observer());
    assert!(PhaseStrategy::EncoderToObserver.requires_encoder());
    assert!(PhaseStrategy::EncoderToObserver.requires_observer());
    assert!(PhaseStrategy::HfiToObserver.requires_hfi());
    assert!(PhaseStrategy::HfiToObserver.requires_observer());
    assert!(PhaseStrategy::HfiToObserverVolts.requires_hfi());
    assert!(PhaseStrategy::HfiToObserverVolts.requires_observer());
    assert!(PhaseStrategy::HfiToEncoder.requires_encoder());
    assert!(PhaseStrategy::Manual.is_manual());
    assert!(PhaseStrategy::OpenLoop.is_manual());
    assert!(!PhaseStrategy::OpenLoop.requires_hall());
}

#[derive(Clone, Copy, Debug, Default, Eq, PartialEq)]
struct TestHall {
    angle: Turns,
    electrical_rpm: i32,
    valid: bool,
}

impl PhaseProvider for TestHall {
    type Angle = Turns;

    fn source(&self) -> PhaseSource {
        PhaseSource::Hall
    }

    fn estimate(&self, _elapsed_since_observation_us: u32) -> Option<PhaseEstimate<Turns>> {
        self.valid.then_some(PhaseEstimate {
            angle: self.angle,
            electrical_rpm: self.electrical_rpm,
            trustworthy: true,
        })
    }

    fn estimate_for_control(
        &mut self,
        elapsed_since_observation_us: u32,
        _control_period_ns: u32,
    ) -> Option<PhaseEstimate<Turns>> {
        self.estimate(elapsed_since_observation_us)
    }

    fn update(&mut self, _input: &PhaseInput) {}

    fn injection(&self) -> Dq {
        Dq::default()
    }

    fn request_source(&mut self, _source: PhaseSource) -> bool {
        false
    }

    fn selected_source(&self) -> PhaseSource {
        self.source()
    }

    fn estimate_at(&self, elapsed_since_observation_us: u32) -> Option<PhaseEstimate<Turns>> {
        self.estimate(elapsed_since_observation_us)
    }
}

fn observer() -> BackEmfObserver {
    BackEmfObserver::new(
        Fixed::ratio(884, 10_000),
        Fixed::ratio(39, 1_000),
        Fixed::ratio(122, 10),
        16_000,
    )
}

#[test]
fn unavailable_sources_are_rejected_without_changing_source() {
    let hall = TestHall {
        valid: true,
        ..TestHall::default()
    };
    let mut manager = PhaseManager::with_hall(hall);
    assert_eq!(
        manager.set_source(PhaseSource::Observer),
        Err(PhaseSourceError::ObserverNotConfigured)
    );
    assert_eq!(manager.source(), PhaseSource::Hall);
}

#[test]
fn hall_to_observer_blends_across_the_configured_erpm_band() {
    let hall = TestHall {
        angle: 0x1000_0000,
        electrical_rpm: 4_500,
        valid: true,
    };
    let mut observer = observer();
    observer.seed(0x2000_0000, 4_500);
    let mut manager = PhaseManager::with_hall(hall);
    manager.set_observer(observer);
    manager
        .set_source(PhaseSource::HallToObserver {
            blend_low_erpm: 3_000,
            blend_high_erpm: 6_000,
        })
        .unwrap();

    let estimate = manager.estimate_for_control(0, 62_500).unwrap();
    assert!((estimate.angle.wrapping_sub(0x1800_0000) as i32).unsigned_abs() < 0x1_0000);
    assert_eq!(manager.observer_diagnostics().blend, Fixed::ratio(1, 2));
}

#[test]
fn crossover_ratio_preserves_every_f103_blend_step() {
    for numerator in 0..=3_000 {
        assert_eq!(
            ratio_u32_q16(numerator, 3_000),
            Fixed::ratio(numerator as i32, 3_000),
            "numerator={numerator}",
        );
    }
}

#[test]
fn full_speed_crossover_uses_the_observer() {
    let hall = TestHall {
        angle: 0x1000_0000,
        electrical_rpm: 7_000,
        valid: true,
    };
    let mut observer = observer();
    observer.seed(0x2000_0000, 7_000);
    let mut manager = PhaseManager::with_hall(hall);
    manager.set_observer(observer);
    manager
        .set_source(PhaseSource::HallToObserver {
            blend_low_erpm: 3_000,
            blend_high_erpm: 6_000,
        })
        .unwrap();

    assert_eq!(
        manager.estimate_for_control(0, 62_500).unwrap().angle,
        0x2000_0000
    );
    assert_eq!(manager.observer_diagnostics().blend, Fixed::one());
    assert!(manager.observer_diagnostics().active);
}

#[test]
fn half_turn_disagreement_reseeds_instead_of_blending() {
    let hall = TestHall {
        angle: 0x1000_0000,
        electrical_rpm: 4_500,
        valid: true,
    };
    let mut observer = observer();
    observer.seed(0x9000_0000, 4_500);
    let mut manager = PhaseManager::with_hall(hall);
    manager.set_observer(observer);
    manager
        .set_source(PhaseSource::HallToObserver {
            blend_low_erpm: 3_000,
            blend_high_erpm: 6_000,
        })
        .unwrap();

    assert_eq!(
        manager.estimate_for_control(0, 62_500).unwrap().angle,
        hall.angle
    );
    assert_eq!(manager.observer().unwrap().phase(), hall.angle);
    assert_eq!(manager.observer_diagnostics().blend, Fixed::zero());
}

#[test]
fn requested_seed_uses_the_next_rate_limited_hall_estimate() {
    let hall = TestHall {
        angle: 0x3000_0000,
        electrical_rpm: -5_000,
        valid: true,
    };
    let mut manager = PhaseManager::with_hall(hall);
    manager.set_observer(observer());
    manager.request_observer_seed();
    let _ = manager.estimate_for_control(0, 62_500);
    assert_eq!(manager.observer().unwrap().phase(), hall.angle);
    assert!((manager.observer().unwrap().electrical_rpm() + 5_000).unsigned_abs() < 2);
}
