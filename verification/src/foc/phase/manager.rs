//! Phase-source ownership, validation, and crossover for synchronous FOC.
//!
//! The manager is the boundary between physical angle sensors, software
//! observers, and the motor driver. It installs a Hall provider plus
//! [`BackEmfObserver`] and selects the Hall-to-observer blend strategy without
//! putting estimator policy in the interrupt or Hall implementation.
use vstd::prelude::*;

use super::observer::{signed_angle_difference, BackEmfObserver};
use super::provider::{PhaseEstimate, PhaseInput, PhaseProvider};
use super::source::{PhaseSource, PhaseSourceError};
use crate::arith;
use crate::foc::control_types::Dq;
use crate::foc::numeric;
use crate::foc::numeric::Fixed;
use crate::foc::trig::Turns;

verus! {

/// Largest disagreement, a quarter turn, that may be blended.
pub const BLEND_AMBIGUITY_Q32: u32 = 0x4000_0000;

#[derive(Clone, Copy, Debug, Eq, PartialEq, Structural)]
pub struct ObserverDiagnostics {
    pub configured: bool,
    pub ready: bool,
    pub active: bool,
    pub blend: Fixed,
    pub electrical_rpm: i32,
    /// Observer minus Hall as a signed Q0.32 turn difference.
    pub hall_error_q32: i32,
    pub confidence: Fixed,
    pub flux_magnitude_mwb: Fixed,
    pub bemf_q_v: Fixed,
    pub phase_error_filtered_q32: u32,
    pub validity_progress: u8,
}

impl ObserverDiagnostics {
    /// Report without a configured observer.
    pub open spec fn absent() -> Self {
        ObserverDiagnostics {
            configured: false,
            ready: false,
            active: false,
            blend: numeric::fixed(0),
            electrical_rpm: 0,
            hall_error_q32: 0,
            confidence: numeric::fixed(0),
            flux_magnitude_mwb: numeric::fixed(0),
            bemf_q_v: numeric::fixed(0),
            phase_error_filtered_q32: 0,
            validity_progress: 0,
        }
    }
}

impl Default for ObserverDiagnostics {
    fn default() -> (r: Self)
        ensures
            r == ObserverDiagnostics::absent(),
    {
        ObserverDiagnostics {
            configured: false,
            ready: false,
            active: false,
            blend: Fixed::zero(),
            electrical_rpm: 0,
            hall_error_q32: 0,
            confidence: Fixed::zero(),
            flux_magnitude_mwb: Fixed::zero(),
            bemf_q_v: Fixed::zero(),
            phase_error_filtered_q32: 0,
            validity_progress: 0,
        }
    }
}

/// Observer share across a speed band, in Q16.16: zero up to the low end, one
/// from the high end, and linear between. An empty band is one revolution per
/// minute wide.
pub open spec fn crossover_bits(speed_erpm: int, low_erpm: int, high_erpm: int) -> int {
    let low = arith::max(low_erpm, 0);
    let high = arith::max(high_erpm, low + 1);
    if speed_erpm <= low {
        0
    } else if speed_erpm >= high {
        0x1_0000
    } else {
        ratio_bits(speed_erpm - low, high - low)
    }
}

/// Unsigned ratio in Q16.16, at most one. Both operands are first shifted to at
/// most sixteen significant bits.
pub open spec fn ratio_bits(numerator: int, denominator: int) -> int {
    if denominator == 0 || numerator >= denominator {
        0x1_0000
    } else {
        let unit = arith::unit(arith::shift_below(denominator, 0x1_0000));
        (numerator / unit) * 0x1_0000 / arith::max(denominator / unit, 1)
    }
}

/// Product with a Q16.16 share, rounded down and saturated.
pub open spec fn scaled(value: int, share_bits: int) -> int {
    arith::sat_i32(value * share_bits / 0x1_0000)
}

/// Estimate that lies `blend` of the way from the sensor to the observer, along
/// the shorter way round.
pub open spec fn blended(
    sensor: PhaseEstimate<Turns>,
    observer: PhaseEstimate<Turns>,
    blend_bits: int,
) -> PhaseEstimate<Turns> {
    PhaseEstimate {
        angle: arith::wrap_u32(
            sensor.angle + scaled(arith::wrap_i32(observer.angle - sensor.angle), blend_bits),
        ) as u32,
        electrical_rpm: arith::sat_i32(
            sensor.electrical_rpm + scaled(
                arith::sat_i32(observer.electrical_rpm - sensor.electrical_rpm),
                blend_bits,
            ),
        ) as i32,
        trustworthy: sensor.trustworthy || observer.trustworthy,
    }
}

/// Observer share for two estimates of the same rotor: the faster one counts.
pub open spec fn shared_blend(
    sensor: PhaseEstimate<Turns>,
    observer: PhaseEstimate<Turns>,
    low_erpm: int,
    high_erpm: int,
) -> int {
    crossover_bits(
        arith::max(
            arith::abs(sensor.electrical_rpm as int),
            arith::abs(observer.electrical_rpm as int),
        ),
        low_erpm,
        high_erpm,
    )
}

/// Estimate for a given observer share.
pub open spec fn mixed(
    sensor: PhaseEstimate<Turns>,
    observer: PhaseEstimate<Turns>,
    blend_bits: int,
) -> PhaseEstimate<Turns> {
    if blend_bits == 0 {
        sensor
    } else if blend_bits == 0x1_0000 {
        observer
    } else {
        blended(sensor, observer, blend_bits)
    }
}

/// Outcome of choosing between the Hall sensor and the observer.
#[derive(Clone, Copy, Debug)]
pub struct PhaseChoice {
    pub estimate: Option<PhaseEstimate<Turns>>,
    pub blend: Fixed,
    pub hall_error_q32: i32,
    /// The observer disagreed too far and takes over the sensor's state.
    pub reseed: bool,
}

/// How a source chooses between a sensor estimate and an observer estimate.
pub open spec fn choice(
    source: PhaseSource,
    hall: Option<PhaseEstimate<Turns>>,
    observer: Option<PhaseEstimate<Turns>>,
) -> PhaseChoice {
    let difference = match (hall, observer) {
        (Some(sensor), Some(estimate)) => arith::wrap_i32(estimate.angle - sensor.angle),
        _ => 0,
    };
    let follow_hall = PhaseChoice {
        estimate: hall,
        blend: numeric::fixed(0),
        hall_error_q32: difference as i32,
        reseed: false,
    };
    let follow_observer = PhaseChoice {
        estimate: observer,
        blend: numeric::fixed(0x1_0000),
        hall_error_q32: difference as i32,
        reseed: false,
    };
    let trusted = observer is Some && observer->0.trustworthy;
    match source {
        PhaseSource::Observer => if trusted {
            follow_observer
        } else {
            PhaseChoice { estimate: None, ..follow_hall }
        },
        PhaseSource::HallToObserver { blend_low_erpm, blend_high_erpm } => if !trusted {
            follow_hall
        } else if hall is None {
            follow_observer
        } else {
            let blend = shared_blend(
                hall->0,
                observer->0,
                blend_low_erpm as int,
                blend_high_erpm as int,
            );
            if blend < 0x1_0000 && arith::abs(difference) > BLEND_AMBIGUITY_Q32 {
                PhaseChoice { hall_error_q32: 0, reseed: true, ..follow_hall }
            } else {
                PhaseChoice {
                    estimate: Some(mixed(hall->0, observer->0, blend)),
                    blend: numeric::fixed(blend),
                    ..follow_hall
                }
            }
        },
        _ => follow_hall,
    }
}

/// The crossover band of a source is representable.
pub open spec fn band_is_representable(source: PhaseSource) -> bool {
    match source {
        PhaseSource::HallToObserver { blend_low_erpm, .. } => blend_low_erpm < i32::MAX,
        _ => true,
    }
}

/// Owns the installed Hall sensor and optional back-EMF estimator.
#[derive(Debug, Eq, PartialEq)]
pub struct PhaseManager<H> {
    pub hall: H,
    pub observer: Option<BackEmfObserver>,
    pub source: PhaseSource,
    pub observer_seed_requested: bool,
    pub last_observer_blend: Fixed,
    pub last_observer_hall_error_q32: i32,
}

impl<H: Copy> Clone for PhaseManager<H> {
    fn clone(&self) -> (r: Self)
        ensures
            r == *self,
    {
        *self
    }
}

impl<H: Copy> Copy for PhaseManager<H> {

}

impl<H> PhaseManager<H> {
    /// A configured observer is well formed.
    pub open spec fn observer_wf(self) -> bool {
        self.observer is Some ==> self.observer->0.wf()
    }

    /// Estimate that the observer offers.
    pub open spec fn observer_view(self) -> Option<PhaseEstimate<Turns>> {
        match self.observer {
            Some(observer) => Some(
                PhaseEstimate {
                    angle: observer.phase_pll,
                    electrical_rpm: observer.erpm() as i32,
                    trustworthy: observer.ready_latched,
                },
            ),
            None => None,
        }
    }

    /// A source can be selected when its estimator is installed.
    pub open spec fn accepts(self, source: PhaseSource) -> bool {
        source.obstacle(self.observer is Some) is None
    }

    /// The manager with a newly selected source.
    pub open spec fn switched(self, source: PhaseSource) -> Self {
        PhaseManager {
            source,
            last_observer_blend: numeric::fixed(0),
            last_observer_hall_error_q32: 0,
            ..self
        }
    }

    /// The manager with its observer, if any, locked to an estimate.
    pub open spec fn reseeded(self, sensor: PhaseEstimate<Turns>) -> Self {
        PhaseManager {
            observer: match self.observer {
                Some(observer) => Some(observer.seeded(sensor.angle, sensor.electrical_rpm)),
                None => None,
            },
            ..self
        }
    }

    /// The manager after serving a pending seed request.
    pub open spec fn seed_served(self, hall: Option<PhaseEstimate<Turns>>) -> Self {
        let idle = PhaseManager { observer_seed_requested: false, ..self };
        if self.observer_seed_requested && hall is Some {
            idle.reseeded(hall->0)
        } else {
            idle
        }
    }

    /// The choice made for a sensor estimate.
    pub open spec fn chosen(self, hall: Option<PhaseEstimate<Turns>>) -> PhaseChoice {
        choice(self.source, hall, self.seed_served(hall).observer_view())
    }

    /// The manager after choosing for a sensor estimate.
    pub open spec fn after_choice(self, hall: Option<PhaseEstimate<Turns>>) -> Self {
        let chosen = self.chosen(hall);
        let served = self.seed_served(hall);
        let settled = if chosen.reseed {
            served.reseeded(hall->0)
        } else {
            served
        };
        PhaseManager {
            last_observer_blend: chosen.blend,
            last_observer_hall_error_q32: chosen.hall_error_q32,
            ..settled
        }
    }

    /// What the estimator reports; nothing without one.
    pub open spec fn reported(self) -> ObserverDiagnostics {
        match self.observer {
            None => ObserverDiagnostics::absent(),
            Some(observer) => ObserverDiagnostics {
                configured: true,
                ready: observer.ready_latched,
                active: self.last_observer_blend.bits > 0,
                blend: self.last_observer_blend,
                electrical_rpm: observer.erpm() as i32,
                hall_error_q32: self.last_observer_hall_error_q32,
                confidence: observer.confidence,
                flux_magnitude_mwb: observer.flux_magnitude_mwb,
                bemf_q_v: observer.bemf_q_filtered_v,
                phase_error_filtered_q32: observer.phase_error_filtered_q32,
                validity_progress: arith::sat_u8(observer.valid_travel_q32 as int / 0x200_0000) as u8,
            },
        }
    }

    pub fn with_hall(hall: H) -> (r: Self)
        ensures
            r == (PhaseManager {
                hall,
                observer: None,
                source: PhaseSource::Hall,
                observer_seed_requested: false,
                last_observer_blend: numeric::fixed(0),
                last_observer_hall_error_q32: 0,
            }),
    {
        PhaseManager {
            hall,
            observer: None,
            source: PhaseSource::Hall,
            observer_seed_requested: false,
            last_observer_blend: Fixed::zero(),
            last_observer_hall_error_q32: 0,
        }
    }

    pub fn source(&self) -> (r: PhaseSource)
        ensures
            r == self.source,
    {
        self.source
    }

    pub fn hall(&self) -> (r: &H)
        ensures
            *r == self.hall,
    {
        &self.hall
    }

    pub fn hall_mut(&mut self) -> (r: &mut H)
        ensures
            *r == old(self).hall,
            *final(self) == (PhaseManager { hall: *final(r), ..*old(self) }),
    {
        &mut self.hall
    }

    pub fn observer(&self) -> (r: Option<&BackEmfObserver>)
        ensures
            match r {
                Some(observer) => self.observer == Some(*observer),
                None => self.observer is None,
            },
    {
        self.observer.as_ref()
    }

    pub fn observer_mut(&mut self) -> (r: Option<&mut BackEmfObserver>)
        ensures
            match r {
                Some(observer) => old(self).observer == Some(*observer) && *final(self) == (
                PhaseManager { observer: Some(*final(observer)), ..*old(self) }),
                None => old(self).observer is None && *final(self) == *old(self),
            },
    {
        match &mut self.observer {
            Some(observer) => Some(observer),
            None => None,
        }
    }

    pub fn set_observer(&mut self, observer: BackEmfObserver)
        ensures
            *final(self) == (PhaseManager { observer: Some(observer), ..*old(self) }),
    {
        self.observer = Some(observer);
    }

    pub fn reset_observer(&mut self)
        ensures
            *final(self) == (PhaseManager {
                observer: match old(self).observer {
                    Some(observer) => Some(observer.cleared()),
                    None => None,
                },
                last_observer_blend: numeric::fixed(0),
                last_observer_hall_error_q32: 0,
                ..*old(self)
            }),
    {
        match &mut self.observer {
            Some(observer) => {
                observer.reset();
            },
            None => {},
        }
        self.last_observer_blend = Fixed::zero();
        self.last_observer_hall_error_q32 = 0;
    }

    /// Seed the estimator from the next Hall estimate before source blending.
    pub fn request_observer_seed(&mut self)
        ensures
            *final(self) == (PhaseManager { observer_seed_requested: true, ..*old(self) }),
    {
        self.observer_seed_requested = true;
    }

    pub fn observer_diagnostics(&self) -> (r: ObserverDiagnostics)
        requires
            self.observer_wf(),
        ensures
            r == self.reported(),
    {
        match &self.observer {
            None => ObserverDiagnostics::default(),
            Some(observer) => ObserverDiagnostics {
                configured: true,
                ready: observer.is_ready(),
                active: self.last_observer_blend.to_bits() > 0,
                blend: self.last_observer_blend,
                electrical_rpm: observer.electrical_rpm(),
                hall_error_q32: self.last_observer_hall_error_q32,
                confidence: observer.confidence(),
                flux_magnitude_mwb: observer.flux_magnitude_mwb(),
                bemf_q_v: observer.bemf_q_filtered_v(),
                phase_error_filtered_q32: observer.phase_error_filtered_q32(),
                validity_progress: observer.validity_progress(),
            },
        }
    }

    pub fn set_source(&mut self, source: PhaseSource) -> (r: Result<(), PhaseSourceError>)
        ensures
            match r {
                Ok(_) => old(self).accepts(source) && *final(self) == old(self).switched(source),
                Err(error) => source.obstacle(old(self).observer is Some) == Some(error)
                    && *final(self) == *old(self),
            },
    {
        match source {
            PhaseSource::Hall => {},
            PhaseSource::Observer | PhaseSource::HallToObserver { .. } => {
                if self.observer.is_none() {
                    return Err(PhaseSourceError::ObserverNotConfigured);
                }
            },
            PhaseSource::Encoder | PhaseSource::EncoderToObserver => {
                return Err(PhaseSourceError::EncoderNotAvailable);
            },
            PhaseSource::Manual | PhaseSource::OpenLoop => {
                return Err(PhaseSourceError::ManualSourceNotConfigured);
            },
            _ => {
                return Err(PhaseSourceError::HfiNotConfigured);
            },
        }
        self.source = source;
        self.last_observer_blend = Fixed::zero();
        self.last_observer_hall_error_q32 = 0;
        Ok(())
    }

    fn observer_estimate(&self) -> (r: Option<PhaseEstimate<Turns>>)
        requires
            self.observer_wf(),
        ensures
            r == self.observer_view(),
    {
        match &self.observer {
            None => None,
            Some(observer) => Some(
                PhaseEstimate {
                    angle: observer.phase(),
                    electrical_rpm: observer.electrical_rpm(),
                    trustworthy: observer.is_ready(),
                },
            ),
        }
    }

    fn seed_observer(&mut self, sensor: PhaseEstimate<Turns>)
        ensures
            *final(self) == old(self).reseeded(sensor),
            old(self).observer_wf() ==> final(self).observer_wf(),
    {
        match &mut self.observer {
            Some(observer) => {
                observer.seed(sensor.angle, sensor.electrical_rpm);
            },
            None => {},
        }
    }

    fn select_estimate(&mut self, hall: Option<PhaseEstimate<Turns>>) -> (r: Option<
        PhaseEstimate<Turns>,
    >)
        requires
            old(self).observer_wf(),
            band_is_representable(old(self).source),
        ensures
            final(self).observer_wf(),
            r == old(self).chosen(hall).estimate,
            *final(self) == old(self).after_choice(hall),
    {
        if self.observer_seed_requested {
            self.observer_seed_requested = false;
            match hall {
                Some(sensor) => {
                    self.seed_observer(sensor);
                },
                None => {},
            }
        }
        let observer = self.observer_estimate();
        let chosen = choose_estimate(self.source, hall, observer);
        if chosen.reseed {
            match hall {
                Some(sensor) => {
                    self.seed_observer(sensor);
                },
                None => {},
            }
        }
        self.last_observer_blend = chosen.blend;
        self.last_observer_hall_error_q32 = chosen.hall_error_q32;
        chosen.estimate
    }
}

fn choose_estimate(
    source: PhaseSource,
    hall: Option<PhaseEstimate<Turns>>,
    observer: Option<PhaseEstimate<Turns>>,
) -> (r: PhaseChoice)
    requires
        band_is_representable(source),
    ensures
        r == choice(source, hall, observer),
{
    let hall_error_q32: i32 = match (hall, observer) {
        (Some(sensor), Some(estimate)) => signed_angle_difference(estimate.angle, sensor.angle),
        _ => 0,
    };
    let follow_hall = PhaseChoice {
        estimate: hall,
        blend: Fixed::zero(),
        hall_error_q32,
        reseed: false,
    };
    let trusted: bool = match observer {
        Some(estimate) => estimate.trustworthy,
        None => false,
    };
    match source {
        PhaseSource::Observer => if trusted {
            PhaseChoice { estimate: observer, blend: Fixed::one(), hall_error_q32, reseed: false }
        } else {
            PhaseChoice { estimate: None, blend: Fixed::zero(), hall_error_q32, reseed: false }
        },
        PhaseSource::HallToObserver { blend_low_erpm, blend_high_erpm } => match (hall, observer) {
            (Some(sensor), Some(estimate)) => {
                if !trusted {
                    return follow_hall;
                }
                let blend = estimate_blend(sensor, estimate, blend_low_erpm, blend_high_erpm);
                // While Hall retains any authority, a disagreement of more than
                // a quarter turn is a reseed, never a command to blend through
                // zero torque.
                if blend.to_bits() < 0x1_0000 && arith::unsigned_abs_i32(hall_error_q32)
                    > BLEND_AMBIGUITY_Q32 {
                    PhaseChoice {
                        estimate: hall,
                        blend: Fixed::zero(),
                        hall_error_q32: 0,
                        reseed: true,
                    }
                } else {
                    PhaseChoice {
                        estimate: Some(mix_estimates(sensor, estimate, blend)),
                        blend,
                        hall_error_q32,
                        reseed: false,
                    }
                }
            },
            (None, Some(_)) => if trusted {
                PhaseChoice {
                    estimate: observer,
                    blend: Fixed::one(),
                    hall_error_q32,
                    reseed: false,
                }
            } else {
                follow_hall
            },
            _ => follow_hall,
        },
        _ => follow_hall,
    }
}

impl<H> PhaseProvider<Fixed> for PhaseManager<H> where H: PhaseProvider<Fixed, Angle = Turns> {
    type Angle = Turns;

    open spec fn ready(&self) -> bool {
        &&& self.hall.ready()
        &&& self.observer_wf()
        &&& band_is_representable(self.source)
    }

    open spec fn selected_source(&self) -> PhaseSource {
        self.source
    }

    open spec fn estimate_at(&self, elapsed_since_observation_us: u32) -> Option<
        PhaseEstimate<Turns>,
    > {
        let hall = self.hall.estimate_at(elapsed_since_observation_us);
        let observer = self.observer_view();
        let trusted = observer is Some && observer->0.trustworthy;
        match self.source {
            PhaseSource::Observer => if trusted {
                observer
            } else {
                None
            },
            PhaseSource::HallToObserver { blend_low_erpm, blend_high_erpm } => if !trusted {
                hall
            } else if hall is None {
                observer
            } else {
                Some(
                    mixed(
                        hall->0,
                        observer->0,
                        shared_blend(
                            hall->0,
                            observer->0,
                            blend_low_erpm as int,
                            blend_high_erpm as int,
                        ),
                    ),
                )
            },
            _ => hall,
        }
    }

    open spec fn control_estimate_at(
        &self,
        elapsed_since_observation_us: u32,
        control_period_ns: u32,
    ) -> Option<PhaseEstimate<Turns>> {
        self.chosen(
            self.hall.control_estimate_at(elapsed_since_observation_us, control_period_ns),
        ).estimate
    }

    open spec fn after_control_estimate(
        &self,
        elapsed_since_observation_us: u32,
        control_period_ns: u32,
    ) -> Self {
        let estimate = self.hall.control_estimate_at(
            elapsed_since_observation_us,
            control_period_ns,
        );
        PhaseManager {
            hall: self.hall.after_control_estimate(
                elapsed_since_observation_us,
                control_period_ns,
            ),
            ..self.after_choice(estimate)
        }
    }

    open spec fn after_update(&self, input: PhaseInput<Fixed>) -> Self {
        PhaseManager {
            hall: self.hall.after_update(input),
            observer: match self.observer {
                Some(observer) => Some(observer.updated(input)),
                None => None,
            },
            ..*self
        }
    }

    open spec fn present_injection(&self) -> Dq<Fixed> {
        self.hall.present_injection()
    }

    open spec fn grants_source(&self, source: PhaseSource) -> bool {
        self.accepts(source)
    }

    open spec fn after_source_request(&self, source: PhaseSource) -> Self {
        if self.accepts(source) {
            self.switched(source)
        } else {
            *self
        }
    }

    fn source(&self) -> (r: PhaseSource) {
        self.source
    }

    fn estimate(&self, elapsed_since_observation_us: u32) -> (r: Option<PhaseEstimate<Turns>>) {
        let hall = self.hall.estimate(elapsed_since_observation_us);
        let observer = self.observer_estimate();
        let trusted: bool = match observer {
            Some(estimate) => estimate.trustworthy,
            None => false,
        };
        match self.source {
            PhaseSource::Observer => if trusted {
                observer
            } else {
                None
            },
            PhaseSource::HallToObserver { blend_low_erpm, blend_high_erpm } => match (
                hall,
                observer,
            ) {
                (Some(sensor), Some(estimate)) => {
                    if !trusted {
                        return hall;
                    }
                    let blend = estimate_blend(sensor, estimate, blend_low_erpm, blend_high_erpm);
                    Some(mix_estimates(sensor, estimate, blend))
                },
                (None, Some(_)) => if trusted {
                    observer
                } else {
                    None
                },
                _ => hall,
            },
            _ => hall,
        }
    }

    fn estimate_for_control(
        &mut self,
        elapsed_since_observation_us: u32,
        control_period_ns: u32,
    ) -> (r: Option<PhaseEstimate<Turns>>) {
        let hall = self.hall.estimate_for_control(
            elapsed_since_observation_us,
            control_period_ns,
        );
        self.select_estimate(hall)
    }

    fn update(&mut self, input: &PhaseInput<Fixed>) {
        self.hall.update(input);
        match &mut self.observer {
            Some(observer) => {
                observer.update(input);
            },
            None => {},
        }
    }

    fn injection(&self) -> (r: Dq<Fixed>) {
        self.hall.injection()
    }

    fn request_source(&mut self, source: PhaseSource) -> (r: bool) {
        self.set_source(source).is_ok()
    }
}

fn estimate_blend(
    sensor: PhaseEstimate<Turns>,
    observer: PhaseEstimate<Turns>,
    low_erpm: i32,
    high_erpm: i32,
) -> (r: Fixed)
    requires
        low_erpm < i32::MAX,
    ensures
        r.bits == shared_blend(sensor, observer, low_erpm as int, high_erpm as int),
        0 <= r.bits <= 0x1_0000,
{
    let sensor_speed: u32 = arith::unsigned_abs_i32(sensor.electrical_rpm);
    let observer_speed: u32 = arith::unsigned_abs_i32(observer.electrical_rpm);
    crossover_blend(
        if sensor_speed >= observer_speed {
            sensor_speed
        } else {
            observer_speed
        },
        low_erpm,
        high_erpm,
    )
}

fn crossover_blend(speed_erpm: u32, low_erpm: i32, high_erpm: i32) -> (r: Fixed)
    requires
        low_erpm < i32::MAX,
    ensures
        r.bits == crossover_bits(speed_erpm as int, low_erpm as int, high_erpm as int),
        0 <= r.bits <= 0x1_0000,
{
    let low: i32 = if low_erpm < 0 {
        0
    } else {
        low_erpm
    };
    let high: u32 = if high_erpm < low + 1 {
        (low + 1) as u32
    } else {
        high_erpm as u32
    };
    let low: u32 = low as u32;
    if speed_erpm <= low {
        Fixed::zero()
    } else if speed_erpm >= high {
        Fixed::one()
    } else {
        ratio_u32_q16(speed_erpm - low, high - low)
    }
}

/// Return an unsigned ratio in Q16.16 using the native word divider. The
/// operands are scaled together when the Q16 numerator would exceed a `u32`.
pub fn ratio_u32_q16(numerator: u32, denominator: u32) -> (r: Fixed)
    ensures
        r.bits == ratio_bits(numerator as int, denominator as int),
        0 <= r.bits <= 0x1_0000,
{
    if denominator == 0 || numerator >= denominator {
        return Fixed::one();
    }
    let (shift, unit) = arith::halvings(denominator, 0x1_0000);
    let scaled_numerator: u32 = numerator / unit;
    let quotient: u32 = denominator / unit;
    let scaled_denominator: u32 = if quotient < 1 {
        1
    } else {
        quotient
    };
    proof {
        let u = unit as int;
        let n = numerator as int;
        let d = denominator as int;
        assert(d / u <= 0xffff) by (nonlinear_arith)
            requires
                d < 0x1_0000 * u,
                u >= 1,
        ;
        assert(0 <= n / u <= d / u) by (nonlinear_arith)
            requires
                0 <= n <= d,
                u >= 1,
        ;
        let a = scaled_numerator as int;
        let b = scaled_denominator as int;
        assert(0 <= a * 0x1_0000 / b <= 0x1_0000) by (nonlinear_arith)
            requires
                0 <= a <= b,
                b >= 1,
        ;
    }
    Fixed::from_bits((scaled_numerator * 0x1_0000 / scaled_denominator) as i32)
}

fn mix_estimates(
    sensor: PhaseEstimate<Turns>,
    observer: PhaseEstimate<Turns>,
    blend: Fixed,
) -> (r: PhaseEstimate<Turns>)
    ensures
        r == mixed(sensor, observer, blend.bits as int),
{
    if blend.to_bits() == 0 {
        sensor
    } else if blend.to_bits() == 0x1_0000 {
        observer
    } else {
        blend_estimates(sensor, observer, blend)
    }
}

fn blend_estimates(
    sensor: PhaseEstimate<Turns>,
    observer: PhaseEstimate<Turns>,
    blend: Fixed,
) -> (r: PhaseEstimate<Turns>)
    ensures
        r == blended(sensor, observer, blend.bits as int),
{
    let angle_error: i32 = signed_angle_difference(observer.angle, sensor.angle);
    let blended_angle: u32 = arith::wrapping_add_u32_i32(
        sensor.angle,
        scale_i32(angle_error, blend),
    );
    let velocity_error: i32 = arith::sat_sub_i32(observer.electrical_rpm, sensor.electrical_rpm);
    PhaseEstimate {
        angle: blended_angle,
        electrical_rpm: arith::sat_add_i32(
            sensor.electrical_rpm,
            scale_i32(velocity_error, blend),
        ),
        trustworthy: sensor.trustworthy || observer.trustworthy,
    }
}

fn scale_i32(value: i32, scale: Fixed) -> (r: i32)
    ensures
        r == scaled(value as int, scale.bits as int),
{
    let product: i64 = arith::mul_i32_wide(value, scale.to_bits());
    proof {
        arith::lemma_i64(product);
    }
    arith::sat_i64_to_i32(product >> 16)
}

/// Selecting a source whose estimator is missing changes nothing; the Hall
/// sensor can always be selected.
pub proof fn law_refused_source_changes_nothing<H: PhaseProvider<Fixed, Angle = Turns>>(
    manager: PhaseManager<H>,
    source: PhaseSource,
)
    ensures
        !manager.grants_source(source) ==> manager.after_source_request(source) == manager,
        manager.grants_source(PhaseSource::Hall),
        manager.grants_source(source) ==> manager.after_source_request(source).source == source,
{
}

/// A pending seed request locks the observer to the next sensor estimate and is
/// served once.
pub proof fn law_requested_seed_is_served_once<H>(
    manager: PhaseManager<H>,
    sensor: PhaseEstimate<Turns>,
)
    requires
        manager.observer_seed_requested,
        manager.observer is Some,
    ensures
        !manager.after_choice(Some(sensor)).observer_seed_requested,
        manager.after_choice(Some(sensor)).observer->0.phase_pll == sensor.angle,
{
}

/// While the sensor keeps any authority, an observer that disagrees by more
/// than a quarter turn is never blended in: the sensor is followed exactly and
/// the observer takes over its phase.
pub proof fn law_ambiguous_phase_is_never_blended<H>(
    manager: PhaseManager<H>,
    sensor: PhaseEstimate<Turns>,
    low_erpm: i32,
    high_erpm: i32,
)
    requires
        manager.source == (PhaseSource::HallToObserver {
            blend_low_erpm: low_erpm,
            blend_high_erpm: high_erpm,
        }),
        manager.observer is Some,
        !manager.observer_seed_requested,
        arith::abs(arith::wrap_i32(manager.observer->0.phase_pll - sensor.angle))
            > BLEND_AMBIGUITY_Q32,
        shared_blend(
            sensor,
            manager.observer_view()->0,
            low_erpm as int,
            high_erpm as int,
        ) < 0x1_0000,
    ensures
        manager.chosen(Some(sensor)).estimate == Some(sensor),
        manager.observer->0.ready_latched ==> manager.after_choice(
            Some(sensor),
        ).observer->0.phase_pll == sensor.angle,
{
}

/// The crossover band divides the speed range: up to its low end the sensor is
/// followed exactly, from its high end a ready observer is, and an observer that
/// is not ready is never followed at all.
pub proof fn law_band_divides_the_speed_range<H>(
    manager: PhaseManager<H>,
    sensor: PhaseEstimate<Turns>,
    low_erpm: i32,
    high_erpm: i32,
)
    requires
        manager.source == (PhaseSource::HallToObserver {
            blend_low_erpm: low_erpm,
            blend_high_erpm: high_erpm,
        }),
        0 <= low_erpm < high_erpm,
    ensures
        ({
            let observer = manager.seed_served(Some(sensor)).observer_view();
            let estimate = manager.chosen(Some(sensor)).estimate;
            let ready = observer is Some && observer->0.trustworthy;
            let speed = arith::max(
                arith::abs(sensor.electrical_rpm as int),
                arith::abs(observer->0.electrical_rpm as int),
            );
            &&& !ready ==> estimate == Some(sensor)
            &&& ready && speed <= low_erpm ==> estimate == Some(sensor)
            &&& ready && speed >= high_erpm ==> estimate == observer
        }),
{
}

/// The observer's share grows with speed: zero at the low end of the band and
/// below, one at the high end and above.
pub proof fn law_crossover_grows_with_speed(slow: int, fast: int, low_erpm: int, high_erpm: int)
    requires
        0 <= slow <= fast <= u32::MAX,
        i32::MIN <= low_erpm < i32::MAX,
        i32::MIN <= high_erpm <= i32::MAX,
    ensures
        0 <= crossover_bits(slow, low_erpm, high_erpm) <= crossover_bits(fast, low_erpm, high_erpm)
            <= 0x1_0000,
        fast <= low_erpm ==> crossover_bits(fast, low_erpm, high_erpm) == 0,
        slow >= high_erpm > low_erpm && high_erpm > 0 ==> crossover_bits(slow, low_erpm, high_erpm)
            == 0x1_0000,
{
    let low = arith::max(low_erpm, 0);
    let high = arith::max(high_erpm, low + 1);
    if low < slow < high {
        lemma_ratio_grows(slow - low, arith::min(fast, high - 1) - low, high - low);
    } else if low < fast < high {
        lemma_ratio_grows(fast - low, fast - low, high - low);
    }
}

proof fn lemma_ratio_grows(small: int, large: int, denominator: int)
    requires
        0 <= small <= large < denominator <= u32::MAX,
    ensures
        0 <= ratio_bits(small, denominator) <= ratio_bits(large, denominator) <= 0x1_0000,
{
    arith::lemma_shift_below(denominator, 0x1_0000);
    let u = arith::unit(arith::shift_below(denominator, 0x1_0000));
    let b = arith::max(denominator / u, 1);
    assert(0 <= small / u <= large / u <= denominator / u) by (nonlinear_arith)
        requires
            0 <= small <= large <= denominator,
            u >= 1,
    ;
    let s = small / u;
    let l = large / u;
    assert(0 <= s * 0x1_0000 / b <= l * 0x1_0000 / b <= 0x1_0000) by (nonlinear_arith)
        requires
            0 <= s <= l <= b,
            b >= 1,
    ;
}

/// How far an estimate lies from the sensor's, in raw angle units, along the
/// shorter way round.
pub open spec fn angle_travel(sensor: PhaseEstimate<Turns>, other: PhaseEstimate<Turns>) -> int {
    arith::wrap_i32(other.angle - sensor.angle)
}

/// `travel` is the part `above / band` of `whole`, up to a unit and to three
/// steps of a Q16.16 share.
pub open spec fn is_share(travel: int, whole: int, above: int, band: int) -> bool {
    0x1_0000 * arith::abs(travel * band - whole * above) <= band * (0x1_0000 + 3 * arith::abs(
        whole,
    ))
}

/// `estimate` has left the sensor for the observer by as much as the rotor's
/// speed has entered the crossover band, in angle and in speed.
pub open spec fn crosses_over(
    sensor: PhaseEstimate<Turns>,
    observer: PhaseEstimate<Turns>,
    estimate: PhaseEstimate<Turns>,
    low_erpm: int,
    high_erpm: int,
) -> bool {
    let speed = arith::max(
        arith::abs(sensor.electrical_rpm as int),
        arith::abs(observer.electrical_rpm as int),
    );
    let difference = observer.electrical_rpm - sensor.electrical_rpm;
    &&& is_share(
        angle_travel(sensor, estimate),
        angle_travel(sensor, observer),
        speed - low_erpm,
        high_erpm - low_erpm,
    )
    &&& i32::MIN <= difference <= i32::MAX ==> is_share(
        estimate.electrical_rpm - sensor.electrical_rpm,
        difference,
        speed - low_erpm,
        high_erpm - low_erpm,
    )
    &&& estimate == sensor || estimate.trustworthy
}

/// Inside the crossover band the estimate moves from the sensor to the observer
/// in proportion to the speed: at a third of the band it has covered a third of
/// their disagreement, in angle and in speed. The reported share is that part,
/// and the reported error leads from the sensor to the observer. Between control
/// periods the same holds.
#[verifier::rlimit(40)]
pub proof fn law_crossover_is_proportional<H: PhaseProvider<Fixed, Angle = Turns>>(
    manager: PhaseManager<H>,
    elapsed_us: u32,
    control_period_ns: u32,
    low_erpm: i32,
    high_erpm: i32,
)
    requires
        manager.source == (PhaseSource::HallToObserver {
            blend_low_erpm: low_erpm,
            blend_high_erpm: high_erpm,
        }),
        0 <= low_erpm < high_erpm,
        !manager.observer_seed_requested,
        manager.observer is Some,
        manager.observer->0.ready_latched,
    ensures
        ({
            let observer = manager.observer_view()->0;
            let control = manager.hall.control_estimate_at(elapsed_us, control_period_ns);
            let sensor = control->0;
            let speed = arith::max(
                arith::abs(sensor.electrical_rpm as int),
                arith::abs(observer.electrical_rpm as int),
            );
            let next = manager.after_control_estimate(elapsed_us, control_period_ns);
            let chosen = manager.control_estimate_at(elapsed_us, control_period_ns);
            control is Some && low_erpm < speed < high_erpm && arith::abs(
                angle_travel(sensor, observer),
            ) <= 0x4000_0000 ==> {
                &&& chosen is Some
                &&& crosses_over(
                    sensor,
                    observer,
                    chosen->0,
                    low_erpm as int,
                    high_erpm as int,
                )
                &&& is_share(
                    next.last_observer_blend.bits as int,
                    0x1_0000,
                    speed - low_erpm,
                    high_erpm - low_erpm,
                )
                &&& arith::wrap_u32(sensor.angle + next.last_observer_hall_error_q32)
                    == observer.angle
                &&& next.observer == manager.observer
            }
        }),
        ({
            let observer = manager.observer_view()->0;
            let reading = manager.hall.estimate_at(elapsed_us);
            let sensor = reading->0;
            let speed = arith::max(
                arith::abs(sensor.electrical_rpm as int),
                arith::abs(observer.electrical_rpm as int),
            );
            let estimate = manager.estimate_at(elapsed_us);
            reading is Some && low_erpm < speed < high_erpm ==> estimate is Some && crosses_over(
                sensor,
                observer,
                estimate->0,
                low_erpm as int,
                high_erpm as int,
            )
        }),
{
    let observer = manager.observer_view()->0;
    let control = manager.hall.control_estimate_at(elapsed_us, control_period_ns);
    if control is Some {
        lemma_mixed_crosses_over(control->0, observer, low_erpm as int, high_erpm as int);
    }
    let reading = manager.hall.estimate_at(elapsed_us);
    if reading is Some {
        lemma_mixed_crosses_over(reading->0, observer, low_erpm as int, high_erpm as int);
    }
}

/// A manager follows the source that it was given: with the Hall source it hands
/// on the sensor's estimate unchanged, and with the observer source a ready
/// observer's or none.
pub proof fn law_selected_source_is_followed<H: PhaseProvider<Fixed, Angle = Turns>>(
    manager: PhaseManager<H>,
    elapsed_us: u32,
    control_period_ns: u32,
)
    ensures
        manager.source == PhaseSource::Hall ==> {
            &&& manager.estimate_at(elapsed_us) == manager.hall.estimate_at(elapsed_us)
            &&& manager.control_estimate_at(elapsed_us, control_period_ns)
                == manager.hall.control_estimate_at(elapsed_us, control_period_ns)
        },
        manager.source == PhaseSource::Observer && !manager.observer_seed_requested ==> ({
            let estimate = manager.estimate_at(elapsed_us);
            let ready = manager.observer is Some && manager.observer->0.ready_latched;
            &&& estimate is Some <==> ready
            &&& ready ==> estimate->0.angle == manager.observer->0.phase_pll
            &&& ready ==> estimate->0.electrical_rpm == manager.observer->0.erpm() as i32
            &&& manager.control_estimate_at(elapsed_us, control_period_ns) == estimate
        }),
        manager.source is HallToObserver && manager.hall.estimate_at(elapsed_us) is None
            && manager.observer is Some && manager.observer->0.ready_latched ==> ({
            let estimate = manager.estimate_at(elapsed_us);
            estimate is Some && estimate->0.angle == manager.observer->0.phase_pll
        }),
{
}

proof fn lemma_mixed_crosses_over(
    sensor: PhaseEstimate<Turns>,
    observer: PhaseEstimate<Turns>,
    low_erpm: int,
    high_erpm: int,
)
    requires
        0 <= low_erpm < high_erpm <= i32::MAX,
        observer.trustworthy,
    ensures
        ({
            let speed = arith::max(
                arith::abs(sensor.electrical_rpm as int),
                arith::abs(observer.electrical_rpm as int),
            );
            let share = shared_blend(sensor, observer, low_erpm, high_erpm);
            low_erpm < speed < high_erpm ==> {
                &&& crosses_over(
                    sensor,
                    observer,
                    mixed(sensor, observer, share),
                    low_erpm,
                    high_erpm,
                )
                &&& is_share(share, 0x1_0000, speed - low_erpm, high_erpm - low_erpm)
                &&& 0 <= share <= 0x1_0000
            }
        }),
{
    let speed = arith::max(
        arith::abs(sensor.electrical_rpm as int),
        arith::abs(observer.electrical_rpm as int),
    );
    if low_erpm < speed < high_erpm {
        let above = speed - low_erpm;
        let band = high_erpm - low_erpm;
        let share = shared_blend(sensor, observer, low_erpm, high_erpm);
        lemma_ratio_is_near(above, band);
        let mix = mixed(sensor, observer, share);
        let whole = angle_travel(sensor, observer);
        lemma_scaled_is_near(whole, share);
        assert(angle_travel(sensor, mix) == scaled(whole, share)) by {
            let part = scaled(whole, share);
            assert(arith::wrap_i32(arith::wrap_u32(sensor.angle + part) - sensor.angle) == part);
        }
        lemma_share(scaled(whole, share), whole, share, above, band);
        let difference = observer.electrical_rpm - sensor.electrical_rpm;
        if i32::MIN <= difference <= i32::MAX {
            lemma_scaled_is_near(difference, share);
            lemma_share(scaled(difference, share), difference, share, above, band);
        }
        let slip = share * band - 0x1_0000 * above;
        assert(0x1_0000 * arith::abs(slip) <= band * (0x1_0000 + 3 * 0x1_0000)) by (nonlinear_arith)
            requires
                -3 * band <= slip <= 3 * band,
                band > 0,
        ;
    }
}

/// A ratio is met to three steps of its resolution.
pub(crate) proof fn lemma_ratio_is_near(numerator: int, denominator: int)
    requires
        0 < numerator < denominator <= u32::MAX,
    ensures
        0 <= ratio_bits(numerator, denominator) <= 0x1_0000,
        -3 * denominator <= ratio_bits(numerator, denominator) * denominator - 0x1_0000 * numerator
            <= 3 * denominator,
{
    arith::lemma_shift_below(denominator, 0x1_0000);
    let u = arith::unit(arith::shift_below(denominator, 0x1_0000));
    let a = numerator / u;
    let q = denominator / u;
    assert(a * u <= numerator < a * u + u && q * u <= denominator < q * u + u) by (nonlinear_arith)
        requires
            a == numerator / u,
            q == denominator / u,
            u >= 1,
    ;
    assert(0 <= a <= q) by (nonlinear_arith)
        requires
            a * u <= numerator < a * u + u,
            q * u <= denominator < q * u + u,
            0 < numerator < denominator,
            u >= 1,
    ;
    let b = arith::max(q, 1);
    let r = a * 0x1_0000 / b;
    assert(r * b <= a * 0x1_0000 < r * b + b) by (nonlinear_arith)
        requires
            r == a * 0x1_0000 / b,
            b >= 1,
    ;
    assert(0 <= r <= 0x1_0000) by (nonlinear_arith)
        requires
            r * b <= a * 0x1_0000 < r * b + b,
            0 <= a <= b,
            b >= 1,
    ;
    if arith::shift_below(denominator, 0x1_0000) == 0 {
        vstd::arithmetic::power2::lemma2_to64();
        assert(a == numerator && q == denominator) by (nonlinear_arith)
            requires
                a * u <= numerator < a * u + u,
                q * u <= denominator < q * u + u,
                u == 1,
        ;
    } else {
        assert(q >= 0x8000) by (nonlinear_arith)
            requires
                denominator < q * u + u,
                denominator >= 0x8000 * u,
                u >= 1,
        ;
        assert(0x1_0000 * u <= 2 * denominator) by (nonlinear_arith)
            requires
                q * u <= denominator,
                q >= 0x8000,
                u >= 1,
        ;
        let r_low = r * (denominator - q * u);
        assert(0 <= r_low <= 0x1_0000 * u) by (nonlinear_arith)
            requires
                r_low == r * (denominator - q * u),
                0 <= r <= 0x1_0000,
                0 <= denominator - q * u <= u,
        ;
        assert(r * denominator == (r * q) * u + r_low) by (nonlinear_arith)
            requires
                r_low == r * (denominator - q * u),
        ;
        assert((r * q) * u <= (a * 0x1_0000) * u) by (nonlinear_arith)
            requires
                r * q <= a * 0x1_0000,
                u >= 1,
        ;
        assert((a * 0x1_0000) * u <= (r * q) * u + q * u) by (nonlinear_arith)
            requires
                a * 0x1_0000 <= r * q + q,
                u >= 1,
        ;
        assert((a * 0x1_0000) * u == 0x1_0000 * (a * u)) by (nonlinear_arith);
    }
}

proof fn lemma_scaled_is_near(value: int, share: int)
    requires
        i32::MIN <= value <= i32::MAX,
        0 <= share <= 0x1_0000,
    ensures
        share * value - 0x1_0000 < 0x1_0000 * scaled(value, share) <= share * value,
        arith::abs(scaled(value, share)) <= arith::abs(value),
        value >= 0 ==> 0 <= scaled(value, share),
        value <= 0 ==> scaled(value, share) <= 0,
        share == 0 ==> scaled(value, share) == 0,
        share == 0x1_0000 ==> scaled(value, share) == value,
{
    let product = value * share;
    assert(value >= 0 ==> 0 <= product <= value * 0x1_0000) by (nonlinear_arith)
        requires
            product == value * share,
            0 <= share <= 0x1_0000,
    ;
    assert(value <= 0 ==> value * 0x1_0000 <= product <= 0) by (nonlinear_arith)
        requires
            product == value * share,
            0 <= share <= 0x1_0000,
    ;
    assert(product == share * value) by (nonlinear_arith)
        requires
            product == value * share,
    ;
    assert(share == 0x1_0000 ==> product == value * 0x1_0000);
    assert(share == 0 ==> product == 0);
}

pub(crate) proof fn lemma_share(travel: int, whole: int, share: int, above: int, band: int)
    requires
        0 < above < band,
        share * whole - 0x1_0000 < 0x1_0000 * travel <= share * whole,
        -3 * band <= share * band - 0x1_0000 * above <= 3 * band,
    ensures
        is_share(travel, whole, above, band),
{
    let rest = share * whole - 0x1_0000 * travel;
    let slip = share * band - 0x1_0000 * above;
    assert(0x1_0000 * (travel * band - whole * above) == slip * whole - rest * band)
        by (nonlinear_arith)
        requires
            rest == share * whole - 0x1_0000 * travel,
            slip == share * band - 0x1_0000 * above,
    ;
    assert(0 <= rest * band <= 0x1_0000 * band) by (nonlinear_arith)
        requires
            0 <= rest <= 0x1_0000,
            band > 0,
    ;
    assert(arith::abs(slip * whole) <= 3 * (band * arith::abs(whole))) by (nonlinear_arith)
        requires
            -3 * band <= slip <= 3 * band,
            band > 0,
    ;
    assert(band * (0x1_0000 + 3 * arith::abs(whole)) == 0x1_0000 * band + 3 * (band * arith::abs(
        whole,
    ))) by (nonlinear_arith);
    let t = travel * band - whole * above;
    assert(0x1_0000 * arith::abs(t) == arith::abs(0x1_0000 * t));
}

/// The report shows the estimator as it stands: its flags, the latest share and
/// error, its speed and its measurements, with 255 for complete corroboration;
/// without an estimator it shows nothing.
pub proof fn law_report_shows_the_estimator<H>(manager: PhaseManager<H>)
    ensures
        manager.observer is None ==> !manager.reported().configured && !manager.reported().ready
            && !manager.reported().active,
        manager.observer is Some ==> ({
            let observer = manager.observer->0;
            let report = manager.reported();
            &&& report.configured
            &&& report.ready == observer.ready_latched
            &&& report.active == (manager.last_observer_blend.bits > 0)
            &&& report.blend == manager.last_observer_blend
            &&& report.hall_error_q32 == manager.last_observer_hall_error_q32
            &&& report.electrical_rpm == observer.erpm() as i32
            &&& report.confidence == observer.confidence
            &&& report.flux_magnitude_mwb == observer.flux_magnitude_mwb
            &&& report.bemf_q_v == observer.bemf_q_filtered_v
            &&& report.phase_error_filtered_q32 == observer.phase_error_filtered_q32
            &&& report.validity_progress == 255 <==> observer.valid_travel_q32 >= 0x1_fe00_0000
            &&& observer.valid_travel_q32 < 0x1_fe00_0000 ==> 0x200_0000 * report.validity_progress
                <= observer.valid_travel_q32 < 0x200_0000 * (report.validity_progress + 1)
        }),
{
}

/// A seed that is asked for, or forced by an ambiguous phase, takes over the
/// sensor's angle and speed both.
pub proof fn law_seed_takes_over_angle_and_speed<H>(
    manager: PhaseManager<H>,
    sensor: PhaseEstimate<Turns>,
)
    requires
        manager.observer is Some,
        manager.observer->0.control_frequency_hz == 16_000,
        -76_000 <= sensor.electrical_rpm <= 76_000,
    ensures
        manager.observer_seed_requested || manager.chosen(Some(sensor)).reseed ==> ({
            let observer = manager.after_choice(Some(sensor)).observer->0;
            &&& observer.phase_pll == sensor.angle
            &&& arith::abs(observer.erpm() - sensor.electrical_rpm) <= 2
        }),
        !manager.observer_seed_requested && !manager.chosen(Some(sensor)).reseed
            ==> manager.after_choice(Some(sensor)).observer == manager.observer,
{
    super::observer::law_speed_survives_step_conversion(sensor.electrical_rpm as int);
}

/// A sample reaches the sensor and the observer both, and neither selection nor
/// seeding changes with it.
pub proof fn law_sample_reaches_both_estimators<H: PhaseProvider<Fixed, Angle = Turns>>(
    manager: PhaseManager<H>,
    input: PhaseInput<Fixed>,
)
    ensures
        ({
            let next = manager.after_update(input);
            &&& next.hall == manager.hall.after_update(input)
            &&& manager.observer is Some ==> next.observer == Some(
                manager.observer->0.updated(input),
            )
            &&& manager.observer is None ==> next.observer is None
            &&& next.source == manager.source
            &&& next.observer_seed_requested == manager.observer_seed_requested
        }),
{
}

} // verus!
