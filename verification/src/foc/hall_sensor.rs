//! Calibrated Hall sensor and electrical-angle estimator in Q0.32 turns.
use vstd::prelude::*;

use crate::arith;
use crate::foc::control_types::Dq;
use crate::foc::numeric;
use crate::foc::numeric::Fixed;
use crate::foc::phase::manager;
use crate::foc::phase::{PhaseEstimate, PhaseInput, PhaseProvider, PhaseSource};
use crate::foc::trig::Turns;

verus! {

pub const MIN_EDGE_INTERVAL_US: u32 = 100;

pub const STALE_SECTOR_MULTIPLE: u32 = 8;

pub const RATE_LIMIT_MIN_ERPM: u32 = 500;

pub const HALF_MICROSECOND_NS: u32 = 500;

pub const TAU_NUMERATOR: u32 = 710;

pub const TAU_DENOMINATOR: u32 = 113;

/// Calibration of one Hall state: where its sector starts, how wide it is, and
/// which states border it.
#[derive(Clone, Copy, Debug, Default, Eq, PartialEq, Structural)]
pub struct HallSector {
    pub boundary_q16: u16,
    pub width_q16: u16,
    pub next_raw: u8,
    pub previous_raw: u8,
}

impl HallSector {
    /// Middle of the sector.
    pub open spec fn center(self) -> u16 {
        arith::wrap_u16(self.boundary_q16 + self.width_q16 / 2) as u16
    }
}

#[derive(Clone, Copy, Debug, Eq, PartialEq)]
pub struct HallGeometry {
    pub electrical_states: [u8; 6],
    pub boundaries_q16: [u16; 6],
    pub sectors_by_raw: [HallSector; 8],
    pub positive_angle_direction: i8,
}

/// A calibration describes six distinct Hall states with ordered boundaries.
pub open spec fn calibration_is_consistent(
    electrical_states: [u8; 6],
    boundaries_q16: [u16; 6],
    positive_angle_direction: i8,
) -> bool {
    &&& positive_angle_direction == -1 || positive_angle_direction == 1
    &&& forall|i: int|
        0 <= i < 6 ==> 0 < #[trigger] electrical_states[i] < 7
    &&& forall|i: int, j: int|
        0 <= i < j < 6 ==> #[trigger] electrical_states[i] != #[trigger] electrical_states[j]
    &&& forall|i: int, j: int|
        0 <= i < j < 6 ==> #[trigger] boundaries_q16[i] < #[trigger] boundaries_q16[j]
}

/// Sector at a position of the electrical sequence.
pub open spec fn sector_at(
    electrical_states: [u8; 6],
    boundaries_q16: [u16; 6],
    index: int,
) -> HallSector {
    let next = if index == 5 {
        0
    } else {
        index + 1
    };
    let previous = if index == 0 {
        5
    } else {
        index - 1
    };
    HallSector {
        boundary_q16: boundaries_q16[index],
        width_q16: arith::wrap_u16(boundaries_q16[next] - boundaries_q16[index]) as u16,
        next_raw: electrical_states[next],
        previous_raw: electrical_states[previous],
    }
}

impl HallGeometry {
    /// The sector table follows from the consistent calibration.
    pub open spec fn wf(self) -> bool {
        &&& calibration_is_consistent(
            self.electrical_states,
            self.boundaries_q16,
            self.positive_angle_direction,
        )
        &&& forall|i: int|
            0 <= i < 6 ==> self.sectors_by_raw[self.electrical_states[i] as int]
                == #[trigger] sector_at(self.electrical_states, self.boundaries_q16, i)
        &&& self.sectors_by_raw[0].width_q16 == 0
        &&& self.sectors_by_raw[7].width_q16 == 0
    }

    /// Sector of a raw state; `None` for a state that does not occur.
    pub open spec fn sector_of(self, raw: u8) -> Option<HallSector> {
        if raw < 8 && self.sectors_by_raw[raw as int].width_q16 != 0 {
            Some(self.sectors_by_raw[raw as int])
        } else {
            None
        }
    }

    /// Build a calibration from the Hall states in order of electrical angle
    /// and the Q0.16 angle at which each state begins.
    pub fn new(
        electrical_states: [u8; 6],
        boundaries_q16: [u16; 6],
        positive_angle_direction: i8,
    ) -> (r: Self)
        requires
            calibration_is_consistent(electrical_states, boundaries_q16, positive_angle_direction),
        ensures
            r.wf(),
            r.electrical_states == electrical_states,
            r.boundaries_q16 == boundaries_q16,
            r.positive_angle_direction == positive_angle_direction,
            forall|i: int|
                0 <= i < 6 ==> r.sector_of(electrical_states[i]) == Some(
                    #[trigger] sector_at(electrical_states, boundaries_q16, i),
                ),
            r.sector_of(0) is None,
            forall|raw: u8| raw >= 7 ==> (#[trigger] r.sector_of(raw)) is None,
    {
        let empty = HallSector { boundary_q16: 0, width_q16: 0, next_raw: 0, previous_raw: 0 };
        let mut sectors_by_raw: [HallSector; 8] = [empty;8];
        let mut index: usize = 0;
        while index < 6
            invariant
                index <= 6,
                calibration_is_consistent(
                    electrical_states,
                    boundaries_q16,
                    positive_angle_direction,
                ),
                forall|i: int|
                    0 <= i < index ==> sectors_by_raw[electrical_states[i] as int]
                        == #[trigger] sector_at(electrical_states, boundaries_q16, i),
                sectors_by_raw[0].width_q16 == 0,
                sectors_by_raw[7].width_q16 == 0,
            decreases 6 - index,
        {
            let sector = sector_between(&electrical_states, &boundaries_q16, index);
            let raw: usize = electrical_states[index] as usize;
            let ghost before = sectors_by_raw;
            sectors_by_raw[raw] = sector;
            assert forall|i: int| 0 <= i < index + 1 implies sectors_by_raw[electrical_states[i] as int]
                == #[trigger] sector_at(electrical_states, boundaries_q16, i) by {
                if i < index {
                    assert(electrical_states[i] != electrical_states[index as int]);
                    assert(sectors_by_raw[electrical_states[i] as int]
                        == before[electrical_states[i] as int]);
                }
            }
            index = index + 1;
        }
        let geometry = HallGeometry {
            electrical_states,
            boundaries_q16,
            sectors_by_raw,
            positive_angle_direction,
        };
        assert forall|i: int| 0 <= i < 6 implies geometry.sector_of(electrical_states[i]) == Some(
            #[trigger] sector_at(electrical_states, boundaries_q16, i),
        ) by {
            lemma_sector_has_width(electrical_states, boundaries_q16, positive_angle_direction, i);
        }
        geometry
    }

    pub fn electrical_states(&self) -> (r: &[u8; 6])
        ensures
            *r == self.electrical_states,
    {
        &self.electrical_states
    }

    pub fn boundaries_q16(&self) -> (r: &[u16; 6])
        ensures
            *r == self.boundaries_q16,
    {
        &self.boundaries_q16
    }

    pub fn raw_is_valid(&self, raw: u8) -> (r: bool)
        ensures
            r == (self.sector_of(raw) is Some),
    {
        self.sector(raw).is_some()
    }

    pub fn calibrated_center(&self, raw: u8) -> (r: u16)
        ensures
            r == (match self.sector_of(raw) {
                Some(sector) => sector.center(),
                None => 0,
            }),
    {
        match self.sector(raw) {
            Some(sector) => sector.boundary_q16.wrapping_add(sector.width_q16 / 2),
            None => 0,
        }
    }

    pub fn sector(&self, raw: u8) -> (r: Option<HallSector>)
        ensures
            r == self.sector_of(raw),
    {
        if raw >= 8 {
            return None;
        }
        let sector = self.sectors_by_raw[raw as usize];
        if sector.width_q16 == 0 {
            None
        } else {
            Some(sector)
        }
    }

    /// Motion with respect to the configured forward direction.
    fn signed_motion_direction(&self, angle_direction: i8) -> (r: i8)
        ensures
            r == arith::sat_i8(angle_direction * self.positive_angle_direction),
    {
        assert(-0x4000 <= angle_direction * self.positive_angle_direction <= 0x4000)
            by (nonlinear_arith)
            requires
                -0x80 <= angle_direction <= 0x7f,
                -0x80 <= self.positive_angle_direction <= 0x7f,
        ;
        let product: i32 = angle_direction as i32 * self.positive_angle_direction as i32;
        if product > i8::MAX as i32 {
            i8::MAX
        } else if product < i8::MIN as i32 {
            i8::MIN
        } else {
            product as i8
        }
    }
}

/// Sector of the state at a position of the electrical sequence.
fn sector_between(
    electrical_states: &[u8; 6],
    boundaries_q16: &[u16; 6],
    index: usize,
) -> (r: HallSector)
    requires
        index < 6,
    ensures
        r == sector_at(*electrical_states, *boundaries_q16, index as int),
{
    let next_index: usize = if index == 5 {
        0
    } else {
        index + 1
    };
    let previous_index: usize = if index == 0 {
        5
    } else {
        index - 1
    };
    HallSector {
        boundary_q16: boundaries_q16[index],
        width_q16: boundaries_q16[next_index].wrapping_sub(boundaries_q16[index]),
        next_raw: electrical_states[next_index],
        previous_raw: electrical_states[previous_index],
    }
}

proof fn lemma_sector_has_width(
    electrical_states: [u8; 6],
    boundaries_q16: [u16; 6],
    positive_angle_direction: i8,
    index: int,
)
    requires
        calibration_is_consistent(electrical_states, boundaries_q16, positive_angle_direction),
        0 <= index < 6,
    ensures
        sector_at(electrical_states, boundaries_q16, index).width_q16 != 0,
{
    if index == 5 {
        assert(boundaries_q16[0] < boundaries_q16[5]);
    } else {
        assert(boundaries_q16[index] < boundaries_q16[index + 1]);
    }
}

#[derive(Clone, Copy, Debug, PartialEq, Eq, Structural)]
pub enum HallError {
    InvalidState,
    InvalidTransition,
    EdgeTooFast,
}

/// `interval * numerator / denominator` rounded down, at most the largest
/// word; zero without a denominator.
pub open spec fn scaled_interval(interval: int, numerator: int, denominator: int) -> int {
    if denominator == 0 {
        0
    } else {
        arith::sat_u32(interval * numerator / denominator)
    }
}

#[derive(Clone, Copy, Debug, PartialEq, Eq)]
pub struct HallSensor {
    pub geometry: &'static HallGeometry,
    pub raw: u8,
    pub base_angle_q16: u16,
    pub measured_width_q16: u16,
    pub entered_width_q16: u16,
    pub entered_duration_us: u32,
    pub measured_interval_us: u32,
    pub direction: i8,
    pub next_interval_since_run_start: bool,
    pub rate_limited_angle: Turns,
    pub unlimited_angle: Turns,
    pub control_period_ns: u32,
    pub control_step_q16: u32,
    pub actuation_advance: Fixed,
    pub valid: bool,
}

impl HallSensor {
    /// A sensor that has seen nothing.
    pub open spec fn unseeded(geometry: &'static HallGeometry) -> Self {
        HallSensor {
            geometry,
            raw: 0,
            base_angle_q16: 0,
            measured_width_q16: 0,
            entered_width_q16: 0,
            entered_duration_us: 0,
            measured_interval_us: 0,
            direction: 0,
            next_interval_since_run_start: false,
            rate_limited_angle: 0,
            unlimited_angle: 0,
            control_period_ns: 0,
            control_step_q16: 0,
            actuation_advance: numeric::fixed(0),
            valid: false,
        }
    }

    /// The sensor with its angle revoked.
    pub open spec fn revoked(self) -> Self {
        HallSensor { valid: false, ..self }
    }

    /// The sensor standing at the center of a sector.
    pub open spec fn seeded(self, raw: u8, sector: HallSector) -> Self {
        HallSensor {
            raw,
            base_angle_q16: sector.center(),
            measured_width_q16: sector.width_q16,
            entered_width_q16: sector.width_q16,
            entered_duration_us: 0,
            measured_interval_us: 0,
            direction: 0,
            next_interval_since_run_start: false,
            rate_limited_angle: (sector.center() * 0x1_0000) as u32,
            unlimited_angle: (sector.center() * 0x1_0000) as u32,
            control_step_q16: 0,
            actuation_advance: numeric::fixed(0),
            valid: true,
            ..self
        }
    }

    /// Angle motion of a step from the present sector into `raw`: -1 backward,
    /// 1 forward, 0 for a state that does not border the present one.
    pub open spec fn step_direction(self, raw: u8) -> int {
        match self.geometry.sector_of(self.raw) {
            Some(sector) => if raw == sector.previous_raw {
                -1
            } else if raw == sector.next_raw {
                1
            } else {
                0
            },
            None => 0,
        }
    }

    /// Boundary through which a sector is entered.
    pub open spec fn entered_boundary(sector: HallSector, direction: int) -> int {
        if direction < 0 {
            arith::wrap_u16(sector.boundary_q16 + sector.width_q16)
        } else {
            sector.boundary_q16 as int
        }
    }

    /// Interval and width that say how fast the sector just left was crossed.
    /// The first interval of a run starts at the sector center. It keeps an
    /// earlier measurement in the same direction. A sensor that stood at the
    /// center, or that last moved the other way, extends the part from the
    /// center to the boundary to the whole sector. A sensor that has only
    /// crossed one boundary, in the same direction, knows nothing.
    pub open spec fn edge_timing(
        self,
        left: HallSector,
        direction: int,
        boundary: int,
        interval_us: u32,
    ) -> Option<(int, int)> {
        if !self.next_interval_since_run_start {
            Some((interval_us as int, left.width_q16 as int))
        } else if self.direction == direction && self.measured_interval_us != 0 {
            Some((self.measured_interval_us as int, self.measured_width_q16 as int))
        } else if self.direction != direction || self.base_angle_q16 == left.center() {
            let travelled = if direction < 0 {
                arith::wrap_u16(left.center() - boundary)
            } else {
                arith::wrap_u16(boundary - left.center())
            };
            if travelled == 0 {
                None
            } else {
                Some(
                    (
                        scaled_interval(interval_us as int, left.width_q16 as int, travelled),
                        left.width_q16 as int,
                    ),
                )
            }
        } else {
            None
        }
    }

    /// The timed part of an edge is known to be physical: a standing sensor's
    /// first unmarked interval is not judged.
    pub open spec fn edge_is_too_fast(self, interval: int) -> bool {
        (self.direction != 0 || self.next_interval_since_run_start) && interval
            < MIN_EDGE_INTERVAL_US
    }

    /// What a captured edge reports.
    pub open spec fn edge_outcome(self, raw: u8, interval_us: u32) -> Result<(), HallError> {
        match self.geometry.sector_of(raw) {
            None => Err(HallError::InvalidState),
            Some(entered) => if !self.valid || raw == self.raw {
                Ok(())
            } else {
                match self.geometry.sector_of(self.raw) {
                    None => Err(HallError::InvalidState),
                    Some(left) => self.crossing_outcome(
                        left,
                        entered,
                        self.step_direction(raw),
                        interval_us,
                    ),
                }
            },
        }
    }

    /// What a step out of one sector into another reports.
    pub open spec fn crossing_outcome(
        self,
        left: HallSector,
        entered: HallSector,
        direction: int,
        interval_us: u32,
    ) -> Result<(), HallError> {
        let boundary = HallSensor::entered_boundary(entered, direction);
        if direction == 0 {
            Err(HallError::InvalidTransition)
        } else {
            match self.edge_timing(left, direction, boundary, interval_us) {
                None => Err(HallError::InvalidTransition),
                Some((interval, _)) => if self.edge_is_too_fast(interval) {
                    Err(HallError::EdgeTooFast)
                } else {
                    Ok(())
                },
            }
        }
    }

    /// The sensor after a step out of one sector into another.
    pub open spec fn crossed(
        self,
        raw: u8,
        left: HallSector,
        entered: HallSector,
        direction: int,
        interval_us: u32,
    ) -> Self {
        let boundary = HallSensor::entered_boundary(entered, direction);
        let refused = HallSensor { next_interval_since_run_start: false, valid: false, ..self };
        if direction == 0 {
            refused
        } else {
            match self.edge_timing(left, direction, boundary, interval_us) {
                None => refused,
                Some((interval, width)) => if self.edge_is_too_fast(interval) {
                    refused
                } else {
                    self.moved(raw, entered, direction, boundary, interval, width)
                },
            }
        }
    }

    /// The sensor after a captured edge. A refused edge revokes the angle.
    pub open spec fn after_edge(self, raw: u8, interval_us: u32) -> Self {
        match self.geometry.sector_of(raw) {
            None => self.revoked(),
            Some(entered) => if !self.valid {
                self.seeded(raw, entered)
            } else if raw == self.raw {
                self
            } else {
                match self.geometry.sector_of(self.raw) {
                    None => self.revoked(),
                    Some(left) => self.crossed(
                        raw,
                        left,
                        entered,
                        self.step_direction(raw),
                        interval_us,
                    ),
                }
            },
        }
    }

    /// An edge recrosses the boundary of the edge before it: the time between
    /// the two says nothing of how fast a sector is crossed.
    pub open spec fn reverses(self, direction: int) -> bool {
        !self.next_interval_since_run_start && self.direction != 0 && self.direction != direction
    }

    /// The sensor after entering a neighbouring sector. Without a complete
    /// interval the sensor has no speed; after a reversal it is held at the
    /// center of the entered sector.
    pub open spec fn moved(
        self,
        raw: u8,
        entered: HallSector,
        direction: int,
        boundary: int,
        interval: int,
        width: int,
    ) -> Self {
        let reversed = self.reverses(direction);
        let unmeasured = reversed || self.direction == 0 && !self.next_interval_since_run_start;
        let sensor = HallSensor {
            raw,
            base_angle_q16: if reversed {
                entered.center()
            } else {
                boundary as u16
            },
            measured_width_q16: width as u16,
            entered_width_q16: entered.width_q16,
            measured_interval_us: if unmeasured {
                0
            } else {
                interval as u32
            },
            entered_duration_us: if unmeasured {
                0
            } else {
                arith::max(scaled_interval(interval, entered.width_q16 as int, width), 1) as u32
            },
            direction: direction as i8,
            next_interval_since_run_start: false,
            ..self
        };
        sensor.rated(self.control_period_ns)
    }

    /// The sensor with its per-cycle motion derived for a control period.
    pub open spec fn rated(self, control_period_ns: u32) -> Self {
        let step = if self.direction == 0 || self.measured_interval_us == 0 || control_period_ns
            == 0 {
            0
        } else {
            arith::sat_u32(
                self.measured_width_q16 * (arith::sat_u32(control_period_ns + 250) / 500),
            ) / arith::max(arith::sat_u32(2 * self.measured_interval_us), 1)
        };
        let radians = arith::min(
            arith::sat_u32(step * TAU_NUMERATOR) / TAU_DENOMINATOR as int,
            i32::MAX as int,
        );
        HallSensor {
            control_period_ns,
            control_step_q16: step as u32,
            actuation_advance: numeric::fixed(
                if self.direction < 0 {
                    -radians
                } else {
                    radians
                },
            ),
            ..self
        }
    }

    /// Calibrated center of the present sector.
    pub open spec fn sector_center(self) -> u16 {
        match self.geometry.sector_of(self.raw) {
            Some(sector) => sector.center(),
            None => self.base_angle_q16,
        }
    }

    /// Speed that is still possible a given time after the last edge: once the
    /// entered sector takes longer than expected, the speed at which it would
    /// be left just now.
    pub open spec fn decayed_erpm(self, edge_age_us: u32) -> int {
        if edge_age_us == 0 {
            self.erpm_magnitude()
        } else {
            arith::min(
                self.erpm_magnitude(),
                arith::sat_u32(self.entered_width_q16 * 234_375) / edge_age_us as int / 256,
            )
        }
    }

    /// Too slow to interpolate within the sector.
    pub open spec fn is_slow(self, edge_age_us: u32) -> bool {
        self.decayed_erpm(edge_age_us) < RATE_LIMIT_MIN_ERPM
    }

    /// Angle a given time after the last edge: `None` when it is revoked, the
    /// sector center at low speed, `None` when an estimate at speed has gone
    /// stale, the interpolated position in the sector otherwise.
    pub open spec fn angle_at(self, edge_age_us: u32) -> Option<Turns> {
        if !self.valid {
            None
        } else if self.is_slow(edge_age_us) {
            Some((self.sector_center() * 0x1_0000) as u32)
        } else if edge_age_us > arith::sat_u32(self.entered_duration_us * STALE_SECTOR_MULTIPLE) {
            None
        } else {
            let advance = self.sector_advance(edge_age_us as int);
            Some(
                (arith::wrap_u16(
                    if self.direction < 0 {
                        self.base_angle_q16 - advance
                    } else {
                        self.base_angle_q16 + advance
                    },
                ) * 0x1_0000) as u32,
            )
        }
    }

    /// Part of the entered sector covered after some time, at most all of it.
    pub open spec fn sector_advance(self, edge_age_us: int) -> int {
        let duration = self.entered_duration_us as int;
        let unit = arith::unit(arith::shift_below(duration, 0x1_0000));
        let elapsed = arith::min(edge_age_us, duration) / unit;
        let fraction_q16 = elapsed * 0x1_0000 / arith::max(duration / unit, 1);
        self.entered_width_q16 * fraction_q16 / 0x1_0000
    }

    /// Speed from the measured sector, without a sign.
    pub open spec fn erpm_magnitude(self) -> int {
        if self.direction == 0 || self.measured_interval_us == 0 {
            0
        } else {
            arith::sat_u32(self.measured_width_q16 * 234_375) / self.measured_interval_us as int
                / 256
        }
    }

    /// Speed in the electrical-angle coordinate.
    pub open spec fn angle_erpm(self) -> int {
        if self.direction < 0 {
            -self.erpm_magnitude()
        } else {
            self.erpm_magnitude()
        }
    }

    /// Largest angle correction of one control cycle: one and a half times the
    /// expected motion.
    pub open spec fn maximum_step(self) -> int {
        let limit = arith::sat_u32(self.control_step_q16 + self.control_step_q16 / 2);
        arith::clamp(limit * 0x1_0000, 1, i32::MAX as int)
    }

    /// The sensor after serving a control estimate.
    pub open spec fn served(self, edge_age_us: u32, control_period_ns: u32) -> Self {
        let sensor = if control_period_ns != self.control_period_ns {
            self.rated(control_period_ns)
        } else {
            self
        };
        match sensor.angle_at(edge_age_us) {
            None => sensor,
            Some(target) => HallSensor {
                unlimited_angle: target,
                rate_limited_angle: if sensor.is_slow(edge_age_us) {
                    target
                } else {
                    let limit = sensor.maximum_step();
                    let desired = arith::wrap_i32(target - sensor.rate_limited_angle);
                    arith::wrap_u32(
                        sensor.rate_limited_angle + arith::clamp(desired, -limit, limit),
                    ) as u32
                },
                ..sensor
            },
        }
    }

    pub fn new(geometry: &'static HallGeometry) -> (r: Self)
        ensures
            r == HallSensor::unseeded(geometry),
    {
        HallSensor {
            geometry,
            raw: 0,
            base_angle_q16: 0,
            measured_width_q16: 0,
            entered_width_q16: 0,
            entered_duration_us: 0,
            measured_interval_us: 0,
            direction: 0,
            next_interval_since_run_start: false,
            rate_limited_angle: 0,
            unlimited_angle: 0,
            control_period_ns: 0,
            control_step_q16: 0,
            actuation_advance: Fixed::zero(),
            valid: false,
        }
    }

    /// Place the sensor at the center of a raw state's sector.
    pub fn seed(&mut self, raw: u8) -> (r: Result<(), HallError>)
        ensures
            match old(self).geometry.sector_of(raw) {
                None => r == Err::<(), HallError>(HallError::InvalidState) && *final(self)
                    == old(self).revoked(),
                Some(sector) => r == Ok::<(), HallError>(()) && *final(self) == old(self).seeded(
                    raw,
                    sector,
                ),
            },
    {
        let sector = match self.geometry.sector(raw) {
            Some(sector) => sector,
            None => {
                self.valid = false;
                return Err(HallError::InvalidState);
            },
        };
        self.raw = raw;
        self.base_angle_q16 = sector.boundary_q16.wrapping_add(sector.width_q16 / 2);
        self.measured_width_q16 = sector.width_q16;
        self.entered_width_q16 = sector.width_q16;
        self.entered_duration_us = 0;
        self.measured_interval_us = 0;
        self.direction = 0;
        self.next_interval_since_run_start = false;
        self.rate_limited_angle = self.base_angle_q16 as u32 * 0x1_0000;
        self.unlimited_angle = self.rate_limited_angle;
        self.control_step_q16 = 0;
        self.actuation_advance = Fixed::zero();
        self.valid = true;
        Ok(())
    }

    /// Marks the next captured interval as beginning at the stationary sector
    /// center when the ride lease starts, rather than at an earlier idle edge.
    pub fn discard_next_interval(&mut self)
        ensures
            *final(self) == (HallSensor { next_interval_since_run_start: true, ..*old(self) }),
    {
        self.next_interval_since_run_start = true;
    }

    pub fn update_edge(&mut self, raw: u8, interval_us: u32) -> (r: Result<(), HallError>)
        ensures
            r == old(self).edge_outcome(raw, interval_us),
            *final(self) == old(self).after_edge(raw, interval_us),
    {
        let entered_sector = match self.geometry.sector(raw) {
            Some(sector) => sector,
            None => {
                self.valid = false;
                return Err(HallError::InvalidState);
            },
        };
        if !self.valid {
            return self.seed(raw);
        }
        if raw == self.raw {
            return Ok(());
        }
        let previous_sector = match self.geometry.sector(self.raw) {
            Some(sector) => sector,
            None => {
                self.valid = false;
                return Err(HallError::InvalidState);
            },
        };
        let direction: i8 = if raw == previous_sector.previous_raw {
            -1
        } else if raw == previous_sector.next_raw {
            1
        } else {
            0
        };
        self.cross(raw, previous_sector, entered_sector, direction, interval_us)
    }

    fn cross(
        &mut self,
        raw: u8,
        previous_sector: HallSector,
        entered_sector: HallSector,
        direction: i8,
        interval_us: u32,
    ) -> (r: Result<(), HallError>)
        requires
            -1 <= direction <= 1,
        ensures
            r == old(self).crossing_outcome(
                previous_sector,
                entered_sector,
                direction as int,
                interval_us,
            ),
            *final(self) == old(self).crossed(
                raw,
                previous_sector,
                entered_sector,
                direction as int,
                interval_us,
            ),
    {
        if direction == 0 {
            self.next_interval_since_run_start = false;
            self.valid = false;
            return Err(HallError::InvalidTransition);
        }
        let boundary_q16: u16 = if direction < 0 {
            entered_sector.boundary_q16.wrapping_add(entered_sector.width_q16)
        } else {
            entered_sector.boundary_q16
        };
        let timing = self.time_edge(previous_sector, direction, boundary_q16, interval_us);
        let (measured_interval_us, measured_width_q16) = match timing {
            Some(timing) => timing,
            None => {
                self.next_interval_since_run_start = false;
                self.valid = false;
                return Err(HallError::InvalidTransition);
            },
        };
        if (self.direction != 0 || self.next_interval_since_run_start) && measured_interval_us
            < MIN_EDGE_INTERVAL_US {
            self.next_interval_since_run_start = false;
            self.valid = false;
            return Err(HallError::EdgeTooFast);
        }
        self.enter_sector(
            raw,
            entered_sector,
            direction,
            boundary_q16,
            measured_interval_us,
            measured_width_q16,
        );
        Ok(())
    }

    fn enter_sector(
        &mut self,
        raw: u8,
        entered_sector: HallSector,
        direction: i8,
        boundary_q16: u16,
        measured_interval_us: u32,
        measured_width_q16: u16,
    )
        ensures
            *final(self) == old(self).moved(
                raw,
                entered_sector,
                direction as int,
                boundary_q16 as int,
                measured_interval_us as int,
                measured_width_q16 as int,
            ),
    {
        let reversed = !self.next_interval_since_run_start && self.direction != 0 && self.direction
            != direction;
        self.raw = raw;
        self.base_angle_q16 = if reversed {
            entered_sector.boundary_q16.wrapping_add(entered_sector.width_q16 / 2)
        } else {
            boundary_q16
        };
        self.measured_width_q16 = measured_width_q16;
        self.entered_width_q16 = entered_sector.width_q16;
        if reversed || self.direction == 0 && !self.next_interval_since_run_start {
            self.entered_duration_us = 0;
            self.measured_interval_us = 0;
        } else {
            self.measured_interval_us = measured_interval_us;
            let duration: u32 = scale_interval(
                self.measured_interval_us,
                self.entered_width_q16,
                self.measured_width_q16,
            );
            self.entered_duration_us = if duration == 0 {
                1
            } else {
                duration
            };
        }
        self.next_interval_since_run_start = false;
        self.direction = direction;
        self.refresh_control_rate(self.control_period_ns);
    }

    fn time_edge(
        &self,
        left: HallSector,
        direction: i8,
        boundary_q16: u16,
        interval_us: u32,
    ) -> (r: Option<(u32, u16)>)
        requires
            direction == -1 || direction == 1,
        ensures
            match self.edge_timing(left, direction as int, boundary_q16 as int, interval_us) {
                None => r is None,
                Some((interval, width)) => r == Some((interval as u32, width as u16)),
            },
    {
        if !self.next_interval_since_run_start {
            return Some((interval_us, left.width_q16));
        }
        if self.direction == direction && self.measured_interval_us != 0 {
            return Some((self.measured_interval_us, self.measured_width_q16));
        }
        let center_q16: u16 = left.boundary_q16.wrapping_add(left.width_q16 / 2);
        if self.direction == direction && self.base_angle_q16 != center_q16 {
            return None;
        }
        let partial_width: u16 = if direction < 0 {
            center_q16.wrapping_sub(boundary_q16)
        } else {
            boundary_q16.wrapping_sub(center_q16)
        };
        if partial_width == 0 {
            return None;
        }
        let equivalent: u32 = scale_interval(interval_us, left.width_q16, partial_width);
        Some((equivalent, left.width_q16))
    }

    pub fn angle(&self, edge_age_us: u32) -> (r: Option<Turns>)
        ensures
            r == self.angle_at(edge_age_us),
    {
        if !self.valid {
            return None;
        }
        if self.moves_slowly(edge_age_us) {
            return Some(self.center_q16() as u32 * 0x1_0000);
        }
        if edge_age_us > arith::sat_mul_u32(self.entered_duration_us, STALE_SECTOR_MULTIPLE) {
            return None;
        }
        let (shift, unit) = arith::halvings(self.entered_duration_us, 0x1_0000);
        let limited: u32 = if edge_age_us < self.entered_duration_us {
            edge_age_us
        } else {
            self.entered_duration_us
        };
        let scaled_elapsed: u32 = limited / unit;
        let scaled_sector: u32 = self.entered_duration_us / unit;
        proof {
            let u = unit as int;
            let d = self.entered_duration_us as int;
            assert(d / u <= 0xffff) by (nonlinear_arith)
                requires
                    d < 0x1_0000 * u,
                    u >= 1,
            ;
            assert(limited as int / u <= d / u) by (nonlinear_arith)
                requires
                    0 <= limited <= d,
                    u >= 1,
            ;
        }
        let divisor: u32 = if scaled_sector < 1 {
            1
        } else {
            scaled_sector
        };
        let fraction_q16: u32 = (scaled_elapsed * 0x1_0000) / divisor;
        let width: u32 = self.entered_width_q16 as u32;
        proof {
            assert(fraction_q16 <= 0x1_0000) by (nonlinear_arith)
                requires
                    fraction_q16 == scaled_elapsed * 0x1_0000 / divisor as int,
                    0 <= scaled_elapsed <= divisor,
                    divisor >= 1,
            ;
            assert(0 <= width * fraction_q16 <= 0xffff * 0x1_0000) by (nonlinear_arith)
                requires
                    0 <= width <= 0xffff,
                    0 <= fraction_q16 <= 0x1_0000,
            ;
        }
        let advance_q16: u16 = ((width * fraction_q16) / 0x1_0000) as u16;
        assert(advance_q16 == self.sector_advance(edge_age_us as int));
        let angle_q16: u16 = if self.direction < 0 {
            self.base_angle_q16.wrapping_sub(advance_q16)
        } else {
            self.base_angle_q16.wrapping_add(advance_q16)
        };
        Some(angle_q16 as u32 * 0x1_0000)
    }

    fn center_q16(&self) -> (r: u16)
        ensures
            r == self.sector_center(),
    {
        match self.geometry.sector(self.raw) {
            Some(sector) => sector.boundary_q16.wrapping_add(sector.width_q16 / 2),
            None => self.base_angle_q16,
        }
    }

    fn moves_slowly(&self, edge_age_us: u32) -> (r: bool)
        ensures
            r == self.is_slow(edge_age_us),
    {
        let measured: u32 = self.electrical_rpm_magnitude() as u32;
        if measured < RATE_LIMIT_MIN_ERPM {
            return true;
        }
        if edge_age_us == 0 {
            return false;
        }
        arith::sat_mul_u32(self.entered_width_q16 as u32, 234_375) / edge_age_us / 256
            < RATE_LIMIT_MIN_ERPM
    }

    pub fn is_valid(&self) -> (r: bool)
        ensures
            r == self.valid,
    {
        self.valid
    }

    pub fn raw_state(&self) -> (r: u8)
        ensures
            r == self.raw,
    {
        self.raw
    }

    pub fn sector_interval_us(&self) -> (r: u32)
        ensures
            r == self.measured_interval_us,
    {
        self.measured_interval_us
    }

    pub fn entered_duration_us(&self) -> (r: u32)
        ensures
            r == self.entered_duration_us,
    {
        self.entered_duration_us
    }

    /// Unconstrained Hall interpolation target from the latest control
    /// estimate. This remains separate from the angle actually supplied to
    /// the current loop so transition corrections can be diagnosed.
    pub fn unlimited_angle(&self) -> (r: Turns)
        ensures
            r == self.unlimited_angle,
    {
        self.unlimited_angle
    }

    /// Signed electrical-angle travel expected during one control period,
    /// expressed as Q16.16 radians for output-only actuation compensation.
    pub fn actuation_advance(&self) -> (r: Fixed)
        ensures
            r == self.actuation_advance,
    {
        self.actuation_advance
    }

    /// Signed speed with respect to the configured physical forward direction.
    pub fn electrical_rpm(&self) -> (r: i32)
        ensures
            r == (if self.direction * self.geometry.positive_angle_direction < 0 {
                -self.erpm_magnitude()
            } else {
                self.erpm_magnitude()
            }),
    {
        let magnitude: i32 = self.electrical_rpm_magnitude();
        if self.physical_direction() < 0 {
            -magnitude
        } else {
            magnitude
        }
    }

    /// Signed speed in the calibrated electrical-angle coordinate.
    ///
    /// [`Self::electrical_rpm`] follows the configured physical forward
    /// direction for vehicle policy. Phase estimators instead need velocity
    /// to carry the same sign as the Q0.32 angle they integrate.
    pub fn angle_electrical_rpm(&self) -> (r: i32)
        ensures
            r == self.angle_erpm(),
    {
        let magnitude: i32 = self.electrical_rpm_magnitude();
        if self.direction < 0 {
            -magnitude
        } else {
            magnitude
        }
    }

    pub fn physical_direction(&self) -> (r: i8)
        ensures
            r == arith::sat_i8(self.direction * self.geometry.positive_angle_direction),
    {
        self.geometry.signed_motion_direction(self.direction)
    }

    /// Sign of motion in the electrical-angle coordinate used by the Park
    /// transforms: `-1` decreases Q0.32 turns, `1` increases it.
    pub fn angle_direction(&self) -> (r: i8)
        ensures
            r == self.direction,
    {
        self.direction
    }

    pub fn is_stationary(&self) -> (r: bool)
        ensures
            r == (self.direction == 0 || self.measured_interval_us == 0),
    {
        self.direction == 0 || self.measured_interval_us == 0
    }

    fn electrical_rpm_magnitude(&self) -> (r: i32)
        ensures
            r == self.erpm_magnitude(),
            0 <= r <= 0x100_0000,
    {
        if self.direction == 0 || self.measured_interval_us == 0 {
            return 0;
        }
        let rpm_q8: u32 = arith::sat_mul_u32(self.measured_width_q16 as u32, 234_375)
            / self.measured_interval_us;
        (rpm_q8 / 256) as i32
    }

    fn refresh_control_rate(&mut self, control_period_ns: u32)
        ensures
            *final(self) == old(self).rated(control_period_ns),
    {
        self.control_period_ns = control_period_ns;
        if self.direction == 0 || self.measured_interval_us == 0 || control_period_ns == 0 {
            self.control_step_q16 = 0;
            self.actuation_advance = Fixed::zero();
            return;
        }
        let half_microseconds: u32 = control_period_ns.saturating_add(HALF_MICROSECOND_NS / 2)
            / HALF_MICROSECOND_NS;
        let doubled: u32 = arith::sat_mul_u32(self.measured_interval_us, 2);
        self.control_step_q16 = arith::sat_mul_u32(
            self.measured_width_q16 as u32,
            half_microseconds,
        ) / doubled;
        let radians_q16: u32 = arith::sat_mul_u32(self.control_step_q16, TAU_NUMERATOR)
            / TAU_DENOMINATOR;
        let magnitude: i32 = if radians_q16 > i32::MAX as u32 {
            i32::MAX
        } else {
            radians_q16 as i32
        };
        self.actuation_advance = Fixed::from_bits(
            if self.direction < 0 {
                -magnitude
            } else {
                magnitude
            },
        );
    }

    fn maximum_control_step(&self) -> (r: i32)
        ensures
            r == self.maximum_step(),
            r >= 1,
    {
        let rate_limited_step_q16: u32 = self.control_step_q16.saturating_add(
            self.control_step_q16 / 2,
        );
        if rate_limited_step_q16 >= 0x8000 {
            i32::MAX
        } else if rate_limited_step_q16 == 0 {
            1
        } else {
            (rate_limited_step_q16 * 0x1_0000) as i32
        }
    }
}

/// Computes `interval * numerator / denominator` exactly with saturating
/// `u32` output while keeping division on the native word size.
pub fn scale_interval(interval: u32, numerator: u16, denominator: u16) -> (r: u32)
    ensures
        r == scaled_interval(interval as int, numerator as int, denominator as int),
{
    if denominator == 0 {
        return 0;
    }
    let d: u32 = denominator as u32;
    let n: u32 = numerator as u32;
    let quotient: u32 = interval / d;
    proof {
        assert(0 <= quotient * d <= interval && interval - quotient * d < d) by (nonlinear_arith)
            requires
                quotient == interval as int / d as int,
                interval >= 0,
                d > 0,
        ;
    }
    let remainder: u32 = interval - quotient * d;
    proof {
        let i = interval as int;
        let dd = d as int;
        let nn = n as int;
        let q = quotient as int;
        let m = remainder as int;
        assert(0 <= m * nn <= 0xffff * 0xffff) by (nonlinear_arith)
            requires
                0 <= m < dd <= 0xffff,
                0 <= nn <= 0xffff,
        ;
        let t = m * nn / dd;
        assert(t * dd <= m * nn < t * dd + dd) by (nonlinear_arith)
            requires
                t == m * nn / dd,
                dd > 0,
        ;
        assert((q * nn + t) * dd <= i * nn < (q * nn + t) * dd + dd) by (nonlinear_arith)
            requires
                t * dd <= m * nn < t * dd + dd,
                i == q * dd + m,
        ;
        vstd::arithmetic::div_mod::lemma_fundamental_div_mod_converse(
            i * nn,
            dd,
            q * nn + t,
            i * nn - (q * nn + t) * dd,
        );
        assert(0 <= t) by (nonlinear_arith)
            requires
                t == m * nn / dd,
                m * nn >= 0,
                dd > 0,
        ;
        assert(0 <= q * nn) by (nonlinear_arith)
            requires
                q >= 0,
                nn >= 0,
        ;
    }
    arith::sat_mul_u32(quotient, n).saturating_add(remainder * n / d)
}

impl PhaseProvider<Fixed> for HallSensor {
    type Angle = Turns;

    open spec fn ready(&self) -> bool {
        true
    }

    open spec fn selected_source(&self) -> PhaseSource {
        PhaseSource::Hall
    }

    open spec fn estimate_at(&self, elapsed_since_observation_us: u32) -> Option<
        PhaseEstimate<Turns>,
    > {
        match self.angle_at(elapsed_since_observation_us) {
            None => None,
            Some(angle) => Some(
                PhaseEstimate {
                    angle,
                    electrical_rpm: self.angle_erpm() as i32,
                    trustworthy: self.valid,
                },
            ),
        }
    }

    open spec fn control_estimate_at(
        &self,
        elapsed_since_observation_us: u32,
        control_period_ns: u32,
    ) -> Option<PhaseEstimate<Turns>> {
        let after = self.served(elapsed_since_observation_us, control_period_ns);
        match self.angle_at(elapsed_since_observation_us) {
            None => None,
            Some(_) => Some(
                PhaseEstimate {
                    angle: after.rate_limited_angle,
                    electrical_rpm: self.angle_erpm() as i32,
                    trustworthy: self.valid,
                },
            ),
        }
    }

    open spec fn after_control_estimate(
        &self,
        elapsed_since_observation_us: u32,
        control_period_ns: u32,
    ) -> Self {
        self.served(elapsed_since_observation_us, control_period_ns)
    }

    open spec fn after_update(&self, input: PhaseInput<Fixed>) -> Self {
        *self
    }

    open spec fn present_injection(&self) -> Dq<Fixed> {
        Dq::null()
    }

    open spec fn grants_source(&self, source: PhaseSource) -> bool {
        false
    }

    open spec fn after_source_request(&self, source: PhaseSource) -> Self {
        *self
    }

    fn source(&self) -> (r: PhaseSource) {
        PhaseSource::Hall
    }

    fn estimate(&self, elapsed_since_observation_us: u32) -> (r: Option<PhaseEstimate<Turns>>) {
        match self.angle(elapsed_since_observation_us) {
            None => None,
            Some(angle) => Some(
                PhaseEstimate {
                    angle,
                    electrical_rpm: self.angle_electrical_rpm(),
                    trustworthy: self.is_valid(),
                },
            ),
        }
    }

    fn estimate_for_control(
        &mut self,
        elapsed_since_observation_us: u32,
        control_period_ns: u32,
    ) -> (r: Option<PhaseEstimate<Turns>>) {
        if control_period_ns != self.control_period_ns {
            self.refresh_control_rate(control_period_ns);
        }
        let target: u32 = match self.angle(elapsed_since_observation_us) {
            None => {
                return None;
            },
            Some(angle) => angle,
        };
        self.unlimited_angle = target;
        let electrical_rpm: i32 = self.angle_electrical_rpm();
        if self.moves_slowly(elapsed_since_observation_us) {
            self.rate_limited_angle = target;
        } else {
            let maximum_step: i32 = self.maximum_control_step();
            let desired_step: i32 = arith::wrapping_sub_to_i32(target, self.rate_limited_angle);
            let limited_step: i32 = if desired_step < -maximum_step {
                -maximum_step
            } else if desired_step > maximum_step {
                maximum_step
            } else {
                desired_step
            };
            self.rate_limited_angle = arith::wrapping_add_u32_i32(
                self.rate_limited_angle,
                limited_step,
            );
        }
        Some(
            PhaseEstimate {
                angle: self.rate_limited_angle,
                electrical_rpm,
                trustworthy: self.is_valid(),
            },
        )
    }

    fn update(&mut self, input: &PhaseInput<Fixed>) {
    }

    fn injection(&self) -> (r: Dq<Fixed>) {
        Dq::new_zero()
    }

    fn request_source(&mut self, source: PhaseSource) -> (r: bool) {
        false
    }
}

/// Neighbouring sectors agree: the state before the next one is the state
/// itself, and its sector ends where the next one begins.
pub proof fn law_sectors_tile_the_turn(geometry: HallGeometry, index: int)
    requires
        geometry.wf(),
        0 <= index < 6,
    ensures
        geometry.sector_of(geometry.electrical_states[index]) is Some,
        ({
            let sector = geometry.sector_of(geometry.electrical_states[index])->0;
            let next = geometry.sector_of(sector.next_raw);
            &&& next is Some
            &&& next->0.previous_raw == geometry.electrical_states[index]
            &&& next->0.boundary_q16 == arith::wrap_u16(sector.boundary_q16 + sector.width_q16)
        }),
        ({
            let sector = geometry.sector_of(geometry.electrical_states[index])->0;
            let previous = geometry.sector_of(sector.previous_raw);
            &&& previous is Some
            &&& previous->0.next_raw == geometry.electrical_states[index]
        }),
{
    let next = if index == 5 {
        0
    } else {
        index + 1
    };
    let previous = if index == 0 {
        5
    } else {
        index - 1
    };
    lemma_sector_of_state(geometry, index);
    lemma_sector_of_state(geometry, next);
    lemma_sector_of_state(geometry, previous);
}

proof fn lemma_sector_of_state(geometry: HallGeometry, index: int)
    requires
        geometry.wf(),
        0 <= index < 6,
    ensures
        geometry.sector_of(geometry.electrical_states[index]) == Some(
            sector_at(geometry.electrical_states, geometry.boundaries_q16, index),
        ),
{
    lemma_sector_has_width(
        geometry.electrical_states,
        geometry.boundaries_q16,
        geometry.positive_angle_direction,
        index,
    );
    assert(geometry.sectors_by_raw[geometry.electrical_states[index] as int] == sector_at(
        geometry.electrical_states,
        geometry.boundaries_q16,
        index,
    ));
}

/// A refused edge leaves no angle at any later time, until the sensor is seeded
/// again.
pub proof fn law_refused_edge_revokes_the_angle(
    sensor: HallSensor,
    raw: u8,
    interval_us: u32,
    edge_age_us: u32,
)
    requires
        sensor.edge_outcome(raw, interval_us) is Err,
    ensures
        sensor.after_edge(raw, interval_us).angle_at(edge_age_us) is None,
{
}

/// An accepted edge leaves a valid sensor in the captured state.
pub proof fn law_accepted_edge_reaches_the_captured_state(
    sensor: HallSensor,
    raw: u8,
    interval_us: u32,
)
    requires
        sensor.edge_outcome(raw, interval_us) is Ok,
    ensures
        sensor.after_edge(raw, interval_us).valid,
        sensor.after_edge(raw, interval_us).raw == raw,
{
}

/// While the motor turns at speed, the angle given to the current loop moves by
/// no more than the cycle's largest step, and never past the interpolated
/// target.
pub proof fn law_control_angle_is_rate_limited(
    sensor: HallSensor,
    edge_age_us: u32,
    control_period_ns: u32,
)
    requires
        sensor.angle_at(edge_age_us) is Some,
        !sensor.is_slow(edge_age_us),
    ensures
        ({
            let after = sensor.served(edge_age_us, control_period_ns);
            let step = arith::wrap_i32(after.rate_limited_angle - sensor.rate_limited_angle);
            let wanted = arith::wrap_i32(after.unlimited_angle - sensor.rate_limited_angle);
            &&& arith::abs(step) <= after.maximum_step()
            &&& arith::abs(step) <= arith::abs(wanted)
        }),
{
    let rated = if control_period_ns != sensor.control_period_ns {
        sensor.rated(control_period_ns)
    } else {
        sensor
    };
    assert(rated.angle_at(edge_age_us) == sensor.angle_at(edge_age_us));
    assert(rated.is_slow(edge_age_us) == sensor.is_slow(edge_age_us));
    let limit = rated.maximum_step();
    let target = sensor.angle_at(edge_age_us)->0;
    let desired = arith::wrap_i32(target - sensor.rate_limited_angle);
    lemma_wrapped_step(sensor.rate_limited_angle as int, arith::clamp(desired, -limit, limit));
}

/// An edge moves the target alone: as long as the angle is not revoked, only a
/// control cycle moves the angle given to the current loop.
pub proof fn law_edges_leave_the_control_angle(sensor: HallSensor, raw: u8, interval_us: u32)
    requires
        sensor.valid,
    ensures
        sensor.after_edge(raw, interval_us).rate_limited_angle == sensor.rate_limited_angle,
{
}

/// A signed step is recovered from the angle it leads to.
proof fn lemma_wrapped_step(angle: int, step: int)
    requires
        0 <= angle <= u32::MAX,
        i32::MIN <= step <= i32::MAX,
    ensures
        arith::wrap_i32(arith::wrap_u32(angle + step) - angle) == step,
{
}

/// Interpolation never leaves the entered sector, and a sector is covered
/// completely once its expected duration has passed.
pub proof fn law_interpolation_covers_exactly_the_sector(sensor: HallSensor, edge_age_us: int)
    requires
        sensor.entered_duration_us > 0,
        edge_age_us >= 0,
    ensures
        0 <= sensor.sector_advance(edge_age_us) <= sensor.entered_width_q16,
        edge_age_us >= sensor.entered_duration_us ==> sensor.sector_advance(edge_age_us)
            == sensor.entered_width_q16,
{
    let d = sensor.entered_duration_us as int;
    arith::lemma_shift_below(d, 0x1_0000);
    let shift = arith::shift_below(d, 0x1_0000);
    let u = arith::unit(shift);
    let e = arith::min(edge_age_us, d);
    let q = d / u;
    assert(0 <= e / u <= q) by (nonlinear_arith)
        requires
            0 <= e <= d,
            u >= 1,
            q == d / u,
    ;
    assert(q >= 1) by {
        if shift == 0 {
            vstd::arithmetic::power2::lemma2_to64();
        }
        assert(d / u >= 1) by (nonlinear_arith)
            requires
                u >= 1,
                d >= u,
        ;
    }
    let f = (e / u) * 0x1_0000 / q;
    assert(0 <= f <= 0x1_0000) by (nonlinear_arith)
        requires
            f == (e / u) * 0x1_0000 / q,
            0 <= e / u <= q,
            q >= 1,
    ;
    let w = sensor.entered_width_q16 as int;
    assert(0 <= w * f <= w * 0x1_0000) by (nonlinear_arith)
        requires
            0 <= f <= 0x1_0000,
            0 <= w,
    ;
    if edge_age_us >= d {
        assert(f == 0x1_0000) by (nonlinear_arith)
            requires
                f == q * 0x1_0000 / q,
                q >= 1,
        ;
    }
}

/// Later in a sector the interpolated angle is never behind: it has moved on in
/// the direction of rotation by what the sector was covered in between.
#[verifier::rlimit(60)]
pub proof fn law_interpolated_angle_follows_the_rotation(
    sensor: HallSensor,
    earlier_us: u32,
    later_us: u32,
)
    requires
        earlier_us <= later_us,
        sensor.angle_at(later_us) is Some,
        !sensor.is_slow(later_us),
    ensures
        sensor.angle_at(earlier_us) is Some,
        ({
            let earlier = sensor.angle_at(earlier_us)->0;
            let later = sensor.angle_at(later_us)->0;
            let covered = sensor.sector_advance(later_us as int) - sensor.sector_advance(
                earlier_us as int,
            );
            &&& 0 <= covered <= sensor.entered_width_q16
            &&& sensor.direction < 0 ==> arith::wrap_u32(earlier - later) == covered * 0x1_0000
            &&& sensor.direction >= 0 ==> arith::wrap_u32(later - earlier) == covered * 0x1_0000
        }),
{
    lemma_slowness_lasts(sensor, earlier_us, later_us);
    lemma_advance_grows(sensor, earlier_us as int, later_us as int);
}

/// A sensor that is slow some time after an edge stays slow until the next one.
proof fn lemma_slowness_lasts(sensor: HallSensor, earlier_us: u32, later_us: u32)
    requires
        earlier_us <= later_us,
    ensures
        sensor.is_slow(earlier_us) ==> sensor.is_slow(later_us),
{
    if earlier_us != 0 {
        let w = arith::sat_u32(sensor.entered_width_q16 * 234_375);
        let a = earlier_us as int;
        let b = later_us as int;
        assert(0 <= w / b <= w / a) by (nonlinear_arith)
            requires
                0 <= w,
                0 < a <= b,
        ;
        assert(w / b / 256 <= w / a / 256);
    }
}

proof fn lemma_advance_grows(sensor: HallSensor, earlier_us: int, later_us: int)
    requires
        0 <= earlier_us <= later_us,
    ensures
        0 <= sensor.sector_advance(earlier_us) <= sensor.sector_advance(later_us)
            <= sensor.entered_width_q16,
{
    let duration = sensor.entered_duration_us as int;
    let u = arith::unit(arith::shift_below(duration, 0x1_0000));
    arith::lemma_shift_below(duration, 0x1_0000);
    let d = arith::max(duration / u, 1);
    let a = arith::min(earlier_us, duration);
    let b = arith::min(later_us, duration);
    assert(0 <= a / u <= b / u <= duration / u) by (nonlinear_arith)
        requires
            0 <= a <= b <= duration,
            u >= 1,
    ;
    let ea = a / u;
    let eb = b / u;
    let fa = ea * 0x1_0000 / d;
    let fb = eb * 0x1_0000 / d;
    assert(0 <= fa <= fb <= 0x1_0000) by (nonlinear_arith)
        requires
            fa == ea * 0x1_0000 / d,
            fb == eb * 0x1_0000 / d,
            0 <= ea <= eb <= d,
            d >= 1,
    ;
    let w = sensor.entered_width_q16 as int;
    assert(0 <= w * fa <= w * fb <= w * 0x1_0000) by (nonlinear_arith)
        requires
            0 <= fa <= fb <= 0x1_0000,
            0 <= w,
    ;
}

/// Below the interpolation speed, and at any speed once no edge has come for
/// long enough, commutation and the current loop use the sector center.
pub proof fn law_slow_sensor_stands_at_the_sector_center(
    sensor: HallSensor,
    edge_age_us: u32,
    control_period_ns: u32,
)
    requires
        sensor.valid,
        sensor.erpm_magnitude() < RATE_LIMIT_MIN_ERPM || sensor.decayed_erpm(edge_age_us)
            < RATE_LIMIT_MIN_ERPM,
    ensures
        sensor.angle_at(edge_age_us) == Some((sensor.sector_center() * 0x1_0000) as u32),
        sensor.served(edge_age_us, control_period_ns).rate_limited_angle
            == sensor.sector_center() * 0x1_0000,
{
    let rated = sensor.rated(control_period_ns);
    assert(rated.is_slow(edge_age_us) == sensor.is_slow(edge_age_us));
    assert(rated.angle_at(edge_age_us) == sensor.angle_at(edge_age_us));
}

/// A reversal within a run that is not too fast keeps the entered state and the
/// new direction, has no speed, and holds the center of the entered sector for
/// as long as no edge follows. The next edge in that direction is timed by its
/// own complete interval.
pub proof fn law_reversal_holds_the_entered_center(
    sensor: HallSensor,
    raw: u8,
    interval_us: u32,
    edge_age_us: u32,
    next_raw: u8,
    next_interval_us: u32,
)
    requires
        sensor.valid,
        sensor.geometry.sector_of(sensor.raw) is Some,
        sensor.geometry.sector_of(raw) is Some,
        raw != sensor.raw,
        sensor.step_direction(raw) != 0,
        sensor.reverses(sensor.step_direction(raw)),
        interval_us >= MIN_EDGE_INTERVAL_US,
    ensures
        sensor.edge_outcome(raw, interval_us) is Ok,
        ({
            let after = sensor.after_edge(raw, interval_us);
            let center = sensor.geometry.sector_of(raw)->0.center();
            &&& after.valid
            &&& after.raw == raw
            &&& after.direction == sensor.step_direction(raw)
            &&& after.angle_erpm() == 0
            &&& after.angle_at(edge_age_us) == Some((center * 0x1_0000) as u32)
            &&& ({
                &&& sensor.geometry.sector_of(next_raw) is Some
                &&& next_raw != raw
                &&& after.step_direction(next_raw) == after.direction
                &&& next_interval_us >= MIN_EDGE_INTERVAL_US
            }) ==> {
                &&& after.edge_outcome(next_raw, next_interval_us) is Ok
                &&& after.after_edge(next_raw, next_interval_us).measured_interval_us
                    == next_interval_us
            }
        }),
{
}

/// The first edge of a run against the remembered direction is timed from the
/// center of the left sector to the crossed boundary: it is refused only as too
/// fast, and leaves the interval of the whole sector.
pub proof fn law_opposite_first_edge_is_timed_from_the_center(
    sensor: HallSensor,
    index: int,
    raw: u8,
    interval_us: u32,
)
    requires
        sensor.valid,
        sensor.geometry.wf(),
        0 <= index < 6,
        sensor.raw == sensor.geometry.electrical_states[index],
        sensor.geometry.sector_of(sensor.raw)->0.width_q16 > 1,
        sensor.next_interval_since_run_start,
        sensor.step_direction(raw) != 0,
        sensor.direction != sensor.step_direction(raw),
    ensures
        ({
            let left = sensor.geometry.sector_of(sensor.raw)->0;
            let interval = center_interval(left, sensor.step_direction(raw), interval_us as int);
            let after = sensor.after_edge(raw, interval_us);
            if interval < MIN_EDGE_INTERVAL_US {
                sensor.edge_outcome(raw, interval_us) == Err::<(), HallError>(
                    HallError::EdgeTooFast,
                )
            } else {
                &&& sensor.edge_outcome(raw, interval_us) is Ok
                &&& after.raw == raw
                &&& after.direction == sensor.step_direction(raw)
                &&& after.measured_interval_us == interval
                &&& after.measured_width_q16 == left.width_q16
            }
        }),
{
    lemma_neighbours_share_a_boundary(*sensor.geometry, index);
    lemma_opposite_first_edge(sensor, raw, interval_us);
}

/// Time to cross a whole sector, given the time from its center to the boundary
/// that lies in a direction.
pub open spec fn center_interval(sector: HallSector, direction: int, interval_us: int) -> int {
    let travelled = if direction < 0 {
        sector.width_q16 as int / 2
    } else {
        sector.width_q16 - sector.width_q16 / 2
    };
    scaled_interval(interval_us, sector.width_q16 as int, travelled)
}

proof fn lemma_opposite_first_edge(sensor: HallSensor, raw: u8, interval_us: u32)
    requires
        sensor.valid,
        sensor.geometry.sector_of(sensor.raw) is Some,
        sensor.geometry.sector_of(sensor.raw)->0.width_q16 > 1,
        sensor.geometry.sector_of(raw) is Some,
        raw != sensor.raw,
        sensor.next_interval_since_run_start,
        sensor.step_direction(raw) != 0,
        sensor.direction != sensor.step_direction(raw),
        ({
            let left = sensor.geometry.sector_of(sensor.raw)->0;
            let entered = sensor.geometry.sector_of(raw)->0;
            let direction = sensor.step_direction(raw);
            HallSensor::entered_boundary(entered, direction) == if direction < 0 {
                left.boundary_q16 as int
            } else {
                arith::wrap_u16(left.boundary_q16 + left.width_q16)
            }
        }),
    ensures
        ({
            let left = sensor.geometry.sector_of(sensor.raw)->0;
            let interval = center_interval(left, sensor.step_direction(raw), interval_us as int);
            let after = sensor.after_edge(raw, interval_us);
            if interval < MIN_EDGE_INTERVAL_US {
                sensor.edge_outcome(raw, interval_us) == Err::<(), HallError>(
                    HallError::EdgeTooFast,
                )
            } else {
                &&& sensor.edge_outcome(raw, interval_us) is Ok
                &&& after.raw == raw
                &&& after.direction == sensor.step_direction(raw)
                &&& after.measured_interval_us == interval
                &&& after.measured_width_q16 == left.width_q16
            }
        }),
{
    let left = sensor.geometry.sector_of(sensor.raw)->0;
    let direction = sensor.step_direction(raw);
    let boundary = HallSensor::entered_boundary(sensor.geometry.sector_of(raw)->0, direction);
    lemma_center_distances(left);
    assert(sensor.edge_timing(left, direction, boundary, interval_us) == Some(
        (center_interval(left, direction, interval_us as int), left.width_q16 as int),
    ));
    lemma_scaled_interval_fits(
        interval_us as int,
        left.width_q16 as int,
        if direction < 0 {
            left.width_q16 as int / 2
        } else {
            left.width_q16 - left.width_q16 / 2
        },
    );
}

proof fn lemma_center_distances(sector: HallSector)
    ensures
        arith::wrap_u16(sector.center() - sector.boundary_q16) == sector.width_q16 / 2,
        arith::wrap_u16(
            arith::wrap_u16(sector.boundary_q16 + sector.width_q16) - sector.center(),
        ) == sector.width_q16 - sector.width_q16 / 2,
{
}

proof fn lemma_scaled_interval_fits(interval: int, numerator: int, denominator: int)
    ensures
        0 <= scaled_interval(interval, numerator, denominator) <= u32::MAX,
{
}

/// A sector is entered from a neighbour through the boundary that they share.
proof fn lemma_neighbours_share_a_boundary(geometry: HallGeometry, index: int)
    requires
        geometry.wf(),
        0 <= index < 6,
    ensures
        ({
            let raw = geometry.electrical_states[index];
            let left = geometry.sector_of(raw)->0;
            let previous = geometry.sector_of(left.previous_raw);
            let next = geometry.sector_of(left.next_raw);
            &&& geometry.sector_of(raw) is Some
            &&& previous is Some
            &&& next is Some
            &&& left.previous_raw != raw
            &&& left.next_raw != raw
            &&& left.previous_raw != left.next_raw
            &&& HallSensor::entered_boundary(previous->0, -1) == left.boundary_q16
            &&& HallSensor::entered_boundary(next->0, 1) == arith::wrap_u16(
                left.boundary_q16 + left.width_q16,
            )
        }),
{
    let previous = if index == 0 {
        5
    } else {
        index - 1
    };
    let next = if index == 5 {
        0
    } else {
        index + 1
    };
    lemma_sector_of_state(geometry, index);
    lemma_sector_of_state(geometry, previous);
    lemma_sector_of_state(geometry, next);
    law_sectors_tile_the_turn(geometry, index);
    law_sectors_tile_the_turn(geometry, previous);
}

/// A complete interval in the present direction moves the sensor through the
/// boundary that it crossed: forward into the next state at the end of the left
/// sector, backward into the previous one at its beginning. The speed is measured
/// over the whole left sector, and an interval under the limit is refused.
#[verifier::rlimit(60)]
pub proof fn law_edge_crosses_the_shared_boundary(
    sensor: HallSensor,
    index: int,
    raw: u8,
    interval_us: u32,
)
    requires
        sensor.valid,
        sensor.geometry.wf(),
        0 <= index < 6,
        sensor.raw == sensor.geometry.electrical_states[index],
        !sensor.next_interval_since_run_start,
        sensor.direction == 1 || sensor.direction == -1,
        ({
            let left = sensor.geometry.sector_of(sensor.raw)->0;
            raw == if sensor.direction > 0 {
                left.next_raw
            } else {
                left.previous_raw
            }
        }),
    ensures
        interval_us < 100 ==> sensor.edge_outcome(raw, interval_us) == Err::<(), HallError>(
            HallError::EdgeTooFast,
        ),
        interval_us >= 100 ==> ({
            let left = sensor.geometry.sector_of(sensor.raw)->0;
            let after = sensor.after_edge(raw, interval_us);
            &&& sensor.edge_outcome(raw, interval_us) is Ok
            &&& after.raw == raw
            &&& after.direction == sensor.direction
            &&& sensor.direction > 0 ==> after.base_angle_q16 == arith::wrap_u16(
                left.boundary_q16 + left.width_q16,
            )
            &&& sensor.direction < 0 ==> after.base_angle_q16 == left.boundary_q16
            &&& after.measured_interval_us == interval_us
            &&& after.measured_width_q16 == left.width_q16
            &&& after.entered_width_q16 == sensor.geometry.sector_of(raw)->0.width_q16
            &&& 1 < after.entered_duration_us < u32::MAX ==> left.width_q16
                * after.entered_duration_us <= interval_us * after.entered_width_q16
                < left.width_q16 * (after.entered_duration_us + 1)
        }),
{
    lemma_neighbours_share_a_boundary(*sensor.geometry, index);
    lemma_sector_of_state(*sensor.geometry, index);
    lemma_sector_has_width(
        sensor.geometry.electrical_states,
        sensor.geometry.boundaries_q16,
        sensor.geometry.positive_angle_direction,
        index,
    );
    let left = sensor.geometry.sector_of(sensor.raw)->0;
    law_expected_duration_scales_with_the_width(
        interval_us as int,
        sensor.geometry.sector_of(raw)->0.width_q16 as int,
        left.width_q16 as int,
    );
}

/// A state that does not border the present one is refused, as is one that does
/// not occur; the present state changes nothing.
pub proof fn law_only_neighbours_are_entered(
    sensor: HallSensor,
    index: int,
    raw: u8,
    interval_us: u32,
)
    requires
        sensor.valid,
        sensor.geometry.wf(),
        0 <= index < 6,
        sensor.raw == sensor.geometry.electrical_states[index],
    ensures
        ({
            let left = sensor.geometry.sector_of(sensor.raw)->0;
            &&& raw == sensor.raw ==> sensor.after_edge(raw, interval_us) == sensor
                && sensor.edge_outcome(raw, interval_us) is Ok
            &&& sensor.geometry.sector_of(raw) is None ==> sensor.edge_outcome(raw, interval_us)
                == Err::<(), HallError>(HallError::InvalidState)
            &&& sensor.geometry.sector_of(raw) is Some && raw != sensor.raw && raw != left.next_raw
                && raw != left.previous_raw ==> sensor.edge_outcome(raw, interval_us) == Err::<
                (),
                HallError,
            >(HallError::InvalidTransition)
        }),
{
    lemma_sector_of_state(*sensor.geometry, index);
}

/// A seeded sensor stands in the middle of its sector, without speed or advance.
pub proof fn law_seeded_sensor_stands_in_the_middle(
    sensor: HallSensor,
    raw: u8,
    sector: HallSector,
    edge_age_us: u32,
)
    requires
        sensor.geometry.sector_of(raw) == Some(sector),
    ensures
        ({
            let after = sensor.seeded(raw, sector);
            let angle = after.angle_at(edge_age_us);
            &&& angle is Some
            &&& arith::wrap_u32(angle->0 - sector.boundary_q16 * 0x1_0000) == 0x1_0000 * (
            sector.width_q16 as int / 2)
            &&& after.angle_erpm() == 0
            &&& after.actuation_advance.bits == 0
            &&& after.rate_limited_angle == angle->0
        }),
{
}

/// The speed is the measured part of the turn over its time: in revolutions per
/// minute, with the interval in microseconds, rounded down. Its sign is that of
/// the angle's motion; a standing sensor has none.
pub proof fn law_speed_is_the_sector_over_its_time(sensor: HallSensor)
    requires
        sensor.measured_width_q16 <= 18_000,
    ensures
        sensor.direction == 0 || sensor.measured_interval_us == 0 ==> sensor.angle_erpm() == 0,
        sensor.direction != 0 && sensor.measured_interval_us != 0 ==> ({
            let speed = arith::abs(sensor.angle_erpm());
            let interval = sensor.measured_interval_us;
            &&& 0x1_0000 * (interval * speed) <= 60_000_000 * sensor.measured_width_q16
            &&& 60_000_000 * sensor.measured_width_q16 < 0x1_0000 * (interval * (speed + 1))
            &&& sensor.direction > 0 ==> sensor.angle_erpm() >= 0
            &&& sensor.direction < 0 ==> sensor.angle_erpm() <= 0
        }),
{
    if sensor.direction != 0 && sensor.measured_interval_us != 0 {
        let w = sensor.measured_width_q16 * 234_375;
        let i = sensor.measured_interval_us as int;
        lemma_nested_quotient(w, i);
    }
}

proof fn lemma_nested_quotient(value: int, divisor: int)
    requires
        0 <= value,
        0 < divisor,
    ensures
        0 <= value / divisor / 256,
        256 * (divisor * (value / divisor / 256)) <= value,
        value < 256 * (divisor * (value / divisor / 256 + 1)),
{
    let q = value / divisor;
    let r = q / 256;
    assert(0 <= q && divisor * q <= value < divisor * q + divisor) by (nonlinear_arith)
        requires
            q == value / divisor,
            0 <= value,
            0 < divisor,
    ;
    assert(256 * r <= q <= 256 * r + 255);
    assert(256 * (divisor * r) <= divisor * q && divisor * q + divisor <= 256 * (divisor * (r + 1)))
        by (nonlinear_arith)
        requires
            256 * r <= q <= 256 * r + 255,
            0 < divisor,
    ;
}

/// Inside a sector the angle runs at constant speed: after a part of the expected
/// duration that part of the sector is covered, to within a unit and three steps
/// of a Q16 fraction.
pub proof fn law_interpolation_is_linear(sensor: HallSensor, edge_age_us: int)
    requires
        0 < edge_age_us < sensor.entered_duration_us,
    ensures
        manager::is_share(
            sensor.sector_advance(edge_age_us),
            sensor.entered_width_q16 as int,
            edge_age_us,
            sensor.entered_duration_us as int,
        ),
{
    let duration = sensor.entered_duration_us as int;
    let width = sensor.entered_width_q16 as int;
    manager::lemma_ratio_is_near(edge_age_us, duration);
    let share = manager::ratio_bits(edge_age_us, duration);
    let travel = sensor.sector_advance(edge_age_us);
    assert(travel == width * share / 0x1_0000);
    assert(width * share == share * width) by (nonlinear_arith);
    manager::lemma_share(travel, width, share, edge_age_us, duration);
}

/// At speed an estimate lasts for eight expected sector times and no longer; a
/// sensor that is not valid has none.
pub proof fn law_stale_estimate_expires(sensor: HallSensor, edge_age_us: u32)
    ensures
        !sensor.valid ==> sensor.angle_at(edge_age_us) is None,
        sensor.valid && !sensor.is_slow(edge_age_us) && sensor.entered_duration_us <= 0x1fff_ffff
            ==> (sensor.angle_at(edge_age_us) is Some <==> edge_age_us <= 8
            * sensor.entered_duration_us),
{
}

/// The sensor expects the next sector to take as long as its width asks at the
/// measured speed.
pub proof fn law_expected_duration_scales_with_the_width(
    interval: int,
    entered_width: int,
    measured_width: int,
)
    requires
        0 <= interval <= u32::MAX,
        0 <= entered_width <= u16::MAX,
        0 < measured_width <= u16::MAX,
    ensures
        ({
            let duration = scaled_interval(interval, entered_width, measured_width);
            &&& duration < u32::MAX ==> measured_width * duration <= interval * entered_width
                < measured_width * (duration + 1)
            &&& duration == u32::MAX ==> measured_width * duration <= interval * entered_width
            &&& entered_width == measured_width ==> duration == interval
        }),
{
    let product = interval * entered_width;
    let q = product / measured_width;
    assert(0 <= product) by (nonlinear_arith)
        requires
            product == interval * entered_width,
            0 <= interval,
            0 <= entered_width,
    ;
    assert(0 <= q && measured_width * q <= product < measured_width * (q + 1)) by (nonlinear_arith)
        requires
            q == product / measured_width,
            0 <= product,
            0 < measured_width,
    ;
    if entered_width == measured_width {
        assert(q == interval) by (nonlinear_arith)
            requires
                measured_width * q <= product < measured_width * (q + 1),
                product == interval * measured_width,
                0 < measured_width,
        ;
    }
    if q > u32::MAX {
        assert(measured_width * u32::MAX <= measured_width * q) by (nonlinear_arith)
            requires
                u32::MAX <= q,
                0 < measured_width,
        ;
    }
}

/// The motion expected in a control period is the measured sector's share of it,
/// in half microseconds, and the advance is that motion in radians along the
/// direction of rotation. The current loop may correct by half as much again.
pub proof fn law_advance_is_the_motion_of_a_period(sensor: HallSensor, control_period_ns: u32)
    requires
        sensor.direction != 0,
        sensor.measured_interval_us != 0,
        0 < control_period_ns <= 1_000_000,
        sensor.measured_interval_us <= 0x7fff_ffff,
    ensures
        ({
            let after = sensor.rated(control_period_ns);
            let step = after.control_step_q16 as int;
            let halves = (control_period_ns + 250) / 500;
            let interval = 2 * sensor.measured_interval_us;
            let radians = arith::abs(after.actuation_advance.bits as int);
            &&& interval * step <= sensor.measured_width_q16 * halves < interval * (step + 1)
            &&& step <= 6_000_000 ==> 113 * radians <= 710 * step < 113 * (radians + 1)
            &&& sensor.direction > 0 ==> after.actuation_advance.bits >= 0
            &&& sensor.direction < 0 ==> after.actuation_advance.bits <= 0
            &&& 1 <= step <= 20_000 ==> after.maximum_step() == 0x1_0000 * (step + step / 2)
            &&& after.control_period_ns == control_period_ns
        }),
{
    let halves = (control_period_ns + 250) / 500;
    let product = sensor.measured_width_q16 * halves;
    assert(0 <= product <= 0xffff * 2_001) by (nonlinear_arith)
        requires
            product == sensor.measured_width_q16 * halves,
            0 <= sensor.measured_width_q16 <= 0xffff,
            0 <= halves <= 2_001,
    ;
    let interval = 2 * sensor.measured_interval_us;
    let step = product / interval;
    assert(0 <= step <= product && interval * step <= product < interval * (step + 1))
        by (nonlinear_arith)
        requires
            step == product / interval,
            0 <= product,
            1 <= interval,
    ;
}

/// At low speed the current loop follows the target at once; at speed it reaches
/// the target whenever that lies within its largest step, and otherwise moves the
/// whole step toward it. Serving changes nothing else but the rated motion.
pub proof fn law_control_angle_reaches_the_target(
    sensor: HallSensor,
    edge_age_us: u32,
    control_period_ns: u32,
)
    requires
        sensor.angle_at(edge_age_us) is Some,
    ensures
        ({
            let after = sensor.served(edge_age_us, control_period_ns);
            let target = sensor.angle_at(edge_age_us)->0;
            let wanted = arith::wrap_i32(target - sensor.rate_limited_angle);
            let moved = arith::wrap_i32(after.rate_limited_angle - sensor.rate_limited_angle);
            let limit = after.maximum_step();
            &&& after.unlimited_angle == target
            &&& sensor.is_slow(edge_age_us) || arith::abs(wanted) <= limit
                ==> after.rate_limited_angle == target
            &&& !sensor.is_slow(edge_age_us) && wanted > limit ==> moved == limit
            &&& !sensor.is_slow(edge_age_us) && wanted < -limit ==> moved == -limit
            &&& after.raw == sensor.raw
            &&& after.direction == sensor.direction
            &&& after.base_angle_q16 == sensor.base_angle_q16
            &&& after.valid == sensor.valid
        }),
{
    let rated = if control_period_ns != sensor.control_period_ns {
        sensor.rated(control_period_ns)
    } else {
        sensor
    };
    assert(rated.angle_at(edge_age_us) == sensor.angle_at(edge_age_us));
    assert(rated.is_slow(edge_age_us) == sensor.is_slow(edge_age_us));
    let limit = rated.maximum_step();
    let target = sensor.angle_at(edge_age_us)->0;
    let desired = arith::wrap_i32(target - sensor.rate_limited_angle);
    lemma_wrapped_step(sensor.rate_limited_angle as int, arith::clamp(desired, -limit, limit));
}

/// Interpolation needs 500 revolutions per minute, by the measured sector and, as
/// long as no edge comes, by the entered one: the speed at which it would be left
/// just now.
pub proof fn law_interpolation_needs_speed(sensor: HallSensor, edge_age_us: u32)
    requires
        sensor.entered_width_q16 <= 18_000,
    ensures
        sensor.is_slow(edge_age_us) <==> {
            ||| sensor.erpm_magnitude() < 500
            ||| edge_age_us > 0 && 234_375 * sensor.entered_width_q16 < 128_000 * edge_age_us
        },
{
    if edge_age_us > 0 {
        let w = sensor.entered_width_q16 * 234_375;
        let age = edge_age_us as int;
        let q = w / age;
        lemma_nested_quotient(w, age);
        let r = q / 256;
        assert(r < 500 ==> 256 * (age * (r + 1)) <= 128_000 * age) by (nonlinear_arith)
            requires
                0 <= r,
                age > 0,
        ;
        assert(r >= 500 ==> 256 * (age * r) >= 128_000 * age) by (nonlinear_arith)
            requires
                age > 0,
        ;
    }
}

/// The first edge of a standing sensor has no speed yet, whatever interval was
/// captured; the first edge of a run in the remembered direction keeps the speed
/// that was measured before.
pub proof fn law_first_edges_do_not_invent_a_speed(
    sensor: HallSensor,
    index: int,
    raw: u8,
    interval_us: u32,
)
    requires
        sensor.valid,
        sensor.geometry.wf(),
        0 <= index < 6,
        sensor.raw == sensor.geometry.electrical_states[index],
        sensor.step_direction(raw) != 0,
    ensures
        ({
            let after = sensor.after_edge(raw, interval_us);
            let direction = sensor.step_direction(raw);
            &&& sensor.direction == 0 && !sensor.next_interval_since_run_start ==> {
                &&& sensor.edge_outcome(raw, interval_us) is Ok
                &&& after.raw == raw
                &&& after.direction == direction
                &&& after.angle_erpm() == 0
            }
            &&& sensor.direction == direction && sensor.next_interval_since_run_start
                && sensor.measured_interval_us >= 100 ==> {
                &&& sensor.edge_outcome(raw, interval_us) is Ok
                &&& after.raw == raw
                &&& after.measured_interval_us == sensor.measured_interval_us
                &&& after.measured_width_q16 == sensor.measured_width_q16
                &&& after.angle_erpm() == sensor.angle_erpm()
                &&& !after.next_interval_since_run_start
            }
        }),
{
    lemma_neighbours_share_a_boundary(*sensor.geometry, index);
    lemma_sector_of_state(*sensor.geometry, index);
}

} // verus!
