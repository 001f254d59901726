//! Phase-source selection for the synchronous controller.
//!
//! Encoder, HFI, manual, and open-loop identities stay selectable by name and
//! are rejected until their providers are installed.
use vstd::prelude::*;

verus! {

#[derive(Clone, Copy, Debug, Default, Eq, PartialEq, Structural)]
pub enum PhaseSource {
    #[default]
    Hall,
    Encoder,
    Observer,
    Hfi,
    HallToObserver { blend_low_erpm: i32, blend_high_erpm: i32 },
    EncoderToObserver,
    HfiToObserver,
    HfiToObserverVolts,
    HfiToHall,
    HfiToEncoder,
    Manual,
    OpenLoop,
}

#[derive(Clone, Copy, Debug, Eq, PartialEq, Structural)]
pub enum PhaseSourceError {
    ObserverNotConfigured,
    EncoderNotAvailable,
    HfiNotConfigured,
    ManualSourceNotConfigured,
}

impl PhaseSource {
    /// Why a source cannot be selected, given whether an observer is installed;
    /// `None` when it can.
    pub open spec fn obstacle(self, observer_installed: bool) -> Option<PhaseSourceError> {
        match self {
            PhaseSource::Hall => None,
            PhaseSource::Observer | PhaseSource::HallToObserver { .. } => if observer_installed {
                None
            } else {
                Some(PhaseSourceError::ObserverNotConfigured)
            },
            PhaseSource::Encoder | PhaseSource::EncoderToObserver => Some(
                PhaseSourceError::EncoderNotAvailable,
            ),
            PhaseSource::Manual | PhaseSource::OpenLoop => Some(
                PhaseSourceError::ManualSourceNotConfigured,
            ),
            _ => Some(PhaseSourceError::HfiNotConfigured),
        }
    }

    pub fn requires_hall(self) -> (r: bool)
        ensures
            r == (self is Hall || self is HallToObserver || self is HfiToHall),
    {
        match self {
            PhaseSource::Hall | PhaseSource::HallToObserver { .. } | PhaseSource::HfiToHall => true,
            _ => false,
        }
    }

    pub fn requires_observer(self) -> (r: bool)
        ensures
            r == (self is Observer || self is HallToObserver || self is EncoderToObserver
                || self is HfiToObserver || self is HfiToObserverVolts),
    {
        match self {
            PhaseSource::Observer
            | PhaseSource::HallToObserver { .. }
            | PhaseSource::EncoderToObserver
            | PhaseSource::HfiToObserver
            | PhaseSource::HfiToObserverVolts => true,
            _ => false,
        }
    }
}

} // verus!
