//! Phase-strategy identities available to every numeric backend.
use vstd::prelude::*;

verus! {

#[derive(Clone, Copy, Debug, Default, Eq, PartialEq, Structural)]
pub enum PhaseStrategy {
    #[default]
    Hall,
    Encoder,
    Observer,
    Hfi,
    HallToObserver,
    EncoderToObserver,
    HfiToObserver,
    HfiToObserverVolts,
    HfiToHall,
    HfiToEncoder,
    Manual,
    OpenLoop,
}

impl PhaseStrategy {
    pub fn requires_hall(self) -> (r: bool)
        ensures
            r == (self is Hall || self is HallToObserver || self is HfiToHall),
    {
        matches!(
            self,
            PhaseStrategy::Hall | PhaseStrategy::HallToObserver | PhaseStrategy::HfiToHall
        )
    }

    pub fn requires_encoder(self) -> (r: bool)
        ensures
            r == (self is Encoder || self is EncoderToObserver || self is HfiToEncoder),
    {
        matches!(
            self,
            PhaseStrategy::Encoder | PhaseStrategy::EncoderToObserver | PhaseStrategy::HfiToEncoder
        )
    }

    pub fn requires_observer(self) -> (r: bool)
        ensures
            r == (self is Observer || self is HallToObserver || self is EncoderToObserver
                || self is HfiToObserver || self is HfiToObserverVolts),
    {
        matches!(
            self,
            PhaseStrategy::Observer
                | PhaseStrategy::HallToObserver
                | PhaseStrategy::EncoderToObserver
                | PhaseStrategy::HfiToObserver
                | PhaseStrategy::HfiToObserverVolts
        )
    }

    pub fn requires_hfi(self) -> (r: bool)
        ensures
            r == (self is Hfi || self is HfiToObserver || self is HfiToObserverVolts
                || self is HfiToHall || self is HfiToEncoder),
    {
        matches!(
            self,
            PhaseStrategy::Hfi
                | PhaseStrategy::HfiToObserver
                | PhaseStrategy::HfiToObserverVolts
                | PhaseStrategy::HfiToHall
                | PhaseStrategy::HfiToEncoder
        )
    }

    pub fn is_manual(self) -> (r: bool)
        ensures
            r == (self is Manual || self is OpenLoop),
    {
        matches!(self, PhaseStrategy::Manual | PhaseStrategy::OpenLoop)
    }
}

} // verus!
