//! Electrical-phase source management for synchronous FOC control.
//!
//! Sensors and estimators implement [`PhaseProvider`]. The phase manager owns
//! the Hall sensor and optional back-EMF observer, validates source selection,
//! and presents one phase stream to the current loop.
pub mod control;
pub mod manager;
pub mod observer;
pub mod provider;
pub mod source;
pub mod strategy;

pub use manager::{ObserverDiagnostics, PhaseManager};
pub use observer::BackEmfObserver;
pub use provider::{PhaseEstimate, PhaseInput, PhaseProvider};
pub use source::{PhaseSource, PhaseSourceError};
pub use strategy::PhaseStrategy;
