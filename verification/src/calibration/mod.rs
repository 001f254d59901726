//! Synchronous motor calibration built on the fixed-point control path.
pub mod config;
pub mod control;
pub mod flux_linkage;
pub mod hall_calibration;
pub mod inductance;
pub mod measure;
pub mod protocol;
pub mod resistance;
pub mod session;
pub mod types;
