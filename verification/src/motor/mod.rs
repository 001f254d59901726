//! Synchronous motor driver.
pub mod foc_driver;

pub use foc_driver::{CurrentLimits, FocDriver, FocOutput, StepError};
