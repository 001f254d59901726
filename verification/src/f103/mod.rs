//! Synchronous STM32F103 firmware logic built around the fixed-point core.
//!
//! The current-control path uses no floating-point operations. Physical units
//! cross the CAN boundary as explicitly scaled integers.
pub mod config;
pub mod control;
pub mod foreground;
pub mod hardware;
pub mod protocol;
pub mod safety;
pub mod sensors;
pub mod transport;
