//! Synchronous transports of the controller.
pub mod can;

pub use can::{service, take_reset_request};
