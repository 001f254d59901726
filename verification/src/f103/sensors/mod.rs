//! Local analog, digital, Hall-adjacent, and wheel sensing.
pub mod analog;
pub mod environment;
pub mod inputs;
pub mod throttle;
pub mod wheel;
pub mod wheel_capture;

pub use analog::{bus_voltage_mv, latest, InputMonitor, Snapshot};
