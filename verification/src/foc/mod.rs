//! Control core: scalars, transforms, regulation, limits, modulation and phase.
pub mod numeric;
pub mod roots;
pub mod control_types;
pub mod controller;
pub mod current_limits;
pub mod hall_sensor;
pub mod offset_tracker;
pub mod phase;
pub mod pi_controller;
pub mod ramp;
pub mod svpwm;
pub mod transforms;
pub mod trig;

pub use control_types::{AlphaBeta, Dq, PwmDuty};
pub use controller::{
    DecouplingModel, FixedDecoupling, FixedFocController, FocController, NoDecoupling,
};
pub use hall_sensor::{HallError, HallGeometry, HallSensor};
pub use numeric::{Fixed, Scalar};
pub use pi_controller::PIController;
