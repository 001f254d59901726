//! Field-oriented motor control in machine integers: the control core, the
//! STM32F103 ride firmware's decisions, and the motor calibration.
pub mod arith;
pub mod calibration;
pub mod f103;
pub mod foc;
pub mod motor;
