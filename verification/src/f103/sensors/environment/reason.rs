//! Bits of the derating report.
use vstd::prelude::*;

verus! {

pub const CONTROLLER_TEMPERATURE: u8 = 1;

pub const MOTOR_TEMPERATURE: u8 = 2;

pub const DC_BUS_UNDERVOLTAGE: u8 = 32;

pub const LOCAL_DATA_MISSING: u8 = 64;

} // verus!
