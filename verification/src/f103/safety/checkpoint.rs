//! Progress marks of the control interrupt.
use vstd::prelude::*;

verus! {

pub const IDLE: u8 = 0;

pub const ENTERED: u8 = 1;

pub const CURRENT_SAMPLED: u8 = 2;

pub const PHASE_ESTIMATED: u8 = 3;

pub const DRIVER_COMPLETE: u8 = 4;

pub const PWM_WRITTEN: u8 = 5;

pub const COMPLETE: u8 = 6;

} // verus!
