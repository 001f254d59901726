//! Predicates that reject an output.
use vstd::prelude::*;

verus! {

pub const NONE: u8 = 0;

pub const COMPARE_RANGE: u8 = 1;

pub const BREAK_ACTIVE: u8 = 2;

pub const FAULT_LATCHED: u8 = 3;

pub const POWER_STAGE_DISABLED: u8 = 4;

pub const POST_PIN_CONFIGURATION: u8 = 5;

pub const ENABLE_READBACK: u8 = 6;

pub const POST_ENABLE: u8 = 7;

} // verus!
