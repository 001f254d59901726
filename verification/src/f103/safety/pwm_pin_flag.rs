//! Pin conditions recorded with a rejected output.
use vstd::prelude::*;

verus! {

pub const BREAK_ACTIVE: u8 = 1;

pub const POWER_STAGE_DISABLED: u8 = 2;

pub const CLOCK_SECURITY_FAILURE: u8 = 4;

} // verus!
