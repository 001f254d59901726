//! Bits of the compact reset report.
use vstd::prelude::*;

verus! {

pub const PIN: u8 = 1;

pub const POWER: u8 = 2;

pub const SOFTWARE: u8 = 4;

pub const INDEPENDENT_WATCHDOG: u8 = 8;

pub const WINDOW_WATCHDOG: u8 = 16;

pub const LOW_POWER: u8 = 32;

} // verus!
