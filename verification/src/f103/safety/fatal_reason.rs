//! Classes of fatal exceptions.
use vstd::prelude::*;

verus! {

pub const NONE: u8 = 0;

pub const PANIC: u8 = 1;

pub const HARD_FAULT: u8 = 2;

pub const NON_MASKABLE_INTERRUPT: u8 = 3;

pub const DEFAULT_HANDLER: u8 = 4;

} // verus!
