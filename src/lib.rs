//! Timer drivers for the MSP432P401R: the four 16-bit Timer_A instances and
//! the two channels of the 32-bit Timer32, programmed from a frequency or a
//! period instead of raw divider and counter values.
//!
//! Each driver keeps the register file of its peripheral as plain values; the
//! firmware mirrors those words to and from the memory-mapped registers.
use vstd::prelude::*;

pub mod clock;
pub mod common;
pub mod register;
pub mod time;
pub mod timer;
