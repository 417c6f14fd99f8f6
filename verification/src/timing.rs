//! Minimum delays of the protocol, in microseconds.
//!
//! Each constant is a conservative margin over the controller datasheet
//! minimum it protects, so the sequences stay reliable across the slower
//! clones of the controller. A performer of the step sequences must sleep
//! at least `delay_us` after each write; sleeping longer is always safe.

use vstd::prelude::*;

verus! {

/// Time the data and control lines must be stable before enable rises.
/// The datasheet minimum is in the tens of nanoseconds; one microsecond
/// is a comfortable margin.
pub const ADDRESS_SETUP_US: u64 = 1;

/// Minimum width of the enable pulse (datasheet minimum 450 ns).
pub const ENABLE_PULSE_US: u64 = 1;

/// Recovery time after enable falls, while the controller digests one
/// nibble (datasheet minimum 37 us).
pub const NIBBLE_SETTLE_US: u64 = 50;

/// Execution time of an ordinary command or data write (datasheet
/// minimum 37 us).
pub const COMMAND_EXEC_US: u64 = 50;

/// Execution time of the clear-display and return-home commands, far
/// slower than the rest (datasheet minimum 1.52 ms).
pub const CLEAR_HOME_EXEC_US: u64 = 2000;

/// Time the controller needs after power-up before any bus activity may
/// reach it (datasheet minimum 40 ms). The initialization steps assume
/// this much has already passed; the performer must wait it out first.
pub const POWER_ON_SETTLE_US: u64 = 45000;

/// Wait after the first reset nibble (datasheet minimum 4.1 ms).
pub const RESET_FIRST_US: u64 = 4500;

/// Wait after the later reset nibbles and the 4-bit mode-set nibble
/// (datasheet minimum 100 us).
pub const RESET_SETTLE_US: u64 = 150;

} // verus!
