//! Bounds on group parameters.

use vstd::prelude::*;

verus! {

/// Maximum members per group.
pub const MAX_MEMBERS: u32 = 100;

/// Minimum members per group: a rotation needs at least two.
pub const MIN_MEMBERS: u32 = 2;

/// Maximum contribution amount.
pub const MAX_CONTRIBUTION: i128 = 10_000_000_000_000_000;

/// Minimum contribution amount.
pub const MIN_CONTRIBUTION: i128 = 100_000;

/// Maximum cycle duration (365 days in seconds).
pub const MAX_CYCLE_DURATION: u64 = 31_536_000;

/// Minimum cycle duration (1 hour in seconds).
pub const MIN_CYCLE_DURATION: u64 = 3_600;

/// Maximum length of a group's name.
pub const MAX_NAME_LENGTH: u32 = 100;

/// Maximum length of a group's description.
pub const MAX_DESCRIPTION_LENGTH: u32 = 500;

/// Maximum length of a group's rules.
pub const MAX_RULES_LENGTH: u32 = 1000;

} // verus!
