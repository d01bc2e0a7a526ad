//! Admissible ranges and fixed rates of a savings pool.

use vstd::prelude::*;

verus! {

/// Fewest participants a pool may be configured for.
pub const MIN_PARTICIPANTS: u8 = 3;

/// Most participants a pool may be configured for.
pub const MAX_PARTICIPANTS: u8 = 10;

/// Smallest per-cycle contribution, in settlement units.
pub const MIN_CONTRIBUTION_AMOUNT: u64 = 10;

/// Largest per-cycle contribution, in settlement units.
pub const MAX_CONTRIBUTION_AMOUNT: u64 = 10000;

/// Shortest cycle: three days, in seconds.
pub const MIN_CYCLE_DURATION: u64 = 3 * 24 * 60 * 60;

/// Longest cycle: twenty-eight days, in seconds.
pub const MAX_CYCLE_DURATION: u64 = 28 * 24 * 60 * 60;

/// Shortest delay between the end of contributions and the payout: one day.
pub const MIN_PAYOUT_DELAY: u64 = 1 * 24 * 60 * 60;

/// Longest delay between the end of contributions and the payout: seven days.
pub const MAX_PAYOUT_DELAY: u64 = 7 * 24 * 60 * 60;

/// Early-withdrawal fee of a default configuration, in basis points.
pub const DEFAULT_EARLY_WITHDRAWAL_FEE_BPS: u16 = 200;

/// Highest early-withdrawal fee a pool may charge, in basis points.
pub const MAX_EARLY_WITHDRAWAL_FEE_BPS: u16 = 1000;

/// Collateral requirement of a default configuration, in basis points.
pub const DEFAULT_COLLATERAL_REQUIREMENT_BPS: u16 = 20000;

/// Lowest collateral requirement a pool may set, in basis points.
pub const MIN_COLLATERAL_REQUIREMENT_BPS: u16 = 10000;

/// One hundred percent, in basis points.
pub const BASIS_POINTS_DIVISOR: u64 = 10000;

/// Oldest price update that is still accepted, in seconds.
pub const MAXIMUM_AGE: u64 = 60 * 60;

/// A bid of at least this size closes the auction early.
pub const MAX_BID_AMOUNT: u64 = 1000000000000000000;

/// Highest protocol fee and highest penalty rate, in basis points.
pub const MAX_PROTOCOL_FEE_BPS: u16 = 1000;

/// Penalty rate a protocol starts with, in basis points.
pub const DEFAULT_PENALTY_BPS: u16 = 500;

/// Share of a defaulted payout that is seized on top of it, in basis points.
pub const SLASH_PENALTY_BPS: u64 = 500;

/// Collateral owed per hundred units of exposure.
pub const COLLATERAL_RATIO_PERCENT: u64 = 130;

} // verus!
