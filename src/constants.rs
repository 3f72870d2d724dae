//! Precision domains and the fixed ratios between them.
use vstd::prelude::*;

verus! {

/// Precision of mark and oracle prices.
pub const MARK_PRICE_PRECISION: u128 = 1_000_000;

/// Precision of the peg multiplier.
pub const PEG_PRECISION: u128 = 1_000_000;

/// Precision of quote-asset amounts.
pub const QUOTE_PRECISION: u128 = 1_000_000;

/// Precision of AMM reserves and base-asset amounts.
pub const AMM_RESERVE_PRECISION: u128 = 1_000_000_000;

/// Reserve precision to quote precision.
pub const AMM_TO_QUOTE_PRECISION_RATIO: u128 = AMM_RESERVE_PRECISION / QUOTE_PRECISION;

/// Mark-price precision to peg precision.
pub const PRICE_TO_PEG_PRECISION_RATIO: u128 = MARK_PRICE_PRECISION / PEG_PRECISION;

/// Reserve times peg precision, to quote precision.
pub const AMM_TIMES_PEG_TO_QUOTE_PRECISION_RATIO: u128 = AMM_RESERVE_PRECISION * PEG_PRECISION
    / QUOTE_PRECISION;

/// Precision of the oracle/terminal divergence percentage.
pub const PRICE_SPREAD_PRECISION: i128 = 10_000;

/// Seconds in one hour.
pub const ONE_HOUR: i64 = 3600;

/// Share of all fees that is held back for distribution: numerator.
pub const SHARE_OF_FEES_ALLOCATED_TO_CLEARING_HOUSE_NUMERATOR: u128 = 1;

/// Share of all fees that is held back for distribution: denominator.
pub const SHARE_OF_FEES_ALLOCATED_TO_CLEARING_HOUSE_DENOMINATOR: u128 = 2;

/// Divisor that turns base amount times price spread into quote precision.
pub const FUNDING_EXCESS_DIVISOR: u128 = MARK_PRICE_PRECISION * AMM_RESERVE_PRECISION
    / QUOTE_PRECISION;

} // verus!
