//! The market snapshot that repegging reads and updates.
use vstd::prelude::*;

verus! {

/// State of the virtual constant-product AMM of one market.
#[derive(Debug, Clone, Copy, PartialEq, Eq, Structural)]
pub struct AMM {
    pub base_asset_reserve: u128,
    pub quote_asset_reserve: u128,
    pub sqrt_k: u128,
    pub peg_multiplier: u128,
    pub last_mark_price_twap: u128,
    pub last_oracle_price_twap: i128,
    pub funding_period: i64,
    pub total_fee: u128,
    pub total_fee_minus_distributions: u128,
}

/// One perpetual market: the net base position of its users and its AMM.
#[derive(Debug, Clone, Copy, PartialEq, Eq, Structural)]
pub struct Market {
    pub base_asset_amount: i128,
    pub amm: AMM,
}

/// A price reading of the oracle.
#[derive(Debug, Clone, Copy, PartialEq, Eq, Structural)]
pub struct OraclePriceData {
    pub price: i128,
    pub confidence: u128,
    pub delay: i64,
    pub has_sufficient_number_of_data_points: bool,
}

impl AMM {
    /// Reserves and peg are positive, and distributions never exceed the fees.
    pub open spec fn well_formed(&self) -> bool {
        &&& self.base_asset_reserve > 0
        &&& self.quote_asset_reserve > 0
        &&& self.peg_multiplier > 0
        &&& self.total_fee_minus_distributions <= self.total_fee
    }
}

impl Market {
    /// The market with its peg multiplier replaced.
    pub open spec fn with_peg(self, peg: u128) -> Market {
        Market { amm: AMM { peg_multiplier: peg, ..self.amm }, ..self }
    }
}

} // verus!
