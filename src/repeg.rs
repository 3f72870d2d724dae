//! Repeg validity, the budget-constrained peg solver, the cost of a peg change,
//! and the budget available for a repeg.
use crate::amm::{
    calculate_price, calculate_swap_output, calculate_terminal_price, price_spec,
    swap_direction_to_close_position, terminal_price_spec, unwound_reserves_spec,
};
use crate::bn::{checked_mul_div, mul_div_spec};
use crate::constants::{
    AMM_TO_QUOTE_PRECISION_RATIO, FUNDING_EXCESS_DIVISOR, MARK_PRICE_PRECISION, ONE_HOUR,
    PEG_PRECISION, PRICE_SPREAD_PRECISION, PRICE_TO_PEG_PRECISION_RATIO, QUOTE_PRECISION,
    SHARE_OF_FEES_ALLOCATED_TO_CLEARING_HOUSE_DENOMINATOR,
    SHARE_OF_FEES_ALLOCATED_TO_CLEARING_HOUSE_NUMERATOR,
};
use crate::error::{
    cast_to_i128, cast_to_u128, or_math_error, unsigned_abs, ClearingHouseResult,
    ErrorCode,
};
use crate::position::{calculate_base_asset_value_and_pnl, value_and_pnl_spec};
use crate::state::{Market, OraclePriceData};
use vstd::prelude::*;

verus! {

// ---------------------------------------------------------------------------
// Validity of a repeg against the oracle
// ---------------------------------------------------------------------------

/// `(oracle - terminal) * PRICE_SPREAD_PRECISION / oracle`, rounded toward zero.
pub open spec fn divergence_pct_spec(oracle_price: i128, terminal_price: u128) -> Option<i128> {
    if terminal_price > i128::MAX as u128 {
        None
    } else {
        let spread = oracle_price - terminal_price;
        if spread < i128::MIN || spread > i128::MAX {
            None
        } else {
            let scaled = spread * PRICE_SPREAD_PRECISION;
            if scaled < i128::MIN || scaled > i128::MAX {
                None
            } else {
                (scaled as i128).checked_div(oracle_price)
            }
        }
    }
}

/// The three gating flags for an oracle judged valid: the terminal price must
/// have moved toward the oracle, stay inside the confidence band, and the mark
/// price must not pass the far side of the band.
pub open spec fn gating_flags(
    oracle_price: int,
    confidence: int,
    terminal_before: int,
    terminal_after: int,
    mark_after: int,
) -> (bool, bool, bool) {
    let top = oracle_price + confidence;
    let bottom = oracle_price - confidence;
    if oracle_price > terminal_after {
        (terminal_after >= terminal_before, bottom >= terminal_after, mark_after <= top)
    } else if oracle_price < terminal_after {
        (terminal_after <= terminal_before, top <= terminal_after, mark_after >= bottom)
    } else {
        (true, true, true)
    }
}

/// `(oracle_is_valid, direction_valid, profitability_valid, price_impact_valid,
/// divergence_pct)` of the market's current peg against the oracle.
pub open spec fn repeg_validity_spec(
    market: Market,
    oracle: OraclePriceData,
    oracle_is_valid: bool,
    terminal_price_before: u128,
) -> Option<(bool, bool, bool, bool, i128)> {
    if oracle.price < 0 {
        None
    } else {
        match terminal_price_spec(market) {
            None => None,
            Some(after) => match divergence_pct_spec(oracle.price, after) {
                None => None,
                Some(pct) => if !oracle_is_valid {
                    Some((false, false, false, false, pct))
                } else {
                    match price_spec(
                        market.amm.quote_asset_reserve,
                        market.amm.base_asset_reserve,
                        market.amm.peg_multiplier,
                    ) {
                        None => None,
                        Some(mark) => if oracle.price + oracle.confidence > u128::MAX
                            || oracle.price < oracle.confidence {
                            None
                        } else {
                            let (d, p, i) = gating_flags(
                                oracle.price as int,
                                oracle.confidence as int,
                                terminal_price_before as int,
                                after as int,
                                mark as int,
                            );
                            Some((true, d, p, i, pct))
                        },
                    }
                },
            },
        }
    }
}

/// Classifies a repeg, with the market at its current peg, as valid or not in
/// direction, profitability and price impact, given whether the oracle is valid.
pub fn calculate_repeg_validity(
    market: &mut Market,
    oracle_price_data: &OraclePriceData,
    oracle_is_valid: bool,
    terminal_price_before: u128,
) -> (r: ClearingHouseResult<(bool, bool, bool, bool, i128)>)
    ensures
        r == or_math_error(
            repeg_validity_spec(*old(market), *oracle_price_data, oracle_is_valid, terminal_price_before),
        ),
        *final(market) == *old(market),
{
    let oracle_price = oracle_price_data.price;
    let oracle_conf = oracle_price_data.confidence;
    let oracle_price_u128 = cast_to_u128(oracle_price)?;

    let terminal_price_after = calculate_terminal_price(market)?;
    let terminal_i128 = cast_to_i128(terminal_price_after)?;
    let oracle_terminal_spread_after = match oracle_price.checked_sub(terminal_i128) {
        Some(v) => v,
        None => return Err(ErrorCode::MathError),
    };
    let scaled = match oracle_terminal_spread_after.checked_mul(PRICE_SPREAD_PRECISION) {
        Some(v) => v,
        None => return Err(ErrorCode::MathError),
    };
    let oracle_terminal_divergence_pct_after = match scaled.checked_div(oracle_price) {
        Some(v) => v,
        None => return Err(ErrorCode::MathError),
    };

    let mut direction_valid = true;
    let mut price_impact_valid = true;
    let mut profitability_valid = true;

    if oracle_is_valid {
        let mark_price_after = calculate_price(
            market.amm.quote_asset_reserve,
            market.amm.base_asset_reserve,
            market.amm.peg_multiplier,
        )?;
        let oracle_conf_band_top = match oracle_price_u128.checked_add(oracle_conf) {
            Some(v) => v,
            None => return Err(ErrorCode::MathError),
        };
        let oracle_conf_band_bottom = match oracle_price_u128.checked_sub(oracle_conf) {
            Some(v) => v,
            None => return Err(ErrorCode::MathError),
        };
        if oracle_price_u128 > terminal_price_after {
            // only allow the terminal price up when the oracle is higher
            if terminal_price_after < terminal_price_before {
                direction_valid = false;
            }
            // only push the terminal price up to the bottom of the band
            if oracle_conf_band_bottom < terminal_price_after {
                profitability_valid = false;
            }
            // only push the mark price up to the top of the band
            if mark_price_after > oracle_conf_band_top {
                price_impact_valid = false;
            }
        } else if oracle_price_u128 < terminal_price_after {
            // only allow the terminal price down when the oracle is lower
            if terminal_price_after > terminal_price_before {
                direction_valid = false;
            }
            // only push the terminal price down to the top of the band
            if oracle_conf_band_top > terminal_price_after {
                profitability_valid = false;
            }
            // only push the mark price down to the bottom of the band
            if mark_price_after < oracle_conf_band_bottom {
                price_impact_valid = false;
            }
        }
    } else {
        direction_valid = false;
        price_impact_valid = false;
        profitability_valid = false;
    }

    Ok((
        oracle_is_valid,
        direction_valid,
        profitability_valid,
        price_impact_valid,
        oracle_terminal_divergence_pct_after,
    ))
}

// ---------------------------------------------------------------------------
// Peg for a target price
// ---------------------------------------------------------------------------

/// Peg at which the reserves price exactly `target_price` (rounded down):
/// `target_price * base / quote / PRICE_TO_PEG_PRECISION_RATIO`.
pub open spec fn peg_from_target_spec(
    quote_asset_reserve: u128,
    base_asset_reserve: u128,
    target_price: u128,
) -> Option<u128> {
    match mul_div_spec(target_price as int, base_asset_reserve as int, quote_asset_reserve as int) {
        Some(v) => Some((v / PRICE_TO_PEG_PRECISION_RATIO as int) as u128),
        None => None,
    }
}

/// The peg that makes the reserves' price equal `target_price`.
pub fn calculate_peg_from_target_price(
    quote_asset_reserve: u128,
    base_asset_reserve: u128,
    target_price: u128,
) -> (r: ClearingHouseResult<u128>)
    ensures
        r == or_math_error(peg_from_target_spec(quote_asset_reserve, base_asset_reserve, target_price)),
{
    match checked_mul_div(target_price, base_asset_reserve, quote_asset_reserve) {
        Some(v) => Ok(v / PRICE_TO_PEG_PRECISION_RATIO),
        None => Err(ErrorCode::MathError),
    }
}

// ---------------------------------------------------------------------------
// Cost of a peg change
// ---------------------------------------------------------------------------

/// Change in the value of the net position when the peg moves to `new_peg`:
/// positive when the users gain (the market pays), negative when they lose.
pub open spec fn peg_cost_spec(market: Market, new_peg: u128) -> Option<i128> {
    if new_peg == market.amm.peg_multiplier {
        Some(0)
    } else {
        match value_and_pnl_spec(market.base_asset_amount, 0, market.amm) {
            None => None,
            Some((before, _)) => match value_and_pnl_spec(
                market.base_asset_amount,
                before,
                market.with_peg(new_peg).amm,
            ) {
                None => None,
                Some((_, cost)) => Some(cost),
            },
        }
    }
}

/// Moves the peg to `new_peg_candidate` and returns what that costs; on failure
/// the market is left as it was.
pub fn adjust_peg_cost(market: &mut Market, new_peg_candidate: u128) -> (r: ClearingHouseResult<i128>)
    ensures
        r == or_math_error(peg_cost_spec(*old(market), new_peg_candidate)),
        r is Ok ==> *final(market) == old(market).with_peg(new_peg_candidate),
        r is Err ==> *final(market) == *old(market),
{
    if new_peg_candidate == market.amm.peg_multiplier {
        assert(market.with_peg(new_peg_candidate) == *market);
        return Ok(0);
    }
    // value the net position before moving the peg
    let (current_net_market_value, _) = calculate_base_asset_value_and_pnl(
        market.base_asset_amount,
        0,
        &market.amm,
    )?;
    let mut staged = *market;
    staged.amm.peg_multiplier = new_peg_candidate;
    let (_new_net_market_value, cost) = calculate_base_asset_value_and_pnl(
        staged.base_asset_amount,
        current_net_market_value,
        &staged.amm,
    )?;
    *market = staged;
    Ok(cost)
}

// ---------------------------------------------------------------------------
// Budgeted peg
// ---------------------------------------------------------------------------

/// Peg movement that `budget` buys when unwinding moves the quote reserve by
/// `delta_quote_asset_reserves`, in peg precision.
pub open spec fn budget_peg_delta_spec(budget: u128, delta_quote_asset_reserves: u128) -> Option<u128> {
    let dq = delta_quote_asset_reserves / AMM_TO_QUOTE_PRECISION_RATIO;
    if dq == 0 || budget * MARK_PRICE_PRECISION > u128::MAX {
        None
    } else {
        let dpm: int = budget * MARK_PRICE_PRECISION / (dq as int);
        if dpm * PEG_PRECISION > u128::MAX {
            None
        } else {
            Some((dpm * PEG_PRECISION / MARK_PRICE_PRECISION as int) as u128)
        }
    }
}

/// Peg that the budget reaches from the current peg, moving in the direction
/// that unwinding moves the quote reserve and stopping at `optimal_peg`.
pub open spec fn full_budget_peg_spec(
    market: Market,
    budget: u128,
    new_quote_asset_amount: u128,
    optimal_peg: u128,
) -> Option<u128> {
    let quote = market.amm.quote_asset_reserve;
    let peg = market.amm.peg_multiplier;
    if new_quote_asset_amount == quote {
        Some(optimal_peg)
    } else {
        let up = quote > new_quote_asset_amount;
        let dq: int = if up { quote - new_quote_asset_amount } else { new_quote_asset_amount - quote };
        match budget_peg_delta_spec(budget, dq as u128) {
            None => None,
            Some(delta) => {
                let moved: int = if up { peg + delta } else { peg - delta };
                if moved < 0 || moved > u128::MAX {
                    None
                } else if (up && optimal_peg < moved) || (!up && optimal_peg > moved) {
                    Some(optimal_peg)
                } else {
                    Some(moved as u128)
                }
            },
        }
    }
}

/// The optimal peg wherever the budget-limited peg would move the wrong way
/// relative to where the current price stands against the target.
pub open spec fn overshoot_guard(
    full_budget_peg: u128,
    optimal_peg: u128,
    current_price: u128,
    target_price: u128,
) -> u128 {
    if (current_price > target_price && full_budget_peg < optimal_peg) || (current_price
        < target_price && full_budget_peg > optimal_peg) {
        optimal_peg
    } else {
        full_budget_peg
    }
}

/// Candidate peg that the solver picks, before its cost is measured.
pub open spec fn candidate_peg_spec(
    market: Market,
    budget: u128,
    current_price: u128,
    target_price: u128,
) -> Option<u128> {
    match unwound_reserves_spec(market) {
        None => None,
        Some((new_quote, _)) => match peg_from_target_spec(
            market.amm.quote_asset_reserve,
            market.amm.base_asset_reserve,
            target_price,
        ) {
            None => None,
            Some(optimal) => match full_budget_peg_spec(market, budget, new_quote, optimal) {
                None => None,
                Some(full) => Some(overshoot_guard(full, optimal, current_price, target_price)),
            },
        },
    }
}

/// `(candidate_peg, cost)` of the budget-constrained repeg toward `target_price`.
pub open spec fn budgeted_peg_spec(
    market: Market,
    budget: u128,
    current_price: u128,
    target_price: u128,
) -> Option<(u128, i128)> {
    match candidate_peg_spec(market, budget, current_price, target_price) {
        None => None,
        Some(candidate) => match peg_cost_spec(market, candidate) {
            None => None,
            Some(cost) => Some((candidate, cost)),
        },
    }
}

/// Peg movement that `budget` buys against a quote-reserve change.
pub fn calculate_budget_peg_delta(budget: u128, delta_quote_asset_reserves: u128) -> (r: ClearingHouseResult<u128>)
    ensures
        r == or_math_error(budget_peg_delta_spec(budget, delta_quote_asset_reserves)),
{
    let dq = delta_quote_asset_reserves / AMM_TO_QUOTE_PRECISION_RATIO;
    let scaled_budget = match budget.checked_mul(MARK_PRICE_PRECISION) {
        Some(v) => v,
        None => return Err(ErrorCode::MathError),
    };
    let delta_peg_multiplier = match scaled_budget.checked_div(dq) {
        Some(v) => v,
        None => return Err(ErrorCode::MathError),
    };
    match delta_peg_multiplier.checked_mul(PEG_PRECISION) {
        Some(v) => Ok(v / MARK_PRICE_PRECISION),
        None => Err(ErrorCode::MathError),
    }
}

/// Finds the peg nearest `target_price` that `budget` can pay for, without
/// passing the peg that prices exactly `target_price`, moves the market to it and
/// returns `(candidate_peg, cost)`. On failure the market is left as it was.
pub fn calculate_budgeted_peg(
    market: &mut Market,
    budget: u128,
    current_price: u128,
    target_price: u128,
) -> (r: ClearingHouseResult<(u128, i128)>)
    ensures
        r == or_math_error(budgeted_peg_spec(*old(market), budget, current_price, target_price)),
        r is Ok ==> *final(market) == old(market).with_peg(r->Ok_0.0),
        r is Err ==> *final(market) == *old(market),
{
    let order_swap_direction = swap_direction_to_close_position(market.base_asset_amount);
    let (new_quote_asset_amount, _new_base_asset_amount) = calculate_swap_output(
        unsigned_abs(market.base_asset_amount),
        market.amm.base_asset_reserve,
        order_swap_direction,
        market.amm.sqrt_k,
    )?;

    let optimal_peg = calculate_peg_from_target_price(
        market.amm.quote_asset_reserve,
        market.amm.base_asset_reserve,
        target_price,
    )?;

    let quote = market.amm.quote_asset_reserve;
    let peg = market.amm.peg_multiplier;
    let full_budget_peg: u128 = if new_quote_asset_amount != quote {
        let up = quote > new_quote_asset_amount;
        let delta_quote_asset_reserves = if up {
            quote - new_quote_asset_amount
        } else {
            new_quote_asset_amount - quote
        };
        let delta_peg_precision = calculate_budget_peg_delta(budget, delta_quote_asset_reserves)?;
        let new_budget_peg = if up {
            match peg.checked_add(delta_peg_precision) {
                Some(v) => v,
                None => return Err(ErrorCode::MathError),
            }
        } else {
            match peg.checked_sub(delta_peg_precision) {
                Some(v) => v,
                None => return Err(ErrorCode::MathError),
            }
        };
        // pegs that act against the net market stop at the optimal peg
        if (up && optimal_peg < new_budget_peg) || (!up && optimal_peg > new_budget_peg) {
            optimal_peg
        } else {
            new_budget_peg
        }
    } else {
        optimal_peg
    };

    // avoid overshooting the budget past the target
    let candidate_peg: u128 = if (current_price > target_price && full_budget_peg < optimal_peg)
        || (current_price < target_price && full_budget_peg > optimal_peg) {
        optimal_peg
    } else {
        full_budget_peg
    };

    let candidate_cost = adjust_peg_cost(market, candidate_peg)?;
    Ok((candidate_peg, candidate_cost))
}

// ---------------------------------------------------------------------------
// Budget for a repeg
// ---------------------------------------------------------------------------

/// Part of all fees held back for distribution: `total_fee * 1 / 2`.
pub open spec fn total_fee_lower_bound_spec(market: Market) -> Option<u128> {
    let held = market.amm.total_fee * SHARE_OF_FEES_ALLOCATED_TO_CLEARING_HOUSE_NUMERATOR;
    if held > u128::MAX {
        None
    } else {
        Some((held / SHARE_OF_FEES_ALLOCATED_TO_CLEARING_HOUSE_DENOMINATOR as int) as u128)
    }
}

/// Fees above the held-back part, or zero.
pub open spec fn fee_pool_spec(market: Market) -> Option<u128> {
    match total_fee_lower_bound_spec(market) {
        None => None,
        Some(lb) => Some(
            if market.amm.total_fee_minus_distributions > lb {
                (market.amm.total_fee_minus_distributions - lb) as u128
            } else {
                0
            },
        ),
    }
}

/// `24h / max(1h, funding_period)`, rounded down.
pub open spec fn period_adjustment_spec(funding_period: i64) -> int {
    24 * ONE_HOUR / (if funding_period > ONE_HOUR { funding_period as int } else { ONE_HOUR as int })
}

/// `base * ((mark - oracle) - (mark_twap - oracle_twap)) / period_adjustment /
/// FUNDING_EXCESS_DIVISOR`, each division rounded toward zero.
pub open spec fn expected_funding_excess_spec(
    market: Market,
    oracle_price: i128,
    mark_price: u128,
) -> Option<i128> {
    let spread = mark_price - oracle_price;
    let twap_spread = market.amm.last_mark_price_twap - market.amm.last_oracle_price_twap;
    let diff = spread - twap_spread;
    let product = market.base_asset_amount * diff;
    if mark_price > i128::MAX as u128 || market.amm.last_mark_price_twap > i128::MAX as u128 {
        None
    } else if spread < i128::MIN || spread > i128::MAX || twap_spread < i128::MIN || twap_spread
        > i128::MAX {
        None
    } else if diff < i128::MIN || diff > i128::MAX || product < i128::MIN || product > i128::MAX {
        None
    } else {
        match (product as i128).checked_div(period_adjustment_spec(market.amm.funding_period) as i128) {
            None => None,
            Some(per_day) => per_day.checked_div(FUNDING_EXCESS_DIVISOR as i128),
        }
    }
}

/// `min(QUOTE_PRECISION, max(0, excess) / 10, fee_pool / 100)`.
pub open spec fn pool_budget_of(fee_pool: u128, expected_funding_excess: i128) -> u128 {
    let from_funding: int = if expected_funding_excess > 0 { expected_funding_excess as int / 10 } else { 0 };
    let from_fees: int = fee_pool as int / 100;
    let lesser: int = if from_funding < from_fees { from_funding } else { from_fees };
    (if QUOTE_PRECISION < lesser { QUOTE_PRECISION as int } else { lesser }) as u128
}

/// Budget for one repeg of `market`.
pub open spec fn pool_budget_spec(market: Market, mark_price: u128, oracle: OraclePriceData) -> Option<u128> {
    match fee_pool_spec(market) {
        None => None,
        Some(fee_pool) => match expected_funding_excess_spec(market, oracle.price, mark_price) {
            None => None,
            Some(excess) => Some(pool_budget_of(fee_pool, excess)),
        },
    }
}

/// Part of the total fee that is held back for distribution.
pub fn total_fee_lower_bound(market: &Market) -> (r: ClearingHouseResult<u128>)
    ensures
        r == or_math_error(total_fee_lower_bound_spec(*market)),
{
    match market.amm.total_fee.checked_mul(SHARE_OF_FEES_ALLOCATED_TO_CLEARING_HOUSE_NUMERATOR) {
        Some(v) => Ok(v / SHARE_OF_FEES_ALLOCATED_TO_CLEARING_HOUSE_DENOMINATOR),
        None => Err(ErrorCode::MathError),
    }
}

/// Fees available to pay for repegs.
pub fn calculate_fee_pool(market: &Market) -> (r: ClearingHouseResult<u128>)
    ensures
        r == or_math_error(fee_pool_spec(*market)),
{
    let lower_bound = total_fee_lower_bound(market)?;
    if market.amm.total_fee_minus_distributions > lower_bound {
        Ok(market.amm.total_fee_minus_distributions - lower_bound)
    } else {
        Ok(0)
    }
}

/// Expected excess of funding: how far the instantaneous mark/oracle spread runs
/// ahead of the twap spread, for the net position, over one day.
pub fn calculate_expected_funding_excess(
    market: &Market,
    oracle_price: i128,
    precomputed_mark_price: u128,
) -> (r: ClearingHouseResult<i128>)
    ensures
        r == or_math_error(expected_funding_excess_spec(*market, oracle_price, precomputed_mark_price)),
{
    let mark_i128 = cast_to_i128(precomputed_mark_price)?;
    let oracle_mark_spread = match mark_i128.checked_sub(oracle_price) {
        Some(v) => v,
        None => return Err(ErrorCode::MathError),
    };
    let twap_i128 = cast_to_i128(market.amm.last_mark_price_twap)?;
    let oracle_mark_twap_spread = match twap_i128.checked_sub(market.amm.last_oracle_price_twap) {
        Some(v) => v,
        None => return Err(ErrorCode::MathError),
    };
    let funding_period = if market.amm.funding_period > ONE_HOUR {
        market.amm.funding_period
    } else {
        ONE_HOUR
    };
    let period_adjustment: i64 = 24 * ONE_HOUR / funding_period;
    let diff = match oracle_mark_spread.checked_sub(oracle_mark_twap_spread) {
        Some(v) => v,
        None => return Err(ErrorCode::MathError),
    };
    let product = match market.base_asset_amount.checked_mul(diff) {
        Some(v) => v,
        None => return Err(ErrorCode::MathError),
    };
    let per_day = match product.checked_div(period_adjustment as i128) {
        Some(v) => v,
        None => return Err(ErrorCode::MathError),
    };
    match per_day.checked_div(FUNDING_EXCESS_DIVISOR as i128) {
        Some(v) => Ok(v),
        None => Err(ErrorCode::MathError),
    }
}

/// Budget for one repeg: the least of one quote unit, a tenth of the positive
/// expected funding excess, and a hundredth of the fee pool.
pub fn calculate_pool_budget(
    market: &Market,
    precomputed_mark_price: u128,
    oracle_price_data: &OraclePriceData,
) -> (r: ClearingHouseResult<u128>)
    ensures
        r == or_math_error(pool_budget_spec(*market, precomputed_mark_price, *oracle_price_data)),
        r is Ok ==> r->Ok_0 <= QUOTE_PRECISION,
{
    let fee_pool = calculate_fee_pool(market)?;
    let expected_funding_excess = calculate_expected_funding_excess(
        market,
        oracle_price_data.price,
        precomputed_mark_price,
    )?;
    let positive_excess: u128 = if expected_funding_excess > 0 {
        expected_funding_excess as u128
    } else {
        0
    };
    let from_funding = positive_excess / 10;
    let from_fees = fee_pool / 100;
    let lesser = if from_funding < from_fees { from_funding } else { from_fees };
    let max_budget_quote = QUOTE_PRECISION;
    Ok(if max_budget_quote < lesser { max_budget_quote } else { lesser })
}

} // verus!
