//! Facts about the repeg computations that relate several inputs or calls.
use crate::amm::{price_spec, unwound_reserves_spec};
use crate::constants::{PRICE_TO_PEG_PRECISION_RATIO, QUOTE_PRECISION};
use crate::position::base_asset_value_spec;
use crate::repeg::{
    budget_peg_delta_spec, budgeted_peg_spec, candidate_peg_spec, expected_funding_excess_spec,
    fee_pool_spec, peg_cost_spec, peg_from_target_spec, pool_budget_spec, repeg_validity_spec,
};
use crate::state::{Market, OraclePriceData};
use vstd::arithmetic::div_mod::{lemma_div_is_ordered, lemma_div_is_ordered_by_denominator};
use vstd::prelude::*;

verus! {

/// The peg for a target price never falls as the target price rises, and never
/// rises as the quote reserve grows.
pub proof fn lemma_peg_from_target_monotonic(
    quote_asset_reserve: u128,
    base_asset_reserve: u128,
    target_price: u128,
    higher_target_price: u128,
    larger_quote_asset_reserve: u128,
)
    requires
        target_price <= higher_target_price,
        quote_asset_reserve <= larger_quote_asset_reserve,
        peg_from_target_spec(quote_asset_reserve, base_asset_reserve, target_price) is Some,
        peg_from_target_spec(quote_asset_reserve, base_asset_reserve, higher_target_price) is Some,
        peg_from_target_spec(larger_quote_asset_reserve, base_asset_reserve, target_price) is Some,
    ensures
        peg_from_target_spec(quote_asset_reserve, base_asset_reserve, target_price)->0
            <= peg_from_target_spec(quote_asset_reserve, base_asset_reserve, higher_target_price)->0,
        peg_from_target_spec(larger_quote_asset_reserve, base_asset_reserve, target_price)->0
            <= peg_from_target_spec(quote_asset_reserve, base_asset_reserve, target_price)->0,
{
    let b = base_asset_reserve as int;
    let q = quote_asset_reserve as int;
    let ratio = PRICE_TO_PEG_PRECISION_RATIO as int;
    let low = target_price as int * b;
    let high = higher_target_price as int * b;
    assert(low <= high) by (nonlinear_arith)
        requires
            low == target_price as int * b,
            high == higher_target_price as int * b,
            target_price <= higher_target_price,
            b >= 0,
    ;
    assert(low >= 0) by (nonlinear_arith)
        requires
            low == target_price as int * b,
            b >= 0,
            target_price >= 0,
    ;
    lemma_div_is_ordered(low, high, q);
    lemma_div_is_ordered(low / q, high / q, ratio);
    lemma_div_is_ordered_by_denominator(low, q, larger_quote_asset_reserve as int);
    lemma_div_is_ordered(low / (larger_quote_asset_reserve as int), low / q, ratio);
}

/// Moving the peg to the value it already has costs nothing and changes nothing.
pub proof fn lemma_same_peg_costs_nothing(market: Market)
    ensures
        peg_cost_spec(market, market.amm.peg_multiplier) == Some(0i128),
        market.with_peg(market.amm.peg_multiplier) == market,
{
}

/// Moving the peg to a candidate and back restores the market and its
/// valuation, and the two costs cancel.
pub proof fn lemma_peg_round_trip(market: Market, candidate: u128)
    requires
        peg_cost_spec(market, candidate) is Some,
        peg_cost_spec(market.with_peg(candidate), market.amm.peg_multiplier) is Some,
    ensures
        market.with_peg(candidate).with_peg(market.amm.peg_multiplier) == market,
        base_asset_value_spec(
            market.base_asset_amount,
            market.with_peg(candidate).with_peg(market.amm.peg_multiplier).amm,
        ) == base_asset_value_spec(market.base_asset_amount, market.amm),
        peg_cost_spec(market, candidate)->0 + peg_cost_spec(
            market.with_peg(candidate),
            market.amm.peg_multiplier,
        )->0 == 0,
{
    assert(market.with_peg(candidate).with_peg(market.amm.peg_multiplier) == market);
}

/// An oracle that is not valid blocks every repeg.
pub proof fn lemma_invalid_oracle_blocks_repeg(
    market: Market,
    oracle: OraclePriceData,
    terminal_price_before: u128,
)
    ensures
        repeg_validity_spec(market, oracle, false, terminal_price_before) matches Some(t) ==> (
        !t.0 && !t.1 && !t.2 && !t.3),
{
}

/// With a valid oracle that equals the terminal price, every flag holds and the
/// divergence is zero.
pub proof fn lemma_oracle_at_terminal_price(
    market: Market,
    oracle: OraclePriceData,
    terminal_price_before: u128,
)
    requires
        oracle.price >= 0,
        crate::amm::terminal_price_spec(market) == Some(oracle.price as u128),
    ensures
        repeg_validity_spec(market, oracle, true, terminal_price_before) matches Some(t) ==> t == (
        true,
        true,
        true,
        true,
        0i128,
        ),
{
}

/// The repeg budget never exceeds one quote unit, and is zero when the expected
/// funding excess is not positive or the fee pool is empty.
pub proof fn lemma_pool_budget_bounds(market: Market, mark_price: u128, oracle: OraclePriceData)
    ensures
        pool_budget_spec(market, mark_price, oracle) matches Some(b) ==> {
            &&& b <= QUOTE_PRECISION
            &&& (expected_funding_excess_spec(market, oracle.price, mark_price)->0 <= 0
                || fee_pool_spec(market)->0 == 0) ==> b == 0
        },
{
}

/// Quote reserve once the net position of `market` is unwound.
pub open spec fn unwound_quote(market: Market) -> u128 {
    match unwound_reserves_spec(market) {
        Some((quote, _)) => quote,
        None => 0,
    }
}

/// Quote-reserve change that unwinding the net position makes, as a magnitude.
pub open spec fn unwind_quote_change(market: Market) -> int {
    let q = market.amm.quote_asset_reserve as int;
    let n = unwound_quote(market) as int;
    if q > n { q - n } else { n - q }
}

/// The solver's candidate never passes the peg that prices the target: it is
/// that optimal peg, or the current peg moved toward it by exactly the movement
/// the budget buys, stopping short of it. Where that movement reaches the
/// optimal peg, or there is no net position to unwind, the candidate is the
/// optimal peg.
pub proof fn lemma_candidate_stops_at_optimal(
    market: Market,
    budget: u128,
    current_price: u128,
    target_price: u128,
)
    requires
        candidate_peg_spec(market, budget, current_price, target_price) is Some,
    ensures
        ({
            let candidate = candidate_peg_spec(market, budget, current_price, target_price)->0;
            let optimal = peg_from_target_spec(
                market.amm.quote_asset_reserve,
                market.amm.base_asset_reserve,
                target_price,
            )->0;
            let peg = market.amm.peg_multiplier as int;
            let quote = market.amm.quote_asset_reserve;
            let unwound = unwound_quote(market);
            let delta = budget_peg_delta_spec(budget, unwind_quote_change(market) as u128);
            &&& candidate != optimal ==> {
                &&& unwound != quote
                &&& delta is Some
                &&& quote > unwound ==> candidate == peg + delta->0 && candidate < optimal
                &&& quote < unwound ==> candidate == peg - delta->0 && candidate > optimal
            }
            &&& (unwound == quote || (delta is Some && (quote > unwound ==> optimal <= peg
                + delta->0) && (quote < unwound ==> optimal >= peg - delta->0))) ==> candidate
                == optimal
        }),
{
}

/// With no budget, and the current price taken at the current peg, a repeg
/// whose move to the optimal peg would cost the market anything leaves the peg
/// where it is, at no cost.
pub proof fn lemma_zero_budget_holds_peg(market: Market, current_price: u128, target_price: u128)
    requires
        market.amm.well_formed(),
        price_spec(
            market.amm.quote_asset_reserve,
            market.amm.base_asset_reserve,
            market.amm.peg_multiplier,
        ) == Some(current_price),
        peg_from_target_spec(
            market.amm.quote_asset_reserve,
            market.amm.base_asset_reserve,
            target_price,
        ) matches Some(optimal) && peg_cost_spec(market, optimal) matches Some(c) && c > 0,
        budgeted_peg_spec(market, 0, current_price, target_price) is Some,
    ensures
        budgeted_peg_spec(market, 0, current_price, target_price) == Some(
            (market.amm.peg_multiplier, 0i128),
        ),
{
    let q = market.amm.quote_asset_reserve as int;
    let b = market.amm.base_asset_reserve as int;
    let peg = market.amm.peg_multiplier as int;
    let t = target_price as int;
    let optimal = peg_from_target_spec(
        market.amm.quote_asset_reserve,
        market.amm.base_asset_reserve,
        target_price,
    )->0;
    let o = optimal as int;
    let cur = current_price as int;
    assert(o == t * b / q);
    assert(cur == q * peg / b);
    assert(t * b >= 0 && q * peg >= 0) by (nonlinear_arith)
        requires
            t >= 0,
            b >= 0,
            q >= 0,
            peg >= 0,
    ;
    lemma_cost_sign(market, optimal);
    let unwound = unwound_quote(market) as int;
    if q > unwound {
        // o > peg, so the target lies above the current price
        assert(o >= peg + 1);
        lemma_floor_above(t * b, q, peg + 1);
        assert(q * peg < t * b) by (nonlinear_arith)
            requires
                t * b >= (peg + 1) * q,
                q > 0,
        ;
        lemma_floor_below(q * peg, b, t);
        assert(!(cur > t));
    } else {
        assert(o <= peg - 1);
        lemma_floor_under(t * b, q, peg);
        assert(q * peg >= t * b) by (nonlinear_arith)
            requires
                t * b < peg * q,
        ;
        lemma_floor_at_least(q * peg, b, t);
        assert(!(cur < t));
    }
}

/// A positive cost of moving to `new_peg` moves the peg the way the net
/// position gains: up where unwinding lowers the quote reserve, down where it
/// raises it.
proof fn lemma_cost_sign(market: Market, new_peg: u128)
    requires
        peg_cost_spec(market, new_peg) matches Some(c) && c > 0,
    ensures
        unwound_reserves_spec(market) is Some,
        unwound_quote(market) < market.amm.quote_asset_reserve ==> new_peg
            > market.amm.peg_multiplier,
        unwound_quote(market) > market.amm.quote_asset_reserve ==> new_peg
            < market.amm.peg_multiplier,
        unwound_quote(market) != market.amm.quote_asset_reserve,
{
    let q = market.amm.quote_asset_reserve as int;
    let n = unwound_quote(market) as int;
    let change: int = if q > n { q - n } else { n - q };
    let r = crate::constants::AMM_TIMES_PEG_TO_QUOTE_PRECISION_RATIO as int;
    let peg = market.amm.peg_multiplier as int;
    let np = new_peg as int;
    assert(market.base_asset_amount != 0);
    if change == 0 {
        assert(change * np == 0 && change * peg == 0) by (nonlinear_arith)
            requires
                change == 0,
        ;
    }
    if np <= peg {
        assert(change * np <= change * peg) by (nonlinear_arith)
            requires
                change >= 0,
                np <= peg,
        ;
        assert(change * np >= 0) by (nonlinear_arith)
            requires
                change >= 0,
                np >= 0,
        ;
        lemma_div_is_ordered(change * np, change * peg, r);
    } else {
        assert(change * peg <= change * np) by (nonlinear_arith)
            requires
                change >= 0,
                peg <= np,
        ;
        assert(change * peg >= 0) by (nonlinear_arith)
            requires
                change >= 0,
                peg >= 0,
        ;
        lemma_div_is_ordered(change * peg, change * np, r);
    }
}

/// `x / d >= k` only where `x >= k * d`.
proof fn lemma_floor_above(x: int, d: int, k: int)
    requires
        x >= 0,
        d > 0,
        x / d >= k,
    ensures
        x >= k * d,
{
    vstd::arithmetic::div_mod::lemma_fundamental_div_mod(x, d);
    assert(x % d >= 0) by {
        vstd::arithmetic::div_mod::lemma_mod_pos_bound(x, d);
    }
    assert(d * (x / d) >= k * d) by (nonlinear_arith)
        requires
            x / d >= k,
            d > 0,
    ;
}

/// `x / d < k` only where `x < k * d`.
proof fn lemma_floor_under(x: int, d: int, k: int)
    requires
        x >= 0,
        d > 0,
        x / d < k,
    ensures
        x < k * d,
{
    vstd::arithmetic::div_mod::lemma_fundamental_div_mod(x, d);
    assert(x % d < d) by {
        vstd::arithmetic::div_mod::lemma_mod_pos_bound(x, d);
    }
    assert(d * (x / d) <= (k - 1) * d) by (nonlinear_arith)
        requires
            x / d <= k - 1,
            d > 0,
    ;
    assert((k - 1) * d + d == k * d) by (nonlinear_arith);
}

/// Where `x < k * d`, `x / d < k`.
proof fn lemma_floor_below(x: int, d: int, k: int)
    requires
        x >= 0,
        d > 0,
        x < k * d,
    ensures
        x / d < k,
{
    if x / d >= k {
        lemma_floor_above(x, d, k);
    }
}

/// Where `x >= k * d`, `x / d >= k`.
proof fn lemma_floor_at_least(x: int, d: int, k: int)
    requires
        x >= 0,
        d > 0,
        x >= k * d,
    ensures
        x / d >= k,
{
    if x / d < k {
        lemma_floor_under(x, d, k);
    }
}

} // verus!
