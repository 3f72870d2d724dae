//! Constant-product primitives: swap simulation, mark price, terminal price.
use crate::bn::{checked_mul_div, mul_div_spec};
use crate::constants::PRICE_TO_PEG_PRECISION_RATIO;
use crate::error::{or_math_error, unsigned_abs, ClearingHouseResult, ErrorCode};
use crate::state::{Market, AMM};
use vstd::prelude::*;

verus! {

/// Which way an amount enters the reserve it is swapped against.
#[derive(Debug, Clone, Copy, PartialEq, Eq, Structural)]
pub enum SwapDirection {
    Add,
    Remove,
}

/// Reserves after swapping `swap_amount` into (`Add`) or out of (`Remove`) the
/// input reserve on the curve `x * y == sqrt_k * sqrt_k`: `(output, input)`.
pub open spec fn swap_output_spec(
    swap_amount: u128,
    input_asset_reserve: u128,
    direction: SwapDirection,
    sqrt_k: u128,
) -> Option<(u128, u128)> {
    let new_input: int = match direction {
        SwapDirection::Add => input_asset_reserve + swap_amount,
        SwapDirection::Remove => input_asset_reserve - swap_amount,
    };
    if new_input < 0 || new_input > u128::MAX {
        None
    } else {
        match mul_div_spec(sqrt_k as int, sqrt_k as int, new_input) {
            Some(out) => Some((out as u128, new_input as u128)),
            None => None,
        }
    }
}

/// Mark price `quote * peg * ratio / base`, with `quote * peg` held in `u128`.
pub open spec fn price_spec(quote_asset_reserve: u128, base_asset_reserve: u128, peg: u128) -> Option<u128> {
    let pq = quote_asset_reserve * peg;
    if pq > u128::MAX {
        None
    } else {
        match mul_div_spec(pq, PRICE_TO_PEG_PRECISION_RATIO as int, base_asset_reserve as int) {
            Some(p) => Some(p as u128),
            None => None,
        }
    }
}

/// Direction that closes a net base position of this sign.
pub open spec fn close_direction(base_asset_amount: i128) -> SwapDirection {
    if base_asset_amount > 0 {
        SwapDirection::Add
    } else {
        SwapDirection::Remove
    }
}

/// Magnitude of a signed amount, as `u128`.
pub open spec fn abs_u128(x: i128) -> u128 {
    (if x < 0 { -(x as int) } else { x as int }) as u128
}

/// Reserves `(quote, base)` once the net position of `market` is unwound.
pub open spec fn unwound_reserves_spec(market: Market) -> Option<(u128, u128)> {
    swap_output_spec(
        abs_u128(market.base_asset_amount),
        market.amm.base_asset_reserve,
        close_direction(market.base_asset_amount),
        market.amm.sqrt_k,
    )
}

/// Price the curve settles at once the net position of `market` is unwound.
pub open spec fn terminal_price_spec(market: Market) -> Option<u128> {
    match unwound_reserves_spec(market) {
        Some((q, b)) => price_spec(q, b, market.amm.peg_multiplier),
        None => None,
    }
}

/// Simulates a swap on the constant-product curve.
pub fn calculate_swap_output(
    swap_amount: u128,
    input_asset_reserve: u128,
    direction: SwapDirection,
    invariant_sqrt: u128,
) -> (r: ClearingHouseResult<(u128, u128)>)
    ensures
        r == or_math_error(
            swap_output_spec(swap_amount, input_asset_reserve, direction, invariant_sqrt),
        ),
{
    let new_input_asset_reserve: u128 = match direction {
        SwapDirection::Add => match input_asset_reserve.checked_add(swap_amount) {
            Some(v) => v,
            None => return Err(ErrorCode::MathError),
        },
        SwapDirection::Remove => match input_asset_reserve.checked_sub(swap_amount) {
            Some(v) => v,
            None => return Err(ErrorCode::MathError),
        },
    };
    match checked_mul_div(invariant_sqrt, invariant_sqrt, new_input_asset_reserve) {
        Some(out) => Ok((out, new_input_asset_reserve)),
        None => Err(ErrorCode::MathError),
    }
}

/// Instantaneous mark price of the reserves at the given peg.
pub fn calculate_price(
    quote_asset_reserve: u128,
    base_asset_reserve: u128,
    peg_multiplier: u128,
) -> (r: ClearingHouseResult<u128>)
    ensures
        r == or_math_error(price_spec(quote_asset_reserve, base_asset_reserve, peg_multiplier)),
{
    let peg_quote_asset_amount = match quote_asset_reserve.checked_mul(peg_multiplier) {
        Some(v) => v,
        None => return Err(ErrorCode::MathError),
    };
    match checked_mul_div(peg_quote_asset_amount, PRICE_TO_PEG_PRECISION_RATIO, base_asset_reserve) {
        Some(p) => Ok(p),
        None => Err(ErrorCode::MathError),
    }
}

/// Direction of the swap that closes a net base position.
pub fn swap_direction_to_close_position(base_asset_amount: i128) -> (r: SwapDirection)
    ensures
        r == close_direction(base_asset_amount),
{
    if base_asset_amount > 0 {
        SwapDirection::Add
    } else {
        SwapDirection::Remove
    }
}

/// Price the AMM converges to once the net position is unwound.
pub fn calculate_terminal_price(market: &Market) -> (r: ClearingHouseResult<u128>)
    ensures
        r == or_math_error(terminal_price_spec(*market)),
{
    let direction = swap_direction_to_close_position(market.base_asset_amount);
    let (new_quote_asset_amount, new_base_asset_amount) = calculate_swap_output(
        unsigned_abs(market.base_asset_amount),
        market.amm.base_asset_reserve,
        direction,
        market.amm.sqrt_k,
    )?;
    calculate_price(new_quote_asset_amount, new_base_asset_amount, market.amm.peg_multiplier)
}

} // verus!
