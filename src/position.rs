//! Valuation of the net base position at the AMM's current peg.
use crate::amm::{abs_u128, calculate_swap_output, close_direction, swap_direction_to_close_position, swap_output_spec, SwapDirection};
use crate::constants::AMM_TIMES_PEG_TO_QUOTE_PRECISION_RATIO;
use crate::error::{cast_to_i128, or_math_error, unsigned_abs, ClearingHouseResult, ErrorCode};
use crate::state::AMM;
use vstd::prelude::*;

verus! {

/// Quote value of closing `base_asset_amount` against `amm`: the change of the
/// quote reserve, priced at the peg.
pub open spec fn base_asset_value_spec(base_asset_amount: i128, amm: AMM) -> Option<u128> {
    if base_asset_amount == 0 {
        Some(0)
    } else {
        let direction = close_direction(base_asset_amount);
        match swap_output_spec(abs_u128(base_asset_amount), amm.base_asset_reserve, direction, amm.sqrt_k) {
            Some((new_quote, _)) => {
                let change: int = match direction {
                    SwapDirection::Add => amm.quote_asset_reserve - new_quote,
                    SwapDirection::Remove => new_quote - amm.quote_asset_reserve,
                };
                if change < 0 || change * amm.peg_multiplier > u128::MAX {
                    None
                } else {
                    Some((change * amm.peg_multiplier / AMM_TIMES_PEG_TO_QUOTE_PRECISION_RATIO as int) as u128)
                }
            },
            None => None,
        }
    }
}

/// Gain of a position that entered at `entry_value` and exits at `exit_value`:
/// longs (closed by `Add`) gain when value rises, shorts when it falls.
pub open spec fn pnl_spec(exit_value: u128, entry_value: u128, direction: SwapDirection) -> Option<i128> {
    if exit_value > i128::MAX as u128 || entry_value > i128::MAX as u128 {
        None
    } else {
        match direction {
            SwapDirection::Add => Some((exit_value - entry_value) as i128),
            SwapDirection::Remove => Some((entry_value - exit_value) as i128),
        }
    }
}

/// Value of a position and its gain against `quote_asset_amount`.
pub open spec fn value_and_pnl_spec(base_asset_amount: i128, quote_asset_amount: u128, amm: AMM) -> Option<(u128, i128)> {
    if base_asset_amount == 0 {
        Some((0, 0))
    } else {
        match base_asset_value_spec(base_asset_amount, amm) {
            Some(v) => match pnl_spec(v, quote_asset_amount, close_direction(base_asset_amount)) {
                Some(p) => Some((v, p)),
                None => None,
            },
            None => None,
        }
    }
}

/// Quote value of closing a base position against the AMM.
pub fn calculate_base_asset_value(base_asset_amount: i128, amm: &AMM) -> (r: ClearingHouseResult<u128>)
    ensures
        r == or_math_error(base_asset_value_spec(base_asset_amount, *amm)),
{
    if base_asset_amount == 0 {
        return Ok(0);
    }
    let direction = swap_direction_to_close_position(base_asset_amount);
    let (new_quote_asset_reserve, _) = calculate_swap_output(
        unsigned_abs(base_asset_amount),
        amm.base_asset_reserve,
        direction,
        amm.sqrt_k,
    )?;
    let change = match direction {
        SwapDirection::Add => amm.quote_asset_reserve.checked_sub(new_quote_asset_reserve),
        SwapDirection::Remove => new_quote_asset_reserve.checked_sub(amm.quote_asset_reserve),
    };
    let change = match change {
        Some(c) => c,
        None => return Err(ErrorCode::MathError),
    };
    match change.checked_mul(amm.peg_multiplier) {
        Some(v) => Ok(v / AMM_TIMES_PEG_TO_QUOTE_PRECISION_RATIO),
        None => Err(ErrorCode::MathError),
    }
}

/// Gain of a position between its entry and exit values.
pub fn calculate_pnl(exit_value: u128, entry_value: u128, swap_direction_to_close: SwapDirection) -> (r: ClearingHouseResult<i128>)
    ensures
        r == or_math_error(pnl_spec(exit_value, entry_value, swap_direction_to_close)),
{
    let exit_value_i128 = cast_to_i128(exit_value)?;
    let entry_value_i128 = cast_to_i128(entry_value)?;
    match swap_direction_to_close {
        SwapDirection::Add => Ok(exit_value_i128 - entry_value_i128),
        SwapDirection::Remove => Ok(entry_value_i128 - exit_value_i128),
    }
}

/// Value of a position at the AMM's peg, and its gain against `quote_asset_amount`.
pub fn calculate_base_asset_value_and_pnl(
    base_asset_amount: i128,
    quote_asset_amount: u128,
    amm: &AMM,
) -> (r: ClearingHouseResult<(u128, i128)>)
    ensures
        r == or_math_error(value_and_pnl_spec(base_asset_amount, quote_asset_amount, *amm)),
{
    if base_asset_amount == 0 {
        return Ok((0, 0));
    }
    let base_asset_value = calculate_base_asset_value(base_asset_amount, amm)?;
    let pnl = calculate_pnl(
        base_asset_value,
        quote_asset_amount,
        swap_direction_to_close_position(base_asset_amount),
    )?;
    Ok((base_asset_value, pnl))
}

} // verus!
