use clearing_house::amm::{calculate_price, calculate_swap_output, calculate_terminal_price, SwapDirection};
use clearing_house::bn::checked_mul_div;
use clearing_house::error::{cast_to_i128, cast_to_u128, unsigned_abs, ErrorCode};
use clearing_house::position::{calculate_base_asset_value_and_pnl, calculate_pnl};
use clearing_house::repeg::{
    adjust_peg_cost, calculate_budget_peg_delta, calculate_budgeted_peg, calculate_expected_funding_excess,
    calculate_fee_pool, calculate_peg_from_target_price, calculate_pool_budget,
    calculate_repeg_validity, total_fee_lower_bound,
};
use clearing_house::state::{Market, OraclePriceData, AMM};

fn amm() -> AMM {
    AMM {
        base_asset_reserve: 1_000_000_000_000,
        quote_asset_reserve: 1_000_000_000_000,
        sqrt_k: 1_000_000_000_000,
        peg_multiplier: 1_000_000,
        last_mark_price_twap: 1_000_000,
        last_oracle_price_twap: 1_000_000,
        funding_period: 3600,
        total_fee: 1_000_000_000,
        total_fee_minus_distributions: 800_000_000,
    }
}

fn market(base_asset_amount: i128) -> Market {
    Market { base_asset_amount, amm: amm() }
}

fn oracle(price: i128, confidence: u128) -> OraclePriceData {
    OraclePriceData { price, confidence, delay: 0, has_sufficient_number_of_data_points: true }
}

// --- 192-bit multiply-divide -------------------------------------------------

#[test]
fn mul_div_keeps_wide_intermediate() {
    let r = checked_mul_div(1u128 << 100, 1u128 << 80, 1u128 << 60);
    assert_eq!(r, Some(1u128 << 120));
}

#[test]
fn mul_div_rounds_down() {
    assert_eq!(checked_mul_div(7, 3, 2), Some(10));
}

#[test]
fn mul_div_rejects_zero_divisor() {
    assert_eq!(checked_mul_div(7, 3, 0), None);
}

#[test]
fn mul_div_rejects_product_past_192_bits() {
    assert_eq!(checked_mul_div(u128::MAX, u128::MAX, u128::MAX), None);
}

#[test]
fn mul_div_rejects_quotient_past_128_bits() {
    assert_eq!(checked_mul_div(u128::MAX, 4, 2), None);
}

// --- AMM primitives -----------------------------------------------------------

#[test]
fn swap_output_on_constant_product() {
    let r = calculate_swap_output(10_000_000_000, 1_000_000_000_000, SwapDirection::Add, 1_000_000_000_000);
    assert_eq!(r, Ok((990_099_009_900, 1_010_000_000_000)));
}

#[test]
fn swap_output_removing_more_than_reserve_fails() {
    let r = calculate_swap_output(2_000_000_000_000, 1_000_000_000_000, SwapDirection::Remove, 1_000_000_000_000);
    assert_eq!(r, Err(ErrorCode::MathError));
}

#[test]
fn mark_price_of_balanced_reserves() {
    assert_eq!(calculate_price(1_000_000_000_000, 1_000_000_000_000, 1_000_000), Ok(1_000_000));
}

#[test]
fn terminal_price_of_long_market() {
    assert_eq!(calculate_terminal_price(&market(10_000_000_000)), Ok(980_296));
}

#[test]
fn terminal_price_of_short_market() {
    assert_eq!(calculate_terminal_price(&market(-10_000_000_000)), Ok(1_020_304));
}

#[test]
fn position_value_and_pnl() {
    let m = market(10_000_000_000);
    assert_eq!(calculate_base_asset_value_and_pnl(10_000_000_000, 9_000_000, &m.amm), Ok((9_900_990, 900_990)));
    assert_eq!(calculate_base_asset_value_and_pnl(0, 9_000_000, &m.amm), Ok((0, 0)));
}

// --- peg from target ----------------------------------------------------------

#[test]
fn peg_from_target_scales_with_price() {
    let r = calculate_peg_from_target_price(1_000_000_000, 1_000_000_000, 1_100_000);
    assert_eq!(r, Ok(1_100_000));
}

#[test]
fn peg_from_target_is_monotonic() {
    let low = calculate_peg_from_target_price(1_000_000_000, 1_000_000_000, 900_000).unwrap();
    let high = calculate_peg_from_target_price(1_000_000_000, 1_000_000_000, 1_100_000).unwrap();
    let more_quote = calculate_peg_from_target_price(2_000_000_000, 1_000_000_000, 1_100_000).unwrap();
    assert!(low <= high);
    assert!(more_quote <= high);
    assert_eq!(more_quote, 550_000);
}

#[test]
fn peg_from_target_zero_quote_fails() {
    assert_eq!(calculate_peg_from_target_price(0, 1_000_000_000, 1_100_000), Err(ErrorCode::MathError));
}

#[test]
fn peg_from_target_overflow_fails() {
    assert_eq!(calculate_peg_from_target_price(1, u128::MAX, u128::MAX), Err(ErrorCode::MathError));
}

// --- cost of a peg change -----------------------------------------------------

#[test]
fn adjust_peg_cost_same_peg_is_free() {
    let mut m = market(10_000_000_000);
    let before = m;
    assert_eq!(adjust_peg_cost(&mut m, 1_000_000), Ok(0));
    assert_eq!(m, before);
}

#[test]
fn adjust_peg_cost_long_market_pays_for_higher_peg() {
    let mut m = market(10_000_000_000);
    assert_eq!(adjust_peg_cost(&mut m, 1_100_000), Ok(990_099));
    assert_eq!(m.amm.peg_multiplier, 1_100_000);
}

#[test]
fn adjust_peg_cost_short_market_gains_from_higher_peg() {
    let mut m = market(-10_000_000_000);
    assert_eq!(adjust_peg_cost(&mut m, 1_100_000), Ok(-1_010_101));
}

#[test]
fn adjust_peg_cost_round_trip_restores_market() {
    let mut m = market(10_000_000_000);
    let original = m;
    let value_before = calculate_base_asset_value_and_pnl(m.base_asset_amount, 0, &m.amm).unwrap().0;
    let there = adjust_peg_cost(&mut m, 1_234_567).unwrap();
    let back = adjust_peg_cost(&mut m, 1_000_000).unwrap();
    assert_eq!(there + back, 0);
    assert_eq!(m, original);
    let value_after = calculate_base_asset_value_and_pnl(m.base_asset_amount, 0, &m.amm).unwrap().0;
    assert_eq!(value_before, value_after);
}

#[test]
fn adjust_peg_cost_failure_leaves_market() {
    let mut m = market(-2_000_000_000_000);
    let before = m;
    assert_eq!(adjust_peg_cost(&mut m, 1_100_000), Err(ErrorCode::MathError));
    assert_eq!(m, before);
}

// --- budgeted peg -------------------------------------------------------------

#[test]
fn budgeted_peg_zero_budget_holds_peg() {
    let mut m = market(10_000_000_000);
    let before = m;
    assert_eq!(calculate_budgeted_peg(&mut m, 0, 1_000_000, 1_100_000), Ok((1_000_000, 0)));
    assert_eq!(m, before);
}

#[test]
fn budgeted_peg_small_budget_moves_part_way() {
    let mut m = market(10_000_000_000);
    assert_eq!(calculate_budgeted_peg(&mut m, 1_000, 1_000_000, 1_100_000), Ok((1_000_101, 1_000)));
    assert_eq!(m.amm.peg_multiplier, 1_000_101);
}

#[test]
fn budgeted_peg_large_budget_reaches_optimal() {
    let mut m = market(10_000_000_000);
    assert_eq!(calculate_budgeted_peg(&mut m, 1_000_000_000, 1_000_000, 1_100_000), Ok((1_100_000, 990_099)));
    assert_eq!(m.amm.peg_multiplier, 1_100_000);
}

#[test]
fn budgeted_peg_short_market_moves_down_within_budget() {
    let mut m = market(-10_000_000_000);
    assert_eq!(calculate_budgeted_peg(&mut m, 1_000_000, 1_000_000, 900_000), Ok((901_000, 1_000_000)));
    let mut m = market(-10_000_000_000);
    assert_eq!(calculate_budgeted_peg(&mut m, 10_000_000, 1_000_000, 900_000), Ok((900_000, 1_010_101)));
}

#[test]
fn budgeted_peg_budget_past_zero_peg_fails() {
    let mut m = market(-10_000_000_000);
    let before = m;
    assert_eq!(calculate_budgeted_peg(&mut m, 1_000_000_000, 1_000_000, 900_000), Err(ErrorCode::MathError));
    assert_eq!(m, before);
}

#[test]
fn budgeted_peg_free_move_goes_to_optimal() {
    let mut m = market(-10_000_000_000);
    assert_eq!(calculate_budgeted_peg(&mut m, 0, 1_000_000, 1_100_000), Ok((1_100_000, -1_010_101)));
}

#[test]
fn budgeted_peg_without_position_goes_to_optimal() {
    let mut m = market(0);
    assert_eq!(calculate_budgeted_peg(&mut m, 0, 1_000_000, 1_100_000), Ok((1_100_000, 0)));
}

#[test]
fn budgeted_peg_overflowing_budget_fails_and_leaves_market() {
    let mut m = market(10_000_000_000);
    let before = m;
    assert_eq!(calculate_budgeted_peg(&mut m, u128::MAX, 1_000_000, 1_100_000), Err(ErrorCode::MathError));
    assert_eq!(m, before);
}

// --- repeg validity -----------------------------------------------------------

#[test]
fn validity_all_pass_when_oracle_above() {
    let mut m = market(10_000_000_000);
    let r = calculate_repeg_validity(&mut m, &oracle(1_000_000, 5_000), true, 970_000);
    assert_eq!(r, Ok((true, true, true, true, 197)));
}

#[test]
fn validity_flags_fail_when_oracle_above() {
    let mut m = market(10_000_000_000);
    let r = calculate_repeg_validity(&mut m, &oracle(1_000_000, 30_000), true, 990_000);
    assert_eq!(r, Ok((true, false, false, true, 197)));
    let r = calculate_repeg_validity(&mut m, &oracle(990_000, 5_000), true, 970_000);
    assert_eq!(r, Ok((true, true, true, false, 98)));
}

#[test]
fn validity_oracle_below_rounds_toward_zero() {
    let mut m = market(10_000_000_000);
    let r = calculate_repeg_validity(&mut m, &oracle(950_000, 1_000), true, 990_000);
    assert_eq!(r, Ok((true, true, true, true, -318)));
    let r = calculate_repeg_validity(&mut m, &oracle(950_000, 1_000), true, 970_000);
    assert_eq!(r, Ok((true, false, true, true, -318)));
}

#[test]
fn validity_invalid_oracle_blocks() {
    let mut m = market(10_000_000_000);
    let r = calculate_repeg_validity(&mut m, &oracle(1_000_000, 5_000), false, 970_000);
    assert_eq!(r, Ok((false, false, false, false, 197)));
}

#[test]
fn validity_oracle_at_terminal_price() {
    let mut m = market(10_000_000_000);
    let r = calculate_repeg_validity(&mut m, &oracle(980_296, 5_000), true, 0);
    assert_eq!(r, Ok((true, true, true, true, 0)));
}

#[test]
fn validity_errors() {
    let mut m = market(10_000_000_000);
    assert_eq!(calculate_repeg_validity(&mut m, &oracle(-1, 0), true, 0), Err(ErrorCode::MathError));
    assert_eq!(calculate_repeg_validity(&mut m, &oracle(0, 0), true, 0), Err(ErrorCode::MathError));
    assert_eq!(calculate_repeg_validity(&mut m, &oracle(1_000, 5_000), true, 0), Err(ErrorCode::MathError));
    assert_eq!(m, market(10_000_000_000));
}

// --- budget -------------------------------------------------------------------

#[test]
fn fee_lower_bound_and_pool() {
    let m = market(10_000_000_000);
    assert_eq!(total_fee_lower_bound(&m), Ok(500_000_000));
    assert_eq!(calculate_fee_pool(&m), Ok(300_000_000));
    let mut spent = market(10_000_000_000);
    spent.amm.total_fee_minus_distributions = 400_000_000;
    assert_eq!(calculate_fee_pool(&spent), Ok(0));
}

#[test]
fn funding_excess_values() {
    let mut m = market(10_000_000_000);
    assert_eq!(calculate_expected_funding_excess(&m, 1_000_000, 1_010_000), Ok(4_166));
    m.amm.funding_period = 1_800;
    assert_eq!(calculate_expected_funding_excess(&m, 1_000_000, 1_010_000), Ok(4_166));
    m.amm.funding_period = 7_200;
    assert_eq!(calculate_expected_funding_excess(&m, 1_000_000, 1_010_000), Ok(8_333));
    assert_eq!(calculate_expected_funding_excess(&m, 1_000_000, 990_000), Ok(-8_333));
}

#[test]
fn funding_excess_long_period_fails() {
    let mut m = market(10_000_000_000);
    m.amm.funding_period = 100_000;
    assert_eq!(calculate_expected_funding_excess(&m, 1_000_000, 1_010_000), Err(ErrorCode::MathError));
}

#[test]
fn pool_budget_takes_least() {
    let m = market(10_000_000_000);
    assert_eq!(calculate_pool_budget(&m, 1_010_000, &oracle(1_000_000, 0)), Ok(416));
    let mut rich = market(10_000_000_000_000);
    rich.amm.total_fee = 1_000_000_000_000;
    rich.amm.total_fee_minus_distributions = 1_000_000_000_000;
    assert_eq!(calculate_pool_budget(&rich, 1_010_000, &oracle(1_000_000, 0)), Ok(416_666));
}

#[test]
fn pool_budget_capped_at_one_quote_unit() {
    let mut rich = market(100_000_000_000_000);
    rich.amm.total_fee = 1_000_000_000_000;
    rich.amm.total_fee_minus_distributions = 1_000_000_000_000;
    assert_eq!(calculate_pool_budget(&rich, 1_010_000, &oracle(1_000_000, 0)), Ok(1_000_000));
}

#[test]
fn pool_budget_zero_without_excess_or_fees() {
    let m = market(10_000_000_000);
    assert_eq!(calculate_pool_budget(&m, 990_000, &oracle(1_000_000, 0)), Ok(0));
    let mut spent = market(10_000_000_000);
    spent.amm.total_fee_minus_distributions = 0;
    assert_eq!(calculate_pool_budget(&spent, 1_010_000, &oracle(1_000_000, 0)), Ok(0));
}

#[test]
fn budgeted_peg_rounding_of_reserve_change_can_pass_budget() {
    let mut m = market(1_999);
    assert_eq!(calculate_budgeted_peg(&mut m, 1, 1_000_000, 2_000_000), Ok((2_000_000, 2)));
}

#[test]
fn budget_peg_delta_values() {
    assert_eq!(calculate_budget_peg_delta(1_000, 9_900_990_100), Ok(101));
    assert_eq!(calculate_budget_peg_delta(1_000, 999), Err(ErrorCode::MathError));
    assert_eq!(calculate_budget_peg_delta(u128::MAX, 9_900_990_100), Err(ErrorCode::MathError));
}

#[test]
fn pnl_by_side() {
    assert_eq!(calculate_pnl(110, 100, SwapDirection::Add), Ok(10));
    assert_eq!(calculate_pnl(110, 100, SwapDirection::Remove), Ok(-10));
    assert_eq!(calculate_pnl(u128::MAX, 100, SwapDirection::Add), Err(ErrorCode::MathError));
}

#[test]
fn casts_and_magnitude() {
    assert_eq!(cast_to_i128(5), Ok(5));
    assert_eq!(cast_to_i128(u128::MAX), Err(ErrorCode::MathError));
    assert_eq!(cast_to_u128(-1), Err(ErrorCode::MathError));
    assert_eq!(cast_to_u128(7), Ok(7));
    assert_eq!(unsigned_abs(i128::MIN), 1u128 << 127);
    assert_eq!(unsigned_abs(-5), 5);
}
