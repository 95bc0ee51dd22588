//! The quoting calculator against concrete reserve snapshots.
use solana_trading_sdk::amm_calc::amm_buy_get_sol_in;
use solana_trading_sdk::amm_calc::amm_buy_get_token_out;
use solana_trading_sdk::amm_calc::amm_sell_get_sol_out;
use solana_trading_sdk::amm_calc::apply_slippage_buy;
use solana_trading_sdk::amm_calc::apply_slippage_sell;

const SOL_RESERVE: u64 = 30_000_000_000;
const TOKEN_RESERVE: u64 = 1_073_000_000_000_000;

#[test]
fn buy_quote_matches_constant_product_formula() {
    // floor(1_073e12*30e9 / 31e9) subtracted from the token reserve.
    let out = amm_buy_get_token_out(SOL_RESERVE, TOKEN_RESERVE, 1_000_000_000);
    assert_eq!(out, 34_612_903_225_807);
}

#[test]
fn buy_quote_of_zero_input_is_zero() {
    assert_eq!(amm_buy_get_token_out(SOL_RESERVE, TOKEN_RESERVE, 0), 0);
}

#[test]
fn buy_quote_with_zero_reserve_is_zero() {
    assert_eq!(amm_buy_get_token_out(0, TOKEN_RESERVE, 1_000_000_000), 0);
    assert_eq!(amm_buy_get_token_out(SOL_RESERVE, 0, 1_000_000_000), 0);
}

#[test]
fn buy_quote_is_deterministic() {
    let first = amm_buy_get_token_out(SOL_RESERVE, TOKEN_RESERVE, 1_000_000_000);
    let second = amm_buy_get_token_out(SOL_RESERVE, TOKEN_RESERVE, 1_000_000_000);
    assert_eq!(first, second);
    let first_sell = amm_sell_get_sol_out(SOL_RESERVE, TOKEN_RESERVE, 34_612_903_225_807);
    let second_sell = amm_sell_get_sol_out(SOL_RESERVE, TOKEN_RESERVE, 34_612_903_225_807);
    assert_eq!(first_sell, second_sell);
}

#[test]
fn inverse_quote_rounds_up_for_the_pool() {
    // ceil(10 * 1 / (4 - 1)) = 4: the floor value 3 would under-pay.
    assert_eq!(amm_buy_get_sol_in(10, 4, 1), 4);
    // Inexact curve division: the re-derived price overshoots the
    // original payment by exactly one lamport, never undershoots.
    let out = amm_buy_get_token_out(SOL_RESERVE, TOKEN_RESERVE, 1_000_000_000);
    let rederived = amm_buy_get_sol_in(SOL_RESERVE, TOKEN_RESERVE, out);
    assert_eq!(rederived, 1_000_000_001);
}

#[test]
fn inverse_quote_refunds_no_more_on_exact_division() {
    // 30 * 16 is divisible by 30 + 2, so buying with 2 lamports and
    // re-deriving the price of the 1 token received gives back exactly 2.
    let out = amm_buy_get_token_out(30, 16, 2);
    assert_eq!(out, 1);
    assert_eq!(amm_buy_get_sol_in(30, 16, out), 2);
}

#[test]
fn depleting_buy_quote_is_clamped_to_zero() {
    // On a (1, 1) pool, 1 lamport would take the whole token reserve:
    // the quote is invalid and clamped to the zero sentinel.
    assert_eq!(amm_buy_get_token_out(1, 1, 1), 0);
    // A deeper pool keeps at least one token behind.
    let out = amm_buy_get_token_out(100, 2, 1);
    assert!(out < 2);
}

#[test]
fn inverse_quote_guards_degenerate_inputs() {
    assert_eq!(amm_buy_get_sol_in(SOL_RESERVE, TOKEN_RESERVE, 0), 0);
    assert_eq!(amm_buy_get_sol_in(0, TOKEN_RESERVE, 5), 0);
    assert_eq!(amm_buy_get_sol_in(SOL_RESERVE, 0, 5), 0);
    // Taking the whole reserve (or more) has no finite price.
    assert_eq!(amm_buy_get_sol_in(SOL_RESERVE, TOKEN_RESERVE, TOKEN_RESERVE), 0);
    assert_eq!(amm_buy_get_sol_in(SOL_RESERVE, TOKEN_RESERVE, TOKEN_RESERVE + 1), 0);
}

#[test]
fn sell_quote_matches_constant_product_formula() {
    let sol = amm_sell_get_sol_out(SOL_RESERVE, TOKEN_RESERVE, 34_612_903_225_807);
    assert_eq!(sol, 937_500_000);
}

#[test]
fn sell_quote_of_zero_input_is_zero() {
    assert_eq!(amm_sell_get_sol_out(SOL_RESERVE, TOKEN_RESERVE, 0), 0);
    assert_eq!(amm_sell_get_sol_out(0, TOKEN_RESERVE, 5), 0);
    assert_eq!(amm_sell_get_sol_out(SOL_RESERVE, 0, 5), 0);
}

#[test]
fn zero_slippage_is_identity() {
    assert_eq!(apply_slippage_buy(1_000_000_000, 0), 1_000_000_000);
    assert_eq!(apply_slippage_sell(1_000_000_000, 0), 1_000_000_000);
    assert_eq!(apply_slippage_buy(0, 0), 0);
    assert_eq!(apply_slippage_sell(0, 0), 0);
}

#[test]
fn slippage_moves_against_the_trader() {
    // 500 basis points on 1 sol.
    assert_eq!(apply_slippage_buy(1_000_000_000, 500), 1_050_000_000);
    assert_eq!(apply_slippage_sell(1_000_000_000, 500), 950_000_000);
    assert!(apply_slippage_buy(7, 1) >= 7);
    assert!(apply_slippage_sell(7, 1) <= 7);
    // The whole tolerance: buy doubles, sell goes to zero.
    assert_eq!(apply_slippage_buy(500, 10_000), 1_000);
    assert_eq!(apply_slippage_sell(500, 10_000), 0);
}

#[test]
fn slippage_rounds_down() {
    // 3 basis points of 999 is 0.2997, rounded down to 0.
    assert_eq!(apply_slippage_buy(999, 3), 999);
    assert_eq!(apply_slippage_sell(999, 3), 999);
    // 33 basis points of 999 is 3.2967, rounded down to 3.
    assert_eq!(apply_slippage_buy(999, 33), 1_002);
    assert_eq!(apply_slippage_sell(999, 33), 996);
}
