//! Venue payload encoders against hand-written byte layouts.
use solana_trading_sdk::boopfun_types;
use solana_trading_sdk::boopfun_types::BondingCurveStatus;
use solana_trading_sdk::meteora_dbc_types;
use solana_trading_sdk::moonit_types;
use solana_trading_sdk::raydium_bonk_types;
use solana_trading_sdk::types::SwapInfo;

fn le(v: u64) -> Vec<u8> {
    v.to_le_bytes().to_vec()
}

#[test]
fn boopfun_buy_buffer_is_three_le_words() {
    let buy = boopfun_types::BuyInfo::from(SwapInfo { token_amount: 7, sol_amount: 300 });
    assert_eq!(buy.discriminator, 7598512818552209290);
    assert_eq!(buy.sol_amount, 300);
    assert_eq!(buy.token_amount, 7);
    let mut expected = le(7598512818552209290);
    expected.extend(le(300));
    expected.extend(le(7));
    assert_eq!(buy.to_buffer(), expected);
}

#[test]
fn boopfun_sell_buffer_swaps_field_order() {
    let sell = boopfun_types::SellInfo::from(SwapInfo { token_amount: 7, sol_amount: 300 });
    assert_eq!(sell.discriminator, 12576214989484342637);
    let mut expected = le(12576214989484342637);
    expected.extend(le(7));
    expected.extend(le(300));
    assert_eq!(sell.to_buffer(), expected);
}

#[test]
fn bonding_curve_status_codes_round_trip() {
    let all = [
        BondingCurveStatus::Trading,
        BondingCurveStatus::Graduated,
        BondingCurveStatus::PoolPriceCorrected,
        BondingCurveStatus::LiquidityProvisioned,
        BondingCurveStatus::LiquidityLocked,
    ];
    for (i, status) in all.iter().enumerate() {
        assert_eq!(status.code(), i as u8);
        assert_eq!(BondingCurveStatus::from_u8(i as u8), Some(status.clone()));
    }
    assert_eq!(BondingCurveStatus::from_u8(5), None);
    assert_eq!(BondingCurveStatus::from_u8(255), None);
}

#[test]
fn raydium_buy_and_sell_buffers() {
    let buy = raydium_bonk_types::BuyInfo::from(SwapInfo { token_amount: 9, sol_amount: 4 });
    assert_eq!(buy.share_fee_rate, 0);
    let mut expected = le(17011112658214972154);
    expected.extend(le(9));
    expected.extend(le(4));
    expected.extend(le(0));
    assert_eq!(buy.to_buffer(), expected);

    let sell = raydium_bonk_types::SellInfo::from(SwapInfo { token_amount: 9, sol_amount: 4 });
    let mut expected = le(1916418889741117333);
    expected.extend(le(9));
    expected.extend(le(4));
    expected.extend(le(0));
    assert_eq!(sell.to_buffer(), expected);
}

#[test]
fn meteora_swap_orients_by_direction() {
    let info = SwapInfo { token_amount: 11, sol_amount: 22 };
    let buy = meteora_dbc_types::SwapInstruction::from_swap_info(&info, true);
    assert_eq!(buy.amount_in, 22);
    assert_eq!(buy.minimum_amount_out, 11);
    let sell = meteora_dbc_types::SwapInstruction::from_swap_info(&info, false);
    assert_eq!(sell.amount_in, 11);
    assert_eq!(sell.minimum_amount_out, 22);

    let mut expected = le(14449647541112719096);
    expected.extend(le(22));
    expected.extend(le(11));
    assert_eq!(buy.to_buffer(), expected);
}

#[test]
fn moonit_trade_params_buffer_has_one_byte_side() {
    let params = moonit_types::TradeParams {
        discriminator: 42,
        token_amount: 1_000,
        collateral_amount: 2_000,
        fixed_side: moonit_types::FixedSide::ExactOut,
        slippage_bps: 300,
    };
    let mut expected = le(42);
    expected.extend(le(1_000));
    expected.extend(le(2_000));
    expected.push(1);
    expected.extend(le(300));
    let buffer = params.to_buffer();
    assert_eq!(buffer.len(), 33);
    assert_eq!(buffer, expected);
    assert_eq!(moonit_types::FixedSide::ExactIn.code(), 0);
}

#[test]
fn moonit_initial_reserves_match_the_curve_constants() {
    assert_eq!(moonit_types::INITIAL_VIRTUAL_SOL_RESERVES, 30_000_000_000);
    assert_eq!(moonit_types::INITIAL_VIRTUAL_TOKEN_RESERVES, 1_073_000_000_000_000);
}
