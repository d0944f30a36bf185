//! Quotes against a pool's reserves.

use omnipair_amm_sdk::swap::BPS_DENOMINATOR;
use omnipair_amm_sdk::{
    ceil_div, LastPriceEMA, OmnipairError, OmnipairPair, Pubkey, SwapQuote, VaultBumps,
};

fn key(tag: u8) -> Pubkey {
    Pubkey { bytes: [tag; 32] }
}

fn pool(swap_fee_bps: u16, reserve0: u64, reserve1: u64) -> OmnipairPair {
    OmnipairPair {
        token0: key(1),
        token1: key(2),
        lp_mint: Pubkey::default(),
        rate_model: Pubkey::default(),
        swap_fee_bps,
        half_life: 0,
        fixed_cf_bps: None,
        reserve0,
        reserve1,
        cash_reserve0: reserve0,
        cash_reserve1: reserve1,
        last_price0_ema: LastPriceEMA::default(),
        last_price1_ema: LastPriceEMA::default(),
        last_update: 0,
        last_rate0: 0,
        last_rate1: 0,
        total_debt0: 0,
        total_debt1: 0,
        total_debt0_shares: 0,
        total_debt1_shares: 0,
        total_supply: 0,
        total_collateral0: 0,
        total_collateral1: 0,
        token0_decimals: 9,
        token1_decimals: 9,
        params_hash: [0; 32],
        version: 1,
        bump: 0,
        vault_bumps: VaultBumps::default(),
        reduce_only: false,
    }
}

#[test]
fn test_constant_product() {
    let out = OmnipairPair::calculate_amount_out(1_000_000, 1_000_000, 100_000).unwrap();
    assert_eq!(out, 90909);
}

#[test]
fn test_quote_with_fee() {
    let pair = pool(30, 1_000_000_000, 1_000_000_000);

    let result = pair.swap_quote(1_000_000, pair.token0).unwrap();

    assert_eq!(result.fee_amount, 3000);
    assert_eq!(result.amount_out, 996006);
}

#[test]
fn division_rounds_up() {
    assert_eq!(ceil_div(0, 7), Some(0));
    assert_eq!(ceil_div(1, 7), Some(1));
    assert_eq!(ceil_div(7, 7), Some(1));
    assert_eq!(ceil_div(8, 7), Some(2));
    assert_eq!(ceil_div(u128::MAX - 1, 1), Some(u128::MAX - 1));
}

#[test]
fn division_by_zero_is_refused() {
    assert_eq!(ceil_div(5, 0), None);
    assert_eq!(ceil_div(u128::MAX, 0), None);
}

#[test]
fn constant_product_edges() {
    assert_eq!(
        OmnipairPair::calculate_amount_out(0, 5, 0),
        Err(OmnipairError::MathOverflow)
    );
    assert_eq!(OmnipairPair::calculate_amount_out(0, 5, 3), Ok(5));
    assert_eq!(OmnipairPair::calculate_amount_out(5, 5, 0), Ok(0));
    assert_eq!(OmnipairPair::calculate_amount_out(5, 0, 7), Ok(0));
    assert_eq!(
        OmnipairPair::calculate_amount_out(u64::MAX, u64::MAX, u64::MAX),
        Ok(u64::MAX / 2)
    );
}

#[test]
fn unknown_mint_is_refused() {
    let pair = pool(30, 1000, 1000);
    assert_eq!(pair.swap_quote(10, key(3)), Err(OmnipairError::InvalidQuoteParams));
    // The mint is looked at before the reserves.
    let empty = pool(30, 0, 0);
    assert_eq!(empty.swap_quote(10, key(3)), Err(OmnipairError::InvalidQuoteParams));
}

#[test]
fn empty_reserve_is_refused() {
    assert_eq!(
        pool(30, 0, 1000).swap_quote(10, key(1)),
        Err(OmnipairError::InvalidReserves)
    );
    assert_eq!(
        pool(30, 1000, 0).swap_quote(10, key(1)),
        Err(OmnipairError::InvalidReserves)
    );
}

#[test]
fn fee_above_the_amount_is_refused() {
    let pair = pool(10_001, 1_000_000, 1_000_000);
    assert_eq!(pair.swap_quote(100, key(1)), Err(OmnipairError::MathOverflow));
    assert_eq!(
        pair.swap_quote(0, key(1)),
        Ok(SwapQuote { amount_out: 0, fee_amount: 0 })
    );
}

#[test]
fn fee_beyond_64_bits_is_refused() {
    // Twice the amount of 2^63 is 2^64.
    let mut pair = pool(20_000, 1, 1_000);
    pair.cash_reserve0 = 1_000;
    assert_eq!(pair.swap_quote(1 << 63, key(1)), Err(OmnipairError::MathOverflow));
    assert_eq!(
        pair.swap_quote((1 << 63) + 1, key(1)),
        Err(OmnipairError::MathOverflow)
    );
    let steepest = pool(u16::MAX, 1, 1_000);
    assert_eq!(
        steepest.swap_quote(u64::MAX, key(1)),
        Err(OmnipairError::MathOverflow)
    );
}

#[test]
fn rate_above_the_whole_answers_only_nothing() {
    for bps in [10_001, 20_000, u16::MAX] {
        let pair = pool(bps, 1_000, 1_000);
        assert_eq!(
            pair.swap_quote(0, key(2)),
            Ok(SwapQuote { amount_out: 0, fee_amount: 0 })
        );
        for amount in [1, 9_999, 10_000, 1 << 62, 1 << 63, u64::MAX] {
            assert_eq!(pair.swap_quote(amount, key(2)), Err(OmnipairError::MathOverflow));
        }
    }
}

#[test]
fn answered_swap_is_charged() {
    for bps in [0, 1, 30, 10_000] {
        let pair = pool(bps, 1_000, 1_000);
        for amount in [0, 1, 10_000, u64::MAX] {
            let quote = pair.swap_quote(amount, key(1)).unwrap();
            assert_eq!(quote.fee_amount == 0, amount == 0 || bps == 0);
        }
    }
}

#[test]
fn payout_above_the_cash_is_refused() {
    let mut pair = pool(0, 1_000_000, 1_000_000);
    pair.cash_reserve1 = 90_908;
    assert_eq!(
        pair.swap_quote(100_000, key(1)),
        Err(OmnipairError::InsufficientCashReserve)
    );
    pair.cash_reserve1 = 90_909;
    assert_eq!(
        pair.swap_quote(100_000, key(1)),
        Ok(SwapQuote { amount_out: 90_909, fee_amount: 0 })
    );
    // The other direction draws on the other cash reserve.
    pair.cash_reserve0 = 0;
    assert_eq!(
        pair.swap_quote(100_000, key(2)),
        Err(OmnipairError::InsufficientCashReserve)
    );
}

#[test]
fn fee_is_rounded_up() {
    let pair = pool(1, 1_000_000, 1_000_000);
    assert_eq!(pair.swap_quote(1, key(1)).unwrap().fee_amount, 1);
    assert_eq!(pair.swap_quote(10_000, key(1)).unwrap().fee_amount, 1);
    assert_eq!(pair.swap_quote(10_001, key(1)).unwrap().fee_amount, 2);
}

#[test]
fn a_rate_of_the_whole_takes_everything() {
    let pair = pool(BPS_DENOMINATOR as u16, 1_000, 1_000);
    assert_eq!(
        pair.swap_quote(u64::MAX, key(1)),
        Ok(SwapQuote { amount_out: 0, fee_amount: u64::MAX })
    );
}

#[test]
fn fee_is_zero_only_for_nothing() {
    assert_eq!(pool(30, 10, 10).swap_quote(0, key(1)).unwrap().fee_amount, 0);
    assert_eq!(pool(0, 10, 10).swap_quote(7, key(1)).unwrap().fee_amount, 0);
    assert!(pool(1, 10, 10).swap_quote(1, key(1)).unwrap().fee_amount > 0);
}

#[test]
fn fee_and_rest_grow_with_the_amount() {
    let pair = pool(37, 1_000_000, 1_000_000);
    let mut last = SwapQuote { amount_out: 0, fee_amount: 0 };
    for amount in 0..2000 {
        let quote = pair.swap_quote(amount, key(1)).unwrap();
        assert!(quote.amount_out >= last.amount_out);
        assert!(quote.fee_amount >= last.fee_amount);
        last = quote;
    }
}

#[test]
fn product_never_falls() {
    let (x, y, dx) = (1_000u128, 777u128, 123u128);
    let dy = OmnipairPair::calculate_amount_out(x as u64, y as u64, dx as u64).unwrap() as u128;
    assert!((x + dx) * (y - dy) >= x * y);
    assert!((x + dx) * (y - dy - 1) < x * y);
}

#[test]
fn payout_grows_with_the_amount() {
    let small = OmnipairPair::calculate_amount_out(1_000, 777, 123).unwrap();
    let large = OmnipairPair::calculate_amount_out(1_000, 777, 124).unwrap();
    assert!(small <= large);
}

#[test]
fn round_trip_gains_nothing() {
    let out = OmnipairPair::calculate_amount_out(1_000_000, 777_777, 123_456).unwrap();
    let back =
        OmnipairPair::calculate_amount_out(777_777 - out, 1_000_000 + 123_456, out).unwrap();
    assert!(back <= 123_456);
    assert!(back > 123_000);
    // A swap into an empty reserve takes the other one whole, and comes back whole.
    let all = OmnipairPair::calculate_amount_out(0, 777, 5).unwrap();
    assert_eq!(all, 777);
    assert_eq!(OmnipairPair::calculate_amount_out(0, 5, all), Ok(5));
}

#[test]
fn quote_is_covered() {
    let pair = pool(30, 50, 40);
    let quote = pair.swap_quote(1_000, key(1)).unwrap();
    assert_eq!(quote, SwapQuote { amount_out: 38, fee_amount: 3 });
    assert!(pair.swap_quote(u64::MAX, key(1)).unwrap().amount_out < 40);
}

#[test]
fn fee_lowers_payout() {
    let free = pool(0, 1_000_000, 1_000_000).swap_quote(5_000, key(1)).unwrap();
    let charged = pool(30, 1_000_000, 1_000_000).swap_quote(5_000, key(1)).unwrap();
    assert_eq!(free.amount_out, 4975);
    assert_eq!(charged.amount_out, 4960);
}

#[test]
fn quotes_are_symmetric() {
    let pair = pool(30, 1_000, 2_000);
    let mut mirror = pool(30, 2_000, 1_000);
    mirror.token0 = key(2);
    mirror.token1 = key(1);
    for mint in [key(1), key(2), key(3)] {
        assert_eq!(pair.swap_quote(99, mint), mirror.swap_quote(99, mint));
    }
    assert_eq!(pair.swap_quote(99, key(1)).unwrap().amount_out, 178);
    assert_eq!(pair.swap_quote(99, key(2)).unwrap().amount_out, 46);
}

#[test]
fn errors_are_shown_by_name() {
    assert_eq!(OmnipairError::MathOverflow.to_string(), "MathOverflow");
    assert_eq!(OmnipairError::InvalidReserves.to_string(), "InvalidReserves");
    assert_eq!(OmnipairError::InvalidQuoteParams.to_string(), "InvalidQuoteParams");
    assert_eq!(OmnipairError::ExactOutNotSupported.to_string(), "ExactOutNotSupported");
    assert_eq!(OmnipairError::InvalidAccountData.to_string(), "InvalidAccountData");
    assert_eq!(
        OmnipairError::InsufficientCashReserve.to_string(),
        "InsufficientCashReserve"
    );
}
