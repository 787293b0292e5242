use meme_launchpad::constants::{INITIAL_VIRTUAL_SOL_RESERVES, INITIAL_VIRTUAL_TOKEN_RESERVES};
use meme_launchpad::errors::ErrorCode;
use meme_launchpad::fees::{split_fees, FeeSplit};
use meme_launchpad::pricing::{quote_out, trade_price};
use meme_launchpad::states::BondingCurve;

fn curve(virtual_sol: u64, virtual_token: u64) -> BondingCurve {
    BondingCurve {
        token_id: 1,
        virtual_sol_reserves: virtual_sol,
        virtual_token_reserves: virtual_token,
        real_sol_reserves: 0,
        real_token_reserves: 1_000_000_000_000_000,
        total_sol_volume: 0,
        total_token_volume: 0,
        current_price: 0,
        market_cap: 0,
        active: true,
        last_updated: 0,
    }
}

#[test]
fn quote_of_first_buy_uses_widened_formula() {
    // floor(1_073_000_000_000_000 * 100_000_000 / (30_000_000_000 + 100_000_000))
    let out = quote_out(INITIAL_VIRTUAL_SOL_RESERVES, INITIAL_VIRTUAL_TOKEN_RESERVES, 100_000_000);
    assert_eq!(out, Ok(3_564_784_053_156));
}

#[test]
fn quote_of_zero_is_zero() {
    assert_eq!(quote_out(30_000_000_000, 1_073_000_000_000_000, 0), Ok(0));
    assert_eq!(quote_out(0, 0, 0), Ok(0));
}

#[test]
fn quote_near_u64_max_is_exact_and_never_wraps() {
    let max = u64::MAX;
    assert_eq!(quote_out(max, max, max), Ok(9_223_372_036_854_775_807));
    assert_eq!(quote_out(1, max, max), Ok(18_446_744_073_709_551_614));
    assert_eq!(quote_out(0, max, max), Ok(max));
    assert_eq!(quote_out(max, 1, max), Ok(0));
}

#[test]
fn quote_grows_with_diminishing_increments() {
    let q1 = quote_out(INITIAL_VIRTUAL_SOL_RESERVES, INITIAL_VIRTUAL_TOKEN_RESERVES, 100_000_000).unwrap();
    let q2 = quote_out(INITIAL_VIRTUAL_SOL_RESERVES, INITIAL_VIRTUAL_TOKEN_RESERVES, 200_000_000).unwrap();
    let q3 = quote_out(INITIAL_VIRTUAL_SOL_RESERVES, INITIAL_VIRTUAL_TOKEN_RESERVES, 300_000_000).unwrap();
    assert_eq!(q2, 7_105_960_264_900);
    assert_eq!(q3, 10_623_762_376_237);
    assert!(q1 < q2 && q2 < q3);
    assert!(q2 - q1 > q3 - q2);
    assert!(q1 > q2 - q1);
}

#[test]
fn rounded_gains_shrink_but_for_one_unit() {
    // Small reserves, where rounding is visible.
    let q = |a: u64| quote_out(7, 50, a).unwrap();
    let gains: Vec<u64> = (0..20u64).map(|a| q(a + 3) - q(a)).collect();
    for i in 0..gains.len() {
        for j in i..gains.len() {
            assert!(gains[j] <= gains[i] + 1);
        }
    }
    assert_eq!(q(3), 15);
    assert_eq!(q(6), 23);
}

#[test]
fn quote_never_exceeds_reserves_paid_out() {
    assert_eq!(quote_out(10, 1_000, 1_000_000_000), Ok(999));
    assert_eq!(quote_out(0, 1_000, 5), Ok(1_000));
}

#[test]
fn curve_quotes_each_direction() {
    let c = curve(30_000_000_000, 1_073_000_000_000_000);
    assert_eq!(c.calculate_token_output(100_000_000), Ok(3_564_784_053_156));
    assert_eq!(c.calculate_token_output(0), Ok(0));
    // floor(30_000_000_000 * 1_000_000_000 / (1_073_000_000_000_000 + 1_000_000_000))
    assert_eq!(c.calculate_sol_output(1_000_000_000), Ok(27_958));
    assert_eq!(c.calculate_sol_output(0), Ok(0));
}

#[test]
fn price_scales_by_decimals() {
    assert_eq!(trade_price(100_000_000, 6, 3_564_784_053_156), 28);
    assert_eq!(trade_price(1_000, 0, 3), 333);
    assert_eq!(trade_price(5, 9, 1), 5_000_000_000);
}

#[test]
fn price_is_zero_where_it_cannot_be_formed() {
    assert_eq!(trade_price(100, 6, 0), 0);
    assert_eq!(trade_price(u64::MAX, 9, 1), 0);
    assert_eq!(trade_price(1, 20, 1), 0);
    assert_eq!(trade_price(0, 30, 1), 0);
}

#[test]
fn fees_split_gross_at_default_rate() {
    assert_eq!(
        split_fees(100_000_000, 250),
        Ok(FeeSplit { platform_fee: 2_500_000, creator_fee: 1_000_000, net: 96_500_000 })
    );
}

#[test]
fn fees_round_down() {
    assert_eq!(split_fees(99, 250), Ok(FeeSplit { platform_fee: 2, creator_fee: 0, net: 97 }));
    assert_eq!(split_fees(0, 1000), Ok(FeeSplit { platform_fee: 0, creator_fee: 0, net: 0 }));
}

#[test]
fn fees_at_highest_rate_stay_within_gross() {
    let gross = 10_000_000_000;
    let s = split_fees(gross, 1000).unwrap();
    assert_eq!(s, FeeSplit { platform_fee: 1_000_000_000, creator_fee: 100_000_000, net: 8_900_000_000 });
    assert!(s.platform_fee + s.creator_fee <= gross);
    assert_eq!(s.platform_fee + s.creator_fee + s.net, gross);
}

#[test]
fn fees_overflow_is_reported() {
    assert_eq!(split_fees(u64::MAX, 2), Err(ErrorCode::ArithmeticOverflow));
    assert_eq!(split_fees(u64::MAX / 50, 0), Err(ErrorCode::ArithmeticOverflow));
}

#[test]
fn fees_above_gross_fail_rather_than_clamp() {
    assert_eq!(split_fees(1_000, 9_950), Err(ErrorCode::ArithmeticUnderflow));
    assert_eq!(split_fees(1_000, 9_900), Ok(FeeSplit { platform_fee: 990, creator_fee: 10, net: 0 }));
}
