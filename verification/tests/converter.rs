use twap_core::config::{rpl_token, usdc_token, weth_token};
use twap_core::error::EvalError;
use twap_core::price::{MAX_TICK, MIN_TICK, TokenInfo, price_for_tick};

fn token(last_byte: u8, chain_id: u64, decimals: u8, symbol: &str) -> TokenInfo {
    let mut address = [0u8; 20];
    address[19] = last_byte;
    TokenInfo {
        address,
        chain_id,
        decimals,
        symbol: symbol.to_owned(),
        name: symbol.to_owned(),
    }
}

#[test]
fn tick_zero_equal_decimals_is_exactly_one() {
    // With the same number of decimals on both sides, tick 0 is a price of 1.
    let base = token(1, 1, 18, "AAA");
    let quote = token(2, 1, 18, "BBB");
    assert_eq!(price_for_tick(0, &base, &quote).unwrap(), "1");
}

#[test]
fn tick_zero_price_is_exactly_the_decimal_shift() {
    // Base 18 decimals, quote 6 decimals: tick 0 is exactly 1 * 10^12.
    let base = token(1, 1, 18, "AAA");
    let quote = token(2, 1, 6, "BBB");
    assert_eq!(price_for_tick(0, &base, &quote).unwrap(), "1000000000000");
    // And with the shift the other way: exactly 10^-12, which the decimal
    // library renders in scientific notation.
    let base = token(1, 1, 6, "AAA");
    let quote = token(2, 1, 18, "BBB");
    assert_eq!(price_for_tick(0, &base, &quote).unwrap(), "1E-12");
}

#[test]
fn tick_zero_for_the_configured_pair() {
    // WETH (18 decimals) quoted in USDC (6 decimals) at tick 0.
    let weth = weth_token();
    let usdc = usdc_token();
    assert_eq!(price_for_tick(0, &weth, &usdc).unwrap(), "1000000000000");
}

#[test]
fn one_tick_moves_the_price_a_hundredth_of_a_percent() {
    let base = token(1, 1, 18, "AAA");
    let quote = token(2, 1, 18, "BBB");
    let up: f64 = price_for_tick(1, &base, &quote).unwrap().parse().unwrap();
    assert!((up - 1.0001).abs() < 1e-12);
    let down: f64 = price_for_tick(-1, &base, &quote).unwrap().parse().unwrap();
    assert!((down - 1.0 / 1.0001).abs() < 1e-12);
}

#[test]
fn out_of_range_ticks_are_rejected() {
    let base = token(1, 1, 18, "AAA");
    let quote = token(2, 1, 18, "BBB");
    assert_eq!(
        price_for_tick(MAX_TICK + 1, &base, &quote),
        Err(EvalError::PriceOutOfRange)
    );
    assert_eq!(
        price_for_tick(MIN_TICK - 1, &base, &quote),
        Err(EvalError::PriceOutOfRange)
    );
    assert!(price_for_tick(MAX_TICK, &base, &quote).is_ok());
    assert!(price_for_tick(MIN_TICK, &base, &quote).is_ok());
}

#[test]
fn broken_pairs_are_rejected() {
    let base = token(1, 1, 18, "AAA");
    // Same address on both sides: no pair.
    assert_eq!(
        price_for_tick(0, &base, &token(1, 1, 6, "BBB")),
        Err(EvalError::PriceOutOfRange)
    );
    // Different chains: no pair.
    assert_eq!(
        price_for_tick(0, &base, &token(2, 5, 6, "BBB")),
        Err(EvalError::PriceOutOfRange)
    );
}

#[test]
fn rpl_weth_at_tick_zero() {
    // Both tokens use 18 decimals, so tick 0 is exactly 1.
    assert_eq!(price_for_tick(0, &rpl_token(), &weth_token()).unwrap(), "1");
}
