use twap_core::config::{eth_usdc_pair, rpl_weth_pair};
use twap_core::error::EvalError;
use twap_core::eval::{FetchResult, evaluate_pair, process_block};
use twap_core::observation::Observation;
use twap_core::store::PriceStore;

fn obs(seconds_ago: u32, tick_cumulative: i128) -> Observation {
    Observation {
        seconds_ago,
        tick_cumulative,
    }
}

#[test]
fn evaluate_pair_assembles_the_record() {
    let pair = eth_usdc_pair();
    let p = evaluate_pair(
        &obs(0, 100000),
        &obs(360, 97840),
        &pair.base,
        &pair.quote,
        1700000000,
    )
    .unwrap();
    assert_eq!(p.base_token, "WETH");
    assert_eq!(p.quote_token, "USDC");
    assert_eq!(p.block_timestamp, 1700000000);
    // Average tick 6, WETH (18 decimals) quoted in USDC (6 decimals).
    assert_eq!(p.price, "999400209944.012597");
}

#[test]
fn evaluate_pair_signals_invalid_interval() {
    let pair = eth_usdc_pair();
    let r = evaluate_pair(
        &obs(360, 100000),
        &obs(360, 97840),
        &pair.base,
        &pair.quote,
        1700000000,
    );
    assert_eq!(r.unwrap_err(), EvalError::InvalidInterval);
}

#[test]
fn one_block_one_pair_end_to_end() {
    // offsets {0, 360}, cumulative ticks {100000, 97840}: diff = 2160,
    // duration = 360, average tick = 6; the record carries the pair's
    // symbols and the block's timestamp.
    let pairs = vec![eth_usdc_pair()];
    let fetches = vec![FetchResult::Observed(obs(0, 100000), obs(360, 97840))];
    let mut store = PriceStore::new();
    let outcomes = process_block(&pairs, &fetches, 1700000000, &mut store);
    assert_eq!(outcomes, vec![Ok(())]);
    assert_eq!(store.len(), 1);
    let row = store.get(0);
    assert_eq!(row.base_token, "WETH");
    assert_eq!(row.quote_token, "USDC");
    assert_eq!(row.block_timestamp, 1700000000);
    assert_eq!(row.price, "999400209944.012597");
    // The price is near 1.0006 up to the price direction fixed by the
    // token ordering and the 10^12 decimal shift.
    let price: f64 = row.price.parse().unwrap();
    assert!((price / 1.0e12 - 1.0 / 1.0006).abs() < 1e-6);
}

#[test]
fn a_failed_fetch_leaves_no_row_and_spares_the_siblings() {
    let pairs = vec![eth_usdc_pair(), rpl_weth_pair()];
    let fetches = vec![
        FetchResult::Unavailable,
        FetchResult::Observed(obs(0, 100000), obs(360, 97840)),
    ];
    let mut store = PriceStore::new();
    let outcomes = process_block(&pairs, &fetches, 1700000000, &mut store);
    assert_eq!(
        outcomes,
        vec![Err(EvalError::ObservationUnavailable), Ok(())]
    );
    // No row for the failed pair; the sibling's row is there.
    assert_eq!(store.len(), 1);
    let row = store.get(0);
    assert_eq!(row.base_token, "RPL");
    assert_eq!(row.quote_token, "WETH");
    assert_eq!(row.block_timestamp, 1700000000);
}

#[test]
fn replayed_blocks_do_not_duplicate_rows() {
    let pairs = vec![eth_usdc_pair()];
    let fetches = vec![FetchResult::Observed(obs(0, 100000), obs(360, 97840))];
    let mut store = PriceStore::new();
    process_block(&pairs, &fetches, 1700000000, &mut store);
    // The same block delivered again: the insert is a no-op.
    let outcomes = process_block(&pairs, &fetches, 1700000000, &mut store);
    assert_eq!(outcomes, vec![Ok(())]);
    assert_eq!(store.len(), 1);
    // A later block gets its own row.
    process_block(&pairs, &fetches, 1700000012, &mut store);
    assert_eq!(store.len(), 2);
}

#[test]
fn a_block_with_no_pairs_does_nothing() {
    let pairs = vec![];
    let fetches = vec![];
    let mut store = PriceStore::new();
    let outcomes = process_block(&pairs, &fetches, 1700000000, &mut store);
    assert!(outcomes.is_empty());
    assert_eq!(store.len(), 0);
}

#[test]
fn duplicate_evaluations_of_one_pair_store_one_row() {
    // The same pair delivered twice in one pass, as overlapping concurrent
    // evaluation would: the second write is the idempotent no-op.
    let pairs = vec![eth_usdc_pair(), eth_usdc_pair()];
    let fetches = vec![
        FetchResult::Observed(obs(0, 100000), obs(360, 97840)),
        FetchResult::Observed(obs(0, 100000), obs(360, 97840)),
    ];
    let mut store = PriceStore::new();
    let outcomes = process_block(&pairs, &fetches, 1700000000, &mut store);
    assert_eq!(outcomes, vec![Ok(()), Ok(())]);
    assert_eq!(store.len(), 1);
}

#[test]
fn an_out_of_range_tick_skips_the_pair() {
    let pairs = vec![eth_usdc_pair(), rpl_weth_pair()];
    let fetches = vec![
        // diff is astronomic and the duration one second: the average tick
        // saturates far beyond the oracle's tick range.
        FetchResult::Observed(obs(0, 36028797018963967), obs(1, -36028797018963968)),
        FetchResult::Observed(obs(0, 100000), obs(360, 97840)),
    ];
    let mut store = PriceStore::new();
    let outcomes = process_block(&pairs, &fetches, 42, &mut store);
    assert_eq!(outcomes, vec![Err(EvalError::PriceOutOfRange), Ok(())]);
    assert_eq!(store.len(), 1);
    assert_eq!(store.get(0).base_token, "RPL");
}
