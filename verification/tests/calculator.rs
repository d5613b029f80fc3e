use twap_core::error::EvalError;
use twap_core::observation::{Observation, observations_from};
use twap_core::twap::average_tick;

fn obs(seconds_ago: u32, tick_cumulative: i128) -> Observation {
    Observation {
        seconds_ago,
        tick_cumulative,
    }
}

#[test]
fn rounds_half_away_from_zero() {
    // diff = 5, duration = 2: 2.5 resolves to 3.
    let r = average_tick(&obs(0, 0), &obs(2, 5)).unwrap();
    assert_eq!(r, 3);
    // The delta runs the other way: the absolute difference is the same 5.
    let r = average_tick(&obs(0, -5), &obs(2, 0)).unwrap();
    assert_eq!(r, 3);
    let r = average_tick(&obs(0, 0), &obs(2, -5)).unwrap();
    assert_eq!(r, 3);
}

#[test]
fn order_of_samples_is_irrelevant() {
    let samples = [
        (obs(0, 100000), obs(360, 97840)),
        (obs(0, -100000), obs(360, 97840)),
        (obs(17, 5), obs(2, -5)),
        (obs(360, 0), obs(0, 36028797018963967)),
    ];
    for (a, b) in samples {
        assert_eq!(average_tick(&a, &b), average_tick(&b, &a));
    }
}

#[test]
fn zero_duration_signals_invalid_interval() {
    assert_eq!(
        average_tick(&obs(360, 1), &obs(360, 99)),
        Err(EvalError::InvalidInterval)
    );
    assert_eq!(
        average_tick(&obs(0, 5), &obs(0, 5)),
        Err(EvalError::InvalidInterval)
    );
}

#[test]
fn configured_offsets_give_exact_average() {
    // offsets {0, 360}, cumulative ticks {100000, 97840}:
    // diff = 2160, duration = 360, average = 6.
    let r = average_tick(&obs(0, 100000), &obs(360, 97840)).unwrap();
    assert_eq!(r, 6);
}

#[test]
fn whole_quotients_are_untouched() {
    // diff = 2160, duration = 360 in the other temporal order.
    let r = average_tick(&obs(360, 100000), &obs(0, 97840)).unwrap();
    assert_eq!(r, 6);
    let r = average_tick(&obs(0, 7), &obs(7, 0)).unwrap();
    assert_eq!(r, 1);
}

#[test]
fn huge_deltas_saturate_at_i32_max() {
    let r = average_tick(&obs(0, 36028797018963967), &obs(1, -36028797018963968)).unwrap();
    assert_eq!(r, i32::MAX);
}

#[test]
fn observations_pair_offsets_with_ticks() {
    let seconds = vec![0u32, 360];
    let ticks = vec![100000i64, 97840];
    let o = observations_from(&seconds, &ticks);
    assert_eq!(o.len(), 2);
    assert_eq!(o[0].seconds_ago, 0);
    assert_eq!(o[0].tick_cumulative, 100000);
    assert_eq!(o[1].seconds_ago, 360);
    assert_eq!(o[1].tick_cumulative, 97840);
}

#[test]
fn error_labels_name_each_kind() {
    assert_eq!(
        EvalError::ObservationUnavailable.label(),
        "observation unavailable"
    );
    assert_eq!(EvalError::InvalidInterval.label(), "invalid interval");
    assert_eq!(EvalError::PriceOutOfRange.label(), "price out of range");
    assert_eq!(EvalError::PersistenceFailure.label(), "persistence failure");
}
