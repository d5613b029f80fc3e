use vstd::prelude::*;

use crate::error::EvalError;
use crate::observation::Observation;

verus! {

/// The distance between two integers, |a - b|.
pub open spec fn dist(a: int, b: int) -> int {
    if a >= b {
        a - b
    } else {
        b - a
    }
}

/// diff / dur rounded half away from zero, for diff >= 0 and dur > 0.
///
/// Written as a single floor division: floor((2*diff + dur) / (2*dur)) adds
/// one exactly when the remainder of diff / dur is at least half of dur.
pub open spec fn rounded_div(diff: int, dur: int) -> int
    recommends
        diff >= 0,
        dur > 0,
{
    (2 * diff + dur) / (2 * dur)
}

/// Truncation of a mathematical integer to the signed 32-bit range.
pub open spec fn clamp_to_i32(v: int) -> int {
    if v > i32::MAX as int {
        i32::MAX as int
    } else if v < i32::MIN as int {
        i32::MIN as int
    } else {
        v
    }
}

/// The average tick of two samples: the absolute cumulative-tick delta over
/// the absolute seconds-ago delta, rounded half away from zero and truncated
/// to the signed 32-bit tick range. Meaningful only when the two seconds-ago
/// offsets differ.
pub open spec fn spec_average_tick(a: Observation, b: Observation) -> int {
    clamp_to_i32(
        rounded_div(
            dist(a.tick_cumulative as int, b.tick_cumulative as int),
            dist(a.seconds_ago as int, b.seconds_ago as int),
        ),
    )
}

/// The TWAP calculator: a pure, total function over two oracle samples.
///
/// Signals `InvalidInterval` exactly when the two samples carry the same
/// seconds-ago offset, and never divides by zero; on every other input it
/// returns the rounded average tick.
pub fn average_tick(a: &Observation, b: &Observation) -> (r: Result<i32, EvalError>)
    requires
        a.valid(),
        b.valid(),
    ensures
        r == Err::<i32, EvalError>(EvalError::InvalidInterval) <==> a.seconds_ago
            == b.seconds_ago,
        a.seconds_ago != b.seconds_ago ==> (r matches Ok(t) && t == spec_average_tick(*a, *b)),
{
    if a.seconds_ago == b.seconds_ago {
        return Err(EvalError::InvalidInterval);
    }
    let diff: u128 = if a.tick_cumulative >= b.tick_cumulative {
        (a.tick_cumulative - b.tick_cumulative) as u128
    } else {
        (b.tick_cumulative - a.tick_cumulative) as u128
    };
    let dur: u128 = if a.seconds_ago >= b.seconds_ago {
        (a.seconds_ago - b.seconds_ago) as u128
    } else {
        (b.seconds_ago - a.seconds_ago) as u128
    };
    let q: u128 = (2 * diff + dur) / (2 * dur);
    if q > i32::MAX as u128 {
        Ok(i32::MAX)
    } else {
        Ok(q as i32)
    }
}

/// Law: the average tick does not depend on the order of the two samples.
pub proof fn lemma_average_tick_order_independent(a: Observation, b: Observation)
    ensures
        spec_average_tick(a, b) == spec_average_tick(b, a),
{
}

} // verus!
