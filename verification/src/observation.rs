use vstd::prelude::*;

verus! {

/// The oracle accumulates ticks in a 56-bit signed counter, so the magnitude
/// of every cumulative tick it can report is below 2^55.
pub const TICK_CUMULATIVE_BOUND: i128 = 0x80_0000_0000_0000;

/// One oracle sample: its age in seconds relative to the reference block, and
/// the cumulative tick the oracle reported at that moment.
#[derive(Clone, Copy, Debug, PartialEq, Eq, Structural)]
pub struct Observation {
    pub seconds_ago: u32,
    pub tick_cumulative: i128,
}

impl Observation {
    /// A sample the oracle can actually produce: the cumulative tick lies in
    /// the oracle's native signed 56-bit range.
    pub open spec fn valid(self) -> bool {
        -TICK_CUMULATIVE_BOUND <= self.tick_cumulative < TICK_CUMULATIVE_BOUND
    }
}

/// Pairs each configured seconds-ago offset with the cumulative tick the
/// oracle returned for it, in order, exactly as the oracle response lists
/// them. The oracle encodes cumulative ticks as signed 56-bit values, so each
/// resulting observation is valid.
pub fn observations_from(seconds_agos: &Vec<u32>, tick_cumulatives: &Vec<i64>) -> (obs: Vec<
    Observation,
>)
    requires
        seconds_agos@.len() == tick_cumulatives@.len(),
        forall|i: int|
            0 <= i < tick_cumulatives@.len() ==> -TICK_CUMULATIVE_BOUND <= #[trigger] tick_cumulatives@[i]
                < TICK_CUMULATIVE_BOUND,
    ensures
        obs@.len() == seconds_agos@.len(),
        forall|i: int|
            0 <= i < obs@.len() ==> #[trigger] obs@[i] == (Observation {
                seconds_ago: seconds_agos@[i],
                tick_cumulative: tick_cumulatives@[i] as i128,
            }),
        forall|i: int| 0 <= i < obs@.len() ==> (#[trigger] obs@[i]).valid(),
{
    let mut obs: Vec<Observation> = Vec::new();
    let n = seconds_agos.len();
    for k in 0..n
        invariant
            n == seconds_agos@.len(),
            seconds_agos@.len() == tick_cumulatives@.len(),
            forall|i: int|
                0 <= i < tick_cumulatives@.len() ==> -TICK_CUMULATIVE_BOUND
                    <= #[trigger] tick_cumulatives@[i] < TICK_CUMULATIVE_BOUND,
            obs@.len() == k,
            forall|i: int|
                0 <= i < k ==> #[trigger] obs@[i] == (Observation {
                    seconds_ago: seconds_agos@[i],
                    tick_cumulative: tick_cumulatives@[i] as i128,
                }),
    {
        obs.push(
            Observation {
                seconds_ago: seconds_agos[k],
                tick_cumulative: tick_cumulatives[k] as i128,
            },
        );
    }
    obs
}

} // verus!
