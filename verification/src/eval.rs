use vstd::prelude::*;

use crate::error::EvalError;
use crate::observation::Observation;
use crate::price::{MAX_TICK, MIN_TICK, SIGNIFICANT_DIGITS, TokenInfo, price_digits, price_for_tick};
use crate::store::{PricePoint, PricePointView, PriceStore, has_key, same_key, spec_insert};
use crate::twap::{average_tick, spec_average_tick};

verus! {

/// Immutable configuration for one trading pair: the pool that is sampled,
/// the two tokens in their (base, quote) order, and the two seconds-ago
/// offsets at which the oracle is read.
pub struct PairDescriptor {
    pub pool_address: [u8; 20],
    pub base: TokenInfo,
    pub quote: TokenInfo,
    pub offset_near: u32,
    pub offset_far: u32,
}

impl PairDescriptor {
    /// Configuration the pipeline can evaluate: both tokens carry a nonzero
    /// chain identifier.
    pub open spec fn valid(self) -> bool {
        self.base.valid() && self.quote.valid()
    }
}

/// What the oracle fetch of one pair at one block produced: the two
/// observations, or nothing because the call failed or reverted.
pub enum FetchResult {
    Observed(Observation, Observation),
    Unavailable,
}

impl FetchResult {
    /// Every observation a fetch can deliver lies in the oracle's native
    /// cumulative-tick range.
    pub open spec fn valid(self) -> bool {
        self matches FetchResult::Observed(a, b) ==> a.valid() && b.valid()
    }
}

/// The whole per-pair computation, as one mathematical function: the rounded
/// average tick of the two samples, rendered as a fixed-precision decimal
/// price, stamped with the pair's symbols and the block timestamp. An error
/// names the first step that fails.
pub open spec fn spec_evaluate(
    a: Observation,
    b: Observation,
    base: TokenInfo,
    quote: TokenInfo,
    block_timestamp: i64,
) -> Result<PricePointView, EvalError> {
    if a.seconds_ago == b.seconds_ago {
        Err(EvalError::InvalidInterval)
    } else {
        let tick = spec_average_tick(a, b);
        if MIN_TICK <= tick <= MAX_TICK && base.chain_id == quote.chain_id && base.address@
            != quote.address@ {
            Ok(
                PricePointView {
                    base_token: base.symbol@,
                    quote_token: quote.symbol@,
                    price: price_digits(
                        tick,
                        base.address@,
                        base.decimals as int,
                        quote.address@,
                        quote.decimals as int,
                        SIGNIFICANT_DIGITS as int,
                    ),
                    block_timestamp: block_timestamp as int,
                },
            )
        } else {
            Err(EvalError::PriceOutOfRange)
        }
    }
}

/// Runs the calculator and the price converter for one pair and one block,
/// and assembles the record the sink is to store. Pure: the outcome is
/// exactly `spec_evaluate` of the inputs.
pub fn evaluate_pair(
    a: &Observation,
    b: &Observation,
    base: &TokenInfo,
    quote: &TokenInfo,
    block_timestamp: i64,
) -> (r: Result<PricePoint, EvalError>)
    requires
        a.valid(),
        b.valid(),
        base.valid(),
        quote.valid(),
    ensures
        r matches Ok(p) ==> spec_evaluate(*a, *b, *base, *quote, block_timestamp) matches Ok(v)
            && p@ == v,
        r matches Err(e) ==> spec_evaluate(*a, *b, *base, *quote, block_timestamp)
            == Err::<PricePointView, EvalError>(e),
{
    let tick = match average_tick(a, b) {
        Ok(t) => t,
        Err(e) => {
            return Err(e);
        },
    };
    let price = match price_for_tick(tick, base, quote) {
        Ok(s) => s,
        Err(e) => {
            return Err(e);
        },
    };
    Ok(
        PricePoint {
            base_token: base.symbol.clone(),
            quote_token: quote.symbol.clone(),
            price,
            block_timestamp,
        },
    )
}

/// What one pair contributes to the store: a successful evaluation inserts
/// its record idempotently; a failed fetch or a failed evaluation leaves the
/// store untouched.
pub open spec fn spec_step(
    rows: Seq<PricePointView>,
    pair: PairDescriptor,
    fetch: FetchResult,
    block_timestamp: i64,
) -> Seq<PricePointView> {
    match fetch {
        FetchResult::Observed(a, b) => match spec_evaluate(
            a,
            b,
            pair.base,
            pair.quote,
            block_timestamp,
        ) {
            Ok(v) => spec_insert(rows, v),
            Err(_) => rows,
        },
        FetchResult::Unavailable => rows,
    }
}

/// The store after every pair of the block has contributed, first to last.
pub open spec fn spec_process(
    rows: Seq<PricePointView>,
    pairs: Seq<PairDescriptor>,
    fetches: Seq<FetchResult>,
    block_timestamp: i64,
) -> Seq<PricePointView>
    decreases pairs.len(),
{
    if pairs.len() == 0 || fetches.len() == 0 {
        rows
    } else {
        spec_process(
            spec_step(rows, pairs[0], fetches[0], block_timestamp),
            pairs.drop_first(),
            fetches.drop_first(),
            block_timestamp,
        )
    }
}

/// The outcome reported for one pair: `Ok` when its record was evaluated and
/// handed to the sink, otherwise the error of the step that failed.
pub open spec fn spec_outcome(
    pair: PairDescriptor,
    fetch: FetchResult,
    block_timestamp: i64,
) -> Result<(), EvalError> {
    match fetch {
        FetchResult::Observed(a, b) => match spec_evaluate(
            a,
            b,
            pair.base,
            pair.quote,
            block_timestamp,
        ) {
            Ok(_) => Ok(()),
            Err(e) => Err(e),
        },
        FetchResult::Unavailable => Err(EvalError::ObservationUnavailable),
    }
}

/// Law: a pair whose oracle fetch failed contributes nothing to the store,
/// whatever the pair and whatever the store held.
pub proof fn lemma_unavailable_writes_nothing(
    rows: Seq<PricePointView>,
    pair: PairDescriptor,
    block_timestamp: i64,
)
    ensures
        spec_step(rows, pair, FetchResult::Unavailable, block_timestamp) == rows,
{
}

/// A record that is in the store stays in it through any pair's step.
proof fn lemma_step_keeps_records(
    rows: Seq<PricePointView>,
    pair: PairDescriptor,
    fetch: FetchResult,
    block_timestamp: i64,
    v: PricePointView,
)
    requires
        has_key(rows, v),
    ensures
        has_key(spec_step(rows, pair, fetch, block_timestamp), v),
{
    let rows1 = spec_step(rows, pair, fetch, block_timestamp);
    let i = choose|i: int| 0 <= i < rows.len() && same_key(rows[i], v);
    assert(same_key(rows1[i], v));
}

/// A record that is in the store stays in it through the rest of the block.
proof fn lemma_process_keeps_records(
    rows: Seq<PricePointView>,
    pairs: Seq<PairDescriptor>,
    fetches: Seq<FetchResult>,
    block_timestamp: i64,
    v: PricePointView,
)
    requires
        has_key(rows, v),
    ensures
        has_key(spec_process(rows, pairs, fetches, block_timestamp), v),
    decreases pairs.len(),
{
    if pairs.len() == 0 || fetches.len() == 0 {
    } else {
        lemma_step_keeps_records(rows, pairs[0], fetches[0], block_timestamp, v);
        lemma_process_keeps_records(
            spec_step(rows, pairs[0], fetches[0], block_timestamp),
            pairs.drop_first(),
            fetches.drop_first(),
            block_timestamp,
            v,
        );
    }
}

/// Law: persistence happens exactly when every preceding step succeeded.
/// After a block is processed, each pair whose outcome is success has its
/// evaluated record in the store.
pub proof fn lemma_success_is_persisted(
    rows: Seq<PricePointView>,
    pairs: Seq<PairDescriptor>,
    fetches: Seq<FetchResult>,
    block_timestamp: i64,
    i: int,
)
    requires
        pairs.len() == fetches.len(),
        0 <= i < pairs.len(),
        spec_outcome(pairs[i], fetches[i], block_timestamp) is Ok,
    ensures
        fetches[i] matches FetchResult::Observed(a, b) && spec_evaluate(
            a,
            b,
            pairs[i].base,
            pairs[i].quote,
            block_timestamp,
        ) matches Ok(v) && has_key(spec_process(rows, pairs, fetches, block_timestamp), v),
    decreases i,
{
    let rows1 = spec_step(rows, pairs[0], fetches[0], block_timestamp);
    if i == 0 {
        match fetches[0] {
            FetchResult::Observed(a, b) => {
                match spec_evaluate(a, b, pairs[0].base, pairs[0].quote, block_timestamp) {
                    Ok(v) => {
                        if !has_key(rows, v) {
                            assert(same_key(rows.push(v)[rows.len() as int], v));
                        }
                        assert(has_key(rows1, v));
                        lemma_process_keeps_records(
                            rows1,
                            pairs.drop_first(),
                            fetches.drop_first(),
                            block_timestamp,
                            v,
                        );
                    },
                    Err(_) => {
                        assert(false);
                    },
                }
            },
            FetchResult::Unavailable => {
                assert(false);
            },
        }
    } else {
        lemma_success_is_persisted(
            rows1,
            pairs.drop_first(),
            fetches.drop_first(),
            block_timestamp,
            i - 1,
        );
        assert(pairs.drop_first()[i - 1] == pairs[i]);
        assert(fetches.drop_first()[i - 1] == fetches[i]);
    }
}

/// The per-block orchestrator. For each configured pair it runs the
/// calculator, the converter and the sink on that pair's fetch result, and
/// reports one outcome per pair. A failure of one pair never touches the
/// store on that pair's behalf and never stops a sibling pair from being
/// evaluated and persisted.
pub fn process_block(
    pairs: &Vec<PairDescriptor>,
    fetches: &Vec<FetchResult>,
    block_timestamp: i64,
    store: &mut PriceStore,
) -> (outcomes: Vec<Result<(), EvalError>>)
    requires
        pairs@.len() == fetches@.len(),
        old(store).wf(),
        forall|i: int| 0 <= i < pairs@.len() ==> (#[trigger] pairs@[i]).valid(),
        forall|i: int| 0 <= i < fetches@.len() ==> (#[trigger] fetches@[i]).valid(),
    ensures
        final(store)@ == spec_process(old(store)@, pairs@, fetches@, block_timestamp),
        final(store).wf(),
        outcomes@.len() == pairs@.len(),
        forall|i: int|
            0 <= i < pairs@.len() ==> #[trigger] outcomes@[i] == spec_outcome(
                pairs@[i],
                fetches@[i],
                block_timestamp,
            ),
{
    let ghost rows0 = store@;
    proof {
        assert(pairs@.skip(0) =~= pairs@);
        assert(fetches@.skip(0) =~= fetches@);
    }
    let mut outcomes: Vec<Result<(), EvalError>> = Vec::new();
    let n = pairs.len();
    for k in 0..n
        invariant
            n == pairs@.len(),
            pairs@.len() == fetches@.len(),
            forall|i: int| 0 <= i < pairs@.len() ==> (#[trigger] pairs@[i]).valid(),
            forall|i: int| 0 <= i < fetches@.len() ==> (#[trigger] fetches@[i]).valid(),
            store.wf(),
            spec_process(store@, pairs@.skip(k as int), fetches@.skip(k as int), block_timestamp)
                == spec_process(rows0, pairs@, fetches@, block_timestamp),
            outcomes@.len() == k,
            forall|i: int|
                0 <= i < k ==> #[trigger] outcomes@[i] == spec_outcome(
                    pairs@[i],
                    fetches@[i],
                    block_timestamp,
                ),
    {
        let pair = &pairs[k];
        let fetch = &fetches[k];
        let ghost rows_before = store@;
        let outcome: Result<(), EvalError> = match fetch {
            FetchResult::Observed(a, b) => {
                match evaluate_pair(a, b, &pair.base, &pair.quote, block_timestamp) {
                    Ok(p) => {
                        store.insert(p);
                        Ok(())
                    },
                    Err(e) => Err(e),
                }
            },
            FetchResult::Unavailable => Err(EvalError::ObservationUnavailable),
        };
        outcomes.push(outcome);
        proof {
            assert(store@ == spec_step(
                rows_before,
                pairs@[k as int],
                fetches@[k as int],
                block_timestamp,
            ));
            assert(outcomes@[k as int] == spec_outcome(
                pairs@[k as int],
                fetches@[k as int],
                block_timestamp,
            ));
            assert(pairs@.skip(k as int)[0] == pairs@[k as int]);
            assert(fetches@.skip(k as int)[0] == fetches@[k as int]);
            assert(pairs@.skip(k as int).drop_first() =~= pairs@.skip(k + 1));
            assert(fetches@.skip(k as int).drop_first() =~= fetches@.skip(k + 1));
        }
    }
    proof {
        assert(pairs@.skip(n as int) =~= Seq::<PairDescriptor>::empty());
        assert(fetches@.skip(n as int) =~= Seq::<FetchResult>::empty());
    }
    outcomes
}

} // verus!
