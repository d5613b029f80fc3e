use vstd::prelude::*;

verus! {

/// Everything that can go wrong while evaluating one pair at one block.
///
/// Each step of the pipeline maps its failure to one of these kinds; the
/// orchestrator logs the kind and moves on to the next pair, so no failure
/// ever crosses into a sibling pair's evaluation.
#[derive(Clone, Copy, Debug, PartialEq, Eq, Structural)]
pub enum EvalError {
    /// The oracle call failed or reverted, so no observations exist.
    ObservationUnavailable,
    /// The two samples carry the same seconds-ago offset: a zero-length
    /// interval has no average tick.
    InvalidInterval,
    /// The tick and decimals combination is not representable as a
    /// fixed-precision decimal price.
    PriceOutOfRange,
    /// The durable write failed for a reason other than the expected
    /// idempotent conflict.
    PersistenceFailure,
}

impl EvalError {
    /// A short stable label for logs, one per kind.
    pub fn label(&self) -> (r: &'static str)
        ensures
            *self is ObservationUnavailable ==> r@ == "observation unavailable"@,
            *self is InvalidInterval ==> r@ == "invalid interval"@,
            *self is PriceOutOfRange ==> r@ == "price out of range"@,
            *self is PersistenceFailure ==> r@ == "persistence failure"@,
    {
        match self {
            EvalError::ObservationUnavailable => "observation unavailable",
            EvalError::InvalidInterval => "invalid interval",
            EvalError::PriceOutOfRange => "price out of range",
            EvalError::PersistenceFailure => "persistence failure",
        }
    }
}

} // verus!
