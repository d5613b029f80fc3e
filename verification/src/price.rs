use vstd::prelude::*;

use crate::error::EvalError;

verus! {

/// The lowest tick the pool oracle can report; below it the tick-to-price
/// conversion is undefined.
pub const MIN_TICK: i32 = -887272;

/// The highest tick the pool oracle can report.
pub const MAX_TICK: i32 = 887272;

/// How many significant digits the pipeline keeps when it renders a price.
pub const SIGNIFICANT_DIGITS: u8 = 18;

/// The most decimals a token may declare. The converter's fixed-point math
/// multiplies a 2^192-scale ratio by 10^decimals inside 512-bit integers;
/// fifty decimals stays safely below the overflow line, and real tokens
/// declare far fewer.
pub const MAX_TOKEN_DECIMALS: u8 = 50;

/// What the pipeline knows about one ERC-20 token: its address, the chain it
/// lives on, how many decimals it uses, and its symbol and name. Immutable
/// configuration, supplied once per pair.
pub struct TokenInfo {
    pub address: [u8; 20],
    pub chain_id: u64,
    pub decimals: u8,
    pub symbol: String,
    pub name: String,
}

impl TokenInfo {
    /// Configuration the pipeline can work with: the chain identifier is
    /// never zero, and the decimals stay within the converter's range.
    pub open spec fn valid(self) -> bool {
        self.chain_id != 0 && self.decimals <= MAX_TOKEN_DECIMALS
    }
}

/// The decimal digits (sign, digits and a possible decimal point) of the pool
/// price at a tick, rendered at the given number of significant digits with
/// round-half-up. A pure function of the tick, the two tokens' addresses and
/// decimals, and the digit count; it is computed by the Uniswap SDK and left
/// uninterpreted here.
pub uninterp spec fn price_digits(
    tick: int,
    base_address: Seq<u8>,
    base_decimals: int,
    quote_address: Seq<u8>,
    quote_decimals: int,
    significant_digits: int,
) -> Seq<char>;

/// Relies on uniswap_v3_sdk::utils::tick_to_price and uniswap_sdk_core's
/// Price::to_significant with round-half-up: together a deterministic
/// function of the tick, the tokens' addresses and decimals, and the digit
/// count. tick_to_price fails exactly on a chain mismatch or equal addresses
/// (the tick range is excluded here); to_significant fails exactly when the
/// digit count is zero. Validity of the tokens keeps the 512-bit fixed-point
/// math inside the call from overflowing.
#[verifier::external_body]
fn tick_price_significant(tick: i32, base: &TokenInfo, quote: &TokenInfo, digits: u8) -> (r:
    Option<String>)
    requires
        MIN_TICK <= tick <= MAX_TICK,
        base.valid(),
        quote.valid(),
    ensures
        r is Some <==> (digits != 0 && base.chain_id == quote.chain_id && base.address@
            != quote.address@),
        r matches Some(s) ==> s@ == price_digits(
            tick as int,
            base.address@,
            base.decimals as int,
            quote.address@,
            quote.decimals as int,
            digits as int,
        ),
{
    let b = uniswap_sdk_core::prelude::Token::new(
        base.chain_id, base.address.into(), base.decimals,
        Some(base.symbol.clone()), Some(base.name.clone()), 0, 0,
    );
    let q = uniswap_sdk_core::prelude::Token::new(
        quote.chain_id, quote.address.into(), quote.decimals,
        Some(quote.symbol.clone()), Some(quote.name.clone()), 0, 0,
    );
    match uniswap_v3_sdk::utils::tick_to_price(b, q, tick.try_into().unwrap()) {
        Ok(p) => p.to_significant(digits, Some(uniswap_sdk_core::prelude::Rounding::RoundHalfUp)).ok(),
        Err(_) => None,
    }
}

/// Compares the two 20-byte token addresses.
fn address_eq(a: &[u8; 20], b: &[u8; 20]) -> (r: bool)
    ensures
        r <==> a@ == b@,
{
    let mut i: usize = 0;
    while i < 20
        invariant
            0 <= i <= 20,
            forall|j: int| 0 <= j < i ==> a@[j] == b@[j],
        decreases 20 - i,
    {
        if a[i] != b[i] {
            return false;
        }
        i = i + 1;
    }
    proof {
        assert(a@ =~= b@);
    }
    true
}

/// The price converter: renders the pool price at an average tick as a
/// decimal string with `SIGNIFICANT_DIGITS` significant digits, round half
/// up. Succeeds exactly when the tick lies in the oracle's tick range and the
/// two tokens form a real pair (same chain, different addresses); every
/// failure is `PriceOutOfRange`.
pub fn price_for_tick(tick: i32, base: &TokenInfo, quote: &TokenInfo) -> (r: Result<
    String,
    EvalError,
>)
    requires
        base.valid(),
        quote.valid(),
    ensures
        r is Ok <==> (MIN_TICK <= tick <= MAX_TICK && base.chain_id == quote.chain_id
            && base.address@ != quote.address@),
        r matches Ok(s) ==> s@ == price_digits(
            tick as int,
            base.address@,
            base.decimals as int,
            quote.address@,
            quote.decimals as int,
            SIGNIFICANT_DIGITS as int,
        ),
        r matches Err(e) ==> e == EvalError::PriceOutOfRange,
{
    if tick < MIN_TICK || tick > MAX_TICK {
        return Err(EvalError::PriceOutOfRange);
    }
    if base.chain_id != quote.chain_id || address_eq(&base.address, &quote.address) {
        return Err(EvalError::PriceOutOfRange);
    }
    match tick_price_significant(tick, base, quote, SIGNIFICANT_DIGITS) {
        Some(s) => Ok(s),
        None => Err(EvalError::PriceOutOfRange),
    }
}

} // verus!
