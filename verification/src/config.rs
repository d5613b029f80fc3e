use vstd::prelude::*;

use crate::eval::PairDescriptor;
use crate::price::TokenInfo;

verus! {

/// The chain both configured pairs live on.
pub const MAINNET_CHAIN_ID: u64 = 1;

/// The seconds-ago offset of the fresh sample.
pub const OFFSET_NEAR: u32 = 0;

/// The seconds-ago offset of the look-back sample: six minutes.
pub const OFFSET_FAR: u32 = 360;

/// The mainnet address of Wrapped Ether.
pub open spec fn weth_address() -> Seq<u8> {
    seq![
        0xc0, 0x2a, 0xaa, 0x39, 0xb2, 0x23, 0xfe, 0x8d, 0x0a, 0x0e, 0x5c, 0x4f, 0x27, 0xea, 0xd9,
        0x08, 0x3c, 0x75, 0x6c, 0xc2,
    ]
}

/// The mainnet address of USD Coin.
pub open spec fn usdc_address() -> Seq<u8> {
    seq![
        0xa0, 0xb8, 0x69, 0x91, 0xc6, 0x21, 0x8b, 0x36, 0xc1, 0xd1, 0x9d, 0x4a, 0x2e, 0x9e, 0xb0,
        0xce, 0x36, 0x06, 0xeb, 0x48,
    ]
}

/// The mainnet address of Rocket Pool's token.
pub open spec fn rpl_address() -> Seq<u8> {
    seq![
        0xd3, 0x35, 0x26, 0x06, 0x8d, 0x11, 0x6c, 0xe6, 0x9f, 0x19, 0xa9, 0xee, 0x46, 0xf0, 0xbd,
        0x30, 0x4f, 0x21, 0xa5, 0x1f,
    ]
}

/// The mainnet address of the USDC-ETH pool the WETH/USDC pair samples.
pub open spec fn usdc_eth_pool_address() -> Seq<u8> {
    seq![
        0x88, 0xe6, 0xa0, 0xc2, 0xdd, 0xd2, 0x6f, 0xee, 0xb6, 0x4f, 0x03, 0x9a, 0x2c, 0x41, 0x29,
        0x6f, 0xcb, 0x3f, 0x56, 0x40,
    ]
}

/// The mainnet address of the ETH-RPL pool the RPL/WETH pair samples.
pub open spec fn eth_rpl_pool_address() -> Seq<u8> {
    seq![
        0xe4, 0x23, 0x18, 0xea, 0x3b, 0x99, 0x8e, 0x83, 0x55, 0xa3, 0xda, 0x36, 0x4e, 0xb9, 0xd4,
        0x8e, 0xc7, 0x25, 0xeb, 0x45,
    ]
}

/// The Wrapped Ether configuration, field by field.
pub open spec fn is_weth(t: TokenInfo) -> bool {
    t.address@ == weth_address() && t.chain_id == MAINNET_CHAIN_ID && t.decimals == 18
        && t.symbol@ == "WETH"@ && t.name@ == "Wrapped Ether"@
}

/// The USD Coin configuration, field by field.
pub open spec fn is_usdc(t: TokenInfo) -> bool {
    t.address@ == usdc_address() && t.chain_id == MAINNET_CHAIN_ID && t.decimals == 6
        && t.symbol@ == "USDC"@ && t.name@ == "USD Coin"@
}

/// The Rocket Pool token configuration, field by field.
pub open spec fn is_rpl(t: TokenInfo) -> bool {
    t.address@ == rpl_address() && t.chain_id == MAINNET_CHAIN_ID && t.decimals == 18
        && t.symbol@ == "RPL"@ && t.name@ == "Rocket Pool"@
}

/// Wrapped Ether: 18 decimals, symbol WETH, at its mainnet address.
pub fn weth_token() -> (t: TokenInfo)
    ensures
        t.valid(),
        is_weth(t),
{
    let t = TokenInfo {
        address: [
            0xc0, 0x2a, 0xaa, 0x39, 0xb2, 0x23, 0xfe, 0x8d, 0x0a, 0x0e, 0x5c, 0x4f, 0x27, 0xea,
            0xd9, 0x08, 0x3c, 0x75, 0x6c, 0xc2,
        ],
        chain_id: MAINNET_CHAIN_ID,
        decimals: 18,
        symbol: "WETH".to_owned(),
        name: "Wrapped Ether".to_owned(),
    };
    proof {
        assert(t.address@ =~= weth_address());
    }
    t
}

/// USD Coin: 6 decimals, symbol USDC, at its mainnet address.
pub fn usdc_token() -> (t: TokenInfo)
    ensures
        t.valid(),
        is_usdc(t),
{
    let t = TokenInfo {
        address: [
            0xa0, 0xb8, 0x69, 0x91, 0xc6, 0x21, 0x8b, 0x36, 0xc1, 0xd1, 0x9d, 0x4a, 0x2e, 0x9e,
            0xb0, 0xce, 0x36, 0x06, 0xeb, 0x48,
        ],
        chain_id: MAINNET_CHAIN_ID,
        decimals: 6,
        symbol: "USDC".to_owned(),
        name: "USD Coin".to_owned(),
    };
    proof {
        assert(t.address@ =~= usdc_address());
    }
    t
}

/// Rocket Pool's token: 18 decimals, symbol RPL, at its mainnet address.
pub fn rpl_token() -> (t: TokenInfo)
    ensures
        t.valid(),
        is_rpl(t),
{
    let t = TokenInfo {
        address: [
            0xd3, 0x35, 0x26, 0x06, 0x8d, 0x11, 0x6c, 0xe6, 0x9f, 0x19, 0xa9, 0xee, 0x46, 0xf0,
            0xbd, 0x30, 0x4f, 0x21, 0xa5, 0x1f,
        ],
        chain_id: MAINNET_CHAIN_ID,
        decimals: 18,
        symbol: "RPL".to_owned(),
        name: "Rocket Pool".to_owned(),
    };
    proof {
        assert(t.address@ =~= rpl_address());
    }
    t
}

/// The WETH/USDC pair, priced off the mainnet USDC-ETH pool: WETH is the
/// base, USDC the quote, sampled at the configured pair of offsets. The two
/// tokens share the chain and differ in address, so the pair passes the
/// converter's gate whenever the tick is in range.
pub fn eth_usdc_pair() -> (p: PairDescriptor)
    ensures
        p.valid(),
        p.pool_address@ == usdc_eth_pool_address(),
        is_weth(p.base),
        is_usdc(p.quote),
        p.base.chain_id == p.quote.chain_id,
        p.base.address@ != p.quote.address@,
        p.offset_near == OFFSET_NEAR,
        p.offset_far == OFFSET_FAR,
{
    let p = PairDescriptor {
        pool_address: [
            0x88, 0xe6, 0xa0, 0xc2, 0xdd, 0xd2, 0x6f, 0xee, 0xb6, 0x4f, 0x03, 0x9a, 0x2c, 0x41,
            0x29, 0x6f, 0xcb, 0x3f, 0x56, 0x40,
        ],
        base: weth_token(),
        quote: usdc_token(),
        offset_near: OFFSET_NEAR,
        offset_far: OFFSET_FAR,
    };
    proof {
        assert(p.pool_address@ =~= usdc_eth_pool_address());
        assert(p.base.address@[0] != p.quote.address@[0]);
    }
    p
}

/// The RPL/WETH pair, priced off the mainnet ETH-RPL pool: RPL is the base,
/// WETH the quote, sampled at the configured pair of offsets. The two tokens
/// share the chain and differ in address, so the pair passes the converter's
/// gate whenever the tick is in range.
pub fn rpl_weth_pair() -> (p: PairDescriptor)
    ensures
        p.valid(),
        p.pool_address@ == eth_rpl_pool_address(),
        is_rpl(p.base),
        is_weth(p.quote),
        p.base.chain_id == p.quote.chain_id,
        p.base.address@ != p.quote.address@,
        p.offset_near == OFFSET_NEAR,
        p.offset_far == OFFSET_FAR,
{
    let p = PairDescriptor {
        pool_address: [
            0xe4, 0x23, 0x18, 0xea, 0x3b, 0x99, 0x8e, 0x83, 0x55, 0xa3, 0xda, 0x36, 0x4e, 0xb9,
            0xd4, 0x8e, 0xc7, 0x25, 0xeb, 0x45,
        ],
        base: rpl_token(),
        quote: weth_token(),
        offset_near: OFFSET_NEAR,
        offset_far: OFFSET_FAR,
    };
    proof {
        assert(p.pool_address@ =~= eth_rpl_pool_address());
        assert(p.base.address@[0] != p.quote.address@[0]);
    }
    p
}

} // verus!
