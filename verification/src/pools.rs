//! Pool identity, reserve interpretation, pool price and depth analysis.
//!
//! Raw on-chain reserves arrive as plain integers: the base asset always
//! carries 18 decimals, the quote asset 6 or 18. The functions here turn
//! them into micro-unit amounts, a pool price, and a depth snapshot.

use vstd::prelude::*;
use crate::addresses::Address;
use crate::market_making::{LiquidityDepth, DepthQuality};
use crate::volatility::{PRICE_FLOOR_MICROS, PRICE_CAP_MICROS};

verus! {

/// Largest raw reserve the arithmetic accepts.
pub const MAX_RAW_RESERVE: u128 = 1_000_000_000_000_000_000_000_000_000_000;

/// Largest base-asset amount a depth snapshot accepts (ten million ETH,
/// in micro-ETH).
pub const MAX_WETH_AMOUNT_MICROS: u64 = 10_000_000_000_000;

/// Largest quote amount a depth snapshot accepts (a trillion dollars, in
/// micro-dollars).
pub const MAX_USD_AMOUNT_MICROS: u64 = 1_000_000_000_000_000_000;

/// Identity of one tracked pool, resolved once at startup.
#[derive(Clone, Debug)]
pub struct PoolInfo {
    pub address: Address,
    pub name: String,
    pub token0: Address,
    pub token1: Address,
    pub is_stable: bool,
    pub min_liquidity_usd: u64,
}

/// Micro-ETH in a raw 18-decimal reserve.
pub open spec fn spec_weth_amount_micros(raw: int) -> int {
    raw / 1_000_000_000_000
}

/// Micro-dollars in a raw 6- or 18-decimal reserve.
pub open spec fn spec_usd_amount_micros(raw: int, usd_decimals: int) -> int {
    if usd_decimals == 6 {
        raw
    } else {
        raw / 1_000_000_000_000
    }
}

/// The pool price in micro-dollars per ETH: quote amount over base
/// amount.
pub open spec fn spec_pool_price(weth_raw: int, usd_raw: int, usd_decimals: int) -> int {
    spec_usd_amount_micros(usd_raw, usd_decimals) * 1_000_000 / spec_weth_amount_micros(weth_raw)
}

/// Whether the pair is a recognized WETH/USD pool against the given
/// token addresses.
pub open spec fn spec_is_weth_usd_pool(
    t0: Seq<u8>,
    t1: Seq<u8>,
    weth: Seq<u8>,
    usdc: Seq<u8>,
    usdbc: Seq<u8>,
) -> bool {
    (t0 == weth || t1 == weth) && (t0 == usdc || t1 == usdc || t0 == usdbc || t1 == usdbc)
}

/// Tests a pool's tokens against the recognized WETH and USD addresses.
pub fn is_weth_usd_pool(
    info: &PoolInfo,
    weth: &Address,
    usdc: &Address,
    usdbc: &Address,
) -> (r: bool)
    ensures
        r == spec_is_weth_usd_pool(
            info.token0.bytes@,
            info.token1.bytes@,
            weth.bytes@,
            usdc.bytes@,
            usdbc.bytes@,
        ),
{
    (info.token0.equals(weth) || info.token1.equals(weth)) && (info.token0.equals(usdc)
        || info.token1.equals(usdc) || info.token0.equals(usdbc) || info.token1.equals(usdbc))
}

/// Accepts a pool at startup: it must be a recognized WETH/USD pair with
/// both reserves non-zero.
pub fn accept_pool(
    info: &PoolInfo,
    r0: u128,
    r1: u128,
    weth: &Address,
    usdc: &Address,
    usdbc: &Address,
) -> (r: Result<(), String>)
    ensures
        r is Ok <==> spec_is_weth_usd_pool(
            info.token0.bytes@,
            info.token1.bytes@,
            weth.bytes@,
            usdc.bytes@,
            usdbc.bytes@,
        ) && r0 > 0 && r1 > 0,
        !spec_is_weth_usd_pool(
            info.token0.bytes@,
            info.token1.bytes@,
            weth.bytes@,
            usdc.bytes@,
            usdbc.bytes@,
        ) ==> (r matches Err(m) && m@ == "Not a WETH/USD pool"@),
        spec_is_weth_usd_pool(
            info.token0.bytes@,
            info.token1.bytes@,
            weth.bytes@,
            usdc.bytes@,
            usdbc.bytes@,
        ) && (r0 == 0 || r1 == 0) ==> (r matches Err(m) && m@ == "Pool has zero liquidity"@),
{
    if !is_weth_usd_pool(info, weth, usdc, usdbc) {
        return Err(("Not a WETH/USD pool").to_owned());
    }
    if r0 == 0 || r1 == 0 {
        return Err(("Pool has zero liquidity").to_owned());
    }
    Ok(())
}

/// Orients raw reserves so the base asset comes first, and reports the
/// quote asset's decimals: 6 for the recognized 6-decimal stablecoins, 18
/// otherwise.
pub fn orient_reserves(
    info: &PoolInfo,
    r0: u128,
    r1: u128,
    weth: &Address,
    usdc: &Address,
    usdbc: &Address,
) -> (r: Result<(u128, u128, u32), String>)
    ensures
        r is Ok <==> info.token0.bytes@ == weth.bytes@ || info.token1.bytes@ == weth.bytes@,
        r matches Err(m) ==> m@ == "Not a WETH/USD pool"@,
        info.token0.bytes@ == weth.bytes@ ==> (r matches Ok(t) && t.0 == r0 && t.1 == r1 && t.2
            == (if info.token1.bytes@ == usdc.bytes@ || info.token1.bytes@ == usdbc.bytes@ {
            6u32
        } else {
            18u32
        })),
        info.token0.bytes@ != weth.bytes@ && info.token1.bytes@ == weth.bytes@ ==> (r matches Ok(t)
            && t.0 == r1 && t.1 == r0 && t.2 == (
        if info.token0.bytes@ == usdc.bytes@ || info.token0.bytes@ == usdbc.bytes@ {
            6u32
        } else {
            18u32
        })),
{
    if info.token0.equals(weth) {
        let decimals: u32 = if info.token1.equals(usdc) || info.token1.equals(usdbc) {
            6
        } else {
            18
        };
        Ok((r0, r1, decimals))
    } else if info.token1.equals(weth) {
        let decimals: u32 = if info.token0.equals(usdc) || info.token0.equals(usdbc) {
            6
        } else {
            18
        };
        Ok((r1, r0, decimals))
    } else {
        Err(("Not a WETH/USD pool").to_owned())
    }
}

/// Computes the pool price from oriented raw reserves, rejecting empty
/// pools and prices outside the sanity band.
pub fn calculate_pool_price(weth_raw: u128, usd_raw: u128, usd_decimals: u32) -> (r: Result<
    u64,
    String,
>)
    requires
        usd_decimals == 6 || usd_decimals == 18,
        weth_raw <= MAX_RAW_RESERVE,
        usd_raw <= MAX_RAW_RESERVE,
    ensures
        r is Ok <==> weth_raw > 0 && usd_raw > 0 && spec_weth_amount_micros(weth_raw as int) > 0
            && PRICE_FLOOR_MICROS <= spec_pool_price(
            weth_raw as int,
            usd_raw as int,
            usd_decimals as int,
        ) <= PRICE_CAP_MICROS,
        r matches Ok(p) ==> p == spec_pool_price(weth_raw as int, usd_raw as int,
            usd_decimals as int) && crate::volatility::in_price_band(p),
        weth_raw == 0 || usd_raw == 0 ==> (r matches Err(m) && m@ == "Pool has zero reserves"@),
        weth_raw > 0 && usd_raw > 0 && spec_weth_amount_micros(weth_raw as int) == 0 ==> (r matches
            Err(m) && m@ == "WETH amount is zero"@),
{
    if weth_raw == 0 || usd_raw == 0 {
        return Err(("Pool has zero reserves").to_owned());
    }
    let weth_amount: u128 = weth_raw / 1_000_000_000_000;
    let usd_amount: u128 = if usd_decimals == 6 {
        usd_raw
    } else {
        usd_raw / 1_000_000_000_000
    };
    if weth_amount == 0 {
        return Err(("WETH amount is zero").to_owned());
    }
    proof {
        assert(usd_amount * 1_000_000 <= MAX_RAW_RESERVE * 1_000_000) by (nonlinear_arith)
            requires usd_amount <= MAX_RAW_RESERVE;
    }
    let price_wide: u128 = usd_amount * 1_000_000 / weth_amount;
    if price_wide < PRICE_FLOOR_MICROS as u128 || price_wide > PRICE_CAP_MICROS as u128 {
        return Err(("DEX price out of reasonable range").to_owned());
    }
    Ok(price_wide as u64)
}

/// Converts oriented raw reserves into micro-unit amounts, or nothing
/// where an amount is beyond the supported range.
pub fn reserve_amounts(weth_raw: u128, usd_raw: u128, usd_decimals: u32) -> (r: Option<
    (u64, u64),
>)
    requires
        usd_decimals == 6 || usd_decimals == 18,
    ensures
        r is Some <==> spec_weth_amount_micros(weth_raw as int) <= MAX_WETH_AMOUNT_MICROS
            && spec_usd_amount_micros(usd_raw as int, usd_decimals as int)
            <= MAX_USD_AMOUNT_MICROS,
        r matches Some(t) ==> t.0 == spec_weth_amount_micros(weth_raw as int) && t.1
            == spec_usd_amount_micros(usd_raw as int, usd_decimals as int),
{
    let weth_amount: u128 = weth_raw / 1_000_000_000_000;
    let usd_amount: u128 = if usd_decimals == 6 {
        usd_raw
    } else {
        usd_raw / 1_000_000_000_000
    };
    if weth_amount <= MAX_WETH_AMOUNT_MICROS as u128 && usd_amount
        <= MAX_USD_AMOUNT_MICROS as u128 {
        Some((weth_amount as u64, usd_amount as u64))
    } else {
        None
    }
}

/// Depth quality tiers on the total USD liquidity: over $10M excellent,
/// over $1M good, over $100k fair, poor otherwise.
pub open spec fn spec_depth_quality(total_liquidity_usd: int) -> DepthQuality {
    if total_liquidity_usd > 10_000_000_000_000 {
        DepthQuality::Excellent
    } else if total_liquidity_usd > 1_000_000_000_000 {
        DepthQuality::Good
    } else if total_liquidity_usd > 100_000_000_000 {
        DepthQuality::Fair
    } else {
        DepthQuality::Poor
    }
}

/// The depth snapshot: total liquidity is the base reserve at fair value
/// plus the quote reserve.
pub open spec fn spec_liquidity_depth(weth_amount: int, usd_amount: int, fair: int)
    -> LiquidityDepth {
    let total = weth_amount * fair / 1_000_000 + usd_amount;
    LiquidityDepth {
        total_liquidity_usd: total as u64,
        weth_reserves: weth_amount as u64,
        usd_reserves: usd_amount as u64,
        depth_quality: spec_depth_quality(total),
    }
}

/// Builds the depth snapshot for one pool at the given fair value.
pub fn analyze_liquidity_depth(weth_amount: u64, usd_amount: u64, fair_value: u64) -> (r:
    LiquidityDepth)
    requires
        weth_amount <= MAX_WETH_AMOUNT_MICROS,
        usd_amount <= MAX_USD_AMOUNT_MICROS,
        crate::volatility::in_price_band(fair_value),
    ensures
        r == spec_liquidity_depth(weth_amount as int, usd_amount as int, fair_value as int),
{
    proof {
        crate::math::lemma_mul_div_le(
            weth_amount as int,
            MAX_WETH_AMOUNT_MICROS as int,
            fair_value as int,
            100_000_000_000,
            1_000_000,
        );
    }
    let weth_value = crate::fixed::mul_div_u64(weth_amount, fair_value, 1_000_000);
    let total = weth_value + usd_amount;
    LiquidityDepth {
        total_liquidity_usd: total,
        weth_reserves: weth_amount,
        usd_reserves: usd_amount,
        depth_quality: if total > 10_000_000_000_000 {
            DepthQuality::Excellent
        } else if total > 1_000_000_000_000 {
            DepthQuality::Good
        } else if total > 100_000_000_000 {
            DepthQuality::Fair
        } else {
            DepthQuality::Poor
        },
    }
}

} // verus!
