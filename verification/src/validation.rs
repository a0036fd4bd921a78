//! Price, liquidity and opportunity validation.

use vstd::prelude::*;
use vstd::string::StringExecFns;
use crate::arbitrage::ArbitrageOpportunity;
use crate::config::{MAX_PRICE_DEVIATION_PCT_MICROS, MAX_SLIPPAGE_BPS, MAX_TRADE_SIZE_ETH};
use crate::errors::BotError;
use crate::text::{spec_micros_str, micros_to_string};
use crate::volatility::{VolatilityMetrics, VolatilityImpact, PRICE_FLOOR_MICROS, PRICE_CAP_MICROS};

verus! {

/// Reserve floors: 0.1 WETH and $100, in micro-units.
pub const MIN_WETH_LIQUIDITY_MICROS: u64 = 100_000;

pub const MIN_USD_LIQUIDITY_MICROS: u64 = 100_000_000;

/// ROI floor for the gas-economics check: 0.01%, in micro-percent.
pub const MIN_ROI_PCT_MICROS: i128 = 10_000;

/// Slippage model: 50 bps per whole ETH of trade size, volatility-scaled.
pub const SLIPPAGE_BPS_PER_ETH: u64 = 50;

/// The five independent checks, the aggregate flag, and the collected
/// warnings. The default is all-false with no warnings.
#[derive(Clone, Debug)]
pub struct ValidationResult {
    pub price_sanity: bool,
    pub liquidity_check: bool,
    pub gas_economics: bool,
    pub slippage_acceptable: bool,
    pub volatility_acceptable: bool,
    pub all_passed: bool,
    pub warnings: Vec<String>,
}

impl Default for ValidationResult {
    fn default() -> (r: Self)
        ensures
            !r.price_sanity,
            !r.liquidity_check,
            !r.gas_economics,
            !r.slippage_acceptable,
            !r.volatility_acceptable,
            !r.all_passed,
            r.warnings@.len() == 0,
    {
        ValidationResult {
            price_sanity: false,
            liquidity_check: false,
            gas_economics: false,
            slippage_acceptable: false,
            volatility_acceptable: false,
            all_passed: false,
            warnings: Vec::new(),
        }
    }
}

/// Accepts a price inside the sanity band [$100, $100,000].
pub fn validate_price(price: u64, source: &str) -> (r: Result<(), BotError>)
    ensures
        r is Ok <==> PRICE_FLOOR_MICROS <= price <= PRICE_CAP_MICROS,
        r matches Err(e) ==> e matches BotError::PriceValidation { price: p, reason } && p == price
            && reason@ == source@ + " price out of reasonable range"@,
{
    if price < PRICE_FLOOR_MICROS || price > PRICE_CAP_MICROS {
        let mut reason = source.to_owned();
        reason.append(" price out of reasonable range");
        return Err(BotError::PriceValidation { price, reason });
    }
    Ok(())
}

/// Accepts reserves above both configured floors; the error names the
/// shortfall.
pub fn validate_liquidity(weth_reserve: u64, usd_reserve: u64) -> (r: Result<(), String>)
    ensures
        r is Ok <==> weth_reserve >= MIN_WETH_LIQUIDITY_MICROS && usd_reserve
            >= MIN_USD_LIQUIDITY_MICROS,
        weth_reserve < MIN_WETH_LIQUIDITY_MICROS ==> (r matches Err(m) && m@ ==
        "Insufficient WETH liquidity: "@ + spec_micros_str(weth_reserve as int) + " WETH"@),
        weth_reserve >= MIN_WETH_LIQUIDITY_MICROS && usd_reserve < MIN_USD_LIQUIDITY_MICROS ==> (r
            matches Err(m) && m@ == "Insufficient USD liquidity: $"@ + spec_micros_str(
            usd_reserve as int,
        )),
{
    if weth_reserve < MIN_WETH_LIQUIDITY_MICROS {
        let mut m = insufficient_weth_prefix();
        m.append(micros_to_string(weth_reserve).as_str());
        m.append(" WETH");
        return Err(m);
    }
    if usd_reserve < MIN_USD_LIQUIDITY_MICROS {
        let mut m = insufficient_usd_prefix();
        m.append(micros_to_string(usd_reserve).as_str());
        return Err(m);
    }
    Ok(())
}

fn insufficient_weth_prefix() -> (s: String)
    ensures
        s@ == "Insufficient WETH liquidity: "@,
{
    "Insufficient WETH liquidity: ".to_owned()
}

fn insufficient_usd_prefix() -> (s: String)
    ensures
        s@ == "Insufficient USD liquidity: $"@,
{
    "Insufficient USD liquidity: $".to_owned()
}

/// The slippage the validator estimates, in micro-bps: size times the
/// per-ETH rate, scaled by the volatility factor {1, 1.5, 2, 3}.
pub open spec fn spec_slippage_factor(i: VolatilityImpact) -> int {
    match i {
        VolatilityImpact::Low => 1_000_000,
        VolatilityImpact::Moderate => 1_500_000,
        VolatilityImpact::High => 2_000_000,
        VolatilityImpact::Extreme => 3_000_000,
    }
}

pub open spec fn spec_slippage_bps(size: int, i: VolatilityImpact) -> int {
    size * (SLIPPAGE_BPS_PER_ETH as int) * spec_slippage_factor(i) / 1_000_000
}

/// Whether the trade would move more than 1% of the pool's base reserve.
pub open spec fn spec_trade_impact_exceeds(size: int, weth_reserve: int) -> bool {
    weth_reserve > 0 && size * 100_000_000 / weth_reserve > 1_000_000
}

/// How many warnings the validator collects for the given outcome.
pub open spec fn spec_warning_count(
    opp: &ArbitrageOpportunity,
    reserves: Option<(u64, u64)>,
    short_vol: u64,
    vol_threshold: u64,
    impact: VolatilityImpact,
) -> int {
    (if opp.price_diff_pct >= MAX_PRICE_DEVIATION_PCT_MICROS {
        1int
    } else {
        0int
    }) + (if short_vol >= vol_threshold {
        1int
    } else {
        0int
    }) + (match reserves {
        Some((w, u)) => (if !(w >= MIN_WETH_LIQUIDITY_MICROS && u >= MIN_USD_LIQUIDITY_MICROS) {
            1int
        } else {
            0int
        }) + (if spec_trade_impact_exceeds(opp.size_eth as int, w as int) {
            1int
        } else {
            0int
        }),
        None => 1int,
    }) + (if !(opp.net_profit_usd > 0 && opp.roi_pct > MIN_ROI_PCT_MICROS) {
        1int
    } else {
        0int
    }) + (if spec_slippage_bps(opp.size_eth as int, impact) >= (MAX_SLIPPAGE_BPS as int)
        * 1_000_000 {
        1int
    } else {
        0int
    })
}

/// Validates a detected opportunity against the liquidity snapshot (when
/// one could be fetched) and the current volatility. Four checks gate the
/// aggregate flag; a failing volatility check only warns. Each failing
/// check appends one warning, and an oversized trade (over 1% of the pool)
/// warns and gates without flipping `liquidity_check`.

fn warn_price_deviation(diff_pct: u64) -> (s: String)
    ensures
        s@ == "Price deviation too high: "@ + spec_micros_str(diff_pct as int) + "% (max: 10%)"@,
{
    let mut w = ("Price deviation too high: ").to_owned();
    w.append(micros_to_string(diff_pct).as_str());
    w.append("% (max: 10%)");
    proof {
        assert(w@ =~= "Price deviation too high: "@ + spec_micros_str(diff_pct as int)
            + "% (max: 10%)"@);
    }
    w
}

fn warn_volatility(short_vol: u64, threshold: u64) -> (s: String)
    ensures
        s@ == "Volatility too high: "@ + spec_micros_str(short_vol as int) + "% (threshold: "@
            + spec_micros_str(threshold as int) + "%)"@,
{
    let mut w = ("Volatility too high: ").to_owned();
    w.append(micros_to_string(short_vol).as_str());
    w.append("% (threshold: ");
    w.append(micros_to_string(threshold).as_str());
    w.append("%)");
    proof {
        assert(w@ =~= "Volatility too high: "@ + spec_micros_str(short_vol as int)
            + "% (threshold: "@ + spec_micros_str(threshold as int) + "%)"@);
    }
    w
}

fn warn_low_liquidity(weth_reserve: u64, usd_reserve: u64) -> (s: String)
    ensures
        s@ == "Low liquidity: "@ + spec_micros_str(weth_reserve as int) + " WETH, $"@
            + spec_micros_str(usd_reserve as int) + " USD"@,
{
    let mut w = ("Low liquidity: ").to_owned();
    w.append(micros_to_string(weth_reserve).as_str());
    w.append(" WETH, $");
    w.append(micros_to_string(usd_reserve).as_str());
    w.append(" USD");
    proof {
        assert(w@ =~= "Low liquidity: "@ + spec_micros_str(weth_reserve as int) + " WETH, $"@
            + spec_micros_str(usd_reserve as int) + " USD"@);
    }
    w
}

fn warn_trade_impact(impact_pct: u64) -> (s: String)
    ensures
        s@ == "Trade size is "@ + spec_micros_str(impact_pct as int) + "% of pool liquidity"@,
{
    let mut w = ("Trade size is ").to_owned();
    w.append(micros_to_string(impact_pct).as_str());
    w.append("% of pool liquidity");
    proof {
        assert(w@ =~= "Trade size is "@ + spec_micros_str(impact_pct as int)
            + "% of pool liquidity"@);
    }
    w
}

fn warn_slippage(bps_micros: u64) -> (s: String)
    ensures
        s@ == "Estimated slippage too high: "@ + spec_micros_str(bps_micros as int)
            + " bps (volatility-adjusted)"@,
{
    let mut w = ("Estimated slippage too high: ").to_owned();
    w.append(micros_to_string(bps_micros).as_str());
    w.append(" bps (volatility-adjusted)");
    proof {
        assert(w@ =~= "Estimated slippage too high: "@ + spec_micros_str(bps_micros as int)
            + " bps (volatility-adjusted)"@);
    }
    w
}


/// Applies the liquidity checks for one snapshot: reserve floors and the
/// 1% pool-impact ceiling. Returns the `liquidity_check` flag and whether
/// this section leaves the aggregate flag intact; appends this section's
/// warnings.
fn liquidity_section(warnings: &mut Vec<String>, size_eth: u64, reserves: Option<(u64, u64)>) -> (out: (
    bool,
    bool,
))
    requires
        size_eth <= MAX_TRADE_SIZE_ETH,
    ensures
        out.0 <==> (reserves matches Some((w, u)) && w >= MIN_WETH_LIQUIDITY_MICROS && u
            >= MIN_USD_LIQUIDITY_MICROS),
        out.1 <==> (reserves matches Some((w, u)) && w >= MIN_WETH_LIQUIDITY_MICROS && u
            >= MIN_USD_LIQUIDITY_MICROS && !spec_trade_impact_exceeds(size_eth as int, w as int)),
        final(warnings)@.len() == old(warnings)@.len() + (match reserves {
            Some((w, u)) => (if !(w >= MIN_WETH_LIQUIDITY_MICROS && u >= MIN_USD_LIQUIDITY_MICROS) {
                1int
            } else {
                0int
            }) + (if spec_trade_impact_exceeds(size_eth as int, w as int) {
                1int
            } else {
                0int
            }),
            None => 1int,
        }),
        forall|i: int|
            0 <= i < old(warnings)@.len() ==> #[trigger] final(warnings)@[i] == old(warnings)@[i],
        (reserves matches Some((w, u)) && !(w >= MIN_WETH_LIQUIDITY_MICROS && u
            >= MIN_USD_LIQUIDITY_MICROS)) ==> final(warnings)@[old(warnings)@.len() as int]@ ==
        "Low liquidity: "@ + spec_micros_str(reserves.unwrap().0 as int) + " WETH, $"@
            + spec_micros_str(reserves.unwrap().1 as int) + " USD"@,
{
    match reserves {
        Some((weth_reserve, usd_reserve)) => {
            let liquidity_check = match validate_liquidity(weth_reserve, usd_reserve) {
                Ok(()) => true,
                Err(_) => false,
            };
            let mut section_ok = liquidity_check;
            if !liquidity_check {
                warnings.push(warn_low_liquidity(weth_reserve, usd_reserve));
            }
            if weth_reserve > 0 {
                proof {
                    vstd::arithmetic::div_mod::lemma_div_is_ordered(
                        (size_eth as int) * 100_000_000,
                        (MAX_TRADE_SIZE_ETH as int) * 100_000_000,
                        weth_reserve as int,
                    );
                    assert((MAX_TRADE_SIZE_ETH as int) * 100_000_000 / (weth_reserve as int) <= (
                    MAX_TRADE_SIZE_ETH as int) * 100_000_000) by (nonlinear_arith)
                        requires weth_reserve >= 1;
                }
                let impact: u128 = (size_eth as u128) * 100_000_000 / (weth_reserve as u128);
                if impact > 1_000_000 {
                    warnings.push(warn_trade_impact(impact as u64));
                    section_ok = false;
                }
            }
            (liquidity_check, section_ok)
        },
        None => {
            warnings.push(("Failed to fetch liquidity data").to_owned());
            (false, false)
        },
    }
}

#[verifier::rlimit(100)]
#[verifier::spinoff_prover]
pub fn validate_opportunity_with_volatility(
    opp: &ArbitrageOpportunity,
    reserves: Option<(u64, u64)>,
    volatility_metrics: &VolatilityMetrics,
    volatility_threshold: u64,
) -> (r: ValidationResult)
    requires
        opp.size_eth <= MAX_TRADE_SIZE_ETH,
    ensures
        r.price_sanity <==> opp.price_diff_pct < MAX_PRICE_DEVIATION_PCT_MICROS,
        r.volatility_acceptable <==> volatility_metrics.short_term_volatility
            < volatility_threshold,
        reserves matches Some((w, u)) ==> (r.liquidity_check <==> w >= MIN_WETH_LIQUIDITY_MICROS
            && u >= MIN_USD_LIQUIDITY_MICROS),
        reserves is None ==> !r.liquidity_check,
        r.gas_economics <==> opp.net_profit_usd > 0 && opp.roi_pct > MIN_ROI_PCT_MICROS,
        r.slippage_acceptable <==> spec_slippage_bps(
            opp.size_eth as int,
            volatility_metrics.impact_assessment,
        ) < (MAX_SLIPPAGE_BPS as int) * 1_000_000,
        r.all_passed <==> {
            &&& r.price_sanity
            &&& r.liquidity_check
            &&& r.gas_economics
            &&& r.slippage_acceptable
            &&& (reserves matches Some((w, u)) && !spec_trade_impact_exceeds(
                opp.size_eth as int,
                w as int,
            ))
        },
        r.warnings@.len() == spec_warning_count(
            opp,
            reserves,
            volatility_metrics.short_term_volatility,
            volatility_threshold,
            volatility_metrics.impact_assessment,
        ),
        (reserves matches Some((w, u)) && !(w >= MIN_WETH_LIQUIDITY_MICROS && u
            >= MIN_USD_LIQUIDITY_MICROS)) ==> ({
            let i = (if opp.price_diff_pct >= MAX_PRICE_DEVIATION_PCT_MICROS {
                1int
            } else {
                0int
            }) + (if volatility_metrics.short_term_volatility >= volatility_threshold {
                1int
            } else {
                0int
            });
            r.warnings@[i]@ == "Low liquidity: "@ + spec_micros_str(reserves.unwrap().0 as int)
                + " WETH, $"@ + spec_micros_str(reserves.unwrap().1 as int) + " USD"@
        }),
{
    let mut result = ValidationResult::default();
    let mut all_good = true;

    // Price sanity: divergence below the deviation ceiling.
    result.price_sanity = opp.price_diff_pct < MAX_PRICE_DEVIATION_PCT_MICROS;
    if !result.price_sanity {
        result.warnings.push(warn_price_deviation(opp.price_diff_pct));
        all_good = false;
    }
    let ghost c1: int = if opp.price_diff_pct >= MAX_PRICE_DEVIATION_PCT_MICROS {
        1int
    } else {
        0int
    };
    proof {
        assert(result.warnings@.len() == c1);
    }

    // Volatility: over the threshold only warns, never gates.
    result.volatility_acceptable = volatility_metrics.short_term_volatility
        < volatility_threshold;
    if !result.volatility_acceptable {
        result.warnings.push(
            warn_volatility(volatility_metrics.short_term_volatility, volatility_threshold),
        );
    }
    let ghost c2: int = c1 + if volatility_metrics.short_term_volatility >= volatility_threshold {
        1int
    } else {
        0int
    };
    proof {
        assert(result.warnings@.len() == c2);
    }

    // Liquidity: floors on both reserves, and a 1% pool-impact ceiling.
    let ghost pre_liq_len: int = result.warnings@.len() as int;
    let (liquidity_check, liquidity_ok) = liquidity_section(
        &mut result.warnings,
        opp.size_eth,
        reserves,
    );
    result.liquidity_check = liquidity_check;
    if !liquidity_ok {
        all_good = false;
    }
    let ghost c3: int = c2 + match reserves {
        Some((w, u)) => (if !(w >= MIN_WETH_LIQUIDITY_MICROS && u >= MIN_USD_LIQUIDITY_MICROS) {
            1int
        } else {
            0int
        }) + (if spec_trade_impact_exceeds(opp.size_eth as int, w as int) {
            1int
        } else {
            0int
        }),
        None => 1int,
    };
    proof {
        assert(result.warnings@.len() == c3);
    }

    // Gas economics: positive net profit and a return over the floor.
    result.gas_economics = opp.net_profit_usd > 0 && opp.roi_pct > MIN_ROI_PCT_MICROS;
    if !result.gas_economics {
        result.warnings.push(("Insufficient profit after gas").to_owned());
        all_good = false;
    }
    let ghost c4: int = c3 + if !(opp.net_profit_usd > 0 && opp.roi_pct > MIN_ROI_PCT_MICROS) {
        1int
    } else {
        0int
    };
    proof {
        assert(result.warnings@.len() == c4);
    }

    // Slippage, scaled up under volatility.
    let volatility_slippage_factor: u64 = match volatility_metrics.impact_assessment {
        VolatilityImpact::Low => 1_000_000,
        VolatilityImpact::Moderate => 1_500_000,
        VolatilityImpact::High => 2_000_000,
        VolatilityImpact::Extreme => 3_000_000,
    };
    proof {
        assert((opp.size_eth as int) * (SLIPPAGE_BPS_PER_ETH as int) * (
        volatility_slippage_factor as int) <= 10_000_000 * 50 * 3_000_000int) by (nonlinear_arith)
            requires
                opp.size_eth <= 10_000_000,
                SLIPPAGE_BPS_PER_ETH == 50,
                volatility_slippage_factor <= 3_000_000,
        ;
    }
    let estimated_slippage_bps: u64 = ((opp.size_eth as u128) * (SLIPPAGE_BPS_PER_ETH as u128)
        * (volatility_slippage_factor as u128) / 1_000_000) as u64;
    result.slippage_acceptable = estimated_slippage_bps < MAX_SLIPPAGE_BPS as u64 * 1_000_000;
    if !result.slippage_acceptable {
        result.warnings.push(warn_slippage(estimated_slippage_bps));
        all_good = false;
    }

    result.all_passed = all_good;
    result
}

} // verus!
