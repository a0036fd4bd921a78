//! Multi-timeframe volatility tracking.
//!
//! A window keeps a time-bounded, timestamp-ordered run of price samples;
//! volatility is the population standard deviation of the retained prices,
//! and the volatility percentage divides it by their mean. Both are
//! undefined below ten samples. Prices are micro-dollars inside the
//! reference sanity band, so every sum fits in `u128`.

use vstd::prelude::*;
use vstd::math::abs;
use crate::math::{isqrt, spec_sqrt, lemma_sqrt_unique, lemma_sqrt_bound, lemma_div_range};

verus! {

/// Lowest price the tracker accepts, in micro-dollars ($100).
pub const PRICE_FLOOR_MICROS: u64 = 100_000_000;

/// Highest price the tracker accepts, in micro-dollars ($100,000).
pub const PRICE_CAP_MICROS: u64 = 100_000_000_000;

/// Hard cap on retained samples per window, so that sums of squared
/// deviations stay inside `u128`.
pub const MAX_WINDOW_SAMPLES: usize = 100_000;

/// Below this population size the standard deviation is undefined.
pub const MIN_SAMPLES_FOR_VOLATILITY: usize = 10;

/// Largest volatility percentage a window can report, in micro-percent:
/// the deviation is at most the price cap and the mean at least the floor.
pub const VOL_PCT_CAP_MICROS: u64 = 100_000_000_000;

pub const SHORT_TERM_LOOKBACK_MS: u64 = 300_000;
pub const MEDIUM_TERM_LOOKBACK_MS: u64 = 1_800_000;
pub const LONG_TERM_LOOKBACK_MS: u64 = 3_600_000;

/// One observed price, stamped with wall-clock milliseconds.
#[derive(Clone, Copy, PartialEq, Eq, Structural, Debug)]
pub struct PriceSample {
    pub timestamp_ms: u64,
    pub price: u64,
}

pub open spec fn in_price_band(p: u64) -> bool {
    PRICE_FLOOR_MICROS <= p <= PRICE_CAP_MICROS
}

pub open spec fn timestamps_sorted(s: Seq<PriceSample>) -> bool {
    forall|i: int, j: int|
        0 <= i <= j < s.len() ==> (#[trigger] s[i]).timestamp_ms <= (#[trigger] s[j]).timestamp_ms
}

pub open spec fn prices_in_band(s: Seq<PriceSample>) -> bool {
    forall|i: int| 0 <= i < s.len() ==> in_price_band((#[trigger] s[i]).price)
}

/// A sample is current at `now` when it is not stamped in the future and
/// not older than the lookback.
pub open spec fn in_window(ts: u64, now: u64, lookback_ms: u64) -> bool {
    ts <= now && ts + lookback_ms >= now
}

/// Samples stamped after `now` are dropped from the back.
pub open spec fn drop_future(s: Seq<PriceSample>, now: u64) -> Seq<PriceSample>
    decreases s.len(),
{
    if s.len() > 0 && s.last().timestamp_ms > now {
        drop_future(s.drop_last(), now)
    } else {
        s
    }
}

/// Samples older than the lookback are dropped from the front.
pub open spec fn drop_stale(s: Seq<PriceSample>, now: u64, lookback_ms: u64) -> Seq<PriceSample>
    decreases s.len(),
{
    if s.len() > 0 && s.first().timestamp_ms + lookback_ms < now {
        drop_stale(s.drop_first(), now, lookback_ms)
    } else {
        s
    }
}

/// A window at capacity gives up its oldest sample.
pub open spec fn drop_over_capacity(s: Seq<PriceSample>) -> Seq<PriceSample> {
    if s.len() >= MAX_WINDOW_SAMPLES {
        s.drop_first()
    } else {
        s
    }
}

/// The retained run after one `add_value_at` call: future samples dropped,
/// stale samples evicted, capacity enforced, then the new sample appended.
pub open spec fn window_after_add(
    s: Seq<PriceSample>,
    now: u64,
    price: u64,
    lookback_ms: u64,
) -> Seq<PriceSample> {
    drop_over_capacity(drop_stale(drop_future(s, now), now, lookback_ms)).push(
        PriceSample { timestamp_ms: now, price },
    )
}

/// Sum of the retained prices.
pub open spec fn sum_prices(s: Seq<PriceSample>) -> int
    decreases s.len(),
{
    if s.len() == 0 {
        0
    } else {
        sum_prices(s.drop_last()) + s.last().price
    }
}

/// Mean of the retained prices, truncated toward zero.
pub open spec fn mean_of(s: Seq<PriceSample>) -> int {
    sum_prices(s) / (s.len() as int)
}

/// Sum of squared deviations from `m`.
pub open spec fn sum_sq_dev(s: Seq<PriceSample>, m: int) -> int
    decreases s.len(),
{
    if s.len() == 0 {
        0
    } else {
        sum_sq_dev(s.drop_last(), m) + (s.last().price - m) * (s.last().price - m)
    }
}

/// Population variance around the truncated mean.
pub open spec fn variance_of(s: Seq<PriceSample>) -> int {
    sum_sq_dev(s, mean_of(s)) / (s.len() as int)
}

/// Population standard deviation, in micro-dollars.
pub open spec fn volatility_of(s: Seq<PriceSample>) -> int {
    spec_sqrt(variance_of(s))
}

/// Volatility as a percentage of the mean, in micro-percent.
pub open spec fn vol_pct_of(s: Seq<PriceSample>) -> int {
    volatility_of(s) * 100_000_000 / mean_of(s)
}

/// The percentage a window reports once it has enough samples, and the
/// neutral zero before that.
pub open spec fn pct_or_zero(s: Seq<PriceSample>) -> int {
    if s.len() < MIN_SAMPLES_FOR_VOLATILITY {
        0
    } else {
        vol_pct_of(s)
    }
}

proof fn lemma_sum_prices_take_step(s: Seq<PriceSample>, i: int)
    requires
        0 <= i < s.len(),
    ensures
        sum_prices(s.take(i + 1)) == sum_prices(s.take(i)) + s[i].price,
{
    assert(s.take(i + 1).drop_last() =~= s.take(i));
    assert(s.take(i + 1).last() == s[i]);
}

proof fn lemma_sum_sq_dev_take_step(s: Seq<PriceSample>, m: int, i: int)
    requires
        0 <= i < s.len(),
    ensures
        sum_sq_dev(s.take(i + 1), m) == sum_sq_dev(s.take(i), m) + (s[i].price - m) * (s[i].price
            - m),
{
    assert(s.take(i + 1).drop_last() =~= s.take(i));
    assert(s.take(i + 1).last() == s[i]);
}

proof fn lemma_sum_prices_bounds(s: Seq<PriceSample>, lo: int, hi: int)
    requires
        0 <= lo <= hi,
        forall|i: int| 0 <= i < s.len() ==> lo <= (#[trigger] s[i]).price <= hi,
    ensures
        s.len() * lo <= sum_prices(s) <= s.len() * hi,
    decreases s.len(),
{
    if s.len() == 0 {
    } else {
        let t = s.drop_last();
        assert forall|i: int| 0 <= i < t.len() implies lo <= (#[trigger] t[i]).price <= hi by {
            assert(t[i] == s[i]);
        }
        lemma_sum_prices_bounds(t, lo, hi);
        assert(lo <= s.last().price <= hi);
        assert(t.len() * lo + lo == s.len() * lo) by (nonlinear_arith)
            requires t.len() + 1 == s.len();
        assert(t.len() * hi + hi == s.len() * hi) by (nonlinear_arith)
            requires t.len() + 1 == s.len();
    }
}

proof fn lemma_sum_sq_dev_bounds(s: Seq<PriceSample>, m: int, c: int)
    requires
        0 <= c,
        forall|i: int| 0 <= i < s.len() ==> abs((#[trigger] s[i]).price - m) <= c,
    ensures
        0 <= sum_sq_dev(s, m) <= s.len() * (c * c),
    decreases s.len(),
{
    if s.len() == 0 {
    } else {
        let t = s.drop_last();
        assert forall|i: int| 0 <= i < t.len() implies abs((#[trigger] t[i]).price - m) <= c by {
            assert(t[i] == s[i]);
        }
        lemma_sum_sq_dev_bounds(t, m, c);
        let d = s.last().price - m;
        assert(abs(s[s.len() - 1].price - m) <= c);
        assert(0 <= d * d <= c * c) by (nonlinear_arith)
            requires abs(d) <= c;
        assert(t.len() * (c * c) + c * c == s.len() * (c * c)) by (nonlinear_arith)
            requires t.len() + 1 == s.len();
    }
}

/// Direction in which volatility is moving across the three horizons.
#[derive(Clone, Copy, PartialEq, Eq, Structural, Debug)]
pub enum VolatilityTrend {
    Increasing,
    Decreasing,
    Stable,
    Volatile,
}

/// How disruptive the short-term volatility is, in four tiers.
#[derive(Clone, Copy, PartialEq, Eq, Structural, Debug)]
pub enum VolatilityImpact {
    Low,
    Moderate,
    High,
    Extreme,
}

/// Recommended pace for acting on a signal.
#[derive(Clone, Copy, PartialEq, Eq, Structural, Debug)]
pub enum ExecutionUrgency {
    Fast,
    Normal,
    Cautious,
}

/// Adjustments the tracker recommends: a spread multiplier and a position
/// size factor, both in micro-units, and an execution urgency.
#[derive(Clone, Copy, PartialEq, Eq, Structural, Debug)]
pub struct VolatilityAdjustments {
    pub spread_multiplier: u64,
    pub position_size_factor: u64,
    pub execution_urgency: ExecutionUrgency,
}

/// Snapshot of the three volatility percentages (micro-percent) with the
/// derived trend, impact and adjustments. Created fresh on every query.
#[derive(Clone, Copy, PartialEq, Eq, Structural, Debug)]
pub struct VolatilityMetrics {
    pub short_term_volatility: u64,
    pub medium_term_volatility: u64,
    pub long_term_volatility: u64,
    pub volatility_trend: VolatilityTrend,
    pub impact_assessment: VolatilityImpact,
    pub recommended_adjustments: VolatilityAdjustments,
}

impl VolatilityMetrics {
    /// Percentages a tracker can actually report.
    pub open spec fn wf(&self) -> bool {
        &&& self.short_term_volatility <= VOL_PCT_CAP_MICROS
        &&& self.medium_term_volatility <= VOL_PCT_CAP_MICROS
        &&& self.long_term_volatility <= VOL_PCT_CAP_MICROS
    }
}

/// Trend rule: increasing when each horizon exceeds the next by a fifth,
/// decreasing when each falls short of the next by a fifth, stable when the
/// short and long percentages agree within one point, volatile otherwise.
pub open spec fn spec_trend(s: int, m: int, l: int) -> VolatilityTrend {
    if 5 * s > 6 * m && 5 * m > 6 * l {
        VolatilityTrend::Increasing
    } else if 5 * s < 4 * m && 5 * m < 4 * l {
        VolatilityTrend::Decreasing
    } else if abs(s - l) < 1_000_000 {
        VolatilityTrend::Stable
    } else {
        VolatilityTrend::Volatile
    }
}

/// Impact tiers, thresholded on the short-term percentage alone:
/// below 2% low, below 5% moderate, below 10% high, extreme otherwise.
pub open spec fn spec_impact(s: int) -> VolatilityImpact {
    if s < 2_000_000 {
        VolatilityImpact::Low
    } else if s < 5_000_000 {
        VolatilityImpact::Moderate
    } else if s < 10_000_000 {
        VolatilityImpact::High
    } else {
        VolatilityImpact::Extreme
    }
}

/// Spread multiplier by impact tier: 1.0, 1.5, 2.0, 3.0.
pub open spec fn spec_spread_multiplier(i: VolatilityImpact) -> u64 {
    match i {
        VolatilityImpact::Low => 1_000_000,
        VolatilityImpact::Moderate => 1_500_000,
        VolatilityImpact::High => 2_000_000,
        VolatilityImpact::Extreme => 3_000_000,
    }
}

/// Position size factor by impact tier: 1.0, 0.8, 0.5, 0.25.
pub open spec fn spec_position_size_factor(i: VolatilityImpact) -> u64 {
    match i {
        VolatilityImpact::Low => 1_000_000,
        VolatilityImpact::Moderate => 800_000,
        VolatilityImpact::High => 500_000,
        VolatilityImpact::Extreme => 250_000,
    }
}

/// Urgency rule: cautious under extreme impact, or high impact with an
/// increasing trend; fast when the trend is stable; normal otherwise.
pub open spec fn spec_urgency(i: VolatilityImpact, t: VolatilityTrend) -> ExecutionUrgency {
    if i == VolatilityImpact::Extreme {
        ExecutionUrgency::Cautious
    } else if i == VolatilityImpact::High && t == VolatilityTrend::Increasing {
        ExecutionUrgency::Cautious
    } else if t == VolatilityTrend::Stable {
        ExecutionUrgency::Fast
    } else {
        ExecutionUrgency::Normal
    }
}

/// The full metrics snapshot derived from the three percentages.
pub open spec fn spec_metrics(s: u64, m: u64, l: u64) -> VolatilityMetrics {
    let trend = spec_trend(s as int, m as int, l as int);
    let impact = spec_impact(s as int);
    VolatilityMetrics {
        short_term_volatility: s,
        medium_term_volatility: m,
        long_term_volatility: l,
        volatility_trend: trend,
        impact_assessment: impact,
        recommended_adjustments: VolatilityAdjustments {
            spread_multiplier: spec_spread_multiplier(impact),
            position_size_factor: spec_position_size_factor(impact),
            execution_urgency: spec_urgency(impact, trend),
        },
    }
}

/// Derives the metrics snapshot from three volatility percentages in
/// micro-percent.
pub fn metrics_from_percentages(s: u64, m: u64, l: u64) -> (r: VolatilityMetrics)
    requires
        s <= VOL_PCT_CAP_MICROS,
        m <= VOL_PCT_CAP_MICROS,
        l <= VOL_PCT_CAP_MICROS,
    ensures
        r == spec_metrics(s, m, l),
        r.wf(),
{
    let trend = if 5 * s > 6 * m && 5 * m > 6 * l {
        VolatilityTrend::Increasing
    } else if 5 * s < 4 * m && 5 * m < 4 * l {
        VolatilityTrend::Decreasing
    } else if (if s >= l {
        s - l
    } else {
        l - s
    }) < 1_000_000 {
        VolatilityTrend::Stable
    } else {
        VolatilityTrend::Volatile
    };
    let impact = if s < 2_000_000 {
        VolatilityImpact::Low
    } else if s < 5_000_000 {
        VolatilityImpact::Moderate
    } else if s < 10_000_000 {
        VolatilityImpact::High
    } else {
        VolatilityImpact::Extreme
    };
    let spread_multiplier: u64 = match impact {
        VolatilityImpact::Low => 1_000_000,
        VolatilityImpact::Moderate => 1_500_000,
        VolatilityImpact::High => 2_000_000,
        VolatilityImpact::Extreme => 3_000_000,
    };
    let position_size_factor: u64 = match impact {
        VolatilityImpact::Low => 1_000_000,
        VolatilityImpact::Moderate => 800_000,
        VolatilityImpact::High => 500_000,
        VolatilityImpact::Extreme => 250_000,
    };
    let execution_urgency = if matches!(impact, VolatilityImpact::Extreme) {
        ExecutionUrgency::Cautious
    } else if matches!(impact, VolatilityImpact::High) && matches!(
        trend,
        VolatilityTrend::Increasing,
    ) {
        ExecutionUrgency::Cautious
    } else if matches!(trend, VolatilityTrend::Stable) {
        ExecutionUrgency::Fast
    } else {
        ExecutionUrgency::Normal
    };
    VolatilityMetrics {
        short_term_volatility: s,
        medium_term_volatility: m,
        long_term_volatility: l,
        volatility_trend: trend,
        impact_assessment: impact,
        recommended_adjustments: VolatilityAdjustments {
            spread_multiplier,
            position_size_factor,
            execution_urgency,
        },
    }
}

/// One time-bounded window of price samples.
pub struct VolatilityCalculator {
    samples: Vec<PriceSample>,
    lookback_ms: u64,
}

impl View for VolatilityCalculator {
    type V = Seq<PriceSample>;

    closed spec fn view(&self) -> Seq<PriceSample> {
        self.samples@
    }
}

impl VolatilityCalculator {
    /// Lookback horizon of this window, in milliseconds.
    pub closed spec fn lookback_ms(&self) -> u64 {
        self.lookback_ms
    }

    /// Samples are timestamp-ordered, in the price band, and capped.
    pub open spec fn wf(&self) -> bool {
        &&& timestamps_sorted(self@)
        &&& prices_in_band(self@)
        &&& self@.len() <= MAX_WINDOW_SAMPLES
    }

    pub fn new(max_duration_secs: u64) -> (w: Self)
        requires
            max_duration_secs <= 0xffff_ffff,
        ensures
            w.wf(),
            w@ =~= Seq::<PriceSample>::empty(),
            w.lookback_ms() == max_duration_secs * 1000,
    {
        VolatilityCalculator { samples: Vec::new(), lookback_ms: max_duration_secs * 1000 }
    }

    /// Feeds one sample stamped `now_ms`, then evicts: samples stamped in
    /// the future are dropped, samples older than the lookback leave from
    /// the front, and a window at capacity gives up its oldest sample.
    /// Afterwards every retained sample is inside the lookback.
    pub fn add_value_at(&mut self, now_ms: u64, price: u64)
        requires
            old(self).wf(),
            in_price_band(price),
        ensures
            final(self).wf(),
            final(self).lookback_ms() == old(self).lookback_ms(),
            final(self)@ == window_after_add(old(self)@, now_ms, price, old(self).lookback_ms()),
            forall|i: int|
                0 <= i < final(self)@.len() ==> in_window(
                    (#[trigger] final(self)@[i]).timestamp_ms,
                    now_ms,
                    old(self).lookback_ms(),
                ),
            final(self)@.len() >= 1,
            final(self)@.last() == (PriceSample { timestamp_ms: now_ms, price }),
    {
        let lookback: u64 = self.lookback_ms;
        // Clock skew: drop samples stamped after `now_ms` from the back.
        while self.samples.len() > 0 && self.samples[self.samples.len() - 1].timestamp_ms > now_ms
            invariant
                timestamps_sorted(self.samples@),
                prices_in_band(self.samples@),
                self.samples@.len() <= MAX_WINDOW_SAMPLES,
                drop_future(self.samples@, now_ms) == drop_future(old(self)@, now_ms),
                self.lookback_ms == old(self).lookback_ms(),
            decreases self.samples.len(),
        {
            let ghost pre = self.samples@;
            self.samples.pop();
            proof {
                assert(self.samples@ =~= pre.drop_last());
                assert(drop_future(pre, now_ms) == drop_future(pre.drop_last(), now_ms));
            }
        }
        proof {
            assert(self.samples@ == drop_future(old(self)@, now_ms));
            assert forall|i: int| 0 <= i < self.samples@.len() implies (
            #[trigger] self.samples@[i]).timestamp_ms <= now_ms by {
                assert(self.samples@[i].timestamp_ms <= self.samples@[self.samples@.len()
                    - 1].timestamp_ms);
            }
        }
        let ghost after_future = self.samples@;
        // Age: evict samples older than the lookback from the front.
        while self.samples.len() > 0 && (self.samples[0].timestamp_ms as u128 + lookback as u128)
            < now_ms as u128
            invariant
                timestamps_sorted(self.samples@),
                prices_in_band(self.samples@),
                self.samples@.len() <= MAX_WINDOW_SAMPLES,
                drop_stale(self.samples@, now_ms, lookback) == drop_stale(
                    after_future,
                    now_ms,
                    lookback,
                ),
                forall|i: int|
                    0 <= i < self.samples@.len() ==> (#[trigger] self.samples@[i]).timestamp_ms
                        <= now_ms,
                self.lookback_ms == old(self).lookback_ms(),
                lookback == self.lookback_ms,
            decreases self.samples.len(),
        {
            let ghost pre = self.samples@;
            self.samples.remove(0);
            proof {
                assert(self.samples@ =~= pre.drop_first());
                assert(drop_stale(pre, now_ms, lookback) == drop_stale(
                    pre.drop_first(),
                    now_ms,
                    lookback,
                ));
            }
        }
        proof {
            assert(self.samples@ == drop_stale(after_future, now_ms, lookback));
        }
        let ghost after_stale = self.samples@;
        // Capacity: a full window gives up its oldest sample.
        if self.samples.len() >= MAX_WINDOW_SAMPLES {
            self.samples.remove(0);
            proof {
                assert(self.samples@ =~= after_stale.drop_first());
            }
        }
        proof {
            assert(self.samples@ == drop_over_capacity(after_stale));
        }
        self.samples.push(PriceSample { timestamp_ms: now_ms, price });
    }

    /// Feeds one sample stamped with the wall clock; whatever time the
    /// clock reports, the eviction rules of `add_value_at` apply.
    pub fn add_value(&mut self, price: u64)
        requires
            old(self).wf(),
            in_price_band(price),
        ensures
            final(self).wf(),
            final(self).lookback_ms() == old(self).lookback_ms(),
            exists|now: u64|
                final(self)@ == window_after_add(old(self)@, now, price, old(self).lookback_ms()),
    {
        let now_ms = crate::externals::current_time_ms();
        self.add_value_at(now_ms, price);
    }

    /// Number of retained samples.
    pub fn sample_count(&self) -> (c: usize)
        ensures
            c == self@.len(),
    {
        self.samples.len()
    }

    /// Span between the oldest and newest retained sample, once two are
    /// present.
    pub fn window_duration(&self) -> (d: Option<u64>)
        requires
            self.wf(),
        ensures
            d is Some <==> self@.len() >= 2,
            d matches Some(v) ==> v == self@.last().timestamp_ms - self@.first().timestamp_ms,
    {
        if self.samples.len() < 2 {
            return None;
        }
        let first = self.samples[0].timestamp_ms;
        let last = self.samples[self.samples.len() - 1].timestamp_ms;
        Some(last - first)
    }

    /// Sum of the retained prices; private helper for the statistics.
    fn sum_prices_exec(&self) -> (s: u128)
        requires
            self.wf(),
        ensures
            s == sum_prices(self@),
    {
        let n = self.samples.len();
        let mut acc: u128 = 0;
        let mut i: usize = 0;
        while i < n
            invariant
                n == self.samples@.len(),
                i <= n,
                self.wf(),
                acc == sum_prices(self.samples@.take(i as int)),
                acc <= (i as int) * (PRICE_CAP_MICROS as int),
            decreases n - i,
        {
            let p = self.samples[i].price;
            proof {
                lemma_sum_prices_take_step(self.samples@, i as int);
                assert((i as int) * (PRICE_CAP_MICROS as int) + PRICE_CAP_MICROS == ((i + 1) as int)
                    * (PRICE_CAP_MICROS as int)) by (nonlinear_arith);
                assert(((i + 1) as int) * (PRICE_CAP_MICROS as int) <= (MAX_WINDOW_SAMPLES as int)
                    * (PRICE_CAP_MICROS as int)) by (nonlinear_arith)
                    requires i + 1 <= MAX_WINDOW_SAMPLES;
            }
            acc = acc + p as u128;
            i = i + 1;
        }
        proof {
            assert(self.samples@.take(n as int) =~= self.samples@);
        }
        acc
    }

    /// Truncated mean of the retained prices; stays inside the price band.
    fn window_mean(&self) -> (m: u64)
        requires
            self.wf(),
            self@.len() > 0,
        ensures
            m == mean_of(self@),
            in_price_band(m),
    {
        let sum = self.sum_prices_exec();
        let n = self.samples.len();
        proof {
            lemma_sum_prices_bounds(self@, PRICE_FLOOR_MICROS as int, PRICE_CAP_MICROS as int);
            lemma_div_range(
                sum_prices(self@),
                n as int,
                PRICE_FLOOR_MICROS as int,
                PRICE_CAP_MICROS as int,
            );
        }
        (sum / (n as u128)) as u64
    }

    /// Population variance of the retained prices around the truncated
    /// mean; private helper.
    fn window_variance(&self) -> (v: u128)
        requires
            self.wf(),
            self@.len() > 0,
        ensures
            v == variance_of(self@),
            v <= (PRICE_CAP_MICROS as u128) * (PRICE_CAP_MICROS as u128),
    {
        let m = self.window_mean();
        let ghost cap_sq = (PRICE_CAP_MICROS as int) * (PRICE_CAP_MICROS as int);
        let n = self.samples.len();
        let mut acc: u128 = 0;
        let mut i: usize = 0;
        while i < n
            invariant
                n == self.samples@.len(),
                i <= n,
                self.wf(),
                m == mean_of(self@),
                in_price_band(m),
                cap_sq == (PRICE_CAP_MICROS as int) * (PRICE_CAP_MICROS as int),
                acc == sum_sq_dev(self.samples@.take(i as int), m as int),
                acc <= (i as int) * cap_sq,
            decreases n - i,
        {
            let p = self.samples[i].price;
            let dev: u64 = if p >= m {
                p - m
            } else {
                m - p
            };
            proof {
                lemma_sum_sq_dev_take_step(self.samples@, m as int, i as int);
                assert((dev as int) * (dev as int) == (p - m) * (p - m)) by (nonlinear_arith)
                    requires
                        dev == if p >= m {
                            (p - m) as int
                        } else {
                            (m - p) as int
                        },
                ;
                assert((dev as int) * (dev as int) <= cap_sq) by (nonlinear_arith)
                    requires
                        0 <= dev <= PRICE_CAP_MICROS,
                        cap_sq == (PRICE_CAP_MICROS as int) * (PRICE_CAP_MICROS as int),
                ;
                assert((i as int) * cap_sq + cap_sq == ((i + 1) as int) * cap_sq)
                    by (nonlinear_arith);
                assert(((i + 1) as int) * cap_sq <= (MAX_WINDOW_SAMPLES as int) * cap_sq)
                    by (nonlinear_arith)
                    requires i + 1 <= MAX_WINDOW_SAMPLES, cap_sq >= 0;
                assert((MAX_WINDOW_SAMPLES as int) * cap_sq < u128::MAX) by (nonlinear_arith)
                    requires cap_sq == (PRICE_CAP_MICROS as int) * (PRICE_CAP_MICROS as int);
            }
            acc = acc + (dev as u128) * (dev as u128);
            i = i + 1;
        }
        proof {
            assert(self.samples@.take(n as int) =~= self.samples@);
            lemma_sum_sq_dev_bounds(self@, m as int, PRICE_CAP_MICROS as int);
            lemma_div_range(sum_sq_dev(self@, m as int), n as int, 0, cap_sq);
        }
        acc / (n as u128)
    }

    /// Population standard deviation of the retained prices, in
    /// micro-dollars; undefined below ten samples.
    pub fn calculate_volatility(&self) -> (r: Option<u64>)
        requires
            self.wf(),
        ensures
            r is Some <==> self@.len() >= MIN_SAMPLES_FOR_VOLATILITY,
            r matches Some(v) ==> v == volatility_of(self@) && v <= PRICE_CAP_MICROS,
    {
        if self.samples.len() < MIN_SAMPLES_FOR_VOLATILITY {
            return None;
        }
        let variance = self.window_variance();
        let root = isqrt(variance);
        proof {
            lemma_sqrt_bound(root as int, variance as int, PRICE_CAP_MICROS as int);
            lemma_sqrt_unique(root as int, variance as int);
        }
        Some(root as u64)
    }

    /// Volatility as a percentage of the mean price, in micro-percent;
    /// undefined below ten samples.
    pub fn calculate_volatility_percentage(&self) -> (r: Option<u64>)
        requires
            self.wf(),
        ensures
            r is Some <==> self@.len() >= MIN_SAMPLES_FOR_VOLATILITY,
            r matches Some(p) ==> p == vol_pct_of(self@) && p <= VOL_PCT_CAP_MICROS,
    {
        let vol = match self.calculate_volatility() {
            None => {
                return None;
            },
            Some(v) => v,
        };
        let m = self.window_mean();
        let scaled: u128 = (vol as u128) * 100_000_000;
        let pct: u128 = scaled / (m as u128);
        proof {
            vstd::arithmetic::div_mod::lemma_div_is_ordered_by_denominator(
                scaled as int,
                PRICE_FLOOR_MICROS as int,
                m as int,
            );
            assert((vol as int) * 100_000_000 / (PRICE_FLOOR_MICROS as int) == vol)
                by (nonlinear_arith)
                requires vol >= 0;
        }
        Some(pct as u64)
    }
}

/// The idempotence law: the metrics snapshot is a function of the
/// retained samples alone, so two derivations from the same windows are
/// identical.
pub proof fn lemma_metrics_deterministic(
    short: Seq<PriceSample>,
    medium: Seq<PriceSample>,
    long: Seq<PriceSample>,
    r1: VolatilityMetrics,
    r2: VolatilityMetrics,
)
    requires
        r1 == spec_metrics(
            pct_or_zero(short) as u64,
            pct_or_zero(medium) as u64,
            pct_or_zero(long) as u64,
        ),
        r2 == spec_metrics(
            pct_or_zero(short) as u64,
            pct_or_zero(medium) as u64,
            pct_or_zero(long) as u64,
        ),
    ensures
        r1 == r2,
{
}

/// Three independent windows over the same price feed: five minutes,
/// thirty minutes and one hour.
pub struct MultiTimeframeVolatilityCalculator {
    short_term: VolatilityCalculator,
    medium_term: VolatilityCalculator,
    long_term: VolatilityCalculator,
}

impl MultiTimeframeVolatilityCalculator {
    pub closed spec fn short_term(&self) -> VolatilityCalculator {
        self.short_term
    }

    pub closed spec fn medium_term(&self) -> VolatilityCalculator {
        self.medium_term
    }

    pub closed spec fn long_term(&self) -> VolatilityCalculator {
        self.long_term
    }

    pub open spec fn wf(&self) -> bool {
        &&& self.short_term().wf()
        &&& self.medium_term().wf()
        &&& self.long_term().wf()
        &&& self.short_term().lookback_ms() == SHORT_TERM_LOOKBACK_MS
        &&& self.medium_term().lookback_ms() == MEDIUM_TERM_LOOKBACK_MS
        &&& self.long_term().lookback_ms() == LONG_TERM_LOOKBACK_MS
    }

    pub fn new() -> (t: Self)
        ensures
            t.wf(),
            t.short_term()@ =~= Seq::<PriceSample>::empty(),
            t.medium_term()@ =~= Seq::<PriceSample>::empty(),
            t.long_term()@ =~= Seq::<PriceSample>::empty(),
    {
        MultiTimeframeVolatilityCalculator {
            short_term: VolatilityCalculator::new(300),
            medium_term: VolatilityCalculator::new(1800),
            long_term: VolatilityCalculator::new(3600),
        }
    }

    /// Feeds one price stamped `now_ms` into all three windows.
    pub fn add_price_at(&mut self, now_ms: u64, price: u64)
        requires
            old(self).wf(),
            in_price_band(price),
        ensures
            final(self).wf(),
            final(self).short_term()@ == window_after_add(
                old(self).short_term()@,
                now_ms,
                price,
                SHORT_TERM_LOOKBACK_MS,
            ),
            final(self).medium_term()@ == window_after_add(
                old(self).medium_term()@,
                now_ms,
                price,
                MEDIUM_TERM_LOOKBACK_MS,
            ),
            final(self).long_term()@ == window_after_add(
                old(self).long_term()@,
                now_ms,
                price,
                LONG_TERM_LOOKBACK_MS,
            ),
    {
        self.short_term.add_value_at(now_ms, price);
        self.medium_term.add_value_at(now_ms, price);
        self.long_term.add_value_at(now_ms, price);
    }

    /// Feeds one price stamped with the wall clock; whatever time the
    /// clock reports, all three windows see the same stamp.
    pub fn add_price(&mut self, price: u64)
        requires
            old(self).wf(),
            in_price_band(price),
        ensures
            final(self).wf(),
            exists|now: u64|
                {
                    &&& final(self).short_term()@ == window_after_add(
                        old(self).short_term()@,
                        now,
                        price,
                        SHORT_TERM_LOOKBACK_MS,
                    )
                    &&& final(self).medium_term()@ == window_after_add(
                        old(self).medium_term()@,
                        now,
                        price,
                        MEDIUM_TERM_LOOKBACK_MS,
                    )
                    &&& final(self).long_term()@ == window_after_add(
                        old(self).long_term()@,
                        now,
                        price,
                        LONG_TERM_LOOKBACK_MS,
                    )
                },
    {
        let now_ms = crate::externals::current_time_ms();
        self.add_price_at(now_ms, price);
    }

    /// Fresh metrics snapshot: each window's percentage (zero while a
    /// window is short of ten samples) with the derived classifications.
    /// The result is a function of the retained samples alone, so two
    /// queries with no intervening feed return the same snapshot.
    pub fn get_volatility_metrics(&self) -> (r: VolatilityMetrics)
        requires
            self.wf(),
        ensures
            r == spec_metrics(
                pct_or_zero(self.short_term()@) as u64,
                pct_or_zero(self.medium_term()@) as u64,
                pct_or_zero(self.long_term()@) as u64,
            ),
            r.wf(),
    {
        let s = match self.short_term.calculate_volatility_percentage() {
            Some(v) => v,
            None => 0,
        };
        let m = match self.medium_term.calculate_volatility_percentage() {
            Some(v) => v,
            None => 0,
        };
        let l = match self.long_term.calculate_volatility_percentage() {
            Some(v) => v,
            None => 0,
        };
        metrics_from_percentages(s, m, l)
    }
}

} // verus!
