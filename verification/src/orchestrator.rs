//! Decisions of the monitoring loop: the running statistics, the health
//! check, and what to do when the reference-price fetch fails.
//!
//! The loop itself — sleeping, fetching, storing — is plain I/O around
//! these functions; per tick it gates on the circuit breaker, fetches the
//! reference price, and processes every pool in declaration order, never
//! letting one pool's failure abort the rest.

use vstd::prelude::*;
use crate::circuit_breaker::CircuitBreaker;
use crate::config::PRICE_STALENESS_SECONDS;
use crate::errors::BotError;
use crate::recovery::RecoveryAction;

verus! {

/// Ceiling on the running error total before health reporting warns.
pub const ERROR_TOTAL_CEILING: u64 = 1000;

/// Running statistics and the reference-price fallback state.
#[derive(Clone, Copy, PartialEq, Eq, Structural, Debug)]
pub struct MonitoringState {
    pub total_opportunities: u64,
    pub profitable_opportunities: u64,
    pub total_potential_profit_usd: u64,
    pub total_market_making_signals: u64,
    pub total_executions: u64,
    pub successful_executions: u64,
    pub dex_last_update_ms: Option<u64>,
    pub cex_last_update_ms: Option<u64>,
    pub last_known_cex_price: Option<u64>,
    pub consecutive_cex_failures: u32,
}

pub open spec fn spec_sat_add_u64(a: u64, b: u64) -> u64 {
    if a + b > u64::MAX {
        u64::MAX
    } else {
        (a + b) as u64
    }
}

impl MonitoringState {
    pub fn new() -> (s: Self)
        ensures
            s == (MonitoringState {
                total_opportunities: 0,
                profitable_opportunities: 0,
                total_potential_profit_usd: 0,
                total_market_making_signals: 0,
                total_executions: 0,
                successful_executions: 0,
                dex_last_update_ms: None,
                cex_last_update_ms: None,
                last_known_cex_price: None,
                consecutive_cex_failures: 0,
            }),
    {
        MonitoringState {
            total_opportunities: 0,
            profitable_opportunities: 0,
            total_potential_profit_usd: 0,
            total_market_making_signals: 0,
            total_executions: 0,
            successful_executions: 0,
            dex_last_update_ms: None,
            cex_last_update_ms: None,
            last_known_cex_price: None,
            consecutive_cex_failures: 0,
        }
    }

    /// A fresh reference price arrived: remember it and clear the failure
    /// streak.
    pub fn note_cex_success(&mut self, price: u64, now_ms: u64)
        ensures
            *final(self) == (MonitoringState {
                cex_last_update_ms: Some(now_ms),
                last_known_cex_price: Some(price),
                consecutive_cex_failures: 0,
                ..*old(self)
            }),
    {
        self.cex_last_update_ms = Some(now_ms);
        self.last_known_cex_price = Some(price);
        self.consecutive_cex_failures = 0;
    }

    /// The reference-price fetch failed once more.
    pub fn note_cex_failure(&mut self)
        ensures
            *final(self) == (MonitoringState {
                consecutive_cex_failures: if old(self).consecutive_cex_failures == u32::MAX {
                    u32::MAX
                } else {
                    (old(self).consecutive_cex_failures + 1) as u32
                },
                ..*old(self)
            }),
    {
        if self.consecutive_cex_failures != u32::MAX {
            self.consecutive_cex_failures = self.consecutive_cex_failures + 1;
        }
    }

    /// A DEX price round completed.
    pub fn note_dex_update(&mut self, now_ms: u64)
        ensures
            *final(self) == (MonitoringState { dex_last_update_ms: Some(now_ms), ..*old(self) }),
    {
        self.dex_last_update_ms = Some(now_ms);
    }

    /// One opportunity was detected.
    pub fn record_opportunity(&mut self)
        ensures
            *final(self) == (MonitoringState {
                total_opportunities: spec_sat_add_u64(old(self).total_opportunities, 1),
                ..*old(self)
            }),
    {
        self.total_opportunities = sat_add(self.total_opportunities, 1);
    }

    /// One opportunity passed validation with enough profit.
    pub fn record_profitable_opportunity(&mut self, net_profit_usd: u64)
        ensures
            *final(self) == (MonitoringState {
                profitable_opportunities: spec_sat_add_u64(old(self).profitable_opportunities, 1),
                total_potential_profit_usd: spec_sat_add_u64(
                    old(self).total_potential_profit_usd,
                    net_profit_usd,
                ),
                ..*old(self)
            }),
    {
        self.profitable_opportunities = sat_add(self.profitable_opportunities, 1);
        self.total_potential_profit_usd = sat_add(self.total_potential_profit_usd, net_profit_usd);
    }

    /// One market-making signal was generated.
    pub fn record_signal(&mut self)
        ensures
            *final(self) == (MonitoringState {
                total_market_making_signals: spec_sat_add_u64(
                    old(self).total_market_making_signals,
                    1,
                ),
                ..*old(self)
            }),
    {
        self.total_market_making_signals = sat_add(self.total_market_making_signals, 1);
    }

    /// One execution was simulated or attempted.
    pub fn record_execution(&mut self, successful: bool)
        ensures
            *final(self) == (MonitoringState {
                total_executions: spec_sat_add_u64(old(self).total_executions, 1),
                successful_executions: if successful {
                    spec_sat_add_u64(old(self).successful_executions, 1)
                } else {
                    old(self).successful_executions
                },
                ..*old(self)
            }),
    {
        self.total_executions = sat_add(self.total_executions, 1);
        if successful {
            self.successful_executions = sat_add(self.successful_executions, 1);
        }
    }

    /// Statistics are printed every 50 opportunities, 25 signals or 10
    /// executions.
    pub fn should_print_statistics(&self) -> (r: bool)
        ensures
            r <==> ((self.total_opportunities > 0 && self.total_opportunities % 50 == 0) || (
            self.total_market_making_signals > 0 && self.total_market_making_signals % 25 == 0)
                || (self.total_executions > 0 && self.total_executions % 10 == 0)),
    {
        (self.total_opportunities > 0 && self.total_opportunities % 50 == 0) || (
        self.total_market_making_signals > 0 && self.total_market_making_signals % 25 == 0) || (
        self.total_executions > 0 && self.total_executions % 10 == 0)
    }
}

fn sat_add(a: u64, b: u64) -> (r: u64)
    ensures
        r == spec_sat_add_u64(a, b),
{
    if a > u64::MAX - b {
        u64::MAX
    } else {
        a + b
    }
}

/// Point-in-time health snapshot.
#[derive(Clone, Copy, PartialEq, Eq, Structural, Debug)]
pub struct HealthStatus {
    pub dex_connection: bool,
    pub cex_connection: bool,
    pub last_dex_update_ms: Option<u64>,
    pub last_cex_update_ms: Option<u64>,
    pub consecutive_errors: u32,
    pub circuit_breaker_active: bool,
    pub uptime_seconds: u64,
}

/// A feed is connected while its last update is fresher than the
/// staleness ceiling.
pub open spec fn spec_feed_fresh(last_ms: Option<u64>, now_ms: u64) -> bool {
    match last_ms {
        Some(t) => t <= now_ms && now_ms - t < PRICE_STALENESS_SECONDS * 1000,
        None => false,
    }
}

/// Builds the health snapshot from the feed timestamps and the breaker.
pub fn run_health_check(
    dex_last_update_ms: Option<u64>,
    cex_last_update_ms: Option<u64>,
    circuit_breaker: &CircuitBreaker,
    now_ms: u64,
    start_ms: u64,
) -> (h: HealthStatus)
    requires
        start_ms <= now_ms,
    ensures
        h.dex_connection == spec_feed_fresh(dex_last_update_ms, now_ms),
        h.cex_connection == spec_feed_fresh(cex_last_update_ms, now_ms),
        h.last_dex_update_ms == dex_last_update_ms,
        h.last_cex_update_ms == cex_last_update_ms,
        h.consecutive_errors == circuit_breaker.consecutive_errors,
        h.circuit_breaker_active == circuit_breaker.is_open,
        h.uptime_seconds == (now_ms - start_ms) / 1000,
{
    let dex_connection = match dex_last_update_ms {
        Some(t) => t <= now_ms && now_ms - t < PRICE_STALENESS_SECONDS * 1000,
        None => false,
    };
    let cex_connection = match cex_last_update_ms {
        Some(t) => t <= now_ms && now_ms - t < PRICE_STALENESS_SECONDS * 1000,
        None => false,
    };
    HealthStatus {
        dex_connection,
        cex_connection,
        last_dex_update_ms: dex_last_update_ms,
        last_cex_update_ms: cex_last_update_ms,
        consecutive_errors: circuit_breaker.error_count(),
        circuit_breaker_active: circuit_breaker.open_now(),
        uptime_seconds: (now_ms - start_ms) / 1000,
    }
}

/// What the loop does after a failed reference-price fetch, given the
/// dispatched recovery action.
#[derive(Clone, Debug)]
pub enum CexRecoveryOutcome {
    /// Sleep this long, then re-enter the tick.
    Wait { delay_ms: u64 },
    /// Continue the tick on the last known price.
    UseFallbackPrice { price: u64 },
    /// Too many failures: feed the circuit breaker and skip the tick.
    TripBreaker,
    /// Terminate the loop.
    Shutdown { reason: String },
    /// Nothing to do beyond reporting.
    Ignore,
}

/// Plans the response to a failed reference-price fetch: a retry waits
/// out its delay; a skip falls back to the last known price only while
/// the failure streak is three or shorter, else it trips the breaker; a
/// shutdown propagates; anything else is only reported.
pub fn plan_cex_recovery(
    action: RecoveryAction,
    last_known_cex_price: Option<u64>,
    consecutive_cex_failures: u32,
) -> (r: CexRecoveryOutcome)
    ensures
        action matches RecoveryAction::Retry { delay_ms } ==> r == (CexRecoveryOutcome::Wait {
            delay_ms,
        }),
        action is Skip ==> (match last_known_cex_price {
            Some(p) => if consecutive_cex_failures <= 3 {
                r == (CexRecoveryOutcome::UseFallbackPrice { price: p })
            } else {
                r is TripBreaker
            },
            None => r is TripBreaker,
        }),
        action matches RecoveryAction::Shutdown { reason } ==> (r matches
            CexRecoveryOutcome::Shutdown { reason: rr } && rr@ == reason@),
        action is Fallback || action is Escalate ==> r is Ignore,
{
    match action {
        RecoveryAction::Retry { delay_ms } => CexRecoveryOutcome::Wait { delay_ms },
        RecoveryAction::Skip { .. } => {
            match last_known_cex_price {
                Some(p) => {
                    if consecutive_cex_failures <= 3 {
                        CexRecoveryOutcome::UseFallbackPrice { price: p }
                    } else {
                        CexRecoveryOutcome::TripBreaker
                    }
                },
                None => CexRecoveryOutcome::TripBreaker,
            }
        },
        RecoveryAction::Shutdown { reason } => CexRecoveryOutcome::Shutdown { reason },
        RecoveryAction::Fallback { .. } => CexRecoveryOutcome::Ignore,
        RecoveryAction::Escalate => CexRecoveryOutcome::Ignore,
    }
}

/// How the loop responds to one pool's failure: insufficient liquidity is
/// routine, a contract error feeds the circuit breaker, anything else is
/// only logged; no pool failure ever aborts the remaining pools.
#[derive(Clone, Copy, PartialEq, Eq, Structural, Debug)]
pub enum PoolErrorDisposition {
    LogRoutine,
    RecordBreakerError,
    LogError,
}

pub fn plan_pool_error_response(error: &BotError) -> (r: PoolErrorDisposition)
    ensures
        error is InsufficientLiquidity ==> r == PoolErrorDisposition::LogRoutine,
        error is Contract ==> r == PoolErrorDisposition::RecordBreakerError,
        !(error is InsufficientLiquidity) && !(error is Contract) ==> r
            == PoolErrorDisposition::LogError,
{
    match error {
        BotError::InsufficientLiquidity { .. } => PoolErrorDisposition::LogRoutine,
        BotError::Contract { .. } => PoolErrorDisposition::RecordBreakerError,
        _ => PoolErrorDisposition::LogError,
    }
}

/// Whether the running error total has passed the health-warning
/// ceiling.
pub fn errors_exceed_ceiling(total_errors: u64) -> (r: bool)
    ensures
        r <==> total_errors > ERROR_TOTAL_CEILING,
{
    total_errors > ERROR_TOTAL_CEILING
}

/// No key occurs twice in a count table.
pub open spec fn error_keys_unique(s: Seq<(String, u32)>) -> bool {
    forall|i: int, j: int| 0 <= i < j < s.len() ==> (#[trigger] s[i]).0@ != (#[trigger] s[j]).0@
}

/// The count stored under `key`: the first matching entry, zero when none
/// matches.
pub open spec fn spec_key_count(s: Seq<(String, u32)>, key: Seq<char>) -> u32
    decreases s.len(),
{
    if s.len() == 0 {
        0
    } else if s[0].0@ == key {
        s[0].1
    } else {
        spec_key_count(s.drop_first(), key)
    }
}

/// Sum of every stored count.
pub open spec fn spec_total_counts(s: Seq<(String, u32)>) -> int
    decreases s.len(),
{
    if s.len() == 0 {
        0
    } else {
        spec_total_counts(s.drop_last()) + s.last().1
    }
}

proof fn lemma_count_found(s: Seq<(String, u32)>, i: int, key: Seq<char>)
    requires
        0 <= i < s.len(),
        s[i].0@ == key,
        forall|j: int| 0 <= j < i ==> (#[trigger] s[j]).0@ != key,
    ensures
        spec_key_count(s, key) == s[i].1,
    decreases i,
{
    if i > 0 {
        assert(s[0].0@ != key);
        let t = s.drop_first();
        assert forall|j: int| 0 <= j < i - 1 implies (#[trigger] t[j]).0@ != key by {
            assert(t[j] == s[j + 1]);
        }
        lemma_count_found(t, i - 1, key);
    }
}

proof fn lemma_count_absent(s: Seq<(String, u32)>, key: Seq<char>)
    requires
        forall|j: int| 0 <= j < s.len() ==> (#[trigger] s[j]).0@ != key,
    ensures
        spec_key_count(s, key) == 0,
    decreases s.len(),
{
    if s.len() > 0 {
        let t = s.drop_first();
        assert forall|j: int| 0 <= j < t.len() implies (#[trigger] t[j]).0@ != key by {
            assert(t[j] == s[j + 1]);
        }
        lemma_count_absent(t, key);
    }
}

proof fn lemma_count_update_other(s: Seq<(String, u32)>, i: int, e: (String, u32), k: Seq<char>)
    requires
        0 <= i < s.len(),
        e.0@ != k,
        s[i].0@ == e.0@,
    ensures
        spec_key_count(s.update(i, e), k) == spec_key_count(s, k),
    decreases i,
{
    let u = s.update(i, e);
    if i == 0 {
        assert(u[0].0@ != k && s[0].0@ != k);
        assert(u.drop_first() =~= s.drop_first());
    } else {
        assert(u[0] == s[0]);
        if s[0].0@ == k {
        } else {
            assert(u.drop_first() =~= s.drop_first().update(i - 1, e));
            lemma_count_update_other(s.drop_first(), i - 1, e, k);
        }
    }
}

proof fn lemma_count_push_other(s: Seq<(String, u32)>, e: (String, u32), k: Seq<char>)
    requires
        e.0@ != k,
    ensures
        spec_key_count(s.push(e), k) == spec_key_count(s, k),
    decreases s.len(),
{
    let u = s.push(e);
    assert(u.len() == s.len() + 1);
    if s.len() == 0 {
        assert(u[0] == e);
        assert(u[0].0@ != k);
        assert(u.drop_first() =~= Seq::<(String, u32)>::empty());
        assert(spec_key_count(u, k) == spec_key_count(u.drop_first(), k));
        assert(spec_key_count(u.drop_first(), k) == 0);
        assert(spec_key_count(s, k) == 0);
    } else {
        assert(u[0] == s[0]);
        if s[0].0@ == k {
            assert(spec_key_count(u, k) == u[0].1);
            assert(spec_key_count(s, k) == s[0].1);
        } else {
            assert(u.drop_first() =~= s.drop_first().push(e));
            lemma_count_push_other(s.drop_first(), e, k);
            assert(spec_key_count(u, k) == spec_key_count(u.drop_first(), k));
            assert(spec_key_count(s, k) == spec_key_count(s.drop_first(), k));
        }
    }
}

proof fn lemma_total_counts_take_step(s: Seq<(String, u32)>, i: int)
    requires
        0 <= i < s.len(),
    ensures
        spec_total_counts(s.take(i + 1)) == spec_total_counts(s.take(i)) + s[i].1,
{
    assert(s.take(i + 1).drop_last() =~= s.take(i));
    assert(s.take(i + 1).last() == s[i]);
}

/// Running error totals keyed by failure site ("cex_price", a pool's
/// name, a storage sink), as the loop accumulates them across ticks.
pub struct ErrorCountTable {
    entries: Vec<(String, u32)>,
}

impl ErrorCountTable {
    pub closed spec fn entries(&self) -> Seq<(String, u32)> {
        self.entries@
    }

    pub open spec fn wf(&self) -> bool {
        error_keys_unique(self.entries())
    }

    /// The count this table holds under `key`.
    pub open spec fn count_of(&self, key: Seq<char>) -> u32 {
        spec_key_count(self.entries(), key)
    }

    pub fn new() -> (t: Self)
        ensures
            t.wf(),
            t.entries().len() == 0,
    {
        ErrorCountTable { entries: Vec::new() }
    }

    /// Counts one more failure under `key`: that key's count rises by one
    /// (saturating) and every other key's count is unchanged.
    pub fn note_error(&mut self, key: &str)
        requires
            old(self).wf(),
        ensures
            final(self).wf(),
            final(self).count_of(key@) == crate::recovery::spec_bump(old(self).count_of(key@)),
            forall|k: Seq<char>|
                k != key@ ==> #[trigger] final(self).count_of(k) == old(self).count_of(k),
    {
        let n = self.entries.len();
        let mut i: usize = 0;
        while i < n
            invariant
                n == self.entries@.len(),
                i <= n,
                error_keys_unique(self.entries@),
                self.entries@ == old(self).entries(),
                forall|j: int| 0 <= j < i ==> (#[trigger] self.entries@[j]).0@ != key@,
            decreases n - i,
        {
            if str_eq(self.entries[i].0.as_str(), key) {
                let ghost pre = self.entries@;
                let ghost hit: int = i as int;
                let bumped: u32 = if self.entries[i].1 == u32::MAX {
                    u32::MAX
                } else {
                    self.entries[i].1 + 1
                };
                let name = self.entries[i].0.clone();
                self.entries.set(i, (name, bumped));
                proof {
                    assert(self.entries@[hit].0@ == pre[hit].0@);
                    assert(self.entries@ =~= pre.update(
                        hit,
                        (self.entries@[hit].0, self.entries@[hit].1),
                    ));
                    let ghost stored = self.entries@[hit];
                    assert forall|a: int, b: int|
                        0 <= a < b < self.entries@.len() implies (
                    #[trigger] self.entries@[a]).0@ != (#[trigger] self.entries@[b]).0@ by {
                        assert(pre[a].0@ != pre[b].0@);
                    }
                    lemma_count_found(pre, hit, key@);
                    lemma_count_found(self.entries@, hit, key@);
                    assert forall|k: Seq<char>| k != key@ implies #[trigger] spec_key_count(
                        self.entries@,
                        k,
                    ) == spec_key_count(pre, k) by {
                        lemma_count_update_other(pre, hit, stored, k);
                    }
                }
                return ;
            }
            i = i + 1;
        }
        let ghost pre = self.entries@;
        let one: u32 = 1;
        self.entries.push((key.to_owned(), one));
        proof {
            let ghost stored = self.entries@[pre.len() as int];
            assert(stored.0@ == key@ && stored.1 == 1);
            assert(self.entries@ =~= pre.push(stored));
            assert forall|a: int, b: int|
                0 <= a < b < self.entries@.len() implies (#[trigger] self.entries@[a]).0@ != (
            #[trigger] self.entries@[b]).0@ by {
                if b < pre.len() {
                    assert(pre[a].0@ != pre[b].0@);
                } else {
                    assert(self.entries@[b] == stored);
                    assert(pre[a].0@ != key@);
                }
            }
            lemma_count_absent(pre, key@);
            lemma_count_found(self.entries@, pre.len() as int, key@);
            assert forall|k: Seq<char>| k != key@ implies #[trigger] spec_key_count(
                self.entries@,
                k,
            ) == spec_key_count(pre, k) by {
                lemma_count_push_other(pre, stored, k);
            }
        }
    }

    /// The count recorded under `key`.
    pub fn count_for(&self, key: &str) -> (c: u32)
        requires
            self.wf(),
        ensures
            c == self.count_of(key@),
    {
        let n = self.entries.len();
        let mut i: usize = 0;
        while i < n
            invariant
                n == self.entries@.len(),
                i <= n,
                self.wf(),
                forall|j: int| 0 <= j < i ==> (#[trigger] self.entries@[j]).0@ != key@,
            decreases n - i,
        {
            if str_eq(self.entries[i].0.as_str(), key) {
                proof {
                    lemma_count_found(self.entries@, i as int, key@);
                }
                return self.entries[i].1;
            }
            i = i + 1;
        }
        proof {
            lemma_count_absent(self.entries@, key@);
        }
        0
    }

    /// Sum of every count, saturating at the integer ceiling.
    pub fn total(&self) -> (t: u64)
        ensures
            t as int == if spec_total_counts(self.entries()) > u64::MAX {
                u64::MAX as int
            } else {
                spec_total_counts(self.entries())
            },
    {
        let n = self.entries.len();
        let mut acc: u64 = 0;
        let mut i: usize = 0;
        while i < n
            invariant
                n == self.entries@.len(),
                i <= n,
                acc as int == if spec_total_counts(self.entries@.take(i as int)) > u64::MAX {
                    u64::MAX as int
                } else {
                    spec_total_counts(self.entries@.take(i as int))
                },
            decreases n - i,
        {
            proof {
                lemma_total_counts_take_step(self.entries@, i as int);
            }
            let v = self.entries[i].1 as u64;
            acc = if acc > u64::MAX - v {
                u64::MAX
            } else {
                acc + v
            };
            i = i + 1;
        }
        proof {
            assert(self.entries@.take(n as int) =~= self.entries@);
        }
        acc
    }
}

fn str_eq(a: &str, b: &str) -> (r: bool)
    ensures
        r <==> a@ == b@,
{
    let a_string = a.to_owned();
    let b_string = b.to_owned();
    a_string.eq(&b_string)
}

} // verus!
