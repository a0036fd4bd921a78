//! Retry with exponential backoff, as a verified decision schedule.
//!
//! The caller runs the operation and reports each failure; the schedule
//! answers with either a jittered delay to sleep before the next attempt
//! or the order to give up, and the delay grows geometrically up to the
//! configured ceiling.

use vstd::prelude::*;
use vstd::string::StringExecFns;
use crate::errors::BotError;
use crate::text::{spec_digits, u64_to_string};

verus! {

/// Backoff configuration. The exponential base is per-mille, so 2000
/// doubles the delay on every failure.
#[derive(Clone, Copy, PartialEq, Eq, Structural, Debug)]
pub struct RetryConfig {
    pub max_attempts: u32,
    pub initial_delay_ms: u64,
    pub max_delay_ms: u64,
    pub exponential_base_milli: u32,
}

impl RetryConfig {
    /// At least one attempt, a growing base, and delays that keep the
    /// backoff arithmetic inside `u128`.
    pub open spec fn wf(&self) -> bool {
        &&& self.max_attempts >= 1
        &&& 0 < self.initial_delay_ms <= self.max_delay_ms
        &&& self.max_delay_ms <= 1_000_000_000_000
        &&& self.exponential_base_milli >= 1000
    }
}

impl Default for RetryConfig {
    /// Three attempts, 100 ms initial delay, 5 s ceiling, doubling.
    fn default() -> (c: Self)
        ensures
            c == (RetryConfig {
                max_attempts: 3,
                initial_delay_ms: 100,
                max_delay_ms: 5000,
                exponential_base_milli: 2000,
            }),
            c.wf(),
    {
        RetryConfig {
            max_attempts: 3,
            initial_delay_ms: 100,
            max_delay_ms: 5000,
            exponential_base_milli: 2000,
        }
    }
}

/// The delay after one more failure: grown by the base, capped at the
/// ceiling.
pub open spec fn spec_next_delay(delay: int, base_milli: int, cap: int) -> int {
    if delay * base_milli / 1000 >= cap {
        cap
    } else {
        delay * base_milli / 1000
    }
}

/// The un-jittered delay before attempt `k + 2`; attempt 1 follows no
/// delay and attempt 2 follows the initial delay.
pub open spec fn spec_delay_seq(c: RetryConfig, k: nat) -> int
    decreases k,
{
    if k == 0 {
        c.initial_delay_ms as int
    } else {
        spec_next_delay(
            spec_delay_seq(c, (k - 1) as nat),
            c.exponential_base_milli as int,
            c.max_delay_ms as int,
        )
    }
}

/// The backoff law: the delay sequence never leaves
/// `[initial_delay, max_delay]`, never decreases, and once it reaches the
/// ceiling it stays there.
pub proof fn lemma_backoff_monotone(c: RetryConfig, k: nat)
    requires
        c.wf(),
    ensures
        c.initial_delay_ms <= spec_delay_seq(c, k) <= c.max_delay_ms,
        spec_delay_seq(c, k) <= spec_delay_seq(c, k + 1),
        spec_delay_seq(c, k) == c.max_delay_ms ==> spec_delay_seq(c, k + 1) == c.max_delay_ms,
    decreases k,
{
    if k > 0 {
        lemma_backoff_monotone(c, (k - 1) as nat);
    }
    let d = spec_delay_seq(c, k);
    assert(d * (c.exponential_base_milli as int) / 1000 >= d) by (nonlinear_arith)
        requires d >= 0, c.exponential_base_milli >= 1000;
}

/// Answer to one reported failure.
#[derive(Clone, Copy, PartialEq, Eq, Structural, Debug)]
pub enum RetryDecision {
    /// Sleep this long, then try again.
    RetryAfter { delay_ms: u64 },
    /// The attempt budget is spent; `retry_count` attempts were made.
    GiveUp { retry_count: u32 },
}

/// Live state of one retried operation: how many attempts have failed and
/// the un-jittered delay the next wait will be drawn around.
pub struct RetrySchedule {
    pub config: RetryConfig,
    pub attempt: u32,
    pub delay_ms: u64,
}

impl RetrySchedule {
    /// The delay always equals the delay sequence at the current attempt.
    pub open spec fn wf(&self) -> bool {
        &&& self.config.wf()
        &&& self.delay_ms == spec_delay_seq(self.config, self.attempt as nat)
    }

    pub fn new(config: RetryConfig) -> (s: Self)
        requires
            config.wf(),
        ensures
            s.wf(),
            s.config == config,
            s.attempt == 0,
            s.delay_ms == config.initial_delay_ms,
    {
        RetrySchedule { config, attempt: 0, delay_ms: config.initial_delay_ms }
    }

    /// Reports one failed attempt. While the budget lasts the answer is a
    /// delay within five percent of the un-jittered backoff delay; at the
    /// budget the answer is to give up, reporting exactly
    /// `max_attempts` attempts.
    pub fn on_failure(&mut self) -> (d: RetryDecision)
        requires
            old(self).wf(),
            old(self).attempt < old(self).config.max_attempts,
        ensures
            final(self).config == old(self).config,
            final(self).attempt == old(self).attempt + 1,
            final(self).attempt == old(self).config.max_attempts ==> d == (
            RetryDecision::GiveUp { retry_count: old(self).config.max_attempts }),
            final(self).attempt < old(self).config.max_attempts ==> {
                &&& final(self).wf()
                &&& d matches RetryDecision::RetryAfter { delay_ms } && old(self).delay_ms - old(
                    self,
                ).delay_ms / 20 <= delay_ms <= old(self).delay_ms + old(self).delay_ms / 20
            },
    {
        proof {
            lemma_backoff_monotone(old(self).config, old(self).attempt as nat);
        }
        self.attempt = self.attempt + 1;
        if self.attempt >= self.config.max_attempts {
            return RetryDecision::GiveUp { retry_count: self.config.max_attempts };
        }
        let span: u64 = self.delay_ms / 20;
        let draw: u64 = crate::externals::random_fraction_micros();
        proof {
            assert((2 * span as int) * (draw as int) <= 200_000_000_000 * 1_000_000int)
                by (nonlinear_arith)
                requires span <= 100_000_000_000, draw < 1_000_000;
        }
        let offset: u64 = (((2 * span) as u128 * draw as u128) / 1_000_000) as u64;
        proof {
            assert((2 * span) as u128 * (draw as u128) / 1_000_000 <= 2 * span) by (nonlinear_arith)
                requires draw < 1_000_000, span >= 0;
        }
        let jittered: u64 = self.delay_ms - span + offset;
        proof {
            assert((self.delay_ms as int) * (self.config.exponential_base_milli as int)
                <= 1_000_000_000_000 * 0xffff_ffffint) by (nonlinear_arith)
                requires
                    self.delay_ms <= 1_000_000_000_000,
                    self.config.exponential_base_milli <= 0xffff_ffff,
            ;
        }
        let grown: u128 = (self.delay_ms as u128) * (self.config.exponential_base_milli as u128)
            / 1000;
        self.delay_ms = if grown >= self.config.max_delay_ms as u128 {
            self.config.max_delay_ms
        } else {
            grown as u64
        };
        proof {
            lemma_backoff_monotone(self.config, (self.attempt - 1) as nat);
        }
        RetryDecision::RetryAfter { delay_ms: jittered }
    }
}

/// The terminal error after a spent retry budget: a network error naming
/// the operation and carrying both the attempt count and the last
/// underlying cause.
pub fn retry_exhausted_error(context: &str, attempts: u32, cause: &str) -> (e: BotError)
    ensures
        e matches BotError::Network { message, retry_count } && retry_count == attempts
            && message@ == context@ + " failed after "@ + spec_digits(attempts as int)
            + " attempts: "@ + cause@,
{
    let mut message = context.to_owned();
    message.append(" failed after ");
    let n = u64_to_string(attempts as u64);
    message.append(n.as_str());
    message.append(" attempts: ");
    message.append(cause);
    BotError::Network { message, retry_count: attempts }
}

} // verus!
