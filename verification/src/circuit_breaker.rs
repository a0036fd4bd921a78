//! Process-wide failure gate with a cooldown.
//!
//! Consecutive errors open the breaker once they reach the configured
//! threshold; the next `can_proceed` after the cooldown elapses closes it
//! again and resets the counter.

use vstd::prelude::*;

verus! {

/// Circuit breaker state. Mutated only through `record_success`,
/// `record_error` and `can_proceed`.
#[derive(Clone, Copy, PartialEq, Eq, Structural, Debug)]
pub struct CircuitBreaker {
    pub consecutive_errors: u32,
    pub is_open: bool,
    pub last_error_time_ms: Option<u64>,
    pub cooldown_ms: u64,
    pub max_consecutive_errors: u32,
}

/// State after a success: counter cleared, breaker closed.
pub open spec fn spec_record_success(b: CircuitBreaker) -> CircuitBreaker {
    CircuitBreaker { consecutive_errors: 0, is_open: false, ..b }
}

/// State after one error at `now_ms`, and whether the breaker just opened:
/// the counter rises (saturating), and reaching the threshold opens the
/// breaker and stamps the time.
pub open spec fn spec_record_error(b: CircuitBreaker, now_ms: u64) -> (CircuitBreaker, bool) {
    let bumped: u32 = if b.consecutive_errors == u32::MAX {
        u32::MAX
    } else {
        (b.consecutive_errors + 1) as u32
    };
    if bumped >= b.max_consecutive_errors {
        (
            CircuitBreaker {
                consecutive_errors: bumped,
                is_open: true,
                last_error_time_ms: Some(now_ms),
                ..b
            },
            true,
        )
    } else {
        (CircuitBreaker { consecutive_errors: bumped, ..b }, false)
    }
}

/// State after a gate check at `now_ms`, and whether the caller may
/// proceed: a closed breaker always passes; an open one passes, closes and
/// clears the counter once the cooldown has elapsed since the stamp.
pub open spec fn spec_can_proceed(b: CircuitBreaker, now_ms: u64) -> (CircuitBreaker, bool) {
    if !b.is_open {
        (b, true)
    } else {
        match b.last_error_time_ms {
            Some(t) => {
                if now_ms > t + b.cooldown_ms {
                    (CircuitBreaker { consecutive_errors: 0, is_open: false, ..b }, true)
                } else {
                    (b, false)
                }
            },
            None => (b, false),
        }
    }
}

/// `k` consecutive errors at `now_ms`, folded over `spec_record_error`.
pub open spec fn spec_after_errors(b: CircuitBreaker, now_ms: u64, k: nat) -> CircuitBreaker
    decreases k,
{
    if k == 0 {
        b
    } else {
        spec_record_error(spec_after_errors(b, now_ms, (k - 1) as nat), now_ms).0
    }
}

impl CircuitBreaker {
    pub fn new(cooldown_secs: u64, max_consecutive_errors: u32) -> (b: Self)
        requires
            cooldown_secs <= 0xffff_ffff,
            max_consecutive_errors >= 1,
        ensures
            b.consecutive_errors == 0,
            !b.is_open,
            b.last_error_time_ms is None,
            b.cooldown_ms == cooldown_secs * 1000,
            b.max_consecutive_errors == max_consecutive_errors,
    {
        CircuitBreaker {
            consecutive_errors: 0,
            is_open: false,
            last_error_time_ms: None,
            cooldown_ms: cooldown_secs * 1000,
            max_consecutive_errors,
        }
    }

    /// Clears the counter and closes the breaker.
    pub fn record_success(&mut self)
        ensures
            *final(self) == spec_record_success(*old(self)),
    {
        self.consecutive_errors = 0;
        self.is_open = false;
    }

    /// Records one error stamped `now_ms`; returns whether the breaker
    /// just opened.
    pub fn record_error_at(&mut self, now_ms: u64) -> (opened: bool)
        ensures
            (*final(self), opened) == spec_record_error(*old(self), now_ms),
    {
        self.consecutive_errors = if self.consecutive_errors == u32::MAX {
            u32::MAX
        } else {
            self.consecutive_errors + 1
        };
        if self.consecutive_errors >= self.max_consecutive_errors {
            self.is_open = true;
            self.last_error_time_ms = Some(now_ms);
            true
        } else {
            false
        }
    }

    /// Records one error stamped with the wall clock.
    pub fn record_error(&mut self) -> (opened: bool)
        ensures
            exists|now: u64| (*final(self), opened) == spec_record_error(*old(self), now),
    {
        let now_ms = crate::externals::current_time_ms();
        self.record_error_at(now_ms)
    }

    /// Gate check at `now_ms`; an open breaker auto-resets once the
    /// cooldown has elapsed.
    pub fn can_proceed_at(&mut self, now_ms: u64) -> (go: bool)
        ensures
            (*final(self), go) == spec_can_proceed(*old(self), now_ms),
    {
        if !self.is_open {
            return true;
        }
        match self.last_error_time_ms {
            Some(t) => {
                if now_ms > t && now_ms - t > self.cooldown_ms {
                    self.is_open = false;
                    self.consecutive_errors = 0;
                    true
                } else {
                    false
                }
            },
            None => false,
        }
    }

    /// Gate check stamped with the wall clock.
    pub fn can_proceed(&mut self) -> (go: bool)
        ensures
            exists|now: u64| (*final(self), go) == spec_can_proceed(*old(self), now),
    {
        let now_ms = crate::externals::current_time_ms();
        self.can_proceed_at(now_ms)
    }

    /// Snapshot of the error counter, for health reporting.
    pub fn error_count(&self) -> (c: u32)
        ensures
            c == self.consecutive_errors,
    {
        self.consecutive_errors
    }

    /// Snapshot of the open flag, for health reporting.
    pub fn open_now(&self) -> (o: bool)
        ensures
            o == self.is_open,
    {
        self.is_open
    }
}

/// Folding `k < threshold` errors onto a cleared, closed breaker leaves it
/// closed with the counter at `k`; the threshold'th error opens it.
proof fn lemma_errors_accumulate(b: CircuitBreaker, now_ms: u64, k: nat)
    requires
        b.consecutive_errors == 0,
        !b.is_open,
        1 <= b.max_consecutive_errors,
        k <= b.max_consecutive_errors,
    ensures
        spec_after_errors(b, now_ms, k).consecutive_errors == k,
        spec_after_errors(b, now_ms, k).cooldown_ms == b.cooldown_ms,
        spec_after_errors(b, now_ms, k).max_consecutive_errors == b.max_consecutive_errors,
        k < b.max_consecutive_errors ==> !spec_after_errors(b, now_ms, k).is_open,
        k == b.max_consecutive_errors ==> spec_after_errors(b, now_ms, k).is_open
            && spec_after_errors(b, now_ms, k).last_error_time_ms == Some(now_ms),
    decreases k,
{
    if k > 0 {
        lemma_errors_accumulate(b, now_ms, (k - 1) as nat);
    }
}

/// The circuit-breaker law: starting from a cleared, closed breaker,
/// exactly the configured number of consecutive errors opens the breaker
/// for the whole cooldown, and the first query after the cooldown
/// elapses goes through and clears the counter.
pub proof fn lemma_circuit_breaker_gate(
    b: CircuitBreaker,
    now_ms: u64,
    during_ms: u64,
    after_ms: u64,
)
    requires
        b.consecutive_errors == 0,
        !b.is_open,
        1 <= b.max_consecutive_errors,
        during_ms <= now_ms + b.cooldown_ms,
        after_ms > now_ms + b.cooldown_ms,
    ensures
        ({
            let tripped = spec_after_errors(b, now_ms, b.max_consecutive_errors as nat);
            &&& tripped.is_open
            &&& spec_can_proceed(tripped, during_ms).1 == false
            &&& spec_can_proceed(tripped, during_ms).0 == tripped
            &&& spec_can_proceed(tripped, after_ms).1 == true
            &&& spec_can_proceed(tripped, after_ms).0.consecutive_errors == 0
            &&& !spec_can_proceed(tripped, after_ms).0.is_open
        }),
{
    lemma_errors_accumulate(b, now_ms, b.max_consecutive_errors as nat);
}

} // verus!
