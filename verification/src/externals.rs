//! Trusted boundary to the outside crates: wall-clock time, fresh
//! identifiers and randomness. Everything else in the crate is verified
//! against the contracts stated here.

use vstd::prelude::*;

verus! {

/// Relies on chrono::Utc::now and DateTime::timestamp_millis: the current
/// wall-clock time as milliseconds since the Unix epoch. Nothing is assumed
/// of the value.
#[verifier::external_body]
fn now_unix_millis() -> (t: i64) {
    chrono::Utc::now().timestamp_millis()
}

/// Current wall-clock time in milliseconds, clamped to zero for clocks set
/// before the Unix epoch.
pub fn current_time_ms() -> (t: u64) {
    let raw: i64 = now_unix_millis();
    if raw < 0 {
        0
    } else {
        raw as u64
    }
}

/// Relies on uuid::Uuid::new_v4 and its hyphenated `Display` form: a fresh
/// random identifier of 36 ASCII characters.
#[verifier::external_body]
pub(crate) fn fresh_id() -> (id: String)
    ensures
        id@.len() == 36,
{
    uuid::Uuid::new_v4().to_string()
}

/// Relies on uuid::Uuid::new_v4 in its simple (hyphen-free) form: "0x"
/// followed by 32 hex digits, standing in for a transaction hash in
/// simulated executions.
#[verifier::external_body]
pub(crate) fn fresh_simulated_tx_hash() -> (h: String)
    ensures
        h@.len() == 34,
{
    format!("0x{}", uuid::Uuid::new_v4().simple())
}

/// Relies on rand::random: an arbitrary value of the requested type.
pub assume_specification<T>[ rand::random::<T> ]() -> (r: T)
    where
        rand::distributions::Standard: rand::distributions::Distribution<T>,
;

/// A uniform-ish draw from `[0, 1_000_000)`, read as a fraction of one in
/// micro-units. Nothing is assumed of its distribution.
pub fn random_fraction_micros() -> (r: u64)
    ensures
        r < 1_000_000,
{
    let x: u64 = rand::random::<u64>();
    x % 1_000_000
}

} // verus!
