//! Fixed-point arithmetic in micro-units.
//!
//! A fixed-point value stores `x * 1_000_000` as an integer, so `1.5` is
//! `1_500_000` micros. Scaling steps multiply by a factor and divide by a
//! scale in one 128-bit operation, truncating toward zero.

use vstd::prelude::*;

verus! {

/// Multiplies then divides in 128-bit arithmetic; the one multiply-divide
/// primitive the strategy arithmetic is built on.
pub fn mul_div_u64(a: u64, b: u64, d: u64) -> (r: u64)
    requires
        d > 0,
        (a as int) * (b as int) / (d as int) <= u64::MAX,
    ensures
        r == (a as int) * (b as int) / (d as int),
{
    proof {
        assert((a as int) * (b as int) <= (u64::MAX as int) * (u64::MAX as int))
            by (nonlinear_arith)
            requires a <= u64::MAX, b <= u64::MAX;
        assert((a as int) * (b as int) >= 0) by (nonlinear_arith)
            requires a >= 0, b >= 0;
    }
    ((a as u128) * (b as u128) / (d as u128)) as u64
}

} // verus!
