//! Integer square root and bounds on sums, used by the volatility tracker.

use vstd::prelude::*;
use vstd::arithmetic::div_mod::lemma_div_is_ordered;
use vstd::arithmetic::mul::{lemma_mul_inequality, lemma_mul_upper_bound, lemma_mul_nonnegative};

verus! {

/// `r` is the integer square root of `v`: the largest integer whose square
/// does not exceed `v`.
pub open spec fn is_sqrt(r: int, v: int) -> bool {
    r * r <= v < (r + 1) * (r + 1)
}

/// Integer square root by binary search.
pub fn isqrt(v: u128) -> (r: u128)
    ensures
        is_sqrt(r as int, v as int),
{
    let mut lo: u128 = 0;
    let mut hi: u128 = 0x1_0000_0000_0000_0000;
    while lo + 1 < hi
        invariant
            lo < hi <= 0x1_0000_0000_0000_0000,
            lo * lo <= v,
            hi * hi > v,
        decreases hi - lo,
    {
        let mid: u128 = lo + (hi - lo) / 2;
        proof {
            assert(lo < mid < hi);
        }
        if mid <= v / mid {
            proof {
                // mid <= v / mid implies mid * mid <= v.
                assert(mid * mid <= (v / mid) * mid) by (nonlinear_arith)
                    requires mid <= v / mid, 0 < mid;
                assert((v / mid) * mid <= v) by (nonlinear_arith)
                    requires 0 < mid;
            }
            lo = mid;
        } else {
            proof {
                // v / mid < mid implies v < mid * mid.
                assert(v < mid * mid) by (nonlinear_arith)
                    requires (v as int) / (mid as int) < mid as int, 0 < mid;
            }
            hi = mid;
        }
    }
    lo
}

/// The integer square root as a spec-level value; pinned to the `isqrt`
/// result by `lemma_sqrt_unique`.
pub open spec fn spec_sqrt(v: int) -> int {
    choose|r: int| 0 <= r && is_sqrt(r, v)
}

/// The integer square root is unique, so `spec_sqrt` names the one value
/// that `is_sqrt` admits.
pub proof fn lemma_sqrt_unique(r: int, v: int)
    requires
        0 <= r,
        is_sqrt(r, v),
    ensures
        spec_sqrt(v) == r,
{
    assert(exists|x: int| 0 <= x && is_sqrt(x, v)) by {
        assert(0 <= r && is_sqrt(r, v));
    }
    let c = spec_sqrt(v);
    assert(0 <= c && is_sqrt(c, v));
    if c < r {
        lemma_square_is_ordered(c + 1, r);
        assert(false);
    }
    if r < c {
        lemma_square_is_ordered(r + 1, c);
        assert(false);
    }
}

/// Squares do not cross: if `a <= b` then `a * a <= b * b`.
pub proof fn lemma_square_is_ordered(a: int, b: int)
    requires
        0 <= a <= b,
    ensures
        a * a <= b * b,
{
    lemma_mul_inequality(a, b, a);
    lemma_mul_inequality(a, b, b);
}

/// The integer square root of a value below `c * c` is below `c`.
pub proof fn lemma_sqrt_bound(r: int, v: int, c: int)
    requires
        is_sqrt(r, v),
        0 <= v,
        0 < c,
        v <= c * c,
    ensures
        0 <= r <= c,
{
    if r > c {
        lemma_square_is_ordered(c + 1, r);
        assert(c * c < (c + 1) * (c + 1)) by (nonlinear_arith)
            requires 0 < c;
        assert(false);
    }
    if r < 0 {
        assert(r * r <= v < (r + 1) * (r + 1));
        assert(false) by (nonlinear_arith)
            requires r < 0, r * r <= v, v < (r + 1) * (r + 1);
    }
}

/// Bounded factors give a bounded quotient: `a * b / d` grows with its
/// factors.
pub proof fn lemma_mul_div_le(a: int, amax: int, b: int, bmax: int, d: int)
    requires
        0 <= a <= amax,
        0 <= b <= bmax,
        0 < d,
    ensures
        0 <= a * b / d <= amax * bmax / d,
{
    lemma_mul_upper_bound(a, amax, b, bmax);
    lemma_mul_nonnegative(a, b);
    lemma_div_is_ordered(0, a * b, d);
    lemma_div_is_ordered(a * b, amax * bmax, d);
}

/// A quotient of values in `[lo * d, hi * d]` by `d` lies in `[lo, hi]`.
pub proof fn lemma_div_range(x: int, d: int, lo: int, hi: int)
    requires
        0 < d,
        lo * d <= x <= hi * d,
    ensures
        lo <= x / d <= hi,
{
    lemma_div_is_ordered(lo * d, x, d);
    lemma_div_is_ordered(x, hi * d, d);
    assert((lo * d) / d == lo) by (nonlinear_arith)
        requires 0 < d;
    assert((hi * d) / d == hi) by (nonlinear_arith)
        requires 0 < d;
}

} // verus!
