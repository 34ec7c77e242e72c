//! Integer square roots, used by the circular masker to turn a squared
//! distance into a radius.

use vstd::prelude::*;

verus! {

/// `r` is the integer square root of `n`: the largest integer whose square
/// does not exceed `n`.
pub open spec fn is_isqrt(n: int, r: int) -> bool {
    &&& 0 <= r
    &&& r * r <= n
    &&& n < (r + 1) * (r + 1)
}

/// The integer square root of `n` (meaningful for `n >= 0`).
pub open spec fn isqrt_spec(n: int) -> int {
    choose|r: int| #[trigger] is_isqrt(n, r)
}

/// The integer square root is unique.
pub proof fn lemma_isqrt_unique(n: int, a: int, b: int)
    requires
        is_isqrt(n, a),
        is_isqrt(n, b),
    ensures
        a == b,
{
    if a < b {
        assert((a + 1) * (a + 1) <= b * b) by (nonlinear_arith)
            requires
                0 <= a,
                a < b,
        {
        }
    }
    if b < a {
        assert((b + 1) * (b + 1) <= a * a) by (nonlinear_arith)
            requires
                0 <= b,
                b < a,
        {
        }
    }
}

/// Any witness of `is_isqrt` is the `isqrt_spec` value.
pub proof fn lemma_isqrt_is(n: int, r: int)
    requires
        is_isqrt(n, r),
    ensures
        isqrt_spec(n) == r,
{
    lemma_isqrt_unique(n, choose|q: int| #[trigger] is_isqrt(n, q), r);
}

/// Compute the integer square root by binary search.
pub fn isqrt(n: u128) -> (r: u64)
    requires
        n < (1u128 << 126),
    ensures
        is_isqrt(n as int, r as int),
        r as int == isqrt_spec(n as int),
{
    let mut lo: u128 = 0;
    let mut hi: u128 = 1u128 << 63;
    assert((1u128 << 63) * (1u128 << 63) == 1u128 << 126) by (bit_vector);
    assert((1u128 << 63) < (1u128 << 64)) by (bit_vector);
    while hi - lo > 1
        invariant
            0 <= lo < hi,
            hi <= 1u128 << 63,
            (1u128 << 63) < (1u128 << 64),
            lo * lo <= n,
            n < hi * hi,
        decreases hi - lo,
    {
        let mid: u128 = lo + (hi - lo) / 2;
        assert(lo < mid < hi);
        assert(mid * mid < (1u128 << 63) * (1u128 << 63)) by (nonlinear_arith)
            requires
                0 <= mid < (1u128 << 63),
        {
        }
        assert((1u128 << 63) * (1u128 << 63) == 1u128 << 126) by (bit_vector);
        if mid * mid <= n {
            lo = mid;
        } else {
            hi = mid;
        }
    }
    proof {
        assert(hi == lo + 1);
        assert((1u128 << 63) == 0x8000_0000_0000_0000u128) by (bit_vector);
        assert(lo <= 0xFFFF_FFFF_FFFF_FFFFu128);
        lemma_isqrt_is(n as int, lo as int);
    }
    lo as u64
}

} // verus!
