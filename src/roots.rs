//! Integer square root.
use vstd::prelude::*;

verus! {

/// Largest `r` with `r * r <= n`.
pub open spec fn isqrt(n: nat) -> nat
    decreases n,
{
    if n == 0 {
        0
    } else {
        let r = isqrt((n - 1) as nat);
        if (r + 1) * (r + 1) <= n {
            r + 1
        } else {
            r
        }
    }
}

proof fn lemma_square_mono(x: int, y: int)
    requires
        0 <= x <= y,
    ensures
        x * x <= y * y,
{
    assert(x * x <= y * y) by (nonlinear_arith)
        requires 0 <= x <= y;
}

/// `isqrt(n)` is the floor of the square root of `n`.
pub proof fn lemma_isqrt_bounds(n: nat)
    ensures
        isqrt(n) * isqrt(n) <= n,
        n < (isqrt(n) + 1) * (isqrt(n) + 1),
    decreases n,
{
    if n > 0 {
        lemma_isqrt_bounds((n - 1) as nat);
        let r = isqrt((n - 1) as nat);
        assert((r + 1) * (r + 1) + 1 <= (r + 2) * (r + 2)) by (nonlinear_arith)
            requires r >= 0;
        let q = isqrt(n);
        if (r + 1) * (r + 1) <= n {
            assert(q == r + 1);
            assert(q * q <= n && n < (q + 1) * (q + 1)) by (nonlinear_arith)
                requires
                    q == r + 1,
                    (r + 1) * (r + 1) <= n,
                    n - 1 < (r + 1) * (r + 1),
                    (r + 1) * (r + 1) + 1 <= (r + 2) * (r + 2);
        } else {
            assert(q == r);
            assert(q * q <= n && n < (q + 1) * (q + 1)) by (nonlinear_arith)
                requires
                    q == r,
                    r * r <= n - 1,
                    n < (r + 1) * (r + 1);
        }
    } else {
        assert(isqrt(n) == 0);
        assert(n < (isqrt(n) + 1) * (isqrt(n) + 1)) by (nonlinear_arith)
            requires isqrt(n) == 0, n == 0;
    }
}

/// The floor square root is the only `r` with `r * r <= n < (r + 1) * (r + 1)`.
pub proof fn lemma_isqrt_unique(n: nat, r: nat)
    requires
        r * r <= n,
        n < (r + 1) * (r + 1),
    ensures
        isqrt(n) == r,
{
    lemma_isqrt_bounds(n);
    let q = isqrt(n);
    if q < r {
        lemma_square_mono(q + 1 as int, r as int);
    } else if r < q {
        lemma_square_mono(r + 1 as int, q as int);
    }
}

/// `isqrt` is bounded by any `b` whose square is at least `n`.
pub proof fn lemma_isqrt_le(n: nat, b: nat)
    requires
        n <= b * b,
    ensures
        isqrt(n) <= b,
{
    lemma_isqrt_bounds(n);
    if isqrt(n) > b {
        lemma_square_mono(b + 1 as int, isqrt(n) as int);
        assert(b * b < (b + 1) * (b + 1)) by (nonlinear_arith)
            requires b >= 0;
    }
}

/// Floor square root of `n`, by bisection.
pub fn isqrt_u128(n: u128) -> (r: u128)
    requires
        n < 0x4000_0000_0000_0000_0000_0000_0000_0000,
    ensures
        r == isqrt(n as nat),
{
    let mut lo: u128 = 0;
    let mut hi: u128 = 0x8000_0000_0000_0000;
    assert(hi * hi == 0x4000_0000_0000_0000_0000_0000_0000_0000) by (nonlinear_arith)
        requires hi == 0x8000_0000_0000_0000u128;
    while hi - lo > 1
        invariant
            lo < hi <= 0x8000_0000_0000_0000,
            lo * lo <= n,
            n < hi * hi,
        decreases hi - lo,
    {
        let mid = lo + (hi - lo) / 2;
        assert(mid * mid < 0x4000_0000_0000_0000_0000_0000_0000_0000) by (nonlinear_arith)
            requires mid < 0x8000_0000_0000_0000u128;
        if mid * mid <= n {
            lo = mid;
        } else {
            hi = mid;
        }
    }
    proof {
        lemma_isqrt_unique(n as nat, lo as nat);
    }
    lo
}

} // verus!
