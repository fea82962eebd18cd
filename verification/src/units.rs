//! Fixed-point signal arithmetic.
//!
//! Volumes, crossfader positions, opacities and audio samples are stored
//! as integers scaled by [`UNIT`]: the value `UNIT` stands for 1.0.  The
//! square root needed by the equal-power crossfade curve is the integer
//! square root, specified by [`spec_isqrt`].

use vstd::prelude::*;

verus! {

/// Fixed-point scale: the integer `UNIT` represents the signal level 1.0.
pub const UNIT: u32 = 10000;

/// Largest argument `isqrt` accepts; covers every square of an `i32`.
pub const ISQRT_MAX: u64 = 0x4000_0000_0000_0000;

/// Mathematical integer square root, rounded down.
pub open spec fn spec_isqrt(n: nat) -> nat
    decreases n,
{
    if n == 0 {
        0
    } else {
        let h = 2 * spec_isqrt(n / 4);
        if (h + 1) * (h + 1) <= n {
            h + 1
        } else {
            h
        }
    }
}

/// `spec_isqrt(n)` is the unique `r` with `r * r <= n < (r + 1) * (r + 1)`.
pub proof fn lemma_spec_isqrt(n: nat)
    ensures
        spec_isqrt(n) * spec_isqrt(n) <= n,
        n < (spec_isqrt(n) + 1) * (spec_isqrt(n) + 1),
    decreases n,
{
    if n == 0 {
        assert(spec_isqrt(0) == 0);
        assert(n < (spec_isqrt(n) + 1) * (spec_isqrt(n) + 1)) by (nonlinear_arith)
            requires
                n == 0,
                spec_isqrt(n) == 0,
        {}
    } else {
        let q = n / 4;
        lemma_spec_isqrt(q);
        let s = spec_isqrt(q);
        let h = 2 * s;
        assert(4 * q <= n && n <= 4 * q + 3) by (nonlinear_arith)
            requires
                q == n / 4,
        {}
        assert(h * h <= 4 * q) by (nonlinear_arith)
            requires
                h == 2 * s,
                s * s <= q,
        {}
        assert(n < 4 * ((s + 1) * (s + 1))) by (nonlinear_arith)
            requires
                n <= 4 * q + 3,
                q < (s + 1) * (s + 1),
        {}
        assert((h + 2) * (h + 2) == 4 * ((s + 1) * (s + 1))) by (nonlinear_arith)
            requires
                h == 2 * s,
        {}
        if (h + 1) * (h + 1) <= n {
            assert(spec_isqrt(n) == h + 1);
            assert(n < (h + 2) * (h + 2));
            assert(spec_isqrt(n) * spec_isqrt(n) <= n);
            assert(n < (spec_isqrt(n) + 1) * (spec_isqrt(n) + 1));
        } else {
            assert(spec_isqrt(n) == h);
            assert(spec_isqrt(n) * spec_isqrt(n) <= n);
            assert(n < (spec_isqrt(n) + 1) * (spec_isqrt(n) + 1));
        }
    }
}

/// Any `r` between the two square bounds equals `spec_isqrt(n)`.
pub proof fn lemma_isqrt_unique(n: nat, r: nat)
    requires
        r * r <= n,
        n < (r + 1) * (r + 1),
    ensures
        r == spec_isqrt(n),
{
    lemma_spec_isqrt(n);
    let s = spec_isqrt(n);
    if r < s {
        assert((r + 1) * (r + 1) <= s * s) by (nonlinear_arith)
            requires
                r + 1 <= s,
        {}
    } else if s < r {
        assert((s + 1) * (s + 1) <= r * r) by (nonlinear_arith)
            requires
                s + 1 <= r,
        {}
    }
}

/// The square root never exceeds an upper bound whose square covers `n`.
pub proof fn lemma_isqrt_le(n: nat, b: nat)
    requires
        n <= b * b,
    ensures
        spec_isqrt(n) <= b,
{
    lemma_spec_isqrt(n);
    let s = spec_isqrt(n);
    if b < s {
        assert((b + 1) * (b + 1) <= s * s) by (nonlinear_arith)
            requires
                b + 1 <= s,
        {}
        assert(b * b < (b + 1) * (b + 1)) by (nonlinear_arith) {}
    }
}

/// Integer square root by bisection.
pub fn isqrt(n: u64) -> (r: u64)
    requires
        n <= ISQRT_MAX,
    ensures
        r == spec_isqrt(n as nat),
        r * r <= n,
        n < (r + 1) * (r + 1),
{
    let mut lo: u64 = 0;
    let mut hi: u64 = 0x8000_0001;
    assert(n < hi * hi) by (nonlinear_arith)
        requires
            n <= 0x4000_0000_0000_0000u64,
            hi == 0x8000_0001u64,
    {}
    while lo + 1 < hi
        invariant
            lo < hi <= 0x8000_0001,
            lo * lo <= n,
            n < hi * hi,
        decreases hi - lo,
    {
        let mid: u64 = lo + (hi - lo) / 2;
        assert(mid * mid < 0x8000_0000_0000_0000) by (nonlinear_arith)
            requires
                mid <= 0x8000_0000u64,
        {}
        if mid * mid <= n {
            lo = mid;
        } else {
            hi = mid;
        }
    }
    proof {
        lemma_isqrt_unique(n as nat, lo as nat);
    }
    lo
}

/// Scale a fixed-point sample by a fixed-point factor, rounding the
/// magnitude down (toward zero), as `s * (v / UNIT)` in real arithmetic.
pub open spec fn spec_scale(s: int, v: nat) -> int {
    if s >= 0 {
        (s * v) / (UNIT as int)
    } else {
        -(((-s) * v) / (UNIT as int))
    }
}

/// Multiply sample `s` by the fixed-point factor `v`.
pub fn scale_sample(s: i32, v: u32) -> (r: i32)
    requires
        v <= UNIT,
    ensures
        r == spec_scale(s as int, v as nat),
{
    if s >= 0 {
        let su: u64 = s as u64;
        let vu: u64 = v as u64;
        assert(su * vu <= 0x7fff_ffffu64 * 10000) by (nonlinear_arith)
            requires
                su <= 0x7fff_ffffu64,
                vu <= 10000u64,
        {}
        let wide: u64 = su * vu;
        let q: u64 = wide / 10000;
        assert(q <= su) by (nonlinear_arith)
            requires
                wide == su * vu,
                q == wide / 10000,
                vu <= 10000u64,
        {}
        q as i32
    } else {
        let mag: u64 = (-(s as i64)) as u64;
        let vu: u64 = v as u64;
        assert(mag * vu <= 0x8000_0000u64 * 10000) by (nonlinear_arith)
            requires
                mag <= 0x8000_0000u64,
                vu <= 10000u64,
        {}
        let wide: u64 = mag * vu;
        let q: u64 = wide / 10000;
        assert(q <= mag) by (nonlinear_arith)
            requires
                wide == mag * vu,
                q == wide / 10000,
                vu <= 10000u64,
        {}
        (-(q as i64)) as i32
    }
}

} // verus!
