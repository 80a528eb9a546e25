//! Fixed-point numbers and the integer square root.
//!
//! Tag values, times in seconds and gains are signed 32.32 fixed point: the
//! integer `v` stands for the real number `v / 2^32`.

use vstd::prelude::*;

verus! {

/// The number one in 32.32 fixed point.
pub const ONE: i64 = 0x1_0000_0000;

/// One half in 32.32 fixed point.
pub const HALF: i64 = 0x8000_0000;

/// `r` is the square root of `x`, rounded down.
pub open spec fn is_floor_sqrt(x: nat, r: nat) -> bool {
    r * r <= x < (r + 1) * (r + 1)
}

/// The square root of `x`, rounded down.
pub open spec fn floor_sqrt(x: nat) -> nat {
    choose|r: nat| is_floor_sqrt(x, r)
}

/// Every natural number has a rounded-down square root, which is at most the
/// number itself.
pub proof fn lemma_floor_sqrt_exists(x: nat) -> (r: nat)
    ensures
        is_floor_sqrt(x, r),
        r <= x,
    decreases x,
{
    if x == 0 {
        assert(is_floor_sqrt(0, 0)) by (nonlinear_arith);
        0
    } else {
        let p = lemma_floor_sqrt_exists((x - 1) as nat);
        if (p + 1) * (p + 1) <= x {
            assert((p + 1) * (p + 1) < (p + 2) * (p + 2)) by (nonlinear_arith);
            assert(p + 1 <= (p + 1) * (p + 1)) by (nonlinear_arith);
            assert((p + 1 + 1) * (p + 1 + 1) == (p + 2) * (p + 2)) by (nonlinear_arith);
            p + 1
        } else {
            assert(p * p <= x) by (nonlinear_arith)
                requires
                    p * p <= x - 1,
            ;
            p
        }
    }
}

/// At most one number is the rounded-down square root of `x`.
pub proof fn lemma_floor_sqrt_unique(x: nat, a: nat, b: nat)
    requires
        is_floor_sqrt(x, a),
        is_floor_sqrt(x, b),
    ensures
        a == b,
{
    if a < b {
        assert((a + 1) * (a + 1) <= b * b) by (nonlinear_arith)
            requires
                a + 1 <= b,
        ;
    } else if b < a {
        assert((b + 1) * (b + 1) <= a * a) by (nonlinear_arith)
            requires
                b + 1 <= a,
        ;
    }
}

/// `floor_sqrt(x)` is the rounded-down square root of `x`.
pub proof fn lemma_floor_sqrt(x: nat)
    ensures
        is_floor_sqrt(x, floor_sqrt(x)),
{
    let r = lemma_floor_sqrt_exists(x);
}

/// The rounded-down square root never decreases as its argument grows.
pub proof fn lemma_floor_sqrt_monotonic(x: nat, y: nat)
    requires
        x <= y,
    ensures
        floor_sqrt(x) <= floor_sqrt(y),
{
    lemma_floor_sqrt(x);
    lemma_floor_sqrt(y);
    let a = floor_sqrt(x);
    let b = floor_sqrt(y);
    if b < a {
        assert((b + 1) * (b + 1) <= a * a) by (nonlinear_arith)
            requires
                b + 1 <= a,
        ;
    }
}

/// The rounded-down square root of a perfect square is its root.
pub proof fn lemma_floor_sqrt_of_square(r: nat)
    ensures
        floor_sqrt(r * r) == r,
{
    assert(r * r < (r + 1) * (r + 1)) by (nonlinear_arith);
    lemma_floor_sqrt(r * r);
    lemma_floor_sqrt_unique(r * r, r, floor_sqrt(r * r));
}

/// Computes the square root of `x`, rounded down, by bisection.
pub fn floor_sqrt_u128(x: u128) -> (r: u64)
    ensures
        r as nat == floor_sqrt(x as nat),
{
    let mut lo: u128 = 0;
    let mut hi: u128 = 0x1_0000_0000_0000_0000;
    assert(x < hi * hi) by (nonlinear_arith)
        requires
            hi == 0x1_0000_0000_0000_0000u128,
            x <= u128::MAX,
    ;
    assert(lo * lo <= x) by (nonlinear_arith)
        requires
            lo == 0,
    ;
    while hi - lo > 1
        invariant
            lo < hi <= 0x1_0000_0000_0000_0000u128,
            lo * lo <= x < hi * hi,
        decreases hi - lo,
    {
        let mid: u128 = lo + (hi - lo) / 2;
        assert(mid * mid <= u128::MAX) by (nonlinear_arith)
            requires
                mid <= 0xffff_ffff_ffff_ffffu128,
        ;
        let square: u128 = mid * mid;
        if square <= x {
            lo = mid;
        } else {
            hi = mid;
        }
    }
    proof {
        assert(hi == lo + 1);
        lemma_floor_sqrt(x as nat);
        lemma_floor_sqrt_unique(x as nat, lo as nat, floor_sqrt(x as nat));
    }
    lo as u64
}

/// The time at which `samples` samples have been played at `rate` samples
/// per second, in seconds, rounded down to 32.32 fixed point and held at the
/// largest value where it would pass it.
pub open spec fn seconds_of(samples: u64, rate: u32) -> int {
    let exact = (samples * ONE) / (rate as int);
    if exact > i64::MAX {
        i64::MAX as int
    } else {
        exact
    }
}

/// Converts a count of samples at `rate` samples per second to seconds.
pub fn seconds(samples: u64, rate: u32) -> (time: i64)
    requires
        rate > 0,
    ensures
        time == seconds_of(samples, rate),
        time >= 0,
{
    assert(samples * 0x1_0000_0000 <= u128::MAX) by (nonlinear_arith)
        requires
            samples <= u64::MAX,
    ;
    let scaled: u128 = (samples as u128) * 0x1_0000_0000;
    let exact: u128 = scaled / (rate as u128);
    if exact > 0x7fff_ffff_ffff_ffff {
        i64::MAX
    } else {
        exact as i64
    }
}

} // verus!
