//! Exact integer helpers shared by the dimension model and the projector:
//! the floor of an integer square root, and rounding of micro-unit values
//! to whole units (ties to even, as the renderer's number formatting does).

use vstd::prelude::*;

verus! {

use vstd::arithmetic::div_mod::lemma_div_is_ordered;

/// Micro-units per unit: model values carry six decimal places.
pub const MICRO: u64 = 1_000_000;

/// Half of one unit in micro-units; the midpoint of the rounding rule.
pub const HALF_MICRO: u64 = 500_000;

/// `r` is the square root of `n` rounded down to an integer.
pub open spec fn is_sqrt_floor(n: int, r: int) -> bool {
    0 <= r && r * r <= n < (r + 1) * (r + 1)
}

/// The square root of `n`, rounded down to an integer.
pub open spec fn sqrt_floor(n: int) -> int
    recommends
        n >= 0,
{
    choose|r: int| is_sqrt_floor(n, r)
}

/// Every non-negative integer has an integer square root, and `sqrt_floor`
/// denotes it.
pub proof fn lemma_sqrt_floor_exists(n: int)
    requires
        n >= 0,
    ensures
        is_sqrt_floor(n, sqrt_floor(n)),
    decreases n,
{
    if n == 0 {
        assert(is_sqrt_floor(0, 0));
    } else {
        lemma_sqrt_floor_exists(n - 1);
        let r = sqrt_floor(n - 1);
        if (r + 1) * (r + 1) <= n {
            assert(is_sqrt_floor(n, r + 1)) by (nonlinear_arith)
                requires
                    is_sqrt_floor(n - 1, r),
                    (r + 1) * (r + 1) <= n,
            ;
            assert(exists|s: int| is_sqrt_floor(n, s));
        } else {
            assert(is_sqrt_floor(n, r));
            assert(exists|s: int| is_sqrt_floor(n, s));
        }
    }
}

/// The integer square root is unique: any witness equals `sqrt_floor`.
pub proof fn lemma_sqrt_floor_unique(n: int, r: int)
    requires
        is_sqrt_floor(n, r),
    ensures
        sqrt_floor(n) == r,
{
    assert(n >= 0) by (nonlinear_arith)
        requires
            is_sqrt_floor(n, r),
    ;
    lemma_sqrt_floor_exists(n);
    assert(sqrt_floor(n) == r) by (nonlinear_arith)
        requires
            is_sqrt_floor(n, r),
            is_sqrt_floor(n, sqrt_floor(n)),
    ;
}

/// Taking the integer square root preserves order.
pub proof fn lemma_sqrt_floor_monotonic(a: int, b: int)
    requires
        0 <= a <= b,
    ensures
        sqrt_floor(a) <= sqrt_floor(b),
{
    lemma_sqrt_floor_exists(a);
    lemma_sqrt_floor_exists(b);
    assert(sqrt_floor(a) <= sqrt_floor(b)) by (nonlinear_arith)
        requires
            a <= b,
            is_sqrt_floor(a, sqrt_floor(a)),
            is_sqrt_floor(b, sqrt_floor(b)),
    ;
}

/// The integer square root of a perfect square is its root.
pub proof fn lemma_sqrt_floor_of_square(r: int)
    requires
        r >= 0,
    ensures
        sqrt_floor(r * r) == r,
{
    assert(is_sqrt_floor(r * r, r)) by (nonlinear_arith)
        requires
            r >= 0,
    ;
    lemma_sqrt_floor_unique(r * r, r);
}

/// Computes the integer square root of `n` by bisection.
pub fn isqrt_u128(n: u128) -> (r: u128)
    ensures
        r as int == sqrt_floor(n as int),
        is_sqrt_floor(n as int, r as int),
{
    let mut lo: u128 = 0;
    let mut hi: u128 = 18_446_744_073_709_551_616;
    proof {
        assert((18_446_744_073_709_551_616 as int) * (18_446_744_073_709_551_616 as int)
            > u128::MAX as int) by (nonlinear_arith);
    }
    while hi - lo > 1
        invariant
            lo < hi <= 18_446_744_073_709_551_616,
            (lo as int) * (lo as int) <= n as int,
            (n as int) < (hi as int) * (hi as int),
        decreases hi - lo,
    {
        let mid = lo + (hi - lo) / 2;
        proof {
            assert((mid as int) * (mid as int) <= u128::MAX as int) by (nonlinear_arith)
                requires
                    mid < 18_446_744_073_709_551_616,
            ;
        }
        if mid * mid <= n {
            lo = mid;
        } else {
            hi = mid;
        }
    }
    proof {
        lemma_sqrt_floor_unique(n as int, lo as int);
    }
    lo
}

/// A micro-unit value rounded to the nearest whole unit; exact halves round
/// to the even neighbour, matching the renderer's zero-decimal formatting.
pub open spec fn round_micro_to_unit(v: int) -> int
    recommends
        v >= 0,
{
    let q = v / (MICRO as int);
    let rem = v % (MICRO as int);
    if rem > HALF_MICRO {
        q + 1
    } else if rem < HALF_MICRO {
        q
    } else if q % 2 == 0 {
        q
    } else {
        q + 1
    }
}

/// Rounds a micro-unit value to the nearest whole unit, ties to even.
pub fn round_micro(v: u64) -> (r: u64)
    ensures
        r as int == round_micro_to_unit(v as int),
{
    proof {
        lemma_div_is_ordered(v as int, u64::MAX as int, MICRO as int);
    }
    let q = v / MICRO;
    let rem = v % MICRO;
    if rem > HALF_MICRO {
        q + 1
    } else if rem < HALF_MICRO {
        q
    } else if q % 2 == 0 {
        q
    } else {
        q + 1
    }
}

} // verus!
