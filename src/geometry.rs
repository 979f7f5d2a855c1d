//! Distances between soma coordinates.
use vstd::prelude::*;
use crate::connections::Coord;

verus! {

pub open spec fn diff(a: usize, b: usize) -> int {
    if a >= b {
        a - b
    } else {
        b - a
    }
}

/// The square of the Euclidean distance from `a` to `b`.
pub open spec fn squared_distance(a: Coord, b: Coord) -> int {
    diff(a.0, b.0) * diff(a.0, b.0) + diff(a.1, b.1) * diff(a.1, b.1) + diff(a.2, b.2) * diff(
        a.2,
        b.2,
    )
}

/// `k` is the square root of `n` rounded to the nearest integer: `k - 1/2 <=
/// sqrt(n) < k + 1/2`. The square root of an integer is never halfway between
/// two integers, so there is no tie to break.
pub open spec fn is_rounded_sqrt(k: int, n: int) -> bool {
    &&& 0 <= k
    &&& 4 * n < (2 * k + 1) * (2 * k + 1)
    &&& (k == 0 || (2 * k - 1) * (2 * k - 1) <= 4 * n)
}

/// `d` is the Euclidean distance between `a` and `b` rounded to the nearest
/// integer, or the largest `u64` where that distance is larger.
pub open spec fn is_rounded_distance(d: u64, a: Coord, b: Coord) -> bool {
    let n = squared_distance(a, b);
    is_rounded_sqrt(d as int, n) || (d == u64::MAX && 4 * n >= (2 * u64::MAX + 1) * (2 * u64::MAX
        + 1))
}

fn abs_diff(a: usize, b: usize) -> (r: u128)
    ensures
        r == diff(a, b),
        r <= u64::MAX,
{
    if a >= b {
        (a - b) as u128
    } else {
        (b - a) as u128
    }
}

/// The square root of `n` rounded to the nearest integer.
pub fn rounded_sqrt(n: u128) -> (r: u128)
    ensures
        is_rounded_sqrt(r as int, n as int),
        r <= 0x1_0000_0000_0000_0000,
{
    // Bisection for the largest `lo` with `lo * lo <= n`.
    let mut lo: u128 = 0;
    let mut hi: u128 = 0x1_0000_0000_0000_0000;
    assert(hi * hi > u128::MAX) by (nonlinear_arith)
        requires
            hi == 0x1_0000_0000_0000_0000u128,
    ;
    while hi - lo > 1
        invariant
            lo < hi <= 0x1_0000_0000_0000_0000,
            lo * lo <= n,
            n < hi * hi,
        decreases hi - lo,
    {
        let mid: u128 = lo + (hi - lo) / 2;
        assert(mid * mid <= u128::MAX) by (nonlinear_arith)
            requires
                mid < 0x1_0000_0000_0000_0000u128,
        ;
        if mid * mid <= n {
            lo = mid;
        } else {
            hi = mid;
        }
    }
    assert(hi == lo + 1);
    assert(lo * lo <= u128::MAX);
    let s: u128 = lo;
    let rem: u128 = n - s * s;
    if rem > s {
        proof {
            assert(4 * n < (2 * (s + 1) + 1) * (2 * (s + 1) + 1)) by (nonlinear_arith)
                requires
                    n < (s + 1) * (s + 1),
            ;
            assert((2 * (s + 1) - 1) * (2 * (s + 1) - 1) <= 4 * n) by (nonlinear_arith)
                requires
                    n - s * s > s,
            ;
        }
        s + 1
    } else {
        proof {
            assert(4 * n < (2 * s + 1) * (2 * s + 1)) by (nonlinear_arith)
                requires
                    n - s * s <= s,
            ;
            assert(s == 0 || (2 * s - 1) * (2 * s - 1) <= 4 * n) by (nonlinear_arith)
                requires
                    s * s <= n,
            ;
        }
        s
    }
}

/// The Euclidean distance between `a` and `b`, rounded to the nearest
/// integer and capped at the largest `u64`.
pub fn rounded_distance(a: Coord, b: Coord) -> (r: u64)
    ensures
        is_rounded_distance(r, a, b),
{
    let dx = abs_diff(a.0, b.0);
    let dy = abs_diff(a.1, b.1);
    let dz = abs_diff(a.2, b.2);
    proof {
        lemma_square_fits(dx as int);
        lemma_square_fits(dy as int);
        lemma_square_fits(dz as int);
    }
    let sx: u128 = dx * dx;
    let sy: u128 = dy * dy;
    let sz: u128 = dz * dz;
    let n: Option<u128> = match sx.checked_add(sy) {
        Some(t) => t.checked_add(sz),
        None => None,
    };
    match n {
        Some(n) => {
            let k = rounded_sqrt(n);
            if k > u64::MAX as u128 {
                proof {
                    lemma_rounded_sqrt_beyond(k as int, n as int);
                }
                u64::MAX
            } else {
                k as u64
            }
        },
        None => {
            proof {
                lemma_large_square(squared_distance(a, b));
            }
            u64::MAX
        },
    }
}

proof fn lemma_square_fits(d: int)
    requires
        0 <= d <= u64::MAX,
    ensures
        d * d <= u128::MAX,
{
    assert(d * d <= u64::MAX * u64::MAX) by (nonlinear_arith)
        requires
            0 <= d <= u64::MAX,
    ;
}

/// A rounded square root above the largest `u64` puts the square root at or
/// beyond half past it.
proof fn lemma_rounded_sqrt_beyond(k: int, n: int)
    requires
        is_rounded_sqrt(k, n),
        k > u64::MAX,
    ensures
        4 * n >= (2 * u64::MAX + 1) * (2 * u64::MAX + 1),
{
    let m = u64::MAX as int;
    assert((2 * m + 1) * (2 * m + 1) <= (2 * k - 1) * (2 * k - 1)) by (nonlinear_arith)
        requires
            k >= m + 1,
            m > 0,
    ;
}

proof fn lemma_large_square(n: int)
    requires
        n > u128::MAX,
    ensures
        4 * n >= (2 * u64::MAX + 1) * (2 * u64::MAX + 1),
{
    let m: int = 0xFFFF_FFFF_FFFF_FFFF;
    assert((2 * m + 1) * (2 * m + 1) <= 4 * 0xFFFF_FFFF_FFFF_FFFF_FFFF_FFFF_FFFF_FFFF) by (
    nonlinear_arith)
        requires
            m == 0xFFFF_FFFF_FFFF_FFFF,
    ;
}

} // verus!
