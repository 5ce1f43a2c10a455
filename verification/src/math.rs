//! Small exact-arithmetic helpers: clamping, rounded division and an integer
//! square root, each pinned to a spec-level definition.

use vstd::prelude::*;
use vstd::arithmetic::div_mod::lemma_basic_div;
use vstd::arithmetic::div_mod::lemma_div_is_ordered;
use vstd::arithmetic::div_mod::lemma_div_pos_is_pos;
use vstd::arithmetic::div_mod::lemma_fundamental_div_mod_converse_div;

verus! {

/// The rational numbers `an / ad` and `bn / bd` are equal, stated by cross
/// multiplication; meaningful when both denominators are nonzero.
pub open spec fn rat_eq(an: int, ad: int, bn: int, bd: int) -> bool {
    an * bd == bn * ad
}

/// `x` forced into the inclusive range `[lo, hi]`.
pub open spec fn clamp_spec(x: int, lo: int, hi: int) -> int {
    if x < lo {
        lo
    } else if x > hi {
        hi
    } else {
        x
    }
}

pub fn clamp_i64(x: i64, lo: i64, hi: i64) -> (r: i64)
    requires
        lo <= hi,
    ensures
        r == clamp_spec(x as int, lo as int, hi as int),
{
    if x < lo {
        lo
    } else if x > hi {
        hi
    } else {
        x
    }
}

/// The exact quotient `n / d` rounded to the nearest integer, ties away from
/// zero.  Spec-mode `/` is Euclidean division, so for `a >= 0` and `d > 0`
/// the expression `(2 * a + d) / (2 * d)` is `a / d` rounded half up.
pub open spec fn round_div(n: int, d: int) -> int
    recommends
        d > 0,
{
    if n >= 0 {
        (2 * n + d) / (2 * d)
    } else {
        -((2 * -n + d) / (2 * d))
    }
}

/// A quotient whose magnitude is at most `b` rounds to a value of magnitude
/// at most `b`.
pub proof fn lemma_round_div_bound(n: int, d: int, b: int)
    requires
        d > 0,
        b >= 0,
        -(b * d) <= n <= b * d,
    ensures
        -b <= round_div(n, d) <= b,
{
    let bd = b * d;
    assert(2 * bd + d == b * (2 * d) + d) by (nonlinear_arith)
        requires
            bd == b * d,
    ;
    lemma_fundamental_div_mod_converse_div(b * (2 * d) + d, 2 * d, b, d);
    if n >= 0 {
        lemma_div_is_ordered(2 * n + d, 2 * bd + d, 2 * d);
        lemma_div_pos_is_pos(2 * n + d, 2 * d);
    } else {
        let m = -n;
        lemma_div_is_ordered(2 * m + d, 2 * bd + d, 2 * d);
        lemma_div_pos_is_pos(2 * m + d, 2 * d);
    }
}

/// Rounding never flips the sign of the quotient.
pub proof fn lemma_round_div_sign(n: int, d: int)
    requires
        d > 0,
    ensures
        n >= 0 ==> round_div(n, d) >= 0,
        n <= 0 ==> round_div(n, d) <= 0,
{
    if n >= 0 {
        lemma_div_pos_is_pos(2 * n + d, 2 * d);
    }
    if n <= 0 {
        lemma_div_pos_is_pos(2 * -n + d, 2 * d);
        if n == 0 {
            lemma_basic_div(d, 2 * d);
        }
    }
}

/// `round_div` computed on nonnegative operands, where executable division
/// and Euclidean division agree.
pub fn round_div_i128(n: i128, d: i128) -> (r: i128)
    requires
        0 < d < 0x1000_0000_0000_0000_0000_0000_0000_0000,
        -0x1000_0000_0000_0000_0000_0000_0000_0000 < n
            < 0x1000_0000_0000_0000_0000_0000_0000_0000,
    ensures
        r == round_div(n as int, d as int),
{
    if n >= 0 {
        (2 * n + d) / (2 * d)
    } else {
        let m: i128 = -n;
        -((2 * m + d) / (2 * d))
    }
}

/// Largest `r` with `r * r <= n`.
pub open spec fn sqrt_floor(n: nat) -> nat
    decreases n,
{
    if n == 0 {
        0
    } else {
        let r = sqrt_floor((n - 1) as nat);
        if (r + 1) * (r + 1) <= n {
            r + 1
        } else {
            r
        }
    }
}

pub proof fn lemma_sqrt_floor_bounds(n: nat)
    ensures
        sqrt_floor(n) * sqrt_floor(n) <= n,
        n < (sqrt_floor(n) + 1) * (sqrt_floor(n) + 1),
    decreases n,
{
    if n > 0 {
        lemma_sqrt_floor_bounds((n - 1) as nat);
        let r = sqrt_floor((n - 1) as nat);
        if (r + 1) * (r + 1) <= n {
            assert(sqrt_floor(n) == r + 1);
            assert(n < ((r + 1) + 1) * ((r + 1) + 1)) by (nonlinear_arith)
                requires
                    n - 1 < (r + 1) * (r + 1),
                    r >= 0,
            ;
        } else {
            assert(sqrt_floor(n) == r);
        }
    } else {
        assert(sqrt_floor(n) == 0);
        assert(n < (sqrt_floor(n) + 1) * (sqrt_floor(n) + 1)) by (nonlinear_arith)
            requires
                n == 0,
                sqrt_floor(n) == 0,
        ;
    }
}

/// The bracket `r * r <= n < (r + 1) * (r + 1)` has a single solution.
pub proof fn lemma_sqrt_floor_unique(n: nat, r: nat)
    requires
        r * r <= n,
        n < (r + 1) * (r + 1),
    ensures
        r == sqrt_floor(n),
{
    lemma_sqrt_floor_bounds(n);
    let s = sqrt_floor(n);
    assert(r == s) by (nonlinear_arith)
        requires
            r >= 0,
            s >= 0,
            r * r <= n,
            n < (r + 1) * (r + 1),
            s * s <= n,
            n < (s + 1) * (s + 1),
    ;
}

/// Integer square root by bisection on the bracket `lo * lo <= n < hi * hi`.
pub fn isqrt_u64(n: u64) -> (r: u64)
    ensures
        r == sqrt_floor(n as nat),
        r * r <= n,
{
    let mut lo: u64 = 0;
    let mut hi: u64 = 0x1_0000_0000;
    while lo + 1 < hi
        invariant
            lo < hi <= 0x1_0000_0000,
            (lo as int) * (lo as int) <= n as int,
            (n as int) < (hi as int) * (hi as int),
        decreases hi - lo,
    {
        let mid: u64 = lo + (hi - lo) / 2;
        proof {
            assert((mid as int) * (mid as int) < 0x1_0000_0000_0000_0000) by (nonlinear_arith)
                requires
                    0 <= (mid as int) < 0x1_0000_0000,
            ;
        }
        if (mid as u128) * (mid as u128) <= n as u128 {
            lo = mid;
        } else {
            hi = mid;
        }
    }
    proof {
        lemma_sqrt_floor_unique(n as nat, lo as nat);
    }
    lo
}

} // verus!
