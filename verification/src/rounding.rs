//! Round-to-nearest division over non-negative integers, the one rounding
//! rule the analysis uses: halves round up, as rounding a non-negative real
//! to the nearest integer does.

use vstd::prelude::*;

verus! {

/// `a / b` rounded to the nearest integer, halves up; `a >= 0`, `b > 0`.
pub open spec fn round_div(a: int, b: int) -> int {
    (2 * a + b) / (2 * b)
}

/// Rounded division never exceeds plain division by more than the rounding:
/// the result lies between `a/b` and `a/b + 1`.
pub proof fn lemma_round_div_bounds(a: int, b: int)
    by (nonlinear_arith)
    requires
        a >= 0,
        b >= 1,
    ensures
        a / b <= round_div(a, b) <= a / b + 1,
        0 <= round_div(a, b) <= a,
{
}

/// Rounded division is monotone in the dividend.
pub proof fn lemma_round_div_monotone(a1: int, a2: int, b: int)
    by (nonlinear_arith)
    requires
        0 <= a1 <= a2,
        b >= 1,
    ensures
        round_div(a1, b) <= round_div(a2, b),
{
}

/// Exact multiples round to themselves.
pub proof fn lemma_round_div_exact(k: int, b: int)
    by (nonlinear_arith)
    requires
        k >= 0,
        b >= 1,
    ensures
        round_div(k * b, b) == k,
{
}

/// Executable round-to-nearest division.
pub fn round_div_u128(a: u128, b: u128) -> (r: u128)
    requires
        b >= 1,
        2 * a + b <= u128::MAX,
        2 * b <= u128::MAX,
    ensures
        r == round_div(a as int, b as int),
        r <= a,
{
    proof {
        lemma_round_div_bounds(a as int, b as int);
    }
    (2 * a + b) / (2 * b)
}

} // verus!
