//! The time column. Output row `i` stands `i * step * multiplier / fs`
//! seconds after the start of its file; the engine carries times in whole
//! milliseconds, rounded to nearest, and offsets them by the file's absolute
//! start when one is known.

use vstd::prelude::*;
use crate::rounding::{lemma_round_div_bounds, lemma_round_div_monotone, round_div, round_div_u128};

verus! {

/// Bound within which every computed time stays representable: a bit over
/// 73 million years in milliseconds.
pub const TIME_BOUND_MILLIS: i64 = 0x2000_0000_0000_0000;

/// Milliseconds from the start of the file to output row `i`, at a hop of
/// `step` samples, `mult` segments per output row, and sample rate `fs`.
pub open spec fn spec_row_offset_millis(i: int, step: int, mult: int, fs: int) -> int {
    round_div(i * step * mult * 1000, fs)
}

/// The start-relative part of a row's time, or its absolute time when the
/// file's start is known.
pub open spec fn spec_row_time_millis(
    i: int,
    step: int,
    mult: int,
    fs: int,
    start_millis: Option<i64>,
) -> int {
    spec_row_offset_millis(i, step, mult, fs) + match start_millis {
        Some(s) => s as int,
        None => 0,
    }
}

/// Row zero lies at the file start.
pub proof fn lemma_row_offset_zero(step: int, mult: int, fs: int)
    requires
        fs >= 1,
    ensures
        spec_row_offset_millis(0, step, mult, fs) == 0,
{
    assert(0 * step * mult * 1000 == 0) by (nonlinear_arith);
    lemma_round_div_bounds(0, fs);
}

/// Later rows never lie earlier: the time column of one file is
/// non-decreasing in the row index.
pub proof fn lemma_row_offset_monotone(i1: int, i2: int, step: int, mult: int, fs: int)
    requires
        0 <= i1 <= i2,
        step >= 0,
        mult >= 0,
        fs >= 1,
    ensures
        spec_row_offset_millis(i1, step, mult, fs) <= spec_row_offset_millis(i2, step, mult, fs),
{
    assert(0 <= i1 * step * mult * 1000 <= i2 * step * mult * 1000) by (nonlinear_arith)
        requires
            0 <= i1 <= i2,
            step >= 0,
            mult >= 0,
    ;
    lemma_round_div_monotone(i1 * step * mult * 1000, i2 * step * mult * 1000, fs);
}

/// Computes one row's time in milliseconds: the rounded start-relative
/// offset, plus the file's absolute start when known.
pub fn row_time_millis(i: usize, step: usize, mult: usize, fs: u32, start_millis: Option<i64>) -> (r:
    i64)
    requires
        fs >= 1,
        mult >= 1,
        (i as int) * (step as int) * (mult as int) <= usize::MAX,
        spec_row_offset_millis(i as int, step as int, mult as int, fs as int)
            <= TIME_BOUND_MILLIS,
        start_millis matches Some(s) ==> -TIME_BOUND_MILLIS <= s <= TIME_BOUND_MILLIS,
    ensures
        r == spec_row_time_millis(i as int, step as int, mult as int, fs as int, start_millis),
{
    proof {
        assert((i as int) * (step as int) <= (i as int) * (step as int) * (mult as int))
            by (nonlinear_arith)
            requires
                i >= 0,
                step >= 0,
                mult >= 1,
        ;
    }
    let scaled: u128 = (i as u128) * (step as u128) * (mult as u128) * 1000;
    let offset_wide: u128 = round_div_u128(scaled, fs as u128);
    proof {
        lemma_round_div_bounds(scaled as int, fs as int);
    }
    let offset: i64 = offset_wide as i64;
    match start_millis {
        Some(s) => offset + s,
        None => offset,
    }
}

} // verus!
