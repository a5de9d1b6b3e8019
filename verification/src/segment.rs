//! Segmentation: hop size from the configured overlap, the number of
//! segments that fit, and each segment's half-open sample range. Every
//! segment lies entirely within the signal; there is no zero padding.

use vstd::prelude::*;
use crate::rounding::{lemma_round_div_bounds, round_div, round_div_u128};

verus! {

/// The hop between consecutive segment starts for a window of `n` samples at
/// an overlap of `overlap_cp` hundredths of a percent: `n` times the retained
/// fraction, rounded to the nearest sample.
pub open spec fn spec_step(n: int, overlap_cp: int) -> int {
    round_div(n * (10000 - overlap_cp), 10000)
}

/// How many whole segments of `n` samples, `step` apart, fit in `t` samples.
pub open spec fn spec_num_segments(t: int, n: int, step: int) -> int {
    if t >= n {
        (t - n) / step + 1
    } else {
        0
    }
}

/// Computes the hop size. The hop never exceeds the window length, and it is
/// positive whenever the retained fraction of the window is at least half a
/// sample.
pub fn step_size(n: usize, overlap_cp: u64) -> (r: usize)
    requires
        overlap_cp < 10000,
    ensures
        r == spec_step(n as int, overlap_cp as int),
        r <= n,
{
    let factor: u64 = 10000 - overlap_cp;
    proof {
        assert((n as int) * (factor as int) <= u64::MAX * 10000) by (nonlinear_arith)
            requires
                0 <= n <= u64::MAX,
                0 <= factor <= 10000,
        ;
    }
    let kept: u128 = (n as u128) * (factor as u128);
    let r = round_div_u128(kept, 10000);
    proof {
        lemma_round_div_bounds(kept as int, 10000);
        assert(kept <= (n as int) * 10000) by (nonlinear_arith)
            requires
                kept == (n as int) * (10000 - overlap_cp as int),
                0 <= overlap_cp < 10000,
                n >= 0,
        ;
        assert(round_div((n as int) * 10000, 10000) == n as int) by {
            crate::rounding::lemma_round_div_exact(n as int, 10000);
        }
        crate::rounding::lemma_round_div_monotone(kept as int, (n as int) * 10000, 10000);
    }
    r as usize
}

/// Counts the segments that fit.
pub fn num_segments(t: usize, n: usize, step: usize) -> (r: usize)
    requires
        step >= 1,
        n >= 1,
    ensures
        r == spec_num_segments(t as int, n as int, step as int),
        t >= n ==> r >= 1,
        t < n ==> r == 0,
{
    if t >= n {
        let spare = t - n;
        proof {
            assert(spare as int / step as int <= spare as int) by (nonlinear_arith)
                requires
                    step >= 1,
                    spare >= 0,
            ;
        }
        spare / step + 1
    } else {
        0
    }
}

/// Every counted segment fits inside the signal: segment `i` starts at
/// `i * step` and ends `n` samples later, within `t`.
pub proof fn lemma_segment_fits(t: int, n: int, step: int, i: int)
    by (nonlinear_arith)
    requires
        step >= 1,
        0 <= n <= t,
        0 <= i < spec_num_segments(t, n, step),
    ensures
        i * step + n <= t,
        i * step <= t,
{
}

/// The sample range of one segment: `[i * step, i * step + n)`.
pub fn segment_bounds(t: usize, n: usize, step: usize, i: usize) -> (r: (usize, usize))
    requires
        step >= 1,
        n <= t,
        i < spec_num_segments(t as int, n as int, step as int),
    ensures
        r.0 == i * step,
        r.1 == i * step + n,
        r.1 <= t,
{
    proof {
        lemma_segment_fits(t as int, n as int, step as int, i as int);
    }
    let start = i * step;
    (start, start + n)
}

} // verus!
