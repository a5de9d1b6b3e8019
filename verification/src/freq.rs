//! Frequency-bin selection. For a window of `N` samples at sample rate `fs`
//! the frequency axis has `N/2 + 1` points, `f[j] = j * (fs/2) / (N/2)` for
//! `j = 0 ..= N/2`; the single-sided power spectrum has `N/2` bins, bin `idx`
//! lying at axis point `f[idx + 1]`. The selected sub-range runs from the
//! first bin at or above the low cutoff (bin 0 when none is) to the last bin
//! at or below the high cutoff (the last bin when none is). All comparisons
//! are exact: with `h = N/2`, `f[j] >= c` milli-hertz means
//! `500 * j * fs >= c * h`.

use vstd::prelude::*;
use crate::config::SCALAR_BOUND;
use crate::errors::AnalysisError;

verus! {

/// Axis point `j` lies at or above a cutoff of `mhz` milli-hertz.
pub open spec fn axis_ge(j: int, fs: int, h: int, mhz: int) -> bool {
    500 * j * fs >= mhz * h
}

/// Axis point `j` lies at or below a cutoff of `mhz` milli-hertz.
pub open spec fn axis_le(j: int, fs: int, h: int, mhz: int) -> bool {
    500 * j * fs <= mhz * h
}

/// First bin index at or after `j` whose axis point reaches the low cutoff;
/// bin 0 when none does.
pub open spec fn spec_low_bin_from(fs: int, h: int, low: int, j: int) -> int
    decreases h - j,
{
    if j < 0 || j >= h {
        0
    } else if axis_ge(j + 1, fs, h, low) {
        j
    } else {
        spec_low_bin_from(fs, h, low, j + 1)
    }
}

/// The first bin whose axis point reaches the low cutoff, or bin 0.
pub open spec fn spec_low_bin(fs: int, h: int, low: int) -> int {
    spec_low_bin_from(fs, h, low, 0)
}

/// Last bin index at or before `j` whose axis point is within the high
/// cutoff; the last bin, `h - 1`, when none is.
pub open spec fn spec_high_bin_down(fs: int, h: int, high: int, j: int) -> int
    decreases j + 1,
{
    if j < 0 {
        h - 1
    } else if axis_le(j + 1, fs, h, high) {
        j
    } else {
        spec_high_bin_down(fs, h, high, j - 1)
    }
}

/// The last bin whose axis point is within the high cutoff, or the last bin.
pub open spec fn spec_high_bin(fs: int, h: int, high: int) -> int {
    spec_high_bin_down(fs, h, high, h - 1)
}

/// Decides `axis_ge` at run time.
fn axis_ge_at(j: usize, fs: u32, h: usize, mhz: u64) -> (r: bool)
    requires
        j <= h,
        mhz <= SCALAR_BOUND as u64,
    ensures
        r == axis_ge(j as int, fs as int, h as int, mhz as int),
{
    proof {
        assert(500 * (j as int) * (fs as int) <= 500 * (usize::MAX as int) * (u32::MAX as int))
            by (nonlinear_arith)
            requires
                0 <= j <= usize::MAX,
                0 <= fs <= u32::MAX,
        ;
        assert((mhz as int) * (h as int) <= SCALAR_BOUND * (usize::MAX as int))
            by (nonlinear_arith)
            requires
                0 <= mhz <= SCALAR_BOUND,
                0 <= h <= usize::MAX,
        ;
    }
    let lhs: u128 = 500 * (j as u128) * (fs as u128);
    let rhs: u128 = (mhz as u128) * (h as u128);
    lhs >= rhs
}

/// Decides `axis_le` at run time.
fn axis_le_at(j: usize, fs: u32, h: usize, mhz: u64) -> (r: bool)
    requires
        j <= h,
        mhz <= SCALAR_BOUND as u64,
    ensures
        r == axis_le(j as int, fs as int, h as int, mhz as int),
{
    proof {
        assert(500 * (j as int) * (fs as int) <= 500 * (usize::MAX as int) * (u32::MAX as int))
            by (nonlinear_arith)
            requires
                0 <= j <= usize::MAX,
                0 <= fs <= u32::MAX,
        ;
        assert((mhz as int) * (h as int) <= SCALAR_BOUND * (usize::MAX as int))
            by (nonlinear_arith)
            requires
                0 <= mhz <= SCALAR_BOUND,
                0 <= h <= usize::MAX,
        ;
    }
    let lhs: u128 = 500 * (j as u128) * (fs as u128);
    let rhs: u128 = (mhz as u128) * (h as u128);
    lhs <= rhs
}

/// Finds the first bin whose axis point reaches the low cutoff; bin 0 when
/// none does. Every bin below the result is strictly below the cutoff.
pub fn low_bin_index(fs: u32, h: usize, low_mhz: u64) -> (r: usize)
    requires
        h >= 1,
        low_mhz <= SCALAR_BOUND as u64,
    ensures
        r == spec_low_bin(fs as int, h as int, low_mhz as int),
        r < h,
        forall|j: int| 1 <= j <= r ==> !#[trigger] axis_ge(j, fs as int, h as int, low_mhz as int),
        axis_ge(r + 1 as int, fs as int, h as int, low_mhz as int) || (r == 0 && forall|j: int|
            1 <= j <= h ==> !#[trigger] axis_ge(j, fs as int, h as int, low_mhz as int)),
{
    let mut j: usize = 0;
    while j < h
        invariant
            j <= h,
            h >= 1,
            low_mhz <= SCALAR_BOUND as u64,
            forall|i: int| 1 <= i <= j ==> !#[trigger] axis_ge(i, fs as int, h as int, low_mhz as int),
            spec_low_bin(fs as int, h as int, low_mhz as int) == spec_low_bin_from(
                fs as int,
                h as int,
                low_mhz as int,
                j as int,
            ),
        decreases h - j,
    {
        if axis_ge_at(j + 1, fs, h, low_mhz) {
            return j;
        }
        j = j + 1;
    }
    0
}

/// Finds the last bin whose axis point is within the high cutoff; the last
/// bin when none is. Every bin above the result is strictly above the cutoff.
pub fn high_bin_index(fs: u32, h: usize, high_mhz: u64) -> (r: usize)
    requires
        h >= 1,
        high_mhz <= SCALAR_BOUND as u64,
    ensures
        r == spec_high_bin(fs as int, h as int, high_mhz as int),
        r < h,
        forall|j: int| r + 2 <= j <= h ==> !#[trigger] axis_le(j, fs as int, h as int, high_mhz as int),
        axis_le(r + 1 as int, fs as int, h as int, high_mhz as int) || (r == h - 1 && forall|
            j: int,
        |
            1 <= j <= h ==> !#[trigger] axis_le(j, fs as int, h as int, high_mhz as int)),
{
    let mut j: usize = h;
    while j > 0
        invariant
            j <= h,
            h >= 1,
            high_mhz <= SCALAR_BOUND as u64,
            forall|i: int| j + 1 <= i <= h ==> !#[trigger] axis_le(i, fs as int, h as int, high_mhz as int),
            spec_high_bin(fs as int, h as int, high_mhz as int) == spec_high_bin_down(
                fs as int,
                h as int,
                high_mhz as int,
                j - 1,
            ),
        decreases j,
    {
        if axis_le_at(j, fs, h, high_mhz) {
            return j - 1;
        }
        j = j - 1;
    }
    h - 1
}

/// The selected sub-range of power-spectrum bins, inclusive at both ends.
#[derive(Clone, Copy, Debug, PartialEq, Eq, Structural)]
pub struct BinRange {
    pub lo: usize,
    pub hi: usize,
}

/// Resolves the configured band to a bin range for a window of `n` samples.
/// Fails exactly when the resolved low bin lies above the resolved high bin.
pub fn select_bins(fs: u32, n: usize, low_mhz: u64, high_mhz: u64) -> (r: Result<
    BinRange,
    AnalysisError,
>)
    requires
        n >= 2,
        low_mhz <= SCALAR_BOUND as u64,
        high_mhz <= SCALAR_BOUND as u64,
    ensures
        r matches Ok(br) ==> {
            &&& br.lo == spec_low_bin(fs as int, (n / 2) as int, low_mhz as int)
            &&& br.hi == spec_high_bin(fs as int, (n / 2) as int, high_mhz as int)
            &&& br.lo <= br.hi < n / 2
        },
        r is Ok <==> spec_low_bin(fs as int, (n / 2) as int, low_mhz as int) <= spec_high_bin(
            fs as int,
            (n / 2) as int,
            high_mhz as int,
        ),
        r is Err ==> r == Err::<BinRange, AnalysisError>(AnalysisError::InvalidFrequencyRange),
{
    let h = n / 2;
    let lo = low_bin_index(fs, h, low_mhz);
    let hi = high_bin_index(fs, h, high_mhz);
    if lo > hi {
        Err(AnalysisError::InvalidFrequencyRange)
    } else {
        Ok(BinRange { lo, hi })
    }
}

} // verus!
