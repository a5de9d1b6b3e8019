//! Window generation constants and sizing. Each window family has a
//! DC-normalization constant `alpha` intrinsic to it; the generator divides
//! every raw coefficient by `alpha`, and callers that build the coefficients
//! take the constant from here. The window's sample count is derived from
//! the configured length exactly: whole seconds times the sample rate round
//! to the nearest sample, a sample count truncates to whole samples.

use vstd::prelude::*;
use crate::config::{AnalysisConfig, WindowUnit, WindowType, SCALAR_BOUND};
use crate::rounding::{lemma_round_div_bounds, round_div, round_div_u128};

verus! {

/// The DC-normalization constant `alpha` of a window family, in thousandths:
/// 1 for the rectangular window, 0.5 for Hann, 0.54 for Hamming, 0.42 for
/// Blackman.
pub fn window_alpha_milli(kind: WindowType) -> (r: u64)
    ensures
        kind == WindowType::Rectangular ==> r == 1000,
        kind == WindowType::Hann ==> r == 500,
        kind == WindowType::Hamming ==> r == 540,
        kind == WindowType::Blackman ==> r == 420,
{
    match kind {
        WindowType::Rectangular => 1000,
        WindowType::Hann => 500,
        WindowType::Hamming => 540,
        WindowType::Blackman => 420,
    }
}

/// The window length in samples that a configuration denotes at sample rate
/// `fs`: the configured count truncated to whole samples, or the configured
/// duration times `fs`, rounded to the nearest sample.
pub open spec fn spec_window_samples(config: AnalysisConfig, fs: int) -> int {
    match config.window_unit {
        WindowUnit::Samples => config.window_length_milli as int / 1000,
        WindowUnit::Seconds => round_div(config.window_length_milli * fs, 1000),
    }
}

/// Computes the window length in samples. The result is exact and bounded by
/// the scalar bound times the sample rate, so it is returned wide; the caller
/// checks it against the signal length.
pub fn window_samples(config: &AnalysisConfig, fs: u32) -> (r: u128)
    requires
        config.scalars_bounded(),
        fs >= 1,
    ensures
        r == spec_window_samples(*config, fs as int),
{
    match config.window_unit {
        WindowUnit::Samples => (config.window_length_milli / 1000) as u128,
        WindowUnit::Seconds => {
            let len = config.window_length_milli;
            proof {
                assert((len as int) * (fs as int) <= SCALAR_BOUND * (u32::MAX as int))
                    by (nonlinear_arith)
                    requires
                        0 <= len <= SCALAR_BOUND,
                        0 <= fs <= u32::MAX,
                ;
            }
            let product: u128 = (len as u128) * (fs as u128);
            proof {
                lemma_round_div_bounds(product as int, 1000);
            }
            round_div_u128(product, 1000)
        },
    }
}

} // verus!
