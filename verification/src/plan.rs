//! The analysis plan: every load-bearing decision of one run — window length
//! in samples, hop size, segment count, selected bin range, Welch grouping
//! and the output shape — derived from the signal length, the sample rate and
//! the configuration.

use vstd::prelude::*;
use crate::config::{AnalysisConfig, AnalysisType};
use crate::errors::AnalysisError;
use crate::freq::{select_bins, spec_high_bin, spec_low_bin};
use crate::segment::{lemma_segment_fits, num_segments, spec_num_segments, spec_step, step_size};
use crate::welch::{group_count, is_welch_active, spec_group_count, spec_time_multiplier, welch_active};
use crate::window::{spec_window_samples, window_samples};

verus! {

/// The resolved plan of one analysis run. `num_segments` segments of
/// `n_window` samples, `step` apart, all inside the signal; per segment the
/// power-spectrum bins `bin_lo ..= bin_hi` are kept; the rows are
/// `n_groups` groups of segments, each spanning `time_multiplier` segments'
/// worth of time; each output row holds `n_value_cols` values after the time
/// column.
#[derive(Clone, Copy, Debug, PartialEq, Eq, Structural)]
pub struct AnalysisPlan {
    pub n_window: usize,
    pub step: usize,
    pub num_segments: usize,
    pub bin_lo: usize,
    pub bin_hi: usize,
    pub welch_applied: bool,
    pub n_groups: usize,
    pub time_multiplier: usize,
    pub n_value_cols: usize,
}

impl AnalysisPlan {
    /// How many frequency bins the selected sub-range holds.
    pub open spec fn spec_n_bins(self) -> int {
        self.bin_hi - self.bin_lo + 1
    }

    /// The selected bin count, exact.
    pub fn n_bins(&self) -> (r: usize)
        requires
            self.bin_lo <= self.bin_hi < usize::MAX,
        ensures
            r == self.spec_n_bins(),
    {
        self.bin_hi - self.bin_lo + 1
    }
}

/// Resolves the plan of one run over a signal of `total_samples` samples at
/// sample rate `fs`. The checks run in a fixed order: an empty or
/// oversized window fails first, then an overlap whose hop rounds to zero,
/// then a frequency band that resolves to no bins; a window that fits always
/// yields at least one segment, so no other failure is possible. A window of
/// exactly one sample is excluded: it would leave the spectrum without bins.
pub fn plan_analysis(total_samples: usize, fs: u32, config: &AnalysisConfig) -> (r: Result<
    AnalysisPlan,
    AnalysisError,
>)
    requires
        config.valid(),
        fs >= 1,
        spec_window_samples(*config, fs as int) != 1,
    ensures
        ({
            let t = total_samples as int;
            let n = spec_window_samples(*config, fs as int);
            let step = spec_step(n, config.overlap_centi_percent as int);
            let ns = spec_num_segments(t, n, step);
            let lo = spec_low_bin(fs as int, n / 2, config.low_cutoff_mhz as int);
            let hi = spec_high_bin(fs as int, n / 2, config.high_cutoff_mhz as int);
            &&& (r == Err::<AnalysisPlan, _>(AnalysisError::InvalidWindow) <==> (n == 0 || n > t))
            &&& (0 < n <= t ==> (r == Err::<AnalysisPlan, _>(AnalysisError::ZeroStep) <==> step
                == 0))
            &&& r != Err::<AnalysisPlan, _>(AnalysisError::SignalTooShort)
            &&& (0 < n <= t && step >= 1 ==> (r == Err::<AnalysisPlan, _>(
                AnalysisError::InvalidFrequencyRange,
            ) <==> lo > hi))
            &&& (r is Ok <==> 0 < n <= t && step >= 1 && lo <= hi)
            &&& (r matches Ok(p) ==> {
                &&& p.n_window == n
                &&& p.step == step
                &&& p.num_segments == ns
                &&& ns >= 1
                &&& p.bin_lo == lo
                &&& p.bin_hi == hi
                &&& lo <= hi < n / 2
                &&& p.welch_applied == welch_active(config.welch_factor, ns)
                &&& p.n_groups == spec_group_count(config.welch_factor, ns)
                &&& 1 <= p.n_groups <= ns
                &&& p.time_multiplier == spec_time_multiplier(config.welch_factor, ns)
                &&& p.time_multiplier >= 1
                &&& p.n_value_cols == (if config.analysis_type == AnalysisType::Psd {
                    hi - lo + 1
                } else {
                    1
                })
                &&& forall|i: int| 0 <= i < ns ==> #[trigger] (i * step) + n <= t
            })
        }),
{
    let t = total_samples;
    let n_wide = window_samples(config, fs);
    if n_wide == 0 || n_wide > t as u128 {
        return Err(AnalysisError::InvalidWindow);
    }
    let n = n_wide as usize;
    let step = step_size(n, config.overlap_centi_percent);
    if step == 0 {
        return Err(AnalysisError::ZeroStep);
    }
    let ns = num_segments(t, n, step);
    if ns == 0 {
        return Err(AnalysisError::SignalTooShort);
    }
    let bins = match select_bins(fs, n, config.low_cutoff_mhz, config.high_cutoff_mhz) {
        Ok(b) => b,
        Err(e) => {
            return Err(e);
        },
    };
    let welch_applied = is_welch_active(config.welch_factor, ns);
    let n_groups = group_count(config.welch_factor, ns);
    let time_multiplier = if welch_applied {
        match config.welch_factor {
            Some(k) => k,
            None => 1,
        }
    } else {
        1
    };
    let n_value_cols = match config.analysis_type {
        AnalysisType::Psd => bins.hi - bins.lo + 1,
        AnalysisType::Broadband => 1,
    };
    proof {
        assert forall|i: int|
            0 <= i < spec_num_segments(
                t as int,
                n as int,
                step as int,
            ) implies #[trigger] (i * (step as int)) + n <= t by {
            lemma_segment_fits(t as int, n as int, step as int, i);
        }
    }
    Ok(
        AnalysisPlan {
            n_window: n,
            step,
            num_segments: ns,
            bin_lo: bins.lo,
            bin_hi: bins.hi,
            welch_applied,
            n_groups,
            time_multiplier,
            n_value_cols,
        },
    )
}

} // verus!
