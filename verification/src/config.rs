//! Analysis configuration: the closed sets of analysis, environment,
//! calibration and window choices, and the immutable configuration value that
//! one analysis run is driven by.
//!
//! Scalar settings are fixed point: decibel values in milli-decibels,
//! frequencies in milli-hertz, the window length in milli-units (milliseconds
//! or thousandths of a sample, by `window_unit`), and the overlap in
//! hundredths of a percent, so that every derived quantity is exact integer
//! arithmetic.

use vstd::prelude::*;

verus! {

/// Whether the run produces a power spectral density (one column per
/// selected frequency bin) or a single broadband level per row.
#[derive(Clone, Copy, Debug, PartialEq, Eq, Structural)]
pub enum AnalysisType {
    Psd,
    Broadband,
}

/// Recording environment; each carries a fixed reference pressure
/// (nominally 20 uPa in air, 1 uPa in water).
#[derive(Clone, Copy, Debug, PartialEq, Eq, Structural)]
pub enum Environment {
    Air,
    Wat,
}

/// How the system sensitivity offset is derived from the configuration.
#[derive(Clone, Copy, Debug, PartialEq, Eq, Structural)]
pub enum CalibrationType {
    /// Transducer specifications: microphone/hydrophone sensitivity plus
    /// preamplifier gain.
    Ts,
    /// End-to-end system sensitivity, used as given.
    Ee,
    /// Recorder plus transducer: system sensitivity plus
    /// microphone/hydrophone sensitivity.
    Rc,
}

/// The closed family of analysis windows.
#[derive(Clone, Copy, Debug, PartialEq, Eq, Structural)]
pub enum WindowType {
    Hann,
    Hamming,
    Blackman,
    Rectangular,
}

/// Unit in which the configured window length is expressed.
#[derive(Clone, Copy, Debug, PartialEq, Eq, Structural)]
pub enum WindowUnit {
    Seconds,
    Samples,
}

/// Default for boolean settings that are on unless disabled.
pub fn default_true() -> (r: bool)
    ensures
        r == true,
{
    true
}

/// Default for boolean settings that are off unless enabled.
pub fn default_false() -> (r: bool)
    ensures
        r == false,
{
    false
}

/// Default analysis window family.
pub fn default_window_type() -> (r: WindowType)
    ensures
        r == WindowType::Hann,
{
    WindowType::Hann
}

/// Default unit for the configured window length.
pub fn default_window_unit() -> (r: WindowUnit)
    ensures
        r == WindowUnit::Seconds,
{
    WindowUnit::Seconds
}

/// Default window length, in milli-units (one second or one sample).
pub fn default_window_length_milli() -> (r: u64)
    ensures
        r == 1000,
{
    1000
}

/// Default overlap between consecutive segments, in hundredths of a percent
/// (fifty percent).
pub fn default_overlap_centi_percent() -> (r: u64)
    ensures
        r == 5000,
{
    5000
}

/// Magnitude bound on every fixed-point scalar of a configuration, generous
/// enough for any physical decibel, voltage or frequency value while keeping
/// all derived integer arithmetic in range.
pub const SCALAR_BOUND: i64 = 0x100_0000_0000;

/// Immutable description of one analysis run. Decibel fields are
/// milli-decibels, the ADC peak voltage is millivolts, cutoffs are
/// milli-hertz, the window length is milli-units of `window_unit`, and the
/// overlap is hundredths of a percent.
#[derive(Clone, Debug)]
pub struct AnalysisConfig {
    pub write_csv: bool,
    pub create_batch_summary_file: bool,
    pub write_individual_batch_csvs: bool,
    pub analysis_type: AnalysisType,
    pub environment: Environment,
    pub calibrated: bool,
    pub calibration_type: Option<CalibrationType>,
    pub mic_hydro_sensitivity_mdb: Option<i64>,
    pub preamp_gain_mdb: Option<i64>,
    pub adc_vpeak_mv: Option<i64>,
    pub system_sensitivity_mdb: Option<i64>,
    pub window_type: WindowType,
    pub window_length_milli: u64,
    pub window_unit: WindowUnit,
    pub overlap_centi_percent: u64,
    pub low_cutoff_mhz: u64,
    pub high_cutoff_mhz: u64,
    pub welch_factor: Option<usize>,
    pub timestamp_format: Option<String>,
}

impl AnalysisConfig {
    /// Every fixed-point scalar lies within `SCALAR_BOUND`, so sums and
    /// products derived from them stay representable.
    pub open spec fn scalars_bounded(self) -> bool {
        &&& (self.mic_hydro_sensitivity_mdb matches Some(v) ==> -SCALAR_BOUND <= v <= SCALAR_BOUND)
        &&& (self.preamp_gain_mdb matches Some(v) ==> -SCALAR_BOUND <= v <= SCALAR_BOUND)
        &&& (self.adc_vpeak_mv matches Some(v) ==> -SCALAR_BOUND <= v <= SCALAR_BOUND)
        &&& (self.system_sensitivity_mdb matches Some(v) ==> -SCALAR_BOUND <= v <= SCALAR_BOUND)
        &&& self.window_length_milli <= SCALAR_BOUND
        &&& self.low_cutoff_mhz <= SCALAR_BOUND
        &&& self.high_cutoff_mhz <= SCALAR_BOUND
    }

    /// The fields the selected calibration mode reads are all present; no
    /// demand when calibration is off.
    pub open spec fn calibration_fields_present(self) -> bool {
        self.calibrated ==> match self.calibration_type {
            Some(CalibrationType::Ts) => {
                &&& self.mic_hydro_sensitivity_mdb is Some
                &&& self.preamp_gain_mdb is Some
                &&& self.adc_vpeak_mv is Some
            },
            Some(CalibrationType::Ee) => self.system_sensitivity_mdb is Some,
            Some(CalibrationType::Rc) => {
                &&& self.system_sensitivity_mdb is Some
                &&& self.mic_hydro_sensitivity_mdb is Some
            },
            None => false,
        }
    }

    /// The invariants a configuration must satisfy before an analysis runs:
    /// a positive window length, overlap within `[0, 100)` percent, an
    /// ascending frequency band, bounded scalars, and the calibration fields
    /// the selected mode needs.
    pub open spec fn valid(self) -> bool {
        &&& self.scalars_bounded()
        &&& self.window_length_milli >= 1
        &&& self.overlap_centi_percent < 10000
        &&& self.low_cutoff_mhz < self.high_cutoff_mhz
        &&& self.calibration_fields_present()
    }

    /// Decides `valid` at run time, as the loader does before handing the
    /// configuration to the engine.
    pub fn validate(&self) -> (r: bool)
        ensures
            r == self.valid(),
    {
        let scalars_ok = in_bound_opt(self.mic_hydro_sensitivity_mdb)
            && in_bound_opt(self.preamp_gain_mdb)
            && in_bound_opt(self.adc_vpeak_mv)
            && in_bound_opt(self.system_sensitivity_mdb)
            && self.window_length_milli <= SCALAR_BOUND as u64
            && self.low_cutoff_mhz <= SCALAR_BOUND as u64
            && self.high_cutoff_mhz <= SCALAR_BOUND as u64;
        let calibration_ok = !self.calibrated || match self.calibration_type {
            Some(CalibrationType::Ts) => {
                self.mic_hydro_sensitivity_mdb.is_some() && self.preamp_gain_mdb.is_some()
                    && self.adc_vpeak_mv.is_some()
            },
            Some(CalibrationType::Ee) => self.system_sensitivity_mdb.is_some(),
            Some(CalibrationType::Rc) => {
                self.system_sensitivity_mdb.is_some() && self.mic_hydro_sensitivity_mdb.is_some()
            },
            None => false,
        };
        scalars_ok && self.window_length_milli >= 1 && self.overlap_centi_percent < 10000
            && self.low_cutoff_mhz < self.high_cutoff_mhz && calibration_ok
    }
}

/// An absent scalar is within bounds; a present one must lie within
/// `SCALAR_BOUND` in magnitude.
fn in_bound_opt(v: Option<i64>) -> (r: bool)
    ensures
        r == (v matches Some(x) ==> -SCALAR_BOUND <= x <= SCALAR_BOUND),
{
    match v {
        Some(x) => -SCALAR_BOUND <= x && x <= SCALAR_BOUND,
        None => true,
    }
}

} // verus!
