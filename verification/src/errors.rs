//! Error taxonomy of the core analysis engine. Every error is terminal for
//! the single file or operation it arises in; the engine never retries and
//! never substitutes defaults.

use vstd::prelude::*;

verus! {

/// A configuration field that a calibration mode needs.
#[derive(Clone, Copy, Debug, PartialEq, Eq, Structural)]
pub enum CalField {
    /// The calibration mode itself, required whenever calibration is on.
    CalibrationType,
    MicHydroSensitivity,
    PreampGain,
    AdcVpeak,
    SystemSensitivity,
}

/// Why an analysis or a batch concatenation failed.
#[derive(Clone, Copy, Debug, PartialEq, Eq, Structural)]
pub enum AnalysisError {
    /// The analysis window is empty or longer than the signal.
    InvalidWindow,
    /// The configured overlap rounds the hop between segments down to zero.
    ZeroStep,
    /// Not even one full segment fits in the signal.
    SignalTooShort,
    /// The configured frequency band resolves to an empty range of bins.
    InvalidFrequencyRange,
    /// A field that the selected calibration mode needs is absent.
    MissingCalibrationField(CalField),
    /// The ADC peak voltage is present but not positive.
    NonPositiveAdcPeak,
    /// Batch concatenation over spectra with differing bin columns.
    ColumnMismatch,
}

} // verus!
