//! Core analysis engine for calibrated sound-level spectra, after the
//! PAMGuide method: windowing, segmentation with overlap, single-sided
//! spectral estimation, optional Welch averaging, and conversion of linear
//! power to calibrated decibel levels.
//!
//! This crate holds the decision core of the pipeline: every index, count,
//! bound and calibration sum that the analysis depends on is computed here
//! over exact integer arithmetic and carries a verified contract. Scalar
//! quantities that the surrounding tooling handles as floating point are
//! represented in fixed point: decibels in milli-decibels, frequencies in
//! milli-hertz, window lengths in milli-units, overlap in hundredths of a
//! percent, and times in milliseconds. The floating-point number crunching
//! itself (window coefficients, the frequency transform, the logarithm) is
//! the caller's, driven by the plans this crate produces.

pub mod config;
pub mod errors;
pub mod rounding;
pub mod calib;
pub mod window;
pub mod segment;
pub mod freq;
pub mod welch;
pub mod timing;
pub mod plan;
pub mod batch;
