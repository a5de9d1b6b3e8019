//! System sensitivity: the calibration offset `S`, in milli-decibels, that is
//! subtracted from every converted level. A pure function of the
//! configuration, independent of the signal.

use vstd::prelude::*;
use crate::config::{AnalysisConfig, CalibrationType, Environment};
use crate::errors::{AnalysisError, CalField};

verus! {

/// The microphone/hydrophone sensitivity after the environment adjustment:
/// in air it is shifted down by 120 dB (the unit conversion between the two
/// reference-pressure conventions); in water it is used as given.
pub open spec fn adjusted_mic_sensitivity_mdb(config: AnalysisConfig) -> Option<int> {
    match config.mic_hydro_sensitivity_mdb {
        Some(mh) => Some(
            if config.environment == Environment::Air {
                mh - 120000
            } else {
                mh as int
            },
        ),
        None => None,
    }
}

/// What the sensitivity computation yields on any configuration: `0` when
/// calibration is off; otherwise the mode's sum over the adjusted fields, or
/// the first failure in the order the fields are read.
pub open spec fn spec_system_sensitivity_mdb(config: AnalysisConfig) -> Result<int, AnalysisError> {
    if !config.calibrated {
        Ok(0)
    } else {
        match config.calibration_type {
            None => Err(AnalysisError::MissingCalibrationField(CalField::CalibrationType)),
            Some(CalibrationType::Ts) => match adjusted_mic_sensitivity_mdb(config) {
                None => Err(AnalysisError::MissingCalibrationField(CalField::MicHydroSensitivity)),
                Some(mh) => match config.preamp_gain_mdb {
                    None => Err(AnalysisError::MissingCalibrationField(CalField::PreampGain)),
                    Some(g) => match config.adc_vpeak_mv {
                        None => Err(AnalysisError::MissingCalibrationField(CalField::AdcVpeak)),
                        Some(v) => if v <= 0 {
                            Err(AnalysisError::NonPositiveAdcPeak)
                        } else {
                            Ok(mh + g)
                        },
                    },
                },
            },
            Some(CalibrationType::Ee) => match config.system_sensitivity_mdb {
                None => Err(AnalysisError::MissingCalibrationField(CalField::SystemSensitivity)),
                Some(si) => Ok(si as int),
            },
            Some(CalibrationType::Rc) => match config.system_sensitivity_mdb {
                None => Err(AnalysisError::MissingCalibrationField(CalField::SystemSensitivity)),
                Some(si) => match adjusted_mic_sensitivity_mdb(config) {
                    None => Err(
                        AnalysisError::MissingCalibrationField(CalField::MicHydroSensitivity),
                    ),
                    Some(mh) => Ok(si + mh),
                },
            },
        }
    }
}

/// Computes the system sensitivity offset `S` in milli-decibels.
///
/// Transducer-spec mode sums the adjusted microphone sensitivity and the
/// preamplifier gain; the ADC peak voltage is demanded and checked positive
/// but, by design, not folded into the sum (a known simplification of the
/// PAMGuide method, kept because it is observable). End-to-end mode returns
/// the system sensitivity as given; recorder-plus-transducer mode adds the
/// adjusted microphone sensitivity to it.
pub fn calculate_system_sensitivity_db(config: &AnalysisConfig) -> (r: Result<
    i64,
    AnalysisError,
>)
    requires
        config.scalars_bounded(),
    ensures
        r matches Ok(s) ==> Ok::<int, AnalysisError>(s as int) == spec_system_sensitivity_mdb(
            *config,
        ),
        r matches Err(e) ==> Err::<int, _>(e) == spec_system_sensitivity_mdb(*config),
        !config.calibrated ==> r == Ok::<i64, AnalysisError>(0),
        config.calibrated && config.calibration_fields_present() && (config.adc_vpeak_mv
            matches Some(v) ==> v > 0) ==> r is Ok,
{
    if !config.calibrated {
        return Ok(0);
    }
    let cal_type = match config.calibration_type {
        Some(t) => t,
        None => {
            return Err(AnalysisError::MissingCalibrationField(CalField::CalibrationType));
        },
    };
    let mh_adjusted: Option<i64> = match config.mic_hydro_sensitivity_mdb {
        Some(mh) => if config.environment == Environment::Air {
            Some(mh - 120000)
        } else {
            Some(mh)
        },
        None => None,
    };
    match cal_type {
        CalibrationType::Ts => {
            let mh = match mh_adjusted {
                Some(mh) => mh,
                None => {
                    return Err(
                        AnalysisError::MissingCalibrationField(CalField::MicHydroSensitivity),
                    );
                },
            };
            let g = match config.preamp_gain_mdb {
                Some(g) => g,
                None => {
                    return Err(AnalysisError::MissingCalibrationField(CalField::PreampGain));
                },
            };
            let vadc = match config.adc_vpeak_mv {
                Some(v) => v,
                None => {
                    return Err(AnalysisError::MissingCalibrationField(CalField::AdcVpeak));
                },
            };
            if vadc <= 0 {
                return Err(AnalysisError::NonPositiveAdcPeak);
            }
            Ok(mh + g)
        },
        CalibrationType::Ee => {
            match config.system_sensitivity_mdb {
                Some(si) => Ok(si),
                None => Err(AnalysisError::MissingCalibrationField(CalField::SystemSensitivity)),
            }
        },
        CalibrationType::Rc => {
            let si = match config.system_sensitivity_mdb {
                Some(si) => si,
                None => {
                    return Err(
                        AnalysisError::MissingCalibrationField(CalField::SystemSensitivity),
                    );
                },
            };
            match mh_adjusted {
                Some(mh) => Ok(si + mh),
                None => Err(AnalysisError::MissingCalibrationField(CalField::MicHydroSensitivity)),
            }
        },
    }
}

} // verus!
