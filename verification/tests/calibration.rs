use pamguide::calib::calculate_system_sensitivity_db;
use pamguide::config::{
    AnalysisConfig, AnalysisType, CalibrationType, Environment, WindowType, WindowUnit,
};
use pamguide::errors::{AnalysisError, CalField};

fn water_config() -> AnalysisConfig {
    AnalysisConfig {
        write_csv: true,
        create_batch_summary_file: true,
        write_individual_batch_csvs: false,
        analysis_type: AnalysisType::Psd,
        environment: Environment::Wat,
        calibrated: true,
        calibration_type: None,
        mic_hydro_sensitivity_mdb: None,
        preamp_gain_mdb: None,
        adc_vpeak_mv: None,
        system_sensitivity_mdb: None,
        window_type: WindowType::Hann,
        window_length_milli: 1000,
        window_unit: WindowUnit::Seconds,
        overlap_centi_percent: 5000,
        low_cutoff_mhz: 100_000,
        high_cutoff_mhz: 2_000_000,
        welch_factor: None,
        timestamp_format: None,
    }
}

#[test]
fn uncalibrated_is_zero() {
    let mut config = water_config();
    config.calibrated = false;
    assert_eq!(calculate_system_sensitivity_db(&config), Ok(0));
}

#[test]
fn ts_mode_sums_sensitivity_and_gain() {
    // mh = -180 dB, gain = 10 dB: S = -170 dB
    let mut config = water_config();
    config.calibration_type = Some(CalibrationType::Ts);
    config.mic_hydro_sensitivity_mdb = Some(-180_000);
    config.preamp_gain_mdb = Some(10_000);
    config.adc_vpeak_mv = Some(1_000);
    assert_eq!(calculate_system_sensitivity_db(&config), Ok(-170_000));
}

#[test]
fn ee_mode_uses_system_sensitivity_alone() {
    // S = -150 dB regardless of the other fields
    let mut config = water_config();
    config.calibration_type = Some(CalibrationType::Ee);
    config.system_sensitivity_mdb = Some(-150_000);
    config.mic_hydro_sensitivity_mdb = Some(-180_000);
    config.preamp_gain_mdb = Some(10_000);
    config.adc_vpeak_mv = Some(1_000);
    assert_eq!(calculate_system_sensitivity_db(&config), Ok(-150_000));
}

#[test]
fn rc_mode_adds_mic_to_system() {
    // S = -150 + -180 = -330 dB
    let mut config = water_config();
    config.calibration_type = Some(CalibrationType::Rc);
    config.system_sensitivity_mdb = Some(-150_000);
    config.mic_hydro_sensitivity_mdb = Some(-180_000);
    assert_eq!(calculate_system_sensitivity_db(&config), Ok(-330_000));
}

#[test]
fn air_shifts_mic_sensitivity() {
    // in air the microphone sensitivity is first shifted down by 120 dB
    let mut config = water_config();
    config.environment = Environment::Air;
    config.calibration_type = Some(CalibrationType::Ts);
    config.mic_hydro_sensitivity_mdb = Some(-180_000);
    config.preamp_gain_mdb = Some(10_000);
    config.adc_vpeak_mv = Some(1_000);
    assert_eq!(calculate_system_sensitivity_db(&config), Ok(-290_000));
    config.calibration_type = Some(CalibrationType::Rc);
    config.system_sensitivity_mdb = Some(-150_000);
    assert_eq!(calculate_system_sensitivity_db(&config), Ok(-450_000));
}

#[test]
fn missing_fields_are_named() {
    let mut config = water_config();
    assert_eq!(
        calculate_system_sensitivity_db(&config),
        Err(AnalysisError::MissingCalibrationField(CalField::CalibrationType))
    );
    config.calibration_type = Some(CalibrationType::Ts);
    assert_eq!(
        calculate_system_sensitivity_db(&config),
        Err(AnalysisError::MissingCalibrationField(CalField::MicHydroSensitivity))
    );
    config.mic_hydro_sensitivity_mdb = Some(-180_000);
    assert_eq!(
        calculate_system_sensitivity_db(&config),
        Err(AnalysisError::MissingCalibrationField(CalField::PreampGain))
    );
    config.preamp_gain_mdb = Some(10_000);
    assert_eq!(
        calculate_system_sensitivity_db(&config),
        Err(AnalysisError::MissingCalibrationField(CalField::AdcVpeak))
    );
    config.calibration_type = Some(CalibrationType::Ee);
    assert_eq!(
        calculate_system_sensitivity_db(&config),
        Err(AnalysisError::MissingCalibrationField(CalField::SystemSensitivity))
    );
    config.calibration_type = Some(CalibrationType::Rc);
    assert_eq!(
        calculate_system_sensitivity_db(&config),
        Err(AnalysisError::MissingCalibrationField(CalField::SystemSensitivity))
    );
    config.system_sensitivity_mdb = Some(-150_000);
    config.mic_hydro_sensitivity_mdb = None;
    assert_eq!(
        calculate_system_sensitivity_db(&config),
        Err(AnalysisError::MissingCalibrationField(CalField::MicHydroSensitivity))
    );
}

#[test]
fn non_positive_adc_peak_rejected() {
    let mut config = water_config();
    config.calibration_type = Some(CalibrationType::Ts);
    config.mic_hydro_sensitivity_mdb = Some(-180_000);
    config.preamp_gain_mdb = Some(10_000);
    config.adc_vpeak_mv = Some(0);
    assert_eq!(calculate_system_sensitivity_db(&config), Err(AnalysisError::NonPositiveAdcPeak));
    config.adc_vpeak_mv = Some(-5);
    assert_eq!(calculate_system_sensitivity_db(&config), Err(AnalysisError::NonPositiveAdcPeak));
}
