use pamguide::config::{
    default_false, default_overlap_centi_percent, default_true, default_window_length_milli,
    default_window_type, default_window_unit, AnalysisConfig, AnalysisType, CalibrationType,
    Environment, WindowType, WindowUnit,
};
use pamguide::errors::AnalysisError;
use pamguide::freq::{high_bin_index, low_bin_index, select_bins};
use pamguide::plan::plan_analysis;
use pamguide::rounding::round_div_u128;
use pamguide::segment::{num_segments, segment_bounds, step_size};
use pamguide::timing::row_time_millis;
use pamguide::welch::{group_bounds, group_count, is_welch_active};
use pamguide::window::{window_alpha_milli, window_samples};

fn base_config() -> AnalysisConfig {
    AnalysisConfig {
        write_csv: true,
        create_batch_summary_file: true,
        write_individual_batch_csvs: false,
        analysis_type: AnalysisType::Psd,
        environment: Environment::Air,
        calibrated: false,
        calibration_type: None,
        mic_hydro_sensitivity_mdb: None,
        preamp_gain_mdb: None,
        adc_vpeak_mv: None,
        system_sensitivity_mdb: None,
        window_type: WindowType::Hann,
        window_length_milli: 1000,
        window_unit: WindowUnit::Seconds,
        overlap_centi_percent: 5000,
        low_cutoff_mhz: 100_000,
        high_cutoff_mhz: 2_000_000,
        welch_factor: None,
        timestamp_format: None,
    }
}

#[test]
fn default_settings() {
    assert_eq!(default_true(), true);
    assert_eq!(default_false(), false);
    assert_eq!(default_window_type(), WindowType::Hann);
    assert_eq!(default_window_unit(), WindowUnit::Seconds);
    assert_eq!(default_window_length_milli(), 1000);
    assert_eq!(default_overlap_centi_percent(), 5000);
}

#[test]
fn window_alpha_constants() {
    assert_eq!(window_alpha_milli(WindowType::Rectangular), 1000);
    assert_eq!(window_alpha_milli(WindowType::Hann), 500);
    assert_eq!(window_alpha_milli(WindowType::Hamming), 540);
    assert_eq!(window_alpha_milli(WindowType::Blackman), 420);
}

#[test]
fn window_samples_from_seconds_and_samples() {
    let mut config = base_config();
    assert_eq!(window_samples(&config, 8000), 8000);
    config.window_length_milli = 1500;
    assert_eq!(window_samples(&config, 1000), 1500);
    // rounding to the nearest sample: 1 ms at 8500 Hz is 8.5 samples
    config.window_length_milli = 1;
    assert_eq!(window_samples(&config, 8500), 9);
    // a sample count is truncated to whole samples
    config.window_unit = WindowUnit::Samples;
    config.window_length_milli = 500_900;
    assert_eq!(window_samples(&config, 8000), 500);
}

#[test]
fn step_rounds_to_nearest() {
    // 50% of 500 samples is exactly 250
    assert_eq!(step_size(500, 5000), 250);
    // 50% of 3 samples is 1.5, which rounds up to 2
    assert_eq!(step_size(3, 5000), 2);
    // 99.99% overlap of a 2-sample window rounds the hop to zero
    assert_eq!(step_size(2, 9999), 0);
    // no overlap keeps the full window as the hop
    assert_eq!(step_size(500, 0), 500);
}

#[test]
fn segment_count_example() {
    // T=1000, N=500, 50% overlap: step 250, (1000-500)/250 + 1 = 3 segments
    let step = step_size(500, 5000);
    assert_eq!(step, 250);
    assert_eq!(num_segments(1000, 500, step), 3);
    assert_eq!(segment_bounds(1000, 500, step, 0), (0, 500));
    assert_eq!(segment_bounds(1000, 500, step, 1), (250, 750));
    assert_eq!(segment_bounds(1000, 500, step, 2), (500, 1000));
}

#[test]
fn segment_count_truncates() {
    // (1100-500)/250 + 1 = 3: the tail that holds no full window is dropped
    assert_eq!(num_segments(1100, 500, 250), 3);
    assert_eq!(num_segments(499, 500, 250), 0);
}

#[test]
fn welch_grouping_example() {
    // k=2 over 5 spectra: ceil(5/2) = 3 groups, the last holds only 1
    assert!(is_welch_active(Some(2), 5));
    assert_eq!(group_count(Some(2), 5), 3);
    assert_eq!(group_bounds(2, 5, 0), (0, 2));
    assert_eq!(group_bounds(2, 5, 1), (2, 4));
    assert_eq!(group_bounds(2, 5, 2), (4, 5));
}

#[test]
fn welch_skipped_when_inactive() {
    // absent, too small, or larger than the segment count: pass-through
    assert!(!is_welch_active(None, 5));
    assert!(!is_welch_active(Some(1), 5));
    assert!(!is_welch_active(Some(6), 5));
    assert_eq!(group_count(None, 5), 5);
    assert_eq!(group_count(Some(1), 5), 5);
    assert_eq!(group_count(Some(6), 5), 5);
    assert_eq!(group_count(Some(5), 5), 1);
}

#[test]
fn bin_selection_exact() {
    // fs=8000, N=8: h=4 bins at 1000, 2000, 3000, 4000 Hz
    let r = select_bins(8000, 8, 1_000_000, 3_000_000).unwrap();
    assert_eq!((r.lo, r.hi), (0, 2));
    // cutoffs between bins move inward
    let r = select_bins(8000, 8, 1_000_001, 2_999_999).unwrap();
    assert_eq!((r.lo, r.hi), (1, 1));
}

#[test]
fn bin_selection_defaults_when_band_misses() {
    // a low cutoff above every bin falls back to bin 0
    assert_eq!(low_bin_index(8000, 4, 4_500_000), 0);
    // a high cutoff below every bin falls back to the last bin
    assert_eq!(high_bin_index(8000, 4, 500_000), 3);
}

#[test]
fn bin_selection_empty_band_fails() {
    // low resolves to bin 2 (3000 Hz), high to bin 1 (2000 Hz)
    let r = select_bins(8000, 8, 2_100_000, 2_900_000);
    assert_eq!(r, Err(AnalysisError::InvalidFrequencyRange));
}

#[test]
fn tone_scenario_bins() {
    // the 2 s, 1 kHz tone scenario: fs=8000, Hann window of 1.0 s, band
    // 100-2000 Hz; bins lie 1 Hz apart, the band keeps bins 99..=1999 and
    // the bin nearest 1000 Hz is index 999 of the selection's own axis
    let config = base_config();
    let plan = plan_analysis(16000, 8000, &config).unwrap();
    assert_eq!(plan.n_window, 8000);
    assert_eq!(plan.step, 4000);
    assert_eq!(plan.num_segments, 3);
    assert_eq!((plan.bin_lo, plan.bin_hi), (99, 1999));
    assert_eq!(plan.n_value_cols, 1901);
    assert_eq!(plan.n_groups, 3);
    assert_eq!(plan.time_multiplier, 1);
    assert!(!plan.welch_applied);
}

#[test]
fn plan_broadband_single_column() {
    let mut config = base_config();
    config.analysis_type = AnalysisType::Broadband;
    let plan = plan_analysis(16000, 8000, &config).unwrap();
    assert_eq!(plan.n_value_cols, 1);
    assert_eq!((plan.bin_lo, plan.bin_hi), (99, 1999));
}

#[test]
fn plan_welch_groups_and_multiplier() {
    let mut config = base_config();
    config.welch_factor = Some(2);
    // 2 s of signal, 1 s window, 50% overlap: 3 segments, 2 Welch groups
    let plan = plan_analysis(16000, 8000, &config).unwrap();
    assert_eq!(plan.num_segments, 3);
    assert!(plan.welch_applied);
    assert_eq!(plan.n_groups, 2);
    assert_eq!(plan.time_multiplier, 2);
}

#[test]
fn plan_invalid_window() {
    let mut config = base_config();
    // 1 s window over half a second of signal
    assert_eq!(plan_analysis(4000, 8000, &config), Err(AnalysisError::InvalidWindow));
    // an empty window
    config.window_unit = WindowUnit::Samples;
    config.window_length_milli = 900;
    assert_eq!(plan_analysis(4000, 8000, &config), Err(AnalysisError::InvalidWindow));
}

#[test]
fn plan_zero_step() {
    let mut config = base_config();
    config.window_unit = WindowUnit::Samples;
    config.window_length_milli = 2000;
    config.overlap_centi_percent = 9999;
    assert_eq!(plan_analysis(4000, 8000, &config), Err(AnalysisError::ZeroStep));
}

#[test]
fn plan_empty_band() {
    let mut config = base_config();
    config.low_cutoff_mhz = 2_100_000;
    config.high_cutoff_mhz = 2_900_000;
    config.window_unit = WindowUnit::Samples;
    config.window_length_milli = 8000;
    assert_eq!(plan_analysis(8, 8000, &config), Err(AnalysisError::InvalidFrequencyRange));
}

#[test]
fn validate_accepts_and_rejects() {
    let mut config = base_config();
    assert!(config.validate());
    config.overlap_centi_percent = 10000;
    assert!(!config.validate());
    config.overlap_centi_percent = 5000;
    config.low_cutoff_mhz = config.high_cutoff_mhz;
    assert!(!config.validate());
    config.low_cutoff_mhz = 100_000;
    config.calibrated = true;
    assert!(!config.validate());
    config.calibration_type = Some(CalibrationType::Ee);
    assert!(!config.validate());
    config.system_sensitivity_mdb = Some(-150_000);
    assert!(config.validate());
    // a scalar beyond the representable bound is rejected
    config.system_sensitivity_mdb = Some(pamguide::config::SCALAR_BOUND + 1);
    assert!(!config.validate());
}

#[test]
fn rounded_division_halves_up() {
    assert_eq!(round_div_u128(5, 2), 3);
    assert_eq!(round_div_u128(4, 2), 2);
    assert_eq!(round_div_u128(1500, 1000), 2);
    assert_eq!(round_div_u128(1499, 1000), 1);
    assert_eq!(round_div_u128(0, 7), 0);
}

#[test]
fn selected_bin_count() {
    let config = base_config();
    let plan = plan_analysis(16000, 8000, &config).unwrap();
    assert_eq!(plan.n_bins(), 1901);
}

#[test]
fn row_times_rounded_and_offset() {
    // row 3 at step 250, two segments per row, 8 kHz: 187.5 ms rounds to 188
    assert_eq!(row_time_millis(3, 250, 2, 8000, None), 188);
    assert_eq!(row_time_millis(3, 250, 2, 8000, Some(1000)), 1188);
    assert_eq!(row_time_millis(0, 250, 2, 8000, Some(-500)), -500);
    // relative rows: 0.5 s apart at step 4000, 8 kHz
    assert_eq!(row_time_millis(2, 4000, 1, 8000, None), 1000);
}
