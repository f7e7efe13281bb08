use nightlight::analysis::{analyze_frame_for_nightlight, FrameAnalysis};
use nightlight::config::{
    validate_update, ConfigError, DisplayCommand, NightLightConfig, UpdateConfigRequest,
};
use nightlight::control::SystemStatus;
use nightlight::controller::{
    calculate_optimal_night_light_temperature, FrameProcessor, ADJUSTMENT_INTERVAL_NS,
};
use nightlight::format::PixelFormat;
use nightlight::frame::FrameData;

fn analysis(brightness_milli: u32, blue_milli: u32, ambient_ppm: u32) -> FrameAnalysis {
    FrameAnalysis { brightness_milli, blue_milli, ambient_ppm, age_ms: 0, frame_size: 0 }
}

fn enabled_config(kelvin: u32) -> NightLightConfig {
    let mut config = NightLightConfig::default();
    assert_eq!(config.set_temperature(kelvin), Ok(None));
    config.set_enabled(true);
    config
}

#[test]
fn bright_blue_lit_screen_clamps_to_warmest() {
    assert_eq!(
        calculate_optimal_night_light_temperature(&analysis(255_000, 255_000, 1_000_000)),
        3000
    );
}

#[test]
fn black_frame_clamps_to_coldest() {
    let f = FrameData {
        data: vec![0; 27],
        width: 3,
        height: 3,
        format: PixelFormat::Rgb,
        timestamp: 0,
    };
    let a = analyze_frame_for_nightlight(&f, 0);
    assert_eq!((a.brightness_milli, a.blue_milli, a.ambient_ppm), (0, 0, 0));
    assert_eq!(calculate_optimal_night_light_temperature(&a), 6500);
}

#[test]
fn target_follows_the_formula_between_the_bounds() {
    // 3000 + 0.5 * 4500 - 0.5 * 1000 - 0.65 * 800
    assert_eq!(
        calculate_optimal_night_light_temperature(&analysis(127_500, 127_500, 650_000)),
        4230
    );
    // 3000 + 4500 - 1000 - 0
    assert_eq!(calculate_optimal_night_light_temperature(&analysis(0, 255_000, 0)), 6500);
    // 3000 + 4500 - 1000 - 800
    assert_eq!(
        calculate_optimal_night_light_temperature(&analysis(0, 255_000, 1_000_000)),
        5700
    );
    // 3000 + 0 - 0 - 0
    assert_eq!(calculate_optimal_night_light_temperature(&analysis(255_000, 0, 0)), 3000);
    // 3000 + (1 - 100/255) * 4500 - 0 - 0 = 5735.29...
    assert_eq!(calculate_optimal_night_light_temperature(&analysis(100_000, 0, 0)), 5735);
    // 7500 - 0.001 * 4500 / 255 rounds down
    assert_eq!(calculate_optimal_night_light_temperature(&analysis(56_667, 0, 0)), 6499);
    assert_eq!(calculate_optimal_night_light_temperature(&analysis(56_666, 0, 0)), 6500);
}

#[test]
fn target_stays_in_bounds_for_any_analysis() {
    let values = [0u32, 1, 1000, 127_500, 255_000, 1_000_000, u32::MAX];
    for &b in &values {
        for &u in &values {
            for &a in &values {
                let input = analysis(b, u, a);
                let kelvin = calculate_optimal_night_light_temperature(&input);
                assert!((3000..=6500).contains(&kelvin));
                assert_eq!(kelvin, calculate_optimal_night_light_temperature(&input));
            }
        }
    }
}

#[test]
fn brighter_is_never_colder() {
    let mut last = 6500;
    for step in 0..=255u32 {
        let kelvin = calculate_optimal_night_light_temperature(&analysis(step * 1000, 0, 0));
        assert!(kelvin <= last);
        last = kelvin;
    }
    assert_eq!(last, 3000);
}

#[test]
fn default_config_is_4000_kelvin_and_off() {
    let config = NightLightConfig::default();
    assert_eq!(config.temperature(), 4000);
    assert!(!config.enabled());
}

#[test]
fn temperature_out_of_range_is_refused() {
    let mut config = NightLightConfig::default();
    for kelvin in [0u32, 999, 10_001, u32::MAX] {
        assert_eq!(config.set_temperature(kelvin), Err(ConfigError::TemperatureOutOfRange));
        assert_eq!(config.temperature(), 4000);
        assert!(!config.enabled());
    }
}

#[test]
fn temperature_in_range_is_stored() {
    let mut config = NightLightConfig::default();
    assert_eq!(config.set_temperature(1000), Ok(None));
    assert_eq!(config.temperature(), 1000);
    assert_eq!(config.set_temperature(10_000), Ok(None));
    assert_eq!(config.temperature(), 10_000);
    assert!(!config.enabled());
}

#[test]
fn temperature_is_shown_only_while_enabled() {
    let mut config = NightLightConfig::default();
    assert_eq!(config.set_temperature(5000), Ok(None));
    assert_eq!(
        config.set_enabled(true),
        vec![DisplayCommand::Enable, DisplayCommand::SetTemperature(5000)]
    );
    assert!(config.enabled());
    assert_eq!(config.set_temperature(5200), Ok(Some(DisplayCommand::SetTemperature(5200))));
    assert_eq!(config.temperature(), 5200);
    assert_eq!(config.set_enabled(false), vec![DisplayCommand::Disable]);
    assert!(!config.enabled());
    assert_eq!(config.temperature(), 5200);
    assert_eq!(config.set_temperature(5300), Ok(None));
}

#[test]
fn confirm_temperature_keeps_the_range() {
    let mut config = NightLightConfig::default();
    config.confirm_temperature(6500);
    assert_eq!(config.temperature(), 6500);
    config.confirm_temperature(999);
    assert_eq!(config.temperature(), 6500);
    config.confirm_temperature(10_001);
    assert_eq!(config.temperature(), 6500);
}

#[test]
fn confirm_disabled_switches_off() {
    let mut config = enabled_config(4500);
    config.confirm_disabled();
    assert!(!config.enabled());
    assert_eq!(config.temperature(), 4500);
}

#[test]
fn request_is_checked_before_anything_changes() {
    let request = |temperature, enabled| UpdateConfigRequest { temperature, enabled };
    assert_eq!(validate_update(&request(None, None)), Err(ConfigError::NoValidParameters));
    assert_eq!(validate_update(&request(Some(999), None)), Err(ConfigError::TemperatureOutOfRange));
    assert_eq!(
        validate_update(&request(Some(10_001), Some(true))),
        Err(ConfigError::TemperatureOutOfRange)
    );
    assert_eq!(validate_update(&request(Some(1000), None)), Ok(()));
    assert_eq!(validate_update(&request(Some(10_000), Some(false))), Ok(()));
    assert_eq!(validate_update(&request(None, Some(true))), Ok(()));
}

#[test]
fn processor_counts_and_reports_frames() {
    let mut processor = FrameProcessor::new(0);
    let mut status = SystemStatus::new();
    let f = FrameData {
        data: vec![255; 12],
        width: 2,
        height: 2,
        format: PixelFormat::Rgb,
        timestamp: 1_000_000,
    };
    let a = processor.record_frame(&mut status, &f, 3_000_000, 1_700_000_000_000);
    assert_eq!(a, analyze_frame_for_nightlight(&f, 3_000_000));
    assert_eq!(a.age_ms, 2);
    assert_eq!(processor.frames_processed, 1);
    assert_eq!(processor.pending, Some(a));
    assert_eq!(processor.last_adjustment, 0);
    assert_eq!(status.frames_processed, 1);
    assert_eq!(status.current_analysis, Some(a));
    assert_eq!(status.last_update, 1_700_000_000_000);
    assert!(!status.running);
    processor.record_frame(&mut status, &f, 4_000_000, 1_700_000_000_001);
    assert_eq!(processor.frames_processed, 2);
    assert_eq!(status.frames_processed, 2);
}

#[test]
fn processor_count_stops_at_the_top() {
    let mut processor =
        FrameProcessor { frames_processed: u64::MAX, pending: None, last_adjustment: 0 };
    let mut status = SystemStatus::new();
    let f =
        FrameData { data: vec![1], width: 1, height: 1, format: PixelFormat::I420, timestamp: 0 };
    processor.record_frame(&mut status, &f, 0, 0);
    assert_eq!(processor.frames_processed, u64::MAX);
    assert_eq!(status.frames_processed, u64::MAX);
}

#[test]
fn tick_waits_for_the_interval() {
    let config = enabled_config(4000);
    let mut processor = FrameProcessor::new(1_000);
    processor.pending = Some(analysis(0, 0, 0));
    let before = processor;
    assert_eq!(processor.tick(&config, 1_000 + ADJUSTMENT_INTERVAL_NS - 1), None);
    assert_eq!(processor, before);
    assert_eq!(processor.tick(&config, 0), None);
    assert_eq!(processor, before);
    assert_eq!(processor.tick(&config, 1_000 + ADJUSTMENT_INTERVAL_NS), Some(6500));
    assert_eq!(processor.pending, None);
    assert_eq!(processor.last_adjustment, 1_000 + ADJUSTMENT_INTERVAL_NS);
}

#[test]
fn tick_does_nothing_while_disabled() {
    let config = NightLightConfig::default();
    let mut processor = FrameProcessor::new(0);
    processor.pending = Some(analysis(0, 0, 0));
    assert_eq!(processor.tick(&config, ADJUSTMENT_INTERVAL_NS), None);
    assert_eq!(processor.pending, None);
    assert_eq!(processor.last_adjustment, ADJUSTMENT_INTERVAL_NS);
}

#[test]
fn tick_suppresses_a_write_of_the_shown_temperature() {
    let config = enabled_config(6500);
    let mut processor = FrameProcessor::new(0);
    processor.pending = Some(analysis(0, 0, 0));
    assert_eq!(processor.tick(&config, ADJUSTMENT_INTERVAL_NS), None);
    assert_eq!(processor.last_adjustment, ADJUSTMENT_INTERVAL_NS);
}

#[test]
fn tick_without_a_new_analysis_starts_the_interval_anew() {
    let config = enabled_config(4000);
    let mut processor = FrameProcessor::new(0);
    assert_eq!(processor.tick(&config, ADJUSTMENT_INTERVAL_NS), None);
    assert_eq!(processor.last_adjustment, ADJUSTMENT_INTERVAL_NS);
    processor.pending = Some(analysis(255_000, 0, 0));
    assert_eq!(processor.tick(&config, ADJUSTMENT_INTERVAL_NS + 1), None);
    assert_eq!(processor.tick(&config, 2 * ADJUSTMENT_INTERVAL_NS), Some(3000));
}

#[test]
fn failed_write_is_tried_again_at_the_next_tick() {
    let mut config = enabled_config(4000);
    let mut processor = FrameProcessor::new(0);
    let mut status = SystemStatus::new();
    let f =
        FrameData { data: vec![0; 3], width: 1, height: 1, format: PixelFormat::Rgb, timestamp: 0 };
    processor.record_frame(&mut status, &f, 0, 0);
    assert_eq!(processor.tick(&config, ADJUSTMENT_INTERVAL_NS), Some(6500));
    // the display refused: nothing is recorded
    assert_eq!(config.temperature(), 4000);
    processor.record_frame(&mut status, &f, ADJUSTMENT_INTERVAL_NS + 1, 0);
    assert_eq!(processor.tick(&config, 2 * ADJUSTMENT_INTERVAL_NS), Some(6500));
    // this time it took it on
    config.confirm_temperature(6500);
    processor.record_frame(&mut status, &f, 2 * ADJUSTMENT_INTERVAL_NS + 1, 0);
    assert_eq!(processor.tick(&config, 3 * ADJUSTMENT_INTERVAL_NS), None);
}
