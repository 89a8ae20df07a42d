use breathing_pacer::config::{segment_to_value, Config, SettingName};

#[test]
fn new_starts_at_defaults() {
    let config = Config::new();
    assert_eq!(config.get(SettingName::InhaleTimeMs), Some(3000));
    assert_eq!(config.get(SettingName::ExhaleTimeMs), Some(3000));
    assert_eq!(config.get(SettingName::HoldTimeMs), Some(1000));
    assert_eq!(config.get(SettingName::AirlessTimeMs), Some(500));
    assert_eq!(config.get(SettingName::BrightnessPct), Some(100));
    assert!(config.current_item().setting == SettingName::InhaleTimeMs);
}

#[test]
fn adjust_current_hits_min_and_max() {
    // Freshly constructed, the cursor sits on the inhale duration.
    let mut config = Config::new();
    config.adjust_current_setting(0);
    assert_eq!(config.get(SettingName::InhaleTimeMs), Some(3000));
    config.adjust_current_setting(10);
    assert_eq!(config.get(SettingName::InhaleTimeMs), Some(10000));
}

#[test]
fn next_item_advances_one_and_wraps() {
    let mut config = Config::new();
    config.next_item();
    assert!(config.current_item().setting == SettingName::ExhaleTimeMs);
    config.next_item();
    assert!(config.current_item().setting == SettingName::HoldTimeMs);
    config.next_item();
    assert!(config.current_item().setting == SettingName::AirlessTimeMs);
    config.next_item();
    assert!(config.current_item().setting == SettingName::BrightnessPct);
    config.next_item();
    assert!(config.current_item().setting == SettingName::InhaleTimeMs);
}

#[test]
fn next_item_five_times_returns_to_start() {
    let mut config = Config::new();
    let first = config.current_item().setting;
    for _ in 0..5 {
        config.next_item();
    }
    assert!(config.current_item().setting == first);
}

#[test]
fn adjust_stays_in_range_and_is_monotone() {
    let settings = [
        SettingName::InhaleTimeMs,
        SettingName::ExhaleTimeMs,
        SettingName::HoldTimeMs,
        SettingName::AirlessTimeMs,
        SettingName::BrightnessPct,
    ];
    let ranges = [(3000, 10000), (3000, 10000), (1000, 10000), (500, 10000), (0, 100)];
    for (k, setting) in settings.iter().enumerate() {
        let (min, max) = ranges[k];
        let mut config = Config::new();
        let mut previous: u16 = min;
        for segment in 0u8..=10u8 {
            config.adjust_setting(*setting, segment);
            let value = config.get(*setting).unwrap();
            assert!(min <= value && value <= max);
            assert!(previous <= value);
            previous = value;
        }
        assert_eq!(previous, max);
    }
}

#[test]
fn adjust_endpoints_are_exact() {
    let mut config = Config::new();
    config.adjust_setting(SettingName::HoldTimeMs, 0);
    assert_eq!(config.get(SettingName::HoldTimeMs), Some(1000));
    config.adjust_setting(SettingName::HoldTimeMs, 10);
    assert_eq!(config.get(SettingName::HoldTimeMs), Some(10000));
    config.adjust_setting(SettingName::BrightnessPct, 0);
    assert_eq!(config.get(SettingName::BrightnessPct), Some(0));
    config.adjust_setting(SettingName::BrightnessPct, 10);
    assert_eq!(config.get(SettingName::BrightnessPct), Some(100));
}

#[test]
fn segment_to_value_interpolates_exactly() {
    assert_eq!(segment_to_value(0, 0, 10, 3000, 10000), 3000);
    assert_eq!(segment_to_value(5, 0, 10, 3000, 10000), 6500);
    assert_eq!(segment_to_value(10, 0, 10, 3000, 10000), 10000);
    assert_eq!(segment_to_value(7, 0, 10, 0, 100), 70);
    // Truncating division: 1/3 of 0..=100 lands on 33.
    assert_eq!(segment_to_value(1, 0, 3, 0, 100), 33);
}

#[test]
fn adjust_setting_touches_only_its_item() {
    let mut config = Config::new();
    config.adjust_setting(SettingName::AirlessTimeMs, 10);
    assert_eq!(config.get(SettingName::AirlessTimeMs), Some(10000));
    assert_eq!(config.get(SettingName::InhaleTimeMs), Some(3000));
    assert_eq!(config.get(SettingName::ExhaleTimeMs), Some(3000));
    assert_eq!(config.get(SettingName::HoldTimeMs), Some(1000));
    assert_eq!(config.get(SettingName::BrightnessPct), Some(100));
    assert!(config.current_item().setting == SettingName::InhaleTimeMs);
}

#[test]
fn adjust_setting_by_index_targets_position() {
    let mut config = Config::new();
    config.adjust_setting_by_index(2, 5);
    // Hold time spans 1000..=10000: segment 5 lands on 1000 + 4500.
    assert_eq!(config.get(SettingName::HoldTimeMs), Some(5500));
}

#[test]
fn setting_labels() {
    assert_eq!(SettingName::InhaleTimeMs.as_str(), "Inhale Time MS");
    assert_eq!(SettingName::ExhaleTimeMs.as_str(), "Exhale Time MS");
    assert_eq!(SettingName::HoldTimeMs.as_str(), "Hold Time MS");
    assert_eq!(SettingName::AirlessTimeMs.as_str(), "Airless Time MS");
    assert_eq!(SettingName::BrightnessPct.as_str(), "Brightness Pct");
}
