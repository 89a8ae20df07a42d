use breathing_pacer::button::{Button, Buttons, Interruptor};
use breathing_pacer::config::{Config, SettingName};
use breathing_pacer::led::{Breather, BreathingLed};
use breathing_pacer::shared::SharedConfig;

#[test]
fn press_while_locked_is_deferred_until_release() {
    let mut shared = SharedConfig::new();
    shared.register_button(Button::new("Mode Selector"));

    shared.acquire();
    let before = shared.current_item();
    assert!(before.setting == SettingName::InhaleTimeMs);

    // The interrupt fires while the foreground holds the lock: the press
    // is latched, but the cursor must not move yet.
    shared.press(0);
    let during = shared.current_item();
    assert!(during.setting == before.setting);
    assert_eq!(during.value, before.value);
    shared.release();

    // The foreground's copy from inside the region still shows the
    // pre-interrupt cursor; only the next pass observes the move.
    assert!(before.setting == SettingName::InhaleTimeMs);
    shared.acquire();
    let after = shared.current_item();
    assert!(after.setting == SettingName::ExhaleTimeMs);
    shared.release();
}

#[test]
fn press_while_unlocked_fires_at_once() {
    let mut shared = SharedConfig::new();
    shared.register_button(Button::new("Mode Selector"));
    shared.press(0);
    shared.acquire();
    assert!(shared.current_item().setting == SettingName::ExhaleTimeMs);
    shared.release();
}

#[test]
fn one_press_services_exactly_once() {
    let mut config = Config::new();
    let mut button = Button::new("Mode Selector");
    button.press();
    assert!(button.signal(&mut config));
    assert!(config.current_item().setting == SettingName::ExhaleTimeMs);
    // The pending condition was cleared: servicing again does nothing.
    assert!(!button.signal(&mut config));
    assert!(config.current_item().setting == SettingName::ExhaleTimeMs);
}

#[test]
fn shared_interrupt_line_services_only_pending_buttons() {
    let mut config = Config::new();
    let mut table = Buttons::new();
    let mut pressed = Button::new("Mode Selector");
    pressed.press();
    table.register(pressed);
    table.register(Button::new("Spare"));
    table.isr(&mut config);
    // Only the pressed button advanced the cursor.
    assert!(config.current_item().setting == SettingName::ExhaleTimeMs);
    table.isr(&mut config);
    // Nothing was pending any more.
    assert!(config.current_item().setting == SettingName::ExhaleTimeMs);
}

#[test]
fn control_step_tunes_and_refreshes_the_driver() {
    let mut shared = SharedConfig::new();
    shared.register_button(Button::new("Mode Selector"));
    let mut led = BreathingLed::new();

    let current = shared.control_step(&mut led, 10);
    assert!(current.setting == SettingName::InhaleTimeMs);
    assert_eq!(current.value, 10000);
    assert_eq!(led.breathe_in_time_ms, 10000);
    assert_eq!(led.breathe_out_time_ms, 3000);
    assert_eq!(led.max_duty, 100);
    assert_eq!(led.min_duty, 0);

    // A press between iterations moves the cursor; the next pass tunes
    // the exhale duration instead.
    shared.press(0);
    let current = shared.control_step(&mut led, 5);
    assert!(current.setting == SettingName::ExhaleTimeMs);
    assert_eq!(current.value, 6500);
    assert_eq!(led.breathe_in_time_ms, 10000);
    assert_eq!(led.breathe_out_time_ms, 6500);
}

#[test]
fn fades_run_over_the_fields_at_start() {
    let mut led = BreathingLed::new();
    let inhale = led.breathe_in();
    assert_eq!(inhale.start_duty, 0);
    assert_eq!(inhale.end_duty, 100);
    assert_eq!(inhale.duration_ms, 3000);

    led.max_duty = 70;
    led.breathe_in_time_ms = 8000;
    led.breathe_out_time_ms = 4000;
    // The fade planned before the change is unaffected.
    assert_eq!(inhale.end_duty, 100);
    assert_eq!(inhale.duration_ms, 3000);

    let inhale = led.breathe_in();
    assert_eq!(inhale.end_duty, 70);
    assert_eq!(inhale.duration_ms, 8000);
    let exhale = led.breathe_out();
    assert_eq!(exhale.start_duty, 70);
    assert_eq!(exhale.end_duty, 0);
    assert_eq!(exhale.duration_ms, 4000);
}

#[test]
fn brightness_path_keeps_the_duty_range_ordered() {
    let mut shared = SharedConfig::new();
    shared.register_button(Button::new("Mode Selector"));
    let mut led = BreathingLed::new();
    // Walk the cursor to the brightness ceiling and tune it all the way
    // down: the duty range must stay ordered even at zero.
    for _ in 0..4 {
        shared.press(0);
    }
    let current = shared.control_step(&mut led, 0);
    assert!(current.setting == SettingName::BrightnessPct);
    assert_eq!(current.value, 0);
    assert_eq!(led.max_duty, 0);
    assert!(led.min_duty <= led.max_duty);
}
