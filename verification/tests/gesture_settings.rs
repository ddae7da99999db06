use aa_headunit_diagnostics::gesture_settings::{
    gesture_label, Action, GestureSettings, RawGestureSettings, DEFAULT_ARM_WINDOW_SECONDS,
    MAX_ARM_WINDOW_SECONDS, MIN_ARM_WINDOW_SECONDS,
};
use aa_headunit_diagnostics::platform::{GestureId, KeyCode};

/// Saves `settings` and loads the result back, the way a save followed by
/// a load goes through the gesture settings file.
fn save_and_load(settings: &GestureSettings) -> GestureSettings {
    let raw = settings.to_raw();
    GestureSettings::from_raw(&raw)
}

#[test]
fn gesture_settings_defaults_assign_every_gesture_a_functional_action() {
    let settings = GestureSettings::defaults();
    assert_eq!(settings.action_for(GestureId::DoubleTap), Action::OpenSettings);
    assert_eq!(settings.action_for(GestureId::TwoFingerTap), Action::ToggleFullscreen);
    assert_eq!(settings.action_for(GestureId::LongPress), Action::CycleRotation);
    assert_eq!(settings.action_for(GestureId::SwipeUp), Action::SwitchToNavigation);
    assert_eq!(settings.action_for(GestureId::SwipeDown), Action::SwitchToMedia);
    assert_eq!(settings.action_for(GestureId::SwipeLeft), Action::SwitchToPhone);
    assert_eq!(settings.action_for(GestureId::SwipeRight), Action::ToggleFullscreen);
    assert_eq!(settings.action_for(GestureId::Circle), Action::ScreenOff);
}

#[test]
fn gesture_settings_every_switch_to_action_carries_the_expected_key_code() {
    assert_eq!(Action::SwitchToMedia.key_code(), Some(KeyCode::Media));
    assert_eq!(Action::SwitchToNavigation.key_code(), Some(KeyCode::Navigation));
    assert_eq!(Action::SwitchToRadio.key_code(), Some(KeyCode::Radio));
    assert_eq!(Action::SwitchToPhone.key_code(), Some(KeyCode::Tel));
    assert_eq!(Action::OpenSettings.key_code(), None);
    assert_eq!(Action::ToggleFullscreen.key_code(), None);
    assert_eq!(Action::CycleRotation.key_code(), None);
    assert_eq!(Action::ScreenOff.key_code(), None);
}

#[test]
fn gesture_settings_a_circle_gesture_reassignment_round_trips() {
    let mut settings = GestureSettings::defaults();
    settings.set_action(GestureId::Circle, Action::OpenSettings);
    let loaded = save_and_load(&settings);
    assert_eq!(loaded.action_for(GestureId::Circle), Action::OpenSettings);
}

#[test]
fn gesture_settings_a_swipe_gesture_reassignment_round_trips() {
    let mut settings = GestureSettings::defaults();
    settings.set_action(GestureId::SwipeUp, Action::SwitchToRadio);
    let loaded = save_and_load(&settings);
    assert_eq!(loaded.action_for(GestureId::SwipeUp), Action::SwitchToRadio);
}

#[test]
fn gesture_settings_save_then_load_round_trips_a_reassignment() {
    let mut settings = GestureSettings::defaults();
    settings.set_action(GestureId::DoubleTap, Action::CycleRotation);
    let loaded = save_and_load(&settings);
    assert_eq!(loaded.action_for(GestureId::DoubleTap), Action::CycleRotation);
    assert_eq!(loaded.action_for(GestureId::TwoFingerTap), Action::ToggleFullscreen);
}

#[test]
fn an_empty_gesture_settings_file_loads_as_the_defaults() {
    let raw = RawGestureSettings {
        double_tap: None,
        two_finger_tap: None,
        long_press: None,
        swipe_up: None,
        swipe_down: None,
        swipe_left: None,
        swipe_right: None,
        circle: None,
        arm_window_seconds: None,
    };
    assert_eq!(GestureSettings::from_raw(&raw), GestureSettings::defaults());
}

#[test]
fn gesture_settings_arm_window_seconds_round_trips_and_persists() {
    let mut settings = GestureSettings::defaults();
    assert_eq!(settings.arm_window_seconds(), DEFAULT_ARM_WINDOW_SECONDS);
    settings.set_arm_window_seconds(10);
    assert_eq!(save_and_load(&settings).arm_window_seconds(), 10);
}

#[test]
fn gesture_settings_arm_window_seconds_clamps_to_the_allowed_range() {
    let mut settings = GestureSettings::defaults();
    settings.set_arm_window_seconds(0);
    assert_eq!(settings.arm_window_seconds(), MIN_ARM_WINDOW_SECONDS);
    settings.set_arm_window_seconds(1000);
    assert_eq!(settings.arm_window_seconds(), MAX_ARM_WINDOW_SECONDS);
}

#[test]
fn gesture_settings_gesture_label_is_distinct_and_readable_per_gesture() {
    assert_eq!(gesture_label(GestureId::DoubleTap), "Double-tap");
    assert_eq!(gesture_label(GestureId::TwoFingerTap), "Two-finger tap");
    assert_eq!(gesture_label(GestureId::LongPress), "Long press");
}

#[test]
fn gesture_action_keys_round_trip() {
    for action in Action::all() {
        assert_eq!(Action::from_key(action.key()), Some(action));
    }
    assert_eq!(Action::from_key("cycle_rotation"), Some(Action::CycleRotation));
    assert_eq!(Action::from_key(""), None);
}
