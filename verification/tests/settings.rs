use aa_headunit_diagnostics::platform::{GestureId, ProviderPreference, Rotation};
use aa_headunit_diagnostics::settings::{
    gesture_label, rotation_from_degrees, rotation_to_degrees, Action, HeadUnitSettings,
    RawSettings, DEFAULT_ARM_WINDOW_SECONDS, DEFAULT_DISPLAY_BRIGHTNESS_PERCENT, EQ_PRESET_COUNT,
    MAX_ARM_WINDOW_SECONDS, MAX_DISPLAY_BRIGHTNESS_PERCENT, MAX_EQ_PRESET_NAME_CHARS,
    MAX_VOLUME_PERCENT, MIN_ARM_WINDOW_SECONDS, MIN_DISPLAY_BRIGHTNESS_PERCENT,
};
use aa_headunit_diagnostics::platform::KeyCode;

/// Saves `settings` over whatever `disk` holds and loads the result back,
/// the way a save followed by a load goes through the settings file.
fn save(settings: &HeadUnitSettings, disk: &mut Option<HeadUnitSettings>) {
    let raw = settings.to_raw(disk);
    *disk = Some(HeadUnitSettings::from_raw(raw));
}

fn load(disk: &Option<HeadUnitSettings>) -> HeadUnitSettings {
    match disk {
        Some(settings) => settings.clone(),
        None => HeadUnitSettings::defaults(),
    }
}

#[test]
fn settings_defaults_assign_every_gesture_a_functional_action() {
    let settings = HeadUnitSettings::defaults();
    assert_eq!(settings.action_for(GestureId::DoubleTap), Action::OpenSettings);
    assert_eq!(settings.action_for(GestureId::TwoFingerTap), Action::ToggleFullscreen);
    assert_eq!(settings.action_for(GestureId::LongPress), Action::QuickControls);
    assert_eq!(settings.action_for(GestureId::SwipeUp), Action::SwitchToNavigation);
    assert_eq!(settings.action_for(GestureId::SwipeDown), Action::SwitchToMedia);
    assert_eq!(settings.action_for(GestureId::SwipeLeft), Action::SwitchToPhone);
    assert_eq!(settings.action_for(GestureId::SwipeRight), Action::FlipScreen);
    assert_eq!(settings.action_for(GestureId::Circle), Action::ScreenOff);
}

#[test]
fn settings_every_switch_to_action_carries_the_expected_key_code() {
    assert_eq!(Action::SwitchToMedia.key_code(), Some(KeyCode::Media));
    assert_eq!(Action::SwitchToNavigation.key_code(), Some(KeyCode::Navigation));
    assert_eq!(Action::SwitchToRadio.key_code(), Some(KeyCode::Radio));
    assert_eq!(Action::SwitchToPhone.key_code(), Some(KeyCode::Tel));
    assert_eq!(Action::OpenSettings.key_code(), None);
    assert_eq!(Action::ToggleFullscreen.key_code(), None);
    assert_eq!(Action::FlipScreen.key_code(), None);
    assert_eq!(Action::ScreenOff.key_code(), None);
    assert_eq!(Action::QuickControls.key_code(), None);
}

#[test]
fn settings_a_circle_gesture_reassignment_round_trips() {
    let mut disk = None;
    let mut settings = HeadUnitSettings::defaults();
    settings.set_action(GestureId::Circle, Action::OpenSettings);
    save(&settings, &mut disk);
    let loaded = load(&disk);
    assert_eq!(loaded.action_for(GestureId::Circle), Action::OpenSettings);
}

#[test]
fn settings_a_swipe_gesture_reassignment_round_trips() {
    let mut disk = None;
    let mut settings = HeadUnitSettings::defaults();
    settings.set_action(GestureId::SwipeUp, Action::SwitchToRadio);
    save(&settings, &mut disk);
    let loaded = load(&disk);
    assert_eq!(loaded.action_for(GestureId::SwipeUp), Action::SwitchToRadio);
}

#[test]
fn settings_save_then_load_round_trips_a_reassignment() {
    let mut disk = None;
    let mut settings = HeadUnitSettings::defaults();
    settings.set_action(GestureId::DoubleTap, Action::FlipScreen);
    save(&settings, &mut disk);
    let loaded = load(&disk);
    assert_eq!(loaded.action_for(GestureId::DoubleTap), Action::FlipScreen);
    assert_eq!(loaded.action_for(GestureId::TwoFingerTap), Action::ToggleFullscreen);
}

#[test]
fn mtp_popup_suppression_defaults_off_and_round_trips_on() {
    let defaults = HeadUnitSettings::defaults();
    assert!(!defaults.mtp_popup_suppression_enabled());
    let mut disk = None;
    let mut settings = HeadUnitSettings::defaults();
    settings.set_mtp_popup_suppression_enabled(true);
    save(&settings, &mut disk);
    assert!(load(&disk).mtp_popup_suppression_enabled());
}

#[test]
fn settings_load_falls_back_to_defaults_when_the_file_is_missing() {
    assert_eq!(load(&None), HeadUnitSettings::defaults());
}

#[test]
fn an_empty_settings_file_loads_as_the_defaults() {
    assert_eq!(HeadUnitSettings::from_raw(RawSettings::default()), HeadUnitSettings::defaults());
}

#[test]
fn settings_arm_window_seconds_round_trips_and_persists() {
    let mut disk = None;
    let mut settings = HeadUnitSettings::defaults();
    assert_eq!(settings.arm_window_seconds(), DEFAULT_ARM_WINDOW_SECONDS);
    settings.set_arm_window_seconds(10);
    save(&settings, &mut disk);
    assert_eq!(load(&disk).arm_window_seconds(), 10);
}

#[test]
fn settings_arm_window_seconds_clamps_to_the_allowed_range() {
    let mut settings = HeadUnitSettings::defaults();
    settings.set_arm_window_seconds(0);
    assert_eq!(settings.arm_window_seconds(), MIN_ARM_WINDOW_SECONDS);
    settings.set_arm_window_seconds(1000);
    assert_eq!(settings.arm_window_seconds(), MAX_ARM_WINDOW_SECONDS);
}

#[test]
fn settings_gesture_label_is_distinct_and_readable_per_gesture() {
    assert_eq!(gesture_label(GestureId::DoubleTap), "Double-tap");
    assert_eq!(gesture_label(GestureId::TwoFingerTap), "Two-finger tap");
    assert_eq!(gesture_label(GestureId::LongPress), "Long press");
}

#[test]
fn rotation_defaults_to_zero_and_round_trips() {
    assert_eq!(HeadUnitSettings::defaults().rotation(), Rotation::Normal);
    let mut disk = None;
    let mut settings = HeadUnitSettings::defaults();
    settings.set_rotation(Rotation::Flipped180);
    save(&settings, &mut disk);
    assert_eq!(load(&disk).rotation(), Rotation::Flipped180);
}

#[test]
fn rotation_is_stored_in_degrees() {
    assert_eq!(rotation_to_degrees(Rotation::Normal), 0);
    assert_eq!(rotation_to_degrees(Rotation::Flipped180), 180);
    assert_eq!(rotation_from_degrees(0), Some(Rotation::Normal));
    assert_eq!(rotation_from_degrees(180), Some(Rotation::Flipped180));
    assert_eq!(rotation_from_degrees(90), None);
}

#[test]
fn display_brightness_defaults_full_and_clamps_and_round_trips() {
    let defaults = HeadUnitSettings::defaults();
    assert_eq!(defaults.display_brightness_percent(), DEFAULT_DISPLAY_BRIGHTNESS_PERCENT);
    let mut settings = HeadUnitSettings::defaults();
    settings.set_display_brightness_percent(0);
    assert_eq!(settings.display_brightness_percent(), MIN_DISPLAY_BRIGHTNESS_PERCENT);
    settings.set_display_brightness_percent(255);
    assert_eq!(settings.display_brightness_percent(), MAX_DISPLAY_BRIGHTNESS_PERCENT);
    let mut disk = None;
    settings.set_display_brightness_percent(42);
    save(&settings, &mut disk);
    assert_eq!(load(&disk).display_brightness_percent(), 42);
}

#[test]
fn audio_and_microphone_devices_default_to_system_default_and_round_trip() {
    let defaults = HeadUnitSettings::defaults();
    assert_eq!(defaults.audio_output_device(), None);
    assert_eq!(defaults.microphone_input_device(), None);
    let mut disk = None;
    let mut settings = HeadUnitSettings::defaults();
    settings.set_audio_output_device(Some("alsa_output.example".to_string()));
    settings.set_microphone_input_device(Some("alsa_input.example".to_string()));
    save(&settings, &mut disk);
    let loaded = load(&disk);
    assert_eq!(loaded.audio_output_device(), Some("alsa_output.example"));
    assert_eq!(loaded.microphone_input_device(), Some("alsa_input.example"));
}

#[test]
fn night_mode_gpio_line_defaults_to_disabled_and_round_trips() {
    assert_eq!(HeadUnitSettings::defaults().night_mode_gpio_line(), None);
    let mut disk = None;
    let mut settings = HeadUnitSettings::defaults();
    settings.set_night_mode_gpio_line(Some(17));
    save(&settings, &mut disk);
    assert_eq!(load(&disk).night_mode_gpio_line(), Some(17));
}

#[test]
fn radio_preferences_default_to_auto_and_round_trip_all_variants() {
    let defaults = HeadUnitSettings::defaults();
    assert_eq!(defaults.wifi_preference(), &ProviderPreference::Auto);
    assert_eq!(defaults.bluetooth_preference(), &ProviderPreference::Auto);
    let mut disk = None;
    let mut settings = HeadUnitSettings::defaults();
    settings.set_wifi_preference(ProviderPreference::Onboard);
    settings.set_bluetooth_preference(ProviderPreference::StableId("usb:1234:5678:1-2".to_string()));
    save(&settings, &mut disk);
    let loaded = load(&disk);
    assert_eq!(loaded.wifi_preference(), &ProviderPreference::Onboard);
    assert_eq!(
        loaded.bluetooth_preference(),
        &ProviderPreference::StableId("usb:1234:5678:1-2".to_string())
    );
}

#[test]
fn theme_defaults_to_none_and_round_trips() {
    assert_eq!(HeadUnitSettings::defaults().theme(), None);
    let mut disk = None;
    let mut settings = HeadUnitSettings::defaults();
    settings.set_theme(Some("sunset".to_string()));
    save(&settings, &mut disk);
    assert_eq!(load(&disk).theme(), Some("sunset"));
}

#[test]
fn a_second_already_loaded_settings_instance_does_not_clobber_a_concurrently_saved_theme() {
    let mut disk = None;
    let mut process_a = HeadUnitSettings::defaults();
    save(&process_a, &mut disk);
    let mut process_b = load(&disk);

    process_a.set_theme(Some("sunset".to_string()));
    save(&process_a, &mut disk);
    assert_eq!(load(&disk).theme(), Some("sunset"));

    process_b.set_launch_on_boot(true);
    save(&process_b, &mut disk);

    let loaded = load(&disk);
    assert_eq!(loaded.theme(), Some("sunset"));
    assert!(loaded.launch_on_boot());
}

#[test]
fn launch_on_boot_defaults_to_false_and_round_trips_enabled() {
    assert!(!HeadUnitSettings::defaults().launch_on_boot());
    let mut disk = None;
    let mut settings = HeadUnitSettings::defaults();
    settings.set_launch_on_boot(true);
    save(&settings, &mut disk);
    assert!(load(&disk).launch_on_boot());
}

#[test]
fn wireless_bluetooth_auto_connect_defaults_on_and_round_trips_disabled() {
    assert!(HeadUnitSettings::defaults().wireless_bluetooth_auto_connect());
    let mut disk = None;
    let mut settings = HeadUnitSettings::defaults();
    settings.set_wireless_bluetooth_auto_connect(false);
    save(&settings, &mut disk);
    assert!(!load(&disk).wireless_bluetooth_auto_connect());
}

#[test]
fn experimental_disclaimer_dismissed_defaults_to_false_and_round_trips_true() {
    assert!(!HeadUnitSettings::defaults().experimental_disclaimer_dismissed());
    let mut disk = None;
    let mut settings = HeadUnitSettings::defaults();
    settings.set_experimental_disclaimer_dismissed(true);
    save(&settings, &mut disk);
    assert!(load(&disk).experimental_disclaimer_dismissed());
}

#[test]
fn legal_page_hidden_defaults_to_false_and_round_trips_true() {
    assert!(!HeadUnitSettings::defaults().legal_page_hidden());
    let mut disk = None;
    let mut settings = HeadUnitSettings::defaults();
    settings.set_experimental_disclaimer_dismissed(true);
    settings.set_legal_page_hidden(true);
    save(&settings, &mut disk);
    assert!(load(&disk).legal_page_hidden());
}

#[test]
fn legal_page_hidden_reads_as_false_when_disclaimer_not_accepted() {
    let mut settings = HeadUnitSettings::defaults();
    settings.set_legal_page_hidden(true);
    assert!(!settings.experimental_disclaimer_dismissed());
    assert!(!settings.legal_page_hidden());
}

#[test]
fn volume_percent_defaults_to_100_and_clamps_and_round_trips() {
    assert_eq!(HeadUnitSettings::defaults().volume_percent(), 100);
    let mut settings = HeadUnitSettings::defaults();
    settings.set_volume_percent(255);
    assert_eq!(settings.volume_percent(), MAX_VOLUME_PERCENT);
    let mut disk = None;
    let mut settings = HeadUnitSettings::defaults();
    settings.set_volume_percent(42);
    save(&settings, &mut disk);
    assert_eq!(load(&disk).volume_percent(), 42);
}

#[test]
fn eq_preset_names_default_trim_truncate_blank_reset_and_round_trip() {
    let defaults = HeadUnitSettings::defaults();
    assert_eq!(defaults.eq_preset_name(0), "Preset 1");
    assert_eq!(defaults.eq_preset_name(3), "Preset 4");
    assert_eq!(defaults.eq_preset_name(EQ_PRESET_COUNT), "Preset");

    let mut settings = HeadUnitSettings::defaults();
    settings.set_eq_preset_name(0, "  Bass Boost  ");
    assert_eq!(settings.eq_preset_name(0), "Bass Boost");

    settings.set_eq_preset_name(1, "This name is absolutely way too long for a button");
    assert_eq!(settings.eq_preset_name(1).chars().count(), MAX_EQ_PRESET_NAME_CHARS);

    settings.set_eq_preset_name(0, "   ");
    assert_eq!(settings.eq_preset_name(0), "Preset 1");

    settings.set_eq_preset_name(EQ_PRESET_COUNT, "ignored");

    let mut disk = None;
    settings.set_eq_preset_name(2, "Road Trip");
    save(&settings, &mut disk);
    let loaded = load(&disk);
    assert_eq!(loaded.eq_preset_name(0), "Preset 1");
    assert_eq!(loaded.eq_preset_name(2), "Road Trip");
}

#[test]
fn a_truncated_preset_name_keeps_its_first_characters() {
    let mut settings = HeadUnitSettings::defaults();
    settings.set_eq_preset_name(1, "This name is absolutely way too long for a button");
    assert_eq!(settings.eq_preset_name(1), "This name is absolut");
}

#[test]
fn unknown_or_out_of_range_stored_values_fall_back_to_defaults() {
    let mut raw = RawSettings::default();
    raw.double_tap = Some("no_such_action".to_string());
    raw.arm_window_seconds = Some(1000);
    raw.rotation_degrees = Some(90);
    raw.display_brightness_percent = Some(0);
    raw.volume_percent = Some(255);
    raw.eq_preset_names = Some(vec!["only one".to_string()]);
    let loaded = HeadUnitSettings::from_raw(raw);
    let defaults = HeadUnitSettings::defaults();
    assert_eq!(loaded.action_for(GestureId::DoubleTap), defaults.action_for(GestureId::DoubleTap));
    assert_eq!(loaded.arm_window_seconds(), MAX_ARM_WINDOW_SECONDS);
    assert_eq!(loaded.rotation(), Rotation::Normal);
    assert_eq!(loaded.display_brightness_percent(), MIN_DISPLAY_BRIGHTNESS_PERCENT);
    assert_eq!(loaded.volume_percent(), MAX_VOLUME_PERCENT);
    assert_eq!(loaded.eq_preset_name(0), "Preset 1");
}

#[test]
fn action_keys_round_trip() {
    for action in Action::all() {
        assert_eq!(Action::from_key(action.key()), Some(action));
    }
    assert_eq!(Action::from_key("quick_controls"), Some(Action::QuickControls));
    assert_eq!(Action::QuickControls.label(), "Brightness & volume");
    assert_eq!(Action::from_key("nonsense"), None);
}

#[test]
fn a_reassignment_reads_back_after_checking_validity() {
    let mut settings = HeadUnitSettings::defaults();
    settings.check_valid();
    settings.set_action(GestureId::Circle, Action::SwitchToPhone);
    assert_eq!(settings.action_for(GestureId::Circle), Action::SwitchToPhone);
}
