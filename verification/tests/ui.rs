use aa_headunit_diagnostics::platform::Rotation;
use aa_headunit_diagnostics::settings::Action;
use aa_headunit_diagnostics::ui::{
    device_dropdown_index, device_selector, dispatch_action, end_kiosk_attempt,
    find_accessory_device, hang_safety_net_seconds, list_theme_names, next_rotation,
    panel_flipped, parse_pulse_device_names, probe_order, rotation_label_text, selected_device,
    toggle_fullscreen_button_label, KioskAttemptEnd, KioskDevice, SettingsPage, WindowEffect,
    INVALID_LIST_POSITION,
};

fn strings(words: &[&str]) -> Vec<String> {
    words.iter().map(|w| w.to_string()).collect()
}

#[test]
fn settings_page_labels() {
    assert_eq!(SettingsPage::Menu.label(), "Settings");
    assert_eq!(SettingsPage::Equalizer.label(), "EQ");
    assert_eq!(SettingsPage::ScreenMirroring.label(), "Screen Mirroring");
}

#[test]
fn rotation_toggle() {
    assert_eq!(rotation_label_text(Rotation::Normal), "Screen: normal");
    assert_eq!(rotation_label_text(Rotation::Flipped180), "Screen: flipped 180°");
    assert_eq!(next_rotation(Rotation::Normal), Rotation::Flipped180);
    assert_eq!(next_rotation(next_rotation(Rotation::Flipped180)), Rotation::Flipped180);
    assert!(panel_flipped(Rotation::Flipped180));
    assert!(!panel_flipped(Rotation::Normal));
}

#[test]
fn fullscreen_button_names_where_it_goes() {
    assert_eq!(toggle_fullscreen_button_label(true), "Return to desktop");
    assert_eq!(toggle_fullscreen_button_label(false), "Return to video");
}

#[test]
fn window_side_actions() {
    assert_eq!(dispatch_action(Action::OpenSettings), WindowEffect::ShowSettings);
    assert_eq!(dispatch_action(Action::ToggleFullscreen), WindowEffect::ToggleFullscreen);
    assert_eq!(dispatch_action(Action::FlipScreen), WindowEffect::FlipScreen);
    assert_eq!(dispatch_action(Action::SwitchToMedia), WindowEffect::HandledBySession);
    assert_eq!(dispatch_action(Action::QuickControls), WindowEffect::HandledBySession);
}

#[test]
fn hang_safety_net_follows_the_observation_window() {
    assert_eq!(hang_safety_net_seconds(None), 120);
    assert_eq!(hang_safety_net_seconds(Some(300)), 360);
    assert_eq!(hang_safety_net_seconds(Some(u32::MAX as u64)), u32::MAX);
}

#[test]
fn kiosk_device_choice() {
    let hub = KioskDevice { bus: 1, address: 1, vendor_id: 0x1d6b, in_accessory_mode: false };
    let phone = KioskDevice { bus: 1, address: 5, vendor_id: 0x04e8, in_accessory_mode: false };
    let accessory = KioskDevice { bus: 2, address: 7, vendor_id: 0x18d1, in_accessory_mode: true };
    assert_eq!(find_accessory_device(&[hub, phone, accessory]), Some(2));
    assert_eq!(find_accessory_device(&[hub, phone]), None);
    assert_eq!(probe_order(&[hub, phone, hub, accessory]), vec![1, 3]);
    assert_eq!(device_selector(2, 17), "2:17");
}

#[test]
fn kiosk_attempts_end_once() {
    let mut ended = false;
    assert_eq!(end_kiosk_attempt(&mut ended, false), KioskAttemptEnd::Reconnect);
    assert!(ended);
    assert_eq!(end_kiosk_attempt(&mut ended, true), KioskAttemptEnd::AlreadyEnded);
    let mut ended = false;
    assert_eq!(end_kiosk_attempt(&mut ended, true), KioskAttemptEnd::Quit);
}

#[test]
fn pulse_device_names_are_the_second_column() {
    let output = "52\talsa_output.usb-Foo.analog-stereo\tPipeWire\ts16le 2ch 48000Hz\tRUNNING\r\n\
                  61\talsa_output.hdmi\tPipeWire\n\
                  no tabs here\n\
                  7\tlast";
    assert_eq!(
        parse_pulse_device_names(output),
        strings(&["alsa_output.usb-Foo.analog-stereo", "alsa_output.hdmi", "last"])
    );
    assert_eq!(parse_pulse_device_names(""), Vec::<String>::new());
    assert_eq!(parse_pulse_device_names("1\t\n"), strings(&[""]));
}

#[test]
fn device_dropdown_round_trip() {
    let devices = strings(&["a", "b", "c"]);
    assert_eq!(device_dropdown_index(&devices, None), 0);
    assert_eq!(device_dropdown_index(&devices, Some("b")), 2);
    assert_eq!(device_dropdown_index(&devices, Some("gone")), 0);
    assert_eq!(selected_device(2, &devices), Some("b".to_string()));
    assert_eq!(selected_device(0, &devices), None);
    assert_eq!(selected_device(INVALID_LIST_POSITION, &devices), None);
    assert_eq!(selected_device(9, &devices), None);
    let index = device_dropdown_index(&devices, Some("c"));
    assert_eq!(selected_device(index, &devices), Some("c".to_string()));
}

#[test]
fn theme_names_are_sorted_css_stems() {
    let files = strings(&["sunset.css", "README", ".css", "dark.css", "x.css.bak", "a.b.css", "Zed.css"]);
    assert_eq!(list_theme_names(&files), strings(&["Zed", "a.b", "dark", "sunset"]));
    assert_eq!(list_theme_names(&[]), Vec::<String>::new());
}
