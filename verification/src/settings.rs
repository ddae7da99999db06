//! Persisted operator settings: the gesture-to-action mapping, the
//! follow-up-gesture arm window, touch rotation, display brightness,
//! audio/microphone device choice, the night-mode GPIO line, the preferred
//! Wi-Fi/Bluetooth radio providers, the theme, launch-on-boot and
//! reconnect behaviour, equalizer preset names, the experimental-software
//! disclaimer state and the output volume.
//!
//! The on-disk form is [`RawSettings`], every field optional: loading
//! ([`HeadUnitSettings::from_raw`]) starts from the defaults and applies
//! whatever is present and recognised, clamping every numeric value into
//! its allowed range; saving ([`HeadUnitSettings::to_raw`]) writes every
//! field, deferring to what is already on disk for an `Option` field this
//! copy never set, so a concurrently saved value is never clobbered.

use vstd::prelude::*;

use crate::platform::{
    gesture_at, gesture_index, lemma_gesture_index_bijective, spec_parse_preference,
    spec_preference_key, lemma_preference_round_trip, GestureId, KeyCode,
    ProviderPreference, ProviderPreferenceView, Rotation, GESTURE_COUNT,
};
use crate::text::{char_count, decimal, spec_decimal, spec_trim, str_eq, take_chars, trim};

verus! {

pub const DEFAULT_DISPLAY_BRIGHTNESS_PERCENT: u8 = 100;
pub const MIN_DISPLAY_BRIGHTNESS_PERCENT: u8 = 1;
pub const MAX_DISPLAY_BRIGHTNESS_PERCENT: u8 = 100;
pub const DEFAULT_VOLUME_PERCENT: u8 = 100;
pub const MIN_VOLUME_PERCENT: u8 = 0;
pub const MAX_VOLUME_PERCENT: u8 = 100;
pub const DEFAULT_ARM_WINDOW_SECONDS: u32 = 3;
pub const MIN_ARM_WINDOW_SECONDS: u32 = 1;
pub const MAX_ARM_WINDOW_SECONDS: u32 = 30;
pub const MIN_NIGHT_MODE_GPIO_LINE: u32 = 2;
pub const MAX_NIGHT_MODE_GPIO_LINE: u32 = 27;
pub const EQ_BAND_COUNT: usize = 10;
pub const EQ_PRESET_COUNT: usize = 4;
pub const MAX_EQ_PRESET_NAME_CHARS: usize = 20;

/// The small, closed set of actions a follow-up gesture can trigger.
#[derive(Clone, Copy, Debug, PartialEq, Eq)]
pub enum Action {
    OpenSettings,
    ToggleFullscreen,
    FlipScreen,
    SwitchToMedia,
    SwitchToNavigation,
    SwitchToRadio,
    SwitchToPhone,
    ScreenOff,
    QuickControls,
}

/// The text shown for an action in the settings panel.
pub open spec fn spec_action_label(action: Action) -> Seq<char> {
    match action {
        Action::OpenSettings => "Open settings"@,
        Action::ToggleFullscreen => "Toggle fullscreen"@,
        Action::FlipScreen => "Flip screen"@,
        Action::SwitchToMedia => "Switch to media"@,
        Action::SwitchToNavigation => "Switch to navigation"@,
        Action::SwitchToRadio => "Switch to radio"@,
        Action::SwitchToPhone => "Switch to phone"@,
        Action::ScreenOff => "Screen off"@,
        Action::QuickControls => "Brightness & volume"@,
    }
}

/// The key code a category-switch action sends, `None` for an action
/// dispatched locally.
pub open spec fn spec_action_key_code(action: Action) -> Option<KeyCode> {
    match action {
        Action::SwitchToMedia => Some(KeyCode::Media),
        Action::SwitchToNavigation => Some(KeyCode::Navigation),
        Action::SwitchToRadio => Some(KeyCode::Radio),
        Action::SwitchToPhone => Some(KeyCode::Tel),
        _ => None,
    }
}

/// The text an action is stored as in the settings file.
pub open spec fn spec_action_key(action: Action) -> Seq<char> {
    match action {
        Action::OpenSettings => "open_settings"@,
        Action::ToggleFullscreen => "toggle_fullscreen"@,
        Action::FlipScreen => "flip_screen"@,
        Action::SwitchToMedia => "switch_to_media"@,
        Action::SwitchToNavigation => "switch_to_navigation"@,
        Action::SwitchToRadio => "switch_to_radio"@,
        Action::SwitchToPhone => "switch_to_phone"@,
        Action::ScreenOff => "screen_off"@,
        Action::QuickControls => "quick_controls"@,
    }
}

/// The action stored as `key`, if `key` names one.
pub open spec fn spec_action_from_key(key: Seq<char>) -> Option<Action> {
    if key == "open_settings"@ {
        Some(Action::OpenSettings)
    } else if key == "toggle_fullscreen"@ {
        Some(Action::ToggleFullscreen)
    } else if key == "flip_screen"@ {
        Some(Action::FlipScreen)
    } else if key == "switch_to_media"@ {
        Some(Action::SwitchToMedia)
    } else if key == "switch_to_navigation"@ {
        Some(Action::SwitchToNavigation)
    } else if key == "switch_to_radio"@ {
        Some(Action::SwitchToRadio)
    } else if key == "switch_to_phone"@ {
        Some(Action::SwitchToPhone)
    } else if key == "screen_off"@ {
        Some(Action::ScreenOff)
    } else if key == "quick_controls"@ {
        Some(Action::QuickControls)
    } else {
        None
    }
}

/// The actions in the order the settings panel lists them.
pub open spec fn spec_all_actions() -> Seq<Action> {
    seq![
        Action::OpenSettings,
        Action::ToggleFullscreen,
        Action::FlipScreen,
        Action::SwitchToMedia,
        Action::SwitchToNavigation,
        Action::SwitchToRadio,
        Action::SwitchToPhone,
        Action::ScreenOff,
        Action::QuickControls,
    ]
}

impl Action {
    /// Every action, once each, in the settings panel's order.
    pub fn all() -> (r: [Action; 9])
        ensures
            r@ == spec_all_actions(),
    {
        let r = [
            Action::OpenSettings,
            Action::ToggleFullscreen,
            Action::FlipScreen,
            Action::SwitchToMedia,
            Action::SwitchToNavigation,
            Action::SwitchToRadio,
            Action::SwitchToPhone,
            Action::ScreenOff,
            Action::QuickControls,
        ];
        assert(r@ =~= spec_all_actions());
        r
    }

    /// The text shown for this action.
    pub fn label(self) -> (r: &'static str)
        ensures
            r@ == spec_action_label(self),
    {
        match self {
            Action::OpenSettings => "Open settings",
            Action::ToggleFullscreen => "Toggle fullscreen",
            Action::FlipScreen => "Flip screen",
            Action::SwitchToMedia => "Switch to media",
            Action::SwitchToNavigation => "Switch to navigation",
            Action::SwitchToRadio => "Switch to radio",
            Action::SwitchToPhone => "Switch to phone",
            Action::ScreenOff => "Screen off",
            Action::QuickControls => "Brightness & volume",
        }
    }

    /// The key code a category-switch action sends to the phone.
    pub fn key_code(self) -> (r: Option<KeyCode>)
        ensures
            r == spec_action_key_code(self),
    {
        match self {
            Action::SwitchToMedia => Some(KeyCode::Media),
            Action::SwitchToNavigation => Some(KeyCode::Navigation),
            Action::SwitchToRadio => Some(KeyCode::Radio),
            Action::SwitchToPhone => Some(KeyCode::Tel),
            Action::OpenSettings | Action::ToggleFullscreen | Action::FlipScreen
            | Action::ScreenOff | Action::QuickControls => None,
        }
    }

    /// The text this action is stored as.
    pub fn key(self) -> (r: &'static str)
        ensures
            r@ == spec_action_key(self),
    {
        match self {
            Action::OpenSettings => "open_settings",
            Action::ToggleFullscreen => "toggle_fullscreen",
            Action::FlipScreen => "flip_screen",
            Action::SwitchToMedia => "switch_to_media",
            Action::SwitchToNavigation => "switch_to_navigation",
            Action::SwitchToRadio => "switch_to_radio",
            Action::SwitchToPhone => "switch_to_phone",
            Action::ScreenOff => "screen_off",
            Action::QuickControls => "quick_controls",
        }
    }

    /// The action stored as `key`; `None` for text no action is stored as.
    pub fn from_key(key: &str) -> (r: Option<Action>)
        ensures
            r == spec_action_from_key(key@),
    {
        if str_eq(key, "open_settings") {
            Some(Action::OpenSettings)
        } else if str_eq(key, "toggle_fullscreen") {
            Some(Action::ToggleFullscreen)
        } else if str_eq(key, "flip_screen") {
            Some(Action::FlipScreen)
        } else if str_eq(key, "switch_to_media") {
            Some(Action::SwitchToMedia)
        } else if str_eq(key, "switch_to_navigation") {
            Some(Action::SwitchToNavigation)
        } else if str_eq(key, "switch_to_radio") {
            Some(Action::SwitchToRadio)
        } else if str_eq(key, "switch_to_phone") {
            Some(Action::SwitchToPhone)
        } else if str_eq(key, "screen_off") {
            Some(Action::ScreenOff)
        } else if str_eq(key, "quick_controls") {
            Some(Action::QuickControls)
        } else {
            None
        }
    }
}

/// Reading back the text an action is stored as gives that action.
pub proof fn lemma_action_key_round_trip(action: Action)
    ensures
        spec_action_from_key(spec_action_key(action)) == Some(action),
{
    reveal_strlit("open_settings");
    reveal_strlit("toggle_fullscreen");
    reveal_strlit("flip_screen");
    reveal_strlit("switch_to_media");
    reveal_strlit("switch_to_navigation");
    reveal_strlit("switch_to_radio");
    reveal_strlit("switch_to_phone");
    reveal_strlit("screen_off");
    reveal_strlit("quick_controls");
    assert("open_settings"@[0] == 'o');
    assert("toggle_fullscreen"@[0] == 't');
    assert("flip_screen"@[0] == 'f');
    assert("switch_to_media"@[0] == 's' && "switch_to_media"@[1] == 'w'
        && "switch_to_media"@[10] == 'm');
    assert("switch_to_navigation"@[0] == 's' && "switch_to_navigation"@[1] == 'w'
        && "switch_to_navigation"@[10] == 'n');
    assert("switch_to_radio"@[0] == 's' && "switch_to_radio"@[1] == 'w'
        && "switch_to_radio"@[10] == 'r');
    assert("switch_to_phone"@[0] == 's' && "switch_to_phone"@[1] == 'w'
        && "switch_to_phone"@[10] == 'p');
    assert("screen_off"@[0] == 's' && "screen_off"@[1] == 'c');
    assert("quick_controls"@[0] == 'q');
}

/// The text shown for a gesture in the settings panel.
pub open spec fn spec_gesture_label(gesture: GestureId) -> Seq<char> {
    match gesture {
        GestureId::DoubleTap => "Double-tap"@,
        GestureId::TwoFingerTap => "Two-finger tap"@,
        GestureId::LongPress => "Long press"@,
        GestureId::SwipeUp => "Swipe up"@,
        GestureId::SwipeDown => "Swipe down"@,
        GestureId::SwipeLeft => "Swipe left"@,
        GestureId::SwipeRight => "Swipe right"@,
        GestureId::Circle => "Circle / spiral"@,
    }
}

/// The text shown for `gesture`.
pub fn gesture_label(gesture: GestureId) -> (r: &'static str)
    ensures
        r@ == spec_gesture_label(gesture),
{
    match gesture {
        GestureId::DoubleTap => "Double-tap",
        GestureId::TwoFingerTap => "Two-finger tap",
        GestureId::LongPress => "Long press",
        GestureId::SwipeUp => "Swipe up",
        GestureId::SwipeDown => "Swipe down",
        GestureId::SwipeLeft => "Swipe left",
        GestureId::SwipeRight => "Swipe right",
        GestureId::Circle => "Circle / spiral",
    }
}

/// The degrees a rotation is stored as.
pub open spec fn spec_rotation_degrees(rotation: Rotation) -> u16 {
    match rotation {
        Rotation::Normal => 0,
        Rotation::Flipped180 => 180,
    }
}

/// The rotation stored as `degrees`, if it is one.
pub open spec fn spec_rotation_from_degrees(degrees: u16) -> Option<Rotation> {
    if degrees == 0 {
        Some(Rotation::Normal)
    } else if degrees == 180 {
        Some(Rotation::Flipped180)
    } else {
        None
    }
}

/// The degrees `rotation` is stored as.
pub fn rotation_to_degrees(rotation: Rotation) -> (r: u16)
    ensures
        r == spec_rotation_degrees(rotation),
{
    match rotation {
        Rotation::Normal => 0,
        Rotation::Flipped180 => 180,
    }
}

/// The rotation stored as `degrees`; `None` for any other number.
pub fn rotation_from_degrees(degrees: u16) -> (r: Option<Rotation>)
    ensures
        r == spec_rotation_from_degrees(degrees),
{
    if degrees == 0 {
        Some(Rotation::Normal)
    } else if degrees == 180 {
        Some(Rotation::Flipped180)
    } else {
        None
    }
}


/// `value` clamped into `lo..=hi`.
pub open spec fn clamp_u32(value: u32, lo: u32, hi: u32) -> u32 {
    if value < lo {
        lo
    } else if value > hi {
        hi
    } else {
        value
    }
}

/// `value` clamped into `lo..=hi`.
pub open spec fn clamp_u8(value: u8, lo: u8, hi: u8) -> u8 {
    if value < lo {
        lo
    } else if value > hi {
        hi
    } else {
        value
    }
}

fn clamp_seconds(value: u32) -> (r: u32)
    ensures
        r == clamp_u32(value, MIN_ARM_WINDOW_SECONDS, MAX_ARM_WINDOW_SECONDS),
{
    if value < MIN_ARM_WINDOW_SECONDS {
        MIN_ARM_WINDOW_SECONDS
    } else if value > MAX_ARM_WINDOW_SECONDS {
        MAX_ARM_WINDOW_SECONDS
    } else {
        value
    }
}

fn clamp_percent(value: u8, lo: u8, hi: u8) -> (r: u8)
    requires
        lo <= hi,
    ensures
        r == clamp_u8(value, lo, hi),
{
    if value < lo {
        lo
    } else if value > hi {
        hi
    } else {
        value
    }
}

/// The action each gesture triggers out of the box.
pub open spec fn spec_default_action(index: int) -> Action {
    if index == 0 {
        Action::OpenSettings
    } else if index == 1 {
        Action::ToggleFullscreen
    } else if index == 2 {
        Action::QuickControls
    } else if index == 3 {
        Action::SwitchToNavigation
    } else if index == 4 {
        Action::SwitchToMedia
    } else if index == 5 {
        Action::SwitchToPhone
    } else if index == 6 {
        Action::FlipScreen
    } else {
        Action::ScreenOff
    }
}

/// The name equalizer preset `index` has until it is renamed:
/// `Preset 1` for the first slot, and so on.
pub open spec fn spec_default_preset_name(index: int) -> Seq<char> {
    "Preset "@ + spec_decimal((index + 1) as nat)
}

/// What renaming preset `index` to `name` stores: `name` trimmed of
/// surrounding whitespace and cut to [`MAX_EQ_PRESET_NAME_CHARS`]
/// characters, or the slot's default name when nothing is left.
pub open spec fn spec_normalize_preset_name(index: int, name: Seq<char>) -> Seq<char> {
    let trimmed = spec_trim(name);
    if trimmed.len() == 0 {
        spec_default_preset_name(index)
    } else if trimmed.len() <= MAX_EQ_PRESET_NAME_CHARS {
        trimmed
    } else {
        trimmed.take(MAX_EQ_PRESET_NAME_CHARS as int)
    }
}

/// A [`HeadUnitSettings`] as plain values.
pub struct SettingsView {
    pub mappings: Seq<Action>,
    pub arm_window_seconds: u32,
    pub mtp_popup_suppression_enabled: bool,
    pub rotation: Rotation,
    pub display_brightness_percent: u8,
    pub audio_output_device: Option<Seq<char>>,
    pub microphone_input_device: Option<Seq<char>>,
    pub night_mode_gpio_line: Option<u32>,
    pub wifi_preference: ProviderPreferenceView,
    pub bluetooth_preference: ProviderPreferenceView,
    pub theme: Option<Seq<char>>,
    pub launch_on_boot: bool,
    pub wireless_bluetooth_auto_connect: bool,
    pub eq_preset_names: Seq<Seq<char>>,
    pub experimental_disclaimer_dismissed: bool,
    pub legal_page_hidden: bool,
    pub volume_percent: u8,
}

/// What every [`HeadUnitSettings`] satisfies: one action per gesture, four
/// preset names of one to [`MAX_EQ_PRESET_NAME_CHARS`] characters, and
/// every clamped value inside its range.
pub open spec fn settings_valid(v: SettingsView) -> bool {
    &&& v.mappings.len() == GESTURE_COUNT
    &&& MIN_ARM_WINDOW_SECONDS <= v.arm_window_seconds <= MAX_ARM_WINDOW_SECONDS
    &&& MIN_DISPLAY_BRIGHTNESS_PERCENT <= v.display_brightness_percent
        <= MAX_DISPLAY_BRIGHTNESS_PERCENT
    &&& v.volume_percent <= MAX_VOLUME_PERCENT
    &&& v.eq_preset_names.len() == EQ_PRESET_COUNT
    &&& forall|i: int|
        0 <= i < EQ_PRESET_COUNT ==> 0 < (#[trigger] v.eq_preset_names[i]).len()
            <= MAX_EQ_PRESET_NAME_CHARS
}

/// The settings of a fresh install.
pub open spec fn spec_default_settings() -> SettingsView {
    SettingsView {
        mappings: Seq::new(GESTURE_COUNT as nat, |i: int| spec_default_action(i)),
        arm_window_seconds: DEFAULT_ARM_WINDOW_SECONDS,
        mtp_popup_suppression_enabled: false,
        rotation: Rotation::Normal,
        display_brightness_percent: DEFAULT_DISPLAY_BRIGHTNESS_PERCENT,
        audio_output_device: None,
        microphone_input_device: None,
        night_mode_gpio_line: None,
        wifi_preference: ProviderPreferenceView::Auto,
        bluetooth_preference: ProviderPreferenceView::Auto,
        theme: None,
        launch_on_boot: false,
        wireless_bluetooth_auto_connect: true,
        eq_preset_names: Seq::new(EQ_PRESET_COUNT as nat, |i: int| spec_default_preset_name(i)),
        experimental_disclaimer_dismissed: false,
        legal_page_hidden: false,
        volume_percent: DEFAULT_VOLUME_PERCENT,
    }
}

/// `o` with its text as characters.
pub open spec fn opt_string_view(o: Option<String>) -> Option<Seq<char>> {
    match o {
        Some(s) => Some(s@),
        None => None,
    }
}

/// `o` with its text as characters.
pub open spec fn opt_str_view(o: Option<&str>) -> Option<Seq<char>> {
    match o {
        Some(s) => Some(s@),
        None => None,
    }
}

fn opt_as_str(o: &Option<String>) -> (r: Option<&str>)
    ensures
        opt_str_view(r) == opt_string_view(*o),
{
    match o {
        Some(s) => Some(s.as_str()),
        None => None,
    }
}

fn opt_clone(o: &Option<String>) -> (r: Option<String>)
    ensures
        opt_string_view(r) == opt_string_view(*o),
{
    match o {
        Some(s) => Some(s.clone()),
        None => None,
    }
}

fn default_preset_name(index: usize) -> (r: String)
    requires
        index < EQ_PRESET_COUNT,
    ensures
        r@ == spec_default_preset_name(index as int),
{
    String::from_str("Preset ").concat(decimal((index + 1) as u64).as_str())
}

/// Operator settings; see the module documentation.
#[derive(Debug, PartialEq, Eq)]
pub struct HeadUnitSettings {
    mappings: Vec<Action>,
    arm_window_seconds: u32,
    mtp_popup_suppression_enabled: bool,
    rotation: Rotation,
    display_brightness_percent: u8,
    audio_output_device: Option<String>,
    microphone_input_device: Option<String>,
    night_mode_gpio_line: Option<u32>,
    wifi_preference: ProviderPreference,
    bluetooth_preference: ProviderPreference,
    theme: Option<String>,
    launch_on_boot: bool,
    wireless_bluetooth_auto_connect: bool,
    eq_preset_names: Vec<String>,
    experimental_disclaimer_dismissed: bool,
    legal_page_hidden: bool,
    volume_percent: u8,
}

impl HeadUnitSettings {
    /// These settings as plain values.
    pub closed spec fn spec_view(&self) -> SettingsView {
        SettingsView {
            mappings: self.mappings@,
            arm_window_seconds: self.arm_window_seconds,
            mtp_popup_suppression_enabled: self.mtp_popup_suppression_enabled,
            rotation: self.rotation,
            display_brightness_percent: self.display_brightness_percent,
            audio_output_device: opt_string_view(self.audio_output_device),
            microphone_input_device: opt_string_view(self.microphone_input_device),
            night_mode_gpio_line: self.night_mode_gpio_line,
            wifi_preference: self.wifi_preference@,
            bluetooth_preference: self.bluetooth_preference@,
            theme: opt_string_view(self.theme),
            launch_on_boot: self.launch_on_boot,
            wireless_bluetooth_auto_connect: self.wireless_bluetooth_auto_connect,
            eq_preset_names: self.eq_preset_names@.map_values(|n: String| n@),
            experimental_disclaimer_dismissed: self.experimental_disclaimer_dismissed,
            legal_page_hidden: self.legal_page_hidden,
            volume_percent: self.volume_percent,
        }
    }

    #[verifier::type_invariant]
    spec fn inv(self) -> bool {
        settings_valid(self.spec_view())
    }

}

impl Clone for HeadUnitSettings {
    fn clone(&self) -> (r: Self)
        ensures
            r@ == self@,
    {
        proof {
            use_type_invariant(self);
        }
        let r = HeadUnitSettings {
            mappings: copy_actions(&self.mappings),
            arm_window_seconds: self.arm_window_seconds,
            mtp_popup_suppression_enabled: self.mtp_popup_suppression_enabled,
            rotation: self.rotation,
            display_brightness_percent: self.display_brightness_percent,
            audio_output_device: opt_clone(&self.audio_output_device),
            microphone_input_device: opt_clone(&self.microphone_input_device),
            night_mode_gpio_line: self.night_mode_gpio_line,
            wifi_preference: self.wifi_preference.duplicate(),
            bluetooth_preference: self.bluetooth_preference.duplicate(),
            theme: opt_clone(&self.theme),
            launch_on_boot: self.launch_on_boot,
            wireless_bluetooth_auto_connect: self.wireless_bluetooth_auto_connect,
            eq_preset_names: clone_names(&self.eq_preset_names),
            experimental_disclaimer_dismissed: self.experimental_disclaimer_dismissed,
            legal_page_hidden: self.legal_page_hidden,
            volume_percent: self.volume_percent,
        };
        r
    }
}

fn copy_actions(actions: &Vec<Action>) -> (r: Vec<Action>)
    ensures
        r@ == actions@,
{
    let mut r: Vec<Action> = Vec::new();
    let mut i: usize = 0;
    while i < actions.len()
        invariant
            i <= actions@.len(),
            r@ == actions@.take(i as int),
        decreases actions.len() - i,
    {
        r.push(actions[i]);
        assert(actions@.take(i + 1) =~= actions@.take(i as int).push(actions@[i as int]));
        i = i + 1;
    }
    assert(actions@.take(actions@.len() as int) =~= actions@);
    r
}

fn clone_names(names: &Vec<String>) -> (r: Vec<String>)
    ensures
        r@.map_values(|n: String| n@) == names@.map_values(|n: String| n@),
{
    let mut r: Vec<String> = Vec::new();
    let mut i: usize = 0;
    while i < names.len()
        invariant
            i <= names@.len(),
            r@.len() == i,
            forall|j: int| 0 <= j < i ==> (#[trigger] r@[j])@ == names@[j]@,
        decreases names.len() - i,
    {
        r.push(names[i].clone());
        i = i + 1;
    }
    assert(r@.map_values(|n: String| n@) =~= names@.map_values(|n: String| n@));
    r
}

impl View for HeadUnitSettings {
    type V = SettingsView;

    open spec fn view(&self) -> SettingsView {
        self.spec_view()
    }
}

impl HeadUnitSettings {
    /// The settings of a fresh install: double-tap opens settings,
    /// two-finger tap toggles fullscreen, long press opens the quick
    /// controls, swipes up/down/left switch to navigation/media/phone,
    /// swipe right flips the screen and a circle turns the screen off.
    pub fn defaults() -> (r: HeadUnitSettings)
        ensures
            r@ == spec_default_settings(),
    {
        let mut mappings: Vec<Action> = Vec::new();
        mappings.push(Action::OpenSettings);
        mappings.push(Action::ToggleFullscreen);
        mappings.push(Action::QuickControls);
        mappings.push(Action::SwitchToNavigation);
        mappings.push(Action::SwitchToMedia);
        mappings.push(Action::SwitchToPhone);
        mappings.push(Action::FlipScreen);
        mappings.push(Action::ScreenOff);
        let mut names: Vec<String> = Vec::new();
        let mut i: usize = 0;
        while i < EQ_PRESET_COUNT
            invariant
                i <= EQ_PRESET_COUNT,
                names@.len() == i,
                forall|j: int| 0 <= j < i ==> (#[trigger] names@[j])@ == spec_default_preset_name(j),
            decreases EQ_PRESET_COUNT - i,
        {
            names.push(default_preset_name(i));
            i = i + 1;
        }
        proof {
            reveal_strlit("Preset ");
            assert forall|j: int| 0 <= j < EQ_PRESET_COUNT implies (#[trigger] names@[j])@.len() == 8 by {
                assert(spec_decimal((j + 1) as nat).len() == 1);
            }
        }
        let r = HeadUnitSettings {
            mappings,
            arm_window_seconds: DEFAULT_ARM_WINDOW_SECONDS,
            mtp_popup_suppression_enabled: false,
            rotation: Rotation::Normal,
            display_brightness_percent: DEFAULT_DISPLAY_BRIGHTNESS_PERCENT,
            audio_output_device: None,
            microphone_input_device: None,
            night_mode_gpio_line: None,
            wifi_preference: ProviderPreference::Auto,
            bluetooth_preference: ProviderPreference::Auto,
            theme: None,
            launch_on_boot: false,
            wireless_bluetooth_auto_connect: true,
            eq_preset_names: names,
            experimental_disclaimer_dismissed: false,
            legal_page_hidden: false,
            volume_percent: DEFAULT_VOLUME_PERCENT,
        };
        assert(r@.mappings =~= spec_default_settings().mappings);
        assert(r@.eq_preset_names =~= spec_default_settings().eq_preset_names);
        r
    }
}


impl HeadUnitSettings {
    /// Makes what every settings value satisfies known of this one, so
    /// that its laws and the effect of its setters can be used.
    pub fn check_valid(&self)
        ensures
            settings_valid(self@),
    {
        proof {
            use_type_invariant(self);
        }
    }

    /// The action `gesture` triggers.
    pub fn action_for(&self, gesture: GestureId) -> (r: Action)
        ensures
            r == self@.mappings[gesture_index(gesture)],
    {
        proof {
            use_type_invariant(self);
        }
        self.mappings[gesture.index()]
    }

    /// Makes `gesture` trigger `action`.
    pub fn set_action(&mut self, gesture: GestureId, action: Action)
        ensures
            final(self)@ == (SettingsView {
                mappings: old(self)@.mappings.update(gesture_index(gesture), action),
                ..old(self)@
            }),
    {
        proof {
            use_type_invariant(&*self);
        }
        let mut mappings = copy_actions(&self.mappings);
        mappings.set(gesture.index(), action);
        self.mappings = mappings;
    }

    /// How long a follow-up gesture may take after the arming swipe.
    pub fn arm_window_seconds(&self) -> (r: u32)
        ensures
            r == self@.arm_window_seconds,
    {
        self.arm_window_seconds
    }

    /// Sets the arm window, clamped to
    /// `MIN_ARM_WINDOW_SECONDS..=MAX_ARM_WINDOW_SECONDS`.
    pub fn set_arm_window_seconds(&mut self, seconds: u32)
        ensures
            final(self)@ == (SettingsView {
                arm_window_seconds: clamp_u32(seconds, MIN_ARM_WINDOW_SECONDS, MAX_ARM_WINDOW_SECONDS),
                ..old(self)@
            }),
    {
        proof {
            use_type_invariant(&*self);
        }
        self.arm_window_seconds = clamp_seconds(seconds);
    }

    /// Whether the desktop's MTP volume monitor is masked while sessions
    /// run (off by default).
    pub fn mtp_popup_suppression_enabled(&self) -> (r: bool)
        ensures
            r == self@.mtp_popup_suppression_enabled,
    {
        self.mtp_popup_suppression_enabled
    }

    pub fn set_mtp_popup_suppression_enabled(&mut self, enabled: bool)
        ensures
            final(self)@ == (SettingsView { mtp_popup_suppression_enabled: enabled, ..old(self)@ }),
    {
        proof {
            use_type_invariant(&*self);
        }
        self.mtp_popup_suppression_enabled = enabled;
    }

    /// The persisted touch/display rotation.
    pub fn rotation(&self) -> (r: Rotation)
        ensures
            r == self@.rotation,
    {
        self.rotation
    }

    pub fn set_rotation(&mut self, rotation: Rotation)
        ensures
            final(self)@ == (SettingsView { rotation: rotation, ..old(self)@ }),
    {
        proof {
            use_type_invariant(&*self);
        }
        self.rotation = rotation;
    }

    /// The backlight level applied whenever the screen is on.
    pub fn display_brightness_percent(&self) -> (r: u8)
        ensures
            r == self@.display_brightness_percent,
    {
        self.display_brightness_percent
    }

    /// Sets the backlight level, clamped to
    /// `MIN_DISPLAY_BRIGHTNESS_PERCENT..=MAX_DISPLAY_BRIGHTNESS_PERCENT`.
    pub fn set_display_brightness_percent(&mut self, percent: u8)
        ensures
            final(self)@ == (SettingsView {
                display_brightness_percent: clamp_u8(
                    percent,
                    MIN_DISPLAY_BRIGHTNESS_PERCENT,
                    MAX_DISPLAY_BRIGHTNESS_PERCENT,
                ),
                ..old(self)@
            }),
    {
        proof {
            use_type_invariant(&*self);
        }
        self.display_brightness_percent = clamp_percent(
            percent,
            MIN_DISPLAY_BRIGHTNESS_PERCENT,
            MAX_DISPLAY_BRIGHTNESS_PERCENT,
        );
    }

    /// The name of equalizer preset `index`; `Preset` for an index outside
    /// `0..EQ_PRESET_COUNT`.
    pub fn eq_preset_name(&self, index: usize) -> (r: &str)
        ensures
            r@ == (if index < EQ_PRESET_COUNT {
                self@.eq_preset_names[index as int]
            } else {
                "Preset"@
            }),
    {
        proof {
            use_type_invariant(self);
        }
        if index < EQ_PRESET_COUNT {
            self.eq_preset_names[index].as_str()
        } else {
            "Preset"
        }
    }

    /// Renames preset `index`: trimmed, cut to
    /// [`MAX_EQ_PRESET_NAME_CHARS`] characters, and reset to the slot's
    /// default name when blank. An index outside `0..EQ_PRESET_COUNT`
    /// changes nothing.
    pub fn set_eq_preset_name(&mut self, index: usize, name: &str)
        ensures
            final(self)@ == (if index < EQ_PRESET_COUNT {
                SettingsView {
                    eq_preset_names: old(self)@.eq_preset_names.update(
                        index as int,
                        spec_normalize_preset_name(index as int, name@),
                    ),
                    ..old(self)@
                }
            } else {
                old(self)@
            }),
    {
        proof {
            use_type_invariant(&*self);
        }
        if index < EQ_PRESET_COUNT {
            let trimmed = trim(name);
            let stored: String = if char_count(trimmed) == 0 {
                default_preset_name(index)
            } else {
                String::from_str(take_chars(trimmed, MAX_EQ_PRESET_NAME_CHARS))
            };
            proof {
                reveal_strlit("Preset ");
                if trimmed@.len() == 0 {
                    assert(spec_decimal((index + 1) as nat).len() == 1);
                }
            }
            assert(stored@ == spec_normalize_preset_name(index as int, name@));
            let mut names = clone_names(&self.eq_preset_names);
            let ghost before = names@;
            names.set(index, stored);
            assert(names@.map_values(|n: String| n@) =~= before.map_values(|n: String| n@).update(
                index as int,
                spec_normalize_preset_name(index as int, name@),
            ));
            self.eq_preset_names = names;
        }
    }

    /// The audio output device; `None` means the system default sink.
    pub fn audio_output_device(&self) -> (r: Option<&str>)
        ensures
            opt_str_view(r) == self@.audio_output_device,
    {
        opt_as_str(&self.audio_output_device)
    }

    pub fn set_audio_output_device(&mut self, device: Option<String>)
        ensures
            final(self)@ == (SettingsView {
                audio_output_device: opt_string_view(device),
                ..old(self)@
            }),
    {
        proof {
            use_type_invariant(&*self);
        }
        self.audio_output_device = device;
    }

    /// The microphone input device; `None` means the system default source.
    pub fn microphone_input_device(&self) -> (r: Option<&str>)
        ensures
            opt_str_view(r) == self@.microphone_input_device,
    {
        opt_as_str(&self.microphone_input_device)
    }

    pub fn set_microphone_input_device(&mut self, device: Option<String>)
        ensures
            final(self)@ == (SettingsView {
                microphone_input_device: opt_string_view(device),
                ..old(self)@
            }),
    {
        proof {
            use_type_invariant(&*self);
        }
        self.microphone_input_device = device;
    }

    /// The GPIO line read for the car's illumination signal; `None` means
    /// night-mode signaling is off.
    pub fn night_mode_gpio_line(&self) -> (r: Option<u32>)
        ensures
            r == self@.night_mode_gpio_line,
    {
        self.night_mode_gpio_line
    }

    pub fn set_night_mode_gpio_line(&mut self, line: Option<u32>)
        ensures
            final(self)@ == (SettingsView { night_mode_gpio_line: line, ..old(self)@ }),
    {
        proof {
            use_type_invariant(&*self);
        }
        self.night_mode_gpio_line = line;
    }

    /// The preferred Wi-Fi radio.
    pub fn wifi_preference(&self) -> (r: &ProviderPreference)
        ensures
            r@ == self@.wifi_preference,
    {
        &self.wifi_preference
    }

    pub fn set_wifi_preference(&mut self, preference: ProviderPreference)
        ensures
            final(self)@ == (SettingsView { wifi_preference: preference@, ..old(self)@ }),
    {
        proof {
            use_type_invariant(&*self);
        }
        self.wifi_preference = preference;
    }

    /// The preferred Bluetooth radio.
    pub fn bluetooth_preference(&self) -> (r: &ProviderPreference)
        ensures
            r@ == self@.bluetooth_preference,
    {
        &self.bluetooth_preference
    }

    pub fn set_bluetooth_preference(&mut self, preference: ProviderPreference)
        ensures
            final(self)@ == (SettingsView { bluetooth_preference: preference@, ..old(self)@ }),
    {
        proof {
            use_type_invariant(&*self);
        }
        self.bluetooth_preference = preference;
    }

    /// The chosen theme's name; `None` means the plain default look.
    pub fn theme(&self) -> (r: Option<&str>)
        ensures
            opt_str_view(r) == self@.theme,
    {
        opt_as_str(&self.theme)
    }

    pub fn set_theme(&mut self, theme: Option<String>)
        ensures
            final(self)@ == (SettingsView { theme: opt_string_view(theme), ..old(self)@ }),
    {
        proof {
            use_type_invariant(&*self);
        }
        self.theme = theme;
    }

    /// Whether the kiosk starts fullscreen at boot (off by default).
    pub fn launch_on_boot(&self) -> (r: bool)
        ensures
            r == self@.launch_on_boot,
    {
        self.launch_on_boot
    }

    pub fn set_launch_on_boot(&mut self, enabled: bool)
        ensures
            final(self)@ == (SettingsView { launch_on_boot: enabled, ..old(self)@ }),
    {
        proof {
            use_type_invariant(&*self);
        }
        self.launch_on_boot = enabled;
    }

    /// Whether the kiosk reconnects by itself after the operator closes a
    /// session (on by default).
    pub fn wireless_bluetooth_auto_connect(&self) -> (r: bool)
        ensures
            r == self@.wireless_bluetooth_auto_connect,
    {
        self.wireless_bluetooth_auto_connect
    }

    pub fn set_wireless_bluetooth_auto_connect(&mut self, enabled: bool)
        ensures
            final(self)@ == (SettingsView {
                wireless_bluetooth_auto_connect: enabled,
                ..old(self)@
            }),
    {
        proof {
            use_type_invariant(&*self);
        }
        self.wireless_bluetooth_auto_connect = enabled;
    }

    /// Whether the operator has accepted the experimental-software
    /// disclaimer.
    pub fn experimental_disclaimer_dismissed(&self) -> (r: bool)
        ensures
            r == self@.experimental_disclaimer_dismissed,
    {
        self.experimental_disclaimer_dismissed
    }

    pub fn set_experimental_disclaimer_dismissed(&mut self, dismissed: bool)
        ensures
            final(self)@ == (SettingsView {
                experimental_disclaimer_dismissed: dismissed,
                ..old(self)@
            }),
    {
        proof {
            use_type_invariant(&*self);
        }
        self.experimental_disclaimer_dismissed = dismissed;
    }

    /// Whether the Legal page is hidden: only when the operator has both
    /// hidden it and accepted the disclaimer it holds.
    pub fn legal_page_hidden(&self) -> (r: bool)
        ensures
            r == (self@.legal_page_hidden && self@.experimental_disclaimer_dismissed),
    {
        self.legal_page_hidden && self.experimental_disclaimer_dismissed
    }

    pub fn set_legal_page_hidden(&mut self, hidden: bool)
        ensures
            final(self)@ == (SettingsView { legal_page_hidden: hidden, ..old(self)@ }),
    {
        proof {
            use_type_invariant(&*self);
        }
        self.legal_page_hidden = hidden;
    }

    /// The output volume applied to every audio pipeline.
    pub fn volume_percent(&self) -> (r: u8)
        ensures
            r == self@.volume_percent,
    {
        self.volume_percent
    }

    /// Sets the output volume, clamped to
    /// `MIN_VOLUME_PERCENT..=MAX_VOLUME_PERCENT`.
    pub fn set_volume_percent(&mut self, percent: u8)
        ensures
            final(self)@ == (SettingsView {
                volume_percent: clamp_u8(percent, MIN_VOLUME_PERCENT, MAX_VOLUME_PERCENT),
                ..old(self)@
            }),
    {
        proof {
            use_type_invariant(&*self);
        }
        self.volume_percent = clamp_percent(percent, MIN_VOLUME_PERCENT, MAX_VOLUME_PERCENT);
    }
}


/// The settings file's contents: every setting optional, stored as text
/// or a plain number.
pub struct RawSettings {
    pub double_tap: Option<String>,
    pub two_finger_tap: Option<String>,
    pub long_press: Option<String>,
    pub swipe_up: Option<String>,
    pub swipe_down: Option<String>,
    pub swipe_left: Option<String>,
    pub swipe_right: Option<String>,
    pub circle: Option<String>,
    pub arm_window_seconds: Option<u32>,
    pub suppress_phone_mtp_popups: Option<bool>,
    pub rotation_degrees: Option<u16>,
    pub display_brightness_percent: Option<u8>,
    pub audio_output_device: Option<String>,
    pub microphone_input_device: Option<String>,
    pub night_mode_gpio_line: Option<u32>,
    pub wifi_preference: Option<String>,
    pub bluetooth_preference: Option<String>,
    pub theme: Option<String>,
    pub launch_on_boot: Option<bool>,
    pub wireless_bluetooth_auto_connect: Option<bool>,
    pub eq_preset_names: Option<Vec<String>>,
    pub experimental_disclaimer_dismissed: Option<bool>,
    pub legal_page_hidden: Option<bool>,
    pub volume_percent: Option<u8>,
}

/// A [`RawSettings`] as plain values, the gesture entries in
/// [`GestureId::all`]'s order.
pub struct RawSettingsView {
    pub gesture_keys: Seq<Option<Seq<char>>>,
    pub arm_window_seconds: Option<u32>,
    pub suppress_phone_mtp_popups: Option<bool>,
    pub rotation_degrees: Option<u16>,
    pub display_brightness_percent: Option<u8>,
    pub audio_output_device: Option<Seq<char>>,
    pub microphone_input_device: Option<Seq<char>>,
    pub night_mode_gpio_line: Option<u32>,
    pub wifi_preference: Option<Seq<char>>,
    pub bluetooth_preference: Option<Seq<char>>,
    pub theme: Option<Seq<char>>,
    pub launch_on_boot: Option<bool>,
    pub wireless_bluetooth_auto_connect: Option<bool>,
    pub eq_preset_names: Option<Seq<Seq<char>>>,
    pub experimental_disclaimer_dismissed: Option<bool>,
    pub legal_page_hidden: Option<bool>,
    pub volume_percent: Option<u8>,
}

/// `o`'s names as characters.
pub open spec fn opt_names_view(o: Option<Vec<String>>) -> Option<Seq<Seq<char>>> {
    match o {
        Some(v) => Some(v@.map_values(|n: String| n@)),
        None => None,
    }
}

impl View for RawSettings {
    type V = RawSettingsView;

    open spec fn view(&self) -> RawSettingsView {
        RawSettingsView {
            gesture_keys: seq![
                opt_string_view(self.double_tap),
                opt_string_view(self.two_finger_tap),
                opt_string_view(self.long_press),
                opt_string_view(self.swipe_up),
                opt_string_view(self.swipe_down),
                opt_string_view(self.swipe_left),
                opt_string_view(self.swipe_right),
                opt_string_view(self.circle),
            ],
            arm_window_seconds: self.arm_window_seconds,
            suppress_phone_mtp_popups: self.suppress_phone_mtp_popups,
            rotation_degrees: self.rotation_degrees,
            display_brightness_percent: self.display_brightness_percent,
            audio_output_device: opt_string_view(self.audio_output_device),
            microphone_input_device: opt_string_view(self.microphone_input_device),
            night_mode_gpio_line: self.night_mode_gpio_line,
            wifi_preference: opt_string_view(self.wifi_preference),
            bluetooth_preference: opt_string_view(self.bluetooth_preference),
            theme: opt_string_view(self.theme),
            launch_on_boot: self.launch_on_boot,
            wireless_bluetooth_auto_connect: self.wireless_bluetooth_auto_connect,
            eq_preset_names: opt_names_view(self.eq_preset_names),
            experimental_disclaimer_dismissed: self.experimental_disclaimer_dismissed,
            legal_page_hidden: self.legal_page_hidden,
            volume_percent: self.volume_percent,
        }
    }
}

/// A settings file with nothing in it.
pub open spec fn spec_empty_raw() -> RawSettingsView {
    RawSettingsView {
        gesture_keys: Seq::new(GESTURE_COUNT as nat, |i: int| None),
        arm_window_seconds: None,
        suppress_phone_mtp_popups: None,
        rotation_degrees: None,
        display_brightness_percent: None,
        audio_output_device: None,
        microphone_input_device: None,
        night_mode_gpio_line: None,
        wifi_preference: None,
        bluetooth_preference: None,
        theme: None,
        launch_on_boot: None,
        wireless_bluetooth_auto_connect: None,
        eq_preset_names: None,
        experimental_disclaimer_dismissed: None,
        legal_page_hidden: None,
        volume_percent: None,
    }
}

impl Default for RawSettings {
    fn default() -> (r: Self)
        ensures
            r@ == spec_empty_raw(),
    {
        let r = RawSettings {
            double_tap: None,
            two_finger_tap: None,
            long_press: None,
            swipe_up: None,
            swipe_down: None,
            swipe_left: None,
            swipe_right: None,
            circle: None,
            arm_window_seconds: None,
            suppress_phone_mtp_popups: None,
            rotation_degrees: None,
            display_brightness_percent: None,
            audio_output_device: None,
            microphone_input_device: None,
            night_mode_gpio_line: None,
            wifi_preference: None,
            bluetooth_preference: None,
            theme: None,
            launch_on_boot: None,
            wireless_bluetooth_auto_connect: None,
            eq_preset_names: None,
            experimental_disclaimer_dismissed: None,
            legal_page_hidden: None,
            volume_percent: None,
        };
        assert(r@.gesture_keys =~= spec_empty_raw().gesture_keys);
        r
    }
}

impl RawSettings {
    /// The text stored for `gesture`.
    pub fn get(&self, gesture: GestureId) -> (r: Option<&str>)
        ensures
            opt_str_view(r) == self@.gesture_keys[gesture_index(gesture)],
    {
        match gesture {
            GestureId::DoubleTap => opt_as_str(&self.double_tap),
            GestureId::TwoFingerTap => opt_as_str(&self.two_finger_tap),
            GestureId::LongPress => opt_as_str(&self.long_press),
            GestureId::SwipeUp => opt_as_str(&self.swipe_up),
            GestureId::SwipeDown => opt_as_str(&self.swipe_down),
            GestureId::SwipeLeft => opt_as_str(&self.swipe_left),
            GestureId::SwipeRight => opt_as_str(&self.swipe_right),
            GestureId::Circle => opt_as_str(&self.circle),
        }
    }

    /// Stores `action` for `gesture`.
    pub fn set(&mut self, gesture: GestureId, action: Action)
        ensures
            final(self)@ == (RawSettingsView {
                gesture_keys: old(self)@.gesture_keys.update(
                    gesture_index(gesture),
                    Some(spec_action_key(action)),
                ),
                ..old(self)@
            }),
    {
        let value = Some(String::from_str(action.key()));
        match gesture {
            GestureId::DoubleTap => self.double_tap = value,
            GestureId::TwoFingerTap => self.two_finger_tap = value,
            GestureId::LongPress => self.long_press = value,
            GestureId::SwipeUp => self.swipe_up = value,
            GestureId::SwipeDown => self.swipe_down = value,
            GestureId::SwipeLeft => self.swipe_left = value,
            GestureId::SwipeRight => self.swipe_right = value,
            GestureId::Circle => self.circle = value,
        }
        assert(final(self)@.gesture_keys =~= old(self)@.gesture_keys.update(
            gesture_index(gesture),
            Some(spec_action_key(action)),
        ));
    }
}

/// The action gesture `index` loads as: the stored action when its text
/// names one, otherwise the default.
pub open spec fn spec_loaded_action(key: Option<Seq<char>>, index: int) -> Action {
    match key {
        Some(k) => match spec_action_from_key(k) {
            Some(a) => a,
            None => spec_default_action(index),
        },
        None => spec_default_action(index),
    }
}

/// The preset names a settings file loads as: four stored names, each
/// renamed as [`spec_normalize_preset_name`] says, or the defaults when
/// there are not exactly four.
pub open spec fn spec_loaded_preset_names(names: Option<Seq<Seq<char>>>) -> Seq<Seq<char>> {
    match names {
        Some(ns) => if ns.len() == EQ_PRESET_COUNT {
            Seq::new(EQ_PRESET_COUNT as nat, |i: int| spec_normalize_preset_name(i, ns[i]))
        } else {
            spec_default_settings().eq_preset_names
        },
        None => spec_default_settings().eq_preset_names,
    }
}

/// The settings a settings file loads as: the defaults, with every present
/// and recognised value applied through its setter (so clamped into
/// range); unrecognised gesture actions and rotations are ignored.
pub open spec fn spec_from_raw(r: RawSettingsView) -> SettingsView {
    SettingsView {
        mappings: Seq::new(
            GESTURE_COUNT as nat,
            |i: int| spec_loaded_action(r.gesture_keys[i], i),
        ),
        arm_window_seconds: match r.arm_window_seconds {
            Some(s) => clamp_u32(s, MIN_ARM_WINDOW_SECONDS, MAX_ARM_WINDOW_SECONDS),
            None => DEFAULT_ARM_WINDOW_SECONDS,
        },
        mtp_popup_suppression_enabled: match r.suppress_phone_mtp_popups {
            Some(b) => b,
            None => false,
        },
        rotation: match r.rotation_degrees {
            Some(d) => match spec_rotation_from_degrees(d) {
                Some(x) => x,
                None => Rotation::Normal,
            },
            None => Rotation::Normal,
        },
        display_brightness_percent: match r.display_brightness_percent {
            Some(p) => clamp_u8(p, MIN_DISPLAY_BRIGHTNESS_PERCENT, MAX_DISPLAY_BRIGHTNESS_PERCENT),
            None => DEFAULT_DISPLAY_BRIGHTNESS_PERCENT,
        },
        audio_output_device: r.audio_output_device,
        microphone_input_device: r.microphone_input_device,
        night_mode_gpio_line: r.night_mode_gpio_line,
        wifi_preference: match r.wifi_preference {
            Some(t) => spec_parse_preference(t),
            None => ProviderPreferenceView::Auto,
        },
        bluetooth_preference: match r.bluetooth_preference {
            Some(t) => spec_parse_preference(t),
            None => ProviderPreferenceView::Auto,
        },
        theme: r.theme,
        launch_on_boot: match r.launch_on_boot {
            Some(b) => b,
            None => false,
        },
        wireless_bluetooth_auto_connect: match r.wireless_bluetooth_auto_connect {
            Some(b) => b,
            None => true,
        },
        eq_preset_names: spec_loaded_preset_names(r.eq_preset_names),
        experimental_disclaimer_dismissed: match r.experimental_disclaimer_dismissed {
            Some(b) => b,
            None => false,
        },
        legal_page_hidden: match r.legal_page_hidden {
            Some(b) => b,
            None => false,
        },
        volume_percent: match r.volume_percent {
            Some(p) => clamp_u8(p, MIN_VOLUME_PERCENT, MAX_VOLUME_PERCENT),
            None => DEFAULT_VOLUME_PERCENT,
        },
    }
}

/// `own` if it is set, else the same field of what is on disk.
pub open spec fn or_on_disk<T>(own: Option<T>, on_disk: Option<T>) -> Option<T> {
    match own {
        Some(v) => Some(v),
        None => on_disk,
    }
}

/// What saving `s` writes, `on_disk` being what the file held just before:
/// every value of `s`, except that an `Option` setting `s` never set
/// keeps the value on disk.
pub open spec fn spec_to_raw(s: SettingsView, on_disk: Option<SettingsView>) -> RawSettingsView {
    RawSettingsView {
        gesture_keys: Seq::new(
            GESTURE_COUNT as nat,
            |i: int| Some(spec_action_key(s.mappings[i])),
        ),
        arm_window_seconds: Some(s.arm_window_seconds),
        suppress_phone_mtp_popups: Some(s.mtp_popup_suppression_enabled),
        rotation_degrees: Some(spec_rotation_degrees(s.rotation)),
        display_brightness_percent: Some(s.display_brightness_percent),
        audio_output_device: or_on_disk(
            s.audio_output_device,
            match on_disk {
                Some(d) => d.audio_output_device,
                None => None,
            },
        ),
        microphone_input_device: or_on_disk(
            s.microphone_input_device,
            match on_disk {
                Some(d) => d.microphone_input_device,
                None => None,
            },
        ),
        night_mode_gpio_line: or_on_disk(
            s.night_mode_gpio_line,
            match on_disk {
                Some(d) => d.night_mode_gpio_line,
                None => None,
            },
        ),
        wifi_preference: Some(spec_preference_key(s.wifi_preference)),
        bluetooth_preference: Some(spec_preference_key(s.bluetooth_preference)),
        theme: or_on_disk(
            s.theme,
            match on_disk {
                Some(d) => d.theme,
                None => None,
            },
        ),
        launch_on_boot: Some(s.launch_on_boot),
        wireless_bluetooth_auto_connect: Some(s.wireless_bluetooth_auto_connect),
        eq_preset_names: Some(s.eq_preset_names),
        experimental_disclaimer_dismissed: Some(s.experimental_disclaimer_dismissed),
        legal_page_hidden: Some(s.legal_page_hidden),
        volume_percent: Some(s.volume_percent),
    }
}


/// `s` with each `Option` setting it never set taken from `on_disk`.
pub open spec fn spec_merge_on_disk(s: SettingsView, on_disk: Option<SettingsView>) -> SettingsView {
    let disk = spec_to_raw(s, on_disk);
    SettingsView {
        audio_output_device: disk.audio_output_device,
        microphone_input_device: disk.microphone_input_device,
        night_mode_gpio_line: disk.night_mode_gpio_line,
        theme: disk.theme,
        ..s
    }
}

impl HeadUnitSettings {
    /// The settings `raw` describes: the defaults with every present,
    /// recognised value applied as its setter would (numbers clamped into
    /// range, unrecognised actions and rotations ignored).
    pub fn from_raw(raw: RawSettings) -> (r: HeadUnitSettings)
        ensures
            r@ == spec_from_raw(raw@),
    {
        let ghost rv = raw@;
        let mappings = load_mappings(&raw);
        let RawSettings {
            arm_window_seconds,
            suppress_phone_mtp_popups,
            rotation_degrees,
            display_brightness_percent,
            audio_output_device,
            microphone_input_device,
            night_mode_gpio_line,
            wifi_preference,
            bluetooth_preference,
            theme,
            launch_on_boot,
            wireless_bluetooth_auto_connect,
            eq_preset_names,
            experimental_disclaimer_dismissed,
            legal_page_hidden,
            volume_percent,
            ..
        } = raw;
        let arm_window_seconds: u32 = match arm_window_seconds {
            Some(seconds) => clamp_seconds(seconds),
            None => DEFAULT_ARM_WINDOW_SECONDS,
        };
        let rotation = match rotation_degrees {
            Some(degrees) => match rotation_from_degrees(degrees) {
                Some(rotation) => rotation,
                None => Rotation::Normal,
            },
            None => Rotation::Normal,
        };
        let display_brightness_percent: u8 = match display_brightness_percent {
            Some(percent) => clamp_percent(
                percent,
                MIN_DISPLAY_BRIGHTNESS_PERCENT,
                MAX_DISPLAY_BRIGHTNESS_PERCENT,
            ),
            None => DEFAULT_DISPLAY_BRIGHTNESS_PERCENT,
        };
        let wifi_preference = match wifi_preference {
            Some(text) => ProviderPreference::parse(text.as_str()),
            None => ProviderPreference::Auto,
        };
        let bluetooth_preference = match bluetooth_preference {
            Some(text) => ProviderPreference::parse(text.as_str()),
            None => ProviderPreference::Auto,
        };
        let volume_percent: u8 = match volume_percent {
            Some(percent) => clamp_percent(percent, MIN_VOLUME_PERCENT, MAX_VOLUME_PERCENT),
            None => DEFAULT_VOLUME_PERCENT,
        };
        let eq_preset_names = load_preset_names(eq_preset_names);
        HeadUnitSettings {
            mappings,
            arm_window_seconds,
            mtp_popup_suppression_enabled: match suppress_phone_mtp_popups {
                Some(enabled) => enabled,
                None => false,
            },
            rotation,
            display_brightness_percent,
            audio_output_device,
            microphone_input_device,
            night_mode_gpio_line,
            wifi_preference,
            bluetooth_preference,
            theme,
            launch_on_boot: match launch_on_boot {
                Some(enabled) => enabled,
                None => false,
            },
            wireless_bluetooth_auto_connect: match wireless_bluetooth_auto_connect {
                Some(enabled) => enabled,
                None => true,
            },
            eq_preset_names,
            experimental_disclaimer_dismissed: match experimental_disclaimer_dismissed {
                Some(dismissed) => dismissed,
                None => false,
            },
            legal_page_hidden: match legal_page_hidden {
                Some(hidden) => hidden,
                None => false,
            },
            volume_percent,
        }
    }

    /// What saving these settings writes, given what the file held just
    /// before (`None` when it held nothing readable).
    pub fn to_raw(&self, on_disk: &Option<HeadUnitSettings>) -> (r: RawSettings)
        ensures
            r@ == spec_to_raw(
                self@,
                match on_disk {
                    Some(d) => Some(d@),
                    None => None,
                },
            ),
    {
        proof {
            use_type_invariant(self);
        }
        let ghost disk: Option<SettingsView> = match on_disk {
            Some(d) => Some(d@),
            None => None,
        };
        let mut raw = RawSettings::default();
        let gestures = GestureId::all();
        let mut i: usize = 0;
        assert(raw@.gesture_keys =~= Seq::new(
            GESTURE_COUNT as nat,
            |j: int|
                if j < 0 {
                    Some(spec_action_key(self@.mappings[j]))
                } else {
                    None
                },
        ));
        while i < GESTURE_COUNT
            invariant
                i <= GESTURE_COUNT,
                self@.mappings.len() == GESTURE_COUNT,
                gestures@.len() == GESTURE_COUNT,
                forall|j: int| 0 <= j < GESTURE_COUNT ==> #[trigger] gestures@[j] == gesture_at(j),
                raw@ == (RawSettingsView {
                    gesture_keys: Seq::new(
                        GESTURE_COUNT as nat,
                        |j: int|
                            if j < i {
                                Some(spec_action_key(self@.mappings[j]))
                            } else {
                                None
                            },
                    ),
                    ..spec_empty_raw()
                }),
            decreases GESTURE_COUNT - i,
        {
            let gesture = gestures[i];
            proof {
                lemma_gesture_index_bijective(gesture, i as int);
            }
            raw.set(gesture, self.action_for(gesture));
            assert(raw@.gesture_keys =~= Seq::new(
                GESTURE_COUNT as nat,
                |j: int|
                    if j < i + 1 {
                        Some(spec_action_key(self@.mappings[j]))
                    } else {
                        None
                    },
            ));
            i = i + 1;
        }
        raw.arm_window_seconds = Some(self.arm_window_seconds);
        raw.suppress_phone_mtp_popups = Some(self.mtp_popup_suppression_enabled);
        raw.rotation_degrees = Some(rotation_to_degrees(self.rotation));
        raw.display_brightness_percent = Some(self.display_brightness_percent);
        raw.eq_preset_names = Some(clone_names(&self.eq_preset_names));
        raw.audio_output_device = match &self.audio_output_device {
            Some(device) => Some(device.clone()),
            None => match on_disk {
                Some(d) => opt_clone(&d.audio_output_device),
                None => None,
            },
        };
        raw.microphone_input_device = match &self.microphone_input_device {
            Some(device) => Some(device.clone()),
            None => match on_disk {
                Some(d) => opt_clone(&d.microphone_input_device),
                None => None,
            },
        };
        raw.night_mode_gpio_line = match self.night_mode_gpio_line {
            Some(line) => Some(line),
            None => match on_disk {
                Some(d) => d.night_mode_gpio_line,
                None => None,
            },
        };
        raw.wifi_preference = Some(self.wifi_preference.to_key());
        raw.bluetooth_preference = Some(self.bluetooth_preference.to_key());
        raw.theme = match &self.theme {
            Some(theme) => Some(theme.clone()),
            None => match on_disk {
                Some(d) => opt_clone(&d.theme),
                None => None,
            },
        };
        raw.launch_on_boot = Some(self.launch_on_boot);
        raw.wireless_bluetooth_auto_connect = Some(self.wireless_bluetooth_auto_connect);
        raw.experimental_disclaimer_dismissed = Some(self.experimental_disclaimer_dismissed);
        raw.legal_page_hidden = Some(self.legal_page_hidden);
        raw.volume_percent = Some(self.volume_percent);
        assert(raw@.gesture_keys =~= spec_to_raw(self@, disk).gesture_keys);
        raw
    }
}


fn load_mappings(raw: &RawSettings) -> (r: Vec<Action>)
    ensures
        r@ == spec_from_raw(raw@).mappings,
{
    let ghost rv = raw@;
    let gestures = GestureId::all();
    let mut mappings: Vec<Action> = Vec::new();
    let mut i: usize = 0;
    while i < GESTURE_COUNT
        invariant
            i <= GESTURE_COUNT,
            rv == raw@,
            rv.gesture_keys.len() == GESTURE_COUNT,
            gestures@.len() == GESTURE_COUNT,
            forall|j: int| 0 <= j < GESTURE_COUNT ==> #[trigger] gestures@[j] == gesture_at(j),
            mappings@.len() == i,
            forall|j: int|
                0 <= j < i ==> #[trigger] mappings@[j] == spec_loaded_action(rv.gesture_keys[j], j),
        decreases GESTURE_COUNT - i,
    {
        let gesture = gestures[i];
        proof {
            lemma_gesture_index_bijective(gesture, i as int);
        }
        let action = match raw.get(gesture) {
            Some(key) => match Action::from_key(key) {
                Some(action) => action,
                None => default_action(i),
            },
            None => default_action(i),
        };
        mappings.push(action);
        i = i + 1;
    }
    assert(mappings@ =~= spec_from_raw(rv).mappings);
    mappings
}

fn default_action(index: usize) -> (r: Action)
    ensures
        r == spec_default_action(index as int),
{
    if index == 0 {
        Action::OpenSettings
    } else if index == 1 {
        Action::ToggleFullscreen
    } else if index == 2 {
        Action::QuickControls
    } else if index == 3 {
        Action::SwitchToNavigation
    } else if index == 4 {
        Action::SwitchToMedia
    } else if index == 5 {
        Action::SwitchToPhone
    } else if index == 6 {
        Action::FlipScreen
    } else {
        Action::ScreenOff
    }
}

fn normalize_preset_name(index: usize, name: &str) -> (r: String)
    requires
        index < EQ_PRESET_COUNT,
    ensures
        r@ == spec_normalize_preset_name(index as int, name@),
        0 < r@.len() <= MAX_EQ_PRESET_NAME_CHARS,
{
    let trimmed = trim(name);
    proof {
        reveal_strlit("Preset ");
        assert(spec_decimal((index + 1) as nat).len() == 1);
    }
    if char_count(trimmed) == 0 {
        default_preset_name(index)
    } else {
        String::from_str(take_chars(trimmed, MAX_EQ_PRESET_NAME_CHARS))
    }
}

fn load_preset_names(names: Option<Vec<String>>) -> (r: Vec<String>)
    ensures
        r@.map_values(|n: String| n@) == spec_loaded_preset_names(opt_names_view(names)),
        r@.len() == EQ_PRESET_COUNT,
        forall|i: int|
            0 <= i < EQ_PRESET_COUNT ==> 0 < (#[trigger] r@[i])@.len() <= MAX_EQ_PRESET_NAME_CHARS,
{
    let ghost nv = opt_names_view(names);
    let has_four = match &names {
        Some(ns) => ns.len() == EQ_PRESET_COUNT,
        None => false,
    };
    let mut r: Vec<String> = Vec::new();
    let mut k: usize = 0;
    proof {
        reveal_strlit("Preset ");
    }
    while k < EQ_PRESET_COUNT
        invariant
            k <= EQ_PRESET_COUNT,
            nv == opt_names_view(names),
            has_four == (names is Some && names->0@.len() == EQ_PRESET_COUNT),
            r@.len() == k,
            forall|j: int|
                0 <= j < k ==> (#[trigger] r@[j])@ == spec_loaded_preset_names(nv)[j],
            forall|j: int| 0 <= j < k ==> 0 < (#[trigger] r@[j])@.len() <= MAX_EQ_PRESET_NAME_CHARS,
        decreases EQ_PRESET_COUNT - k,
    {
        let name = match &names {
            Some(ns) => if has_four {
                normalize_preset_name(k, ns[k].as_str())
            } else {
                default_preset_name(k)
            },
            None => default_preset_name(k),
        };
        proof {
            reveal_strlit("Preset ");
            assert(spec_decimal((k + 1) as nat).len() == 1);
        }
        r.push(name);
        k = k + 1;
    }
    assert(r@.map_values(|n: String| n@) =~= spec_loaded_preset_names(nv));
    r
}


/// Saving settings and loading the file back gives the same settings,
/// except that an `Option` setting the saved copy never set comes back as
/// whatever the file held before the save. Holds for every valid settings
/// value whose preset names carry no surrounding whitespace and whose radio
/// preferences do not name an adapter whose ID is `auto` or `onboard`.
pub proof fn lemma_save_then_load(s: SettingsView, on_disk: Option<SettingsView>)
    requires
        settings_valid(s),
        forall|i: int|
            0 <= i < EQ_PRESET_COUNT ==> spec_trim(#[trigger] s.eq_preset_names[i])
                == s.eq_preset_names[i],
        s.wifi_preference matches ProviderPreferenceView::StableId(id) ==> (id != "auto"@ && id
            != "onboard"@),
        s.bluetooth_preference matches ProviderPreferenceView::StableId(id) ==> (id != "auto"@
            && id != "onboard"@),
    ensures
        spec_from_raw(spec_to_raw(s, on_disk)) == spec_merge_on_disk(s, on_disk),
{
    let raw = spec_to_raw(s, on_disk);
    let loaded = spec_from_raw(raw);
    assert forall|i: int| 0 <= i < GESTURE_COUNT implies #[trigger] loaded.mappings[i]
        == s.mappings[i] by {
        lemma_action_key_round_trip(s.mappings[i]);
    }
    assert(loaded.mappings =~= s.mappings);
    assert forall|i: int| 0 <= i < EQ_PRESET_COUNT implies #[trigger] loaded.eq_preset_names[i]
        == s.eq_preset_names[i] by {
        assert(spec_trim(s.eq_preset_names[i]).len() > 0);
    }
    assert(loaded.eq_preset_names =~= s.eq_preset_names);
    lemma_preference_round_trip(s.wifi_preference);
    lemma_preference_round_trip(s.bluetooth_preference);
}

/// Loading never produces settings outside their allowed ranges.
pub proof fn lemma_loaded_settings_valid(raw: RawSettingsView)
    requires
        raw.gesture_keys.len() == GESTURE_COUNT,
    ensures
        settings_valid(spec_from_raw(raw)),
{
    reveal_strlit("Preset ");
    let names = spec_from_raw(raw).eq_preset_names;
    assert forall|i: int| 0 <= i < EQ_PRESET_COUNT implies 0 < (#[trigger] names[i]).len()
        <= MAX_EQ_PRESET_NAME_CHARS by {
        assert(spec_decimal((i + 1) as nat).len() == 1);
    }
}

/// Saving never erases an optional setting another running copy saved
/// and this copy never set: after the save, loading gives this copy's
/// value for each optional setting it set, and the file's earlier value
/// for each it left unset. Holds under the same conditions as
/// [`lemma_save_then_load`].
pub proof fn lemma_save_keeps_values_set_elsewhere(s: SettingsView, on_disk: SettingsView)
    requires
        settings_valid(s),
        forall|i: int|
            0 <= i < EQ_PRESET_COUNT ==> spec_trim(#[trigger] s.eq_preset_names[i])
                == s.eq_preset_names[i],
        s.wifi_preference matches ProviderPreferenceView::StableId(id) ==> (id != "auto"@ && id
            != "onboard"@),
        s.bluetooth_preference matches ProviderPreferenceView::StableId(id) ==> (id != "auto"@
            && id != "onboard"@),
    ensures
        ({
            let loaded = spec_from_raw(spec_to_raw(s, Some(on_disk)));
            &&& loaded.theme == or_on_disk(s.theme, on_disk.theme)
            &&& loaded.audio_output_device == or_on_disk(
                s.audio_output_device,
                on_disk.audio_output_device,
            )
            &&& loaded.microphone_input_device == or_on_disk(
                s.microphone_input_device,
                on_disk.microphone_input_device,
            )
            &&& loaded.night_mode_gpio_line == or_on_disk(
                s.night_mode_gpio_line,
                on_disk.night_mode_gpio_line,
            )
            &&& loaded.launch_on_boot == s.launch_on_boot
        }),
{
    lemma_save_then_load(s, Some(on_disk));
}

} // verus!
