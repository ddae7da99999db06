//! The first, gesture-only form of the persisted operator settings: which
//! action each follow-up gesture triggers, and how long the arm window
//! lasts. Loading starts from the defaults and applies every recognised
//! stored value; saving writes every gesture's action and the window.

use vstd::prelude::*;

use crate::platform::{
    gesture_at, gesture_index, lemma_gesture_index_bijective, GestureId, KeyCode, GESTURE_COUNT,
};
use crate::text::str_eq;

verus! {

pub const DEFAULT_ARM_WINDOW_SECONDS: u32 = 3;
pub const MIN_ARM_WINDOW_SECONDS: u32 = 1;
pub const MAX_ARM_WINDOW_SECONDS: u32 = 30;

/// The small, closed set of actions a follow-up gesture can trigger.
#[derive(Clone, Copy, Debug, PartialEq, Eq)]
pub enum Action {
    OpenSettings,
    ToggleFullscreen,
    CycleRotation,
    SwitchToMedia,
    SwitchToNavigation,
    SwitchToRadio,
    SwitchToPhone,
    ScreenOff,
}

/// The actions in the order the settings panel lists them.
pub open spec fn spec_all_actions() -> Seq<Action> {
    seq![
        Action::OpenSettings,
        Action::ToggleFullscreen,
        Action::CycleRotation,
        Action::SwitchToMedia,
        Action::SwitchToNavigation,
        Action::SwitchToRadio,
        Action::SwitchToPhone,
        Action::ScreenOff,
    ]
}

/// The text shown for an action.
pub open spec fn spec_action_label(action: Action) -> Seq<char> {
    match action {
        Action::OpenSettings => "Open settings"@,
        Action::ToggleFullscreen => "Toggle fullscreen"@,
        Action::CycleRotation => "Cycle rotation"@,
        Action::SwitchToMedia => "Switch to media"@,
        Action::SwitchToNavigation => "Switch to navigation"@,
        Action::SwitchToRadio => "Switch to radio"@,
        Action::SwitchToPhone => "Switch to phone"@,
        Action::ScreenOff => "Screen off"@,
    }
}

/// The key code a category-switch action sends, `None` for an action
/// dispatched locally.
pub open spec fn spec_action_key_code(action: Action) -> Option<KeyCode> {
    match action {
        Action::SwitchToMedia => Some(KeyCode::Media),
        Action::SwitchToNavigation => Some(KeyCode::Navigation),
        Action::SwitchToRadio => Some(KeyCode::Radio),
        Action::SwitchToPhone => Some(KeyCode::Tel),
        _ => None,
    }
}

/// The text an action is stored as.
pub open spec fn spec_action_key(action: Action) -> Seq<char> {
    match action {
        Action::OpenSettings => "open_settings"@,
        Action::ToggleFullscreen => "toggle_fullscreen"@,
        Action::CycleRotation => "cycle_rotation"@,
        Action::SwitchToMedia => "switch_to_media"@,
        Action::SwitchToNavigation => "switch_to_navigation"@,
        Action::SwitchToRadio => "switch_to_radio"@,
        Action::SwitchToPhone => "switch_to_phone"@,
        Action::ScreenOff => "screen_off"@,
    }
}

/// The action stored as `key`, if `key` names one.
pub open spec fn spec_action_from_key(key: Seq<char>) -> Option<Action> {
    if key == "open_settings"@ {
        Some(Action::OpenSettings)
    } else if key == "toggle_fullscreen"@ {
        Some(Action::ToggleFullscreen)
    } else if key == "cycle_rotation"@ {
        Some(Action::CycleRotation)
    } else if key == "switch_to_media"@ {
        Some(Action::SwitchToMedia)
    } else if key == "switch_to_navigation"@ {
        Some(Action::SwitchToNavigation)
    } else if key == "switch_to_radio"@ {
        Some(Action::SwitchToRadio)
    } else if key == "switch_to_phone"@ {
        Some(Action::SwitchToPhone)
    } else if key == "screen_off"@ {
        Some(Action::ScreenOff)
    } else {
        None
    }
}

impl Action {
    /// Every action, once each.
    pub fn all() -> (r: [Action; 8])
        ensures
            r@ == spec_all_actions(),
    {
        let r = [
            Action::OpenSettings,
            Action::ToggleFullscreen,
            Action::CycleRotation,
            Action::SwitchToMedia,
            Action::SwitchToNavigation,
            Action::SwitchToRadio,
            Action::SwitchToPhone,
            Action::ScreenOff,
        ];
        assert(r@ =~= spec_all_actions());
        r
    }

    /// The text shown for this action.
    pub fn label(self) -> (r: &'static str)
        ensures
            r@ == spec_action_label(self),
    {
        match self {
            Action::OpenSettings => "Open settings",
            Action::ToggleFullscreen => "Toggle fullscreen",
            Action::CycleRotation => "Cycle rotation",
            Action::SwitchToMedia => "Switch to media",
            Action::SwitchToNavigation => "Switch to navigation",
            Action::SwitchToRadio => "Switch to radio",
            Action::SwitchToPhone => "Switch to phone",
            Action::ScreenOff => "Screen off",
        }
    }

    /// The key code a category-switch action sends to the phone.
    pub fn key_code(self) -> (r: Option<KeyCode>)
        ensures
            r == spec_action_key_code(self),
    {
        match self {
            Action::SwitchToMedia => Some(KeyCode::Media),
            Action::SwitchToNavigation => Some(KeyCode::Navigation),
            Action::SwitchToRadio => Some(KeyCode::Radio),
            Action::SwitchToPhone => Some(KeyCode::Tel),
            Action::OpenSettings | Action::ToggleFullscreen | Action::CycleRotation
            | Action::ScreenOff => None,
        }
    }

    /// The text this action is stored as.
    pub fn key(self) -> (r: &'static str)
        ensures
            r@ == spec_action_key(self),
    {
        match self {
            Action::OpenSettings => "open_settings",
            Action::ToggleFullscreen => "toggle_fullscreen",
            Action::CycleRotation => "cycle_rotation",
            Action::SwitchToMedia => "switch_to_media",
            Action::SwitchToNavigation => "switch_to_navigation",
            Action::SwitchToRadio => "switch_to_radio",
            Action::SwitchToPhone => "switch_to_phone",
            Action::ScreenOff => "screen_off",
        }
    }

    /// The action stored as `key`; `None` for text no action is stored as.
    pub fn from_key(key: &str) -> (r: Option<Action>)
        ensures
            r == spec_action_from_key(key@),
    {
        if str_eq(key, "open_settings") {
            Some(Action::OpenSettings)
        } else if str_eq(key, "toggle_fullscreen") {
            Some(Action::ToggleFullscreen)
        } else if str_eq(key, "cycle_rotation") {
            Some(Action::CycleRotation)
        } else if str_eq(key, "switch_to_media") {
            Some(Action::SwitchToMedia)
        } else if str_eq(key, "switch_to_navigation") {
            Some(Action::SwitchToNavigation)
        } else if str_eq(key, "switch_to_radio") {
            Some(Action::SwitchToRadio)
        } else if str_eq(key, "switch_to_phone") {
            Some(Action::SwitchToPhone)
        } else if str_eq(key, "screen_off") {
            Some(Action::ScreenOff)
        } else {
            None
        }
    }
}

/// Reading back the text an action is stored as gives that action.
pub proof fn lemma_action_key_round_trip(action: Action)
    ensures
        spec_action_from_key(spec_action_key(action)) == Some(action),
{
    reveal_strlit("open_settings");
    reveal_strlit("toggle_fullscreen");
    reveal_strlit("cycle_rotation");
    reveal_strlit("switch_to_media");
    reveal_strlit("switch_to_navigation");
    reveal_strlit("switch_to_radio");
    reveal_strlit("switch_to_phone");
    reveal_strlit("screen_off");
    assert("open_settings"@[0] == 'o');
    assert("toggle_fullscreen"@[0] == 't');
    assert("cycle_rotation"@[0] == 'c');
    assert("switch_to_media"@[0] == 's' && "switch_to_media"@[1] == 'w'
        && "switch_to_media"@[10] == 'm');
    assert("switch_to_navigation"@[0] == 's' && "switch_to_navigation"@[1] == 'w'
        && "switch_to_navigation"@[10] == 'n');
    assert("switch_to_radio"@[0] == 's' && "switch_to_radio"@[1] == 'w'
        && "switch_to_radio"@[10] == 'r');
    assert("switch_to_phone"@[0] == 's' && "switch_to_phone"@[1] == 'w'
        && "switch_to_phone"@[10] == 'p');
    assert("screen_off"@[0] == 's' && "screen_off"@[1] == 'c');
}

/// The text shown for a gesture in the settings panel.
pub open spec fn spec_gesture_label(gesture: GestureId) -> Seq<char> {
    match gesture {
        GestureId::DoubleTap => "Double-tap"@,
        GestureId::TwoFingerTap => "Two-finger tap"@,
        GestureId::LongPress => "Long press"@,
        GestureId::SwipeUp => "Swipe up"@,
        GestureId::SwipeDown => "Swipe down"@,
        GestureId::SwipeLeft => "Swipe left"@,
        GestureId::SwipeRight => "Swipe right"@,
        GestureId::Circle => "Circle / spiral"@,
    }
}

/// The text shown for `gesture`.
pub fn gesture_label(gesture: GestureId) -> (r: &'static str)
    ensures
        r@ == spec_gesture_label(gesture),
{
    match gesture {
        GestureId::DoubleTap => "Double-tap",
        GestureId::TwoFingerTap => "Two-finger tap",
        GestureId::LongPress => "Long press",
        GestureId::SwipeUp => "Swipe up",
        GestureId::SwipeDown => "Swipe down",
        GestureId::SwipeLeft => "Swipe left",
        GestureId::SwipeRight => "Swipe right",
        GestureId::Circle => "Circle / spiral",
    }
}

/// The action each gesture triggers out of the box.
pub open spec fn spec_default_action(index: int) -> Action {
    if index == 0 {
        Action::OpenSettings
    } else if index == 1 {
        Action::ToggleFullscreen
    } else if index == 2 {
        Action::CycleRotation
    } else if index == 3 {
        Action::SwitchToNavigation
    } else if index == 4 {
        Action::SwitchToMedia
    } else if index == 5 {
        Action::SwitchToPhone
    } else if index == 6 {
        Action::ToggleFullscreen
    } else {
        Action::ScreenOff
    }
}

fn default_action(index: usize) -> (r: Action)
    ensures
        r == spec_default_action(index as int),
{
    if index == 0 {
        Action::OpenSettings
    } else if index == 1 {
        Action::ToggleFullscreen
    } else if index == 2 {
        Action::CycleRotation
    } else if index == 3 {
        Action::SwitchToNavigation
    } else if index == 4 {
        Action::SwitchToMedia
    } else if index == 5 {
        Action::SwitchToPhone
    } else if index == 6 {
        Action::ToggleFullscreen
    } else {
        Action::ScreenOff
    }
}

/// `value` clamped into the arm window's allowed range.
pub open spec fn clamp_arm_window(value: u32) -> u32 {
    if value < MIN_ARM_WINDOW_SECONDS {
        MIN_ARM_WINDOW_SECONDS
    } else if value > MAX_ARM_WINDOW_SECONDS {
        MAX_ARM_WINDOW_SECONDS
    } else {
        value
    }
}

/// A [`GestureSettings`] as plain values.
pub struct GestureSettingsView {
    pub mappings: Seq<Action>,
    pub arm_window_seconds: u32,
}

/// The gesture settings of a fresh install.
pub open spec fn spec_default_gesture_settings() -> GestureSettingsView {
    GestureSettingsView {
        mappings: Seq::new(GESTURE_COUNT as nat, |i: int| spec_default_action(i)),
        arm_window_seconds: DEFAULT_ARM_WINDOW_SECONDS,
    }
}

/// Which action each gesture triggers, and the arm window.
#[derive(Debug, PartialEq, Eq)]
pub struct GestureSettings {
    mappings: Vec<Action>,
    arm_window_seconds: u32,
}

impl GestureSettings {
    /// These settings as plain values.
    pub closed spec fn spec_view(&self) -> GestureSettingsView {
        GestureSettingsView { mappings: self.mappings@, arm_window_seconds: self.arm_window_seconds }
    }

    #[verifier::type_invariant]
    spec fn inv(self) -> bool {
        gesture_settings_valid(self.spec_view())
    }
}

/// What every [`GestureSettings`] satisfies: one action per gesture, and
/// an arm window inside its allowed range.
pub open spec fn gesture_settings_valid(v: GestureSettingsView) -> bool {
    &&& v.mappings.len() == GESTURE_COUNT
    &&& MIN_ARM_WINDOW_SECONDS <= v.arm_window_seconds <= MAX_ARM_WINDOW_SECONDS
}

impl View for GestureSettings {
    type V = GestureSettingsView;

    open spec fn view(&self) -> GestureSettingsView {
        self.spec_view()
    }
}

impl Clone for GestureSettings {
    fn clone(&self) -> (r: Self)
        ensures
            r@ == self@,
    {
        proof {
            use_type_invariant(self);
        }
        GestureSettings {
            mappings: copy_actions(&self.mappings),
            arm_window_seconds: self.arm_window_seconds,
        }
    }
}

fn copy_actions(actions: &Vec<Action>) -> (r: Vec<Action>)
    ensures
        r@ == actions@,
{
    let mut r: Vec<Action> = Vec::new();
    let mut i: usize = 0;
    while i < actions.len()
        invariant
            i <= actions@.len(),
            r@ == actions@.take(i as int),
        decreases actions.len() - i,
    {
        r.push(actions[i]);
        assert(actions@.take(i + 1) =~= actions@.take(i as int).push(actions@[i as int]));
        i = i + 1;
    }
    assert(actions@.take(actions@.len() as int) =~= actions@);
    r
}

impl GestureSettings {
    /// Makes what every gesture settings value satisfies known of this one,
    /// so that its laws and the effect of its setters can be used.
    pub fn check_valid(&self)
        ensures
            gesture_settings_valid(self@),
    {
        proof {
            use_type_invariant(self);
        }
    }

    /// Double-tap opens settings, two-finger tap and swipe right toggle
    /// fullscreen, long press cycles rotation, swipes up/down/left switch
    /// to navigation/media/phone, and a circle turns the screen off.
    pub fn defaults() -> (r: GestureSettings)
        ensures
            r@ == spec_default_gesture_settings(),
    {
        let mut mappings: Vec<Action> = Vec::new();
        let mut i: usize = 0;
        while i < GESTURE_COUNT
            invariant
                i <= GESTURE_COUNT,
                mappings@.len() == i,
                forall|j: int| 0 <= j < i ==> #[trigger] mappings@[j] == spec_default_action(j),
            decreases GESTURE_COUNT - i,
        {
            mappings.push(default_action(i));
            i = i + 1;
        }
        assert(mappings@ =~= spec_default_gesture_settings().mappings);
        GestureSettings { mappings, arm_window_seconds: DEFAULT_ARM_WINDOW_SECONDS }
    }

    /// The action `gesture` triggers.
    pub fn action_for(&self, gesture: GestureId) -> (r: Action)
        ensures
            r == self@.mappings[gesture_index(gesture)],
    {
        proof {
            use_type_invariant(self);
        }
        self.mappings[gesture.index()]
    }

    /// Makes `gesture` trigger `action`.
    pub fn set_action(&mut self, gesture: GestureId, action: Action)
        ensures
            final(self)@ == (GestureSettingsView {
                mappings: old(self)@.mappings.update(gesture_index(gesture), action),
                ..old(self)@
            }),
    {
        proof {
            use_type_invariant(&*self);
        }
        let mut mappings = copy_actions(&self.mappings);
        mappings.set(gesture.index(), action);
        self.mappings = mappings;
    }

    /// How long a follow-up gesture may take after the arming swipe.
    pub fn arm_window_seconds(&self) -> (r: u32)
        ensures
            r == self@.arm_window_seconds,
    {
        self.arm_window_seconds
    }

    /// Sets the arm window, clamped to
    /// `MIN_ARM_WINDOW_SECONDS..=MAX_ARM_WINDOW_SECONDS`.
    pub fn set_arm_window_seconds(&mut self, seconds: u32)
        ensures
            final(self)@ == (GestureSettingsView {
                arm_window_seconds: clamp_arm_window(seconds),
                ..old(self)@
            }),
    {
        proof {
            use_type_invariant(&*self);
        }
        self.arm_window_seconds = if seconds < MIN_ARM_WINDOW_SECONDS {
            MIN_ARM_WINDOW_SECONDS
        } else if seconds > MAX_ARM_WINDOW_SECONDS {
            MAX_ARM_WINDOW_SECONDS
        } else {
            seconds
        };
    }
}

/// The gesture settings file's contents, every entry optional.
pub struct RawGestureSettings {
    pub double_tap: Option<String>,
    pub two_finger_tap: Option<String>,
    pub long_press: Option<String>,
    pub swipe_up: Option<String>,
    pub swipe_down: Option<String>,
    pub swipe_left: Option<String>,
    pub swipe_right: Option<String>,
    pub circle: Option<String>,
    pub arm_window_seconds: Option<u32>,
}

/// A [`RawGestureSettings`] as plain values, the gesture entries in
/// [`GestureId::all`]'s order.
pub struct RawGestureSettingsView {
    pub gesture_keys: Seq<Option<Seq<char>>>,
    pub arm_window_seconds: Option<u32>,
}

/// `o` with its text as characters.
pub open spec fn opt_view(o: Option<String>) -> Option<Seq<char>> {
    match o {
        Some(s) => Some(s@),
        None => None,
    }
}

/// `o` with its text as characters.
pub open spec fn opt_str_view(o: Option<&str>) -> Option<Seq<char>> {
    match o {
        Some(s) => Some(s@),
        None => None,
    }
}

impl View for RawGestureSettings {
    type V = RawGestureSettingsView;

    open spec fn view(&self) -> RawGestureSettingsView {
        RawGestureSettingsView {
            gesture_keys: seq![
                opt_view(self.double_tap),
                opt_view(self.two_finger_tap),
                opt_view(self.long_press),
                opt_view(self.swipe_up),
                opt_view(self.swipe_down),
                opt_view(self.swipe_left),
                opt_view(self.swipe_right),
                opt_view(self.circle),
            ],
            arm_window_seconds: self.arm_window_seconds,
        }
    }
}

fn opt_as_str(o: &Option<String>) -> (r: Option<&str>)
    ensures
        opt_str_view(r) == opt_view(*o),
{
    match o {
        Some(s) => Some(s.as_str()),
        None => None,
    }
}

impl RawGestureSettings {
    /// The text stored for `gesture`.
    pub fn get(&self, gesture: GestureId) -> (r: Option<&str>)
        ensures
            opt_str_view(r) == self@.gesture_keys[gesture_index(gesture)],
    {
        match gesture {
            GestureId::DoubleTap => opt_as_str(&self.double_tap),
            GestureId::TwoFingerTap => opt_as_str(&self.two_finger_tap),
            GestureId::LongPress => opt_as_str(&self.long_press),
            GestureId::SwipeUp => opt_as_str(&self.swipe_up),
            GestureId::SwipeDown => opt_as_str(&self.swipe_down),
            GestureId::SwipeLeft => opt_as_str(&self.swipe_left),
            GestureId::SwipeRight => opt_as_str(&self.swipe_right),
            GestureId::Circle => opt_as_str(&self.circle),
        }
    }

    /// Stores `action` for `gesture`.
    pub fn set(&mut self, gesture: GestureId, action: Action)
        ensures
            final(self)@ == (RawGestureSettingsView {
                gesture_keys: old(self)@.gesture_keys.update(
                    gesture_index(gesture),
                    Some(spec_action_key(action)),
                ),
                ..old(self)@
            }),
    {
        let value = Some(String::from_str(action.key()));
        match gesture {
            GestureId::DoubleTap => self.double_tap = value,
            GestureId::TwoFingerTap => self.two_finger_tap = value,
            GestureId::LongPress => self.long_press = value,
            GestureId::SwipeUp => self.swipe_up = value,
            GestureId::SwipeDown => self.swipe_down = value,
            GestureId::SwipeLeft => self.swipe_left = value,
            GestureId::SwipeRight => self.swipe_right = value,
            GestureId::Circle => self.circle = value,
        }
        assert(final(self)@.gesture_keys =~= old(self)@.gesture_keys.update(
            gesture_index(gesture),
            Some(spec_action_key(action)),
        ));
    }
}

/// The action gesture `index` loads as: the stored action when its text
/// names one, otherwise the default.
pub open spec fn spec_loaded_action(key: Option<Seq<char>>, index: int) -> Action {
    match key {
        Some(k) => match spec_action_from_key(k) {
            Some(a) => a,
            None => spec_default_action(index),
        },
        None => spec_default_action(index),
    }
}

/// The settings a file loads as: the defaults with every recognised action
/// and the (clamped) arm window applied.
pub open spec fn spec_from_raw(r: RawGestureSettingsView) -> GestureSettingsView {
    GestureSettingsView {
        mappings: Seq::new(
            GESTURE_COUNT as nat,
            |i: int| spec_loaded_action(r.gesture_keys[i], i),
        ),
        arm_window_seconds: match r.arm_window_seconds {
            Some(s) => clamp_arm_window(s),
            None => DEFAULT_ARM_WINDOW_SECONDS,
        },
    }
}

/// What saving `s` writes: every gesture's action and the arm window.
pub open spec fn spec_to_raw(s: GestureSettingsView) -> RawGestureSettingsView {
    RawGestureSettingsView {
        gesture_keys: Seq::new(
            GESTURE_COUNT as nat,
            |i: int| Some(spec_action_key(s.mappings[i])),
        ),
        arm_window_seconds: Some(s.arm_window_seconds),
    }
}

impl GestureSettings {
    /// The settings `raw` describes.
    pub fn from_raw(raw: &RawGestureSettings) -> (r: GestureSettings)
        ensures
            r@ == spec_from_raw(raw@),
    {
        let ghost rv = raw@;
        let gestures = GestureId::all();
        let mut mappings: Vec<Action> = Vec::new();
        let mut i: usize = 0;
        while i < GESTURE_COUNT
            invariant
                i <= GESTURE_COUNT,
                rv == raw@,
                gestures@.len() == GESTURE_COUNT,
                forall|j: int| 0 <= j < GESTURE_COUNT ==> #[trigger] gestures@[j] == gesture_at(j),
                mappings@.len() == i,
                forall|j: int|
                    0 <= j < i ==> #[trigger] mappings@[j] == spec_loaded_action(
                        rv.gesture_keys[j],
                        j,
                    ),
            decreases GESTURE_COUNT - i,
        {
            let gesture = gestures[i];
            proof {
                lemma_gesture_index_bijective(gesture, i as int);
            }
            let action = match raw.get(gesture) {
                Some(key) => match Action::from_key(key) {
                    Some(action) => action,
                    None => default_action(i),
                },
                None => default_action(i),
            };
            mappings.push(action);
            i = i + 1;
        }
        assert(mappings@ =~= spec_from_raw(rv).mappings);
        let arm_window_seconds: u32 = match raw.arm_window_seconds {
            Some(seconds) => if seconds < MIN_ARM_WINDOW_SECONDS {
                MIN_ARM_WINDOW_SECONDS
            } else if seconds > MAX_ARM_WINDOW_SECONDS {
                MAX_ARM_WINDOW_SECONDS
            } else {
                seconds
            },
            None => DEFAULT_ARM_WINDOW_SECONDS,
        };
        GestureSettings { mappings, arm_window_seconds }
    }

    /// What saving these settings writes.
    pub fn to_raw(&self) -> (r: RawGestureSettings)
        ensures
            r@ == spec_to_raw(self@),
    {
        proof {
            use_type_invariant(self);
        }
        let mut raw = RawGestureSettings {
            double_tap: None,
            two_finger_tap: None,
            long_press: None,
            swipe_up: None,
            swipe_down: None,
            swipe_left: None,
            swipe_right: None,
            circle: None,
            arm_window_seconds: None,
        };
        let gestures = GestureId::all();
        let mut i: usize = 0;
        assert(raw@.gesture_keys =~= Seq::new(
            GESTURE_COUNT as nat,
            |j: int|
                if j < 0 {
                    Some(spec_action_key(self@.mappings[j]))
                } else {
                    None
                },
        ));
        while i < GESTURE_COUNT
            invariant
                i <= GESTURE_COUNT,
                self@.mappings.len() == GESTURE_COUNT,
                gestures@.len() == GESTURE_COUNT,
                forall|j: int| 0 <= j < GESTURE_COUNT ==> #[trigger] gestures@[j] == gesture_at(j),
                raw.arm_window_seconds is None,
                raw@.gesture_keys == Seq::new(
                    GESTURE_COUNT as nat,
                    |j: int|
                        if j < i {
                            Some(spec_action_key(self@.mappings[j]))
                        } else {
                            None
                        },
                ),
            decreases GESTURE_COUNT - i,
        {
            let gesture = gestures[i];
            proof {
                lemma_gesture_index_bijective(gesture, i as int);
            }
            raw.set(gesture, self.action_for(gesture));
            assert(raw@.gesture_keys =~= Seq::new(
                GESTURE_COUNT as nat,
                |j: int|
                    if j < i + 1 {
                        Some(spec_action_key(self@.mappings[j]))
                    } else {
                        None
                    },
            ));
            i = i + 1;
        }
        raw.arm_window_seconds = Some(self.arm_window_seconds);
        assert(raw@.gesture_keys =~= spec_to_raw(self@).gesture_keys);
        raw
    }
}

/// Saving gesture settings and loading the file back gives the same
/// settings, for every settings value whose arm window is in range.
pub proof fn lemma_save_then_load(s: GestureSettingsView)
    requires
        gesture_settings_valid(s),
    ensures
        spec_from_raw(spec_to_raw(s)) == s,
{
    let loaded = spec_from_raw(spec_to_raw(s));
    assert forall|i: int| 0 <= i < GESTURE_COUNT implies #[trigger] loaded.mappings[i]
        == s.mappings[i] by {
        lemma_action_key_round_trip(s.mappings[i]);
    }
    assert(loaded.mappings =~= s.mappings);
}

} // verus!
