//! The small platform vocabulary the head unit's logic is written in: the
//! follow-up gestures a touchscreen can report, the touch/display rotation,
//! the preferred radio provider for Wi-Fi/Bluetooth, and the car-specific
//! key codes a category-switch sends to the phone.

use vstd::prelude::*;

use crate::text::str_eq;

verus! {

/// A completed follow-up gesture, recognised after the four-finger arming
/// swipe.
#[derive(Clone, Copy, Debug, PartialEq, Eq, Hash)]
pub enum GestureId {
    DoubleTap,
    TwoFingerTap,
    LongPress,
    SwipeUp,
    SwipeDown,
    SwipeLeft,
    SwipeRight,
    Circle,
}

/// The number of distinct gestures.
pub const GESTURE_COUNT: usize = 8;

/// The position of `gesture` in [`GestureId::all`]'s order.
pub open spec fn gesture_index(gesture: GestureId) -> int {
    match gesture {
        GestureId::DoubleTap => 0,
        GestureId::TwoFingerTap => 1,
        GestureId::LongPress => 2,
        GestureId::SwipeUp => 3,
        GestureId::SwipeDown => 4,
        GestureId::SwipeLeft => 5,
        GestureId::SwipeRight => 6,
        GestureId::Circle => 7,
    }
}

/// The gesture at position `index` of [`GestureId::all`]'s order.
pub open spec fn gesture_at(index: int) -> GestureId {
    if index == 0 {
        GestureId::DoubleTap
    } else if index == 1 {
        GestureId::TwoFingerTap
    } else if index == 2 {
        GestureId::LongPress
    } else if index == 3 {
        GestureId::SwipeUp
    } else if index == 4 {
        GestureId::SwipeDown
    } else if index == 5 {
        GestureId::SwipeLeft
    } else if index == 6 {
        GestureId::SwipeRight
    } else {
        GestureId::Circle
    }
}

/// Every gesture sits at its own position, and the positions cover
/// `0..GESTURE_COUNT` exactly once.
pub proof fn lemma_gesture_index_bijective(gesture: GestureId, index: int)
    ensures
        0 <= gesture_index(gesture) < GESTURE_COUNT,
        gesture_at(gesture_index(gesture)) == gesture,
        0 <= index < GESTURE_COUNT ==> gesture_index(gesture_at(index)) == index,
{
}

impl GestureId {
    /// Every gesture, once each.
    pub fn all() -> (r: [GestureId; 8])
        ensures
            r@.len() == GESTURE_COUNT,
            forall|i: int| 0 <= i < GESTURE_COUNT ==> #[trigger] r@[i] == gesture_at(i),
    {
        [
            GestureId::DoubleTap,
            GestureId::TwoFingerTap,
            GestureId::LongPress,
            GestureId::SwipeUp,
            GestureId::SwipeDown,
            GestureId::SwipeLeft,
            GestureId::SwipeRight,
            GestureId::Circle,
        ]
    }

    /// This gesture's position in [`GestureId::all`]'s order.
    pub fn index(self) -> (r: usize)
        ensures
            r == gesture_index(self),
            r < GESTURE_COUNT,
    {
        match self {
            GestureId::DoubleTap => 0,
            GestureId::TwoFingerTap => 1,
            GestureId::LongPress => 2,
            GestureId::SwipeUp => 3,
            GestureId::SwipeDown => 4,
            GestureId::SwipeLeft => 5,
            GestureId::SwipeRight => 6,
            GestureId::Circle => 7,
        }
    }
}

/// The touchscreen/display orientation.
#[derive(Clone, Copy, Debug, PartialEq, Eq)]
pub enum Rotation {
    Normal,
    Flipped180,
}

/// A car-specific key code a category-switch action sends to the phone.
#[derive(Clone, Copy, Debug, PartialEq, Eq)]
pub enum KeyCode {
    Media,
    Navigation,
    Radio,
    Tel,
}

/// Which physical radio to use for Wi-Fi or Bluetooth.
#[derive(Clone, Debug, PartialEq, Eq)]
pub enum ProviderPreference {
    Auto,
    Onboard,
    StableId(String),
}

/// A [`ProviderPreference`] with its adapter ID as characters.
pub enum ProviderPreferenceView {
    Auto,
    Onboard,
    StableId(Seq<char>),
}

impl View for ProviderPreference {
    type V = ProviderPreferenceView;

    open spec fn view(&self) -> ProviderPreferenceView {
        match self {
            ProviderPreference::Auto => ProviderPreferenceView::Auto,
            ProviderPreference::Onboard => ProviderPreferenceView::Onboard,
            ProviderPreference::StableId(id) => ProviderPreferenceView::StableId(id@),
        }
    }
}

/// What [`ProviderPreference::parse`] makes of `text`: `auto`, `onboard`,
/// or anything else as a stable adapter ID.
pub open spec fn spec_parse_preference(text: Seq<char>) -> ProviderPreferenceView {
    if text == "auto"@ {
        ProviderPreferenceView::Auto
    } else if text == "onboard"@ {
        ProviderPreferenceView::Onboard
    } else {
        ProviderPreferenceView::StableId(text)
    }
}

/// The text a preference is written as, the inverse of
/// [`spec_parse_preference`].
pub open spec fn spec_preference_key(preference: ProviderPreferenceView) -> Seq<char> {
    match preference {
        ProviderPreferenceView::Auto => "auto"@,
        ProviderPreferenceView::Onboard => "onboard"@,
        ProviderPreferenceView::StableId(id) => id,
    }
}

impl ProviderPreference {
    /// Parses the form an operator types on the command line.
    pub fn parse(text: &str) -> (r: ProviderPreference)
        ensures
            r@ == spec_parse_preference(text@),
    {
        if str_eq(text, "auto") {
            ProviderPreference::Auto
        } else if str_eq(text, "onboard") {
            ProviderPreference::Onboard
        } else {
            ProviderPreference::StableId(String::from_str(text))
        }
    }

    /// The text this preference is written as.
    pub fn to_key(&self) -> (r: String)
        ensures
            r@ == spec_preference_key(self@),
    {
        match self {
            ProviderPreference::Auto => String::from_str("auto"),
            ProviderPreference::Onboard => String::from_str("onboard"),
            ProviderPreference::StableId(id) => id.clone(),
        }
    }

    /// An independent copy.
    pub fn duplicate(&self) -> (r: ProviderPreference)
        ensures
            r@ == self@,
    {
        match self {
            ProviderPreference::Auto => ProviderPreference::Auto,
            ProviderPreference::Onboard => ProviderPreference::Onboard,
            ProviderPreference::StableId(id) => ProviderPreference::StableId(id.clone()),
        }
    }
}

/// Writing a preference and parsing it back gives the same preference,
/// unless it names an adapter whose ID is itself `auto` or `onboard`.
pub proof fn lemma_preference_round_trip(preference: ProviderPreferenceView)
    requires
        preference matches ProviderPreferenceView::StableId(id) ==> (id != "auto"@ && id
            != "onboard"@),
    ensures
        spec_parse_preference(spec_preference_key(preference)) == preference,
{
    reveal_strlit("auto");
    reveal_strlit("onboard");
    assert("auto"@[0] != "onboard"@[0]);
}

} // verus!
