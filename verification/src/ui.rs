//! Decisions of the head unit's on-screen session: the settings panel's
//! wording, what a gesture's action does to the window, the screen
//! rotation and fullscreen toggles, the audio-device choices, the hang
//! safety net, and the kiosk's choice of phone and reconnect policy.

use vstd::prelude::*;

use crate::platform::Rotation;
use crate::settings::{spec_action_key_code, Action};
use crate::order::{sort_texts, text_order};
use crate::text::{
    decimal, find_char, find_char_in, lemma_find_char, spec_decimal, split_lines, str_eq,
    string_texts, text_lines,
};

verus! {

/// The pages of the settings panel.
#[derive(Debug, Clone, Copy, PartialEq, Eq, Structural)]
pub enum SettingsPage {
    Menu,
    Gestures,
    Display,
    Themes,
    Equalizer,
    RearCamera,
    DashCam,
    ScreenMirroring,
    Legal,
}

/// The label on a page's menu button, which is also its title.
pub open spec fn spec_settings_page_label(page: SettingsPage) -> Seq<char> {
    match page {
        SettingsPage::Menu => "Settings"@,
        SettingsPage::Gestures => "Gestures"@,
        SettingsPage::Display => "Display"@,
        SettingsPage::Themes => "Themes"@,
        SettingsPage::Equalizer => "EQ"@,
        SettingsPage::RearCamera => "Rear Camera"@,
        SettingsPage::DashCam => "DashCam"@,
        SettingsPage::ScreenMirroring => "Screen Mirroring"@,
        SettingsPage::Legal => "Legal"@,
    }
}

impl SettingsPage {
    /// The label on this page's menu button, which is also its title.
    pub fn label(self) -> (r: &'static str)
        ensures
            r@ == spec_settings_page_label(self),
    {
        match self {
            SettingsPage::Menu => "Settings",
            SettingsPage::Gestures => "Gestures",
            SettingsPage::Display => "Display",
            SettingsPage::Themes => "Themes",
            SettingsPage::Equalizer => "EQ",
            SettingsPage::RearCamera => "Rear Camera",
            SettingsPage::DashCam => "DashCam",
            SettingsPage::ScreenMirroring => "Screen Mirroring",
            SettingsPage::Legal => "Legal",
        }
    }
}

/// The rotation button's text.
pub open spec fn spec_rotation_label_text(rotation: Rotation) -> Seq<char> {
    match rotation {
        Rotation::Normal => "Screen: normal"@,
        Rotation::Flipped180 => "Screen: flipped 180\u{b0}"@,
    }
}

/// The rotation button's text.
pub fn rotation_label_text(rotation: Rotation) -> (r: &'static str)
    ensures
        r@ == spec_rotation_label_text(rotation),
{
    match rotation {
        Rotation::Normal => "Screen: normal",
        Rotation::Flipped180 => "Screen: flipped 180\u{b0}",
    }
}

/// The rotation the flip action switches to: the other one.
pub open spec fn spec_next_rotation(rotation: Rotation) -> Rotation {
    match rotation {
        Rotation::Normal => Rotation::Flipped180,
        Rotation::Flipped180 => Rotation::Normal,
    }
}

/// The rotation the flip action switches to.
pub fn next_rotation(rotation: Rotation) -> (r: Rotation)
    ensures
        r == spec_next_rotation(rotation),
{
    match rotation {
        Rotation::Normal => Rotation::Flipped180,
        Rotation::Flipped180 => Rotation::Normal,
    }
}

/// Flipping always changes the rotation, and flipping twice restores it.
pub proof fn lemma_flip_twice_restores(rotation: Rotation)
    ensures
        spec_next_rotation(rotation) != rotation,
        spec_next_rotation(spec_next_rotation(rotation)) == rotation,
{
}

/// Whether the settings overlays are drawn upside down, to match the
/// flipped video.
pub fn panel_flipped(rotation: Rotation) -> (r: bool)
    ensures
        r == (rotation == Rotation::Flipped180),
{
    match rotation {
        Rotation::Normal => false,
        Rotation::Flipped180 => true,
    }
}

/// The fullscreen button's text: where pressing it takes the operator.
pub open spec fn spec_toggle_fullscreen_button_label(is_fullscreen: bool) -> Seq<char> {
    if is_fullscreen {
        "Return to desktop"@
    } else {
        "Return to video"@
    }
}

/// The fullscreen button's text.
pub fn toggle_fullscreen_button_label(is_fullscreen: bool) -> (r: &'static str)
    ensures
        r@ == spec_toggle_fullscreen_button_label(is_fullscreen),
{
    if is_fullscreen {
        "Return to desktop"
    } else {
        "Return to video"
    }
}

/// What a gesture's action does to the window itself.
#[derive(Debug, Clone, Copy, PartialEq, Eq, Structural)]
pub enum WindowEffect {
    /// Show the settings panel.
    ShowSettings,
    /// Switch between fullscreen video and the desktop, closing the panel.
    ToggleFullscreen,
    /// Rotate the screen to the other orientation and remember it.
    FlipScreen,
    /// Nothing here: the session thread carries this action out.
    HandledBySession,
}

/// What a gesture's action does to the window: the key-sending actions,
/// screen-off and the quick controls are carried out by the session
/// thread, not here.
pub open spec fn spec_dispatch_action(action: Action) -> WindowEffect {
    match action {
        Action::OpenSettings => WindowEffect::ShowSettings,
        Action::ToggleFullscreen => WindowEffect::ToggleFullscreen,
        Action::FlipScreen => WindowEffect::FlipScreen,
        _ => WindowEffect::HandledBySession,
    }
}

/// What a gesture's action does to the window.
pub fn dispatch_action(action: Action) -> (r: WindowEffect)
    ensures
        r == spec_dispatch_action(action),
{
    match action {
        Action::OpenSettings => WindowEffect::ShowSettings,
        Action::ToggleFullscreen => WindowEffect::ToggleFullscreen,
        Action::FlipScreen => WindowEffect::FlipScreen,
        Action::SwitchToMedia | Action::SwitchToNavigation | Action::SwitchToRadio
        | Action::SwitchToPhone | Action::ScreenOff | Action::QuickControls => WindowEffect::HandledBySession,
    }
}

/// How long the on-screen session may run before it is ended as hung,
/// in seconds, with no observation window set.
pub const HANG_SAFETY_NET_SECONDS: u32 = 120;

/// The hang safety net: a minute past the operator's observation window
/// where one is set (at most the largest `u32`), else the fixed default.
pub open spec fn spec_hang_safety_net_seconds(observation_window: Option<u64>) -> u32 {
    match observation_window {
        Some(seconds) => if seconds + 60 <= u32::MAX {
            (seconds + 60) as u32
        } else {
            u32::MAX
        },
        None => HANG_SAFETY_NET_SECONDS,
    }
}

/// The hang safety net, in seconds.
pub fn hang_safety_net_seconds(observation_window: Option<u64>) -> (r: u32)
    requires
        observation_window matches Some(s) ==> s + 60 <= u64::MAX,
    ensures
        r == spec_hang_safety_net_seconds(observation_window),
{
    match observation_window {
        Some(seconds) => {
            let total: u64 = seconds + 60;
            if total <= u32::MAX as u64 {
                total as u32
            } else {
                u32::MAX
            }
        },
        None => HANG_SAFETY_NET_SECONDS,
    }
}

/// The `BUS:ADDRESS` selector naming a USB device.
pub open spec fn spec_device_selector(bus: u8, address: u8) -> Seq<char> {
    spec_decimal(bus as nat) + ":"@ + spec_decimal(address as nat)
}

/// The `BUS:ADDRESS` selector naming a USB device.
pub fn device_selector(bus: u8, address: u8) -> (r: String)
    ensures
        r@ == spec_device_selector(bus, address),
{
    let b = decimal(bus as u64);
    let a = decimal(address as u64);
    b.concat(":").concat(a.as_str())
}

/// A USB device as the kiosk sees it while looking for a phone.
#[derive(Debug, Clone, Copy, PartialEq, Eq, Structural)]
pub struct KioskDevice {
    pub bus: u8,
    pub address: u8,
    pub vendor_id: u16,
    /// Whether its identifiers are those of a device already in Android
    /// Open Accessory mode.
    pub in_accessory_mode: bool,
}

/// The vendor of Linux's own root hubs, which are never phones.
pub const LINUX_FOUNDATION_ROOT_HUB_VENDOR_ID: u16 = 0x1d6b;

/// Which device the kiosk takes without asking: the first one already
/// in accessory mode, if any.
pub fn find_accessory_device(devices: &[KioskDevice]) -> (r: Option<usize>)
    ensures
        match r {
            Some(i) => i < devices@.len() && devices@[i as int].in_accessory_mode && forall|j: int|
                0 <= j < i ==> !devices@[j].in_accessory_mode,
            None => forall|j: int| 0 <= j < devices@.len() ==> !devices@[j].in_accessory_mode,
        },
{
    let mut i: usize = 0;
    while i < devices.len()
        invariant
            i <= devices@.len(),
            forall|j: int| 0 <= j < i ==> !devices@[j].in_accessory_mode,
        decreases devices.len() - i,
    {
        if devices[i].in_accessory_mode {
            return Some(i);
        }
        i = i + 1;
    }
    None
}

/// The devices worth asking whether they speak the accessory protocol,
/// in the order they are asked: every one that is not a root hub, in
/// the order they were listed. The kiosk takes the first that answers.
pub open spec fn spec_probe_order(devices: Seq<KioskDevice>) -> Seq<int>
    decreases devices.len(),
{
    if devices.len() == 0 {
        seq![]
    } else {
        let rest = spec_probe_order(devices.drop_last());
        if devices.last().vendor_id == LINUX_FOUNDATION_ROOT_HUB_VENDOR_ID {
            rest
        } else {
            rest.push(devices.len() - 1)
        }
    }
}

/// The indices of the devices to ask, in order.
pub fn probe_order(devices: &[KioskDevice]) -> (r: Vec<usize>)
    ensures
        r@.map_values(|i: usize| i as int) == spec_probe_order(devices@),
{
    let mut r: Vec<usize> = Vec::new();
    let mut i: usize = 0;
    while i < devices.len()
        invariant
            i <= devices@.len(),
            r@.map_values(|k: usize| k as int) == spec_probe_order(devices@.take(i as int)),
        decreases devices.len() - i,
    {
        assert(devices@.take(i + 1).drop_last() =~= devices@.take(i as int));
        if devices[i].vendor_id != LINUX_FOUNDATION_ROOT_HUB_VENDOR_ID {
            r.push(i);
        }
        assert(r@.map_values(|k: usize| k as int) =~= spec_probe_order(devices@.take(i + 1)));
        i = i + 1;
    }
    assert(devices@.take(devices@.len() as int) =~= devices@);
    r
}

/// What the kiosk does when a session attempt ends.
#[derive(Debug, Clone, Copy, PartialEq, Eq, Structural)]
pub enum KioskAttemptEnd {
    /// This attempt was already ended (by its result or its safety net).
    AlreadyEnded,
    /// The operator cancelled: quit with this attempt's result.
    Quit,
    /// Wait the reconnect delay, then look for a phone again.
    Reconnect,
}

/// How long the kiosk waits before looking for a phone again, in seconds.
pub const KIOSK_RECONNECT_DELAY_SECONDS: u32 = 2;

/// What the kiosk does when an attempt ends, however it ended: only the
/// first end of an attempt counts; a cancelled kiosk quits, any other
/// reconnects.
pub open spec fn spec_end_kiosk_attempt(already_ended: bool, cancelled: bool) -> KioskAttemptEnd {
    if already_ended {
        KioskAttemptEnd::AlreadyEnded
    } else if cancelled {
        KioskAttemptEnd::Quit
    } else {
        KioskAttemptEnd::Reconnect
    }
}

/// Marks the attempt ended and says what follows.
pub fn end_kiosk_attempt(attempt_ended: &mut bool, cancelled: bool) -> (r: KioskAttemptEnd)
    ensures
        *final(attempt_ended),
        r == spec_end_kiosk_attempt(*old(attempt_ended), cancelled),
{
    let already = *attempt_ended;
    *attempt_ended = true;
    if already {
        KioskAttemptEnd::AlreadyEnded
    } else if cancelled {
        KioskAttemptEnd::Quit
    } else {
        KioskAttemptEnd::Reconnect
    }
}

/// The second tab-separated field of a line, if it has one: what lies
/// between its first tab and the next tab or its end.
pub open spec fn second_field(line: Seq<char>) -> Option<Seq<char>> {
    let i = find_char(line, '\t');
    if i >= line.len() {
        None
    } else {
        let rest = line.skip(i + 1 as int);
        Some(rest.take(find_char(rest, '\t') as int))
    }
}

/// The second field of each line that has one, in order.
pub open spec fn second_fields(lines: Seq<Seq<char>>) -> Seq<Seq<char>>
    decreases lines.len(),
{
    if lines.len() == 0 {
        seq![]
    } else {
        let head = match second_field(lines[0]) {
            Some(f) => seq![f],
            None => seq![],
        };
        head + second_fields(lines.drop_first())
    }
}

/// The device names in `pactl list short` output: the second field of
/// every line.
pub open spec fn spec_pulse_device_names(output: Seq<char>) -> Seq<Seq<char>> {
    second_fields(text_lines(output))
}

fn second_field_of(line: &str) -> (r: Option<String>)
    ensures
        match r {
            Some(f) => second_field(line@) == Some(f@),
            None => second_field(line@) is None,
        },
{
    let len: usize = line.unicode_len();
    let tab = find_char_in(line, '\t', 0, len);
    proof {
        assert(line@.subrange(0, len as int) =~= line@);
        lemma_find_char(line@, '\t', tab as int);
    }
    if tab >= len {
        return None;
    }
    let next = find_char_in(line, '\t', tab + 1, len);
    proof {
        let rest = line@.skip(tab + 1);
        lemma_find_char(rest, '\t', next - (tab + 1));
        assert(rest.take(next - (tab + 1)) =~= line@.subrange(tab + 1, next as int));
    }
    Some(String::from_str(line.substring_char(tab + 1, next)))
}

/// The device names in `pactl list short` output, in order.
pub fn parse_pulse_device_names(output: &str) -> (r: Vec<String>)
    ensures
        string_texts(r@) == spec_pulse_device_names(output@),
{
    let lines = split_lines(output);
    let ghost all = string_texts(lines@);
    let mut names: Vec<String> = Vec::new();
    let mut i: usize = 0;
    assert(all.take(0) =~= Seq::<Seq<char>>::empty());
    assert(string_texts(names@) =~= Seq::<Seq<char>>::empty());
    while i < lines.len()
        invariant
            i <= lines@.len(),
            all == string_texts(lines@),
            string_texts(names@) == second_fields(all.take(i as int)),
        decreases lines.len() - i,
    {
        let field = second_field_of(lines[i].as_str());
        proof {
            let line = all[i as int];
            assert(line == lines@[i as int]@);
            assert(all.take(i + 1) =~= all.take(i as int) + seq![line]);
            lemma_second_fields_append(all.take(i as int), seq![line]);
            assert(seq![line].drop_first() =~= Seq::<Seq<char>>::empty());
            let head = match second_field(line) {
                Some(f) => seq![f],
                None => Seq::<Seq<char>>::empty(),
            };
            assert(second_fields(seq![line]) =~= head + second_fields(Seq::<Seq<char>>::empty()));
            assert(second_fields(seq![line]) =~= head);
        }
        match field {
            Some(f) => {
                names.push(f);
                assert(string_texts(names@) =~= string_texts(names@.drop_last()).push(
                    names@.last()@,
                ));
            },
            None => {},
        }
        i = i + 1;
    }
    assert(all.take(lines@.len() as int) =~= all);
    names
}

proof fn lemma_second_fields_append(a: Seq<Seq<char>>, b: Seq<Seq<char>>)
    ensures
        second_fields(a + b) == second_fields(a) + second_fields(b),
    decreases a.len(),
{
    if a.len() == 0 {
        assert(a + b =~= b);
        assert(second_fields(a) + second_fields(b) =~= second_fields(b));
    } else {
        assert((a + b).drop_first() =~= a.drop_first() + b);
        lemma_second_fields_append(a.drop_first(), b);
        let head = match second_field(a[0]) {
            Some(f) => seq![f],
            None => Seq::<Seq<char>>::empty(),
        };
        assert(head + (second_fields(a.drop_first()) + second_fields(b)) =~= (head
            + second_fields(a.drop_first())) + second_fields(b));
    }
}

/// The position of the first entry of `names` equal to `name`, or the
/// number of entries where none is.
pub open spec fn position_of(names: Seq<Seq<char>>, name: Seq<char>) -> nat
    decreases names.len(),
{
    if names.len() == 0 {
        0
    } else if names[0] == name {
        0
    } else {
        1 + position_of(names.drop_first(), name)
    }
}

proof fn lemma_position_of(names: Seq<Seq<char>>, name: Seq<char>, k: int)
    requires
        0 <= k <= names.len(),
        forall|j: int| 0 <= j < k ==> names[j] != name,
        k == names.len() || names[k] == name,
    ensures
        position_of(names, name) == k,
    decreases k,
{
    if k > 0 {
        assert forall|j: int| 0 <= j < k - 1 implies names.drop_first()[j] != name by {
            assert(names.drop_first()[j] == names[j + 1]);
        }
        lemma_position_of(names.drop_first(), name, k - 1);
    }
}

/// The list position the "System default" entry takes, and the one a
/// selection that names no entry reports.
pub const INVALID_LIST_POSITION: u32 = 0xffff_ffff;

/// The entry a device dropdown starts on: entry 0 is "System default",
/// entry `k + 1` the `k`-th device; a saved device that is no longer
/// listed (or none saved) starts on the default.
pub open spec fn spec_dropdown_index(devices: Seq<Seq<char>>, initial: Option<Seq<char>>) -> u32 {
    match initial {
        None => 0,
        Some(d) => {
            let p = position_of(devices, d);
            if p < devices.len() && p + 1 <= u32::MAX {
                (p + 1) as u32
            } else {
                0
            }
        },
    }
}

/// The entry a device dropdown starts on.
pub fn device_dropdown_index(devices: &[String], initial: Option<&str>) -> (r: u32)
    ensures
        r == spec_dropdown_index(
            string_texts(devices@),
            match initial {
                Some(d) => Some(d@),
                None => None,
            },
        ),
{
    match initial {
        None => 0,
        Some(d) => {
            let ghost names = string_texts(devices@);
            let mut i: usize = 0;
            while i < devices.len()
                invariant
                    i <= devices@.len(),
                    names == string_texts(devices@),
                    initial == Some(d),
                    forall|j: int| 0 <= j < i ==> names[j] != d@,
                decreases devices.len() - i,
            {
                assert(names[i as int] == devices@[i as int]@);
                if str_eq(devices[i].as_str(), d) {
                    proof {
                        lemma_position_of(names, d@, i as int);
                    }
                    if i < u32::MAX as usize {
                        return (i + 1) as u32;
                    } else {
                        return 0;
                    }
                }
                i = i + 1;
            }
            proof {
                lemma_position_of(names, d@, i as int);
            }
            0
        },
    }
}

/// The device a dropdown selection stands for: none for the default
/// entry or a selection of no entry, else the device at that entry.
pub open spec fn spec_selected_device(selected: u32, devices: Seq<Seq<char>>) -> Option<Seq<char>> {
    if selected == 0 || selected == INVALID_LIST_POSITION {
        None
    } else if selected - 1 < devices.len() {
        Some(devices[selected - 1])
    } else {
        None
    }
}

/// The device a dropdown selection stands for, as a setting's value.
pub fn selected_device(selected: u32, devices: &[String]) -> (r: Option<String>)
    ensures
        match r {
            Some(d) => spec_selected_device(selected, string_texts(devices@)) == Some(d@),
            None => spec_selected_device(selected, string_texts(devices@)) is None,
        },
{
    if selected == 0 || selected == INVALID_LIST_POSITION {
        return None;
    }
    let index = (selected - 1) as usize;
    if index < devices.len() {
        Some(devices[index].clone())
    } else {
        None
    }
}

/// A dropdown started on a saved device and left alone reads back that
/// same device; one started with nothing saved reads back nothing.
pub proof fn lemma_dropdown_round_trip(devices: Seq<Seq<char>>, initial: Option<Seq<char>>)
    requires
        devices.len() < INVALID_LIST_POSITION - 1,
        initial matches Some(d) ==> devices.contains(d),
    ensures
        spec_selected_device(spec_dropdown_index(devices, initial), devices) == initial,
{
    if let Some(d) = initial {
        let k = choose|k: int| 0 <= k < devices.len() && devices[k] == d;
        assert(position_of(devices, d) <= k) by {
            lemma_position_at_most(devices, d, k);
        }
        lemma_position_found(devices, d);
    }
}

proof fn lemma_position_at_most(names: Seq<Seq<char>>, name: Seq<char>, k: int)
    requires
        0 <= k < names.len(),
        names[k] == name,
    ensures
        position_of(names, name) <= k,
    decreases k,
{
    if k > 0 && names[0] != name {
        assert(names.drop_first()[k - 1] == names[k]);
        lemma_position_at_most(names.drop_first(), name, k - 1);
    }
}

proof fn lemma_position_found(names: Seq<Seq<char>>, name: Seq<char>)
    requires
        position_of(names, name) < names.len(),
    ensures
        names[position_of(names, name) as int] == name,
    decreases names.len(),
{
    if names.len() > 0 && names[0] != name {
        lemma_position_found(names.drop_first(), name);
        assert(names.drop_first()[position_of(names.drop_first(), name) as int]
            == names[position_of(names, name) as int]);
    }
}

/// The position of the last `c` in `s`, or -1 where it holds none.
pub open spec fn last_index_of(s: Seq<char>, c: char) -> int
    decreases s.len(),
{
    if s.len() == 0 {
        -1
    } else if s.last() == c {
        s.len() - 1
    } else {
        last_index_of(s.drop_last(), c)
    }
}

/// The theme a file in the themes directory provides: the name before
/// its extension, for a file whose extension is `css`. A name whose only
/// dot starts it has no extension.
pub open spec fn theme_name(file_name: Seq<char>) -> Option<Seq<char>> {
    let i = last_index_of(file_name, '.');
    if i <= 0 {
        None
    } else if file_name.skip(i + 1) == "css"@ {
        Some(file_name.take(i))
    } else {
        None
    }
}

/// The themes the files provide, in the files' order.
pub open spec fn theme_stems(file_names: Seq<Seq<char>>) -> Seq<Seq<char>>
    decreases file_names.len(),
{
    if file_names.len() == 0 {
        seq![]
    } else {
        let rest = theme_stems(file_names.drop_last());
        match theme_name(file_names.last()) {
            Some(t) => rest.push(t),
            None => rest,
        }
    }
}

/// The theme menu's entries for the files in the themes directory: the
/// name of every `.css` file, in text order.
pub open spec fn spec_theme_names(file_names: Seq<Seq<char>>) -> Seq<Seq<char>> {
    theme_stems(file_names).sort_by(text_order())
}

proof fn lemma_last_index_bounds(s: Seq<char>, c: char)
    ensures
        -1 <= last_index_of(s, c) < s.len(),
        last_index_of(s, c) >= 0 ==> s[last_index_of(s, c)] == c,
    decreases s.len(),
{
    if s.len() > 0 && s.last() != c {
        lemma_last_index_bounds(s.drop_last(), c);
    }
}

fn last_dot(s: &str) -> (r: Option<usize>)
    ensures
        match r {
            Some(k) => k == last_index_of(s@, '.'),
            None => last_index_of(s@, '.') == -1,
        },
{
    let len: usize = s.unicode_len();
    let mut last: Option<usize> = None;
    let mut i: usize = 0;
    assert(s@.take(0) =~= Seq::<char>::empty());
    while i < len
        invariant
            i <= len,
            len == s@.len(),
            match last {
                Some(k) => k == last_index_of(s@.take(i as int), '.'),
                None => last_index_of(s@.take(i as int), '.') == -1,
            },
        decreases len - i,
    {
        assert(s@.take(i + 1).drop_last() =~= s@.take(i as int));
        if s.get_char(i) == '.' {
            last = Some(i);
        }
        i = i + 1;
    }
    assert(s@.take(len as int) =~= s@);
    last
}

fn theme_name_of(file_name: &str) -> (r: Option<String>)
    ensures
        match r {
            Some(t) => theme_name(file_name@) == Some(t@),
            None => theme_name(file_name@) is None,
        },
{
    let len: usize = file_name.unicode_len();
    let dot = match last_dot(file_name) {
        Some(k) => k,
        None => return None,
    };
    if dot == 0 {
        return None;
    }
    proof {
        lemma_last_index_bounds(file_name@, '.');
    }
    let extension = file_name.substring_char(dot + 1, len);
    proof {
        assert(extension@ =~= file_name@.skip(dot + 1));
    }
    if str_eq(extension, "css") {
        let stem = file_name.substring_char(0, dot);
        proof {
            assert(stem@ =~= file_name@.take(dot as int));
        }
        Some(String::from_str(stem))
    } else {
        None
    }
}

/// The theme menu's entries for the files in the themes directory, in
/// text order.
pub fn list_theme_names(file_names: &[String]) -> (r: Vec<String>)
    ensures
        string_texts(r@) == spec_theme_names(string_texts(file_names@)),
{
    let ghost names = string_texts(file_names@);
    let mut stems: Vec<String> = Vec::new();
    let mut i: usize = 0;
    assert(names.take(0) =~= Seq::<Seq<char>>::empty());
    assert(string_texts(stems@) =~= Seq::<Seq<char>>::empty());
    while i < file_names.len()
        invariant
            i <= file_names@.len(),
            names == string_texts(file_names@),
            string_texts(stems@) == theme_stems(names.take(i as int)),
        decreases file_names.len() - i,
    {
        assert(names.take(i + 1).drop_last() =~= names.take(i as int));
        assert(names.take(i + 1).last() == file_names@[i as int]@);
        match theme_name_of(file_names[i].as_str()) {
            Some(t) => {
                stems.push(t);
                assert(string_texts(stems@) =~= theme_stems(names.take(i as int)).push(
                    stems@.last()@,
                ));
            },
            None => {},
        }
        i = i + 1;
    }
    assert(names.take(file_names@.len() as int) =~= names);
    sort_texts(stems)
}


/// Only the three window actions change the window, each in its own way:
/// the settings panel opens for `OpenSettings` alone, fullscreen toggles
/// for `ToggleFullscreen` alone, the panel flips for `FlipScreen` alone;
/// every action that sends a key to the phone, and turning the screen off
/// and the quick controls, are left to the session.
pub proof fn lemma_only_window_actions_change_the_window(action: Action)
    ensures
        (spec_dispatch_action(action) == WindowEffect::ShowSettings) == (action
            == Action::OpenSettings),
        (spec_dispatch_action(action) == WindowEffect::ToggleFullscreen) == (action
            == Action::ToggleFullscreen),
        (spec_dispatch_action(action) == WindowEffect::FlipScreen) == (action
            == Action::FlipScreen),
        spec_action_key_code(action) is Some ==> spec_dispatch_action(action)
            == WindowEffect::HandledBySession,
        action == Action::ScreenOff ==> spec_dispatch_action(action)
            == WindowEffect::HandledBySession,
        action == Action::QuickControls ==> spec_dispatch_action(action)
            == WindowEffect::HandledBySession,
{
}

} // verus!
