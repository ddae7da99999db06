//! Decisions of the authenticated protocol session: the operator's
//! experiment switches, how long the session is observed, the ping and
//! watchdog schedule, how the session ends, and the answers the head unit
//! gives to the phone's focus and key-binding requests.

use vstd::prelude::*;

use crate::error::{CliError, CliErrorView};
use crate::gesture_settings::{spec_action_key_code, Action, GestureSettings};
use crate::platform::{gesture_index, GestureId, KeyCode};
use crate::text::{parse_bounded, parse_u64, str_eq};

verus! {

/// How long the session is observed, in seconds, by default.
pub const PROBE_TIMEOUT_SECONDS: u64 = 30;

/// How long the session is observed, in seconds, when proactive-write
/// timeouts are survived.
pub const PROACTIVE_WRITE_SURVIVAL_TIMEOUT_SECONDS: u64 = 120;

/// How often a ping is sent once armed, in milliseconds.
pub const PING_INTERVAL_MILLIS: u64 = 1500;

/// How long after the last ping response the session is given up, in
/// milliseconds.
pub const PING_WATCHDOG_TIMEOUT_MILLIS: u64 = 5000;

/// The orientation the touchscreen's coordinates are rotated by.
#[derive(Debug, Clone, Copy, PartialEq, Eq, Structural)]
pub enum TouchRotation {
    Rotate0,
    Rotate90,
    Rotate180,
    Rotate270,
}

/// The operator's opt-in experiment switches for one session.
#[derive(Debug, PartialEq, Eq)]
pub struct ExperimentFlags {
    /// Replace every ping after the first by a harmless control frame.
    pub ping_isolation: bool,
    /// Log a failed proactive write and go on, and suppress the watchdog.
    pub survive_proactive_write_timeout: bool,
    /// Hold a due proactive send back until a message from the phone has
    /// just been handled.
    pub reactive_triggered_proactive_send: bool,
    /// An observation window chosen by the operator, in seconds.
    pub observation_window_override_seconds: Option<u64>,
    pub touch_rotation: TouchRotation,
}

/// What the touch-rotation setting makes of its value: unset is no
/// rotation; `0`, `90`, `180` and `270` are degrees; anything else is
/// refused.
pub open spec fn spec_parse_touch_rotation(value: Option<Seq<char>>) -> Result<
    TouchRotation,
    CliErrorView,
> {
    match value {
        None => Ok(TouchRotation::Rotate0),
        Some(text) => if text == "0"@ {
            Ok(TouchRotation::Rotate0)
        } else if text == "90"@ {
            Ok(TouchRotation::Rotate90)
        } else if text == "180"@ {
            Ok(TouchRotation::Rotate180)
        } else if text == "270"@ {
            Ok(TouchRotation::Rotate270)
        } else {
            Err(
                CliErrorView::Usage(
                    "AA_HEADUNIT_TOUCH_ROTATION must be one of 0, 90, 180, 270"@,
                ),
            )
        },
    }
}

/// The text of an optional setting.
pub open spec fn opt_str(value: Option<&str>) -> Option<Seq<char>> {
    match value {
        Some(s) => Some(s@),
        None => None,
    }
}

/// Reads the touch-rotation setting (`None` where it is unset).
pub fn parse_touch_rotation(value: Option<&str>) -> (r: Result<TouchRotation, CliError>)
    ensures
        match r {
            Ok(t) => spec_parse_touch_rotation(opt_str(value)) == Ok::<
                TouchRotation,
                CliErrorView,
            >(t),
            Err(e) => spec_parse_touch_rotation(opt_str(value)) == Err::<
                TouchRotation,
                CliErrorView,
            >(e@),
        },
{
    match value {
        None => Ok(TouchRotation::Rotate0),
        Some(text) => if str_eq(text, "0") {
            Ok(TouchRotation::Rotate0)
        } else if str_eq(text, "90") {
            Ok(TouchRotation::Rotate90)
        } else if str_eq(text, "180") {
            Ok(TouchRotation::Rotate180)
        } else if str_eq(text, "270") {
            Ok(TouchRotation::Rotate270)
        } else {
            Err(
                CliError::Usage(
                    String::from_str("AA_HEADUNIT_TOUCH_ROTATION must be one of 0, 90, 180, 270"),
                ),
            )
        },
    }
}

/// What the observation-window setting makes of its value: unset is no
/// override; a positive whole number of seconds is one; anything else is
/// refused rather than ignored.
pub open spec fn spec_parse_observation_window(value: Option<Seq<char>>) -> Result<
    Option<u64>,
    CliErrorView,
> {
    match value {
        None => Ok(None),
        Some(text) => match parse_bounded(text, u64::MAX as nat) {
            Some(v) if v > 0 => Ok(Some(v as u64)),
            _ => Err(
                CliErrorView::Usage(
                    "AA_HEADUNIT_OBSERVATION_WINDOW_SECONDS must be a positive integer number of seconds"@,
                ),
            ),
        },
    }
}

/// Reads the observation-window setting (`None` where it is unset).
pub fn read_observation_window_override(value: Option<&str>) -> (r: Result<
    Option<u64>,
    CliError,
>)
    ensures
        match r {
            Ok(w) => spec_parse_observation_window(opt_str(value)) == Ok::<
                Option<u64>,
                CliErrorView,
            >(w),
            Err(e) => spec_parse_observation_window(opt_str(value)) == Err::<
                Option<u64>,
                CliErrorView,
            >(e@),
        },
{
    match value {
        None => Ok(None),
        Some(text) => match parse_u64(text) {
            Some(v) if v > 0 => Ok(Some(v)),
            _ => Err(
                CliError::Usage(
                    String::from_str(
                        "AA_HEADUNIT_OBSERVATION_WINDOW_SECONDS must be a positive integer number of seconds",
                    ),
                ),
            ),
        },
    }
}

/// The experiment switches a session runs with, from whether each switch
/// is set and the texts of the two valued settings; a reactive-triggered
/// send implies surviving write timeouts. The observation window is read
/// before the rotation, so its error comes first.
pub open spec fn spec_experiment_flags(
    ping_isolation: bool,
    survive_set: bool,
    reactive_set: bool,
    observation_window: Option<Seq<char>>,
    touch_rotation: Option<Seq<char>>,
) -> Result<(bool, bool, bool, Option<u64>, TouchRotation), CliErrorView> {
    match spec_parse_observation_window(observation_window) {
        Err(e) => Err(e),
        Ok(window) => match spec_parse_touch_rotation(touch_rotation) {
            Err(e) => Err(e),
            Ok(rotation) => Ok(
                (ping_isolation, reactive_set || survive_set, reactive_set, window, rotation),
            ),
        },
    }
}

/// The switches as a tuple.
pub open spec fn flags_tuple(f: ExperimentFlags) -> (bool, bool, bool, Option<u64>, TouchRotation) {
    (
        f.ping_isolation,
        f.survive_proactive_write_timeout,
        f.reactive_triggered_proactive_send,
        f.observation_window_override_seconds,
        f.touch_rotation,
    )
}

/// Assembles the experiment switches from the session's settings.
pub fn read_experiment_flags(
    ping_isolation: bool,
    survive_set: bool,
    reactive_set: bool,
    observation_window: Option<&str>,
    touch_rotation: Option<&str>,
) -> (r: Result<ExperimentFlags, CliError>)
    ensures
        match r {
            Ok(f) => spec_experiment_flags(
                ping_isolation,
                survive_set,
                reactive_set,
                opt_str(observation_window),
                opt_str(touch_rotation),
            ) == Ok::<(bool, bool, bool, Option<u64>, TouchRotation), CliErrorView>(
                flags_tuple(f),
            ),
            Err(e) => spec_experiment_flags(
                ping_isolation,
                survive_set,
                reactive_set,
                opt_str(observation_window),
                opt_str(touch_rotation),
            ) == Err::<(bool, bool, bool, Option<u64>, TouchRotation), CliErrorView>(e@),
        },
{
    let window = match read_observation_window_override(observation_window) {
        Ok(w) => w,
        Err(e) => return Err(e),
    };
    let rotation = match parse_touch_rotation(touch_rotation) {
        Ok(t) => t,
        Err(e) => return Err(e),
    };
    Ok(
        ExperimentFlags {
            ping_isolation,
            survive_proactive_write_timeout: reactive_set || survive_set,
            reactive_triggered_proactive_send: reactive_set,
            observation_window_override_seconds: window,
            touch_rotation: rotation,
        },
    )
}

/// How long a session is observed, in seconds: the operator's window
/// where one is set, else the long window when write timeouts are
/// survived, else the normal one.
pub open spec fn spec_observation_window(f: ExperimentFlags) -> u64 {
    match f.observation_window_override_seconds {
        Some(s) => s,
        None => if f.survive_proactive_write_timeout {
            PROACTIVE_WRITE_SURVIVAL_TIMEOUT_SECONDS
        } else {
            PROBE_TIMEOUT_SECONDS
        },
    }
}

/// How long a session is observed, in seconds.
pub fn observation_window(flags: &ExperimentFlags) -> (r: u64)
    ensures
        r == spec_observation_window(*flags),
{
    match flags.observation_window_override_seconds {
        Some(s) => s,
        None => if flags.survive_proactive_write_timeout {
            PROACTIVE_WRITE_SURVIVAL_TIMEOUT_SECONDS
        } else {
            PROBE_TIMEOUT_SECONDS
        },
    }
}

/// What the ping schedule asks for on one turn of the session loop.
#[derive(Debug, Clone, Copy, PartialEq, Eq, Structural)]
pub enum PingAction {
    /// Nothing is due.
    Idle,
    /// No ping response came in time: close the session.
    WatchdogExpired,
    /// Send a ping request.
    SendPing,
    /// Send the harmless control frame that stands in for a ping.
    SendControlProbe,
}

/// What the ping schedule asks for, once armed: the watchdog closes the
/// session when no response came for too long (unless write timeouts are
/// survived); otherwise a send is due once the interval has passed since
/// the last one, unless sends wait for the phone and no message of its
/// was just handled. Under ping isolation every send after the first is
/// the stand-in control frame.
pub open spec fn spec_ping_action(
    f: ExperimentFlags,
    sends_since_arm: u32,
    millis_since_last_send: u64,
    millis_since_last_pong: u64,
    reactive_frame_processed: bool,
) -> PingAction {
    if !f.survive_proactive_write_timeout && millis_since_last_pong
        >= PING_WATCHDOG_TIMEOUT_MILLIS {
        PingAction::WatchdogExpired
    } else if millis_since_last_send >= PING_INTERVAL_MILLIS && !(
    f.reactive_triggered_proactive_send && !reactive_frame_processed) {
        if f.ping_isolation && sends_since_arm >= 1 {
            PingAction::SendControlProbe
        } else {
            PingAction::SendPing
        }
    } else {
        PingAction::Idle
    }
}

/// What the ping schedule asks for on one turn of the session loop.
pub fn ping_action(
    flags: &ExperimentFlags,
    sends_since_arm: u32,
    millis_since_last_send: u64,
    millis_since_last_pong: u64,
    reactive_frame_processed: bool,
) -> (r: PingAction)
    ensures
        r == spec_ping_action(
            *flags,
            sends_since_arm,
            millis_since_last_send,
            millis_since_last_pong,
            reactive_frame_processed,
        ),
{
    if !flags.survive_proactive_write_timeout && millis_since_last_pong
        >= PING_WATCHDOG_TIMEOUT_MILLIS {
        PingAction::WatchdogExpired
    } else if millis_since_last_send >= PING_INTERVAL_MILLIS && !(
    flags.reactive_triggered_proactive_send && !reactive_frame_processed) {
        if flags.ping_isolation && sends_since_arm >= 1 {
            PingAction::SendControlProbe
        } else {
            PingAction::SendPing
        }
    } else {
        PingAction::Idle
    }
}

/// The failure the watchdog closes the session with.
pub open spec fn watchdog_failure() -> CliErrorView {
    CliErrorView::Protocol(
        "no PingResponse within 5000ms of the last one \u{2014} closing session (LIVI-derived watchdog, docs/protocol/livi-adoption.md)"@,
    )
}

/// The failure the watchdog closes the session with.
pub fn watchdog_error() -> (e: CliError)
    ensures
        e@ == watchdog_failure(),
{
    CliError::Protocol(
        String::from_str(
            "no PingResponse within 5000ms of the last one \u{2014} closing session (LIVI-derived watchdog, docs/protocol/livi-adoption.md)",
        ),
    )
}

/// What a proactive send's failure does to the session: it ends it,
/// unless write timeouts are survived, in which case the schedule goes on
/// as if the send had been made.
pub open spec fn spec_after_proactive_send(f: ExperimentFlags, sent: Result<(), CliErrorView>) -> Result<
    (),
    CliErrorView,
> {
    match sent {
        Ok(()) => Ok(()),
        Err(e) => if f.survive_proactive_write_timeout {
            Ok(())
        } else {
            Err(e)
        },
    }
}

/// A send's result as a view.
pub open spec fn sent_view(sent: Result<(), CliError>) -> Result<(), CliErrorView> {
    match sent {
        Ok(()) => Ok(()),
        Err(e) => Err(e@),
    }
}

/// What a proactive send's result does to the session.
pub fn after_proactive_send(flags: &ExperimentFlags, sent: Result<(), CliError>) -> (r: Result<
    (),
    CliError,
>)
    ensures
        sent_view(r) == spec_after_proactive_send(*flags, sent_view(sent)),
{
    match sent {
        Ok(()) => Ok(()),
        Err(e) => if flags.survive_proactive_write_timeout {
            Ok(())
        } else {
            Err(e)
        },
    }
}

/// What happened while handling one message from the phone.
#[derive(Debug, PartialEq, Eq)]
pub enum ProbeOutcome {
    Continue,
    /// Video has started and the input channel is open.
    ChannelSetupComplete,
    /// The phone ended the session; the reason's name.
    PhoneEndedSession(String),
}

/// Records a handled message's outcome and says whether the session
/// stops now: only the phone ending the session stops it. Channel setup
/// completing is a milestone that is recorded once; observation goes on.
pub fn report_probe_outcome(outcome: &ProbeOutcome, channel_setup_complete: &mut bool) -> (stop:
    bool)
    ensures
        stop == (*outcome is PhoneEndedSession),
        *final(channel_setup_complete) == (*old(channel_setup_complete) || *outcome
            is ChannelSetupComplete),
{
    match outcome {
        ProbeOutcome::Continue => false,
        ProbeOutcome::ChannelSetupComplete => {
            *channel_setup_complete = true;
            false
        },
        ProbeOutcome::PhoneEndedSession(_) => true,
    }
}

/// How a session ends once its observation loop stops without an earlier
/// stop: a cancellation by the operator wins; otherwise it succeeded if
/// channel setup completed, and timed out if not.
pub open spec fn spec_finish_after_loop(channel_setup_complete: bool, cancelled: bool) -> Result<
    (),
    CliErrorView,
> {
    if cancelled {
        Err(CliErrorView::Cancelled)
    } else if channel_setup_complete {
        Ok(())
    } else {
        Err(
            CliErrorView::Protocol(
                "auth/service-discovery/channel-setup probe timed out before completion"@,
            ),
        )
    }
}

/// How a session ends once its observation loop stops.
pub fn finish_probe_after_loop(channel_setup_complete: bool, cancelled: bool) -> (r: Result<
    (),
    CliError,
>)
    ensures
        sent_view(r) == spec_finish_after_loop(channel_setup_complete, cancelled),
{
    if cancelled {
        Err(CliError::Cancelled)
    } else if channel_setup_complete {
        Ok(())
    } else {
        Err(
            CliError::Protocol(
                String::from_str(
                    "auth/service-discovery/channel-setup probe timed out before completion",
                ),
            ),
        )
    }
}

/// The kinds of audio focus the phone asks for.
#[derive(Debug, Clone, Copy, PartialEq, Eq, Structural)]
pub enum AudioFocusRequest {
    Gain,
    GainTransient,
    GainTransientMayDuck,
    Release,
}

/// The audio-focus states the head unit answers with.
#[derive(Debug, Clone, Copy, PartialEq, Eq, Structural)]
pub enum AudioFocusState {
    Gain,
    GainTransient,
    Loss,
}

/// The focus granted for a request: exactly what was asked, transient
/// requests (ducking or not) getting transient focus, and a release
/// losing it.
pub open spec fn spec_grant_audio_focus(requested: AudioFocusRequest) -> AudioFocusState {
    match requested {
        AudioFocusRequest::Gain => AudioFocusState::Gain,
        AudioFocusRequest::GainTransient => AudioFocusState::GainTransient,
        AudioFocusRequest::GainTransientMayDuck => AudioFocusState::GainTransient,
        AudioFocusRequest::Release => AudioFocusState::Loss,
    }
}

/// The focus granted for a request.
pub fn grant_audio_focus(requested: AudioFocusRequest) -> (r: AudioFocusState)
    ensures
        r == spec_grant_audio_focus(requested),
{
    match requested {
        AudioFocusRequest::Gain => AudioFocusState::Gain,
        AudioFocusRequest::GainTransient | AudioFocusRequest::GainTransientMayDuck =>
            AudioFocusState::GainTransient,
        AudioFocusRequest::Release => AudioFocusState::Loss,
    }
}

/// The answers to a key-binding request.
#[derive(Debug, Clone, Copy, PartialEq, Eq, Structural)]
pub enum KeyBindingStatus {
    Success,
    KeycodeNotBound,
}

/// The answer to every key-binding request, whichever keys it names.
pub fn evaluate_key_binding_request() -> (r: KeyBindingStatus)
    ensures
        r == KeyBindingStatus::Success,
{
    KeyBindingStatus::Success
}

/// One key event sent to the phone on the input channel: the key going
/// down, or coming up again.
#[derive(Clone, Copy, Debug, PartialEq, Eq)]
pub struct KeyEvent {
    pub key_code: KeyCode,
    pub down: bool,
}

/// The key events a completed gesture sends: for an action that switches
/// the phone's category, a press of its key (down, then up); for every
/// other action nothing, since those act on the window instead.
pub open spec fn spec_gesture_key_events(action: Action) -> Seq<KeyEvent> {
    match spec_action_key_code(action) {
        Some(key_code) => seq![
            KeyEvent { key_code, down: true },
            KeyEvent { key_code, down: false },
        ],
        None => seq![],
    }
}

/// The key events `gesture` sends under `settings`.
pub fn gesture_key_events(settings: &GestureSettings, gesture: GestureId) -> (r: Vec<KeyEvent>)
    ensures
        r@ == spec_gesture_key_events(settings@.mappings[gesture_index(gesture)]),
{
    let action = settings.action_for(gesture);
    let mut r: Vec<KeyEvent> = Vec::new();
    if let Some(key_code) = action.key_code() {
        r.push(KeyEvent { key_code, down: true });
        r.push(KeyEvent { key_code, down: false });
    }
    proof {
        assert(r@ =~= spec_gesture_key_events(action));
    }
    r
}


/// Whether an action sends something to the phone.
pub open spec fn is_send(action: PingAction) -> bool {
    action == PingAction::SendPing || action == PingAction::SendControlProbe
}

/// The ping schedule's laws, over every state: the watchdog fires exactly
/// when write timeouts are not survived and no response came within its
/// limit; otherwise a send happens exactly when the interval has passed
/// and, where sends wait for the phone, one of its messages was just
/// handled; and a send is the stand-in control frame exactly under ping
/// isolation once a send has already happened since arming.
pub proof fn lemma_ping_schedule(
    f: ExperimentFlags,
    sends_since_arm: u32,
    millis_since_last_send: u64,
    millis_since_last_pong: u64,
    reactive_frame_processed: bool,
)
    ensures
        ({
            let a = spec_ping_action(
                f,
                sends_since_arm,
                millis_since_last_send,
                millis_since_last_pong,
                reactive_frame_processed,
            );
            let watchdog = !f.survive_proactive_write_timeout && millis_since_last_pong
                >= PING_WATCHDOG_TIMEOUT_MILLIS;
            &&& (a == PingAction::WatchdogExpired) == watchdog
            &&& !watchdog ==> (is_send(a) == (millis_since_last_send >= PING_INTERVAL_MILLIS
                && (!f.reactive_triggered_proactive_send || reactive_frame_processed)))
            &&& is_send(a) ==> ((a == PingAction::SendControlProbe) == (f.ping_isolation
                && sends_since_arm >= 1))
            &&& millis_since_last_send < PING_INTERVAL_MILLIS ==> !is_send(a)
        }),
{
}

} // verus!
