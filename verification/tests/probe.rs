use aa_headunit_diagnostics::error::CliError;
use aa_headunit_diagnostics::probe::{
    after_proactive_send, evaluate_key_binding_request, finish_probe_after_loop,
    grant_audio_focus, observation_window, parse_touch_rotation, ping_action,
    read_experiment_flags, read_observation_window_override, report_probe_outcome,
    watchdog_error, AudioFocusRequest, AudioFocusState, ExperimentFlags, KeyBindingStatus,
    PingAction, ProbeOutcome, TouchRotation, gesture_key_events, KeyEvent,
};
use aa_headunit_diagnostics::gesture_settings::{Action as GestureAction, GestureSettings};
use aa_headunit_diagnostics::platform::{GestureId, KeyCode};

fn flags(ping_isolation: bool, survive: bool, reactive: bool) -> ExperimentFlags {
    read_experiment_flags(ping_isolation, survive, reactive, None, None).unwrap()
}

#[test]
fn touch_rotation_setting() {
    assert_eq!(parse_touch_rotation(None), Ok(TouchRotation::Rotate0));
    assert_eq!(parse_touch_rotation(Some("270")), Ok(TouchRotation::Rotate270));
    assert_eq!(
        parse_touch_rotation(Some("45")),
        Err(CliError::Usage("AA_HEADUNIT_TOUCH_ROTATION must be one of 0, 90, 180, 270".into()))
    );
}

#[test]
fn observation_window_setting() {
    assert_eq!(read_observation_window_override(None), Ok(None));
    assert_eq!(read_observation_window_override(Some("300")), Ok(Some(300)));
    let refused = Err(CliError::Usage(
        "AA_HEADUNIT_OBSERVATION_WINDOW_SECONDS must be a positive integer number of seconds"
            .into(),
    ));
    assert_eq!(read_observation_window_override(Some("0")), refused);
    assert_eq!(read_observation_window_override(Some("soon")), refused);
    assert_eq!(read_observation_window_override(Some("")), refused);
}

#[test]
fn reactive_sends_imply_surviving_write_timeouts() {
    let f = flags(false, false, true);
    assert!(f.survive_proactive_write_timeout);
    assert!(f.reactive_triggered_proactive_send);
    assert!(!flags(false, false, false).survive_proactive_write_timeout);
}

#[test]
fn observation_window_choice() {
    assert_eq!(observation_window(&flags(false, false, false)), 30);
    assert_eq!(observation_window(&flags(false, true, false)), 120);
    let chosen = read_experiment_flags(false, true, false, Some("45"), None).unwrap();
    assert_eq!(observation_window(&chosen), 45);
}

#[test]
fn an_invalid_window_is_reported_before_an_invalid_rotation() {
    assert_eq!(
        read_experiment_flags(false, false, false, Some("x"), Some("x")),
        Err(CliError::Usage(
            "AA_HEADUNIT_OBSERVATION_WINDOW_SECONDS must be a positive integer number of seconds"
                .into()
        ))
    );
}

#[test]
fn ping_schedule() {
    let normal = flags(false, false, false);
    assert_eq!(ping_action(&normal, 0, 1499, 0, false), PingAction::Idle);
    assert_eq!(ping_action(&normal, 0, 1500, 0, false), PingAction::SendPing);
    assert_eq!(ping_action(&normal, 3, 1500, 4999, false), PingAction::SendPing);
    assert_eq!(ping_action(&normal, 3, 0, 5000, false), PingAction::WatchdogExpired);

    let surviving = flags(false, true, false);
    assert_eq!(ping_action(&surviving, 3, 0, 60000, false), PingAction::Idle);

    let isolation = flags(true, false, false);
    assert_eq!(ping_action(&isolation, 0, 1500, 0, false), PingAction::SendPing);
    assert_eq!(ping_action(&isolation, 1, 1500, 0, false), PingAction::SendControlProbe);

    let reactive = flags(false, false, true);
    assert_eq!(ping_action(&reactive, 0, 9000, 9000, false), PingAction::Idle);
    assert_eq!(ping_action(&reactive, 0, 9000, 9000, true), PingAction::SendPing);
}

#[test]
fn failed_proactive_sends() {
    let error = CliError::Transport(aa_headunit_diagnostics::error::TransportError::TimedOut);
    assert_eq!(after_proactive_send(&flags(false, true, false), Err(error)), Ok(()));
    let error = CliError::Transport(aa_headunit_diagnostics::error::TransportError::TimedOut);
    assert_eq!(
        after_proactive_send(&flags(false, false, false), Err(error)),
        Err(CliError::Transport(aa_headunit_diagnostics::error::TransportError::TimedOut))
    );
    assert!(watchdog_error().message().starts_with("protocol probe: no PingResponse within 5000ms"));
}

#[test]
fn probe_outcomes() {
    let mut complete = false;
    assert!(!report_probe_outcome(&ProbeOutcome::Continue, &mut complete));
    assert!(!complete);
    assert!(!report_probe_outcome(&ProbeOutcome::ChannelSetupComplete, &mut complete));
    assert!(complete);
    assert!(report_probe_outcome(&ProbeOutcome::PhoneEndedSession("Quit".into()), &mut complete));
    assert!(complete);
}

#[test]
fn how_a_session_ends() {
    assert_eq!(finish_probe_after_loop(true, true), Err(CliError::Cancelled));
    assert_eq!(finish_probe_after_loop(true, false), Ok(()));
    assert_eq!(
        finish_probe_after_loop(false, false),
        Err(CliError::Protocol(
            "auth/service-discovery/channel-setup probe timed out before completion".into()
        ))
    );
}

#[test]
fn focus_and_key_binding_answers() {
    assert_eq!(grant_audio_focus(AudioFocusRequest::Gain), AudioFocusState::Gain);
    assert_eq!(
        grant_audio_focus(AudioFocusRequest::GainTransientMayDuck),
        AudioFocusState::GainTransient
    );
    assert_eq!(grant_audio_focus(AudioFocusRequest::Release), AudioFocusState::Loss);
    assert_eq!(evaluate_key_binding_request(), KeyBindingStatus::Success);
}

#[test]
fn a_category_switch_gesture_presses_its_key_down_then_up() {
    let mut settings = GestureSettings::defaults();
    settings.set_action(GestureId::Circle, GestureAction::SwitchToRadio);
    assert_eq!(
        gesture_key_events(&settings, GestureId::Circle),
        vec![
            KeyEvent { key_code: KeyCode::Radio, down: true },
            KeyEvent { key_code: KeyCode::Radio, down: false },
        ]
    );
}

#[test]
fn a_window_gesture_sends_no_key() {
    let mut settings = GestureSettings::defaults();
    settings.set_action(GestureId::Circle, GestureAction::ToggleFullscreen);
    settings.check_valid();
    assert_eq!(gesture_key_events(&settings, GestureId::Circle), vec![]);
}
