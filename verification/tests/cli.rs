use aa_headunit_diagnostics::cli::{
    parse_command, parse_cycles, parse_hold_seconds, parse_mic_probe_seconds, parse_preferences,
    reject_completed_generated_identity_probe, Command,
};
use aa_headunit_diagnostics::credentials::{CredentialPaths, CredentialsCommand};
use aa_headunit_diagnostics::error::CliError;
use aa_headunit_diagnostics::platform::ProviderPreference;

fn args(words: &[&str]) -> Vec<String> {
    words.iter().map(|w| w.to_string()).collect()
}

#[test]
fn parses_independent_provider_preferences() {
    let args: Vec<String> = vec![
        "--wifi".into(),
        "onboard".into(),
        "--bluetooth".into(),
        "usb:1234:5678:1-2".into(),
    ];
    let (wifi, bluetooth) = parse_preferences(&args).expect("valid preferences");
    assert_eq!(wifi, ProviderPreference::Onboard);
    assert_eq!(bluetooth, ProviderPreference::StableId("usb:1234:5678:1-2".into()));
}

#[test]
fn rejects_option_without_value() {
    assert!(parse_preferences(&["--wifi".to_string()]).is_err());
}

#[test]
fn preference_errors_name_the_offending_option() {
    assert_eq!(
        parse_preferences(&args(&["--wifi"])),
        Err(CliError::Usage("--wifi requires auto, onboard, or a stable adapter ID".into()))
    );
    assert_eq!(
        parse_preferences(&args(&["--ethernet", "auto"])),
        Err(CliError::Usage("unknown wireless option: --ethernet".into()))
    );
    assert_eq!(
        parse_preferences(&args(&[])),
        Ok((ProviderPreference::Auto, ProviderPreference::Auto))
    );
    assert_eq!(
        parse_preferences(&args(&["--wifi", "onboard", "--wifi", "auto"])),
        Ok((ProviderPreference::Auto, ProviderPreference::Auto))
    );
}

#[test]
fn validates_soak_cycle_bounds() {
    assert_eq!(parse_cycles("100").expect("valid cycles"), 100);
    assert!(parse_cycles("0").is_err());
    assert!(parse_cycles("10001").is_err());
    assert!(parse_cycles("many").is_err());
}

#[test]
fn cycle_errors_say_what_was_wrong() {
    assert_eq!(parse_cycles("many"), Err(CliError::Usage("invalid cycle count: many".into())));
    assert_eq!(
        parse_cycles("0"),
        Err(CliError::Usage("cycle count must be between 1 and 10000".into()))
    );
    assert_eq!(parse_cycles("10000"), Ok(10000));
    assert_eq!(parse_cycles("+7"), Ok(7));
    assert!(parse_cycles("4294967296").is_err());
    assert!(parse_cycles(" 5").is_err());
    assert!(parse_cycles("").is_err());
}

#[test]
fn validates_hold_duration_bounds() {
    assert_eq!(parse_hold_seconds("30").expect("valid duration"), 30);
    assert!(parse_hold_seconds("0").is_err());
    assert!(parse_hold_seconds("301").is_err());
    assert!(parse_hold_seconds("long").is_err());
}

#[test]
fn hold_duration_errors_say_what_was_wrong() {
    assert_eq!(
        parse_hold_seconds("long"),
        Err(CliError::Usage("invalid hold duration: long".into()))
    );
    assert_eq!(
        parse_hold_seconds("301"),
        Err(CliError::Usage("hold duration must be between 1 and 300 seconds".into()))
    );
}

#[test]
fn mic_probe_duration_is_bounded() {
    assert_eq!(parse_mic_probe_seconds("60"), Ok(60));
    assert_eq!(parse_mic_probe_seconds("1"), Ok(1));
    assert_eq!(
        parse_mic_probe_seconds("61"),
        Err(CliError::Usage("mic-probe duration must be between 1 and 60 seconds".into()))
    );
    assert_eq!(
        parse_mic_probe_seconds("-1"),
        Err(CliError::Usage("invalid mic-probe duration: -1".into()))
    );
}

#[test]
fn live_tls_probe_requires_explicit_opt_in() {
    let args: Vec<String> = vec!["usb".into(), "tls-probe".into(), "--device".into(), "1:2".into()];
    assert!(matches!(parse_command(&args), Err(CliError::Usage(_))));
}

#[test]
fn credential_probe_requires_explicit_opt_in() {
    let args: Vec<String> =
        vec!["usb".into(), "credential-probe".into(), "--device".into(), "1:2".into()];
    assert!(matches!(parse_command(&args), Err(CliError::Usage(_))));
}

#[test]
fn auth_discovery_probe_requires_explicit_opt_in() {
    let args: Vec<String> =
        vec!["usb".into(), "auth-discovery-probe".into(), "--device".into(), "1:2".into()];
    assert!(matches!(parse_command(&args), Err(CliError::Usage(_))));

    let args: Vec<String> = vec!["developer".into(), "auth-discovery-probe".into()];
    assert!(matches!(parse_command(&args), Err(CliError::Usage(_))));
}

#[test]
fn session_supervisor_requires_explicit_opt_in() {
    let args: Vec<String> =
        vec!["usb".into(), "session-supervisor".into(), "--device".into(), "1:2".into()];
    assert!(matches!(parse_command(&args), Err(CliError::Usage(_))));
}

#[test]
fn session_supervisor_rejects_invalid_max_cycles() {
    let args: Vec<String> = vec![
        "usb".into(),
        "session-supervisor".into(),
        "--device".into(),
        "1:2".into(),
        "--allow-live-aap".into(),
        "--max-cycles".into(),
        "0".into(),
    ];
    assert!(matches!(parse_command(&args), Err(CliError::Usage(_))));
}

#[test]
fn session_supervisor_force_disconnect_still_rejects_invalid_max_cycles() {
    let args: Vec<String> = vec![
        "usb".into(),
        "session-supervisor".into(),
        "--device".into(),
        "1:2".into(),
        "--allow-live-aap".into(),
        "--max-cycles".into(),
        "0".into(),
        "--force-disconnect-each-cycle".into(),
    ];
    assert!(matches!(parse_command(&args), Err(CliError::Usage(_))));
}

#[test]
fn completed_generated_identity_probe_stays_disabled() {
    let args: Vec<String> = vec!["developer".into(), "tls-probe".into(), "--allow-live-aap".into()];
    let error = parse_command(&args).expect_err("completed experiment must stay disabled");
    assert!(error.message().contains("permanently disabled"));
}

#[test]
fn every_generated_identity_probe_form_is_refused() {
    let expected = reject_completed_generated_identity_probe().unwrap_err();
    for line in [
        args(&["developer", "tls-probe", "--allow-live-aap", "--tls12-compat"]),
        args(&["usb", "tls-probe", "--device", "1:2", "--allow-live-aap"]),
        args(&["usb", "tls-probe", "--device", "1:2", "--allow-live-aap", "--tls12-compat"]),
    ] {
        assert_eq!(parse_command(&line), Err(CliError::Usage(match &expected {
            CliError::Usage(m) => m.clone(),
            _ => unreachable!(),
        })));
    }
}

#[test]
fn routes_each_command_form() {
    assert_eq!(parse_command(&args(&["preflight"])), Ok(Command::Preflight));
    assert_eq!(
        parse_command(&args(&["wireless"])),
        Ok(Command::Wireless {
            wifi: ProviderPreference::Auto,
            bluetooth: ProviderPreference::Auto
        })
    );
    assert_eq!(
        parse_command(&args(&["wireless", "--bluetooth", "onboard"])),
        Ok(Command::Wireless {
            wifi: ProviderPreference::Auto,
            bluetooth: ProviderPreference::Onboard
        })
    );
    assert_eq!(parse_command(&args(&["media", "probe"])), Ok(Command::MediaProbe));
    assert_eq!(
        parse_command(&args(&["media", "mic-probe"])),
        Ok(Command::MediaMicProbe { seconds: 8 })
    );
    assert_eq!(
        parse_command(&args(&["media", "mic-probe", "--seconds", "12"])),
        Ok(Command::MediaMicProbe { seconds: 12 })
    );
    assert_eq!(parse_command(&args(&["usb", "list"])), Ok(Command::UsbList));
    assert_eq!(parse_command(&args(&["developer", "tcp-probe"])), Ok(Command::DeveloperTcpProbe));
    assert_eq!(
        parse_command(&args(&["developer", "credential-probe", "--allow-live-aap", "--tls12-compat"])),
        Ok(Command::DeveloperCredentialProbe { tls12_compatibility: true })
    );
    assert_eq!(
        parse_command(&args(&["usb", "aoa", "--device", "3:4"])),
        Ok(Command::UsbAoa { selector: "3:4".into() })
    );
    assert_eq!(
        parse_command(&args(&["usb", "soak", "--device", "3:4", "--cycles", "25"])),
        Ok(Command::UsbSoak { selector: "3:4".into(), cycles: 25 })
    );
    assert_eq!(
        parse_command(&args(&["usb", "hold", "--device", "3:4", "--seconds", "9"])),
        Ok(Command::UsbHold { selector: "3:4".into(), seconds: 9 })
    );
    assert_eq!(
        parse_command(&args(&[
            "usb",
            "session-supervisor",
            "--device",
            "3:4",
            "--allow-live-aap",
            "--tls12-compat",
            "--max-cycles",
            "5",
            "--force-disconnect-each-cycle"
        ])),
        Ok(Command::UsbSessionSupervisor {
            selector: "3:4".into(),
            tls12_compatibility: true,
            max_cycles: Some(5),
            force_disconnect_each_cycle: true
        })
    );
    assert_eq!(
        parse_command(&args(&["usb", "session-supervisor", "--device", "3:4", "--allow-live-aap"])),
        Ok(Command::UsbSessionSupervisor {
            selector: "3:4".into(),
            tls12_compatibility: false,
            max_cycles: None,
            force_disconnect_each_cycle: false
        })
    );
    assert_eq!(
        parse_command(&args(&["usb", "gtk-dev-ui", "--device", "3:4", "--allow-live-aap"])),
        Ok(Command::UsbGtkDevUi { selector: "3:4".into(), tls12_compatibility: false })
    );
    assert_eq!(
        parse_command(&args(&["usb", "wireless-bootstrap-probe", "--allow-live-aap"])),
        Ok(Command::UsbWirelessBootstrapProbe { tls12_compatibility: false })
    );
    assert_eq!(
        parse_command(&args(&["credentials", "status"])),
        Ok(Command::Credentials(CredentialsCommand::Status("/etc/aa-headunit/config.toml".into())))
    );
    assert_eq!(
        parse_command(&args(&["credentials", "check", "--certificate", "c", "--private-key", "k"])),
        Ok(Command::Credentials(CredentialsCommand::Check(CredentialPaths {
            certificate: "c".into(),
            private_key: "k".into()
        })))
    );
}

#[test]
fn help_and_unknown_command_lines() {
    assert_eq!(parse_command(&args(&["--help"])), Ok(Command::Help));
    assert_eq!(parse_command(&args(&["usb", "aoa", "-h"])), Ok(Command::Help));
    assert_eq!(
        parse_command(&args(&[])),
        Err(CliError::Usage("unknown or incomplete command".into()))
    );
    assert_eq!(
        parse_command(&args(&["preflight", "now"])),
        Err(CliError::Usage("unknown or incomplete command".into()))
    );
    // A command whose form matches reads its own options first.
    assert_eq!(
        parse_command(&args(&["wireless", "--help"])),
        Err(CliError::Usage("--help requires auto, onboard, or a stable adapter ID".into()))
    );
}

#[test]
fn credential_command_failures_read_as_configuration_problems() {
    assert_eq!(
        parse_command(&args(&["credentials", "rotate"])),
        Err(CliError::Credentials("configuration: unknown credential command: rotate".into()))
    );
    assert_eq!(
        parse_command(&args(&["credentials", "status", "--verbose"])),
        Err(CliError::Credentials(
            "configuration: status accepts only an optional --config PATH".into()
        ))
    );
}

#[test]
fn exit_codes_and_messages() {
    assert_eq!(CliError::Usage("x".into()).exit_code(), 2);
    assert_eq!(CliError::Cancelled.exit_code(), 22);
    assert_eq!(CliError::Usage("bad flag".into()).message(), "usage: bad flag");
    assert_eq!(CliError::Cancelled.message(), "cancelled by operator (Ctrl-C)");
    assert_eq!(CliError::Protocol("boom".into()).message(), "protocol probe: boom");
}

#[test]
fn only_a_line_naming_no_command_prints_the_usage_text() {
    let unknown = parse_command(&args(&["frobnicate"])).unwrap_err();
    assert!(aa_headunit_diagnostics::cli::prints_usage_text(&unknown));
    let bad_count = parse_command(&args(&["usb", "soak", "--device", "1:2", "--cycles", "0"])).unwrap_err();
    assert!(!aa_headunit_diagnostics::cli::prints_usage_text(&bad_count));
}
