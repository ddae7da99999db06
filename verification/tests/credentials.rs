use aa_headunit_diagnostics::credentials::{
    credential_error_title, describe_credential_error, destination_paths, discard_staged_after,
    parse_config_path, parse_credentials_command, parse_source_paths, staging_paths,
    CredentialError, CredentialPaths, CredentialsCommand,
};

fn args(words: &[&str]) -> Vec<String> {
    words.iter().map(|w| w.to_string()).collect()
}

#[test]
fn parses_source_paths_in_either_order() {
    let paths = parse_source_paths(&[
        "--private-key".into(),
        "/tmp/key".into(),
        "--certificate".into(),
        "/tmp/cert".into(),
    ])
    .expect("valid paths");
    assert_eq!(paths.private_key, "/tmp/key");
    assert_eq!(paths.certificate, "/tmp/cert");
}

#[test]
fn rejects_missing_or_repeated_paths() {
    assert!(parse_source_paths(&["--certificate".into(), "/tmp/cert".into()]).is_err());
    assert!(parse_source_paths(&[
        "--certificate".into(),
        "/tmp/one".into(),
        "--certificate".into(),
        "/tmp/two".into(),
    ])
    .is_err());
}

#[test]
fn source_path_errors_say_what_was_wrong() {
    assert_eq!(
        parse_source_paths(&args(&["--private-key", "k"])),
        Err(CredentialError::Config("--certificate is required".into()))
    );
    assert_eq!(
        parse_source_paths(&args(&["--certificate", "c"])),
        Err(CredentialError::Config("--private-key is required".into()))
    );
    assert_eq!(
        parse_source_paths(&args(&["--certificate"])),
        Err(CredentialError::Config("--certificate requires a file path".into()))
    );
    assert_eq!(
        parse_source_paths(&args(&["--certificate", "a", "--certificate", "b"])),
        Err(CredentialError::Config("unknown or repeated option: --certificate".into()))
    );
}

#[test]
fn status_takes_an_optional_config_path() {
    assert_eq!(parse_config_path(&args(&[])), Ok("/etc/aa-headunit/config.toml".to_string()));
    assert_eq!(parse_config_path(&args(&["--config", "/x.toml"])), Ok("/x.toml".to_string()));
    assert_eq!(
        parse_config_path(&args(&["--cfg", "/x.toml"])),
        Err(CredentialError::Config("status accepts only an optional --config PATH".into()))
    );
}

#[test]
fn credential_subcommands() {
    assert_eq!(
        parse_credentials_command("install", &args(&["--certificate", "c", "--private-key", "k"])),
        Ok(CredentialsCommand::Install(CredentialPaths {
            certificate: "c".into(),
            private_key: "k".into()
        }))
    );
    assert_eq!(
        parse_credentials_command("setup", &args(&[])),
        Err(CredentialError::Config("unknown credential command: setup".into()))
    );
}

#[test]
fn wizard_titles_and_descriptions() {
    assert_eq!(
        credential_error_title(&CredentialError::InsecurePrivateKeyPermissions(0o644)),
        "Private key permissions are too open"
    );
    assert_eq!(credential_error_title(&CredentialError::Config("x".into())), "Setup problem");
    assert_eq!(
        describe_credential_error(&CredentialError::Missing("/a/b.crt".into())),
        "/a/b.crt doesn't exist or couldn't be read."
    );
    assert_eq!(
        describe_credential_error(&CredentialError::Config("no home".into())),
        "Setup configuration problem: no home."
    );
    let text = describe_credential_error(&CredentialError::InsecurePrivateKeyPermissions(0o644));
    assert!(text.starts_with("The private key file's permissions (0644) allow other users"));
    assert!(text.ends_with("pick that copy instead."));
    assert_eq!(
        CredentialError::InsecurePrivateKeyPermissions(0o100600).message(),
        "insecure private key permissions: 100600"
    );
    assert_eq!(
        CredentialError::Config("bad".into()).message(),
        "configuration: bad"
    );
}

#[test]
fn staging_and_destination_paths() {
    let staged = staging_paths("/home/pi");
    assert_eq!(
        staged.certificate,
        "/home/pi/.local/share/aa-headunit/pending-credentials/headunit.crt"
    );
    assert_eq!(
        staged.private_key,
        "/home/pi/.local/share/aa-headunit/pending-credentials/headunit.key"
    );
    assert_eq!(
        staging_paths("/root/").certificate,
        "/root/.local/share/aa-headunit/pending-credentials/headunit.crt"
    );
    let destination = destination_paths();
    assert_eq!(destination.certificate, "/etc/aa-headunit/credentials/headunit.crt");
    assert_eq!(destination.private_key, "/etc/aa-headunit/credentials/headunit.key");
}

#[test]
fn a_staged_pair_is_kept_only_after_a_real_failure() {
    assert!(discard_staged_after(&Ok(())));
    assert!(discard_staged_after(&Err(CredentialError::AlreadyInstalled("/x".into()))));
    assert!(!discard_staged_after(&Err(CredentialError::InvalidCredentials("x".into()))));
}
