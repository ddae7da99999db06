//! The `credentials` command's argument handling and the operator-facing
//! wording of credential-store failures.

use vstd::prelude::*;

use crate::text::{octal, pad_zeros, spec_octal, str_eq, zero_padded};

verus! {

/// Why a credential operation failed, each variant carrying its detail as
/// plain text.
#[derive(Debug, PartialEq, Eq)]
pub enum CredentialError {
    /// The file at this path does not exist or could not be read.
    Missing(String),
    InvalidFile(String),
    InvalidCredentials(String),
    /// The private key's permission bits.
    InsecurePrivateKeyPermissions(u32),
    /// A credential already exists at this path.
    AlreadyInstalled(String),
    Io(String),
    Config(String),
}

/// A [`CredentialError`] with its text as characters.
pub enum CredentialErrorView {
    Missing(Seq<char>),
    InvalidFile(Seq<char>),
    InvalidCredentials(Seq<char>),
    InsecurePrivateKeyPermissions(u32),
    AlreadyInstalled(Seq<char>),
    Io(Seq<char>),
    Config(Seq<char>),
}

impl View for CredentialError {
    type V = CredentialErrorView;

    open spec fn view(&self) -> CredentialErrorView {
        match self {
            CredentialError::Missing(s) => CredentialErrorView::Missing(s@),
            CredentialError::InvalidFile(s) => CredentialErrorView::InvalidFile(s@),
            CredentialError::InvalidCredentials(s) => CredentialErrorView::InvalidCredentials(s@),
            CredentialError::InsecurePrivateKeyPermissions(m) =>
                CredentialErrorView::InsecurePrivateKeyPermissions(*m),
            CredentialError::AlreadyInstalled(s) => CredentialErrorView::AlreadyInstalled(s@),
            CredentialError::Io(s) => CredentialErrorView::Io(s@),
            CredentialError::Config(s) => CredentialErrorView::Config(s@),
        }
    }
}

/// A certificate and private-key file pair.
#[derive(Debug, PartialEq, Eq)]
pub struct CredentialPaths {
    pub certificate: String,
    pub private_key: String,
}

/// A [`CredentialPaths`] with its paths as characters.
pub struct CredentialPathsView {
    pub certificate: Seq<char>,
    pub private_key: Seq<char>,
}

impl View for CredentialPaths {
    type V = CredentialPathsView;

    open spec fn view(&self) -> CredentialPathsView {
        CredentialPathsView { certificate: self.certificate@, private_key: self.private_key@ }
    }
}

/// The text of each command-line argument.
pub open spec fn arg_texts(args: Seq<String>) -> Seq<Seq<char>> {
    args.map_values(|s: String| s@)
}

/// An optional text as characters.
pub open spec fn opt_text(value: Option<String>) -> Option<Seq<char>> {
    match value {
        Some(s) => Some(s@),
        None => None,
    }
}

/// Reading `--certificate PATH` / `--private-key PATH` pairs from position
/// `i` on, each flag at most once and in either order, having already
/// read `certificate` and `private_key`.
pub open spec fn source_paths_from(
    args: Seq<Seq<char>>,
    i: int,
    certificate: Option<Seq<char>>,
    private_key: Option<Seq<char>>,
) -> Result<CredentialPathsView, CredentialErrorView>
    decreases args.len() - i,
{
    if i >= args.len() {
        match (certificate, private_key) {
            (Some(c), Some(k)) => Ok(CredentialPathsView { certificate: c, private_key: k }),
            (None, _) => Err(CredentialErrorView::Config("--certificate is required"@)),
            (Some(_), None) => Err(CredentialErrorView::Config("--private-key is required"@)),
        }
    } else if i + 1 >= args.len() {
        Err(CredentialErrorView::Config(args[i] + " requires a file path"@))
    } else if args[i] == "--certificate"@ && certificate is None {
        source_paths_from(args, i + 2, Some(args[i + 1]), private_key)
    } else if args[i] == "--private-key"@ && private_key is None {
        source_paths_from(args, i + 2, certificate, Some(args[i + 1]))
    } else {
        Err(CredentialErrorView::Config("unknown or repeated option: "@ + args[i]))
    }
}

/// What `check` and `install` make of their arguments.
pub open spec fn spec_parse_source_paths(args: Seq<Seq<char>>) -> Result<
    CredentialPathsView,
    CredentialErrorView,
> {
    source_paths_from(args, 0, None, None)
}

fn config_error(message: &str) -> (r: CredentialError)
    ensures
        r@ == CredentialErrorView::Config(message@),
{
    CredentialError::Config(String::from_str(message))
}

fn config_error_after(prefix: &str, text: &str) -> (r: CredentialError)
    ensures
        r@ == CredentialErrorView::Config(prefix@ + text@),
{
    CredentialError::Config(String::from_str(prefix).concat(text))
}

fn config_error_before(text: &str, suffix: &str) -> (r: CredentialError)
    ensures
        r@ == CredentialErrorView::Config(text@ + suffix@),
{
    CredentialError::Config(String::from_str(text).concat(suffix))
}

/// Reads the source certificate and private-key paths of `check` and
/// `install`: `--certificate PATH` and `--private-key PATH`, each required
/// once, in either order.
pub fn parse_source_paths(args: &[String]) -> (r: Result<CredentialPaths, CredentialError>)
    ensures
        match r {
            Ok(p) => spec_parse_source_paths(arg_texts(args@)) == Ok::<
                CredentialPathsView,
                CredentialErrorView,
            >(p@),
            Err(e) => spec_parse_source_paths(arg_texts(args@)) == Err::<
                CredentialPathsView,
                CredentialErrorView,
            >(e@),
        },
{
    let ghost texts = arg_texts(args@);
    let mut certificate: Option<String> = None;
    let mut private_key: Option<String> = None;
    let mut index: usize = 0;
    while index < args.len()
        invariant
            index <= args.len(),
            texts == arg_texts(args@),
            spec_parse_source_paths(texts) == source_paths_from(
                texts,
                index as int,
                opt_text(certificate),
                opt_text(private_key),
            ),
        decreases args.len() - index,
    {
        let flag = args[index].as_str();
        assert(texts[index as int] == flag@);
        if index + 1 >= args.len() {
            return Err(config_error_before(flag, " requires a file path"));
        }
        let value = &args[index + 1];
        assert(texts[index + 1] == value@);
        if str_eq(flag, "--certificate") && certificate.is_none() {
            certificate = Some(value.clone());
        } else if str_eq(flag, "--private-key") && private_key.is_none() {
            private_key = Some(value.clone());
        } else {
            return Err(config_error_after("unknown or repeated option: ", flag));
        }
        index = index + 2;
    }
    match (certificate, private_key) {
        (Some(c), Some(k)) => Ok(CredentialPaths { certificate: c, private_key: k }),
        (None, _) => Err(config_error("--certificate is required")),
        (Some(_), None) => Err(config_error("--private-key is required")),
    }
}

/// Where `status` reads its configuration unless told otherwise.
pub open spec fn default_config_path() -> Seq<char> {
    "/etc/aa-headunit/config.toml"@
}

/// What `status` makes of its arguments: nothing, or `--config PATH`.
pub open spec fn spec_parse_config_path(args: Seq<Seq<char>>) -> Result<
    Seq<char>,
    CredentialErrorView,
> {
    if args.len() == 0 {
        Ok(default_config_path())
    } else if args.len() == 2 && args[0] == "--config"@ {
        Ok(args[1])
    } else {
        Err(CredentialErrorView::Config("status accepts only an optional --config PATH"@))
    }
}

/// Reads the optional `--config PATH` of `status`.
pub fn parse_config_path(args: &[String]) -> (r: Result<String, CredentialError>)
    ensures
        match r {
            Ok(p) => spec_parse_config_path(arg_texts(args@)) == Ok::<
                Seq<char>,
                CredentialErrorView,
            >(p@),
            Err(e) => spec_parse_config_path(arg_texts(args@)) == Err::<
                Seq<char>,
                CredentialErrorView,
            >(e@),
        },
{
    let ghost texts = arg_texts(args@);
    assert(texts.len() == args@.len());
    if args.len() == 0 {
        Ok(String::from_str("/etc/aa-headunit/config.toml"))
    } else if args.len() == 2 && str_eq(args[0].as_str(), "--config") {
        assert(texts[0] == args@[0]@);
        assert(texts[1] == args@[1]@);
        Ok(args[1].clone())
    } else {
        Err(config_error("status accepts only an optional --config PATH"))
    }
}

/// A `credentials` subcommand with its arguments read.
#[derive(Debug, PartialEq, Eq)]
pub enum CredentialsCommand {
    /// Validate a pair without installing it.
    Check(CredentialPaths),
    /// Install a pair to the default destination.
    Install(CredentialPaths),
    /// Validate the pair a configuration file names.
    Status(String),
}

/// A [`CredentialsCommand`] with its paths as characters.
pub enum CredentialsCommandView {
    Check(CredentialPathsView),
    Install(CredentialPathsView),
    Status(Seq<char>),
}

impl View for CredentialsCommand {
    type V = CredentialsCommandView;

    open spec fn view(&self) -> CredentialsCommandView {
        match self {
            CredentialsCommand::Check(p) => CredentialsCommandView::Check(p@),
            CredentialsCommand::Install(p) => CredentialsCommandView::Install(p@),
            CredentialsCommand::Status(c) => CredentialsCommandView::Status(c@),
        }
    }
}

/// What `credentials COMMAND ARGS...` asks for.
pub open spec fn spec_parse_credentials_command(command: Seq<char>, args: Seq<Seq<char>>) -> Result<
    CredentialsCommandView,
    CredentialErrorView,
> {
    if command == "check"@ {
        match spec_parse_source_paths(args) {
            Ok(p) => Ok(CredentialsCommandView::Check(p)),
            Err(e) => Err(e),
        }
    } else if command == "install"@ {
        match spec_parse_source_paths(args) {
            Ok(p) => Ok(CredentialsCommandView::Install(p)),
            Err(e) => Err(e),
        }
    } else if command == "status"@ {
        match spec_parse_config_path(args) {
            Ok(c) => Ok(CredentialsCommandView::Status(c)),
            Err(e) => Err(e),
        }
    } else {
        Err(CredentialErrorView::Config("unknown credential command: "@ + command))
    }
}

/// Reads a `credentials` subcommand and its arguments.
pub fn parse_credentials_command(command: &str, args: &[String]) -> (r: Result<
    CredentialsCommand,
    CredentialError,
>)
    ensures
        match r {
            Ok(c) => spec_parse_credentials_command(command@, arg_texts(args@)) == Ok::<
                CredentialsCommandView,
                CredentialErrorView,
            >(c@),
            Err(e) => spec_parse_credentials_command(command@, arg_texts(args@)) == Err::<
                CredentialsCommandView,
                CredentialErrorView,
            >(e@),
        },
{
    if str_eq(command, "check") {
        match parse_source_paths(args) {
            Ok(p) => Ok(CredentialsCommand::Check(p)),
            Err(e) => Err(e),
        }
    } else if str_eq(command, "install") {
        match parse_source_paths(args) {
            Ok(p) => Ok(CredentialsCommand::Install(p)),
            Err(e) => Err(e),
        }
    } else if str_eq(command, "status") {
        match parse_config_path(args) {
            Ok(c) => Ok(CredentialsCommand::Status(c)),
            Err(e) => Err(e),
        }
    } else {
        Err(config_error_after("unknown credential command: ", command))
    }
}

/// How a credential failure reads on the command line.
pub open spec fn spec_credential_error_text(e: CredentialErrorView) -> Seq<char> {
    match e {
        CredentialErrorView::Missing(path) => "missing credential file: "@ + path,
        CredentialErrorView::InvalidFile(reason) => "invalid credential file: "@ + reason,
        CredentialErrorView::InvalidCredentials(reason) => "invalid credentials: "@ + reason,
        CredentialErrorView::InsecurePrivateKeyPermissions(mode) =>
            "insecure private key permissions: "@ + zero_padded(spec_octal(mode as nat), 4),
        CredentialErrorView::AlreadyInstalled(path) => "credential already installed: "@ + path,
        CredentialErrorView::Io(error) => "I/O: "@ + error,
        CredentialErrorView::Config(reason) => "configuration: "@ + reason,
    }
}

/// The short title the setup wizard shows above a failure.
pub open spec fn spec_credential_error_title(e: CredentialErrorView) -> Seq<char> {
    match e {
        CredentialErrorView::Missing(_) => "File not found"@,
        CredentialErrorView::InvalidFile(_) => "That file isn't usable"@,
        CredentialErrorView::InvalidCredentials(_) => "These files aren't a valid pair"@,
        CredentialErrorView::InsecurePrivateKeyPermissions(_) =>
            "Private key permissions are too open"@,
        CredentialErrorView::AlreadyInstalled(_) => "Already installed"@,
        CredentialErrorView::Io(_) => "Couldn't read that file"@,
        CredentialErrorView::Config(_) => "Setup problem"@,
    }
}

/// The advice the setup wizard gives on keys whose permissions are too
/// open, after the mode it found.
pub open spec fn permissions_advice() -> Seq<char> {
    ") allow other users to read it \u{2014} it must be exactly 0600 (readable only by you). Fix this before continuing: open a terminal and run `chmod 600` on the private key file, then try again. If that file is on a USB drive or SD card reader formatted FAT32/exFAT, `chmod` won't take effect there \u{2014} those filesystems don't support Unix permissions at all \u{2014} copy the file onto this device first (e.g. into your home folder), `chmod 600` the copy, and pick that copy instead."@
}

/// The plain-language explanation the setup wizard shows for a failure.
pub open spec fn spec_describe_credential_error(e: CredentialErrorView) -> Seq<char> {
    match e {
        CredentialErrorView::Missing(path) => path + " doesn't exist or couldn't be read."@,
        CredentialErrorView::InvalidFile(reason) => "That file isn't usable: "@ + reason + "."@,
        CredentialErrorView::InvalidCredentials(reason) =>
            "The certificate and private key don't form a valid pair: "@ + reason + "."@,
        CredentialErrorView::InsecurePrivateKeyPermissions(mode) =>
            "The private key file's permissions ("@ + zero_padded(spec_octal(mode as nat), 4)
                + permissions_advice(),
        CredentialErrorView::AlreadyInstalled(path) => path + " already exists."@,
        CredentialErrorView::Io(error) => "Couldn't read that file: "@ + error + "."@,
        CredentialErrorView::Config(reason) => "Setup configuration problem: "@ + reason + "."@,
    }
}

fn joined(prefix: &str, text: &str, suffix: &str) -> (r: String)
    ensures
        r@ == prefix@ + text@ + suffix@,
{
    String::from_str(prefix).concat(text).concat(suffix)
}

fn mode_text(mode: u32) -> (r: String)
    ensures
        r@ == zero_padded(spec_octal(mode as nat), 4),
{
    pad_zeros(octal(mode as u64), 4)
}

impl CredentialError {
    /// How this failure reads on the command line.
    pub fn message(&self) -> (r: String)
        ensures
            r@ == spec_credential_error_text(self@),
    {
        match self {
            CredentialError::Missing(path) => String::from_str("missing credential file: ").concat(
                path.as_str(),
            ),
            CredentialError::InvalidFile(reason) => String::from_str(
                "invalid credential file: ",
            ).concat(reason.as_str()),
            CredentialError::InvalidCredentials(reason) => String::from_str(
                "invalid credentials: ",
            ).concat(reason.as_str()),
            CredentialError::InsecurePrivateKeyPermissions(mode) => {
                let m = mode_text(*mode);
                String::from_str("insecure private key permissions: ").concat(m.as_str())
            },
            CredentialError::AlreadyInstalled(path) => String::from_str(
                "credential already installed: ",
            ).concat(path.as_str()),
            CredentialError::Io(error) => String::from_str("I/O: ").concat(error.as_str()),
            CredentialError::Config(reason) => String::from_str("configuration: ").concat(
                reason.as_str(),
            ),
        }
    }
}

/// The short title the setup wizard shows above a failure.
pub fn credential_error_title(error: &CredentialError) -> (r: &'static str)
    ensures
        r@ == spec_credential_error_title(error@),
{
    match error {
        CredentialError::Missing(_) => "File not found",
        CredentialError::InvalidFile(_) => "That file isn't usable",
        CredentialError::InvalidCredentials(_) => "These files aren't a valid pair",
        CredentialError::InsecurePrivateKeyPermissions(_) => "Private key permissions are too open",
        CredentialError::AlreadyInstalled(_) => "Already installed",
        CredentialError::Io(_) => "Couldn't read that file",
        CredentialError::Config(_) => "Setup problem",
    }
}

/// The plain-language explanation the setup wizard shows for a failure.
pub fn describe_credential_error(error: &CredentialError) -> (r: String)
    ensures
        r@ == spec_describe_credential_error(error@),
{
    match error {
        CredentialError::Missing(path) => String::from_str(path.as_str()).concat(
            " doesn't exist or couldn't be read.",
        ),
        CredentialError::InvalidFile(reason) => joined(
            "That file isn't usable: ",
            reason.as_str(),
            ".",
        ),
        CredentialError::InvalidCredentials(reason) => joined(
            "The certificate and private key don't form a valid pair: ",
            reason.as_str(),
            ".",
        ),
        CredentialError::InsecurePrivateKeyPermissions(mode) => {
            let m = mode_text(*mode);
            joined(
                "The private key file's permissions (",
                m.as_str(),
                ") allow other users to read it \u{2014} it must be exactly 0600 (readable only by you). Fix this before continuing: open a terminal and run `chmod 600` on the private key file, then try again. If that file is on a USB drive or SD card reader formatted FAT32/exFAT, `chmod` won't take effect there \u{2014} those filesystems don't support Unix permissions at all \u{2014} copy the file onto this device first (e.g. into your home folder), `chmod 600` the copy, and pick that copy instead.",
            )
        },
        CredentialError::AlreadyInstalled(path) => String::from_str(path.as_str()).concat(
            " already exists.",
        ),
        CredentialError::Io(error) => joined("Couldn't read that file: ", error.as_str(), "."),
        CredentialError::Config(reason) => joined(
            "Setup configuration problem: ",
            reason.as_str(),
            ".",
        ),
    }
}

/// `base` with the relative path `relative` joined on, as a path join
/// does: a `/` between them unless `base` is empty or already ends in
/// one.
pub open spec fn spec_join(base: Seq<char>, relative: Seq<char>) -> Seq<char> {
    if base.len() == 0 || base.last() == '/' {
        base + relative
    } else {
        base + "/"@ + relative
    }
}

fn join(base: &str, relative: &str) -> (r: String)
    ensures
        r@ == spec_join(base@, relative@),
{
    let len: usize = base.unicode_len();
    if len == 0 || base.get_char(len - 1) == '/' {
        String::from_str(base).concat(relative)
    } else {
        String::from_str(base).concat("/").concat(relative)
    }
}

/// Where the setup wizard stages a picked pair, under the operator's
/// home directory, until the installed application adopts it.
pub open spec fn spec_staging_paths(home: Seq<char>) -> CredentialPathsView {
    CredentialPathsView {
        certificate: spec_join(home, ".local/share/aa-headunit/pending-credentials/headunit.crt"@),
        private_key: spec_join(home, ".local/share/aa-headunit/pending-credentials/headunit.key"@),
    }
}

/// Where the setup wizard stages a picked pair.
pub fn staging_paths(home: &str) -> (r: CredentialPaths)
    ensures
        r@ == spec_staging_paths(home@),
{
    CredentialPaths {
        certificate: join(home, ".local/share/aa-headunit/pending-credentials/headunit.crt"),
        private_key: join(home, ".local/share/aa-headunit/pending-credentials/headunit.key"),
    }
}

/// Where credentials are installed for the application to use.
pub open spec fn spec_destination_paths() -> CredentialPathsView {
    CredentialPathsView {
        certificate: "/etc/aa-headunit/credentials/headunit.crt"@,
        private_key: "/etc/aa-headunit/credentials/headunit.key"@,
    }
}

/// Where credentials are installed for the application to use.
pub fn destination_paths() -> (r: CredentialPaths)
    ensures
        r@ == spec_destination_paths(),
{
    CredentialPaths {
        certificate: String::from_str("/etc/aa-headunit/credentials/headunit.crt"),
        private_key: String::from_str("/etc/aa-headunit/credentials/headunit.key"),
    }
}

/// Whether a staged pair is discarded after an attempt to install it:
/// when it was installed, or when a pair was already installed; after
/// any other failure it stays staged, so the operator can still see
/// what is wrong with it.
pub fn discard_staged_after(install: &Result<(), CredentialError>) -> (r: bool)
    ensures
        r == match install {
            Ok(()) => true,
            Err(e) => e@ is AlreadyInstalled,
        },
{
    match install {
        Ok(()) => true,
        Err(CredentialError::AlreadyInstalled(_)) => true,
        Err(_) => false,
    }
}

} // verus!
