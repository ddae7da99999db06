//! The command line: which command an argument list names, and the
//! validation of every value an operator can type.

use vstd::prelude::*;

use crate::credentials::{
    spec_credential_error_text,
    arg_texts, parse_credentials_command, spec_parse_credentials_command, CredentialErrorView,
    CredentialsCommand, CredentialsCommandView,
};
use crate::error::{CliError, CliErrorView};
use crate::platform::{spec_parse_preference, ProviderPreference, ProviderPreferenceView};
use crate::text::{parse_bounded, parse_u32, parse_u64, str_eq};

verus! {

/// How long `media mic-probe` listens when no `--seconds` is given.
pub const DEFAULT_MIC_PROBE_SECONDS: u64 = 8;

/// Reading `value` as a count of an unsigned type whose largest value is
/// `type_max`, accepted only within `low..=high`: a text that is no such
/// number is refused with `invalid` followed by the text, a number out of
/// range with `out_of_range`.
pub open spec fn spec_parse_count(
    value: Seq<char>,
    type_max: nat,
    low: nat,
    high: nat,
    invalid: Seq<char>,
    out_of_range: Seq<char>,
) -> Result<nat, CliErrorView> {
    match parse_bounded(value, type_max) {
        None => Err(CliErrorView::Usage(invalid + value)),
        Some(v) => if low <= v && v <= high {
            Ok(v)
        } else {
            Err(CliErrorView::Usage(out_of_range))
        },
    }
}

/// What `--cycles` and `--max-cycles` accept: 1 to 10000.
pub open spec fn spec_parse_cycles(value: Seq<char>) -> Result<nat, CliErrorView> {
    spec_parse_count(
        value,
        u32::MAX as nat,
        1,
        10000,
        "invalid cycle count: "@,
        "cycle count must be between 1 and 10000"@,
    )
}

/// What `usb hold --seconds` accepts: 1 to 300.
pub open spec fn spec_parse_hold_seconds(value: Seq<char>) -> Result<nat, CliErrorView> {
    spec_parse_count(
        value,
        u64::MAX as nat,
        1,
        300,
        "invalid hold duration: "@,
        "hold duration must be between 1 and 300 seconds"@,
    )
}

/// What `media mic-probe --seconds` accepts: 1 to 60.
pub open spec fn spec_parse_mic_probe_seconds(value: Seq<char>) -> Result<nat, CliErrorView> {
    spec_parse_count(
        value,
        u64::MAX as nat,
        1,
        60,
        "invalid mic-probe duration: "@,
        "mic-probe duration must be between 1 and 60 seconds"@,
    )
}

fn usage(message: &str) -> (r: CliError)
    ensures
        r@ == CliErrorView::Usage(message@),
{
    CliError::Usage(String::from_str(message))
}

fn usage_after(prefix: &str, text: &str) -> (r: CliError)
    ensures
        r@ == CliErrorView::Usage(prefix@ + text@),
{
    CliError::Usage(String::from_str(prefix).concat(text))
}

fn usage_before(text: &str, suffix: &str) -> (r: CliError)
    ensures
        r@ == CliErrorView::Usage(text@ + suffix@),
{
    CliError::Usage(String::from_str(text).concat(suffix))
}

/// Reads the cycle count of `usb soak --cycles` and
/// `usb session-supervisor --max-cycles`.
pub fn parse_cycles(value: &str) -> (r: Result<u32, CliError>)
    ensures
        match r {
            Ok(v) => spec_parse_cycles(value@) == Ok::<nat, CliErrorView>(v as nat),
            Err(e) => spec_parse_cycles(value@) == Err::<nat, CliErrorView>(e@),
        },
{
    match parse_u32(value) {
        None => Err(usage_after("invalid cycle count: ", value)),
        Some(cycles) => if 1 <= cycles && cycles <= 10000 {
            Ok(cycles)
        } else {
            Err(usage("cycle count must be between 1 and 10000"))
        },
    }
}

/// Reads the duration of `usb hold --seconds`.
pub fn parse_hold_seconds(value: &str) -> (r: Result<u64, CliError>)
    ensures
        match r {
            Ok(v) => spec_parse_hold_seconds(value@) == Ok::<nat, CliErrorView>(v as nat),
            Err(e) => spec_parse_hold_seconds(value@) == Err::<nat, CliErrorView>(e@),
        },
{
    match parse_u64(value) {
        None => Err(usage_after("invalid hold duration: ", value)),
        Some(seconds) => if 1 <= seconds && seconds <= 300 {
            Ok(seconds)
        } else {
            Err(usage("hold duration must be between 1 and 300 seconds"))
        },
    }
}

/// Reads the duration of `media mic-probe --seconds`.
pub fn parse_mic_probe_seconds(value: &str) -> (r: Result<u64, CliError>)
    ensures
        match r {
            Ok(v) => spec_parse_mic_probe_seconds(value@) == Ok::<nat, CliErrorView>(v as nat),
            Err(e) => spec_parse_mic_probe_seconds(value@) == Err::<nat, CliErrorView>(e@),
        },
{
    match parse_u64(value) {
        None => Err(usage_after("invalid mic-probe duration: ", value)),
        Some(seconds) => if 1 <= seconds && seconds <= 60 {
            Ok(seconds)
        } else {
            Err(usage("mic-probe duration must be between 1 and 60 seconds"))
        },
    }
}

/// Reading `--wifi VALUE` / `--bluetooth VALUE` pairs from position `i`
/// on, with `wifi` and `bluetooth` chosen so far; a later flag overrides
/// an earlier one.
pub open spec fn preferences_from(
    args: Seq<Seq<char>>,
    i: int,
    wifi: ProviderPreferenceView,
    bluetooth: ProviderPreferenceView,
) -> Result<(ProviderPreferenceView, ProviderPreferenceView), CliErrorView>
    decreases args.len() - i,
{
    if i >= args.len() {
        Ok((wifi, bluetooth))
    } else if i + 1 >= args.len() {
        Err(CliErrorView::Usage(args[i] + " requires auto, onboard, or a stable adapter ID"@))
    } else if args[i] == "--wifi"@ {
        preferences_from(args, i + 2, spec_parse_preference(args[i + 1]), bluetooth)
    } else if args[i] == "--bluetooth"@ {
        preferences_from(args, i + 2, wifi, spec_parse_preference(args[i + 1]))
    } else {
        Err(CliErrorView::Usage("unknown wireless option: "@ + args[i]))
    }
}

/// The Wi-Fi and Bluetooth provider preferences `wireless` reads from its
/// options, each `auto` unless given.
pub open spec fn spec_parse_preferences(args: Seq<Seq<char>>) -> Result<
    (ProviderPreferenceView, ProviderPreferenceView),
    CliErrorView,
> {
    preferences_from(args, 0, ProviderPreferenceView::Auto, ProviderPreferenceView::Auto)
}

/// Reads the options of `wireless`: `--wifi` and `--bluetooth`, each
/// followed by `auto`, `onboard` or a stable adapter ID.
pub fn parse_preferences(args: &[String]) -> (r: Result<
    (ProviderPreference, ProviderPreference),
    CliError,
>)
    ensures
        match r {
            Ok((w, b)) => spec_parse_preferences(arg_texts(args@)) == Ok::<
                (ProviderPreferenceView, ProviderPreferenceView),
                CliErrorView,
            >((w@, b@)),
            Err(e) => spec_parse_preferences(arg_texts(args@)) == Err::<
                (ProviderPreferenceView, ProviderPreferenceView),
                CliErrorView,
            >(e@),
        },
{
    let ghost texts = arg_texts(args@);
    let mut wifi = ProviderPreference::Auto;
    let mut bluetooth = ProviderPreference::Auto;
    let mut index: usize = 0;
    while index < args.len()
        invariant
            index <= args.len(),
            texts == arg_texts(args@),
            spec_parse_preferences(texts) == preferences_from(
                texts,
                index as int,
                wifi@,
                bluetooth@,
            ),
        decreases args.len() - index,
    {
        let flag = args[index].as_str();
        assert(texts[index as int] == flag@);
        if index + 1 >= args.len() {
            return Err(usage_before(flag, " requires auto, onboard, or a stable adapter ID"));
        }
        let value = args[index + 1].as_str();
        assert(texts[index + 1] == value@);
        if str_eq(flag, "--wifi") {
            wifi = ProviderPreference::parse(value);
        } else if str_eq(flag, "--bluetooth") {
            bluetooth = ProviderPreference::parse(value);
        } else {
            return Err(usage_after("unknown wireless option: ", flag));
        }
        index = index + 2;
    }
    Ok((wifi, bluetooth))
}

/// The answer to every request for a phone probe that authenticates with
/// a freshly generated identity: that experiment is closed.
pub open spec fn generated_identity_rejection() -> CliErrorView {
    CliErrorView::Usage(
        "generated-identity phone probes are permanently disabled after the recorded Android Auto error-7 rejection"@,
    )
}

fn generated_identity_error() -> (e: CliError)
    ensures
        e@ == generated_identity_rejection(),
{
    usage(
        "generated-identity phone probes are permanently disabled after the recorded Android Auto error-7 rejection",
    )
}

/// Refuses a generated-identity phone probe.
pub fn reject_completed_generated_identity_probe() -> (r: Result<(), CliError>)
    ensures
        r matches Err(e) && e@ == generated_identity_rejection(),
{
    Err(generated_identity_error())
}

/// A command line with its values read and validated: what the tool is
/// asked to do.
#[derive(Debug, PartialEq, Eq)]
pub enum Command {
    Preflight,
    Wireless { wifi: ProviderPreference, bluetooth: ProviderPreference },
    MediaProbe,
    MediaMicProbe { seconds: u64 },
    Credentials(CredentialsCommand),
    UsbList,
    DeveloperTcpProbe,
    DeveloperCredentialProbe { tls12_compatibility: bool },
    DeveloperAuthDiscoveryProbe { tls12_compatibility: bool },
    UsbAoa { selector: String },
    UsbSoak { selector: String, cycles: u32 },
    UsbHold { selector: String, seconds: u64 },
    UsbCredentialProbe { selector: String, tls12_compatibility: bool },
    UsbAuthDiscoveryProbe { selector: String, tls12_compatibility: bool },
    UsbSessionSupervisor {
        selector: String,
        tls12_compatibility: bool,
        max_cycles: Option<u32>,
        force_disconnect_each_cycle: bool,
    },
    UsbGtkDevUi { selector: String, tls12_compatibility: bool },
    UsbWirelessBootstrapProbe { tls12_compatibility: bool },
    /// Print the usage text.
    Help,
}

/// A [`Command`] with its texts as characters.
pub enum CommandView {
    Preflight,
    Wireless { wifi: ProviderPreferenceView, bluetooth: ProviderPreferenceView },
    MediaProbe,
    MediaMicProbe { seconds: u64 },
    Credentials(CredentialsCommandView),
    UsbList,
    DeveloperTcpProbe,
    DeveloperCredentialProbe { tls12_compatibility: bool },
    DeveloperAuthDiscoveryProbe { tls12_compatibility: bool },
    UsbAoa { selector: Seq<char> },
    UsbSoak { selector: Seq<char>, cycles: u32 },
    UsbHold { selector: Seq<char>, seconds: u64 },
    UsbCredentialProbe { selector: Seq<char>, tls12_compatibility: bool },
    UsbAuthDiscoveryProbe { selector: Seq<char>, tls12_compatibility: bool },
    UsbSessionSupervisor {
        selector: Seq<char>,
        tls12_compatibility: bool,
        max_cycles: Option<u32>,
        force_disconnect_each_cycle: bool,
    },
    UsbGtkDevUi { selector: Seq<char>, tls12_compatibility: bool },
    UsbWirelessBootstrapProbe { tls12_compatibility: bool },
    Help,
}

impl View for Command {
    type V = CommandView;

    open spec fn view(&self) -> CommandView {
        match self {
            Command::Preflight => CommandView::Preflight,
            Command::Wireless { wifi, bluetooth } => CommandView::Wireless {
                wifi: wifi@,
                bluetooth: bluetooth@,
            },
            Command::MediaProbe => CommandView::MediaProbe,
            Command::MediaMicProbe { seconds } => CommandView::MediaMicProbe { seconds: *seconds },
            Command::Credentials(c) => CommandView::Credentials(c@),
            Command::UsbList => CommandView::UsbList,
            Command::DeveloperTcpProbe => CommandView::DeveloperTcpProbe,
            Command::DeveloperCredentialProbe { tls12_compatibility } =>
                CommandView::DeveloperCredentialProbe { tls12_compatibility: *tls12_compatibility },
            Command::DeveloperAuthDiscoveryProbe { tls12_compatibility } =>
                CommandView::DeveloperAuthDiscoveryProbe {
                tls12_compatibility: *tls12_compatibility,
            },
            Command::UsbAoa { selector } => CommandView::UsbAoa { selector: selector@ },
            Command::UsbSoak { selector, cycles } => CommandView::UsbSoak {
                selector: selector@,
                cycles: *cycles,
            },
            Command::UsbHold { selector, seconds } => CommandView::UsbHold {
                selector: selector@,
                seconds: *seconds,
            },
            Command::UsbCredentialProbe { selector, tls12_compatibility } =>
                CommandView::UsbCredentialProbe {
                selector: selector@,
                tls12_compatibility: *tls12_compatibility,
            },
            Command::UsbAuthDiscoveryProbe { selector, tls12_compatibility } =>
                CommandView::UsbAuthDiscoveryProbe {
                selector: selector@,
                tls12_compatibility: *tls12_compatibility,
            },
            Command::UsbSessionSupervisor {
                selector,
                tls12_compatibility,
                max_cycles,
                force_disconnect_each_cycle,
            } => CommandView::UsbSessionSupervisor {
                selector: selector@,
                tls12_compatibility: *tls12_compatibility,
                max_cycles: *max_cycles,
                force_disconnect_each_cycle: *force_disconnect_each_cycle,
            },
            Command::UsbGtkDevUi { selector, tls12_compatibility } => CommandView::UsbGtkDevUi {
                selector: selector@,
                tls12_compatibility: *tls12_compatibility,
            },
            Command::UsbWirelessBootstrapProbe { tls12_compatibility } =>
                CommandView::UsbWirelessBootstrapProbe {
                tls12_compatibility: *tls12_compatibility,
            },
            Command::Help => CommandView::Help,
        }
    }
}

/// The `media ...` command lines.
pub open spec fn route_media(a: Seq<Seq<char>>) -> Option<Result<CommandView, CliErrorView>> {
    if a.len() == 2 && a[1] == "probe"@ {
        Some(Ok(CommandView::MediaProbe))
    } else if a.len() == 2 && a[1] == "mic-probe"@ {
        Some(Ok(CommandView::MediaMicProbe { seconds: DEFAULT_MIC_PROBE_SECONDS }))
    } else if a.len() == 4 && a[1] == "mic-probe"@ && a[2] == "--seconds"@ {
        Some(
            match spec_parse_mic_probe_seconds(a[3]) {
                Ok(s) => Ok(CommandView::MediaMicProbe { seconds: s as u64 }),
                Err(e) => Err(e),
            },
        )
    } else {
        None
    }
}

/// The `developer ...` command lines.
pub open spec fn route_developer(a: Seq<Seq<char>>) -> Option<Result<CommandView, CliErrorView>> {
    if a.len() == 2 && a[1] == "tcp-probe"@ {
        Some(Ok(CommandView::DeveloperTcpProbe))
    } else if (a.len() == 3 || a.len() == 4) && a[2] == "--allow-live-aap"@ && (a.len() == 3
        || a[3] == "--tls12-compat"@) {
        let tls12 = a.len() == 4;
        if a[1] == "tls-probe"@ {
            Some(Err(generated_identity_rejection()))
        } else if a[1] == "credential-probe"@ {
            Some(Ok(CommandView::DeveloperCredentialProbe { tls12_compatibility: tls12 }))
        } else if a[1] == "auth-discovery-probe"@ {
            Some(Ok(CommandView::DeveloperAuthDiscoveryProbe { tls12_compatibility: tls12 }))
        } else {
            None
        }
    } else {
        None
    }
}

/// The live-session `usb COMMAND --device SELECTOR --allow-live-aap ...`
/// command lines, whose options after the opt-in start at `a[5]`.
pub open spec fn route_usb_live(a: Seq<Seq<char>>) -> Option<Result<CommandView, CliErrorView>> {
    let command = a[1];
    let selector = a[3];
    let tls12 = a.len() >= 6 && a[5] == "--tls12-compat"@;
    let next: int = if tls12 {
        6
    } else {
        5
    };
    let more = a.len() - next;
    if command == "session-supervisor"@ {
        if more == 0 {
            Some(
                Ok(
                    CommandView::UsbSessionSupervisor {
                        selector,
                        tls12_compatibility: tls12,
                        max_cycles: None,
                        force_disconnect_each_cycle: false,
                    },
                ),
            )
        } else if (more == 2 || more == 3) && a[next] == "--max-cycles"@ && (more == 2 || a[next
            + 2] == "--force-disconnect-each-cycle"@) {
            Some(
                match spec_parse_cycles(a[next + 1]) {
                    Ok(n) => Ok(
                        CommandView::UsbSessionSupervisor {
                            selector,
                            tls12_compatibility: tls12,
                            max_cycles: Some(n as u32),
                            force_disconnect_each_cycle: more == 3,
                        },
                    ),
                    Err(e) => Err(e),
                },
            )
        } else {
            None
        }
    } else if more == 0 {
        if command == "tls-probe"@ {
            Some(Err(generated_identity_rejection()))
        } else if command == "credential-probe"@ {
            Some(Ok(CommandView::UsbCredentialProbe { selector, tls12_compatibility: tls12 }))
        } else if command == "auth-discovery-probe"@ {
            Some(Ok(CommandView::UsbAuthDiscoveryProbe { selector, tls12_compatibility: tls12 }))
        } else if command == "gtk-dev-ui"@ {
            Some(Ok(CommandView::UsbGtkDevUi { selector, tls12_compatibility: tls12 }))
        } else {
            None
        }
    } else {
        None
    }
}

/// The `usb COMMAND --device SELECTOR ...` command lines.
pub open spec fn route_usb_device(a: Seq<Seq<char>>) -> Option<Result<CommandView, CliErrorView>> {
    let command = a[1];
    let selector = a[3];
    if command == "aoa"@ {
        if a.len() == 4 {
            Some(Ok(CommandView::UsbAoa { selector }))
        } else {
            None
        }
    } else if command == "soak"@ {
        if a.len() == 6 && a[4] == "--cycles"@ {
            Some(
                match spec_parse_cycles(a[5]) {
                    Ok(n) => Ok(CommandView::UsbSoak { selector, cycles: n as u32 }),
                    Err(e) => Err(e),
                },
            )
        } else {
            None
        }
    } else if command == "hold"@ {
        if a.len() == 6 && a[4] == "--seconds"@ {
            Some(
                match spec_parse_hold_seconds(a[5]) {
                    Ok(s) => Ok(CommandView::UsbHold { selector, seconds: s as u64 }),
                    Err(e) => Err(e),
                },
            )
        } else {
            None
        }
    } else if a.len() >= 5 && a[4] == "--allow-live-aap"@ {
        route_usb_live(a)
    } else {
        None
    }
}

/// The `usb ...` command lines.
pub open spec fn route_usb(a: Seq<Seq<char>>) -> Option<Result<CommandView, CliErrorView>> {
    if a.len() == 2 && a[1] == "list"@ {
        Some(Ok(CommandView::UsbList))
    } else if a.len() >= 2 && a[1] == "wireless-bootstrap-probe"@ {
        if (a.len() == 3 || a.len() == 4) && a[2] == "--allow-live-aap"@ && (a.len() == 3 || a[3]
            == "--tls12-compat"@) {
            Some(Ok(CommandView::UsbWirelessBootstrapProbe { tls12_compatibility: a.len() == 4 }))
        } else {
            None
        }
    } else if a.len() >= 4 && a[2] == "--device"@ {
        route_usb_device(a)
    } else {
        None
    }
}

/// How a `credentials` command's failure reads on the command line.
pub open spec fn credentials_failure(e: CredentialErrorView) -> CliErrorView {
    CliErrorView::Credentials(spec_credential_error_text(e))
}

/// The command a command line names, if it names one: `None` where no
/// command's form matches.
pub open spec fn route_known(a: Seq<Seq<char>>) -> Option<Result<CommandView, CliErrorView>> {
    if a.len() == 0 {
        None
    } else if a[0] == "preflight"@ {
        if a.len() == 1 {
            Some(Ok(CommandView::Preflight))
        } else {
            None
        }
    } else if a[0] == "wireless"@ {
        Some(
            match spec_parse_preferences(a.drop_first()) {
                Ok((wifi, bluetooth)) => Ok(CommandView::Wireless { wifi, bluetooth }),
                Err(e) => Err(e),
            },
        )
    } else if a[0] == "media"@ {
        route_media(a)
    } else if a[0] == "credentials"@ {
        if a.len() >= 2 {
            Some(
                match spec_parse_credentials_command(a[1], a.subrange(2, a.len() as int)) {
                    Ok(c) => Ok(CommandView::Credentials(c)),
                    Err(e) => Err(credentials_failure(e)),
                },
            )
        } else {
            None
        }
    } else if a[0] == "usb"@ {
        route_usb(a)
    } else if a[0] == "developer"@ {
        route_developer(a)
    } else {
        None
    }
}

/// Whether any argument asks for the usage text.
pub open spec fn asks_for_help(a: Seq<Seq<char>>) -> bool {
    exists|i: int| 0 <= i < a.len() && (a[i] == "--help"@ || a[i] == "-h"@)
}

/// What a command line asks for: the command it names, the usage text
/// where it names none but asks for help, and otherwise a usage error.
pub open spec fn spec_parse_command(a: Seq<Seq<char>>) -> Result<CommandView, CliErrorView> {
    match route_known(a) {
        Some(r) => r,
        None => if asks_for_help(a) {
            Ok(CommandView::Help)
        } else {
            Err(unknown_command_error())
        },
    }
}

/// A parse outcome as views.
pub open spec fn outcome(r: Result<Command, CliError>) -> Result<CommandView, CliErrorView> {
    match r {
        Ok(c) => Ok(c@),
        Err(e) => Err(e@),
    }
}

/// An optional parse outcome as views.
pub open spec fn opt_outcome(r: Option<Result<Command, CliError>>) -> Option<
    Result<CommandView, CliErrorView>,
> {
    match r {
        Some(x) => Some(outcome(x)),
        None => None,
    }
}

fn arg_is(args: &[String], i: usize, text: &str) -> (b: bool)
    requires
        i < args@.len(),
    ensures
        b == (arg_texts(args@)[i as int] == text@),
{
    str_eq(args[i].as_str(), text)
}

fn match_media(args: &[String]) -> (r: Option<Result<Command, CliError>>)
    ensures
        opt_outcome(r) == route_media(arg_texts(args@)),
{
    let ghost a = arg_texts(args@);
    assert(a.len() == args@.len());
    if args.len() == 2 && arg_is(args, 1, "probe") {
        Some(Ok(Command::MediaProbe))
    } else if args.len() == 2 && arg_is(args, 1, "mic-probe") {
        Some(Ok(Command::MediaMicProbe { seconds: DEFAULT_MIC_PROBE_SECONDS }))
    } else if args.len() == 4 && arg_is(args, 1, "mic-probe") && arg_is(args, 2, "--seconds") {
        assert(a[3] == args@[3]@);
        Some(
            match parse_mic_probe_seconds(args[3].as_str()) {
                Ok(seconds) => Ok(Command::MediaMicProbe { seconds }),
                Err(e) => Err(e),
            },
        )
    } else {
        None
    }
}

fn match_developer(args: &[String]) -> (r: Option<Result<Command, CliError>>)
    ensures
        opt_outcome(r) == route_developer(arg_texts(args@)),
{
    let ghost a = arg_texts(args@);
    assert(a.len() == args@.len());
    if args.len() == 2 && arg_is(args, 1, "tcp-probe") {
        Some(Ok(Command::DeveloperTcpProbe))
    } else if (args.len() == 3 || args.len() == 4) && arg_is(args, 2, "--allow-live-aap") && (
    args.len() == 3 || arg_is(args, 3, "--tls12-compat")) {
        let tls12_compatibility = args.len() == 4;
        if arg_is(args, 1, "tls-probe") {
            Some(Err(generated_identity_error()))
        } else if arg_is(args, 1, "credential-probe") {
            Some(Ok(Command::DeveloperCredentialProbe { tls12_compatibility }))
        } else if arg_is(args, 1, "auth-discovery-probe") {
            Some(Ok(Command::DeveloperAuthDiscoveryProbe { tls12_compatibility }))
        } else {
            None
        }
    } else {
        None
    }
}

fn match_usb_live(args: &[String]) -> (r: Option<Result<Command, CliError>>)
    requires
        args@.len() >= 5,
    ensures
        opt_outcome(r) == route_usb_live(arg_texts(args@)),
{
    let ghost a = arg_texts(args@);
    assert(a.len() == args@.len());
    assert(a[3] == args@[3]@);
    let tls12_compatibility = args.len() >= 6 && arg_is(args, 5, "--tls12-compat");
    let next: usize = if tls12_compatibility {
        6
    } else {
        5
    };
    let more: usize = args.len() - next;
    if arg_is(args, 1, "session-supervisor") {
        if more == 0 {
            Some(
                Ok(
                    Command::UsbSessionSupervisor {
                        selector: args[3].clone(),
                        tls12_compatibility,
                        max_cycles: None,
                        force_disconnect_each_cycle: false,
                    },
                ),
            )
        } else if (more == 2 || more == 3) && arg_is(args, next, "--max-cycles") && (more == 2
            || arg_is(args, next + 2, "--force-disconnect-each-cycle")) {
            assert(a[next + 1] == args@[next + 1]@);
            Some(
                match parse_cycles(args[next + 1].as_str()) {
                    Ok(n) => Ok(
                        Command::UsbSessionSupervisor {
                            selector: args[3].clone(),
                            tls12_compatibility,
                            max_cycles: Some(n),
                            force_disconnect_each_cycle: more == 3,
                        },
                    ),
                    Err(e) => Err(e),
                },
            )
        } else {
            None
        }
    } else if more == 0 {
        if arg_is(args, 1, "tls-probe") {
            Some(Err(generated_identity_error()))
        } else if arg_is(args, 1, "credential-probe") {
            Some(
                Ok(Command::UsbCredentialProbe { selector: args[3].clone(), tls12_compatibility }),
            )
        } else if arg_is(args, 1, "auth-discovery-probe") {
            Some(
                Ok(
                    Command::UsbAuthDiscoveryProbe {
                        selector: args[3].clone(),
                        tls12_compatibility,
                    },
                ),
            )
        } else if arg_is(args, 1, "gtk-dev-ui") {
            Some(Ok(Command::UsbGtkDevUi { selector: args[3].clone(), tls12_compatibility }))
        } else {
            None
        }
    } else {
        None
    }
}

fn match_usb_device(args: &[String]) -> (r: Option<Result<Command, CliError>>)
    requires
        args@.len() >= 4,
    ensures
        opt_outcome(r) == route_usb_device(arg_texts(args@)),
{
    let ghost a = arg_texts(args@);
    assert(a.len() == args@.len());
    assert(a[3] == args@[3]@);
    if arg_is(args, 1, "aoa") {
        if args.len() == 4 {
            Some(Ok(Command::UsbAoa { selector: args[3].clone() }))
        } else {
            None
        }
    } else if arg_is(args, 1, "soak") {
        if args.len() == 6 && arg_is(args, 4, "--cycles") {
            assert(a[5] == args@[5]@);
            Some(
                match parse_cycles(args[5].as_str()) {
                    Ok(cycles) => Ok(Command::UsbSoak { selector: args[3].clone(), cycles }),
                    Err(e) => Err(e),
                },
            )
        } else {
            None
        }
    } else if arg_is(args, 1, "hold") {
        if args.len() == 6 && arg_is(args, 4, "--seconds") {
            assert(a[5] == args@[5]@);
            Some(
                match parse_hold_seconds(args[5].as_str()) {
                    Ok(seconds) => Ok(Command::UsbHold { selector: args[3].clone(), seconds }),
                    Err(e) => Err(e),
                },
            )
        } else {
            None
        }
    } else if args.len() >= 5 && arg_is(args, 4, "--allow-live-aap") {
        match_usb_live(args)
    } else {
        None
    }
}

fn match_usb(args: &[String]) -> (r: Option<Result<Command, CliError>>)
    ensures
        opt_outcome(r) == route_usb(arg_texts(args@)),
{
    let ghost a = arg_texts(args@);
    assert(a.len() == args@.len());
    if args.len() == 2 && arg_is(args, 1, "list") {
        Some(Ok(Command::UsbList))
    } else if args.len() >= 2 && arg_is(args, 1, "wireless-bootstrap-probe") {
        if (args.len() == 3 || args.len() == 4) && arg_is(args, 2, "--allow-live-aap") && (
        args.len() == 3 || arg_is(args, 3, "--tls12-compat")) {
            Some(
                Ok(
                    Command::UsbWirelessBootstrapProbe {
                        tls12_compatibility: args.len() == 4,
                    },
                ),
            )
        } else {
            None
        }
    } else if args.len() >= 4 && arg_is(args, 2, "--device") {
        match_usb_device(args)
    } else {
        None
    }
}

fn match_known(args: &[String]) -> (r: Option<Result<Command, CliError>>)
    ensures
        opt_outcome(r) == route_known(arg_texts(args@)),
{
    let ghost a = arg_texts(args@);
    assert(a.len() == args@.len());
    if args.len() == 0 {
        None
    } else if arg_is(args, 0, "preflight") {
        if args.len() == 1 {
            Some(Ok(Command::Preflight))
        } else {
            None
        }
    } else if arg_is(args, 0, "wireless") {
        let (_, rest) = args.split_at(1);
        assert(arg_texts(rest@) =~= a.drop_first());
        Some(
            match parse_preferences(rest) {
                Ok((wifi, bluetooth)) => Ok(Command::Wireless { wifi, bluetooth }),
                Err(e) => Err(e),
            },
        )
    } else if arg_is(args, 0, "media") {
        match_media(args)
    } else if arg_is(args, 0, "credentials") {
        if args.len() >= 2 {
            let (_, rest) = args.split_at(2);
            assert(arg_texts(rest@) =~= a.subrange(2, a.len() as int));
            assert(a[1] == args@[1]@);
            Some(
                match parse_credentials_command(args[1].as_str(), rest) {
                    Ok(c) => Ok(Command::Credentials(c)),
                    Err(e) => Err(CliError::Credentials(e.message())),
                },
            )
        } else {
            None
        }
    } else if arg_is(args, 0, "usb") {
        match_usb(args)
    } else if arg_is(args, 0, "developer") {
        match_developer(args)
    } else {
        None
    }
}

fn help_requested(args: &[String]) -> (b: bool)
    ensures
        b == asks_for_help(arg_texts(args@)),
{
    let ghost a = arg_texts(args@);
    let mut i: usize = 0;
    while i < args.len()
        invariant
            i <= args@.len(),
            a == arg_texts(args@),
            forall|j: int| 0 <= j < i ==> !(a[j] == "--help"@ || a[j] == "-h"@),
        decreases args.len() - i,
    {
        if arg_is(args, i, "--help") || arg_is(args, i, "-h") {
            assert(0 <= i < a.len() && (a[i as int] == "--help"@ || a[i as int] == "-h"@));
            return true;
        }
        i = i + 1;
    }
    false
}

/// Reads a command line (without the program name): the command it names
/// with every value validated, `Help` where it names none but asks for
/// help, or the usage error the tool exits with.
pub fn parse_command(args: &[String]) -> (r: Result<Command, CliError>)
    ensures
        outcome(r) == spec_parse_command(arg_texts(args@)),
{
    match match_known(args) {
        Some(r) => r,
        None => if help_requested(args) {
            Ok(Command::Help)
        } else {
            Err(usage("unknown or incomplete command"))
        },
    }
}

/// The usage error for a command line that names no command.
pub open spec fn unknown_command_error() -> CliErrorView {
    CliErrorView::Usage("unknown or incomplete command"@)
}

/// Whether the usage text goes out with this error: only when the
/// command line named no command at all.
pub fn prints_usage_text(error: &CliError) -> (r: bool)
    ensures
        r == (error@ == unknown_command_error()),
{
    match error {
        CliError::Usage(message) => str_eq(message.as_str(), "unknown or incomplete command"),
        _ => false,
    }
}

/// The commands that open a live session with a phone.
pub open spec fn is_live_session(c: CommandView) -> bool {
    match c {
        CommandView::DeveloperCredentialProbe { .. } => true,
        CommandView::DeveloperAuthDiscoveryProbe { .. } => true,
        CommandView::UsbCredentialProbe { .. } => true,
        CommandView::UsbAuthDiscoveryProbe { .. } => true,
        CommandView::UsbSessionSupervisor { .. } => true,
        CommandView::UsbGtkDevUi { .. } => true,
        CommandView::UsbWirelessBootstrapProbe { .. } => true,
        _ => false,
    }
}

/// No command line starts a live session with a phone unless it carries
/// the explicit `--allow-live-aap` opt-in.
pub proof fn lemma_live_sessions_need_opt_in(a: Seq<Seq<char>>)
    requires
        spec_parse_command(a) matches Ok(c) && is_live_session(c),
    ensures
        a.contains("--allow-live-aap"@),
{
    let allow = "--allow-live-aap"@;
    if a.len() > 2 && a[2] == allow {
        assert(a[2] == allow);
    } else if a.len() > 4 && a[4] == allow {
        assert(a[4] == allow);
    } else {
        assert(!(spec_parse_command(a) matches Ok(c) && is_live_session(c)));
    }
}

/// Every request for a generated-identity phone probe, over USB or the
/// developer connection, with or without the TLS 1.2 switch, is refused
/// with the same error.
pub proof fn lemma_generated_identity_probes_refused(a: Seq<Seq<char>>)
    requires
        (a.len() == 3 || (a.len() == 4 && a[3] == "--tls12-compat"@)) && a[0] == "developer"@
            && a[1] == "tls-probe"@ && a[2] == "--allow-live-aap"@ || (a.len() == 5 || (a.len()
            == 6 && a[5] == "--tls12-compat"@)) && a[0] == "usb"@ && a[1] == "tls-probe"@ && a[2]
            == "--device"@ && a[4] == "--allow-live-aap"@,
    ensures
        spec_parse_command(a) == Err::<CommandView, CliErrorView>(generated_identity_rejection()),
{
    reveal_strlit("developer");
    reveal_strlit("usb");
    reveal_strlit("preflight");
    reveal_strlit("wireless");
    reveal_strlit("media");
    reveal_strlit("credentials");
    reveal_strlit("tls-probe");
    reveal_strlit("tcp-probe");
    reveal_strlit("list");
    reveal_strlit("wireless-bootstrap-probe");
    reveal_strlit("aoa");
    reveal_strlit("soak");
    reveal_strlit("hold");
    reveal_strlit("session-supervisor");
    assert("developer"@[0] != "usb"@[0]);
    assert("developer"@[0] != "preflight"@[0]);
    assert("developer"@[0] != "wireless"@[0]);
    assert("developer"@[0] != "media"@[0]);
    assert("developer"@[0] != "credentials"@[0]);
    assert("usb"@[0] != "preflight"@[0]);
    assert("usb"@[0] != "wireless"@[0]);
    assert("usb"@[0] != "media"@[0]);
    assert("usb"@[0] != "credentials"@[0]);
    assert("tls-probe"@[1] != "tcp-probe"@[1]);
    assert("tls-probe"@[0] != "list"@[0]);
    assert("tls-probe"@[0] != "wireless-bootstrap-probe"@[0]);
    assert("tls-probe"@[0] != "aoa"@[0]);
    assert("tls-probe"@[0] != "soak"@[0]);
    assert("tls-probe"@[0] != "hold"@[0]);
    assert("tls-probe"@[0] != "session-supervisor"@[0]);
}


/// A supervised run disconnects the phone after every cycle only when
/// asked to: a parsed `session-supervisor` command has that switch on
/// only if its command line ends with `--force-disconnect-each-cycle`,
/// and then it also carries a cycle budget.
pub proof fn lemma_force_disconnect_only_on_request(a: Seq<Seq<char>>)
    requires
        spec_parse_command(a) is Ok,
        spec_parse_command(a)->Ok_0 is UsbSessionSupervisor,
    ensures
        spec_parse_command(a)->Ok_0->force_disconnect_each_cycle ==> a.len() > 0 && a.last()
            == "--force-disconnect-each-cycle"@ && a.contains("--force-disconnect-each-cycle"@)
            && spec_parse_command(a)->Ok_0->UsbSessionSupervisor_max_cycles is Some,
{
    if spec_parse_command(a)->Ok_0->force_disconnect_each_cycle {
        assert(a[a.len() - 1] == "--force-disconnect-each-cycle"@);
    }
}

} // verus!
