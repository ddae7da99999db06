//! The command-line tool's error type and the exit code each error maps to.

use vstd::prelude::*;

verus! {

/// Why an Android Open Accessory transition failed.
#[derive(Debug, PartialEq, Eq)]
pub enum AoaError {
    Unplugged,
    TimedOut(String),
    Usb(String),
    PermissionDenied(String),
    Unsupported(String),
    InvalidIdentification(String),
    Internal(String),
}

/// Why a session transport failed.
#[derive(Debug, PartialEq, Eq)]
pub enum TransportError {
    Closed,
    TimedOut,
    Io(String),
    InvalidEndpoint(String),
}

/// Every way a command can fail.
#[derive(Debug, PartialEq, Eq)]
pub enum CliError {
    Usage(String),
    UnsupportedPlatform,
    Io(String),
    Media(String),
    Aoa(AoaError),
    Protocol(String),
    Credentials(String),
    Transport(TransportError),
    /// The operator asked to stop (Ctrl-C or closing the window).
    Cancelled,
}

/// An [`AoaError`] with its text as characters.
pub enum AoaErrorView {
    Unplugged,
    TimedOut(Seq<char>),
    Usb(Seq<char>),
    PermissionDenied(Seq<char>),
    Unsupported(Seq<char>),
    InvalidIdentification(Seq<char>),
    Internal(Seq<char>),
}

/// A [`TransportError`] with its text as characters.
pub enum TransportErrorView {
    Closed,
    TimedOut,
    Io(Seq<char>),
    InvalidEndpoint(Seq<char>),
}

/// A [`CliError`] with its text as characters.
pub enum CliErrorView {
    Usage(Seq<char>),
    UnsupportedPlatform,
    Io(Seq<char>),
    Media(Seq<char>),
    Aoa(AoaErrorView),
    Protocol(Seq<char>),
    Credentials(Seq<char>),
    Transport(TransportErrorView),
    Cancelled,
}

impl View for AoaError {
    type V = AoaErrorView;

    open spec fn view(&self) -> AoaErrorView {
        match self {
            AoaError::Unplugged => AoaErrorView::Unplugged,
            AoaError::TimedOut(s) => AoaErrorView::TimedOut(s@),
            AoaError::Usb(s) => AoaErrorView::Usb(s@),
            AoaError::PermissionDenied(s) => AoaErrorView::PermissionDenied(s@),
            AoaError::Unsupported(s) => AoaErrorView::Unsupported(s@),
            AoaError::InvalidIdentification(s) => AoaErrorView::InvalidIdentification(s@),
            AoaError::Internal(s) => AoaErrorView::Internal(s@),
        }
    }
}

impl View for TransportError {
    type V = TransportErrorView;

    open spec fn view(&self) -> TransportErrorView {
        match self {
            TransportError::Closed => TransportErrorView::Closed,
            TransportError::TimedOut => TransportErrorView::TimedOut,
            TransportError::Io(s) => TransportErrorView::Io(s@),
            TransportError::InvalidEndpoint(s) => TransportErrorView::InvalidEndpoint(s@),
        }
    }
}

impl View for CliError {
    type V = CliErrorView;

    open spec fn view(&self) -> CliErrorView {
        match self {
            CliError::Usage(s) => CliErrorView::Usage(s@),
            CliError::UnsupportedPlatform => CliErrorView::UnsupportedPlatform,
            CliError::Io(s) => CliErrorView::Io(s@),
            CliError::Media(s) => CliErrorView::Media(s@),
            CliError::Aoa(e) => CliErrorView::Aoa(e@),
            CliError::Protocol(s) => CliErrorView::Protocol(s@),
            CliError::Credentials(s) => CliErrorView::Credentials(s@),
            CliError::Transport(e) => CliErrorView::Transport(e@),
            CliError::Cancelled => CliErrorView::Cancelled,
        }
    }
}

/// The process exit code for `error`.
pub open spec fn spec_exit_code(error: CliErrorView) -> i32 {
    match error {
        CliErrorView::Usage(_) => 2,
        CliErrorView::UnsupportedPlatform => 10,
        CliErrorView::Io(_) => 12,
        CliErrorView::Media(_) => 18,
        CliErrorView::Aoa(AoaErrorView::PermissionDenied(_)) => 13,
        CliErrorView::Aoa(AoaErrorView::Unsupported(_)) => 14,
        CliErrorView::Aoa(AoaErrorView::TimedOut(_)) => 15,
        CliErrorView::Aoa(AoaErrorView::Unplugged) => 16,
        CliErrorView::Aoa(_) => 17,
        CliErrorView::Protocol(_) => 19,
        CliErrorView::Credentials(_) => 21,
        CliErrorView::Transport(_) => 20,
        CliErrorView::Cancelled => 22,
    }
}

/// The text a command prints for `error`. The texts of device-access
/// (AOA) and transport failures are this crate's own wording: the
/// transport layer that raises those failures, and its own texts for
/// them, are not part of this build.
pub open spec fn spec_error_message(error: CliErrorView) -> Seq<char> {
    match error {
        CliErrorView::Usage(m) => "usage: "@ + m,
        CliErrorView::UnsupportedPlatform =>
            "this command requires 64-bit Raspberry Pi OS Trixie on CM4, CM5, Pi 4, or Pi 5"@,
        CliErrorView::Io(m) => "I/O: "@ + m,
        CliErrorView::Media(m) => "media: "@ + m,
        CliErrorView::Aoa(e) => match e {
            AoaErrorView::Unplugged => "AOA: device unplugged"@,
            AoaErrorView::TimedOut(m) => "AOA: timed out in "@ + m,
            AoaErrorView::Usb(m) => "AOA: USB: "@ + m,
            AoaErrorView::PermissionDenied(m) => "AOA: permission denied: "@ + m,
            AoaErrorView::Unsupported(m) => "AOA: unsupported: "@ + m,
            AoaErrorView::InvalidIdentification(m) => "AOA: invalid identification: "@ + m,
            AoaErrorView::Internal(m) => "AOA: internal: "@ + m,
        },
        CliErrorView::Protocol(m) => "protocol probe: "@ + m,
        CliErrorView::Credentials(m) => "credentials: "@ + m,
        CliErrorView::Transport(e) => match e {
            TransportErrorView::Closed => "transport: closed"@,
            TransportErrorView::TimedOut => "transport: timed out"@,
            TransportErrorView::Io(m) => "transport: I/O: "@ + m,
            TransportErrorView::InvalidEndpoint(m) => "transport: invalid endpoint: "@ + m,
        },
        CliErrorView::Cancelled => "cancelled by operator (Ctrl-C)"@,
    }
}

fn prefixed(prefix: &str, message: &String) -> (r: String)
    ensures
        r@ == prefix@ + message@,
{
    String::from_str(prefix).concat(message.as_str())
}

impl CliError {
    /// The process exit code for this error.
    pub fn exit_code(&self) -> (r: i32)
        ensures
            r == spec_exit_code(self@),
    {
        match self {
            CliError::Usage(_) => 2,
            CliError::UnsupportedPlatform => 10,
            CliError::Io(_) => 12,
            CliError::Media(_) => 18,
            CliError::Aoa(AoaError::PermissionDenied(_)) => 13,
            CliError::Aoa(AoaError::Unsupported(_)) => 14,
            CliError::Aoa(AoaError::TimedOut(_)) => 15,
            CliError::Aoa(AoaError::Unplugged) => 16,
            CliError::Aoa(_) => 17,
            CliError::Protocol(_) => 19,
            CliError::Credentials(_) => 21,
            CliError::Transport(_) => 20,
            CliError::Cancelled => 22,
        }
    }

    /// The text a command prints for this error.
    pub fn message(&self) -> (r: String)
        ensures
            r@ == spec_error_message(self@),
    {
        match self {
            CliError::Usage(m) => prefixed("usage: ", m),
            CliError::UnsupportedPlatform => String::from_str(
                "this command requires 64-bit Raspberry Pi OS Trixie on CM4, CM5, Pi 4, or Pi 5",
            ),
            CliError::Io(m) => prefixed("I/O: ", m),
            CliError::Media(m) => prefixed("media: ", m),
            CliError::Aoa(e) => match e {
                AoaError::Unplugged => String::from_str("AOA: device unplugged"),
                AoaError::TimedOut(m) => prefixed("AOA: timed out in ", m),
                AoaError::Usb(m) => prefixed("AOA: USB: ", m),
                AoaError::PermissionDenied(m) => prefixed("AOA: permission denied: ", m),
                AoaError::Unsupported(m) => prefixed("AOA: unsupported: ", m),
                AoaError::InvalidIdentification(m) => prefixed("AOA: invalid identification: ", m),
                AoaError::Internal(m) => prefixed("AOA: internal: ", m),
            },
            CliError::Protocol(m) => prefixed("protocol probe: ", m),
            CliError::Credentials(m) => prefixed("credentials: ", m),
            CliError::Transport(e) => match e {
                TransportError::Closed => String::from_str("transport: closed"),
                TransportError::TimedOut => String::from_str("transport: timed out"),
                TransportError::Io(m) => prefixed("transport: I/O: ", m),
                TransportError::InvalidEndpoint(m) => prefixed("transport: invalid endpoint: ", m),
            },
            CliError::Cancelled => String::from_str("cancelled by operator (Ctrl-C)"),
        }
    }
}

} // verus!
