//! The coarse connection state reported alongside the detailed probe
//! lines: no phone claimed yet, handshake under way, channels set up, or
//! the attempt failed.

use vstd::prelude::*;

verus! {

/// Where the current connection attempt stands.
#[derive(Debug, Clone, Copy, PartialEq, Eq, Structural)]
pub enum ConnectionState {
    /// No phone claimed yet.
    Ready,
    /// A device has been claimed and the handshake is under way.
    Connecting,
    /// Channel setup has completed.
    Connected,
    /// The current attempt ended in failure.
    Error,
}

/// The label each state is reported with.
pub open spec fn spec_connection_state_label(state: ConnectionState) -> Seq<char> {
    match state {
        ConnectionState::Ready => "ready"@,
        ConnectionState::Connecting => "connecting"@,
        ConnectionState::Connected => "connected"@,
        ConnectionState::Error => "error"@,
    }
}

impl ConnectionState {
    /// The label this state is reported with.
    pub fn label(&self) -> (r: &'static str)
        ensures
            r@ == spec_connection_state_label(*self),
    {
        match self {
            ConnectionState::Ready => "ready",
            ConnectionState::Connecting => "connecting",
            ConnectionState::Connected => "connected",
            ConnectionState::Error => "error",
        }
    }
}

/// The line that reports `state`.
pub open spec fn spec_report_line(state: ConnectionState) -> Seq<char> {
    "connection_state="@ + spec_connection_state_label(state)
}

/// The line that reports `state`.
pub fn report_line(state: ConnectionState) -> (r: String)
    ensures
        r@ == spec_report_line(state),
{
    String::from_str("connection_state=").concat(state.label())
}

} // verus!
