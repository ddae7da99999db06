//! Verified core of the Android Auto head-unit diagnostics tool: persisted
//! operator settings, command-line routing and validation, the session
//! supervisor's retry policy, and the decision logic of the protocol,
//! wireless-bootstrap and kiosk sessions.

pub mod text;
pub mod platform;
pub mod settings;
pub mod gesture_settings;
pub mod error;
pub mod credentials;
pub mod cli;
pub mod supervisor;
pub mod connection_state;
pub mod probe;
pub mod wireless;
pub mod ui;
pub mod host;
pub mod order;
pub mod browser;
pub mod session;
