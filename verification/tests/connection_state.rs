use aa_headunit_diagnostics::connection_state::{report_line, ConnectionState};

#[test]
fn display_matches_wire_labels() {
    assert_eq!(ConnectionState::Ready.label(), "ready");
    assert_eq!(ConnectionState::Connecting.label(), "connecting");
    assert_eq!(ConnectionState::Connected.label(), "connected");
    assert_eq!(ConnectionState::Error.label(), "error");
}

#[test]
fn report_line_prefixes_the_label() {
    assert_eq!(report_line(ConnectionState::Connected), "connection_state=connected");
}
