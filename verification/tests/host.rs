use aa_headunit_diagnostics::host::{
    mtp_suppression_commands, MtpSync, needs_network_capabilities, resident_memory_kib,
};

fn strings(words: &[&str]) -> Vec<String> {
    words.iter().map(|w| w.to_string()).collect()
}

#[test]
fn only_access_point_commands_keep_network_capabilities() {
    assert!(needs_network_capabilities(&strings(&["usb", "kiosk"])));
    assert!(needs_network_capabilities(&strings(&["usb", "wireless-bootstrap-probe", "--allow-live-aap"])));
    assert!(!needs_network_capabilities(&strings(&["usb", "list"])));
    assert!(!needs_network_capabilities(&strings(&["usb"])));
    assert!(!needs_network_capabilities(&strings(&["wireless"])));
}

#[test]
fn mtp_suppression_systemctl_calls() {
    assert_eq!(
        mtp_suppression_commands(true),
        vec![strings(&["--user", "mask", "--now", "gvfs-mtp-volume-monitor.service"])]
    );
    assert_eq!(
        mtp_suppression_commands(false),
        vec![
            strings(&["--user", "unmask", "gvfs-mtp-volume-monitor.service"]),
            strings(&["--user", "start", "gvfs-mtp-volume-monitor.service"]),
        ]
    );
}

#[test]
fn resident_memory_comes_from_the_vmrss_line() {
    let status = "Name:\tdiag\nVmPeak:\t  9000 kB\nVmRSS:\t    4242 kB\nVmRSS:\t 1 kB\n";
    assert_eq!(resident_memory_kib(status), 4242);
    assert_eq!(resident_memory_kib("Name:\tdiag\n"), 0);
    assert_eq!(resident_memory_kib("VmRSS: many kB\nVmRSS: 7 kB"), 7);
    assert_eq!(resident_memory_kib(""), 0);
}

#[test]
fn allowing_the_automounter_unmasks_then_starts_it() {
    let mut sync = MtpSync::new(false);
    assert_eq!(
        sync.next_command(),
        Some(&strings(&["--user", "unmask", "gvfs-mtp-volume-monitor.service"]))
    );
    sync.record(true);
    assert_eq!(
        sync.next_command(),
        Some(&strings(&["--user", "start", "gvfs-mtp-volume-monitor.service"]))
    );
    sync.record(true);
    assert_eq!(sync.next_command(), None);
    assert!(sync.is_done());
}

#[test]
fn a_failed_automounter_command_stops_the_rest() {
    let mut sync = MtpSync::new(false);
    sync.record(false);
    assert_eq!(sync.next_command(), None);
    assert!(!sync.is_done());
}

#[test]
fn suppressing_the_automounter_masks_it_in_one_command() {
    let mut sync = MtpSync::new(true);
    assert_eq!(
        sync.next_command(),
        Some(&strings(&["--user", "mask", "--now", "gvfs-mtp-volume-monitor.service"]))
    );
    sync.record(true);
    assert_eq!(sync.next_command(), None);
    assert!(sync.is_done());
}
