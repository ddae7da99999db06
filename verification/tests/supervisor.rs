use aa_headunit_diagnostics::error::{AoaError, CliError, TransportError};
use aa_headunit_diagnostics::supervisor::{
    is_retryable, recovery_step, CycleDecision, RecoveryStep, Supervisor,
};

/// Drives a supervisor over `attempt`, the way the session-supervisor loop
/// does, and returns how the run ended.
fn supervise(
    mut attempt: impl FnMut(u32) -> Result<(), CliError>,
    max_cycles: Option<u32>,
) -> Result<(), CliError> {
    let mut supervisor = Supervisor::new(max_cycles);
    loop {
        if supervisor.is_complete() {
            return Ok(());
        }
        let cycle = supervisor.start_cycle();
        match supervisor.finish_cycle(attempt(cycle)) {
            CycleDecision::NextCycle { .. } => {}
            CycleDecision::Complete { .. } => return Ok(()),
            CycleDecision::Fatal(error) => return Err(error),
        }
    }
}

fn scripted(results: Vec<Result<(), CliError>>) -> impl FnMut(u32) -> Result<(), CliError> {
    let mut results = results.into_iter();
    move |_cycle| results.next().expect("no more scripted results")
}

#[test]
fn retryable_errors_are_classified_correctly() {
    assert!(is_retryable(&CliError::Aoa(AoaError::Unplugged)));
    assert!(is_retryable(&CliError::Aoa(AoaError::TimedOut("WaitingForReenumeration".into()))));
    assert!(is_retryable(&CliError::Aoa(AoaError::Usb("jitter".into()))));
    assert!(is_retryable(&CliError::Transport(TransportError::Closed)));
    assert!(is_retryable(&CliError::Transport(TransportError::TimedOut)));
    assert!(is_retryable(&CliError::Transport(TransportError::Io("reset".into()))));
    assert!(is_retryable(&CliError::Protocol("boom".into())));
}

#[test]
fn fatal_errors_are_classified_correctly() {
    assert!(!is_retryable(&CliError::Aoa(AoaError::PermissionDenied("udev".into()))));
    assert!(!is_retryable(&CliError::Aoa(AoaError::Unsupported("aoa v0".into()))));
    assert!(!is_retryable(&CliError::Aoa(AoaError::InvalidIdentification("bad".into()))));
    assert!(!is_retryable(&CliError::Aoa(AoaError::Internal("bad selector".into()))));
    assert!(!is_retryable(&CliError::Transport(TransportError::InvalidEndpoint("bad".into()))));
    assert!(!is_retryable(&CliError::Usage("bad flag".into())));
    assert!(!is_retryable(&CliError::UnsupportedPlatform));
    assert!(!is_retryable(&CliError::Io("io".into())));
    assert!(!is_retryable(&CliError::Media("gst".into())));
    assert!(!is_retryable(&CliError::Credentials("missing".into())));
    assert!(!is_retryable(&CliError::Cancelled));
}

#[test]
fn fatal_error_stops_immediately() {
    let mut calls = 0;
    let attempt = |cycle: u32| {
        calls += 1;
        assert_eq!(cycle, 1);
        Err(CliError::Usage("bad".into()))
    };
    let result = supervise(attempt, None);
    assert!(matches!(result, Err(CliError::Usage(_))));
    assert_eq!(calls, 1);
}

#[test]
fn retries_past_failures_then_succeeds_bounded_by_max_cycles() {
    let attempt = scripted(vec![
        Err(CliError::Aoa(AoaError::Unplugged)),
        Err(CliError::Protocol("timeout".into())),
        Ok(()),
    ]);
    let result = supervise(attempt, Some(3));
    assert!(result.is_ok());
}

#[test]
fn success_does_not_stop_the_loop_before_max_cycles() {
    let mut calls = 0;
    let attempt = |_cycle: u32| {
        calls += 1;
        Ok(())
    };
    let result = supervise(attempt, Some(5));
    assert!(result.is_ok());
    assert_eq!(calls, 5);
}

#[test]
fn fatal_error_partway_through_a_budget_stops_early() {
    let mut calls = 0;
    let attempt = |cycle: u32| {
        calls += 1;
        if cycle < 3 {
            Ok(())
        } else {
            Err(CliError::Credentials("rotated away".into()))
        }
    };
    let result = supervise(attempt, Some(10));
    assert!(matches!(result, Err(CliError::Credentials(_))));
    assert_eq!(calls, 3);
}

#[test]
fn a_budget_spent_on_retries_still_ends_successfully_after_the_backoff() {
    let mut supervisor = Supervisor::new(Some(2));
    assert_eq!(supervisor.start_cycle(), 1);
    assert_eq!(
        supervisor.finish_cycle(Err(CliError::Aoa(AoaError::Unplugged))),
        CycleDecision::NextCycle { back_off: true }
    );
    assert_eq!(supervisor.start_cycle(), 2);
    assert_eq!(
        supervisor.finish_cycle(Err(CliError::Transport(TransportError::Closed))),
        CycleDecision::Complete { back_off: true }
    );
    assert_eq!(supervisor.consecutive_failures(), 2);
}

#[test]
fn failures_in_a_row_escalate_recovery_and_a_success_resets_it() {
    let mut supervisor = Supervisor::new(None);
    assert_eq!(recovery_step(false, supervisor.consecutive_failures()), RecoveryStep::FindBySelector);
    supervisor.start_cycle();
    supervisor.finish_cycle(Err(CliError::Protocol("x".into())));
    assert_eq!(recovery_step(true, supervisor.consecutive_failures()), RecoveryStep::SoftResetThenWait);
    supervisor.start_cycle();
    supervisor.finish_cycle(Err(CliError::Protocol("x".into())));
    assert_eq!(recovery_step(true, supervisor.consecutive_failures()), RecoveryStep::PhysicalReplug);
    supervisor.start_cycle();
    supervisor.finish_cycle(Ok(()));
    assert_eq!(supervisor.consecutive_failures(), 0);
    assert_eq!(recovery_step(true, supervisor.consecutive_failures()), RecoveryStep::WaitForReconnect);
}

#[test]
fn a_budget_of_zero_cycles_attempts_nothing() {
    let mut attempts = 0;
    let result = supervise(
        |_cycle| {
            attempts += 1;
            Ok(())
        },
        Some(0),
    );
    assert_eq!(result, Ok(()));
    assert_eq!(attempts, 0);
    assert!(Supervisor::new(Some(0)).is_complete());
}

#[test]
fn without_a_budget_only_a_fatal_error_ends_the_run() {
    let mut seen = Vec::new();
    let result = supervise(
        |cycle| {
            seen.push(cycle);
            match cycle {
                1 | 3 => Ok(()),
                2 | 4 => Err(CliError::Transport(TransportError::Closed)),
                5 => Ok(()),
                _ => Err(CliError::Cancelled),
            }
        },
        None,
    );
    assert_eq!(result, Err(CliError::Cancelled));
    assert_eq!(seen, vec![1, 2, 3, 4, 5, 6]);
    assert!(!Supervisor::new(None).is_complete());
}
