//! The retry policy of `usb session-supervisor`: which failures are worth
//! another cycle, when the loop stops, and how hard each reconnect tries
//! to get the phone back.
//!
//! The loop itself (attempting a session, sleeping the backoff, printing
//! the cycle lines) belongs to the caller; this module decides, after
//! every cycle, what happens next.

use vstd::prelude::*;

use crate::error::{AoaError, AoaErrorView, CliError, CliErrorView, TransportError, TransportErrorView};

verus! {

/// Whether a failed cycle is worth retrying: the phone or the session did
/// not finish as hoped (unplugged, timed out, transient USB trouble, a
/// protocol failure). Host and configuration problems, device capability
/// limits and an operator's request to stop are not.
pub open spec fn spec_is_retryable(error: CliErrorView) -> bool {
    match error {
        CliErrorView::Aoa(AoaErrorView::Unplugged) => true,
        CliErrorView::Aoa(AoaErrorView::TimedOut(_)) => true,
        CliErrorView::Aoa(AoaErrorView::Usb(_)) => true,
        CliErrorView::Transport(TransportErrorView::Closed) => true,
        CliErrorView::Transport(TransportErrorView::TimedOut) => true,
        CliErrorView::Transport(TransportErrorView::Io(_)) => true,
        CliErrorView::Protocol(_) => true,
        _ => false,
    }
}

/// Whether a failed cycle is worth retrying.
pub fn is_retryable(error: &CliError) -> (r: bool)
    ensures
        r == spec_is_retryable(error@),
{
    match error {
        CliError::Aoa(AoaError::Unplugged) | CliError::Aoa(AoaError::TimedOut(_)) | CliError::Aoa(
            AoaError::Usb(_),
        ) | CliError::Transport(TransportError::Closed) | CliError::Transport(
            TransportError::TimedOut,
        ) | CliError::Transport(TransportError::Io(_)) | CliError::Protocol(_) => true,
        CliError::Aoa(AoaError::PermissionDenied(_)) | CliError::Aoa(AoaError::Unsupported(_))
        | CliError::Aoa(AoaError::InvalidIdentification(_)) | CliError::Aoa(AoaError::Internal(_))
        | CliError::Transport(TransportError::InvalidEndpoint(_)) | CliError::Usage(_)
        | CliError::UnsupportedPlatform | CliError::Io(_) | CliError::Media(_)
        | CliError::Credentials(_) | CliError::Cancelled => false,
    }
}

/// The supervisor's state: the cycle budget, the number of the cycle last
/// started (0 before the first), whether that cycle is still running, and
/// how many retryable failures happened in a row since the last success.
pub struct SupervisorView {
    pub max_cycles: Option<u32>,
    pub cycle: nat,
    pub running: bool,
    pub consecutive_failures: nat,
}

/// What follows a finished cycle.
pub enum CycleDecisionView {
    /// Start another cycle, after the retry backoff if this one failed.
    NextCycle { back_off: bool },
    /// The cycle budget is spent: stop, successfully, after the retry
    /// backoff if this last cycle failed.
    Complete { back_off: bool },
    /// Stop with this failure.
    Fatal(CliErrorView),
}

/// What follows a finished cycle.
#[derive(Debug, PartialEq, Eq)]
pub enum CycleDecision {
    NextCycle { back_off: bool },
    Complete { back_off: bool },
    Fatal(CliError),
}

impl View for CycleDecision {
    type V = CycleDecisionView;

    open spec fn view(&self) -> CycleDecisionView {
        match self {
            CycleDecision::NextCycle { back_off } => CycleDecisionView::NextCycle {
                back_off: *back_off,
            },
            CycleDecision::Complete { back_off } => CycleDecisionView::Complete {
                back_off: *back_off,
            },
            CycleDecision::Fatal(e) => CycleDecisionView::Fatal(e@),
        }
    }
}

/// A cycle's outcome as a view.
pub open spec fn outcome_view(outcome: Result<(), CliError>) -> Result<(), CliErrorView> {
    match outcome {
        Ok(()) => Ok(()),
        Err(e) => Err(e@),
    }
}

/// Whether the cycles run so far use up the budget, which bounds the
/// number of attempts: once it is spent no further cycle starts, so a
/// budget of zero cycles allows no attempt at all.
pub open spec fn budget_spent(s: SupervisorView) -> bool {
    match s.max_cycles {
        Some(limit) => s.cycle >= limit,
        None => false,
    }
}

/// The state after the cycle just started finished with `outcome`: a
/// success clears the run of failures, a retryable failure extends it.
pub open spec fn after_outcome(s: SupervisorView, outcome: Result<(), CliErrorView>) -> SupervisorView {
    match outcome {
        Ok(()) => SupervisorView { running: false, consecutive_failures: 0, ..s },
        Err(e) => if spec_is_retryable(e) {
            SupervisorView {
                running: false,
                consecutive_failures: s.consecutive_failures + 1,
                ..s
            }
        } else {
            SupervisorView { running: false, ..s }
        },
    }
}

/// What follows when the cycle just started finished with `outcome`: a
/// fatal failure stops at once; otherwise the loop goes on until the
/// budget, if there is one, is spent. A success never stops the loop by
/// itself.
pub open spec fn decide(s: SupervisorView, outcome: Result<(), CliErrorView>) -> CycleDecisionView {
    match outcome {
        Err(e) if !spec_is_retryable(e) => CycleDecisionView::Fatal(e),
        _ => {
            let back_off = outcome is Err;
            if budget_spent(s) {
                CycleDecisionView::Complete { back_off }
            } else {
                CycleDecisionView::NextCycle { back_off }
            }
        },
    }
}

/// The retry policy's state across the cycles of one supervised run.
pub struct Supervisor {
    max_cycles: Option<u32>,
    cycle: u32,
    running: bool,
    consecutive_failures: u32,
}

impl Supervisor {
    #[verifier::type_invariant]
    spec fn inv(self) -> bool {
        if self.running {
            self.consecutive_failures < self.cycle
        } else {
            self.consecutive_failures <= self.cycle
        }
    }

    /// The state as plain values.
    pub closed spec fn spec_view(self) -> SupervisorView {
        SupervisorView {
            max_cycles: self.max_cycles,
            cycle: self.cycle as nat,
            running: self.running,
            consecutive_failures: self.consecutive_failures as nat,
        }
    }
}

impl View for Supervisor {
    type V = SupervisorView;

    open spec fn view(&self) -> SupervisorView {
        self.spec_view()
    }
}

impl Supervisor {
    /// A supervisor that has run no cycle yet; `max_cycles`, when given,
    /// bounds the number of attempts.
    pub fn new(max_cycles: Option<u32>) -> (s: Supervisor)
        ensures
            s@ == (SupervisorView {
                max_cycles,
                cycle: 0,
                running: false,
                consecutive_failures: 0,
            }),
    {
        Supervisor { max_cycles, cycle: 0, running: false, consecutive_failures: 0 }
    }

    /// The number of the cycle last started.
    pub fn cycle(&self) -> (r: u32)
        ensures
            r == self@.cycle,
    {
        self.cycle
    }

    /// How many retryable failures happened in a row since the last
    /// success.
    pub fn consecutive_failures(&self) -> (r: u32)
        ensures
            r == self@.consecutive_failures,
            r <= self@.cycle,
    {
        proof {
            use_type_invariant(self);
        }
        self.consecutive_failures
    }

    /// Whether the cycle last started has not been finished yet.
    pub fn is_running(&self) -> (r: bool)
        ensures
            r == self@.running,
    {
        self.running
    }

    /// Whether the budget is spent, so that no further cycle may start;
    /// true from the outset for a budget of zero cycles.
    pub fn is_complete(&self) -> (r: bool)
        ensures
            r == budget_spent(self@),
    {
        match self.max_cycles {
            Some(limit) => self.cycle >= limit,
            None => false,
        }
    }

    /// Starts the next cycle and returns its number.
    pub fn start_cycle(&mut self) -> (n: u32)
        requires
            !old(self)@.running,
            old(self)@.cycle < u32::MAX,
        ensures
            n == old(self)@.cycle + 1,
            final(self)@ == (SupervisorView { cycle: n as nat, running: true, ..old(self)@ }),
    {
        proof {
            use_type_invariant(&*self);
        }
        let n = self.cycle + 1;
        self.cycle = n;
        self.running = true;
        n
    }

    /// Records how the cycle just started ended and says what follows.
    pub fn finish_cycle(&mut self, outcome: Result<(), CliError>) -> (d: CycleDecision)
        requires
            old(self)@.running,
        ensures
            final(self)@ == after_outcome(old(self)@, outcome_view(outcome)),
            d@ == decide(old(self)@, outcome_view(outcome)),
    {
        proof {
            use_type_invariant(&*self);
        }
        let spent = match self.max_cycles {
            Some(limit) => self.cycle >= limit,
            None => false,
        };
        self.running = false;
        match outcome {
            Ok(()) => {
                self.consecutive_failures = 0;
                if spent {
                    CycleDecision::Complete { back_off: false }
                } else {
                    CycleDecision::NextCycle { back_off: false }
                }
            },
            Err(e) => if is_retryable(&e) {
                self.consecutive_failures = self.consecutive_failures + 1;
                if spent {
                    CycleDecision::Complete { back_off: true }
                } else {
                    CycleDecision::NextCycle { back_off: true }
                }
            } else {
                CycleDecision::Fatal(e)
            },
        }
    }
}

/// How a whole supervised run goes when its cycles end with `outcomes`
/// in turn, from state `s` between cycles: how many cycles it attempts,
/// and how it ends (`None` where the outcomes run out before it does).
pub open spec fn run_from(s: SupervisorView, outcomes: Seq<Result<(), CliErrorView>>) -> (
    nat,
    Option<Result<(), CliErrorView>>,
)
    decreases outcomes.len(),
{
    if budget_spent(s) {
        (0, Some(Ok(())))
    } else if outcomes.len() == 0 {
        (0, None)
    } else {
        let started = SupervisorView { cycle: s.cycle + 1, running: true, ..s };
        let outcome = outcomes[0];
        match decide(started, outcome) {
            CycleDecisionView::Fatal(e) => (1, Some(Err(e))),
            CycleDecisionView::Complete { .. } => (1, Some(Ok(()))),
            CycleDecisionView::NextCycle { .. } => {
                let rest = run_from(after_outcome(started, outcome), outcomes.drop_first());
                (rest.0 + 1, rest.1)
            },
        }
    }
}

/// Whether an outcome lets the loop go on: a success or a retryable
/// failure.
pub open spec fn survivable(outcome: Result<(), CliErrorView>) -> bool {
    match outcome {
        Ok(()) => true,
        Err(e) => spec_is_retryable(e),
    }
}

/// The state of a supervisor that has run no cycle yet.
pub open spec fn fresh(max_cycles: Option<u32>) -> SupervisorView {
    SupervisorView { max_cycles, cycle: 0, running: false, consecutive_failures: 0 }
}

proof fn lemma_budget_runs_to_completion(s: SupervisorView, limit: u32, outcomes: Seq<Result<(), CliErrorView>>)
    requires
        s.max_cycles == Some(limit),
        s.cycle < limit,
        outcomes.len() >= limit - s.cycle,
        forall|i: int| 0 <= i < limit - s.cycle ==> survivable(#[trigger] outcomes[i]),
    ensures
        run_from(s, outcomes) == (((limit - s.cycle) as nat), Some(Ok::<(), CliErrorView>(()))),
    decreases outcomes.len(),
{
    let started = SupervisorView { cycle: s.cycle + 1, running: true, ..s };
    assert(survivable(outcomes[0]));
    if started.cycle < limit {
        let next = after_outcome(started, outcomes[0]);
        assert forall|i: int| 0 <= i < limit - next.cycle implies survivable(
            #[trigger] outcomes.drop_first()[i],
        ) by {
            assert(outcomes.drop_first()[i] == outcomes[i + 1]);
            assert(survivable(outcomes[i + 1]));
        }
        lemma_budget_runs_to_completion(next, limit, outcomes.drop_first());
    }
}

/// With a budget of `limit` cycles, a run in which no cycle fails fatally
/// attempts exactly `limit` cycles and then ends successfully, even where
/// the last cycles failed and were going to be retried; a success never
/// ends the run early.
pub proof fn lemma_budget_bounds_and_completes(limit: u32, outcomes: Seq<Result<(), CliErrorView>>)
    requires
        outcomes.len() >= limit,
        forall|i: int| 0 <= i < limit ==> survivable(#[trigger] outcomes[i]),
    ensures
        run_from(fresh(Some(limit)), outcomes) == (limit as nat, Some(Ok::<(), CliErrorView>(()))),
{
    if limit > 0 {
        lemma_budget_runs_to_completion(fresh(Some(limit)), limit, outcomes);
    }
}

proof fn lemma_attempts_bounded_from(s: SupervisorView, limit: u32, outcomes: Seq<Result<(), CliErrorView>>)
    requires
        s.max_cycles == Some(limit),
        s.cycle <= limit,
    ensures
        run_from(s, outcomes).0 <= limit - s.cycle,
    decreases outcomes.len(),
{
    if s.cycle < limit && outcomes.len() > 0 {
        let started = SupervisorView { cycle: s.cycle + 1, running: true, ..s };
        if started.cycle < limit {
            lemma_attempts_bounded_from(
                after_outcome(started, outcomes[0]),
                limit,
                outcomes.drop_first(),
            );
        }
    }
}

/// Whatever the cycles' outcomes, a run with a budget of `limit` cycles
/// never attempts more than `limit`.
pub proof fn lemma_attempts_never_exceed_budget(limit: u32, outcomes: Seq<Result<(), CliErrorView>>)
    ensures
        run_from(fresh(Some(limit)), outcomes).0 <= limit,
{
    lemma_attempts_bounded_from(fresh(Some(limit)), limit, outcomes);
}

proof fn lemma_fatal_stops_from(
    s: SupervisorView,
    outcomes: Seq<Result<(), CliErrorView>>,
    k: int,
)
    requires
        0 <= k < outcomes.len(),
        outcomes[k] is Err,
        !spec_is_retryable(outcomes[k]->Err_0),
        forall|i: int| 0 <= i < k ==> survivable(#[trigger] outcomes[i]),
        match s.max_cycles {
            Some(limit) => s.cycle + k < limit,
            None => true,
        },
    ensures
        run_from(s, outcomes) == ((k + 1) as nat, Some(outcomes[k])),
    decreases k,
{
    let started = SupervisorView { cycle: s.cycle + 1, running: true, ..s };
    if k > 0 {
        assert(survivable(outcomes[0]));
        let next = after_outcome(started, outcomes[0]);
        assert forall|i: int| 0 <= i < k - 1 implies survivable(
            #[trigger] outcomes.drop_first()[i],
        ) by {
            assert(outcomes.drop_first()[i] == outcomes[i + 1]);
            assert(survivable(outcomes[i + 1]));
        }
        lemma_fatal_stops_from(next, outcomes.drop_first(), k - 1);
    }
}

/// A cycle that fails in a way retrying cannot fix ends the run at once,
/// with that failure, provided the budget was not spent before it.
pub proof fn lemma_fatal_failure_stops_immediately(
    max_cycles: Option<u32>,
    outcomes: Seq<Result<(), CliErrorView>>,
    k: int,
)
    requires
        0 <= k < outcomes.len(),
        outcomes[k] is Err,
        !spec_is_retryable(outcomes[k]->Err_0),
        forall|i: int| 0 <= i < k ==> survivable(#[trigger] outcomes[i]),
        match max_cycles {
            Some(limit) => k < limit,
            None => true,
        },
    ensures
        run_from(fresh(max_cycles), outcomes) == ((k + 1) as nat, Some(outcomes[k])),
{
    lemma_fatal_stops_from(fresh(max_cycles), outcomes, k);
}

proof fn lemma_unbounded_from(s: SupervisorView, outcomes: Seq<Result<(), CliErrorView>>)
    requires
        s.max_cycles is None,
    ensures
        run_from(s, outcomes).1 matches Some(r) ==> r is Err && !spec_is_retryable(r->Err_0),
        (forall|i: int| 0 <= i < outcomes.len() ==> survivable(#[trigger] outcomes[i]))
            ==> run_from(s, outcomes) == (outcomes.len(), None::<Result<(), CliErrorView>>),
    decreases outcomes.len(),
{
    if outcomes.len() > 0 {
        let started = SupervisorView { cycle: s.cycle + 1, running: true, ..s };
        let next = after_outcome(started, outcomes[0]);
        lemma_unbounded_from(next, outcomes.drop_first());
        if forall|i: int| 0 <= i < outcomes.len() ==> survivable(#[trigger] outcomes[i]) {
            assert(survivable(outcomes[0]));
            assert forall|i: int| 0 <= i < outcomes.drop_first().len() implies survivable(
                #[trigger] outcomes.drop_first()[i],
            ) by {
                assert(outcomes.drop_first()[i] == outcomes[i + 1]);
                assert(survivable(outcomes[i + 1]));
            }
        }
    }
}

/// Without a budget, a run never ends by itself: it ends only on a cycle
/// that fails in a way retrying cannot fix, with that failure, and while
/// every cycle succeeds or fails retryably it attempts one cycle per
/// outcome and goes on.
pub proof fn lemma_unbounded_run_ends_only_on_fatal(outcomes: Seq<Result<(), CliErrorView>>)
    ensures
        run_from(fresh(None), outcomes).1 matches Some(r) ==> r is Err && !spec_is_retryable(
            r->Err_0,
        ),
        (forall|i: int| 0 <= i < outcomes.len() ==> survivable(#[trigger] outcomes[i]))
            ==> run_from(fresh(None), outcomes) == (outcomes.len(), None::<
            Result<(), CliErrorView>,
        >),
{
    lemma_unbounded_from(fresh(None), outcomes);
}

/// How the next cycle gets hold of the phone.
#[derive(Debug, Clone, Copy, PartialEq, Eq, Structural)]
pub enum RecoveryStep {
    /// First cycle: the device at the operator's `bus:address`.
    FindBySelector,
    /// Wait for the phone to come back at the same USB port.
    WaitForReconnect,
    /// Reset the device in software, then wait for it to come back.
    SoftResetThenWait,
    /// Ask the operator to unplug and replug the phone.
    PhysicalReplug,
}

/// How hard the next cycle tries to get the phone back: the first cycle
/// looks it up by the operator's selector; after that, a first failure in
/// a row just waits for a reconnect, a second resets the device in
/// software first, and any further one asks for a physical replug.
pub open spec fn spec_recovery_step(has_previous_device: bool, consecutive_failures: nat) -> RecoveryStep {
    if !has_previous_device {
        RecoveryStep::FindBySelector
    } else if consecutive_failures == 0 {
        RecoveryStep::WaitForReconnect
    } else if consecutive_failures == 1 {
        RecoveryStep::SoftResetThenWait
    } else {
        RecoveryStep::PhysicalReplug
    }
}

/// How hard the next cycle tries to get the phone back.
pub fn recovery_step(has_previous_device: bool, consecutive_failures: u32) -> (r: RecoveryStep)
    ensures
        r == spec_recovery_step(has_previous_device, consecutive_failures as nat),
{
    if !has_previous_device {
        RecoveryStep::FindBySelector
    } else if consecutive_failures == 0 {
        RecoveryStep::WaitForReconnect
    } else if consecutive_failures == 1 {
        RecoveryStep::SoftResetThenWait
    } else {
        RecoveryStep::PhysicalReplug
    }
}


/// How much a recovery step asks of the phone and the operator, from
/// looking the device up (least) to a physical replug (most).
pub open spec fn recovery_effort(step: RecoveryStep) -> nat {
    match step {
        RecoveryStep::FindBySelector => 0,
        RecoveryStep::WaitForReconnect => 1,
        RecoveryStep::SoftResetThenWait => 2,
        RecoveryStep::PhysicalReplug => 3,
    }
}

/// Recovery escalates and never backs off while failures keep coming:
/// without a known phone the selector is used whatever the count; with
/// one, no failure waits for a reconnect, one failure tries a software
/// reset, every count of two or more asks for a physical replug, and
/// more failures in a row never ask for less effort than fewer.
pub proof fn lemma_recovery_escalates(fewer: nat, more: nat)
    ensures
        spec_recovery_step(false, more) == RecoveryStep::FindBySelector,
        spec_recovery_step(true, 0) == RecoveryStep::WaitForReconnect,
        spec_recovery_step(true, 1) == RecoveryStep::SoftResetThenWait,
        more >= 2 ==> spec_recovery_step(true, more) == RecoveryStep::PhysicalReplug,
        fewer <= more ==> recovery_effort(spec_recovery_step(true, fewer)) <= recovery_effort(
            spec_recovery_step(true, more),
        ),
        recovery_effort(spec_recovery_step(true, more)) >= 1,
{
}

} // verus!
