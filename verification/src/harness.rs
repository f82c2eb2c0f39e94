//! The execution harness: classifying how user work ended and driving the run
//! to its terminal state.
//!
//! The application layer runs the user's work inside a fault boundary,
//! together with a cancellation token that a signal handler may set; what
//! comes back — the work's own result, whether it crashed, and whether the
//! token was ever set — is classified here, and the classification alone
//! picks the terminal run status.  The `Harness` type enforces the order of
//! one invocation: work returns first, finalize happens after, and only once;
//! the trace-level laws at the bottom state this for every possible run of
//! the machine.

use vstd::prelude::*;
use crate::request::HttpRequest;
use crate::run::{Run, Status};

verus! {

/// How the user work ended inside the fault boundary.
pub enum WorkResult {
    /// The work returned successfully.
    Succeeded,
    /// The work returned an application error with this description.
    ApplicationFailed(String),
    /// The work crashed; the fault boundary may have recovered a description.
    Crashed(Option<String>),
}

/// The classification of one harness invocation.
pub enum ExecutionOutcome {
    Success,
    ApplicationError(String),
    Crashed(Option<String>),
    Cancelled,
}

/// The classification rule: a cancellation request observed before the work
/// returned dominates everything else; otherwise the work's own ending is
/// taken at face value.
pub open spec fn spec_classify_outcome(work: WorkResult, token_was_set: bool) -> ExecutionOutcome {
    if token_was_set {
        ExecutionOutcome::Cancelled
    } else {
        match work {
            WorkResult::Succeeded => ExecutionOutcome::Success,
            WorkResult::ApplicationFailed(d) => ExecutionOutcome::ApplicationError(d),
            WorkResult::Crashed(d) => ExecutionOutcome::Crashed(d),
        }
    }
}

/// Classifies the outcome of one harness invocation.
pub fn classify_outcome(work: WorkResult, token_was_set: bool) -> (r: ExecutionOutcome)
    ensures
        r == spec_classify_outcome(work, token_was_set),
{
    if token_was_set {
        ExecutionOutcome::Cancelled
    } else {
        match work {
            WorkResult::Succeeded => ExecutionOutcome::Success,
            WorkResult::ApplicationFailed(d) => ExecutionOutcome::ApplicationError(d),
            WorkResult::Crashed(d) => ExecutionOutcome::Crashed(d),
        }
    }
}

/// The terminal status each classification finalizes with.
pub open spec fn spec_terminal_status(outcome: ExecutionOutcome) -> Status {
    match outcome {
        ExecutionOutcome::Cancelled => Status::Killed,
        ExecutionOutcome::Success => Status::Finished,
        ExecutionOutcome::ApplicationError(_) => Status::Failed,
        ExecutionOutcome::Crashed(_) => Status::Failed,
    }
}

/// Picks the terminal status for a classification.
pub fn terminal_status(outcome: &ExecutionOutcome) -> (r: Status)
    ensures
        r == spec_terminal_status(*outcome),
{
    match outcome {
        ExecutionOutcome::Cancelled => Status::Killed,
        ExecutionOutcome::Success => Status::Finished,
        ExecutionOutcome::ApplicationError(_) => Status::Failed,
        ExecutionOutcome::Crashed(_) => Status::Failed,
    }
}

/// Where one harness invocation stands.
pub enum HarnessPhase {
    /// The work is executing (or has not started); nothing may be finalized.
    Running,
    /// The work has returned and its ending is classified.
    Classified(ExecutionOutcome),
    /// The run has been finalized with this terminal status.  No transition
    /// leaves this phase.
    Finalized(Status),
}

/// One harness invocation.  The phase is private and only moves forward, so a
/// caller that holds a harness can build the finalize request once, and only
/// after the work has returned.
pub struct Harness {
    state: HarnessPhase,
}

impl Harness {
    /// Where this invocation stands.
    pub closed spec fn phase(&self) -> HarnessPhase {
        self.state
    }

    pub fn new() -> (r: Harness)
        ensures
            r.phase() is Running,
    {
        Harness { state: HarnessPhase::Running }
    }

    /// Records how the work ended and whether the cancellation token was ever
    /// set, and classifies the invocation.
    pub fn work_returned(&mut self, work: WorkResult, token_was_set: bool)
        requires
            old(self).phase() is Running,
        ensures
            final(self).phase() == HarnessPhase::Classified(
                spec_classify_outcome(work, token_was_set),
            ),
    {
        self.state = HarnessPhase::Classified(classify_outcome(work, token_was_set));
    }

    /// The request that finalizes `run` with the status the classification
    /// picked.  Callable only after the work returned, and the run must not
    /// already be terminal.
    pub fn finalize_request(&self, run: &Run, end_time_ms: u64) -> (r: HttpRequest)
        requires
            self.phase() is Classified,
            !run.finalized(),
        ensures
            self.phase() matches HarnessPhase::Classified(o) ==> r.body_bytes()
                == crate::run::update_run_body(
                run.info.run_id@,
                spec_terminal_status(o),
                end_time_ms as nat,
            ),
            r.url@ == run.api_root@ + "/api/2.0/mlflow/runs/update"@,
            r.is_json(),
    {
        let status = match &self.state {
            HarnessPhase::Classified(o) => terminal_status(o),
            _ => vstd::pervasive::unreached(),
        };
        run.end_run(status, end_time_ms)
    }

    /// Records that the finalize request was issued.  Callable exactly once,
    /// and only after the work returned.
    pub fn mark_finalized(&mut self)
        requires
            old(self).phase() is Classified,
        ensures
            old(self).phase() matches HarnessPhase::Classified(o) ==> final(self).phase()
                == HarnessPhase::Finalized(spec_terminal_status(o)),
    {
        let status = match &self.state {
            HarnessPhase::Classified(o) => terminal_status(o),
            _ => vstd::pervasive::unreached(),
        };
        self.state = HarnessPhase::Finalized(status);
    }
}

/// An observable event of one harness invocation.
pub enum HarnessEvent {
    /// The work returned (with this result), the token having been set or not.
    WorkReturned(WorkResult, bool),
    /// The run was finalized.
    Finalize,
}

/// The step relation of the harness machine: which event is admissible in
/// which phase, and where it leads.
pub open spec fn harness_step(phase: HarnessPhase, event: HarnessEvent) -> Option<HarnessPhase> {
    match (phase, event) {
        (HarnessPhase::Running, HarnessEvent::WorkReturned(work, token)) => Some(
            HarnessPhase::Classified(spec_classify_outcome(work, token)),
        ),
        (HarnessPhase::Classified(outcome), HarnessEvent::Finalize) => Some(
            HarnessPhase::Finalized(spec_terminal_status(outcome)),
        ),
        _ => None,
    }
}

/// Runs the machine over a whole event trace; `None` means some event was
/// inadmissible where it occurred.
pub open spec fn harness_run(phase: HarnessPhase, events: Seq<HarnessEvent>) -> Option<HarnessPhase>
    decreases events.len(),
{
    if events.len() == 0 {
        Some(phase)
    } else {
        match harness_step(phase, events[0]) {
            Some(next) => harness_run(next, events.drop_first()),
            None => None,
        }
    }
}

/// Law: an invocation that reaches a terminal state consists of exactly one
/// work-return event followed by exactly one finalize — the run is finalized
/// exactly once, and never before the work returns — and the terminal status
/// is the one its classification picks.
pub proof fn lemma_finalize_exactly_once(events: Seq<HarnessEvent>, s: Status)
    requires
        harness_run(HarnessPhase::Running, events) == Some(HarnessPhase::Finalized(s)),
    ensures
        events.len() == 2,
        events[0] is WorkReturned,
        events[1] is Finalize,
        events[0] matches HarnessEvent::WorkReturned(work, token) && s == spec_terminal_status(
            spec_classify_outcome(work, token),
        ),
{
    assert(events.len() != 0);
    let first = events[0];
    assert(harness_step(HarnessPhase::Running, first) is Some);
    assert(first is WorkReturned);
    let rest = events.drop_first();
    let classified = harness_step(HarnessPhase::Running, first)->Some_0;
    assert(harness_run(classified, rest) == Some(HarnessPhase::Finalized(s)));
    assert(rest.len() != 0);
    let second = rest[0];
    assert(harness_step(classified, second) is Some);
    assert(second is Finalize);
    let finalized = harness_step(classified, second)->Some_0;
    let tail = rest.drop_first();
    assert(harness_run(finalized, tail) == Some(HarnessPhase::Finalized(s)));
    if tail.len() != 0 {
        assert(harness_step(finalized, tail[0]) is None);
        assert(harness_run(finalized, tail) is None);
        assert(false);
    }
    assert(events.len() == 2);
    assert(events[1] == second);
}

/// Law: if the cancellation token was set at any point before the work
/// returned, the invocation finalizes the run as `Killed`, whatever the work
/// itself returned.
pub proof fn lemma_cancellation_yields_killed(work: WorkResult)
    ensures
        spec_terminal_status(spec_classify_outcome(work, true)) == Status::Killed,
{
}

/// Law: a crash with the token never set finalizes the run as `Failed` (the
/// crash became a value inside the fault boundary; it ends no process).
pub proof fn lemma_crash_yields_failed(detail: Option<String>)
    ensures
        spec_terminal_status(spec_classify_outcome(WorkResult::Crashed(detail), false))
            == Status::Failed,
{
}

/// Law: work that returned successfully with the token never set finalizes
/// the run as `Finished`.
pub proof fn lemma_success_yields_finished()
    ensures
        spec_terminal_status(spec_classify_outcome(WorkResult::Succeeded, false))
            == Status::Finished,
{
}

} // verus!
