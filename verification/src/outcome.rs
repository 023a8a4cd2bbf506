//! How the bootstrap turns the outcome of the blocking run loop into a
//! process exit. The run loop ends in exactly two ways: the host framework
//! exits it externally, or it fails to start. A startup failure is fatal and
//! is reported with a non-zero status and a non-empty diagnostic; success is
//! reported only for an external exit, never for a decision of this code.

use vstd::prelude::*;

verus! {

/// The two ways the host framework's run loop can end.
pub enum RunOutcome {
    /// The run loop started and was later exited externally (the user or the
    /// platform closed the application).
    ExternalExit,
    /// The run loop could not start; the payload is the host framework's own
    /// description of the failure.
    StartupFailure(String),
}

/// What the process does once the run loop has ended: exit with this status,
/// after printing the diagnostic if there is one.
pub struct ExitReport {
    /// The process exit status: zero exactly on a clean external exit.
    pub code: i32,
    /// The diagnostic to print before exiting; present exactly on failure,
    /// and never empty then.
    pub message: Option<String>,
}

/// The fixed text a startup-failure diagnostic begins with.
pub open spec fn failure_note() -> Seq<char> {
    "error while running tauri application: "@
}

/// The exit report that belongs to a run-loop outcome: a clean external exit
/// reports status zero and no diagnostic; a startup failure reports status
/// one and the diagnostic made of the fixed note followed by the host
/// framework's description.
pub open spec fn exit_report_matches(outcome: RunOutcome, r: ExitReport) -> bool {
    match outcome {
        RunOutcome::ExternalExit => r.code == 0 && r.message is None,
        RunOutcome::StartupFailure(detail) => {
            &&& r.code == 1
            &&& r.message is Some
            &&& r.message->0@ == failure_note() + detail@
        },
    }
}

/// The startup-failure diagnostic: the fixed note followed by the host
/// framework's description of the failure.
pub fn failure_message(detail: &str) -> (m: String)
    ensures
        m@ == failure_note() + detail@,
        m@.len() > 0,
{
    proof {
        reveal_strlit("error while running tauri application: ");
    }
    let prefix = String::from_str("error while running tauri application: ");
    prefix.concat(detail)
}

/// Decide the process exit for a run-loop outcome. Every outcome is terminal:
/// the bootstrap never continues past the run loop, and a zero status is
/// reported only when the run loop itself was exited externally.
pub fn after_run(outcome: RunOutcome) -> (r: ExitReport)
    ensures
        exit_report_matches(outcome, r),
        r.code == 0 <==> outcome is ExternalExit,
        outcome is StartupFailure ==> r.message is Some && r.message->0@.len() > 0,
{
    match outcome {
        RunOutcome::ExternalExit => ExitReport { code: 0, message: None },
        RunOutcome::StartupFailure(detail) => {
            let m = failure_message(detail.as_str());
            ExitReport { code: 1, message: Some(m) }
        },
    }
}

/// Success is owed only to the run loop's own external exit: under
/// `exit_report_matches`, a zero exit status and an absent diagnostic each
/// hold exactly when the outcome was an external exit, and a startup failure
/// always carries a non-empty diagnostic.
pub proof fn lemma_success_only_on_external_exit(outcome: RunOutcome, r: ExitReport)
    requires
        exit_report_matches(outcome, r),
    ensures
        r.code == 0 <==> outcome is ExternalExit,
        r.message is None <==> outcome is ExternalExit,
        outcome is StartupFailure ==> r.code != 0 && r.message->0@.len() > 0,
{
    reveal_strlit("error while running tauri application: ");
    match outcome {
        RunOutcome::ExternalExit => {},
        RunOutcome::StartupFailure(detail) => {
            assert(r.message->0@.len() == failure_note().len() + detail@.len());
        },
    }
}

} // verus!
