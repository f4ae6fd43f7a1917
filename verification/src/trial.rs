//! One trial: the command that starts the simulator, and the order in which
//! a trial allocates its workspace, runs, is judged, reported and cleaned up.
//!
//! The steps themselves (making directories, starting and stopping a
//! process, reading logs) are the caller's. This module decides which step
//! comes next: the caller performs the action that `TrialPhase::action`
//! names, and hands what happened to `TrialPhase::on`.

use crate::text::{decimal_digits, format_decimal, views};
use vstd::prelude::*;
use vstd::string::StringExecFns;

verus! {

broadcast use vstd::string::group_string_axioms;

/// Seconds that a trial may run when no timeout is configured.
pub const DEFAULT_TIMEOUT_SECS: u64 = 120;

// ---------------------------------------------------------------------------
// The command
// ---------------------------------------------------------------------------

/// The command that runs one trial: the simulator in simulation mode, with
/// buffering on and JSON traces, on the given test file, with its state
/// under `data_dir`, its logs under `logs_dir`, and the seed in decimal.
pub open spec fn trial_command(
    fdbserver_path: Seq<char>,
    test_file: Seq<char>,
    data_dir: Seq<char>,
    logs_dir: Seq<char>,
    seed: u32,
) -> Seq<Seq<char>> {
    seq![
        fdbserver_path,
        "-r"@,
        "simulation"@,
        "-b"@,
        "on"@,
        "--trace-format"@,
        "json"@,
        "-f"@,
        test_file,
        "-d"@,
        data_dir,
        "-L"@,
        logs_dir,
        "-s"@,
        decimal_digits(seed as nat),
    ]
}

/// Builds the command that runs the trial of `seed`: the program first, then
/// its arguments.
pub fn trial_arguments(
    fdbserver_path: &str,
    test_file: &str,
    data_dir: &str,
    logs_dir: &str,
    seed: u32,
) -> (command: Vec<String>)
    ensures
        views(command@) == trial_command(fdbserver_path@, test_file@, data_dir@, logs_dir@, seed),
{
    let mut command: Vec<String> = Vec::new();
    command.push(String::from_str(fdbserver_path));
    command.push(String::from_str("-r"));
    command.push(String::from_str("simulation"));
    command.push(String::from_str("-b"));
    command.push(String::from_str("on"));
    command.push(String::from_str("--trace-format"));
    command.push(String::from_str("json"));
    command.push(String::from_str("-f"));
    command.push(String::from_str(test_file));
    command.push(String::from_str("-d"));
    command.push(String::from_str(data_dir));
    command.push(String::from_str("-L"));
    command.push(String::from_str(logs_dir));
    command.push(String::from_str("-s"));
    command.push(format_decimal(seed as u64));
    assert(views(command@) =~= trial_command(
        fdbserver_path@,
        test_file@,
        data_dir@,
        logs_dir@,
        seed,
    ));
    command
}

// ---------------------------------------------------------------------------
// Outcomes
// ---------------------------------------------------------------------------

/// How a process ended.
#[derive(Clone, Copy, Debug, PartialEq, Eq, Structural)]
pub enum ExitStatus {
    /// It exited with this code.
    Exited(u32),
    /// A signal with this number ended it.
    Signaled(u8),
    /// It ended in a way that neither of the above describes.
    Other(i32),
    /// It has ended, but how is not known.
    Undetermined,
}

impl ExitStatus {
    /// Whether the process exited with code zero.
    pub open spec fn is_success(self) -> bool {
        self == ExitStatus::Exited(0)
    }

    /// Whether the process exited with code zero.
    #[verifier::when_used_as_spec(is_success)]
    pub fn success(self) -> (ok: bool)
        ensures
            ok == self.is_success(),
    {
        match self {
            ExitStatus::Exited(code) => code == 0,
            _ => false,
        }
    }
}

/// The step at which a trial failed before its process could be judged.
#[derive(Clone, Copy, Debug, PartialEq, Eq, Structural)]
pub enum LaunchFailure {
    /// The workspace could not be allocated.
    Workspace,
    /// The process could not be started.
    Spawn,
    /// Waiting for the process failed.
    Wait,
    /// What the process wrote could not be read.
    Capture,
}

/// How a trial ended.
#[derive(Clone, Copy, Debug, PartialEq, Eq, Structural)]
pub enum TrialOutcome {
    /// The process exited with code zero within the timeout.
    Success,
    /// The process ended within the timeout, but not with code zero.
    AbnormalExit(ExitStatus),
    /// The process was still running when the timeout elapsed.
    TimedOut,
    /// The trial could not be run.
    LaunchError(LaunchFailure),
}

/// The judgement on a process that ended within the timeout.
pub open spec fn judged(status: ExitStatus) -> TrialOutcome {
    if status.is_success() {
        TrialOutcome::Success
    } else {
        TrialOutcome::AbnormalExit(status)
    }
}

/// Judges a process that ended within the timeout: a success if it exited
/// with code zero, an abnormal exit otherwise.
pub fn classify(status: ExitStatus) -> (outcome: TrialOutcome)
    ensures
        outcome == judged(status),
{
    if status.success() {
        TrialOutcome::Success
    } else {
        TrialOutcome::AbnormalExit(status)
    }
}

/// What went wrong after a trial was found to have ended abnormally.
#[derive(Clone, Copy, Debug, PartialEq, Eq, Structural)]
pub enum ReportFault {
    /// The logs could not be read or held a malformed record.
    Triage,
    /// The report could not be delivered.
    Delivery,
}

/// Whether the run goes on after a trial.
#[derive(Clone, Copy, Debug, PartialEq, Eq, Structural)]
pub enum Verdict {
    /// The run goes on with the next seed.
    Continue,
    /// The whole run ends at once, with a failure status.
    Abort,
}

/// How failures are reported.
#[derive(Clone, Copy, Debug, PartialEq, Eq, Structural)]
pub struct ReportPolicy {
    /// Whether an issue tracker receives the reports. Without one they are
    /// printed.
    pub tracker_configured: bool,
    /// Whether the first reported failure ends the run.
    pub fail_fast: bool,
}

impl ReportPolicy {
    /// The verdict on a run one of whose failures went to the report sink.
    /// Without a tracker the failure was printed and the run ends. With one
    /// the run ends only under fail-fast.
    pub open spec fn after_report(self) -> Verdict {
        if !self.tracker_configured || self.fail_fast {
            Verdict::Abort
        } else {
            Verdict::Continue
        }
    }

    /// The verdict on a run one of whose failures went to the report sink.
    pub fn verdict_after_report(self) -> (verdict: Verdict)
        ensures
            verdict == self.after_report(),
    {
        if !self.tracker_configured || self.fail_fast {
            Verdict::Abort
        } else {
            Verdict::Continue
        }
    }
}

/// What a finished trial tells the scheduler.
#[derive(Clone, Copy, Debug, PartialEq, Eq, Structural)]
pub struct TrialResult {
    /// How the trial ended.
    pub outcome: TrialOutcome,
    /// What went wrong while its failure was examined and reported, if
    /// anything.
    pub fault: Option<ReportFault>,
    /// Whether the run goes on.
    pub verdict: Verdict,
}

impl TrialResult {
    /// The result of a trial that needed no report.
    pub open spec fn plain(outcome: TrialOutcome) -> TrialResult {
        TrialResult { outcome, fault: None, verdict: Verdict::Continue }
    }

    /// Whether the trial counts as a run-level error: it could not be run, or
    /// its failure could not be examined or reported.
    pub open spec fn is_error(self) -> bool {
        self.outcome is LaunchError || self.fault is Some
    }

    /// Whether the trial counts as a run-level error.
    pub fn is_run_level_error(self) -> (error: bool)
        ensures
            error == self.is_error(),
    {
        let launch = match self.outcome {
            TrialOutcome::LaunchError(_) => true,
            _ => false,
        };
        launch || self.fault.is_some()
    }
}

// ---------------------------------------------------------------------------
// The life of a trial
// ---------------------------------------------------------------------------

/// Where a trial stands.
#[derive(Clone, Copy, Debug, PartialEq, Eq, Structural)]
pub enum TrialPhase {
    /// Nothing has happened yet; the workspace is to be allocated.
    Allocating,
    /// The workspace stands; the process is to be started.
    Launching,
    /// The process runs; its end or the timeout is awaited.
    Running,
    /// The process ended with this status; its output is to be read.
    Capturing(ExitStatus),
    /// The process is to be terminated; the trial ends with this outcome.
    Terminating(TrialOutcome),
    /// The process ended abnormally with this status; its logs are to be
    /// examined.
    Triaging(ExitStatus),
    /// The logs were examined; the failure is to be reported.
    Reporting(ExitStatus),
    /// The workspace is to be released; the trial ends with this result.
    Releasing(TrialResult),
    /// The trial is over.
    Finished(TrialResult),
}

/// What the caller does next.
#[derive(Clone, Copy, Debug, PartialEq, Eq, Structural)]
pub enum TrialAction {
    /// Create the workspace with its data and log directories.
    AllocateWorkspace,
    /// Start the process.
    Launch,
    /// Wait for the process to end, for the length of the timeout at most.
    Wait,
    /// Read all that the process wrote to standard output and error.
    CaptureOutput,
    /// Terminate the process.
    Terminate,
    /// Extract the failure records from the logs.
    Triage,
    /// Hand the failure to the report sink.
    Report,
    /// Delete the workspace.
    ReleaseWorkspace,
    /// Nothing: the trial is over, with this result.
    Finish(TrialResult),
}

/// What happened when the caller performed an action.
#[derive(Clone, Copy, Debug, PartialEq, Eq, Structural)]
pub enum TrialEvent {
    /// The workspace was created.
    WorkspaceReady,
    /// The workspace could not be created; nothing of it is left.
    WorkspaceFailed,
    /// The process was started.
    Launched,
    /// The process could not be started.
    LaunchFailed,
    /// The process ended within the timeout.
    Exited(ExitStatus),
    /// The timeout elapsed while the process was running.
    DeadlineElapsed,
    /// Waiting for the process failed.
    WaitFailed,
    /// The output of the process was read.
    OutputCaptured,
    /// The output of the process could not be read.
    CaptureFailed,
    /// Termination of the process was attempted.
    Terminated,
    /// The logs were examined.
    TriageDone,
    /// The logs could not be examined.
    TriageFailed,
    /// The report was delivered.
    Reported,
    /// The report could not be delivered.
    ReportFailed,
    /// Deletion of the workspace was attempted.
    Released,
}

impl TrialPhase {
    /// Where every trial begins.
    pub open spec fn initial() -> TrialPhase {
        TrialPhase::Allocating
    }

    /// The action that this phase waits for.
    pub open spec fn next_action(self) -> TrialAction {
        match self {
            TrialPhase::Allocating => TrialAction::AllocateWorkspace,
            TrialPhase::Launching => TrialAction::Launch,
            TrialPhase::Running => TrialAction::Wait,
            TrialPhase::Capturing(_) => TrialAction::CaptureOutput,
            TrialPhase::Terminating(_) => TrialAction::Terminate,
            TrialPhase::Triaging(_) => TrialAction::Triage,
            TrialPhase::Reporting(_) => TrialAction::Report,
            TrialPhase::Releasing(_) => TrialAction::ReleaseWorkspace,
            TrialPhase::Finished(result) => TrialAction::Finish(result),
        }
    }

    /// The phase that follows when `event` is reported in this one. An event
    /// that does not answer the action of the phase changes nothing.
    pub open spec fn step(self, event: TrialEvent, policy: ReportPolicy) -> TrialPhase {
        match (self, event) {
            (TrialPhase::Allocating, TrialEvent::WorkspaceReady) => TrialPhase::Launching,
            (TrialPhase::Allocating, TrialEvent::WorkspaceFailed) => TrialPhase::Finished(
                TrialResult::plain(TrialOutcome::LaunchError(LaunchFailure::Workspace)),
            ),
            (TrialPhase::Launching, TrialEvent::Launched) => TrialPhase::Running,
            (TrialPhase::Launching, TrialEvent::LaunchFailed) => TrialPhase::Releasing(
                TrialResult::plain(TrialOutcome::LaunchError(LaunchFailure::Spawn)),
            ),
            (TrialPhase::Running, TrialEvent::Exited(status)) => TrialPhase::Capturing(status),
            (TrialPhase::Running, TrialEvent::DeadlineElapsed) => TrialPhase::Terminating(
                TrialOutcome::TimedOut,
            ),
            (TrialPhase::Running, TrialEvent::WaitFailed) => TrialPhase::Terminating(
                TrialOutcome::LaunchError(LaunchFailure::Wait),
            ),
            (TrialPhase::Terminating(outcome), TrialEvent::Terminated) => TrialPhase::Releasing(
                TrialResult::plain(outcome),
            ),
            (TrialPhase::Capturing(status), TrialEvent::OutputCaptured) => if status.is_success() {
                TrialPhase::Releasing(TrialResult::plain(TrialOutcome::Success))
            } else {
                TrialPhase::Triaging(status)
            },
            (TrialPhase::Capturing(_), TrialEvent::CaptureFailed) => TrialPhase::Releasing(
                TrialResult::plain(TrialOutcome::LaunchError(LaunchFailure::Capture)),
            ),
            (TrialPhase::Triaging(status), TrialEvent::TriageDone) => TrialPhase::Reporting(status),
            (TrialPhase::Triaging(status), TrialEvent::TriageFailed) => TrialPhase::Releasing(
                TrialResult {
                    outcome: TrialOutcome::AbnormalExit(status),
                    fault: Some(ReportFault::Triage),
                    verdict: Verdict::Continue,
                },
            ),
            (TrialPhase::Reporting(status), TrialEvent::Reported) => TrialPhase::Releasing(
                TrialResult {
                    outcome: TrialOutcome::AbnormalExit(status),
                    fault: None,
                    verdict: policy.after_report(),
                },
            ),
            (TrialPhase::Reporting(status), TrialEvent::ReportFailed) => TrialPhase::Releasing(
                TrialResult {
                    outcome: TrialOutcome::AbnormalExit(status),
                    fault: Some(ReportFault::Delivery),
                    verdict: policy.after_report(),
                },
            ),
            (TrialPhase::Releasing(result), TrialEvent::Released) => TrialPhase::Finished(result),
            _ => self,
        }
    }

    /// The phase reached from this one when `events` are reported in order.
    pub open spec fn run(self, events: Seq<TrialEvent>, policy: ReportPolicy) -> TrialPhase
        decreases events.len(),
    {
        if events.len() == 0 {
            self
        } else {
            self.run(events.drop_last(), policy).step(events.last(), policy)
        }
    }

    /// Whether the trial owns a workspace in this phase.
    pub open spec fn holds_workspace(self) -> bool {
        !(self is Allocating || self is Finished)
    }

    /// Whether the trial owns a process in this phase that has not ended and
    /// has not been terminated.
    pub open spec fn holds_process(self) -> bool {
        self is Running || self is Terminating
    }

    /// The outcome of the trial, once it is decided.
    pub open spec fn outcome(self) -> Option<TrialOutcome> {
        match self {
            TrialPhase::Allocating | TrialPhase::Launching | TrialPhase::Running => None,
            TrialPhase::Capturing(_) => None,
            TrialPhase::Terminating(outcome) => Some(outcome),
            TrialPhase::Triaging(status) => Some(TrialOutcome::AbnormalExit(status)),
            TrialPhase::Reporting(status) => Some(TrialOutcome::AbnormalExit(status)),
            TrialPhase::Releasing(result) => Some(result.outcome),
            TrialPhase::Finished(result) => Some(result.outcome),
        }
    }

    /// Where every trial begins: its workspace is to be allocated.
    pub fn start() -> (phase: TrialPhase)
        ensures
            phase == TrialPhase::initial(),
    {
        TrialPhase::Allocating
    }

    /// The action that the caller performs in this phase.
    pub fn action(self) -> (action: TrialAction)
        ensures
            action == self.next_action(),
    {
        match self {
            TrialPhase::Allocating => TrialAction::AllocateWorkspace,
            TrialPhase::Launching => TrialAction::Launch,
            TrialPhase::Running => TrialAction::Wait,
            TrialPhase::Capturing(_) => TrialAction::CaptureOutput,
            TrialPhase::Terminating(_) => TrialAction::Terminate,
            TrialPhase::Triaging(_) => TrialAction::Triage,
            TrialPhase::Reporting(_) => TrialAction::Report,
            TrialPhase::Releasing(_) => TrialAction::ReleaseWorkspace,
            TrialPhase::Finished(result) => TrialAction::Finish(result),
        }
    }

    /// The phase that follows when the caller reports `event`.
    pub fn on(self, event: TrialEvent, policy: ReportPolicy) -> (next: TrialPhase)
        ensures
            next == self.step(event, policy),
    {
        match self {
            TrialPhase::Allocating => match event {
                TrialEvent::WorkspaceReady => TrialPhase::Launching,
                TrialEvent::WorkspaceFailed => TrialPhase::Finished(
                    settled(TrialOutcome::LaunchError(LaunchFailure::Workspace)),
                ),
                _ => self,
            },
            TrialPhase::Launching => match event {
                TrialEvent::Launched => TrialPhase::Running,
                TrialEvent::LaunchFailed => TrialPhase::Releasing(
                    settled(TrialOutcome::LaunchError(LaunchFailure::Spawn)),
                ),
                _ => self,
            },
            TrialPhase::Running => match event {
                TrialEvent::Exited(status) => TrialPhase::Capturing(status),
                TrialEvent::DeadlineElapsed => TrialPhase::Terminating(TrialOutcome::TimedOut),
                TrialEvent::WaitFailed => TrialPhase::Terminating(
                    TrialOutcome::LaunchError(LaunchFailure::Wait),
                ),
                _ => self,
            },
            TrialPhase::Terminating(outcome) => match event {
                TrialEvent::Terminated => TrialPhase::Releasing(settled(outcome)),
                _ => self,
            },
            TrialPhase::Capturing(status) => match event {
                TrialEvent::OutputCaptured => match classify(status) {
                    TrialOutcome::Success => TrialPhase::Releasing(settled(TrialOutcome::Success)),
                    _ => TrialPhase::Triaging(status),
                },
                TrialEvent::CaptureFailed => TrialPhase::Releasing(
                    settled(TrialOutcome::LaunchError(LaunchFailure::Capture)),
                ),
                _ => self,
            },
            TrialPhase::Triaging(status) => match event {
                TrialEvent::TriageDone => TrialPhase::Reporting(status),
                TrialEvent::TriageFailed => TrialPhase::Releasing(
                    TrialResult {
                        outcome: TrialOutcome::AbnormalExit(status),
                        fault: Some(ReportFault::Triage),
                        verdict: Verdict::Continue,
                    },
                ),
                _ => self,
            },
            TrialPhase::Reporting(status) => {
                let fault = match event {
                    TrialEvent::Reported => None,
                    TrialEvent::ReportFailed => Some(ReportFault::Delivery),
                    _ => {
                        return self;
                    },
                };
                TrialPhase::Releasing(
                    TrialResult {
                        outcome: TrialOutcome::AbnormalExit(status),
                        fault,
                        verdict: policy.verdict_after_report(),
                    },
                )
            },
            TrialPhase::Releasing(result) => match event {
                TrialEvent::Released => TrialPhase::Finished(result),
                _ => self,
            },
            TrialPhase::Finished(_) => self,
        }
    }
}

/// The result of a trial that needed no report.
fn settled(outcome: TrialOutcome) -> (result: TrialResult)
    ensures
        result == TrialResult::plain(outcome),
{
    TrialResult { outcome, fault: None, verdict: Verdict::Continue }
}

// ---------------------------------------------------------------------------
// What holds of every trial
// ---------------------------------------------------------------------------

/// Whether `event` is an answer to `action`.
pub open spec fn answers(action: TrialAction, event: TrialEvent) -> bool {
    match action {
        TrialAction::AllocateWorkspace => event is WorkspaceReady || event is WorkspaceFailed,
        TrialAction::Launch => event is Launched || event is LaunchFailed,
        TrialAction::Wait => event is Exited || event is DeadlineElapsed || event is WaitFailed,
        TrialAction::CaptureOutput => event is OutputCaptured || event is CaptureFailed,
        TrialAction::Terminate => event is Terminated,
        TrialAction::Triage => event is TriageDone || event is TriageFailed,
        TrialAction::Report => event is Reported || event is ReportFailed,
        TrialAction::ReleaseWorkspace => event is Released,
        TrialAction::Finish(_) => false,
    }
}

/// The most answers that a trial in this phase still takes before it is
/// over.
pub open spec fn answers_left(phase: TrialPhase) -> nat {
    match phase {
        TrialPhase::Allocating => 8,
        TrialPhase::Launching => 7,
        TrialPhase::Running => 6,
        TrialPhase::Capturing(_) => 5,
        TrialPhase::Terminating(_) => 2,
        TrialPhase::Triaging(_) => 3,
        TrialPhase::Reporting(_) => 2,
        TrialPhase::Releasing(_) => 1,
        TrialPhase::Finished(_) => 0,
    }
}

/// What holds of every phase that a trial can be in: only a failure is
/// examined and reported, and the result says what happened.
pub open spec fn consistent(phase: TrialPhase, policy: ReportPolicy) -> bool {
    match phase {
        TrialPhase::Terminating(outcome) => outcome == TrialOutcome::TimedOut || outcome
            == TrialOutcome::LaunchError(LaunchFailure::Wait),
        TrialPhase::Triaging(status) => !status.is_success(),
        TrialPhase::Reporting(status) => !status.is_success(),
        TrialPhase::Releasing(result) | TrialPhase::Finished(result) => match result.outcome {
            TrialOutcome::AbnormalExit(status) => {
                &&& !status.is_success()
                &&& result.fault == Some(ReportFault::Triage) ==> result.verdict
                    == Verdict::Continue
                &&& result.fault != Some(ReportFault::Triage) ==> result.verdict
                    == policy.after_report()
            },
            _ => result == TrialResult::plain(result.outcome),
        },
        _ => true,
    }
}

/// Every answer brings a trial closer to its end, and anything else leaves
/// it where it is: a trial is over after eight answers at most.
pub proof fn lemma_trial_progresses(phase: TrialPhase, event: TrialEvent, policy: ReportPolicy)
    ensures
        answers(phase.next_action(), event) ==> answers_left(phase.step(event, policy))
            < answers_left(phase),
        !answers(phase.next_action(), event) ==> phase.step(event, policy) == phase,
        answers_left(phase) == 0 <==> phase is Finished,
{
}

/// A trial is consistent from its beginning to its end, whatever is
/// reported to it.
pub proof fn lemma_trial_stays_consistent(events: Seq<TrialEvent>, policy: ReportPolicy)
    ensures
        consistent(TrialPhase::initial().run(events, policy), policy),
    decreases events.len(),
{
    if events.len() > 0 {
        lemma_trial_stays_consistent(events.drop_last(), policy);
    }
}

/// Logs are examined and a report is made only for a process that ended
/// within the timeout and not with code zero; a process that exited with
/// code zero leads straight to the release of the workspace, as a success
/// after which the run goes on.
pub proof fn lemma_only_failures_are_reported(events: Seq<TrialEvent>, policy: ReportPolicy)
    ensures
        ({
            let phase = TrialPhase::initial().run(events, policy);
            &&& phase.next_action() is Triage || phase.next_action() is Report ==> (
            phase.outcome() matches Some(TrialOutcome::AbnormalExit(status))
                && !status.is_success())
            &&& forall|status: ExitStatus|
                phase == TrialPhase::Capturing(status) && status.is_success() ==> phase.step(
                    TrialEvent::OutputCaptured,
                    policy,
                ) == TrialPhase::Releasing(TrialResult::plain(TrialOutcome::Success))
        }),
{
    lemma_trial_stays_consistent(events, policy);
}

/// Once the outcome of a trial is decided, nothing changes it.
pub proof fn lemma_outcome_is_final(
    phase: TrialPhase,
    events: Seq<TrialEvent>,
    policy: ReportPolicy,
)
    requires
        phase.outcome() is Some,
    ensures
        phase.run(events, policy).outcome() == phase.outcome(),
    decreases events.len(),
{
    if events.len() > 0 {
        lemma_outcome_is_final(phase, events.drop_last(), policy);
    }
}

/// A trial whose process outlives the timeout has the process terminated
/// next, and ends as timed out whatever happens afterwards: never as an
/// abnormal exit, and never with a report.
pub proof fn lemma_timeout_ends_as_timed_out(
    before: Seq<TrialEvent>,
    after: Seq<TrialEvent>,
    policy: ReportPolicy,
)
    requires
        TrialPhase::initial().run(before, policy) is Running,
    ensures
        ({
            let expired = TrialPhase::initial().run(before, policy).step(
                TrialEvent::DeadlineElapsed,
                policy,
            );
            let later = expired.run(after, policy);
            &&& expired.next_action() == TrialAction::Terminate
            &&& later.outcome() == Some(TrialOutcome::TimedOut)
            &&& !(later.next_action() is Triage) && !(later.next_action() is Report)
            &&& later matches TrialPhase::Finished(result) ==> result == TrialResult::plain(
                TrialOutcome::TimedOut,
            )
        }),
{
    let expired = TrialPhase::initial().run(before, policy).step(
        TrialEvent::DeadlineElapsed,
        policy,
    );
    lemma_outcome_is_final(expired, after, policy);
    lemma_timeout_keeps_plain_result(after, policy);
}

/// After a timeout the trial is terminated, released and finished, with
/// nothing added to its result.
proof fn lemma_timeout_keeps_plain_result(after: Seq<TrialEvent>, policy: ReportPolicy)
    ensures
        ({
            let later = TrialPhase::Terminating(TrialOutcome::TimedOut).run(after, policy);
            let plain = TrialResult::plain(TrialOutcome::TimedOut);
            ||| later == TrialPhase::Terminating(TrialOutcome::TimedOut)
            ||| later == TrialPhase::Releasing(plain)
            ||| later == TrialPhase::Finished(plain)
        }),
    decreases after.len(),
{
    if after.len() > 0 {
        lemma_timeout_keeps_plain_result(after.drop_last(), policy);
    }
}

/// A trial gives up its workspace only by releasing it, and its process only
/// when the process has ended or was terminated: no path to the end of a
/// trial leaves either behind.
pub proof fn lemma_nothing_is_left_behind(
    phase: TrialPhase,
    event: TrialEvent,
    policy: ReportPolicy,
)
    ensures
        phase.holds_workspace() && !phase.step(event, policy).holds_workspace() ==> phase
            is Releasing && event is Released,
        phase.holds_process() && !phase.step(event, policy).holds_process() ==> (phase
            is Running && event is Exited) || (phase is Terminating && event is Terminated),
        phase.step(event, policy) is Finished ==> !phase.holds_process(),
{
}

} // verus!
