use seed_trials::trial::{
    classify, trial_arguments, ExitStatus, LaunchFailure, ReportFault, ReportPolicy, TrialAction,
    TrialEvent, TrialOutcome, TrialPhase, TrialResult, Verdict, DEFAULT_TIMEOUT_SECS,
};

fn policy(tracker_configured: bool, fail_fast: bool) -> ReportPolicy {
    ReportPolicy { tracker_configured, fail_fast }
}

fn run(events: &[TrialEvent], policy: ReportPolicy) -> TrialPhase {
    let mut phase = TrialPhase::start();
    for event in events {
        phase = phase.on(*event, policy);
    }
    phase
}

#[test]
fn the_command_follows_the_template() {
    let command = trial_arguments("/usr/sbin/fdbserver", "test.toml", "/tmp/w/simfdb", "/tmp/w/logs", 42);
    assert_eq!(
        command,
        vec![
            "/usr/sbin/fdbserver", "-r", "simulation", "-b", "on", "--trace-format", "json", "-f",
            "test.toml", "-d", "/tmp/w/simfdb", "-L", "/tmp/w/logs", "-s", "42",
        ]
    );
    let last = trial_arguments("s", "f", "d", "l", u32::MAX);
    assert_eq!(last[14], "4294967295");
    assert_eq!(DEFAULT_TIMEOUT_SECS, 120);
}

#[test]
fn only_exit_code_zero_is_a_success() {
    assert!(ExitStatus::Exited(0).success());
    assert!(!ExitStatus::Exited(1).success());
    assert!(!ExitStatus::Signaled(0).success());
    assert!(!ExitStatus::Other(0).success());
    assert!(!ExitStatus::Undetermined.success());
    assert_eq!(classify(ExitStatus::Exited(0)), TrialOutcome::Success);
    assert_eq!(
        classify(ExitStatus::Exited(1)),
        TrialOutcome::AbnormalExit(ExitStatus::Exited(1))
    );
    assert_eq!(
        classify(ExitStatus::Signaled(11)),
        TrialOutcome::AbnormalExit(ExitStatus::Signaled(11))
    );
}

#[test]
fn exit_zero_for_seed_42_needs_no_triage_and_no_report() {
    let policy = policy(false, true);
    let mut phase = TrialPhase::start();
    let mut actions = vec![phase.action()];
    for event in [
        TrialEvent::WorkspaceReady,
        TrialEvent::Launched,
        TrialEvent::Exited(ExitStatus::Exited(0)),
        TrialEvent::OutputCaptured,
        TrialEvent::Released,
    ] {
        phase = phase.on(event, policy);
        actions.push(phase.action());
    }
    let result = TrialResult { outcome: TrialOutcome::Success, fault: None, verdict: Verdict::Continue };
    assert_eq!(
        actions,
        vec![
            TrialAction::AllocateWorkspace,
            TrialAction::Launch,
            TrialAction::Wait,
            TrialAction::CaptureOutput,
            TrialAction::ReleaseWorkspace,
            TrialAction::Finish(result),
        ]
    );
    assert!(!result.is_run_level_error());
}

#[test]
fn exit_one_without_a_tracker_is_reported_and_ends_the_run() {
    let events = [
        TrialEvent::WorkspaceReady,
        TrialEvent::Launched,
        TrialEvent::Exited(ExitStatus::Exited(1)),
        TrialEvent::OutputCaptured,
    ];
    let policy = policy(false, false);
    let mut phase = run(&events, policy);
    assert_eq!(phase.action(), TrialAction::Triage);
    phase = phase.on(TrialEvent::TriageDone, policy);
    assert_eq!(phase.action(), TrialAction::Report);
    phase = phase.on(TrialEvent::Reported, policy);
    assert_eq!(phase.action(), TrialAction::ReleaseWorkspace);
    phase = phase.on(TrialEvent::Released, policy);
    assert_eq!(
        phase,
        TrialPhase::Finished(TrialResult {
            outcome: TrialOutcome::AbnormalExit(ExitStatus::Exited(1)),
            fault: None,
            verdict: Verdict::Abort,
        })
    );
}

#[test]
fn a_tracker_keeps_the_run_going_unless_fail_fast() {
    assert_eq!(policy(true, false).verdict_after_report(), Verdict::Continue);
    assert_eq!(policy(true, true).verdict_after_report(), Verdict::Abort);
    assert_eq!(policy(false, false).verdict_after_report(), Verdict::Abort);
    assert_eq!(policy(false, true).verdict_after_report(), Verdict::Abort);
    let events = [
        TrialEvent::WorkspaceReady,
        TrialEvent::Launched,
        TrialEvent::Exited(ExitStatus::Signaled(6)),
        TrialEvent::OutputCaptured,
        TrialEvent::TriageDone,
        TrialEvent::ReportFailed,
        TrialEvent::Released,
    ];
    let lenient = TrialResult {
        outcome: TrialOutcome::AbnormalExit(ExitStatus::Signaled(6)),
        fault: Some(ReportFault::Delivery),
        verdict: Verdict::Continue,
    };
    assert_eq!(run(&events, policy(true, false)), TrialPhase::Finished(lenient));
    assert!(lenient.is_run_level_error());
    let strict = TrialResult { verdict: Verdict::Abort, ..lenient };
    assert_eq!(run(&events, policy(true, true)), TrialPhase::Finished(strict));
}

#[test]
fn a_timeout_terminates_the_process_and_is_no_abnormal_exit() {
    let policy = policy(false, true);
    let mut phase = run(&[TrialEvent::WorkspaceReady, TrialEvent::Launched], policy);
    assert_eq!(phase.action(), TrialAction::Wait);
    phase = phase.on(TrialEvent::DeadlineElapsed, policy);
    assert_eq!(phase.action(), TrialAction::Terminate);
    phase = phase.on(TrialEvent::Terminated, policy);
    assert_eq!(phase.action(), TrialAction::ReleaseWorkspace);
    phase = phase.on(TrialEvent::Released, policy);
    let result = TrialResult { outcome: TrialOutcome::TimedOut, fault: None, verdict: Verdict::Continue };
    assert_eq!(phase.action(), TrialAction::Finish(result));
    assert!(!result.is_run_level_error());
}

#[test]
fn failures_of_the_steps_are_launch_errors() {
    let policy = policy(true, false);
    let plain = |failure| TrialResult {
        outcome: TrialOutcome::LaunchError(failure),
        fault: None,
        verdict: Verdict::Continue,
    };
    assert_eq!(
        run(&[TrialEvent::WorkspaceFailed], policy),
        TrialPhase::Finished(plain(LaunchFailure::Workspace))
    );
    assert_eq!(
        run(&[TrialEvent::WorkspaceReady, TrialEvent::LaunchFailed], policy),
        TrialPhase::Releasing(plain(LaunchFailure::Spawn))
    );
    assert_eq!(
        run(
            &[TrialEvent::WorkspaceReady, TrialEvent::Launched, TrialEvent::WaitFailed],
            policy
        ),
        TrialPhase::Terminating(TrialOutcome::LaunchError(LaunchFailure::Wait))
    );
    assert_eq!(
        run(
            &[
                TrialEvent::WorkspaceReady,
                TrialEvent::Launched,
                TrialEvent::Exited(ExitStatus::Exited(0)),
                TrialEvent::CaptureFailed,
            ],
            policy
        ),
        TrialPhase::Releasing(plain(LaunchFailure::Capture))
    );
    assert!(plain(LaunchFailure::Spawn).is_run_level_error());
}

#[test]
fn a_failed_triage_is_an_error_and_the_run_goes_on() {
    let events = [
        TrialEvent::WorkspaceReady,
        TrialEvent::Launched,
        TrialEvent::Exited(ExitStatus::Exited(3)),
        TrialEvent::OutputCaptured,
        TrialEvent::TriageFailed,
        TrialEvent::Released,
    ];
    let result = TrialResult {
        outcome: TrialOutcome::AbnormalExit(ExitStatus::Exited(3)),
        fault: Some(ReportFault::Triage),
        verdict: Verdict::Continue,
    };
    assert_eq!(run(&events, policy(false, true)), TrialPhase::Finished(result));
    assert!(result.is_run_level_error());
}

#[test]
fn events_that_answer_nothing_change_nothing() {
    let policy = policy(true, true);
    assert_eq!(run(&[TrialEvent::Launched], policy), TrialPhase::Allocating);
    assert_eq!(run(&[TrialEvent::WorkspaceReady, TrialEvent::Released], policy), TrialPhase::Launching);
    let done = run(&[TrialEvent::WorkspaceFailed], policy);
    assert_eq!(done.on(TrialEvent::WorkspaceReady, policy), done);
}
