use flatten::cancel::CancellationGate;
use flatten::flatten::is_transient_error;
use flatten::flatten::on_rename_result;
use flatten::flatten::temp_path_for;
use flatten::flatten::CopyOutcome;
use flatten::flatten::CopyStep;
use flatten::flatten::FlattenResult;
use flatten::flatten::RetryController;
use flatten::flatten::DEFAULT_MAX_RETRIES;
use flatten::flatten::NETWORK_NAME_NOT_FOUND;
use flatten::flatten::NETWORK_PATH_NOT_FOUND;
use flatten::orchestrate::is_affirmative;
use flatten::orchestrate::process_symlinks;
use flatten::orchestrate::run_step;
use flatten::orchestrate::RunAction;
use flatten::orchestrate::RunEvent;
use flatten::orchestrate::RunState;
use flatten::orchestrate::WorkerStep;
use flatten::partition::WorkPartitioner;
use flatten::progress::ProgressTracker;
use flatten::shared::MultiSliceReadWriteLock;

fn cv(s: &str) -> Vec<char> {
    s.chars().collect()
}

#[test]
fn partitioner_hands_out_each_index_once() {
    let mut p = WorkPartitioner::new(3);
    let mut seen = Vec::new();
    while let Some(i) = p.claim() {
        seen.push(i);
    }
    assert_eq!(seen, vec![0, 1, 2]);
    assert!(p.claim().is_none());
    assert_eq!(p.claimed(), 3);
}

#[test]
fn partitioner_empty_set_is_exhausted_at_once() {
    let mut p = WorkPartitioner::new(0);
    assert!(p.claim().is_none());
}

#[test]
fn worker_claims_until_exhausted() {
    let mut p = WorkPartitioner::new(2);
    let gate = CancellationGate::new();
    assert!(matches!(process_symlinks(&mut p, &gate), WorkerStep::Work { index: 0 }));
    assert!(matches!(process_symlinks(&mut p, &gate), WorkerStep::Work { index: 1 }));
    assert!(matches!(process_symlinks(&mut p, &gate), WorkerStep::Stop));
}

#[test]
fn worker_stops_when_cancelled() {
    let mut p = WorkPartitioner::new(5);
    let mut gate = CancellationGate::new();
    assert!(matches!(process_symlinks(&mut p, &gate), WorkerStep::Work { index: 0 }));
    gate.request_cancel();
    assert!(matches!(process_symlinks(&mut p, &gate), WorkerStep::Stop));
}

#[test]
fn cancellation_is_write_once() {
    let mut gate = CancellationGate::new();
    assert!(!gate.is_cancelled());
    gate.request_cancel();
    assert!(gate.is_cancelled());
    gate.request_cancel();
    assert!(gate.is_cancelled());
}

#[test]
fn transient_codes_are_the_two_network_codes() {
    assert!(is_transient_error(Some(NETWORK_PATH_NOT_FOUND)));
    assert!(is_transient_error(Some(NETWORK_NAME_NOT_FOUND)));
    assert!(!is_transient_error(Some(5)));
    assert!(!is_transient_error(None));
}

#[test]
fn temp_path_appends_suffix_after_extension() {
    assert_eq!(temp_path_for(&cv("C:\\A\\foo.txt")), cv("C:\\A\\foo.txt.temp"));
    assert_eq!(temp_path_for(&cv("noext")), cv("noext.temp"));
}

#[test]
fn transient_failures_retry_then_succeed() {
    let mut rc = RetryController::new(DEFAULT_MAX_RETRIES);
    let mut progress = ProgressTracker::new();
    let fail = CopyOutcome::Failed { os_code: Some(NETWORK_PATH_NOT_FOUND) };
    assert!(matches!(rc.on_copy_result(&fail, false), CopyStep::RetryAfterDelay));
    let fail2 = CopyOutcome::Failed { os_code: Some(NETWORK_NAME_NOT_FOUND) };
    assert!(matches!(rc.on_copy_result(&fail2, false), CopyStep::RetryAfterDelay));
    let ok = CopyOutcome::Copied { bytes: 100 };
    let step = rc.on_copy_result(&ok, false);
    assert!(matches!(step, CopyStep::Proceed { bytes: 100 }));
    let verdict = on_rename_result(true, 100);
    assert!(matches!(verdict, FlattenResult::Success { bytes: 100 }));
    progress.record_attempt();
    progress.record_bytes(100);
    assert_eq!(progress.snapshot(), (1, 100));
}

#[test]
fn retry_budget_is_exhausted_after_max_retries() {
    let mut rc = RetryController::new(DEFAULT_MAX_RETRIES);
    let fail = CopyOutcome::Failed { os_code: Some(NETWORK_PATH_NOT_FOUND) };
    assert!(matches!(rc.on_copy_result(&fail, false), CopyStep::RetryAfterDelay));
    assert!(matches!(rc.on_copy_result(&fail, false), CopyStep::RetryAfterDelay));
    assert!(matches!(rc.on_copy_result(&fail, false), CopyStep::RetryAfterDelay));
    let last = rc.on_copy_result(&fail, false);
    assert!(matches!(
        last,
        CopyStep::Abandon { result: FlattenResult::RetryableFailure { os_code: Some(53) } }
    ));
}

#[test]
fn fatal_failure_is_never_retried() {
    let mut rc = RetryController::new(DEFAULT_MAX_RETRIES);
    let fail = CopyOutcome::Failed { os_code: Some(5) };
    let step = rc.on_copy_result(&fail, false);
    assert!(matches!(
        step,
        CopyStep::Abandon { result: FlattenResult::FatalFailure { os_code: Some(5) } }
    ));
    let nocode = CopyOutcome::Failed { os_code: None };
    let step2 = rc.on_copy_result(&nocode, false);
    assert!(matches!(
        step2,
        CopyStep::Abandon { result: FlattenResult::FatalFailure { os_code: None } }
    ));
}

#[test]
fn cancellation_stops_retries() {
    let mut rc = RetryController::new(DEFAULT_MAX_RETRIES);
    let fail = CopyOutcome::Failed { os_code: Some(NETWORK_PATH_NOT_FOUND) };
    let step = rc.on_copy_result(&fail, true);
    assert!(matches!(
        step,
        CopyStep::Abandon { result: FlattenResult::RetryableFailure { .. } }
    ));
}

#[test]
fn rename_failure_is_a_distinct_verdict() {
    let verdict = on_rename_result(false, 42);
    assert!(matches!(verdict, FlattenResult::RenameFailure));
}

#[test]
fn progress_counters_accumulate() {
    let mut progress = ProgressTracker::new();
    assert_eq!(progress.snapshot(), (0, 0));
    progress.record_attempt();
    progress.record_attempt();
    progress.record_bytes(10);
    progress.record_bytes(32);
    assert_eq!(progress.snapshot(), (2, 42));
}

#[test]
fn no_links_reaches_done_without_prompt() {
    let (state, action) = run_step(
        RunState::Discovering,
        RunEvent::Discovered { links: 0, dirs: 7 },
    );
    assert!(matches!(state, RunState::Done { items: 0, bytes: 0 }));
    assert!(matches!(action, RunAction::ReportNoLinks));
}

#[test]
fn decline_reaches_done_with_nothing_processed() {
    let (state, action) = run_step(
        RunState::Discovering,
        RunEvent::Discovered { links: 2, dirs: 1 },
    );
    assert!(matches!(state, RunState::AwaitingConfirmation { links: 2, dirs: 1 }));
    assert!(matches!(action, RunAction::PromptConfirmation { links: 2, dirs: 1 }));
    let (state, action) = run_step(state, RunEvent::ConfirmationAnswer { affirmative: false });
    assert!(matches!(state, RunState::Done { items: 0, bytes: 0 }));
    assert!(matches!(action, RunAction::ReportDeclined));
}

#[test]
fn full_run_reports_totals() {
    let (state, action) = run_step(
        RunState::Discovering,
        RunEvent::Discovered { links: 2, dirs: 1 },
    );
    assert!(matches!(action, RunAction::PromptConfirmation { .. }));
    let (state, action) = run_step(state, RunEvent::ConfirmationAnswer { affirmative: true });
    assert!(matches!(state, RunState::Processing { links: 2 }));
    assert!(matches!(action, RunAction::SpawnWorkers { links: 2 }));
    let (state, action) = run_step(state, RunEvent::ClaimsExhausted);
    assert!(matches!(state, RunState::Draining));
    assert!(matches!(action, RunAction::AwaitWorkers));
    let (state, action) = run_step(state, RunEvent::WorkersJoined { items: 2, bytes: 123 });
    assert!(matches!(state, RunState::Done { items: 2, bytes: 123 }));
    assert!(matches!(action, RunAction::ReportTotals { items: 2, bytes: 123 }));
}

#[test]
fn discovery_failure_reaches_done_directly() {
    let (state, action) = run_step(RunState::Discovering, RunEvent::DiscoveryFailed);
    assert!(matches!(state, RunState::Done { items: 0, bytes: 0 }));
    assert!(matches!(action, RunAction::ReportDiscoveryError));
}

#[test]
fn confirmation_accepts_only_affirmative_first_char() {
    assert!(is_affirmative(&cv("yes\n")));
    assert!(is_affirmative(&cv("Y\n")));
    assert!(is_affirmative(&cv("yup")));
    assert!(!is_affirmative(&cv("no\n")));
    assert!(!is_affirmative(&cv(" maybe")));
    assert!(!is_affirmative(&cv("")));
}

#[test]
fn unrelated_event_is_ignored() {
    let (state, action) = run_step(RunState::Discovering, RunEvent::ClaimsExhausted);
    assert!(matches!(state, RunState::Discovering));
    assert!(matches!(action, RunAction::Ignore));
}

#[test]
fn progress_bytes_saturate_at_ceiling() {
    let mut progress = ProgressTracker::new();
    progress.record_bytes(u64::MAX);
    progress.record_bytes(5);
    assert_eq!(progress.snapshot().1, u64::MAX);
}

#[test]
fn shared_value_reads_back_unchanged() {
    let links = vec![cv("C:\\A\\foo.txt"), cv("C:\\A\\bar.txt")];
    let shared = MultiSliceReadWriteLock::new(links.clone());
    assert_eq!(*shared.read(), links);
}
