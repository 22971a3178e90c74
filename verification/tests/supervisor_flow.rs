use watchrun::job::{ExitOutcome, JobHandle, JobStatus};
use watchrun::payload::Payload;
use watchrun::plan::ScriptPath;
use watchrun::supervisor::{BatchDirective, CompletionDirective, RunnerV2, SignalKind, TriggerBatch};

fn script(raw: &str, parent: Option<&str>, name: &str) -> ScriptPath {
    ScriptPath::new(
        raw.to_string(),
        parent.map(|p| p.to_string()),
        name.to_string(),
    )
}

fn runner_for(file: ScriptPath, follow: Option<ScriptPath>) -> RunnerV2 {
    let payload = Payload::new(Some(file), follow, Some("/home/me".to_string()));
    RunnerV2::new(payload)
}

fn change_batch() -> TriggerBatch {
    TriggerBatch { has_change: true, signals: Vec::new() }
}

#[test]
fn single_run_reports_elapsed() {
    // A change event starts the watched script; 50ms later it succeeds and
    // the report carries the timing, directory and label. No follow-up runs.
    let mut runner = runner_for(script("proj/build.sh", Some("proj"), "build.sh"), None);
    let d = runner.handle_batch(&change_batch(), 45_296_000);
    assert_eq!(
        d,
        BatchDirective::Start {
            job_id: 0,
            then_job_id: None,
            preempted: None,
            preempted_then: None
        }
    );
    let cd = runner.payload.file_cd();
    assert_eq!(cd, vec!["/home/me".to_string(), "proj".to_string()]);
    let done = runner.handle_completion(0, ExitOutcome::Success, 45_296_050);
    match done {
        CompletionDirective::Finished { start_then, report } => {
            assert_eq!(start_then, None);
            let r = report.expect("a successful run is reported");
            assert_eq!(r.started_at, 45_296_000);
            assert_eq!(r.elapsed_ms, 50);
            assert_eq!(r.directory.as_deref(), Some("proj"));
            assert_eq!(r.command_label, "./build.sh");
        }
        CompletionDirective::Ignore => panic!("completion of the tracked run must count"),
    }
    assert_eq!(
        runner.current,
        Some(JobHandle { id: 0, status: JobStatus::CompletedSuccess })
    );
}

#[test]
fn rapid_triggers_preempt_and_chain() {
    // Two change batches 10ms apart: the first run is cancelled before it
    // completes, its follow-up never starts, and only the second run chains.
    let mut runner = runner_for(
        script("a.sh", None, "a.sh"),
        Some(script("b.sh", None, "b.sh")),
    );
    let d1 = runner.handle_batch(&change_batch(), 1_000);
    assert_eq!(
        d1,
        BatchDirective::Start {
            job_id: 0,
            then_job_id: Some(1),
            preempted: None,
            preempted_then: None
        }
    );
    let d2 = runner.handle_batch(&change_batch(), 1_010);
    assert_eq!(
        d2,
        BatchDirective::Start {
            job_id: 2,
            then_job_id: Some(3),
            preempted: Some(JobHandle { id: 0, status: JobStatus::Cancelled }),
            preempted_then: Some(JobHandle { id: 1, status: JobStatus::Cancelled }),
        }
    );
    // The cancelled first run's completion is stale: no report, no chaining.
    let stale = runner.handle_completion(0, ExitOutcome::Cancelled, 1_500);
    assert_eq!(stale, CompletionDirective::Ignore);
    // The second run completes on its own and starts the follow-up.
    let done = runner.handle_completion(2, ExitOutcome::Success, 1_510);
    match done {
        CompletionDirective::Finished { start_then, report } => {
            assert_eq!(start_then, Some(3));
            let r = report.expect("the second run is reported");
            assert_eq!(r.started_at, 1_010);
            assert_eq!(r.elapsed_ms, 500);
        }
        CompletionDirective::Ignore => panic!("completion of the tracked run must count"),
    }
    assert_eq!(
        runner.pending_then,
        Some(JobHandle { id: 3, status: JobStatus::Running })
    );
}

#[test]
fn interrupt_cancels_without_report() {
    // An interrupt while the script runs: the job is cancelled, nothing is
    // reported, and the supervisor is shut down.
    let mut runner = runner_for(script("a.sh", None, "a.sh"), None);
    runner.handle_batch(&change_batch(), 100);
    let batch = TriggerBatch { has_change: false, signals: vec![SignalKind::Interrupt] };
    let d = runner.handle_batch(&batch, 200);
    assert_eq!(d, BatchDirective::Shutdown);
    assert!(runner.shutdown);
    assert_eq!(
        runner.current,
        Some(JobHandle { id: 0, status: JobStatus::Cancelled })
    );
    let after = runner.handle_completion(0, ExitOutcome::Cancelled, 300);
    assert_eq!(after, CompletionDirective::Ignore);
}

#[test]
fn signal_wins_over_change() {
    // A batch carrying both a change event and an interrupt shuts down; no
    // job id is handed out, so no run was started.
    let mut runner = runner_for(script("a.sh", None, "a.sh"), None);
    let batch = TriggerBatch {
        has_change: true,
        signals: vec![SignalKind::Other, SignalKind::Interrupt],
    };
    let d = runner.handle_batch(&batch, 100);
    assert_eq!(d, BatchDirective::Shutdown);
    assert!(runner.shutdown);
    assert_eq!(runner.next_job_id, 0);
    assert_eq!(runner.current, None);
}

#[test]
fn cancel_is_idempotent() {
    // Cancelling twice equals cancelling once, and a completed job is left
    // untouched by a later cancel.
    let mut job = JobHandle::new(7);
    job.start();
    job.cancel();
    assert_eq!(job, JobHandle { id: 7, status: JobStatus::Cancelled });
    job.cancel();
    assert_eq!(job, JobHandle { id: 7, status: JobStatus::Cancelled });

    let mut finished = JobHandle::new(8);
    finished.start();
    finished.complete(ExitOutcome::Success);
    finished.cancel();
    assert_eq!(
        finished,
        JobHandle { id: 8, status: JobStatus::CompletedSuccess }
    );
}

#[test]
fn single_flight_keeps_one_job_running() {
    // However fast triggers arrive, only the latest job is running; every
    // displaced job is dead before the new one starts.
    let mut runner = runner_for(
        script("a.sh", None, "a.sh"),
        Some(script("b.sh", None, "b.sh")),
    );
    for i in 0..5u64 {
        let d = runner.handle_batch(&change_batch(), 1_000 + i);
        if let BatchDirective::Start { preempted, preempted_then, .. } = d {
            if let Some(p) = preempted {
                assert_eq!(p.status, JobStatus::Cancelled);
            }
            if let Some(p) = preempted_then {
                assert_eq!(p.status, JobStatus::Cancelled);
            }
        } else {
            panic!("every change batch starts a run");
        }
        let mut running = 0;
        if let Some(j) = runner.current {
            if j.status == JobStatus::Running {
                running += 1;
            }
        }
        if let Some(j) = runner.pending_then {
            if j.status == JobStatus::Running {
                running += 1;
            }
        }
        assert_eq!(running, 1);
    }
    assert_eq!(runner.current.unwrap().id, 8);
}

#[test]
fn directory_steps_independent_between_runs() {
    // The cd sequence is the same before and after any number of runs, and
    // always begins at the supervisor's starting directory.
    let mut runner = runner_for(script("proj/a.sh", Some("proj"), "a.sh"), None);
    let before = runner.payload.file_cd();
    runner.handle_batch(&change_batch(), 1);
    runner.handle_completion(0, ExitOutcome::Success, 2);
    runner.handle_batch(&change_batch(), 3);
    let after = runner.payload.file_cd();
    assert_eq!(before, after);
    assert_eq!(before[0], "/home/me");
}

#[test]
fn no_change_batch_is_ignored() {
    // A batch with neither a change event nor an interrupt does nothing.
    let mut runner = runner_for(script("a.sh", None, "a.sh"), None);
    let batch = TriggerBatch { has_change: false, signals: vec![SignalKind::Other] };
    let d = runner.handle_batch(&batch, 100);
    assert_eq!(d, BatchDirective::Ignore);
    assert_eq!(runner.current, None);
    assert_eq!(runner.next_job_id, 0);
}

#[test]
fn unknown_completion_is_ignored() {
    let mut runner = runner_for(script("a.sh", None, "a.sh"), None);
    let d = runner.handle_completion(5, ExitOutcome::Success, 100);
    assert_eq!(d, CompletionDirective::Ignore);
    assert_eq!(runner.current, None);
}

#[test]
fn failure_reports_but_does_not_chain() {
    // A failed (non-cancelled) run is reported, but the follow-up only runs
    // after success.
    let mut runner = runner_for(
        script("a.sh", None, "a.sh"),
        Some(script("b.sh", None, "b.sh")),
    );
    runner.handle_batch(&change_batch(), 1_000);
    let d = runner.handle_completion(0, ExitOutcome::Failure(2), 1_250);
    match d {
        CompletionDirective::Finished { start_then, report } => {
            assert_eq!(start_then, None);
            assert_eq!(report.expect("failures are reported").elapsed_ms, 250);
        }
        CompletionDirective::Ignore => panic!("completion of the tracked run must count"),
    }
    assert_eq!(
        runner.pending_then,
        Some(JobHandle { id: 1, status: JobStatus::Unstarted })
    );
}

#[test]
fn cancelled_outcome_yields_no_report() {
    // A tracked run that ends as cancelled produces neither report nor
    // follow-up.
    let mut runner = runner_for(
        script("a.sh", None, "a.sh"),
        Some(script("b.sh", None, "b.sh")),
    );
    runner.handle_batch(&change_batch(), 1_000);
    let d = runner.handle_completion(0, ExitOutcome::Cancelled, 1_100);
    assert_eq!(
        d,
        CompletionDirective::Finished { start_then: None, report: None }
    );
    assert_eq!(
        runner.current,
        Some(JobHandle { id: 0, status: JobStatus::Cancelled })
    );
}

#[test]
fn completion_with_backwards_clock_reports_zero() {
    let mut runner = runner_for(script("a.sh", None, "a.sh"), None);
    runner.handle_batch(&change_batch(), 1_000);
    let d = runner.handle_completion(0, ExitOutcome::Success, 900);
    match d {
        CompletionDirective::Finished { report, .. } => {
            assert_eq!(report.expect("reported").elapsed_ms, 0);
        }
        CompletionDirective::Ignore => panic!("completion of the tracked run must count"),
    }
}

#[test]
fn has_interrupt_scans_signals() {
    let none = TriggerBatch { has_change: true, signals: Vec::new() };
    assert!(!none.has_interrupt());
    let other = TriggerBatch { has_change: true, signals: vec![SignalKind::Other] };
    assert!(!other.has_interrupt());
    let mixed = TriggerBatch {
        has_change: false,
        signals: vec![SignalKind::Other, SignalKind::Interrupt],
    };
    assert!(mixed.has_interrupt());
}

#[test]
fn startup_lines_announce_watching() {
    let runner = runner_for(
        script("proj/a.sh", Some("proj"), "a.sh"),
        Some(script("b.sh", None, "b.sh")),
    );
    let lines = runner.startup_lines();
    assert_eq!(lines, vec!["Watching: proj/a.sh".to_string(), "Then Running: b.sh".to_string()]);
    let bare = runner_for(script("a.sh", None, "a.sh"), None);
    assert_eq!(bare.startup_lines(), vec!["Watching: a.sh".to_string()]);
}
