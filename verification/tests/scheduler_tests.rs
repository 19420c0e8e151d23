use downloader_cli::errors::{DownloadError, FailureKind, TaskOutcome};
use downloader_cli::scheduler::{BatchRun, PermitCounter};
use downloader_cli::DownloadResult;

fn failure(url: &str) -> DownloadError {
    DownloadError { kind: FailureKind::Validation, url: url.to_string(), path: String::new() }
}

#[test]
fn permit_counter_never_exceeds_the_limit() {
    let mut counter = PermitCounter::new(2);
    assert!(counter.try_acquire());
    assert!(counter.try_acquire());
    assert_eq!(counter.active(), 2);
    // The third acquisition must wait: the limit is never exceeded.
    assert!(!counter.try_acquire());
    assert_eq!(counter.active(), 2);
    counter.release();
    assert_eq!(counter.active(), 1);
    assert!(counter.try_acquire());
    assert!(!counter.try_acquire());
    assert_eq!(counter.limit(), 2);
}

#[test]
fn five_tasks_two_permits_all_succeed() {
    let mut batch = BatchRun::new(5, 2, Vec::new());
    let mut max_active = 0usize;
    while batch.completed() < 5 {
        while batch.try_dispatch() {
            max_active = max_active.max(batch.active());
        }
        assert!(batch.active() <= 2);
        batch.record_outcome(TaskOutcome::Success);
    }
    assert_eq!(max_active, 2);
    let result = batch.finish().unwrap();
    assert_eq!(result.total, 5);
    assert!(result.errors.is_empty());
}

#[test]
fn totals_hold_whatever_the_outcomes() {
    let mut batch = BatchRun::new(3, 1, Vec::new());
    assert!(batch.try_dispatch());
    batch.record_outcome(TaskOutcome::Success);
    assert!(batch.try_dispatch());
    batch.record_outcome(TaskOutcome::Failure(DownloadError {
        kind: FailureKind::Transport,
        url: "https://example.com/a".to_string(),
        path: "a.bin".to_string(),
    }));
    assert!(batch.try_dispatch());
    batch.record_outcome(TaskOutcome::Failure(DownloadError {
        kind: FailureKind::Stream,
        url: "https://example.com/b".to_string(),
        path: "b.bin".to_string(),
    }));
    let result = batch.finish().unwrap();
    assert_eq!(result.total, 3);
    assert_eq!(result.errors.len(), 2);
    assert_eq!(result.errors[0].kind, FailureKind::Transport);
    assert_eq!(result.errors[1].kind, FailureKind::Stream);
    assert_eq!(result.success_count(), 1);
}

#[test]
fn malformed_submission_counts_without_dispatch() {
    // One submission was rejected by validation: it never reaches dispatch,
    // yet it contributes to the total as a classified failure.
    let mut batch = BatchRun::new(0, 1, vec![failure("not a url")]);
    assert!(!batch.try_dispatch());
    assert_eq!(batch.dispatched(), 0);
    let result = batch.finish().unwrap();
    assert_eq!(result.total, 1);
    assert_eq!(result.errors.len(), 1);
    assert_eq!(result.errors[0].kind, FailureKind::Validation);
    assert_eq!(result.errors[0].url, "not a url");
}

#[test]
fn permit_failure_aborts_the_batch() {
    let mut batch = BatchRun::new(4, 2, Vec::new());
    assert!(batch.try_dispatch());
    batch.record_outcome(TaskOutcome::Success);
    batch.on_permit_failure();
    let outcome = batch.finish();
    assert!(outcome.is_err());
}

#[test]
fn dispatch_stops_at_the_task_count() {
    let mut batch = BatchRun::new(1, 3, Vec::new());
    assert!(batch.try_dispatch());
    assert!(!batch.try_dispatch());
    batch.record_outcome(TaskOutcome::Success);
    assert!(!batch.try_dispatch());
    let result = batch.finish().unwrap();
    assert_eq!(result.total, 1);
}

#[test]
fn result_aggregation_is_pure_accumulation() {
    let mut result = DownloadResult::new(2);
    result.record(TaskOutcome::Success);
    result.record(TaskOutcome::Failure(DownloadError {
        kind: FailureKind::ResponseStatus { status: 500 },
        url: "https://example.com/x".to_string(),
        path: "x.bin".to_string(),
    }));
    assert_eq!(result.total, 2);
    assert_eq!(result.errors.len(), 1);
    assert_eq!(result.errors[0].kind, FailureKind::ResponseStatus { status: 500 });
    assert_eq!(result.success_count(), 1);
}
