use downloader_cli::errors::{FailureKind, TaskOutcome};
use downloader_cli::pipeline::{Phase, TaskPipeline};
use downloader_cli::reporter::recording_reporter::RecordingReporter;
use downloader_cli::reporter::silent_reporter::SilentReporter;
use downloader_cli::reporter::Event;
use downloader_cli::DownloadTask;

fn task(url: &str, output: &str, overwrite: bool) -> DownloadTask {
    DownloadTask { url: url.to_string(), output: output.to_string(), overwrite }
}

fn progress_sum(events: &[Event]) -> u64 {
    let mut sum = 0u64;
    for e in events {
        if let Event::Progress { delta } = e {
            sum += delta;
        }
    }
    sum
}

#[test]
fn existing_destination_without_overwrite_never_requests() {
    let mut reporter = RecordingReporter::new();
    let mut pipeline = TaskPipeline::new(task("https://example.com/a", "a.bin", false));
    pipeline.on_exists_checked(true, &mut reporter);
    assert_eq!(pipeline.current_phase(), Phase::Done);
    match pipeline.outcome() {
        Some(TaskOutcome::Failure(e)) => {
            assert_eq!(e.kind, FailureKind::DestinationExists);
            assert_eq!(e.url, "https://example.com/a");
            assert_eq!(e.path, "a.bin");
        }
        _ => panic!("expected a destination-exists failure"),
    }
    let log = pipeline.log();
    assert_eq!(log.len(), 2);
    assert!(matches!(&log[0], Event::FileExists { overwrite: false, .. }));
    assert!(matches!(&log[1], Event::Error { .. }));
    assert!(!log.iter().any(|e| matches!(e, Event::Request { .. })));
    assert!(!reporter.events.iter().any(|e| matches!(e, Event::Request { .. })));
    // Nothing was removed, created or written: the destination stays as it was.
    assert!(!log.iter().any(|e| matches!(e, Event::FileCreate { .. } | Event::Progress { .. })));
}

#[test]
fn overwrite_replaces_the_file_with_the_body() {
    let mut reporter = RecordingReporter::new();
    let mut pipeline = TaskPipeline::new(task("https://example.com/a", "a.bin", true));
    let mut file: Option<Vec<u8>> = Some(b"old content".to_vec());

    pipeline.on_exists_checked(true, &mut reporter);
    assert_eq!(pipeline.current_phase(), Phase::RemovePending);
    file = None;
    pipeline.on_removed(true, &mut reporter);
    assert_eq!(pipeline.current_phase(), Phase::RequestPending);
    pipeline.start_request(&mut reporter);
    pipeline.on_response(200, Some(11), &mut reporter);
    assert_eq!(pipeline.current_phase(), Phase::CreatePending);
    file = Some(Vec::new());
    pipeline.on_file_created(true, &mut reporter);
    assert_eq!(pipeline.current_phase(), Phase::Streaming);
    for chunk in [&b"hello "[..], &b"world"[..]] {
        file.as_mut().unwrap().extend_from_slice(chunk);
        pipeline.on_chunk(chunk, &mut reporter);
    }
    pipeline.on_stream_end(true, &mut reporter);

    assert_eq!(pipeline.current_phase(), Phase::Done);
    assert!(matches!(pipeline.outcome(), Some(TaskOutcome::Success)));
    assert_eq!(file.unwrap(), b"hello world".to_vec());
    let log = pipeline.log();
    assert!(matches!(&log[0], Event::FileExists { overwrite: true, .. }));
    assert!(matches!(log.last().unwrap(), Event::Complete { .. }));
    assert_eq!(log.iter().filter(|e| matches!(e, Event::SizeKnown { size: Some(11) })).count(), 1);
}

#[test]
fn progress_deltas_sum_to_bytes_written() {
    let mut reporter = RecordingReporter::new();
    let mut pipeline = TaskPipeline::new(task("https://example.com/a", "a.bin", false));
    let mut written: Vec<u8> = Vec::new();

    pipeline.on_exists_checked(false, &mut reporter);
    pipeline.start_request(&mut reporter);
    pipeline.on_response(204, None, &mut reporter);
    pipeline.on_file_created(true, &mut reporter);
    for chunk in [&b"abc"[..], &b""[..], &b"defgh"[..], &b"i"[..]] {
        written.extend_from_slice(chunk);
        pipeline.on_chunk(chunk, &mut reporter);
    }
    pipeline.on_stream_end(true, &mut reporter);

    assert_eq!(progress_sum(pipeline.log()), written.len() as u64);
    assert_eq!(progress_sum(&reporter.events), written.len() as u64);
    assert_eq!(progress_sum(pipeline.log()), 9);
}

#[test]
fn status_404_fails_without_creating_the_file() {
    let mut reporter = RecordingReporter::new();
    let mut pipeline = TaskPipeline::new(task("https://example.com/missing", "m.bin", false));
    pipeline.on_exists_checked(false, &mut reporter);
    pipeline.start_request(&mut reporter);
    pipeline.on_response(404, None, &mut reporter);
    assert_eq!(pipeline.current_phase(), Phase::Done);
    match pipeline.outcome() {
        Some(TaskOutcome::Failure(e)) => {
            assert_eq!(e.kind, FailureKind::ResponseStatus { status: 404 });
        }
        _ => panic!("expected a response-status failure"),
    }
    let log = pipeline.log();
    assert!(!log.iter().any(|e| matches!(e, Event::FileCreate { .. })));
    assert!(matches!(log.last().unwrap(), Event::Error { .. }));
}

#[test]
fn transport_error_fails_without_creating_the_file() {
    let mut reporter = SilentReporter {};
    let mut pipeline = TaskPipeline::new(task("https://unreachable.example", "u.bin", false));
    pipeline.on_exists_checked(false, &mut reporter);
    pipeline.start_request(&mut reporter);
    pipeline.on_transport_error(&mut reporter);
    match pipeline.outcome() {
        Some(TaskOutcome::Failure(e)) => assert_eq!(e.kind, FailureKind::Transport),
        _ => panic!("expected a transport failure"),
    }
    assert!(!pipeline.log().iter().any(|e| matches!(e, Event::FileCreate { .. })));
}

#[test]
fn filesystem_failures_are_classified() {
    // The existence check itself fails.
    let mut reporter = RecordingReporter::new();
    let mut pipeline = TaskPipeline::new(task("https://example.com/a", "a.bin", false));
    pipeline.on_exists_check_failed(&mut reporter);
    match pipeline.outcome() {
        Some(TaskOutcome::Failure(e)) => assert_eq!(e.kind, FailureKind::Filesystem),
        _ => panic!("expected a filesystem failure"),
    }

    // Removing the existing destination fails.
    let mut pipeline = TaskPipeline::new(task("https://example.com/a", "a.bin", true));
    pipeline.on_exists_checked(true, &mut reporter);
    pipeline.on_removed(false, &mut reporter);
    match pipeline.outcome() {
        Some(TaskOutcome::Failure(e)) => assert_eq!(e.kind, FailureKind::Filesystem),
        _ => panic!("expected a filesystem failure"),
    }

    // Creating the destination fails.
    let mut pipeline = TaskPipeline::new(task("https://example.com/a", "a.bin", false));
    pipeline.on_exists_checked(false, &mut reporter);
    pipeline.start_request(&mut reporter);
    pipeline.on_response(200, None, &mut reporter);
    pipeline.on_file_created(false, &mut reporter);
    match pipeline.outcome() {
        Some(TaskOutcome::Failure(e)) => assert_eq!(e.kind, FailureKind::Filesystem),
        _ => panic!("expected a filesystem failure"),
    }

    // Flushing at the end fails.
    let mut pipeline = TaskPipeline::new(task("https://example.com/a", "a.bin", false));
    pipeline.on_exists_checked(false, &mut reporter);
    pipeline.start_request(&mut reporter);
    pipeline.on_response(200, None, &mut reporter);
    pipeline.on_file_created(true, &mut reporter);
    pipeline.on_chunk(b"abc", &mut reporter);
    pipeline.on_stream_end(false, &mut reporter);
    match pipeline.outcome() {
        Some(TaskOutcome::Failure(e)) => assert_eq!(e.kind, FailureKind::Filesystem),
        _ => panic!("expected a filesystem failure"),
    }
}

#[test]
fn stream_error_keeps_the_partial_file() {
    let mut reporter = RecordingReporter::new();
    let mut pipeline = TaskPipeline::new(task("https://example.com/a", "a.bin", false));
    let mut file: Vec<u8> = Vec::new();
    pipeline.on_exists_checked(false, &mut reporter);
    pipeline.start_request(&mut reporter);
    pipeline.on_response(200, Some(100), &mut reporter);
    file.clear();
    pipeline.on_file_created(true, &mut reporter);
    file.extend_from_slice(b"partial");
    pipeline.on_chunk(b"partial", &mut reporter);
    pipeline.on_stream_error(&mut reporter);
    match pipeline.outcome() {
        Some(TaskOutcome::Failure(e)) => assert_eq!(e.kind, FailureKind::Stream),
        _ => panic!("expected a stream failure"),
    }
    // The partially written destination is left in place, by design.
    assert_eq!(file, b"partial".to_vec());
    assert_eq!(progress_sum(pipeline.log()), 7);
}

#[test]
fn every_lifecycle_ends_in_exactly_one_terminal_event() {
    let mut reporter = RecordingReporter::new();
    let mut pipeline = TaskPipeline::new(task("https://example.com/a", "a.bin", false));
    pipeline.on_exists_checked(false, &mut reporter);
    pipeline.start_request(&mut reporter);
    pipeline.on_response(200, None, &mut reporter);
    pipeline.on_file_created(true, &mut reporter);
    pipeline.on_stream_end(true, &mut reporter);
    let log = pipeline.log();
    let terminal = log
        .iter()
        .filter(|e| matches!(e, Event::Complete { .. } | Event::Error { .. }))
        .count();
    assert_eq!(terminal, 1);
    assert!(matches!(log.last().unwrap(), Event::Complete { .. }));
    // The reporter saw exactly the pipeline's log, in order.
    assert_eq!(reporter.events.len(), log.len());
}

#[test]
fn reporter_event_order_matches_the_phases() {
    let mut reporter = RecordingReporter::new();
    let mut pipeline = TaskPipeline::new(task("https://example.com/a", "a.bin", true));
    pipeline.on_exists_checked(true, &mut reporter);
    pipeline.on_removed(true, &mut reporter);
    pipeline.start_request(&mut reporter);
    pipeline.on_response(200, Some(3), &mut reporter);
    pipeline.on_file_created(true, &mut reporter);
    pipeline.on_chunk(b"abc", &mut reporter);
    pipeline.on_stream_end(true, &mut reporter);
    let kinds: Vec<&'static str> = reporter
        .events
        .iter()
        .map(|e| match e {
            Event::FileExists { .. } => "file_exists",
            Event::Request { .. } => "request",
            Event::Response { .. } => "response",
            Event::SizeKnown { .. } => "size_known",
            Event::FileCreate { .. } => "file_create",
            Event::StartDownload { .. } => "start_download",
            Event::Progress { .. } => "progress",
            Event::Complete { .. } => "complete",
            Event::Error { .. } => "error",
        })
        .collect();
    assert_eq!(
        kinds,
        vec![
            "file_exists",
            "request",
            "response",
            "size_known",
            "file_create",
            "start_download",
            "progress",
            "complete",
        ]
    );
}

#[test]
fn take_outcome_surrenders_the_result() {
    let mut reporter = SilentReporter {};
    let mut pipeline = TaskPipeline::new(task("https://example.com/a", "a.bin", false));
    pipeline.on_exists_checked(false, &mut reporter);
    pipeline.start_request(&mut reporter);
    pipeline.on_transport_error(&mut reporter);
    assert_eq!(pipeline.size_hint(), None);
    match pipeline.take_outcome() {
        TaskOutcome::Failure(e) => assert_eq!(e.kind, FailureKind::Transport),
        TaskOutcome::Success => panic!("expected a failure"),
    }
}
