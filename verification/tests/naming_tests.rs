use downloader_cli::builder::DownloaderBuilder;
use downloader_cli::errors::{BuildError, FailureKind};
use downloader_cli::{direct_task, tasks_from_lines, DownloadTask, Downloader};

#[test]
fn test_get_filename() {
    assert_eq!(
        DownloadTask::sanitize_filename("https://example.com/file.txt"),
        "file.txt"
    );
    assert_eq!(
        DownloadTask::sanitize_filename("https://example.com/file.txt?param=value"),
        "file.txt"
    );
    assert_eq!(
        DownloadTask::sanitize_filename("https://example.com/file.txt#fragment"),
        "file.txt"
    );
    assert_eq!(
        DownloadTask::sanitize_filename("https://example.com/file.txt?param=value#fragment"),
        "file.txt"
    );
    assert_eq!(
        DownloadTask::sanitize_filename("https://example.com/"),
        "example_com"
    );
    assert_eq!(
        DownloadTask::sanitize_filename("https://example.com/page/1/"),
        "example_com_page_1"
    );
    assert_eq!(
        DownloadTask::sanitize_filename("https://example.com/page/1/?param=value#fragment"),
        "example_com_page_1_param_value_fragment"
    );
}

#[test]
fn sanitize_handles_plain_names_and_length_cap() {
    assert_eq!(DownloadTask::sanitize_filename("no scheme at all"), "no_scheme_at_all");
    assert_eq!(DownloadTask::sanitize_filename(""), "temp");
    assert_eq!(DownloadTask::sanitize_filename("https://"), "");
    assert_eq!(
        DownloadTask::sanitize_filename("https://example.com/\u{444}\u{430}\u{439}\u{43b}.txt"),
        ".txt"
    );
    let long = format!("https://example.com/{}.txt", "a".repeat(200));
    let name = DownloadTask::sanitize_filename(&long);
    assert_eq!(name.chars().count(), 100);
    assert!(name.starts_with("aaaa"));
}

#[test]
fn url_validation_follows_the_parser() {
    assert!(Downloader::is_valid_url("https://example.com/file.txt"));
    assert!(!Downloader::is_valid_url("not a url"));
    assert!(!Downloader::is_valid_url(""));
}

#[test]
fn validate_urls_partitions_in_order() {
    let urls = vec![
        "https://example.com/a".to_string(),
        "not a url".to_string(),
        "https://example.com/b".to_string(),
        "also bad".to_string(),
    ];
    let (valid, failures) = Downloader::validate_urls(urls);
    assert_eq!(valid, vec!["https://example.com/a", "https://example.com/b"]);
    assert_eq!(failures.len(), 2);
    assert_eq!(failures[0].kind, FailureKind::Validation);
    assert_eq!(failures[0].url, "not a url");
    assert_eq!(failures[1].url, "also bad");
}

#[test]
fn builder_splits_valid_and_invalid_tasks() {
    let mut builder = DownloaderBuilder::new();
    builder.add_task("https://example.com/a", "a.bin".to_string(), false);
    builder.add_task("not a url", "b.bin".to_string(), true);
    let (downloader, failures) = builder.build().unwrap();
    assert_eq!(downloader.task_count(), 1);
    assert_eq!(failures.len(), 1);
    assert_eq!(failures[0].kind, FailureKind::Validation);
    assert_eq!(failures[0].url, "not a url");
    assert_eq!(failures[0].path, "b.bin");
}

#[test]
fn builder_without_tasks_is_refused() {
    let builder = DownloaderBuilder::new();
    let outcome = builder.build();
    assert!(matches!(outcome, Err(BuildError::NoTasks)));
}

#[test]
fn builder_settings_carry_over() {
    let builder = DownloaderBuilder::new().with_retries(7).with_parallel_requests(2);
    let mut builder = builder;
    builder.add_task("https://example.com/a", "a.bin".to_string(), false);
    let (downloader, failures) = builder.build().unwrap();
    assert!(failures.is_empty());
    assert_eq!(downloader.parallel_request_count(), 2);
}

#[test]
fn downloader_task_list_modes() {
    let mut downloader = Downloader::new();
    assert!(downloader.is_empty());
    downloader.add_task(DownloadTask {
        url: "https://example.com/a".to_string(),
        output: "a.bin".to_string(),
        overwrite: false,
    });
    assert_eq!(downloader.task_count(), 1);
    assert_eq!(downloader.tasks().len(), 1);
    let drained = downloader.take_tasks();
    assert_eq!(drained.len(), 1);
    assert!(downloader.is_empty());
}

#[test]
fn direct_task_uses_target_or_derived_name() {
    let with_target = direct_task("https://example.com/f.txt", Some("out.bin".to_string()), true);
    assert_eq!(with_target.output, "out.bin");
    assert!(with_target.overwrite);
    let derived = direct_task("https://example.com/f.txt", None, false);
    assert_eq!(derived.output, "f.txt");
    assert!(!derived.overwrite);
}

#[test]
fn tasks_from_lines_skips_blank_lines() {
    let lines = vec![
        "https://example.com/a.txt".to_string(),
        "   ".to_string(),
        "".to_string(),
        "https://example.com/dir/b.txt".to_string(),
    ];
    let tasks = tasks_from_lines(&lines, "downloads", true);
    assert_eq!(tasks.len(), 2);
    assert_eq!(tasks[0].url, "https://example.com/a.txt");
    assert_eq!(tasks[0].output, "downloads/a.txt");
    assert_eq!(tasks[1].output, "downloads/b.txt");
    assert!(tasks[1].overwrite);
}
