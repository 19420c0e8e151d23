use downloader_cli::config::app::{
    AppConfig, DownloadConfig, GeneralConfig, OutputConfig, ProgressBarConfig, TomlConfig,
    MAX_PARALLELS_REQUESTS, RETRIES,
};
use downloader_cli::config::{
    config_path_candidates, find_config, load_config, CliConfig, IntoOverwrite, LogLevel,
};
use downloader_cli::errors::DownloadError;
use downloader_cli::reporter::program_flow::ProgramReporter;
use downloader_cli::reporter::recording_reporter::RecordingReporter;
use downloader_cli::reporter::{dispatch_event, DownloadReporter, Event};

fn cli(silent: bool) -> CliConfig {
    CliConfig {
        source: "https://example.com/a".to_string(),
        target: None,
        silent,
        resume: false,
        config: None,
        force: false,
    }
}

#[test]
fn download_defaults_match_the_documented_values() {
    let d = DownloadConfig::default();
    assert_eq!(d.timeout_secs, 30);
    assert_eq!(d.connect_timeout_secs, 5);
    assert_eq!(d.retries, RETRIES);
    assert_eq!(d.retries, 3);
    assert_eq!(d.parallel_requests, MAX_PARALLELS_REQUESTS);
    assert_eq!(d.parallel_requests, 5);
    assert!(d.download_dir.is_none());
}

#[test]
fn progress_bar_defaults_hold_one_entry_each() {
    let p = ProgressBarConfig::default();
    assert!(p.enable);
    assert_eq!(p.max_displayed_filename, 20);
    assert_eq!(
        p.progress_bar_templates,
        vec!["[{elapsed_precise}] {msg:20} {bar:40.cyan/blue} {bytes}/{total_bytes} ({eta})"]
    );
    assert_eq!(p.progress_bar_chars, vec!["▓ ░"]);
    assert_eq!(p.request_spinner_templates, vec!["{spinner} {msg}"]);
    assert_eq!(p.spinner_chars, p.request_spinner_chars);
}

#[test]
fn output_defaults_keep_only_the_closing_messages() {
    let o = OutputConfig::default();
    assert!(o.message_on_start.is_none());
    assert!(o.message_on_errors.is_none());
    assert_eq!(o.message_on_finish.as_deref(), Some("Finish!"));
    assert_eq!(
        o.message_on_success.as_deref(),
        Some("\nAll files downloaded successfully!")
    );
    assert_eq!(
        OutputConfig::default_message_before_request().as_deref(),
        Some("Requesting information about {}")
    );
}

#[test]
fn log_levels_gate_what_is_shown() {
    assert!(LogLevel::All.show_summary());
    assert!(LogLevel::All.show_success());
    assert!(LogLevel::All.show_errors());
    assert!(!LogLevel::ErrorsOnly.show_summary());
    assert!(!LogLevel::ErrorsOnly.show_success());
    assert!(LogLevel::ErrorsOnly.show_errors());
    assert!(!LogLevel::ProgressBarOnly.show_errors());
    assert!(!LogLevel::Silent.show_summary());
    assert!(!LogLevel::Silent.show_success());
    assert!(!LogLevel::Silent.show_errors());
    assert_eq!(LogLevel::default(), LogLevel::All);
}

#[test]
fn silent_flag_overrides_the_file_log_level() {
    let merged = load_config(&cli(true), TomlConfig::default());
    assert_eq!(merged.general.log_level, LogLevel::Silent);
    let kept = load_config(&cli(false), TomlConfig::default());
    assert_eq!(kept.general.log_level, LogLevel::All);
    assert_eq!(kept.download.timeout_secs, 30);
}

#[test]
fn into_overwrite_touches_only_the_log_level() {
    let mut config = TomlConfig::default();
    cli(true).into_overwrite(&mut config);
    assert_eq!(config.general.log_level, LogLevel::Silent);
    assert_eq!(config.download.parallel_requests, 5);
    let mut untouched = TomlConfig::default();
    cli(false).into_overwrite(&mut untouched);
    assert_eq!(untouched.general.log_level, LogLevel::All);
}

#[test]
fn validate_accepts_every_configuration() {
    let config = TomlConfig::default();
    assert!(config.validate().is_ok());
}

#[test]
fn config_candidates_keep_priority_order_and_drop_repeats() {
    let paths = config_path_candidates(
        Some("/custom/dw.toml".to_string()),
        Some("/home/u/.config".to_string()),
        Some("/home/u/.config/dw".to_string()),
        Some("/home/u".to_string()),
    );
    assert_eq!(
        paths,
        vec![
            "/custom/dw.toml",
            "/home/u/.config/dw.toml",
            "/home/u/.config/dw/config.toml",
            "/home/u/.dw.toml",
            "/etc/dw.toml",
        ]
    );
    let no_env = config_path_candidates(None, None, None, None);
    assert_eq!(no_env, vec!["/etc/dw.toml"]);
    let duplicate_override = config_path_candidates(
        Some("/etc/dw.toml".to_string()),
        None,
        None,
        None,
    );
    assert_eq!(duplicate_override, vec!["/etc/dw.toml"]);
}

#[test]
fn find_config_takes_the_first_existing_path() {
    let paths = vec!["/a".to_string(), "/b".to_string(), "/c".to_string()];
    assert_eq!(
        find_config(&paths, &vec![false, true, true]),
        Some("/b".to_string())
    );
    assert_eq!(find_config(&paths, &vec![false, false, false]), None);
}

#[test]
fn program_reporter_follows_config_and_level() {
    let config = AppConfig::from(TomlConfig {
        general: GeneralConfig { log_level: LogLevel::ErrorsOnly, config_path: None },
        download: DownloadConfig::default(),
        progress_bar: ProgressBarConfig::default(),
        output: OutputConfig::default(),
    });
    let reporter = ProgramReporter::from(config);
    assert!(reporter.start_message().is_none());
    assert_eq!(reporter.finish_message().as_deref(), Some("Finish!"));
    assert!(reporter.should_report_errors(1));
    assert!(!reporter.should_report_errors(0));
    assert!(!reporter.should_report_success());
    assert!(!reporter.should_report_summary());
}

#[test]
fn dispatch_event_reaches_the_matching_method() {
    let mut spy = RecordingReporter::new();
    dispatch_event(&mut spy, &Event::Request { url: "https://example.com/a".to_string() });
    dispatch_event(&mut spy, &Event::Progress { delta: 42 });
    let error = DownloadError {
        kind: downloader_cli::errors::FailureKind::Stream,
        url: "https://example.com/a".to_string(),
        path: "a.bin".to_string(),
    };
    dispatch_event(&mut spy, &Event::Error { error });
    assert_eq!(spy.events.len(), 3);
    assert!(matches!(&spy.events[0], Event::Request { url } if url == "https://example.com/a"));
    assert!(matches!(&spy.events[1], Event::Progress { delta: 42 }));
    assert!(matches!(&spy.events[2], Event::Error { .. }));
    // A reporter may also be driven directly through the protocol.
    spy.on_file_size_known(Some(7));
    assert!(matches!(spy.events[3], Event::SizeKnown { size: Some(7) }));
}
