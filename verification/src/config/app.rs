use vstd::prelude::*;

verus! {

/// Default number of network permits: how many transfer pipelines may run
/// their network phase at once.
pub const MAX_PARALLELS_REQUESTS: usize = 5;

/// Default retry budget. The engine treats every attempt as single-shot;
/// re-attempting is a caller-level concern.
pub const RETRIES: usize = 3;

/// The merged application configuration the engine is driven with.
#[derive(Clone, Debug)]
pub struct AppConfig {
    pub general: GeneralConfig,
    pub download: DownloadConfig,
    pub progress_bar: ProgressBarConfig,
    pub output: OutputConfig,
}

impl From<TomlConfig> for AppConfig {
    fn from(value: TomlConfig) -> (r: AppConfig) {
        AppConfig {
            general: value.general,
            download: value.download,
            progress_bar: value.progress_bar,
            output: value.output,
        }
    }
}

impl vstd::std_specs::convert::FromSpecImpl<TomlConfig> for AppConfig {
    open spec fn obeys_from_spec() -> bool {
        true
    }

    open spec fn from_spec(value: TomlConfig) -> AppConfig {
        AppConfig {
            general: value.general,
            download: value.download,
            progress_bar: value.progress_bar,
            output: value.output,
        }
    }
}

/// The configuration as a configuration file holds it, section by section,
/// before merging with the command line.
#[derive(Clone, Debug)]
pub struct TomlConfig {
    pub general: GeneralConfig,
    pub download: DownloadConfig,
    pub progress_bar: ProgressBarConfig,
    pub output: OutputConfig,
}

impl TomlConfig {
    /// Reject a configuration the engine cannot run with. Every
    /// configuration is currently accepted unchanged.
    pub fn validate(self) -> (r: Result<TomlConfig, crate::errors::ConfigError>)
        ensures
            r matches Ok(c) && c == self,
    {
        Ok(self)
    }
}

impl Default for TomlConfig {
    fn default() -> (r: TomlConfig)
        ensures
            r.general.log_level is All,
            r.general.config_path is None,
            r.download.timeout_secs == 30,
            r.download.connect_timeout_secs == 5,
            r.download.retries == RETRIES,
            r.download.parallel_requests == MAX_PARALLELS_REQUESTS,
            r.download.download_dir is None,
    {
        TomlConfig {
            general: GeneralConfig::default(),
            download: DownloadConfig::default(),
            progress_bar: ProgressBarConfig::default(),
            output: OutputConfig::default(),
        }
    }
}

#[derive(Clone, Debug)]
pub struct GeneralConfig {
    pub log_level: LogLevel,
    pub config_path: Option<String>,
}

impl Default for GeneralConfig {
    fn default() -> (r: GeneralConfig)
        ensures
            r.log_level is All,
            r.config_path is None,
    {
        GeneralConfig { log_level: LogLevel::All, config_path: None }
    }
}

#[derive(Clone, Debug)]
pub struct DownloadConfig {
    pub timeout_secs: u64,
    pub connect_timeout_secs: u64,
    pub retries: usize,
    pub parallel_requests: usize,
    pub download_dir: Option<String>,
}

impl DownloadConfig {
    pub fn default_timeout() -> (r: u64)
        ensures
            r == 30,
    {
        30
    }

    pub fn default_retries() -> (r: usize)
        ensures
            r == RETRIES,
    {
        RETRIES
    }

    pub fn default_connect_timeout() -> (r: u64)
        ensures
            r == 5,
    {
        5
    }

    pub fn default_parallel_requests() -> (r: usize)
        ensures
            r == MAX_PARALLELS_REQUESTS,
    {
        MAX_PARALLELS_REQUESTS
    }
}

impl Default for DownloadConfig {
    fn default() -> (r: DownloadConfig)
        ensures
            r.timeout_secs == 30,
            r.connect_timeout_secs == 5,
            r.retries == RETRIES,
            r.parallel_requests == MAX_PARALLELS_REQUESTS,
            r.download_dir is None,
    {
        DownloadConfig {
            timeout_secs: Self::default_timeout(),
            retries: Self::default_retries(),
            download_dir: None,
            connect_timeout_secs: Self::default_connect_timeout(),
            parallel_requests: Self::default_parallel_requests(),
        }
    }
}

#[derive(Clone, Debug)]
pub struct ProgressBarConfig {
    pub enable: bool,
    pub max_displayed_filename: usize,
    pub progress_bar_templates: Vec<String>,
    pub progress_bar_chars: Vec<String>,
    pub spinner_templates: Vec<String>,
    pub spinner_chars: Vec<String>,
    pub request_spinner_templates: Vec<String>,
    pub request_spinner_chars: Vec<String>,
}

impl ProgressBarConfig {
    pub fn default_max_displayed_filename() -> (r: usize)
        ensures
            r == 20,
    {
        20
    }

    pub fn default_progress_bar_templates() -> (r: Vec<String>)
        ensures
            r@.len() == 1,
            r@[0]@ == "[{elapsed_precise}] {msg:20} {bar:40.cyan/blue} {bytes}/{total_bytes} ({eta})"@,
    {
        let mut templates: Vec<String> = Vec::new();
        templates.push(
            "[{elapsed_precise}] {msg:20} {bar:40.cyan/blue} {bytes}/{total_bytes} ({eta})".to_owned(),
        );
        templates
    }

    pub fn default_progress_bar_chars() -> (r: Vec<String>)
        ensures
            r@.len() == 1,
            r@[0]@ == "▓ ░"@,
    {
        let mut chars: Vec<String> = Vec::new();
        chars.push("▓ ░".to_owned());
        chars
    }

    pub fn default_spinner_templates() -> (r: Vec<String>)
        ensures
            r@.len() == 1,
            r@[0]@ == "{spinner:.green} [{elapsed_precise}] {msg:20} {bytes} ({bytes_per_sec})"@,
    {
        let mut templates: Vec<String> = Vec::new();
        templates.push(
            "{spinner:.green} [{elapsed_precise}] {msg:20} {bytes} ({bytes_per_sec})".to_owned(),
        );
        templates
    }

    pub fn default_spinner_chars() -> (r: Vec<String>)
        ensures
            r@.len() == 1,
            r@[0]@ == "⠁⠂⠄⡀⢀⠠⠐⠈⠘⠰⠔⠑⠊ "@,
    {
        let mut chars: Vec<String> = Vec::new();
        chars.push("⠁⠂⠄⡀⢀⠠⠐⠈⠘⠰⠔⠑⠊ ".to_owned());
        chars
    }

    pub fn default_request_spinner_templates() -> (r: Vec<String>)
        ensures
            r@.len() == 1,
            r@[0]@ == "{spinner} {msg}"@,
    {
        let mut templates: Vec<String> = Vec::new();
        templates.push("{spinner} {msg}".to_owned());
        templates
    }
}

impl Default for ProgressBarConfig {
    fn default() -> (r: ProgressBarConfig)
        ensures
            r.enable,
            r.max_displayed_filename == 20,
            r.progress_bar_templates@.len() == 1,
            r.progress_bar_chars@.len() == 1,
            r.spinner_templates@.len() == 1,
            r.spinner_chars@.len() == 1,
            r.request_spinner_templates@.len() == 1,
            r.request_spinner_chars@.len() == 1,
    {
        ProgressBarConfig {
            enable: default_true(),
            progress_bar_templates: Self::default_progress_bar_templates(),
            progress_bar_chars: Self::default_progress_bar_chars(),
            spinner_templates: Self::default_spinner_templates(),
            spinner_chars: Self::default_spinner_chars(),
            request_spinner_templates: Self::default_request_spinner_templates(),
            request_spinner_chars: Self::default_spinner_chars(),
            max_displayed_filename: Self::default_max_displayed_filename(),
        }
    }
}

#[derive(Clone, Debug)]
pub struct OutputConfig {
    pub message_on_start: Option<String>,
    pub message_on_errors: Option<String>,
    pub message_on_success: Option<String>,
    pub message_on_finish: Option<String>,
    pub message_on_request: Option<String>,
    pub message_on_response: Option<String>,
    pub message_on_file_exists: Option<String>,
    pub message_on_file_create: Option<String>,
    pub message_on_file_size_known: Option<String>,
    pub message_on_start_download: Option<String>,
}

impl OutputConfig {
    pub fn default_message_before_request() -> (r: Option<String>)
        ensures
            r matches Some(m) && m@ == "Requesting information about {}"@,
    {
        Some("Requesting information about {}".to_owned())
    }

    pub fn default_message_on_finish() -> (r: Option<String>)
        ensures
            r matches Some(m) && m@ == "Finish!"@,
    {
        Some("Finish!".to_owned())
    }

    pub fn default_message_on_success() -> (r: Option<String>)
        ensures
            r matches Some(m) && m@ == "\nAll files downloaded successfully!"@,
    {
        Some("\nAll files downloaded successfully!".to_owned())
    }
}

impl Default for OutputConfig {
    fn default() -> (r: OutputConfig)
        ensures
            r.message_on_start is None,
            r.message_on_errors is None,
            r.message_on_success matches Some(m) && m@ == "\nAll files downloaded successfully!"@,
            r.message_on_finish matches Some(m) && m@ == "Finish!"@,
            r.message_on_request is None,
            r.message_on_response is None,
            r.message_on_file_exists is None,
            r.message_on_file_create is None,
            r.message_on_file_size_known is None,
            r.message_on_start_download is None,
    {
        OutputConfig {
            message_on_request: None,
            message_on_response: None,
            message_on_file_exists: None,
            message_on_file_create: None,
            message_on_file_size_known: None,
            message_on_start_download: None,
            message_on_success: Self::default_message_on_success(),
            message_on_start: None,
            message_on_errors: None,
            message_on_finish: Self::default_message_on_finish(),
        }
    }
}

/// Which progress indicator a reporter renders.
#[derive(Clone, Copy, Debug, PartialEq, Eq, Structural)]
pub enum ProgressBarType {
    Spinner,
    ProgressBar,
}

/// How much the program says on the console.
#[derive(Clone, Copy, Debug, PartialEq, Eq, Structural)]
pub enum LogLevel {
    All,
    ErrorsOnly,
    ProgressBarOnly,
    Silent,
}

impl LogLevel {
    pub open spec fn spec_show_summary(self) -> bool {
        self is All
    }

    pub open spec fn spec_show_success(self) -> bool {
        self is All
    }

    pub open spec fn spec_show_errors(self) -> bool {
        self is All || self is ErrorsOnly
    }

    pub fn show_summary(self) -> (r: bool)
        ensures
            r == self.spec_show_summary(),
    {
        self == LogLevel::All
    }

    pub fn show_success(self) -> (r: bool)
        ensures
            r == self.spec_show_success(),
    {
        self == LogLevel::All
    }

    pub fn show_errors(self) -> (r: bool)
        ensures
            r == self.spec_show_errors(),
    {
        self == LogLevel::All || self == LogLevel::ErrorsOnly
    }
}

impl Default for LogLevel {
    fn default() -> (r: LogLevel)
        ensures
            r is All,
    {
        LogLevel::All
    }
}

pub fn default_true() -> (r: bool)
    ensures
        r,
{
    true
}

} // verus!
