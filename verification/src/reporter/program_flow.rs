use vstd::prelude::*;

use crate::config::app::{AppConfig, LogLevel, OutputConfig};

verus! {

/// Decides what the program-level reporter says at each lifecycle point:
/// which configured message applies and whether the log level lets it
/// through. The caller renders what is chosen.
pub struct ProgramReporter {
    pub log_level: LogLevel,
    pub output: OutputConfig,
}

impl ProgramReporter {
    pub open spec fn level(self) -> LogLevel {
        self.log_level
    }

    pub open spec fn output_config(self) -> OutputConfig {
        self.output
    }

    pub fn new(log_level: LogLevel, output: OutputConfig) -> (r: ProgramReporter)
        ensures
            r.level() == log_level,
            r.output_config() == output,
    {
        ProgramReporter { log_level, output }
    }

    /// The message to print when the program starts, if one is configured.
    pub fn start_message(&self) -> (m: &Option<String>)
        ensures
            *m == self.output_config().message_on_start,
    {
        &self.output.message_on_start
    }

    /// The message to print when the program finishes, if one is configured.
    pub fn finish_message(&self) -> (m: &Option<String>)
        ensures
            *m == self.output_config().message_on_finish,
    {
        &self.output.message_on_finish
    }

    /// The message to print when every task succeeded, if one is configured.
    pub fn success_message(&self) -> (m: &Option<String>)
        ensures
            *m == self.output_config().message_on_success,
    {
        &self.output.message_on_success
    }

    /// Whether the failures of a batch are to be shown: only when there are
    /// any and the log level admits errors.
    pub fn should_report_errors(&self, failure_count: usize) -> (r: bool)
        ensures
            r == (failure_count > 0 && self.level().spec_show_errors()),
    {
        failure_count > 0 && self.log_level.show_errors()
    }

    /// Whether the success message is to be shown.
    pub fn should_report_success(&self) -> (r: bool)
        ensures
            r == self.level().spec_show_success(),
    {
        self.log_level.show_success()
    }

    /// Whether the count of successful downloads is to be shown.
    pub fn should_report_summary(&self) -> (r: bool)
        ensures
            r == self.level().spec_show_summary(),
    {
        self.log_level.show_summary()
    }
}

impl From<AppConfig> for ProgramReporter {
    fn from(value: AppConfig) -> (r: ProgramReporter) {
        ProgramReporter { log_level: value.general.log_level, output: value.output }
    }
}

impl vstd::std_specs::convert::FromSpecImpl<AppConfig> for ProgramReporter {
    open spec fn obeys_from_spec() -> bool {
        true
    }

    open spec fn from_spec(value: AppConfig) -> ProgramReporter {
        ProgramReporter { log_level: value.general.log_level, output: value.output }
    }
}

} // verus!
