use vstd::prelude::*;

use crate::errors::DownloadError;
use crate::reporter::{DownloadReporter, ReporterFactory};

verus! {

pub struct SilentReporterFactory;

impl ReporterFactory for SilentReporterFactory {
    type Reporter = SilentReporter;

    fn create(&self) -> SilentReporter {
        SilentReporter {}
    }
}

/// A reporter that ignores every event: silent mode.
pub struct SilentReporter;

impl DownloadReporter for SilentReporter {
    fn on_request(&mut self, url: &str) {
    }

    fn on_response(&mut self, status: u16) {
    }

    fn on_file_exists(&mut self, path: &str, overwrite: bool) {
    }

    fn on_file_create(&mut self, path: &str) {
    }

    fn on_file_size_known(&mut self, size: Option<u64>) {
    }

    fn on_start_download(&mut self, url: &str, file: &str) {
    }

    fn on_progress(&mut self, delta: u64) {
    }

    fn on_complete(&mut self, url: &str, path: &str) {
    }

    fn on_error(&mut self, error: &DownloadError) {
    }
}

} // verus!
