use vstd::prelude::*;

use crate::errors::DownloadError;
use crate::reporter::{DownloadReporter, Event, ReporterFactory};

verus! {

pub struct RecordingReporterFactory;

impl ReporterFactory for RecordingReporterFactory {
    type Reporter = RecordingReporter;

    fn create(&self) -> RecordingReporter {
        RecordingReporter { events: Vec::new() }
    }
}

/// A test-spy reporter: it keeps every event it is handed, in arrival
/// order, so a test can inspect the full lifecycle of a task.
pub struct RecordingReporter {
    pub events: Vec<Event>,
}

impl RecordingReporter {
    pub fn new() -> (r: RecordingReporter)
        ensures
            r.events@.len() == 0,
    {
        RecordingReporter { events: Vec::new() }
    }
}

impl DownloadReporter for RecordingReporter {
    fn on_request(&mut self, url: &str) {
        self.events.push(Event::Request { url: url.to_owned() });
    }

    fn on_response(&mut self, status: u16) {
        self.events.push(Event::Response { status });
    }

    fn on_file_exists(&mut self, path: &str, overwrite: bool) {
        self.events.push(Event::FileExists { path: path.to_owned(), overwrite });
    }

    fn on_file_create(&mut self, path: &str) {
        self.events.push(Event::FileCreate { path: path.to_owned() });
    }

    fn on_file_size_known(&mut self, size: Option<u64>) {
        self.events.push(Event::SizeKnown { size });
    }

    fn on_start_download(&mut self, url: &str, file: &str) {
        self.events.push(Event::StartDownload { url: url.to_owned(), path: file.to_owned() });
    }

    fn on_progress(&mut self, delta: u64) {
        self.events.push(Event::Progress { delta });
    }

    fn on_complete(&mut self, url: &str, path: &str) {
        self.events.push(Event::Complete { url: url.to_owned(), path: path.to_owned() });
    }

    fn on_error(&mut self, error: &DownloadError) {
        self.events.push(Event::Error { error: error.clone() });
    }
}

} // verus!
