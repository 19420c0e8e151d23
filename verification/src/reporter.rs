use vstd::prelude::*;

pub mod program_flow;
pub mod recording_reporter;
pub mod silent_reporter;

use crate::errors::DownloadError;

verus! {

/// One lifecycle event of a task's transfer pipeline, in the order the
/// pipeline hands events to its reporter.
#[derive(Debug)]
pub enum Event {
    /// The destination already existed; `overwrite` is the decision taken.
    FileExists { path: String, overwrite: bool },
    /// The request for `url` is about to be sent.
    Request { url: String },
    /// A response arrived with this status code.
    Response { status: u16 },
    /// The response declared a content length, or declared none.
    SizeKnown { size: Option<u64> },
    /// The destination file was created.
    FileCreate { path: String },
    /// The streamed copy begins.
    StartDownload { url: String, path: String },
    /// One chunk of `delta` bytes was appended to the destination.
    Progress { delta: u64 },
    /// The task finished; the whole body now lives at `path`.
    Complete { url: String, path: String },
    /// The task failed with this classified error.
    Error { error: DownloadError },
}

/// The capability a transfer pipeline reports into: one method per
/// lifecycle point. Calls for one task arrive strictly sequentially and in
/// pipeline phase order; the protocol assumes nothing about rendering.
pub trait DownloadReporter {
    fn on_request(&mut self, url: &str);

    fn on_response(&mut self, status: u16);

    fn on_file_exists(&mut self, path: &str, overwrite: bool);

    fn on_file_create(&mut self, path: &str);

    fn on_file_size_known(&mut self, size: Option<u64>);

    fn on_start_download(&mut self, url: &str, file: &str);

    fn on_progress(&mut self, delta: u64);

    fn on_complete(&mut self, url: &str, path: &str);

    fn on_error(&mut self, error: &DownloadError);
}

/// Makes one reporter per task, so that a shared display can give every
/// task its own line.
pub trait ReporterFactory {
    type Reporter: DownloadReporter;

    fn create(&self) -> Self::Reporter;
}

/// Program-level lifecycle observer: start, finish, and the batch verdict.
pub trait ProgramFlowReporter {
    fn on_start(&mut self);

    fn on_finish(&mut self);

    fn on_errors(&mut self, errors: Vec<DownloadError>);

    fn on_success(&mut self);
}

/// Hand one event to the reporter by calling the one method that matches it.
pub fn dispatch_event<R: DownloadReporter>(reporter: &mut R, event: &Event) {
    match event {
        Event::FileExists { path, overwrite } => reporter.on_file_exists(path.as_str(), *overwrite),
        Event::Request { url } => reporter.on_request(url.as_str()),
        Event::Response { status } => reporter.on_response(*status),
        Event::SizeKnown { size } => reporter.on_file_size_known(*size),
        Event::FileCreate { path } => reporter.on_file_create(path.as_str()),
        Event::StartDownload { url, path } => {
            reporter.on_start_download(url.as_str(), path.as_str())
        }
        Event::Progress { delta } => reporter.on_progress(*delta),
        Event::Complete { url, path } => reporter.on_complete(url.as_str(), path.as_str()),
        Event::Error { error } => reporter.on_error(error),
    }
}

} // verus!
