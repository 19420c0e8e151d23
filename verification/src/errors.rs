use vstd::prelude::*;

verus! {

/// The phase of the transfer pipeline in which a task failed.
#[derive(Clone, Copy, Debug, PartialEq, Eq, Structural)]
pub enum FailureKind {
    /// The source URL was rejected before scheduling.
    Validation,
    /// The destination file already exists and overwriting was disabled.
    DestinationExists,
    /// The request failed at the transport level (connection, name lookup, timeout).
    Transport,
    /// The server answered with a non-success status code.
    ResponseStatus { status: u16 },
    /// Checking for, removing, creating or flushing the destination file failed.
    Filesystem,
    /// Reading the response body or writing a chunk failed mid-transfer.
    Stream,
}

/// A classified per-task failure: which task (by URL and destination) and in
/// which phase it failed.
#[derive(Clone, Debug)]
pub struct DownloadError {
    pub kind: FailureKind,
    pub url: String,
    pub path: String,
}

/// The outcome of one finished task: success, or a classified failure.
#[derive(Debug)]
pub enum TaskOutcome {
    Success,
    Failure(DownloadError),
}

/// A fatal scheduler-level condition: the permit system itself failed.
/// Unlike a per-task failure, it aborts the whole batch.
#[derive(Clone, Copy, Debug, PartialEq, Eq, Structural)]
pub struct SchedulerFatal;

/// Failure to produce a downloader from a builder.
#[derive(Clone, Copy, Debug, PartialEq, Eq, Structural)]
pub enum BuildError {
    /// The builder held no tasks at all.
    NoTasks,
}

/// Failure to load or validate a configuration file.
#[derive(Clone, Copy, Debug, PartialEq, Eq, Structural)]
pub enum ConfigError {
    /// The file could not be read.
    Read,
    /// The file could not be parsed.
    Parse,
    /// The parsed configuration was rejected.
    Invalid,
}

} // verus!
