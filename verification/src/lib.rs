//! A concurrent download engine.
//!
//! The library models the four parts of the engine: the task list and its
//! builder, the bounded scheduler that limits how many transfers hold a
//! network permit at once, the per-task transfer pipeline that walks one
//! download through its phases and reports every lifecycle event, and the
//! aggregator that folds all task outcomes into one `DownloadResult`.
//!
//! All I/O (the HTTP client, the filesystem, console rendering) lives with
//! the caller: the engine decides, the caller performs.

use vstd::prelude::*;

pub mod builder;
pub mod config;
pub mod errors;
pub mod naming;
pub mod pipeline;
pub mod reporter;
pub mod scheduler;
pub mod urls;

use crate::builder::DownloaderBuilder;
use crate::config::app::MAX_PARALLELS_REQUESTS;
use crate::errors::{DownloadError, FailureKind, TaskOutcome};
use crate::urls::{parse_accepts, url_accepted};

verus! {

/// One unit of work: a source URL, a destination path, and an overwrite flag.
#[derive(Clone, Debug)]
pub struct DownloadTask {
    pub url: String,
    pub output: String,
    pub overwrite: bool,
}

/// The outcome of a whole batch: how many tasks were submitted, and the
/// failures in the order their tasks finished.
#[derive(Debug)]
pub struct DownloadResult {
    pub total: usize,
    pub errors: Vec<DownloadError>,
}

impl DownloadResult {
    /// A fresh result for a batch of `total` submitted tasks; no failures yet.
    pub fn new(total: usize) -> (r: DownloadResult)
        ensures
            r.total == total,
            r.errors@.len() == 0,
    {
        DownloadResult { total, errors: Vec::new() }
    }

    /// How many tasks of the batch succeeded.
    pub fn success_count(&self) -> (n: usize)
        requires
            self.errors@.len() <= self.total,
        ensures
            n == self.total - self.errors@.len(),
    {
        self.total - self.errors.len()
    }

    /// Fold one task outcome into the result: a failure is appended, a
    /// success leaves the failure list alone, and the total never changes.
    pub fn record(&mut self, outcome: TaskOutcome)
        ensures
            final(self).total == old(self).total,
            match outcome {
                TaskOutcome::Success => final(self).errors@ == old(self).errors@,
                TaskOutcome::Failure(e) => final(self).errors@ == old(self).errors@.push(e),
            },
    {
        match outcome {
            TaskOutcome::Success => {}
            TaskOutcome::Failure(e) => self.errors.push(e),
        }
    }
}

/// The accepted tasks of `tasks`, in order: those whose URL the URL parser
/// accepts.
pub open spec fn accepted_tasks_of(tasks: Seq<DownloadTask>) -> Seq<DownloadTask>
    decreases tasks.len(),
{
    if tasks.len() == 0 {
        Seq::empty()
    } else if url_accepted(tasks.last().url@) {
        accepted_tasks_of(tasks.drop_last()).push(tasks.last())
    } else {
        accepted_tasks_of(tasks.drop_last())
    }
}

/// The rejected tasks of `tasks`, in order: those whose URL the URL parser
/// refuses.
pub open spec fn rejected_tasks_of(tasks: Seq<DownloadTask>) -> Seq<DownloadTask>
    decreases tasks.len(),
{
    if tasks.len() == 0 {
        Seq::empty()
    } else if url_accepted(tasks.last().url@) {
        rejected_tasks_of(tasks.drop_last())
    } else {
        rejected_tasks_of(tasks.drop_last()).push(tasks.last())
    }
}

/// Law: URL validation splits a submission list exactly: every submitted
/// task is either accepted or rejected, so the rejected ones still count
/// towards a batch's total.
pub proof fn lemma_validation_partitions(tasks: Seq<DownloadTask>)
    ensures
        accepted_tasks_of(tasks).len() + rejected_tasks_of(tasks).len() == tasks.len(),
    decreases tasks.len(),
{
    if tasks.len() > 0 {
        lemma_validation_partitions(tasks.drop_last());
    }
}

/// The accepted strings of `urls`, in order.
pub open spec fn accepted_urls_of(urls: Seq<String>) -> Seq<String>
    decreases urls.len(),
{
    if urls.len() == 0 {
        Seq::empty()
    } else if url_accepted(urls.last()@) {
        accepted_urls_of(urls.drop_last()).push(urls.last())
    } else {
        accepted_urls_of(urls.drop_last())
    }
}

/// The rejected strings of `urls`, in order.
pub open spec fn rejected_urls_of(urls: Seq<String>) -> Seq<String>
    decreases urls.len(),
{
    if urls.len() == 0 {
        Seq::empty()
    } else if url_accepted(urls.last()@) {
        rejected_urls_of(urls.drop_last())
    } else {
        rejected_urls_of(urls.drop_last()).push(urls.last())
    }
}

/// Whitespace for the purpose of skipping blank lines in a source file.
pub open spec fn is_space_char(c: char) -> bool {
    c == ' ' || c == '\t' || c == '\r' || c == '\n'
}

/// The line holds nothing but whitespace.
pub open spec fn is_blank_line(s: Seq<char>) -> bool {
    forall|i: int| 0 <= i < s.len() ==> is_space_char(#[trigger] s[i])
}

/// For each non-blank line, in order: the URL it holds, and the
/// destination under `dir` named after that URL.
pub open spec fn planned_downloads(lines: Seq<String>, dir: Seq<char>) -> Seq<(Seq<char>, Seq<char>)>
    decreases lines.len(),
{
    if lines.len() == 0 {
        Seq::empty()
    } else {
        let rest = planned_downloads(lines.drop_last(), dir);
        if is_blank_line(lines.last()@) {
            rest
        } else {
            rest.push(
                (lines.last()@, dir + "/"@ + crate::naming::sanitize_spec(lines.last()@)),
            )
        }
    }
}

/// Whether the line holds nothing but whitespace.
pub fn is_blank(s: &str) -> (r: bool)
    ensures
        r == is_blank_line(s@),
{
    let n = s.unicode_len();
    let mut i: usize = 0;
    while i < n
        invariant
            i <= n,
            n == s@.len(),
            forall|j: int| 0 <= j < i ==> is_space_char(#[trigger] s@[j]),
        decreases n - i,
    {
        let c = s.get_char(i);
        if !(c == ' ' || c == '\t' || c == '\r' || c == '\n') {
            proof {
                assert(!is_space_char(s@[i as int]));
            }
            return false;
        }
        i = i + 1;
    }
    true
}

/// The task for a single-URL source: the destination is the given target,
/// or, when none is given, a filename derived from the URL.
pub fn direct_task(source: &str, destination: Option<String>, force: bool) -> (t: DownloadTask)
    ensures
        t.url@ == source@,
        t.overwrite == force,
        match destination {
            Some(d) => t.output == d,
            None => t.output@ == crate::naming::sanitize_spec(source@),
        },
{
    let output = match destination {
        Some(d) => d,
        None => DownloadTask::sanitize_filename(source),
    };
    DownloadTask { url: source.to_owned(), output, overwrite: force }
}

/// One task per non-blank line of a source file: the line is the URL, the
/// destination lives in the given directory and is named after the URL.
pub fn tasks_from_lines(lines: &Vec<String>, destination_dir: &str, overwrite: bool) -> (ts: Vec<
    DownloadTask,
>)
    ensures
        ts@.len() == planned_downloads(lines@, destination_dir@).len(),
        forall|i: int| 0 <= i < ts@.len() ==> {
            &&& (#[trigger] ts@[i]).url@ == planned_downloads(lines@, destination_dir@)[i].0
            &&& ts@[i].output@ == planned_downloads(lines@, destination_dir@)[i].1
            &&& ts@[i].overwrite == overwrite
        },
{
    let ghost all = lines@;
    let ghost dir = destination_dir@;
    let n = lines.len();
    let mut ts: Vec<DownloadTask> = Vec::new();
    let mut i: usize = 0;
    while i < n
        invariant
            i <= n,
            n == all.len(),
            all == lines@,
            dir == destination_dir@,
            ts@.len() == planned_downloads(all.take(i as int), dir).len(),
            forall|j: int| 0 <= j < ts@.len() ==> {
                &&& (#[trigger] ts@[j]).url@ == planned_downloads(all.take(i as int), dir)[j].0
                &&& ts@[j].output@ == planned_downloads(all.take(i as int), dir)[j].1
                &&& ts@[j].overwrite == overwrite
            },
        decreases n - i,
    {
        proof {
            assert(all.take(i as int + 1).drop_last() =~= all.take(i as int));
            assert(all.take(i as int + 1).last() == all[i as int]);
        }
        let line = &lines[i];
        if !is_blank(line.as_str()) {
            let name = DownloadTask::sanitize_filename(line.as_str());
            let output = destination_dir.to_owned().concat("/").concat(name.as_str());
            let url = line.as_str().to_owned();
            ts.push(DownloadTask { url, output, overwrite });
        }
        i = i + 1;
    }
    proof {
        assert(all.take(n as int) =~= all);
    }
    ts
}

/// Holds the tasks of one batch and the configured permit count. The HTTP
/// client that performs the transfers is the caller's; the downloader owns
/// only what the engine decides with.
pub struct Downloader {
    tasks: Vec<DownloadTask>,
    parallel_requests: usize,
}

impl Downloader {
    /// The retained task list.
    pub closed spec fn task_seq(self) -> Seq<DownloadTask> {
        self.tasks@
    }

    /// The configured number of network permits.
    pub closed spec fn permit_limit(self) -> usize {
        self.parallel_requests
    }

    /// A downloader with no tasks and the default permit count.
    pub fn new() -> (d: Downloader)
        ensures
            d.task_seq().len() == 0,
            d.permit_limit() == MAX_PARALLELS_REQUESTS,
    {
        Downloader { tasks: Vec::new(), parallel_requests: MAX_PARALLELS_REQUESTS }
    }

    pub fn builder() -> (b: DownloaderBuilder)
        ensures
            b.task_seq().len() == 0,
            b.retry_count() == crate::config::app::RETRIES,
            b.permit_limit() == MAX_PARALLELS_REQUESTS,
    {
        DownloaderBuilder::new()
    }

    pub(crate) fn from_parts(tasks: Vec<DownloadTask>, parallel_requests: usize) -> (d: Downloader)
        ensures
            d.task_seq() == tasks@,
            d.permit_limit() == parallel_requests,
    {
        Downloader { tasks, parallel_requests }
    }

    /// Add a download task.
    pub fn add_task(&mut self, task: DownloadTask)
        ensures
            final(self).task_seq() == old(self).task_seq().push(task),
            final(self).permit_limit() == old(self).permit_limit(),
    {
        self.tasks.push(task);
    }

    pub fn task_count(&self) -> (n: usize)
        ensures
            n == self.task_seq().len(),
    {
        self.tasks.len()
    }

    pub fn is_empty(&self) -> (r: bool)
        ensures
            r == (self.task_seq().len() == 0),
    {
        self.tasks.is_empty()
    }

    /// The retained task list, for a non-destructive run: the caller may
    /// walk it and run the batch again later.
    pub fn tasks(&self) -> (ts: &Vec<DownloadTask>)
        ensures
            ts@ == self.task_seq(),
    {
        &self.tasks
    }

    /// Drain the task list, for a consuming run: afterwards the downloader
    /// holds no tasks, so each task runs at most once overall.
    pub fn take_tasks(&mut self) -> (ts: Vec<DownloadTask>)
        ensures
            ts@ == old(self).task_seq(),
            final(self).task_seq().len() == 0,
            final(self).permit_limit() == old(self).permit_limit(),
    {
        let mut ts: Vec<DownloadTask> = Vec::new();
        core::mem::swap(&mut ts, &mut self.tasks);
        ts
    }

    /// The configured number of network permits.
    pub fn parallel_request_count(&self) -> (n: usize)
        ensures
            n == self.permit_limit(),
    {
        self.parallel_requests
    }

    /// Whether the URL parser accepts the string.
    pub fn is_valid_url(url: &str) -> (r: bool)
        ensures
            r == url_accepted(url@),
    {
        parse_accepts(url)
    }

    /// Split the strings into those the URL parser accepts, in order, and a
    /// validation failure for each it refuses, in order.
    pub fn validate_urls(urls: Vec<String>) -> (r: (Vec<String>, Vec<DownloadError>))
        ensures
            r.0@ == accepted_urls_of(urls@),
            r.1@.len() == rejected_urls_of(urls@).len(),
            forall|i: int| 0 <= i < r.1@.len() ==> {
                &&& (#[trigger] r.1@[i]).kind is Validation
                &&& r.1@[i].url == rejected_urls_of(urls@)[i]
                &&& r.1@[i].path@.len() == 0
            },
    {
        let ghost orig: Seq<String> = urls@;
        let mut rest = urls;
        let mut valid_urls: Vec<String> = Vec::new();
        let mut failures: Vec<DownloadError> = Vec::new();
        let ghost mut k: int = 0;
        while rest.len() > 0
            invariant
                0 <= k <= orig.len(),
                rest@ =~= orig.skip(k),
                valid_urls@ == accepted_urls_of(orig.take(k)),
                failures@.len() == rejected_urls_of(orig.take(k)).len(),
                forall|i: int| 0 <= i < failures@.len() ==> {
                    &&& (#[trigger] failures@[i]).kind is Validation
                    &&& failures@[i].url == rejected_urls_of(orig.take(k))[i]
                    &&& failures@[i].path@.len() == 0
                },
            decreases rest.len(),
        {
            let url_string = rest.remove(0);
            proof {
                assert(url_string == orig[k]);
                assert(orig.take(k + 1).drop_last() =~= orig.take(k));
                assert(orig.take(k + 1).last() == orig[k]);
            }
            let accepted = parse_accepts(url_string.as_str());
            if accepted {
                valid_urls.push(url_string);
            } else {
                let path = "".to_owned();
                proof {
                    reveal_strlit("");
                }
                failures.push(DownloadError { kind: FailureKind::Validation, url: url_string, path });
            }
            proof {
                k = k + 1;
                assert(rest@ =~= orig.skip(k));
            }
        }
        proof {
            assert(orig.take(k) =~= orig);
        }
        (valid_urls, failures)
    }
}

} // verus!
