use vstd::prelude::*;

use crate::errors::{DownloadError, FailureKind, TaskOutcome};
use crate::reporter::{dispatch_event, DownloadReporter, Event};
use crate::DownloadTask;

verus! {

/// Where a task's transfer pipeline stands.
#[derive(Clone, Copy, Debug, PartialEq, Eq, Structural)]
pub enum Phase {
    /// Before the existing-file check.
    Init,
    /// The destination existed and overwriting is allowed: remove it first.
    RemovePending,
    /// The destination is clear: the request may go out. A network permit
    /// is due between here and the request.
    RequestPending,
    /// The request went out; no response yet.
    AwaitingResponse,
    /// The response was accepted: create the destination file.
    CreatePending,
    /// Chunks of the body are being appended to the destination.
    Streaming,
    /// The task finished, with an outcome.
    Done,
}

/// Whether a status code counts as success: the 2xx range.
pub open spec fn status_success(status: u16) -> bool {
    200 <= status < 300
}

pub open spec fn is_terminal_event(e: Event) -> bool {
    match e {
        Event::Complete { .. } => true,
        Event::Error { .. } => true,
        _ => false,
    }
}

pub open spec fn is_request_event(e: Event) -> bool {
    match e {
        Event::Request { .. } => true,
        _ => false,
    }
}

pub open spec fn progress_delta_of(e: Event) -> int {
    match e {
        Event::Progress { delta } => delta as int,
        _ => 0,
    }
}

/// How many terminal events (completion or error) the log holds.
pub open spec fn terminal_count(log: Seq<Event>) -> int
    decreases log.len(),
{
    if log.len() == 0 {
        0
    } else {
        terminal_count(log.drop_last()) + if is_terminal_event(log.last()) {
            1int
        } else {
            0int
        }
    }
}

/// How many request events the log holds.
pub open spec fn request_count(log: Seq<Event>) -> int
    decreases log.len(),
{
    if log.len() == 0 {
        0
    } else {
        request_count(log.drop_last()) + if is_request_event(log.last()) {
            1int
        } else {
            0int
        }
    }
}

/// The sum of all progress deltas reported in the log.
pub open spec fn progress_total(log: Seq<Event>) -> int
    decreases log.len(),
{
    if log.len() == 0 {
        0
    } else {
        progress_total(log.drop_last()) + progress_delta_of(log.last())
    }
}

/// All chunk byte sequences joined in order.
pub open spec fn joined(chunks: Seq<Seq<u8>>) -> Seq<u8>
    decreases chunks.len(),
{
    if chunks.len() == 0 {
        Seq::empty()
    } else {
        joined(chunks.drop_last()) + chunks.last()
    }
}

/// Where an event stands in the fixed phase order of the pipeline. Later
/// phases have higher ranks; the two terminal events share the last rank.
pub open spec fn event_rank(e: Event) -> int {
    match e {
        Event::FileExists { .. } => 0,
        Event::Request { .. } => 1,
        Event::Response { .. } => 2,
        Event::SizeKnown { .. } => 3,
        Event::FileCreate { .. } => 4,
        Event::StartDownload { .. } => 5,
        Event::Progress { .. } => 6,
        Event::Complete { .. } => 7,
        Event::Error { .. } => 7,
    }
}

/// The events stand in phase order: ranks never decrease along the log.
pub open spec fn ranks_ordered(log: Seq<Event>) -> bool {
    forall|i: int, j: int|
        0 <= i <= j < log.len() ==> event_rank(#[trigger] log[i]) <= event_rank(#[trigger] log[j])
}

/// The highest event rank a log may hold while the pipeline stands in this
/// phase.
pub open spec fn phase_rank_cap(phase: Phase) -> int {
    match phase {
        Phase::Init => 0,
        Phase::RemovePending => 0,
        Phase::RequestPending => 0,
        Phase::AwaitingResponse => 1,
        Phase::CreatePending => 3,
        Phase::Streaming => 6,
        Phase::Done => 7,
    }
}

/// Pushing an event that ranks at least as high as everything before it
/// keeps the log in phase order, and the new event's rank caps the log.
proof fn lemma_ordered_push(log: Seq<Event>, e: Event, cap: int)
    requires
        ranks_ordered(log),
        forall|i: int| 0 <= i < log.len() ==> event_rank(#[trigger] log[i]) <= cap,
        cap <= event_rank(e),
    ensures
        ranks_ordered(log.push(e)),
        forall|i: int|
            0 <= i < log.push(e).len() ==> event_rank(#[trigger] log.push(e)[i]) <= event_rank(e),
{
    assert forall|i: int, j: int| 0 <= i <= j < log.push(e).len() implies event_rank(
        #[trigger] log.push(e)[i],
    ) <= event_rank(#[trigger] log.push(e)[j]) by {
        if j < log.len() {
            assert(log.push(e)[i] == log[i]);
            assert(log.push(e)[j] == log[j]);
        } else {
            assert(log.push(e)[j] == e);
            if i < log.len() {
                assert(log.push(e)[i] == log[i]);
            }
        }
    }
}

/// The log `grown` is `prior` with exactly `n` events appended.
pub open spec fn extends_by(grown: Seq<Event>, prior: Seq<Event>, n: int) -> bool {
    &&& grown.len() == prior.len() + n
    &&& grown.take(prior.len() as int) == prior
}

pub open spec fn ev_file_exists(e: Event, path: Seq<char>, overwrite: bool) -> bool {
    match e {
        Event::FileExists { path: p, overwrite: o } => p@ == path && o == overwrite,
        _ => false,
    }
}

pub open spec fn ev_request(e: Event, url: Seq<char>) -> bool {
    match e {
        Event::Request { url: u } => u@ == url,
        _ => false,
    }
}

pub open spec fn ev_response(e: Event, status: u16) -> bool {
    match e {
        Event::Response { status: s } => s == status,
        _ => false,
    }
}

pub open spec fn ev_size_known(e: Event, size: Option<u64>) -> bool {
    match e {
        Event::SizeKnown { size: s } => s == size,
        _ => false,
    }
}

pub open spec fn ev_file_create(e: Event, path: Seq<char>) -> bool {
    match e {
        Event::FileCreate { path: p } => p@ == path,
        _ => false,
    }
}

pub open spec fn ev_start_download(e: Event, url: Seq<char>, path: Seq<char>) -> bool {
    match e {
        Event::StartDownload { url: u, path: p } => u@ == url && p@ == path,
        _ => false,
    }
}

pub open spec fn ev_progress(e: Event, delta: u64) -> bool {
    match e {
        Event::Progress { delta: d } => d == delta,
        _ => false,
    }
}

pub open spec fn ev_complete(e: Event, url: Seq<char>, path: Seq<char>) -> bool {
    match e {
        Event::Complete { url: u, path: p } => u@ == url && p@ == path,
        _ => false,
    }
}

pub open spec fn ev_error(e: Event, kind: FailureKind, url: Seq<char>, path: Seq<char>) -> bool {
    match e {
        Event::Error { error } => error.kind == kind && error.url@ == url && error.path@ == path,
        _ => false,
    }
}

/// Runs one task through the fixed phase order: existing-file check,
/// request, status validation, size discovery, file creation, streamed
/// copy, flush and completion. The caller performs each outside step (the
/// filesystem probe, the request, the writes) and feeds the result back;
/// the pipeline decides what follows, reports every lifecycle event, and
/// classifies every failure.
pub struct TaskPipeline {
    task: DownloadTask,
    phase: Phase,
    size_hint: Option<u64>,
    outcome: Option<TaskOutcome>,
    log: Vec<Event>,
    chunks: Ghost<Seq<Seq<u8>>>,
}

impl TaskPipeline {
    pub closed spec fn state(self) -> Phase {
        self.phase
    }

    pub closed spec fn url_view(self) -> Seq<char> {
        self.task.url@
    }

    pub closed spec fn output_view(self) -> Seq<char> {
        self.task.output@
    }

    pub closed spec fn overwrite_flag(self) -> bool {
        self.task.overwrite
    }

    pub closed spec fn size_hint_view(self) -> Option<u64> {
        self.size_hint
    }

    pub closed spec fn outcome_view(self) -> Option<TaskOutcome> {
        self.outcome
    }

    pub closed spec fn log_view(self) -> Seq<Event> {
        self.log@
    }

    /// The chunks accepted so far, each as its byte sequence.
    pub closed spec fn chunk_views(self) -> Seq<Seq<u8>> {
        self.chunks@
    }

    /// Every byte the pipeline has accepted for the destination, in order.
    pub open spec fn written(self) -> Seq<u8> {
        joined(self.chunk_views())
    }

    /// The task fields never change over the pipeline's life.
    pub open spec fn same_task(self, other: TaskPipeline) -> bool {
        &&& self.url_view() == other.url_view()
        &&& self.output_view() == other.output_view()
        &&& self.overwrite_flag() == other.overwrite_flag()
    }

    /// The outcome is a failure of the given kind, naming the failed task.
    pub open spec fn failed_with(self, kind: FailureKind) -> bool {
        match self.outcome_view() {
            Some(TaskOutcome::Failure(e)) => {
                &&& e.kind == kind
                &&& e.url@ == self.url_view()
                &&& e.path@ == self.output_view()
            },
            _ => false,
        }
    }

    /// Well-formedness, kept by every step:
    /// - the progress deltas reported so far sum exactly to the bytes
    ///   accepted for the destination;
    /// - the log holds a terminal event exactly once the pipeline is done,
    ///   and that event is its last and agrees with the outcome;
    /// - a task refused over an existing destination never saw a request
    ///   event, and no request event is ever emitted before the request
    ///   phase;
    /// - the events stand in the fixed phase order, and none ranks beyond
    ///   what the current phase allows.
    pub closed spec fn wf(self) -> bool {
        &&& progress_total(self.log@) == self.written().len()
        &&& ranks_ordered(self.log@)
        &&& (forall|i: int|
            0 <= i < self.log@.len() ==> event_rank(#[trigger] self.log@[i]) <= phase_rank_cap(
                self.phase,
            ))
        &&& (self.phase is Done <==> self.outcome is Some)
        &&& (!(self.phase is Done) ==> terminal_count(self.log@) == 0)
        &&& (self.phase is Done ==> {
            &&& self.log@.len() >= 1
            &&& is_terminal_event(self.log@.last())
            &&& terminal_count(self.log@) == 1
            &&& match self.outcome {
                Some(TaskOutcome::Success) => ev_complete(
                    self.log@.last(),
                    self.task.url@,
                    self.task.output@,
                ),
                Some(TaskOutcome::Failure(e)) => {
                    &&& ev_error(self.log@.last(), e.kind, self.task.url@, self.task.output@)
                    &&& e.url@ == self.task.url@
                    &&& e.path@ == self.task.output@
                    &&& (e.kind is DestinationExists ==> request_count(self.log@) == 0)
                },
                None => false,
            }
        })
        &&& (self.phase is Init ==> self.log@.len() == 0)
        &&& (self.phase is Init || self.phase is RemovePending || self.phase is RequestPending
            ==> request_count(self.log@) == 0)
        &&& (!(self.phase is Streaming) && !(self.phase is Done) ==> self.chunks@.len() == 0)
    }

    pub fn new(task: DownloadTask) -> (p: TaskPipeline)
        ensures
            p.wf(),
            p.state() is Init,
            p.url_view() == task.url@,
            p.output_view() == task.output@,
            p.overwrite_flag() == task.overwrite,
            p.log_view().len() == 0,
            p.written().len() == 0,
            p.outcome_view() is None,
            p.size_hint_view() is None,
    {
        TaskPipeline {
            task,
            phase: Phase::Init,
            size_hint: None,
            outcome: None,
            log: Vec::new(),
            chunks: Ghost(Seq::empty()),
        }
    }

    /// The current phase, for the caller driving the pipeline.
    pub fn current_phase(&self) -> (ph: Phase)
        ensures
            ph == self.state(),
    {
        self.phase
    }

    /// Every event reported so far, in order.
    pub fn log(&self) -> (log: &Vec<Event>)
        ensures
            log@ == self.log_view(),
    {
        &self.log
    }

    /// The declared content length, if the response carried one.
    pub fn size_hint(&self) -> (s: Option<u64>)
        ensures
            s == self.size_hint_view(),
    {
        self.size_hint
    }

    pub fn outcome(&self) -> (o: &Option<TaskOutcome>)
        ensures
            *o == self.outcome_view(),
    {
        &self.outcome
    }

    /// Surrender the finished task's outcome.
    pub fn take_outcome(self) -> (o: TaskOutcome)
        requires
            self.state() is Done,
            self.wf(),
        ensures
            self.outcome_view() == Some(o),
    {
        self.outcome.unwrap()
    }

    /// A classified error naming this pipeline's task.
    fn task_error(&self, kind: FailureKind) -> (e: DownloadError)
        ensures
            e.kind == kind,
            e.url@ == self.url_view(),
            e.path@ == self.output_view(),
    {
        DownloadError {
            kind,
            url: self.task.url.as_str().to_owned(),
            path: self.task.output.as_str().to_owned(),
        }
    }

    /// Report the error event and finish the task with a failure of this kind.
    fn terminate_error<R: DownloadReporter>(&mut self, kind: FailureKind, reporter: &mut R)
        requires
            !(old(self).state() is Done),
            old(self).outcome_view() is None,
            terminal_count(old(self).log_view()) == 0,
            progress_total(old(self).log_view()) == old(self).written().len(),
            ranks_ordered(old(self).log_view()),
            kind is DestinationExists ==> request_count(old(self).log_view()) == 0,
        ensures
            final(self).wf(),
            final(self).state() is Done,
            final(self).same_task(*old(self)),
            final(self).failed_with(kind),
            extends_by(final(self).log_view(), old(self).log_view(), 1),
            ev_error(
                final(self).log_view().last(),
                kind,
                old(self).url_view(),
                old(self).output_view(),
            ),
            final(self).written() == old(self).written(),
            final(self).chunk_views() == old(self).chunk_views(),
            final(self).size_hint_view() == old(self).size_hint_view(),
    {
        let error = self.task_error(kind);
        let event = Event::Error { error };
        dispatch_event(reporter, &event);
        let ghost prev = self.log@;
        self.log.push(event);
        proof {
            lemma_push_counts(prev, event);
            assert(self.log@.take(prev.len() as int) =~= prev);
            assert forall|i: int| 0 <= i < prev.len() implies event_rank(#[trigger] prev[i])
                <= 7 by {}
            lemma_ordered_push(prev, event, 7);
        }
        let outcome_error = self.task_error(kind);
        self.outcome = Some(TaskOutcome::Failure(outcome_error));
        self.phase = Phase::Done;
    }

    /// Feed the existing-file check's answer. An absent destination moves
    /// straight to the request phase. A present one is reported; with
    /// overwriting enabled its removal is now pending, without it the task
    /// fails at once with a destination-exists error, and no request is
    /// ever issued for it.
    pub fn on_exists_checked<R: DownloadReporter>(&mut self, exists: bool, reporter: &mut R)
        requires
            old(self).wf(),
            old(self).state() is Init,
        ensures
            final(self).wf(),
            final(self).same_task(*old(self)),
            final(self).written().len() == 0,
            !exists ==> {
                &&& final(self).state() is RequestPending
                &&& final(self).log_view() == old(self).log_view()
            },
            exists && old(self).overwrite_flag() ==> {
                &&& final(self).state() is RemovePending
                &&& extends_by(final(self).log_view(), old(self).log_view(), 1)
                &&& ev_file_exists(final(self).log_view().last(), old(self).output_view(), true)
            },
            exists && !old(self).overwrite_flag() ==> {
                &&& final(self).state() is Done
                &&& final(self).failed_with(FailureKind::DestinationExists)
                &&& extends_by(final(self).log_view(), old(self).log_view(), 2)
                &&& ev_file_exists(
                    final(self).log_view()[old(self).log_view().len() as int],
                    old(self).output_view(),
                    false,
                )
                &&& ev_error(
                    final(self).log_view().last(),
                    FailureKind::DestinationExists,
                    old(self).url_view(),
                    old(self).output_view(),
                )
                &&& request_count(final(self).log_view()) == 0
            },
    {
        if !exists {
            self.phase = Phase::RequestPending;
            return;
        }
        let overwrite = self.task.overwrite;
        let event = Event::FileExists { path: self.task.output.as_str().to_owned(), overwrite };
        dispatch_event(reporter, &event);
        let ghost prev = self.log@;
        self.log.push(event);
        proof {
            lemma_push_counts(prev, event);
            assert(self.log@.take(prev.len() as int) =~= prev);
            lemma_ordered_push(prev, event, 0);
        }
        if overwrite {
            self.phase = Phase::RemovePending;
        } else {
            let ghost mid = self.log@;
            self.terminate_error(FailureKind::DestinationExists, reporter);
            proof {
                assert(self.log@[prev.len() as int] == mid[prev.len() as int]);
                assert(self.log@.take(prev.len() as int) =~= prev);
            }
        }
    }

    /// The existing-file check itself failed: the task fails in the
    /// filesystem phase, before any request.
    pub fn on_exists_check_failed<R: DownloadReporter>(&mut self, reporter: &mut R)
        requires
            old(self).wf(),
            old(self).state() is Init,
        ensures
            final(self).wf(),
            final(self).same_task(*old(self)),
            final(self).state() is Done,
            final(self).failed_with(FailureKind::Filesystem),
            extends_by(final(self).log_view(), old(self).log_view(), 1),
            request_count(final(self).log_view()) == 0,
            final(self).written().len() == 0,
    {
        self.terminate_error(FailureKind::Filesystem, reporter);
    }

    /// Feed the removal's result. Success clears the way for the request;
    /// a removal that fails ends the task at once.
    pub fn on_removed<R: DownloadReporter>(&mut self, ok: bool, reporter: &mut R)
        requires
            old(self).wf(),
            old(self).state() is RemovePending,
        ensures
            final(self).wf(),
            final(self).same_task(*old(self)),
            final(self).written().len() == 0,
            ok ==> {
                &&& final(self).state() is RequestPending
                &&& final(self).log_view() == old(self).log_view()
            },
            !ok ==> {
                &&& final(self).state() is Done
                &&& final(self).failed_with(FailureKind::Filesystem)
                &&& extends_by(final(self).log_view(), old(self).log_view(), 1)
                &&& request_count(final(self).log_view()) == 0
            },
    {
        if ok {
            self.phase = Phase::RequestPending;
        } else {
            self.terminate_error(FailureKind::Filesystem, reporter);
        }
    }

    /// Mark the request as going out. The caller must hold a network
    /// permit from here until the pipeline terminates.
    pub fn start_request<R: DownloadReporter>(&mut self, reporter: &mut R)
        requires
            old(self).wf(),
            old(self).state() is RequestPending,
        ensures
            final(self).wf(),
            final(self).same_task(*old(self)),
            final(self).state() is AwaitingResponse,
            extends_by(final(self).log_view(), old(self).log_view(), 1),
            ev_request(final(self).log_view().last(), old(self).url_view()),
            final(self).written().len() == 0,
    {
        let event = Event::Request { url: self.task.url.as_str().to_owned() };
        dispatch_event(reporter, &event);
        let ghost prev = self.log@;
        self.log.push(event);
        proof {
            lemma_push_counts(prev, event);
            assert(self.log@.take(prev.len() as int) =~= prev);
            lemma_ordered_push(prev, event, 0);
        }
        self.phase = Phase::AwaitingResponse;
    }

    /// The request failed at the transport level; the task ends without a
    /// destination file ever being created.
    pub fn on_transport_error<R: DownloadReporter>(&mut self, reporter: &mut R)
        requires
            old(self).wf(),
            old(self).state() is AwaitingResponse,
        ensures
            final(self).wf(),
            final(self).same_task(*old(self)),
            final(self).state() is Done,
            final(self).failed_with(FailureKind::Transport),
            extends_by(final(self).log_view(), old(self).log_view(), 1),
            final(self).written().len() == 0,
    {
        proof {
            assert(old(self).chunks@.len() == 0);
        }
        self.terminate_error(FailureKind::Transport, reporter);
    }

    /// Feed the response's status and declared content length. A success
    /// status is reported together with the size discovery and the file
    /// creation becomes pending; any other status fails the task with a
    /// response-status error and no destination file is created.
    pub fn on_response<R: DownloadReporter>(
        &mut self,
        status: u16,
        content_length: Option<u64>,
        reporter: &mut R,
    )
        requires
            old(self).wf(),
            old(self).state() is AwaitingResponse,
        ensures
            final(self).wf(),
            final(self).same_task(*old(self)),
            final(self).written().len() == 0,
            status_success(status) ==> {
                &&& final(self).state() is CreatePending
                &&& final(self).size_hint_view() == content_length
                &&& extends_by(final(self).log_view(), old(self).log_view(), 2)
                &&& ev_response(
                    final(self).log_view()[old(self).log_view().len() as int],
                    status,
                )
                &&& ev_size_known(final(self).log_view().last(), content_length)
            },
            !status_success(status) ==> {
                &&& final(self).state() is Done
                &&& final(self).failed_with(FailureKind::ResponseStatus { status })
                &&& extends_by(final(self).log_view(), old(self).log_view(), 2)
                &&& ev_response(
                    final(self).log_view()[old(self).log_view().len() as int],
                    status,
                )
                &&& ev_error(
                    final(self).log_view().last(),
                    FailureKind::ResponseStatus { status },
                    old(self).url_view(),
                    old(self).output_view(),
                )
            },
    {
        let event = Event::Response { status };
        dispatch_event(reporter, &event);
        let ghost prev = self.log@;
        self.log.push(event);
        proof {
            lemma_push_counts(prev, event);
            assert(self.log@.take(prev.len() as int) =~= prev);
            lemma_ordered_push(prev, event, 1);
        }
        if 200 <= status && status < 300 {
            let size_event = Event::SizeKnown { size: content_length };
            dispatch_event(reporter, &size_event);
            let ghost mid = self.log@;
            self.log.push(size_event);
            proof {
                lemma_push_counts(mid, size_event);
                assert(self.log@.take(mid.len() as int) =~= mid);
                assert(self.log@.take(prev.len() as int) =~= prev);
                lemma_ordered_push(mid, size_event, 2);
            }
            self.size_hint = content_length;
            self.phase = Phase::CreatePending;
        } else {
            self.terminate_error(FailureKind::ResponseStatus { status }, reporter);
            proof {
                assert(self.log@.take(prev.len() as int) =~= prev);
            }
        }
    }

    /// Feed the destination file creation's result. Success starts the
    /// streamed copy; a creation that fails ends the task at once.
    pub fn on_file_created<R: DownloadReporter>(&mut self, ok: bool, reporter: &mut R)
        requires
            old(self).wf(),
            old(self).state() is CreatePending,
        ensures
            final(self).wf(),
            final(self).same_task(*old(self)),
            final(self).size_hint_view() == old(self).size_hint_view(),
            final(self).written().len() == 0,
            ok ==> {
                &&& final(self).state() is Streaming
                &&& extends_by(final(self).log_view(), old(self).log_view(), 2)
                &&& ev_file_create(
                    final(self).log_view()[old(self).log_view().len() as int],
                    old(self).output_view(),
                )
                &&& ev_start_download(
                    final(self).log_view().last(),
                    old(self).url_view(),
                    old(self).output_view(),
                )
            },
            !ok ==> {
                &&& final(self).state() is Done
                &&& final(self).failed_with(FailureKind::Filesystem)
                &&& extends_by(final(self).log_view(), old(self).log_view(), 1)
            },
    {
        if !ok {
            self.terminate_error(FailureKind::Filesystem, reporter);
            return;
        }
        let create_event = Event::FileCreate { path: self.task.output.as_str().to_owned() };
        dispatch_event(reporter, &create_event);
        let ghost prev = self.log@;
        self.log.push(create_event);
        proof {
            lemma_push_counts(prev, create_event);
            assert(self.log@.take(prev.len() as int) =~= prev);
            lemma_ordered_push(prev, create_event, 3);
        }
        let start_event = Event::StartDownload {
            url: self.task.url.as_str().to_owned(),
            path: self.task.output.as_str().to_owned(),
        };
        dispatch_event(reporter, &start_event);
        let ghost mid = self.log@;
        self.log.push(start_event);
        proof {
            lemma_push_counts(mid, start_event);
            assert(self.log@.take(mid.len() as int) =~= mid);
            assert(self.log@.take(prev.len() as int) =~= prev);
            lemma_ordered_push(mid, start_event, 4);
        }
        self.phase = Phase::Streaming;
    }

    /// Accept one chunk that the caller has appended to the destination,
    /// and report its length as a progress delta.
    pub fn on_chunk<R: DownloadReporter>(&mut self, chunk: &[u8], reporter: &mut R)
        requires
            old(self).wf(),
            old(self).state() is Streaming,
        ensures
            final(self).wf(),
            final(self).same_task(*old(self)),
            final(self).state() is Streaming,
            final(self).size_hint_view() == old(self).size_hint_view(),
            final(self).chunk_views() == old(self).chunk_views().push(chunk@),
            final(self).written() == old(self).written() + chunk@,
            extends_by(final(self).log_view(), old(self).log_view(), 1),
            ev_progress(final(self).log_view().last(), chunk@.len() as u64),
    {
        let delta: u64 = chunk.len() as u64;
        let event = Event::Progress { delta };
        dispatch_event(reporter, &event);
        let ghost prev = self.log@;
        self.log.push(event);
        proof {
            lemma_push_counts(prev, event);
            assert(self.log@.take(prev.len() as int) =~= prev);
            lemma_ordered_push(prev, event, 6);
            let cs = self.chunks@;
            assert(cs.push(chunk@).drop_last() =~= cs);
        }
        self.chunks = Ghost(self.chunks@.push(chunk@));
    }

    /// Reading the body or writing a chunk failed: the task fails in the
    /// stream phase. The partially written destination is left in place.
    pub fn on_stream_error<R: DownloadReporter>(&mut self, reporter: &mut R)
        requires
            old(self).wf(),
            old(self).state() is Streaming,
        ensures
            final(self).wf(),
            final(self).same_task(*old(self)),
            final(self).state() is Done,
            final(self).failed_with(FailureKind::Stream),
            extends_by(final(self).log_view(), old(self).log_view(), 1),
            final(self).written() == old(self).written(),
    {
        self.terminate_error(FailureKind::Stream, reporter);
    }

    /// The body ended and the caller flushed the destination. A clean
    /// flush completes the task; a failed flush fails it in the
    /// filesystem phase.
    pub fn on_stream_end<R: DownloadReporter>(&mut self, flush_ok: bool, reporter: &mut R)
        requires
            old(self).wf(),
            old(self).state() is Streaming,
        ensures
            final(self).wf(),
            final(self).same_task(*old(self)),
            final(self).state() is Done,
            final(self).written() == old(self).written(),
            flush_ok ==> {
                &&& final(self).outcome_view() == Some(TaskOutcome::Success)
                &&& extends_by(final(self).log_view(), old(self).log_view(), 1)
                &&& ev_complete(
                    final(self).log_view().last(),
                    old(self).url_view(),
                    old(self).output_view(),
                )
            },
            !flush_ok ==> {
                &&& final(self).failed_with(FailureKind::Filesystem)
                &&& extends_by(final(self).log_view(), old(self).log_view(), 1)
            },
    {
        if !flush_ok {
            self.terminate_error(FailureKind::Filesystem, reporter);
            return;
        }
        let event = Event::Complete {
            url: self.task.url.as_str().to_owned(),
            path: self.task.output.as_str().to_owned(),
        };
        dispatch_event(reporter, &event);
        let ghost prev = self.log@;
        self.log.push(event);
        proof {
            lemma_push_counts(prev, event);
            assert(self.log@.take(prev.len() as int) =~= prev);
            lemma_ordered_push(prev, event, 6);
        }
        self.outcome = Some(TaskOutcome::Success);
        self.phase = Phase::Done;
    }
}

/// Law: the progress deltas a pipeline has reported sum exactly to the
/// number of bytes it has accepted for its task's destination.
pub proof fn lemma_progress_accounts_for_written(p: TaskPipeline)
    requires
        p.wf(),
    ensures
        progress_total(p.log_view()) == p.written().len(),
{
}

/// Law: the lifecycle events of one task are handed to its reporter in
/// the pipeline's phase order: along the log, an event's rank — its place
/// in the fixed phase order — never decreases.
pub proof fn lemma_events_in_phase_order(p: TaskPipeline)
    requires
        p.wf(),
    ensures
        ranks_ordered(p.log_view()),
{
}

/// Law: a finished pipeline has reported exactly one terminal event — a
/// completion or an error, never both, never neither — and it is the last
/// event of its log; an unfinished pipeline has reported none.
pub proof fn lemma_single_terminal_event(p: TaskPipeline)
    requires
        p.wf(),
    ensures
        p.state() is Done ==> {
            &&& p.log_view().len() >= 1
            &&& is_terminal_event(p.log_view().last())
            &&& terminal_count(p.log_view()) == 1
        },
        !(p.state() is Done) ==> terminal_count(p.log_view()) == 0,
{
}

/// Law: a task that failed because its destination existed and overwriting
/// was disabled never issued a network request: no request event stands
/// anywhere in its log.
pub proof fn lemma_destination_exists_never_requests(p: TaskPipeline)
    requires
        p.wf(),
        p.outcome_view() matches Some(TaskOutcome::Failure(e)) && e.kind is DestinationExists,
    ensures
        request_count(p.log_view()) == 0,
        forall|i: int|
            0 <= i < p.log_view().len() ==> !is_request_event(#[trigger] p.log_view()[i]),
{
    lemma_request_count_zero_everywhere(p.log_view());
}

/// Law: a successful pipeline accepted the response body exactly: the bytes
/// it passed on for the destination are the received chunks, joined in order.
pub proof fn lemma_success_written_is_body(p: TaskPipeline)
    requires
        p.wf(),
        p.outcome_view() == Some(TaskOutcome::Success),
    ensures
        p.written() == joined(p.chunk_views()),
        progress_total(p.log_view()) == joined(p.chunk_views()).len(),
        ev_complete(p.log_view().last(), p.url_view(), p.output_view()),
{
}

/// A request count is never negative.
proof fn lemma_request_count_nonneg(log: Seq<Event>)
    ensures
        request_count(log) >= 0,
    decreases log.len(),
{
    if log.len() > 0 {
        lemma_request_count_nonneg(log.drop_last());
    }
}

/// A log whose request count is zero holds no request event at all.
proof fn lemma_request_count_zero_everywhere(log: Seq<Event>)
    requires
        request_count(log) == 0,
    ensures
        forall|i: int| 0 <= i < log.len() ==> !is_request_event(#[trigger] log[i]),
    decreases log.len(),
{
    if log.len() > 0 {
        lemma_request_count_nonneg(log.drop_last());
        lemma_request_count_zero_everywhere(log.drop_last());
        assert forall|i: int| 0 <= i < log.len() implies !is_request_event(
            #[trigger] log[i],
        ) by {
            if i < log.len() - 1 {
                assert(log[i] == log.drop_last()[i]);
            } else {
                assert(log[i] == log.last());
            }
        }
    }
}

/// Appending one event moves each event count by exactly that event's
/// contribution.
proof fn lemma_push_counts(log: Seq<Event>, e: Event)
    ensures
        progress_total(log.push(e)) == progress_total(log) + progress_delta_of(e),
        terminal_count(log.push(e)) == terminal_count(log) + if is_terminal_event(e) {
            1int
        } else {
            0int
        },
        request_count(log.push(e)) == request_count(log) + if is_request_event(e) {
            1int
        } else {
            0int
        },
{
    assert(log.push(e).drop_last() =~= log);
    assert(log.push(e).last() == e);
}

} // verus!
