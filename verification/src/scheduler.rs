use vstd::prelude::*;

use crate::errors::{DownloadError, SchedulerFatal, TaskOutcome};
use crate::DownloadResult;

verus! {

/// One step of a permit counter's history.
#[derive(Clone, Copy, Debug, PartialEq, Eq, Structural)]
pub enum PermitOp {
    Acquire,
    Release,
}

/// How many permits are held after this sequence of operations.
pub open spec fn holders(ops: Seq<PermitOp>) -> int
    decreases ops.len(),
{
    if ops.len() == 0 {
        0
    } else {
        holders(ops.drop_last()) + if ops.last() is Acquire {
            1int
        } else {
            -1int
        }
    }
}

/// At every point of the history, between zero and `limit` permits are held.
pub open spec fn trace_bounded(ops: Seq<PermitOp>, limit: int) -> bool {
    forall|i: int| 0 <= i <= ops.len() ==> 0 <= holders(#[trigger] ops.take(i)) <= limit
}

/// A counting permit limiter with `limit` permits: holding one authorizes a
/// task to perform its network phase. The counter keeps its whole history,
/// so that the bound can be stated at every point of the execution, not
/// only now.
pub struct PermitCounter {
    active: usize,
    limit: usize,
    history: Ghost<Seq<PermitOp>>,
}

impl PermitCounter {
    /// Permits held right now.
    pub closed spec fn active_permits(self) -> usize {
        self.active
    }

    /// The configured permit count.
    pub closed spec fn permit_limit(self) -> usize {
        self.limit
    }

    /// Every acquire and release so far, in order.
    pub closed spec fn history_view(self) -> Seq<PermitOp> {
        self.history@
    }

    pub closed spec fn wf(self) -> bool {
        &&& 1 <= self.limit
        &&& self.active == holders(self.history@)
        &&& trace_bounded(self.history@, self.limit as int)
    }

    pub fn new(limit: usize) -> (c: PermitCounter)
        requires
            limit >= 1,
        ensures
            c.wf(),
            c.active_permits() == 0,
            c.permit_limit() == limit,
            c.history_view().len() == 0,
    {
        PermitCounter { active: 0, limit, history: Ghost(Seq::empty()) }
    }

    pub fn active(&self) -> (n: usize)
        ensures
            n == self.active_permits(),
    {
        self.active
    }

    pub fn limit(&self) -> (n: usize)
        ensures
            n == self.permit_limit(),
    {
        self.limit
    }

    /// Grant a permit when one is free; never grant beyond the limit.
    pub fn try_acquire(&mut self) -> (granted: bool)
        requires
            old(self).wf(),
        ensures
            final(self).wf(),
            final(self).permit_limit() == old(self).permit_limit(),
            granted ==> {
                &&& old(self).active_permits() < old(self).permit_limit()
                &&& final(self).active_permits() == old(self).active_permits() + 1
                &&& final(self).history_view() == old(self).history_view().push(
                    PermitOp::Acquire,
                )
            },
            !granted ==> {
                &&& old(self).active_permits() == old(self).permit_limit()
                &&& *final(self) == *old(self)
            },
    {
        if self.active < self.limit {
            self.active = self.active + 1;
            proof {
                let h = self.history@;
                let h2 = h.push(PermitOp::Acquire);
                assert(h2.drop_last() =~= h);
                assert(h.take(h.len() as int) =~= h);
                assert forall|i: int| 0 <= i <= h2.len() implies 0 <= holders(#[trigger] h2.take(i))
                    <= self.limit as int by {
                    if i <= h.len() {
                        assert(h2.take(i) =~= h.take(i));
                    } else {
                        assert(h2.take(i) =~= h2);
                    }
                }
                self.history@ = h2;
            }
            true
        } else {
            proof {
                assert(self.history@.take(self.history@.len() as int) =~= self.history@);
            }
            false
        }
    }

    /// Give a held permit back.
    pub fn release(&mut self)
        requires
            old(self).wf(),
            old(self).active_permits() >= 1,
        ensures
            final(self).wf(),
            final(self).permit_limit() == old(self).permit_limit(),
            final(self).active_permits() == old(self).active_permits() - 1,
            final(self).history_view() == old(self).history_view().push(PermitOp::Release),
    {
        self.active = self.active - 1;
        proof {
            let h = self.history@;
            let h2 = h.push(PermitOp::Release);
            assert(h2.drop_last() =~= h);
            assert(h.take(h.len() as int) =~= h);
            assert forall|i: int| 0 <= i <= h2.len() implies 0 <= holders(#[trigger] h2.take(i))
                <= self.limit as int by {
                if i <= h.len() {
                    assert(h2.take(i) =~= h.take(i));
                } else {
                    assert(h2.take(i) =~= h2);
                }
            }
            self.history@ = h2;
        }
    }
}

/// Law: at no point of a counter's execution did the number of
/// simultaneously held permits exceed the limit, nor drop below zero.
pub proof fn lemma_permits_always_bounded(c: PermitCounter)
    requires
        c.wf(),
    ensures
        trace_bounded(c.history_view(), c.permit_limit() as int),
        c.active_permits() <= c.permit_limit(),
{
    assert(c.history_view().take(c.history_view().len() as int) =~= c.history_view());
}

/// One batch of tasks under a concurrency limit: dispatches each task
/// exactly once, holds a permit for every task between its request phase
/// and its termination, and folds every outcome into one result whose
/// total never changes. Completion order is the caller's; the batch only
/// collects, without loss.
pub struct BatchRun {
    n_tasks: usize,
    rejected: Ghost<nat>,
    dispatched: usize,
    completed: usize,
    permits: PermitCounter,
    result: DownloadResult,
    aborted: bool,
}

impl BatchRun {
    /// How many dispatchable tasks the batch was given.
    pub closed spec fn task_count(self) -> usize {
        self.n_tasks
    }

    /// How many submissions were rejected by validation before dispatch.
    pub closed spec fn rejected_count(self) -> nat {
        self.rejected@
    }

    pub closed spec fn dispatched_count(self) -> usize {
        self.dispatched
    }

    pub closed spec fn completed_count(self) -> usize {
        self.completed
    }

    pub closed spec fn result_total(self) -> usize {
        self.result.total
    }

    /// The failures collected so far, in arrival order.
    pub closed spec fn failures(self) -> Seq<DownloadError> {
        self.result.errors@
    }

    pub closed spec fn is_aborted(self) -> bool {
        self.aborted
    }

    pub closed spec fn active_permits(self) -> usize {
        self.permits.active_permits()
    }

    pub closed spec fn permit_limit(self) -> usize {
        self.permits.permit_limit()
    }

    pub closed spec fn permit_history(self) -> Seq<PermitOp> {
        self.permits.history_view()
    }

    pub closed spec fn wf(self) -> bool {
        &&& self.permits.wf()
        &&& self.completed <= self.dispatched <= self.n_tasks
        &&& self.permits.active_permits() == self.dispatched - self.completed
        &&& self.result.total == self.n_tasks + self.rejected@
        &&& self.result.errors@.len() <= self.rejected@ + self.completed
    }

    /// Open a batch over `n_tasks` dispatchable tasks, seeded with the
    /// validation failures of the submissions that never reach dispatch.
    /// Each rejected submission still counts towards the total.
    pub fn new(n_tasks: usize, limit: usize, validation_failures: Vec<DownloadError>) -> (b:
        BatchRun)
        requires
            limit >= 1,
            n_tasks + validation_failures@.len() <= usize::MAX,
        ensures
            b.wf(),
            b.task_count() == n_tasks,
            b.rejected_count() == validation_failures@.len(),
            b.result_total() == n_tasks + validation_failures@.len(),
            b.failures() == validation_failures@,
            b.dispatched_count() == 0,
            b.completed_count() == 0,
            b.active_permits() == 0,
            b.permit_limit() == limit,
            !b.is_aborted(),
    {
        let ghost rejected = validation_failures@.len();
        let total = n_tasks + validation_failures.len();
        BatchRun {
            n_tasks,
            rejected: Ghost(rejected),
            dispatched: 0,
            completed: 0,
            permits: PermitCounter::new(limit),
            result: DownloadResult { total, errors: validation_failures },
            aborted: false,
        }
    }

    pub fn task_count_value(&self) -> (n: usize)
        ensures
            n == self.task_count(),
    {
        self.n_tasks
    }

    pub fn dispatched(&self) -> (n: usize)
        ensures
            n == self.dispatched_count(),
    {
        self.dispatched
    }

    pub fn completed(&self) -> (n: usize)
        ensures
            n == self.completed_count(),
    {
        self.completed
    }

    pub fn active(&self) -> (n: usize)
        ensures
            n == self.active_permits(),
    {
        self.permits.active()
    }

    /// Dispatch the next task when one remains and a permit is free. The
    /// permit stays held until that task's outcome is recorded.
    pub fn try_dispatch(&mut self) -> (granted: bool)
        requires
            old(self).wf(),
            !old(self).is_aborted(),
        ensures
            final(self).wf(),
            final(self).task_count() == old(self).task_count(),
            final(self).rejected_count() == old(self).rejected_count(),
            final(self).result_total() == old(self).result_total(),
            final(self).failures() == old(self).failures(),
            final(self).completed_count() == old(self).completed_count(),
            final(self).permit_limit() == old(self).permit_limit(),
            !final(self).is_aborted(),
            granted ==> {
                &&& final(self).dispatched_count() == old(self).dispatched_count() + 1
                &&& final(self).active_permits() == old(self).active_permits() + 1
                &&& final(self).permit_history() == old(self).permit_history().push(
                    PermitOp::Acquire,
                )
            },
            !granted ==> {
                &&& final(self).dispatched_count() == old(self).dispatched_count()
                &&& final(self).active_permits() == old(self).active_permits()
                &&& (old(self).dispatched_count() == old(self).task_count() || old(
                    self,
                ).active_permits() == old(self).permit_limit())
            },
    {
        if self.dispatched == self.n_tasks {
            return false;
        }
        let granted = self.permits.try_acquire();
        if granted {
            self.dispatched = self.dispatched + 1;
        }
        granted
    }

    /// Record the outcome of one dispatched task and give its permit back.
    /// The total never changes; a failure is appended in arrival order.
    pub fn record_outcome(&mut self, outcome: TaskOutcome)
        requires
            old(self).wf(),
            old(self).completed_count() < old(self).dispatched_count(),
        ensures
            final(self).wf(),
            final(self).task_count() == old(self).task_count(),
            final(self).rejected_count() == old(self).rejected_count(),
            final(self).result_total() == old(self).result_total(),
            final(self).dispatched_count() == old(self).dispatched_count(),
            final(self).completed_count() == old(self).completed_count() + 1,
            final(self).active_permits() == old(self).active_permits() - 1,
            final(self).permit_limit() == old(self).permit_limit(),
            final(self).permit_history() == old(self).permit_history().push(PermitOp::Release),
            final(self).is_aborted() == old(self).is_aborted(),
            match outcome {
                TaskOutcome::Success => final(self).failures() == old(self).failures(),
                TaskOutcome::Failure(e) => final(self).failures() == old(self).failures().push(e),
            },
    {
        self.permits.release();
        self.completed = self.completed + 1;
        self.result.record(outcome);
    }

    /// The permit system itself failed: a process-level condition. The
    /// batch is marked aborted; the remaining tasks are not dispatched.
    pub fn on_permit_failure(&mut self)
        requires
            old(self).wf(),
        ensures
            final(self).wf(),
            final(self).is_aborted(),
            final(self).task_count() == old(self).task_count(),
            final(self).rejected_count() == old(self).rejected_count(),
            final(self).result_total() == old(self).result_total(),
            final(self).failures() == old(self).failures(),
            final(self).dispatched_count() == old(self).dispatched_count(),
            final(self).completed_count() == old(self).completed_count(),
            final(self).active_permits() == old(self).active_permits(),
            final(self).permit_limit() == old(self).permit_limit(),
    {
        self.aborted = true;
    }

    /// Close the batch once every dispatched task has an outcome. An
    /// aborted batch yields the fatal scheduler error instead of a result.
    pub fn finish(self) -> (r: Result<DownloadResult, SchedulerFatal>)
        requires
            self.wf(),
            self.completed_count() == self.dispatched_count(),
            !self.is_aborted() ==> self.dispatched_count() == self.task_count(),
        ensures
            r is Err <==> self.is_aborted(),
            r matches Ok(res) ==> {
                &&& res.total == self.task_count() + self.rejected_count()
                &&& res.errors@ == self.failures()
            },
    {
        if self.aborted {
            Err(SchedulerFatal)
        } else {
            Ok(self.result)
        }
    }
}

/// Law: a batch's result always carries the number of tasks submitted to
/// it — the dispatchable tasks plus the submissions rejected by validation
/// — whatever has been dispatched, completed or collected so far.
pub proof fn lemma_total_is_submitted(b: BatchRun)
    requires
        b.wf(),
    ensures
        b.result_total() == b.task_count() + b.rejected_count(),
{
}

/// Law: a batch never lets more tasks than its permit limit hold a network
/// permit at once — now, and at every earlier point of its execution.
pub proof fn lemma_batch_permits_bounded(b: BatchRun)
    requires
        b.wf(),
    ensures
        b.active_permits() <= b.permit_limit(),
        trace_bounded(b.permit_history(), b.permit_limit() as int),
{
    assert(b.permit_history().take(b.permit_history().len() as int) =~= b.permit_history());
}

/// Law: outcomes are collected without loss: every dispatched task that has
/// completed is accounted for, and at most as many failures stand in the
/// result as submissions that could have failed so far.
pub proof fn lemma_failures_bounded(b: BatchRun)
    requires
        b.wf(),
    ensures
        b.failures().len() <= b.rejected_count() + b.completed_count(),
        b.completed_count() <= b.dispatched_count() <= b.task_count(),
{
}

} // verus!
