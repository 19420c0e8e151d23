use vstd::prelude::*;

use crate::config::app::{MAX_PARALLELS_REQUESTS, RETRIES};
use crate::errors::{BuildError, DownloadError, FailureKind};
use crate::urls::parse_accepts;
use crate::{accepted_tasks_of, rejected_tasks_of, DownloadTask, Downloader};

verus! {

/// A builder for convenient construction of a `Downloader`.
pub struct DownloaderBuilder {
    tasks: Vec<DownloadTask>,
    retries: usize,
    parallel_requests: usize,
}

impl DownloaderBuilder {
    /// The tasks added so far.
    pub closed spec fn task_seq(self) -> Seq<DownloadTask> {
        self.tasks@
    }

    /// The configured retry budget.
    pub closed spec fn retry_count(self) -> usize {
        self.retries
    }

    /// The configured number of network permits.
    pub closed spec fn permit_limit(self) -> usize {
        self.parallel_requests
    }

    pub fn new() -> (b: DownloaderBuilder)
        ensures
            b.task_seq().len() == 0,
            b.retry_count() == RETRIES,
            b.permit_limit() == MAX_PARALLELS_REQUESTS,
    {
        DownloaderBuilder {
            tasks: Vec::new(),
            retries: RETRIES,
            parallel_requests: MAX_PARALLELS_REQUESTS,
        }
    }

    pub fn with_retries(self, retries: usize) -> (b: DownloaderBuilder)
        ensures
            b.task_seq() == self.task_seq(),
            b.retry_count() == retries,
            b.permit_limit() == self.permit_limit(),
    {
        DownloaderBuilder { retries, ..self }
    }

    pub fn with_parallel_requests(self, count: usize) -> (b: DownloaderBuilder)
        ensures
            b.task_seq() == self.task_seq(),
            b.retry_count() == self.retry_count(),
            b.permit_limit() == count,
    {
        DownloaderBuilder { parallel_requests: count, ..self }
    }

    /// Add one download task.
    pub fn add_task(&mut self, url: &str, output: String, overwrite: bool)
        ensures
            final(self).task_seq().len() == old(self).task_seq().len() + 1,
            final(self).task_seq().drop_last() == old(self).task_seq(),
            final(self).task_seq().last().url@ == url@,
            final(self).task_seq().last().output == output,
            final(self).task_seq().last().overwrite == overwrite,
            final(self).retry_count() == old(self).retry_count(),
            final(self).permit_limit() == old(self).permit_limit(),
    {
        let owned_url = url.to_owned();
        self.tasks.push(DownloadTask { url: owned_url, output, overwrite });
        proof {
            assert(self.tasks@.drop_last() =~= old(self).tasks@);
        }
    }

    /// Add every task of the list, in order.
    pub fn add_tasks(&mut self, tasks: Vec<DownloadTask>)
        ensures
            final(self).task_seq() == old(self).task_seq() + tasks@,
            final(self).retry_count() == old(self).retry_count(),
            final(self).permit_limit() == old(self).permit_limit(),
    {
        let mut incoming = tasks;
        self.tasks.append(&mut incoming);
    }

    /// Validate every task's URL and produce a downloader over the accepted
    /// tasks, together with one validation failure per rejected task.
    /// A builder that holds no tasks at all yields an error instead.
    pub fn build(self) -> (r: Result<(Downloader, Vec<DownloadError>), BuildError>)
        ensures
            r is Err <==> self.task_seq().len() == 0,
            r matches Ok(p) ==> {
                &&& p.0.task_seq() == accepted_tasks_of(self.task_seq())
                &&& p.0.permit_limit() == self.permit_limit()
                &&& p.1@.len() == rejected_tasks_of(self.task_seq()).len()
                &&& forall|i: int| 0 <= i < p.1@.len() ==> {
                    &&& (#[trigger] p.1@[i]).kind is Validation
                    &&& p.1@[i].url == rejected_tasks_of(self.task_seq())[i].url
                    &&& p.1@[i].path == rejected_tasks_of(self.task_seq())[i].output
                }
            },
    {
        let ghost orig: Seq<DownloadTask> = self.tasks@;
        let mut rest = self.tasks;
        if rest.len() == 0 {
            return Err(BuildError::NoTasks);
        }
        let mut valid_tasks: Vec<DownloadTask> = Vec::new();
        let mut failures: Vec<DownloadError> = Vec::new();
        let ghost mut k: int = 0;
        while rest.len() > 0
            invariant
                0 <= k <= orig.len(),
                rest@ =~= orig.skip(k),
                valid_tasks@ == accepted_tasks_of(orig.take(k)),
                failures@.len() == rejected_tasks_of(orig.take(k)).len(),
                forall|i: int| 0 <= i < failures@.len() ==> {
                    &&& (#[trigger] failures@[i]).kind is Validation
                    &&& failures@[i].url == rejected_tasks_of(orig.take(k))[i].url
                    &&& failures@[i].path == rejected_tasks_of(orig.take(k))[i].output
                },
            decreases rest.len(),
        {
            let task = rest.remove(0);
            proof {
                assert(task == orig[k]);
                assert(orig.take(k + 1).drop_last() =~= orig.take(k));
                assert(orig.take(k + 1).last() == orig[k]);
            }
            let accepted = parse_accepts(task.url.as_str());
            if accepted {
                valid_tasks.push(task);
            } else {
                let DownloadTask { url, output, overwrite: _ } = task;
                failures.push(DownloadError { kind: FailureKind::Validation, url, path: output });
            }
            proof {
                k = k + 1;
                assert(rest@ =~= orig.skip(k));
            }
        }
        proof {
            assert(orig.take(k) =~= orig);
        }
        let downloader = Downloader::from_parts(valid_tasks, self.parallel_requests);
        Ok((downloader, failures))
    }
}

} // verus!
