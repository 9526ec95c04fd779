//! The download engine's state: a bounded FIFO task queue and one
//! progress slot per worker.
//!
//! `Downloader` is the engine as its rules see it. The binary runs the
//! actual worker pool and transfers; every decision it takes — whether a
//! submission fits the queue, which task a freed worker picks up, how a
//! chunk moves a progress counter, when the drained engine has settled —
//! is a method here, so the queue bound, the FIFO order and the
//! independence of the workers are verified once, against this state.

use vstd::prelude::*;

verus! {

/// One download to perform: a source URL and a destination path, given
/// as path segments. Immutable once submitted.
#[derive(Debug, Clone)]
pub struct DownloadTask {
    pub url: String,
    pub path: Vec<String>,
}

/// What one worker is doing: the bytes expected (0 while unknown), the
/// bytes transferred so far, and the task being run.
#[derive(Debug, Clone)]
pub struct DownloadProgress {
    pub total: usize,
    pub downloaded: usize,
    pub task: DownloadTask,
}

/// Why one transfer failed: the filesystem, or the transport. A failure
/// is logged with its message; it never stops the pool.
#[derive(Debug)]
pub enum DownloadError {
    Io(String),
    Reqwest(String),
}

/// How many of the slots hold a running task.
pub open spec fn spec_busy_count(slots: Seq<Option<DownloadProgress>>) -> nat
    decreases slots.len(),
{
    if slots.len() == 0 {
        0
    } else {
        spec_busy_count(slots.drop_last()) + if slots.last() is Some {
            1nat
        } else {
            0
        }
    }
}

/// Never more tasks in flight than workers: each running task occupies
/// one progress slot, and every engine operation keeps one slot per
/// worker, so a snapshot of the slots reports at most `worker_count`
/// running tasks.
pub proof fn lemma_in_flight_bounded(slots: Seq<Option<DownloadProgress>>)
    ensures
        spec_busy_count(slots) <= slots.len(),
    decreases slots.len(),
{
    if slots.len() > 0 {
        lemma_in_flight_bounded(slots.drop_last());
    }
}

/// The engine's state: the waiting tasks (FIFO, at most `queue_bound` of
/// them), one progress slot per worker (`None` between tasks), and
/// whether draining has begun.
pub struct Downloader {
    queue: Vec<DownloadTask>,
    queue_bound: usize,
    slots: Vec<Option<DownloadProgress>>,
    draining: bool,
}

impl Downloader {
    /// The tasks waiting to be picked up, oldest first.
    pub closed spec fn spec_queue(self) -> Seq<DownloadTask> {
        self.queue@
    }

    /// How many tasks the queue may hold at once.
    pub closed spec fn spec_bound(self) -> nat {
        self.queue_bound as nat
    }

    /// The progress slots, one per worker.
    pub closed spec fn spec_slots(self) -> Seq<Option<DownloadProgress>> {
        self.slots@
    }

    /// Whether the close signal has been given.
    pub closed spec fn spec_draining(self) -> bool {
        self.draining
    }

    /// The queue never exceeds its bound.
    pub open spec fn wf(self) -> bool {
        self.spec_queue().len() <= self.spec_bound()
    }

    /// Nothing waits and no worker is busy: a drained engine may return
    /// to its caller.
    pub open spec fn spec_settled(self) -> bool {
        self.spec_queue().len() == 0 && forall|w: int|
            0 <= w < self.spec_slots().len() ==> self.spec_slots()[w] is None
    }

    /// An idle engine: `worker_count` workers, a queue bounded by
    /// `queue_bound`, nothing submitted, not draining.
    pub fn new(worker_count: usize, queue_bound: usize) -> (d: Self)
        ensures
            d.wf(),
            d.spec_queue().len() == 0,
            d.spec_bound() == queue_bound,
            d.spec_slots().len() == worker_count,
            forall|w: int| 0 <= w < worker_count ==> d.spec_slots()[w] is None,
            !d.spec_draining(),
    {
        let mut slots: Vec<Option<DownloadProgress>> = Vec::new();
        let mut i: usize = 0;
        while i < worker_count
            invariant
                i <= worker_count,
                slots@.len() == i,
                forall|w: int| 0 <= w < i ==> slots@[w] is None,
            decreases worker_count - i,
        {
            slots.push(None);
            i = i + 1;
        }
        Downloader { queue: Vec::new(), queue_bound, slots, draining: false }
    }

    /// How many workers the engine was built with.
    pub fn worker_count(&self) -> (n: usize)
        ensures
            n == self.spec_slots().len(),
    {
        self.slots.len()
    }

    /// Whether the close signal has been given.
    pub fn is_draining(&self) -> (r: bool)
        ensures
            r == self.spec_draining(),
    {
        self.draining
    }

    /// How many tasks wait in the queue.
    pub fn queued(&self) -> (n: usize)
        ensures
            n == self.spec_queue().len(),
    {
        self.queue.len()
    }

    /// Offers a task to the queue. It is taken exactly when the queue
    /// has room; a full queue leaves the engine unchanged and hands the
    /// task back, and the caller blocks — backpressure — until a worker
    /// frees a slot. Submitting after `finish` is the caller's fault and
    /// is kept out by contract.
    pub fn submit(&mut self, task: DownloadTask) -> (rejected: Option<DownloadTask>)
        requires
            old(self).wf(),
            !old(self).spec_draining(),
        ensures
            final(self).wf(),
            rejected is None <==> old(self).spec_queue().len() < old(self).spec_bound(),
            rejected is None ==> final(self).spec_queue() == old(self).spec_queue().push(task),
            rejected is Some ==> rejected == Some(task) && final(self).spec_queue() == old(
                self,
            ).spec_queue(),
            final(self).spec_slots() == old(self).spec_slots(),
            final(self).spec_bound() == old(self).spec_bound(),
            !final(self).spec_draining(),
    {
        if self.queue.len() < self.queue_bound {
            self.queue.push(task);
            None
        } else {
            Some(task)
        }
    }

    /// An idle worker pulls its next task: the oldest waiting one, whose
    /// progress overwrites the worker's slot with nothing transferred
    /// yet. With an empty queue the worker stays idle (and exits once
    /// draining has begun).
    pub fn take_task(&mut self, worker: usize) -> (t: Option<DownloadTask>)
        requires
            old(self).wf(),
            worker < old(self).spec_slots().len(),
            old(self).spec_slots()[worker as int] is None,
        ensures
            final(self).wf(),
            final(self).spec_bound() == old(self).spec_bound(),
            final(self).spec_draining() == old(self).spec_draining(),
            final(self).spec_slots().len() == old(self).spec_slots().len(),
            old(self).spec_queue().len() == 0 ==> t is None && final(self).spec_queue()
                == old(self).spec_queue() && final(self).spec_slots() == old(self).spec_slots(),
            old(self).spec_queue().len() > 0 ==> {
                &&& (t matches Some(rt) && rt.url == old(self).spec_queue()[0].url && rt.path@
                    == old(self).spec_queue()[0].path@)
                &&& final(self).spec_queue() == old(self).spec_queue().drop_first()
                &&& final(self).spec_slots() == old(self).spec_slots().update(
                    worker as int,
                    Some(
                        DownloadProgress {
                            total: 0,
                            downloaded: 0,
                            task: old(self).spec_queue()[0],
                        },
                    ),
                )
            },
    {
        if self.queue.len() == 0 {
            None
        } else {
            let task = self.queue.remove(0);
            let started = DownloadProgress { total: 0, downloaded: 0, task };
            let again = DownloadTask {
                url: started.task.url.clone(),
                path: started.task.path.clone(),
            };
            self.slots[worker] = Some(started);
            proof {
                assert(self.queue@ =~= old(self).queue@.drop_first());
            }
            Some(again)
        }
    }

    /// Records the expected byte count once the transfer's headers
    /// arrive.
    pub fn set_total(&mut self, worker: usize, total: usize)
        requires
            old(self).wf(),
            worker < old(self).spec_slots().len(),
            old(self).spec_slots()[worker as int] is Some,
        ensures
            final(self).wf(),
            final(self).spec_queue() == old(self).spec_queue(),
            final(self).spec_bound() == old(self).spec_bound(),
            final(self).spec_draining() == old(self).spec_draining(),
            final(self).spec_slots() == old(self).spec_slots().update(
                worker as int,
                Some(
                    DownloadProgress {
                        total,
                        downloaded: old(self).spec_slots()[worker as int]->0.downloaded,
                        task: old(self).spec_slots()[worker as int]->0.task,
                    },
                ),
            ),
    {
        let slot = &mut self.slots[worker];
        match slot {
            Some(p) => {
                p.total = total;
            },
            None => {},
        }
        proof {
            assert(self.slots@ =~= old(self).slots@.update(
                worker as int,
                Some(
                    DownloadProgress {
                        total,
                        downloaded: old(self).slots@[worker as int]->0.downloaded,
                        task: old(self).slots@[worker as int]->0.task,
                    },
                ),
            ));
        }
    }

    /// Counts one received chunk of `n` bytes against the worker's slot.
    pub fn record_chunk(&mut self, worker: usize, n: usize)
        requires
            old(self).wf(),
            worker < old(self).spec_slots().len(),
            old(self).spec_slots()[worker as int] is Some,
            old(self).spec_slots()[worker as int]->0.downloaded + n <= usize::MAX,
        ensures
            final(self).wf(),
            final(self).spec_queue() == old(self).spec_queue(),
            final(self).spec_bound() == old(self).spec_bound(),
            final(self).spec_draining() == old(self).spec_draining(),
            final(self).spec_slots() == old(self).spec_slots().update(
                worker as int,
                Some(
                    DownloadProgress {
                        total: old(self).spec_slots()[worker as int]->0.total,
                        downloaded: (old(self).spec_slots()[worker as int]->0.downloaded
                            + n) as usize,
                        task: old(self).spec_slots()[worker as int]->0.task,
                    },
                ),
            ),
    {
        let slot = &mut self.slots[worker];
        match slot {
            Some(p) => {
                p.downloaded = p.downloaded + n;
            },
            None => {},
        }
        proof {
            assert(self.slots@ =~= old(self).slots@.update(
                worker as int,
                Some(
                    DownloadProgress {
                        total: old(self).slots@[worker as int]->0.total,
                        downloaded: (old(self).slots@[worker as int]->0.downloaded + n) as usize,
                        task: old(self).slots@[worker as int]->0.task,
                    },
                ),
            ));
        }
    }

    /// Ends the worker's task, clearing its slot — on success and on
    /// failure alike: a failed transfer is logged by the caller and
    /// costs nothing but its own task, the queue and the other workers
    /// are untouched.
    pub fn finish_task(&mut self, worker: usize)
        requires
            old(self).wf(),
            worker < old(self).spec_slots().len(),
        ensures
            final(self).wf(),
            final(self).spec_queue() == old(self).spec_queue(),
            final(self).spec_bound() == old(self).spec_bound(),
            final(self).spec_draining() == old(self).spec_draining(),
            final(self).spec_slots() == old(self).spec_slots().update(worker as int, None),
    {
        self.slots[worker] = None;
        proof {
            assert(self.slots@ =~= old(self).slots@.update(worker as int, None));
        }
    }

    /// Gives the close signal: no task will be submitted after this. The
    /// caller then waits until the engine is settled.
    pub fn finish(&mut self)
        requires
            old(self).wf(),
        ensures
            final(self).wf(),
            final(self).spec_queue() == old(self).spec_queue(),
            final(self).spec_bound() == old(self).spec_bound(),
            final(self).spec_slots() == old(self).spec_slots(),
            final(self).spec_draining(),
    {
        self.draining = true;
    }

    /// The progress slots, one per worker, readable while workers run.
    pub fn progress(&self) -> (r: &Vec<Option<DownloadProgress>>)
        ensures
            r@ == self.spec_slots(),
    {
        &self.slots
    }

    /// Whether the queue is empty and every worker idle.
    pub fn settled(&self) -> (r: bool)
        ensures
            r == self.spec_settled(),
    {
        if self.queue.len() > 0 {
            return false;
        }
        let n = self.slots.len();
        let mut i: usize = 0;
        while i < n
            invariant
                i <= n,
                n == self.slots@.len(),
                forall|w: int| 0 <= w < i ==> self.slots@[w] is None,
            decreases n - i,
        {
            if self.slots[i].is_some() {
                return false;
            }
            i = i + 1;
        }
        true
    }
}

} // verus!
