//! The verified core of the bounded worker-pool executor.
//!
//! `WorkerPool` is the pool's protocol state: a fixed set of workers, the FIFO
//! job channel, and the bookkeeping of which jobs were submitted, delivered to
//! a worker, and executed. Jobs are identified by caller-chosen `u64` tags; the
//! callable itself runs outside the verified core, which governs when each
//! transition may happen and proves that no job is ever run twice or lost.
//!
//! The lifecycle is `Active -> ShuttingDown -> Terminated`: closing the sending
//! side of the channel starts the shutdown, each worker retires once the queue
//! is drained, and the pool is terminated only after every worker was joined.

use vstd::multiset::Multiset;
use vstd::prelude::*;
use vstd::string::StringExecFns;

verus! {

broadcast use vstd::seq_lib::group_to_multiset_ensures;

/// Construction was rejected: a pool must have at least one worker.
#[derive(Debug, Clone, Copy, PartialEq, Eq, Structural)]
pub struct ConfigurationError;

impl ConfigurationError {
    /// What went wrong, as text.
    pub fn message(&self) -> (r: String)
        ensures
            r@ == "pool size must be positive"@,
    {
        String::from_str("pool size must be positive")
    }
}

/// What one worker is doing, as far as the pool protocol can see.
#[derive(Debug, Clone, Copy, PartialEq, Eq, Structural)]
pub enum WorkerState {
    /// Waiting to take the next job off the shared channel.
    Idle,
    /// Running the job with the recorded identifier.
    Busy(u64),
    /// Observed the closed channel and ended its receive loop.
    Retired,
    /// Its job ended abnormally; this worker runs nothing further.
    Failed,
}

/// The pool lifecycle. There is no transition back to `Active`.
#[derive(Debug, Clone, Copy, PartialEq, Eq, Structural)]
pub enum PoolPhase {
    /// The sending handle is alive; submission is accepted.
    Active,
    /// The sending handle was dropped; workers drain the queue and retire.
    ShuttingDown,
    /// Every worker thread was joined.
    Terminated,
}

/// What a worker's receive loop does after one receive on the shared channel.
#[derive(Debug, Clone, Copy, PartialEq, Eq, Structural)]
pub enum WorkerAction {
    /// A job arrived: run it on this worker's thread, then loop.
    RunJob,
    /// The channel is closed: end the loop and let the thread finish.
    Exit,
}

/// The branch a worker takes after `receive()` returns: a job means run and
/// loop, a closed channel means retire.
pub fn worker_decision(received_job: bool) -> (r: WorkerAction)
    ensures
        r is RunJob <==> received_job,
{
    if received_job {
        WorkerAction::RunJob
    } else {
        WorkerAction::Exit
    }
}

/// The job a worker is running, as a multiset (empty unless it is busy).
pub open spec fn job_of(w: WorkerState) -> Multiset<u64> {
    match w {
        WorkerState::Busy(j) => Multiset::empty().insert(j),
        _ => Multiset::empty(),
    }
}

/// All jobs currently being run, over the whole worker collection.
pub open spec fn busy_jobs(ws: Seq<WorkerState>) -> Multiset<u64>
    decreases ws.len(),
{
    if ws.len() == 0 {
        Multiset::empty()
    } else {
        busy_jobs(ws.drop_last()).add(job_of(ws.last()))
    }
}

/// How many workers have failed.
pub open spec fn failed_count(ws: Seq<WorkerState>) -> nat
    decreases ws.len(),
{
    if ws.len() == 0 {
        0
    } else {
        failed_count(ws.drop_last()) + (if ws.last() is Failed {
            1nat
        } else {
            0nat
        })
    }
}

/// A worker in a terminal state never acts again.
pub open spec fn is_terminal(w: WorkerState) -> bool {
    w is Retired || w is Failed
}

proof fn lemma_busy_jobs_update(ws: Seq<WorkerState>, i: int, v: WorkerState)
    requires
        0 <= i < ws.len(),
    ensures
        busy_jobs(ws.update(i, v)).add(job_of(ws[i])) =~= busy_jobs(ws).add(job_of(v)),
    decreases ws.len(),
{
    let upd = ws.update(i, v);
    let rest = ws.drop_last();
    assert(busy_jobs(upd) == busy_jobs(upd.drop_last()).add(job_of(upd.last())));
    assert(busy_jobs(ws) == busy_jobs(rest).add(job_of(ws.last())));
    if i == ws.len() - 1 {
        assert(upd.drop_last() =~= rest);
        assert(upd.last() == v);
        assert(ws.last() == ws[i]);
        assert forall|x: u64|
            busy_jobs(upd).add(job_of(ws[i])).count(x) == busy_jobs(ws).add(job_of(v)).count(
                x,
            ) by {
            assert(busy_jobs(upd).add(job_of(ws[i])).count(x) == busy_jobs(rest).count(x) + job_of(
                v,
            ).count(x) + job_of(ws[i]).count(x));
            assert(busy_jobs(ws).add(job_of(v)).count(x) == busy_jobs(rest).count(x) + job_of(
                ws[i],
            ).count(x) + job_of(v).count(x));
        }
        assert(busy_jobs(upd).add(job_of(ws[i])) =~= busy_jobs(ws).add(job_of(v)));
    } else {
        lemma_busy_jobs_update(rest, i, v);
        assert(upd.drop_last() =~= rest.update(i, v));
        assert(upd.last() == ws.last());
        assert(rest[i] == ws[i]);
        assert forall|x: u64|
            busy_jobs(upd).add(job_of(ws[i])).count(x) == busy_jobs(ws).add(job_of(v)).count(
                x,
            ) by {
            assert(busy_jobs(rest.update(i, v)).add(job_of(rest[i])).count(x) == busy_jobs(
                rest,
            ).add(job_of(v)).count(x));
            assert(busy_jobs(upd).add(job_of(ws[i])).count(x) == busy_jobs(rest.update(i, v)).count(
                x,
            ) + job_of(ws.last()).count(x) + job_of(ws[i]).count(x));
            assert(busy_jobs(ws).add(job_of(v)).count(x) == busy_jobs(rest).count(x) + job_of(
                ws.last(),
            ).count(x) + job_of(v).count(x));
        }
        assert(busy_jobs(upd).add(job_of(ws[i])) =~= busy_jobs(ws).add(job_of(v)));
    }
}

proof fn lemma_busy_jobs_take(ws: Seq<WorkerState>, i: int, j: u64)
    requires
        0 <= i < ws.len(),
        !(ws[i] is Busy),
    ensures
        busy_jobs(ws.update(i, WorkerState::Busy(j))) =~= busy_jobs(ws).insert(j),
{
    let v = WorkerState::Busy(j);
    lemma_busy_jobs_update(ws, i, v);
    assert forall|x: u64| busy_jobs(ws.update(i, v)).count(x) == busy_jobs(ws).insert(j).count(
        x,
    ) by {
        assert(busy_jobs(ws.update(i, v)).add(job_of(ws[i])).count(x) == busy_jobs(ws).add(
            job_of(v),
        ).count(x));
        assert(job_of(ws[i]).count(x) == 0);
        assert(Multiset::singleton(j).count(j) == 1);
        assert(busy_jobs(ws).insert(j).count(x) == busy_jobs(ws).count(x) + Multiset::singleton(
            j,
        ).count(x));
    }
}

proof fn lemma_busy_jobs_release(ws: Seq<WorkerState>, i: int, v: WorkerState, j: u64)
    requires
        0 <= i < ws.len(),
        ws[i] == WorkerState::Busy(j),
        !(v is Busy),
    ensures
        busy_jobs(ws.update(i, v)).insert(j) =~= busy_jobs(ws),
{
    lemma_busy_jobs_update(ws, i, v);
    assert forall|x: u64| busy_jobs(ws.update(i, v)).insert(j).count(x) == busy_jobs(ws).count(
        x,
    ) by {
        assert(busy_jobs(ws.update(i, v)).add(job_of(ws[i])).count(x) == busy_jobs(ws).add(
            job_of(v),
        ).count(x));
        assert(job_of(v).count(x) == 0);
        assert(Multiset::singleton(j).count(j) == 1);
        assert(job_of(ws[i]).count(x) == Multiset::empty().insert(j).count(x));
        assert(busy_jobs(ws.update(i, v)).insert(j).count(x) == busy_jobs(ws.update(i, v)).count(x)
            + Multiset::singleton(j).count(x));
    }
}

proof fn lemma_busy_jobs_keep(ws: Seq<WorkerState>, i: int, v: WorkerState)
    requires
        0 <= i < ws.len(),
        !(ws[i] is Busy),
        !(v is Busy),
    ensures
        busy_jobs(ws.update(i, v)) =~= busy_jobs(ws),
{
    lemma_busy_jobs_update(ws, i, v);
    assert forall|x: u64| busy_jobs(ws.update(i, v)).count(x) == busy_jobs(ws).count(x) by {
        assert(busy_jobs(ws.update(i, v)).add(job_of(ws[i])).count(x) == busy_jobs(ws).add(
            job_of(v),
        ).count(x));
        assert(job_of(ws[i]).count(x) == 0);
        assert(job_of(v).count(x) == 0);
    }
}

proof fn lemma_busy_jobs_none(ws: Seq<WorkerState>)
    requires
        forall|i: int| 0 <= i < ws.len() ==> !(#[trigger] ws[i] is Busy),
    ensures
        busy_jobs(ws) =~= Multiset::empty(),
    decreases ws.len(),
{
    if ws.len() > 0 {
        lemma_busy_jobs_none(ws.drop_last());
        assert(ws.last() == ws[ws.len() - 1]);
    }
}

proof fn lemma_failed_count_update(ws: Seq<WorkerState>, i: int, v: WorkerState)
    requires
        0 <= i < ws.len(),
        !(ws[i] is Failed),
        !(v is Failed),
    ensures
        failed_count(ws.update(i, v)) == failed_count(ws),
    decreases ws.len(),
{
    let upd = ws.update(i, v);
    if i == ws.len() - 1 {
        assert(upd.drop_last() =~= ws.drop_last());
        assert(upd.last() == v);
    } else {
        lemma_failed_count_update(ws.drop_last(), i, v);
        assert(upd.drop_last() =~= ws.drop_last().update(i, v));
        assert(upd.last() == ws.last());
    }
}

proof fn lemma_failed_count_mark(ws: Seq<WorkerState>, i: int)
    requires
        0 <= i < ws.len(),
        !(ws[i] is Failed),
    ensures
        failed_count(ws.update(i, WorkerState::Failed)) == failed_count(ws) + 1,
    decreases ws.len(),
{
    let upd = ws.update(i, WorkerState::Failed);
    if i == ws.len() - 1 {
        assert(upd.drop_last() =~= ws.drop_last());
        assert(upd.last() == WorkerState::Failed);
    } else {
        lemma_failed_count_mark(ws.drop_last(), i);
        assert(upd.drop_last() =~= ws.drop_last().update(i, WorkerState::Failed));
        assert(upd.last() == ws.last());
    }
}

proof fn lemma_failed_count_none(ws: Seq<WorkerState>)
    requires
        forall|i: int| 0 <= i < ws.len() ==> !(#[trigger] ws[i] is Failed),
    ensures
        failed_count(ws) == 0,
    decreases ws.len(),
{
    if ws.len() > 0 {
        lemma_failed_count_none(ws.drop_last());
        assert(ws.last() == ws[ws.len() - 1]);
    }
}

/// The pool's protocol state. Fields are public so that callers and tests can
/// observe the bookkeeping; every operation requires and preserves `wf`.
#[derive(Debug)]
pub struct WorkerPool {
    /// Where the pool stands in its lifecycle.
    pub phase: PoolPhase,
    /// Jobs sent but not yet taken by any worker, in submission order.
    pub queue: Vec<u64>,
    /// One state per worker, indexed by the worker's identity.
    pub workers: Vec<WorkerState>,
    /// Every job ever submitted, in submission order.
    pub submitted: Vec<u64>,
    /// Every job taken off the channel, in the order it was taken.
    pub delivered: Vec<u64>,
    /// Jobs whose execution finished normally, in completion order.
    pub completed: Vec<u64>,
    /// Jobs whose execution ended abnormally.
    pub failed: Vec<u64>,
}

impl WorkerPool {
    /// All executions that have been observed, successful or not.
    pub open spec fn executed(self) -> Multiset<u64> {
        self.completed@.to_multiset().add(self.failed@.to_multiset())
    }

    /// Some worker has already retired.
    pub open spec fn has_retired(self) -> bool {
        exists|i: int| 0 <= i < self.workers@.len() && (#[trigger] self.workers@[i]) is Retired
    }

    /// Every worker is done, one way or the other.
    pub open spec fn all_terminal(self) -> bool {
        forall|i: int| 0 <= i < self.workers@.len() ==> is_terminal(#[trigger] self.workers@[i])
    }

    /// Every worker retired gracefully; none was lost to a failing job.
    pub open spec fn graceful(self) -> bool {
        forall|i: int| 0 <= i < self.workers@.len() ==> (#[trigger] self.workers@[i]) is Retired
    }

    /// The protocol invariant:
    /// - the pool is never empty;
    /// - the submission log splits exactly into the delivered jobs followed by
    ///   the queue, so delivery is FIFO and nothing is dropped;
    /// - every delivered job is in exactly one place: finished (normally or
    ///   abnormally) or currently on a worker;
    /// - the failure log counts exactly the failed workers;
    /// - once a worker has retired, submission is closed and the queue is
    ///   empty, so a retired worker never misses a job;
    /// - a terminated pool has only terminal workers.
    pub open spec fn wf(self) -> bool {
        &&& self.workers@.len() >= 1
        &&& self.submitted@ == self.delivered@ + self.queue@
        &&& self.delivered@.to_multiset() == self.executed().add(busy_jobs(self.workers@))
        &&& self.failed@.len() == failed_count(self.workers@)
        &&& (self.has_retired() ==> !(self.phase is Active) && self.queue@.len() == 0)
        &&& (self.phase is Terminated ==> self.all_terminal())
    }

    /// A pool as `build` hands it out: active, all workers idle, no history.
    pub open spec fn is_fresh(self, size: nat) -> bool {
        &&& self.phase is Active
        &&& self.workers@.len() == size
        &&& (forall|i: int| 0 <= i < self.workers@.len() ==> (#[trigger] self.workers@[i]) is Idle)
        &&& self.queue@.len() == 0
        &&& self.submitted@.len() == 0
        &&& self.delivered@.len() == 0
        &&& self.completed@.len() == 0
        &&& self.failed@.len() == 0
    }

    /// Validated construction: a zero size is rejected with a
    /// `ConfigurationError` and nothing is created; any positive size yields a
    /// live pool of exactly that many idle workers.
    pub fn build(size: usize) -> (r: Result<WorkerPool, ConfigurationError>)
        ensures
            r is Ok <==> size >= 1,
            size >= 1 ==> r->Ok_0.wf() && r->Ok_0.is_fresh(size as nat),
            size == 0 ==> r->Err_0 == ConfigurationError,
    {
        if size > 0 {
            let mut workers: Vec<WorkerState> = Vec::new();
            let mut id: usize = 0;
            while id < size
                invariant
                    id <= size,
                    workers@.len() == id,
                    forall|i: int| 0 <= i < id ==> (#[trigger] workers@[i]) is Idle,
                decreases size - id,
            {
                workers.push(WorkerState::Idle);
                id += 1;
            }
            let p = WorkerPool {
                phase: PoolPhase::Active,
                queue: Vec::new(),
                workers,
                submitted: Vec::new(),
                delivered: Vec::new(),
                completed: Vec::new(),
                failed: Vec::new(),
            };
            proof {
                assert(p.submitted@ =~= p.delivered@ + p.queue@);
                lemma_busy_jobs_none(p.workers@);
                lemma_failed_count_none(p.workers@);
                assert(p.delivered@.to_multiset() =~= p.executed().add(busy_jobs(p.workers@)));
            }
            Ok(p)
        } else {
            Err(ConfigurationError)
        }
    }

    /// Construction that treats a zero size as a caller error rather than a
    /// reported one; verified callers must pass a positive size.
    pub fn new(size: usize) -> (r: WorkerPool)
        requires
            size >= 1,
        ensures
            r.wf() && r.is_fresh(size as nat),
    {
        WorkerPool::build(size).unwrap()
    }

    /// Hand one job to the pool. While the pool is alive, submission never
    /// blocks and never fails: the job lands at the back of the queue.
    pub fn submit(&mut self, job: u64)
        requires
            old(self).wf(),
            old(self).phase is Active,
        ensures
            final(self).wf(),
            final(self).queue@ == old(self).queue@.push(job),
            final(self).submitted@ == old(self).submitted@.push(job),
            final(self).phase == old(self).phase,
            final(self).workers@ == old(self).workers@,
            final(self).delivered@ == old(self).delivered@,
            final(self).completed@ == old(self).completed@,
            final(self).failed@ == old(self).failed@,
    {
        self.queue.push(job);
        self.submitted.push(job);
        proof {
            assert(self.submitted@ =~= self.delivered@ + self.queue@);
        }
    }

    /// Drop the sending handle: the sole signal that no more jobs are coming.
    pub fn begin_shutdown(&mut self)
        requires
            old(self).wf(),
            old(self).phase is Active,
        ensures
            final(self).wf(),
            final(self).phase is ShuttingDown,
            final(self).queue@ == old(self).queue@,
            final(self).workers@ == old(self).workers@,
            final(self).submitted@ == old(self).submitted@,
            final(self).delivered@ == old(self).delivered@,
            final(self).completed@ == old(self).completed@,
            final(self).failed@ == old(self).failed@,
    {
        self.phase = PoolPhase::ShuttingDown;
    }

    /// Worker `w` acquires the lock on the receiving handle and takes the job
    /// at the front of the queue. No other worker can ever take the same job.
    pub fn worker_take(&mut self, w: usize) -> (job: u64)
        requires
            old(self).wf(),
            w < old(self).workers@.len(),
            old(self).workers@[w as int] is Idle,
            old(self).queue@.len() > 0,
        ensures
            final(self).wf(),
            job == old(self).queue@[0],
            final(self).queue@ == old(self).queue@.remove(0),
            final(self).delivered@ == old(self).delivered@.push(job),
            final(self).workers@ == old(self).workers@.update(w as int, WorkerState::Busy(job)),
            final(self).phase == old(self).phase,
            final(self).submitted@ == old(self).submitted@,
            final(self).completed@ == old(self).completed@,
            final(self).failed@ == old(self).failed@,
    {
        let job = self.queue.remove(0);
        self.delivered.push(job);
        self.workers.set(w, WorkerState::Busy(job));
        proof {
            let ws0 = old(self).workers@;
            assert(self.submitted@ =~= self.delivered@ + self.queue@);
            lemma_busy_jobs_take(ws0, w as int, job);
            assert(self.delivered@ == old(self).delivered@.push(job));
            assert(old(self).delivered@.push(job).to_multiset() =~= old(
                self,
            ).delivered@.to_multiset().insert(job));
            assert forall|x: u64|
                self.delivered@.to_multiset().count(x) == self.executed().add(
                    busy_jobs(self.workers@),
                ).count(x) by {
                assert(old(self).delivered@.to_multiset().count(x) == old(self).executed().add(
                    busy_jobs(ws0),
                ).count(x));
                assert(busy_jobs(self.workers@).count(x) == busy_jobs(ws0).insert(job).count(x));
                assert(busy_jobs(ws0).insert(job).count(x) == busy_jobs(ws0).count(x)
                    + Multiset::singleton(job).count(x));
                assert(self.delivered@.to_multiset().count(x) == old(
                    self,
                ).delivered@.to_multiset().insert(job).count(x));
            }
            assert(self.delivered@.to_multiset() =~= self.executed().add(busy_jobs(self.workers@)));
            lemma_failed_count_update(ws0, w as int, WorkerState::Busy(job));
            assert(!final(self).has_retired()) by {
                if final(self).has_retired() {
                    let i = choose|i: int|
                        0 <= i < self.workers@.len() && (#[trigger] self.workers@[i]) is Retired;
                    assert(ws0[i] is Retired);
                    assert(old(self).has_retired());
                }
            }
        }
        job
    }

    /// The job on worker `w` finished executing: normally when `ok` is true,
    /// abnormally otherwise. A failure is confined to this one worker: every
    /// other worker, the queue, and the logs of the other jobs are untouched;
    /// the pool only loses this worker's capacity for the rest of its life.
    pub fn worker_finish(&mut self, w: usize, ok: bool)
        requires
            old(self).wf(),
            w < old(self).workers@.len(),
            old(self).workers@[w as int] is Busy,
        ensures
            final(self).wf(),
            ok ==> final(self).workers@ == old(self).workers@.update(w as int, WorkerState::Idle),
            ok ==> final(self).completed@ == old(self).completed@.push(
                old(self).workers@[w as int]->Busy_0,
            ),
            ok ==> final(self).failed@ == old(self).failed@,
            !ok ==> final(self).workers@ == old(self).workers@.update(w as int, WorkerState::Failed),
            !ok ==> final(self).failed@ == old(self).failed@.push(
                old(self).workers@[w as int]->Busy_0,
            ),
            !ok ==> final(self).completed@ == old(self).completed@,
            final(self).phase == old(self).phase,
            final(self).queue@ == old(self).queue@,
            final(self).submitted@ == old(self).submitted@,
            final(self).delivered@ == old(self).delivered@,
            forall|i: int|
                0 <= i < old(self).workers@.len() && i != w ==> final(self).workers@[i] == old(
                    self,
                ).workers@[i],
    {
        let job: u64 = match self.workers[w] {
            WorkerState::Busy(j) => j,
            // never taken: the precondition says this worker is busy
            _ => {
                proof {
                    assert(false);
                }
                0
            },
        };
        if ok {
            self.workers.set(w, WorkerState::Idle);
            self.completed.push(job);
        } else {
            self.workers.set(w, WorkerState::Failed);
            self.failed.push(job);
        }
        proof {
            let ws0 = old(self).workers@;
            let newstate = if ok {
                WorkerState::Idle
            } else {
                WorkerState::Failed
            };
            assert(ws0[w as int] == WorkerState::Busy(job));
            lemma_busy_jobs_release(ws0, w as int, newstate, job);
            if ok {
                assert(self.completed@ == old(self).completed@.push(job));
                assert(old(self).completed@.push(job).to_multiset() =~= old(
                    self,
                ).completed@.to_multiset().insert(job));
            } else {
                assert(self.failed@ == old(self).failed@.push(job));
                assert(old(self).failed@.push(job).to_multiset() =~= old(
                    self,
                ).failed@.to_multiset().insert(job));
            }
            assert forall|x: u64|
                self.delivered@.to_multiset().count(x) == self.executed().add(
                    busy_jobs(self.workers@),
                ).count(x) by {
                assert(old(self).delivered@.to_multiset().count(x) == old(self).executed().add(
                    busy_jobs(ws0),
                ).count(x));
                assert(busy_jobs(self.workers@).insert(job).count(x) == busy_jobs(ws0).count(x));
                assert(busy_jobs(self.workers@).insert(job).count(x) == busy_jobs(
                    self.workers@,
                ).count(x) + Multiset::singleton(job).count(x));
                assert(Multiset::singleton(job).count(job) == 1);
                assert(self.executed().count(x) == self.completed@.to_multiset().count(x)
                    + self.failed@.to_multiset().count(x));
                assert(old(self).executed().count(x) == old(self).completed@.to_multiset().count(x)
                    + old(self).failed@.to_multiset().count(x));
            }
            assert(self.delivered@.to_multiset() =~= self.executed().add(busy_jobs(self.workers@)));
            if ok {
                lemma_failed_count_update(ws0, w as int, newstate);
            } else {
                lemma_failed_count_mark(ws0, w as int);
            }
            assert(final(self).has_retired() ==> old(self).has_retired()) by {
                if final(self).has_retired() {
                    let i = choose|i: int|
                        0 <= i < self.workers@.len() && (#[trigger] self.workers@[i]) is Retired;
                    assert(ws0[i] is Retired);
                }
            }
        }
    }

    /// Worker `w` observes the closed, drained channel and ends its loop.
    pub fn worker_retire(&mut self, w: usize)
        requires
            old(self).wf(),
            old(self).phase is ShuttingDown,
            old(self).queue@.len() == 0,
            w < old(self).workers@.len(),
            old(self).workers@[w as int] is Idle,
        ensures
            final(self).wf(),
            final(self).workers@ == old(self).workers@.update(w as int, WorkerState::Retired),
            final(self).phase == old(self).phase,
            final(self).queue@ == old(self).queue@,
            final(self).submitted@ == old(self).submitted@,
            final(self).delivered@ == old(self).delivered@,
            final(self).completed@ == old(self).completed@,
            final(self).failed@ == old(self).failed@,
    {
        self.workers.set(w, WorkerState::Retired);
        proof {
            let ws0 = old(self).workers@;
            lemma_busy_jobs_keep(ws0, w as int, WorkerState::Retired);
            assert(self.delivered@.to_multiset() =~= self.executed().add(busy_jobs(self.workers@)));
            lemma_failed_count_update(ws0, w as int, WorkerState::Retired);
        }
    }

    /// Every worker thread was joined, in construction order, by the owner of
    /// the pool: the pool is terminated. Joining blocks until each worker is
    /// done, so this transition needs every worker to be in a terminal state.
    pub fn finish_shutdown(&mut self)
        requires
            old(self).wf(),
            old(self).phase is ShuttingDown,
            old(self).all_terminal(),
        ensures
            final(self).wf(),
            final(self).phase is Terminated,
            final(self).queue@ == old(self).queue@,
            final(self).workers@ == old(self).workers@,
            final(self).submitted@ == old(self).submitted@,
            final(self).delivered@ == old(self).delivered@,
            final(self).completed@ == old(self).completed@,
            final(self).failed@ == old(self).failed@,
    {
        self.phase = PoolPhase::Terminated;
    }
}

/// Law: a pool that terminated gracefully executed every submitted job exactly
/// once. For any pool size and any number of submissions, the multiset of
/// completed executions equals the multiset of submissions: no job ran twice,
/// none was lost, and the count of observed executions is exactly the count of
/// submissions.
pub proof fn lemma_exactly_once(m: WorkerPool)
    requires
        m.wf(),
        m.phase is Terminated,
        m.graceful(),
    ensures
        m.completed@.to_multiset() == m.submitted@.to_multiset(),
        m.completed@.len() == m.submitted@.len(),
        m.failed@.len() == 0,
        m.queue@.len() == 0,
{
    lemma_busy_jobs_none(m.workers@);
    lemma_failed_count_none(m.workers@);
    assert(m.workers@[0] is Retired);
    assert(m.has_retired());
    assert(m.failed@.to_multiset() =~= Multiset::empty());
    assert(m.submitted@ =~= m.delivered@);
    assert(m.completed@.to_multiset() =~= m.submitted@.to_multiset());
    assert(m.completed@.to_multiset().len() == m.completed@.len());
    assert(m.submitted@.to_multiset().len() == m.submitted@.len());
}

/// Law: whatever happened along the way, a terminated pool has executed each
/// delivered job exactly once, and the submission log is exactly the delivered
/// jobs followed by the jobs left in the queue; nothing was duplicated or
/// silently dropped.
pub proof fn lemma_executions_match_deliveries(m: WorkerPool)
    requires
        m.wf(),
        m.phase is Terminated,
    ensures
        m.completed@.to_multiset().add(m.failed@.to_multiset()) == m.delivered@.to_multiset(),
        m.submitted@ == m.delivered@ + m.queue@,
{
    assert forall|i: int| 0 <= i < m.workers@.len() implies !(#[trigger] m.workers@[i] is Busy) by {
        assert(is_terminal(m.workers@[i]));
    }
    lemma_busy_jobs_none(m.workers@);
    assert(m.completed@.to_multiset().add(m.failed@.to_multiset()) =~= m.delivered@.to_multiset());
}

/// Law: jobs are delivered to workers in submission order; the delivery log is
/// always a prefix of the submission log.
pub proof fn lemma_fifo_delivery(m: WorkerPool)
    requires
        m.wf(),
    ensures
        m.delivered@ == m.submitted@.take(m.delivered@.len() as int),
{
    assert(m.delivered@ =~= m.submitted@.take(m.delivered@.len() as int));
}

/// `s` is some arbitrary interleaving of the two sequences `a` and `b`, each
/// of which keeps its own relative order inside `s`.
pub open spec fn is_interleaving(a: Seq<u64>, b: Seq<u64>, s: Seq<u64>) -> bool
    decreases s.len(),
{
    if s.len() == 0 {
        a.len() == 0 && b.len() == 0
    } else {
        ||| (a.len() > 0 && a.last() == s.last() && is_interleaving(a.drop_last(), b, s.drop_last()))
        ||| (b.len() > 0 && b.last() == s.last() && is_interleaving(a, b.drop_last(), s.drop_last()))
    }
}

/// However two submitters' jobs interleave, the interleaving carries exactly
/// the union of both submitters' jobs.
pub proof fn lemma_interleaving_multiset(a: Seq<u64>, b: Seq<u64>, s: Seq<u64>)
    requires
        is_interleaving(a, b, s),
    ensures
        s.to_multiset() == a.to_multiset().add(b.to_multiset()),
    decreases s.len(),
{
    if s.len() == 0 {
        assert(s.to_multiset() =~= a.to_multiset().add(b.to_multiset()));
    } else {
        if a.len() > 0 && a.last() == s.last() && is_interleaving(a.drop_last(), b, s.drop_last()) {
            lemma_interleaving_multiset(a.drop_last(), b, s.drop_last());
            assert(s =~= s.drop_last().push(s.last()));
            assert(a =~= a.drop_last().push(a.last()));
            assert(s.to_multiset() =~= a.to_multiset().add(b.to_multiset()));
        } else {
            lemma_interleaving_multiset(a, b.drop_last(), s.drop_last());
            assert(s =~= s.drop_last().push(s.last()));
            assert(b =~= b.drop_last().push(b.last()));
            assert(s.to_multiset() =~= a.to_multiset().add(b.to_multiset()));
        }
    }
}

/// Law: two concurrent submitters whose jobs reached the pool in an arbitrary
/// interleaving still get exactly the union of their jobs executed, each
/// exactly once, when the pool terminates gracefully.
pub proof fn lemma_concurrent_submitters(m: WorkerPool, a: Seq<u64>, b: Seq<u64>)
    requires
        m.wf(),
        m.phase is Terminated,
        m.graceful(),
        is_interleaving(a, b, m.submitted@),
    ensures
        m.completed@.to_multiset() == a.to_multiset().add(b.to_multiset()),
{
    lemma_exactly_once(m);
    lemma_interleaving_multiset(a, b, m.submitted@);
}

/// Law: with distinct job tags, no job is ever executed twice: a gracefully
/// terminated pool's completion log repeats no tag and holds exactly the
/// submitted tags.
pub proof fn lemma_no_double_execution(m: WorkerPool)
    requires
        m.wf(),
        m.phase is Terminated,
        m.graceful(),
        m.submitted@.no_duplicates(),
    ensures
        m.completed@.no_duplicates(),
        forall|j: u64| m.completed@.contains(j) <==> m.submitted@.contains(j),
{
    lemma_exactly_once(m);
    m.submitted@.lemma_multiset_has_no_duplicates();
    m.completed@.lemma_multiset_has_no_duplicates_conv();
    assert forall|j: u64| m.completed@.contains(j) <==> m.submitted@.contains(j) by {
        assert(m.completed@.to_multiset().count(j) == m.submitted@.to_multiset().count(j));
    }
}

/// `s` is an interleaving of all the sequences in `subs`, each of which keeps
/// its own relative order inside `s`.
pub open spec fn is_interleaving_of_all(subs: Seq<Seq<u64>>, s: Seq<u64>) -> bool
    decreases s.len(),
{
    if s.len() == 0 {
        forall|k: int| 0 <= k < subs.len() ==> #[trigger] subs[k].len() == 0
    } else {
        exists|k: int|
            {
                &&& 0 <= k < subs.len()
                &&& #[trigger] subs[k].len() > 0
                &&& subs[k].last() == s.last()
                &&& is_interleaving_of_all(subs.update(k, subs[k].drop_last()), s.drop_last())
            }
    }
}

/// All submitters' jobs thrown together.
pub open spec fn union_of_all(subs: Seq<Seq<u64>>) -> Multiset<u64>
    decreases subs.len(),
{
    if subs.len() == 0 {
        Multiset::empty()
    } else {
        union_of_all(subs.drop_last()).add(subs.last().to_multiset())
    }
}

proof fn lemma_union_of_all_update(subs: Seq<Seq<u64>>, k: int, v: Seq<u64>)
    requires
        0 <= k < subs.len(),
    ensures
        union_of_all(subs.update(k, v)).add(subs[k].to_multiset()) =~= union_of_all(subs).add(
            v.to_multiset(),
        ),
    decreases subs.len(),
{
    let upd = subs.update(k, v);
    let rest = subs.drop_last();
    assert(union_of_all(upd) == union_of_all(upd.drop_last()).add(upd.last().to_multiset()));
    assert(union_of_all(subs) == union_of_all(rest).add(subs.last().to_multiset()));
    if k == subs.len() - 1 {
        assert(upd.drop_last() =~= rest);
        assert(upd.last() == v);
        assert(subs.last() == subs[k]);
        assert forall|x: u64|
            union_of_all(upd).add(subs[k].to_multiset()).count(x) == union_of_all(subs).add(
                v.to_multiset(),
            ).count(x) by {
            assert(union_of_all(upd).add(subs[k].to_multiset()).count(x) == union_of_all(
                rest,
            ).count(x) + v.to_multiset().count(x) + subs[k].to_multiset().count(x));
            assert(union_of_all(subs).add(v.to_multiset()).count(x) == union_of_all(rest).count(x)
                + subs[k].to_multiset().count(x) + v.to_multiset().count(x));
        }
        assert(union_of_all(upd).add(subs[k].to_multiset()) =~= union_of_all(subs).add(
            v.to_multiset(),
        ));
    } else {
        lemma_union_of_all_update(rest, k, v);
        assert(upd.drop_last() =~= rest.update(k, v));
        assert(upd.last() == subs.last());
        assert(rest[k] == subs[k]);
        assert forall|x: u64|
            union_of_all(upd).add(subs[k].to_multiset()).count(x) == union_of_all(subs).add(
                v.to_multiset(),
            ).count(x) by {
            assert(union_of_all(rest.update(k, v)).add(rest[k].to_multiset()).count(x)
                == union_of_all(rest).add(v.to_multiset()).count(x));
            assert(union_of_all(upd).add(subs[k].to_multiset()).count(x) == union_of_all(
                rest.update(k, v),
            ).count(x) + subs.last().to_multiset().count(x) + subs[k].to_multiset().count(x));
            assert(union_of_all(subs).add(v.to_multiset()).count(x) == union_of_all(rest).count(x)
                + subs.last().to_multiset().count(x) + v.to_multiset().count(x));
        }
        assert(union_of_all(upd).add(subs[k].to_multiset()) =~= union_of_all(subs).add(
            v.to_multiset(),
        ));
    }
}

proof fn lemma_union_of_all_empty(subs: Seq<Seq<u64>>)
    requires
        forall|k: int| 0 <= k < subs.len() ==> #[trigger] subs[k].len() == 0,
    ensures
        union_of_all(subs) =~= Multiset::empty(),
    decreases subs.len(),
{
    if subs.len() > 0 {
        lemma_union_of_all_empty(subs.drop_last());
        assert(subs.last() == subs[subs.len() - 1]);
        assert(subs.last().to_multiset() =~= Multiset::empty());
    }
}

/// However arbitrarily many submitters' jobs interleave, the interleaving
/// carries exactly the union of all their jobs.
pub proof fn lemma_interleaving_of_all_multiset(subs: Seq<Seq<u64>>, s: Seq<u64>)
    requires
        is_interleaving_of_all(subs, s),
    ensures
        s.to_multiset() == union_of_all(subs),
    decreases s.len(),
{
    if s.len() == 0 {
        lemma_union_of_all_empty(subs);
        assert(s.to_multiset() =~= Multiset::empty());
    } else {
        let k = choose|k: int|
            {
                &&& 0 <= k < subs.len()
                &&& #[trigger] subs[k].len() > 0
                &&& subs[k].last() == s.last()
                &&& is_interleaving_of_all(subs.update(k, subs[k].drop_last()), s.drop_last())
            };
        let shorter = subs.update(k, subs[k].drop_last());
        lemma_interleaving_of_all_multiset(shorter, s.drop_last());
        lemma_union_of_all_update(subs, k, subs[k].drop_last());
        assert(s =~= s.drop_last().push(s.last()));
        assert(subs[k] =~= subs[k].drop_last().push(subs[k].last()));
        assert forall|x: u64| s.to_multiset().count(x) == union_of_all(subs).count(x) by {
            assert(s.drop_last().push(s.last()).to_multiset() =~= s.drop_last().to_multiset().insert(
                s.last(),
            ));
            assert(subs[k].drop_last().push(subs[k].last()).to_multiset()
                =~= subs[k].drop_last().to_multiset().insert(subs[k].last()));
            assert(union_of_all(shorter).add(subs[k].to_multiset()).count(x) == union_of_all(
                subs,
            ).add(subs[k].drop_last().to_multiset()).count(x));
            assert(Multiset::singleton(s.last()).count(s.last()) == 1);
            assert(s.drop_last().to_multiset().insert(s.last()).count(x)
                == s.drop_last().to_multiset().count(x) + Multiset::singleton(s.last()).count(x));
            assert(subs[k].drop_last().to_multiset().insert(subs[k].last()).count(x)
                == subs[k].drop_last().to_multiset().count(x) + Multiset::singleton(
                subs[k].last(),
            ).count(x));
        }
        assert(s.to_multiset() =~= union_of_all(subs));
    }
}

/// Law: arbitrarily many concurrent submitters whose jobs reached the pool in
/// any interleaving still get exactly the union of all their jobs executed,
/// each exactly once, when the pool terminates gracefully.
pub proof fn lemma_many_concurrent_submitters(m: WorkerPool, subs: Seq<Seq<u64>>)
    requires
        m.wf(),
        m.phase is Terminated,
        m.graceful(),
        is_interleaving_of_all(subs, m.submitted@),
    ensures
        m.completed@.to_multiset() == union_of_all(subs),
{
    lemma_exactly_once(m);
    lemma_interleaving_of_all_multiset(subs, m.submitted@);
}

/// Law: shutdown is total. A graceful termination means the queue was drained
/// and every job submitted before the shutdown began finished executing before
/// the owner regained control.
pub proof fn lemma_shutdown_total(m: WorkerPool)
    requires
        m.wf(),
        m.phase is Terminated,
        m.graceful(),
    ensures
        m.queue@.len() == 0,
        forall|j: u64| #[trigger]
            m.submitted@.contains(j) ==> m.completed@.contains(j),
{
    lemma_exactly_once(m);
    assert forall|j: u64| #[trigger] m.submitted@.contains(j) implies m.completed@.contains(j) by {
        assert(m.submitted@.to_multiset().count(j) > 0);
        assert(m.completed@.to_multiset().count(j) > 0);
    }
}

} // verus!
