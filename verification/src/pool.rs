//! The worker pool: a fixed set of workers fanning out jobs from one
//! shared queue, with orderly, total shutdown.

use vstd::prelude::*;
use vstd::pervasive::VecAdditionalExecFns;

use crate::queue::JobQueue;
use crate::queue::RecvOutcome;

verus! {

/// Why pool construction failed: a size of zero is a contract violation,
/// while failure to spawn a worker's thread is a recoverable condition the
/// caller may retry or abort on.
#[derive(Clone, Copy, Debug, PartialEq, Eq, Structural)]
pub enum PoolCreationError {
    NegativePoolSize,
    ThreadSpawnError,
}

impl PoolCreationError {
    /// A short human-readable description of the failure.
    pub fn message(&self) -> (s: String)
        ensures
            *self is NegativePoolSize ==> s@ == "invalid pool size: a pool needs at least one worker"@,
            *self is ThreadSpawnError ==> s@ == "could not spawn a worker thread"@,
    {
        match self {
            PoolCreationError::NegativePoolSize => "invalid pool size: a pool needs at least one worker".to_owned(),
            PoolCreationError::ThreadSpawnError => "could not spawn a worker thread".to_owned(),
        }
    }
}

/// A worker's lifecycle: it loops on the queue until it observes closure,
/// after which its thread has exited and its join handle is consumed.
/// The terminal state is final.
#[derive(Clone, Copy, Debug, PartialEq, Eq, Structural)]
pub enum WorkerState {
    Running,
    Terminated,
}

/// What a worker's blocking wait on the queue came back with.
pub enum QueueMessage<J> {
    /// A job to execute.
    NewJob(J),
    /// The producer handle is gone and nothing is left: shut down.
    Disconnected,
}

/// One worker, identified by a small ordinal id.
#[derive(Clone, Copy, Debug)]
pub struct Worker {
    pub id: usize,
    pub state: WorkerState,
}

impl Worker {
    /// A fresh worker with the given id, ready to pull jobs.
    pub fn build(id: usize) -> (w: Worker)
        ensures
            w.id == id,
            w.state is Running,
    {
        Worker { id, state: WorkerState::Running }
    }
}

/// One turn of a running worker's loop: a job keeps the worker running
/// and is executed exactly once by the caller; a disconnect terminates the
/// worker, which never runs again.
pub fn worker_step<J>(state: WorkerState, msg: QueueMessage<J>) -> (r: (WorkerState, Option<J>))
    requires
        state is Running,
    ensures
        (msg matches QueueMessage::NewJob(j) ==> r.0 is Running && r.1 == Some(j)),
        (msg is Disconnected ==> r.0 is Terminated && r.1 is None),
{
    match msg {
        QueueMessage::NewJob(job) => (WorkerState::Running, Some(job)),
        QueueMessage::Disconnected => (WorkerState::Terminated, None),
    }
}

/// The pool: an ordered, fixed collection of workers (size at least one,
/// immutable after construction) and the one queue they all share. The
/// pool holds the producer handle; shutdown releases it and then waits for
/// every worker in construction order.
pub struct ThreadPool<J> {
    workers: Vec<Worker>,
    queue: JobQueue<J>,
}

impl<J> ThreadPool<J> {
    /// The workers, in construction order.
    pub closed spec fn workers(self) -> Seq<Worker> {
        self.workers@
    }

    /// The shared queue, as a specification-level value.
    pub closed spec fn queue(self) -> JobQueue<J> {
        self.queue
    }

    /// Every job ever submitted, in submission order.
    pub closed spec fn sent(self) -> Seq<J> {
        self.queue.sent()
    }

    /// Every job handed to a worker, in delivery order.
    pub closed spec fn delivered(self) -> Seq<J> {
        self.queue.delivered()
    }

    /// The jobs submitted but not yet taken by any worker, oldest first.
    pub closed spec fn pending(self) -> Seq<J> {
        self.queue.pending()
    }

    /// The jobs dropped undelivered by a teardown.
    pub closed spec fn discarded(self) -> Seq<J> {
        self.queue.discarded()
    }

    /// Whether the pool still holds the producer handle, i.e. accepts
    /// submissions.
    pub closed spec fn is_open(self) -> bool {
        !self.queue.is_closed()
    }

    /// The pool's invariant: the queue is well-formed, there is at least
    /// one worker, worker ids are their positions, and a worker only ever
    /// terminates after the queue has closed.
    pub open spec fn wf(self) -> bool {
        &&& self.queue().wf()
        &&& self.workers().len() >= 1
        &&& forall|k: int|
            0 <= k < self.workers().len() ==> (#[trigger] self.workers()[k]).id == k
        &&& forall|k: int|
            0 <= k < self.workers().len() && (#[trigger] self.workers()[k]).state is Terminated
                ==> !self.is_open()
    }

    /// Builds a pool of exactly `size` workers, all running, sharing a
    /// fresh empty queue. A requested size of zero is rejected as a
    /// contract violation; it never yields an empty pool.
    pub fn build(size: usize) -> (r: Result<ThreadPool<J>, PoolCreationError>)
        ensures
            size == 0 ==> r is Err && r == Err::<ThreadPool<J>, _>(
                PoolCreationError::NegativePoolSize,
            ),
            size >= 1 ==> (r matches Ok(p)
                && p.wf()
                && p.workers().len() == size
                && (forall|k: int|
                    0 <= k < size ==> (#[trigger] p.workers()[k]).state is Running)
                && p.is_open()
                && p.sent() == Seq::<J>::empty()
                && p.delivered() == Seq::<J>::empty()
                && p.pending() == Seq::<J>::empty()
                && p.discarded() == Seq::<J>::empty()),
    {
        if size == 0 {
            return Err(PoolCreationError::NegativePoolSize);
        }
        let mut workers: Vec<Worker> = Vec::new();
        let mut id: usize = 0;
        while id < size
            invariant
                id <= size,
                workers@.len() == id,
                forall|k: int|
                    0 <= k < id ==> (#[trigger] workers@[k]).id == k && workers@[k].state
                        is Running,
            decreases size - id,
        {
            workers.push(Worker::build(id));
            id += 1;
        }
        Ok(ThreadPool { workers, queue: JobQueue::new() })
    }

    /// Submits a job: it is appended to the back of the shared queue and
    /// the caller returns immediately, without waiting for execution.
    /// Only callable while the pool is open (before shutdown).
    pub fn execute(&mut self, job: J)
        requires
            old(self).wf(),
            old(self).is_open(),
        ensures
            final(self).wf(),
            final(self).is_open(),
            final(self).workers() == old(self).workers(),
            final(self).sent() == old(self).sent().push(job),
            final(self).pending() == old(self).pending().push(job),
            final(self).delivered() == old(self).delivered(),
            final(self).discarded() == old(self).discarded(),
    {
        self.queue.send(job);
    }

    /// One scheduling turn for worker `i`, which must still be running:
    /// the oldest pending job, if any, is taken (the caller executes it on
    /// that worker's behalf) and the worker keeps running; on a closed,
    /// empty queue the worker terminates; on an open, empty queue the
    /// worker merely waits. No other worker's state is read or changed.
    pub fn step_worker(&mut self, i: usize) -> (r: RecvOutcome<J>)
        requires
            old(self).wf(),
            i < old(self).workers().len(),
            old(self).workers()[i as int].state is Running,
        ensures
            final(self).wf(),
            final(self).workers().len() == old(self).workers().len(),
            forall|k: int|
                0 <= k < old(self).workers().len() && k != i ==> final(self).workers()[k]
                    == old(self).workers()[k],
            final(self).is_open() == old(self).is_open(),
            final(self).sent() == old(self).sent(),
            final(self).discarded() == old(self).discarded(),
            old(self).pending().len() > 0 ==> (r matches RecvOutcome::Job(j)
                && j == old(self).pending()[0]
                && final(self).workers()[i as int] == old(self).workers()[i as int]
                && final(self).pending() == old(self).pending().drop_first()
                && final(self).delivered() == old(self).delivered().push(
                old(self).pending()[0],
            )),
            old(self).pending().len() == 0 && !old(self).is_open() ==> (r is Closed
                && final(self).workers()[i as int].id == i
                && final(self).workers()[i as int].state is Terminated
                && final(self).pending() == old(self).pending()
                && final(self).delivered() == old(self).delivered()),
            old(self).pending().len() == 0 && old(self).is_open() ==> (r is Waiting
                && *final(self) == *old(self)),
    {
        match self.queue.recv() {
            RecvOutcome::Job(job) => {
                let step = worker_step(self.workers[i].state, QueueMessage::NewJob(job));
                self.workers.set(i, Worker { id: i, state: step.0 });
                proof {
                    assert(self.workers@ =~= old(self).workers());
                }
                match step.1 {
                    Some(job) => RecvOutcome::Job(job),
                    None => {
                        proof {
                            assert(false);
                        }
                        RecvOutcome::Waiting
                    },
                }
            },
            RecvOutcome::Closed => {
                let step = worker_step::<J>(self.workers[i].state, QueueMessage::Disconnected);
                self.workers.set(i, Worker { id: i, state: step.0 });
                RecvOutcome::Closed
            },
            RecvOutcome::Waiting => RecvOutcome::Waiting,
        }
    }

    /// Tears the pool down: the producer handle is released (closing the
    /// queue), jobs still pending are returned undelivered — they will
    /// never run — and then every worker, in construction order, is waited
    /// for until terminated; a worker already terminated is skipped. When
    /// this returns, no worker is left running. Idempotent: a second call
    /// changes nothing and returns no jobs.
    pub fn shutdown(&mut self) -> (undelivered: Vec<J>)
        requires
            old(self).wf(),
        ensures
            final(self).wf(),
            !final(self).is_open(),
            final(self).workers().len() == old(self).workers().len(),
            forall|k: int|
                0 <= k < final(self).workers().len() ==> (#[trigger] final(self).workers()[k]).id
                    == k && final(self).workers()[k].state is Terminated,
            final(self).pending().len() == 0,
            undelivered@ == old(self).pending(),
            final(self).sent() == old(self).sent(),
            final(self).delivered() == old(self).delivered(),
            final(self).discarded() == old(self).discarded() + old(self).pending(),
    {
        self.queue.close();
        let undelivered = self.queue.discard_pending();
        let mut i: usize = 0;
        while i < self.workers.len()
            invariant
                old(self).wf(),
                i <= self.workers@.len(),
                self.workers@.len() == old(self).workers().len(),
                self.queue.wf(),
                self.queue.is_closed(),
                self.queue.pending().len() == 0,
                self.queue.sent() == old(self).sent(),
                self.queue.delivered() == old(self).delivered(),
                self.queue.discarded() == old(self).discarded() + old(self).pending(),
                forall|k: int|
                    0 <= k < i ==> (#[trigger] self.workers@[k]).id == k && self.workers@[k].state
                        is Terminated,
                forall|k: int|
                    i <= k < self.workers@.len() ==> #[trigger] self.workers@[k]
                        == old(self).workers()[k],
            decreases self.workers@.len() - i,
        {
            match self.workers[i].state {
                WorkerState::Running => {
                    let step = worker_step::<J>(WorkerState::Running, QueueMessage::Disconnected);
                    self.workers.set(i, Worker { id: i, state: step.0 });
                },
                WorkerState::Terminated => {},
            }
            i += 1;
        }
        undelivered
    }

    /// How many workers the pool was built with.
    pub fn worker_count(&self) -> (n: usize)
        ensures
            n == self.workers().len(),
    {
        self.workers.len()
    }

    /// Whether worker `i` is still running (has not terminated).
    pub fn is_worker_running(&self, i: usize) -> (b: bool)
        requires
            i < self.workers().len(),
        ensures
            b == (self.workers()[i as int].state is Running),
    {
        match self.workers[i].state {
            WorkerState::Running => true,
            WorkerState::Terminated => false,
        }
    }

    /// How many submitted jobs no worker has taken yet.
    pub fn pending_count(&self) -> (n: usize)
        ensures
            n == self.pending().len(),
    {
        self.queue.pending_len()
    }
}

/// Exactly-once accounting at the pool level: at any moment, every job
/// ever submitted to a well-formed pool is accounted for exactly once —
/// delivered to some worker, still pending, or discarded by teardown.
pub proof fn lemma_pool_exactly_once<J>(p: ThreadPool<J>)
    requires
        p.wf(),
    ensures
        p.sent() == p.delivered() + p.pending() + p.discarded(),
{
}

/// Once nothing is pending and nothing was discarded, the jobs delivered
/// to workers are exactly the jobs submitted: all of them, each exactly
/// once, whatever the interleaving of submissions and worker turns was.
pub proof fn lemma_pool_drained_delivery<J>(p: ThreadPool<J>)
    requires
        p.wf(),
        p.pending().len() == 0,
        p.discarded().len() == 0,
    ensures
        p.delivered() == p.sent(),
{
    crate::queue::lemma_drained_delivery(p.queue);
}

/// FIFO delivery at the pool level: the jobs delivered so far are exactly
/// the first `delivered().len()` jobs submitted, in submission order; a
/// job submitted strictly before another is delivered before it.
pub proof fn lemma_pool_fifo<J>(p: ThreadPool<J>)
    requires
        p.wf(),
    ensures
        p.delivered() == p.sent().take(p.delivered().len() as int),
        forall|k: int| 0 <= k < p.delivered().len() ==> p.delivered()[k] == p.sent()[k],
{
    crate::queue::lemma_fifo_prefix(p.queue);
}

} // verus!
