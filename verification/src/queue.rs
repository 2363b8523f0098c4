//! The job queue: an ordered (FIFO) conduit of jobs with one producer
//! handle and an implicit close signal.
//!
//! Besides the pending jobs themselves, the queue carries a ghost history:
//! every job ever submitted (`sent`), every job handed to a consumer
//! (`delivered`), and every job dropped undelivered when the pool was torn
//! down (`discarded`). Well-formedness ties the three together, which is
//! what makes "no job is lost, none is run twice" a theorem rather than a
//! comment.

use vstd::prelude::*;

verus! {

/// What one attempt to take the next job observes.
pub enum RecvOutcome<J> {
    /// A job was available; the caller now owns it and must run it.
    Job(J),
    /// The queue is open but empty: a real consumer would block here.
    Waiting,
    /// The producer handle is gone and the queue is permanently empty.
    Closed,
}

/// An unbounded FIFO queue of jobs with a close signal and a ghost
/// delivery history.
pub struct JobQueue<J> {
    items: Vec<J>,
    closed: bool,
    sent: Ghost<Seq<J>>,
    delivered: Ghost<Seq<J>>,
    discarded: Ghost<Seq<J>>,
}

impl<J> JobQueue<J> {
    /// The jobs submitted but not yet delivered, oldest first.
    pub closed spec fn pending(self) -> Seq<J> {
        self.items@
    }

    /// Whether the producer handle has been released.
    pub closed spec fn is_closed(self) -> bool {
        self.closed
    }

    /// Every job ever submitted, in submission order.
    pub closed spec fn sent(self) -> Seq<J> {
        self.sent@
    }

    /// Every job handed to a consumer, in delivery order.
    pub closed spec fn delivered(self) -> Seq<J> {
        self.delivered@
    }

    /// Every job dropped undelivered at teardown, oldest first.
    pub closed spec fn discarded(self) -> Seq<J> {
        self.discarded@
    }

    /// The queue's invariant: every submitted job is accounted for exactly
    /// once — delivered, still pending, or discarded at teardown — and
    /// jobs are only ever discarded after the queue has closed.
    pub open spec fn wf(self) -> bool {
        &&& self.sent() == self.delivered() + self.pending() + self.discarded()
        &&& !self.is_closed() ==> self.discarded() == Seq::<J>::empty()
        &&& self.discarded().len() > 0 ==> self.pending().len() == 0
    }

    /// A fresh, open, empty queue with an empty history.
    pub fn new() -> (q: JobQueue<J>)
        ensures
            q.wf(),
            !q.is_closed(),
            q.pending() == Seq::<J>::empty(),
            q.sent() == Seq::<J>::empty(),
            q.delivered() == Seq::<J>::empty(),
            q.discarded() == Seq::<J>::empty(),
    {
        let q = JobQueue {
            items: Vec::new(),
            closed: false,
            sent: Ghost(Seq::empty()),
            delivered: Ghost(Seq::empty()),
            discarded: Ghost(Seq::empty()),
        };
        proof {
            assert(q.pending() =~= Seq::<J>::empty());
            assert(q.sent() =~= q.delivered() + q.pending() + q.discarded());
        }
        q
    }

    /// Enqueues a job at the back of the queue. Only callable while the
    /// producer handle is still held (the queue is open).
    pub fn send(&mut self, job: J)
        requires
            old(self).wf(),
            !old(self).is_closed(),
        ensures
            final(self).wf(),
            !final(self).is_closed(),
            final(self).pending() == old(self).pending().push(job),
            final(self).sent() == old(self).sent().push(job),
            final(self).delivered() == old(self).delivered(),
            final(self).discarded() == old(self).discarded(),
    {
        let ghost j = job;
        self.items.push(job);
        self.sent = Ghost(self.sent@.push(j));
        proof {
            assert(self.sent() =~= self.delivered() + self.pending() + self.discarded());
        }
    }

    /// Takes the next job if one is pending, oldest first; otherwise
    /// reports whether the caller would have to wait or the queue has
    /// closed for good.
    pub fn recv(&mut self) -> (r: RecvOutcome<J>)
        requires
            old(self).wf(),
        ensures
            final(self).wf(),
            final(self).is_closed() == old(self).is_closed(),
            final(self).sent() == old(self).sent(),
            final(self).discarded() == old(self).discarded(),
            old(self).pending().len() > 0 ==> (r matches RecvOutcome::Job(j)
                && j == old(self).pending()[0]
                && final(self).pending() == old(self).pending().drop_first()
                && final(self).delivered() == old(self).delivered().push(old(self).pending()[0])),
            old(self).pending().len() == 0 && old(self).is_closed() ==> (r is Closed
                && *final(self) == *old(self)),
            old(self).pending().len() == 0 && !old(self).is_closed() ==> (r is Waiting
                && *final(self) == *old(self)),
    {
        if self.items.len() > 0 {
            let job = self.items.remove(0);
            let ghost j = job;
            self.delivered = Ghost(self.delivered@.push(j));
            proof {
                assert(old(self).pending() =~= seq![j] + self.pending());
                assert(self.pending() =~= old(self).pending().drop_first());
                assert(self.sent() =~= self.delivered() + self.pending() + self.discarded());
            }
            RecvOutcome::Job(job)
        } else if self.closed {
            RecvOutcome::Closed
        } else {
            RecvOutcome::Waiting
        }
    }

    /// Releases the producer handle: no further jobs can be submitted,
    /// while jobs already pending stay deliverable. Idempotent.
    pub fn close(&mut self)
        requires
            old(self).wf(),
        ensures
            final(self).wf(),
            final(self).is_closed(),
            final(self).pending() == old(self).pending(),
            final(self).sent() == old(self).sent(),
            final(self).delivered() == old(self).delivered(),
            final(self).discarded() == old(self).discarded(),
    {
        self.closed = true;
    }

    /// Empties a closed queue, returning the jobs that will now never be
    /// delivered, oldest first, and recording them as discarded.
    pub fn discard_pending(&mut self) -> (undelivered: Vec<J>)
        requires
            old(self).wf(),
            old(self).is_closed(),
        ensures
            final(self).wf(),
            final(self).is_closed(),
            final(self).pending().len() == 0,
            undelivered@ == old(self).pending(),
            final(self).sent() == old(self).sent(),
            final(self).delivered() == old(self).delivered(),
            final(self).discarded() == old(self).discarded() + old(self).pending(),
    {
        let mut undelivered: Vec<J> = Vec::new();
        while self.items.len() > 0
            invariant
                undelivered@ + self.items@ == old(self).pending(),
                self.closed == old(self).closed,
                self.sent@ == old(self).sent@,
                self.delivered@ == old(self).delivered@,
                self.discarded@ == old(self).discarded@,
            decreases self.items.len(),
        {
            let job = self.items.remove(0);
            undelivered.push(job);
            proof {
                assert(undelivered@ + self.items@ =~= old(self).pending());
            }
        }
        self.discarded = Ghost(self.discarded@ + old(self).pending());
        proof {
            assert(undelivered@ =~= old(self).pending());
            assert(self.sent() =~= self.delivered() + self.pending() + self.discarded());
        }
        undelivered
    }

    /// How many jobs are pending right now.
    pub fn pending_len(&self) -> (n: usize)
        ensures
            n == self.pending().len(),
    {
        self.items.len()
    }
}

/// Exactly-once accounting: every job ever submitted to a well-formed
/// queue is, at any moment, accounted for exactly once — already delivered
/// to some consumer, still pending, or discarded at teardown. No job is
/// duplicated and none is silently lost.
pub proof fn lemma_exactly_once<J>(q: JobQueue<J>)
    requires
        q.wf(),
    ensures
        q.sent() == q.delivered() + q.pending() + q.discarded(),
{
}

/// Once a queue is drained with nothing discarded, the jobs delivered are
/// exactly the jobs submitted: all of them, each exactly once.
pub proof fn lemma_drained_delivery<J>(q: JobQueue<J>)
    requires
        q.wf(),
        q.pending().len() == 0,
        q.discarded().len() == 0,
    ensures
        q.delivered() == q.sent(),
{
    assert(q.delivered() =~= q.sent());
}

/// FIFO delivery: at any moment, the jobs delivered so far are exactly the
/// first `delivered().len()` jobs submitted, in submission order. In
/// particular, a job submitted strictly before another is delivered before
/// it.
pub proof fn lemma_fifo_prefix<J>(q: JobQueue<J>)
    requires
        q.wf(),
    ensures
        q.delivered() == q.sent().take(q.delivered().len() as int),
        forall|i: int| 0 <= i < q.delivered().len() ==> q.delivered()[i] == q.sent()[i],
{
    assert(q.delivered() =~= q.sent().take(q.delivered().len() as int));
}

} // verus!
