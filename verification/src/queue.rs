//! The throttled job queue: a first-in, first-out queue of knowledge queries
//! with a fixed, finite capacity. Putting a job into a full queue fails at
//! once; it never waits.

use std::collections::VecDeque;
use vstd::prelude::*;

verus! {

/// One knowledge query that waits for the worker.
#[derive(Debug, Clone, PartialEq, Eq)]
pub struct Job {
    /// The channel that the answer goes to.
    pub reply_target: String,
    pub query_text: String,
}

/// The mathematical value of a [`Job`].
pub struct JobView {
    pub reply_target: Seq<char>,
    pub query_text: Seq<char>,
}

impl View for Job {
    type V = JobView;

    open spec fn view(&self) -> JobView {
        JobView { reply_target: self.reply_target@, query_text: self.query_text@ }
    }
}

/// The rejection of a job by a full queue. It hands the job back.
#[derive(Debug, PartialEq, Eq)]
pub struct QueueFull {
    pub job: Job,
}

/// The capacity of the queue that the bot runs with.
pub const REFERENCE_CAPACITY: usize = 5;

/// A bounded queue of jobs, oldest first.
pub struct JobQueue {
    capacity: usize,
    jobs: VecDeque<Job>,
}

impl JobQueue {
    /// The waiting jobs, oldest first.
    pub closed spec fn pending(&self) -> Seq<JobView> {
        Seq::new(self.jobs@.len(), |i: int| self.jobs@[i]@)
    }

    /// The most jobs that may wait at once.
    pub closed spec fn limit(&self) -> nat {
        self.capacity as nat
    }

    /// The queue never holds more jobs than its capacity.
    pub closed spec fn well_formed(&self) -> bool {
        self.jobs@.len() <= self.capacity
    }

    /// In a well-formed queue at most `limit()` jobs wait.
    pub proof fn lemma_bounded(&self)
        requires
            self.well_formed(),
        ensures
            self.pending().len() <= self.limit(),
    {
    }

    /// An empty queue that holds at most `capacity` jobs.
    pub fn new(capacity: usize) -> (q: JobQueue)
        ensures
            q.well_formed(),
            q.pending() == Seq::<JobView>::empty(),
            q.limit() == capacity,
    {
        let q = JobQueue { capacity, jobs: VecDeque::new() };
        assert(q.pending() =~= Seq::<JobView>::empty());
        q
    }

    /// An empty queue of the reference capacity.
    pub fn with_reference_capacity() -> (q: JobQueue)
        ensures
            q.well_formed(),
            q.pending() == Seq::<JobView>::empty(),
            q.limit() == REFERENCE_CAPACITY,
    {
        JobQueue::new(REFERENCE_CAPACITY)
    }

    /// Whether the queue is within its capacity, as every queue made by
    /// `new` is and stays.
    pub fn is_well_formed(&self) -> (r: bool)
        ensures
            r == self.well_formed(),
    {
        self.jobs.len() <= self.capacity
    }

    /// The most jobs that may wait at once.
    pub fn capacity(&self) -> (r: usize)
        ensures
            r == self.limit(),
    {
        self.capacity
    }

    /// How many jobs wait.
    pub fn len(&self) -> (r: usize)
        ensures
            r == self.pending().len(),
    {
        self.jobs.len()
    }

    /// Whether no job waits.
    pub fn is_empty(&self) -> (r: bool)
        ensures
            r == (self.pending().len() == 0),
    {
        self.jobs.len() == 0
    }

    /// Whether the next `enqueue` would be rejected.
    pub fn is_full(&self) -> (r: bool)
        ensures
            r == (self.pending().len() >= self.limit()),
    {
        self.jobs.len() >= self.capacity
    }

    /// Puts `job` at the end of the queue, or rejects it at once where the
    /// queue is full. A rejected job comes back in the error, and the queue is
    /// as it was.
    pub fn enqueue(&mut self, job: Job) -> (r: Result<(), QueueFull>)
        requires
            old(self).well_formed(),
        ensures
            final(self).well_formed(),
            final(self).limit() == old(self).limit(),
            r is Ok <==> old(self).pending().len() < old(self).limit(),
            r is Ok ==> final(self).pending() == old(self).pending().push(job@),
            r matches Err(full) ==> full.job == job && final(self).pending() == old(self).pending(),
    {
        if self.jobs.len() >= self.capacity {
            return Err(QueueFull { job });
        }
        let ghost before = self.pending();
        self.jobs.push_back(job);
        assert(self.pending() =~= before.push(job@));
        Ok(())
    }

    /// Takes the oldest job out of the queue, if any waits.
    pub fn dequeue(&mut self) -> (r: Option<Job>)
        requires
            old(self).well_formed(),
        ensures
            final(self).well_formed(),
            final(self).limit() == old(self).limit(),
            r is Some <==> old(self).pending().len() > 0,
            r is None ==> final(self).pending() == old(self).pending(),
            r matches Some(job) ==> job@ == old(self).pending()[0],
            r is Some ==> final(self).pending() == old(self).pending().drop_first(),
    {
        let ghost before = self.pending();
        let r = self.jobs.pop_front();
        proof {
            if r is Some {
                assert(self.pending() =~= before.drop_first());
            }
        }
        r
    }
}

} // verus!
