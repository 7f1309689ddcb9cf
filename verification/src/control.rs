//! The control block: the single piece of state shared between the pool
//! handle and every worker thread.
//!
//! One round of work is published at a time. Workers claim indices by a
//! fetch-and-increment of the claim cursor; a worker that observes the cursor
//! at or past the round size stops racing and enters the counting barrier.
//! The worker that pushes the finished count to the worker count is the last
//! finisher: it raises the round-done flag that unblocks the caller.

use vstd::prelude::*;

verus! {

/// Shared state for one pool: the published round, the claim cursor, and the
/// completion barrier.
///
/// `claimed` is the ghost history of the indices successfully claimed in the
/// current round, in claim order. Because every successful claim hands out
/// the pre-increment cursor value, the history is always exactly the sequence
/// `0, 1, ..., claim_cursor - 1`: that fact is the well-formedness invariant
/// from which coverage and uniqueness of a whole round follow.
pub struct ControlBlock {
    /// Number of worker threads participating in every barrier.
    pub worker_count: usize,
    /// Total item count of the active round; meaningful while a round is
    /// published.
    pub round_size: usize,
    /// The claim cursor: the next index to hand out. Each successful claim
    /// returns the old value and advances it by one.
    pub claim_cursor: usize,
    /// Number of workers that have observed "no more work" (or the shutdown
    /// signal) since the counters were last reset.
    pub finished_count: usize,
    /// Set by the last finisher of a round, cleared by the caller right after
    /// observing it.
    pub round_done: bool,
    /// Whether a round is currently published. The model of the nullable
    /// work-function slot: `false` means no round in progress, or shutdown.
    pub work_published: bool,
    /// Ghost history of the indices claimed in the current round, in order.
    pub claimed: Ghost<Seq<int>>,
}

impl ControlBlock {
    /// Well-formedness: the cursor never passes the round size, the barrier
    /// never over-counts, the round-done flag is raised only once the barrier
    /// is full, and the claim history is exactly `0 .. claim_cursor`.
    pub open spec fn wf(self) -> bool {
        &&& self.claim_cursor <= self.round_size
        &&& self.finished_count <= self.worker_count
        &&& (self.round_done ==> self.finished_count == self.worker_count)
        &&& self.claimed@ == Seq::new(self.claim_cursor as nat, |i: int| i)
    }

    /// The completion barrier is closed: every worker has reported in.
    pub open spec fn barrier_closed(self) -> bool {
        self.finished_count == self.worker_count
    }

    /// A fresh control block: no round published, counters at zero.
    pub fn new(worker_count: usize) -> (cb: ControlBlock)
        ensures
            cb.wf(),
            cb.worker_count == worker_count,
            !cb.work_published,
            !cb.round_done,
            cb.round_size == 0,
            cb.claim_cursor == 0,
            cb.finished_count == 0,
    {
        let cb = ControlBlock {
            worker_count,
            round_size: 0,
            claim_cursor: 0,
            finished_count: 0,
            round_done: false,
            work_published: false,
            claimed: Ghost(Seq::new(0, |i: int| i)),
        };
        cb
    }

    /// Publish a round of `n` items: reset the cursor and the barrier, then
    /// make the work visible to the workers.
    ///
    /// Requiring that no round is published is the admission rule: a new
    /// round can enter only after the previous round was completed, so rounds
    /// on one pool never overlap.
    pub fn publish(&mut self, n: usize)
        requires
            old(self).wf(),
            !old(self).work_published,
        ensures
            final(self).wf(),
            final(self).work_published,
            !final(self).round_done,
            final(self).worker_count == old(self).worker_count,
            final(self).round_size == n,
            final(self).claim_cursor == 0,
            final(self).finished_count == 0,
            final(self).claimed@.len() == 0,
    {
        self.claim_cursor = 0;
        self.finished_count = 0;
        self.round_done = false;
        self.round_size = n;
        self.work_published = true;
        self.claimed = Ghost(Seq::new(0, |i: int| i));
    }

    /// One claim against the cursor: the model of a worker's atomic
    /// fetch-and-increment. If the old cursor is still below the round size
    /// it is handed out as the next index; otherwise the round has no more
    /// work for this worker and nothing changes.
    pub fn claim(&mut self) -> (r: Option<usize>)
        requires
            old(self).wf(),
            old(self).work_published,
        ensures
            final(self).wf(),
            final(self).work_published,
            final(self).worker_count == old(self).worker_count,
            final(self).round_size == old(self).round_size,
            final(self).finished_count == old(self).finished_count,
            final(self).round_done == old(self).round_done,
            old(self).claim_cursor < old(self).round_size ==> {
                &&& r == Some(old(self).claim_cursor)
                &&& final(self).claim_cursor == old(self).claim_cursor + 1
                &&& final(self).claimed@ == old(self).claimed@.push(
                    old(self).claim_cursor as int,
                )
            },
            old(self).claim_cursor >= old(self).round_size ==> {
                &&& r is None
                &&& final(self).claim_cursor == old(self).claim_cursor
                &&& final(self).claimed@ == old(self).claimed@
            },
    {
        if self.claim_cursor < self.round_size {
            let idx = self.claim_cursor;
            self.claim_cursor = self.claim_cursor + 1;
            proof {
                assert(old(self).claimed@.push(idx as int) =~= Seq::new(
                    (idx + 1) as nat,
                    |i: int| i,
                ));
            }
            self.claimed = Ghost(self.claimed@.push(idx as int));
            Some(idx)
        } else {
            None
        }
    }

    /// A worker reports that it observed "no more work" (or the shutdown
    /// signal): the model of the atomic increment of the finished count. The
    /// result says whether this worker was the last finisher, in which case
    /// it has raised the round-done flag.
    ///
    /// The precondition keeps the barrier honest: the finished count reaches
    /// the worker count exactly once per round, never more.
    pub fn record_finished(&mut self) -> (last: bool)
        requires
            old(self).wf(),
            old(self).finished_count < old(self).worker_count,
        ensures
            final(self).wf(),
            final(self).finished_count == old(self).finished_count + 1,
            last == (old(self).finished_count + 1 == old(self).worker_count),
            final(self).round_done == last,
            final(self).work_published == old(self).work_published,
            final(self).worker_count == old(self).worker_count,
            final(self).round_size == old(self).round_size,
            final(self).claim_cursor == old(self).claim_cursor,
            final(self).claimed@ == old(self).claimed@,
    {
        self.finished_count = self.finished_count + 1;
        let last = self.finished_count == self.worker_count;
        if last {
            self.round_done = true;
        }
        last
    }

    /// The caller completes a round: it has seen the barrier close, so it
    /// clears the round-done flag and retracts the published work. Only now
    /// is it safe to drop the round's work function, since no worker still
    /// races on it.
    pub fn complete_round(&mut self)
        requires
            old(self).wf(),
            old(self).work_published,
            old(self).barrier_closed(),
        ensures
            final(self).wf(),
            !final(self).work_published,
            !final(self).round_done,
            final(self).worker_count == old(self).worker_count,
            final(self).round_size == old(self).round_size,
            final(self).claim_cursor == old(self).claim_cursor,
            final(self).finished_count == old(self).finished_count,
            final(self).claimed@ == old(self).claimed@,
    {
        self.round_done = false;
        self.work_published = false;
    }

    /// Teardown begins: with no round published, the barrier counter is reset
    /// so that the closing round (every worker observing the absent work and
    /// terminating) can be counted like any other.
    pub fn begin_shutdown(&mut self)
        requires
            old(self).wf(),
            !old(self).work_published,
            !old(self).round_done,
        ensures
            final(self).wf(),
            !final(self).work_published,
            !final(self).round_done,
            final(self).worker_count == old(self).worker_count,
            final(self).finished_count == 0,
            final(self).claim_cursor == old(self).claim_cursor,
            final(self).round_size == old(self).round_size,
            final(self).claimed@ == old(self).claimed@,
    {
        self.finished_count = 0;
    }
}

/// Round serialization: while any worker has not yet finished the round in
/// flight, the round-done flag is down. The caller that published the round
/// blocks on that flag before completing the round, and a new round can be
/// published only after completion — so on one pool the claims of a later
/// round all come after the earlier round's barrier has closed.
pub proof fn lemma_round_serialization(cb: ControlBlock)
    requires
        cb.wf(),
        cb.work_published,
        !cb.barrier_closed(),
    ensures
        cb.finished_count < cb.worker_count,
        !cb.round_done,
{
}

/// The decision a worker makes after its atomic fetch-and-increment of the
/// claim cursor: a pre-increment value below the round size is the index to
/// process; anything else means the round has no more work for this worker.
pub fn claim_decision(pre_cursor: usize, round_size: usize) -> (work: Option<usize>)
    ensures
        pre_cursor < round_size ==> work == Some(pre_cursor),
        pre_cursor >= round_size ==> work is None,
{
    if pre_cursor < round_size {
        Some(pre_cursor)
    } else {
        None
    }
}

/// The decision a worker makes after its atomic fetch-and-increment of the
/// finished count: a pre-increment value of `worker_count - 1` means this
/// worker completed the barrier and must signal the waiting caller.
pub fn is_last_finisher(pre_finished: usize, worker_count: usize) -> (last: bool)
    requires
        pre_finished < worker_count,
    ensures
        last == (pre_finished + 1 == worker_count),
{
    pre_finished == worker_count - 1
}

} // verus!
