//! The worker pool: a fixed set of workers around one control block.
//!
//! [`Pool::execute`] runs one whole round the way the live pool does, except
//! that the race between workers is made explicit: a schedule, given by the
//! caller and otherwise arbitrary, decides which racing worker takes the next
//! step. Every step is one claim against the shared cursor — the only atom of
//! the real race — so the schedule ranges over exactly the interleavings the
//! threads could produce, and what is proved of `execute` holds for all of
//! them: every index in `[0, n)` is claimed exactly once, faster workers
//! simply claim more of them, and the barrier closes once every worker has
//! reported in.

use crate::control::ControlBlock;
use vstd::prelude::*;

verus! {

/// The state of one worker thread, as the round protocol sees it.
#[derive(Clone, Copy, PartialEq, Eq, Structural, Debug)]
pub enum WorkerState {
    /// Parked between rounds, waiting to be woken.
    Idle,
    /// Woken for the current round and claiming indices.
    Racing,
    /// Observed the shutdown signal and exited its loop.
    Terminated,
}

/// One successful claim: which worker took which index. The log of a round's
/// claims, in claim order, is what `execute` returns in place of invoking the
/// caller's function.
#[derive(Clone, Copy, PartialEq, Eq, Structural, Debug)]
pub struct Claim {
    /// The worker that won this claim.
    pub worker: usize,
    /// The index it claimed.
    pub index: usize,
}

/// A fixed set of workers and the control block they share.
pub struct Pool {
    /// The shared synchronization state.
    pub control: ControlBlock,
    /// One entry per worker thread.
    pub workers: Vec<WorkerState>,
}

impl Pool {
    /// The pool's shape is consistent: one worker entry per counted worker.
    pub open spec fn wf(self) -> bool {
        &&& self.control.wf()
        &&& self.workers@.len() == self.control.worker_count
    }

    /// Between rounds: nothing published, the done flag down, every worker
    /// parked. A pool in this state can admit the next round or shut down.
    pub open spec fn ready(self) -> bool {
        &&& self.wf()
        &&& !self.control.work_published
        &&& !self.control.round_done
        &&& forall|w: int|
            0 <= w < self.workers@.len() ==> self.workers@[w] is Idle
    }

    /// After teardown: every worker has observed the shutdown signal and
    /// exited, and the closing barrier is closed, so the shared state may be
    /// released.
    pub open spec fn terminated(self) -> bool {
        &&& self.wf()
        &&& !self.control.work_published
        &&& self.control.barrier_closed()
        &&& forall|w: int|
            0 <= w < self.workers@.len() ==> self.workers@[w] is Terminated
    }

    /// Create a pool with a fixed number of workers, all parked.
    pub fn new(worker_count: usize) -> (p: Pool)
        ensures
            p.ready(),
            p.control.worker_count == worker_count,
    {
        let control = ControlBlock::new(worker_count);
        let mut workers: Vec<WorkerState> = Vec::new();
        let mut w: usize = 0;
        while w < worker_count
            invariant
                w <= worker_count,
                workers@.len() == w,
                forall|i: int| 0 <= i < w ==> workers@[i] is Idle,
            decreases worker_count - w,
        {
            workers.push(WorkerState::Idle);
            w = w + 1;
        }
        Pool { control, workers }
    }

    /// Run one round of `n` items to completion and return its claim log.
    ///
    /// The round follows the live protocol: publish the work and reset the
    /// counters, wake every worker, let the workers race the cursor until
    /// each has seen "no more work" and entered the barrier, then — with the
    /// barrier closed — clear the done flag and retract the work.
    ///
    /// `schedule` picks which racing worker acts at each step and may be
    /// anything, the empty sequence included; the guarantees below hold for
    /// every choice. On a pool with at least one worker the log holds every
    /// index in `[0, n)` exactly once, in cursor order; a pool with no
    /// workers completes the round instantly with no claims. With `n == 0`
    /// no index is ever claimed: every worker goes straight to the barrier,
    /// and the round still terminates.
    pub fn execute(&mut self, n: usize, schedule: &Vec<usize>) -> (claims: Vec<Claim>)
        requires
            old(self).ready(),
        ensures
            final(self).ready(),
            final(self).control.worker_count == old(self).control.worker_count,
            old(self).control.worker_count > 0 ==> claims@.len() == n,
            old(self).control.worker_count == 0 ==> claims@.len() == 0,
            forall|k: int|
                0 <= k < claims@.len() ==> (#[trigger] claims@[k]).index == k
                    && claims@[k].worker < old(self).control.worker_count,
            n == 0 ==> claims@.len() == 0,
    {
        let worker_count = self.control.worker_count;
        self.control.publish(n);

        // Wake every worker unconditionally: even for `n == 0` each must
        // observe the round and contribute to the barrier.
        let mut active: Vec<usize> = Vec::new();
        let mut w: usize = 0;
        while w < worker_count
            invariant
                w <= worker_count,
                active@.len() == w,
                self.workers@.len() == worker_count,
                self.control.wf(),
                self.control.work_published,
                !self.control.round_done,
                self.control.round_size == n,
                self.control.worker_count == worker_count,
                self.control.claim_cursor == 0,
                self.control.finished_count == 0,
                forall|i: int| 0 <= i < w ==> active@[i] == i,
                forall|x: int|
                    0 <= x < worker_count ==> (if x < w {
                        self.workers@[x] is Racing
                    } else {
                        self.workers@[x] is Idle
                    }),
            decreases worker_count - w,
        {
            active.push(w);
            self.workers[w] = WorkerState::Racing;
            w = w + 1;
        }

        // The race: each step, the schedule picks one racing worker, which
        // makes one claim. A worker that finds no more work reports to the
        // barrier and parks again.
        proof {
            assert forall|x: int|
                0 <= x < worker_count && self.workers@[x] is Racing
                    implies active@.contains(x as usize) by {
                assert(active@[x] == x as usize);
            }
        }
        let mut claims: Vec<Claim> = Vec::new();
        let mut step: usize = 0;
        while active.len() > 0
            invariant
                self.control.wf(),
                self.control.work_published,
                self.control.round_size == n,
                self.control.worker_count == worker_count,
                self.workers@.len() == worker_count,
                active@.len() + self.control.finished_count == worker_count,
                forall|i: int| 0 <= i < active@.len() ==> #[trigger] active@[i] < worker_count,
                forall|x: int|
                    0 <= x < worker_count ==> (self.workers@[x] is Racing
                        || self.workers@[x] is Idle),
                forall|x: int|
                    0 <= x < worker_count && self.workers@[x] is Racing
                        ==> active@.contains(x as usize),
                claims@.len() == self.control.claim_cursor,
                forall|k: int|
                    0 <= k < claims@.len() ==> (#[trigger] claims@[k]).index == k
                        && claims@[k].worker < worker_count,
                self.control.finished_count > 0 ==> self.control.claim_cursor == n,
                worker_count == 0 ==> self.control.claim_cursor == 0,
            decreases n - self.control.claim_cursor + active@.len(),
        {
            let pick: usize = if step < schedule.len() {
                let p = schedule[step] % active.len();
                step = step + 1;
                p
            } else {
                0
            };
            let racer = active[pick];
            match self.control.claim() {
                Some(index) => {
                    claims.push(Claim { worker: racer, index });
                },
                None => {
                    let _last = self.control.record_finished();
                    self.workers[racer] = WorkerState::Idle;
                    let ghost before = active@;
                    active.swap_remove(pick);
                    proof {
                        assert forall|x: int|
                            0 <= x < worker_count && self.workers@[x] is Racing
                                implies active@.contains(x as usize) by {
                            assert(before.contains(x as usize));
                            let j = choose|j: int|
                                0 <= j < before.len() && before[j] == x as usize;
                            if j == before.len() - 1 {
                                assert(active@[pick as int] == x as usize);
                            } else if j != pick {
                                assert(active@[j] == x as usize);
                            }
                        }
                    }
                },
            }
        }

        // Barrier closed: every worker reported in; for a pool with workers
        // the last finisher raised the done flag, and the cursor covered the
        // whole range. Complete the round: clear the flag, retract the work.
        self.control.complete_round();
        claims
    }

    /// Tear the pool down: run the closing round, in which every worker
    /// observes the absent work, reports to the barrier one last time, and
    /// exits its loop. Only when the closing barrier is closed — every
    /// worker terminated — may the shared state be released; a pool with no
    /// workers shuts down as a no-op.
    pub fn shutdown(&mut self)
        requires
            old(self).ready(),
        ensures
            final(self).terminated(),
            final(self).control.worker_count == old(self).control.worker_count,
    {
        self.control.begin_shutdown();
        let worker_count = self.workers.len();
        let mut w: usize = 0;
        while w < worker_count
            invariant
                w <= worker_count,
                self.control.wf(),
                !self.control.work_published,
                self.control.worker_count == worker_count,
                self.workers@.len() == worker_count,
                self.control.finished_count == w,
                forall|x: int| 0 <= x < w ==> self.workers@[x] is Terminated,
                forall|x: int| w <= x < worker_count ==> self.workers@[x] is Idle,
            decreases worker_count - w,
        {
            let _last = self.control.record_finished();
            self.workers[w] = WorkerState::Terminated;
            w = w + 1;
        }
    }
}

/// Some claim in the log took index `j`.
pub open spec fn log_covers(claims: Seq<Claim>, j: int) -> bool {
    exists|k: int| 0 <= k < claims.len() && (#[trigger] claims[k]).index == j
}

/// Coverage and uniqueness of one round: a claim log in which the `k`-th
/// claim took index `k` — what `execute` returns on any pool with at least
/// one worker — holds every index in `[0, n)` exactly once, and no index
/// outside that range.
pub proof fn lemma_round_coverage(claims: Seq<Claim>, n: int)
    requires
        claims.len() == n,
        forall|k: int| 0 <= k < claims.len() ==> (#[trigger] claims[k]).index == k,
    ensures
        forall|k: int| 0 <= k < claims.len() ==> 0 <= (#[trigger] claims[k]).index < n,
        forall|j: int| 0 <= j < n ==> #[trigger] log_covers(claims, j),
        forall|k1: int, k2: int|
            0 <= k1 < claims.len() && 0 <= k2 < claims.len() && claims[k1].index
                == claims[k2].index ==> k1 == k2,
{
    assert forall|j: int| 0 <= j < n implies #[trigger] log_covers(claims, j) by {
        assert(claims[j].index == j);
    }
}

} // verus!
