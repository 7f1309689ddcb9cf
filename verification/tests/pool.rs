use parfor::Claim;
use parfor::ControlBlock;
use parfor::Pool;
use parfor::WorkerState;

// Three sequential rounds of 10, 20 and 50 items on one pool: 80 invocations
// in all, one per claimed index.
#[test]
fn test_pool() {
    let mut pool = Pool::new(4);
    let sched: Vec<usize> = vec![0, 1, 2, 3];
    let mut cnt: usize = 0;
    cnt += pool.execute(10, &sched).len();
    cnt += pool.execute(20, &sched).len();
    cnt += pool.execute(50, &sched).len();
    assert_eq!(cnt, 80);
    pool.shutdown();
}

// The same three rounds under a different worker interleaving: the count of
// invocations does not depend on the schedule.
#[test]
fn lib_test_pool() {
    let mut pool = Pool::new(4);
    let sched: Vec<usize> = vec![9, 2, 7, 1, 8, 3, 5, 0, 4, 6];
    let mut cnt: usize = 0;
    cnt += pool.execute(10, &sched).len();
    cnt += pool.execute(20, &sched).len();
    cnt += pool.execute(50, &sched).len();
    assert_eq!(cnt, 80);
    pool.shutdown();
}

// Coverage and uniqueness: a round of n items claims exactly the indices
// 0..n, in cursor order, whatever the interleaving.
#[test]
fn test_round_coverage() {
    let mut pool = Pool::new(3);
    let sched: Vec<usize> = vec![7, 3, 9, 1, 4, 4, 2, 8, 5, 0, 6, 11, 13];
    let claims = pool.execute(10, &sched);
    assert_eq!(claims.len(), 10);
    for (k, c) in claims.iter().enumerate() {
        assert_eq!(c.index, k);
        assert!(c.worker < 3);
    }
    pool.shutdown();
}

// Zero case: a round of zero items returns with no invocations, and the pool
// stays usable.
#[test]
fn test_zero_items() {
    let mut pool = Pool::new(4);
    let sched: Vec<usize> = vec![0];
    let claims = pool.execute(0, &sched);
    assert!(claims.is_empty());
    let claims = pool.execute(3, &sched);
    assert_eq!(claims.len(), 3);
    pool.shutdown();
}

// Under-subscription: four workers, two items, a fair round-robin
// interleaving. Exactly two workers invoke the function once each; the other
// two contribute only to the barrier.
#[test]
fn test_under_subscription() {
    let mut pool = Pool::new(4);
    let sched: Vec<usize> = vec![0, 1, 2, 3, 0, 1, 2, 3];
    let claims = pool.execute(2, &sched);
    assert_eq!(
        claims,
        vec![Claim { worker: 0, index: 0 }, Claim { worker: 1, index: 1 }]
    );
    let mut workers_with_work: Vec<usize> = claims.iter().map(|c| c.worker).collect();
    workers_with_work.dedup();
    assert_eq!(workers_with_work.len(), 2);
    pool.shutdown();
}

// Clean shutdown: after the closing round every worker has terminated and
// the closing barrier is closed.
#[test]
fn test_shutdown() {
    let mut pool = Pool::new(4);
    let sched: Vec<usize> = vec![2, 0, 1];
    pool.execute(5, &sched);
    pool.shutdown();
    assert_eq!(pool.workers.len(), 4);
    for w in pool.workers.iter() {
        assert_eq!(*w, WorkerState::Terminated);
    }
    assert_eq!(pool.control.finished_count, 4);
    assert!(!pool.control.work_published);
}

// A pool with zero workers: every round completes instantly with no
// invocations, and shutdown is a no-op.
#[test]
fn test_zero_workers() {
    let mut pool = Pool::new(0);
    let sched: Vec<usize> = vec![0, 1];
    let claims = pool.execute(5, &sched);
    assert!(claims.is_empty());
    pool.shutdown();
    assert!(pool.workers.is_empty());
}

// Round serialization at the control block: a round can be published only
// once the previous round was completed, and completion needs the closed
// barrier. Walk one full round by hand.
#[test]
fn test_control_block_round() {
    let mut cb = ControlBlock::new(2);
    cb.publish(3);
    assert!(cb.work_published);
    assert_eq!(cb.claim(), Some(0));
    assert_eq!(cb.claim(), Some(1));
    assert_eq!(cb.claim(), Some(2));
    assert_eq!(cb.claim(), None);
    assert!(!cb.record_finished());
    assert!(!cb.round_done);
    assert!(cb.record_finished());
    assert!(cb.round_done);
    assert_eq!(cb.finished_count, 2);
    cb.complete_round();
    assert!(!cb.work_published);
    assert!(!cb.round_done);
    cb.publish(1);
    assert_eq!(cb.claim_cursor, 0);
    assert_eq!(cb.finished_count, 0);
    assert_eq!(cb.claim(), Some(0));
    assert_eq!(cb.claim(), None);
    assert!(!cb.record_finished());
    assert!(cb.record_finished());
    cb.complete_round();
}

// The per-step decisions the live workers make after their atomic
// fetch-and-increments.
#[test]
fn test_claim_decision() {
    assert_eq!(parfor::claim_decision(0, 4), Some(0));
    assert_eq!(parfor::claim_decision(3, 4), Some(3));
    assert_eq!(parfor::claim_decision(4, 4), None);
    assert_eq!(parfor::claim_decision(7, 4), None);
    assert_eq!(parfor::claim_decision(0, 0), None);
}

#[test]
fn test_is_last_finisher() {
    assert!(!parfor::is_last_finisher(0, 4));
    assert!(!parfor::is_last_finisher(2, 4));
    assert!(parfor::is_last_finisher(3, 4));
    assert!(parfor::is_last_finisher(0, 1));
}
