//! A fixed-size worker pool offering a blocking parallel-for primitive.
//!
//! The heart of the pool is its synchronization core: a shared control block
//! through which a caller publishes one round of work at a time, workers race
//! to claim disjoint indices with a fetch-and-increment cursor, and a
//! counting barrier tells the caller that every worker has finished the
//! round. This crate states and verifies that core: [`control::ControlBlock`]
//! holds the shared state and its transitions, and [`pool::Pool`] runs whole
//! rounds under an arbitrary worker interleaving, proving that every index in
//! `[0, n)` is claimed exactly once, that rounds are serialized, and that
//! shutdown terminates every worker.

pub mod config;
pub mod control;
pub mod pool;

pub use config::parse_worker_count;
pub use config::resolve_worker_count;
pub use control::claim_decision;
pub use control::is_last_finisher;
pub use control::lemma_round_serialization;
pub use control::ControlBlock;
pub use pool::lemma_round_coverage;
pub use pool::Claim;
pub use pool::Pool;
pub use pool::WorkerState;
