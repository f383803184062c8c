//! Worst-case latency profiling of task hand-off mechanisms: guarded
//! single-producer / single-consumer primitives, the deadline watchdog sink
//! they feed, and the measurement protocol that folds cycle samples into a
//! worst-case figure.

pub mod error;
pub mod event_queue;
pub mod protocol;
mod slot;
pub mod task_semaphore;
pub mod time;
pub mod tracker;
pub mod watchdog;
