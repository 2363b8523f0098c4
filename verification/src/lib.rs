//! A minimal fixed-size worker pool: long-lived workers pull jobs from a
//! single shared FIFO queue, and shutdown is deterministic and total.
//!
//! The queue keeps a ghost history of every job ever submitted, delivered,
//! or discarded at teardown, so that exactly-once delivery and FIFO order
//! are stated and proved, not just hoped for.

pub mod addr;
pub mod http;
pub mod pool;
pub mod queue;

pub use pool::PoolCreationError;
pub use pool::ThreadPool;
