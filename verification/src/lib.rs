//! A rate-limited task dispatcher.
//!
//! Callers submit units of work ("jobs"); a dispatch loop admits them into a
//! fixed-size worker pool no faster than a configured maximum rate, in FIFO
//! order. This crate holds the verified core: the leaky-bucket rate limiter
//! and the scheduler state machine that decides, step by step, which job is
//! admitted when. The embedding program runs the actual clock, queue channel
//! and worker threads, feeding events into the state machine and carrying out
//! the actions it returns.

pub mod job;
pub mod rate;
pub mod scheduler;

pub use job::Job;
pub use scheduler::{Admission, ConfigError, DispatchAction, Scheduler, SubmitError};
