//! A fixed-size worker pool: a validated number of long-lived workers pull
//! one-shot jobs from a shared queue and run each to completion, until the
//! pool is disposed of and every worker has been joined.

pub mod pool;
pub mod queue;
