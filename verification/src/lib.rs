//! A thread pool tuned for latency: a job never waits for a thread to be spawned,
//! new workers are started in the idle time of the existing ones, and the pool
//! keeps a configurable number of workers available.
//!
//! This crate holds the pool's rules: its configuration, the shared counter of
//! workers and available workers with the decisions taken on it, what a worker
//! does on each event, and the handle that waits for a job's result.

mod config;
mod handler;
pub mod state;
pub mod worker;

pub use crate::config::{default_view_for, ConfigView, ThreadPoolConfig};
pub use crate::handler::{job_queue, JoinHandle};

use vstd::prelude::*;

verus! {

/// Thread pool disconnected
#[derive(Clone, Copy, Debug)]
pub struct ThreadPoolDisconnected;

impl ThreadPoolDisconnected {
    /// The text that describes the error.
    pub fn message(&self) -> (text: &'static str)
        ensures
            text@ == "Thread pool disconnected"@,
    {
        "Thread pool disconnected"
    }
}

/// The result of an exchange with the pool's workers: a value is kept, and any failure
/// of the channel means that the pool is gone.
pub fn disconnected_on_err<T, E>(result: Result<T, E>) -> (mapped: Result<T, ThreadPoolDisconnected>)
    ensures
        match result {
            Ok(value) => mapped == Ok::<T, ThreadPoolDisconnected>(value),
            Err(_) => mapped is Err,
        },
{
    match result {
        Ok(value) => Ok(value),
        Err(_) => Err(ThreadPoolDisconnected),
    }
}

} // verus!
