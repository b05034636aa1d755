//! The job queue: an unbounded, ordered hand-off channel from the pool to its
//! workers.  The producer half is owned by the pool alone; the consumer half
//! is one receiver shared by every worker behind a mutex, so that at most one
//! worker is mid-receive at a time and each job is delivered to exactly one
//! worker.
//!
//! The channel is shared mutable state that lives outside any one handle's
//! value, and what a receive returns depends on the interleaving of the other
//! threads, so no contract here can pin down the contents; each caller of
//! `recv_next` must be correct for every value it may hand back.

use std::sync::mpsc;
use std::sync::Arc;
use std::sync::Mutex;
use vstd::prelude::*;

verus! {

/// The queue's producer half.  Relies on `std::sync::mpsc::Sender`.
#[verifier::external_body]
#[verifier::reject_recursive_types(T)]
pub struct JobSender<T> {
    inner: mpsc::Sender<T>,
}

/// The queue's consumer half, shared by every worker: the one receiver under
/// a mutex behind a shared-ownership pointer.  Relies on
/// `std::sync::mpsc::Receiver`, `std::sync::Mutex` and `std::sync::Arc`.
#[verifier::external_body]
#[verifier::reject_recursive_types(T)]
pub struct SharedReceiver<T> {
    inner: Arc<Mutex<mpsc::Receiver<T>>>,
}

/// Creates the job queue and returns its two halves.  Relies on
/// `std::sync::mpsc::channel`: the halves are connected, the queue starts
/// empty, and it stays open until the last `JobSender` is dropped.
#[verifier::external_body]
pub(crate) fn job_queue<T>() -> (ends: (JobSender<T>, SharedReceiver<T>)) {
    let (tx, rx) = mpsc::channel();
    (JobSender { inner: tx }, SharedReceiver { inner: Arc::new(Mutex::new(rx)) })
}

impl<T> JobSender<T> {
    /// Relies on `std::sync::mpsc::Sender::send`: appends the value to the
    /// queue, after everything already sent through this handle.  Delivery
    /// fails only when every receiving handle is gone, which for this pool
    /// means every worker thread has already ended; the value is then lost,
    /// as no thread is left that could ever run it.
    #[verifier::external_body]
    pub(crate) fn send(&self, value: T) {
        let _ = self.inner.send(value);
    }
}

impl<T> SharedReceiver<T> {
    /// Relies on `std::sync::Arc::clone`: returns another handle to the same
    /// shared receiver.
    #[verifier::external_body]
    pub(crate) fn clone_handle(&self) -> (other: SharedReceiver<T>) {
        SharedReceiver { inner: Arc::clone(&self.inner) }
    }

    /// Takes the next job off the queue.  Relies on `std::sync::Mutex::lock`
    /// and `std::sync::mpsc::Receiver::recv`: blocks until either a job is
    /// available (`Some`, and that job is removed from the queue and handed
    /// to this caller alone) or every producer handle has been dropped and
    /// the queue is drained (`None`, and every later call also returns
    /// `None`).  The mutex is released when the receive completes, before
    /// this function returns, so other workers can compete for the next job
    /// while the caller runs this one.  A poisoned mutex (a worker killed
    /// while mid-receive) is treated as the queue being closed.
    #[verifier::external_body]
    pub(crate) fn recv_next(&self) -> (next: Option<T>) {
        match self.inner.lock() {
            Ok(guard) => match guard.recv() {
                Ok(value) => Some(value),
                Err(_) => None,
            },
            Err(_) => None,
        }
    }
}

} // verus!
