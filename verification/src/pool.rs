//! The pool itself: validated construction, job submission, the worker's
//! turn, and the ordered teardown plan.
//!
//! The pool is kept apart from the operating system's threads: `build` takes
//! the function that starts one worker thread and records the handle it
//! returns, and `dispose` hands the handles back, in ordinal order, for the
//! caller to join.  Everything the pool decides — the size validation, the
//! one-queue-to-all-workers wiring, the fixed worker count, the
//! take-a-handle-exactly-once teardown and its order, and the turn each
//! worker thread repeats — is verified here; the embedding program only
//! starts threads, drives the turns, and joins.

use crate::queue::job_queue;
use crate::queue::JobSender;
use crate::queue::SharedReceiver;
use vstd::prelude::*;

verus! {

/// A one-shot, argument-less unit of work.  The pool never looks inside a
/// job: it only moves it to some worker and invokes it there exactly once.
/// Implemented by the pool's users.
pub trait Job: Sized {
    /// Runs the job to completion on the calling thread, consuming it.
    fn run(self);
}

/// Why `build` refused to construct a pool.
#[derive(Debug)]
pub enum PoolCreationError {
    /// The requested worker count was negative.
    NegativeSize,
    /// The requested worker count was exactly zero.
    ZeroSize,
}

/// One worker: an ordinal index and the slot holding its thread's handle.
/// The slot starts occupied and is emptied exactly once, during teardown.
pub struct Worker<H> {
    id: usize,
    thread: Option<H>,
}

impl<H> Worker<H> {
    /// The worker's ordinal index, fixed at construction.
    pub closed spec fn ordinal(&self) -> usize {
        self.id
    }

    /// Whether the worker still holds its thread handle, i.e. has not yet
    /// been torn down.
    pub closed spec fn joinable(&self) -> bool {
        self.thread is Some
    }

    /// The handle in the worker's slot.
    pub closed spec fn handle(&self) -> H {
        self.thread->Some_0
    }

    /// Starts one worker: hands the shared consumer half and the ordinal to
    /// the thread-starting function and keeps the handle it returns.
    pub fn new<J, S: Fn(usize, SharedReceiver<J>) -> H>(
        id: usize,
        receiver: SharedReceiver<J>,
        spawn_thread: &S,
    ) -> (worker: Worker<H>)
        requires
            call_requires(*spawn_thread, (id, receiver)),
        ensures
            worker.ordinal() == id,
            worker.joinable(),
            call_ensures(*spawn_thread, (id, receiver), worker.handle()),
    {
        let handle = spawn_thread(id, receiver);
        Worker { id, thread: Some(handle) }
    }
}

/// One turn of a worker's loop: take the next job off the shared queue, run
/// it, exactly once, to completion, and report `true`; or observe that the
/// queue is closed and drained and report `false`, upon which the worker is
/// done for good and its thread should end.  A worker thread is this turn
/// taken again as long as it returns `true`; how long that goes on depends
/// only on what the other threads feed the queue, so the loop itself belongs
/// to the thread's unverified shell.  A job that never returns stalls its
/// worker for good, and one that aborts its thread takes the worker with it;
/// neither disturbs the queue or the other workers.
pub fn worker_turn<J: Job>(receiver: &SharedReceiver<J>) -> (more: bool) {
    match receiver.recv_next() {
        Some(job) => {
            job.run();
            true
        },
        None => false,
    }
}

/// Whether `handle` is one that the thread-starting function could have
/// returned when starting the worker of ordinal `id` with some handle to the
/// shared consumer half.
pub open spec fn spawned_by<J, H, S: Fn(usize, SharedReceiver<J>) -> H>(
    spawn_thread: S,
    id: usize,
    handle: H,
) -> bool {
    exists|rx: SharedReceiver<J>| call_ensures(spawn_thread, (id, rx), handle)
}

/// The pool: the owner of the queue's producer half and of the fixed set of
/// workers.  `J` is the job type, `H` the handle under which the caller
/// knows one started worker thread.
#[verifier::reject_recursive_types(J)]
pub struct ThreadPool<J: Job + Send + 'static, H> {
    workers: Vec<Worker<H>>,
    sender: Option<JobSender<J>>,
}

impl<J: Job + Send + 'static, H> ThreadPool<J, H> {
    /// Whether submission is still possible: the producer half is present.
    /// It is present from construction on, and only `dispose` — which
    /// consumes the pool — takes it away.
    pub closed spec fn running(&self) -> bool {
        self.sender is Some
    }

    /// How many workers the pool owns; fixed for the pool's lifetime.
    pub closed spec fn worker_count(&self) -> nat {
        self.workers@.len()
    }

    /// The thread handle of worker `k`.
    pub closed spec fn worker_handle(&self, k: int) -> H {
        self.workers@[k].handle()
    }

    /// The pool's invariant: worker `k` carries ordinal `k` and still holds
    /// its thread handle.
    pub closed spec fn wf(&self) -> bool {
        forall|k: int|
            0 <= k < self.workers@.len() ==> ((#[trigger] self.workers@[k]).ordinal() as int == k
                && self.workers@[k].joinable())
    }

    /// Validates the requested size.  A negative size and a zero size are
    /// refused, each with its own error and with no worker started.  A
    /// positive one yields a running pool: the job queue is created, and
    /// exactly `size` workers are started, each with its own handle to the
    /// shared consumer half and a distinct ordinal in `0..size`; every
    /// worker's thread handle is one the thread-starting function returned
    /// for that ordinal.
    pub fn build<S: Fn(usize, SharedReceiver<J>) -> H>(size: i32, spawn_thread: S) -> (result:
        Result<ThreadPool<J, H>, PoolCreationError>)
        requires
            forall|args: (usize, SharedReceiver<J>)| #[trigger] call_requires(spawn_thread, args),
        ensures
            size < 0 <==> (result matches Err(PoolCreationError::NegativeSize)),
            size == 0 <==> (result matches Err(PoolCreationError::ZeroSize)),
            size > 0 <==> result is Ok,
            (result matches Ok(pool) ==> pool.wf() && pool.running() && pool.worker_count()
                == size as nat && forall|k: int|
                0 <= k < size ==> spawned_by(
                    spawn_thread,
                    k as usize,
                    #[trigger] pool.worker_handle(k),
                )),
    {
        if size < 0 {
            return Err(PoolCreationError::NegativeSize);
        }
        if size == 0 {
            return Err(PoolCreationError::ZeroSize);
        }
        let (sender, receiver) = job_queue::<J>();
        let count = size as usize;
        let mut workers: Vec<Worker<H>> = Vec::new();
        let mut id: usize = 0;
        while id < count
            invariant
                id <= count,
                workers@.len() == id,
                forall|args: (usize, SharedReceiver<J>)| #[trigger] call_requires(
                    spawn_thread,
                    args,
                ),
                forall|k: int|
                    0 <= k < id ==> ((#[trigger] workers@[k]).ordinal() as int == k
                        && workers@[k].joinable()),
                forall|k: int|
                    0 <= k < id ==> spawned_by(
                        spawn_thread,
                        k as usize,
                        (#[trigger] workers@[k]).handle(),
                    ),
            decreases count - id,
        {
            let rx = receiver.clone_handle();
            let worker = Worker::new(id, rx, &spawn_thread);
            workers.push(worker);
            id = id + 1;
        }
        Ok(ThreadPool { workers, sender: Some(sender) })
    }

    /// Enqueues one job; exactly one worker will dequeue and run it, after
    /// every job already in the queue has been claimed.  Submission is only
    /// defined while the pool is running, which it is from construction
    /// until `dispose` consumes it.
    pub fn execute(&self, job: J)
        requires
            self.running(),
    {
        match &self.sender {
            Some(sender) => sender.send(job),
            None => {},
        }
    }

    /// Whether the pool still accepts submissions.
    pub fn is_running(&self) -> (running: bool)
        ensures
            running == self.running(),
    {
        self.sender.is_some()
    }

    /// Tears the pool down: drops the producer half — after which every
    /// worker's next empty receive observes closure, so every job already
    /// submitted is still claimed and run first — and then empties each
    /// worker's handle slot, exactly once, in ordinal order.  The returned
    /// handles are exactly the workers' handles, in that order; the caller
    /// joins them to wait for the workers to finish.  The producer half is
    /// gone before this returns, so the joins cannot wait for ever.
    pub fn dispose(self) -> (handles: Vec<H>)
        requires
            self.wf(),
        ensures
            handles@.len() == self.worker_count(),
            forall|k: int|
                0 <= k < handles@.len() ==> handles@[k] == self.worker_handle(k),
    {
        let ThreadPool { mut workers, sender } = self;
        {
            // Running -> Closing: close the queue by dropping its producer.
            let _producer = sender;
        }
        let ghost all = workers@;
        let mut handles: Vec<H> = Vec::new();
        while workers.len() > 0
            invariant
                all == self.workers@,
                self.wf(),
                handles@.len() + workers@.len() == all.len(),
                forall|k: int|
                    0 <= k < workers@.len() ==> workers@[k] == all[handles@.len() + k],
                forall|k: int|
                    0 <= k < handles@.len() ==> handles@[k] == all[k].handle(),
            decreases workers@.len(),
        {
            let worker = workers.remove(0);
            match worker.thread {
                Some(handle) => handles.push(handle),
                None => {},
            }
        }
        handles
    }
}

} // verus!
