//! The three stages that serve connections, and the pool of workers that
//! each stage runs on.

pub mod processor;
pub mod receiver;
pub mod sender;

use vstd::prelude::*;

verus! {

/// The number of tasks that the queue of one worker holds: a producer
/// waits while the queue of its worker is full.
pub const WORKER_QUEUE_CAPACITY: usize = 10;

/// What a pool is: the workers that are free, the last returned first out,
/// and the number of workers that were ever started. Workers are numbered in
/// the order in which they were started.
pub struct WorkerPoolView {
    pub free_worker: Seq<u32>,
    pub worker_size: u32,
}

impl WorkerPoolView {
    /// A pool of `default_worker` workers, all free.
    pub open spec fn started(default_worker: u32) -> WorkerPoolView {
        WorkerPoolView {
            free_worker: Seq::new(default_worker as nat, |i: int| i as u32),
            worker_size: default_worker,
        }
    }

    /// Every free worker was started.
    pub open spec fn wf(self) -> bool {
        forall|i: int|
            0 <= i < self.free_worker.len() ==> #[trigger] self.free_worker[i] < self.worker_size
    }
}

/// A worker that was handed out, and whether it had to be started for that.
#[derive(Debug, Clone, Copy, PartialEq, Eq, Structural)]
pub struct Acquired {
    pub worker: u32,
    /// Whether the pool grew by this worker: the caller has to start it.
    pub spawned: bool,
}

/// A pool of workers that all run the same task loop. The pool hands
/// workers out, takes them back, and grows by one worker whenever none is
/// free; it never shrinks.
#[derive(Debug)]
pub struct WorkerPool {
    free_worker: Vec<u32>,
    worker_size: u32,
}

impl View for WorkerPool {
    type V = WorkerPoolView;

    closed spec fn view(&self) -> WorkerPoolView {
        WorkerPoolView { free_worker: self.free_worker@, worker_size: self.worker_size }
    }
}

impl WorkerPool {
    /// The number of workers that were ever started.
    pub fn worker_size(&self) -> (size: u32)
        ensures
            size == self@.worker_size,
    {
        self.worker_size
    }

    /// The number of free workers.
    pub fn free_count(&self) -> (count: usize)
        ensures
            count == self@.free_worker.len(),
    {
        self.free_worker.len()
    }

    /// Hands out a worker: the free worker that was returned last, or, where
    /// none is free, a new worker, by which the pool grows. There is none only
    /// where no worker is free after 2^32 - 1 were started.
    pub fn get_free_worker(&mut self) -> (acquired: Option<Acquired>)
        ensures
            old(self)@.free_worker.len() > 0 ==> acquired == Some(
                Acquired { worker: old(self)@.free_worker.last(), spawned: false },
            ) && final(self)@ == (WorkerPoolView {
                free_worker: old(self)@.free_worker.drop_last(),
                ..old(self)@
            }),
            old(self)@.free_worker.len() == 0 && old(self)@.worker_size < u32::MAX ==> acquired
                == Some(Acquired { worker: old(self)@.worker_size, spawned: true }) && final(self)@
                == (WorkerPoolView {
                worker_size: (old(self)@.worker_size + 1) as u32,
                ..old(self)@
            }),
            old(self)@.free_worker.len() == 0 && old(self)@.worker_size == u32::MAX ==> acquired
                is None && final(self)@ == old(self)@,
            final(self)@.worker_size >= old(self)@.worker_size,
            old(self)@.wf() ==> final(self)@.wf(),
    {
        match self.free_worker.pop() {
            Some(worker) => Some(Acquired { worker, spawned: false }),
            None => {
                if self.worker_size == u32::MAX {
                    None
                } else {
                    let worker: u32 = self.worker_size;
                    self.worker_size = worker + 1;
                    Some(Acquired { worker, spawned: true })
                }
            },
        }
    }

    /// Takes a worker back: it is free again, and the next to be handed out.
    pub fn push_free_worker(&mut self, worker: u32)
        ensures
            final(self)@ == (WorkerPoolView {
                free_worker: old(self)@.free_worker.push(worker),
                ..old(self)@
            }),
            old(self)@.wf() && worker < old(self)@.worker_size ==> final(self)@.wf(),
    {
        self.free_worker.push(worker);
    }
}

/// Starts a pool of `default_worker` workers, all free. The caller starts a
/// task loop for each of the workers 0 to `default_worker - 1`.
pub fn new_worker_pool(default_worker: u32) -> (pool: WorkerPool)
    ensures
        pool@ == WorkerPoolView::started(default_worker),
        pool@.wf(),
{
    let mut free_worker: Vec<u32> = Vec::new();
    let mut worker: u32 = 0;
    while worker < default_worker
        invariant
            worker <= default_worker,
            free_worker@.len() == worker,
            forall|i: int| 0 <= i < worker ==> free_worker@[i] == i as u32,
        decreases default_worker - worker,
    {
        free_worker.push(worker);
        worker += 1;
    }
    let pool = WorkerPool { free_worker, worker_size: default_worker };
    assert(pool@.free_worker =~= WorkerPoolView::started(default_worker).free_worker);
    pool
}

/// A worker that is handed out and given back is the next to be handed out
/// again: workers are reused before the pool grows.
pub proof fn lemma_released_worker_is_reused(pool: WorkerPoolView, worker: u32)
    ensures
        (WorkerPoolView { free_worker: pool.free_worker.push(worker), ..pool }).free_worker.last()
            == worker,
        (WorkerPoolView {
            free_worker: pool.free_worker.push(worker),
            ..pool
        }).free_worker.drop_last() == pool.free_worker,
{
    assert(pool.free_worker.push(worker).drop_last() =~= pool.free_worker);
}

} // verus!
