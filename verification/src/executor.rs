//! The bookkeeping of the worker pool that runs tasks on threads.
//!
//! The pool grows up to a maximum number of workers. A submitted task goes
//! to the back of the queue; it either wakes an idle worker or, when none is
//! idle and the pool may still grow, calls for a new worker. A worker runs
//! queued tasks until the queue is empty, then waits; a waiting worker that
//! is notified goes back to the queue, and one whose wait times out without
//! a notification leaves the pool.
//!
//! The threads, the lock and the condition variable that drive this live
//! outside the crate; they call the methods below under the lock and perform
//! the action that each returns.

use vstd::prelude::*;

verus! {

/// What the caller of [`WorkerPool::submit`] must do next.
#[derive(Debug, PartialEq, Eq, Structural)]
pub enum SubmitAction {
    /// Start a new worker thread; it has been counted already.
    SpawnWorker,
    /// Wake one waiting worker; it has been counted as notified.
    NotifyOne,
    /// Nothing: the queued task waits for a worker that is busy.
    Nothing,
}

/// What a worker does after its wait on the condition variable ended.
#[derive(Debug, PartialEq, Eq, Structural)]
pub enum WakeAction {
    /// It took a notification: it goes back to the queue.
    Resume,
    /// Neither notified nor timed out: it waits again.
    KeepWaiting,
    /// It timed out without a notification: it has left the pool.
    Exit,
}

/// The queue and the counters that the workers share.
///
/// `workers` counts the worker threads, `idle` those waiting without a
/// notification, `notified` the notifications that waiting workers have not
/// taken yet. A worker that is neither counted idle nor holds a pending
/// notification is busy.
pub struct WorkerPool<T> {
    queue: std::collections::VecDeque<T>,
    workers: usize,
    idle: usize,
    notified: usize,
}

/// The default number of workers for a machine with `cpus` processors: 15
/// per processor, capped at `usize::MAX`.
pub open spec fn spec_worker_limit(cpus: nat) -> nat {
    if cpus * 15 <= usize::MAX {
        cpus * 15
    } else {
        usize::MAX as nat
    }
}

/// The default number of workers for a machine with `cpus` processors.
pub fn worker_limit_for(cpus: usize) -> (limit: usize)
    ensures
        limit == spec_worker_limit(cpus as nat),
{
    if cpus <= usize::MAX / 15 {
        cpus * 15
    } else {
        usize::MAX
    }
}

/// The limits of a worker pool: the given maximum number of workers, or
/// else the default for the machine's processors; the given keep-alive of an
/// idle worker, or else 6 seconds. The processors are counted only where no
/// maximum is given.
pub fn resolve_limits(max_workers: Option<usize>, keep_alive: Option<std::time::Duration>) -> (r: (
    usize,
    std::time::Duration,
))
    ensures
        max_workers matches Some(m) ==> r.0 == m,
        max_workers is None ==> exists|cpus: usize| cpus >= 1 && r.0 == spec_worker_limit(cpus as nat),
        r.1 == (match keep_alive {
            Some(d) => d,
            None => crate::config::duration_of_secs(6),
        }),
{
    let max = match max_workers {
        Some(m) => m,
        None => crate::config::default_max_workers(),
    };
    let keep = match keep_alive {
        Some(d) => d,
        None => std::time::Duration::from_secs(6),
    };
    (max, keep)
}

/// What [`WorkerPool::submit`] calls for in a pool with `workers` workers of
/// which `idle` are idle: a new worker where none is idle and the pool may
/// grow, else a notification where one is idle, else nothing.
pub open spec fn submit_action(workers: nat, idle: nat, max_workers: nat) -> SubmitAction {
    if idle == 0 && workers != max_workers {
        SubmitAction::SpawnWorker
    } else if idle > 0 {
        SubmitAction::NotifyOne
    } else {
        SubmitAction::Nothing
    }
}

/// The counters `(workers, idle, notified)` after a submit: a new worker
/// is counted, or an idle one is counted as notified.
pub open spec fn after_submit(c: (nat, nat, nat), max_workers: nat) -> (nat, nat, nat) {
    match submit_action(c.0, c.1, max_workers) {
        SubmitAction::SpawnWorker => (c.0 + 1, c.1, c.2),
        SubmitAction::NotifyOne => (c.0, (c.1 - 1) as nat, c.2 + 1),
        SubmitAction::Nothing => c,
    }
}

/// The counters after a busy worker starts to wait: one more is idle.
pub open spec fn after_start_waiting(c: (nat, nat, nat)) -> (nat, nat, nat) {
    (c.0, c.1 + 1, c.2)
}

/// What a worker does when its wait ends: take a pending notification,
/// else leave on a timeout, else wait again.
pub open spec fn wake_action(notified: nat, timed_out: bool) -> WakeAction {
    if notified != 0 {
        WakeAction::Resume
    } else if timed_out {
        WakeAction::Exit
    } else {
        WakeAction::KeepWaiting
    }
}

/// The counters after a wait ends: a notification is taken, or the worker
/// leaves and is no longer counted nor counted idle.
pub open spec fn after_wake(c: (nat, nat, nat), timed_out: bool) -> (nat, nat, nat) {
    match wake_action(c.2, timed_out) {
        WakeAction::Resume => (c.0, c.1, (c.2 - 1) as nat),
        WakeAction::Exit => ((c.0 - 1) as nat, (c.1 - 1) as nat, c.2),
        WakeAction::KeepWaiting => c,
    }
}

/// A submitted task never waits while a worker is idle: with an idle
/// worker, a submit wakes exactly one of them (it is counted notified
/// instead of idle), and no worker is added.
pub proof fn submit_wakes_an_idle_worker(c: (nat, nat, nat), max_workers: nat)
    requires
        c.1 > 0,
    ensures
        submit_action(c.0, c.1, max_workers) == SubmitAction::NotifyOne,
        after_submit(c, max_workers) == (c.0, (c.1 - 1) as nat, c.2 + 1),
{
}

/// A submit leaves its task to the busy workers only when no worker is idle
/// and the pool is at its maximum; it adds a worker only when none is idle
/// and the pool is below its maximum.
pub proof fn submit_waits_or_grows_only_when_none_idle(c: (nat, nat, nat), max_workers: nat)
    requires
        c.0 <= max_workers,
    ensures
        submit_action(c.0, c.1, max_workers) == SubmitAction::Nothing <==> (c.1 == 0 && c.0
            == max_workers),
        submit_action(c.0, c.1, max_workers) == SubmitAction::SpawnWorker <==> (c.1 == 0 && c.0
            < max_workers),
        submit_action(c.0, c.1, max_workers) == SubmitAction::SpawnWorker ==> after_submit(
            c,
            max_workers,
        ) == (c.0 + 1, c.1, c.2),
{
}

/// The counters `(workers, idle, notified)` agree with the worker threads:
/// `busy` threads run tasks (or are about to start), `waiting` threads are
/// inside their wait, the waiting ones are those counted idle or notified,
/// and there are at most `max_workers` threads.
pub open spec fn census(c: (nat, nat, nat), busy: nat, waiting: nat, max_workers: nat) -> bool {
    &&& c.1 + c.2 == waiting
    &&& c.0 == busy + waiting
    &&& c.0 <= max_workers
}

/// An empty pool agrees with a pool of no threads.
pub proof fn census_starts_empty(max_workers: nat)
    ensures
        census((0, 0, 0), 0, 0, max_workers),
{
}

/// Submitting a task keeps the counters in agreement with the threads: a
/// spawned worker is one more busy thread, and a notified worker stays in
/// its wait until it wakes.
pub proof fn submit_keeps_census(c: (nat, nat, nat), busy: nat, waiting: nat, max_workers: nat)
    requires
        census(c, busy, waiting, max_workers),
    ensures
        census(
            after_submit(c, max_workers),
            if submit_action(c.0, c.1, max_workers) == SubmitAction::SpawnWorker {
                busy + 1
            } else {
                busy
            },
            waiting,
            max_workers,
        ),
{
}

/// A busy thread that starts to wait finds the pool able to count it idle
/// (fewer waiting than workers), and the counters keep agreeing with the
/// threads.
pub proof fn start_waiting_keeps_census(
    c: (nat, nat, nat),
    busy: nat,
    waiting: nat,
    max_workers: nat,
)
    requires
        census(c, busy, waiting, max_workers),
        busy >= 1,
    ensures
        c.1 + c.2 < c.0,
        census(after_start_waiting(c), (busy - 1) as nat, waiting + 1, max_workers),
{
}

/// A waiting thread whose wait ends finds the pool able to wake it (at
/// least one waiting, no more than there are workers), and the counters
/// keep agreeing with the threads: a resumed worker is busy again, one that
/// leaves is gone, and one that waits again still waits.
pub proof fn wake_keeps_census(
    c: (nat, nat, nat),
    busy: nat,
    waiting: nat,
    max_workers: nat,
    timed_out: bool,
)
    requires
        census(c, busy, waiting, max_workers),
        waiting >= 1,
    ensures
        1 <= c.1 + c.2 <= c.0,
        census(
            after_wake(c, timed_out),
            match wake_action(c.2, timed_out) {
                WakeAction::Resume => busy + 1,
                _ => busy,
            },
            match wake_action(c.2, timed_out) {
                WakeAction::KeepWaiting => waiting,
                _ => (waiting - 1) as nat,
            },
            max_workers,
        ),
{
}

impl<T> WorkerPool<T> {
    /// The tasks waiting to run, front first.
    pub closed spec fn tasks(&self) -> Seq<T> {
        self.queue@
    }

    /// The number of worker threads.
    pub closed spec fn worker_count(&self) -> nat {
        self.workers as nat
    }

    /// The number of waiting workers without a notification.
    pub closed spec fn idle_count(&self) -> nat {
        self.idle as nat
    }

    /// The number of notifications not taken yet.
    pub closed spec fn notified_count(&self) -> nat {
        self.notified as nat
    }

    /// The counters `(workers, idle, notified)`.
    pub open spec fn counters(&self) -> (nat, nat, nat) {
        (self.worker_count(), self.idle_count(), self.notified_count())
    }

    /// The number of waiting workers: idle, or notified and not awake yet.
    pub open spec fn waiting_count(&self) -> nat {
        self.idle_count() + self.notified_count()
    }

    /// The pool's invariant: no more workers wait than there are, and there
    /// are no more workers than `max_workers`.
    pub open spec fn inv(&self, max_workers: nat) -> bool {
        &&& self.waiting_count() <= self.worker_count()
        &&& self.worker_count() <= max_workers
    }

    /// An empty pool: no tasks and no workers.
    pub fn new() -> (pool: Self)
        ensures
            pool.tasks() == Seq::<T>::empty(),
            pool.counters() == (0nat, 0nat, 0nat),
            forall|max: nat| pool.inv(max),
    {
        WorkerPool { queue: std::collections::VecDeque::new(), workers: 0, idle: 0, notified: 0 }
    }

    /// The number of worker threads.
    pub fn workers(&self) -> (n: usize)
        ensures
            n == self.worker_count(),
    {
        self.workers
    }

    /// The number of waiting workers without a notification.
    pub fn idle(&self) -> (n: usize)
        ensures
            n == self.idle_count(),
    {
        self.idle
    }

    /// The number of notifications not taken yet.
    pub fn notified(&self) -> (n: usize)
        ensures
            n == self.notified_count(),
    {
        self.notified
    }

    /// The number of queued tasks.
    pub fn queued(&self) -> (n: usize)
        ensures
            n == self.tasks().len(),
    {
        self.queue.len()
    }

    /// Queues `task` and decides how it will be run.
    ///
    /// With no idle worker and fewer than `max_workers` workers, a new
    /// worker is counted and must be spawned; with an idle worker, one idle
    /// worker is counted as notified and must be woken; otherwise a busy
    /// worker will take the task.
    pub fn submit(&mut self, task: T, max_workers: usize) -> (action: SubmitAction)
        requires
            old(self).inv(max_workers as nat),
        ensures
            final(self).inv(max_workers as nat),
            final(self).tasks() == old(self).tasks().push(task),
            action == submit_action(old(self).worker_count(), old(self).idle_count(), max_workers as nat),
            final(self).counters() == after_submit(old(self).counters(), max_workers as nat),
    {
        self.queue.push_back(task);
        if self.idle == 0 && self.workers != max_workers {
            self.workers = self.workers + 1;
            SubmitAction::SpawnWorker
        } else if self.idle > 0 {
            self.idle = self.idle - 1;
            self.notified = self.notified + 1;
            SubmitAction::NotifyOne
        } else {
            SubmitAction::Nothing
        }
    }

    /// Takes the task at the front of the queue, for a worker to run.
    pub fn take_task(&mut self) -> (task: Option<T>)
        ensures
            final(self).counters() == old(self).counters(),
            if old(self).tasks().len() == 0 {
                &&& task is None
                &&& final(self).tasks() == old(self).tasks()
            } else {
                &&& task == Some(old(self).tasks()[0])
                &&& final(self).tasks() == old(self).tasks().drop_first()
            },
    {
        self.queue.pop_front()
    }

    /// A busy worker found the queue empty and starts to wait: it is counted
    /// idle.
    pub fn start_waiting(&mut self)
        requires
            old(self).waiting_count() < old(self).worker_count(),
        ensures
            final(self).tasks() == old(self).tasks(),
            final(self).counters() == after_start_waiting(old(self).counters()),
            forall|max: nat| old(self).inv(max) ==> final(self).inv(max),
    {
        self.idle = self.idle + 1;
    }

    /// A waiting worker's wait ended, by a timeout or not.
    ///
    /// A pending notification is taken first: the worker resumes. Without
    /// one, a timed-out worker leaves the pool (it is no longer counted, nor
    /// counted idle); any other wake-up is spurious and the worker waits
    /// again.
    pub fn wake(&mut self, timed_out: bool) -> (action: WakeAction)
        requires
            1 <= old(self).waiting_count() <= old(self).worker_count(),
        ensures
            final(self).tasks() == old(self).tasks(),
            action == wake_action(old(self).notified_count(), timed_out),
            final(self).counters() == after_wake(old(self).counters(), timed_out),
            forall|max: nat| old(self).inv(max) ==> final(self).inv(max),
    {
        if self.notified != 0 {
            self.notified = self.notified - 1;
            WakeAction::Resume
        } else if timed_out {
            self.workers = self.workers - 1;
            self.idle = self.idle - 1;
            WakeAction::Exit
        } else {
            WakeAction::KeepWaiting
        }
    }
}

} // verus!
