use std::time::Duration;
use azrath::executor::{resolve_limits, worker_limit_for, SubmitAction, WakeAction, WorkerPool};

#[test]
fn worker_limit_is_fifteen_per_cpu() {
    assert_eq!(worker_limit_for(1), 15);
    assert_eq!(worker_limit_for(8), 120);
    assert_eq!(worker_limit_for(0), 0);
    assert_eq!(worker_limit_for(usize::MAX), usize::MAX);
}

#[test]
fn submit_spawns_up_to_max_then_queues() {
    let mut pool: WorkerPool<u32> = WorkerPool::new();
    assert_eq!(pool.submit(1, 2), SubmitAction::SpawnWorker);
    assert_eq!(pool.submit(2, 2), SubmitAction::SpawnWorker);
    assert_eq!(pool.submit(3, 2), SubmitAction::Nothing);
    assert_eq!(pool.workers(), 2);
    assert_eq!(pool.queued(), 3);
    assert_eq!(pool.take_task(), Some(1));
    assert_eq!(pool.take_task(), Some(2));
    assert_eq!(pool.take_task(), Some(3));
    assert_eq!(pool.take_task(), None);
}

#[test]
fn idle_worker_is_notified_and_resumes() {
    let mut pool: WorkerPool<u32> = WorkerPool::new();
    assert_eq!(pool.submit(1, 4), SubmitAction::SpawnWorker);
    assert_eq!(pool.take_task(), Some(1));
    assert_eq!(pool.take_task(), None);
    pool.start_waiting();
    assert_eq!(pool.idle(), 1);
    assert_eq!(pool.submit(2, 4), SubmitAction::NotifyOne);
    assert_eq!(pool.idle(), 0);
    assert_eq!(pool.notified(), 1);
    assert_eq!(pool.wake(false), WakeAction::Resume);
    assert_eq!(pool.notified(), 0);
    assert_eq!(pool.workers(), 1);
}

#[test]
fn timed_out_worker_leaves() {
    let mut pool: WorkerPool<u32> = WorkerPool::new();
    assert_eq!(pool.submit(1, 4), SubmitAction::SpawnWorker);
    assert_eq!(pool.take_task(), Some(1));
    pool.start_waiting();
    assert_eq!(pool.wake(false), WakeAction::KeepWaiting);
    assert_eq!(pool.wake(true), WakeAction::Exit);
    assert_eq!(pool.workers(), 0);
    assert_eq!(pool.idle(), 0);
}

#[test]
fn zero_max_workers_never_spawns() {
    let mut pool: WorkerPool<u32> = WorkerPool::new();
    assert_eq!(pool.submit(1, 0), SubmitAction::Nothing);
    assert_eq!(pool.workers(), 0);
}

#[test]
fn test_executor_creation() {
    let (max_workers, keep_alive) = resolve_limits(Some(4), Some(Duration::from_secs(10)));
    assert!(max_workers == 4);
    assert_eq!(keep_alive, Duration::from_secs(10));
}

#[test]
fn pool_limits_default() {
    assert_eq!(resolve_limits(None, None), (num_cpus::get() * 15, Duration::from_secs(6)));
}

#[test]
fn counters_track_busy_and_waiting_threads() {
    // Two threads: both busy, then one waits, is notified and resumes, the
    // other waits and times out. After each step idle + notified counts the
    // threads inside their wait, and workers counts all of them.
    let mut pool: WorkerPool<u32> = WorkerPool::new();
    let (mut busy, mut waiting) = (0usize, 0usize);
    assert_eq!(pool.submit(1, 2), SubmitAction::SpawnWorker);
    busy += 1;
    assert_eq!(pool.submit(2, 2), SubmitAction::SpawnWorker);
    busy += 1;
    let agree = |p: &WorkerPool<u32>, busy: usize, waiting: usize| {
        p.idle() + p.notified() == waiting && p.workers() == busy + waiting && p.workers() <= 2
    };
    assert!(agree(&pool, busy, waiting));
    assert_eq!(pool.take_task(), Some(1));
    assert_eq!(pool.take_task(), Some(2));
    pool.start_waiting();
    busy -= 1;
    waiting += 1;
    assert!(agree(&pool, busy, waiting));
    pool.start_waiting();
    busy -= 1;
    waiting += 1;
    assert!(agree(&pool, busy, waiting));
    assert_eq!(pool.submit(3, 2), SubmitAction::NotifyOne);
    assert!(agree(&pool, busy, waiting));
    assert_eq!(pool.wake(false), WakeAction::Resume);
    busy += 1;
    waiting -= 1;
    assert!(agree(&pool, busy, waiting));
    assert_eq!(pool.wake(true), WakeAction::Exit);
    waiting -= 1;
    assert!(agree(&pool, busy, waiting));
    assert_eq!((pool.workers(), pool.idle(), pool.notified()), (1, 0, 0));
}
