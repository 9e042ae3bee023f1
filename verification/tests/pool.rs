use primer::pool::{Pool, PoolError, WorkItem, WorkerAction, WorkerEvent, WorkerState, worker_step};

#[test]
fn pool_has_exactly_the_workers_asked_for() {
    for size in 1..9 {
        let pool = Pool::new(size).unwrap();
        assert_eq!(pool.size(), size);
        for w in 0..size {
            assert!(pool.is_running(w));
            assert_eq!(pool.executed_log(w).len(), 0);
        }
    }
}

#[test]
fn zero_size_pool_fails() {
    match Pool::new(0) {
        Err(PoolError::ZeroSize) => (),
        _ => panic!("a pool of zero workers must not be built"),
    }
}

#[test]
fn every_task_runs_exactly_once() {
    let mut pool = Pool::new(3).unwrap();
    let mut handles = Vec::new();
    for _ in 0..10 {
        handles.push(pool.submit().unwrap());
    }
    pool.dispose();
    assert!(pool.disposed());
    assert_eq!(pool.pending(), 0);
    let mut seen: Vec<u64> = Vec::new();
    for w in 0..pool.size() {
        assert!(!pool.is_running(w));
        seen.extend(pool.executed_log(w).iter().copied());
    }
    seen.sort();
    assert_eq!(seen, handles);
}

#[test]
fn no_two_workers_claim_the_same_task() {
    let mut pool = Pool::new(3).unwrap();
    for _ in 0..6 {
        pool.submit().unwrap();
    }
    // Deliver with a deliberately uneven interleaving.
    for w in [0usize, 2, 2, 1, 0, 2] {
        pool.deliver_front(w);
    }
    let mut all: Vec<u64> = Vec::new();
    for w in 0..pool.size() {
        all.extend(pool.executed_log(w).iter().copied());
    }
    let mut deduped = all.clone();
    deduped.sort();
    deduped.dedup();
    assert_eq!(deduped.len(), all.len());
    assert_eq!(all.len(), 6);
}

#[test]
fn disposal_with_one_busy_worker_completes() {
    let mut pool = Pool::new(4).unwrap();
    let long_task = pool.submit().unwrap();
    // Worker 0 claims the long-running task; the rest sit idle.
    pool.deliver_front(0);
    pool.dispose();
    assert!(pool.disposed());
    for w in 0..pool.size() {
        assert!(!pool.is_running(w));
    }
    assert!(pool.executed_log(0).contains(&long_task));
}

#[test]
fn ten_tasks_on_four_workers_all_counted() {
    let mut pool = Pool::new(4).unwrap();
    for _ in 0..10 {
        pool.submit().unwrap();
    }
    pool.dispose();
    let mut counter = 0;
    for w in 0..pool.size() {
        counter += pool.executed_log(w).len();
    }
    assert_eq!(counter, 10);
}

#[test]
fn both_tasks_recorded_before_disposal_returns() {
    let mut pool = Pool::new(2).unwrap();
    let slow = pool.submit().unwrap();
    let fast = pool.submit().unwrap();
    pool.dispose();
    let mut recorded: Vec<u64> = Vec::new();
    for w in 0..pool.size() {
        recorded.extend(pool.executed_log(w).iter().copied());
    }
    recorded.sort();
    assert_eq!(recorded, vec![slow, fast]);
}

#[test]
fn submit_after_disposal_reports_closed_channel() {
    let mut pool = Pool::new(2).unwrap();
    pool.dispose();
    match pool.submit() {
        Err(PoolError::ChannelClosed) => (),
        _ => panic!("a disposed pool must report its broken channel"),
    }
}

#[test]
fn disposal_twice_is_harmless() {
    let mut pool = Pool::new(2).unwrap();
    pool.submit().unwrap();
    pool.dispose();
    pool.dispose();
    assert!(pool.disposed());
}

#[test]
fn worker_runs_task_and_keeps_running() {
    let (state, action) = worker_step(WorkerEvent::Received(WorkItem::NewTask(7)));
    assert_eq!(state, WorkerState::Running);
    assert_eq!(action, WorkerAction::Execute(7));
}

#[test]
fn worker_stops_on_terminate() {
    let (state, action) = worker_step(WorkerEvent::Received(WorkItem::Terminate));
    assert_eq!(state, WorkerState::Stopped);
    assert_eq!(action, WorkerAction::Exit);
}

#[test]
fn worker_treats_broken_channel_as_fatal() {
    let (state, action) = worker_step(WorkerEvent::ChannelBroken);
    assert_eq!(state, WorkerState::Stopped);
    assert_eq!(action, WorkerAction::ExitFault);
}
