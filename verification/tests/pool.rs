use yarws::pool::PoolCreationError;
use yarws::pool::QueueMessage;
use yarws::pool::ThreadPool;
use yarws::pool::Worker;
use yarws::pool::WorkerState;
use yarws::pool::worker_step;
use yarws::queue::RecvOutcome;

#[test]
fn build_yields_exactly_the_requested_workers() {
    let p: ThreadPool<u64> = ThreadPool::build(1).unwrap();
    assert_eq!(p.worker_count(), 1);
    assert!(p.is_worker_running(0));

    let p: ThreadPool<u64> = ThreadPool::build(4).unwrap();
    assert_eq!(p.worker_count(), 4);
    for i in 0..4 {
        assert!(p.is_worker_running(i));
    }
}

#[test]
fn build_of_size_zero_is_rejected() {
    let r: Result<ThreadPool<u64>, PoolCreationError> = ThreadPool::build(0);
    assert!(matches!(r, Err(PoolCreationError::NegativePoolSize)));
}

#[test]
fn each_failure_kind_has_its_own_message() {
    assert_eq!(
        PoolCreationError::NegativePoolSize.message(),
        "invalid pool size: a pool needs at least one worker"
    );
    assert_eq!(
        PoolCreationError::ThreadSpawnError.message(),
        "could not spawn a worker thread"
    );
}

#[test]
fn worker_build_sets_id_and_runs() {
    let w = Worker::build(3);
    assert_eq!(w.id, 3);
    assert!(matches!(w.state, WorkerState::Running));
}

#[test]
fn worker_step_runs_the_job_and_keeps_looping() {
    let (state, action) = worker_step(WorkerState::Running, QueueMessage::NewJob(7u64));
    assert!(matches!(state, WorkerState::Running));
    assert_eq!(action, Some(7));
}

#[test]
fn worker_step_terminates_on_disconnect() {
    let (state, action) = worker_step::<u64>(WorkerState::Running, QueueMessage::Disconnected);
    assert!(matches!(state, WorkerState::Terminated));
    assert_eq!(action, None);
}

#[test]
fn single_worker_sees_jobs_in_submission_order() {
    let mut p: ThreadPool<u64> = ThreadPool::build(1).unwrap();
    p.execute(100);
    p.execute(200);
    assert!(matches!(p.step_worker(0), RecvOutcome::Job(100)));
    assert!(matches!(p.step_worker(0), RecvOutcome::Job(200)));
    assert!(matches!(p.step_worker(0), RecvOutcome::Waiting));
}

#[test]
fn idle_worker_waits_without_terminating() {
    let mut p: ThreadPool<u64> = ThreadPool::build(2).unwrap();
    assert!(matches!(p.step_worker(1), RecvOutcome::Waiting));
    assert!(p.is_worker_running(1));
}

#[test]
fn busy_worker_does_not_block_an_idle_one() {
    let mut p: ThreadPool<u64> = ThreadPool::build(2).unwrap();
    p.execute(1);
    p.execute(2);
    // Worker 0 takes the first job and is now busy executing it; worker 1
    // picks up the next job without waiting for worker 0 to finish.
    assert!(matches!(p.step_worker(0), RecvOutcome::Job(1)));
    assert!(matches!(p.step_worker(1), RecvOutcome::Job(2)));
}

#[test]
fn shutdown_terminates_every_worker_and_returns_leftovers() {
    let mut p: ThreadPool<u64> = ThreadPool::build(3).unwrap();
    p.execute(11);
    p.execute(22);
    assert!(matches!(p.step_worker(2), RecvOutcome::Job(11)));
    let undelivered = p.shutdown();
    assert_eq!(undelivered, vec![22]);
    assert_eq!(p.pending_count(), 0);
    for i in 0..3 {
        assert!(!p.is_worker_running(i));
    }
}

#[test]
fn shutdown_is_idempotent() {
    let mut p: ThreadPool<u64> = ThreadPool::build(2).unwrap();
    p.execute(1);
    let first = p.shutdown();
    assert_eq!(first, vec![1]);
    let second = p.shutdown();
    assert!(second.is_empty());
    for i in 0..2 {
        assert!(!p.is_worker_running(i));
    }
}

#[test]
fn shutdown_of_an_idle_pool_terminates_all_workers() {
    let mut p: ThreadPool<u64> = ThreadPool::build(2).unwrap();
    let undelivered = p.shutdown();
    assert!(undelivered.is_empty());
    assert!(!p.is_worker_running(0));
    assert!(!p.is_worker_running(1));
}

#[test]
fn five_jobs_on_two_workers_each_run_exactly_once() {
    let mut p: ThreadPool<u64> = ThreadPool::build(2).unwrap();
    let jobs: Vec<u64> = vec![10, 20, 30, 40, 50];
    for &j in &jobs {
        p.execute(j);
    }
    // Drive the two workers alternately; each delivered job records its
    // own invocation.
    let mut invoked: Vec<u64> = Vec::new();
    let mut turn: usize = 0;
    loop {
        match p.step_worker(turn) {
            RecvOutcome::Job(j) => invoked.push(j),
            RecvOutcome::Waiting => break,
            RecvOutcome::Closed => break,
        }
        turn = (turn + 1) % 2;
    }
    let undelivered = p.shutdown();
    assert!(undelivered.is_empty());
    assert_eq!(invoked.len(), 5);
    let mut sorted = invoked.clone();
    sorted.sort();
    sorted.dedup();
    assert_eq!(sorted, jobs);
}
