use workpool::pool::ConfigurationError;
use workpool::pool::WorkerAction;
use workpool::pool::WorkerPool;
use workpool::pool::WorkerState;
use workpool::pool::worker_decision;

#[test]
fn build_zero_fails_with_configuration_error() {
    let r = WorkerPool::build(0);
    assert!(r.is_err());
    assert_eq!(r.unwrap_err(), ConfigurationError);
    assert_eq!(
        ConfigurationError.message(),
        "pool size must be positive"
    );
}

#[test]
fn build_positive_yields_that_many_idle_workers() {
    let p = WorkerPool::build(3).unwrap();
    assert_eq!(p.workers.len(), 3);
    assert_eq!(p.workers, vec![WorkerState::Idle; 3]);
    assert!(p.queue.is_empty());
    assert!(p.submitted.is_empty());
    let p1 = WorkerPool::new(1);
    assert_eq!(p1.workers.len(), 1);
}

#[test]
fn worker_decision_runs_on_job_and_exits_on_closure() {
    assert_eq!(worker_decision(true), WorkerAction::RunJob);
    assert_eq!(worker_decision(false), WorkerAction::Exit);
}

// A pool of size 2 runs 4 submitted jobs: after shutdown the log holds exactly
// the four job tags, each once, in some order.
#[test]
fn pool_of_two_runs_four_jobs() {
    let mut p = WorkerPool::build(2).unwrap();
    p.submit(0);
    p.submit(1);
    p.submit(2);
    p.submit(3);
    p.begin_shutdown();

    let a = p.worker_take(0);
    let b = p.worker_take(1);
    assert_eq!(a, 0);
    assert_eq!(b, 1);
    p.worker_finish(1, true);
    let c = p.worker_take(1);
    p.worker_finish(0, true);
    let d = p.worker_take(0);
    assert_eq!(c, 2);
    assert_eq!(d, 3);
    p.worker_finish(0, true);
    p.worker_finish(1, true);
    p.worker_retire(0);
    p.worker_retire(1);
    p.finish_shutdown();

    let mut log = p.completed.clone();
    log.sort();
    assert_eq!(log, vec![0, 1, 2, 3]);
    assert_eq!(p.failed.len(), 0);
    assert!(p.queue.is_empty());
}

// A pool of size 1 serializes its jobs: the single worker must finish the
// first job before it can take the second, and completions keep submission
// order.
#[test]
fn pool_of_one_serializes_two_jobs() {
    let mut p = WorkerPool::new(1);
    p.submit(10);
    p.submit(11);
    p.begin_shutdown();

    let first = p.worker_take(0);
    assert_eq!(first, 10);
    assert_eq!(p.workers[0], WorkerState::Busy(10));
    p.worker_finish(0, true);
    let second = p.worker_take(0);
    assert_eq!(second, 11);
    p.worker_finish(0, true);
    p.worker_retire(0);
    p.finish_shutdown();

    assert_eq!(p.completed, vec![10, 11]);
}

// A catastrophically failing job costs only its own worker: a job submitted
// afterwards still runs on the remaining live worker.
#[test]
fn failure_is_confined_to_one_worker() {
    let mut p = WorkerPool::build(2).unwrap();
    p.submit(1);
    let doomed = p.worker_take(0);
    assert_eq!(doomed, 1);
    p.worker_finish(0, false);
    assert_eq!(p.workers[0], WorkerState::Failed);
    assert_eq!(p.workers[1], WorkerState::Idle);
    assert_eq!(p.failed, vec![1]);

    p.submit(2);
    let next = p.worker_take(1);
    assert_eq!(next, 2);
    p.worker_finish(1, true);
    assert_eq!(p.completed, vec![2]);

    p.begin_shutdown();
    p.worker_retire(1);
    p.finish_shutdown();
    assert_eq!(p.completed, vec![2]);
    assert_eq!(p.failed, vec![1]);
}

// Delivery is FIFO: jobs come off the queue in submission order even when
// several workers interleave their takes.
#[test]
fn delivery_keeps_submission_order() {
    let mut p = WorkerPool::build(3).unwrap();
    for j in 0..6u64 {
        p.submit(j);
    }
    let x = p.worker_take(2);
    let y = p.worker_take(0);
    let z = p.worker_take(1);
    assert_eq!((x, y, z), (0, 1, 2));
    assert_eq!(p.delivered, vec![0, 1, 2]);
    assert_eq!(p.queue, vec![3, 4, 5]);
}

// A pool that never receives a job still shuts down cleanly, with nothing
// executed.
#[test]
fn pool_with_no_jobs_shuts_down() {
    let mut p = WorkerPool::build(2).unwrap();
    p.begin_shutdown();
    p.worker_retire(0);
    p.worker_retire(1);
    p.finish_shutdown();
    assert!(p.completed.is_empty());
    assert!(p.failed.is_empty());
    assert!(p.queue.is_empty());
}

// Submission is never refused while the pool is alive, whatever the backlog.
#[test]
fn submission_is_accepted_while_alive() {
    let mut p = WorkerPool::new(1);
    for j in 0..100u64 {
        p.submit(j);
    }
    assert_eq!(p.queue.len(), 100);
    assert_eq!(p.submitted.len(), 100);
}
