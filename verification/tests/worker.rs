use fast_threadpool::state::State;
use fast_threadpool::worker::{MsgForWorker, Worker, WorkerAction, WorkerEvent};
use fast_threadpool::ThreadPoolConfig;

fn worker(max_available: u16, max_workers: u16, min_available: u16, min_workers: u16) -> Worker {
    let config = ThreadPoolConfig::for_cpus(1)
        .max_workers(max_workers)
        .max_available_workers(max_available)
        .min_available_workers(min_available)
        .min_workers(min_workers)
        .keep_alive(7);
    Worker::new(config.keep_alive_secs(), State::new(config))
}

#[test]
fn job_runs_at_once() {
    let w = worker(1, 4, 1, 1);
    assert!(w.start());
    assert!(w.start());
    // 2 available: taking a job leaves 1, which asks for one more worker.
    match w.handle(WorkerEvent::Received(MsgForWorker::NewJob(42u32))) {
        WorkerAction::RunJob { job, request_spawn } => {
            assert_eq!(job, 42);
            assert!(request_spawn);
        }
        _ => panic!("a job must be run"),
    }
    // After the job: 2 available again, above the maximum, no spawn.
    assert!(!w.job_done());
}

#[test]
fn spawn_request_while_short() {
    let w = worker(2, 4, 1, 1);
    assert!(w.start());
    match w.handle(WorkerEvent::<u32>::Received(MsgForWorker::Spawn)) {
        WorkerAction::Wait { spawn } => assert!(spawn),
        _ => panic!("a spawn request keeps the worker waiting"),
    }
}

#[test]
fn timeout_keeps_minimum() {
    let w = worker(1, 4, 1, 1);
    assert!(w.start());
    // One worker, one available: nobody may leave, and the pool wants another.
    match w.handle(WorkerEvent::<u32>::TimedOut) {
        WorkerAction::Wait { spawn } => assert!(spawn),
        _ => panic!("the last worker stays"),
    }
}

#[test]
fn timeout_lets_extra_worker_leave() {
    let w = worker(1, 4, 1, 1);
    assert!(w.start());
    assert!(w.start());
    assert!(w.start());
    match w.handle(WorkerEvent::<u32>::TimedOut) {
        WorkerAction::Exit { spawn } => assert!(!spawn),
        _ => panic!("an extra idle worker leaves"),
    }
}

#[test]
fn disconnected_exits() {
    let w = worker(1, 4, 1, 1);
    match w.handle(WorkerEvent::<u32>::Disconnected) {
        WorkerAction::Exit { spawn } => assert!(!spawn),
        _ => panic!("a closed queue ends the worker"),
    }
}

#[test]
fn start_refused_at_max() {
    let w = worker(1, 2, 1, 1);
    assert!(w.start());
    assert!(w.start());
    assert!(!w.start());
    assert_eq!(w.keep_alive, 7);
}
