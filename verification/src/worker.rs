use vstd::prelude::*;

use crate::state::State;

verus! {

/// A message on the pool's queue: a job to run, or a request for one more worker.
pub enum MsgForWorker<J> {
    NewJob(J),
    Spawn,
}

/// What a worker's wait on the queue ended with.
pub enum WorkerEvent<J> {
    /// A message was taken from the queue.
    Received(MsgForWorker<J>),
    /// No message came within the keep-alive.
    TimedOut,
    /// The queue is closed and empty.
    Disconnected,
}

/// What a worker does next.
pub enum WorkerAction<J> {
    /// Run `job`; when `request_spawn`, first put a spawn request on the queue, without
    /// waiting for room in it.
    RunJob { job: J, request_spawn: bool },
    /// Wait for the next message; when `spawn`, first start a new worker.
    Wait { spawn: bool },
    /// Stop; when `spawn`, first start a new worker.
    Exit { spawn: bool },
}

/// The decisions of one worker of a pool.
///
/// The thread that runs a worker waits on the queue for at most `keep_alive`
/// seconds at a time, hands what it got to [`Worker::handle`], and does what that
/// returns; after a job it calls [`Worker::job_done`].
#[derive(Clone, Debug)]
pub struct Worker {
    pub keep_alive: u64,
    pub state: State,
}

impl Worker {
    pub fn new(keep_alive: u64, state: State) -> (worker: Self)
        ensures
            worker.keep_alive == keep_alive,
            worker.state == state,
    {
        Worker { keep_alive, state }
    }

    /// Whether this worker is counted in the pool and may run; a worker that is not
    /// stops at once.
    pub fn start(&self) -> (counted: bool)
        ensures
            exists|word: u32| counted == self.state@.admitted(word) is Some,
    {
        self.state.allow_new_worker()
    }

    /// The next action on `event`.
    ///
    /// A job is always run at once: the worker at most asks for a new worker, which
    /// some worker starts after its job or while it is idle.
    pub fn handle<J>(&self, event: WorkerEvent<J>) -> (action: WorkerAction<J>)
        ensures
            match event {
                WorkerEvent::Received(MsgForWorker::NewJob(job)) => exists|previous: u32|
                    action == (WorkerAction::RunJob {
                        job,
                        request_spawn: self.state@.available_decreased(previous),
                    }),
                WorkerEvent::Received(MsgForWorker::Spawn) => exists|word: u32|
                    action == (WorkerAction::<J>::Wait { spawn: self.state@.needs_spawn(word) }),
                WorkerEvent::TimedOut => exists|word: u32, later: u32|
                    action == if self.state@.retired(later) is Some {
                        WorkerAction::<J>::Exit { spawn: self.state@.needs_spawn(word) }
                    } else {
                        WorkerAction::<J>::Wait { spawn: self.state@.needs_spawn(word) }
                    },
                WorkerEvent::Disconnected => action == (WorkerAction::<J>::Exit { spawn: false }),
            },
    {
        match event {
            WorkerEvent::Received(MsgForWorker::NewJob(job)) => {
                let request_spawn = self.state.decrease_available();
                WorkerAction::RunJob { job, request_spawn }
            },
            WorkerEvent::Received(MsgForWorker::Spawn) => {
                WorkerAction::Wait { spawn: self.state.need_spawn() }
            },
            WorkerEvent::TimedOut => {
                let spawn = self.state.need_spawn();
                if self.state.allow_to_shutdown() {
                    WorkerAction::Exit { spawn }
                } else {
                    WorkerAction::Wait { spawn }
                }
            },
            WorkerEvent::Disconnected => WorkerAction::Exit { spawn: false },
        }
    }

    /// Counts this worker available again after a job; tells whether it should start
    /// a new worker.
    pub fn job_done(&self) -> (spawn: bool)
        ensures
            exists|previous: u32| spawn == self.state@.available_incremented(previous),
    {
        self.state.increment_available()
    }
}

} // verus!
