# fast_threadpool

A thread pool tuned for latency: a job never waits for a thread to be spawned,
new workers start in the idle time of the existing ones, and the pool keeps a
configurable number of workers available.

- `src/` is the verified library: the configuration (`config.rs`), the shared
  counter of workers and available workers with every decision taken on it and
  the laws those decisions obey (`state.rs`), what a worker does on each event
  (`worker.rs`), and the job queue and join handle (`handler.rs`).
- `app/` starts the worker threads, moves jobs over the channels and runs them:
  `ThreadPool`, its synchronous and asynchronous handlers, and each worker's loop.
- `tests/` runs the library on concrete values.
