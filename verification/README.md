# toy_runtime

A small thread-pool runtime for Rust futures, split in two.

- `src/` is the verified library: the per-task scheduling state machine
  (`task_state`), the FIFO queue behind the shared message queue
  (`msg_queue`), the timer future's poll decision (`fake_io`), the task
  handle (`handle`), the `ArcWake` trait (`toy_waker`) and the placeholder
  `spawn` of the minimal runtime (`mini_runtime`). Its laws are the public
  proof functions in `task_state` and `msg_queue`.
- `app/` is the unverified runtime around it: worker threads, crossbeam and
  pthread-based queues, type-erased tasks behind raw pointers and their
  wakers. The crossbeam-based runtime (`app/toy.rs`) takes each task's
  scheduling decision from the library's state machine, the pthread-based
  queue takes its take-or-wait decision from the library's queue, and the
  timer future its ready-or-pending decision; the other two runtimes
  (`app/toy2.rs`, `app/mini_runtime.rs`) make no decision of their own.
