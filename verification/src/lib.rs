//! The decision logic of a small thread-pool async runtime: the per-task
//! scheduling state machine, the FIFO task queue, the timer future's
//! readiness decision, and the waker trait that tasks implement.

pub mod task_state;
pub mod msg_queue;
pub mod fake_io;
pub mod toy_waker;
pub mod mini_runtime;
pub mod handle;
