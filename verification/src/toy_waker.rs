use std::sync::Arc;
use vstd::prelude::*;

verus! {

/// A task that can be woken through a shared handle; a waker built from an
/// `Arc` of such a task calls `wake` when the task's future may progress.
pub trait ArcWake: Send + Sync {
    /// Schedules the task to be polled again.
    fn wake(self: Arc<Self>);
}

} // verus!
