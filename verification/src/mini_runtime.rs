use std::future::Future;
use vstd::prelude::*;

verus! {

/// Accepts a future for spawning and returns the task number it was given;
/// this runtime does not run it and numbers every task 0.
pub fn spawn<T>(future: T) -> (id: u64)
    where
        T: Future + 'static + Send,
        T::Output: Send + 'static,
    ensures
        id == 0,
{
    0
}

} // verus!
