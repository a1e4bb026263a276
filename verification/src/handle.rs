use std::sync::mpsc::Receiver;
use vstd::prelude::*;

verus! {

#[verifier::external_type_specification]
#[verifier::external_body]
#[verifier::reject_recursive_types(T)]
pub struct ExReceiver<T>(Receiver<T>);

/// The handle of a spawned task: the receiving end on which the task's
/// output arrives once its future completes.
#[verifier::reject_recursive_types(T)]
pub struct Handle<T>
    where
        T: Send + 'static,
{
    receiver: Receiver<T>,
}

impl<T> Handle<T>
    where
        T: Send + 'static,
{
    /// The receiving end this handle wraps.
    pub closed spec fn spec_receiver(&self) -> Receiver<T> {
        self.receiver
    }

    /// The handle whose output arrives on `rx`.
    pub fn from_receiver(rx: Receiver<T>) -> (h: Self)
        ensures
            h.spec_receiver() == rx,
    {
        Handle { receiver: rx }
    }

    /// The receiving end on which the task's output arrives.
    pub fn receiver(&self) -> (rx: &Receiver<T>)
        ensures
            *rx == self.spec_receiver(),
    {
        &self.receiver
    }
}

} // verus!
