//! The message that callers address to a single worker of the pool.

use vstd::prelude::*;

verus! {

/// A request addressed to one worker of the pool.
///
/// `receiver` is the identity of the worker that must handle the request;
/// `payload` is carried to that worker untouched.
#[derive(Debug, PartialEq, Eq)]
pub struct RoutedMessage<P> {
    pub receiver: u16,
    pub payload: P,
}

impl<P> RoutedMessage<P> {
    /// Builds a request for the worker `receiver`.
    pub fn new(receiver: u16, payload: P) -> (msg: Self)
        ensures
            msg.receiver == receiver,
            msg.payload == payload,
    {
        RoutedMessage { receiver, payload }
    }
}

} // verus!
