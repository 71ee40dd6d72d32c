//! Supervision of a pool of slow-starting workers.
//!
//! A supervisor starts a pool of workers of a fixed size, each of which
//! takes a long time to become ready. It registers the workers only when the
//! creation of every one of them has resolved, all at once, so that no reader
//! of the registry ever finds it partly filled, and from then on it routes
//! each request to the worker it is addressed to.
//!
//! The crate holds the decisions and leaves the waiting and the sending to
//! its caller:
//!
//! - [`message`]: the request addressed to one worker;
//! - [`worker`]: the life cycle of a worker;
//! - [`registry`]: the mapping from worker identity to worker handle;
//! - [`outcomes`]: the outcomes of the creations and the registry they
//!   amount to;
//! - [`supervisor`]: the supervisor and its operations;
//! - [`protocol`]: what holds of every run of the startup protocol.

pub mod message;
pub mod outcomes;
pub mod protocol;
pub mod registry;
pub mod supervisor;
pub mod worker;
