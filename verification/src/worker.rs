//! The life cycle of one worker of the pool.
//!
//! A worker is created idle, spends a long time initializing, and only then
//! accepts requests. The blocking wait itself is left to the caller: this
//! module decides the transitions and how long the wait lasts.

use crate::message::RoutedMessage;
use vstd::prelude::*;

verus! {

/// How long a worker's initialization blocks, in milliseconds.
pub const STARTUP_LAG_MILLIS: u64 = 1000;

/// Where a worker stands in its life cycle.
#[derive(Clone, Copy, Debug, PartialEq, Eq, Structural)]
pub enum WorkerState {
    /// Constructed, not yet started.
    Created,
    /// Started; the slow setup step is in flight.
    Initializing,
    /// Setup is complete; the worker accepts requests.
    Ready,
}

/// What a worker is, as contracts see it.
pub struct WorkerView {
    pub id: u16,
    pub state: WorkerState,
}

/// A worker that takes a long time to start.
#[derive(Debug)]
pub struct SlowStartingActor {
    id: u16,
    state: WorkerState,
}

/// The record of one request handled by one worker.
#[derive(Debug, PartialEq, Eq)]
pub struct Received<P> {
    /// The worker that handled the request.
    pub worker: u16,
    /// The request it handled.
    pub message: RoutedMessage<P>,
}

impl View for SlowStartingActor {
    type V = WorkerView;

    closed spec fn view(&self) -> WorkerView {
        WorkerView { id: self.id, state: self.state }
    }
}

impl SlowStartingActor {
    /// A worker with identity `id` that has not been started.
    pub fn new(id: u16) -> (worker: Self)
        ensures
            worker@ == (WorkerView { id, state: WorkerState::Created }),
    {
        SlowStartingActor { id, state: WorkerState::Created }
    }

    /// The identity the worker was created with.
    pub fn id(&self) -> (id: u16)
        ensures
            id == self@.id,
    {
        self.id
    }

    /// Where the worker stands in its life cycle.
    pub fn state(&self) -> (state: WorkerState)
        ensures
            state == self@.state,
    {
        self.state
    }

    /// Whether the worker has finished initializing.
    pub fn is_ready(&self) -> (ready: bool)
        ensures
            ready == (self@.state is Ready),
    {
        match self.state {
            WorkerState::Ready => true,
            _ => false,
        }
    }

    /// Starts the worker: it enters its initialization phase at once.
    ///
    /// Returns the number of milliseconds the caller must block before it
    /// reports the setup as complete with [`SlowStartingActor::initialized`].
    pub fn started(&mut self) -> (lag_millis: u64)
        requires
            old(self)@.state is Created,
        ensures
            final(self)@ == (WorkerView { id: old(self)@.id, state: WorkerState::Initializing }),
            lag_millis == STARTUP_LAG_MILLIS,
    {
        self.state = WorkerState::Initializing;
        STARTUP_LAG_MILLIS
    }

    /// Records that the slow setup step is over: the worker is ready.
    pub fn initialized(&mut self)
        requires
            old(self)@.state is Initializing,
        ensures
            final(self)@ == (WorkerView { id: old(self)@.id, state: WorkerState::Ready }),
    {
        self.state = WorkerState::Ready;
    }

    /// Handles one request and reports which worker received which request.
    ///
    /// Only a worker that has finished initializing accepts requests.
    pub fn handle<P>(&self, msg: RoutedMessage<P>) -> (event: Received<P>)
        requires
            self@.state is Ready,
        ensures
            event.worker == self@.id,
            event.message == msg,
    {
        Received { worker: self.id, message: msg }
    }
}

} // verus!
