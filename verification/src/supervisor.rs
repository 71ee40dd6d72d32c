//! The supervisor of the pool: it plans the creation of the workers,
//! publishes the registry once every creation has resolved, and decides for
//! each incoming request which worker it goes to.
//!
//! The supervisor performs no waiting and no sending itself. It hands its
//! caller what has to be done (the identities to create, the handle to send
//! a request to) and is told what came of it (the outcome of every creation).

use crate::message::RoutedMessage;
use crate::outcomes::{
    all_succeeded, is_first_failure, lemma_registered, registered, succeeded, success_count,
};
use crate::protocol::next;
use crate::registry::Registry;
use vstd::prelude::*;

verus! {

/// The size of the pool where nothing else is asked for.
pub const CHILD_COUNT: u16 = 10;

/// What the supervisor does when a worker cannot be started.
#[derive(Clone, Copy, Debug, PartialEq, Eq, Structural)]
pub enum OnWorkerStartFailure {
    /// The worker is left out of the registry; the others are registered.
    Exclude,
    /// No worker is registered and the supervisor does not become ready.
    Abort,
}

/// Where the supervisor stands in its startup protocol.
#[derive(Clone, Copy, Debug, PartialEq, Eq, Structural)]
pub enum SupervisorState {
    /// Constructed; the creation of the workers has not been planned yet.
    Starting,
    /// The workers are being created; the registry is closed to readers.
    Populating,
    /// The registry is published; requests are routed.
    Ready,
}

/// How the population of the registry ended.
#[derive(Clone, Copy, Debug, PartialEq, Eq, Structural)]
pub enum Population {
    /// The registry was published with `registered` workers in it.
    Completed { registered: usize },
    /// Worker `failed` could not be started and the policy is to abort:
    /// nothing was published.
    Aborted { failed: u16 },
}

/// What is to be done with a request.
#[derive(Debug, PartialEq, Eq)]
pub enum Route<'a, H, P> {
    /// Send `message` to `handle`, the handle of worker `message.receiver`.
    Deliver { handle: &'a H, message: RoutedMessage<P> },
    /// No worker is registered under `message.receiver`: the request goes
    /// to no one.
    UnknownReceiver { message: RoutedMessage<P> },
}

impl<'a, H, P> Route<'a, H, P> {
    /// The payloads that this decision sends to worker `worker`.
    pub open spec fn sent_to(self, worker: u16) -> Seq<P> {
        match self {
            Route::Deliver { message, .. } => if message.receiver == worker {
                seq![message.payload]
            } else {
                Seq::empty()
            },
            Route::UnknownReceiver { .. } => Seq::empty(),
        }
    }
}

/// The supervisor as contracts see it.
pub struct SupervisorView<H> {
    pub pool_size: u16,
    pub on_worker_start_failure: OnWorkerStartFailure,
    pub state: SupervisorState,
    pub registry: Map<u16, H>,
}

impl<H> SupervisorView<H> {
    /// What holds of every supervisor: the pool is not empty, only workers
    /// of the pool are registered, and the registry is empty until it is
    /// published.
    pub open spec fn wf(self) -> bool {
        &&& self.pool_size >= 1
        &&& self.registry.dom().finite()
        &&& forall|id: u16| self.registry.contains_key(id) ==> id < self.pool_size
        &&& !(self.state is Ready) ==> self.registry == Map::<u16, H>::empty()
    }

    /// The supervisor as it is created.
    pub open spec fn init(pool_size: u16, on_worker_start_failure: OnWorkerStartFailure) -> Self {
        SupervisorView {
            pool_size,
            on_worker_start_failure,
            state: SupervisorState::Starting,
            registry: Map::empty(),
        }
    }

    /// The identities of the workers of the pool, in the order in which
    /// their creation is planned.
    pub open spec fn plan(self) -> Seq<u16> {
        Seq::new(self.pool_size as nat, |i: int| i as u16)
    }

    /// The supervisor after it has planned the creation of its workers.
    pub open spec fn started(self) -> Self {
        SupervisorView { state: SupervisorState::Populating, ..self }
    }

    /// Whether the creation outcomes `results` let the registry be
    /// published.
    pub open spec fn completes(self, results: Seq<Option<H>>) -> bool {
        self.on_worker_start_failure is Exclude || all_succeeded(results)
    }

    /// The supervisor after every creation has resolved with `results`.
    pub open spec fn populate(self, results: Seq<Option<H>>) -> Self {
        if self.completes(results) {
            SupervisorView { state: SupervisorState::Ready, registry: registered(results), ..self }
        } else {
            self
        }
    }

    /// Where the request `msg` goes: to the handle registered under its
    /// receiver, or to no one where there is none.
    pub open spec fn route<'a, P>(self, msg: RoutedMessage<P>) -> Route<'a, H, P> {
        if self.registry.contains_key(msg.receiver) {
            Route::Deliver { handle: &self.registry[msg.receiver], message: msg }
        } else {
            Route::UnknownReceiver { message: msg }
        }
    }

    /// The payloads that worker `worker` is sent when `msg` is routed: the
    /// payload of `msg`, once, where `msg` is addressed to `worker` and
    /// `worker` is registered; nothing otherwise.
    pub open spec fn delivered<P>(self, msg: RoutedMessage<P>, worker: u16) -> Seq<P> {
        if worker == msg.receiver && self.registry.contains_key(worker) {
            seq![msg.payload]
        } else {
            Seq::empty()
        }
    }
}

/// The supervisor of a pool of workers reached through handles of type `H`.
#[derive(Debug)]
pub struct SupervisorActor<H> {
    pool_size: u16,
    on_worker_start_failure: OnWorkerStartFailure,
    state: SupervisorState,
    registry: Registry<H>,
}

impl<H> View for SupervisorActor<H> {
    type V = SupervisorView<H>;

    closed spec fn view(&self) -> SupervisorView<H> {
        SupervisorView {
            pool_size: self.pool_size,
            on_worker_start_failure: self.on_worker_start_failure,
            state: self.state,
            registry: self.registry@,
        }
    }
}

impl<H> SupervisorActor<H> {
    /// What every operation keeps: the supervisor is well formed.
    #[verifier::type_invariant]
    closed spec fn inv(&self) -> bool {
        self@.wf()
    }

    /// A supervisor for a pool of `pool_size` workers, with an empty
    /// registry and nothing planned yet.
    pub fn new(pool_size: u16, on_worker_start_failure: OnWorkerStartFailure) -> (supervisor: Self)
        requires
            pool_size >= 1,
        ensures
            supervisor@ == SupervisorView::<H>::init(pool_size, on_worker_start_failure),
            supervisor@.wf(),
    {
        SupervisorActor {
            pool_size,
            on_worker_start_failure,
            state: SupervisorState::Starting,
            registry: Registry::new(),
        }
    }

    /// The number of workers in the pool.
    pub fn pool_size(&self) -> (pool_size: u16)
        ensures
            pool_size == self@.pool_size,
            pool_size >= 1,
    {
        proof {
            use_type_invariant(self);
        }
        self.pool_size
    }

    /// What the supervisor does when a worker cannot be started.
    pub fn on_worker_start_failure(&self) -> (policy: OnWorkerStartFailure)
        ensures
            policy == self@.on_worker_start_failure,
    {
        self.on_worker_start_failure
    }

    /// Where the supervisor stands in its startup protocol.
    pub fn state(&self) -> (state: SupervisorState)
        ensures
            state == self@.state,
            self@.wf(),
    {
        proof {
            use_type_invariant(self);
        }
        self.state
    }

    /// Whether the registry has been published.
    pub fn is_ready(&self) -> (ready: bool)
        ensures
            ready == (self@.state is Ready),
    {
        match self.state {
            SupervisorState::Ready => true,
            _ => false,
        }
    }

    /// The number of workers that a reader of the registry sees: none until
    /// the registry is published, and all that were started from then on.
    pub fn registered_count(&self) -> (count: usize)
        ensures
            count == self@.registry.len(),
            !(self@.state is Ready) ==> count == 0,
            count <= self@.pool_size,
    {
        proof {
            use_type_invariant(self);
            lemma_registry_fits_pool(self@);
        }
        self.registry.len()
    }

    /// Whether a reader of the registry finds worker `id` in it.
    pub fn is_registered(&self, id: u16) -> (present: bool)
        ensures
            present == self@.registry.contains_key(id),
    {
        self.registry.contains(id)
    }

    /// Plans the creation of the workers and closes the registry to readers
    /// until the creations have resolved.
    ///
    /// Returns the identities of the workers to create: every identity of
    /// the pool, lowest first. The caller creates them all, waits until every
    /// creation has resolved, and reports the outcomes with
    /// [`SupervisorActor::populate`].
    pub fn started(&mut self) -> (ids: Vec<u16>)
        requires
            old(self)@.state is Starting,
        ensures
            final(self)@ == old(self)@.started(),
            final(self)@.wf(),
            next(old(self)@, final(self)@),
            ids@ == old(self)@.plan(),
    {
        proof {
            use_type_invariant(&*self);
        }
        let mut ids: Vec<u16> = Vec::new();
        let mut id: u16 = 0;
        while id < self.pool_size
            invariant
                id <= self.pool_size,
                ids@ == Seq::new(id as nat, |i: int| i as u16),
            decreases self.pool_size - id,
        {
            ids.push(id);
            id += 1;
        }
        self.state = SupervisorState::Populating;
        ids
    }

    /// Takes the outcome of every creation and publishes the registry in
    /// one step.
    ///
    /// `results[i]` is the outcome for worker `i`: its handle where it was
    /// started, `None` where it could not be. Where the outcomes let the
    /// registry be published, every started worker is registered under its
    /// handle, no other identity is, and the supervisor is ready. Where they
    /// do not, nothing is registered and the supervisor is as it was.
    pub fn populate(&mut self, results: Vec<Option<H>>) -> (outcome: Population)
        requires
            old(self)@.state is Populating,
            results@.len() == old(self)@.pool_size,
        ensures
            final(self)@ == old(self)@.populate(results@),
            final(self)@.wf(),
            next(old(self)@, final(self)@),
            match outcome {
                Population::Completed { registered: count } => {
                    &&& old(self)@.completes(results@)
                    &&& count == success_count(results@)
                    &&& final(self)@.state is Ready
                    &&& final(self)@.registry == registered(results@)
                },
                Population::Aborted { failed } => {
                    &&& !old(self)@.completes(results@)
                    &&& is_first_failure(results@, failed as int)
                    &&& final(self)@ == old(self)@
                },
            },
    {
        proof {
            use_type_invariant(&*self);
        }
        let ghost outcomes = results@;
        // The registry is filled aside and published whole. The outcomes are
        // taken from the back, so the failure met last is the lowest one.
        let mut staged: Registry<H> = Registry::new();
        let mut first_failed: Option<u16> = None;
        let mut rest = results;
        let mut id: u16 = self.pool_size;
        while id > 0
            invariant
                id <= outcomes.len() <= u16::MAX,
                rest@ == outcomes.subrange(0, id as int),
                staged@ == Map::new(
                    |k: u16| id <= k && succeeded(outcomes, k),
                    |k: u16| outcomes[k as int]->Some_0,
                ),
                match first_failed {
                    Some(f) => {
                        &&& id <= f < outcomes.len()
                        &&& outcomes[f as int] is None
                        &&& forall|j: int| id <= j < f ==> outcomes[j] is Some
                    },
                    None => forall|j: int| id <= j < outcomes.len() ==> outcomes[j] is Some,
                },
            decreases id,
        {
            let result = rest.pop();
            id -= 1;
            match result {
                Some(Some(handle)) => {
                    staged.insert(id, handle);
                },
                Some(None) => {
                    first_failed = Some(id);
                },
                None => {},
            }
        }
        assert(staged@ == registered(outcomes));
        proof {
            lemma_registered(outcomes);
        }
        match (self.on_worker_start_failure, first_failed) {
            (OnWorkerStartFailure::Abort, Some(failed)) => Population::Aborted { failed },
            _ => {
                let count = staged.len();
                self.state = SupervisorState::Ready;
                self.registry = staged;
                Population::Completed { registered: count }
            },
        }
    }

    /// Decides where the request `msg` goes.
    ///
    /// The request is delivered to the handle registered under
    /// `msg.receiver`, once and to no other worker; where no worker is
    /// registered under that identity, it is delivered to no one. Either way
    /// the request comes back untouched and the supervisor is unchanged.
    pub fn handle<P>(&self, msg: RoutedMessage<P>) -> (route: Route<'_, H, P>)
        ensures
            route == self@.route(msg),
            route is Deliver ==> self@.state is Ready,
            forall|worker: u16| #[trigger] route.sent_to(worker) == self@.delivered(msg, worker),
    {
        proof {
            use_type_invariant(self);
        }
        match self.registry.lookup(msg.receiver) {
            Some(handle) => Route::Deliver { handle, message: msg },
            None => Route::UnknownReceiver { message: msg },
        }
    }
}

/// A registry that holds only workers of the pool holds no more workers
/// than the pool has.
pub proof fn lemma_registry_fits_pool<H>(s: SupervisorView<H>)
    requires
        s.wf(),
    ensures
        s.registry.len() <= s.pool_size,
{
    let below = Set::new(|i: int| 0 <= i < s.pool_size as int);
    vstd::set_lib::lemma_int_range(0, s.pool_size as int);
    assert(below =~= vstd::set_lib::set_int_range(0, s.pool_size as int));
    let as_int = |id: u16| id as int;
    assert(s.registry.dom().map(as_int).subset_of(below)) by {
        assert forall|i: int| s.registry.dom().map(as_int).contains(i) implies below.contains(i) by {
            let id = choose|id: u16| s.registry.dom().contains(id) && i == as_int(id);
            assert(s.registry.contains_key(id));
        }
    }
    vstd::set_lib::lemma_len_subset(s.registry.dom().map(as_int), below);
    assert(vstd::relations::injective_on(as_int, s.registry.dom()));
    vstd::set_lib::lemma_map_size(s.registry.dom(), s.registry.dom().map(as_int), as_int);
}

} // verus!
