//! The startup protocol as a transition system, and what holds of every run
//! of it.
//!
//! A run starts with a freshly created supervisor and proceeds by the steps
//! that the supervisor's operations take: planning the creations, publishing
//! the registry, routing a request. Each operation of the supervisor promises
//! to take such a step, so what is proved here of every run holds of every
//! supervisor.

use crate::message::RoutedMessage;
use crate::outcomes::{
    all_succeeded, lemma_all_succeeded_count, lemma_registered, succeeded, success_count,
};
use crate::supervisor::{Route, SupervisorView};
use vstd::prelude::*;

verus! {

/// Whether the supervisor can go from `s` to `t` in one step.
pub open spec fn next<H>(s: SupervisorView<H>, t: SupervisorView<H>) -> bool {
    ||| s.state is Starting && t == s.started()
    ||| s.state is Populating && exists|results: Seq<Option<H>>|
        results.len() == s.pool_size && t == #[trigger] s.populate(results)
    ||| t == s
}

/// Whether `trace` is a run of the protocol: it begins with a supervisor as
/// it is created, and each state follows from the one before it by one step.
pub open spec fn is_run<H>(trace: Seq<SupervisorView<H>>) -> bool {
    &&& trace.len() >= 1
    &&& trace[0].pool_size >= 1
    &&& trace[0] == SupervisorView::<H>::init(trace[0].pool_size, trace[0].on_worker_start_failure)
    &&& forall|i: int, j: int|
        0 <= i && j == i + 1 && j < trace.len() ==> next(#[trigger] trace[i], #[trigger] trace[j])
}

/// Every step leaves the supervisor well formed.
pub proof fn lemma_step_preserves_wf<H>(s: SupervisorView<H>, t: SupervisorView<H>)
    requires
        s.wf(),
        next(s, t),
    ensures
        t.wf(),
{
    if s.state is Populating && t != s {
        let results = choose|results: Seq<Option<H>>|
            results.len() == s.pool_size && t == #[trigger] s.populate(results);
        lemma_registered(results);
    }
}

/// Every state of a run is well formed.
pub proof fn lemma_run_is_wf<H>(trace: Seq<SupervisorView<H>>, i: int)
    requires
        is_run(trace),
        0 <= i < trace.len(),
    ensures
        trace[i].wf(),
    decreases i,
{
    if i > 0 {
        lemma_run_is_wf(trace, i - 1);
        assert(next(trace[i - 1], trace[i]));
        lemma_step_preserves_wf(trace[i - 1], trace[i]);
    }
}

/// Once the registry is published it never changes: whoever reads it in a
/// ready supervisor reads what every later reader reads.
pub proof fn lemma_published_registry_is_stable<H>(trace: Seq<SupervisorView<H>>, i: int, j: int)
    requires
        is_run(trace),
        0 <= i <= j < trace.len(),
        trace[i].state is Ready,
    ensures
        trace[j].state is Ready,
        trace[j].registry == trace[i].registry,
    decreases j - i,
{
    if i < j {
        lemma_published_registry_is_stable(trace, i, j - 1);
        assert(next(trace[j - 1], trace[j]));
    }
}

/// No reader ever sees a partly filled registry: at every point of a run the
/// registry is either empty or exactly what it is at every later point, so
/// the number of workers that a reader counts is zero or the final count,
/// and nothing in between.
pub proof fn lemma_registry_is_never_partial<H>(trace: Seq<SupervisorView<H>>, i: int, j: int)
    requires
        is_run(trace),
        0 <= i <= j < trace.len(),
    ensures
        trace[i].registry == Map::<u16, H>::empty() || trace[i].registry == trace[j].registry,
        trace[i].registry.len() == 0 || trace[i].registry.len() == trace[j].registry.len(),
{
    lemma_run_is_wf(trace, i);
    if trace[i].state is Ready {
        lemma_published_registry_is_stable(trace, i, j);
    } else {
        assert(trace[i].registry.len() == 0);
    }
}

/// What the publication step registers: where the outcomes let the registry
/// be published, the supervisor is ready and a worker is registered exactly
/// where its creation succeeded, under the handle it was started with;
/// where they do not, nothing changes.
pub proof fn lemma_population<H>(s: SupervisorView<H>, results: Seq<Option<H>>)
    requires
        s.wf(),
        s.state is Populating,
        results.len() == s.pool_size,
    ensures
        s.completes(results) ==> {
            &&& s.populate(results).state is Ready
            &&& s.populate(results).registry.len() == success_count(results)
            &&& forall|id: u16|
                s.populate(results).registry.contains_key(id) <==> succeeded(results, id)
            &&& forall|id: u16|
                succeeded(results, id) ==> #[trigger] s.populate(results).registry[id]
                    == results[id as int]->Some_0
        },
        !s.completes(results) ==> s.populate(results) == s,
        s.on_worker_start_failure is Exclude ==> s.completes(results),
        all_succeeded(results) ==> {
            &&& s.completes(results)
            &&& s.populate(results).registry.len() == s.pool_size
            &&& forall|id: u16|
                s.populate(results).registry.contains_key(id) <==> id < s.pool_size
        },
{
    lemma_registered(results);
    if all_succeeded(results) {
        lemma_all_succeeded_count(results);
    }
}

/// Routing in a published pool: a request for a worker that was started is
/// delivered to that worker's handle, exactly once and with its payload, and
/// to no other worker; a request for any other identity is delivered to no
/// one.
pub proof fn lemma_routing_after_population<H, P>(
    s: SupervisorView<H>,
    results: Seq<Option<H>>,
    msg: RoutedMessage<P>,
)
    requires
        s.wf(),
        s.state is Populating,
        results.len() == s.pool_size,
        s.completes(results),
    ensures
        succeeded(results, msg.receiver) ==> {
            &&& s.populate(results).route(msg) == (Route::Deliver {
                handle: &results[msg.receiver as int]->Some_0,
                message: msg,
            })
            &&& s.populate(results).route(msg).sent_to(msg.receiver) == seq![msg.payload]
        },
        !succeeded(results, msg.receiver) ==> {
            &&& s.populate(results).route(msg) == (Route::UnknownReceiver::<H, P> { message: msg })
            &&& s.populate(results).route(msg).sent_to(msg.receiver) == Seq::<P>::empty()
        },
        forall|other: u16|
            other != msg.receiver ==> #[trigger] s.populate(results).route(msg).sent_to(other)
                == Seq::<P>::empty(),
{
    lemma_registered(results);
}

} // verus!
