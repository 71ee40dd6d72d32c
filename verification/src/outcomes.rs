//! The outcomes of the creation of the workers, and the registry that they
//! amount to.
//!
//! The outcomes of a pool of `N` workers are a sequence of length `N`: entry
//! `i` is the handle that worker `i` was started with, or `None` where the
//! worker could not be started.

use vstd::prelude::*;

verus! {

/// Whether the creation of worker `id` succeeded.
pub open spec fn succeeded<H>(results: Seq<Option<H>>, id: u16) -> bool {
    (id as int) < results.len() && results[id as int] is Some
}

/// Whether every creation succeeded.
pub open spec fn all_succeeded<H>(results: Seq<Option<H>>) -> bool {
    forall|i: int| 0 <= i < results.len() ==> results[i] is Some
}

/// Whether `id` is the lowest identity whose creation failed.
pub open spec fn is_first_failure<H>(results: Seq<Option<H>>, id: int) -> bool {
    &&& 0 <= id < results.len()
    &&& results[id] is None
    &&& forall|j: int| 0 <= j < id ==> results[j] is Some
}

/// The number of creations that succeeded.
pub open spec fn success_count<H>(results: Seq<Option<H>>) -> nat {
    results.filter(|r: Option<H>| r is Some).len()
}

/// The registry that the outcomes amount to: every worker that was started,
/// under the handle it was started with, and no other identity.
pub open spec fn registered<H>(results: Seq<Option<H>>) -> Map<u16, H> {
    Map::new(|id: u16| succeeded(results, id), |id: u16| results[id as int]->Some_0)
}

/// The registry that the outcomes amount to holds exactly the workers that
/// were started, each under its own handle, and as many workers as
/// creations succeeded.
pub proof fn lemma_registered<H>(results: Seq<Option<H>>)
    requires
        results.len() <= u16::MAX,
    ensures
        registered(results).dom().finite(),
        registered(results).len() == success_count(results),
        forall|id: u16|
            registered(results).contains_key(id) <==> (id as int) < results.len()
                && results[id as int] is Some,
        forall|id: u16| #[trigger]
            registered(results).contains_key(id) ==> registered(results)[id]
                == results[id as int]->Some_0,
    decreases results.len(),
{
    reveal(Seq::filter);
    if results.len() == 0 {
        assert(registered(results) =~= Map::<u16, H>::empty());
    } else {
        let prefix = results.drop_last();
        let last_id = (results.len() - 1) as u16;
        lemma_registered(prefix);
        assert(!registered(prefix).contains_key(last_id));
        match results.last() {
            Some(handle) => {
                assert(registered(results) =~= registered(prefix).insert(last_id, handle));
            },
            None => {
                assert(registered(results) =~= registered(prefix));
            },
        }
    }
}

/// Where every creation succeeded, there are as many successes as workers.
pub proof fn lemma_all_succeeded_count<H>(results: Seq<Option<H>>)
    requires
        all_succeeded(results),
    ensures
        success_count(results) == results.len(),
    decreases results.len(),
{
    reveal(Seq::filter);
    if results.len() > 0 {
        lemma_all_succeeded_count(results.drop_last());
    }
}

} // verus!
