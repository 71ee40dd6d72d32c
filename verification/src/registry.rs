//! The worker registry: which worker identities are registered, and under
//! which handle each one can be reached.
//!
//! Exclusive access (`&mut Registry`) is what a writer holds while it fills
//! the registry; shared access (`&Registry`) is what readers hold while they
//! look a worker up.

use std::collections::HashMap;
use vstd::prelude::*;

verus! {

/// A mapping from worker identity to worker handle.
///
/// The handle type `H` is opaque to the registry: it is stored, handed back
/// by reference, and never inspected.
#[derive(Debug)]
pub struct Registry<H> {
    entries: HashMap<u16, H>,
}

impl<H> View for Registry<H> {
    type V = Map<u16, H>;

    closed spec fn view(&self) -> Map<u16, H> {
        self.entries@
    }
}

impl<H> Registry<H> {
    /// A registry in which no worker is registered.
    pub fn new() -> (registry: Self)
        ensures
            registry@ == Map::<u16, H>::empty(),
    {
        Registry { entries: HashMap::new() }
    }

    /// Registers `handle` under `id`, replacing the handle that `id` had
    /// before, if any. Returns the replaced handle.
    pub fn insert(&mut self, id: u16, handle: H) -> (previous: Option<H>)
        ensures
            final(self)@ == old(self)@.insert(id, handle),
            match previous {
                Some(h) => old(self)@.contains_key(id) && h == old(self)@[id],
                None => !old(self)@.contains_key(id),
            },
    {
        self.entries.insert(id, handle)
    }

    /// The handle registered under `id`, or `None` where `id` is not
    /// registered.
    pub fn lookup(&self, id: u16) -> (found: Option<&H>)
        ensures
            match found {
                Some(h) => self@.contains_key(id) && *h == self@[id],
                None => !self@.contains_key(id),
            },
    {
        self.entries.get(&id)
    }

    /// Whether a worker is registered under `id`.
    pub fn contains(&self, id: u16) -> (present: bool)
        ensures
            present == self@.contains_key(id),
    {
        self.entries.contains_key(&id)
    }

    /// The number of registered workers.
    pub fn len(&self) -> (count: usize)
        ensures
            self@.dom().finite(),
            count == self@.len(),
    {
        self.entries.len()
    }

    /// Whether no worker is registered.
    pub fn is_empty(&self) -> (empty: bool)
        ensures
            empty == (self@.len() == 0),
            empty == (self@ == Map::<u16, H>::empty()),
    {
        let empty = self.entries.is_empty();
        proof {
            if self@.len() == 0 {
                assert(self@ =~= Map::<u16, H>::empty());
            }
        }
        empty
    }
}

} // verus!
