//! The process-wide registry of open connections: each connection id maps to the
//! sink of that connection's outbound queue.

use vstd::prelude::*;
use vstd::hash_map::HashMapWithView;

verus! {

broadcast use vstd::std_specs::hash::group_hash_axioms;

/// Connection ids mapped to outbound sinks of type `S`.
#[verifier::reject_recursive_types(S)]
pub struct Registry<S> {
    clients: HashMapWithView<u128, S>,
}

impl<S> View for Registry<S> {
    type V = Map<u128, S>;

    closed spec fn view(&self) -> Map<u128, S> {
        self.clients@
    }
}

impl<S> Registry<S> {
    /// A registry with no connection in it.
    pub fn new() -> (r: Registry<S>)
        ensures
            r@ == Map::<u128, S>::empty(),
    {
        Registry { clients: HashMapWithView::new() }
    }

    /// Registers `sink` for `id`, in place of any sink that `id` had.
    pub fn add_client(&mut self, id: u128, sink: S)
        ensures
            final(self)@ == old(self)@.insert(id, sink),
    {
        self.clients.insert(id, sink);
    }

    /// Removes `id`; removing an id that is not there changes nothing.
    pub fn remove_client(&mut self, id: u128)
        ensures
            final(self)@ == old(self)@.remove(id),
    {
        let _ = self.clients.remove(&id);
        proof {
            assert(final(self)@ =~= old(self)@.remove(id));
        }
    }

    /// The sink to which a frame for `id` goes; `None` where `id` is not registered,
    /// and the frame is then dropped.
    pub fn sink_for(&self, id: u128) -> (r: Option<&S>)
        ensures
            match r {
                Some(s) => self@.contains_key(id) && *s == self@[id],
                None => !self@.contains_key(id),
            },
    {
        self.clients.get(&id)
    }

    /// Whether `id` is registered.
    pub fn contains(&self, id: u128) -> (r: bool)
        ensures
            r == self@.contains_key(id),
    {
        self.clients.contains_key(&id)
    }

    /// How many connections are registered.
    pub fn len(&self) -> (r: usize)
        ensures
            r == self@.len(),
    {
        self.clients.len()
    }
}

} // verus!
