//! The definition store: identity-keyed lookup of immutable definition
//! records. Records are owned here and only read by the registry and the
//! accessor views.

use vstd::prelude::*;
use vstd::hash_map::HashMapWithView;

verus! {

broadcast use vstd::std_specs::hash::group_hash_axioms;

/// The definition records of one capability, keyed by definition id.
#[verifier::reject_recursive_types(A)]
pub struct DefStore<A> {
    records: HashMapWithView<u64, A>,
}

impl<A> View for DefStore<A> {
    type V = Map<u64, A>;

    closed spec fn view(&self) -> Map<u64, A> {
        self.records@
    }
}

impl<A> DefStore<A> {
    /// A store with no records.
    pub fn new() -> (s: Self)
        ensures
            s@ == Map::<u64, A>::empty(),
    {
        DefStore { records: HashMapWithView::new() }
    }

    /// Puts `record` under the definition id `id`, replacing any record that
    /// was there.
    pub fn insert(&mut self, id: u64, record: A)
        ensures
            final(self)@ == old(self)@.insert(id, record),
    {
        self.records.insert(id, record);
    }

    /// Removes the record under `id`, if any.
    pub fn remove(&mut self, id: u64) -> (r: Option<A>)
        ensures
            match r {
                Some(a) => old(self)@.contains_key(id) && a == old(self)@[id] && final(self)@
                    == old(self)@.remove(id),
                None => !old(self)@.contains_key(id) && final(self)@ == old(self)@,
            },
    {
        self.records.remove(&id)
    }

    /// The record under `id`, if any.
    pub fn get(&self, id: u64) -> (r: Option<&A>)
        ensures
            match r {
                Some(a) => self@.contains_key(id) && *a == self@[id],
                None => !self@.contains_key(id),
            },
    {
        self.records.get(&id)
    }

    /// Whether a record is stored under `id`.
    pub fn contains(&self, id: u64) -> (r: bool)
        ensures
            r == self@.contains_key(id),
    {
        self.records.contains_key(&id)
    }
}

} // verus!
