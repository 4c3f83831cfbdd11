//! One entity's dynamic components: the values stored at registered slots.
//! This is the storage the mutation commands fill and the accessor views
//! read; at most one live value exists per entity and slot.

use vstd::prelude::*;
use vstd::hash_map::HashMapWithView;

verus! {

broadcast use vstd::std_specs::hash::group_hash_axioms;

/// The dynamic component values of a single entity, keyed by slot id.
#[verifier::reject_recursive_types(T)]
pub struct EntitySlots<T> {
    values: HashMapWithView<u64, T>,
}

impl<T> View for EntitySlots<T> {
    type V = Map<u64, T>;

    closed spec fn view(&self) -> Map<u64, T> {
        self.values@
    }
}

impl<T> EntitySlots<T> {
    /// An entity with no dynamic components.
    pub fn new() -> (e: Self)
        ensures
            e@ == Map::<u64, T>::empty(),
    {
        EntitySlots { values: HashMapWithView::new() }
    }

    /// The value stored at `slot`, if any.
    pub fn get(&self, slot: u64) -> (r: Option<&T>)
        ensures
            match r {
                Some(v) => self@.contains_key(slot) && *v == self@[slot],
                None => !self@.contains_key(slot),
            },
    {
        self.values.get(&slot)
    }

    /// Whether a value is stored at `slot`.
    pub fn contains_slot(&self, slot: u64) -> (r: bool)
        ensures
            r == self@.contains_key(slot),
    {
        self.values.contains_key(&slot)
    }

    /// Stores `value` at `slot`, replacing any value that was there.
    pub fn insert(&mut self, slot: u64, value: T)
        ensures
            final(self)@ == old(self)@.insert(slot, value),
    {
        self.values.insert(slot, value);
    }

    /// Replaces the value at `slot` and returns the one that was there; an
    /// entity that does not hold the slot is left unchanged. Unlike
    /// [`EntitySlots::insert`], this never creates a component.
    pub fn replace(&mut self, slot: u64, value: T) -> (r: Option<T>)
        ensures
            match r {
                Some(v) => old(self)@.contains_key(slot) && v == old(self)@[slot]
                    && final(self)@ == old(self)@.insert(slot, value),
                None => !old(self)@.contains_key(slot) && final(self)@ == old(self)@,
            },
    {
        match self.values.remove(&slot) {
            Some(v) => {
                self.values.insert(slot, value);
                proof {
                    assert(self@ =~= old(self)@.insert(slot, value));
                }
                Some(v)
            },
            None => None,
        }
    }

    /// Removes and returns the value at `slot`, if any.
    pub fn remove(&mut self, slot: u64) -> (r: Option<T>)
        ensures
            match r {
                Some(v) => old(self)@.contains_key(slot) && v == old(self)@[slot]
                    && final(self)@ == old(self)@.remove(slot),
                None => !old(self)@.contains_key(slot) && final(self)@ == old(self)@,
            },
    {
        self.values.remove(&slot)
    }
}

/// Inserting a value at a slot makes exactly that value visible at the slot,
/// and removing the slot afterwards makes the slot empty again; no other slot
/// of the entity is touched by either step.
pub proof fn lemma_mutation_visibility<T>(e: Map<u64, T>, slot: u64, value: T)
    ensures
        e.insert(slot, value).contains_key(slot),
        e.insert(slot, value)[slot] == value,
        !e.insert(slot, value).remove(slot).contains_key(slot),
        forall|s: u64|
            s != slot ==> e.insert(slot, value).contains_key(s) == e.contains_key(s),
        forall|s: u64|
            s != slot && e.contains_key(s) ==> e.insert(slot, value)[s] == e[s],
        forall|s: u64|
            s != slot ==> e.insert(slot, value).remove(slot).contains_key(s) == e.contains_key(s),
{
}

} // verus!
