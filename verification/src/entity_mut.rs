//! The read-write accessor view: everything the read-only view resolves,
//! plus mutation of the resolved value. A mutation replaces the value stored
//! at the resolved slot and hands back the value it displaced; the definition
//! record is never mutable — definitions are immutable once registered.

use vstd::prelude::*;
use crate::DefComponent;
use crate::DefRef;
use crate::entity::EntitySlots;
use crate::entity_ref::id_resolution;
use crate::entity_ref::name_resolution;
use crate::index::DefIndex;
use crate::store::DefStore;

verus! {

/// The read-write accessor view. The entity itself is handed to each call,
/// exclusively so for the mutating ones.
#[verifier::reject_recursive_types(T)]
pub struct DefEntityMut<'w, T: DefComponent> {
    pub asset: &'w DefStore<T::Asset>,
    pub index: &'w DefIndex<T>,
}

impl<'w, T: DefComponent> DefEntityMut<'w, T> {
    /// The definition id and slot bound to a logical name, if any.
    pub fn find(&self, name: &str) -> (r: Option<(u64, u64)>)
        ensures
            match r {
                Some(p) => self.index.name_map().contains_key(name@) && p
                    == self.index.name_map()[name@],
                None => !self.index.name_map().contains_key(name@),
            },
    {
        self.index.find_by_name(name)
    }

    /// The slot registered for a definition id, if any.
    pub fn component_id(&self, d: u64) -> (r: Option<u64>)
        ensures
            match r {
                Some(s) => self.index.asset_map().contains_key(d) && s
                    == self.index.asset_map()[d],
                None => !self.index.asset_map().contains_key(d),
            },
    {
        self.index.component_id(d)
    }

    /// The definition id a slot was registered for, if any.
    pub fn asset_id(&self, slot: u64) -> (r: Option<u64>)
        ensures
            match r {
                Some(d) => self.index.slot_map().contains_key(slot) && d
                    == self.index.slot_map()[slot],
                None => !self.index.slot_map().contains_key(slot),
            },
    {
        self.index.asset_id(slot)
    }

    /// Resolves a logical name into the paired (value, definition record)
    /// view, or empty if the name is unmapped, the record is absent or the
    /// entity lacks the slot.
    pub fn find_ref<'e>(&self, entity: &'e EntitySlots<T>, name: &str) -> (r: Option<
        DefRef<'e, 'w, T>,
    >)
        ensures
            match r {
                Some(p) => name_resolution(*self.index, self.asset@, entity@, name@) == Some(
                    (*p.value, *p.asset),
                ),
                None => name_resolution(*self.index, self.asset@, entity@, name@) is None,
            },
    {
        let (asset_id, component_id) = match self.index.find_by_name(name) {
            Some(p) => p,
            None => {
                return None;
            },
        };
        let asset = match self.asset.get(asset_id) {
            Some(a) => a,
            None => {
                return None;
            },
        };
        let value = match entity.get(component_id) {
            Some(v) => v,
            None => {
                return None;
            },
        };
        Some(DefRef { value, asset })
    }

    /// Mutates the component resolved by a logical name: the entity's value
    /// at the name's slot becomes `value` and the displaced value is handed
    /// back. Empty — and the entity untouched — whenever the read-only
    /// resolution would be empty.
    pub fn find_mut<'e>(&self, entity: &'e mut EntitySlots<T>, name: &str, value: T) -> (r: Option<
        T,
    >)
        ensures
            match r {
                Some(v) => {
                    &&& name_resolution(*self.index, self.asset@, old(entity)@, name@) is Some
                    &&& v == (name_resolution(*self.index, self.asset@, old(entity)@, name@)->0).0
                    &&& final(entity)@ == old(entity)@.insert(
                        self.index.name_map()[name@].1,
                        value,
                    )
                },
                None => {
                    &&& name_resolution(*self.index, self.asset@, old(entity)@, name@) is None
                    &&& final(entity)@ == old(entity)@
                },
            },
    {
        let (asset_id, component_id) = match self.index.find_by_name(name) {
            Some(p) => p,
            None => {
                return None;
            },
        };
        if self.asset.get(asset_id).is_none() {
            return None;
        }
        entity.replace(component_id, value)
    }

    /// Resolves a definition id into the paired (value, definition record)
    /// view, or empty if the id is unmapped, the record is absent or the
    /// entity lacks the slot.
    pub fn get_ref<'e>(&self, entity: &'e EntitySlots<T>, id: u64) -> (r: Option<
        DefRef<'e, 'w, T>,
    >)
        ensures
            match r {
                Some(p) => id_resolution(*self.index, self.asset@, entity@, id) == Some(
                    (*p.value, *p.asset),
                ),
                None => id_resolution(*self.index, self.asset@, entity@, id) is None,
            },
    {
        let component_id = match self.index.component_id(id) {
            Some(s) => s,
            None => {
                return None;
            },
        };
        let asset = match self.asset.get(id) {
            Some(a) => a,
            None => {
                return None;
            },
        };
        let value = match entity.get(component_id) {
            Some(v) => v,
            None => {
                return None;
            },
        };
        Some(DefRef { value, asset })
    }

    /// Mutates the component resolved by a definition id: the entity's value
    /// at the id's slot becomes `value` and the displaced value is handed
    /// back. Empty — and the entity untouched — whenever the read-only
    /// resolution would be empty.
    pub fn get_mut<'e>(&self, entity: &'e mut EntitySlots<T>, id: u64, value: T) -> (r: Option<T>)
        ensures
            match r {
                Some(v) => {
                    &&& id_resolution(*self.index, self.asset@, old(entity)@, id) is Some
                    &&& v == (id_resolution(*self.index, self.asset@, old(entity)@, id)->0).0
                    &&& final(entity)@ == old(entity)@.insert(self.index.asset_map()[id], value)
                },
                None => {
                    &&& id_resolution(*self.index, self.asset@, old(entity)@, id) is None
                    &&& final(entity)@ == old(entity)@
                },
            },
    {
        let component_id = match self.index.component_id(id) {
            Some(s) => s,
            None => {
                return None;
            },
        };
        if self.asset.get(id).is_none() {
            return None;
        }
        entity.replace(component_id, value)
    }

    /// The definition record stored under `id`, if any.
    pub fn asset(&self, id: u64) -> (r: Option<&'w T::Asset>)
        ensures
            match r {
                Some(a) => self.asset@.contains_key(id) && *a == self.asset@[id],
                None => !self.asset@.contains_key(id),
            },
    {
        self.asset.get(id)
    }

    /// The entity's value at `slot`, if the entity holds one.
    pub fn value_ref<'e>(&self, entity: &'e EntitySlots<T>, slot: u64) -> (r: Option<&'e T>)
        ensures
            match r {
                Some(v) => entity@.contains_key(slot) && *v == entity@[slot],
                None => !entity@.contains_key(slot),
            },
    {
        entity.get(slot)
    }

    /// Replaces the entity's value at `slot` and hands back the displaced
    /// one; empty — and the entity untouched — if the entity lacks the slot.
    pub fn value_mut(&self, entity: &mut EntitySlots<T>, slot: u64, value: T) -> (r: Option<T>)
        ensures
            match r {
                Some(v) => old(entity)@.contains_key(slot) && v == old(entity)@[slot]
                    && final(entity)@ == old(entity)@.insert(slot, value),
                None => !old(entity)@.contains_key(slot) && final(entity)@ == old(entity)@,
            },
    {
        entity.replace(slot, value)
    }
}

} // verus!
