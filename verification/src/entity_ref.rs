//! The read-only accessor view: given one entity's dynamic components, the
//! registry and the definition store, resolve "the component instance for
//! definition X" — by logical name or by definition id — into a paired
//! (value, definition record) view. Every failure to resolve is an empty
//! result, never an error: a missing mapping, a missing record or a missing
//! component are expected transient states while content streams in.

use vstd::prelude::*;
use crate::DefComponent;
use crate::DefRef;
use crate::entity::EntitySlots;
use crate::index::DefIndex;
use crate::store::DefStore;

verus! {

/// What resolving a logical name against one entity yields: the value stored
/// at the name's slot paired with the record of the name's definition id, if
/// the name is mapped, the record is present and the entity holds the slot.
pub open spec fn name_resolution<T: DefComponent>(
    index: DefIndex<T>,
    store: Map<u64, T::Asset>,
    entity: Map<u64, T>,
    n: Seq<char>,
) -> Option<(T, T::Asset)> {
    if index.name_map().contains_key(n) {
        let d = index.name_map()[n].0;
        let s = index.name_map()[n].1;
        if store.contains_key(d) && entity.contains_key(s) {
            Some((entity[s], store[d]))
        } else {
            None
        }
    } else {
        None
    }
}

/// What resolving a definition id against one entity yields: the value
/// stored at the id's slot paired with the id's record, if the id is mapped,
/// the record is present and the entity holds the slot.
pub open spec fn id_resolution<T: DefComponent>(
    index: DefIndex<T>,
    store: Map<u64, T::Asset>,
    entity: Map<u64, T>,
    d: u64,
) -> Option<(T, T::Asset)> {
    if index.asset_map().contains_key(d) {
        let s = index.asset_map()[d];
        if store.contains_key(d) && entity.contains_key(s) {
            Some((entity[s], store[d]))
        } else {
            None
        }
    } else {
        None
    }
}

/// The read-only accessor view over one entity.
#[verifier::reject_recursive_types(T)]
pub struct DefEntityRef<'w, T: DefComponent> {
    pub entity: &'w EntitySlots<T>,
    pub asset: &'w DefStore<T::Asset>,
    pub index: &'w DefIndex<T>,
}

impl<'w, T: DefComponent> DefEntityRef<'w, T> {
    /// The definition id and slot bound to a logical name, if any.
    pub fn find(&self, name: &str) -> (r: Option<(u64, u64)>)
        ensures
            match r {
                Some(p) => self.index.name_map().contains_key(name@) && p
                    == self.index.name_map()[name@],
                None => !self.index.name_map().contains_key(name@),
            },
    {
        self.index.find_by_name(name)
    }

    /// The slot registered for a definition id, if any.
    pub fn component_id(&self, d: u64) -> (r: Option<u64>)
        ensures
            match r {
                Some(s) => self.index.asset_map().contains_key(d) && s
                    == self.index.asset_map()[d],
                None => !self.index.asset_map().contains_key(d),
            },
    {
        self.index.component_id(d)
    }

    /// The definition id a slot was registered for, if any.
    pub fn asset_id(&self, slot: u64) -> (r: Option<u64>)
        ensures
            match r {
                Some(d) => self.index.slot_map().contains_key(slot) && d
                    == self.index.slot_map()[slot],
                None => !self.index.slot_map().contains_key(slot),
            },
    {
        self.index.asset_id(slot)
    }

    /// Resolves a logical name into the paired (value, definition record)
    /// view, or empty if the name is unmapped, the record is absent or the
    /// entity lacks the slot.
    pub fn find_ref(&self, name: &str) -> (r: Option<DefRef<'w, 'w, T>>)
        ensures
            match r {
                Some(p) => name_resolution(*self.index, self.asset@, self.entity@, name@)
                    == Some((*p.value, *p.asset)),
                None => name_resolution(*self.index, self.asset@, self.entity@, name@) is None,
            },
    {
        let (asset_id, component_id) = match self.index.find_by_name(name) {
            Some(p) => p,
            None => {
                return None;
            },
        };
        let asset = match self.asset.get(asset_id) {
            Some(a) => a,
            None => {
                return None;
            },
        };
        let value = match self.entity.get(component_id) {
            Some(v) => v,
            None => {
                return None;
            },
        };
        Some(DefRef { value, asset })
    }

    /// Resolves a definition id into the paired (value, definition record)
    /// view, or empty if the id is unmapped, the record is absent or the
    /// entity lacks the slot.
    pub fn get_ref(&self, id: u64) -> (r: Option<DefRef<'w, 'w, T>>)
        ensures
            match r {
                Some(p) => id_resolution(*self.index, self.asset@, self.entity@, id) == Some(
                    (*p.value, *p.asset),
                ),
                None => id_resolution(*self.index, self.asset@, self.entity@, id) is None,
            },
    {
        let component_id = match self.index.component_id(id) {
            Some(s) => s,
            None => {
                return None;
            },
        };
        let asset = match self.asset.get(id) {
            Some(a) => a,
            None => {
                return None;
            },
        };
        let value = match self.entity.get(component_id) {
            Some(v) => v,
            None => {
                return None;
            },
        };
        Some(DefRef { value, asset })
    }

    /// The definition record stored under `id`, if any.
    pub fn asset(&self, id: u64) -> (r: Option<&'w T::Asset>)
        ensures
            match r {
                Some(a) => self.asset@.contains_key(id) && *a == self.asset@[id],
                None => !self.asset@.contains_key(id),
            },
    {
        self.asset.get(id)
    }

    /// The entity's value at `slot`, read only if the slot is registered in
    /// the registry; empty otherwise, even if the entity happens to hold the
    /// slot.
    pub fn checked_value_ref(&self, id: u64) -> (r: Option<&'w T>)
        ensures
            match r {
                Some(v) => self.index.slot_map().contains_key(id) && self.entity@.contains_key(id)
                    && *v == self.entity@[id],
                None => !self.index.slot_map().contains_key(id) || !self.entity@.contains_key(id),
            },
    {
        if self.index.id_to_asset().contains_key(&id) {
            self.value_ref(id)
        } else {
            None
        }
    }

    /// The entity's value at `slot`, if the entity holds one.
    pub fn value_ref(&self, slot: u64) -> (r: Option<&'w T>)
        ensures
            match r {
                Some(v) => self.entity@.contains_key(slot) && *v == self.entity@[slot],
                None => !self.entity@.contains_key(slot),
            },
    {
        self.entity.get(slot)
    }
}

} // verus!
