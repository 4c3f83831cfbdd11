//! Data-driven dynamic components: a registry that binds definition records
//! (identified by definition ids) to runtime component slots, plus accessor
//! views that resolve per-entity values together with their definitions, and
//! deferred commands that insert or remove a value by its resolved slot.
//!
//! Identities are modeled as plain values: a definition id and a slot id are
//! `u64`, a logical name is a `String`. The host storage engine assigns slot
//! ids; the registry only records them and guarantees the map structure.

use vstd::prelude::*;
use core::marker::PhantomData;

pub mod access;
pub mod entity;
pub mod entity_mut;
pub mod entity_ref;
pub mod index;
pub mod store;

use crate::entity::EntitySlots;
use crate::entity_ref::id_resolution;
use crate::index::DefIndex;
use crate::index::IndexSnapshot;
use crate::index::RegisterPlan;
use crate::store::DefStore;

verus! {

/// The capability contract a value type implements: it names its companion
/// definition-record type and derives a stable logical name from a record.
pub trait DefComponent: Sized {
    /// The definition record paired with this value type.
    type Asset;

    /// The logical name derived from a record, at the specification level.
    spec fn spec_defname(asset: &Self::Asset) -> Seq<char>;

    /// Derives the logical name of the component from its definition record.
    fn defname(asset: &Self::Asset) -> (name: String)
        ensures
            name@ == Self::spec_defname(asset),
    ;
}

/// A definition record that carries nothing but its logical name.
pub struct NameRecord {
    pub name: String,
}

/// The minimal capability: a value with no payload, whose records are bare
/// names. Fit for bookkeeping uses where only the identity maps matter.
pub struct NamedDef;

impl DefComponent for NamedDef {
    type Asset = NameRecord;

    open spec fn spec_defname(asset: &NameRecord) -> Seq<char> {
        asset.name@
    }

    fn defname(asset: &NameRecord) -> (name: String) {
        asset.name.clone()
    }
}

/// A read-only paired view: the live per-entity value and the definition
/// record it was registered from.
pub struct DefRef<'value, 'asset, T: DefComponent> {
    pub value: &'value T,
    pub asset: &'asset T::Asset,
}

/// A deferred entity command: insert `value` into an entity at the slot
/// `component_id`, which the caller resolved through the registry.
pub struct InsertDef<T> {
    pub component_id: u64,
    pub value: T,
}

impl<T> InsertDef<T> {
    /// A command that will store `value` at the slot `component_id`.
    pub fn new(component_id: u64, value: T) -> (c: Self)
        ensures
            c.component_id == component_id,
            c.value == value,
    {
        InsertDef { component_id, value }
    }

    /// Applies the command: the entity now holds the value at the slot,
    /// replacing any value that was there; no other slot is touched.
    pub fn apply(self, entity: &mut EntitySlots<T>)
        ensures
            final(entity)@ == old(entity)@.insert(self.component_id, self.value),
    {
        entity.insert(self.component_id, self.value);
    }
}

/// A deferred entity command: remove whatever value an entity holds at the
/// slot `component_id`.
pub struct RemoveDef<T> {
    pub component_id: u64,
    pub marker: PhantomData<T>,
}

impl<T> RemoveDef<T> {
    /// A command that will clear the slot `component_id`.
    pub fn new(component_id: u64) -> (c: Self)
        ensures
            c.component_id == component_id,
    {
        RemoveDef { component_id, marker: PhantomData }
    }

    /// Applies the command: the entity no longer holds a value at the slot;
    /// no other slot is touched.
    pub fn apply(self, entity: &mut EntitySlots<T>)
        ensures
            final(entity)@ == old(entity)@.remove(self.component_id),
    {
        let _ = entity.remove(self.component_id);
    }
}

/// Shared access to the definition store and the registry of one capability,
/// for systems that resolve entities they were handed already filtered.
#[verifier::reject_recursive_types(T)]
pub struct DefParam<'w, T: DefComponent> {
    pub asset: &'w DefStore<T::Asset>,
    pub index: &'w DefIndex<T>,
}

impl<'w, T: DefComponent> DefParam<'w, T> {
    /// The slot and record of a definition id, if the id is mapped and its
    /// record is present.
    pub fn asset(&self, id: u64) -> (r: Option<(u64, &'w T::Asset)>)
        ensures
            match r {
                Some(p) => {
                    &&& self.asset@.contains_key(id)
                    &&& self.index.asset_map().contains_key(id)
                    &&& p.0 == self.index.asset_map()[id]
                    &&& *p.1 == self.asset@[id]
                },
                None => !self.asset@.contains_key(id) || !self.index.asset_map().contains_key(id),
            },
    {
        let asset = match self.asset.get(id) {
            Some(a) => a,
            None => {
                return None;
            },
        };
        let component_id = match self.index.component_id(id) {
            Some(s) => s,
            None => {
                return None;
            },
        };
        Some((component_id, asset))
    }

    /// Resolves a definition id against a filtered entity into the paired
    /// (value, definition record) view, or empty.
    pub fn filtered_entity_ref<'e>(&self, entity: &'e EntitySlots<T>, id: u64) -> (r: Option<
        DefRef<'e, 'w, T>,
    >)
        ensures
            match r {
                Some(p) => id_resolution(*self.index, self.asset@, entity@, id) == Some(
                    (*p.value, *p.asset),
                ),
                None => id_resolution(*self.index, self.asset@, entity@, id) is None,
            },
    {
        let (component_id, asset) = match self.asset(id) {
            Some(p) => p,
            None => {
                return None;
            },
        };
        let value = match entity.get(component_id) {
            Some(v) => v,
            None => {
                return None;
            },
        };
        Some(DefRef { value, asset })
    }

    /// Mutates the component a definition id resolves to on a filtered
    /// entity: the value at the id's slot becomes `value` and the displaced
    /// value is handed back. Empty — and the entity untouched — whenever the
    /// read-only resolution would be empty.
    pub fn filtered_entity_mut<'e>(&self, entity: &'e mut EntitySlots<T>, id: u64, value: T) -> (r:
        Option<T>)
        ensures
            match r {
                Some(v) => {
                    &&& id_resolution(*self.index, self.asset@, old(entity)@, id) is Some
                    &&& v == (id_resolution(*self.index, self.asset@, old(entity)@, id)->0).0
                    &&& final(entity)@ == old(entity)@.insert(self.index.asset_map()[id], value)
                },
                None => {
                    &&& id_resolution(*self.index, self.asset@, old(entity)@, id) is None
                    &&& final(entity)@ == old(entity)@
                },
            },
    {
        let (component_id, _asset) = match self.asset(id) {
            Some(p) => p,
            None => {
                return None;
            },
        };
        entity.replace(component_id, value)
    }
}

/// A definition-lifecycle event observed on the store's change feed, keyed by
/// definition id. Only `Added` acts on the registry; the others are
/// observational (a slot's layout is fixed at first registration and slots
/// are never reclaimed).
#[derive(Clone, Copy)]
pub enum DefEvent {
    Added(u64),
    Modified(u64),
    Removed(u64),
    Unused(u64),
    LoadedWithDependencies(u64),
}

/// The host storage engine's slot assignment, as the registry relies on it:
/// a source of slot ids that never repeats one it has handed out.
pub struct SlotSource {
    next: u64,
}

impl SlotSource {
    /// The id the next assignment will hand out.
    pub closed spec fn next_id(self) -> u64 {
        self.next
    }

    /// Every slot registered in `index` was handed out before: ids from
    /// `next_id` on are fresh for it.
    pub open spec fn fresh_for<T: DefComponent>(self, index: DefIndex<T>) -> bool {
        forall|s: u64| #[trigger] index.slot_map().contains_key(s) ==> s < self.next_id()
    }

    /// A source whose first assigned id is `first`.
    pub fn new(first: u64) -> (src: Self)
        ensures
            src.next_id() == first,
    {
        SlotSource { next: first }
    }

    /// Assigns the next slot id.
    pub fn fresh_slot(&mut self) -> (s: u64)
        requires
            old(self).next_id() < u64::MAX,
        ensures
            s == old(self).next_id(),
            final(self).next_id() == old(self).next_id() + 1,
    {
        let s = self.next;
        self.next = self.next + 1;
        s
    }
}

/// What one `Added` event does to the abstract registry state: nothing if the
/// definition id is mapped or its record is gone; an alias onto the existing
/// slot if the derived name is taken; otherwise a fresh slot `next` recorded
/// in all three maps and both access declarations.
pub open spec fn spec_register_added<T: DefComponent>(
    iv: IndexSnapshot,
    store: Map<u64, T::Asset>,
    next: u64,
    d: u64,
) -> (IndexSnapshot, u64) {
    if iv.assets.contains_key(d) {
        (iv, next)
    } else if !store.contains_key(d) {
        (iv, next)
    } else {
        let nm = T::spec_defname(&store[d]);
        if iv.names.contains_key(nm) {
            (IndexSnapshot { assets: iv.assets.insert(d, iv.names[nm].1), ..iv }, next)
        } else {
            (
                IndexSnapshot {
                    names: iv.names.insert(nm, (d, next)),
                    assets: iv.assets.insert(d, next),
                    slots: iv.slots.insert(next, d),
                    reads: iv.reads.insert(next),
                    writes: iv.writes.insert(next),
                },
                (next + 1) as u64,
            )
        }
    }
}

/// What one event does to the abstract registry state: `Added` registers,
/// every other event leaves the registry as it is.
pub open spec fn spec_apply_event<T: DefComponent>(
    iv: IndexSnapshot,
    store: Map<u64, T::Asset>,
    next: u64,
    ev: DefEvent,
) -> (IndexSnapshot, u64) {
    match ev {
        DefEvent::Added(d) => spec_register_added::<T>(iv, store, next, d),
        _ => (iv, next),
    }
}

/// The abstract registry state after a whole feed of events, applied in
/// publish order.
pub open spec fn spec_maintain<T: DefComponent>(
    iv: IndexSnapshot,
    store: Map<u64, T::Asset>,
    next: u64,
    events: Seq<DefEvent>,
) -> (IndexSnapshot, u64)
    decreases events.len(),
{
    if events.len() == 0 {
        (iv, next)
    } else {
        let prev = spec_maintain::<T>(iv, store, next, events.drop_last());
        spec_apply_event::<T>(prev.0, store, prev.1, events.last())
    }
}

/// Access-set monotonicity: at any earlier point of the maintenance
/// process's lifetime — after any prefix of the event feed — the read-only
/// and read-write access declarations are subsets of what they become once
/// the whole feed is processed. Slots are only ever added, never removed.
pub proof fn lemma_maintain_access_monotone<T: DefComponent>(
    iv: IndexSnapshot,
    store: Map<u64, T::Asset>,
    next: u64,
    events: Seq<DefEvent>,
    i: int,
)
    requires
        0 <= i <= events.len(),
    ensures
        spec_maintain::<T>(iv, store, next, events.take(i)).0.reads.subset_of(
            spec_maintain::<T>(iv, store, next, events).0.reads,
        ),
        spec_maintain::<T>(iv, store, next, events.take(i)).0.writes.subset_of(
            spec_maintain::<T>(iv, store, next, events).0.writes,
        ),
    decreases events.len(),
{
    if i == events.len() {
        assert(events.take(i) =~= events);
    } else {
        lemma_maintain_access_monotone::<T>(iv, store, next, events.drop_last(), i);
        assert(events.drop_last().take(i) =~= events.take(i));
    }
}

/// The registration maintenance process, one scheduling pass: every event
/// published since the last pass is applied to the registry in publish
/// order, registering a backing slot for each newly observed definition id.
pub fn def_maintain_system<T: DefComponent>(
    index: &mut DefIndex<T>,
    store: &DefStore<T::Asset>,
    source: &mut SlotSource,
    events: &Vec<DefEvent>,
)
    requires
        old(index).wf(),
        old(source).fresh_for(*old(index)),
        old(source).next_id() + events@.len() <= u64::MAX,
    ensures
        final(index).wf(),
        final(source).fresh_for(*final(index)),
        (final(index).abs(), final(source).next_id()) == spec_maintain::<T>(
            old(index).abs(),
            store@,
            old(source).next_id(),
            events@,
        ),
        old(index).read_access().reads().subset_of(final(index).read_access().reads()),
        old(index).write_access().writes().subset_of(final(index).write_access().writes()),
        final(index).read_access().resources() == old(index).read_access().resources(),
        final(index).write_access().resources() == old(index).write_access().resources(),
{
    let ghost iv0 = old(index).abs();
    let ghost n0 = old(source).next_id();
    let mut i: usize = 0;
    while i < events.len()
        invariant
            index.wf(),
            source.fresh_for(*index),
            i <= events@.len(),
            n0 + events@.len() <= u64::MAX,
            source.next_id() <= n0 + i,
            (index.abs(), source.next_id()) == spec_maintain::<T>(
                iv0,
                store@,
                n0,
                events@.take(i as int),
            ),
            iv0.reads.subset_of(index.read_access().reads()),
            iv0.writes.subset_of(index.write_access().writes()),
            index.read_access().resources() == old(index).read_access().resources(),
            index.write_access().resources() == old(index).write_access().resources(),
        decreases events@.len() - i,
    {
        let ghost pre = index.abs();
        let ghost pre_next = source.next_id();
        let ev = events[i];
        match ev {
            DefEvent::Added(d) => {
                let plan = index.register(store, d);
                match plan {
                    RegisterPlan::NeedsSlot(name) => {
                        let slot = source.fresh_slot();
                        index.finish_register(d, name, slot);
                    },
                    _ => {},
                }
            },
            _ => {},
        }
        proof {
            assert(events@.take(i as int + 1).drop_last() =~= events@.take(i as int));
            assert(events@.take(i as int + 1).last() == events@[i as int]);
            let stepped = spec_apply_event::<T>(pre, store@, pre_next, events@[i as int]);
            assert(index.abs() =~= stepped.0);
            assert(source.next_id() == stepped.1);
        }
        i += 1;
    }
    proof {
        assert(events@.take(events@.len() as int) =~= events@);
    }
}

} // verus!
