//! The dynamic registry: the bidirectional index between definition ids and
//! runtime component slots, keyed also by logical name, together with the two
//! access declarations that grow as slots are registered.
//!
//! Registration is split in two steps, because only the host storage engine
//! can assign a fresh slot id: [`DefIndex::register`] decides what a
//! definition-lifecycle event requires (and folds a name collision on the
//! spot), and [`DefIndex::finish_register`] records a freshly assigned slot.

use vstd::prelude::*;
use vstd::hash_map::HashMapWithView;
use vstd::hash_map::StringHashMap;
use core::marker::PhantomData;
use crate::DefComponent;
use crate::access::AccessSet;
use crate::store::DefStore;

verus! {

broadcast use vstd::std_specs::hash::group_hash_axioms;

/// What a registration attempt found, and what remains to be done.
pub enum RegisterPlan {
    /// The definition id is already mapped: nothing to do.
    AlreadyRegistered,
    /// The definition record is absent from the store (a stale event): the
    /// registration is skipped.
    RecordMissing,
    /// The derived name was already taken: the definition id now aliases the
    /// slot that the name is bound to.
    Folded(u64),
    /// The definition is new: the host must assign a fresh slot, to be
    /// recorded with [`DefIndex::finish_register`] under the derived name.
    NeedsSlot(String),
}

/// The registry, taken abstractly: its three maps, and the slots covered by
/// the two component-access declarations.
#[verifier::ext_equal]
pub struct IndexSnapshot {
    pub names: Map<Seq<char>, (u64, u64)>,
    pub assets: Map<u64, u64>,
    pub slots: Map<u64, u64>,
    pub reads: Set<u64>,
    pub writes: Set<u64>,
}

/// The registry of one capability: name -> (definition id, slot id),
/// definition id -> slot id, slot id -> definition id, plus the read-only and
/// read-write access declarations over all registered slots.
pub struct DefIndex<T: DefComponent> {
    name_tbl: StringHashMap<(u64, u64)>,
    asset_tbl: HashMapWithView<u64, u64>,
    slot_tbl: HashMapWithView<u64, u64>,
    access_ref: AccessSet,
    access_mut: AccessSet,
    marker: PhantomData<T>,
}

impl<T: DefComponent> DefIndex<T> {
    /// The name map: logical name -> (definition id, slot id).
    pub closed spec fn name_map(self) -> Map<Seq<char>, (u64, u64)> {
        self.name_tbl@
    }

    /// The forward map: definition id -> slot id.
    pub closed spec fn asset_map(self) -> Map<u64, u64> {
        self.asset_tbl@
    }

    /// The inverse map: slot id -> definition id.
    pub closed spec fn slot_map(self) -> Map<u64, u64> {
        self.slot_tbl@
    }

    /// The read-only access declaration.
    pub closed spec fn read_access(self) -> AccessSet {
        self.access_ref
    }

    /// The read-write access declaration.
    pub closed spec fn write_access(self) -> AccessSet {
        self.access_mut
    }

    /// The abstract state of the registry.
    pub open spec fn abs(self) -> IndexSnapshot {
        IndexSnapshot {
            names: self.name_map(),
            assets: self.asset_map(),
            slots: self.slot_map(),
            reads: self.read_access().reads(),
            writes: self.write_access().writes(),
        }
    }

    /// Well-formedness: the three maps are mutually consistent, and the
    /// access declarations cover exactly the registered slots.
    ///
    /// Every name entry (d, s) is echoed by the forward and inverse maps;
    /// every inverse entry points back at itself through the forward map;
    /// every forward entry aliases some registered slot (possibly one first
    /// registered for a different definition id whose record derived the same
    /// name).
    pub open spec fn wf(self) -> bool {
        &&& forall|n: Seq<char>| #[trigger]
            self.name_map().contains_key(n) ==> {
                &&& self.asset_map().contains_key(self.name_map()[n].0)
                &&& self.asset_map()[self.name_map()[n].0] == self.name_map()[n].1
                &&& self.slot_map().contains_key(self.name_map()[n].1)
                &&& self.slot_map()[self.name_map()[n].1] == self.name_map()[n].0
            }
        &&& forall|s: u64| #[trigger]
            self.slot_map().contains_key(s) ==> {
                &&& self.asset_map().contains_key(self.slot_map()[s])
                &&& self.asset_map()[self.slot_map()[s]] == s
            }
        &&& forall|d: u64| #[trigger]
            self.asset_map().contains_key(d) ==> self.slot_map().contains_key(
                self.asset_map()[d],
            )
        &&& self.read_access().reads() == self.slot_map().dom()
        &&& self.write_access().writes() == self.slot_map().dom()
        &&& self.read_access().writes() == Set::<u64>::empty()
        &&& self.write_access().reads() == Set::<u64>::empty()
    }

    /// Looks up a logical name: the definition id and slot id bound to it at
    /// first registration, if any.
    pub fn find_by_name(&self, name: &str) -> (r: Option<(u64, u64)>)
        ensures
            match r {
                Some(p) => self.name_map().contains_key(name@) && p == self.name_map()[name@],
                None => !self.name_map().contains_key(name@),
            },
    {
        match self.name_tbl.get(name) {
            Some(p) => Some((p.0, p.1)),
            None => None,
        }
    }

    /// The name map itself.
    pub fn names(&self) -> (r: &StringHashMap<(u64, u64)>)
        ensures
            r@ == self.name_map(),
    {
        &self.name_tbl
    }

    /// The forward map itself.
    pub fn asset_to_id(&self) -> (r: &HashMapWithView<u64, u64>)
        ensures
            r@ == self.asset_map(),
    {
        &self.asset_tbl
    }

    /// The inverse map itself.
    pub fn id_to_asset(&self) -> (r: &HashMapWithView<u64, u64>)
        ensures
            r@ == self.slot_map(),
    {
        &self.slot_tbl
    }

    /// The slot registered for a definition id, if any.
    pub fn component_id(&self, d: u64) -> (r: Option<u64>)
        ensures
            match r {
                Some(s) => self.asset_map().contains_key(d) && s == self.asset_map()[d],
                None => !self.asset_map().contains_key(d),
            },
    {
        match self.asset_tbl.get(&d) {
            Some(s) => Some(*s),
            None => None,
        }
    }

    /// The definition id a slot was first registered for, if any.
    pub fn asset_id(&self, slot: u64) -> (r: Option<u64>)
        ensures
            match r {
                Some(d) => self.slot_map().contains_key(slot) && d == self.slot_map()[slot],
                None => !self.slot_map().contains_key(slot),
            },
    {
        match self.slot_tbl.get(&slot) {
            Some(d) => Some(*d),
            None => None,
        }
    }

    /// A snapshot of the read-only access declaration, for the scheduler.
    pub fn access_ref(&self) -> (a: AccessSet)
        ensures
            a.reads() == self.read_access().reads(),
            a.writes() == self.read_access().writes(),
            a.resources() == self.read_access().resources(),
    {
        self.access_ref.snapshot()
    }

    /// A snapshot of the read-write access declaration, for the scheduler.
    pub fn access_mut(&self) -> (a: AccessSet)
        ensures
            a.reads() == self.write_access().reads(),
            a.writes() == self.write_access().writes(),
            a.resources() == self.write_access().resources(),
    {
        self.access_mut.snapshot()
    }

    /// Declares, on both access declarations, a read of the two resources
    /// that back every lookup: the registry itself and the definition store.
    pub fn declare_resource_reads(&mut self, index_res: u64, store_res: u64)
        ensures
            final(self).name_map() == old(self).name_map(),
            final(self).asset_map() == old(self).asset_map(),
            final(self).slot_map() == old(self).slot_map(),
            final(self).read_access().reads() == old(self).read_access().reads(),
            final(self).read_access().writes() == old(self).read_access().writes(),
            final(self).write_access().reads() == old(self).write_access().reads(),
            final(self).write_access().writes() == old(self).write_access().writes(),
            final(self).read_access().resources() == old(self).read_access().resources().insert(
                index_res,
            ).insert(store_res),
            final(self).write_access().resources() == old(self).write_access().resources().insert(
                index_res,
            ).insert(store_res),
            old(self).wf() ==> final(self).wf(),
    {
        self.access_ref.add_resource_read(index_res);
        self.access_ref.add_resource_read(store_res);
        self.access_mut.add_resource_read(index_res);
        self.access_mut.add_resource_read(store_res);
        proof {
            if old(self).wf() {
                assert forall|n: Seq<char>| #[trigger] self.name_map().contains_key(n) implies {
                    &&& self.asset_map().contains_key(self.name_map()[n].0)
                    &&& self.asset_map()[self.name_map()[n].0] == self.name_map()[n].1
                    &&& self.slot_map().contains_key(self.name_map()[n].1)
                    &&& self.slot_map()[self.name_map()[n].1] == self.name_map()[n].0
                } by {
                    assert(old(self).name_map().contains_key(n));
                }
                assert forall|s: u64| #[trigger] self.slot_map().contains_key(s) implies {
                    &&& self.asset_map().contains_key(self.slot_map()[s])
                    &&& self.asset_map()[self.slot_map()[s]] == s
                } by {
                    assert(old(self).slot_map().contains_key(s));
                }
                assert forall|dd: u64| #[trigger] self.asset_map().contains_key(dd) implies self
                    .slot_map().contains_key(self.asset_map()[dd]) by {
                    assert(old(self).asset_map().contains_key(dd));
                }
            }
        }
    }

    /// Processes one observed definition id: a no-op if it is already mapped
    /// or its record has vanished; a silent fold onto the existing slot if
    /// its record derives a name that is already taken (first registration
    /// wins); otherwise nothing is changed yet and the derived name is handed
    /// back, for the host to assign a slot recorded by
    /// [`DefIndex::finish_register`].
    pub fn register(&mut self, store: &DefStore<T::Asset>, d: u64) -> (plan: RegisterPlan)
        requires
            old(self).wf(),
        ensures
            final(self).wf(),
            old(self).asset_map().contains_key(d) ==> {
                &&& plan == RegisterPlan::AlreadyRegistered
                &&& *final(self) == *old(self)
            },
            !old(self).asset_map().contains_key(d) && !store@.contains_key(d) ==> {
                &&& plan == RegisterPlan::RecordMissing
                &&& *final(self) == *old(self)
            },
            !old(self).asset_map().contains_key(d) && store@.contains_key(d) ==> {
                let nm = T::spec_defname(&store@[d]);
                if old(self).name_map().contains_key(nm) {
                    &&& plan == RegisterPlan::Folded(old(self).name_map()[nm].1)
                    &&& final(self).asset_map() == old(self).asset_map().insert(
                        d,
                        old(self).name_map()[nm].1,
                    )
                    &&& final(self).name_map() == old(self).name_map()
                    &&& final(self).slot_map() == old(self).slot_map()
                    &&& final(self).read_access() == old(self).read_access()
                    &&& final(self).write_access() == old(self).write_access()
                } else {
                    &&& plan matches RegisterPlan::NeedsSlot(name) && name@ == nm
                    &&& *final(self) == *old(self)
                }
            },
    {
        if self.asset_tbl.contains_key(&d) {
            return RegisterPlan::AlreadyRegistered;
        }
        match store.get(d) {
            None => RegisterPlan::RecordMissing,
            Some(record) => {
                let name = T::defname(record);
                match self.name_tbl.get(name.as_str()) {
                    Some(pair) => {
                        let slot = pair.1;
                        proof {
                            assert(old(self).name_map().contains_key(name@));
                            assert(slot == old(self).name_map()[name@].1);
                            assert(old(self).slot_map().contains_key(slot));
                        }
                        self.asset_tbl.insert(d, slot);
                        proof {
                            lemma_fold_preserves_wf(*old(self), *self, d, slot);
                        }
                        RegisterPlan::Folded(slot)
                    },
                    None => RegisterPlan::NeedsSlot(name),
                }
            },
        }
    }

    /// Records a freshly assigned slot for a new definition: the triple goes
    /// into all three maps, the read-only declaration gains a read of the
    /// slot and the read-write declaration a write of it.
    pub fn finish_register(&mut self, d: u64, name: String, slot: u64)
        requires
            old(self).wf(),
            !old(self).asset_map().contains_key(d),
            !old(self).name_map().contains_key(name@),
            !old(self).slot_map().contains_key(slot),
        ensures
            final(self).wf(),
            final(self).name_map() == old(self).name_map().insert(name@, (d, slot)),
            final(self).asset_map() == old(self).asset_map().insert(d, slot),
            final(self).slot_map() == old(self).slot_map().insert(slot, d),
            final(self).read_access().reads() == old(self).read_access().reads().insert(slot),
            final(self).read_access().writes() == old(self).read_access().writes(),
            final(self).read_access().resources() == old(self).read_access().resources(),
            final(self).write_access().writes() == old(self).write_access().writes().insert(slot),
            final(self).write_access().reads() == old(self).write_access().reads(),
            final(self).write_access().resources() == old(self).write_access().resources(),
    {
        self.name_tbl.insert(name, (d, slot));
        self.asset_tbl.insert(d, slot);
        self.slot_tbl.insert(slot, d);
        self.access_ref.add_component_read(slot);
        self.access_mut.add_component_write(slot);
        proof {
            lemma_install_preserves_wf(*old(self), *self, d, name@, slot);
        }
    }

    /// Round trip from a slot: every registered slot id resolves to a
    /// definition id that resolves back to the same slot.
    pub proof fn lemma_round_trip_slot(self)
        requires
            self.wf(),
        ensures
            forall|s: u64| #[trigger]
                self.slot_map().contains_key(s) ==> {
                    &&& self.asset_map().contains_key(self.slot_map()[s])
                    &&& self.asset_map()[self.slot_map()[s]] == s
                },
    {
    }

    /// Round trip from a definition id: every definition id registered under
    /// its own name resolves to a slot that resolves back to it. (A
    /// definition id folded onto another definition's slot by a name
    /// collision resolves forward, but the slot resolves back to the first
    /// definition registered for it.)
    pub proof fn lemma_round_trip_id(self)
        requires
            self.wf(),
        ensures
            forall|n: Seq<char>| #[trigger]
                self.name_map().contains_key(n) ==> {
                    &&& self.asset_map().contains_key(self.name_map()[n].0)
                    &&& self.slot_map().contains_key(self.asset_map()[self.name_map()[n].0])
                    &&& self.slot_map()[self.asset_map()[self.name_map()[n].0]]
                        == self.name_map()[n].0
                },
    {
    }
}

impl<T: DefComponent> Default for DefIndex<T> {
    /// An empty registry: no names, no slots, nothing declared.
    fn default() -> (r: Self)
        ensures
            r.wf(),
            r.name_map() == Map::<Seq<char>, (u64, u64)>::empty(),
            r.asset_map() == Map::<u64, u64>::empty(),
            r.slot_map() == Map::<u64, u64>::empty(),
            r.read_access().resources() == Set::<u64>::empty(),
            r.write_access().resources() == Set::<u64>::empty(),
    {
        let r = DefIndex {
            name_tbl: StringHashMap::new(),
            asset_tbl: HashMapWithView::new(),
            slot_tbl: HashMapWithView::new(),
            access_ref: AccessSet::empty(),
            access_mut: AccessSet::empty(),
            marker: PhantomData,
        };
        proof {
            assert(r.read_access().reads() =~= r.slot_map().dom());
            assert(r.write_access().writes() =~= r.slot_map().dom());
        }
        r
    }
}

/// Folding a definition id onto an existing slot keeps the registry
/// well-formed: the alias points at a slot that is present in the inverse
/// map, and no other entry moves.
proof fn lemma_fold_preserves_wf<T: DefComponent>(
    pre: DefIndex<T>,
    post: DefIndex<T>,
    d: u64,
    slot: u64,
)
    requires
        pre.wf(),
        !pre.asset_map().contains_key(d),
        pre.slot_map().contains_key(slot),
        post.asset_map() == pre.asset_map().insert(d, slot),
        post.name_map() == pre.name_map(),
        post.slot_map() == pre.slot_map(),
        post.read_access() == pre.read_access(),
        post.write_access() == pre.write_access(),
    ensures
        post.wf(),
{
    assert forall|s: u64| #[trigger] post.slot_map().contains_key(s) implies {
        &&& post.asset_map().contains_key(post.slot_map()[s])
        &&& post.asset_map()[post.slot_map()[s]] == s
    } by {
        assert(pre.slot_map().contains_key(s));
        assert(pre.asset_map().contains_key(pre.slot_map()[s]));
    }
}

/// Recording a fresh slot keeps the registry well-formed: the new triple is
/// consistent in all three maps, and the access declarations still cover
/// exactly the registered slots.
proof fn lemma_install_preserves_wf<T: DefComponent>(
    pre: DefIndex<T>,
    post: DefIndex<T>,
    d: u64,
    name: Seq<char>,
    slot: u64,
)
    requires
        pre.wf(),
        !pre.asset_map().contains_key(d),
        !pre.name_map().contains_key(name),
        !pre.slot_map().contains_key(slot),
        post.name_map() == pre.name_map().insert(name, (d, slot)),
        post.asset_map() == pre.asset_map().insert(d, slot),
        post.slot_map() == pre.slot_map().insert(slot, d),
        post.read_access().reads() == pre.read_access().reads().insert(slot),
        post.read_access().writes() == pre.read_access().writes(),
        post.write_access().writes() == pre.write_access().writes().insert(slot),
        post.write_access().reads() == pre.write_access().reads(),
    ensures
        post.wf(),
{
    assert forall|n: Seq<char>| #[trigger] post.name_map().contains_key(n) implies {
        &&& post.asset_map().contains_key(post.name_map()[n].0)
        &&& post.asset_map()[post.name_map()[n].0] == post.name_map()[n].1
        &&& post.slot_map().contains_key(post.name_map()[n].1)
        &&& post.slot_map()[post.name_map()[n].1] == post.name_map()[n].0
    } by {
        if n != name {
            assert(pre.name_map().contains_key(n));
            assert(pre.asset_map().contains_key(pre.name_map()[n].0));
            assert(pre.slot_map().contains_key(pre.name_map()[n].1));
        }
    }
    assert forall|s: u64| #[trigger] post.slot_map().contains_key(s) implies {
        &&& post.asset_map().contains_key(post.slot_map()[s])
        &&& post.asset_map()[post.slot_map()[s]] == s
    } by {
        if s != slot {
            assert(pre.slot_map().contains_key(s));
            assert(pre.asset_map().contains_key(pre.slot_map()[s]));
        }
    }
    assert forall|dd: u64| #[trigger] post.asset_map().contains_key(dd) implies post.slot_map()
        .contains_key(post.asset_map()[dd]) by {
        if dd != d {
            assert(pre.asset_map().contains_key(dd));
        }
    }
    assert(post.read_access().reads() =~= post.slot_map().dom());
    assert(post.write_access().writes() =~= post.slot_map().dom());
}

} // verus!
