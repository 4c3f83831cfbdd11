// The registry: registration, idempotence, name-collision folding, round
// trips, absence before registration, and access-set growth.

use bevy_def::access::AccessSet;
use bevy_def::index::DefIndex;
use bevy_def::index::RegisterPlan;
use bevy_def::store::DefStore;
use bevy_def::DefComponent;
use bevy_def::DefEvent;
use bevy_def::SlotSource;
use bevy_def::def_maintain_system;

struct Tag {
    #[allow(dead_code)]
    level: i64,
}

struct TagAsset {
    defname: String,
}

impl DefComponent for Tag {
    type Asset = TagAsset;

    fn spec_defname(_: &<Self as DefComponent>::Asset) -> vstd::seq::Seq<char> {
        panic!()
    }

    fn defname(asset: &Self::Asset) -> String {
        asset.defname.clone()
    }
}

fn store_with(names: &[(u64, &str)]) -> DefStore<TagAsset> {
    let mut store = DefStore::new();
    for (id, name) in names {
        store.insert(*id, TagAsset { defname: (*name).to_string() });
    }
    store
}

#[test]
fn register_installs_triple() {
    let mut index: DefIndex<Tag> = Default::default();
    let store = store_with(&[(1, "health")]);

    let plan = index.register(&store, 1);
    let name = match plan {
        RegisterPlan::NeedsSlot(name) => name,
        _ => panic!("a new definition must need a slot"),
    };
    assert_eq!(name, "health");
    index.finish_register(1, name, 7);

    assert_eq!(index.find_by_name("health"), Some((1, 7)));
    assert_eq!(index.component_id(1), Some(7));
    assert_eq!(index.asset_id(7), Some(1));
}

#[test]
fn registration_idempotence() {
    let mut index: DefIndex<Tag> = Default::default();
    let store = store_with(&[(1, "health")]);

    let plan = index.register(&store, 1);
    let name = match plan {
        RegisterPlan::NeedsSlot(name) => name,
        _ => panic!("a new definition must need a slot"),
    };
    index.finish_register(1, name, 7);

    // A second registration of the same definition id is a no-op.
    assert!(matches!(index.register(&store, 1), RegisterPlan::AlreadyRegistered));

    // Exactly one slot, one name, a single entry in every map.
    assert_eq!(index.names().len(), 1);
    assert_eq!(index.asset_to_id().len(), 1);
    assert_eq!(index.id_to_asset().len(), 1);
    assert_eq!(index.find_by_name("health"), Some((1, 7)));
}

#[test]
fn name_collision_fold() {
    let mut index: DefIndex<Tag> = Default::default();
    // Two distinct definition ids whose records derive the same name.
    let store = store_with(&[(1, "health"), (2, "health")]);

    let plan = index.register(&store, 1);
    let name = match plan {
        RegisterPlan::NeedsSlot(name) => name,
        _ => panic!("a new definition must need a slot"),
    };
    index.finish_register(1, name, 7);

    // The second id folds silently onto the first id's slot.
    assert!(matches!(index.register(&store, 2), RegisterPlan::Folded(7)));

    // The name map still holds the first registration only.
    assert_eq!(index.names().len(), 1);
    assert_eq!(index.find_by_name("health"), Some((1, 7)));

    // The forward map records both ids, both at the same slot.
    assert_eq!(index.component_id(1), Some(7));
    assert_eq!(index.component_id(2), Some(7));
    assert_eq!(index.asset_to_id().len(), 2);

    // The slot still resolves back to the first id.
    assert_eq!(index.asset_id(7), Some(1));
}

#[test]
fn round_trip_lookup() {
    let mut index: DefIndex<Tag> = Default::default();
    let store = store_with(&[(1, "health"), (2, "mana"), (3, "armor")]);
    let mut source = SlotSource::new(10);
    let events = vec![DefEvent::Added(1), DefEvent::Added(2), DefEvent::Added(3)];
    def_maintain_system(&mut index, &store, &mut source, &events);

    for d in [1u64, 2, 3] {
        let s = index.component_id(d).expect("registered id must resolve");
        assert_eq!(index.asset_id(s), Some(d));
    }
}

#[test]
fn absent_before_registration() {
    let mut index: DefIndex<Tag> = Default::default();
    let store = store_with(&[(1, "health"), (2, "mana")]);

    // Before anything is registered: empty results, never errors.
    assert_eq!(index.find_by_name("health"), None);
    assert_eq!(index.component_id(1), None);
    assert_eq!(index.asset_id(7), None);

    // After the maintenance process has run for an unrelated id only.
    let mut source = SlotSource::new(0);
    let events = vec![DefEvent::Added(2)];
    def_maintain_system(&mut index, &store, &mut source, &events);

    assert_eq!(index.find_by_name("health"), None);
    assert_eq!(index.component_id(1), None);
    assert_eq!(index.find_by_name("mana"), Some((2, 0)));
}

#[test]
fn stale_event_is_skipped() {
    let mut index: DefIndex<Tag> = Default::default();
    // The record for id 9 vanished before the event was processed.
    let store = store_with(&[(1, "health")]);

    assert!(matches!(index.register(&store, 9), RegisterPlan::RecordMissing));
    assert_eq!(index.component_id(9), None);

    // Through the maintenance process the stale id is skipped as well.
    let mut source = SlotSource::new(0);
    let events = vec![DefEvent::Added(9), DefEvent::Added(1)];
    def_maintain_system(&mut index, &store, &mut source, &events);
    assert_eq!(index.component_id(9), None);
    assert_eq!(index.find_by_name("health"), Some((1, 0)));
}

#[test]
fn observational_events_do_nothing() {
    let mut index: DefIndex<Tag> = Default::default();
    let store = store_with(&[(1, "health")]);
    let mut source = SlotSource::new(0);
    let events = vec![
        DefEvent::Modified(1),
        DefEvent::Removed(1),
        DefEvent::Unused(1),
        DefEvent::LoadedWithDependencies(1),
    ];
    def_maintain_system(&mut index, &store, &mut source, &events);

    assert_eq!(index.names().len(), 0);
    assert_eq!(index.component_id(1), None);

    // A later Added still registers; a Removed afterwards reclaims nothing.
    let events = vec![DefEvent::Added(1), DefEvent::Removed(1)];
    def_maintain_system(&mut index, &store, &mut source, &events);
    assert_eq!(index.component_id(1), Some(0));
    assert_eq!(index.names().len(), 1);
}

#[test]
fn access_sets_grow_with_registration() {
    let mut index: DefIndex<Tag> = Default::default();
    let store = store_with(&[(1, "health"), (2, "mana")]);
    let mut source = SlotSource::new(0);

    def_maintain_system(&mut index, &store, &mut source, &vec![DefEvent::Added(1)]);
    let early_ref: AccessSet = index.access_ref();
    let early_mut: AccessSet = index.access_mut();
    assert!(early_ref.has_component_read(0));
    assert!(early_mut.has_component_write(0));
    assert!(!early_ref.has_component_read(1));

    def_maintain_system(&mut index, &store, &mut source, &vec![DefEvent::Added(2)]);
    let later_ref = index.access_ref();
    let later_mut = index.access_mut();

    // Monotonicity: everything declared earlier is still declared.
    assert!(later_ref.has_component_read(0));
    assert!(later_mut.has_component_write(0));
    assert!(later_ref.has_component_read(1));
    assert!(later_mut.has_component_write(1));

    // The snapshot taken earlier is unaffected by later registrations.
    assert!(!early_ref.has_component_read(1));

    // The read-only declaration never writes; the read-write one never reads.
    assert!(!later_ref.has_component_write(0));
    assert!(!later_mut.has_component_read(0));
}

#[test]
fn resource_reads_are_declared_on_both_sets() {
    let mut index: DefIndex<Tag> = Default::default();
    index.declare_resource_reads(100, 101);

    let a = index.access_ref();
    let b = index.access_mut();
    assert!(a.has_resource_read(100));
    assert!(a.has_resource_read(101));
    assert!(b.has_resource_read(100));
    assert!(b.has_resource_read(101));
    assert!(!a.has_resource_read(102));
}

#[test]
fn named_def_capability_derives_the_stored_name() {
    let mut store: DefStore<bevy_def::NameRecord> = DefStore::new();
    store.insert(4, bevy_def::NameRecord { name: "speed".to_string() });

    let mut index: DefIndex<bevy_def::NamedDef> = Default::default();
    let mut source = SlotSource::new(0);
    def_maintain_system(&mut index, &store, &mut source, &vec![DefEvent::Added(4)]);

    assert_eq!(index.find_by_name("speed"), Some((4, 0)));
    assert_eq!(index.component_id(4), Some(0));
}

#[test]
fn slot_source_hands_out_distinct_ids() {
    let mut source = SlotSource::new(5);
    assert_eq!(source.fresh_slot(), 5);
    assert_eq!(source.fresh_slot(), 6);
    assert_eq!(source.fresh_slot(), 7);
}
