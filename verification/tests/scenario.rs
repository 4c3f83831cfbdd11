// The end-to-end scenario: a "health" stat with bounds, registered from the
// definition store, inserted on an entity, read back with its record, and
// repeatedly incremented under clamping.

use bevy_def::entity::EntitySlots;
use bevy_def::entity_mut::DefEntityMut;
use bevy_def::entity_ref::DefEntityRef;
use bevy_def::index::DefIndex;
use bevy_def::store::DefStore;
use bevy_def::DefComponent;
use bevy_def::DefEvent;
use bevy_def::InsertDef;
use bevy_def::SlotSource;
use bevy_def::def_maintain_system;

#[derive(Clone, Copy, PartialEq, Debug)]
struct Stat {
    current: f64,
}

struct StatAsset {
    defname: String,
    minimal: f64,
    maximal: f64,
}

impl DefComponent for Stat {
    type Asset = StatAsset;

    fn spec_defname(_: &<Self as DefComponent>::Asset) -> vstd::seq::Seq<char> {
        panic!()
    }

    fn defname(asset: &Self::Asset) -> String {
        asset.defname.clone()
    }
}

#[test]
fn clamped_increments_saturate_at_the_bound() {
    // Definition "health" with bounds [0, 100].
    let mut store = DefStore::new();
    store.insert(1, StatAsset { defname: "health".to_string(), minimal: 0.0, maximal: 100.0 });

    let mut index: DefIndex<Stat> = Default::default();
    let mut source = SlotSource::new(0);
    def_maintain_system(&mut index, &store, &mut source, &vec![DefEvent::Added(1)]);
    let slot = index.component_id(1).expect("health must be registered");

    // Insert value 35 on entity A.
    let mut entity: EntitySlots<Stat> = EntitySlots::new();
    InsertDef::new(slot, Stat { current: 35.0 }).apply(&mut entity);

    // The accessor returns the value paired with its bounds.
    {
        let view = DefEntityRef { entity: &entity, asset: &store, index: &index };
        let hp = view.find_ref("health").expect("health must resolve on A");
        assert_eq!(hp.value.current, 35.0);
        assert_eq!(hp.asset.minimal, 0.0);
        assert_eq!(hp.asset.maximal, 100.0);
    }

    // Apply a +0.2 increment, clamped to the bounds, 500 times.
    let view = DefEntityMut { asset: &store, index: &index };
    for _ in 0..500 {
        let hp = view.find_ref(&entity, "health").expect("health must resolve on A");
        let lo = hp.asset.minimal;
        let hi = hp.asset.maximal;
        let next = (hp.value.current + 0.2).clamp(lo, hi);
        view.find_mut(&mut entity, "health", Stat { current: next })
            .expect("health must resolve on A");
    }

    // The value saturates at the upper bound: 100, not 135.
    let view = DefEntityRef { entity: &entity, asset: &store, index: &index };
    let hp = view.find_ref("health").expect("health must resolve on A");
    assert_eq!(hp.value.current, 100.0);
}
