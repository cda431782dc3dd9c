use snake_engine::drw::children::Children;
use snake_engine::drw::drawable::{DescriptorID, PipelineID};
use snake_engine::ecs::tables::ClassInfo;
use snake_engine::geom::shapes::{plan_descriptor, DescriptorSource, ShapeKind};
use snake_engine::res::cache::{insert_if_absent, CacheProvider, DescriptorSetCache, PipelineCache};
use std::sync::Arc;

struct Sprite;

#[test]
fn class_info_keeps_given_name() {
    let info = ClassInfo::of_class::<Sprite>(String::from("drw2"));
    assert_eq!(info.class_name, "drw2");
    let other = ClassInfo::of_class::<Sprite>(String::from("drw"));
    assert_eq!(info.type_id, other.type_id);
    assert_ne!(info.type_id, ClassInfo::of_class::<u8>(String::from("drw")).type_id);
}

#[test]
fn descriptor_id_is_class_name() {
    let info = ClassInfo::of_class::<Sprite>(String::from("snake::Head"));
    let id = DescriptorID::from(&info);
    assert_eq!(id.id, "snake::Head");
    assert!(id == DescriptorID { id: String::from("snake::Head") });
    assert!(id != DescriptorID { id: String::from("snake::Tail") });
}

#[test]
fn pipeline_ids_are_lower_case_kind_names() {
    assert_eq!(PipelineID::from_kind(ShapeKind::Square).id, "square");
    assert_eq!(PipelineID::from_kind(ShapeKind::Circle).id, "circle");
    assert_eq!(PipelineID::from_kind(ShapeKind::Image).id, "image");
    assert_eq!(ShapeKind::Image.pipeline_name(), "image");
    assert!(PipelineID::from_kind(ShapeKind::Square) != PipelineID::from_kind(ShapeKind::Circle));
}

#[test]
fn descriptor_plan_per_kind() {
    assert_eq!(plan_descriptor(ShapeKind::Square, true, true), Some(DescriptorSource::Created));
    assert_eq!(plan_descriptor(ShapeKind::Square, false, false), None);
    assert_eq!(plan_descriptor(ShapeKind::Circle, true, false), Some(DescriptorSource::Cached));
    assert_eq!(plan_descriptor(ShapeKind::Circle, false, true), Some(DescriptorSource::Created));
    assert_eq!(plan_descriptor(ShapeKind::Image, true, true), Some(DescriptorSource::Cached));
    assert_eq!(plan_descriptor(ShapeKind::Image, false, false), Some(DescriptorSource::Created));
}

#[test]
fn cache_returns_what_was_stored() {
    let mut cache: DescriptorSetCache<u32> = DescriptorSetCache::default();
    assert_eq!(cache.len(), 0);
    assert!(cache.get("circle").is_none());
    assert!(cache.insert((String::from("circle"), Arc::new(10))).is_none());
    assert_eq!(cache.get("circle").map(|v| *v), Some(10));
    assert_eq!(cache.insert((String::from("circle"), Arc::new(11))).map(|v| *v), Some(10));
    assert_eq!(cache.get("circle").map(|v| *v), Some(11));
    assert!(cache.get("square").is_none());
    assert_eq!(cache.len(), 1);
}

#[test]
fn cache_lookup_shares_the_stored_value() {
    let mut cache: PipelineCache<String> = PipelineCache::default();
    let stored = Arc::new(String::from("pipeline"));
    cache.insert((String::from("image"), stored.clone()));
    let found = cache.get("image").unwrap();
    assert!(Arc::ptr_eq(&found, &stored));
}

#[test]
fn insert_if_absent_never_replaces() {
    let mut cache: PipelineCache<u8> = PipelineCache::default();
    assert!(insert_if_absent(&mut cache, String::from("square"), Arc::new(1)));
    assert!(!insert_if_absent(&mut cache, String::from("square"), Arc::new(2)));
    assert_eq!(cache.get("square").map(|v| *v), Some(1));
    assert_eq!(cache.len(), 1);
}

#[test]
fn cache_built_from_entries() {
    let mut entries = vstd::hash_map::StringHashMap::new();
    entries.insert(String::from("square"), Arc::new(3u8));
    let cache = PipelineCache::new(entries);
    assert_eq!(cache.len(), 1);
    assert_eq!(cache.get("square").map(|v| *v), Some(3));
}

#[test]
fn children_keep_insertion_order() {
    let mut children: Children<u32> = Children::default();
    assert_eq!(children.len(), 0);
    assert!(children.last().is_none());
    assert!(children.get(0).is_none());
    children.add(5);
    children.add(6);
    children.add(7);
    assert_eq!(children.len(), 3);
    assert_eq!(children.get(1).map(|d| *d), Some(6));
    assert_eq!(children.get_mut(0).map(|d| *d), Some(5));
    assert!(children.get(3).is_none());
    assert_eq!(children.last().map(|d| *d), Some(7));
    children.clear();
    assert_eq!(children.len(), 0);
    assert!(children.last().is_none());
}

#[test]
fn children_filter_keeps_order() {
    let mut children: Children<u32> = Children::new();
    for v in [1u32, 4, 6, 7, 10] {
        children.add(v);
    }
    let even: Vec<u32> = children.filter_each(|v: &u32| *v % 2 == 0).iter().map(|d| **d).collect();
    assert_eq!(even, vec![4, 6, 10]);
    assert!(children.filter_each(|_: &u32| false).is_empty());
}

#[test]
fn children_contains_only_shared_pointers() {
    let mut children: Children<u32> = Children::new();
    children.add(3);
    let shared = children.get(0).unwrap();
    assert!(children.contains_arc(&shared));
    assert!(!children.contains_arc(&Arc::new(3)));
}
