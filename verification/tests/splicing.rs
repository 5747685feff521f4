use epic_bevy_remote_reflection::cache::DescriptorCache;
use epic_bevy_remote_reflection::descriptor::{
    AnyVtable, CommonVtable, ConvertEntry, ReflectVtable, TypeDesc,
};
use epic_bevy_remote_reflection::splice::{
    new_vtable, reconvert_mut, reconvert_owned, reconvert_ref,
};
use epic_bevy_remote_reflection::value::{
    convert_owned, downcast_ref, get_field, remote_into_reflect, reported_type_key,
    splice_descriptor, DynValue, Field, FieldValue, StructData,
};

fn shadow_desc() -> TypeDesc {
    TypeDesc { key: 1, size: 32, align: 8 }
}

fn foreign_desc() -> TypeDesc {
    TypeDesc { key: 2, size: 32, align: 8 }
}

fn sample_data() -> StructData {
    StructData {
        fields: vec![
            Field { name: "id".to_string(), value: FieldValue::UInt(69) },
            Field {
                name: "things".to_string(),
                value: FieldValue::TextList(vec!["Book".to_string(), "Table".to_string()]),
            },
        ],
    }
}

#[test]
fn common_vtable_carries_layout() {
    let ty = TypeDesc { key: 7, size: 24, align: 4 };
    let t = CommonVtable::new(&ty);
    assert_eq!(t.drop_in_place.runs, 7);
    assert_eq!(t.size, 24);
    assert_eq!(t.align, 4);
}

#[test]
fn any_vtable_reports_own_identity() {
    let ty = TypeDesc { key: 7, size: 24, align: 4 };
    let t = AnyVtable::new(&ty);
    assert_eq!(t.drop_in_place.runs, 7);
    assert_eq!(t.size, 24);
    assert_eq!(t.align, 4);
    assert_eq!(t.type_id.reports, 7);
}

#[test]
fn native_table_is_all_own() {
    let ty = shadow_desc();
    let any = AnyVtable::new(&ty);
    let common = CommonVtable::new(&ty);
    let t = ReflectVtable::new(&ty, any, common, common);
    assert_eq!(t.type_id.reports, 1);
    assert_eq!(t.reflect_ref.runs, 1);
    assert_eq!(t.clone_value.runs, 1);
    assert_eq!(t.into_any.target, 1);
    assert_eq!(t.trait_any_vtable.type_id.reports, 1);
    assert_eq!(t.into_reflect, ConvertEntry::Native(ty));
    assert_eq!(t.as_reflect, ConvertEntry::Native(ty));
    assert_eq!(t.as_reflect_mut, ConvertEntry::Native(ty));
}

#[test]
fn spliced_table_reports_foreign_identity() {
    let shadow = shadow_desc();
    let foreign = foreign_desc();
    let t = new_vtable(&shadow, &foreign);
    assert_eq!(t.type_id.reports, foreign.key);
    assert_ne!(t.type_id.reports, shadow.key);
    assert_eq!(t.trait_any_vtable.type_id.reports, foreign.key);
    assert_eq!(t.trait_send_vtable.drop_in_place.runs, foreign.key);
    assert_eq!(t.trait_sync_vtable.drop_in_place.runs, foreign.key);
}

#[test]
fn spliced_table_keeps_shadow_behavior() {
    let shadow = shadow_desc();
    let foreign = foreign_desc();
    let t = new_vtable(&shadow, &foreign);
    assert_eq!(t.reflect_type_path.runs, shadow.key);
    assert_eq!(t.get_represented_type_info.runs, shadow.key);
    assert_eq!(t.apply.runs, shadow.key);
    assert_eq!(t.reflect_ref.runs, shadow.key);
    assert_eq!(t.reflect_mut.runs, shadow.key);
    assert_eq!(t.reflect_owned.runs, shadow.key);
    assert_eq!(t.clone_value.runs, shadow.key);
    assert_eq!(t.reflect_partial_eq.runs, shadow.key);
    assert_eq!(t.debug.runs, shadow.key);
    assert_eq!(t.serializable.runs, shadow.key);
    assert_eq!(t.drop_in_place.runs, shadow.key);
}

#[test]
fn spliced_value_reports_foreign_key() {
    let v = remote_into_reflect(sample_data(), &shadow_desc(), &foreign_desc());
    assert_eq!(reported_type_key(&v), 2);
}

#[test]
fn downcast_hits_foreign_misses_shadow() {
    let v = remote_into_reflect(sample_data(), &shadow_desc(), &foreign_desc());
    assert!(downcast_ref(&v, 2).is_some());
    assert!(downcast_ref(&v, 1).is_none());
    assert_eq!(downcast_ref(&v, 2), Some(&sample_data()));
}

#[test]
fn field_access_sees_original_data() {
    let data = sample_data();
    let v = remote_into_reflect(sample_data(), &shadow_desc(), &foreign_desc());
    for field in &data.fields {
        assert_eq!(get_field(&v, &field.name), Some(&field.value));
    }
    assert_eq!(get_field(&v, &"missing".to_string()), None);
}

#[test]
fn field_lookup_takes_first_match() {
    let data = StructData {
        fields: vec![
            Field { name: "id".to_string(), value: FieldValue::UInt(1) },
            Field { name: "id".to_string(), value: FieldValue::UInt(2) },
        ],
    };
    let v = remote_into_reflect(data, &shadow_desc(), &foreign_desc());
    assert_eq!(get_field(&v, &"id".to_string()), Some(&FieldValue::UInt(1)));
}

#[test]
fn reconversion_preserves_foreign_identity() {
    let shadow = shadow_desc();
    let foreign = foreign_desc();
    let v = remote_into_reflect(sample_data(), &shadow, &foreign);
    let once = convert_owned(v);
    assert_eq!(reported_type_key(&once), foreign.key);
    let twice = convert_owned(once);
    assert_eq!(reported_type_key(&twice), foreign.key);
    assert_eq!(twice.data, sample_data());

    let spliced = new_vtable(&shadow, &foreign);
    assert_eq!(reconvert_owned(&spliced), spliced);
    assert_eq!(reconvert_ref(&spliced), spliced);
    assert_eq!(reconvert_mut(&spliced), spliced);
}

#[test]
fn splice_in_place_keeps_data() {
    let shadow = shadow_desc();
    let foreign = foreign_desc();
    let any = AnyVtable::new(&shadow);
    let common = CommonVtable::new(&shadow);
    let native = ReflectVtable::new(&shadow, any, common, common);
    let mut v = DynValue { data: sample_data(), vtable: native };
    assert_eq!(reported_type_key(&v), shadow.key);
    splice_descriptor(&mut v, &shadow, &foreign);
    assert_eq!(reported_type_key(&v), foreign.key);
    assert_eq!(v.data, sample_data());
    assert_eq!(v.vtable, new_vtable(&shadow, &foreign));
}

#[test]
fn cache_returns_same_table_twice() {
    let shadow = shadow_desc();
    let foreign = foreign_desc();
    let mut cache = DescriptorCache::new();
    assert_eq!(cache.len(), 0);
    let first = cache.get_or_build(&shadow, &foreign);
    assert_eq!(cache.len(), 1);
    let second = cache.get_or_build(&shadow, &foreign);
    assert_eq!(cache.len(), 1);
    assert_eq!(first, second);
    assert_eq!(first, new_vtable(&shadow, &foreign));

    let other_shadow = TypeDesc { key: 9, size: 16, align: 8 };
    let other_foreign = TypeDesc { key: 10, size: 16, align: 8 };
    let third = cache.get_or_build(&other_shadow, &other_foreign);
    assert_eq!(cache.len(), 2);
    assert_ne!(first, third);
    let fourth = cache.get_or_build(&other_shadow, &other_foreign);
    assert_eq!(cache.len(), 2);
    assert_eq!(third, fourth);
}

#[test]
fn scenario_shadowed_pair_with_id_and_things() {
    let shadow = shadow_desc();
    let foreign = foreign_desc();
    let data = StructData {
        fields: vec![
            Field { name: "id".to_string(), value: FieldValue::UInt(69) },
            Field {
                name: "things".to_string(),
                value: FieldValue::TextList(vec!["Book".to_string(), "Table".to_string()]),
            },
        ],
    };
    let v = remote_into_reflect(data, &shadow, &foreign);

    assert_eq!(reported_type_key(&v), foreign.key);
    assert!(downcast_ref(&v, foreign.key).is_some());
    assert!(downcast_ref(&v, shadow.key).is_none());

    match get_field(&v, &"id".to_string()) {
        Some(FieldValue::UInt(id)) => assert_eq!(*id, 69),
        other => panic!("field id came back as {:?}", other),
    }
    match get_field(&v, &"things".to_string()) {
        Some(FieldValue::TextList(things)) => {
            assert_eq!(things, &vec!["Book".to_string(), "Table".to_string()]);
        }
        other => panic!("field things came back as {:?}", other),
    }
}
