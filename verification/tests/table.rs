use dyn_dyn::cast_metadata;
use dyn_dyn::AnyDynMetadata;
use dyn_dyn::DynDynObject;
use dyn_dyn::DynDynTable;
use dyn_dyn::DynDynTableEntry;
use dyn_dyn::DynInfo;
use dyn_dyn::TypeId;

fn entry(token: u64, name: &'static str, meta: usize) -> DynDynTableEntry {
    DynDynTableEntry::new(DynInfo::of(TypeId::of(token), name), AnyDynMetadata::of(meta))
}

#[test]
fn test_type_id_tokens() {
    assert_eq!(TypeId::of(5), TypeId::of(5));
    assert_ne!(TypeId::of(5), TypeId::of(6));
}

#[test]
fn test_dyn_info_accessors() {
    let info = DynInfo::of(TypeId::of(7), "SomeTrait");
    assert_eq!(TypeId::of(7), info.type_id());
    assert_eq!("SomeTrait", info.name());
}

#[test]
fn test_dyn_info_eq_ignores_name() {
    // Equality of infos goes by identity alone; the diagnostic name is for
    // humans and plays no part in lookup.
    assert_eq!(DynInfo::of(TypeId::of(7), "OneName"), DynInfo::of(TypeId::of(7), "OtherName"));
    assert_ne!(DynInfo::of(TypeId::of(7), "SameName"), DynInfo::of(TypeId::of(8), "SameName"));
}

#[test]
fn test_entry_accessors() {
    let e = entry(9, "EntryTrait", 99);
    assert_eq!(TypeId::of(9), e.type_id());
    assert_eq!("EntryTrait", e.name());
}

#[test]
fn test_find_untyped_hit_and_miss() {
    let table = DynDynTable::new(vec![entry(1, "A", 11), entry(2, "B", 22)]);
    assert_eq!(Some(AnyDynMetadata::of(11)), table.find_untyped(TypeId::of(1)));
    assert_eq!(Some(AnyDynMetadata::of(22)), table.find_untyped(TypeId::of(2)));
    assert_eq!(None, table.find_untyped(TypeId::of(3)));
}

#[test]
fn test_find_untyped_empty_table() {
    let table = DynDynTable::new(Vec::new());
    assert_eq!(None, table.find_untyped(TypeId::of(1)));
    assert_eq!(0, table.len());
}

#[test]
fn test_find_untyped_first_match_wins() {
    // A duplicate identity should never be registered, but when it is, the
    // first entry answers.
    let table = DynDynTable::new(vec![entry(1, "A", 11), entry(1, "A", 33)]);
    assert_eq!(Some(AnyDynMetadata::of(11)), table.find_untyped(TypeId::of(1)));
}

#[test]
fn test_table_duplicate_and_into_slice() {
    let table = DynDynTable::new(vec![entry(1, "A", 11), entry(2, "B", 22)]);
    let copy = table.duplicate();
    assert_eq!(Some(AnyDynMetadata::of(11)), copy.find_untyped(TypeId::of(1)));
    assert_eq!(2, copy.len());
    let slice = table.into_slice();
    assert_eq!(2, slice.len());
    assert_eq!(TypeId::of(1), slice[0].type_id());
    assert_eq!(TypeId::of(2), slice[1].type_id());
}

#[test]
fn test_table_iterator() {
    let table = DynDynTable::new(vec![entry(1, "A", 11), entry(2, "B", 22)]);
    let mut iter = table.into_iter();
    let first = iter.next().expect("first entry");
    assert_eq!(TypeId::of(1), first.type_id());
    let second = iter.next().expect("second entry");
    assert_eq!(TypeId::of(2), second.type_id());
    assert!(iter.next().is_none());
    assert!(iter.next().is_none());
}

#[test]
fn test_cast_metadata_is_identity() {
    // Marker extension never changes the witness: markers have no data
    // representation of their own.
    assert_eq!(AnyDynMetadata::of(42), cast_metadata(AnyDynMetadata::of(42)));
}

#[test]
fn test_object_accessors_and_registration() {
    let mut obj = DynDynObject::new(0xabc, true, false);
    assert_eq!(0xabc, obj.addr());
    assert!(obj.is_send());
    assert!(!obj.is_sync());
    assert_eq!(0, obj.table_calls());
    let base = TypeId::of(1);
    assert!(!obj.has_base(base));
    obj.register(base, DynDynTable::new(vec![entry(2, "T", 5)]));
    assert!(obj.has_base(base));
    assert!(!obj.has_base(TypeId::of(9)));
}

#[test]
fn test_get_dyn_dyn_table_counts_retrievals() {
    let base = TypeId::of(1);
    let mut obj = DynDynObject::new(0x1, false, false);
    obj.register(base, DynDynTable::new(vec![entry(2, "T", 5)]));
    let table = obj.get_dyn_dyn_table(base);
    assert_eq!(1, obj.table_calls());
    assert_eq!(Some(AnyDynMetadata::of(5)), table.find_untyped(TypeId::of(2)));
    let again = obj.get_dyn_dyn_table(base);
    assert_eq!(2, obj.table_calls());
    assert_eq!(1, again.len());
}
