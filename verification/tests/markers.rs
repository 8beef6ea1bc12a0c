use dyn_dyn::dyn_dyn_cast;
use dyn_dyn::dyn_dyn_cast_fat;
use dyn_dyn::dyn_dyn_cast_move;
use dyn_dyn::AnyDynMetadata;
use dyn_dyn::DerefHelper;
use dyn_dyn::DynDynCastType;
use dyn_dyn::DynDynFat;
use dyn_dyn::DynDynObject;
use dyn_dyn::DynDynTable;
use dyn_dyn::DynDynTableEntry;
use dyn_dyn::DynInfo;
use dyn_dyn::TypeId;

const BASE: u64 = 1;
const TRAIT: u64 = 2;
const META: usize = 77;

fn send_sync_struct() -> DynDynObject {
    let mut obj = DynDynObject::new(0x1000, true, true);
    obj.register(
        TypeId::of(BASE),
        DynDynTable::new(vec![DynDynTableEntry::new(
            DynInfo::of(TypeId::of(TRAIT), "Trait"),
            AnyDynMetadata::of(META),
        )]),
    );
    obj
}

#[test]
fn test_helper_constructors() {
    let base = TypeId::of(BASE);
    let r = DerefHelper::new_ref(base, true, false);
    assert_eq!(base, r.base());
    assert!(r.is_send());
    assert!(!r.is_sync());
    assert_eq!(DynDynCastType::Ref, r.mode());
    assert_eq!(DynDynCastType::Mut, DerefHelper::new_mut(base, false, false).mode());
    assert_eq!(DynDynCastType::Move, DerefHelper::new_move(base, false, false).mode());
    // The input-shape checks resolve to the identity once the mode is fixed.
    assert_eq!(r, r.__dyn_dyn_check_dyn_dyn());
    assert_eq!(r, r.__dyn_dyn_check_ref_mut_dyn_dyn());
    assert_eq!(r, r.__dyn_dyn_check_ref_dyn_dyn());
    assert_eq!(r, r.__dyn_dyn_check_deref_mut());
    assert_eq!(r, r.__dyn_dyn_check_deref());
}

#[test]
fn test_marker_equivalence_concrete() {
    // Four differently-marked views of the same object answer the same
    // request identically, as long as each admits the requested markers.
    let mut obj = send_sync_struct();
    let base = TypeId::of(BASE);
    let target = TypeId::of(TRAIT);
    let plain = dyn_dyn_cast(DerefHelper::new_ref(base, false, false), &mut obj, target, false, false);
    let send = dyn_dyn_cast(DerefHelper::new_ref(base, true, false), &mut obj, target, false, false);
    let sync = dyn_dyn_cast(DerefHelper::new_ref(base, false, true), &mut obj, target, false, false);
    let both = dyn_dyn_cast(DerefHelper::new_ref(base, true, true), &mut obj, target, false, false);
    let plain = plain.map_err(|_| ());
    assert_eq!(plain, send.map_err(|_| ()));
    assert_eq!(plain, sync.map_err(|_| ()));
    assert_eq!(plain, both.map_err(|_| ()));
    assert!(plain.is_ok());
}

#[test]
fn test_marker_exceeded_fails() {
    // A request whose markers exceed what the view's static type asserts is
    // refused, registered target or not.
    let mut obj = send_sync_struct();
    let base = TypeId::of(BASE);
    let target = TypeId::of(TRAIT);
    assert!(dyn_dyn_cast(DerefHelper::new_ref(base, false, false), &mut obj, target, true, false)
        .is_err());
    assert!(dyn_dyn_cast(DerefHelper::new_ref(base, false, false), &mut obj, target, false, true)
        .is_err());
    assert!(dyn_dyn_cast(DerefHelper::new_ref(base, true, false), &mut obj, target, false, true)
        .is_err());
    assert!(dyn_dyn_cast(DerefHelper::new_ref(base, false, true), &mut obj, target, true, false)
        .is_err());
    // The refusal happens before any table retrieval.
    assert_eq!(0, obj.table_calls());
}

#[test]
fn test_move_miss_returns_pointer_unchanged() {
    let obj = send_sync_struct();
    let base = TypeId::of(BASE);
    let missing = TypeId::of(999);
    match dyn_dyn_cast_move(DerefHelper::new_move(base, false, false), obj, missing, false, false) {
        Ok(_) => panic!("unregistered target must not downcast"),
        Err(back) => {
            assert_eq!(0x1000, back.addr());
            assert_eq!(1, back.table_calls());
            assert!(back.has_base(base));
        }
    }
}

#[test]
fn test_move_hit_keeps_allocation() {
    let obj = send_sync_struct();
    let base = TypeId::of(BASE);
    let target = TypeId::of(TRAIT);
    match dyn_dyn_cast_move(DerefHelper::new_move(base, true, true), obj, target, true, true) {
        Ok(ptr) => {
            assert_eq!(0x1000, ptr.obj.addr());
            assert_eq!(target, ptr.ty);
            assert!(ptr.send);
            assert!(ptr.sync);
            assert_eq!(AnyDynMetadata::of(META), ptr.meta);
        }
        Err(_) => panic!("registered target must downcast"),
    }
}

#[test]
fn test_new_unchecked_caches_given_table() {
    let obj = send_sync_struct();
    let base = TypeId::of(BASE);
    let table = DynDynTable::new(vec![DynDynTableEntry::new(
        DynInfo::of(TypeId::of(TRAIT), "Trait"),
        AnyDynMetadata::of(META),
    )]);
    let fat = DynDynFat::new_unchecked(obj, base, table);
    // No retrieval happened on the way in.
    assert_eq!(0, DynDynFat::deref_fat(&fat).table_calls());
    let r = dyn_dyn_cast_fat(
        DerefHelper::new_ref(base, false, false),
        &fat,
        TypeId::of(TRAIT),
        false,
        false,
    );
    assert_eq!(Ok(AnyDynMetadata::of(META)), r.map(|t| t.meta).map_err(|_| ()));
}

#[test]
fn test_clone_unchecked_skips_retrieval() {
    let base = TypeId::of(BASE);
    let first = DynDynFat::new(send_sync_struct(), base);
    let cloned_pointee = send_sync_struct();
    let ptr = DynDynFat::clone_unchecked(&first, cloned_pointee);
    assert_eq!(
        1,
        DynDynFat::deref_fat(&first).table_calls() + DynDynFat::deref_fat(&ptr).table_calls()
    );
    assert_eq!(
        Some(AnyDynMetadata::of(META)),
        DynDynFat::get_dyn_dyn_table(&ptr).find_untyped(TypeId::of(TRAIT))
    );
}

#[test]
fn test_fat_unwrap_and_deref_mut() {
    let base = TypeId::of(BASE);
    let mut fat = DynDynFat::new(send_sync_struct(), base);
    {
        let pointee = DynDynFat::deref_mut_fat(&mut fat);
        assert_eq!(0x1000, pointee.addr());
        // Passing through the handle leaves the cache untouched even when the
        // pointee gains a registration under another base.
        pointee.register(TypeId::of(50), DynDynTable::new(Vec::new()));
    }
    assert_eq!(
        Some(AnyDynMetadata::of(META)),
        DynDynFat::get_dyn_dyn_table(&fat).find_untyped(TypeId::of(TRAIT))
    );
    let back = DynDynFat::unwrap(fat);
    assert_eq!(1, back.table_calls());
    assert!(back.has_base(TypeId::of(50)));
}
