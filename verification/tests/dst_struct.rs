use dyn_dyn::dyn_dyn_cast;
use dyn_dyn::AnyDynMetadata;
use dyn_dyn::DerefHelper;
use dyn_dyn::DynDynObject;
use dyn_dyn::DynDynTable;
use dyn_dyn::DynDynTableEntry;
use dyn_dyn::DynInfo;
use dyn_dyn::TypeId;

// A downcast reached through an outer wrapper around the base view behaves
// exactly as one made against the base view directly: the wrapper forwards
// the table request to the wrapped object.

#[test]
fn test_dst_struct_cast() {
    let base = TypeId::of(1);
    let test_trait = TypeId::of(2);
    let helper = DerefHelper::new_ref(base, false, false);

    // StructA participates but exposes no traits at all.
    let mut struct_a = DynDynObject::new(0x1000, false, false);
    struct_a.register(base, DynDynTable::new(Vec::new()));

    assert_eq!(
        Err(()),
        dyn_dyn_cast(helper, &mut struct_a, test_trait, false, false)
            .map(|t| t.meta)
            .map_err(|_| ())
    );

    // StructB exposes the trait, whose method answers 1234.
    let mut struct_b = DynDynObject::new(0x2000, false, false);
    struct_b.register(
        base,
        DynDynTable::new(vec![DynDynTableEntry::new(
            DynInfo::of(test_trait, "Trait"),
            AnyDynMetadata::of(1234),
        )]),
    );

    assert_eq!(
        Ok(AnyDynMetadata::of(1234)),
        dyn_dyn_cast(helper, &mut struct_b, test_trait, false, false)
            .map(|t| t.meta)
            .map_err(|_| ())
    );
}
