//! The cached-table handle: a pointer paired with a snapshot of its
//! pointee's downcast table, taken once at construction so that later
//! downcast attempts need no dynamic table retrieval. Its central invariant:
//! the cached table always describes the current pointee's concrete type.

use vstd::prelude::*;

use crate::cast::spec_dyn_dyn_cast;
use crate::cast::spec_markers_admitted;
use crate::cast::DerefHelper;
use crate::cast::DowncastRef;
use crate::provider::DynDynObject;
use crate::table::DynDynTable;
use crate::table::DynDynTableEntry;
use crate::table::TypeId;

verus! {

/// A fat pointer to an object downcastable through the base trait `base`:
/// the pointer (modelled by the object it reaches) plus the downcast table
/// cached when the handle was made or refreshed.
#[derive(Debug)]
pub struct DynDynFat {
    ptr: DynDynObject,
    base: TypeId,
    table: DynDynTable,
}

impl DynDynFat {
    /// The wrapped pointer's object.
    pub closed spec fn spec_ptr(&self) -> DynDynObject {
        self.ptr
    }

    /// The base trait the handle downcasts through.
    pub closed spec fn spec_base(&self) -> TypeId {
        self.base
    }

    /// The entries of the cached table.
    pub closed spec fn spec_table(&self) -> Seq<DynDynTableEntry> {
        self.table@
    }

    /// The handle's invariant: the pointee is registered under the handle's
    /// base, and the cached table is the one the pointee's concrete type
    /// serves under that base.
    pub open spec fn wf(&self) -> bool {
        &&& self.spec_ptr().spec_base_registered(self.spec_base())
        &&& self.spec_table() == self.spec_ptr().spec_table_for(self.spec_base())
    }

    /// Wraps a pointer together with a table the caller already holds. The
    /// caller answers for the table being the one the pointee serves under
    /// `base` at this moment; no retrieval happens.
    pub fn new_unchecked(ptr: DynDynObject, base: TypeId, table: DynDynTable) -> (r: DynDynFat)
        requires
            ptr.spec_base_registered(base),
            table@ == ptr.spec_table_for(base),
        ensures
            r.spec_ptr() == ptr,
            r.spec_base() == base,
            r.spec_table() == table@,
            r.wf(),
    {
        DynDynFat { ptr, base, table }
    }

    /// Wraps a pointer, immediately retrieving and caching the pointee's
    /// table through one dynamic dispatch call — the only one the handle will
    /// ever need while the pointee stays the same.
    pub fn new(ptr: DynDynObject, base: TypeId) -> (r: DynDynFat)
        requires
            ptr.spec_base_registered(base),
            ptr.spec_calls() < u64::MAX,
        ensures
            r.spec_ptr().spec_same_but_calls(&ptr),
            r.spec_ptr().spec_calls() == ptr.spec_calls() + 1,
            r.spec_base() == base,
            r.spec_table() == ptr.spec_table_for(base),
            r.wf(),
    {
        let mut owned = ptr;
        let table = owned.get_dyn_dyn_table(base);
        DynDynFat { ptr: owned, base, table }
    }

    /// The cached table, handed out without dereferencing the pointer — the
    /// point of the handle.
    pub fn get_dyn_dyn_table(ptr: &DynDynFat) -> (r: &DynDynTable)
        ensures
            r@ == ptr.spec_table(),
    {
        &ptr.table
    }

    /// Unwraps a handle, returning the pointer it was built around.
    pub fn unwrap(ptr: DynDynFat) -> (r: DynDynObject)
        ensures
            r == ptr.spec_ptr(),
    {
        ptr.ptr
    }

    /// Dereferences the handle, passing straight through to the pointee
    /// without touching the cached table.
    pub fn deref_fat(ptr: &DynDynFat) -> (r: &DynDynObject)
        ensures
            r == ptr.spec_ptr(),
    {
        &ptr.ptr
    }

    /// Mutably dereferences the handle, passing straight through to the
    /// pointee without touching the cached table. Nothing reachable through
    /// the returned reference can change the pointee's registrations, so the
    /// handle's invariant survives whatever the caller does with it.
    pub fn deref_mut_fat(ptr: &mut DynDynFat) -> (r: &mut DynDynObject)
        ensures
            *r == old(ptr).spec_ptr(),
            final(ptr).spec_ptr() == *final(r),
            final(ptr).spec_base() == old(ptr).spec_base(),
            final(ptr).spec_table() == old(ptr).spec_table(),
    {
        &mut ptr.ptr
    }

    /// Builds the handle for a freshly cloned pointer. `cloned` is what
    /// cloning the wrapped pointer produced; when it still dereferences to
    /// the same address, the same object is behind it — so its concrete type
    /// is unchanged and the cached table is reused without a retrieval.
    /// Otherwise the clone reaches a different object, and its table is
    /// retrieved anew through one dynamic dispatch call.
    pub fn clone_fat(ptr: &DynDynFat, cloned: DynDynObject) -> (r: DynDynFat)
        requires
            cloned.spec_base_registered(ptr.spec_base()),
            cloned.spec_calls() < u64::MAX,
            cloned.spec_addr() == ptr.spec_ptr().spec_addr()
                ==> cloned.spec_table_for(ptr.spec_base())
                    == ptr.spec_ptr().spec_table_for(ptr.spec_base()),
        ensures
            r.spec_base() == ptr.spec_base(),
            r.spec_ptr().spec_same_but_calls(&cloned),
            cloned.spec_addr() == ptr.spec_ptr().spec_addr() ==> {
                &&& r.spec_table() == ptr.spec_table()
                &&& r.spec_ptr().spec_calls() == cloned.spec_calls()
            },
            cloned.spec_addr() != ptr.spec_ptr().spec_addr() ==> {
                &&& r.spec_table() == cloned.spec_table_for(ptr.spec_base())
                &&& r.spec_ptr().spec_calls() == cloned.spec_calls() + 1
            },
            ptr.wf() ==> r.wf(),
    {
        let mut owned = cloned;
        if owned.addr() == ptr.ptr.addr() {
            DynDynFat { ptr: owned, base: ptr.base, table: ptr.table.duplicate() }
        } else {
            let table = owned.get_dyn_dyn_table(ptr.base);
            DynDynFat { ptr: owned, base: ptr.base, table }
        }
    }

    /// Builds the handle for a freshly cloned pointer without the address
    /// check, reusing the cached table. The caller answers for the clone
    /// still reaching an object of the same concrete type — expressed here by
    /// requiring that the clone serves the same table under the handle's
    /// base.
    pub fn clone_unchecked(ptr: &DynDynFat, cloned: DynDynObject) -> (r: DynDynFat)
        requires
            cloned.spec_base_registered(ptr.spec_base()),
            cloned.spec_table_for(ptr.spec_base())
                == ptr.spec_ptr().spec_table_for(ptr.spec_base()),
        ensures
            r.spec_base() == ptr.spec_base(),
            r.spec_ptr() == cloned,
            r.spec_table() == ptr.spec_table(),
            ptr.wf() ==> r.wf(),
    {
        DynDynFat { ptr: cloned, base: ptr.base, table: ptr.table.duplicate() }
    }
}

/// Downcasts through a cached-table handle accessed by shared reference. The
/// lookup uses the cached table: the pointee is not consulted, so its
/// retrieval count cannot move — the saving the handle exists for. The
/// handle's invariant makes this equivalent to retrieving the table afresh.
pub fn dyn_dyn_cast_fat(
    helper: DerefHelper,
    fat: &DynDynFat,
    target: TypeId,
    tgt_send: bool,
    tgt_sync: bool,
) -> (r: Result<DowncastRef, DerefHelper>)
    requires
        helper.spec_base() == fat.spec_base(),
        helper.spec_send() ==> fat.spec_ptr().spec_send(),
        helper.spec_sync() ==> fat.spec_ptr().spec_sync(),
    ensures
        ({
            let cast = spec_dyn_dyn_cast(
                fat.spec_table(),
                fat.spec_ptr().spec_addr(),
                helper.spec_send(),
                helper.spec_sync(),
                target,
                tgt_send,
                tgt_sync,
            );
            match cast {
                Some(d) => r == Ok::<DowncastRef, DerefHelper>(d),
                None => r == Err::<DowncastRef, DerefHelper>(helper),
            }
        }),
{
    if (tgt_send && !helper.is_send()) || (tgt_sync && !helper.is_sync()) {
        return Err(helper);
    }
    match fat.table.find_untyped(target) {
        Some(meta) => Ok(DowncastRef {
            addr: fat.ptr.addr(),
            ty: target,
            send: tgt_send,
            sync: tgt_sync,
            meta,
        }),
        None => Err(helper),
    }
}

/// Downcasts through a cached-table handle accessed by mutable reference.
/// Behaves exactly as the shared-reference form and leaves the handle
/// untouched; it exists so that both reference access modes are served.
pub fn dyn_dyn_cast_fat_mut(
    helper: DerefHelper,
    fat: &mut DynDynFat,
    target: TypeId,
    tgt_send: bool,
    tgt_sync: bool,
) -> (r: Result<DowncastRef, DerefHelper>)
    requires
        helper.spec_base() == old(fat).spec_base(),
        helper.spec_send() ==> old(fat).spec_ptr().spec_send(),
        helper.spec_sync() ==> old(fat).spec_ptr().spec_sync(),
    ensures
        *final(fat) == *old(fat),
        ({
            let cast = spec_dyn_dyn_cast(
                old(fat).spec_table(),
                old(fat).spec_ptr().spec_addr(),
                helper.spec_send(),
                helper.spec_sync(),
                target,
                tgt_send,
                tgt_sync,
            );
            match cast {
                Some(d) => r == Ok::<DowncastRef, DerefHelper>(d),
                None => r == Err::<DowncastRef, DerefHelper>(helper),
            }
        }),
{
    dyn_dyn_cast_fat(helper, fat, target, tgt_send, tgt_sync)
}

} // verus!
