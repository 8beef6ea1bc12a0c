//! The lookup/dispatch engine: given an object viewed through a base trait
//! and the identity of a requested target trait (optionally with thread-
//! safety markers), retrieve the object's table, look the target up, and on a
//! hit reattach the found metadata to the object's data address.

use vstd::prelude::*;

use crate::provider::DynDynObject;
use crate::table::spec_find;
use crate::table::AnyDynMetadata;
use crate::table::DynDynTableEntry;
use crate::table::TypeId;

verus! {

/// How a downcast request accesses its input: through a shared reference,
/// through a mutable reference, or by consuming an owned pointer.
#[derive(Clone, Copy, PartialEq, Eq, Structural, Debug)]
pub enum DynDynCastType {
    Ref,
    Mut,
    Move,
}

/// The resolved description of a downcast request's input: which base trait
/// the input is viewed through, which thread-safety markers the input's
/// static type asserts, and how the input is accessed. Each access mode has
/// its own constructor; the checks that an input's shape admits the chosen
/// mode resolve to the identity here.
#[derive(Clone, Copy, PartialEq, Eq, Structural, Debug)]
pub struct DerefHelper {
    base: TypeId,
    send: bool,
    sync: bool,
    mode: DynDynCastType,
}

impl DerefHelper {
    /// The base trait the input is viewed through.
    pub closed spec fn spec_base(self) -> TypeId {
        self.base
    }

    /// Whether the input's static type asserts thread-transferability.
    pub closed spec fn spec_send(self) -> bool {
        self.send
    }

    /// Whether the input's static type asserts thread-shareability.
    pub closed spec fn spec_sync(self) -> bool {
        self.sync
    }

    /// The access mode of the input.
    pub closed spec fn spec_mode(self) -> DynDynCastType {
        self.mode
    }

    /// Describes an input accessed by consuming an owned pointer.
    pub fn new_move(base: TypeId, send: bool, sync: bool) -> (r: DerefHelper)
        ensures
            r.spec_base() == base,
            r.spec_send() == send,
            r.spec_sync() == sync,
            r.spec_mode() == DynDynCastType::Move,
    {
        DerefHelper { base, send, sync, mode: DynDynCastType::Move }
    }

    /// Describes an input accessed through a shared reference.
    pub fn new_ref(base: TypeId, send: bool, sync: bool) -> (r: DerefHelper)
        ensures
            r.spec_base() == base,
            r.spec_send() == send,
            r.spec_sync() == sync,
            r.spec_mode() == DynDynCastType::Ref,
    {
        DerefHelper { base, send, sync, mode: DynDynCastType::Ref }
    }

    /// Describes an input accessed through a mutable reference.
    pub fn new_mut(base: TypeId, send: bool, sync: bool) -> (r: DerefHelper)
        ensures
            r.spec_base() == base,
            r.spec_send() == send,
            r.spec_sync() == sync,
            r.spec_mode() == DynDynCastType::Mut,
    {
        DerefHelper { base, send, sync, mode: DynDynCastType::Mut }
    }

    /// The base trait the input is viewed through.
    pub fn base(&self) -> (r: TypeId)
        ensures
            r == self.spec_base(),
    {
        self.base
    }

    /// Whether the input's static type asserts thread-transferability.
    pub fn is_send(&self) -> (r: bool)
        ensures
            r == self.spec_send(),
    {
        self.send
    }

    /// Whether the input's static type asserts thread-shareability.
    pub fn is_sync(&self) -> (r: bool)
        ensures
            r == self.spec_sync(),
    {
        self.sync
    }

    /// The access mode of the input.
    pub fn mode(&self) -> (r: DynDynCastType)
        ensures
            r == self.spec_mode(),
    {
        self.mode
    }

    /// Admits an input that is itself a downcastable pointer; resolution is
    /// already complete, so the description passes through unchanged.
    pub fn __dyn_dyn_check_dyn_dyn(self) -> (r: DerefHelper)
        ensures
            r == self,
    {
        self
    }

    /// Admits a mutable reference to a downcastable pointer; the description
    /// passes through unchanged.
    pub fn __dyn_dyn_check_ref_mut_dyn_dyn(self) -> (r: DerefHelper)
        ensures
            r == self,
    {
        self
    }

    /// Admits a shared reference to a downcastable pointer; the description
    /// passes through unchanged.
    pub fn __dyn_dyn_check_ref_dyn_dyn(self) -> (r: DerefHelper)
        ensures
            r == self,
    {
        self
    }

    /// Admits a mutable reference to a pointer whose target is viewed through
    /// the base; the description passes through unchanged.
    pub fn __dyn_dyn_check_deref_mut(self) -> (r: DerefHelper)
        ensures
            r == self,
    {
        self
    }

    /// Admits a shared reference to a pointer whose target is viewed through
    /// the base; the description passes through unchanged.
    pub fn __dyn_dyn_check_deref(self) -> (r: DerefHelper)
        ensures
            r == self,
    {
        self
    }
}

/// A typed reference produced by a successful downcast: the data address of
/// the object it was cast from, the identity of the trait-object type it now
/// has, the thread-safety markers it carries, and the metadata that makes the
/// view usable. It shares the lifetime of the input it was cast from.
#[derive(Clone, Copy, PartialEq, Eq, Structural, Debug)]
pub struct DowncastRef {
    /// The data address the view points at.
    pub addr: usize,
    /// The identity of the trait-object type of the view.
    pub ty: TypeId,
    /// Whether the view asserts thread-transferability.
    pub send: bool,
    /// Whether the view asserts thread-shareability.
    pub sync: bool,
    /// The metadata attached to the data address.
    pub meta: AnyDynMetadata,
}

/// An owned pointer produced by a successful consuming downcast: the same
/// allocation as the input pointer, retargeted to the requested trait-object
/// type. No reference count changes hands; the object merely changes view.
#[derive(Debug)]
pub struct DowncastPtr {
    /// The object the input pointer owned, carried through unchanged.
    pub obj: DynDynObject,
    /// The identity of the trait-object type of the view.
    pub ty: TypeId,
    /// Whether the view asserts thread-transferability.
    pub send: bool,
    /// Whether the view asserts thread-shareability.
    pub sync: bool,
    /// The metadata attached to the pointer's data address.
    pub meta: AnyDynMetadata,
}

/// Reattaches metadata found for a plain trait-object type so that it serves
/// for the same trait-object type extended with thread-safety markers.
/// Markers have no data representation of their own — they never change the
/// vtable layout, only what the type system lets the resulting view do — so
/// the witness passes through unchanged.
pub fn cast_metadata(meta: AnyDynMetadata) -> (r: AnyDynMetadata)
    ensures
        r == meta,
{
    meta
}

/// Whether a request for the given target markers is admitted from an input
/// whose static type asserts the given source markers: a marker may be
/// requested on the result only when the input already asserts it.
pub open spec fn spec_markers_admitted(
    src_send: bool,
    src_sync: bool,
    tgt_send: bool,
    tgt_sync: bool,
) -> bool {
    &&& (tgt_send ==> src_send)
    &&& (tgt_sync ==> src_sync)
}

/// What a downcast returns, given the entries of the table the object serves
/// under the request's base, the object's data address, the markers the input
/// asserts, and the requested target identity and markers: `None` when the
/// requested markers exceed the input's, or when the table has no entry for
/// the target; otherwise the view made of the object's address and the first
/// matching entry's metadata.
pub open spec fn spec_dyn_dyn_cast(
    table: Seq<DynDynTableEntry>,
    addr: usize,
    src_send: bool,
    src_sync: bool,
    target: TypeId,
    tgt_send: bool,
    tgt_sync: bool,
) -> Option<DowncastRef> {
    if !spec_markers_admitted(src_send, src_sync, tgt_send, tgt_sync) {
        None
    } else {
        match spec_find(table, target) {
            Some(meta) => Some(
                (DowncastRef { addr, ty: target, send: tgt_send, sync: tgt_sync, meta }),
            ),
            None => None,
        }
    }
}

/// Downcasts an object viewed through a base trait to the requested target
/// trait, for the two reference access modes. The object's table is retrieved
/// through one dynamic dispatch call, the target identity is looked up in it,
/// and on a hit the found metadata is attached to the object's own data
/// address. On a miss the request's input description is handed back so the
/// caller can retry against another candidate, and the object is unchanged
/// but for the retrieval count.
pub fn dyn_dyn_cast(
    helper: DerefHelper,
    obj: &mut DynDynObject,
    target: TypeId,
    tgt_send: bool,
    tgt_sync: bool,
) -> (r: Result<DowncastRef, DerefHelper>)
    requires
        old(obj).spec_base_registered(helper.spec_base()),
        old(obj).spec_calls() < u64::MAX,
        helper.spec_send() ==> old(obj).spec_send(),
        helper.spec_sync() ==> old(obj).spec_sync(),
    ensures
        final(obj).spec_same_but_calls(old(obj)),
        spec_markers_admitted(helper.spec_send(), helper.spec_sync(), tgt_send, tgt_sync)
            ==> final(obj).spec_calls() == old(obj).spec_calls() + 1,
        !spec_markers_admitted(helper.spec_send(), helper.spec_sync(), tgt_send, tgt_sync)
            ==> final(obj).spec_calls() == old(obj).spec_calls(),
        ({
            let cast = spec_dyn_dyn_cast(
                old(obj).spec_table_for(helper.spec_base()),
                old(obj).spec_addr(),
                helper.spec_send(),
                helper.spec_sync(),
                target,
                tgt_send,
                tgt_sync,
            );
            match cast {
                Some(d) => r == Ok::<DowncastRef, DerefHelper>(d),
                None => r == Err::<DowncastRef, DerefHelper>(helper),
            }
        }),
{
    if (tgt_send && !helper.send) || (tgt_sync && !helper.sync) {
        return Err(helper);
    }
    let table = obj.get_dyn_dyn_table(helper.base);
    match table.find_untyped(target) {
        Some(found) => {
            let meta = cast_metadata(found);
            Ok(DowncastRef {
                addr: obj.addr(),
                ty: target,
                send: tgt_send,
                sync: tgt_sync,
                meta,
            })
        },
        None => Err(helper),
    }
}

/// Downcasts an owned pointer, consuming it. On a hit the result owns the
/// same object, retargeted to the requested trait-object type; on a miss the
/// pointer is handed back unchanged but for the retrieval count. Either way
/// the allocation survives exactly once.
pub fn dyn_dyn_cast_move(
    helper: DerefHelper,
    obj: DynDynObject,
    target: TypeId,
    tgt_send: bool,
    tgt_sync: bool,
) -> (r: Result<DowncastPtr, DynDynObject>)
    requires
        obj.spec_base_registered(helper.spec_base()),
        obj.spec_calls() < u64::MAX,
        helper.spec_send() ==> obj.spec_send(),
        helper.spec_sync() ==> obj.spec_sync(),
    ensures
        ({
            let cast = spec_dyn_dyn_cast(
                obj.spec_table_for(helper.spec_base()),
                obj.spec_addr(),
                helper.spec_send(),
                helper.spec_sync(),
                target,
                tgt_send,
                tgt_sync,
            );
            let inc: int = if spec_markers_admitted(
                helper.spec_send(),
                helper.spec_sync(),
                tgt_send,
                tgt_sync,
            ) {
                1
            } else {
                0
            };
            match r {
                Ok(p) => {
                    &&& cast == Some(
                        (DowncastRef {
                            addr: p.obj.spec_addr(),
                            ty: p.ty,
                            send: p.send,
                            sync: p.sync,
                            meta: p.meta,
                        }),
                    )
                    &&& p.obj.spec_same_but_calls(&obj)
                    &&& p.obj.spec_calls() == obj.spec_calls() + 1
                },
                Err(back) => {
                    &&& cast is None
                    &&& back.spec_same_but_calls(&obj)
                    &&& back.spec_calls() == obj.spec_calls() + inc
                },
            }
        }),
{
    let mut owned = obj;
    if (tgt_send && !helper.send) || (tgt_sync && !helper.sync) {
        return Err(owned);
    }
    let table = owned.get_dyn_dyn_table(helper.base);
    match table.find_untyped(target) {
        Some(found) => {
            let meta = cast_metadata(found);
            Ok(DowncastPtr { obj: owned, ty: target, send: tgt_send, sync: tgt_sync, meta })
        },
        None => Err(owned),
    }
}

} // verus!
