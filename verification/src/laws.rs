//! The properties the downcast engine promises, stated and proved over the
//! specification functions that the executable functions' contracts are tied
//! to.

use vstd::prelude::*;

use crate::cast::spec_dyn_dyn_cast;
use crate::cast::spec_markers_admitted;
use crate::cast::DowncastRef;
use crate::fat::DynDynFat;
use crate::provider::spec_base_table;
use crate::provider::DynDynImpl;
use crate::table::lemma_spec_find_some_iff_contains;
use crate::table::spec_contains;
use crate::table::spec_find;
use crate::table::DynDynTableEntry;
use crate::table::TypeId;

verus! {

/// Soundness of a successful downcast: when the table serves some entry for
/// the requested target and the requested markers do not exceed the input's,
/// the downcast succeeds, and the view it returns carries exactly the
/// metadata registered first for the target, attached to the object's own
/// data address and typed at the requested target with the requested markers.
pub proof fn lemma_downcast_sound(
    table: Seq<DynDynTableEntry>,
    addr: usize,
    src_send: bool,
    src_sync: bool,
    target: TypeId,
    tgt_send: bool,
    tgt_sync: bool,
)
    requires
        spec_contains(table, target),
        spec_markers_admitted(src_send, src_sync, tgt_send, tgt_sync),
    ensures
        spec_find(table, target) is Some,
        spec_dyn_dyn_cast(table, addr, src_send, src_sync, target, tgt_send, tgt_sync)
            == Some(
            (DowncastRef {
                addr,
                ty: target,
                send: tgt_send,
                sync: tgt_sync,
                meta: spec_find(table, target)->0,
            }),
        ),
{
    lemma_spec_find_some_iff_contains(table, target);
}

/// Negative correctness: when the table serves no entry for the requested
/// target, the downcast fails, whatever the markers.
pub proof fn lemma_downcast_negative(
    table: Seq<DynDynTableEntry>,
    addr: usize,
    src_send: bool,
    src_sync: bool,
    target: TypeId,
    tgt_send: bool,
    tgt_sync: bool,
)
    requires
        !spec_contains(table, target),
    ensures
        spec_dyn_dyn_cast(table, addr, src_send, src_sync, target, tgt_send, tgt_sync)
            is None,
{
    lemma_spec_find_some_iff_contains(table, target);
}

/// Data-pointer identity: whenever a downcast succeeds, the address the
/// returned view points at is the address the request was made against — no
/// copying and no re-boxing happens on the way.
pub proof fn lemma_downcast_preserves_address(
    table: Seq<DynDynTableEntry>,
    addr: usize,
    src_send: bool,
    src_sync: bool,
    target: TypeId,
    tgt_send: bool,
    tgt_sync: bool,
)
    ensures
        spec_dyn_dyn_cast(table, addr, src_send, src_sync, target, tgt_send, tgt_sync)
            matches Some(d) ==> d.addr == addr,
{
}

/// Auto-trait equivalence, positive half: two inputs over the same table and
/// address whose static types both admit the requested markers produce
/// identical downcast results for the same request, however their own marker
/// assertions differ.
pub proof fn lemma_marker_equivalence(
    table: Seq<DynDynTableEntry>,
    addr: usize,
    send_a: bool,
    sync_a: bool,
    send_b: bool,
    sync_b: bool,
    target: TypeId,
    tgt_send: bool,
    tgt_sync: bool,
)
    requires
        spec_markers_admitted(send_a, sync_a, tgt_send, tgt_sync),
        spec_markers_admitted(send_b, sync_b, tgt_send, tgt_sync),
    ensures
        spec_dyn_dyn_cast(table, addr, send_a, sync_a, target, tgt_send, tgt_sync)
            == spec_dyn_dyn_cast(table, addr, send_b, sync_b, target, tgt_send, tgt_sync),
{
}

/// Auto-trait equivalence across requested marker combinations: whenever two
/// admitted requests name the same target over the same table and address,
/// they agree on success, and on success the views they return differ at most
/// in the markers they assert — same address, same target identity, same
/// metadata.
pub proof fn lemma_marker_request_core_agrees(
    table: Seq<DynDynTableEntry>,
    addr: usize,
    send_a: bool,
    sync_a: bool,
    tgt_send_a: bool,
    tgt_sync_a: bool,
    send_b: bool,
    sync_b: bool,
    tgt_send_b: bool,
    tgt_sync_b: bool,
    target: TypeId,
)
    requires
        spec_markers_admitted(send_a, sync_a, tgt_send_a, tgt_sync_a),
        spec_markers_admitted(send_b, sync_b, tgt_send_b, tgt_sync_b),
    ensures
        (spec_dyn_dyn_cast(table, addr, send_a, sync_a, target, tgt_send_a, tgt_sync_a)
            is Some) == (spec_dyn_dyn_cast(
            table,
            addr,
            send_b,
            sync_b,
            target,
            tgt_send_b,
            tgt_sync_b,
        ) is Some),
        spec_dyn_dyn_cast(table, addr, send_a, sync_a, target, tgt_send_a, tgt_sync_a)
            is Some ==> {
            let view_a = spec_dyn_dyn_cast(
                table,
                addr,
                send_a,
                sync_a,
                target,
                tgt_send_a,
                tgt_sync_a,
            )->0;
            let view_b = spec_dyn_dyn_cast(
                table,
                addr,
                send_b,
                sync_b,
                target,
                tgt_send_b,
                tgt_sync_b,
            )->0;
            &&& view_a.addr == view_b.addr
            &&& view_a.ty == view_b.ty
            &&& view_a.meta == view_b.meta
        },
{
}

/// Auto-trait equivalence, negative half: a request whose markers exceed what
/// the input's static type asserts fails, even for a registered target.
pub proof fn lemma_marker_exceeded(
    table: Seq<DynDynTableEntry>,
    addr: usize,
    src_send: bool,
    src_sync: bool,
    target: TypeId,
    tgt_send: bool,
    tgt_sync: bool,
)
    requires
        !spec_markers_admitted(src_send, src_sync, tgt_send, tgt_sync),
    ensures
        spec_dyn_dyn_cast(table, addr, src_send, src_sync, target, tgt_send, tgt_sync)
            is None,
{
}

/// Table-caching correctness: a handle that satisfies its invariant — the
/// cached table is the one its pointee serves under the handle's base —
/// answers every downcast request exactly as a fresh dynamic retrieval from
/// the pointee would, so no request made through the handle ever needs one.
pub proof fn lemma_cached_downcast_agrees(
    fat: DynDynFat,
    src_send: bool,
    src_sync: bool,
    target: TypeId,
    tgt_send: bool,
    tgt_sync: bool,
)
    requires
        fat.wf(),
    ensures
        spec_dyn_dyn_cast(
            fat.spec_table(),
            fat.spec_ptr().spec_addr(),
            src_send,
            src_sync,
            target,
            tgt_send,
            tgt_sync,
        ) == spec_dyn_dyn_cast(
            fat.spec_ptr().spec_table_for(fat.spec_base()),
            fat.spec_ptr().spec_addr(),
            src_send,
            src_sync,
            target,
            tgt_send,
            tgt_sync,
        ),
{
}

/// Multi-base independence: downcast answers are given per base. A target
/// registered under one base but not under another is found when asking
/// through the first and missed when asking through the second, against the
/// same registrations, the same address and the same markers.
pub proof fn lemma_base_independence(
    impls: Seq<DynDynImpl>,
    base_a: TypeId,
    base_b: TypeId,
    addr: usize,
    src_send: bool,
    src_sync: bool,
    target: TypeId,
    tgt_send: bool,
    tgt_sync: bool,
)
    requires
        spec_contains(spec_base_table(impls, base_a), target),
        !spec_contains(spec_base_table(impls, base_b), target),
        spec_markers_admitted(src_send, src_sync, tgt_send, tgt_sync),
    ensures
        spec_dyn_dyn_cast(
            spec_base_table(impls, base_a),
            addr,
            src_send,
            src_sync,
            target,
            tgt_send,
            tgt_sync,
        ) is Some,
        spec_dyn_dyn_cast(
            spec_base_table(impls, base_b),
            addr,
            src_send,
            src_sync,
            target,
            tgt_send,
            tgt_sync,
        ) is None,
{
    lemma_downcast_sound(
        spec_base_table(impls, base_a),
        addr,
        src_send,
        src_sync,
        target,
        tgt_send,
        tgt_sync,
    );
    lemma_downcast_negative(
        spec_base_table(impls, base_b),
        addr,
        src_send,
        src_sync,
        target,
        tgt_send,
        tgt_sync,
    );
}

} // verus!
