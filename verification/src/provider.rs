//! The table-provider capability: a model of one live concrete object that
//! can hand out, per base trait it is registered under, the downcast table of
//! its concrete type.

use vstd::prelude::*;

use crate::table::DynDynTable;
use crate::table::DynDynTableEntry;
use crate::table::TypeId;

verus! {

/// The registration of one concrete type under one base trait: the table its
/// base-capability method returns when asked through that base. Emitted once
/// at registration time, from type information alone.
#[derive(Clone, Debug)]
pub struct DynDynImpl {
    base: TypeId,
    table: DynDynTable,
}

impl DynDynImpl {
    /// The base trait this registration answers to.
    pub closed spec fn spec_base(&self) -> TypeId {
        self.base
    }

    /// The entries of the registered table.
    pub closed spec fn spec_table(&self) -> Seq<DynDynTableEntry> {
        self.table@
    }

    /// Registers `table` as the downcast table served under `base`.
    pub fn new(base: TypeId, table: DynDynTable) -> (r: DynDynImpl)
        ensures
            r.spec_base() == base,
            r.spec_table() == table@,
    {
        DynDynImpl { base, table }
    }
}

/// Whether some registration answers to `base`.
pub open spec fn spec_has_base(impls: Seq<DynDynImpl>, base: TypeId) -> bool {
    exists|i: int| 0 <= i < impls.len() && impls[i].spec_base() == base
}

/// The table of the first registration answering to `base`; the empty table
/// when none does. A concrete type carries at most one registration per base,
/// so the first match is the only one.
pub open spec fn spec_base_table(impls: Seq<DynDynImpl>, base: TypeId) -> Seq<DynDynTableEntry>
    decreases impls.len(),
{
    if impls.len() == 0 {
        Seq::empty()
    } else if impls[0].spec_base() == base {
        impls[0].spec_table()
    } else {
        spec_base_table(impls.drop_first(), base)
    }
}

/// When the first registration answering to `base` stands at position `i`,
/// that registration's table is served.
pub proof fn lemma_spec_base_table_first(impls: Seq<DynDynImpl>, base: TypeId, i: int)
    requires
        0 <= i < impls.len(),
        impls[i].spec_base() == base,
        forall|j: int| 0 <= j < i ==> impls[j].spec_base() != base,
    ensures
        spec_base_table(impls, base) == impls[i].spec_table(),
        spec_has_base(impls, base),
    decreases i,
{
    if i > 0 {
        assert(impls.drop_first()[i - 1] == impls[i]);
        assert(forall|j: int| 0 <= j < i - 1 ==> impls.drop_first()[j] == impls[j + 1]);
        lemma_spec_base_table_first(impls.drop_first(), base, i - 1);
    }
}

/// When no registration answers to `base`, none exists and the served table
/// is empty.
pub proof fn lemma_spec_base_table_absent(impls: Seq<DynDynImpl>, base: TypeId)
    requires
        forall|j: int| 0 <= j < impls.len() ==> impls[j].spec_base() != base,
    ensures
        !spec_has_base(impls, base),
        spec_base_table(impls, base) == Seq::<DynDynTableEntry>::empty(),
    decreases impls.len(),
{
    if impls.len() > 0 {
        assert(forall|j: int|
            0 <= j < impls.drop_first().len() ==> impls.drop_first()[j] == impls[j + 1]);
        lemma_spec_base_table_absent(impls.drop_first(), base);
    }
}

/// Appending a registration for a new base leaves the table served under
/// every already-registered base unchanged.
pub proof fn lemma_spec_base_table_push(impls: Seq<DynDynImpl>, base: TypeId, added: DynDynImpl)
    requires
        added.spec_base() != base,
    ensures
        spec_base_table(impls.push(added), base) == spec_base_table(impls, base),
        spec_has_base(impls.push(added), base) == spec_has_base(impls, base),
    decreases impls.len(),
{
    let pushed = impls.push(added);
    if impls.len() == 0 {
        assert(pushed[0] == added);
        assert(pushed.drop_first() =~= Seq::<DynDynImpl>::empty());
        assert(spec_base_table(impls, base) == Seq::<DynDynTableEntry>::empty());
        assert(spec_base_table(pushed.drop_first(), base)
            == Seq::<DynDynTableEntry>::empty());
        assert(spec_base_table(pushed, base) == Seq::<DynDynTableEntry>::empty());
        assert(!spec_has_base(pushed, base)) by {
            if spec_has_base(pushed, base) {
                let i = choose|i: int| 0 <= i < pushed.len() && pushed[i].spec_base() == base;
                assert(pushed[i] == added);
            }
        }
    } else {
        assert(pushed[0] == impls[0]);
        assert(pushed.drop_first() =~= impls.drop_first().push(added));
        lemma_spec_base_table_push(impls.drop_first(), base, added);
        if spec_has_base(impls, base) {
            let i = choose|i: int| 0 <= i < impls.len() && impls[i].spec_base() == base;
            assert(pushed[i] == impls[i]);
        }
        if spec_has_base(pushed, base) {
            let i = choose|i: int| 0 <= i < pushed.len() && pushed[i].spec_base() == base;
            assert(i < impls.len() && impls[i] == pushed[i]);
        }
    }
}

/// A model of one live object participating in downcasting: the address its
/// data lives at, the thread-safety capabilities of its concrete type, its
/// registrations (one table per base trait), and a count of how many times a
/// table was dynamically retrieved from it — the cost the cached-table handle
/// exists to avoid.
#[derive(Debug)]
pub struct DynDynObject {
    addr: usize,
    send: bool,
    sync: bool,
    impls: Vec<DynDynImpl>,
    table_calls: u64,
}

impl DynDynObject {
    /// The address of the object's data.
    pub closed spec fn spec_addr(&self) -> usize {
        self.addr
    }

    /// Whether the concrete type may be transferred across threads.
    pub closed spec fn spec_send(&self) -> bool {
        self.send
    }

    /// Whether the concrete type may be shared across threads.
    pub closed spec fn spec_sync(&self) -> bool {
        self.sync
    }

    /// The registrations of the object's concrete type.
    pub closed spec fn spec_impls(&self) -> Seq<DynDynImpl> {
        self.impls@
    }

    /// How many dynamic table retrievals this object has answered.
    pub closed spec fn spec_calls(&self) -> int {
        self.table_calls as int
    }

    /// Whether the object's concrete type is registered under `base`.
    pub open spec fn spec_base_registered(&self, base: TypeId) -> bool {
        spec_has_base(self.spec_impls(), base)
    }

    /// The entries of the table the object serves under `base`.
    pub open spec fn spec_table_for(&self, base: TypeId) -> Seq<DynDynTableEntry> {
        spec_base_table(self.spec_impls(), base)
    }

    /// Everything but the retrieval count agrees between `self` and `other`.
    pub open spec fn spec_same_but_calls(&self, other: &DynDynObject) -> bool {
        &&& self.spec_addr() == other.spec_addr()
        &&& self.spec_send() == other.spec_send()
        &&& self.spec_sync() == other.spec_sync()
        &&& self.spec_impls() == other.spec_impls()
    }

    /// A fresh object at `addr` whose concrete type has the given
    /// thread-safety capabilities and no registrations yet.
    pub fn new(addr: usize, send: bool, sync: bool) -> (r: DynDynObject)
        ensures
            r.spec_addr() == addr,
            r.spec_send() == send,
            r.spec_sync() == sync,
            r.spec_impls() == Seq::<DynDynImpl>::empty(),
            r.spec_calls() == 0,
    {
        DynDynObject { addr, send, sync, impls: Vec::new(), table_calls: 0 }
    }

    /// Registers `table` as the downcast table this object serves under
    /// `base`. A concrete type has at most one registration per base — the
    /// registration layer rejects duplicates before they reach the table.
    pub fn register(&mut self, base: TypeId, table: DynDynTable)
        requires
            !old(self).spec_base_registered(base),
        ensures
            final(self).spec_impls().len() == old(self).spec_impls().len() + 1,
            final(self).spec_base_registered(base),
            final(self).spec_table_for(base) == table@,
            forall|b: TypeId|
                b != base ==> #[trigger] final(self).spec_table_for(b)
                    == old(self).spec_table_for(b),
            forall|b: TypeId|
                b != base ==> #[trigger] final(self).spec_base_registered(b)
                    == old(self).spec_base_registered(b),
            final(self).spec_addr() == old(self).spec_addr(),
            final(self).spec_send() == old(self).spec_send(),
            final(self).spec_sync() == old(self).spec_sync(),
            final(self).spec_calls() == old(self).spec_calls(),
    {
        let ghost old_impls = self.impls@;
        let added = DynDynImpl::new(base, table);
        self.impls.push(added);
        proof {
            let pushed = old_impls.push(added);
            assert forall|j: int| 0 <= j < old_impls.len() implies
                old_impls[j].spec_base() != base by {
                if old_impls[j].spec_base() == base {
                    assert(spec_has_base(old_impls, base));
                }
            }
            assert(pushed[old_impls.len() as int] == added);
            assert(forall|j: int| 0 <= j < old_impls.len() ==> pushed[j] == old_impls[j]);
            lemma_spec_base_table_first(pushed, base, old_impls.len() as int);
            assert forall|b: TypeId| b != base implies
                #[trigger] spec_base_table(pushed, b) == spec_base_table(old_impls, b)
                    && spec_has_base(pushed, b) == spec_has_base(old_impls, b) by {
                lemma_spec_base_table_push(old_impls, b, added);
            }
        }
    }

    /// The base-capability method: serves the table of this object's concrete
    /// type for the given base. Each call models one dynamic dispatch through
    /// the base trait, so the retrieval count grows by one.
    pub fn get_dyn_dyn_table(&mut self, base: TypeId) -> (r: DynDynTable)
        requires
            old(self).spec_base_registered(base),
            old(self).spec_calls() < u64::MAX,
        ensures
            r@ == old(self).spec_table_for(base),
            final(self).spec_same_but_calls(old(self)),
            final(self).spec_calls() == old(self).spec_calls() + 1,
    {
        self.table_calls = self.table_calls + 1;
        let mut i: usize = 0;
        while i < self.impls.len()
            invariant
                0 <= i <= self.impls@.len(),
                forall|j: int| 0 <= j < i ==> self.impls@[j].spec_base() != base,
                spec_has_base(self.impls@, base),
                self.spec_impls() == old(self).spec_impls(),
                self.spec_addr() == old(self).spec_addr(),
                self.spec_send() == old(self).spec_send(),
                self.spec_sync() == old(self).spec_sync(),
                self.spec_calls() == old(self).spec_calls() + 1,
            decreases self.impls@.len() - i,
        {
            if self.impls[i].base == base {
                proof {
                    lemma_spec_base_table_first(self.impls@, base, i as int);
                }
                return self.impls[i].table.duplicate();
            }
            i += 1;
        }
        proof {
            lemma_spec_base_table_absent(self.impls@, base);
        }
        vstd::pervasive::unreached()
    }

    /// The address of the object's data.
    pub fn addr(&self) -> (r: usize)
        ensures
            r == self.spec_addr(),
    {
        self.addr
    }

    /// Whether the concrete type may be transferred across threads.
    pub fn is_send(&self) -> (r: bool)
        ensures
            r == self.spec_send(),
    {
        self.send
    }

    /// Whether the concrete type may be shared across threads.
    pub fn is_sync(&self) -> (r: bool)
        ensures
            r == self.spec_sync(),
    {
        self.sync
    }

    /// How many dynamic table retrievals this object has answered.
    pub fn table_calls(&self) -> (r: u64)
        ensures
            r as int == self.spec_calls(),
    {
        self.table_calls
    }

    /// Whether the object's concrete type is registered under `base`.
    pub fn has_base(&self, base: TypeId) -> (r: bool)
        ensures
            r == self.spec_base_registered(base),
    {
        let mut i: usize = 0;
        while i < self.impls.len()
            invariant
                0 <= i <= self.impls@.len(),
                forall|j: int| 0 <= j < i ==> self.impls@[j].spec_base() != base,
            decreases self.impls@.len() - i,
        {
            if self.impls[i].base == base {
                return true;
            }
            i += 1;
        }
        proof {
            lemma_spec_base_table_absent(self.impls@, base);
        }
        false
    }
}

} // verus!
