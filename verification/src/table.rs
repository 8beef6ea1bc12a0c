//! Downcast tables: type identities, opaque pointer metadata, and the
//! identity-keyed table each concrete type registers for its exposed traits.

use vstd::prelude::*;

verus! {

/// A runtime token uniquely identifying one trait-object type at one generic
/// instantiation. Two tokens are equal exactly when they denote the same type.
#[derive(Clone, Copy, PartialEq, Eq, Structural, Hash, Debug)]
pub struct TypeId {
    token: u64,
}

impl TypeId {
    /// The raw token carried by this identity.
    pub closed spec fn spec_token(self) -> u64 {
        self.token
    }

    /// Makes the identity carrying the given token. The registration layer is
    /// responsible for handing out one token per distinct trait-object type.
    pub fn of(token: u64) -> (r: TypeId)
        ensures
            r.spec_token() == token,
    {
        TypeId { token }
    }
}

/// Untyped pointer metadata: an opaque, copyable witness that, together with
/// a data address, determines how memory at that address is viewed as one
/// specific trait-object type. The library stores and hands witnesses around
/// but never inspects them; they are meaningful only to whoever registered
/// them for a concrete type.
#[derive(Clone, Copy, PartialEq, Eq, Structural, Debug)]
pub struct AnyDynMetadata {
    witness: usize,
}

impl AnyDynMetadata {
    /// The raw witness value.
    pub closed spec fn spec_witness(self) -> usize {
        self.witness
    }

    /// Wraps a raw witness produced at registration time for one
    /// (concrete type, exposed trait) pair.
    pub fn of(witness: usize) -> (r: AnyDynMetadata)
        ensures
            r.spec_witness() == witness,
    {
        AnyDynMetadata { witness }
    }
}

/// A type identity paired with a human-readable name for diagnostics. The
/// name plays no part in lookup: two infos compare equal exactly when their
/// identities do.
#[derive(Clone, Copy, Debug)]
pub struct DynInfo {
    id: TypeId,
    name: &'static str,
}

impl DynInfo {
    /// The identity this info denotes.
    pub closed spec fn spec_type_id(self) -> TypeId {
        self.id
    }

    /// The diagnostic name, as a sequence of characters.
    pub closed spec fn spec_name(self) -> Seq<char> {
        self.name@
    }

    /// Pairs an identity with its diagnostic name.
    pub fn of(id: TypeId, name: &'static str) -> (r: DynInfo)
        ensures
            r.spec_type_id() == id,
            r.spec_name() == name@,
    {
        DynInfo { id, name }
    }

    /// The identity this info denotes.
    pub fn type_id(self) -> (r: TypeId)
        ensures
            r == self.spec_type_id(),
    {
        self.id
    }

    /// The diagnostic name.
    pub fn name(self) -> (r: &'static str)
        ensures
            r@ == self.spec_name(),
    {
        self.name
    }
}

impl PartialEq for DynInfo {
    fn eq(&self, other: &DynInfo) -> (r: bool) {
        self.id == other.id
    }
}

impl vstd::std_specs::cmp::PartialEqSpecImpl for DynInfo {
    open spec fn obeys_eq_spec() -> bool {
        true
    }

    open spec fn eq_spec(&self, other: &DynInfo) -> bool {
        self.spec_type_id() == other.spec_type_id()
    }
}

/// One entry in a concrete type's downcast table: the identity of one
/// trait-object type the concrete type can be viewed as, together with the
/// pointer metadata that produces that view.
#[derive(Clone, Copy, Debug)]
pub struct DynDynTableEntry {
    ty: DynInfo,
    meta: AnyDynMetadata,
}

impl DynDynTableEntry {
    /// The identity this entry answers to.
    pub closed spec fn spec_type_id(&self) -> TypeId {
        self.ty.spec_type_id()
    }

    /// The diagnostic name of the entry's trait-object type.
    pub closed spec fn spec_name(&self) -> Seq<char> {
        self.ty.spec_name()
    }

    /// The metadata registered for this entry.
    pub closed spec fn spec_meta(&self) -> AnyDynMetadata {
        self.meta
    }

    /// Builds the entry for one (concrete type, exposed trait) pair. Produced
    /// once at registration time, from type information alone.
    pub fn new(ty: DynInfo, meta: AnyDynMetadata) -> (r: DynDynTableEntry)
        ensures
            r.spec_type_id() == ty.spec_type_id(),
            r.spec_name() == ty.spec_name(),
            r.spec_meta() == meta,
    {
        DynDynTableEntry { ty, meta }
    }

    /// The identity of the trait-object type this entry corresponds to.
    pub fn type_id(&self) -> (r: TypeId)
        ensures
            r == self.spec_type_id(),
    {
        self.ty.type_id()
    }

    /// A human-readable name for the trait-object type of this entry.
    pub fn name(&self) -> (r: &'static str)
        ensures
            r@ == self.spec_name(),
    {
        self.ty.name()
    }
}

/// The metadata the first entry matching `id` carries, scanning left to
/// right; `None` when no entry matches. Duplicate identities are resolved by
/// first match: the registration layer is expected not to produce them.
pub open spec fn spec_find(entries: Seq<DynDynTableEntry>, id: TypeId) -> Option<AnyDynMetadata>
    decreases entries.len(),
{
    if entries.len() == 0 {
        None
    } else if entries[0].spec_type_id() == id {
        Some(entries[0].spec_meta())
    } else {
        spec_find(entries.drop_first(), id)
    }
}

/// Whether some entry matches `id`.
pub open spec fn spec_contains(entries: Seq<DynDynTableEntry>, id: TypeId) -> bool {
    exists|i: int| 0 <= i < entries.len() && entries[i].spec_type_id() == id
}

/// First match wins: when the first entry matching `id` stands at position
/// `i`, the scan returns that entry's metadata.
pub proof fn lemma_spec_find_first(entries: Seq<DynDynTableEntry>, id: TypeId, i: int)
    requires
        0 <= i < entries.len(),
        entries[i].spec_type_id() == id,
        forall|j: int| 0 <= j < i ==> entries[j].spec_type_id() != id,
    ensures
        spec_find(entries, id) == Some(entries[i].spec_meta()),
    decreases i,
{
    if i > 0 {
        assert(entries[0].spec_type_id() != id);
        assert(entries.drop_first()[i - 1] == entries[i]);
        assert(forall|j: int|
            0 <= j < i - 1 ==> entries.drop_first()[j] == entries[j + 1]);
        lemma_spec_find_first(entries.drop_first(), id, i - 1);
    }
}

/// A scan over entries none of which matches `id` finds nothing.
pub proof fn lemma_spec_find_absent(entries: Seq<DynDynTableEntry>, id: TypeId)
    requires
        forall|j: int| 0 <= j < entries.len() ==> entries[j].spec_type_id() != id,
    ensures
        spec_find(entries, id) is None,
    decreases entries.len(),
{
    if entries.len() > 0 {
        lemma_spec_find_absent(entries.drop_first(), id);
    }
}

/// The scan succeeds exactly on the identities some entry matches.
pub proof fn lemma_spec_find_some_iff_contains(entries: Seq<DynDynTableEntry>, id: TypeId)
    ensures
        (spec_find(entries, id) is Some) <==> spec_contains(entries, id),
    decreases entries.len(),
{
    if entries.len() > 0 {
        lemma_spec_find_some_iff_contains(entries.drop_first(), id);
        if entries[0].spec_type_id() != id {
            assert(forall|j: int|
                0 <= j < entries.drop_first().len()
                    ==> entries.drop_first()[j] == entries[j + 1]);
            if spec_contains(entries, id) {
                let i = choose|i: int|
                    0 <= i < entries.len() && entries[i].spec_type_id() == id;
                assert(entries.drop_first()[i - 1] == entries[i]);
            }
        }
    }
}

/// A table of the trait-object types one concrete type can be downcast to,
/// keyed by identity and scanned linearly. Built once per concrete type at
/// registration time and never mutated afterwards.
#[derive(Clone, Debug)]
pub struct DynDynTable {
    traits: Vec<DynDynTableEntry>,
}

impl View for DynDynTable {
    type V = Seq<DynDynTableEntry>;

    closed spec fn view(&self) -> Seq<DynDynTableEntry> {
        self.traits@
    }
}

impl DynDynTable {
    /// Wraps the entry sequence produced by the registration layer. No
    /// deduplication or validation happens here; a duplicate identity is
    /// resolved by first match at lookup time.
    pub fn new(traits: Vec<DynDynTableEntry>) -> (r: DynDynTable)
        ensures
            r@ == traits@,
    {
        DynDynTable { traits }
    }

    /// Finds the metadata registered under the given identity, or `None`
    /// when this table holds no entry for it.
    pub fn find_untyped(&self, type_id: TypeId) -> (r: Option<AnyDynMetadata>)
        ensures
            r == spec_find(self@, type_id),
    {
        let mut i: usize = 0;
        while i < self.traits.len()
            invariant
                0 <= i <= self.traits@.len(),
                forall|j: int| 0 <= j < i ==> self.traits@[j].spec_type_id() != type_id,
            decreases self.traits@.len() - i,
        {
            if self.traits[i].type_id() == type_id {
                let entry = self.traits[i];
                proof {
                    lemma_spec_find_first(self@, type_id, i as int);
                }
                return Some(entry.meta);
            }
            i += 1;
        }
        proof {
            lemma_spec_find_absent(self@, type_id);
        }
        None
    }

    /// The number of entries in this table.
    pub fn len(&self) -> (r: usize)
        ensures
            r == self@.len(),
    {
        self.traits.len()
    }

    /// An entry-for-entry copy of this table.
    pub fn duplicate(&self) -> (r: DynDynTable)
        ensures
            r@ == self@,
    {
        let mut traits: Vec<DynDynTableEntry> = Vec::new();
        let mut i: usize = 0;
        while i < self.traits.len()
            invariant
                0 <= i <= self.traits@.len(),
                traits@ == self.traits@.take(i as int),
            decreases self.traits@.len() - i,
        {
            traits.push(self.traits[i]);
            proof {
                assert(traits@ =~= self.traits@.take(i as int + 1));
            }
            i += 1;
        }
        proof {
            assert(traits@ =~= self.traits@);
        }
        DynDynTable { traits }
    }

    /// Unwraps this table into its sequence of entries.
    pub fn into_slice(self) -> (r: Vec<DynDynTableEntry>)
        ensures
            r@ == self@,
    {
        self.traits
    }

    /// An iterator over the entries of this table.
    pub fn into_iter(self) -> (r: DynDynTableIterator)
        ensures
            r.spec_entries() == self@,
            r.spec_pos() == 0,
    {
        DynDynTableIterator { entries: self.traits, pos: 0 }
    }
}

/// Walks the entries of a table in order.
pub struct DynDynTableIterator {
    entries: Vec<DynDynTableEntry>,
    pos: usize,
}

impl DynDynTableIterator {
    /// The entries being walked.
    pub closed spec fn spec_entries(&self) -> Seq<DynDynTableEntry> {
        self.entries@
    }

    /// How many entries have been handed out so far.
    pub closed spec fn spec_pos(&self) -> int {
        self.pos as int
    }

    /// The next entry in order, or `None` once all have been handed out.
    pub fn next(&mut self) -> (r: Option<DynDynTableEntry>)
        ensures
            final(self).spec_entries() == old(self).spec_entries(),
            old(self).spec_pos() < old(self).spec_entries().len() ==> {
                &&& r == Some(old(self).spec_entries()[old(self).spec_pos()])
                &&& final(self).spec_pos() == old(self).spec_pos() + 1
            },
            old(self).spec_pos() >= old(self).spec_entries().len() ==> {
                &&& r is None
                &&& final(self).spec_pos() == old(self).spec_pos()
            },
    {
        if self.pos < self.entries.len() {
            let entry = self.entries[self.pos];
            self.pos += 1;
            Some(entry)
        } else {
            None
        }
    }
}

} // verus!
