//! Dynamic trait-object downcasting through per-type downcast tables.
//!
//! A concrete type that participates in downcasting registers, once per base
//! trait, a table mapping the identity of each exposed trait-object type to
//! the pointer metadata needed to view the object as that trait. A downcast
//! request names a target identity; the dispatch engine looks it up in the
//! table of the object's concrete type and, on a hit, reattaches the found
//! metadata to the object's data address. A cached-table handle snapshots a
//! table once so that repeated downcast attempts need no further dynamic
//! table retrievals.

mod cast;
mod fat;
mod laws;
mod provider;
mod table;

pub use cast::cast_metadata;
pub use cast::dyn_dyn_cast;
pub use cast::dyn_dyn_cast_move;
pub use cast::spec_dyn_dyn_cast;
pub use cast::spec_markers_admitted;
pub use cast::DerefHelper;
pub use cast::DowncastPtr;
pub use cast::DowncastRef;
pub use cast::DynDynCastType;
pub use fat::dyn_dyn_cast_fat;
pub use fat::dyn_dyn_cast_fat_mut;
pub use fat::DynDynFat;
pub use laws::lemma_base_independence;
pub use laws::lemma_cached_downcast_agrees;
pub use laws::lemma_downcast_negative;
pub use laws::lemma_downcast_preserves_address;
pub use laws::lemma_downcast_sound;
pub use laws::lemma_marker_equivalence;
pub use laws::lemma_marker_exceeded;
pub use laws::lemma_marker_request_core_agrees;
pub use provider::spec_base_table;
pub use provider::spec_has_base;
pub use provider::DynDynImpl;
pub use provider::DynDynObject;
pub use table::spec_contains;
pub use table::spec_find;
pub use table::AnyDynMetadata;
pub use table::DynDynTable;
pub use table::DynDynTableEntry;
pub use table::DynDynTableIterator;
pub use table::DynInfo;
pub use table::TypeId;
