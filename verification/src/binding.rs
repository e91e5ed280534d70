//! Static, per-logical-type configuration of a foreign class.
//!
//! A [`ForeignObjectBinding`] says where a type's canonical dispatch table
//! lives, how strictly an instance's pointer is validated, and how large the
//! private copy and its side-channel data store are. Bindings are immutable
//! values passed explicitly into the guards; nothing is looked up through
//! ambient global state.

use vstd::prelude::*;

verus! {

/// The per-type configuration consumed by the guards.
#[derive(Copy, Clone, Debug, PartialEq, Eq, Structural)]
pub struct ForeignObjectBinding {
    /// Identifier of the module whose image holds the canonical table;
    /// `None` names the main program region.
    pub module: Option<u64>,
    /// Offset of the canonical table from the module's base address.
    pub vtable_offset: u64,
    /// With strict validation (`false`), a pointer is canonical exactly when
    /// it equals the module base plus `vtable_offset`. With relaxed
    /// validation (`true`), a pointer is canonical unless it is readable
    /// memory outside every known module.
    pub disable_offset_check: bool,
    /// Whether the canonical table is preceded by a type-info slot that the
    /// private copy must carry as well.
    pub has_type_info: bool,
    /// Identity of the logical type; recorded at relocation and demanded by
    /// every later access.
    pub type_id: u64,
    /// Number of 8-byte slots in the dispatch table.
    pub table_words: usize,
    /// Number of 8-byte words of side-channel data attached to a relocated
    /// instance.
    pub data_words: usize,
}

/// The accessor side of a binding: whether the dispatch table carries a
/// leading type-info slot. Implemented by the per-type accessor front ends
/// that surrounding code generates from a table layout.
pub trait VTableAccessor {
    /// Whether the canonical table is preceded by a type-info slot.
    spec fn type_info_spec() -> bool;

    /// Returns the fixed answer `Self::type_info_spec()`.
    fn has_leading_type_info() -> (r: bool)
        ensures
            r == Self::type_info_spec(),
    ;
}

/// A foreign class whose instances the engine may guard. Implemented by the
/// per-type front ends that surrounding code generates; each implementation
/// fixes one binding for the type.
pub trait VirtualClass {
    /// The binding that describes this type.
    spec fn binding_spec() -> ForeignObjectBinding;

    /// Returns the fixed binding `Self::binding_spec()`.
    fn binding() -> (b: ForeignObjectBinding)
        ensures
            b == Self::binding_spec(),
    ;
}

} // verus!
