//! The engine's error taxonomy.
//!
//! Configuration errors mark an impossible binding, surfaced at first use.
//! Integrity violations mark a misaligned, null or torn pointer, a malformed
//! metadata record, or a type mismatch; they can only originate from a caller
//! or binding bug, never from untrusted input. Both categories are fatal to
//! the requested operation and leave the address space unchanged. The only
//! recoverable category is [`CustomDataAccessError`], used on the read path
//! of the side-channel data store, where "not relocated yet" is an expected
//! state.

use vstd::prelude::*;

verus! {

/// An impossible binding, detected the first time it is used.
#[derive(Copy, Clone, Debug, PartialEq, Eq, Structural)]
pub enum ConfigurationError {
    /// The binding declares a dispatch table with no slots.
    ZeroSizeTable,
    /// The binding names a module that is not registered.
    ModuleNotFound,
    /// The allocation for the private copy does not fit in the address space.
    AllocationFailed,
}

/// A violation that can only come from an invalid instance reference or a
/// corrupted metadata record.
#[derive(Copy, Clone, Debug, PartialEq, Eq, Structural)]
pub enum IntegrityViolation {
    /// A mutating or restoring access found the instance not relocated.
    NotRelocated,
    /// The instance's table pointer is not 8-byte aligned.
    NotAligned,
    /// The instance's table pointer is null.
    Null,
    /// The instance's table pointer or the stored record pointer cannot
    /// belong to a relocated block.
    PointerInvalid,
    /// The stored record pointer is null.
    NullContext,
    /// The metadata record does not carry the engine's magic tag.
    InvalidMagic,
    /// The instance was relocated as a different logical type.
    TypeMismatch,
}

/// A fatal error: either an impossible binding or an integrity violation.
#[derive(Copy, Clone, Debug, PartialEq, Eq, Structural)]
pub enum FatalError {
    Configuration(ConfigurationError),
    Integrity(IntegrityViolation),
}

/// The recoverable errors of the side-channel data read path.
#[derive(Copy, Clone, Debug, PartialEq, Eq, Structural)]
pub enum CustomDataAccessError {
    /// The instance still points at its canonical table; there is no data
    /// store yet. This is a normal, expected state.
    NotRelocated,
    /// The instance's table pointer is not 8-byte aligned.
    NotAligned,
    /// The instance's table pointer is null.
    Null,
    /// The instance's table pointer or the stored record pointer cannot
    /// belong to a relocated block.
    PointerInvalid,
    /// The stored record pointer is null.
    NullContext,
    /// The metadata record does not carry the engine's magic tag.
    InvalidMagic,
}

} // verus!
