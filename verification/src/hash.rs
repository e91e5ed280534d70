//! Agent and script names as 40-bit hashes.
//!
//! The scripting runtime identifies agents, scripts and modules by a hash:
//! a CRC-32 digest of the lowercased name with the byte length of the name
//! in the bits above it. The digest itself is computed by the `hash40`
//! crate; this module names its result so that contracts can speak about it.

use vstd::prelude::*;

verus! {

/// The hash the `hash40` crate computes for a string: a function of the
/// characters alone.
pub uninterp spec fn hash40_of(s: Seq<char>) -> u64;

/// Relies on `hash40::hash40`: a CRC-32 digest of the lowercased bytes with
/// the byte length in the bits above it; it depends on the characters alone,
/// the empty string hashes to zero, and only the low 40 bits can be set.
#[verifier::external_body]
pub fn hash_str(s: &str) -> (r: u64)
    ensures
        r == hash40_of(s@),
        s@.len() == 0 ==> r == 0,
        r < 0x100_0000_0000,
{
    hash40::hash40(s).0
}

/// Values that denote an agent or script hash.
pub trait AsHash40 {
    /// The hash this value denotes.
    spec fn hash_spec(&self) -> u64;

    /// Converts the value into the hash it denotes.
    fn as_hash40(self) -> (r: u64) where Self: Sized
        ensures
            r == self.hash_spec(),
    ;
}

impl AsHash40 for u64 {
    open spec fn hash_spec(&self) -> u64 {
        *self
    }

    fn as_hash40(self) -> (r: u64) {
        self
    }
}

impl AsHash40 for &str {
    open spec fn hash_spec(&self) -> u64 {
        hash40_of(self@)
    }

    fn as_hash40(self) -> (r: u64) {
        hash_str(self)
    }
}

impl AsHash40 for String {
    open spec fn hash_spec(&self) -> u64 {
        hash40_of(self@)
    }

    fn as_hash40(self) -> (r: u64) {
        hash_str(self.as_str())
    }
}

} // verus!
