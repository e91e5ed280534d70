//! Registration of function hooks applied when a module loads.

use vstd::prelude::*;

verus! {

/// One registered hook: where to patch, where the original entry is kept,
/// and the replacement function.
#[derive(Copy, Clone, Debug, PartialEq, Eq, Structural)]
pub struct Hook {
    /// Offset of the patched function inside the loaded module.
    pub offset: u64,
    /// Address of the slot that receives the original function's address.
    pub original: u64,
    /// Address of the replacement function.
    pub function: u64,
}

/// Registers an ordinary (non-inline) hook to be applied when the target
/// module loads.
pub fn add_normal_hook(hooks: &mut Vec<Hook>, offset: u64, original: u64, function: u64)
    ensures
        final(hooks)@ == old(hooks)@.push(Hook { offset, original, function }),
{
    hooks.push(Hook { offset, original, function });
}

} // verus!
