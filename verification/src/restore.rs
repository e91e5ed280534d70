//! Restoration: the inverse of relocation.
//!
//! Restoring a relocated instance writes the original table address kept in
//! its metadata record back into the instance's leading word, then frees the
//! private block and the record. The instance is afterwards
//! indistinguishable from one that was never touched.

use vstd::prelude::*;

use crate::binding::ForeignObjectBinding;
use crate::errors::{FatalError, IntegrityViolation};
use crate::guard::{
    canonical_check, check_record, lemma_valid_ctx, mutating_access_check, spec_block_words,
    spec_ctx_back, spec_record_words,
};
use crate::world::{lemma_remove_words_push, remove_words, wsub, World, WorldView};

verus! {

/// What restoration returns: the shared already-relocated validation, then a
/// range check that the block to be freed lies within the address space.
pub open spec fn restore_check(w: WorldView, inst: u64, b: ForeignObjectBinding) -> Result<
    u64,
    FatalError,
> {
    match mutating_access_check(w, inst, b) {
        Result::Ok(ctx) => {
            if w.word(inst) + 8 * b.table_words > u64::MAX {
                Result::Err(FatalError::Integrity(IntegrityViolation::PointerInvalid))
            } else {
                Result::Ok(ctx)
            }
        },
        Result::Err(e) => Result::Err(e),
    }
}

/// The address space after restoration: the block and the record unmapped,
/// and the instance's pointer reset to the recorded original table address.
pub open spec fn restore_world(w: WorldView, inst: u64, b: ForeignObjectBinding) -> WorldView {
    match restore_check(w, inst, b) {
        Result::Ok(ctx) => {
            let ptr = w.word(inst);
            let original = w.word((ctx + 16) as u64);
            let block = wsub(ptr, spec_ctx_back(b));
            let mem1 = remove_words(w.mem, block, spec_block_words(b) as nat);
            let mem2 = remove_words(mem1, ctx, spec_record_words(b) as nat);
            let mem3 = mem2.insert(inst, original);
            let next1 = if inst + 8 > w.next {
                (inst + 8) as u64
            } else {
                w.next
            };
            WorldView { mem: mem3, next: next1, ..w }
        },
        Result::Err(_) => w,
    }
}

/// Reverses a relocation.
///
/// Validates the instance exactly as a mutating access does — an instance
/// still on its canonical table is a fatal violation — then writes the
/// recorded original table address back into the instance's leading word and
/// unmaps the private block and the metadata record, whose sizes are
/// recomputed from the binding exactly as relocation computed them.
pub fn vtable_restore_vtable(w: &mut World, instance: u64, binding: &ForeignObjectBinding) -> (r:
    Result<(), FatalError>)
    requires
        old(w)@.wf(),
        instance % 8 == 0,
        instance + 8 <= u64::MAX,
    ensures
        final(w)@ == restore_world(old(w)@, instance, *binding),
        r == (match restore_check(old(w)@, instance, *binding) {
            Result::Ok(_) => Result::<(), FatalError>::Ok(()),
            Result::Err(e) => Result::<(), FatalError>::Err(e),
        }),
        final(w)@.wf(),
{
    let ghost w0 = w@;
    let ptr = w.read_word(instance);
    let needs: bool = match canonical_check(w, ptr, binding) {
        Result::Ok(n) => n,
        Result::Err(e) => {
            return Result::Err(FatalError::Configuration(e));
        },
    };
    if needs {
        return Result::Err(FatalError::Integrity(IntegrityViolation::NotRelocated));
    }
    let ctx = match check_record(w, ptr, binding) {
        Result::Ok(ctx) => ctx,
        Result::Err(e) => {
            return Result::Err(FatalError::Integrity(e));
        },
    };
    if (ptr as u128) + 8 * (binding.table_words as u128) > (u64::MAX as u128) {
        return Result::Err(FatalError::Integrity(IntegrityViolation::PointerInvalid));
    }
    proof {
        lemma_valid_ctx(w0, *binding, ptr);
    }
    let original = w.read_word(ctx + 16);
    let back: u64 = if binding.has_type_info {
        16
    } else {
        8
    };
    let block = ptr.wrapping_sub(back);
    let ti: u64 = if binding.has_type_info {
        1
    } else {
        0
    };

    // Unmap the block: record pointer, optional type-info slot, table copy.
    let block_len: u64 = 1 + ti + (binding.table_words as u64);
    proof {
        assert(block + 8 * spec_block_words(*binding) <= u64::MAX);
    }
    let mut t: u64 = 0;
    while t < block_len
        invariant
            w@.wf(),
            0 <= t <= block_len,
            block_len == spec_block_words(*binding),
            block + 8 * spec_block_words(*binding) <= u64::MAX,
            w@.mem == remove_words(w0.mem, block, t as nat),
            w@.modules == w0.modules,
            w@.main_base == w0.main_base,
            w@.main_size == w0.main_size,
            w@.next == w0.next,
        decreases block_len - t,
    {
        w.unmap_word(block + 8 * t);
        proof {
            lemma_remove_words_push(w0.mem, block, t as nat);
        }
        t += 1;
    }

    // Unmap the metadata record: magic tag, type identifier, original table
    // address, custom data payload.
    let ghost mem1 = w@.mem;
    let record_len: u64 = 3 + (binding.data_words as u64);
    let mut t2: u64 = 0;
    while t2 < record_len
        invariant
            w@.wf(),
            0 <= t2 <= record_len,
            record_len == spec_record_words(*binding),
            ctx + 8 * spec_record_words(*binding) <= u64::MAX,
            w@.mem == remove_words(mem1, ctx, t2 as nat),
            w@.modules == w0.modules,
            w@.main_base == w0.main_base,
            w@.main_size == w0.main_size,
            w@.next == w0.next,
        decreases record_len - t2,
    {
        w.unmap_word(ctx + 8 * t2);
        proof {
            lemma_remove_words_push(mem1, ctx, t2 as nat);
        }
        t2 += 1;
    }

    // Reset the instance's pointer to the original table address.
    w.write_word(instance, original);
    Result::Ok(())
}

} // verus!
