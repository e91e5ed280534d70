//! The side-channel data store of a relocated instance.
//!
//! Every relocated instance carries a custom data payload inside its
//! metadata record, zero-initialised at relocation time. The read accessor
//! reports violations as recoverable [`CustomDataAccessError`] values —
//! callers on that path treat "not yet relocated" as a normal state. The
//! write accessor demands an already-relocated instance and treats every
//! violation as fatal, since mutating callers are expected to have already
//! triggered relocation through a prior slot write.

use vstd::prelude::*;

use crate::binding::ForeignObjectBinding;
use crate::errors::{CustomDataAccessError, FatalError, IntegrityViolation};
use crate::guard::{
    can_resolve, canonical_check, check_record, lemma_valid_ctx, mutating_access_check,
    needs_relocation, spec_ctx_of, spec_record_words, validate_relocated, Validation,
};
use crate::world::{World, WorldView};

verus! {

/// The custom data payload of the metadata record at `ctx`: the words after
/// the magic tag, the type identifier and the original table address.
pub open spec fn payload_of(w: WorldView, ctx: u64, b: ForeignObjectBinding) -> Seq<u64> {
    Seq::new(b.data_words as nat, |k: int| w.word((ctx + 24 + 8 * k) as u64))
}

/// Whether an access with binding `b` would find a well-formed record that
/// was made for a different logical type. Such an access is an integration
/// error; the accessors demand its absence.
pub open spec fn custom_type_mismatch(w: WorldView, inst: u64, b: ForeignObjectBinding) -> bool {
    &&& can_resolve(w, b)
    &&& !needs_relocation(w, b, w.word(inst))
    &&& validate_relocated(w, b, w.word(inst)) is WrongType
}

/// Reads the custom data attached to a relocated instance.
///
/// Runs the read guard's validation, but reports violations as values:
/// an instance still on its canonical table yields `NotRelocated`, which
/// callers treat as an expected state. A record made for a different logical
/// type, and a binding whose module cannot be resolved, are integration
/// faults rather than recoverable states; callers must rule them out, as the
/// preconditions demand.
pub fn vtable_custom_data(w: &World, instance: u64, binding: &ForeignObjectBinding) -> (r: Result<
    Vec<u64>,
    CustomDataAccessError,
>)
    requires
        w@.wf(),
        can_resolve(w@, *binding),
        !custom_type_mismatch(w@, instance, *binding),
    ensures
        ({
            let ptr = w@.word(instance);
            if needs_relocation(w@, *binding, ptr) {
                r == Result::<Vec<u64>, CustomDataAccessError>::Err(
                    CustomDataAccessError::NotRelocated,
                )
            } else {
                match validate_relocated(w@, *binding, ptr) {
                    Validation::Valid => r matches Result::Ok(d) && d@ == payload_of(
                        w@,
                        spec_ctx_of(w@, *binding, ptr),
                        *binding,
                    ),
                    Validation::NotAligned => r == Result::<Vec<u64>, CustomDataAccessError>::Err(
                        CustomDataAccessError::NotAligned,
                    ),
                    Validation::Null => r == Result::<Vec<u64>, CustomDataAccessError>::Err(
                        CustomDataAccessError::Null,
                    ),
                    Validation::PointerInvalid => r == Result::<
                        Vec<u64>,
                        CustomDataAccessError,
                    >::Err(CustomDataAccessError::PointerInvalid),
                    Validation::NullContext => r == Result::<Vec<u64>, CustomDataAccessError>::Err(
                        CustomDataAccessError::NullContext,
                    ),
                    Validation::InvalidMagic => r == Result::<Vec<u64>, CustomDataAccessError>::Err(
                        CustomDataAccessError::InvalidMagic,
                    ),
                    Validation::WrongType => true,
                }
            }
        }),
{
    let ptr = w.read_word(instance);
    let needs: bool = match canonical_check(w, ptr, binding) {
        Result::Ok(n) => n,
        Result::Err(_) => {
            proof {
                assert(false);
            }
            return Result::Err(CustomDataAccessError::NotRelocated);
        },
    };
    if needs {
        return Result::Err(CustomDataAccessError::NotRelocated);
    }
    let ctx = match check_record(w, ptr, binding) {
        Result::Ok(ctx) => ctx,
        Result::Err(e) => {
            return Result::Err(
                match e {
                    IntegrityViolation::NotAligned => CustomDataAccessError::NotAligned,
                    IntegrityViolation::Null => CustomDataAccessError::Null,
                    IntegrityViolation::PointerInvalid => CustomDataAccessError::PointerInvalid,
                    IntegrityViolation::NullContext => CustomDataAccessError::NullContext,
                    _ => CustomDataAccessError::InvalidMagic,
                },
            );
        },
    };
    let mut data: Vec<u64> = Vec::new();
    let mut k: usize = 0;
    while k < binding.data_words
        invariant
            w@.wf(),
            validate_relocated(w@, *binding, ptr) is Valid,
            ctx == spec_ctx_of(w@, *binding, ptr),
            ctx + 8 * spec_record_words(*binding) <= u64::MAX,
            0 <= k <= binding.data_words,
            data@ == payload_of(w@, ctx, *binding).take(k as int),
        decreases binding.data_words - k,
    {
        let word = w.read_word(ctx + 24 + 8 * (k as u64));
        data.push(word);
        proof {
            assert(data@ =~= payload_of(w@, ctx, *binding).take(k as int + 1));
        }
        k += 1;
    }
    proof {
        assert(data@ =~= payload_of(w@, ctx, *binding));
    }
    Result::Ok(data)
}

/// The address space after a write into an instance's custom data: one word
/// of the payload overwritten when the validation passed, untouched
/// otherwise.
pub open spec fn custom_write_world(
    w: WorldView,
    inst: u64,
    b: ForeignObjectBinding,
    index: int,
    value: u64,
) -> WorldView {
    match mutating_access_check(w, inst, b) {
        Result::Ok(ctx) => {
            let a = (ctx + 24 + 8 * index) as u64;
            let next1 = if a + 8 > w.next {
                (a + 8) as u64
            } else {
                w.next
            };
            WorldView { mem: w.mem.insert(a, value), next: next1, ..w }
        },
        Result::Err(_) => w,
    }
}

/// Writes one word of the custom data attached to a relocated instance.
///
/// Runs the same validation as the mutation guard on an already-relocated
/// instance; every violation — including an instance that was never
/// relocated — is fatal, and the address space is left unchanged.
pub fn vtable_custom_data_mut(
    w: &mut World,
    instance: u64,
    binding: &ForeignObjectBinding,
    index: usize,
    value: u64,
) -> (r: Result<(), FatalError>)
    requires
        old(w)@.wf(),
        index < binding.data_words,
    ensures
        final(w)@ == custom_write_world(old(w)@, instance, *binding, index as int, value),
        r == (match mutating_access_check(old(w)@, instance, *binding) {
            Result::Ok(_) => Result::<(), FatalError>::Ok(()),
            Result::Err(e) => Result::<(), FatalError>::Err(e),
        }),
        final(w)@.wf(),
{
    let ghost w0 = w@;
    let ptr = w.read_word(instance);
    let needs: bool = match canonical_check(w, ptr, binding) {
        Result::Ok(n) => n,
        Result::Err(e) => {
            return Result::Err(FatalError::Configuration(e));
        },
    };
    if needs {
        return Result::Err(FatalError::Integrity(IntegrityViolation::NotRelocated));
    }
    let ctx = match check_record(w, ptr, binding) {
        Result::Ok(ctx) => ctx,
        Result::Err(e) => {
            return Result::Err(FatalError::Integrity(e));
        },
    };
    let a = ctx + 24 + 8 * (index as u64);
    proof {
        lemma_valid_ctx(w0, *binding, ptr);
        assert(a % 8 == 0) by (nonlinear_arith)
            requires
                ctx % 8 == 0,
                a == ctx + 24 + 8 * (index as u64),
                ctx + 24 + 8 * (index as int) <= u64::MAX,
        ;
    }
    w.write_word(a, value);
    Result::Ok(())
}

} // verus!
