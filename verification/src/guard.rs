//! The interception and relocation engine.
//!
//! A guard inspects the leading word of an instance — its dispatch-table
//! pointer — and decides whether the instance still points at the shared
//! canonical table of its logical type. The mutation guard gives such an
//! instance a private, heap-owned copy of the table on its first mutating
//! access; every later access, reading or writing, validates the metadata
//! record attached to the copy and demands the logical type recorded at
//! relocation time.
//!
//! A relocated block is one contiguous allocation:
//!
//! ```text
//! [record pointer][type-info slot, if any][copy of the dispatch table]
//! ```
//!
//! followed here by the metadata record itself:
//!
//! ```text
//! [magic tag][type identifier][original table address][custom data ...]
//! ```
//!
//! The instance's pointer is moved to the first word of the table copy, so
//! the record pointer always sits 8 bytes (or 16, with a type-info slot)
//! before the address the instance holds.

use vstd::prelude::*;

use crate::binding::ForeignObjectBinding;
use crate::errors::{ConfigurationError, FatalError, IntegrityViolation};
use crate::world::{
    lemma_store_words_push, store_words, wadd, wmul, wsub, MemoryState, World, WorldView,
};

verus! {

/// The tag `"VRTMANIP"` read as one little-endian word; it marks every
/// metadata record the engine allocates.
pub const CUSTOM_VTABLE_MAGIC: u64 = 0x50494E414D545256;

/// Distance in bytes from the table copy back to the block base: one word
/// for the record pointer, plus one for the type-info slot if present.
pub open spec fn spec_ctx_back(b: ForeignObjectBinding) -> u64 {
    if b.has_type_info {
        16
    } else {
        8
    }
}

/// Words in a relocated block: record pointer, optional type-info slot, and
/// the table copy.
pub open spec fn spec_block_words(b: ForeignObjectBinding) -> int {
    1 + (if b.has_type_info {
        1int
    } else {
        0int
    }) + b.table_words
}

/// Words in a metadata record: magic tag, type identifier, original table
/// address, and the custom data payload.
pub open spec fn spec_record_words(b: ForeignObjectBinding) -> int {
    3 + b.data_words
}

/// Words one relocation allocates in all.
pub open spec fn spec_total_words(b: ForeignObjectBinding) -> int {
    spec_block_words(b) + spec_record_words(b)
}

/// Whether the binding's module can be resolved; with relaxed validation no
/// resolution is consulted.
pub open spec fn can_resolve(w: WorldView, b: ForeignObjectBinding) -> bool {
    b.disable_offset_check || w.resolve_base(b.module) is Some
}

/// Whether a table pointer still counts as canonical, so that a mutating
/// access must first relocate. Strict validation compares against the
/// module base plus the configured offset; relaxed validation treats every
/// pointer as canonical unless it is readable memory outside all known
/// modules.
pub open spec fn needs_relocation(w: WorldView, b: ForeignObjectBinding, ptr: u64) -> bool {
    if b.disable_offset_check {
        w.classify(ptr) != MemoryState::DereferencableOutsideModule
    } else {
        match w.resolve_base(b.module) {
            Option::Some(base) => ptr == base + b.vtable_offset,
            Option::None => false,
        }
    }
}

/// Outcome of validating a pointer that is no longer canonical.
pub ghost enum Validation {
    NotAligned,
    Null,
    PointerInvalid,
    NullContext,
    InvalidMagic,
    WrongType,
    Valid,
}

/// The metadata-record address stored one (or two) words before the table
/// copy the instance points at.
pub open spec fn spec_ctx_of(w: WorldView, b: ForeignObjectBinding, ptr: u64) -> u64 {
    w.word(wsub(ptr, spec_ctx_back(b)))
}

/// Validation of an already-relocated pointer: alignment, null and range
/// checks on the pointer itself, then the stored record pointer, its magic
/// tag, and the recorded type identifier. With a leading type-info slot, a
/// pointer within the first sixteen table words of the address space cannot
/// belong to a relocated block and is rejected outright.
pub open spec fn validate_relocated(w: WorldView, b: ForeignObjectBinding, ptr: u64) -> Validation {
    if ptr % 8 != 0 {
        Validation::NotAligned
    } else if ptr == 0 {
        Validation::Null
    } else if b.has_type_info && ptr < 0x80 {
        Validation::PointerInvalid
    } else {
        let ctx = spec_ctx_of(w, b, ptr);
        if ctx == 0 {
            Validation::NullContext
        } else if ctx + 8 * spec_record_words(b) > u64::MAX {
            Validation::PointerInvalid
        } else if w.word(ctx) != CUSTOM_VTABLE_MAGIC {
            Validation::InvalidMagic
        } else if w.word((ctx + 8) as u64) != b.type_id {
            Validation::WrongType
        } else {
            Validation::Valid
        }
    }
}

/// The integrity violation a failed validation reports.
pub open spec fn violation_of(v: Validation) -> IntegrityViolation {
    match v {
        Validation::NotAligned => IntegrityViolation::NotAligned,
        Validation::Null => IntegrityViolation::Null,
        Validation::PointerInvalid => IntegrityViolation::PointerInvalid,
        Validation::NullContext => IntegrityViolation::NullContext,
        Validation::InvalidMagic => IntegrityViolation::InvalidMagic,
        Validation::WrongType => IntegrityViolation::TypeMismatch,
        Validation::Valid => IntegrityViolation::TypeMismatch,
    }
}

/// Whether the allocation a relocation needs fits below the top of the
/// address space.
pub open spec fn reloc_fits(w: WorldView, b: ForeignObjectBinding) -> bool {
    w.next + 8 * spec_total_words(b) <= u64::MAX
}

/// The words of the canonical table, read from `ptr`.
pub open spec fn spec_table_src(w: WorldView, ptr: u64, n: int) -> Seq<u64> {
    Seq::new(n as nat, |j: int| w.word(wadd(ptr, (8 * j) as u64)))
}

/// `n` zero words: the default value of the custom data payload.
pub open spec fn zero_words(n: int) -> Seq<u64> {
    Seq::new(n as nat, |j: int| 0u64)
}

/// Address of the metadata record a relocation allocates: right after the
/// block.
pub open spec fn reloc_ctx_addr(w: WorldView, b: ForeignObjectBinding) -> u64 {
    (w.next + 8 * spec_block_words(b)) as u64
}

/// The table-copy address a relocation moves the instance's pointer to.
pub open spec fn reloc_new_ptr(w: WorldView, b: ForeignObjectBinding) -> u64 {
    (w.next + spec_ctx_back(b)) as u64
}

/// Every word one relocation stores, in address order from the block base:
/// the block, then the metadata record.
pub open spec fn reloc_words(w: WorldView, b: ForeignObjectBinding, ptr: u64) -> Seq<u64> {
    let head = if b.has_type_info {
        seq![reloc_ctx_addr(w, b), w.word(wsub(ptr, 8))]
    } else {
        seq![reloc_ctx_addr(w, b)]
    };
    head + spec_table_src(w, ptr, b.table_words as int) + seq![CUSTOM_VTABLE_MAGIC, b.type_id, ptr]
        + zero_words(b.data_words as int)
}

/// The address space after one relocation of the instance at `inst`.
pub open spec fn reloc_world(w: WorldView, inst: u64, b: ForeignObjectBinding) -> WorldView {
    let ptr = w.word(inst);
    let block = w.next;
    let mem1 = store_words(w.mem, block, reloc_words(w, b, ptr)).insert(inst, reloc_new_ptr(w, b));
    let bumped = (block + 8 * spec_total_words(b)) as u64;
    let next1 = if inst + 8 > bumped {
        (inst + 8) as u64
    } else {
        bumped
    };
    WorldView { mem: mem1, next: next1, ..w }
}

/// The shared validation of every operation that demands an
/// already-relocated instance: module resolution, the canonical-pointer
/// test (which such an operation treats as a violation), and the record
/// checks. Returns the record's address.
pub open spec fn mutating_access_check(w: WorldView, inst: u64, b: ForeignObjectBinding) -> Result<
    u64,
    FatalError,
> {
    let ptr = w.word(inst);
    if !can_resolve(w, b) {
        Result::Err(FatalError::Configuration(ConfigurationError::ModuleNotFound))
    } else if needs_relocation(w, b, ptr) {
        Result::Err(FatalError::Integrity(IntegrityViolation::NotRelocated))
    } else {
        match validate_relocated(w, b, ptr) {
            Validation::Valid => Result::Ok(spec_ctx_of(w, b, ptr)),
            v => Result::Err(FatalError::Integrity(violation_of(v))),
        }
    }
}

/// A record that passed the magic-tag check is mapped memory, hence aligned
/// and bounded.
pub proof fn lemma_valid_ctx(w: WorldView, b: ForeignObjectBinding, ptr: u64)
    requires
        w.wf(),
        validate_relocated(w, b, ptr) is Valid || validate_relocated(w, b, ptr) is WrongType,
    ensures
        ({
            let ctx = spec_ctx_of(w, b, ptr);
            &&& w.mem.contains_key(ctx)
            &&& ctx % 8 == 0
            &&& ctx + 8 <= w.next
            &&& ctx != 0
            &&& ctx + 8 * spec_record_words(b) <= u64::MAX
        }),
{
    let ctx = spec_ctx_of(w, b, ptr);
    assert(w.word(ctx) == CUSTOM_VTABLE_MAGIC);
    assert(CUSTOM_VTABLE_MAGIC != 0);
    assert(w.mem.contains_key(ctx));
}

/// What the mutation guard returns: the canonical-pointer test and, along
/// each path, exactly the checks the guard makes in order.
pub open spec fn mutation_check(w: WorldView, inst: u64, b: ForeignObjectBinding) -> Result<
    (),
    FatalError,
> {
    let ptr = w.word(inst);
    if ptr % 8 != 0 {
        Result::Err(FatalError::Integrity(IntegrityViolation::NotAligned))
    } else if !can_resolve(w, b) {
        Result::Err(FatalError::Configuration(ConfigurationError::ModuleNotFound))
    } else if needs_relocation(w, b, ptr) {
        if b.table_words == 0 {
            Result::Err(FatalError::Configuration(ConfigurationError::ZeroSizeTable))
        } else if !reloc_fits(w, b) {
            Result::Err(FatalError::Configuration(ConfigurationError::AllocationFailed))
        } else {
            Result::Ok(())
        }
    } else {
        match validate_relocated(w, b, ptr) {
            Validation::Valid => Result::Ok(()),
            v => Result::Err(FatalError::Integrity(violation_of(v))),
        }
    }
}

/// The address space after the mutation guard: relocated exactly when the
/// pointer was canonical and every check passed, untouched otherwise.
pub open spec fn mutation_world(w: WorldView, inst: u64, b: ForeignObjectBinding) -> WorldView {
    if mutation_check(w, inst, b) is Ok && needs_relocation(w, b, w.word(inst)) {
        reloc_world(w, inst, b)
    } else {
        w
    }
}

/// Resolves the binding's module and answers the canonical-pointer test.
pub(crate) fn canonical_check(w: &World, ptr: u64, binding: &ForeignObjectBinding) -> (r: Result<
    bool,
    ConfigurationError,
>)
    ensures
        r == (if can_resolve(w@, *binding) {
            Result::<bool, ConfigurationError>::Ok(needs_relocation(w@, *binding, ptr))
        } else {
            Result::<bool, ConfigurationError>::Err(ConfigurationError::ModuleNotFound)
        }),
{
    if binding.disable_offset_check {
        let state = w.classify(ptr);
        Result::Ok(!(state == MemoryState::DereferencableOutsideModule))
    } else {
        match w.resolve_module_base(binding.module) {
            Option::Some(base) => Result::Ok(
                (ptr as u128) == (base as u128) + (binding.vtable_offset as u128),
            ),
            Option::None => Result::Err(ConfigurationError::ModuleNotFound),
        }
    }
}

/// Guard for a mutating access to an instance's dispatch table.
///
/// `instance` is the address of the instance's leading word, which holds its
/// table pointer. If that pointer is still canonical for `binding`, the
/// guard allocates a private block, copies the type-info slot (if any) and
/// the table, attaches a metadata record tagged with
/// [`CUSTOM_VTABLE_MAGIC`], the binding's type identifier, the original
/// table address, and a zeroed custom data payload, and moves the instance's
/// pointer to the private copy. If the pointer is not canonical, the guard
/// only validates the existing record and changes nothing.
pub fn vtable_mutation_guard(w: &mut World, instance: u64, binding: &ForeignObjectBinding) -> (r:
    Result<(), FatalError>)
    requires
        old(w)@.wf(),
        instance % 8 == 0,
        instance + 8 <= u64::MAX,
    ensures
        final(w)@ == mutation_world(old(w)@, instance, *binding),
        r == mutation_check(old(w)@, instance, *binding),
        final(w)@.wf(),
{
    let ghost w0 = w@;
    let ptr = w.read_word(instance);
    if ptr % 8 != 0 {
        return Result::Err(FatalError::Integrity(IntegrityViolation::NotAligned));
    }
    let needs: bool = match canonical_check(w, ptr, binding) {
        Result::Ok(n) => n,
        Result::Err(e) => {
            return Result::Err(FatalError::Configuration(e));
        },
    };
    if needs {
        if binding.table_words == 0 {
            return Result::Err(FatalError::Configuration(ConfigurationError::ZeroSizeTable));
        }
        let ti: u64 = if binding.has_type_info {
            1
        } else {
            0
        };
        let total_128: u128 = 4 + (ti as u128) + (binding.table_words as u128) + (
        binding.data_words as u128);
        let block = w.alloc_frontier();
        if (block as u128) + 8 * total_128 > (u64::MAX as u128) {
            return Result::Err(FatalError::Configuration(ConfigurationError::AllocationFailed));
        }
        assert(reloc_fits(w0, *binding));
        let total = total_128 as u64;
        let ctx_addr = block + 8 * (1 + ti + (binding.table_words as u64));
        assert(ctx_addr == reloc_ctx_addr(w0, *binding));

        // Gather every word to store before writing anything, so all source
        // reads see the address space as it was on entry.
        let mut ws: Vec<u64> = Vec::new();
        ws.push(ctx_addr);
        if binding.has_type_info {
            ws.push(w.read_word(ptr.wrapping_sub(8)));
        }
        let ghost head_len: int = 1 + (if binding.has_type_info {
            1int
        } else {
            0int
        });
        let mut j: usize = 0;
        while j < binding.table_words
            invariant
                w@ == w0,
                w0.wf(),
                reloc_fits(w0, *binding),
                0 <= j <= binding.table_words,
                head_len == (if binding.has_type_info {
                    2int
                } else {
                    1int
                }),
                ws@.len() == head_len + j,
                ws@.take(head_len) == reloc_words(w0, *binding, ptr).take(head_len),
                ws@.skip(head_len) == spec_table_src(w0, ptr, j as int),
            decreases binding.table_words - j,
        {
            assert(8 * (j as int) < 8 * spec_total_words(*binding));
            let ghost ws_pre = ws@;
            let word = w.read_word(ptr.wrapping_add(8 * (j as u64)));
            ws.push(word);
            proof {
                assert(ws@.take(head_len) =~= ws_pre.take(head_len));
                assert(ws@.skip(head_len) =~= spec_table_src(w0, ptr, j as int).push(word));
                assert(spec_table_src(w0, ptr, j as int).push(word) =~= spec_table_src(
                    w0,
                    ptr,
                    j as int + 1,
                ));
            }
            j += 1;
        }
        ws.push(CUSTOM_VTABLE_MAGIC);
        ws.push(binding.type_id);
        ws.push(ptr);
        proof {
            assert(ws@ =~= reloc_words(w0, *binding, ptr).take(spec_block_words(*binding) + 3));
        }
        let mut k: usize = 0;
        while k < binding.data_words
            invariant
                w@ == w0,
                w0.wf(),
                reloc_fits(w0, *binding),
                0 <= k <= binding.data_words,
                ws@.len() == spec_block_words(*binding) + 3 + k,
                ws@ == reloc_words(w0, *binding, ptr).take(spec_block_words(*binding) + 3 + k),
            decreases binding.data_words - k,
        {
            let ghost ws_pre = ws@;
            ws.push(0);
            proof {
                let all = reloc_words(w0, *binding, ptr);
                let n = spec_block_words(*binding) + 3 + k;
                assert(all[n] == 0) by {
                    assert(all.len() == spec_total_words(*binding));
                    assert(all[n] == zero_words(binding.data_words as int)[k as int]);
                }
                assert(ws@ =~= all.take(n + 1));
            }
            k += 1;
        }
        proof {
            assert(ws@ =~= reloc_words(w0, *binding, ptr));
        }

        // Store the block and the record contiguously at the allocation
        // frontier, then repoint the instance at the table copy.
        let total_len = ws.len();
        let mut t: usize = 0;
        while t < total_len
            invariant
                w0.wf(),
                w@.wf(),
                reloc_fits(w0, *binding),
                ws@ == reloc_words(w0, *binding, ptr),
                total_len == ws.len(),
                total_len == spec_total_words(*binding),
                block == w0.next,
                0 <= t <= total_len,
                w@.mem == store_words(w0.mem, block, ws@.take(t as int)),
                w@.modules == w0.modules,
                w@.main_base == w0.main_base,
                w@.main_size == w0.main_size,
                w@.next == (if t == 0 {
                    block as int
                } else {
                    block + 8 * t
                }),
            decreases total_len - t,
        {
            let a = block + 8 * (t as u64);
            proof {
                assert(a % 8 == 0) by (nonlinear_arith)
                    requires
                        block % 8 == 0,
                        a == block + 8 * (t as u64),
                        block + 8 * (t as int) <= u64::MAX,
                ;
            }
            let value = ws[t];
            w.write_word(a, value);
            proof {
                lemma_store_words_push(w0.mem, block, ws@.take(t as int), value);
                assert(ws@.take(t as int).push(value) =~= ws@.take(t as int + 1));
            }
            t += 1;
        }
        let new_ptr = block + 8 * (1 + ti);
        w.write_word(instance, new_ptr);
        proof {
            assert(ws@.take(total_len as int) =~= ws@);
            assert(new_ptr == reloc_new_ptr(w0, *binding));
            assert(w@.mem =~= reloc_world(w0, instance, *binding).mem);
            assert(w@ == reloc_world(w0, instance, *binding));
        }
        return Result::Ok(());
    }
    // Already relocated: validate the metadata record without touching
    // anything.
    match check_record(w, ptr, binding) {
        Result::Ok(_) => Result::Ok(()),
        Result::Err(e) => Result::Err(FatalError::Integrity(e)),
    }
}

/// Validates the metadata record of an already-relocated pointer and returns
/// the record's address.
pub(crate) fn check_record(w: &World, ptr: u64, binding: &ForeignObjectBinding) -> (r: Result<
    u64,
    IntegrityViolation,
>)
    ensures
        r == (match validate_relocated(w@, *binding, ptr) {
            Validation::Valid => Result::<u64, IntegrityViolation>::Ok(
                spec_ctx_of(w@, *binding, ptr),
            ),
            v => Result::<u64, IntegrityViolation>::Err(violation_of(v)),
        }),
{
    if ptr % 8 != 0 {
        return Result::Err(IntegrityViolation::NotAligned);
    }
    if ptr == 0 {
        return Result::Err(IntegrityViolation::Null);
    }
    if binding.has_type_info && ptr < 0x80 {
        return Result::Err(IntegrityViolation::PointerInvalid);
    }
    let back: u64 = if binding.has_type_info {
        16
    } else {
        8
    };
    let ctx = w.read_word(ptr - back);
    if ctx == 0 {
        return Result::Err(IntegrityViolation::NullContext);
    }
    let record_128: u128 = 3 + (binding.data_words as u128);
    if (ctx as u128) + 8 * record_128 > (u64::MAX as u128) {
        return Result::Err(IntegrityViolation::PointerInvalid);
    }
    if w.read_word(ctx) != CUSTOM_VTABLE_MAGIC {
        return Result::Err(IntegrityViolation::InvalidMagic);
    }
    if w.read_word(ctx + 8) != binding.type_id {
        return Result::Err(IntegrityViolation::TypeMismatch);
    }
    Result::Ok(ctx)
}

/// What the read guard returns. A canonical pointer passes trivially: the
/// canonical table carries no per-instance state to validate.
pub open spec fn read_check(w: WorldView, inst: u64, b: ForeignObjectBinding) -> Result<
    (),
    FatalError,
> {
    let ptr = w.word(inst);
    if !can_resolve(w, b) {
        Result::Err(FatalError::Configuration(ConfigurationError::ModuleNotFound))
    } else if needs_relocation(w, b, ptr) {
        Result::Ok(())
    } else {
        match validate_relocated(w, b, ptr) {
            Validation::Valid => Result::Ok(()),
            v => Result::Err(FatalError::Integrity(violation_of(v))),
        }
    }
}

/// Guard for a reading access to an instance's dispatch table.
///
/// Runs the same validation as [`vtable_mutation_guard`] on an instance that
/// has already been relocated, but never relocates and never changes
/// anything: an instance still on its canonical table passes trivially, so
/// read accessors behave uniformly whether or not the instance has been
/// touched by a write.
pub fn vtable_read_guard(w: &World, instance: u64, binding: &ForeignObjectBinding) -> (r: Result<
    (),
    FatalError,
>)
    ensures
        r == read_check(w@, instance, *binding),
{
    let ptr = w.read_word(instance);
    let needs: bool = match canonical_check(w, ptr, binding) {
        Result::Ok(n) => n,
        Result::Err(e) => {
            return Result::Err(FatalError::Configuration(e));
        },
    };
    if needs {
        return Result::Ok(());
    }
    match check_record(w, ptr, binding) {
        Result::Ok(_) => Result::Ok(()),
        Result::Err(e) => Result::Err(FatalError::Integrity(e)),
    }
}

/// The value a slot read returns when the read guard passes: slot `slot` of
/// the table the instance currently points at — the private copy once
/// relocated, the canonical table before that.
pub open spec fn slot_read_result(w: WorldView, inst: u64, b: ForeignObjectBinding, slot: u64) -> Result<
    u64,
    FatalError,
> {
    let ptr = w.word(inst);
    match read_check(w, inst, b) {
        Result::Ok(_) => Result::Ok(w.word(wadd(ptr, wmul(8, slot)))),
        Result::Err(e) => Result::Err(e),
    }
}

/// Typed read accessor core: validates through the read guard, then returns
/// the current value of the given slot. Works uniformly on canonical and
/// relocated instances.
pub fn vtable_slot(w: &World, instance: u64, binding: &ForeignObjectBinding, slot: usize) -> (r:
    Result<u64, FatalError>)
    requires
        slot < binding.table_words,
    ensures
        r == slot_read_result(w@, instance, *binding, slot as u64),
{
    let ptr = w.read_word(instance);
    match vtable_read_guard(w, instance, binding) {
        Result::Ok(_) => Result::Ok(w.read_word(ptr.wrapping_add(8u64.wrapping_mul(slot as u64)))),
        Result::Err(e) => Result::Err(e),
    }
}

/// What a slot write returns: the mutation guard's answer and, if the guard
/// passed, a final range check on the written slot's address.
pub open spec fn slot_write_check(
    w: WorldView,
    inst: u64,
    b: ForeignObjectBinding,
    slot: int,
) -> Result<(), FatalError> {
    match mutation_check(w, inst, b) {
        Result::Ok(_) => {
            let w1 = mutation_world(w, inst, b);
            if w1.word(inst) + 8 * slot + 8 > u64::MAX {
                Result::Err(FatalError::Integrity(IntegrityViolation::PointerInvalid))
            } else {
                Result::Ok(())
            }
        },
        Result::Err(e) => Result::Err(e),
    }
}

/// The address space after a slot write: the mutation guard's outcome, with
/// the slot of the private copy overwritten when every check passed.
pub open spec fn slot_write_world(
    w: WorldView,
    inst: u64,
    b: ForeignObjectBinding,
    slot: int,
    value: u64,
) -> WorldView {
    let w1 = mutation_world(w, inst, b);
    if slot_write_check(w, inst, b, slot) is Ok {
        let a = (w1.word(inst) + 8 * slot) as u64;
        let next1 = if a + 8 > w1.next {
            (a + 8) as u64
        } else {
            w1.next
        };
        WorldView { mem: w1.mem.insert(a, value), next: next1, ..w1 }
    } else {
        w1
    }
}

/// Typed write accessor core: runs the mutation guard — relocating the
/// instance on its first mutating access — then overwrites the given slot of
/// the private copy. The canonical table is never written.
pub fn vtable_set_slot(
    w: &mut World,
    instance: u64,
    binding: &ForeignObjectBinding,
    slot: usize,
    value: u64,
) -> (r: Result<(), FatalError>)
    requires
        old(w)@.wf(),
        instance % 8 == 0,
        instance + 8 <= u64::MAX,
        slot < binding.table_words,
    ensures
        final(w)@ == slot_write_world(old(w)@, instance, *binding, slot as int, value),
        r == slot_write_check(old(w)@, instance, *binding, slot as int),
        final(w)@.wf(),
{
    let ghost w0 = w@;
    match vtable_mutation_guard(w, instance, binding) {
        Result::Ok(_) => {},
        Result::Err(e) => {
            return Result::Err(e);
        },
    }
    let ptr = w.read_word(instance);
    if (ptr as u128) + 8 * (slot as u128) + 8 > (u64::MAX as u128) {
        return Result::Err(FatalError::Integrity(IntegrityViolation::PointerInvalid));
    }
    let a = ptr + 8 * (slot as u64);
    proof {
        lemma_guard_ok_ptr_aligned(w0, instance, *binding);
        assert(a % 8 == 0) by (nonlinear_arith)
            requires
                ptr % 8 == 0,
                a == ptr + 8 * (slot as u64),
                ptr + 8 * (slot as int) <= u64::MAX,
        ;
    }
    w.write_word(a, value);
    Result::Ok(())
}

/// The mutation guard for a foreign class given by its [`VirtualClass`]
/// front end.
pub fn mutation_guard_of<T: crate::binding::VirtualClass>(w: &mut World, instance: u64) -> (r:
    Result<(), FatalError>)
    requires
        old(w)@.wf(),
        instance % 8 == 0,
        instance + 8 <= u64::MAX,
    ensures
        final(w)@ == mutation_world(old(w)@, instance, T::binding_spec()),
        r == mutation_check(old(w)@, instance, T::binding_spec()),
        final(w)@.wf(),
{
    let binding = T::binding();
    vtable_mutation_guard(w, instance, &binding)
}

/// The read guard for a foreign class given by its [`VirtualClass`] front
/// end.
pub fn read_guard_of<T: crate::binding::VirtualClass>(w: &World, instance: u64) -> (r: Result<
    (),
    FatalError,
>)
    ensures
        r == read_check(w@, instance, T::binding_spec()),
{
    let binding = T::binding();
    vtable_read_guard(w, instance, &binding)
}

/// After a successful mutation guard, the instance's table pointer is
/// 8-byte aligned.
proof fn lemma_guard_ok_ptr_aligned(w: WorldView, inst: u64, b: ForeignObjectBinding)
    requires
        w.wf(),
        mutation_check(w, inst, b) is Ok,
    ensures
        mutation_world(w, inst, b).word(inst) % 8 == 0,
{
    let ptr = w.word(inst);
    if needs_relocation(w, b, ptr) {
        let w1 = reloc_world(w, inst, b);
        assert(w1.mem.contains_key(inst));
        assert(w1.word(inst) == reloc_new_ptr(w, b));
        assert(reloc_new_ptr(w, b) % 8 == 0) by (nonlinear_arith)
            requires
                w.next % 8 == 0,
                reloc_fits(w, b),
                reloc_new_ptr(w, b) == ((w.next + spec_ctx_back(b)) as u64),
                spec_ctx_back(b) == 8 || spec_ctx_back(b) == 16,
                spec_total_words(b) >= 4,
        ;
    }
}

} // verus!
