//! Laws of the relocation engine, proved over its functional model.
//!
//! The guards' contracts pin each operation down as a function of the
//! address space; the lemmas here relate those functions to one another:
//! relocating is idempotent, restoring undoes relocating exactly, a
//! relocated instance rejects every access made under a different logical
//! type, and the side-channel data of distinct instances is independent.

use vstd::prelude::*;

use crate::binding::ForeignObjectBinding;
use crate::custom_data::{custom_write_world, payload_of};
use crate::errors::{FatalError, IntegrityViolation};
use crate::restore::{restore_check, restore_world};
use crate::guard::{
    can_resolve, mutating_access_check, mutation_check, mutation_world, needs_relocation,
    read_check, reloc_ctx_addr, reloc_new_ptr, reloc_world, reloc_words, spec_block_words,
    spec_ctx_back, spec_ctx_of, spec_record_words, spec_table_src, spec_total_words,
    validate_relocated, zero_words, Validation, CUSTOM_VTABLE_MAGIC,
};
use crate::world::{
    in_run, lemma_store_words_lookup, run_index, store_words, wadd, MemoryState, WorldView,
};

verus! {

/// The hypotheses under which a relocation is actually performed and well
/// behaved: the world is well formed, the guard's checks pass with a
/// canonical pointer, the instance's leading word is mapped memory, the
/// canonical table itself lies below the allocation frontier, as foreign
/// module memory does, and — with a leading type-info slot — the frontier
/// lies above the invalid-pointer floor, as any real allocation does.
pub open spec fn reloc_pre(w: WorldView, inst: u64, b: ForeignObjectBinding) -> bool {
    &&& w.wf()
    &&& can_resolve(w, b)
    &&& needs_relocation(w, b, w.word(inst))
    &&& b.table_words > 0
    &&& w.next + 8 * spec_total_words(b) <= u64::MAX
    &&& w.mem.contains_key(inst)
    &&& w.word(inst) + 8 * b.table_words <= w.next
    &&& b.has_type_info ==> w.next >= 0x80
}

/// What one relocation establishes: the instance points at a fresh private
/// block that no longer counts as canonical, the metadata record carries the
/// magic tag, the binding's type identifier, the original table address and
/// a zeroed payload, the table slots are copied verbatim, and every word
/// outside the fresh region and the instance itself is untouched.
pub proof fn lemma_reloc_establishes(w: WorldView, inst: u64, b: ForeignObjectBinding)
    requires
        reloc_pre(w, inst, b),
    ensures
        ({
            let w1 = reloc_world(w, inst, b);
            let ptr = w.word(inst);
            let block = w.next;
            let ctx = reloc_ctx_addr(w, b);
            let new_ptr = reloc_new_ptr(w, b);
            &&& w1.wf()
            &&& w1.next == block + 8 * spec_total_words(b)
            &&& w1.modules == w.modules
            &&& w1.main_base == w.main_base
            &&& w1.main_size == w.main_size
            &&& w1.word(inst) == new_ptr
            &&& w1.mem.contains_key(inst)
            &&& w1.classify(new_ptr) == MemoryState::DereferencableOutsideModule
            &&& !needs_relocation(w1, b, new_ptr)
            &&& spec_ctx_of(w1, b, new_ptr) == ctx
            &&& validate_relocated(w1, b, new_ptr) is Valid
            &&& w1.word(ctx) == CUSTOM_VTABLE_MAGIC
            &&& w1.word((ctx + 8) as u64) == b.type_id
            &&& w1.word((ctx + 16) as u64) == ptr
            &&& payload_of(w1, ctx, b) == zero_words(b.data_words as int)
            &&& forall|j: int|
                0 <= j < b.table_words ==> w1.word((new_ptr + 8 * j) as u64) == w.word(
                    #[trigger] ((ptr + 8 * j) as u64),
                )
            &&& mutation_check(w1, inst, b) is Ok
            &&& forall|p: u64|
                p != inst && !in_run(w.next, spec_total_words(b) as nat, p) ==> (
                #[trigger] w1.mem.contains_key(p) == w.mem.contains_key(p) && (
                w.mem.contains_key(p) ==> w1.mem[p] == w.mem[p]))
            &&& forall|p: u64| p + 8 <= w.next && p != inst ==> #[trigger] w1.word(p) == w.word(p)
            &&& forall|p: u64|
                p + 8 <= w.next ==> #[trigger] w1.mem.contains_key(p) == w.mem.contains_key(p)
        }),
{
    let w1 = reloc_world(w, inst, b);
    let ptr = w.word(inst);
    let block = w.next;
    let ctx = reloc_ctx_addr(w, b);
    let new_ptr = reloc_new_ptr(w, b);
    let ws = reloc_words(w, b, ptr);
    let total = spec_total_words(b);
    let bw = spec_block_words(b);
    let ti: int = if b.has_type_info {
        1
    } else {
        0
    };
    let tw = b.table_words as int;
    let dw = b.data_words as int;

    assert(ws.len() == total) by {
        assert(spec_table_src(w, ptr, tw).len() == tw);
        assert(zero_words(dw).len() == dw);
    }
    assert(inst + 8 <= w.next);
    assert(w1.next == block + 8 * total);
    assert(w1.mem == store_words(w.mem, block, ws).insert(inst, new_ptr));

    // Values of the stored run, by index.
    let head_len: int = 1 + ti;
    assert forall|idx: int| 0 <= idx < total implies #[trigger] ws[idx] == (if idx == 0 {
        ctx
    } else if b.has_type_info && idx == 1 {
        w.word(crate::world::wsub(ptr, 8))
    } else if idx < bw {
        spec_table_src(w, ptr, tw)[idx - head_len]
    } else if idx == bw {
        CUSTOM_VTABLE_MAGIC
    } else if idx == bw + 1 {
        b.type_id
    } else if idx == bw + 2 {
        ptr
    } else {
        0u64
    }) by {
        let head = if b.has_type_info {
            seq![ctx, w.word(crate::world::wsub(ptr, 8))]
        } else {
            seq![ctx]
        };
        let mid = seq![CUSTOM_VTABLE_MAGIC, b.type_id, ptr];
        assert(ws == head + spec_table_src(w, ptr, tw) + mid + zero_words(dw));
    }

    // Lookup of any address against the stored run, then against the final
    // insertion of the instance's new pointer.
    assert forall|p: u64|
        p != inst && !in_run(w.next, total as nat, p) implies (#[trigger] w1.mem.contains_key(p)
        == w.mem.contains_key(p) && (w.mem.contains_key(p) ==> w1.mem[p] == w.mem[p])) by {
        lemma_store_words_lookup(w.mem, block, ws, p);
    }
    assert forall|p: u64| p + 8 <= w.next implies #[trigger] w1.mem.contains_key(p)
        == w.mem.contains_key(p) && (p != inst ==> w1.word(p) == w.word(p)) by {
        if p != inst {
            assert(!in_run(w.next, total as nat, p));
            lemma_store_words_lookup(w.mem, block, ws, p);
        } else {
            assert(w.mem.contains_key(inst));
        }
    }

    // The run's own words.
    assert forall|idx: int| 0 <= idx < total implies {
        &&& #[trigger] w1.mem.contains_key((block + 8 * idx) as u64)
        &&& w1.mem[(block + 8 * idx) as u64] == ws[idx]
    } by {
        let a = (block + 8 * idx) as u64;
        assert(in_run(block, total as nat, a) && run_index(block, a) == idx) by (nonlinear_arith)
            requires
                a == block + 8 * idx,
                0 <= idx < total,
                block + 8 * total <= u64::MAX,
        ;
        lemma_store_words_lookup(w.mem, block, ws, a);
        assert(a != inst);
    }

    assert(w1.word(inst) == new_ptr);

    // Well-formedness of the relocated world.
    assert(w1.wf()) by {
        assert(w1.next % 8 == 0) by (nonlinear_arith)
            requires
                w.next % 8 == 0,
                w1.next == w.next + 8 * total,
        ;
        assert forall|a: u64| #[trigger] w1.mem.contains_key(a) implies a % 8 == 0 && a + 8
            <= w1.next by {
            lemma_store_words_lookup(w.mem, block, ws, a);
            if a == inst || !in_run(block, total as nat, a) {
                assert(w.mem.contains_key(a));
            } else {
                assert((a - block) % 8 == 0 && block <= a < block + 8 * total);
                assert(a % 8 == 0) by (nonlinear_arith)
                    requires
                        (a - block) % 8 == 0,
                        block % 8 == 0,
                ;
            }
        }
    }

    // The new pointer is fresh, readable memory outside every module.
    assert(new_ptr == block + 8 * (1 + ti));
    assert(w1.mem.contains_key(new_ptr) && w1.mem[new_ptr] == ws[1 + ti]) by {
        assert(new_ptr == (block + 8 * (1 + ti)) as u64);
    }
    assert(!w1.in_known_module(new_ptr)) by {
        assert(w.main_base + w.main_size <= w.next);
        assert forall|i: int| 0 <= i < w1.modules.len() implies !((#[trigger] w1.modules[i]).base
            <= new_ptr && new_ptr < w1.modules[i].base + w1.modules[i].size) by {
            assert(w.modules[i].base + w.modules[i].size <= w.next);
        }
    }
    assert(w1.classify(new_ptr) == MemoryState::DereferencableOutsideModule);

    // It is therefore not canonical: relaxed validation classifies it as
    // relocated, and strict validation compares against the old canonical
    // address, which lies below the frontier.
    assert(!needs_relocation(w1, b, new_ptr)) by {
        if !b.disable_offset_check {
            let base = w.resolve_base(b.module)->Some_0;
            assert(ptr == base + b.vtable_offset);
            assert(ptr < w.next);
            assert(new_ptr > ptr);
        }
    }

    // The record is in place.
    assert(spec_ctx_of(w1, b, new_ptr) == ctx) by {
        assert(crate::world::wsub(new_ptr, spec_ctx_back(b)) == block);
        assert(w1.mem.contains_key((block + 8 * 0) as u64));
        assert(block == (block + 8 * 0) as u64);
        assert(w1.mem[(block + 8 * 0) as u64] == ws[0]);
    }
    assert(w1.word(ctx) == CUSTOM_VTABLE_MAGIC) by {
        assert(ctx == (block + 8 * bw) as u64);
        assert(w1.mem.contains_key((block + 8 * bw) as u64));
        assert(w1.mem[(block + 8 * bw) as u64] == ws[bw]);
    }
    assert(w1.word((ctx + 8) as u64) == b.type_id) by {
        assert((ctx + 8) as u64 == (block + 8 * (bw + 1)) as u64);
        assert(w1.mem.contains_key((block + 8 * (bw + 1)) as u64));
        assert(w1.mem[(block + 8 * (bw + 1)) as u64] == ws[bw + 1]);
    }
    assert(w1.word((ctx + 16) as u64) == ptr) by {
        assert((ctx + 16) as u64 == (block + 8 * (bw + 2)) as u64);
        assert(w1.mem.contains_key((block + 8 * (bw + 2)) as u64));
        assert(w1.mem[(block + 8 * (bw + 2)) as u64] == ws[bw + 2]);
    }
    assert(validate_relocated(w1, b, new_ptr) is Valid) by {
        assert(new_ptr % 8 == 0) by (nonlinear_arith)
            requires
                w.next % 8 == 0,
                new_ptr == w.next + 8 * (1 + ti),
                0 <= ti <= 1,
                w.next + 8 * total <= u64::MAX,
                total >= 1 + ti + 1,
        ;
        assert(new_ptr != 0);
        assert(ctx != 0);
        assert(ctx + 8 * spec_record_words(b) <= u64::MAX);
    }

    // The payload is zeroed.
    assert(payload_of(w1, ctx, b) =~= zero_words(dw)) by {
        assert forall|k: int| 0 <= k < dw implies payload_of(w1, ctx, b)[k] == 0u64 by {
            assert((ctx + 24 + 8 * k) as u64 == (block + 8 * (bw + 3 + k)) as u64);
            assert(w1.mem.contains_key((block + 8 * (bw + 3 + k)) as u64));
            assert(w1.mem[(block + 8 * (bw + 3 + k)) as u64] == ws[bw + 3 + k]);
        }
    }

    // The table slots are copied verbatim from the canonical table.
    assert forall|j: int| 0 <= j < tw implies w1.word((new_ptr + 8 * j) as u64) == w.word(
        #[trigger] ((ptr + 8 * j) as u64),
    ) by {
        assert((new_ptr + 8 * j) as u64 == (block + 8 * (head_len + j)) as u64);
        assert(w1.mem.contains_key((block + 8 * (head_len + j)) as u64));
        assert(w1.mem[(block + 8 * (head_len + j)) as u64] == ws[head_len + j]);
        assert(ws[head_len + j] == spec_table_src(w, ptr, tw)[j]);
        assert(wadd(ptr, (8 * j) as u64) == (ptr + 8 * j) as u64);
    }

    // A second mutating access only validates.
    assert(mutation_check(w1, inst, b) is Ok);
}

/// Idempotence of the mutation guard: the first mutating access relocates;
/// a second, made on the state the first produced, only validates and leaves
/// the address space exactly as it found it.
pub proof fn lemma_mutation_guard_idempotent(w: WorldView, inst: u64, b: ForeignObjectBinding)
    requires
        w.wf(),
        mutation_check(w, inst, b) is Ok,
        w.mem.contains_key(inst),
        w.word(inst) + 8 * b.table_words <= w.next,
        b.has_type_info ==> w.next >= 0x80,
    ensures
        mutation_check(mutation_world(w, inst, b), inst, b) is Ok,
        mutation_world(mutation_world(w, inst, b), inst, b) == mutation_world(w, inst, b),
{
    let ptr = w.word(inst);
    if needs_relocation(w, b, ptr) {
        lemma_reloc_establishes(w, inst, b);
        let w1 = reloc_world(w, inst, b);
        assert(mutation_world(w, inst, b) == w1);
        assert(!needs_relocation(w1, b, w1.word(inst)));
        assert(mutation_world(w1, inst, b) == w1);
    }
}

/// Round trip: relocating an untouched instance and then restoring it puts
/// the original table address back, bit for bit, and unmaps everything the
/// relocation allocated, leaving the memory exactly as it was.
pub proof fn lemma_relocate_restore_round_trip(w: WorldView, inst: u64, b: ForeignObjectBinding)
    requires
        w.wf(),
        mutation_check(w, inst, b) is Ok,
        needs_relocation(w, b, w.word(inst)),
        w.mem.contains_key(inst),
        w.word(inst) + 8 * b.table_words <= w.next,
        b.has_type_info ==> w.next >= 0x80,
    ensures
        ({
            let w1 = mutation_world(w, inst, b);
            let w2 = restore_world(w1, inst, b);
            &&& restore_check(w1, inst, b) is Ok
            &&& w2.word(inst) == w.word(inst)
            &&& w2.mem == w.mem
        }),
{
    let ptr = w.word(inst);
    let block = w.next;
    let ctx = reloc_ctx_addr(w, b);
    let new_ptr = reloc_new_ptr(w, b);
    let total = spec_total_words(b);
    let bw = spec_block_words(b);
    let rw = spec_record_words(b);
    lemma_reloc_establishes(w, inst, b);
    let w1 = reloc_world(w, inst, b);
    assert(mutation_world(w, inst, b) == w1);

    assert(mutating_access_check(w1, inst, b) == Result::<u64, FatalError>::Ok(ctx));
    assert(w1.word(inst) + 8 * b.table_words <= u64::MAX) by {
        assert(new_ptr + 8 * b.table_words <= block + 8 * total);
    }
    assert(restore_check(w1, inst, b) == Result::<u64, FatalError>::Ok(ctx));

    let w2 = restore_world(w1, inst, b);
    assert(crate::world::wsub(new_ptr, spec_ctx_back(b)) == block);
    assert(w1.word((ctx + 16) as u64) == ptr);
    let mem1 = crate::world::remove_words(w1.mem, block, bw as nat);
    let mem2 = crate::world::remove_words(mem1, ctx, rw as nat);
    assert(w2.mem == mem2.insert(inst, ptr));
    assert(ctx == (block + 8 * bw) as u64);

    assert forall|a: u64|
        #[trigger] w2.mem.contains_key(a) == w.mem.contains_key(a) && (w.mem.contains_key(a)
            ==> w2.mem[a] == w.mem[a]) by {
        crate::world::lemma_remove_words_lookup(w1.mem, block, bw as nat, a);
        crate::world::lemma_remove_words_lookup(mem1, ctx, rw as nat, a);
        if a == inst {
            assert(w2.mem[inst] == ptr);
            assert(w.mem[inst] == ptr);
        } else if in_run(block, total as nat, a) {
            // Freed memory was freshly allocated, so it was unmapped before.
            assert(in_run(block, bw as nat, a) || in_run(ctx, rw as nat, a)) by {
                if !(a < block + 8 * bw) {
                    assert((a - ctx) % 8 == 0) by (nonlinear_arith)
                        requires
                            (a - block) % 8 == 0,
                            ctx == block + 8 * bw,
                    ;
                }
            }
            assert(!w2.mem.contains_key(a));
            assert(!w.mem.contains_key(a)) by {
                if w.mem.contains_key(a) {
                    assert(a + 8 <= w.next);
                }
            }
        } else {
            assert(!in_run(block, bw as nat, a)) by {
                if in_run(block, bw as nat, a) {
                    assert(in_run(block, total as nat, a));
                }
            }
            assert(!in_run(ctx, rw as nat, a)) by {
                if in_run(ctx, rw as nat, a) {
                    assert((a - block) % 8 == 0) by (nonlinear_arith)
                        requires
                            (a - ctx) % 8 == 0,
                            ctx == block + 8 * bw,
                    ;
                    assert(in_run(block, total as nat, a));
                }
            }
            assert(w1.mem.contains_key(a) == w.mem.contains_key(a) && (w.mem.contains_key(a)
                ==> w1.mem[a] == w.mem[a]));
        }
    }
    assert(w2.mem =~= w.mem);
    assert(w2.word(inst) == ptr);
}

/// Type safety: an instance relocated under one binding rejects every access
/// made under a binding of the same table geometry but a different logical
/// type, and no such access changes anything. When the record bound also
/// holds for the accessing binding, the rejection is specifically a type
/// mismatch.
pub proof fn lemma_type_safety(
    w: WorldView,
    inst: u64,
    t: ForeignObjectBinding,
    u: ForeignObjectBinding,
    k: int,
    v: u64,
)
    requires
        validate_relocated(w, t, w.word(inst)) is Valid,
        can_resolve(w, u),
        !needs_relocation(w, u, w.word(inst)),
        u.has_type_info == t.has_type_info,
        u.type_id != t.type_id,
    ensures
        mutation_check(w, inst, u) is Err,
        read_check(w, inst, u) is Err,
        mutating_access_check(w, inst, u) is Err,
        mutation_world(w, inst, u) == w,
        custom_write_world(w, inst, u, k, v) == w,
        restore_world(w, inst, u) == w,
        spec_ctx_of(w, u, w.word(inst)) + 8 * spec_record_words(u) <= u64::MAX ==> {
            &&& mutation_check(w, inst, u) == Result::<(), FatalError>::Err(
                FatalError::Integrity(IntegrityViolation::TypeMismatch),
            )
            &&& read_check(w, inst, u) == Result::<(), FatalError>::Err(
                FatalError::Integrity(IntegrityViolation::TypeMismatch),
            )
            &&& mutating_access_check(w, inst, u) == Result::<u64, FatalError>::Err(
                FatalError::Integrity(IntegrityViolation::TypeMismatch),
            )
        },
{
    let ptr = w.word(inst);
    assert(spec_ctx_of(w, u, ptr) == spec_ctx_of(w, t, ptr));
    assert(validate_relocated(w, u, ptr) is WrongType || validate_relocated(w, u, ptr)
        is PointerInvalid);
}

/// Isolation: relocating two distinct instances of one logical type gives
/// them disjoint metadata records, and writing one instance's custom data
/// leaves the other's payload untouched and its record fully valid.
pub proof fn lemma_custom_data_isolation(
    w: WorldView,
    i1: u64,
    i2: u64,
    b: ForeignObjectBinding,
    k: int,
    v: u64,
)
    requires
        w.wf(),
        i1 != i2,
        mutation_check(w, i1, b) is Ok,
        needs_relocation(w, b, w.word(i1)),
        w.mem.contains_key(i1),
        w.word(i1) + 8 * b.table_words <= w.next,
        mutation_check(w, i2, b) is Ok,
        needs_relocation(w, b, w.word(i2)),
        w.mem.contains_key(i2),
        w.word(i2) + 8 * b.table_words <= w.next,
        w.next + 16 * spec_total_words(b) <= u64::MAX,
        b.has_type_info ==> w.next >= 0x80,
        0 <= k < b.data_words,
    ensures
        ({
            let w1 = mutation_world(w, i1, b);
            let w2 = mutation_world(w1, i2, b);
            let c1 = spec_ctx_of(w2, b, w2.word(i1));
            let c2 = spec_ctx_of(w2, b, w2.word(i2));
            let w3 = custom_write_world(w2, i1, b, k, v);
            &&& mutation_check(w1, i2, b) is Ok
            &&& needs_relocation(w1, b, w1.word(i2))
            &&& c1 != c2
            &&& mutating_access_check(w2, i1, b) == Result::<u64, FatalError>::Ok(c1)
            &&& mutating_access_check(w3, i2, b) == Result::<u64, FatalError>::Ok(c2)
            &&& payload_of(w3, c1, b)[k] == v
            &&& payload_of(w3, c2, b) == payload_of(w2, c2, b)
        }),
{
    let ptr1 = w.word(i1);
    let ptr2 = w.word(i2);
    let total = spec_total_words(b);
    let bw = spec_block_words(b);
    let rw = spec_record_words(b);
    let back = spec_ctx_back(b);

    // First relocation.
    lemma_reloc_establishes(w, i1, b);
    let w1 = reloc_world(w, i1, b);
    assert(mutation_world(w, i1, b) == w1);
    let c1 = reloc_ctx_addr(w, b);
    let np1 = reloc_new_ptr(w, b);
    assert(w1.next == w.next + 8 * total);

    // The second instance's pointer and its canonical status are untouched.
    assert(w1.word(i2) == ptr2);
    assert(needs_relocation(w1, b, ptr2)) by {
        if b.disable_offset_check {
            assert(ptr2 + 8 <= w.next);
            assert(w1.mem.contains_key(ptr2) == w.mem.contains_key(ptr2));
            assert(w1.classify(ptr2) == w.classify(ptr2));
        }
    }
    assert(mutation_check(w1, i2, b) is Ok);
    assert(w1.mem.contains_key(i2));

    // Second relocation.
    lemma_reloc_establishes(w1, i2, b);
    let w2 = reloc_world(w1, i2, b);
    assert(mutation_world(w1, i2, b) == w2);
    let c2 = reloc_ctx_addr(w1, b);
    let np2 = reloc_new_ptr(w1, b);
    assert(c2 == w1.next + 8 * bw);
    assert(c1 + 8 * rw == w1.next);
    assert(c1 != c2);

    // The first instance's relocated state survives the second relocation:
    // its pointer, its record slot and its whole record lie below the
    // second allocation.
    assert(w2.word(i1) == np1) by {
        assert(i1 + 8 <= w.next);
    }
    assert(spec_ctx_of(w2, b, np1) == c1) by {
        let slot = crate::world::wsub(np1, back);
        assert(slot == w.next);
        assert(slot + 8 <= w1.next);
        assert(w2.word(slot) == w1.word(slot));
    }
    assert(validate_relocated(w2, b, np1) is Valid) by {
        assert(c1 + 8 <= w1.next);
        assert(w2.word(c1) == w1.word(c1));
        assert((c1 + 8) + 8 <= w1.next);
        assert(w2.word((c1 + 8) as u64) == w1.word((c1 + 8) as u64));
    }
    assert(!needs_relocation(w2, b, np1)) by {
        if b.disable_offset_check {
            assert(np1 + 8 <= w1.next);
            assert(w2.mem.contains_key(np1) == w1.mem.contains_key(np1));
            assert(w1.mem.contains_key(np1)) by {
                assert(w1.word(np1) == w.word((ptr1 + 8 * 0) as u64) && b.table_words > 0);
                assert(validate_relocated(w1, b, np1) is Valid);
                assert(w1.classify(np1) == MemoryState::DereferencableOutsideModule);
            }
            assert(!w2.in_known_module(np1)) by {
                assert(!w1.in_known_module(np1));
            }
        } else {
            let base = w.resolve_base(b.module)->Some_0;
            assert(ptr1 == base + b.vtable_offset);
            assert(np1 > ptr1);
            assert(w2.resolve_base(b.module) == w.resolve_base(b.module));
        }
    }
    assert(can_resolve(w2, b));
    assert(mutating_access_check(w2, i1, b) == Result::<u64, FatalError>::Ok(c1));

    // The write lands inside the first record's payload, strictly below the
    // second record.
    let w3 = custom_write_world(w2, i1, b, k, v);
    let a1 = (c1 + 24 + 8 * k) as u64;
    assert(w3.mem == w2.mem.insert(a1, v));
    assert(a1 < c1 + 8 * rw);
    assert(c1 + 8 * rw <= c2);

    assert(payload_of(w3, c1, b)[k] == v) by {
        assert(w3.mem[a1] == v);
    }
    assert(payload_of(w3, c2, b) =~= payload_of(w2, c2, b)) by {
        assert forall|j: int| 0 <= j < b.data_words implies payload_of(w3, c2, b)[j] == payload_of(
            w2,
            c2,
            b,
        )[j] by {
            assert(a1 != (c2 + 24 + 8 * j) as u64);
        }
    }

    // The second instance's record is equally untouched by the write.
    assert(w3.word(i2) == np2) by {
        assert(i2 + 8 <= w.next);
        assert(a1 >= w.next);
    }
    assert(spec_ctx_of(w3, b, np2) == c2) by {
        let slot = crate::world::wsub(np2, back);
        assert(slot == w1.next);
        assert(a1 < w1.next);
        assert(w3.word(slot) == w2.word(slot));
    }
    assert(validate_relocated(w3, b, np2) is Valid) by {
        assert(a1 != c2 && a1 != (c2 + 8) as u64);
        assert(w3.word(c2) == w2.word(c2));
        assert(w3.word((c2 + 8) as u64) == w2.word((c2 + 8) as u64));
    }
    assert(!needs_relocation(w3, b, np2)) by {
        if b.disable_offset_check {
            assert(w3.mem.contains_key(np2)) by {
                assert(w2.classify(np2) == MemoryState::DereferencableOutsideModule);
            }
            assert(!w3.in_known_module(np2)) by {
                assert(!w2.in_known_module(np2));
            }
        } else {
            let base = w.resolve_base(b.module)->Some_0;
            assert(ptr2 == base + b.vtable_offset);
            assert(np2 > ptr2);
            assert(w3.resolve_base(b.module) == w.resolve_base(b.module));
        }
    }
    assert(can_resolve(w3, b));
    assert(mutating_access_check(w3, i2, b) == Result::<u64, FatalError>::Ok(c2));
}

} // verus!
