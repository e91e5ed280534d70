//! End-to-end runs of the relocation engine against a synthetic address
//! space: first-write relocation, reads through both guards, the
//! side-channel data store, restoration, and every error path.

use smashline::binding::ForeignObjectBinding;
use smashline::custom_data::{vtable_custom_data, vtable_custom_data_mut};
use smashline::errors::{ConfigurationError, CustomDataAccessError, FatalError, IntegrityViolation};
use smashline::guard::{
    vtable_mutation_guard, vtable_read_guard, vtable_set_slot, vtable_slot, CUSTOM_VTABLE_MAGIC,
};
use smashline::restore::vtable_restore_vtable;
use smashline::world::{MemoryState, World};

const MODULE_ID: u64 = 7;
const CANONICAL: u64 = 0x1148;
const INSTANCE: u64 = 0x2000;

fn strict_binding(type_id: u64) -> ForeignObjectBinding {
    ForeignObjectBinding {
        module: Some(MODULE_ID),
        vtable_offset: 0x148,
        disable_offset_check: false,
        has_type_info: false,
        type_id,
        table_words: 3,
        data_words: 1,
    }
}

/// A world with one foreign module at `0x1000`, a three-slot canonical table
/// at `0x1148`, and one instance at `0x2000` pointing at it.
fn world_with_instance() -> World {
    let mut w = World::new(0, 0x100);
    w.add_module(MODULE_ID, 0x1000, 0x1000);
    w.write_word(CANONICAL, 0x111);
    w.write_word(CANONICAL + 8, 0x222);
    w.write_word(CANONICAL + 16, 0x333);
    w.write_word(INSTANCE, CANONICAL);
    w
}

#[test]
fn scenario_first_write_relocates() {
    let mut w = world_with_instance();
    let b = strict_binding(0xAA);
    let block = w.alloc_frontier();

    assert_eq!(vtable_set_slot(&mut w, INSTANCE, &b, 1, 0x999), Ok(()));

    // The block is 32 bytes: one record-pointer word and three table slots.
    let new_ptr = w.read_word(INSTANCE);
    assert_eq!(new_ptr, block + 8);
    let ctx = w.read_word(block);
    assert_eq!(ctx, block + 32);
    // The record tags the copy and remembers the canonical address.
    assert_eq!(w.read_word(ctx), CUSTOM_VTABLE_MAGIC);
    assert_eq!(w.read_word(ctx + 8), 0xAA);
    assert_eq!(w.read_word(ctx + 16), CANONICAL);
    // Slot 1 took the write; slots 0 and 2 are verbatim copies.
    assert_eq!(vtable_slot(&w, INSTANCE, &b, 0), Ok(0x111));
    assert_eq!(vtable_slot(&w, INSTANCE, &b, 1), Ok(0x999));
    assert_eq!(vtable_slot(&w, INSTANCE, &b, 2), Ok(0x333));
    // The canonical table itself is untouched.
    assert_eq!(w.read_word(CANONICAL + 8), 0x222);
}

#[test]
fn scenario_custom_data_read_and_write() {
    let mut w = world_with_instance();
    let b = strict_binding(0xAA);
    assert_eq!(vtable_mutation_guard(&mut w, INSTANCE, &b), Ok(()));

    assert_eq!(vtable_custom_data(&w, INSTANCE, &b), Ok(vec![0]));
    assert_eq!(vtable_custom_data_mut(&mut w, INSTANCE, &b, 0, 5), Ok(()));
    assert_eq!(vtable_custom_data(&w, INSTANCE, &b), Ok(vec![5]));
}

#[test]
fn scenario_untouched_instance_has_no_data() {
    let w = world_with_instance();
    let b = strict_binding(0xAA);
    assert_eq!(
        vtable_custom_data(&w, INSTANCE, &b),
        Err(CustomDataAccessError::NotRelocated)
    );
}

#[test]
fn scenario_restore_resets_pointer_and_frees() {
    let mut w = world_with_instance();
    let b = strict_binding(0xAA);
    let block = w.alloc_frontier();
    assert_eq!(vtable_mutation_guard(&mut w, INSTANCE, &b), Ok(()));
    assert_eq!(vtable_custom_data_mut(&mut w, INSTANCE, &b, 0, 5), Ok(()));

    assert_eq!(vtable_restore_vtable(&mut w, INSTANCE, &b), Ok(()));

    assert_eq!(w.read_word(INSTANCE), CANONICAL);
    assert_eq!(
        vtable_custom_data(&w, INSTANCE, &b),
        Err(CustomDataAccessError::NotRelocated)
    );
    // Every word the relocation allocated is unmapped again.
    for t in 0..8 {
        assert!(!w.is_mapped(block + 8 * t));
    }
}

#[test]
fn scenario_wrong_type_is_rejected() {
    let mut w = world_with_instance();
    let t = strict_binding(0xAA);
    let u = strict_binding(0xBB);
    assert_eq!(vtable_mutation_guard(&mut w, INSTANCE, &t), Ok(()));
    let ptr = w.read_word(INSTANCE);

    let mismatch = Err(FatalError::Integrity(IntegrityViolation::TypeMismatch));
    assert_eq!(vtable_mutation_guard(&mut w, INSTANCE, &u), mismatch);
    assert_eq!(vtable_read_guard(&w, INSTANCE, &u), mismatch);
    assert_eq!(vtable_set_slot(&mut w, INSTANCE, &u, 0, 1), mismatch);
    assert_eq!(vtable_custom_data_mut(&mut w, INSTANCE, &u, 0, 1), mismatch);
    assert_eq!(vtable_restore_vtable(&mut w, INSTANCE, &u), mismatch);
    // The pointer never moved.
    assert_eq!(w.read_word(INSTANCE), ptr);
    // The matching binding still passes.
    assert_eq!(vtable_read_guard(&w, INSTANCE, &t), Ok(()));
}

#[test]
fn relocation_happens_once() {
    let mut w = world_with_instance();
    let b = strict_binding(0xAA);
    assert_eq!(vtable_mutation_guard(&mut w, INSTANCE, &b), Ok(()));
    let ptr = w.read_word(INSTANCE);
    let frontier = w.alloc_frontier();

    // The second mutating access only validates: nothing is allocated and
    // the pointer stays where the first access put it.
    assert_eq!(vtable_mutation_guard(&mut w, INSTANCE, &b), Ok(()));
    assert_eq!(w.read_word(INSTANCE), ptr);
    assert_eq!(w.alloc_frontier(), frontier);
}

#[test]
fn distinct_instances_have_independent_data() {
    let mut w = world_with_instance();
    let other: u64 = 0x2008;
    w.write_word(other, CANONICAL);
    let b = strict_binding(0xAA);
    assert_eq!(vtable_mutation_guard(&mut w, INSTANCE, &b), Ok(()));
    assert_eq!(vtable_mutation_guard(&mut w, other, &b), Ok(()));

    assert_eq!(vtable_custom_data_mut(&mut w, INSTANCE, &b, 0, 41), Ok(()));
    assert_eq!(vtable_custom_data(&w, INSTANCE, &b), Ok(vec![41]));
    assert_eq!(vtable_custom_data(&w, other, &b), Ok(vec![0]));

    assert_eq!(vtable_custom_data_mut(&mut w, other, &b, 0, 17), Ok(()));
    assert_eq!(vtable_custom_data(&w, INSTANCE, &b), Ok(vec![41]));
    assert_eq!(vtable_custom_data(&w, other, &b), Ok(vec![17]));
}

#[test]
fn read_guard_passes_on_canonical_instances() {
    let w = world_with_instance();
    let b = strict_binding(0xAA);
    assert_eq!(vtable_read_guard(&w, INSTANCE, &b), Ok(()));
    assert_eq!(vtable_slot(&w, INSTANCE, &b, 1), Ok(0x222));
}

#[test]
fn relaxed_validation_classifies_addresses() {
    let mut w = world_with_instance();
    assert_eq!(w.classify(CANONICAL), MemoryState::DereferencableInModule);
    assert_eq!(w.classify(0x9000), MemoryState::NonDereferencable);
    w.write_word(0x3000, 1);
    assert_eq!(
        w.classify(0x3000),
        MemoryState::DereferencableOutsideModule
    );

    let b = ForeignObjectBinding { disable_offset_check: true, ..strict_binding(0xAA) };
    let block = w.alloc_frontier();
    assert_eq!(vtable_mutation_guard(&mut w, INSTANCE, &b), Ok(()));
    assert_eq!(w.read_word(INSTANCE), block + 8);
    // The private copy is readable memory outside every module, so a second
    // relaxed access validates instead of relocating.
    assert_eq!(vtable_mutation_guard(&mut w, INSTANCE, &b), Ok(()));
    assert_eq!(w.read_word(INSTANCE), block + 8);
}

#[test]
fn leading_type_info_slot_is_carried() {
    let mut w = World::new(0, 0x100);
    w.add_module(MODULE_ID, 0x1000, 0x1000);
    w.write_word(CANONICAL - 8, 0xC0FFEE);
    w.write_word(CANONICAL, 0x111);
    w.write_word(CANONICAL + 8, 0x222);
    w.write_word(CANONICAL + 16, 0x333);
    w.write_word(INSTANCE, CANONICAL);
    let b = ForeignObjectBinding { has_type_info: true, ..strict_binding(0xAA) };
    let block = w.alloc_frontier();

    assert_eq!(vtable_mutation_guard(&mut w, INSTANCE, &b), Ok(()));
    // The table copy starts two words in; the type-info word sits before it.
    assert_eq!(w.read_word(INSTANCE), block + 16);
    assert_eq!(w.read_word(block + 8), 0xC0FFEE);
    assert_eq!(vtable_slot(&w, INSTANCE, &b, 0), Ok(0x111));
    assert_eq!(vtable_read_guard(&w, INSTANCE, &b), Ok(()));
    assert_eq!(vtable_restore_vtable(&mut w, INSTANCE, &b), Ok(()));
    assert_eq!(w.read_word(INSTANCE), CANONICAL);
}

#[test]
fn configuration_errors_are_reported() {
    let mut w = world_with_instance();

    let zero = ForeignObjectBinding { table_words: 0, ..strict_binding(0xAA) };
    assert_eq!(
        vtable_mutation_guard(&mut w, INSTANCE, &zero),
        Err(FatalError::Configuration(ConfigurationError::ZeroSizeTable))
    );

    let missing = ForeignObjectBinding { module: Some(99), ..strict_binding(0xAA) };
    assert_eq!(
        vtable_mutation_guard(&mut w, INSTANCE, &missing),
        Err(FatalError::Configuration(ConfigurationError::ModuleNotFound))
    );
    assert_eq!(w.read_word(INSTANCE), CANONICAL);
}

#[test]
fn integrity_violations_are_reported() {
    let mut w = world_with_instance();
    let b = strict_binding(0xAA);

    // A misaligned table pointer is rejected before anything else.
    w.write_word(INSTANCE, 0x1149);
    assert_eq!(
        vtable_mutation_guard(&mut w, INSTANCE, &b),
        Err(FatalError::Integrity(IntegrityViolation::NotAligned))
    );

    // A null pointer that is not canonical is rejected as null.
    w.write_word(INSTANCE, 0);
    assert_eq!(
        vtable_mutation_guard(&mut w, INSTANCE, &b),
        Err(FatalError::Integrity(IntegrityViolation::Null))
    );

    // A mapped word outside all modules with a zero record slot.
    w.write_word(0x3000, 12);
    w.write_word(INSTANCE, 0x3000);
    assert_eq!(
        vtable_mutation_guard(&mut w, INSTANCE, &b),
        Err(FatalError::Integrity(IntegrityViolation::NullContext))
    );

    // A record slot pointing at a word that does not carry the magic tag.
    w.write_word(0x3000 - 8, 0x4000);
    w.write_word(0x4000, 77);
    assert_eq!(
        vtable_mutation_guard(&mut w, INSTANCE, &b),
        Err(FatalError::Integrity(IntegrityViolation::InvalidMagic))
    );
    assert_eq!(
        vtable_custom_data(&w, INSTANCE, &b),
        Err(CustomDataAccessError::InvalidMagic)
    );

    // Restoring an instance that was never relocated is a violation.
    w.write_word(INSTANCE, CANONICAL);
    assert_eq!(
        vtable_restore_vtable(&mut w, INSTANCE, &b),
        Err(FatalError::Integrity(IntegrityViolation::NotRelocated))
    );
}

#[test]
fn allocation_failure_is_reported() {
    let mut w = world_with_instance();
    // Exhaust the address space: one mapped word just below the top pushes
    // the allocation frontier to where no block can fit any more.
    w.write_word(u64::MAX - 15, 1);
    let b = ForeignObjectBinding { disable_offset_check: true, ..strict_binding(0xAA) };
    // The instance points at unreadable memory, which relaxed validation
    // treats as canonical, so a relocation is attempted.
    w.write_word(INSTANCE, 0x9000);
    assert_eq!(
        vtable_mutation_guard(&mut w, INSTANCE, &b),
        Err(FatalError::Configuration(ConfigurationError::AllocationFailed))
    );
    assert_eq!(w.read_word(INSTANCE), 0x9000);
}

#[test]
fn short_pointers_are_invalid_with_a_type_info_slot() {
    let mut w = world_with_instance();
    let b = ForeignObjectBinding { has_type_info: true, ..strict_binding(0xAA) };
    // Every pointer below the first sixteen table words is rejected outright
    // — even an aligned one whose record slot would read as zero — and the
    // first pointer at the floor reaches the record checks instead.
    for ptr in [8, 0x40, 0x78] {
        w.write_word(INSTANCE, ptr);
        assert_eq!(
            vtable_mutation_guard(&mut w, INSTANCE, &b),
            Err(FatalError::Integrity(IntegrityViolation::PointerInvalid))
        );
        assert_eq!(
            vtable_custom_data(&w, INSTANCE, &b),
            Err(CustomDataAccessError::PointerInvalid)
        );
    }
    w.write_word(INSTANCE, 0x80);
    assert_eq!(
        vtable_mutation_guard(&mut w, INSTANCE, &b),
        Err(FatalError::Integrity(IntegrityViolation::NullContext))
    );
}

#[test]
fn custom_data_reads_report_violations_as_values() {
    let mut w = world_with_instance();
    let b = strict_binding(0xAA);

    w.write_word(INSTANCE, 0x1149);
    assert_eq!(
        vtable_custom_data(&w, INSTANCE, &b),
        Err(CustomDataAccessError::NotAligned)
    );

    w.write_word(INSTANCE, 0);
    assert_eq!(vtable_custom_data(&w, INSTANCE, &b), Err(CustomDataAccessError::Null));

    w.write_word(0x3000, 12);
    w.write_word(INSTANCE, 0x3000);
    assert_eq!(
        vtable_custom_data(&w, INSTANCE, &b),
        Err(CustomDataAccessError::NullContext)
    );
}

#[test]
fn restore_round_trip_is_exact() {
    let mut w = world_with_instance();
    let b = strict_binding(0xAA);
    assert_eq!(vtable_mutation_guard(&mut w, INSTANCE, &b), Ok(()));
    assert_eq!(vtable_restore_vtable(&mut w, INSTANCE, &b), Ok(()));
    assert_eq!(w.read_word(INSTANCE), CANONICAL);

    // A second round trip relocates into fresh memory and undoes itself just
    // as exactly.
    let block = w.alloc_frontier();
    assert_eq!(vtable_set_slot(&mut w, INSTANCE, &b, 2, 0x777), Ok(()));
    assert_eq!(w.read_word(INSTANCE), block + 8);
    assert_eq!(vtable_restore_vtable(&mut w, INSTANCE, &b), Ok(()));
    assert_eq!(w.read_word(INSTANCE), CANONICAL);
    assert_eq!(w.read_word(CANONICAL + 16), 0x333);
}

#[test]
fn module_resolution_and_lookup() {
    let mut w = World::new(0x100, 0x100);
    w.add_module(3, 0x5000, 0x200);
    w.add_module(4, 0x6000, 0x200);
    assert_eq!(w.resolve_module_base(None), Some(0x100));
    assert_eq!(w.resolve_module_base(Some(3)), Some(0x5000));
    assert_eq!(w.resolve_module_base(Some(4)), Some(0x6000));
    assert_eq!(w.resolve_module_base(Some(5)), None);
}
