use jlrs::error::JlrsError;
use jlrs::frame::SlotRef;
use jlrs::{InitGuard, Julia};

#[test]
fn init_reports_stack_size() {
    let jl = Julia::init(InitGuard {}, 16);
    assert_eq!(jl.stack_size(), 16);
    assert_eq!(jl.offset(), 1);
    assert_eq!(jl.head(), 0);
    for i in 1..16 {
        assert_eq!(jl.cell(i), 0);
    }
}

#[test]
fn set_stack_size_replaces_buffer() {
    let mut jl = Julia::init(InitGuard {}, 8);
    assert_eq!(jl.stack_size(), 8);
    jl.set_stack_size(32);
    assert_eq!(jl.stack_size(), 32);
    assert_eq!(jl.offset(), 1);
}

// A buffer of 10 cells: a frame of capacity 3 and a nested frame of
// capacity 2 fill it, a further capacity-1 frame needs 3 free cells and is
// refused, and releasing the capacity-2 frame makes room again.
#[test]
fn nested_reservation_scenario() {
    let mut jl = Julia::init(InitGuard {}, 10);
    let first = jl.reserve(3).unwrap();
    assert_eq!(first.0, 3);
    assert_eq!(jl.offset(), 6);
    assert_eq!(jl.free_cells(), 4);
    let second = jl.reserve(2).unwrap();
    assert_eq!(second.0, 8);
    assert_eq!(jl.offset(), 10);
    assert_eq!(jl.free_cells(), 0);
    assert_eq!(jl.reserve(1), Err(JlrsError::CapacityError));
    assert_eq!(jl.offset(), 10);
    jl.release(second);
    assert_eq!(jl.offset(), 6);
    assert_eq!(jl.free_cells(), 4);
    let third = jl.reserve(1).unwrap();
    assert_eq!(third.0, 8);
    jl.release(third);
    jl.release(first);
    assert_eq!(jl.offset(), 1);
}

// A failed reservation must leave the buffer, the bump offset and the
// root-list head exactly as they were.
#[test]
fn capacity_error_leaves_state() {
    let mut jl = Julia::init(InitGuard {}, 6);
    let idx = jl.reserve(1).unwrap();
    jl.set_root(SlotRef(idx.0), 4242);
    let before: Vec<usize> = (0..6).map(|i| jl.cell(i)).collect();
    let head = jl.head();
    assert_eq!(jl.reserve(10), Err(JlrsError::CapacityError));
    assert_eq!(jl.reserve(2), Err(JlrsError::CapacityError));
    let after: Vec<usize> = (0..6).map(|i| jl.cell(i)).collect();
    assert_eq!(before, after);
    assert_eq!(jl.head(), head);
}

// Every payload slot of a freshly reserved frame reads as the null
// sentinel, even when the region held other values before.
#[test]
fn fresh_frame_slots_null() {
    let mut jl = Julia::init(InitGuard {}, 10);
    let idx = jl.reserve(2).unwrap();
    jl.set_root(SlotRef(idx.0), 11);
    jl.set_root(SlotRef(idx.0 + 1), 22);
    jl.release(idx);
    let again = jl.reserve(2).unwrap();
    assert_eq!(again.0, idx.0);
    assert_eq!(jl.get_root(SlotRef(again.0)), 0);
    assert_eq!(jl.get_root(SlotRef(again.0 + 1)), 0);
}

// A dynamic frame appended with 4 slots one at a time occupies exactly
// 4 + 2 cells and reports the same final bump offset as a fixed frame of
// capacity 4.
#[test]
fn dynamic_frame_matches_fixed() {
    let mut dynamic = Julia::init(InitGuard {}, 12);
    let before = dynamic.offset();
    let idx = dynamic.reserve_dynamic().unwrap();
    for _ in 0..4 {
        dynamic.append_slot(idx).unwrap();
    }
    let occupied = dynamic.offset() - before;
    assert_eq!(occupied, 4 + 2);

    let mut fixed = Julia::init(InitGuard {}, 12);
    fixed.reserve(4).unwrap();
    assert_eq!(dynamic.offset(), fixed.offset());
}

#[test]
fn append_slot_capacity_error() {
    let mut jl = Julia::init(InitGuard {}, 5);
    let idx = jl.reserve_dynamic().unwrap();
    assert_eq!(jl.offset(), 3);
    let s1 = jl.append_slot(idx).unwrap();
    assert_eq!(s1.0, 3);
    assert_eq!(jl.get_root(s1), 0);
    let s2 = jl.append_slot(idx).unwrap();
    assert_eq!(s2.0, 4);
    assert_eq!(jl.append_slot(idx), Err(JlrsError::CapacityError));
    assert_eq!(jl.offset(), 5);
}

// Reserving and releasing restores the collector's root-list head at each
// nesting level.
#[test]
fn release_restores_head() {
    let mut jl = Julia::init(InitGuard {}, 16);
    assert_eq!(jl.head(), 0);
    let outer = jl.reserve(1).unwrap();
    assert_eq!(jl.head(), outer.0 - 2);
    let inner = jl.reserve(2).unwrap();
    assert_eq!(jl.head(), inner.0 - 2);
    jl.release(inner);
    assert_eq!(jl.head(), outer.0 - 2);
    jl.release(outer);
    assert_eq!(jl.head(), 0);
}

// The frame header reproduces the externally fixed layout: the capacity
// shifted left by one bit in the first cell, the previous root-list head in
// the second.
#[test]
fn frame_header_layout() {
    let mut jl = Julia::init(InitGuard {}, 16);
    let idx = jl.reserve(3).unwrap();
    assert_eq!(idx.0, 3);
    assert_eq!(jl.cell(1), 3 << 1);
    assert_eq!(jl.cell(2), 0);
    assert_eq!(jl.cell(0), 6);
    jl.release(idx);
    let dynamic = jl.reserve_dynamic().unwrap();
    assert_eq!(jl.cell(dynamic.0 - 2), 0);
}

#[test]
fn set_and_get_root() {
    let mut jl = Julia::init(InitGuard {}, 10);
    let idx = jl.reserve(2).unwrap();
    jl.set_root(SlotRef(idx.0), 77);
    assert_eq!(jl.get_root(SlotRef(idx.0)), 77);
    assert_eq!(jl.get_root(SlotRef(idx.0 + 1)), 0);
}

// The smallest buffer holds only the bump-offset cell: nothing fits, and
// every refusal leaves it untouched.
#[test]
fn smallest_buffer_fits_nothing() {
    let mut jl = Julia::init(InitGuard {}, 1);
    assert_eq!(jl.free_cells(), 0);
    assert_eq!(jl.reserve(0), Err(JlrsError::CapacityError));
    assert_eq!(jl.reserve_dynamic(), Err(JlrsError::CapacityError));
    assert_eq!(jl.offset(), 1);
    assert_eq!(jl.stack_size(), 1);
}

#[test]
fn error_variants_distinct() {
    assert_ne!(JlrsError::CapacityError, JlrsError::AlreadyInitialized);
    assert_ne!(
        JlrsError::IncludeNotFound(String::from("missing.jl")),
        JlrsError::CapacityError
    );
    assert_eq!(
        JlrsError::IncludeNotFound(String::from("a.jl")),
        JlrsError::IncludeNotFound(String::from("a.jl"))
    );
}
