use jlrs::frame::FrameIdx;
use jlrs::mode::{Async, Sync};
use jlrs::stack::RawStack;

// Pushing frames and popping them in reverse order restores the collector's
// root-list head to its value before the first push, at every level.
#[test]
fn direct_head_round_trip() {
    let mut stack = RawStack::new(32);
    let mut head: usize = 777;
    let first = stack.reserve::<Sync>(&mut head, 2).unwrap();
    assert_eq!(head, first.0 - 2);
    let second = stack.reserve::<Sync>(&mut head, 0).unwrap();
    assert_eq!(head, second.0 - 2);
    let third = stack.reserve::<Sync>(&mut head, 4).unwrap();
    assert_eq!(head, third.0 - 2);
    stack.release::<Sync>(&mut head, third);
    assert_eq!(head, second.0 - 2);
    stack.release::<Sync>(&mut head, second);
    assert_eq!(head, first.0 - 2);
    stack.release::<Sync>(&mut head, first);
    assert_eq!(head, 777);
}

// The direct policy records the previous head in each frame's link cell.
#[test]
fn direct_link_cells() {
    let mut stack = RawStack::new(16);
    let mut head: usize = 5555;
    let first = stack.reserve::<Sync>(&mut head, 1).unwrap();
    assert_eq!(stack.cell(first.0 - 1), 5555);
    let second = stack.reserve::<Sync>(&mut head, 1).unwrap();
    assert_eq!(stack.cell(second.0 - 1), first.0 - 2);
}

// For any sequence of reservations followed by releases in reverse order,
// the bump offset returns to the value recorded before each reservation.
#[test]
fn stack_discipline_sequence() {
    let mut stack = RawStack::new(64);
    let mut head: usize = 0;
    let caps = [3usize, 0, 5, 1];
    let mut frames: Vec<(usize, FrameIdx)> = Vec::new();
    for &cap in caps.iter() {
        let before = stack.offset();
        let idx = stack.reserve::<Sync>(&mut head, cap).unwrap();
        frames.push((before, idx));
    }
    for (before, idx) in frames.into_iter().rev() {
        stack.release::<Sync>(&mut head, idx);
        assert_eq!(stack.offset(), before);
    }
    assert_eq!(stack.offset(), 1);
    assert_eq!(head, 0);
}

// Reserving a frame whose capacity + 2 exceeds the remaining free cells
// fails and leaves the bump offset unchanged, whatever the buffer size and
// the prior allocation state.
#[test]
fn exhaustion_across_sizes() {
    for size in 3..20usize {
        let mut stack = RawStack::new(size);
        let mut head: usize = 0;
        // fill with capacity-0 frames until even those no longer fit
        loop {
            let before = stack.offset();
            let free = stack.free_cells();
            let r = stack.reserve::<Sync>(&mut head, free);
            assert!(r.is_err());
            assert_eq!(stack.offset(), before);
            if stack.reserve::<Sync>(&mut head, 0).is_err() {
                assert_eq!(stack.offset(), before);
                break;
            }
        }
        assert!(stack.free_cells() < 2);
    }
}

#[test]
fn exact_fit_succeeds() {
    let mut stack = RawStack::new(9);
    let mut head: usize = 0;
    let idx = stack.reserve::<Sync>(&mut head, 6).unwrap();
    assert_eq!(stack.free_cells(), 0);
    stack.release::<Sync>(&mut head, idx);
    assert_eq!(stack.free_cells(), 8);
}

// Pushing N virtual frames and popping them in reverse order restores
// buffer cell 2 to its original value; the collector's head is never
// touched by any of the operations.
#[test]
fn chained_round_trip() {
    let mut stack = RawStack::new_chained(32);
    let mut head: usize = 999;
    assert_eq!(stack.cell(2), 0);
    let first = stack.reserve::<Async>(&mut head, 2).unwrap();
    assert_eq!(head, 999);
    assert_eq!(stack.cell(2), first.0 - 2);
    let second = stack.reserve::<Async>(&mut head, 1).unwrap();
    assert_eq!(head, 999);
    assert_eq!(stack.cell(2), second.0 - 2);
    let third = stack.reserve_dynamic::<Async>(&mut head).unwrap();
    assert_eq!(head, 999);
    assert_eq!(stack.cell(2), third.0 - 2);
    stack.release::<Async>(&mut head, third);
    assert_eq!(stack.cell(2), second.0 - 2);
    stack.release::<Async>(&mut head, second);
    assert_eq!(stack.cell(2), first.0 - 2);
    stack.release::<Async>(&mut head, first);
    assert_eq!(stack.cell(2), 0);
    assert_eq!(head, 999);
}

// The chained policy links each new virtual frame to the previous one
// through its link cell.
#[test]
fn chained_link_cells() {
    let mut stack = RawStack::new_chained(32);
    let mut head: usize = 0;
    let first = stack.reserve::<Async>(&mut head, 1).unwrap();
    assert_eq!(stack.cell(first.0 - 1), 0);
    let second = stack.reserve::<Async>(&mut head, 1).unwrap();
    assert_eq!(stack.cell(second.0 - 1), first.0 - 2);
    assert_eq!(stack.cell(second.0 - 2), 1 << 1);
}

// Cells below the first virtual frame, the region the collector-visible
// sentinel chain begins in, are not written by chained pushes and pops.
#[test]
fn chained_sentinel_untouched() {
    let mut stack = RawStack::new_chained(24);
    let mut head: usize = 4040;
    let first = stack.reserve::<Async>(&mut head, 1).unwrap();
    stack.set_root(jlrs::frame::SlotRef(first.0), 616);
    let below: Vec<usize> = (3..stack.offset()).map(|i| stack.cell(i)).collect();
    let second = stack.reserve::<Async>(&mut head, 3).unwrap();
    assert_eq!(stack.cell(1), 0);
    assert_eq!(head, 4040);
    let again: Vec<usize> = (3..first.0 + 1).map(|i| stack.cell(i)).collect();
    assert_eq!(below, again);
    stack.release::<Async>(&mut head, second);
    let after: Vec<usize> = (3..first.0 + 1).map(|i| stack.cell(i)).collect();
    assert_eq!(below, after);
    assert_eq!(stack.cell(1), 0);
    assert_eq!(head, 4040);
}
