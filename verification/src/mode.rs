//! Linkage policies: how a frame is spliced into, and unspliced from, the
//! collector's singly linked list of root frames.
//!
//! Two interchangeable encodings exist. [`Sync`] (direct) reads and
//! overwrites the collector's root-list head on every push and pop; it is
//! meant for a single native thread talking to the runtime synchronously.
//! [`Async`] (chained) keeps a private list of virtual frames rooted at
//! buffer cell 2 and never touches the collector's head: the collector is
//! told only about one permanently pinned sentinel frame, so many
//! cooperatively scheduled logical stacks, each owning its own buffer, can
//! coexist without contending on the collector's single pointer.
//!
//! The collector's root-list head is an external resource; it is passed to
//! every operation as an explicit value rather than read ambiently, so the
//! policies can be exercised in isolation against a stand-in head. A value
//! that in the foreign runtime would be the address of buffer cell `o` is
//! represented here by the offset `o` itself.

use vstd::prelude::*;

use crate::frame::FrameIdx;
use crate::stack::RawStack;

verus! {

/// The number of leading buffer cells a policy reserves for itself: cell 0
/// (the bump offset) for the direct policy; cells 0, 1 and 2 for the chained
/// policy, whose private list head lives in cell 2.
pub open spec fn reserved_cells(chained: bool) -> int {
    if chained {
        3
    } else {
        1
    }
}

/// The value recorded in a new frame's link cell: the collector's root-list
/// head before the push under the direct policy, the previous virtual
/// frame's region offset (buffer cell 2) under the chained policy.
pub open spec fn frame_link(cells: Seq<usize>, head: usize, chained: bool) -> usize {
    if chained {
        cells[2]
    } else {
        head
    }
}

/// The buffer contents after a frame of `cap` root slots is pushed at offset
/// `o`: header cell `o` holds the capacity tag, cell `o + 1` the link, the
/// `cap` payload cells are null-initialized, the new frame becomes the front
/// of the policy's list, and cell 0 advances past the frame.
pub open spec fn push_cells(cells: Seq<usize>, head: usize, o: int, cap: int, chained: bool) -> Seq<
    usize,
> {
    let tagged = cells.update(o, (cap * 2) as usize).update(o + 1, frame_link(cells, head, chained));
    let zeroed = Seq::new(
        cells.len(),
        |i: int| if o + 2 <= i && i < o + 2 + cap {
            0usize
        } else {
            tagged[i]
        },
    );
    let linked = if chained {
        zeroed.update(2, o as usize)
    } else {
        zeroed
    };
    linked.update(0, (o + cap + 2) as usize)
}

/// The collector's root-list head after a push at offset `o`: the new frame
/// under the direct policy, untouched under the chained policy.
pub open spec fn push_head(head: usize, o: int, chained: bool) -> usize {
    if chained {
        head
    } else {
        o as usize
    }
}

/// The buffer contents after the frame with payload start `idx` is popped:
/// the link recorded in cell `idx - 1` becomes the front of the policy's
/// list again, and cell 0 rewinds to the frame's header offset.
pub open spec fn pop_cells(cells: Seq<usize>, idx: int, chained: bool) -> Seq<usize> {
    let unlinked = if chained {
        cells.update(2, cells[idx - 1])
    } else {
        cells
    };
    unlinked.update(0, (idx - 2) as usize)
}

/// The collector's root-list head after a pop: restored to the popped
/// frame's recorded link under the direct policy, untouched under the
/// chained policy.
pub open spec fn pop_head(cells: Seq<usize>, head: usize, idx: int, chained: bool) -> usize {
    if chained {
        head
    } else {
        cells[idx - 1]
    }
}

/// Closes the set of linkage policies: exactly the two encodings below
/// exist, and a buffer is used with one of them for its whole lifetime.
pub trait Sealed {

}

/// A linkage policy. `new_frame` and `new_dynamic_frame` splice a
/// null-initialized frame region into the policy's list and advance the bump
/// offset; `pop_frame` unsplices the front frame and rewinds the offset.
///
/// `head` is the collector's root-list head, handed in explicitly. `size`
/// must be the current bump offset (buffer cell 0), and releases must follow
/// stack discipline: the popped frame is the front of the policy's list.
pub trait Mode: Sealed {
    /// Whether this policy links frames through buffer cell 2 (chained)
    /// rather than through the collector's root-list head (direct).
    spec fn chained() -> bool;

    /// Pushes a frame with `capacity` null-initialized root slots at offset
    /// `size`, returning a handle to its payload start.
    fn new_frame(stack: &mut RawStack, head: &mut usize, size: usize, capacity: usize) -> (idx:
        FrameIdx)
        requires
            old(stack).wf(),
            size == old(stack)@[0],
            reserved_cells(Self::chained()) <= size,
            size + capacity + 2 <= old(stack)@.len(),
        ensures
            final(stack)@ == push_cells(old(stack)@, *old(head), size as int, capacity as int, Self::chained()),
            *final(head) == push_head(*old(head), size as int, Self::chained()),
            idx.0 == size + 2,
            final(stack).wf(),
            final(stack)@.len() == old(stack)@.len(),
    ;

    /// Pushes a dynamically growing frame: a frame of zero declared
    /// capacity, whose root slots are appended one at a time afterwards.
    fn new_dynamic_frame(stack: &mut RawStack, head: &mut usize, size: usize) -> (idx: FrameIdx)
        requires
            old(stack).wf(),
            size == old(stack)@[0],
            reserved_cells(Self::chained()) <= size,
            size + 2 <= old(stack)@.len(),
        ensures
            final(stack)@ == push_cells(old(stack)@, *old(head), size as int, 0, Self::chained()),
            *final(head) == push_head(*old(head), size as int, Self::chained()),
            idx.0 == size + 2,
            final(stack).wf(),
            final(stack)@.len() == old(stack)@.len(),
    ;

    /// Pops the frame whose payload starts at `idx`: restores the link it
    /// recorded as the front of the policy's list and rewinds the bump
    /// offset to the value it had before the frame was pushed.
    fn pop_frame(stack: &mut RawStack, head: &mut usize, idx: FrameIdx)
        requires
            old(stack).wf(),
            reserved_cells(Self::chained()) + 2 <= idx.0,
            idx.0 <= old(stack)@[0],
            if Self::chained() {
                old(stack)@[2] == idx.0 - 2
            } else {
                *old(head) == idx.0 - 2
            },
        ensures
            final(stack)@ == pop_cells(old(stack)@, idx.0 as int, Self::chained()),
            *final(head) == pop_head(old(stack)@, *old(head), idx.0 as int, Self::chained()),
            final(stack)@[0] == idx.0 - 2,
            final(stack).wf(),
            final(stack)@.len() == old(stack)@.len(),
    ;
}

/// The direct policy, used by the synchronous runtime: every push makes the
/// new frame the front of the collector's own root list, every pop restores
/// the head the frame recorded.
pub struct Sync {}

/// The chained policy, used by the cooperatively multitasked runtime: pushes
/// and pops touch only the buffer's private list head in cell 2, never the
/// collector's root-list head.
pub struct Async {}

impl Sealed for Sync {

}

impl Sealed for Async {

}

impl Mode for Sync {
    open spec fn chained() -> bool {
        false
    }

    #[verifier::loop_isolation(false)]
    fn new_frame(stack: &mut RawStack, head: &mut usize, size: usize, capacity: usize) -> (idx:
        FrameIdx) {
        stack.set_cell(size, capacity * 2);
        stack.set_cell(size + 1, *head);
        let ghost headers = stack@;
        let mut i: usize = 0;
        while i < capacity
            invariant
                i <= capacity,
                size + capacity + 2 <= stack@.len(),
                stack@.len() == headers.len(),
                forall|j: int|
                    0 <= j < stack@.len() && !(size + 2 <= j < size + 2 + i) ==> stack@[j]
                        == headers[j],
                forall|j: int| size + 2 <= j < size + 2 + i ==> stack@[j] == 0,
            decreases capacity - i,
        {
            stack.set_cell(size + 2 + i, 0);
            i += 1;
        }
        *head = size;
        stack.set_cell(0, size + capacity + 2);
        proof {
            assert(stack@ =~= push_cells(
                old(stack)@,
                *old(head),
                size as int,
                capacity as int,
                false,
            ));
        }
        FrameIdx(size + 2)
    }

    fn new_dynamic_frame(stack: &mut RawStack, head: &mut usize, size: usize) -> (idx: FrameIdx) {
        stack.set_cell(size, 0);
        stack.set_cell(size + 1, *head);
        *head = size;
        stack.set_cell(0, size + 2);
        proof {
            assert(stack@ =~= push_cells(old(stack)@, *old(head), size as int, 0, false));
        }
        FrameIdx(size + 2)
    }

    fn pop_frame(stack: &mut RawStack, head: &mut usize, idx: FrameIdx) {
        let front: usize = *head;
        *head = stack.cell(front + 1);
        stack.set_cell(0, idx.0 - 2);
        proof {
            assert(stack@ =~= pop_cells(old(stack)@, idx.0 as int, false));
        }
    }
}

impl Mode for Async {
    open spec fn chained() -> bool {
        true
    }

    #[verifier::loop_isolation(false)]
    fn new_frame(stack: &mut RawStack, head: &mut usize, size: usize, capacity: usize) -> (idx:
        FrameIdx) {
        stack.set_cell(size, capacity * 2);
        let link: usize = stack.cell(2);
        stack.set_cell(size + 1, link);
        let ghost headers = stack@;
        let mut i: usize = 0;
        while i < capacity
            invariant
                i <= capacity,
                size + capacity + 2 <= stack@.len(),
                3 <= size,
                stack@.len() == headers.len(),
                forall|j: int|
                    0 <= j < stack@.len() && !(size + 2 <= j < size + 2 + i) ==> stack@[j]
                        == headers[j],
                forall|j: int| size + 2 <= j < size + 2 + i ==> stack@[j] == 0,
            decreases capacity - i,
        {
            stack.set_cell(size + 2 + i, 0);
            i += 1;
        }
        stack.set_cell(2, size);
        stack.set_cell(0, size + capacity + 2);
        proof {
            assert(stack@ =~= push_cells(
                old(stack)@,
                *old(head),
                size as int,
                capacity as int,
                true,
            ));
        }
        FrameIdx(size + 2)
    }

    fn new_dynamic_frame(stack: &mut RawStack, head: &mut usize, size: usize) -> (idx: FrameIdx) {
        stack.set_cell(size, 0);
        let link: usize = stack.cell(2);
        stack.set_cell(size + 1, link);
        stack.set_cell(2, size);
        stack.set_cell(0, size + 2);
        proof {
            assert(stack@ =~= push_cells(old(stack)@, *old(head), size as int, 0, true));
        }
        FrameIdx(size + 2)
    }

    fn pop_frame(stack: &mut RawStack, head: &mut usize, idx: FrameIdx) {
        stack.set_cell(0, idx.0 - 2);
        let link: usize = stack.cell(idx.0 - 1);
        stack.set_cell(2, link);
        proof {
            assert(stack@ =~= pop_cells(old(stack)@, idx.0 as int, true));
        }
    }
}

} // verus!
