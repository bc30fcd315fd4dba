//! The slot buffer and its bump allocator.
//!
//! A [`RawStack`] is a fixed-capacity, contiguous array of pointer-sized
//! cells that native code owns and the foreign collector is told to scan.
//! Cell 0 always holds the bump offset: the number of cells currently in
//! use. Frames are handed out by bump allocation and must be released in
//! reverse order of reservation; a failed reservation leaves the buffer
//! exactly as it was.
//!
//! A raw pointer to a runtime value is represented by a pointer-sized plain
//! value; the null sentinel is 0. The collector's root-list head is passed
//! into every operation explicitly.

use vstd::prelude::*;

use crate::error::JlrsError;
use crate::frame::{FrameIdx, SlotRef};
use crate::mode::{pop_cells, pop_head, push_cells, push_head, reserved_cells, Mode};

verus! {

/// The shared buffer of pointer-sized cells, with cell 0 as the bump
/// offset. Its length is fixed at construction; growth means constructing a
/// new buffer, which is only sound while no frame is live.
pub struct RawStack {
    pub(crate) cells: Vec<usize>,
}

impl RawStack {
    /// The buffer's cells as a sequence.
    pub closed spec fn view(&self) -> Seq<usize> {
        self.cells@
    }

    /// Well-formedness: cell 0 exists and counts at least itself as in use,
    /// the in-use region lies inside the buffer, and the buffer is small
    /// enough that a capacity tag (capacity shifted left by one bit) cannot
    /// wrap a pointer-sized cell.
    pub open spec fn wf(&self) -> bool {
        &&& 1 <= self@[0]
        &&& self@[0] <= self@.len()
        &&& self@.len() <= usize::MAX / 2
    }

    /// The number of cells still free for reservations.
    pub open spec fn spec_free(&self) -> int {
        self@.len() - self@[0]
    }

    /// A fresh buffer of `size` cells for a direct-mode session: cell 0 in
    /// use, every other cell null.
    ///
    /// `size` is bounded so that a capacity tag cannot wrap a cell; a buffer
    /// of pointer-sized cells above that bound could not be addressed
    /// anyway.
    pub fn new(size: usize) -> (s: RawStack)
        requires
            1 <= size,
            size <= usize::MAX / 2,
        ensures
            s.wf(),
            s@.len() == size,
            s@[0] == 1,
            forall|i: int| 1 <= i < size ==> s@[i] == 0,
    {
        let mut cells: Vec<usize> = zeroed_cells(size);
        cells[0] = 1;
        RawStack { cells }
    }

    /// A fresh buffer of `size` cells for a chained-mode task: cells 0, 1
    /// and 2 in use, cell 2 (the private list head) and every later cell
    /// null.
    pub fn new_chained(size: usize) -> (s: RawStack)
        requires
            3 <= size,
            size <= usize::MAX / 2,
        ensures
            s.wf(),
            s@.len() == size,
            s@[0] == 3,
            forall|i: int| 1 <= i < size ==> s@[i] == 0,
    {
        let mut cells: Vec<usize> = zeroed_cells(size);
        cells[0] = 3;
        RawStack { cells }
    }

    /// The buffer's total number of cells.
    pub fn size(&self) -> (n: usize)
        ensures
            n == self@.len(),
    {
        self.cells.len()
    }

    /// The current bump offset, read from cell 0.
    pub fn offset(&self) -> (n: usize)
        requires
            self.wf(),
        ensures
            n == self@[0],
    {
        self.cells[0]
    }

    /// The number of cells still free for reservations.
    pub fn free_cells(&self) -> (n: usize)
        requires
            self.wf(),
        ensures
            n == self.spec_free(),
    {
        self.cells.len() - self.cells[0]
    }

    /// Overwrites one cell. The linkage policies manipulate the buffer
    /// through this alone.
    pub(crate) fn set_cell(&mut self, i: usize, v: usize)
        requires
            i < old(self)@.len(),
        ensures
            final(self)@ == old(self)@.update(i as int, v),
    {
        self.cells[i] = v;
    }

    /// One cell's contents.
    pub fn cell(&self, i: usize) -> (v: usize)
        requires
            i < self@.len(),
        ensures
            v == self@[i as int],
    {
        self.cells[i]
    }

    /// Reserves a frame of `capacity` root slots under linkage policy `M`,
    /// splicing it into the policy's list with `head` as the collector's
    /// root-list head.
    ///
    /// Succeeds exactly when `capacity + 2` cells are free; on success every
    /// payload slot is null-initialized, the bump offset advances past the
    /// frame, and the returned handle addresses the payload start. On
    /// failure nothing changes.
    pub fn reserve<M: Mode>(&mut self, head: &mut usize, capacity: usize) -> (r: Result<
        FrameIdx,
        JlrsError,
    >)
        requires
            old(self).wf(),
            reserved_cells(M::chained()) <= old(self)@[0],
        ensures
            r is Ok <==> capacity + 2 <= old(self).spec_free(),
            r matches Ok(idx) ==> {
                &&& idx.0 == old(self)@[0] + 2
                &&& final(self)@ == push_cells(
                    old(self)@,
                    *old(head),
                    old(self)@[0] as int,
                    capacity as int,
                    M::chained(),
                )
                &&& *final(head) == push_head(*old(head), old(self)@[0] as int, M::chained())
                &&& final(self)@[0] == old(self)@[0] + capacity + 2
                &&& forall|j: int| idx.0 <= j < idx.0 + capacity ==> final(self)@[j] == 0
            },
            r is Err ==> final(self)@ == old(self)@ && *final(head) == *old(head),
            r matches Err(e) ==> e is CapacityError,
            final(self).wf(),
            final(self)@.len() == old(self)@.len(),
    {
        let size: usize = self.cells[0];
        let free: usize = self.cells.len() - size;
        if free < 2 || capacity > free - 2 {
            return Err(JlrsError::CapacityError);
        }
        let idx = M::new_frame(self, head, size, capacity);
        Ok(idx)
    }

    /// Reserves a dynamically growing frame: a frame of zero declared
    /// capacity whose root slots are appended afterwards with
    /// [`RawStack::append_slot`]. Succeeds exactly when 2 cells are free; on
    /// failure nothing changes.
    pub fn reserve_dynamic<M: Mode>(&mut self, head: &mut usize) -> (r: Result<FrameIdx, JlrsError>)
        requires
            old(self).wf(),
            reserved_cells(M::chained()) <= old(self)@[0],
        ensures
            r is Ok <==> 2 <= old(self).spec_free(),
            r matches Ok(idx) ==> {
                &&& idx.0 == old(self)@[0] + 2
                &&& final(self)@ == push_cells(
                    old(self)@,
                    *old(head),
                    old(self)@[0] as int,
                    0,
                    M::chained(),
                )
                &&& *final(head) == push_head(*old(head), old(self)@[0] as int, M::chained())
                &&& final(self)@[0] == old(self)@[0] + 2
            },
            r is Err ==> final(self)@ == old(self)@ && *final(head) == *old(head),
            r matches Err(e) ==> e is CapacityError,
            final(self).wf(),
            final(self)@.len() == old(self)@.len(),
    {
        let size: usize = self.cells[0];
        let free: usize = self.cells.len() - size;
        if free < 2 {
            return Err(JlrsError::CapacityError);
        }
        let idx = M::new_dynamic_frame(self, head, size);
        Ok(idx)
    }

    /// Appends one root slot to the dynamically growing frame whose payload
    /// starts at `idx`, which must be the most recently reserved frame still
    /// alive. Succeeds exactly when a cell is free; the new slot is
    /// null-initialized and the bump offset advances by exactly one cell. On
    /// failure nothing changes.
    pub fn append_slot(&mut self, idx: FrameIdx) -> (r: Result<SlotRef, JlrsError>)
        requires
            old(self).wf(),
            2 <= idx.0 <= old(self)@[0],
            old(self)@[idx.0 - 2] == 0,
        ensures
            r is Ok <==> 1 <= old(self).spec_free(),
            r matches Ok(slot) ==> {
                &&& slot.0 == old(self)@[0]
                &&& idx.0 <= slot.0
                &&& final(self)@ == old(self)@.update(slot.0 as int, 0).update(
                    0,
                    (old(self)@[0] + 1) as usize,
                )
                &&& final(self)@[0] == old(self)@[0] + 1
                &&& final(self)@[slot.0 as int] == 0
            },
            r is Err ==> final(self)@ == old(self)@,
            r matches Err(e) ==> e is CapacityError,
            final(self).wf(),
            final(self)@.len() == old(self)@.len(),
    {
        let size: usize = self.cells[0];
        if size >= self.cells.len() {
            return Err(JlrsError::CapacityError);
        }
        self.cells[size] = 0;
        self.cells[0] = size + 1;
        Ok(SlotRef(size))
    }

    /// Releases the frame whose payload starts at `idx`, which must be the
    /// most recently reserved frame still alive: the front of policy `M`'s
    /// linkage list. The link the frame recorded becomes the front of the
    /// list again and the bump offset rewinds to the value it held before
    /// the frame was pushed. Out-of-order release corrupts the allocator and
    /// is excluded by contract, not detected at run time.
    pub fn release<M: Mode>(&mut self, head: &mut usize, idx: FrameIdx)
        requires
            old(self).wf(),
            reserved_cells(M::chained()) + 2 <= idx.0,
            idx.0 <= old(self)@[0],
            if M::chained() {
                old(self)@[2] == idx.0 - 2
            } else {
                *old(head) == idx.0 - 2
            },
        ensures
            final(self)@ == pop_cells(old(self)@, idx.0 as int, M::chained()),
            *final(head) == pop_head(old(self)@, *old(head), idx.0 as int, M::chained()),
            final(self)@[0] == idx.0 - 2,
            final(self).wf(),
            final(self)@.len() == old(self)@.len(),
    {
        M::pop_frame(self, head, idx);
    }

    /// Writes a raw pointer value into one root slot. `slot` must lie in a
    /// live frame's payload: at cell 3 or later (past every cell a policy
    /// reserves) and below the bump offset. Addressing a slot of a released
    /// frame, or another frame's header, is a contract violation of the
    /// scope layer above, not detected here.
    pub fn set_root(&mut self, slot: SlotRef, value: usize)
        requires
            old(self).wf(),
            3 <= slot.0,
            slot.0 < old(self)@[0],
        ensures
            final(self)@ == old(self)@.update(slot.0 as int, value),
            final(self).wf(),
    {
        self.cells[slot.0] = value;
    }

    /// Reads one root slot.
    pub fn get_root(&self, slot: SlotRef) -> (v: usize)
        requires
            slot.0 < self@.len(),
        ensures
            v == self@[slot.0 as int],
    {
        self.cells[slot.0]
    }
}

/// A vector of `size` null cells.
fn zeroed_cells(size: usize) -> (cells: Vec<usize>)
    ensures
        cells@.len() == size,
        forall|i: int| 0 <= i < size ==> cells@[i] == 0,
{
    let mut cells: Vec<usize> = Vec::new();
    let mut i: usize = 0;
    while i < size
        invariant
            i <= size,
            cells@.len() == i,
            forall|j: int| 0 <= j < i ==> cells@[j] == 0,
        decreases size - i,
    {
        cells.push(0);
        i += 1;
    }
    cells
}

} // verus!
