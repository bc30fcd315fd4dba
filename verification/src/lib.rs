//! A verified model of the rooted-value stack protocol used to embed a
//! garbage-collected runtime in native code.
//!
//! Native call frames register sets of collector roots in a shared buffer of
//! pointer-sized cells. The buffer is managed as a bump-allocated stack of
//! frames; each frame is spliced into the collector's singly linked list of
//! root frames by one of two linkage policies: [`mode::Sync`] (direct, for
//! single-threaded synchronous execution) and [`mode::Async`] (chained, for
//! cooperatively scheduled logical stacks that share one physical link into
//! the collector).
//!
//! The [`Julia`] session owns one buffer and drives it with the direct
//! policy. The collector's root-list head, in the foreign runtime a
//! thread-local pointer, is held as an explicit pointer-sized value so the
//! protocol can be exercised and verified in isolation; the shell that
//! actually starts the runtime wires it to the collector.

pub mod error;
pub mod frame;
pub mod laws;
pub mod mode;
pub mod stack;

use vstd::prelude::*;

use crate::error::JlrsError;
use crate::frame::{FrameIdx, SlotRef};
use crate::mode::{pop_cells, pop_head, push_cells, push_head, Sync};
use crate::stack::RawStack;

verus! {

/// Witness that the foreign runtime has been started. It is minted exactly
/// once per process, by the shell that calls the runtime's initializer, and
/// consumed by value when a [`Julia`] session is created: starting the
/// runtime a second time is refused there as a checked error, never
/// reattempted here.
pub struct InitGuard {}

/// An embedding session: one slot buffer driven by the direct linkage
/// policy, plus the collector's root-list head as an explicit value.
pub struct Julia {
    stack: RawStack,
    head: usize,
}

impl Julia {
    /// The session's buffer cells.
    pub closed spec fn buf(&self) -> Seq<usize> {
        self.stack@
    }

    /// The collector's root-list head as the session holds it.
    pub closed spec fn root_head(&self) -> usize {
        self.head
    }

    /// Well-formedness of the session's buffer.
    pub open spec fn wf(&self) -> bool {
        &&& 1 <= self.buf()[0]
        &&& self.buf()[0] <= self.buf().len()
        &&& self.buf().len() <= usize::MAX / 2
    }

    /// The number of cells still free for reservations.
    pub open spec fn spec_free(&self) -> int {
        self.buf().len() - self.buf()[0]
    }

    /// Creates the session, consuming the witness that the foreign runtime
    /// was started. The buffer holds `stack_size` cells, of which cell 0 is
    /// always in use; the root-list head starts at the null sentinel until
    /// the shell wires it to the collector.
    pub fn init(guard: InitGuard, stack_size: usize) -> (jl: Julia)
        requires
            1 <= stack_size,
            stack_size <= usize::MAX / 2,
        ensures
            jl.wf(),
            jl.buf().len() == stack_size,
            jl.buf()[0] == 1,
            forall|i: int| 1 <= i < stack_size ==> jl.buf()[i] == 0,
            jl.root_head() == 0,
    {
        let InitGuard {  } = guard;
        Julia { stack: RawStack::new(stack_size), head: 0 }
    }

    /// Replaces the buffer with a fresh one of `stack_size` cells. Growth
    /// invalidates every outstanding frame handle, so it is allowed only
    /// while no frame is live.
    pub fn set_stack_size(&mut self, stack_size: usize)
        requires
            old(self).wf(),
            old(self).buf()[0] == 1,
            1 <= stack_size,
            stack_size <= usize::MAX / 2,
        ensures
            final(self).wf(),
            final(self).buf().len() == stack_size,
            final(self).buf()[0] == 1,
            forall|i: int| 1 <= i < stack_size ==> final(self).buf()[i] == 0,
            final(self).root_head() == old(self).root_head(),
    {
        self.stack = RawStack::new(stack_size);
    }

    /// The buffer's total number of cells.
    pub fn stack_size(&self) -> (n: usize)
        ensures
            n == self.buf().len(),
    {
        self.stack.size()
    }

    /// The current bump offset: the number of cells in use.
    pub fn offset(&self) -> (n: usize)
        requires
            self.wf(),
        ensures
            n == self.buf()[0],
    {
        self.stack.offset()
    }

    /// The number of cells still free for reservations.
    pub fn free_cells(&self) -> (n: usize)
        requires
            self.wf(),
        ensures
            n == self.spec_free(),
    {
        self.stack.free_cells()
    }

    /// The collector's root-list head as the session holds it.
    pub fn head(&self) -> (h: usize)
        ensures
            h == self.root_head(),
    {
        self.head
    }

    /// One buffer cell's contents.
    pub fn cell(&self, i: usize) -> (v: usize)
        requires
            i < self.buf().len(),
        ensures
            v == self.buf()[i as int],
    {
        self.stack.cell(i)
    }

    /// Reserves a frame of `capacity` root slots. Succeeds exactly when
    /// `capacity + 2` cells are free; on success every payload slot is
    /// null-initialized, the frame becomes the front of the collector's
    /// root list, and the handle addresses the payload start. On failure
    /// nothing changes and a capacity error is returned.
    pub fn reserve(&mut self, capacity: usize) -> (r: Result<FrameIdx, JlrsError>)
        requires
            old(self).wf(),
        ensures
            r is Ok <==> capacity + 2 <= old(self).spec_free(),
            r matches Ok(idx) ==> {
                &&& idx.0 == old(self).buf()[0] + 2
                &&& final(self).buf() == push_cells(
                    old(self).buf(),
                    old(self).root_head(),
                    old(self).buf()[0] as int,
                    capacity as int,
                    false,
                )
                &&& final(self).root_head() == push_head(
                    old(self).root_head(),
                    old(self).buf()[0] as int,
                    false,
                )
                &&& final(self).buf()[0] == old(self).buf()[0] + capacity + 2
                &&& final(self).root_head() == idx.0 - 2
                &&& forall|j: int| idx.0 <= j < idx.0 + capacity ==> final(self).buf()[j] == 0
            },
            r is Err ==> final(self).buf() == old(self).buf() && final(self).root_head() == old(
                self,
            ).root_head(),
            r matches Err(e) ==> e is CapacityError,
            final(self).wf(),
            final(self).buf().len() == old(self).buf().len(),
    {
        self.stack.reserve::<Sync>(&mut self.head, capacity)
    }

    /// Reserves a dynamically growing frame: zero declared capacity, root
    /// slots appended afterwards with [`Julia::append_slot`]. Succeeds
    /// exactly when 2 cells are free; on failure nothing changes.
    pub fn reserve_dynamic(&mut self) -> (r: Result<FrameIdx, JlrsError>)
        requires
            old(self).wf(),
        ensures
            r is Ok <==> 2 <= old(self).spec_free(),
            r matches Ok(idx) ==> {
                &&& idx.0 == old(self).buf()[0] + 2
                &&& final(self).buf() == push_cells(
                    old(self).buf(),
                    old(self).root_head(),
                    old(self).buf()[0] as int,
                    0,
                    false,
                )
                &&& final(self).root_head() == idx.0 - 2
                &&& final(self).buf()[0] == old(self).buf()[0] + 2
            },
            r is Err ==> final(self).buf() == old(self).buf() && final(self).root_head() == old(
                self,
            ).root_head(),
            r matches Err(e) ==> e is CapacityError,
            final(self).wf(),
            final(self).buf().len() == old(self).buf().len(),
    {
        self.stack.reserve_dynamic::<Sync>(&mut self.head)
    }

    /// Appends one root slot to the dynamically growing frame whose payload
    /// starts at `idx`, which must be the most recently reserved frame
    /// still alive. Succeeds exactly when a cell is free; the new slot is
    /// null-initialized and the bump offset advances by exactly one cell.
    pub fn append_slot(&mut self, idx: FrameIdx) -> (r: Result<SlotRef, JlrsError>)
        requires
            old(self).wf(),
            2 <= idx.0 <= old(self).buf()[0],
            old(self).buf()[idx.0 - 2] == 0,
        ensures
            r is Ok <==> 1 <= old(self).spec_free(),
            r matches Ok(slot) ==> {
                &&& slot.0 == old(self).buf()[0]
                &&& idx.0 <= slot.0
                &&& final(self).buf() == old(self).buf().update(slot.0 as int, 0).update(
                    0,
                    (old(self).buf()[0] + 1) as usize,
                )
                &&& final(self).buf()[0] == old(self).buf()[0] + 1
            },
            r is Err ==> final(self).buf() == old(self).buf(),
            r matches Err(e) ==> e is CapacityError,
            final(self).root_head() == old(self).root_head(),
            final(self).wf(),
            final(self).buf().len() == old(self).buf().len(),
    {
        self.stack.append_slot(idx)
    }

    /// Releases the frame whose payload starts at `idx`, which must be the
    /// most recently reserved frame still alive: the front of the
    /// collector's root list. The head the frame recorded at its push is
    /// restored and the bump offset rewinds to the value it held before the
    /// push. Out-of-order release corrupts the allocator and is excluded by
    /// contract, not detected at run time.
    pub fn release(&mut self, idx: FrameIdx)
        requires
            old(self).wf(),
            3 <= idx.0,
            idx.0 <= old(self).buf()[0],
            old(self).root_head() == idx.0 - 2,
        ensures
            final(self).buf() == pop_cells(old(self).buf(), idx.0 as int, false),
            final(self).root_head() == pop_head(
                old(self).buf(),
                old(self).root_head(),
                idx.0 as int,
                false,
            ),
            final(self).root_head() == old(self).buf()[idx.0 - 1],
            final(self).buf()[0] == idx.0 - 2,
            final(self).wf(),
            final(self).buf().len() == old(self).buf().len(),
    {
        self.stack.release::<Sync>(&mut self.head, idx)
    }

    /// Writes a raw pointer value into one root slot of a live frame.
    pub fn set_root(&mut self, slot: SlotRef, value: usize)
        requires
            old(self).wf(),
            3 <= slot.0,
            slot.0 < old(self).buf()[0],
        ensures
            final(self).buf() == old(self).buf().update(slot.0 as int, value),
            final(self).root_head() == old(self).root_head(),
            final(self).wf(),
    {
        self.stack.set_root(slot, value)
    }

    /// Reads one root slot.
    pub fn get_root(&self, slot: SlotRef) -> (v: usize)
        requires
            slot.0 < self.buf().len(),
        ensures
            v == self.buf()[slot.0 as int],
    {
        self.stack.get_root(slot)
    }
}

} // verus!
