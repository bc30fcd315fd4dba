//! Frame handles and root-slot references.

use vstd::prelude::*;

verus! {

/// A handle to a live frame: the buffer offset of the first payload cell,
/// two cells past the frame's header.
///
/// The handle owns no memory; it is a capability to address the frame's root
/// slots and to request its release. Frames must be released in exactly the
/// reverse order of their reservation.
#[derive(Clone, Copy, Debug, PartialEq, Eq, Structural)]
pub struct FrameIdx(pub usize);

/// A reference to a single root slot: the buffer offset of one payload cell.
#[derive(Clone, Copy, Debug, PartialEq, Eq, Structural)]
pub struct SlotRef(pub usize);

} // verus!
