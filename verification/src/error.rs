//! Errors of the embedding layer.

use vstd::prelude::*;

verus! {

/// The error taxonomy of the embedding layer.
///
/// Only `CapacityError` is produced by the rooted-stack core itself; it is
/// fully recoverable and is signaled without mutating any state. The other
/// variants belong to the session shell built on top of the core.
#[derive(Clone, Debug, PartialEq, Eq)]
pub enum JlrsError {
    /// The foreign runtime was already started once in this process.
    AlreadyInitialized,
    /// A reservation or dynamic append would exceed the buffer's remaining
    /// free cells.
    CapacityError,
    /// The file handed to the include operation does not exist.
    IncludeNotFound(String),
}

} // verus!
