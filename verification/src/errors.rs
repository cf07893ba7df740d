//! Failure statuses surfaced at the boundary.
//!
//! An internal failure never unwinds across a boundary entry point: every
//! entry point returns a failure status instead. A failed call leaves the
//! enclosing parser instance safe to destroy, but not safe to keep using.

use vstd::prelude::*;

verus! {

/// Why a boundary call did not complete its effect.
#[derive(Copy, Clone, Debug, PartialEq, Eq, Structural)]
pub enum GlueError {
    /// The instance was already told there is no more input.
    AlreadyEnded,
    /// The instance was already destroyed.
    AlreadyDestroyed,
    /// A mandatory callback returned a null node identity where a node was
    /// required: a callback contract violation.
    NullNodeIdentity,
    /// A callback reported a failure status: a callback contract violation.
    CallbackFailed,
    /// A handle was asked for its tag name but carries no cached qualified
    /// name: the engine only asks this of handles it obtained from element
    /// creation, so absence is a callback contract violation.
    MissingElementName,
}

} // verus!
