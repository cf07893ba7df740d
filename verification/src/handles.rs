//! Opaque node handles and the reference-counting ledger.
//!
//! A handle wraps a host-owned node identity. Constructing a handle from a
//! raw identity does not request a new reference (the bridge already owns
//! one, for example the one "create element" returned); duplicating a handle
//! requests one through the clone callback (or reuses the identity when none
//! is registered); releasing a handle gives one back through the destroy
//! callback (or is a no-op). Every acquisition and release is recorded in a
//! ghost ledger, over which the balance law below is proved.

use vstd::prelude::*;

use crate::callbacks::CallbackTable;
use crate::names::QualifiedName;

verus! {

/// A reference-counted wrapper around a host-owned node identity.
///
/// Handles are deliberately not duplicable by the language: the only way to
/// duplicate one is the bridge's clone operation, and the only way to dispose
/// of one is to hand it back to a bridge operation that releases it.
#[derive(Debug)]
pub struct NodeHandle {
    /// The host's opaque, non-null node identity. The bridge never
    /// interprets it.
    pub id: u64,
    /// The callback table the handle was created with.
    pub table: CallbackTable,
    /// The tag name cached at element-creation time; `None` for handles that
    /// do not wrap an element created by the bridge.
    pub name: Option<QualifiedName>,
}

impl NodeHandle {
    /// A copy of the cached qualified name, equal to the stored one.
    pub fn dup_name(&self) -> (r: Option<QualifiedName>)
        ensures
            r == self.name,
    {
        match &self.name {
            Some(q) => Some(q.duplicate()),
            None => None,
        }
    }
}

/// One event in the life of the bridge's handles: an acquisition (an initial
/// creation or a clone) or a release.
pub enum HandleOp {
    Acquire,
    Release,
}

/// How many of the events are acquisitions.
pub open spec fn count_acquires(ops: Seq<HandleOp>) -> nat
    decreases ops.len(),
{
    if ops.len() == 0 {
        0
    } else {
        count_acquires(ops.drop_last()) + if ops.last() is Acquire {
            1nat
        } else {
            0nat
        }
    }
}

/// How many of the events are releases.
pub open spec fn count_releases(ops: Seq<HandleOp>) -> nat
    decreases ops.len(),
{
    if ops.len() == 0 {
        0
    } else {
        count_releases(ops.drop_last()) + if ops.last() is Release {
            1nat
        } else {
            0nat
        }
    }
}

/// Run a ledger, starting from the given acquisition and release counts,
/// through a sequence of handle events.
pub open spec fn apply_handle_ops(acquired: nat, released: nat, ops: Seq<HandleOp>) -> (nat, nat)
    decreases ops.len(),
{
    if ops.len() == 0 {
        (acquired, released)
    } else {
        let prior = apply_handle_ops(acquired, released, ops.drop_last());
        match ops.last() {
            HandleOp::Acquire => ((prior.0 + 1) as nat, prior.1),
            HandleOp::Release => (prior.0, (prior.1 + 1) as nat),
        }
    }
}

/// The ledger run through a sequence of events counts exactly the
/// acquisitions and releases in the sequence.
pub proof fn lemma_ledger_counts(acquired: nat, released: nat, ops: Seq<HandleOp>)
    ensures
        apply_handle_ops(acquired, released, ops).0 == acquired + count_acquires(ops),
        apply_handle_ops(acquired, released, ops).1 == released + count_releases(ops),
    decreases ops.len(),
{
    if ops.len() > 0 {
        lemma_ledger_counts(acquired, released, ops.drop_last());
    }
}

/// Law (refcount balance): over any sequence of handle events, the ledger
/// ends balanced — as many handles released as were acquired by initial
/// creations and clones — exactly when the sequence holds as many releases
/// as acquisitions.
pub proof fn lemma_refcount_balance(ops: Seq<HandleOp>)
    ensures
        apply_handle_ops(0, 0, ops).0 == apply_handle_ops(0, 0, ops).1 <==> count_acquires(ops)
            == count_releases(ops),
{
    lemma_ledger_counts(0, 0, ops);
}

} // verus!
