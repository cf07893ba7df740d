//! The streaming parser lifecycle.
//!
//! One parser instance owns one tree-sink bridge wired to a host-supplied
//! root node, and walks an irreversible lifecycle: ready, feeding, ended,
//! destroyed. Feeding decodes each byte chunk on its own (lossy, with
//! substitution for invalid sequences — a chunk boundary that splits a
//! multi-byte sequence is decoded per chunk, not per stream, a deliberate
//! part of the buffering contract) and yields the decoded text for the
//! engine's tokenizer; the engine itself runs outside this library and calls
//! back into the bridge while it consumes that text.

use vstd::prelude::*;

use crate::callbacks::CallbackTable;
use crate::callbacks::HostCallbacks;
use crate::callbacks::calls_ok_from;
use crate::callbacks::extends;
use crate::errors::GlueError;
use crate::handles::HandleOp;
use crate::names::QualifiedName;
use crate::sink::TreeSinkBridge;
use crate::sink::rel_at;
use crate::sink::rel_len;
use crate::slices::BytesSlice;

verus! {

/// Where an instance stands in its life. The order is irreversible: ended
/// instances never feed again, destroyed instances never do anything again.
#[derive(Copy, Clone, Debug, PartialEq, Eq, Structural)]
pub enum LifecycleState {
    /// Constructed; no bytes fed yet.
    Ready,
    /// At least one chunk fed; more may follow.
    Feeding,
    /// Told there is no more input.
    Ended,
    /// Fully released.
    Destroyed,
}

/// The operations that drive the lifecycle.
#[derive(Copy, Clone, Debug, PartialEq, Eq, Structural)]
pub enum LifecycleOp {
    Feed,
    End,
    Destroy,
}

/// Whether a state accepts an operation: feeding and ending are allowed
/// until the instance has ended; destruction is allowed until it has
/// happened once.
pub open spec fn lifecycle_accepts(s: LifecycleState, op: LifecycleOp) -> bool {
    match op {
        LifecycleOp::Feed => s is Ready || s is Feeding,
        LifecycleOp::End => s is Ready || s is Feeding,
        LifecycleOp::Destroy => !(s is Destroyed),
    }
}

/// The state after an operation: an accepted operation moves the instance
/// forward; a rejected one leaves it unchanged.
pub open spec fn lifecycle_step(s: LifecycleState, op: LifecycleOp) -> LifecycleState {
    if lifecycle_accepts(s, op) {
        match op {
            LifecycleOp::Feed => LifecycleState::Feeding,
            LifecycleOp::End => LifecycleState::Ended,
            LifecycleOp::Destroy => LifecycleState::Destroyed,
        }
    } else {
        s
    }
}

/// The failure a rejected operation reports: the instance has ended (and the
/// operation needed input to still be open), or it has been destroyed.
pub open spec fn lifecycle_error(s: LifecycleState) -> GlueError {
    if s is Destroyed {
        GlueError::AlreadyDestroyed
    } else {
        GlueError::AlreadyEnded
    }
}

/// How far along its life a state is.
pub open spec fn lifecycle_rank(s: LifecycleState) -> nat {
    match s {
        LifecycleState::Ready => 0,
        LifecycleState::Feeding => 1,
        LifecycleState::Ended => 2,
        LifecycleState::Destroyed => 3,
    }
}

/// The state after a whole sequence of operations.
pub open spec fn run_lifecycle(s: LifecycleState, ops: Seq<LifecycleOp>) -> LifecycleState
    decreases ops.len(),
{
    if ops.len() == 0 {
        s
    } else {
        lifecycle_step(run_lifecycle(s, ops.drop_last()), ops.last())
    }
}

/// How many operations of a sequence are accepted ends.
pub open spec fn accepted_ends(s: LifecycleState, ops: Seq<LifecycleOp>) -> nat
    decreases ops.len(),
{
    if ops.len() == 0 {
        0
    } else {
        accepted_ends(s, ops.drop_last()) + if ops.last() is End && lifecycle_accepts(
            run_lifecycle(s, ops.drop_last()),
            LifecycleOp::End,
        ) {
            1nat
        } else {
            0nat
        }
    }
}

/// Law (lifecycle monotonicity, first half): no operation moves an instance
/// backwards — the rank never decreases over any sequence of operations. In
/// particular, an ended instance never feeds again and a destroyed instance
/// never leaves that state.
pub proof fn lemma_lifecycle_monotonic(s: LifecycleState, ops: Seq<LifecycleOp>)
    ensures
        lifecycle_rank(run_lifecycle(s, ops)) >= lifecycle_rank(s),
    decreases ops.len(),
{
    if ops.len() > 0 {
        lemma_lifecycle_monotonic(s, ops.drop_last());
    }
}

/// Law (lifecycle monotonicity, second half): over any sequence of
/// operations on a fresh instance, "end" succeeds at most once; and once the
/// instance has ended, feeding is never accepted again.
pub proof fn lemma_end_succeeds_at_most_once(s: LifecycleState, ops: Seq<LifecycleOp>)
    ensures
        accepted_ends(s, ops) + (if lifecycle_rank(s) <= 1 {
            0nat
        } else {
            1nat
        }) <= 1,
        lifecycle_rank(run_lifecycle(s, ops)) <= 1 ==> accepted_ends(s, ops) == 0,
    decreases ops.len(),
{
    if ops.len() > 0 {
        lemma_end_succeeds_at_most_once(s, ops.drop_last());
        lemma_lifecycle_monotonic(s, ops.drop_last());
    }
}

/// Law (feeding stays open before the end): a fresh instance accepts any
/// number of feeds — after feeds alone it still accepts the next feed.
pub proof fn lemma_feed_succeeds_before_end(s: LifecycleState, ops: Seq<LifecycleOp>)
    requires
        lifecycle_accepts(s, LifecycleOp::Feed),
        forall|i: int| 0 <= i < ops.len() ==> ops[i] is Feed,
    ensures
        lifecycle_accepts(run_lifecycle(s, ops), LifecycleOp::Feed),
    decreases ops.len(),
{
    if ops.len() > 0 {
        lemma_feed_succeeds_before_end(s, ops.drop_last());
    }
}

/// Law (root handle stability): when the host registers no clone-reference
/// callback, every handle "get document" returns carries the root identity
/// itself, so the fallback same-node test of that handle against the root
/// always holds.
pub proof fn lemma_root_handle_stability(document_id: u64, returned_id: u64)
    requires
        returned_id == document_id,
    ensures
        crate::sink::fallback_same_node(returned_id, document_id),
{
}

/// What decoding a byte chunk yields. Relied on below: the decode depends on
/// the bytes alone.
pub uninterp spec fn lossy_of(bytes: Seq<u8>) -> Seq<char>;

/// Relies on `String::from_utf8_lossy`: decodes the bytes as UTF-8,
/// replacing invalid sequences with the substitution character; the result
/// is a function of the bytes alone.
#[verifier::external_body]
fn lossy_utf8(bytes: &[u8]) -> (r: String)
    ensures
        r@ == lossy_of(bytes@),
{
    String::from_utf8_lossy(bytes).into_owned()
}

/// One streaming parser instance: a lifecycle state and the tree-sink bridge
/// the engine drives between feeds.
pub struct Parser {
    pub state: LifecycleState,
    pub bridge: TreeSinkBridge,
}

/// Construct a parser instance bound to a host-supplied root node: a fresh
/// bridge whose document handle wraps that identity (quirks-mode tracking
/// starts at "no quirks"), in the ready state.
pub fn new_parser(table: CallbackTable, root: u64) -> (p: Parser)
    ensures
        p.state is Ready,
        p.bridge.table == table,
        p.bridge.document == (crate::handles::NodeHandle { id: root, table, name: None }),
        p.bridge.quirks_mode is NoQuirks,
        p.bridge.calls@ == Seq::<crate::callbacks::HostCall>::empty(),
        p.bridge.handle_ops@ == Seq::<HandleOp>::empty().push(HandleOp::Acquire),
{
    Parser { state: LifecycleState::Ready, bridge: TreeSinkBridge::new(table, root) }
}

/// Feed one byte chunk. Accepted while the instance is ready or feeding:
/// the chunk is decoded (lossy, per chunk) and the decoded text is returned
/// for the engine's tokenizer to consume. Rejected with the exact lifecycle
/// failure otherwise, leaving the instance unchanged.
pub fn feed_parser(parser: &mut Parser, chunk: BytesSlice<'_>) -> (r: Result<String, GlueError>)
    ensures
        final(parser).bridge == old(parser).bridge,
        final(parser).state == lifecycle_step(old(parser).state, LifecycleOp::Feed),
        lifecycle_accepts(old(parser).state, LifecycleOp::Feed) ==> (r matches Ok(text) && text@
            == lossy_of(chunk@)),
        !lifecycle_accepts(old(parser).state, LifecycleOp::Feed) ==> r == Err::<String, GlueError>(
            lifecycle_error(old(parser).state),
        ),
{
    match parser.state {
        LifecycleState::Ready | LifecycleState::Feeding => {
            parser.state = LifecycleState::Feeding;
            Ok(lossy_utf8(chunk.as_slice()))
        },
        LifecycleState::Ended => Err(GlueError::AlreadyEnded),
        LifecycleState::Destroyed => Err(GlueError::AlreadyDestroyed),
    }
}

/// Signal end of input. Accepted exactly once, while the instance is ready
/// or feeding; the caller then tells the engine to flush its pending work.
/// Rejected with the exact lifecycle failure otherwise, leaving the instance
/// unchanged.
pub fn end_parser(parser: &mut Parser) -> (r: Result<(), GlueError>)
    ensures
        final(parser).bridge == old(parser).bridge,
        final(parser).state == lifecycle_step(old(parser).state, LifecycleOp::End),
        lifecycle_accepts(old(parser).state, LifecycleOp::End) ==> r == Ok::<(), GlueError>(()),
        !lifecycle_accepts(old(parser).state, LifecycleOp::End) ==> r == Err::<(), GlueError>(
            lifecycle_error(old(parser).state),
        ),
{
    match parser.state {
        LifecycleState::Ready | LifecycleState::Feeding => {
            parser.state = LifecycleState::Ended;
            Ok(())
        },
        LifecycleState::Ended => Err(GlueError::AlreadyEnded),
        LifecycleState::Destroyed => Err(GlueError::AlreadyDestroyed),
    }
}

/// Release the instance, reachable from any state it has not already been
/// released from, and with it the document handle's reference (one ledger
/// release; one destroy invocation when that callback is registered, whose
/// failure report is surfaced). A second destruction is a defined failure,
/// not a double release.
pub fn destroy_parser<H: HostCallbacks>(parser: &mut Parser, host: &mut H) -> (r: Result<
    (),
    GlueError,
>)
    ensures
        final(parser).state == lifecycle_step(old(parser).state, LifecycleOp::Destroy),
        !lifecycle_accepts(old(parser).state, LifecycleOp::Destroy) ==> ({
            &&& r == Err::<(), GlueError>(GlueError::AlreadyDestroyed)
            &&& final(parser).bridge == old(parser).bridge
        }),
        lifecycle_accepts(old(parser).state, LifecycleOp::Destroy) ==> ({
            let pre = old(parser).bridge;
            let post = final(parser).bridge;
            &&& post.table == pre.table
            &&& post.document == pre.document
            &&& post.quirks_mode == pre.quirks_mode
            &&& post.handle_ops@ == pre.handle_ops@.push(HandleOp::Release)
            &&& post.calls@.len() == pre.calls@.len() + rel_len(pre.document)
            &&& extends(post.calls@, pre.calls@)
            &&& rel_at(pre.document, post.calls@, pre.calls@.len() as int)
            &&& r == crate::sink::ok_when(calls_ok_from(post.calls@, pre.calls@.len() as int))
        }),
{
    match parser.state {
        LifecycleState::Destroyed => Err(GlueError::AlreadyDestroyed),
        _ => {
            parser.state = LifecycleState::Destroyed;
            let ok = parser.bridge.release_document(host);
            if ok {
                Ok(())
            } else {
                Err(GlueError::CallbackFailed)
            }
        },
    }
}

/// Release a detached qualified name the host retained from element
/// creation. Always succeeds with status zero.
pub fn destroy_qualified_name(name: Box<QualifiedName>) -> (r: i32)
    ensures
        r == 0,
{
    let _owned = name;
    0
}

} // verus!
