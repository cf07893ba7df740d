//! The tree-sink bridge: every operation the tree-construction engine
//! requires of a sink, each translated into callback-table invocations and
//! opaque-handle bookkeeping.
//!
//! Every operation's contract states, over the ghost log of callback
//! invocations, exactly which calls are made, in which order, and how the
//! host's recorded answers decide the operation's result. Handles the engine
//! passes in by value are consumed: after the operation has used them, their
//! references are released (through the destroy callback when one is
//! registered), mirroring the ownership the engine gives up.

use vstd::prelude::*;

use crate::callbacks::CallbackTable;
use crate::callbacks::HostCall;
use crate::callbacks::HostCallbacks;
use crate::callbacks::call_ok;
use crate::callbacks::calls_ok_between;
use crate::callbacks::calls_ok_from;
use crate::callbacks::extends;
use crate::callbacks::lemma_extends_push;
use crate::callbacks::lemma_extends_trans;
use crate::callbacks::lemma_ok_between_concat;
use crate::callbacks::lemma_ok_between_extends;
use crate::callbacks::lemma_ok_singleton;
use crate::errors::GlueError;
use crate::handles::HandleOp;
use crate::handles::NodeHandle;
use crate::names::Attribute;
use crate::names::QualifiedName;
use crate::slices::Utf8Slice;

verus! {

/// The document-wide rendering-compatibility flag, set once per document
/// based on the doctype encountered.
#[derive(Copy, Clone, Debug, PartialEq, Eq, Structural)]
pub enum QuirksMode {
    NoQuirks,
    LimitedQuirks,
    Quirks,
}

/// What the engine appends or inserts: an already-realized node handle, or a
/// text run.
#[derive(Debug)]
pub enum NodeOrText {
    AppendNode(NodeHandle),
    AppendText(String),
}

/// The two-way outcome the engine requires of "insert before sibling": the
/// node or text went in, or the sibling had no parent and the untouched
/// payload comes back so the engine can reattempt insertion elsewhere.
#[derive(Debug)]
pub enum InsertionOutcome {
    Inserted,
    NoParent(NodeOrText),
}

/// The adapter between the engine's sink operations and the host's callback
/// table.
pub struct TreeSinkBridge {
    /// The immutable table every invocation goes through.
    pub table: CallbackTable,
    /// The handle wrapping the host-supplied root node.
    pub document: NodeHandle,
    /// Bridge-local quirks-mode bookkeeping; the host is not informed.
    pub quirks_mode: QuirksMode,
    /// Ghost log of every callback invocation made, in order.
    pub calls: Ghost<Seq<HostCall>>,
    /// Ghost ledger of every handle acquisition and release.
    pub handle_ops: Ghost<Seq<HandleOp>>,
}

/// The parts of the bridge no operation moves: the table, the document
/// handle, and the quirks mode (except where an operation says otherwise).
pub open spec fn same_core(a: TreeSinkBridge, b: TreeSinkBridge) -> bool {
    &&& a.table == b.table
    &&& a.document == b.document
    &&& a.quirks_mode == b.quirks_mode
}

/// How many log records releasing this handle adds: one destroy invocation
/// when the destroy callback is registered, none otherwise.
pub open spec fn rel_len(h: NodeHandle) -> int {
    if h.table.has_destroy_node_ref {
        1int
    } else {
        0int
    }
}

/// When the destroy callback is registered, position `i` of the log holds
/// the destroy invocation for this handle's identity.
pub open spec fn rel_at(h: NodeHandle, log: Seq<HostCall>, i: int) -> bool {
    h.table.has_destroy_node_ref ==> (log[i] matches HostCall::DestroyNodeRef { node, .. }
        && node == h.id)
}

/// Success or the callback-contract-violation failure.
pub open spec fn ok_when(ok: bool) -> Result<(), GlueError> {
    if ok {
        Ok(())
    } else {
        Err(GlueError::CallbackFailed)
    }
}

/// The identity a recorded element creation returned.
pub open spec fn created_id(c: HostCall) -> u64 {
    match c {
        HostCall::CreateElement { result, .. } => result,
        _ => 0,
    }
}

/// The record at a log position is the attribute invocation for attribute
/// `a` against the given element.
pub open spec fn attr_call_matches(c: HostCall, element: u64, a: Attribute) -> bool {
    c matches HostCall::AddAttributeIfMissing { element: e, ns, local, value, .. } && e == element
        && ns == a.name.ns@ && local == a.name.local@ && value == a.value@
}

/// A recorded insert-before answer reported that the sibling had a parent
/// and the payload went in.
pub open spec fn inserted_status(c: HostCall) -> bool {
    match c {
        HostCall::InsertNodeBeforeSibling { status, .. } => status != 0,
        HostCall::InsertTextBeforeSibling { status, .. } => status != 0,
        _ => false,
    }
}

/// The same-node verdict the bridge derives without a same-node callback:
/// raw identity equality.
pub open spec fn fallback_same_node(x: u64, y: u64) -> bool {
    x == y
}

impl TreeSinkBridge {
    /// A fresh bridge wired to the host-supplied root node, whose reference
    /// the bridge now owns (one initial acquisition); quirks-mode tracking
    /// starts at "no quirks".
    pub fn new(table: CallbackTable, root: u64) -> (b: TreeSinkBridge)
        ensures
            b.table == table,
            b.document == (NodeHandle { id: root, table, name: None }),
            b.quirks_mode is NoQuirks,
            b.calls@ == Seq::<HostCall>::empty(),
            b.handle_ops@ == Seq::<HandleOp>::empty().push(HandleOp::Acquire),
    {
        TreeSinkBridge {
            table,
            document: NodeHandle { id: root, table, name: None },
            quirks_mode: QuirksMode::NoQuirks,
            calls: Ghost(Seq::empty()),
            handle_ops: Ghost(Seq::empty().push(HandleOp::Acquire)),
        }
    }

    /// Wrap an identity the bridge already owns a reference to: one
    /// acquisition, no callback.
    fn new_handle(&mut self, id: u64, name: Option<QualifiedName>) -> (h: NodeHandle)
        ensures
            same_core(*old(self), *final(self)),
            final(self).calls@ == old(self).calls@,
            final(self).handle_ops@ == old(self).handle_ops@.push(HandleOp::Acquire),
            h == (NodeHandle { id, table: old(self).table, name }),
    {
        self.handle_ops = Ghost(self.handle_ops@.push(HandleOp::Acquire));
        NodeHandle { id, table: self.table, name }
    }

    /// Release one reference: one destroy invocation when that callback is
    /// registered (a negative status is a contract violation), a successful
    /// no-op otherwise. Always one ledger release.
    fn release<H: HostCallbacks>(&mut self, host: &mut H, h: NodeHandle) -> (ok: bool)
        ensures
            same_core(*old(self), *final(self)),
            final(self).handle_ops@ == old(self).handle_ops@.push(HandleOp::Release),
            final(self).calls@.len() == old(self).calls@.len() + rel_len(h),
            extends(final(self).calls@, old(self).calls@),
            rel_at(h, final(self).calls@, old(self).calls@.len() as int),
            ok == calls_ok_from(final(self).calls@, old(self).calls@.len() as int),
    {
        let ghost pre = self.calls@;
        self.handle_ops = Ghost(self.handle_ops@.push(HandleOp::Release));
        if h.table.has_destroy_node_ref {
            let st = host.destroy_node_ref(h.id);
            let ghost record = HostCall::DestroyNodeRef { node: h.id, status: st };
            self.calls = Ghost(self.calls@.push(record));
            proof {
                lemma_extends_push(pre, record);
                lemma_ok_singleton(self.calls@, pre.len() as int);
            }
            st >= 0
        } else {
            true
        }
    }

    /// Release a handle the engine is done with. `Ok` exactly when the
    /// destroy callback (if registered) did not report a failure.
    pub fn destroy_handle<H: HostCallbacks>(&mut self, host: &mut H, h: NodeHandle) -> (r: Result<
        (),
        GlueError,
    >)
        ensures
            same_core(*old(self), *final(self)),
            final(self).handle_ops@ == old(self).handle_ops@.push(HandleOp::Release),
            final(self).calls@.len() == old(self).calls@.len() + rel_len(h),
            extends(final(self).calls@, old(self).calls@),
            rel_at(h, final(self).calls@, old(self).calls@.len() as int),
            r == ok_when(calls_ok_from(final(self).calls@, old(self).calls@.len() as int)),
    {
        let ok = self.release(host, h);
        if ok {
            Ok(())
        } else {
            Err(GlueError::CallbackFailed)
        }
    }

    /// Duplicate a handle: one clone invocation when that callback is
    /// registered (null is a contract violation), the same identity reused
    /// otherwise; the name cache carries over. One ledger acquisition on
    /// success, none on failure.
    fn clone_from_parts<H: HostCallbacks>(
        &mut self,
        host: &mut H,
        id: u64,
        use_clone_callback: bool,
        name: Option<QualifiedName>,
    ) -> (r: Result<NodeHandle, GlueError>)
        ensures
            same_core(*old(self), *final(self)),
            use_clone_callback ==> ({
                let post = final(self).calls@;
                let n = old(self).calls@.len() as int;
                &&& post.len() == n + 1
                &&& extends(post, old(self).calls@)
                &&& (post[n] matches HostCall::CloneNodeRef { node, result } && node == id && (
                if result == 0 {
                    r == Err::<NodeHandle, GlueError>(GlueError::NullNodeIdentity) && final(self).handle_ops@ == old(self).handle_ops@
                } else {
                    r == Ok::<NodeHandle, GlueError>(
                        NodeHandle { id: result, table: old(self).table, name },
                    ) && final(self).handle_ops@ == old(self).handle_ops@.push(HandleOp::Acquire)
                }))
            }),
            !use_clone_callback ==> ({
                &&& final(self).calls@ == old(self).calls@
                &&& final(self).handle_ops@ == old(self).handle_ops@.push(HandleOp::Acquire)
                &&& r == Ok::<NodeHandle, GlueError>(
                    NodeHandle { id, table: old(self).table, name },
                )
            }),
    {
        if use_clone_callback {
            let ghost pre = self.calls@;
            let id2 = host.clone_node_ref(id);
            let ghost record = HostCall::CloneNodeRef { node: id, result: id2 };
            self.calls = Ghost(self.calls@.push(record));
            proof {
                lemma_extends_push(pre, record);
            }
            if id2 == 0 {
                Err(GlueError::NullNodeIdentity)
            } else {
                Ok(self.new_handle(id2, name))
            }
        } else {
            Ok(self.new_handle(id, name))
        }
    }

    /// Duplicate a handle the engine still keeps: requests a new reference
    /// from the host when the clone callback is registered, reuses the
    /// identity otherwise.
    pub fn clone_handle<H: HostCallbacks>(&mut self, host: &mut H, h: &NodeHandle) -> (r: Result<
        NodeHandle,
        GlueError,
    >)
        ensures
            same_core(*old(self), *final(self)),
            h.table.has_clone_node_ref ==> ({
                let post = final(self).calls@;
                let n = old(self).calls@.len() as int;
                &&& post.len() == n + 1
                &&& extends(post, old(self).calls@)
                &&& (post[n] matches HostCall::CloneNodeRef { node, result } && node == h.id && (
                if result == 0 {
                    r == Err::<NodeHandle, GlueError>(GlueError::NullNodeIdentity) && final(self).handle_ops@ == old(self).handle_ops@
                } else {
                    r == Ok::<NodeHandle, GlueError>(
                        NodeHandle { id: result, table: old(self).table, name: h.name },
                    ) && final(self).handle_ops@ == old(self).handle_ops@.push(HandleOp::Acquire)
                }))
            }),
            !h.table.has_clone_node_ref ==> ({
                &&& final(self).calls@ == old(self).calls@
                &&& final(self).handle_ops@ == old(self).handle_ops@.push(HandleOp::Acquire)
                &&& r == Ok::<NodeHandle, GlueError>(
                    NodeHandle { id: h.id, table: old(self).table, name: h.name },
                )
            }),
    {
        let name = h.dup_name();
        self.clone_from_parts(host, h.id, h.table.has_clone_node_ref, name)
    }

    /// The engine asks for the document: a fresh, equally-owned duplicate of
    /// the root handle, independent on every call. Without a clone callback
    /// the duplicate carries the root identity itself.
    pub fn get_document<H: HostCallbacks>(&mut self, host: &mut H) -> (r: Result<
        NodeHandle,
        GlueError,
    >)
        ensures
            same_core(*old(self), *final(self)),
            old(self).document.table.has_clone_node_ref ==> ({
                let post = final(self).calls@;
                let n = old(self).calls@.len() as int;
                &&& post.len() == n + 1
                &&& extends(post, old(self).calls@)
                &&& (post[n] matches HostCall::CloneNodeRef { node, result } && node == old(
                    self,
                ).document.id && (if result == 0 {
                    r == Err::<NodeHandle, GlueError>(GlueError::NullNodeIdentity) && final(self).handle_ops@ == old(self).handle_ops@
                } else {
                    r == Ok::<NodeHandle, GlueError>(
                        NodeHandle {
                            id: result,
                            table: old(self).table,
                            name: old(self).document.name,
                        },
                    ) && final(self).handle_ops@ == old(self).handle_ops@.push(HandleOp::Acquire)
                }))
            }),
            !old(self).document.table.has_clone_node_ref ==> ({
                &&& final(self).calls@ == old(self).calls@
                &&& final(self).handle_ops@ == old(self).handle_ops@.push(HandleOp::Acquire)
                &&& r == Ok::<NodeHandle, GlueError>(
                    NodeHandle {
                        id: old(self).document.id,
                        table: old(self).table,
                        name: old(self).document.name,
                    },
                )
            }),
    {
        let name = self.document.dup_name();
        let id = self.document.id;
        let use_clone_callback = self.document.table.has_clone_node_ref;
        self.clone_from_parts(host, id, use_clone_callback, name)
    }

    /// Store the quirks mode on the bridge. Intentionally internal
    /// bookkeeping only: the host is not informed.
    pub fn set_quirks_mode(&mut self, mode: QuirksMode)
        ensures
            final(self).table == old(self).table,
            final(self).document == old(self).document,
            final(self).quirks_mode == mode,
            final(self).calls@ == old(self).calls@,
            final(self).handle_ops@ == old(self).handle_ops@,
    {
        self.quirks_mode = mode;
    }

    /// Forward an author conformance error to the optional parse-error
    /// callback; without one the message is discarded. Never fatal: the
    /// host's status is discarded.
    pub fn parse_error<H: HostCallbacks>(&mut self, host: &mut H, msg: &str)
        ensures
            same_core(*old(self), *final(self)),
            final(self).handle_ops@ == old(self).handle_ops@,
            old(self).table.has_parse_error ==> ({
                let post = final(self).calls@;
                let n = old(self).calls@.len() as int;
                &&& post.len() == n + 1
                &&& extends(post, old(self).calls@)
                &&& (post[n] matches HostCall::ParseError { msg: m, .. } && m == msg@)
            }),
            !old(self).table.has_parse_error ==> final(self).calls@ == old(self).calls@,
    {
        if self.table.has_parse_error {
            let ghost pre = self.calls@;
            let st = host.parse_error(Utf8Slice::from_str(msg));
            let ghost record = HostCall::ParseError { msg: msg@, status: st };
            self.calls = Ghost(self.calls@.push(record));
            proof {
                lemma_extends_push(pre, record);
            }
        }
    }

    /// Ask the host whether two references are for the same node (or fall
    /// back to raw identity equality), then release both handles, the second
    /// first. `Ok` exactly when the releases did not report failures.
    pub fn same_node<H: HostCallbacks>(&mut self, host: &mut H, x: NodeHandle, y: NodeHandle) -> (r:
        Result<bool, GlueError>)
        ensures
            same_core(*old(self), *final(self)),
            final(self).handle_ops@ == old(self).handle_ops@.push(HandleOp::Release).push(
                HandleOp::Release,
            ),
            extends(final(self).calls@, old(self).calls@),
            ({
                let post = final(self).calls@;
                let n = old(self).calls@.len() as int;
                let q = if old(self).table.has_same_node {
                    1int
                } else {
                    0int
                };
                &&& post.len() == n + q + rel_len(y) + rel_len(x)
                &&& (old(self).table.has_same_node ==> (post[n] matches HostCall::SameNode {
                    x: xi,
                    y: yi,
                    ..
                } && xi == x.id && yi == y.id))
                &&& rel_at(y, post, n + q)
                &&& rel_at(x, post, n + q + rel_len(y))
                &&& (calls_ok_from(post, n) ==> (if old(self).table.has_same_node {
                    post[n] matches HostCall::SameNode { status, .. } && r == Ok::<
                        bool,
                        GlueError,
                    >(status != 0)
                } else {
                    r == Ok::<bool, GlueError>(fallback_same_node(x.id, y.id))
                }))
                &&& (!calls_ok_from(post, n) ==> r == Err::<bool, GlueError>(
                    GlueError::CallbackFailed,
                ))
            }),
    {
        let ghost pre = self.calls@;
        let ghost n = pre.len() as int;
        let verdict: bool = if self.table.has_same_node {
            let st = host.same_node(x.id, y.id);
            let ghost record = HostCall::SameNode { x: x.id, y: y.id, status: st };
            self.calls = Ghost(self.calls@.push(record));
            proof {
                lemma_extends_push(pre, record);
            }
            st != 0
        } else {
            x.id == y.id
        };
        let ghost mid1 = self.calls@;
        let ok1 = self.release(host, y);
        let ghost mid2 = self.calls@;
        let ok2 = self.release(host, x);
        proof {
            lemma_extends_trans(mid1, mid2, self.calls@);
            lemma_extends_trans(pre, mid1, self.calls@);
            lemma_ok_between_concat(self.calls@, n, mid1.len() as int, self.calls@.len() as int);
            lemma_ok_between_concat(
                self.calls@,
                mid1.len() as int,
                mid2.len() as int,
                self.calls@.len() as int,
            );
            lemma_ok_between_extends(mid2, self.calls@, mid1.len() as int, mid2.len() as int);
            if self.table.has_same_node {
                lemma_ok_singleton(self.calls@, n);
            }
        }
        if ok1 && ok2 {
            Ok(verdict)
        } else {
            Err(GlueError::CallbackFailed)
        }
    }

    /// Return the qualified name cached on the handle at element-creation
    /// time, then release the handle. The engine asks this only of handles it
    /// obtained from element creation, so an empty cache is a contract
    /// violation.
    pub fn elem_name<H: HostCallbacks>(&mut self, host: &mut H, target: NodeHandle) -> (r: Result<
        QualifiedName,
        GlueError,
    >)
        ensures
            same_core(*old(self), *final(self)),
            final(self).handle_ops@ == old(self).handle_ops@.push(HandleOp::Release),
            final(self).calls@.len() == old(self).calls@.len() + rel_len(target),
            extends(final(self).calls@, old(self).calls@),
            rel_at(target, final(self).calls@, old(self).calls@.len() as int),
            r == (if calls_ok_from(final(self).calls@, old(self).calls@.len() as int) {
                match target.name {
                    Some(q) => Ok::<QualifiedName, GlueError>(q),
                    None => Err::<QualifiedName, GlueError>(GlueError::MissingElementName),
                }
            } else {
                Err::<QualifiedName, GlueError>(GlueError::CallbackFailed)
            }),
    {
        let name = target.dup_name();
        let ok = self.release(host, target);
        if !ok {
            Err(GlueError::CallbackFailed)
        } else {
            match name {
                Some(q) => Ok(q),
                None => Err(GlueError::MissingElementName),
            }
        }
    }

    /// Ask the host for the template-contents fragment of a `template`
    /// element, release the element handle, and wrap the fragment's identity
    /// as a fresh handle (no cached name: the fragment is not an element the
    /// bridge created).
    pub fn get_template_contents<H: HostCallbacks>(
        &mut self,
        host: &mut H,
        target: NodeHandle,
    ) -> (r: Result<NodeHandle, GlueError>)
        ensures
            same_core(*old(self), *final(self)),
            extends(final(self).calls@, old(self).calls@),
            ({
                let post = final(self).calls@;
                let n = old(self).calls@.len() as int;
                &&& post.len() == n + 1 + rel_len(target)
                &&& (post[n] matches HostCall::GetTemplateContents { element, result } && element
                    == target.id && (if !calls_ok_between(post, n + 1, post.len() as int) {
                    r == Err::<NodeHandle, GlueError>(GlueError::CallbackFailed) && final(self).handle_ops@ == old(self).handle_ops@.push(HandleOp::Release)
                } else if result == 0 {
                    r == Err::<NodeHandle, GlueError>(GlueError::NullNodeIdentity) && final(self).handle_ops@ == old(self).handle_ops@.push(HandleOp::Release)
                } else {
                    r == Ok::<NodeHandle, GlueError>(
                        NodeHandle { id: result, table: old(self).table, name: None },
                    ) && final(self).handle_ops@ == old(self).handle_ops@.push(
                        HandleOp::Release,
                    ).push(HandleOp::Acquire)
                }))
                &&& rel_at(target, post, n + 1)
            }),
    {
        let ghost pre = self.calls@;
        let ghost n = pre.len() as int;
        let tid = host.get_template_contents(target.id);
        let ghost record = HostCall::GetTemplateContents { element: target.id, result: tid };
        self.calls = Ghost(self.calls@.push(record));
        proof {
            lemma_extends_push(pre, record);
        }
        let ghost mid = self.calls@;
        let ok = self.release(host, target);
        proof {
            lemma_extends_trans(pre, mid, self.calls@);
        }
        if !ok {
            Err(GlueError::CallbackFailed)
        } else if tid == 0 {
            Err(GlueError::NullNodeIdentity)
        } else {
            Ok(self.new_handle(tid, None))
        }
    }

    /// Invoke "add attribute if missing" once per supplied attribute, in the
    /// engine's supplied order (duplicates are allowed to reach the host:
    /// the "if missing" semantics are the host's responsibility), stopping at
    /// the first failure report.
    fn add_attributes_if_missing<H: HostCallbacks>(
        &mut self,
        host: &mut H,
        element: u64,
        attrs: &Vec<Attribute>,
    ) -> (r: Result<(), GlueError>)
        ensures
            same_core(*old(self), *final(self)),
            final(self).handle_ops@ == old(self).handle_ops@,
            extends(final(self).calls@, old(self).calls@),
            ({
                let post = final(self).calls@;
                let n = old(self).calls@.len() as int;
                &&& post.len() - n <= attrs@.len()
                &&& (forall|i: int|
                    n <= i < post.len() ==> attr_call_matches(
                        #[trigger] post[i],
                        element,
                        attrs@[i - n],
                    ))
                &&& (forall|i: int| n <= i < post.len() - 1 ==> call_ok(#[trigger] post[i]))
                &&& r == (if post.len() - n == attrs@.len() && calls_ok_from(post, n) {
                    Ok::<(), GlueError>(())
                } else {
                    Err::<(), GlueError>(GlueError::CallbackFailed)
                })
            }),
    {
        let ghost pre = self.calls@;
        let ghost n = pre.len() as int;
        let mut idx: usize = 0;
        while idx < attrs.len()
            invariant
                idx <= attrs@.len(),
                self.table == old(self).table,
                self.document == old(self).document,
                self.quirks_mode == old(self).quirks_mode,
                self.handle_ops@ == old(self).handle_ops@,
                pre == old(self).calls@,
                n == pre.len(),
                self.calls@.len() == n + idx,
                extends(self.calls@, pre),
                forall|i: int|
                    n <= i < self.calls@.len() ==> attr_call_matches(
                        #[trigger] self.calls@[i],
                        element,
                        attrs@[i - n],
                    ),
                forall|i: int| n <= i < self.calls@.len() ==> call_ok(#[trigger] self.calls@[i]),
            decreases attrs@.len() - idx,
        {
            let ghost before = self.calls@;
            let a = &attrs[idx];
            let st = host.add_attribute_if_missing(
                element,
                Utf8Slice::from_str(a.name.ns.as_str()),
                Utf8Slice::from_str(a.name.local.as_str()),
                Utf8Slice::from_str(a.value.as_str()),
            );
            let ghost record = HostCall::AddAttributeIfMissing {
                element,
                ns: a.name.ns@,
                local: a.name.local@,
                value: a.value@,
                status: st,
            };
            self.calls = Ghost(self.calls@.push(record));
            proof {
                lemma_extends_push(before, record);
                lemma_extends_trans(pre, before, self.calls@);
            }
            if st < 0 {
                proof {
                    assert(!call_ok(self.calls@[self.calls@.len() - 1]));
                }
                return Err(GlueError::CallbackFailed);
            }
            idx += 1;
        }
        Ok(())
    }

    /// Ask the host to create an element with the given qualified name
    /// (handing the name over for the host to retain), forward each supplied
    /// attribute in order, and wrap the new identity as a handle carrying
    /// the name for later lookups.
    pub fn create_element<H: HostCallbacks>(
        &mut self,
        host: &mut H,
        name: QualifiedName,
        attrs: Vec<Attribute>,
    ) -> (r: Result<NodeHandle, GlueError>)
        ensures
            same_core(*old(self), *final(self)),
            extends(final(self).calls@, old(self).calls@),
            ({
                let post = final(self).calls@;
                let n = old(self).calls@.len() as int;
                &&& post.len() > n
                &&& (post[n] matches HostCall::CreateElement { ns, local, .. } && ns == name.ns@
                    && local == name.local@)
                &&& (if created_id(post[n]) == 0 {
                    &&& post.len() == n + 1
                    &&& r == Err::<NodeHandle, GlueError>(GlueError::NullNodeIdentity)
                    &&& final(self).handle_ops@ == old(self).handle_ops@
                } else {
                    &&& post.len() - (n + 1) <= attrs@.len()
                    &&& (forall|i: int|
                        n + 1 <= i < post.len() ==> attr_call_matches(
                            #[trigger] post[i],
                            created_id(post[n]),
                            attrs@[i - n - 1],
                        ))
                    &&& (forall|i: int| n + 1 <= i < post.len() - 1 ==> call_ok(#[trigger] post[i]))
                    &&& (if post.len() - (n + 1) == attrs@.len() && calls_ok_from(post, n) {
                        r == Ok::<NodeHandle, GlueError>(
                            NodeHandle {
                                id: created_id(post[n]),
                                table: old(self).table,
                                name: Some(name),
                            },
                        ) && final(self).handle_ops@ == old(self).handle_ops@.push(
                            HandleOp::Acquire,
                        )
                    } else {
                        r == Err::<NodeHandle, GlueError>(GlueError::CallbackFailed) && final(self).handle_ops@ == old(self).handle_ops@
                    })
                })
            }),
    {
        let ghost pre = self.calls@;
        let ghost n = pre.len() as int;
        let boxed = Box::new(name.duplicate());
        let eid = host.create_element(
            boxed,
            Utf8Slice::from_str(name.ns.as_str()),
            Utf8Slice::from_str(name.local.as_str()),
        );
        let ghost record = HostCall::CreateElement { ns: name.ns@, local: name.local@, result: eid };
        self.calls = Ghost(self.calls@.push(record));
        proof {
            lemma_extends_push(pre, record);
        }
        if eid == 0 {
            return Err(GlueError::NullNodeIdentity);
        }
        let ghost mid = self.calls@;
        let attr_result = self.add_attributes_if_missing(host, eid, &attrs);
        proof {
            lemma_extends_trans(pre, mid, self.calls@);
            lemma_ok_between_concat(self.calls@, n, n + 1, self.calls@.len() as int);
            lemma_ok_singleton(self.calls@, n);
        }
        match attr_result {
            Ok(()) => Ok(self.new_handle(eid, Some(name))),
            Err(e) => Err(e),
        }
    }

    /// Forward attributes to an already-existing element (for example a
    /// re-parsed `html` or `body` tag), then release the handle the engine
    /// gave up.
    pub fn add_attrs_if_missing<H: HostCallbacks>(
        &mut self,
        host: &mut H,
        target: NodeHandle,
        attrs: Vec<Attribute>,
    ) -> (r: Result<(), GlueError>)
        ensures
            same_core(*old(self), *final(self)),
            final(self).handle_ops@ == old(self).handle_ops@.push(HandleOp::Release),
            extends(final(self).calls@, old(self).calls@),
            ({
                let post = final(self).calls@;
                let n = old(self).calls@.len() as int;
                let m = post.len() - rel_len(target);
                &&& m - n <= attrs@.len()
                &&& (forall|i: int|
                    n <= i < m ==> attr_call_matches(#[trigger] post[i], target.id, attrs@[i - n]))
                &&& rel_at(target, post, m)
                &&& r == ok_when(m - n == attrs@.len() && calls_ok_from(post, n))
            }),
    {
        let ghost pre = self.calls@;
        let ghost n = pre.len() as int;
        let attr_result = self.add_attributes_if_missing(host, target.id, &attrs);
        let ghost mid = self.calls@;
        let ok = self.release(host, target);
        proof {
            lemma_extends_trans(pre, mid, self.calls@);
            lemma_ok_between_concat(self.calls@, n, mid.len() as int, self.calls@.len() as int);
            lemma_ok_between_extends(mid, self.calls@, n, mid.len() as int);
        }
        if attr_result.is_ok() && ok {
            Ok(())
        } else {
            Err(GlueError::CallbackFailed)
        }
    }

    /// Ask the host to create a comment node and wrap the returned identity
    /// (no cached name: a comment is not an element).
    pub fn create_comment<H: HostCallbacks>(&mut self, host: &mut H, text: String) -> (r: Result<
        NodeHandle,
        GlueError,
    >)
        ensures
            same_core(*old(self), *final(self)),
            extends(final(self).calls@, old(self).calls@),
            ({
                let post = final(self).calls@;
                let n = old(self).calls@.len() as int;
                &&& post.len() == n + 1
                &&& (post[n] matches HostCall::CreateComment { text: t, result } && t == text@ && (
                if result == 0 {
                    r == Err::<NodeHandle, GlueError>(GlueError::NullNodeIdentity) && final(self).handle_ops@ == old(self).handle_ops@
                } else {
                    r == Ok::<NodeHandle, GlueError>(
                        NodeHandle { id: result, table: old(self).table, name: None },
                    ) && final(self).handle_ops@ == old(self).handle_ops@.push(HandleOp::Acquire)
                }))
            }),
    {
        let ghost pre = self.calls@;
        let cid = host.create_comment(Utf8Slice::from_str(text.as_str()));
        let ghost record = HostCall::CreateComment { text: text@, result: cid };
        self.calls = Ghost(self.calls@.push(record));
        proof {
            lemma_extends_push(pre, record);
        }
        if cid == 0 {
            Err(GlueError::NullNodeIdentity)
        } else {
            Ok(self.new_handle(cid, None))
        }
    }

    /// Append a node or a text run as the parent's last child — the
    /// mandatory default insertion point — then release the handles the
    /// engine gave up (the child's first, then the parent's).
    pub fn append<H: HostCallbacks>(
        &mut self,
        host: &mut H,
        parent: NodeHandle,
        child: NodeOrText,
    ) -> (r: Result<(), GlueError>)
        ensures
            same_core(*old(self), *final(self)),
            extends(final(self).calls@, old(self).calls@),
            r == ok_when(calls_ok_from(final(self).calls@, old(self).calls@.len() as int)),
            ({
                let post = final(self).calls@;
                let n = old(self).calls@.len() as int;
                match child {
                    NodeOrText::AppendNode(node) => {
                        &&& post.len() == n + 1 + rel_len(node) + rel_len(parent)
                        &&& (post[n] matches HostCall::AppendNode { parent: p, child: c, .. } && p
                            == parent.id && c == node.id)
                        &&& rel_at(node, post, n + 1)
                        &&& rel_at(parent, post, n + 1 + rel_len(node))
                        &&& final(self).handle_ops@ == old(self).handle_ops@.push(
                            HandleOp::Release,
                        ).push(HandleOp::Release)
                    },
                    NodeOrText::AppendText(text) => {
                        &&& post.len() == n + 1 + rel_len(parent)
                        &&& (post[n] matches HostCall::AppendText { parent: p, text: t, .. } && p
                            == parent.id && t == text@)
                        &&& rel_at(parent, post, n + 1)
                        &&& final(self).handle_ops@ == old(self).handle_ops@.push(
                            HandleOp::Release,
                        )
                    },
                }
            }),
    {
        let ghost pre = self.calls@;
        let ghost n = pre.len() as int;
        match child {
            NodeOrText::AppendNode(node) => {
                let st = host.append_node(parent.id, node.id);
                let ghost record = HostCall::AppendNode {
                    parent: parent.id,
                    child: node.id,
                    status: st,
                };
                self.calls = Ghost(self.calls@.push(record));
                proof {
                    lemma_extends_push(pre, record);
                }
                let ghost mid1 = self.calls@;
                let ok1 = self.release(host, node);
                let ghost mid2 = self.calls@;
                let ok2 = self.release(host, parent);
                proof {
                    lemma_extends_trans(mid1, mid2, self.calls@);
                    lemma_extends_trans(pre, mid1, self.calls@);
                    lemma_ok_between_concat(
                        self.calls@,
                        n,
                        mid1.len() as int,
                        self.calls@.len() as int,
                    );
                    lemma_ok_between_concat(
                        self.calls@,
                        mid1.len() as int,
                        mid2.len() as int,
                        self.calls@.len() as int,
                    );
                    lemma_ok_between_extends(
                        mid2,
                        self.calls@,
                        mid1.len() as int,
                        mid2.len() as int,
                    );
                    lemma_ok_singleton(self.calls@, n);
                }
                if st >= 0 && ok1 && ok2 {
                    Ok(())
                } else {
                    Err(GlueError::CallbackFailed)
                }
            },
            NodeOrText::AppendText(text) => {
                let st = host.append_text(parent.id, Utf8Slice::from_str(text.as_str()));
                let ghost record = HostCall::AppendText { parent: parent.id, text: text@, status: st };
                self.calls = Ghost(self.calls@.push(record));
                proof {
                    lemma_extends_push(pre, record);
                }
                let ghost mid1 = self.calls@;
                let ok1 = self.release(host, parent);
                proof {
                    lemma_extends_trans(pre, mid1, self.calls@);
                    lemma_ok_between_concat(
                        self.calls@,
                        n,
                        mid1.len() as int,
                        self.calls@.len() as int,
                    );
                    lemma_ok_singleton(self.calls@, n);
                }
                if st >= 0 && ok1 {
                    Ok(())
                } else {
                    Err(GlueError::CallbackFailed)
                }
            },
        }
    }

    /// Try to insert a node or a text run just before a sibling. The host
    /// reports whether the sibling had a parent; when it did not, the
    /// untouched payload is handed back so the engine can reattempt the
    /// insertion elsewhere. The sibling's handle is always released; the
    /// payload's handle is released only when it went in (or when a release
    /// violation already makes the operation fail).
    pub fn append_before_sibling<H: HostCallbacks>(
        &mut self,
        host: &mut H,
        sibling: NodeHandle,
        child: NodeOrText,
    ) -> (r: Result<InsertionOutcome, GlueError>)
        ensures
            same_core(*old(self), *final(self)),
            extends(final(self).calls@, old(self).calls@),
            ({
                let post = final(self).calls@;
                let n = old(self).calls@.len() as int;
                match child {
                    NodeOrText::AppendNode(node) => {
                        &&& (post[n] matches HostCall::InsertNodeBeforeSibling {
                            sibling: s,
                            node: nd,
                            ..
                        } && s == sibling.id && nd == node.id)
                        &&& (if inserted_status(post[n]) {
                            &&& post.len() == n + 1 + rel_len(node) + rel_len(sibling)
                            &&& rel_at(node, post, n + 1)
                            &&& rel_at(sibling, post, n + 1 + rel_len(node))
                            &&& final(self).handle_ops@ == old(self).handle_ops@.push(
                                HandleOp::Release,
                            ).push(HandleOp::Release)
                            &&& (calls_ok_from(post, n) ==> r == Ok::<
                                InsertionOutcome,
                                GlueError,
                            >(InsertionOutcome::Inserted))
                            &&& (!calls_ok_from(post, n) ==> r == Err::<
                                InsertionOutcome,
                                GlueError,
                            >(GlueError::CallbackFailed))
                        } else {
                            &&& rel_at(sibling, post, n + 1)
                            &&& (if calls_ok_between(post, n + 1, n + 1 + rel_len(sibling)) {
                                &&& post.len() == n + 1 + rel_len(sibling)
                                &&& final(self).handle_ops@ == old(self).handle_ops@.push(
                                    HandleOp::Release,
                                )
                                &&& r == Ok::<InsertionOutcome, GlueError>(
                                    InsertionOutcome::NoParent(child),
                                )
                            } else {
                                &&& post.len() == n + 1 + rel_len(sibling) + rel_len(node)
                                &&& rel_at(node, post, n + 1 + rel_len(sibling))
                                &&& final(self).handle_ops@ == old(self).handle_ops@.push(
                                    HandleOp::Release,
                                ).push(HandleOp::Release)
                                &&& r == Err::<InsertionOutcome, GlueError>(
                                    GlueError::CallbackFailed,
                                )
                            })
                        })
                    },
                    NodeOrText::AppendText(text) => {
                        &&& (post[n] matches HostCall::InsertTextBeforeSibling {
                            sibling: s,
                            text: t,
                            ..
                        } && s == sibling.id && t == text@)
                        &&& post.len() == n + 1 + rel_len(sibling)
                        &&& rel_at(sibling, post, n + 1)
                        &&& final(self).handle_ops@ == old(self).handle_ops@.push(
                            HandleOp::Release,
                        )
                        &&& (if !calls_ok_from(post, n) {
                            r == Err::<InsertionOutcome, GlueError>(GlueError::CallbackFailed)
                        } else if inserted_status(post[n]) {
                            r == Ok::<InsertionOutcome, GlueError>(InsertionOutcome::Inserted)
                        } else {
                            r == Ok::<InsertionOutcome, GlueError>(
                                InsertionOutcome::NoParent(child),
                            )
                        })
                    },
                }
            }),
    {
        let ghost pre = self.calls@;
        let ghost n = pre.len() as int;
        match child {
            NodeOrText::AppendNode(node) => {
                let st = host.insert_node_before_sibling(sibling.id, node.id);
                let ghost record = HostCall::InsertNodeBeforeSibling {
                    sibling: sibling.id,
                    node: node.id,
                    status: st,
                };
                self.calls = Ghost(self.calls@.push(record));
                proof {
                    lemma_extends_push(pre, record);
                }
                let ghost mid1 = self.calls@;
                if st != 0 {
                    let ok1 = self.release(host, node);
                    let ghost mid2 = self.calls@;
                    let ok2 = self.release(host, sibling);
                    proof {
                        lemma_extends_trans(mid1, mid2, self.calls@);
                        lemma_extends_trans(pre, mid1, self.calls@);
                        lemma_ok_between_concat(
                            self.calls@,
                            n,
                            mid1.len() as int,
                            self.calls@.len() as int,
                        );
                        lemma_ok_between_concat(
                            self.calls@,
                            mid1.len() as int,
                            mid2.len() as int,
                            self.calls@.len() as int,
                        );
                        lemma_ok_between_extends(
                            mid2,
                            self.calls@,
                            mid1.len() as int,
                            mid2.len() as int,
                        );
                        lemma_ok_singleton(self.calls@, n);
                    }
                    if ok1 && ok2 {
                        Ok(InsertionOutcome::Inserted)
                    } else {
                        Err(GlueError::CallbackFailed)
                    }
                } else {
                    let ok1 = self.release(host, sibling);
                    if ok1 {
                        proof {
                            lemma_extends_trans(pre, mid1, self.calls@);
                        }
                        Ok(InsertionOutcome::NoParent(NodeOrText::AppendNode(node)))
                    } else {
                        let ghost mid2 = self.calls@;
                        let _ = self.release(host, node);
                        proof {
                            lemma_extends_trans(mid1, mid2, self.calls@);
                            lemma_extends_trans(pre, mid1, self.calls@);
                            lemma_ok_between_extends(
                                mid2,
                                self.calls@,
                                mid1.len() as int,
                                mid2.len() as int,
                            );
                        }
                        Err(GlueError::CallbackFailed)
                    }
                }
            },
            NodeOrText::AppendText(text) => {
                let st = host.insert_text_before_sibling(
                    sibling.id,
                    Utf8Slice::from_str(text.as_str()),
                );
                let ghost record = HostCall::InsertTextBeforeSibling {
                    sibling: sibling.id,
                    text: text@,
                    status: st,
                };
                self.calls = Ghost(self.calls@.push(record));
                proof {
                    lemma_extends_push(pre, record);
                }
                let ghost mid1 = self.calls@;
                let ok1 = self.release(host, sibling);
                proof {
                    lemma_extends_trans(pre, mid1, self.calls@);
                    lemma_ok_between_concat(
                        self.calls@,
                        n,
                        mid1.len() as int,
                        self.calls@.len() as int,
                    );
                    lemma_ok_singleton(self.calls@, n);
                }
                if !ok1 {
                    Err(GlueError::CallbackFailed)
                } else if st != 0 {
                    Ok(InsertionOutcome::Inserted)
                } else {
                    Ok(InsertionOutcome::NoParent(NodeOrText::AppendText(text)))
                }
            },
        }
    }

    /// Forward a doctype (name, public identifier, system identifier)
    /// verbatim to the host.
    pub fn append_doctype_to_document<H: HostCallbacks>(
        &mut self,
        host: &mut H,
        name: String,
        public_id: String,
        system_id: String,
    ) -> (r: Result<(), GlueError>)
        ensures
            same_core(*old(self), *final(self)),
            final(self).handle_ops@ == old(self).handle_ops@,
            extends(final(self).calls@, old(self).calls@),
            ({
                let post = final(self).calls@;
                let n = old(self).calls@.len() as int;
                &&& post.len() == n + 1
                &&& (post[n] matches HostCall::AppendDoctypeToDocument {
                    name: nm,
                    public_id: p,
                    system_id: s,
                    ..
                } && nm == name@ && p == public_id@ && s == system_id@)
                &&& r == ok_when(calls_ok_from(post, n))
            }),
    {
        let ghost pre = self.calls@;
        let st = host.append_doctype_to_document(
            Utf8Slice::from_str(name.as_str()),
            Utf8Slice::from_str(public_id.as_str()),
            Utf8Slice::from_str(system_id.as_str()),
        );
        let ghost record = HostCall::AppendDoctypeToDocument {
            name: name@,
            public_id: public_id@,
            system_id: system_id@,
            status: st,
        };
        self.calls = Ghost(self.calls@.push(record));
        proof {
            lemma_extends_push(pre, record);
            lemma_ok_singleton(self.calls@, pre.len() as int);
        }
        if st >= 0 {
            Ok(())
        } else {
            Err(GlueError::CallbackFailed)
        }
    }

    /// Detach a node from its parent, then release the handle.
    pub fn remove_from_parent<H: HostCallbacks>(&mut self, host: &mut H, target: NodeHandle) -> (r:
        Result<(), GlueError>)
        ensures
            same_core(*old(self), *final(self)),
            final(self).handle_ops@ == old(self).handle_ops@.push(HandleOp::Release),
            extends(final(self).calls@, old(self).calls@),
            ({
                let post = final(self).calls@;
                let n = old(self).calls@.len() as int;
                &&& post.len() == n + 1 + rel_len(target)
                &&& (post[n] matches HostCall::RemoveFromParent { node, .. } && node == target.id)
                &&& rel_at(target, post, n + 1)
                &&& r == ok_when(calls_ok_from(post, n))
            }),
    {
        let ghost pre = self.calls@;
        let ghost n = pre.len() as int;
        let st = host.remove_from_parent(target.id);
        let ghost record = HostCall::RemoveFromParent { node: target.id, status: st };
        self.calls = Ghost(self.calls@.push(record));
        proof {
            lemma_extends_push(pre, record);
        }
        let ghost mid1 = self.calls@;
        let ok = self.release(host, target);
        proof {
            lemma_extends_trans(pre, mid1, self.calls@);
            lemma_ok_between_concat(self.calls@, n, mid1.len() as int, self.calls@.len() as int);
            lemma_ok_singleton(self.calls@, n);
        }
        if st >= 0 && ok {
            Ok(())
        } else {
            Err(GlueError::CallbackFailed)
        }
    }

    /// Move all children of one node under a new parent, then release both
    /// handles, the new parent's first.
    pub fn reparent_children<H: HostCallbacks>(
        &mut self,
        host: &mut H,
        node: NodeHandle,
        new_parent: NodeHandle,
    ) -> (r: Result<(), GlueError>)
        ensures
            same_core(*old(self), *final(self)),
            final(self).handle_ops@ == old(self).handle_ops@.push(HandleOp::Release).push(
                HandleOp::Release,
            ),
            extends(final(self).calls@, old(self).calls@),
            ({
                let post = final(self).calls@;
                let n = old(self).calls@.len() as int;
                &&& post.len() == n + 1 + rel_len(new_parent) + rel_len(node)
                &&& (post[n] matches HostCall::ReparentChildren { node: s, new_parent: d, .. } && s
                    == node.id && d == new_parent.id)
                &&& rel_at(new_parent, post, n + 1)
                &&& rel_at(node, post, n + 1 + rel_len(new_parent))
                &&& r == ok_when(calls_ok_from(post, n))
            }),
    {
        let ghost pre = self.calls@;
        let ghost n = pre.len() as int;
        let st = host.reparent_children(node.id, new_parent.id);
        let ghost record = HostCall::ReparentChildren {
            node: node.id,
            new_parent: new_parent.id,
            status: st,
        };
        self.calls = Ghost(self.calls@.push(record));
        proof {
            lemma_extends_push(pre, record);
        }
        let ghost mid1 = self.calls@;
        let ok1 = self.release(host, new_parent);
        let ghost mid2 = self.calls@;
        let ok2 = self.release(host, node);
        proof {
            lemma_extends_trans(mid1, mid2, self.calls@);
            lemma_extends_trans(pre, mid1, self.calls@);
            lemma_ok_between_concat(self.calls@, n, mid1.len() as int, self.calls@.len() as int);
            lemma_ok_between_concat(
                self.calls@,
                mid1.len() as int,
                mid2.len() as int,
                self.calls@.len() as int,
            );
            lemma_ok_between_extends(mid2, self.calls@, mid1.len() as int, mid2.len() as int);
            lemma_ok_singleton(self.calls@, n);
        }
        if st >= 0 && ok1 && ok2 {
            Ok(())
        } else {
            Err(GlueError::CallbackFailed)
        }
    }

    /// Intentionally no callback: script execution order is out of scope on
    /// this side of the boundary. The handle the engine gives up is still
    /// released.
    pub fn mark_script_already_started<H: HostCallbacks>(
        &mut self,
        host: &mut H,
        target: NodeHandle,
    ) -> (r: Result<(), GlueError>)
        ensures
            same_core(*old(self), *final(self)),
            final(self).handle_ops@ == old(self).handle_ops@.push(HandleOp::Release),
            final(self).calls@.len() == old(self).calls@.len() + rel_len(target),
            extends(final(self).calls@, old(self).calls@),
            rel_at(target, final(self).calls@, old(self).calls@.len() as int),
            r == ok_when(calls_ok_from(final(self).calls@, old(self).calls@.len() as int)),
    {
        let ok = self.release(host, target);
        if ok {
            Ok(())
        } else {
            Err(GlueError::CallbackFailed)
        }
    }

    /// Release the document handle's reference during teardown. One ledger
    /// release; one destroy invocation when that callback is registered.
    pub(crate) fn release_document<H: HostCallbacks>(&mut self, host: &mut H) -> (ok: bool)
        ensures
            final(self).table == old(self).table,
            final(self).document == old(self).document,
            final(self).quirks_mode == old(self).quirks_mode,
            final(self).handle_ops@ == old(self).handle_ops@.push(HandleOp::Release),
            final(self).calls@.len() == old(self).calls@.len() + rel_len(old(self).document),
            extends(final(self).calls@, old(self).calls@),
            rel_at(old(self).document, final(self).calls@, old(self).calls@.len() as int),
            ok == calls_ok_from(final(self).calls@, old(self).calls@.len() as int),
    {
        let ghost pre = self.calls@;
        self.handle_ops = Ghost(self.handle_ops@.push(HandleOp::Release));
        if self.document.table.has_destroy_node_ref {
            let st = host.destroy_node_ref(self.document.id);
            let ghost record = HostCall::DestroyNodeRef { node: self.document.id, status: st };
            self.calls = Ghost(self.calls@.push(record));
            proof {
                lemma_extends_push(pre, record);
                lemma_ok_singleton(self.calls@, pre.len() as int);
            }
            st >= 0
        } else {
            true
        }
    }
}

} // verus!
