//! The host's callback table.
//!
//! The host drives the bridge by registering one operation per table slot.
//! Four slots are optional and have a specified default behaviour when
//! absent; the rest are mandatory, and table construction fails unless every
//! mandatory slot is filled. The table is immutable once constructed and is
//! carried by every handle and every parser instance made afterwards.

use vstd::prelude::*;

use crate::names::QualifiedName;
use crate::slices::Utf8Slice;

verus! {

/// Which slots the host filled in when asking for a table.
#[derive(Copy, Clone, Debug, PartialEq, Eq, Structural)]
pub struct SlotPresence {
    pub clone_node_ref: bool,
    pub destroy_node_ref: bool,
    pub same_node: bool,
    pub parse_error: bool,
    pub create_element: bool,
    pub get_template_contents: bool,
    pub add_attribute_if_missing: bool,
    pub create_comment: bool,
    pub append_doctype_to_document: bool,
    pub append_node: bool,
    pub append_text: bool,
    pub insert_node_before_sibling: bool,
    pub insert_text_before_sibling: bool,
    pub reparent_children: bool,
    pub remove_from_parent: bool,
}

impl SlotPresence {
    /// Every slot that has no default behaviour is filled.
    pub open spec fn mandatory_present(self) -> bool {
        &&& self.create_element
        &&& self.get_template_contents
        &&& self.add_attribute_if_missing
        &&& self.create_comment
        &&& self.append_doctype_to_document
        &&& self.append_node
        &&& self.append_text
        &&& self.insert_node_before_sibling
        &&& self.insert_text_before_sibling
        &&& self.reparent_children
        &&& self.remove_from_parent
    }
}

/// The validated, immutable table. Only the optional slots need recording:
/// a table exists only if every mandatory slot was filled.
#[derive(Copy, Clone, Debug, PartialEq, Eq, Structural)]
pub struct CallbackTable {
    /// "Clone node reference" is registered; absent, a duplicated handle
    /// reuses the same identity.
    pub has_clone_node_ref: bool,
    /// "Destroy node reference" is registered; absent, releasing a handle is
    /// a no-op.
    pub has_destroy_node_ref: bool,
    /// "Same-node test" is registered; absent, raw identity equality is used.
    pub has_same_node: bool,
    /// "Report parse error" is registered; absent, messages are discarded.
    pub has_parse_error: bool,
}

/// The table that validation yields for the given slots.
pub open spec fn table_of(slots: SlotPresence) -> CallbackTable {
    CallbackTable {
        has_clone_node_ref: slots.clone_node_ref,
        has_destroy_node_ref: slots.destroy_node_ref,
        has_same_node: slots.same_node,
        has_parse_error: slots.parse_error,
    }
}

/// Validate the host's slots and produce the immutable table: succeeds if
/// and only if every mandatory slot is filled.
pub fn declare_callbacks(slots: SlotPresence) -> (r: Option<CallbackTable>)
    ensures
        slots.mandatory_present() ==> r == Some(table_of(slots)),
        !slots.mandatory_present() ==> r is None,
{
    if slots.create_element && slots.get_template_contents && slots.add_attribute_if_missing
        && slots.create_comment && slots.append_doctype_to_document && slots.append_node
        && slots.append_text && slots.insert_node_before_sibling
        && slots.insert_text_before_sibling && slots.reparent_children
        && slots.remove_from_parent {
        Some(
            CallbackTable {
                has_clone_node_ref: slots.clone_node_ref,
                has_destroy_node_ref: slots.destroy_node_ref,
                has_same_node: slots.same_node,
                has_parse_error: slots.parse_error,
            },
        )
    } else {
        None
    }
}

/// The host's side of the boundary: one method per table slot.
///
/// Node identities are opaque non-zero values meaningful only to the host;
/// the bridge never interprets them, and treats zero as "null". Text
/// arguments are views valid only for the duration of the call. Methods for
/// the optional slots are invoked only when the corresponding `CallbackTable`
/// flag is set. A negative status reports a failure; the bridge treats such
/// a report (and a null identity where a node is required) as a callback
/// contract violation.
pub trait HostCallbacks {
    /// Create and return a new reference to the given node. The returned
    /// identity may equal the given one. Null reports a failure.
    fn clone_node_ref(&mut self, node: u64) -> u64;

    /// Destroy one reference to the given node. When all references are
    /// gone, the node itself can be destroyed.
    fn destroy_node_ref(&mut self, node: u64) -> i32;

    /// Return a nonzero status if the two references are for the same node.
    fn same_node(&mut self, x: u64, y: u64) -> i32;

    /// Log an author conformance error. The status is discarded: such errors
    /// are never fatal.
    fn parse_error(&mut self, msg: Utf8Slice<'_>) -> i32;

    /// Create an element node with the given namespace identifier and local
    /// name. The qualified name is also handed over as a value, for the host
    /// to retain independently of the node (release it with
    /// `destroy_qualified_name`).
    fn create_element(
        &mut self,
        name: Box<QualifiedName>,
        ns: Utf8Slice<'_>,
        local: Utf8Slice<'_>,
    ) -> u64;

    /// Return the document fragment node holding the template contents of
    /// the given element. Called only for `template` elements in the HTML
    /// namespace.
    fn get_template_contents(&mut self, element: u64) -> u64;

    /// Add the attribute (namespace identifier, local name, value) to the
    /// element if the element does not already have an attribute with that
    /// name in that namespace.
    fn add_attribute_if_missing(
        &mut self,
        element: u64,
        ns: Utf8Slice<'_>,
        local: Utf8Slice<'_>,
        value: Utf8Slice<'_>,
    ) -> i32;

    /// Create a comment node holding the given text.
    fn create_comment(&mut self, text: Utf8Slice<'_>) -> u64;

    /// Create a doctype node from (name, public identifier, system
    /// identifier) and append it to the document.
    fn append_doctype_to_document(
        &mut self,
        name: Utf8Slice<'_>,
        public_id: Utf8Slice<'_>,
        system_id: Utf8Slice<'_>,
    ) -> i32;

    /// Append the node as the parent's last child.
    fn append_node(&mut self, parent: u64, child: u64) -> i32;

    /// Append the text as the parent's last child.
    fn append_text(&mut self, parent: u64, text: Utf8Slice<'_>) -> i32;

    /// If the sibling has a parent, insert the node just before the sibling
    /// and return 1; otherwise do nothing and return 0.
    fn insert_node_before_sibling(&mut self, sibling: u64, node: u64) -> i32;

    /// If the sibling has a parent, insert the text just before the sibling
    /// and return 1; otherwise do nothing and return 0.
    fn insert_text_before_sibling(&mut self, sibling: u64, text: Utf8Slice<'_>) -> i32;

    /// Move all children of the node to the new parent.
    fn reparent_children(&mut self, node: u64, new_parent: u64) -> i32;

    /// Detach the node from its parent.
    fn remove_from_parent(&mut self, node: u64) -> i32;
}

/// A record of one callback invocation, together with what the host returned.
///
/// Used only in specifications: the bridge keeps a ghost log of every
/// invocation it makes, and every operation's contract states exactly how
/// the log grows and how the recorded host answers decide the result.
pub enum HostCall {
    CloneNodeRef { node: u64, result: u64 },
    DestroyNodeRef { node: u64, status: i32 },
    SameNode { x: u64, y: u64, status: i32 },
    ParseError { msg: Seq<char>, status: i32 },
    CreateElement { ns: Seq<char>, local: Seq<char>, result: u64 },
    GetTemplateContents { element: u64, result: u64 },
    AddAttributeIfMissing { element: u64, ns: Seq<char>, local: Seq<char>, value: Seq<char>, status: i32 },
    CreateComment { text: Seq<char>, result: u64 },
    AppendDoctypeToDocument { name: Seq<char>, public_id: Seq<char>, system_id: Seq<char>, status: i32 },
    AppendNode { parent: u64, child: u64, status: i32 },
    AppendText { parent: u64, text: Seq<char>, status: i32 },
    InsertNodeBeforeSibling { sibling: u64, node: u64, status: i32 },
    InsertTextBeforeSibling { sibling: u64, text: Seq<char>, status: i32 },
    ReparentChildren { node: u64, new_parent: u64, status: i32 },
    RemoveFromParent { node: u64, status: i32 },
}

/// Whether the host's recorded answer counts as success.
///
/// A node-returning slot succeeds when the identity is non-null; a
/// status-returning slot succeeds when the status is not negative. The
/// same-node and parse-error answers are verdicts, never failures, and the
/// insert-before answers are a two-way outcome, never failures.
pub open spec fn call_ok(c: HostCall) -> bool {
    match c {
        HostCall::CloneNodeRef { result, .. } => result != 0,
        HostCall::DestroyNodeRef { status, .. } => status >= 0,
        HostCall::SameNode { .. } => true,
        HostCall::ParseError { .. } => true,
        HostCall::CreateElement { result, .. } => result != 0,
        HostCall::GetTemplateContents { result, .. } => result != 0,
        HostCall::AddAttributeIfMissing { status, .. } => status >= 0,
        HostCall::CreateComment { result, .. } => result != 0,
        HostCall::AppendDoctypeToDocument { status, .. } => status >= 0,
        HostCall::AppendNode { status, .. } => status >= 0,
        HostCall::AppendText { status, .. } => status >= 0,
        HostCall::InsertNodeBeforeSibling { .. } => true,
        HostCall::InsertTextBeforeSibling { .. } => true,
        HostCall::ReparentChildren { status, .. } => status >= 0,
        HostCall::RemoveFromParent { status, .. } => status >= 0,
    }
}

/// Every recorded answer at positions `a <= i < b` counts as success.
pub open spec fn calls_ok_between(log: Seq<HostCall>, a: int, b: int) -> bool {
    forall|i: int| a <= i < b ==> call_ok(#[trigger] log[i])
}

/// Every recorded answer from position `n` on counts as success.
pub open spec fn calls_ok_from(log: Seq<HostCall>, n: int) -> bool {
    calls_ok_between(log, n, log.len() as int)
}

/// `post` carries `pre` unchanged as its first records: the log only grows.
pub open spec fn extends(post: Seq<HostCall>, pre: Seq<HostCall>) -> bool {
    &&& pre.len() <= post.len()
    &&& forall|i: int| 0 <= i < pre.len() ==> #[trigger] post[i] == pre[i]
}

/// Appending one record extends the log, with the record at the old end.
pub(crate) proof fn lemma_extends_push(pre: Seq<HostCall>, c: HostCall)
    ensures
        extends(pre.push(c), pre),
        pre.push(c)[pre.len() as int] == c,
{
}

/// Growing the log twice grows it once.
pub(crate) proof fn lemma_extends_trans(a: Seq<HostCall>, b: Seq<HostCall>, c: Seq<HostCall>)
    requires
        extends(c, b),
        extends(b, a),
    ensures
        extends(c, a),
{
}

/// A success range splits at any point inside it.
pub(crate) proof fn lemma_ok_between_concat(log: Seq<HostCall>, a: int, b: int, c: int)
    requires
        a <= b <= c,
    ensures
        calls_ok_between(log, a, c) <==> (calls_ok_between(log, a, b) && calls_ok_between(
            log,
            b,
            c,
        )),
{
}

/// A one-record range succeeds exactly when its record does.
pub(crate) proof fn lemma_ok_singleton(log: Seq<HostCall>, i: int)
    ensures
        calls_ok_between(log, i, i + 1) <==> call_ok(log[i]),
{
}

/// Success over a range of records the grown log kept is unchanged.
pub(crate) proof fn lemma_ok_between_extends(
    pre: Seq<HostCall>,
    post: Seq<HostCall>,
    a: int,
    b: int,
)
    requires
        extends(post, pre),
        0 <= a,
        b <= pre.len(),
    ensures
        calls_ok_between(post, a, b) <==> calls_ok_between(pre, a, b),
{
    if calls_ok_between(post, a, b) {
        assert forall|i: int| a <= i < b implies call_ok(#[trigger] pre[i]) by {
            assert(post[i] == pre[i]);
        }
    }
    if calls_ok_between(pre, a, b) {
        assert forall|i: int| a <= i < b implies call_ok(#[trigger] post[i]) by {
            assert(post[i] == pre[i]);
        }
    }
}

} // verus!
