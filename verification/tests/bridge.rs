//! The tree-sink bridge against a recording fake host.

use html5ever_glue::{
    declare_callbacks, destroy_parser, new_parser, Attribute, CallbackTable, GlueError,
    HostCallbacks, InsertionOutcome, NodeHandle, NodeOrText, QualifiedName, QuirksMode,
    SlotPresence, TreeSinkBridge, Utf8Slice,
};

const HTML_NS: &str = "http://www.w3.org/1999/xhtml";

struct RecordingHost {
    next_id: u64,
    events: Vec<String>,
    clones: u64,
    destroys: u64,
    attrs: Vec<(u64, String, String, String)>,
    insert_status: i32,
    create_returns_null: bool,
    attr_status: i32,
    destroy_status: i32,
}

impl RecordingHost {
    fn new() -> RecordingHost {
        RecordingHost {
            next_id: 100,
            events: Vec::new(),
            clones: 0,
            destroys: 0,
            attrs: Vec::new(),
            insert_status: 1,
            create_returns_null: false,
            attr_status: 0,
            destroy_status: 0,
        }
    }

    fn fresh_id(&mut self) -> u64 {
        self.next_id += 1;
        self.next_id
    }
}

impl HostCallbacks for RecordingHost {
    fn clone_node_ref(&mut self, node: u64) -> u64 {
        self.clones += 1;
        self.events.push(format!("clone {node}"));
        node
    }
    fn destroy_node_ref(&mut self, node: u64) -> i32 {
        self.destroys += 1;
        self.events.push(format!("destroy {node}"));
        self.destroy_status
    }
    fn same_node(&mut self, x: u64, y: u64) -> i32 {
        self.events.push(format!("same_node {x} {y}"));
        (x == y) as i32
    }
    fn parse_error(&mut self, msg: Utf8Slice<'_>) -> i32 {
        self.events.push(format!("parse_error {}", msg.as_str()));
        0
    }
    fn create_element(
        &mut self,
        _name: Box<QualifiedName>,
        ns: Utf8Slice<'_>,
        local: Utf8Slice<'_>,
    ) -> u64 {
        if self.create_returns_null {
            return 0;
        }
        let id = self.fresh_id();
        self.events
            .push(format!("create_element {} {} -> {id}", ns.as_str(), local.as_str()));
        id
    }
    fn get_template_contents(&mut self, element: u64) -> u64 {
        let id = self.fresh_id();
        self.events.push(format!("template_contents {element} -> {id}"));
        id
    }
    fn add_attribute_if_missing(
        &mut self,
        element: u64,
        ns: Utf8Slice<'_>,
        local: Utf8Slice<'_>,
        value: Utf8Slice<'_>,
    ) -> i32 {
        self.events.push(format!(
            "add_attr {element} {} {} {}",
            ns.as_str(),
            local.as_str(),
            value.as_str()
        ));
        let already = self
            .attrs
            .iter()
            .any(|(e, n, l, _)| *e == element && n == ns.as_str() && l == local.as_str());
        if !already {
            self.attrs.push((
                element,
                ns.as_str().to_string(),
                local.as_str().to_string(),
                value.as_str().to_string(),
            ));
        }
        self.attr_status
    }
    fn create_comment(&mut self, text: Utf8Slice<'_>) -> u64 {
        let id = self.fresh_id();
        self.events.push(format!("create_comment {} -> {id}", text.as_str()));
        id
    }
    fn append_doctype_to_document(
        &mut self,
        name: Utf8Slice<'_>,
        public_id: Utf8Slice<'_>,
        system_id: Utf8Slice<'_>,
    ) -> i32 {
        self.events.push(format!(
            "doctype {} {} {}",
            name.as_str(),
            public_id.as_str(),
            system_id.as_str()
        ));
        0
    }
    fn append_node(&mut self, parent: u64, child: u64) -> i32 {
        self.events.push(format!("append_node {parent} {child}"));
        0
    }
    fn append_text(&mut self, parent: u64, text: Utf8Slice<'_>) -> i32 {
        self.events.push(format!("append_text {parent} {}", text.as_str()));
        0
    }
    fn insert_node_before_sibling(&mut self, sibling: u64, node: u64) -> i32 {
        self.events.push(format!("insert_node {sibling} {node}"));
        self.insert_status
    }
    fn insert_text_before_sibling(&mut self, sibling: u64, text: Utf8Slice<'_>) -> i32 {
        self.events.push(format!("insert_text {sibling} {}", text.as_str()));
        self.insert_status
    }
    fn reparent_children(&mut self, node: u64, new_parent: u64) -> i32 {
        self.events.push(format!("reparent {node} {new_parent}"));
        0
    }
    fn remove_from_parent(&mut self, node: u64) -> i32 {
        self.events.push(format!("remove {node}"));
        0
    }
}

fn slots(optional: bool) -> SlotPresence {
    SlotPresence {
        clone_node_ref: optional,
        destroy_node_ref: optional,
        same_node: optional,
        parse_error: optional,
        create_element: true,
        get_template_contents: true,
        add_attribute_if_missing: true,
        create_comment: true,
        append_doctype_to_document: true,
        append_node: true,
        append_text: true,
        insert_node_before_sibling: true,
        insert_text_before_sibling: true,
        reparent_children: true,
        remove_from_parent: true,
    }
}

fn full_table() -> CallbackTable {
    declare_callbacks(slots(true)).unwrap()
}

fn bare_table() -> CallbackTable {
    declare_callbacks(slots(false)).unwrap()
}

fn qual(local: &str) -> QualifiedName {
    QualifiedName { ns: String::from(HTML_NS), local: String::from(local) }
}

fn attr(local: &str, value: &str) -> Attribute {
    Attribute { name: qual(local), value: String::from(value) }
}

#[test]
fn create_element_forwards_name_and_attributes_in_order() {
    let mut host = RecordingHost::new();
    let mut bridge = TreeSinkBridge::new(full_table(), 1);
    let h = bridge
        .create_element(&mut host, qual("div"), vec![attr("id", "a"), attr("class", "b")])
        .unwrap();
    assert_eq!(
        host.events,
        vec![
            format!("create_element {HTML_NS} div -> {}", h.id),
            format!("add_attr {} {HTML_NS} id a", h.id),
            format!("add_attr {} {HTML_NS} class b", h.id),
        ]
    );
}

#[test]
fn create_element_caches_the_qualified_name() {
    let mut host = RecordingHost::new();
    let mut bridge = TreeSinkBridge::new(full_table(), 1);
    let h = bridge.create_element(&mut host, qual("div"), Vec::new()).unwrap();
    let name = bridge.elem_name(&mut host, h).unwrap();
    assert_eq!(name, qual("div"));
}

#[test]
fn elem_name_without_a_cached_name_is_a_contract_violation() {
    let mut host = RecordingHost::new();
    let mut bridge = TreeSinkBridge::new(full_table(), 1);
    let h = bridge.create_comment(&mut host, String::from("c")).unwrap();
    assert_eq!(bridge.elem_name(&mut host, h), Err(GlueError::MissingElementName));
}

#[test]
fn create_element_null_identity_is_a_contract_violation() {
    let mut host = RecordingHost::new();
    host.create_returns_null = true;
    let mut bridge = TreeSinkBridge::new(full_table(), 1);
    let r = bridge.create_element(&mut host, qual("div"), Vec::new());
    assert_eq!(r.unwrap_err(), GlueError::NullNodeIdentity);
}

#[test]
fn attribute_failure_status_is_a_contract_violation() {
    let mut host = RecordingHost::new();
    host.attr_status = -1;
    let mut bridge = TreeSinkBridge::new(full_table(), 1);
    let r = bridge.create_element(&mut host, qual("div"), vec![attr("id", "a"), attr("x", "y")]);
    assert_eq!(r.unwrap_err(), GlueError::CallbackFailed);
    // stopped at the first failure: one creation, one attribute invocation
    assert_eq!(host.events.len(), 2);
}

#[test]
fn destroy_failure_status_is_a_contract_violation() {
    let mut host = RecordingHost::new();
    host.destroy_status = -1;
    let mut bridge = TreeSinkBridge::new(full_table(), 1);
    let h = bridge.create_comment(&mut host, String::from("c")).unwrap();
    assert_eq!(bridge.destroy_handle(&mut host, h), Err(GlueError::CallbackFailed));
}

#[test]
fn append_dispatches_and_releases_in_order() {
    let mut host = RecordingHost::new();
    let mut bridge = TreeSinkBridge::new(full_table(), 1);
    let parent = bridge.create_element(&mut host, qual("p"), Vec::new()).unwrap();
    let child = bridge.create_element(&mut host, qual("b"), Vec::new()).unwrap();
    let (pid, cid) = (parent.id, child.id);
    host.events.clear();
    bridge.append(&mut host, parent, NodeOrText::AppendNode(child)).unwrap();
    assert_eq!(
        host.events,
        vec![
            format!("append_node {pid} {cid}"),
            format!("destroy {cid}"),
            format!("destroy {pid}"),
        ]
    );
}

#[test]
fn append_text_reaches_the_host_verbatim() {
    let mut host = RecordingHost::new();
    let mut bridge = TreeSinkBridge::new(full_table(), 1);
    let parent = bridge.create_element(&mut host, qual("p"), Vec::new()).unwrap();
    let pid = parent.id;
    host.events.clear();
    bridge.append(&mut host, parent, NodeOrText::AppendText(String::from("Hi"))).unwrap();
    assert_eq!(
        host.events,
        vec![format!("append_text {pid} Hi"), format!("destroy {pid}")]
    );
}

#[test]
fn append_doctype_forwards_all_three_parts() {
    let mut host = RecordingHost::new();
    let mut bridge = TreeSinkBridge::new(full_table(), 1);
    bridge
        .append_doctype_to_document(
            &mut host,
            String::from("html"),
            String::from("pub"),
            String::from("sys"),
        )
        .unwrap();
    assert_eq!(host.events, vec![String::from("doctype html pub sys")]);
}

#[test]
fn insertion_fallback_hands_back_the_same_text() {
    let mut host = RecordingHost::new();
    host.insert_status = 0;
    let mut bridge = TreeSinkBridge::new(full_table(), 1);
    let sibling = bridge.create_element(&mut host, qual("p"), Vec::new()).unwrap();
    let r = bridge
        .append_before_sibling(&mut host, sibling, NodeOrText::AppendText(String::from("Hi")))
        .unwrap();
    match r {
        InsertionOutcome::NoParent(NodeOrText::AppendText(text)) => assert_eq!(text, "Hi"),
        _ => panic!("the sibling had no parent: the payload must come back"),
    }
}

#[test]
fn insertion_fallback_hands_back_the_same_node() {
    let mut host = RecordingHost::new();
    host.insert_status = 0;
    let mut bridge = TreeSinkBridge::new(full_table(), 1);
    let sibling = bridge.create_element(&mut host, qual("p"), Vec::new()).unwrap();
    let node = bridge.create_element(&mut host, qual("b"), Vec::new()).unwrap();
    let node_id = node.id;
    let r = bridge
        .append_before_sibling(&mut host, sibling, NodeOrText::AppendNode(node))
        .unwrap();
    match r {
        InsertionOutcome::NoParent(NodeOrText::AppendNode(h)) => {
            assert_eq!(h.id, node_id);
            assert_eq!(h.name, Some(qual("b")));
        }
        _ => panic!("the sibling had no parent: the payload must come back"),
    }
}

#[test]
fn insertion_with_a_parent_consumes_the_payload() {
    let mut host = RecordingHost::new();
    host.insert_status = 1;
    let mut bridge = TreeSinkBridge::new(full_table(), 1);
    let sibling = bridge.create_element(&mut host, qual("p"), Vec::new()).unwrap();
    let node = bridge.create_element(&mut host, qual("b"), Vec::new()).unwrap();
    let (sid, nid) = (sibling.id, node.id);
    host.events.clear();
    let r = bridge
        .append_before_sibling(&mut host, sibling, NodeOrText::AppendNode(node))
        .unwrap();
    assert!(matches!(r, InsertionOutcome::Inserted));
    assert_eq!(
        host.events,
        vec![
            format!("insert_node {sid} {nid}"),
            format!("destroy {nid}"),
            format!("destroy {sid}"),
        ]
    );
}

#[test]
fn attribute_idempotence_against_a_dedup_host() {
    let mut host = RecordingHost::new();
    let table = full_table();
    let mut bridge = TreeSinkBridge::new(table, 1);
    let target = NodeHandle { id: 42, table, name: None };
    bridge
        .add_attrs_if_missing(&mut host, target, vec![attr("id", "a")])
        .unwrap();
    let target = NodeHandle { id: 42, table, name: None };
    bridge
        .add_attrs_if_missing(&mut host, target, vec![attr("id", "a")])
        .unwrap();
    // the bridge forwarded both requests; the host kept a single attribute
    assert_eq!(
        host.attrs,
        vec![(
            42,
            String::from(HTML_NS),
            String::from("id"),
            String::from("a")
        )]
    );
}

#[test]
fn duplicate_attributes_reach_the_host_and_are_deduplicated_there() {
    let mut host = RecordingHost::new();
    let mut bridge = TreeSinkBridge::new(full_table(), 1);
    let h = bridge
        .create_element(&mut host, qual("div"), vec![attr("id", "a"), attr("id", "a")])
        .unwrap();
    // both duplicates were forwarded, in order
    assert_eq!(host.events.len(), 3);
    // the host's "if missing" semantics kept one
    assert_eq!(host.attrs.len(), 1);
    assert_eq!(host.attrs[0].0, h.id);
}

#[test]
fn root_handle_stability_through_the_same_node_callback() {
    let mut host = RecordingHost::new();
    let mut parser = new_parser(full_table(), 7);
    let first = parser.bridge.get_document(&mut host).unwrap();
    let second = parser.bridge.get_document(&mut host).unwrap();
    let root = NodeHandle { id: 7, table: full_table(), name: None };
    assert!(parser.bridge.same_node(&mut host, first, root).unwrap());
    let root = NodeHandle { id: 7, table: full_table(), name: None };
    assert!(parser.bridge.same_node(&mut host, second, root).unwrap());
}

#[test]
fn root_handle_stability_without_identity_callbacks() {
    let mut host = RecordingHost::new();
    let mut parser = new_parser(bare_table(), 7);
    let first = parser.bridge.get_document(&mut host).unwrap();
    assert_eq!(first.id, 7);
    let root = NodeHandle { id: 7, table: bare_table(), name: None };
    assert!(parser.bridge.same_node(&mut host, first, root).unwrap());
    assert!(host.events.is_empty());
}

#[test]
fn refcount_balance_over_a_whole_parse() {
    let mut host = RecordingHost::new();
    let mut parser = new_parser(full_table(), 7);
    // initial creations: the root handle, one element
    let mut creations: u64 = 1;
    let doc = parser.bridge.get_document(&mut host).unwrap();
    let element = parser
        .bridge
        .create_element(&mut host, qual("div"), Vec::new())
        .unwrap();
    creations += 1;
    let duplicate = parser.bridge.clone_handle(&mut host, &element).unwrap();
    parser
        .bridge
        .append(&mut host, doc, NodeOrText::AppendNode(element))
        .unwrap();
    parser.bridge.destroy_handle(&mut host, duplicate).unwrap();
    destroy_parser(&mut parser, &mut host).unwrap();
    // every initial creation and every clone is matched by exactly one destroy
    assert_eq!(creations + host.clones, host.destroys);
}

#[test]
fn same_node_releases_both_handles() {
    let mut host = RecordingHost::new();
    let mut bridge = TreeSinkBridge::new(full_table(), 1);
    let x = bridge.create_element(&mut host, qual("p"), Vec::new()).unwrap();
    let y = bridge.create_element(&mut host, qual("b"), Vec::new()).unwrap();
    let (xid, yid) = (x.id, y.id);
    host.events.clear();
    assert_eq!(bridge.same_node(&mut host, x, y).unwrap(), false);
    assert_eq!(
        host.events,
        vec![
            format!("same_node {xid} {yid}"),
            format!("destroy {yid}"),
            format!("destroy {xid}"),
        ]
    );
}

#[test]
fn get_template_contents_wraps_the_fragment() {
    let mut host = RecordingHost::new();
    let mut bridge = TreeSinkBridge::new(full_table(), 1);
    let template = bridge
        .create_element(&mut host, qual("template"), Vec::new())
        .unwrap();
    let tid = template.id;
    host.events.clear();
    let fragment = bridge.get_template_contents(&mut host, template).unwrap();
    assert_eq!(
        host.events,
        vec![
            format!("template_contents {tid} -> {}", fragment.id),
            format!("destroy {tid}"),
        ]
    );
    assert_eq!(fragment.name, None);
}

#[test]
fn remove_and_reparent_forward_directly() {
    let mut host = RecordingHost::new();
    let table = full_table();
    let mut bridge = TreeSinkBridge::new(table, 1);
    let target = NodeHandle { id: 5, table, name: None };
    bridge.remove_from_parent(&mut host, target).unwrap();
    let node = NodeHandle { id: 5, table, name: None };
    let new_parent = NodeHandle { id: 6, table, name: None };
    bridge.reparent_children(&mut host, node, new_parent).unwrap();
    assert_eq!(
        host.events,
        vec![
            String::from("remove 5"),
            String::from("destroy 5"),
            String::from("reparent 5 6"),
            String::from("destroy 6"),
            String::from("destroy 5"),
        ]
    );
}

#[test]
fn parse_errors_are_forwarded_or_discarded_and_never_fatal() {
    let mut host = RecordingHost::new();
    let mut bridge = TreeSinkBridge::new(full_table(), 1);
    bridge.parse_error(&mut host, "unexpected token");
    assert_eq!(host.events, vec![String::from("parse_error unexpected token")]);

    let mut silent = RecordingHost::new();
    let mut bare = TreeSinkBridge::new(bare_table(), 1);
    bare.parse_error(&mut silent, "unexpected token");
    assert!(silent.events.is_empty());
}

#[test]
fn quirks_mode_is_internal_bookkeeping() {
    let mut host = RecordingHost::new();
    let mut bridge = TreeSinkBridge::new(full_table(), 1);
    assert_eq!(bridge.quirks_mode, QuirksMode::NoQuirks);
    bridge.set_quirks_mode(QuirksMode::Quirks);
    assert_eq!(bridge.quirks_mode, QuirksMode::Quirks);
    bridge.set_quirks_mode(QuirksMode::LimitedQuirks);
    assert_eq!(bridge.quirks_mode, QuirksMode::LimitedQuirks);
    let _ = &mut host;
    assert!(host.events.is_empty());
}

#[test]
fn mark_script_already_started_only_releases() {
    let mut host = RecordingHost::new();
    let table = full_table();
    let mut bridge = TreeSinkBridge::new(table, 1);
    let target = NodeHandle { id: 9, table, name: None };
    bridge.mark_script_already_started(&mut host, target).unwrap();
    assert_eq!(host.events, vec![String::from("destroy 9")]);
}

#[test]
fn clone_handle_without_callback_shares_the_identity() {
    let mut host = RecordingHost::new();
    let table = bare_table();
    let mut bridge = TreeSinkBridge::new(table, 1);
    let h = bridge.create_element(&mut host, qual("p"), Vec::new()).unwrap();
    let c = bridge.clone_handle(&mut host, &h).unwrap();
    assert_eq!(c.id, h.id);
    assert_eq!(c.name, h.name);
    assert_eq!(host.clones, 0);
}
