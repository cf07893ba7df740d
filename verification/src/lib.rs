//! A foreign tree-sink bridge: lets a host object model, reached only through
//! a table of callbacks, receive the tree-construction operations of an HTML5
//! parsing engine, with opaque reference-counted node handles and a streaming
//! parse lifecycle.

mod callbacks;
mod errors;
mod handles;
mod names;
mod parser;
mod sink;
mod slices;

pub use callbacks::CallbackTable;
pub use callbacks::HostCall;
pub use callbacks::HostCallbacks;
pub use callbacks::SlotPresence;
pub use callbacks::call_ok;
pub use callbacks::calls_ok_between;
pub use callbacks::calls_ok_from;
pub use callbacks::extends;
pub use callbacks::declare_callbacks;
pub use callbacks::table_of;
pub use errors::GlueError;
pub use handles::HandleOp;
pub use handles::NodeHandle;
pub use handles::apply_handle_ops;
pub use handles::count_acquires;
pub use handles::count_releases;
pub use handles::lemma_ledger_counts;
pub use handles::lemma_refcount_balance;
pub use names::Attribute;
pub use names::QualifiedName;
pub use parser::LifecycleOp;
pub use parser::LifecycleState;
pub use parser::Parser;
pub use parser::accepted_ends;
pub use parser::destroy_parser;
pub use parser::destroy_qualified_name;
pub use parser::end_parser;
pub use parser::feed_parser;
pub use parser::lemma_end_succeeds_at_most_once;
pub use parser::lemma_feed_succeeds_before_end;
pub use parser::lemma_lifecycle_monotonic;
pub use parser::lemma_root_handle_stability;
pub use parser::lifecycle_accepts;
pub use parser::lifecycle_error;
pub use parser::lifecycle_rank;
pub use parser::lifecycle_step;
pub use parser::lossy_of;
pub use parser::new_parser;
pub use parser::run_lifecycle;
pub use sink::InsertionOutcome;
pub use sink::NodeOrText;
pub use sink::QuirksMode;
pub use sink::TreeSinkBridge;
pub use sink::attr_call_matches;
pub use sink::created_id;
pub use sink::fallback_same_node;
pub use sink::inserted_status;
pub use sink::ok_when;
pub use sink::rel_at;
pub use sink::rel_len;
pub use sink::same_core;
pub use slices::BytesSlice;
pub use slices::Utf8Slice;
