//! Qualified names and attributes as plain values.
//!
//! The engine identifies an element's tag by a (namespace identifier, local
//! name) pair. The bridge caches that pair on the handle it mints when the
//! element is created, because the engine later asks a handle for its tag
//! name without consulting the host again.

use vstd::prelude::*;

verus! {

/// A (namespace identifier, local name) pair identifying an element's tag.
///
/// Set exactly once, when the bridge creates the element's handle; never
/// mutated afterwards.
#[derive(Debug, PartialEq, Eq)]
pub struct QualifiedName {
    pub ns: String,
    pub local: String,
}

impl QualifiedName {
    /// An identical copy: both components compare equal to the original's.
    pub fn duplicate(&self) -> (r: QualifiedName)
        ensures
            r == *self,
    {
        QualifiedName { ns: self.ns.clone(), local: self.local.clone() }
    }
}

/// One attribute as the engine hands it over: a qualified name and a value.
#[derive(Debug, PartialEq, Eq)]
pub struct Attribute {
    pub name: QualifiedName,
    pub value: String,
}

} // verus!
