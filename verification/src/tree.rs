//! The input tree: a semantic union of the node kinds the materializer
//! consumes. The driver that parses raw input builds this tree and hands it
//! in; the materializer reads it exactly once, depth first.

use vstd::prelude::*;

verus! {

/// One node of the input tree.
#[derive(Debug)]
pub enum Node {
    /// A mapping from names to children: becomes a directory.
    Dir(Vec<Entry>),
    /// Text content: becomes a regular file.
    Text(String),
    /// A list node. Only the tagged two-element shape
    /// `[kind, payload]` with `kind` one of `"link"` and `"script"` is
    /// accepted; every other shape is an invalid-shape error.
    List(Vec<Item>),
    /// Any other input value (a number, a boolean, a null): invalid.
    Other,
}

/// One named entry of a directory node, in the mapping's own order.
#[derive(Debug)]
pub struct Entry {
    pub name: String,
    pub node: Node,
}

/// One element of a list node. The materializer only ever asks whether an
/// element is text, so deeper structure is not represented.
#[derive(Debug)]
pub enum Item {
    Text(String),
    Other,
}

} // verus!
