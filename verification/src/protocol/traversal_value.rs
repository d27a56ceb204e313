use crate::protocol::count::Count;
use crate::protocol::items::{Edge, Node, Vector};
use crate::protocol::value::Value;
use vstd::prelude::*;

verus! {

/// What a finished traversal yields.
#[derive(Debug)]
pub enum TraversalValue {
    Empty,
    Count(Count),
    NodeArray(Vec<Node>),
    EdgeArray(Vec<Edge>),
    VectorArray(Vec<Vector>),
    ValueArray(Vec<Value>),
}

} // verus!
