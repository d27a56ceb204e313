//! Lowering of the statements that add to the graph or search it by vector.

use crate::helixc::generator::arguments::{
    declared_properties_plan, endpoint_plan, lower_declared_properties, lower_endpoint,
    lower_neighbours, lower_vector, neighbours_plan, vector_plan,
};
use crate::helixc::generator::error::CompileError;
use crate::helixc::generator::naming::{snake_case, to_snake_case};
use crate::helixc::generator::plan::{op_models, Op, OpModel};
use crate::helixc::generator::scope::{Scope, ScopeModel};
use crate::helixc::parser::helix_parser::{AddEdge, AddNode, AddVector, BatchAddVector, SearchVector};
use vstd::prelude::*;
use vstd::string::*;

verus! {

/// The models of a lowered operation list, or the error.
pub open spec fn ops_outcome(r: Result<Vec<Op>, CompileError>) -> Result<Seq<OpModel>, CompileError> {
    match r {
        Ok(ops) => Ok(op_models(ops@)),
        Err(e) => Err(e),
    }
}

/// The text of an optional label: empty where there is none.
pub open spec fn label_text(label: Option<String>) -> Seq<char> {
    match label {
        Some(text) => text@,
        None => Seq::empty(),
    }
}

fn label_of(label: &Option<String>) -> (text: String)
    ensures
        text@ == label_text(*label),
{
    match label {
        Some(text) => text.clone(),
        None => String::new(),
    }
}

/// A new node: a fresh traversal, then the insertion with the declared
/// properties.
pub open spec fn add_node_plan(a: AddNode, scope: ScopeModel) -> Result<Seq<OpModel>, CompileError> {
    match declared_properties_plan(a.fields, scope) {
        Ok(properties) => Ok(
            seq![
                OpModel::NewTraversal,
                OpModel::AddNode { label: label_text(a.vertex_type), properties },
            ],
        ),
        Err(e) => Err(e),
    }
}

pub fn lower_add_node(a: &AddNode, scope: &Scope) -> (r: Result<Vec<Op>, CompileError>)
    ensures
        ops_outcome(r) == add_node_plan(*a, scope@),
{
    match lower_declared_properties(&a.fields, scope) {
        Ok(properties) => {
            let mut ops: Vec<Op> = Vec::new();
            ops.push(Op::NewTraversal);
            ops.push(Op::AddNode { label: label_of(&a.vertex_type), properties });
            proof {
                assert(op_models(ops@) =~= add_node_plan(*a, scope@)->Ok_0);
            }
            Ok(ops)
        },
        Err(e) => Err(e),
    }
}

/// A new edge: a fresh traversal, then the insertion between its two ends.
/// The properties are resolved first, then the source, then the target.
pub open spec fn add_edge_plan(a: AddEdge, scope: ScopeModel) -> Result<Seq<OpModel>, CompileError> {
    match declared_properties_plan(a.fields, scope) {
        Ok(properties) => match endpoint_plan(a.connection.from_id, scope) {
            Ok(from) => match endpoint_plan(a.connection.to_id, scope) {
                Ok(to) => Ok(
                    seq![
                        OpModel::NewTraversal,
                        OpModel::AddEdge { label: label_text(a.edge_type), from, to, properties },
                    ],
                ),
                Err(e) => Err(e),
            },
            Err(e) => Err(e),
        },
        Err(e) => Err(e),
    }
}

pub fn lower_add_edge(a: &AddEdge, scope: &Scope) -> (r: Result<Vec<Op>, CompileError>)
    ensures
        ops_outcome(r) == add_edge_plan(*a, scope@),
{
    let properties = match lower_declared_properties(&a.fields, scope) {
        Ok(properties) => properties,
        Err(e) => {
            return Err(e);
        },
    };
    let from = match lower_endpoint(&a.connection.from_id, scope) {
        Ok(from) => from,
        Err(e) => {
            return Err(e);
        },
    };
    let to = match lower_endpoint(&a.connection.to_id, scope) {
        Ok(to) => to,
        Err(e) => {
            return Err(e);
        },
    };
    let mut ops: Vec<Op> = Vec::new();
    ops.push(Op::NewTraversal);
    ops.push(Op::AddEdge { label: label_of(&a.edge_type), from, to, properties });
    proof {
        assert(op_models(ops@) =~= add_edge_plan(*a, scope@)->Ok_0);
    }
    Ok(ops)
}

/// One vector inserted: a fresh traversal, then the insertion.
pub open spec fn add_vector_plan(a: AddVector) -> Result<Seq<OpModel>, CompileError> {
    match vector_plan(a.data) {
        Ok(source) => Ok(seq![OpModel::NewTraversal, OpModel::InsertVector(source)]),
        Err(e) => Err(e),
    }
}

pub fn lower_add_vector(a: &AddVector) -> (r: Result<Vec<Op>, CompileError>)
    ensures
        ops_outcome(r) == add_vector_plan(*a),
{
    match lower_vector(&a.data) {
        Ok(source) => {
            let mut ops: Vec<Op> = Vec::new();
            ops.push(Op::NewTraversal);
            ops.push(Op::InsertVector(source));
            proof {
                assert(op_models(ops@) =~= add_vector_plan(*a)->Ok_0);
            }
            Ok(ops)
        },
        Err(e) => Err(e),
    }
}

/// Every vector of a parameter inserted: a fresh traversal, then the loop.
pub open spec fn batch_add_vector_plan(b: BatchAddVector) -> Result<Seq<OpModel>, CompileError> {
    match b.vec_identifier {
        Some(name) => Ok(seq![OpModel::NewTraversal, OpModel::InsertVectors(snake_case(name@))]),
        None => Err(CompileError::MissingVectorData),
    }
}

pub fn lower_batch_add_vector(b: &BatchAddVector) -> (r: Result<Vec<Op>, CompileError>)
    ensures
        ops_outcome(r) == batch_add_vector_plan(*b),
{
    match &b.vec_identifier {
        Some(name) => {
            let mut ops: Vec<Op> = Vec::new();
            ops.push(Op::NewTraversal);
            ops.push(Op::InsertVectors(to_snake_case(name.as_str())));
            proof {
                assert(op_models(ops@) =~= batch_add_vector_plan(*b)->Ok_0);
            }
            Ok(ops)
        },
        None => Err(CompileError::MissingVectorData),
    }
}

/// A nearest-neighbour search: a fresh traversal, then the search. A search
/// without a vector to search for is refused.
pub open spec fn search_vector_plan(s: SearchVector) -> Result<Seq<OpModel>, CompileError> {
    match vector_plan(s.data) {
        Ok(source) => Ok(
            seq![OpModel::NewTraversal, OpModel::SearchVectors { source, k: neighbours_plan(s.k) }],
        ),
        Err(e) => Err(e),
    }
}

pub fn lower_search_vector(s: &SearchVector) -> (r: Result<Vec<Op>, CompileError>)
    ensures
        ops_outcome(r) == search_vector_plan(*s),
{
    let k = lower_neighbours(&s.k);
    match lower_vector(&s.data) {
        Ok(source) => {
            let mut ops: Vec<Op> = Vec::new();
            ops.push(Op::NewTraversal);
            ops.push(Op::SearchVectors { source, k });
            proof {
                assert(op_models(ops@) =~= search_vector_plan(*s)->Ok_0);
            }
            Ok(ops)
        },
        Err(e) => Err(e),
    }
}

} // verus!
