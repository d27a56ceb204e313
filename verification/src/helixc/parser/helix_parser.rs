//! The syntax tree of a query program, as a parser hands it to the compiler.
//!
//! The tree is plain data. A float literal is carried as its decimal text.

use crate::protocol::value::Value;
use vstd::prelude::*;

verus! {

/// A whole program: schemas and queries.
#[derive(Debug)]
pub struct Source {
    pub node_schemas: Vec<NodeSchema>,
    pub edge_schemas: Vec<EdgeSchema>,
    pub queries: Vec<Query>,
}

#[derive(Debug)]
pub struct NodeSchema {
    pub name: String,
    pub fields: Vec<Field>,
}

#[derive(Debug)]
pub struct EdgeSchema {
    pub name: String,
    pub from: String,
    pub to: String,
    pub properties: Option<Vec<Field>>,
}

#[derive(Debug)]
pub struct Field {
    pub name: String,
    pub field_type: FieldType,
}

/// The declared type of a schema field or of a query parameter.
#[derive(Debug)]
pub enum FieldType {
    String,
    Integer,
    Float,
    Boolean,
    Array(Box<FieldType>),
    Identifier(String),
}

#[derive(Debug)]
pub struct Query {
    pub name: String,
    pub parameters: Vec<Parameter>,
    pub statements: Vec<Statement>,
    pub return_values: Vec<Expression>,
}

#[derive(Debug)]
pub struct Parameter {
    pub name: String,
    pub param_type: FieldType,
}

#[derive(Debug)]
pub enum Statement {
    Assignment(Assignment),
    AddVector(AddVector),
    AddNode(AddNode),
    AddEdge(AddEdge),
    Drop(Expression),
    SearchVector(SearchVector),
    BatchAddVector(BatchAddVector),
}

#[derive(Debug)]
pub struct Assignment {
    pub variable: String,
    pub value: Expression,
}

#[derive(Debug)]
pub enum Expression {
    Traversal(Box<Traversal>),
    Identifier(String),
    StringLiteral(String),
    IntegerLiteral(i32),
    /// The literal's decimal text.
    FloatLiteral(String),
    BooleanLiteral(bool),
    Exists(Box<Traversal>),
    BatchAddVector(BatchAddVector),
    AddVector(AddVector),
    AddNode(AddNode),
    AddEdge(AddEdge),
    And(Vec<Expression>),
    Or(Vec<Expression>),
    SearchVector(SearchVector),
    /// The explicit empty expression.
    Empty,
}

#[derive(Debug)]
pub struct Traversal {
    pub start: StartNode,
    pub steps: Vec<Step>,
}

/// Where a traversal starts.
#[derive(Debug)]
pub enum StartNode {
    Node { types: Option<Vec<String>>, ids: Option<Vec<String>> },
    Edge { types: Option<Vec<String>>, ids: Option<Vec<String>> },
    Variable(String),
    Anonymous,
}

#[derive(Debug)]
pub enum Step {
    Node(GraphStep),
    Edge(GraphStep),
    Where(Box<Expression>),
    BooleanOperation(BooleanOp),
    Count,
    Update(Update),
    Object(Object),
    Exclude(Exclude),
    Closure(Closure),
    Range((Expression, Expression)),
}

/// One hop along the graph. The edge-following hops carry an optional list
/// of edge types, of which the first is the filter.
#[derive(Debug)]
pub enum GraphStep {
    Out(Option<Vec<String>>),
    In(Option<Vec<String>>),
    Both(Option<Vec<String>>),
    OutN,
    InN,
    BothN,
    OutE(Option<Vec<String>>),
    InE(Option<Vec<String>>),
    BothE(Option<Vec<String>>),
}

/// A comparison against one operand.
#[derive(Debug)]
pub enum BooleanOp {
    GreaterThan(Box<Expression>),
    GreaterThanOrEqual(Box<Expression>),
    LessThan(Box<Expression>),
    LessThanOrEqual(Box<Expression>),
    Equal(Box<Expression>),
    NotEqual(Box<Expression>),
}

#[derive(Debug)]
pub struct FieldAddition {
    pub name: String,
    pub value: FieldValue,
}

/// The value of a field, in a property assignment or in a projection.
#[derive(Debug)]
pub enum FieldValue {
    Traversal(Box<Traversal>),
    Expression(Expression),
    Literal(Value),
    Empty,
}

#[derive(Debug)]
pub struct Update {
    pub fields: Vec<FieldAddition>,
}

/// A projection: named fields, and whether the remaining fields of the
/// element are kept as well.
#[derive(Debug)]
pub struct Object {
    pub fields: Vec<(String, FieldValue)>,
    pub should_spread: bool,
}

#[derive(Debug)]
pub struct Exclude {
    pub fields: Vec<String>,
}

#[derive(Debug)]
pub struct Closure {
    pub identifier: String,
    pub object: Object,
}

/// The value of a declared property of a new node or edge.
#[derive(Debug)]
pub enum ValueType {
    Literal(Value),
    Identifier(String),
}

#[derive(Debug)]
pub struct AddNode {
    pub vertex_type: Option<String>,
    pub fields: Option<Vec<(String, ValueType)>>,
}

#[derive(Debug)]
pub struct AddEdge {
    pub edge_type: Option<String>,
    pub fields: Option<Vec<(String, ValueType)>>,
    pub connection: EdgeConnection,
}

#[derive(Debug)]
pub struct EdgeConnection {
    pub from_id: Option<IdType>,
    pub to_id: Option<IdType>,
}

#[derive(Debug)]
pub enum IdType {
    Literal(String),
    Identifier(String),
}

/// An embedding: its components as decimal texts, or the name of the
/// parameter that holds it.
#[derive(Debug)]
pub enum VectorData {
    Vector(Vec<String>),
    Identifier(String),
}

/// How many neighbours a vector search asks for.
#[derive(Debug)]
pub enum EvaluatesToNumber {
    Integer(usize),
    /// The literal's decimal text.
    Float(String),
    Identifier(String),
}

#[derive(Debug)]
pub struct AddVector {
    pub data: Option<VectorData>,
}

#[derive(Debug)]
pub struct BatchAddVector {
    pub vec_identifier: Option<String>,
}

#[derive(Debug)]
pub struct SearchVector {
    pub data: Option<VectorData>,
    pub k: Option<EvaluatesToNumber>,
}

} // verus!
