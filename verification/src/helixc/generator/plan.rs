//! The handler plan: the typed operation sequence a query is lowered to.
//!
//! Every type here comes twice. The executable one holds `String` and `Vec`;
//! its model, reached with `@`, holds the same content as sequences. The
//! contracts of the compiler and of the text backend speak of models only.

use vstd::prelude::*;

verus! {

/// Whether a handler may change the graph.
#[derive(Debug, Clone, Copy, PartialEq, Eq, Structural)]
pub enum TransactionMode {
    Read,
    Write,
}

/// The relation a comparison tests.
#[derive(Debug, Clone, Copy, PartialEq, Eq, Structural)]
pub enum Comparator {
    Equal,
    NotEqual,
    GreaterThan,
    GreaterThanOrEqual,
    LessThan,
    LessThanOrEqual,
}

/// One hop: to neighbouring nodes, to incident edges, or from an edge to its
/// end nodes.
#[derive(Debug, Clone, Copy, PartialEq, Eq, Structural)]
pub enum Direction {
    Out,
    In,
    Both,
    OutE,
    InE,
    BothE,
    OutV,
    InV,
    BothV,
}

/// An argument of an operation.
#[derive(Debug)]
pub enum Term {
    /// A string literal.
    String(String),
    Integer(i32),
    Unsigned(usize),
    /// A float literal, as its decimal text.
    Float(String),
    Boolean(bool),
    Array(Vec<Term>),
    /// A field of the request's input, by its normalized name.
    Parameter(String),
    /// A variable bound by an earlier statement, by its generated name.
    Binding(String),
    /// A bare name, as written in the query.
    Name(String),
}

pub enum TermModel {
    String(Seq<char>),
    Integer(i32),
    Unsigned(usize),
    Float(Seq<char>),
    Boolean(bool),
    Array(Seq<TermModel>),
    Parameter(Seq<char>),
    Binding(Seq<char>),
    Name(Seq<char>),
}

/// A comparison against one operand.
#[derive(Debug)]
pub struct Comparison {
    pub op: Comparator,
    pub operand: Term,
}

pub struct ComparisonModel {
    pub op: Comparator,
    pub operand: TermModel,
}

/// A side-effect-free test on the current element.
#[derive(Debug)]
pub enum Predicate {
    Constant(bool),
    /// After `path`, the named property exists and, with a test, passes it.
    Property { path: Vec<Op>, name: String, test: Option<Comparison> },
    /// The number of elements `path` reaches passes the test; without a
    /// test, it is not zero.
    Count { path: Vec<Op>, test: Option<Comparison> },
    /// `path` reaches at least one element.
    Exists { path: Vec<Op> },
    And(Vec<Predicate>),
    Or(Vec<Predicate>),
}

pub enum PredicateModel {
    Constant(bool),
    Property { path: Seq<OpModel>, name: Seq<char>, test: Option<ComparisonModel> },
    Count { path: Seq<OpModel>, test: Option<ComparisonModel> },
    Exists { path: Seq<OpModel> },
    And(Seq<PredicateModel>),
    Or(Seq<PredicateModel>),
}

/// What replaces a projected field that is computed by a sub-traversal.
#[derive(Debug, Clone, Copy, PartialEq, Eq, Structural)]
pub enum Replacement {
    /// The identity of the element the sub-traversal ends on.
    ElementId,
    /// The elements the sub-traversal ends on, themselves remapped.
    Elements,
}

/// Where the value of a projected field comes from.
#[derive(Debug)]
pub enum FieldSource {
    /// No transformation: the remapping carries no replacement.
    Inherited,
    /// The empty value.
    Empty,
    /// The value of the named property of the current element. The request
    /// fails with a conversion error where the element has no such property.
    Property(String),
    /// The result of a sub-traversal from the current element.
    Computed { path: Vec<Op>, replacement: Replacement },
}

pub enum FieldSourceModel {
    Inherited,
    Empty,
    Property(Seq<char>),
    Computed { path: Seq<OpModel>, replacement: Replacement },
}

/// One field of a projection.
#[derive(Debug)]
pub struct ProjectedField {
    /// The field's name in the response.
    pub key: String,
    /// The generated name that holds the field's value.
    pub variable: String,
    pub source: FieldSource,
}

pub struct ProjectedFieldModel {
    pub key: Seq<char>,
    pub variable: Seq<char>,
    pub source: FieldSourceModel,
}

/// The registration of one response remapping per element reached.
#[derive(Debug)]
pub struct Projection {
    /// The name the current element goes by inside the projection.
    pub item: String,
    pub fields: Vec<ProjectedField>,
    pub should_spread: bool,
}

pub struct ProjectionModel {
    pub item: Seq<char>,
    pub fields: Seq<ProjectedFieldModel>,
    pub should_spread: bool,
}

/// One operation on the traversal builder.
#[derive(Debug)]
pub enum Op {
    /// Starts an empty traversal.
    NewTraversal,
    /// Starts a traversal from the value of a bound variable.
    FromBinding(String),
    NodesById(Term),
    NodesByType(Vec<String>),
    AllNodes,
    EdgesById(Term),
    AllEdges,
    /// One hop; the text is the edge type that filters it, empty for none.
    Step(Direction, String),
    Range(Term, Term),
    /// Counts the elements reached. A comparison that the query attached to
    /// the count travels with it.
    Count(Option<Comparison>),
    Filter(Predicate),
    UpdateProperties(Vec<(String, Term)>),
    Project(Projection),
    /// Registers, per element, the exclusion of the named fields. Each field
    /// comes with the generated name of its remapping.
    Exclude { item: String, fields: Vec<(String, String)> },
    AddNode { label: String, properties: Vec<(String, Term)> },
    AddEdge { label: String, from: Term, to: Term, properties: Vec<(String, Term)> },
    Drop,
    InsertVector(Term),
    /// Inserts every vector of the named input field.
    InsertVectors(String),
    SearchVectors { source: Term, k: Term },
    /// Finishes the traversal and binds its result to a generated name.
    Bind(String),
}

pub enum OpModel {
    NewTraversal,
    FromBinding(Seq<char>),
    NodesById(TermModel),
    NodesByType(Seq<Seq<char>>),
    AllNodes,
    EdgesById(TermModel),
    AllEdges,
    Step(Direction, Seq<char>),
    Range(TermModel, TermModel),
    Count(Option<ComparisonModel>),
    Filter(PredicateModel),
    UpdateProperties(Seq<(Seq<char>, TermModel)>),
    Project(ProjectionModel),
    Exclude { item: Seq<char>, fields: Seq<(Seq<char>, Seq<char>)> },
    AddNode { label: Seq<char>, properties: Seq<(Seq<char>, TermModel)> },
    AddEdge { label: Seq<char>, from: TermModel, to: TermModel, properties: Seq<(Seq<char>, TermModel)> },
    Drop,
    InsertVector(TermModel),
    InsertVectors(Seq<char>),
    SearchVectors { source: TermModel, k: TermModel },
    Bind(Seq<char>),
}

/// One field of a handler's input.
#[derive(Debug)]
pub struct InputField {
    /// The parameter's normalized name.
    pub name: String,
    /// The type of the field, as the handler declares it.
    pub declared_type: String,
}

pub struct InputFieldModel {
    pub name: Seq<char>,
    pub declared_type: Seq<char>,
}

/// One named entry of the response.
#[derive(Debug)]
pub enum ReturnEntry {
    /// The remapped value of a bound variable.
    Binding { key: String, variable: String },
    /// The remapped result of a traversal evaluated for the response.
    Traversal { key: String, path: Vec<Op> },
    /// A fixed text under the key `message`.
    Message(String),
    /// The empty value under the key `message`.
    EmptyMessage,
}

pub enum ReturnEntryModel {
    Binding { key: Seq<char>, variable: Seq<char> },
    Traversal { key: Seq<char>, path: Seq<OpModel> },
    Message(Seq<char>),
    EmptyMessage,
}

/// One operation of a handler.
#[derive(Debug)]
pub enum HandlerOp {
    /// Opens the transaction.
    Begin(TransactionMode),
    /// Allocates the response map for the given number of entries.
    AllocateResponse(usize),
    /// Runs the operations of one statement.
    Statement(Vec<Op>),
    /// Fills the response map and writes it to the response.
    Respond(Vec<ReturnEntry>),
    /// Commits the transaction.
    Commit,
}

pub enum HandlerOpModel {
    Begin(TransactionMode),
    AllocateResponse(usize),
    Statement(Seq<OpModel>),
    Respond(Seq<ReturnEntryModel>),
    Commit,
}

/// The plan of one request handler.
#[derive(Debug)]
pub struct HandlerProgram {
    /// The query's name, as declared.
    pub name: String,
    pub inputs: Vec<InputField>,
    pub ops: Vec<HandlerOp>,
}

pub struct HandlerProgramModel {
    pub name: Seq<char>,
    pub inputs: Seq<InputFieldModel>,
    pub ops: Seq<HandlerOpModel>,
}

pub open spec fn term_model(t: Term) -> TermModel
    decreases t,
{
    match t {
        Term::String(s) => TermModel::String(s@),
        Term::Integer(i) => TermModel::Integer(i),
        Term::Unsigned(n) => TermModel::Unsigned(n),
        Term::Float(f) => TermModel::Float(f@),
        Term::Boolean(b) => TermModel::Boolean(b),
        Term::Array(items) => TermModel::Array(
            Seq::new(
                items@.len(),
                |i: int|
                    if 0 <= i < items@.len() {
                        term_model(items@[i])
                    } else {
                        TermModel::Boolean(false)
                    },
            ),
        ),
        Term::Parameter(p) => TermModel::Parameter(p@),
        Term::Binding(b) => TermModel::Binding(b@),
        Term::Name(n) => TermModel::Name(n@),
    }
}

pub open spec fn term_models(items: Seq<Term>) -> Seq<TermModel> {
    Seq::new(items.len(), |i: int| term_model(items[i]))
}

pub open spec fn comparison_model(c: Comparison) -> ComparisonModel {
    ComparisonModel { op: c.op, operand: term_model(c.operand) }
}

pub open spec fn test_model(t: Option<Comparison>) -> Option<ComparisonModel> {
    match t {
        Some(c) => Some(comparison_model(c)),
        None => None,
    }
}

pub open spec fn property_models(properties: Seq<(String, Term)>) -> Seq<(Seq<char>, TermModel)> {
    Seq::new(properties.len(), |i: int| (properties[i].0@, term_model(properties[i].1)))
}

pub open spec fn name_models(names: Seq<String>) -> Seq<Seq<char>> {
    Seq::new(names.len(), |i: int| names[i]@)
}

pub open spec fn pair_models(pairs: Seq<(String, String)>) -> Seq<(Seq<char>, Seq<char>)> {
    Seq::new(pairs.len(), |i: int| (pairs[i].0@, pairs[i].1@))
}

pub open spec fn predicate_model(p: Predicate) -> PredicateModel
    decreases p,
{
    match p {
        Predicate::Constant(b) => PredicateModel::Constant(b),
        Predicate::Property { path, name, test } => PredicateModel::Property {
            path: op_models(path@),
            name: name@,
            test: test_model(test),
        },
        Predicate::Count { path, test } => PredicateModel::Count {
            path: op_models(path@),
            test: test_model(test),
        },
        Predicate::Exists { path } => PredicateModel::Exists { path: op_models(path@) },
        Predicate::And(parts) => PredicateModel::And(predicate_models(parts@)),
        Predicate::Or(parts) => PredicateModel::Or(predicate_models(parts@)),
    }
}

pub open spec fn predicate_models(parts: Seq<Predicate>) -> Seq<PredicateModel>
    decreases parts,
{
    Seq::new(
        parts.len(),
        |i: int|
            if 0 <= i < parts.len() {
                predicate_model(parts[i])
            } else {
                PredicateModel::Constant(false)
            },
    )
}

pub open spec fn op_model(op: Op) -> OpModel
    decreases op,
{
    match op {
        Op::NewTraversal => OpModel::NewTraversal,
        Op::FromBinding(b) => OpModel::FromBinding(b@),
        Op::NodesById(t) => OpModel::NodesById(term_model(t)),
        Op::NodesByType(types) => OpModel::NodesByType(name_models(types@)),
        Op::AllNodes => OpModel::AllNodes,
        Op::EdgesById(t) => OpModel::EdgesById(term_model(t)),
        Op::AllEdges => OpModel::AllEdges,
        Op::Step(direction, label) => OpModel::Step(direction, label@),
        Op::Range(start, end) => OpModel::Range(term_model(start), term_model(end)),
        Op::Count(test) => OpModel::Count(test_model(test)),
        Op::Filter(p) => OpModel::Filter(predicate_model(p)),
        Op::UpdateProperties(properties) => OpModel::UpdateProperties(property_models(properties@)),
        Op::Project(projection) => OpModel::Project(projection_model(projection)),
        Op::Exclude { item, fields } => OpModel::Exclude { item: item@, fields: pair_models(fields@) },
        Op::AddNode { label, properties } => OpModel::AddNode {
            label: label@,
            properties: property_models(properties@),
        },
        Op::AddEdge { label, from, to, properties } => OpModel::AddEdge {
            label: label@,
            from: term_model(from),
            to: term_model(to),
            properties: property_models(properties@),
        },
        Op::Drop => OpModel::Drop,
        Op::InsertVector(source) => OpModel::InsertVector(term_model(source)),
        Op::InsertVectors(parameter) => OpModel::InsertVectors(parameter@),
        Op::SearchVectors { source, k } => OpModel::SearchVectors {
            source: term_model(source),
            k: term_model(k),
        },
        Op::Bind(name) => OpModel::Bind(name@),
    }
}

pub open spec fn op_models(ops: Seq<Op>) -> Seq<OpModel>
    decreases ops,
{
    Seq::new(
        ops.len(),
        |i: int|
            if 0 <= i < ops.len() {
                op_model(ops[i])
            } else {
                OpModel::Drop
            },
    )
}

pub open spec fn projection_model(p: Projection) -> ProjectionModel
    decreases p,
{
    ProjectionModel {
        item: p.item@,
        fields: field_models(p.fields@),
        should_spread: p.should_spread,
    }
}

pub open spec fn source_model(s: FieldSource) -> FieldSourceModel
    decreases s,
{
    match s {
        FieldSource::Inherited => FieldSourceModel::Inherited,
        FieldSource::Empty => FieldSourceModel::Empty,
        FieldSource::Property(name) => FieldSourceModel::Property(name@),
        FieldSource::Computed { path, replacement } => FieldSourceModel::Computed {
            path: op_models(path@),
            replacement,
        },
    }
}

pub open spec fn field_model(f: ProjectedField) -> ProjectedFieldModel
    decreases f,
{
    ProjectedFieldModel { key: f.key@, variable: f.variable@, source: source_model(f.source) }
}

pub open spec fn field_models(fields: Seq<ProjectedField>) -> Seq<ProjectedFieldModel>
    decreases fields,
{
    Seq::new(
        fields.len(),
        |i: int|
            if 0 <= i < fields.len() {
                field_model(fields[i])
            } else {
                ProjectedFieldModel {
                    key: Seq::empty(),
                    variable: Seq::empty(),
                    source: FieldSourceModel::Inherited,
                }
            },
    )
}

pub open spec fn input_models(inputs: Seq<InputField>) -> Seq<InputFieldModel> {
    Seq::new(
        inputs.len(),
        |i: int| InputFieldModel { name: inputs[i].name@, declared_type: inputs[i].declared_type@ },
    )
}

pub open spec fn entry_model(e: ReturnEntry) -> ReturnEntryModel {
    match e {
        ReturnEntry::Binding { key, variable } => ReturnEntryModel::Binding {
            key: key@,
            variable: variable@,
        },
        ReturnEntry::Traversal { key, path } => ReturnEntryModel::Traversal {
            key: key@,
            path: op_models(path@),
        },
        ReturnEntry::Message(text) => ReturnEntryModel::Message(text@),
        ReturnEntry::EmptyMessage => ReturnEntryModel::EmptyMessage,
    }
}

pub open spec fn entry_models(entries: Seq<ReturnEntry>) -> Seq<ReturnEntryModel> {
    Seq::new(entries.len(), |i: int| entry_model(entries[i]))
}

pub open spec fn handler_op_model(op: HandlerOp) -> HandlerOpModel {
    match op {
        HandlerOp::Begin(mode) => HandlerOpModel::Begin(mode),
        HandlerOp::AllocateResponse(n) => HandlerOpModel::AllocateResponse(n),
        HandlerOp::Statement(ops) => HandlerOpModel::Statement(op_models(ops@)),
        HandlerOp::Respond(entries) => HandlerOpModel::Respond(entry_models(entries@)),
        HandlerOp::Commit => HandlerOpModel::Commit,
    }
}

pub open spec fn handler_op_models(ops: Seq<HandlerOp>) -> Seq<HandlerOpModel> {
    Seq::new(ops.len(), |i: int| handler_op_model(ops[i]))
}

impl View for Term {
    type V = TermModel;

    open spec fn view(&self) -> TermModel {
        term_model(*self)
    }
}

impl View for Comparison {
    type V = ComparisonModel;

    open spec fn view(&self) -> ComparisonModel {
        comparison_model(*self)
    }
}

impl View for Predicate {
    type V = PredicateModel;

    open spec fn view(&self) -> PredicateModel {
        predicate_model(*self)
    }
}

impl View for Op {
    type V = OpModel;

    open spec fn view(&self) -> OpModel {
        op_model(*self)
    }
}

impl View for FieldSource {
    type V = FieldSourceModel;

    open spec fn view(&self) -> FieldSourceModel {
        source_model(*self)
    }
}

impl View for ProjectedField {
    type V = ProjectedFieldModel;

    open spec fn view(&self) -> ProjectedFieldModel {
        field_model(*self)
    }
}

impl View for Projection {
    type V = ProjectionModel;

    open spec fn view(&self) -> ProjectionModel {
        projection_model(*self)
    }
}

impl View for InputField {
    type V = InputFieldModel;

    open spec fn view(&self) -> InputFieldModel {
        InputFieldModel { name: self.name@, declared_type: self.declared_type@ }
    }
}

impl View for ReturnEntry {
    type V = ReturnEntryModel;

    open spec fn view(&self) -> ReturnEntryModel {
        entry_model(*self)
    }
}

impl View for HandlerOp {
    type V = HandlerOpModel;

    open spec fn view(&self) -> HandlerOpModel {
        handler_op_model(*self)
    }
}

impl View for HandlerProgram {
    type V = HandlerProgramModel;

    open spec fn view(&self) -> HandlerProgramModel {
        HandlerProgramModel {
            name: self.name@,
            inputs: input_models(self.inputs@),
            ops: handler_op_models(self.ops@),
        }
    }
}

} // verus!
