//! Lowering of the leaves of the syntax tree: literals, property values,
//! end points, vectors, bounds and comparison operands.

use crate::helixc::generator::error::CompileError;
use crate::helixc::generator::naming::{snake_case, to_snake_case};
use crate::helixc::generator::plan::{
    property_models, term_model, term_models, Comparator, Comparison, ComparisonModel, Term,
    TermModel,
};
use crate::helixc::generator::scope::{Scope, ScopeModel};
use crate::helixc::parser::helix_parser::{
    BooleanOp, EvaluatesToNumber, Expression, FieldAddition, FieldValue, IdType, ValueType,
    VectorData,
};
use crate::protocol::value::Value;
use vstd::prelude::*;
use vstd::string::*;

verus! {

/// The model of a lowered term, or the error.
pub open spec fn term_outcome(r: Result<Term, CompileError>) -> Result<TermModel, CompileError> {
    match r {
        Ok(t) => Ok(t@),
        Err(e) => Err(e),
    }
}

/// The model of a lowered property list, or the error.
pub open spec fn properties_outcome(r: Result<Vec<(String, Term)>, CompileError>) -> Result<
    Seq<(Seq<char>, TermModel)>,
    CompileError,
> {
    match r {
        Ok(ps) => Ok(property_models(ps@)),
        Err(e) => Err(e),
    }
}

/// The model of a lowered comparison, or the error.
pub open spec fn comparison_outcome(r: Result<Comparison, CompileError>) -> Result<
    ComparisonModel,
    CompileError,
> {
    match r {
        Ok(c) => Ok(c@),
        Err(e) => Err(e),
    }
}

/// A literal value as a term. The empty value is no literal.
pub open spec fn literal_plan(v: Value) -> Result<TermModel, CompileError>
    decreases v,
{
    match v {
        Value::String(s) => Ok(TermModel::String(s@)),
        Value::Integer(i) => Ok(TermModel::Integer(i)),
        Value::Float(f) => Ok(TermModel::Float(f@)),
        Value::Boolean(b) => Ok(TermModel::Boolean(b)),
        Value::Array(items) => match literals_plan(items@, 0, Seq::empty()) {
            Ok(terms) => Ok(TermModel::Array(terms)),
            Err(e) => Err(e),
        },
        Value::Empty => Err(CompileError::EmptyValue),
    }
}

/// `done` followed by the terms of `items` from index `i` on; the first
/// item that is no literal decides the error.
pub open spec fn literals_plan(items: Seq<Value>, i: nat, done: Seq<TermModel>) -> Result<
    Seq<TermModel>,
    CompileError,
>
    decreases items, items.len() - i,
{
    if i >= items.len() {
        Ok(done)
    } else {
        match literal_plan(items[i as int]) {
            Ok(t) => literals_plan(items, i + 1, done.push(t)),
            Err(e) => Err(e),
        }
    }
}

#[verifier::loop_isolation(false)]
pub fn lower_literal(v: &Value) -> (r: Result<Term, CompileError>)
    ensures
        term_outcome(r) == literal_plan(*v),
    decreases v,
{
    match v {
        Value::String(s) => Ok(Term::String(s.clone())),
        Value::Integer(i) => Ok(Term::Integer(*i)),
        Value::Float(f) => Ok(Term::Float(f.clone())),
        Value::Boolean(b) => Ok(Term::Boolean(*b)),
        Value::Array(items) => {
            let mut terms: Vec<Term> = Vec::new();
            let mut i: usize = 0;
            proof {
                assert(term_models(terms@) =~= Seq::<TermModel>::empty());
            }
            while i < items.len()
                invariant
                    i <= items.len(),
                    literals_plan(items@, 0, Seq::empty()) == literals_plan(
                        items@,
                        i as nat,
                        term_models(terms@),
                    ),
                decreases items.len() - i,
            {
                match lower_literal(&items[i]) {
                    Ok(t) => {
                        proof {
                            assert(term_models(terms@.push(t)) =~= term_models(terms@).push(t@));
                        }
                        terms.push(t);
                    },
                    Err(e) => {
                        return Err(e);
                    },
                }
                i = i + 1;
            }
            let term = Term::Array(terms);
            proof {
                assert(term@->Array_0 =~= term_models(terms@));
            }
            Ok(term)
        },
        Value::Empty => Err(CompileError::EmptyValue),
    }
}

/// The value of a declared property of a new element: a literal, or the
/// input field of the parameter it names.
pub open spec fn property_value_plan(v: ValueType, scope: ScopeModel) -> Result<
    TermModel,
    CompileError,
> {
    match v {
        ValueType::Literal(value) => literal_plan(value),
        ValueType::Identifier(name) => if scope.is_parameter(name@) {
            Ok(TermModel::Parameter(snake_case(name@)))
        } else {
            Err(CompileError::UnknownParameter)
        },
    }
}

pub fn lower_property_value(v: &ValueType, scope: &Scope) -> (r: Result<Term, CompileError>)
    ensures
        term_outcome(r) == property_value_plan(*v, scope@),
{
    match v {
        ValueType::Literal(value) => lower_literal(value),
        ValueType::Identifier(name) => {
            if scope.is_parameter(name) {
                Ok(Term::Parameter(to_snake_case(name.as_str())))
            } else {
                Err(CompileError::UnknownParameter)
            }
        },
    }
}

/// `done` followed by the declared properties from index `i` on.
pub open spec fn properties_plan(
    fields: Seq<(String, ValueType)>,
    scope: ScopeModel,
    i: nat,
    done: Seq<(Seq<char>, TermModel)>,
) -> Result<Seq<(Seq<char>, TermModel)>, CompileError>
    decreases fields.len() - i,
{
    if i >= fields.len() {
        Ok(done)
    } else {
        match property_value_plan(fields[i as int].1, scope) {
            Ok(t) => properties_plan(fields, scope, i + 1, done.push((fields[i as int].0@, t))),
            Err(e) => Err(e),
        }
    }
}

/// The declared properties of a new element; none where the list is absent.
pub open spec fn declared_properties_plan(
    fields: Option<Vec<(String, ValueType)>>,
    scope: ScopeModel,
) -> Result<Seq<(Seq<char>, TermModel)>, CompileError> {
    match fields {
        Some(fields) => properties_plan(fields@, scope, 0, Seq::empty()),
        None => Ok(Seq::empty()),
    }
}

#[verifier::loop_isolation(false)]
pub fn lower_declared_properties(fields: &Option<Vec<(String, ValueType)>>, scope: &Scope) -> (r:
    Result<Vec<(String, Term)>, CompileError>)
    ensures
        properties_outcome(r) == declared_properties_plan(*fields, scope@),
{
    let mut properties: Vec<(String, Term)> = Vec::new();
    proof {
        assert(property_models(properties@) =~= Seq::<(Seq<char>, TermModel)>::empty());
    }
    match fields {
        Some(fields) => {
            let mut i: usize = 0;
            while i < fields.len()
                invariant
                    i <= fields.len(),
                    properties_plan(fields@, scope@, 0, Seq::empty()) == properties_plan(
                        fields@,
                        scope@,
                        i as nat,
                        property_models(properties@),
                    ),
                decreases fields.len() - i,
            {
                match lower_property_value(&fields[i].1, scope) {
                    Ok(t) => {
                        let name = fields[i].0.clone();
                        proof {
                            assert(property_models(properties@.push((name, t))) =~= property_models(
                                properties@,
                            ).push((name@, t@)));
                        }
                        properties.push((name, t));
                    },
                    Err(e) => {
                        return Err(e);
                    },
                }
                i = i + 1;
            }
            Ok(properties)
        },
        None => Ok(properties),
    }
}

/// The value a property is updated to: a literal, a string, or the input
/// field of the parameter it names.
pub open spec fn assigned_value_plan(v: FieldValue, scope: ScopeModel) -> Result<
    TermModel,
    CompileError,
> {
    match v {
        FieldValue::Literal(value) => literal_plan(value),
        FieldValue::Empty => Err(CompileError::EmptyValue),
        FieldValue::Expression(Expression::StringLiteral(s)) => Ok(TermModel::String(s@)),
        FieldValue::Expression(Expression::Identifier(name)) => if scope.is_parameter(name@) {
            Ok(TermModel::Parameter(snake_case(name@)))
        } else {
            Err(CompileError::UnknownParameter)
        },
        _ => Err(CompileError::UnsupportedProperty),
    }
}

pub fn lower_assigned_value(v: &FieldValue, scope: &Scope) -> (r: Result<Term, CompileError>)
    ensures
        term_outcome(r) == assigned_value_plan(*v, scope@),
{
    match v {
        FieldValue::Literal(value) => lower_literal(value),
        FieldValue::Empty => Err(CompileError::EmptyValue),
        FieldValue::Expression(Expression::StringLiteral(s)) => Ok(Term::String(s.clone())),
        FieldValue::Expression(Expression::Identifier(name)) => {
            if scope.is_parameter(name) {
                Ok(Term::Parameter(to_snake_case(name.as_str())))
            } else {
                Err(CompileError::UnknownParameter)
            }
        },
        _ => Err(CompileError::UnsupportedProperty),
    }
}

/// `done` followed by the updated properties from index `i` on.
pub open spec fn assignments_plan(
    fields: Seq<FieldAddition>,
    scope: ScopeModel,
    i: nat,
    done: Seq<(Seq<char>, TermModel)>,
) -> Result<Seq<(Seq<char>, TermModel)>, CompileError>
    decreases fields.len() - i,
{
    if i >= fields.len() {
        Ok(done)
    } else {
        match assigned_value_plan(fields[i as int].value, scope) {
            Ok(t) => assignments_plan(fields, scope, i + 1, done.push((fields[i as int].name@, t))),
            Err(e) => Err(e),
        }
    }
}

pub fn lower_assignments(fields: &Vec<FieldAddition>, scope: &Scope) -> (r: Result<
    Vec<(String, Term)>,
    CompileError,
>)
    ensures
        properties_outcome(r) == assignments_plan(fields@, scope@, 0, Seq::empty()),
{
    let mut properties: Vec<(String, Term)> = Vec::new();
    proof {
        assert(property_models(properties@) =~= Seq::<(Seq<char>, TermModel)>::empty());
    }
    let mut i: usize = 0;
    while i < fields.len()
        invariant
            i <= fields.len(),
            assignments_plan(fields@, scope@, 0, Seq::empty()) == assignments_plan(
                fields@,
                scope@,
                i as nat,
                property_models(properties@),
            ),
        decreases fields.len() - i,
    {
        match lower_assigned_value(&fields[i].value, scope) {
            Ok(t) => {
                let name = fields[i].name.clone();
                proof {
                    assert(property_models(properties@.push((name, t))) =~= property_models(
                        properties@,
                    ).push((name@, t@)));
                }
                properties.push((name, t));
            },
            Err(e) => {
                return Err(e);
            },
        }
        i = i + 1;
    }
    Ok(properties)
}

/// One end of a new edge: a literal id, the identity of a bound variable,
/// or an unbound name taken as a literal id.
pub open spec fn endpoint_plan(id: Option<IdType>, scope: ScopeModel) -> Result<
    TermModel,
    CompileError,
> {
    match id {
        None => Err(CompileError::MissingEndpoint),
        Some(IdType::Literal(text)) => Ok(TermModel::String(text@)),
        Some(IdType::Identifier(name)) => if scope.is_bound(name@) {
            Ok(TermModel::Binding(snake_case(name@)))
        } else {
            Ok(TermModel::String(name@))
        },
    }
}

pub fn lower_endpoint(id: &Option<IdType>, scope: &Scope) -> (r: Result<Term, CompileError>)
    ensures
        term_outcome(r) == endpoint_plan(*id, scope@),
{
    match id {
        None => Err(CompileError::MissingEndpoint),
        Some(IdType::Literal(text)) => Ok(Term::String(text.clone())),
        Some(IdType::Identifier(name)) => {
            if scope.is_bound(name) {
                Ok(Term::Binding(to_snake_case(name.as_str())))
            } else {
                Ok(Term::String(name.clone()))
            }
        },
    }
}

/// The components of a literal vector as float terms.
pub open spec fn component_terms(components: Seq<String>) -> Seq<TermModel> {
    Seq::new(components.len(), |i: int| TermModel::Float(components[i]@))
}

/// The source of a vector: its literal components, or the input field of
/// the parameter that holds it.
pub open spec fn vector_plan(data: Option<VectorData>) -> Result<TermModel, CompileError> {
    match data {
        None => Err(CompileError::MissingVectorData),
        Some(VectorData::Vector(components)) => Ok(TermModel::Array(component_terms(components@))),
        Some(VectorData::Identifier(name)) => Ok(TermModel::Parameter(snake_case(name@))),
    }
}

pub fn lower_vector(data: &Option<VectorData>) -> (r: Result<Term, CompileError>)
    ensures
        term_outcome(r) == vector_plan(*data),
{
    match data {
        None => Err(CompileError::MissingVectorData),
        Some(VectorData::Vector(components)) => {
            let mut terms: Vec<Term> = Vec::new();
            let mut i: usize = 0;
            while i < components.len()
                invariant
                    i <= components.len(),
                    terms@.len() == i,
                    forall|j: int|
                        0 <= j < i ==> term_model(#[trigger] terms@[j]) == TermModel::Float(
                            components@[j]@,
                        ),
                decreases components.len() - i,
            {
                let t = Term::Float(components[i].clone());
                terms.push(t);
                i = i + 1;
            }
            let term = Term::Array(terms);
            proof {
                assert(term@->Array_0 =~= component_terms(components@));
            }
            Ok(term)
        },
        Some(VectorData::Identifier(name)) => Ok(Term::Parameter(to_snake_case(name.as_str()))),
    }
}

/// The number of neighbours a search with no stated number asks for.
pub const DEFAULT_NEIGHBOURS: usize = 10;

/// How many neighbours a vector search asks for.
pub open spec fn neighbours_plan(k: Option<EvaluatesToNumber>) -> TermModel {
    match k {
        None => TermModel::Unsigned(DEFAULT_NEIGHBOURS),
        Some(EvaluatesToNumber::Integer(n)) => TermModel::Unsigned(n),
        Some(EvaluatesToNumber::Float(text)) => TermModel::Float(text@),
        Some(EvaluatesToNumber::Identifier(name)) => TermModel::Parameter(snake_case(name@)),
    }
}

pub fn lower_neighbours(k: &Option<EvaluatesToNumber>) -> (t: Term)
    ensures
        t@ == neighbours_plan(*k),
{
    match k {
        None => Term::Unsigned(DEFAULT_NEIGHBOURS),
        Some(EvaluatesToNumber::Integer(n)) => Term::Unsigned(*n),
        Some(EvaluatesToNumber::Float(text)) => Term::Float(text.clone()),
        Some(EvaluatesToNumber::Identifier(name)) => Term::Parameter(
            to_snake_case(name.as_str()),
        ),
    }
}

/// A bound of a range: an integer, or the input field of a parameter.
pub open spec fn bound_plan(e: Expression) -> Result<TermModel, CompileError> {
    match e {
        Expression::IntegerLiteral(i) => Ok(TermModel::Integer(i)),
        Expression::Identifier(name) => Ok(TermModel::Parameter(snake_case(name@))),
        _ => Err(CompileError::UnsupportedRange),
    }
}

pub fn lower_bound(e: &Expression) -> (r: Result<Term, CompileError>)
    ensures
        term_outcome(r) == bound_plan(*e),
{
    match e {
        Expression::IntegerLiteral(i) => Ok(Term::Integer(*i)),
        Expression::Identifier(name) => Ok(Term::Parameter(to_snake_case(name.as_str()))),
        _ => Err(CompileError::UnsupportedRange),
    }
}

/// The comparator of a comparison step.
pub open spec fn comparator_of(op: BooleanOp) -> Comparator {
    match op {
        BooleanOp::Equal(_) => Comparator::Equal,
        BooleanOp::NotEqual(_) => Comparator::NotEqual,
        BooleanOp::GreaterThan(_) => Comparator::GreaterThan,
        BooleanOp::GreaterThanOrEqual(_) => Comparator::GreaterThanOrEqual,
        BooleanOp::LessThan(_) => Comparator::LessThan,
        BooleanOp::LessThanOrEqual(_) => Comparator::LessThanOrEqual,
    }
}

/// The operand of a comparison step.
pub open spec fn operand_of(op: BooleanOp) -> Expression {
    match op {
        BooleanOp::Equal(e) => *e,
        BooleanOp::NotEqual(e) => *e,
        BooleanOp::GreaterThan(e) => *e,
        BooleanOp::GreaterThanOrEqual(e) => *e,
        BooleanOp::LessThan(e) => *e,
        BooleanOp::LessThanOrEqual(e) => *e,
    }
}

/// Whether the comparator tests for equality or its negation.
pub open spec fn tests_equality(c: Comparator) -> bool {
    c == Comparator::Equal || c == Comparator::NotEqual
}

/// A comparison of a property. A literal operand selects the arm of its own
/// type; only equality takes a boolean or a string. A name is taken as
/// written.
pub open spec fn property_comparison_plan(op: BooleanOp) -> Result<ComparisonModel, CompileError> {
    let c = comparator_of(op);
    match operand_of(op) {
        Expression::IntegerLiteral(i) => Ok(ComparisonModel { op: c, operand: TermModel::Integer(i) }),
        Expression::FloatLiteral(f) => Ok(ComparisonModel { op: c, operand: TermModel::Float(f@) }),
        Expression::Identifier(name) => Ok(ComparisonModel { op: c, operand: TermModel::Name(name@) }),
        Expression::BooleanLiteral(b) => if tests_equality(c) {
            Ok(ComparisonModel { op: c, operand: TermModel::Boolean(b) })
        } else {
            Err(CompileError::UnsupportedOperand)
        },
        Expression::StringLiteral(s) => if tests_equality(c) {
            Ok(ComparisonModel { op: c, operand: TermModel::String(s@) })
        } else {
            Err(CompileError::UnsupportedOperand)
        },
        _ => Err(CompileError::UnsupportedOperand),
    }
}

/// A comparison of a count: against an integer or a name.
pub open spec fn count_comparison_plan(op: BooleanOp) -> Result<ComparisonModel, CompileError> {
    let c = comparator_of(op);
    match operand_of(op) {
        Expression::IntegerLiteral(i) => Ok(ComparisonModel { op: c, operand: TermModel::Integer(i) }),
        Expression::Identifier(name) => Ok(ComparisonModel { op: c, operand: TermModel::Name(name@) }),
        _ => Err(CompileError::UnsupportedOperand),
    }
}

fn comparator(op: &BooleanOp) -> (c: Comparator)
    ensures
        c == comparator_of(*op),
{
    match op {
        BooleanOp::Equal(_) => Comparator::Equal,
        BooleanOp::NotEqual(_) => Comparator::NotEqual,
        BooleanOp::GreaterThan(_) => Comparator::GreaterThan,
        BooleanOp::GreaterThanOrEqual(_) => Comparator::GreaterThanOrEqual,
        BooleanOp::LessThan(_) => Comparator::LessThan,
        BooleanOp::LessThanOrEqual(_) => Comparator::LessThanOrEqual,
    }
}

fn operand(op: &BooleanOp) -> (e: &Expression)
    ensures
        *e == operand_of(*op),
{
    match op {
        BooleanOp::Equal(e) => &**e,
        BooleanOp::NotEqual(e) => &**e,
        BooleanOp::GreaterThan(e) => &**e,
        BooleanOp::GreaterThanOrEqual(e) => &**e,
        BooleanOp::LessThan(e) => &**e,
        BooleanOp::LessThanOrEqual(e) => &**e,
    }
}

pub fn lower_property_comparison(op: &BooleanOp) -> (r: Result<Comparison, CompileError>)
    ensures
        comparison_outcome(r) == property_comparison_plan(*op),
{
    let c = comparator(op);
    let equality = match c {
        Comparator::Equal => true,
        Comparator::NotEqual => true,
        _ => false,
    };
    match operand(op) {
        Expression::IntegerLiteral(i) => Ok(Comparison { op: c, operand: Term::Integer(*i) }),
        Expression::FloatLiteral(f) => Ok(Comparison { op: c, operand: Term::Float(f.clone()) }),
        Expression::Identifier(name) => Ok(Comparison { op: c, operand: Term::Name(name.clone()) }),
        Expression::BooleanLiteral(b) => {
            if equality {
                Ok(Comparison { op: c, operand: Term::Boolean(*b) })
            } else {
                Err(CompileError::UnsupportedOperand)
            }
        },
        Expression::StringLiteral(s) => {
            if equality {
                Ok(Comparison { op: c, operand: Term::String(s.clone()) })
            } else {
                Err(CompileError::UnsupportedOperand)
            }
        },
        _ => Err(CompileError::UnsupportedOperand),
    }
}

pub fn lower_count_comparison(op: &BooleanOp) -> (r: Result<Comparison, CompileError>)
    ensures
        comparison_outcome(r) == count_comparison_plan(*op),
{
    let c = comparator(op);
    match operand(op) {
        Expression::IntegerLiteral(i) => Ok(Comparison { op: c, operand: Term::Integer(*i) }),
        Expression::Identifier(name) => Ok(Comparison { op: c, operand: Term::Name(name.clone()) }),
        _ => Err(CompileError::UnsupportedOperand),
    }
}

} // verus!
