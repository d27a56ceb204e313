//! What each part of a traversal lowers to.
//!
//! The functions here are the definition of the compiler: they map a syntax
//! tree to the model of its plan, or to the error that refuses it. Where a
//! list is lowered, its items are taken from left to right and the first
//! refusal decides.

use crate::helixc::generator::arguments::{
    assignments_plan, bound_plan, count_comparison_plan, property_comparison_plan,
};
use crate::helixc::generator::error::CompileError;
use crate::helixc::generator::mutations::{
    add_edge_plan, add_node_plan, add_vector_plan, batch_add_vector_plan, search_vector_plan,
};
use crate::helixc::generator::naming::{snake_case, without_trailing_underscores};
use crate::helixc::generator::plan::{
    name_models, ComparisonModel, Direction, FieldSourceModel, OpModel, PredicateModel,
    ProjectedFieldModel, ProjectionModel, Replacement, TermModel,
};
use crate::helixc::generator::scope::ScopeModel;
use crate::helixc::parser::helix_parser::{
    Expression, FieldValue, GraphStep, Object, StartNode, Step, Traversal,
};
use crate::protocol::value::Value;
use vstd::prelude::*;

verus! {

/// The name the current element goes by where a projection gives it none.
pub open spec fn default_item() -> Seq<char> {
    "item"@
}

/// The name of the property that holds an element's identity.
pub open spec fn id_field() -> Seq<char> {
    "id"@
}

/// The edge type that filters a hop: the first of the list, none where the
/// list is absent. A list that is present but empty is refused.
pub open spec fn hop_label(types: Option<Vec<String>>) -> Result<Seq<char>, CompileError> {
    match types {
        None => Ok(Seq::empty()),
        Some(types) => if types@.len() > 0 {
            Ok(types@[0]@)
        } else {
            Err(CompileError::EmptySelector)
        },
    }
}

pub open spec fn labelled_hop(direction: Direction, types: Option<Vec<String>>) -> Result<
    OpModel,
    CompileError,
> {
    match hop_label(types) {
        Ok(label) => Ok(OpModel::Step(direction, label)),
        Err(e) => Err(e),
    }
}

/// One hop along the graph.
pub open spec fn hop_plan(g: GraphStep) -> Result<OpModel, CompileError> {
    match g {
        GraphStep::Out(types) => labelled_hop(Direction::Out, types),
        GraphStep::In(types) => labelled_hop(Direction::In, types),
        GraphStep::Both(types) => labelled_hop(Direction::Both, types),
        GraphStep::OutE(types) => labelled_hop(Direction::OutE, types),
        GraphStep::InE(types) => labelled_hop(Direction::InE, types),
        GraphStep::BothE(types) => labelled_hop(Direction::BothE, types),
        GraphStep::OutN => Ok(OpModel::Step(Direction::OutV, Seq::empty())),
        GraphStep::InN => Ok(OpModel::Step(Direction::InV, Seq::empty())),
        GraphStep::BothN => Ok(OpModel::Step(Direction::BothV, Seq::empty())),
    }
}

/// The element an id list selects: the first id, taken as a bound variable
/// where it names one and as an input field otherwise.
pub open spec fn selected_id(ids: Vec<String>, scope: ScopeModel) -> Result<TermModel, CompileError> {
    if ids@.len() == 0 {
        Err(CompileError::EmptySelector)
    } else if scope.is_bound(ids@[0]@) {
        Ok(TermModel::Binding(snake_case(ids@[0]@)))
    } else {
        Ok(TermModel::Parameter(snake_case(ids@[0]@)))
    }
}

/// The operations that start a traversal. Exactly one of the four forms
/// applies: by id, by type, by bound variable, or at the current element,
/// which takes no operation. An id list goes before a type list. Edges
/// have no start by type: without ids a traversal starts at every edge.
pub open spec fn start_plan(start: StartNode, scope: ScopeModel) -> Result<Seq<OpModel>, CompileError> {
    match start {
        StartNode::Node { types, ids } => match ids {
            Some(ids) => match selected_id(ids, scope) {
                Ok(id) => Ok(seq![OpModel::NodesById(id)]),
                Err(e) => Err(e),
            },
            None => match types {
                Some(types) => Ok(seq![OpModel::NodesByType(name_models(types@))]),
                None => Ok(seq![OpModel::AllNodes]),
            },
        },
        StartNode::Edge { types, ids } => match ids {
            Some(ids) => match selected_id(ids, scope) {
                Ok(id) => Ok(seq![OpModel::EdgesById(id)]),
                Err(e) => Err(e),
            },
            None => Ok(seq![OpModel::AllEdges]),
        },
        StartNode::Variable(name) => if scope.is_bound(name@) {
            Ok(seq![OpModel::FromBinding(snake_case(name@))])
        } else {
            Err(CompileError::UnboundVariable)
        },
        StartNode::Anonymous => Ok(Seq::empty()),
    }
}

/// The excluded fields, each with the generated name of its remapping.
pub open spec fn exclusion_fields(fields: Seq<String>) -> Seq<(Seq<char>, Seq<char>)> {
    Seq::new(
        fields.len(),
        |i: int| (fields[i]@, without_trailing_underscores(snake_case(fields[i]@))),
    )
}

/// Whether a step ends the path of a predicate traversal.
pub open spec fn is_test(step: Step) -> bool {
    step is Object || step is Count || step is BooleanOperation
}

/// One step on its own. A count carries no comparison here, and a
/// comparison has nothing to compare.
pub open spec fn step_plan(step: Step, scope: ScopeModel) -> Result<OpModel, CompileError>
    decreases step, 0nat,
{
    match step {
        Step::Node(g) => hop_plan(g),
        Step::Edge(g) => hop_plan(g),
        Step::Range((start, end)) => match bound_plan(start) {
            Ok(start) => match bound_plan(end) {
                Ok(end) => Ok(OpModel::Range(start, end)),
                Err(e) => Err(e),
            },
            Err(e) => Err(e),
        },
        Step::Where(condition) => match condition_plan(*condition, scope) {
            Ok(p) => Ok(OpModel::Filter(p)),
            Err(e) => Err(e),
        },
        Step::Count => Ok(OpModel::Count(None)),
        Step::BooleanOperation(_) => Err(CompileError::ComparisonWithoutContext),
        Step::Update(update) => match assignments_plan(update.fields@, scope, 0, Seq::empty()) {
            Ok(properties) => Ok(OpModel::UpdateProperties(properties)),
            Err(e) => Err(e),
        },
        Step::Object(object) => match projection_plan(default_item(), object, scope) {
            Ok(p) => Ok(OpModel::Project(p)),
            Err(e) => Err(e),
        },
        Step::Closure(closure) => match projection_plan(closure.identifier@, closure.object, scope) {
            Ok(p) => Ok(OpModel::Project(p)),
            Err(e) => Err(e),
        },
        Step::Exclude(exclude) => Ok(
            OpModel::Exclude { item: default_item(), fields: exclusion_fields(exclude.fields@) },
        ),
    }
}

/// The comparison that the count at `i` carries, among the first `len`
/// steps: that of the comparison step just before it; else that of the
/// comparison step just after it, unless another count follows that one.
pub open spec fn count_test_at(steps: Seq<Step>, len: nat, i: int) -> Result<
    Option<ComparisonModel>,
    CompileError,
> {
    if i > 0 && steps[i - 1] is BooleanOperation {
        match count_comparison_plan(steps[i - 1]->BooleanOperation_0) {
            Ok(c) => Ok(Some(c)),
            Err(e) => Err(e),
        }
    } else if i + 1 < len && steps[i + 1] is BooleanOperation && !(i + 2 < len && steps[i + 2] is Count) {
        match count_comparison_plan(steps[i + 1]->BooleanOperation_0) {
            Ok(c) => Ok(Some(c)),
            Err(e) => Err(e),
        }
    } else {
        Ok(None)
    }
}

/// Whether the comparison step at `i` is attached to a count, among the
/// first `len` steps: to the count just after it, or else to the count
/// just before it where that count has no comparison of its own before it.
pub open spec fn comparison_is_folded(steps: Seq<Step>, len: nat, i: int) -> bool {
    ||| i + 1 < len && steps[i + 1] is Count
    ||| i > 0 && steps[i - 1] is Count && !(i >= 2 && steps[i - 2] is BooleanOperation)
}

/// What the step at `i` adds to the plan of a traversal, among the first
/// `len` steps. Steps are lowered in their order with one exception: a
/// comparison next to a count is not lowered in place; the count carries it.
pub open spec fn step_contribution(steps: Seq<Step>, scope: ScopeModel, len: nat, i: nat) -> Result<
    Seq<OpModel>,
    CompileError,
>
    decreases steps, 0nat,
{
    if i >= len || len > steps.len() {
        Ok(Seq::empty())
    } else {
        match steps[i as int] {
            Step::BooleanOperation(_) => if comparison_is_folded(steps, len, i as int) {
                Ok(Seq::empty())
            } else {
                Err(CompileError::ComparisonWithoutContext)
            },
            Step::Count => match count_test_at(steps, len, i as int) {
                Ok(test) => Ok(seq![OpModel::Count(test)]),
                Err(e) => Err(e),
            },
            _ => match step_plan(steps[i as int], scope) {
                Ok(op) => Ok(seq![op]),
                Err(e) => Err(e),
            },
        }
    }
}

/// `done` followed by what the steps from `i` up to `len` add.
pub open spec fn steps_plan(
    steps: Seq<Step>,
    scope: ScopeModel,
    len: nat,
    i: nat,
    done: Seq<OpModel>,
) -> Result<Seq<OpModel>, CompileError>
    decreases steps, 1 + len - i,
{
    if i >= len || len > steps.len() {
        Ok(done)
    } else {
        match step_contribution(steps, scope, len, i) {
            Ok(ops) => steps_plan(steps, scope, len, i + 1, done + ops),
            Err(e) => Err(e),
        }
    }
}

/// The plan of the start of `t` and of its first `len` steps.
pub open spec fn walk_plan(t: Traversal, scope: ScopeModel, len: nat) -> Result<
    Seq<OpModel>,
    CompileError,
>
    decreases t, 1nat,
{
    match start_plan(t.start, scope) {
        Ok(ops) => steps_plan(t.steps@, scope, len, 0, ops),
        Err(e) => Err(e),
    }
}

/// The plan of a whole traversal.
pub open spec fn traversal_plan(t: Traversal, scope: ScopeModel) -> Result<Seq<OpModel>, CompileError>
    decreases t, 2nat,
{
    walk_plan(t, scope, t.steps@.len())
}

/// The test that ends a predicate traversal at step `i`, reached by `path`.
/// A property access or a count ends it, alone or followed by one
/// comparison; nothing may follow that.
pub open spec fn closing_test(steps: Seq<Step>, i: int, path: Seq<OpModel>) -> Result<
    PredicateModel,
    CompileError,
> {
    match steps[i] {
        Step::Object(object) => if object.fields@.len() == 0 {
            Err(CompileError::EmptyProjection)
        } else if i + 1 == steps.len() {
            Ok(PredicateModel::Property { path, name: object.fields@[0].0@, test: None })
        } else if i + 2 == steps.len() && steps[i + 1] is BooleanOperation {
            match property_comparison_plan(steps[i + 1]->BooleanOperation_0) {
                Ok(c) => Ok(
                    PredicateModel::Property { path, name: object.fields@[0].0@, test: Some(c) },
                ),
                Err(e) => Err(e),
            }
        } else {
            Err(CompileError::StepsAfterTest)
        },
        Step::Count => if i + 1 == steps.len() {
            Ok(PredicateModel::Count { path, test: None })
        } else if i + 2 == steps.len() && steps[i + 1] is BooleanOperation {
            match count_comparison_plan(steps[i + 1]->BooleanOperation_0) {
                Ok(c) => Ok(PredicateModel::Count { path, test: Some(c) }),
                Err(e) => Err(e),
            }
        } else {
            Err(CompileError::StepsAfterTest)
        },
        _ => Err(CompileError::ComparisonWithoutContext),
    }
}

/// The predicate of the steps from `i` on, `path` being the plan of the
/// steps before `i`. The steps up to the first property access or count
/// form the path; each is lowered on its own.
pub open spec fn test_scan(steps: Seq<Step>, scope: ScopeModel, i: nat, path: Seq<OpModel>) -> Result<
    PredicateModel,
    CompileError,
>
    decreases steps, steps.len() - i,
{
    if i >= steps.len() {
        Err(CompileError::ConditionWithoutTest)
    } else if is_test(steps[i as int]) {
        closing_test(steps, i as int, path)
    } else {
        match step_plan(steps[i as int], scope) {
            Ok(op) => test_scan(steps, scope, i + 1, path.push(op)),
            Err(e) => Err(e),
        }
    }
}

/// The predicate a traversal stands for inside a condition. It starts at
/// the current element.
pub open spec fn test_plan(t: Traversal, scope: ScopeModel) -> Result<PredicateModel, CompileError>
    decreases t, 1nat,
{
    if t.start is Anonymous {
        test_scan(t.steps@, scope, 0, Seq::empty())
    } else {
        Err(CompileError::UnsupportedStart)
    }
}

/// The predicate an expression stands for. A conjunction holds where every
/// part holds, a disjunction where at least one does, an existence test
/// where its traversal reaches an element.
pub open spec fn condition_plan(e: Expression, scope: ScopeModel) -> Result<
    PredicateModel,
    CompileError,
>
    decreases e, 0nat,
{
    match e {
        Expression::BooleanLiteral(b) => Ok(PredicateModel::Constant(b)),
        Expression::Exists(t) => match traversal_plan(*t, scope) {
            Ok(path) => Ok(PredicateModel::Exists { path }),
            Err(e) => Err(e),
        },
        Expression::Traversal(t) => test_plan(*t, scope),
        Expression::And(parts) => match conditions_plan(parts@, scope, 0, Seq::empty()) {
            Ok(parts) => Ok(PredicateModel::And(parts)),
            Err(e) => Err(e),
        },
        Expression::Or(parts) => match conditions_plan(parts@, scope, 0, Seq::empty()) {
            Ok(parts) => Ok(PredicateModel::Or(parts)),
            Err(e) => Err(e),
        },
        _ => Err(CompileError::UnsupportedCondition),
    }
}

/// `done` followed by the predicates of `parts` from index `i` on.
pub open spec fn conditions_plan(
    parts: Seq<Expression>,
    scope: ScopeModel,
    i: nat,
    done: Seq<PredicateModel>,
) -> Result<Seq<PredicateModel>, CompileError>
    decreases parts, parts.len() - i,
{
    if i >= parts.len() {
        Ok(done)
    } else {
        match condition_plan(parts[i as int], scope) {
            Ok(p) => conditions_plan(parts, scope, i + 1, done.push(p)),
            Err(e) => Err(e),
        }
    }
}

/// The source of a field that a traversal computes. A traversal that ends
/// in a property access asking for the identity yields the identity of the
/// element reached before that access. A lone access to another property
/// yields that property of the current element. Any other traversal yields
/// the elements it reaches.
pub open spec fn traversal_source_plan(t: Traversal, scope: ScopeModel) -> Result<
    FieldSourceModel,
    CompileError,
>
    decreases t, 3nat,
{
    let n = t.steps@.len();
    if n > 0 && t.steps@[n - 1] is Object {
        let object = t.steps@[n - 1]->Object_0;
        if object.fields@.len() == 0 {
            Err(CompileError::EmptyProjection)
        } else if object.fields@[0].0@ == id_field() {
            match walk_plan(t, scope, (n - 1) as nat) {
                Ok(path) => Ok(
                    FieldSourceModel::Computed { path, replacement: Replacement::ElementId },
                ),
                Err(e) => Err(e),
            }
        } else if t.start is Anonymous && n == 1 {
            Ok(FieldSourceModel::Property(object.fields@[0].0@))
        } else {
            Err(CompileError::UnsupportedProjection)
        }
    } else {
        match walk_plan(t, scope, n) {
            Ok(path) => Ok(FieldSourceModel::Computed { path, replacement: Replacement::Elements }),
            Err(e) => Err(e),
        }
    }
}

/// Where the value of a projected field comes from.
pub open spec fn field_source_plan(v: FieldValue, scope: ScopeModel) -> Result<
    FieldSourceModel,
    CompileError,
>
    decreases v, 0nat,
{
    match v {
        FieldValue::Empty => Ok(FieldSourceModel::Inherited),
        FieldValue::Literal(Value::String(name)) => Ok(FieldSourceModel::Property(name@)),
        FieldValue::Literal(_) => Err(CompileError::UnsupportedProjection),
        FieldValue::Traversal(t) => traversal_source_plan(*t, scope),
        FieldValue::Expression(Expression::Traversal(t)) => traversal_source_plan(*t, scope),
        FieldValue::Expression(Expression::Identifier(name)) => if scope.is_bound(name@) {
            Ok(
                FieldSourceModel::Computed {
                    path: seq![OpModel::FromBinding(snake_case(name@))],
                    replacement: Replacement::ElementId,
                },
            )
        } else {
            Err(CompileError::UnboundVariable)
        },
        FieldValue::Expression(Expression::Empty) => Ok(FieldSourceModel::Empty),
        FieldValue::Expression(_) => Err(CompileError::UnsupportedProjection),
    }
}

/// `done` followed by the projected fields from index `i` on.
pub open spec fn fields_plan(
    fields: Seq<(String, FieldValue)>,
    scope: ScopeModel,
    i: nat,
    done: Seq<ProjectedFieldModel>,
) -> Result<Seq<ProjectedFieldModel>, CompileError>
    decreases fields, fields.len() - i,
{
    if i >= fields.len() {
        Ok(done)
    } else {
        match field_source_plan(fields[i as int].1, scope) {
            Ok(source) => fields_plan(
                fields,
                scope,
                i + 1,
                done.push(
                    ProjectedFieldModel {
                        key: fields[i as int].0@,
                        variable: snake_case(fields[i as int].0@),
                        source,
                    },
                ),
            ),
            Err(e) => Err(e),
        }
    }
}

/// The registration a projection lowers to: one remapping per declared
/// field, spread as the projection declares.
pub open spec fn projection_plan(item: Seq<char>, object: Object, scope: ScopeModel) -> Result<
    ProjectionModel,
    CompileError,
>
    decreases object, 0nat,
{
    match fields_plan(object.fields@, scope, 0, Seq::empty()) {
        Ok(fields) => Ok(ProjectionModel { item, fields, should_spread: object.should_spread }),
        Err(e) => Err(e),
    }
}

/// The operations an expression lowers to where a statement evaluates it.
pub open spec fn expression_plan(e: Expression, scope: ScopeModel) -> Result<Seq<OpModel>, CompileError> {
    match e {
        Expression::Traversal(t) => traversal_plan(*t, scope),
        Expression::Identifier(name) => if scope.is_bound(name@) {
            Ok(seq![OpModel::FromBinding(snake_case(name@))])
        } else {
            Err(CompileError::UnboundVariable)
        },
        Expression::AddNode(a) => add_node_plan(a, scope),
        Expression::AddEdge(a) => add_edge_plan(a, scope),
        Expression::AddVector(a) => add_vector_plan(a),
        Expression::BatchAddVector(b) => batch_add_vector_plan(b),
        Expression::SearchVector(s) => search_vector_plan(s),
        Expression::Exists(t) => match traversal_plan(*t, scope) {
            Ok(path) => Ok(seq![OpModel::Filter(PredicateModel::Exists { path })]),
            Err(e) => Err(e),
        },
        _ => Err(CompileError::UnsupportedExpression),
    }
}

} // verus!
