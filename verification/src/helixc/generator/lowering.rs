//! The compiler proper: traversals, predicates and projections lowered to
//! plan operations.

use crate::helixc::generator::arguments::{
    lower_assignments, lower_bound, lower_count_comparison, lower_property_comparison,
};
use crate::helixc::generator::error::CompileError;
use crate::helixc::generator::lowering_spec::{
    closing_test, comparison_is_folded, condition_plan, conditions_plan, count_test_at,
    default_item, exclusion_fields, expression_plan, field_source_plan, fields_plan, hop_label,
    hop_plan, is_test, projection_plan, selected_id, start_plan, step_contribution,
    step_plan, steps_plan, test_plan, test_scan, traversal_plan, traversal_source_plan, walk_plan,
};
use crate::helixc::generator::mutations::{
    lower_add_edge, lower_add_node, lower_add_vector, lower_batch_add_vector, lower_search_vector,
    ops_outcome,
};
use crate::helixc::generator::naming::{to_snake_case, trim_trailing_underscores};
use crate::helixc::generator::plan::{
    field_models, name_models, op_models, pair_models, predicate_models, Comparison, Direction,
    FieldSource, FieldSourceModel, Op, OpModel, Predicate, PredicateModel, ProjectedField,
    ProjectedFieldModel, Projection, ProjectionModel, Replacement, Term,
};
use crate::helixc::generator::scope::Scope;
use crate::helixc::parser::helix_parser::{
    Exclude, Expression, FieldValue, GraphStep, Object, StartNode, Step, Traversal,
};
use crate::protocol::value::Value;
use vstd::prelude::*;
use vstd::string::*;

verus! {

/// The model of a lowered operation, or the error.
pub open spec fn op_outcome(r: Result<Op, CompileError>) -> Result<OpModel, CompileError> {
    match r {
        Ok(op) => Ok(op@),
        Err(e) => Err(e),
    }
}

/// The model of a lowered predicate, or the error.
pub open spec fn predicate_outcome(r: Result<Predicate, CompileError>) -> Result<
    PredicateModel,
    CompileError,
> {
    match r {
        Ok(p) => Ok(p@),
        Err(e) => Err(e),
    }
}

/// The model of a lowered field source, or the error.
pub open spec fn source_outcome(r: Result<FieldSource, CompileError>) -> Result<
    FieldSourceModel,
    CompileError,
> {
    match r {
        Ok(s) => Ok(s@),
        Err(e) => Err(e),
    }
}

/// The model of a lowered projection, or the error.
pub open spec fn projection_outcome(r: Result<Projection, CompileError>) -> Result<
    ProjectionModel,
    CompileError,
> {
    match r {
        Ok(p) => Ok(p@),
        Err(e) => Err(e),
    }
}

fn copy_names(names: &Vec<String>) -> (copy: Vec<String>)
    ensures
        name_models(copy@) == name_models(names@),
{
    let mut copy: Vec<String> = Vec::new();
    let mut i: usize = 0;
    while i < names.len()
        invariant
            i <= names.len(),
            copy@.len() == i,
            forall|j: int| 0 <= j < i ==> (#[trigger] copy@[j])@ == names@[j]@,
        decreases names.len() - i,
    {
        copy.push(names[i].clone());
        i = i + 1;
    }
    proof {
        assert(name_models(copy@) =~= name_models(names@));
    }
    copy
}

fn lower_hop_label(types: &Option<Vec<String>>) -> (r: Result<String, CompileError>)
    ensures
        match r {
            Ok(label) => hop_label(*types) == Ok::<Seq<char>, CompileError>(label@),
            Err(e) => hop_label(*types) == Err::<Seq<char>, CompileError>(e),
        },
{
    match types {
        None => Ok(String::new()),
        Some(types) => {
            if types.len() > 0 {
                Ok(types[0].clone())
            } else {
                Err(CompileError::EmptySelector)
            }
        },
    }
}

fn lower_labelled_hop(direction: Direction, types: &Option<Vec<String>>) -> (r: Result<
    Op,
    CompileError,
>)
    ensures
        op_outcome(r) == crate::helixc::generator::lowering_spec::labelled_hop(direction, *types),
{
    match lower_hop_label(types) {
        Ok(label) => Ok(Op::Step(direction, label)),
        Err(e) => Err(e),
    }
}

/// Lowers one hop along the graph.
pub fn lower_hop(g: &GraphStep) -> (r: Result<Op, CompileError>)
    ensures
        op_outcome(r) == hop_plan(*g),
{
    match g {
        GraphStep::Out(types) => lower_labelled_hop(Direction::Out, types),
        GraphStep::In(types) => lower_labelled_hop(Direction::In, types),
        GraphStep::Both(types) => lower_labelled_hop(Direction::Both, types),
        GraphStep::OutE(types) => lower_labelled_hop(Direction::OutE, types),
        GraphStep::InE(types) => lower_labelled_hop(Direction::InE, types),
        GraphStep::BothE(types) => lower_labelled_hop(Direction::BothE, types),
        GraphStep::OutN => Ok(Op::Step(Direction::OutV, String::new())),
        GraphStep::InN => Ok(Op::Step(Direction::InV, String::new())),
        GraphStep::BothN => Ok(Op::Step(Direction::BothV, String::new())),
    }
}

fn lower_selected_id(ids: &Vec<String>, scope: &Scope) -> (r: Result<Term, CompileError>)
    ensures
        crate::helixc::generator::arguments::term_outcome(r) == selected_id(*ids, scope@),
{
    if ids.len() == 0 {
        Err(CompileError::EmptySelector)
    } else if scope.is_bound(&ids[0]) {
        Ok(Term::Binding(to_snake_case(ids[0].as_str())))
    } else {
        Ok(Term::Parameter(to_snake_case(ids[0].as_str())))
    }
}

fn single(op: Op) -> (ops: Vec<Op>)
    ensures
        op_models(ops@) == seq![op@],
{
    let mut ops: Vec<Op> = Vec::new();
    ops.push(op);
    proof {
        assert(op_models(ops@) =~= seq![op@]);
    }
    ops
}

/// Lowers the start of a traversal.
pub fn lower_start(start: &StartNode, scope: &Scope) -> (r: Result<Vec<Op>, CompileError>)
    ensures
        ops_outcome(r) == start_plan(*start, scope@),
{
    match start {
        StartNode::Node { types, ids } => match ids {
            Some(ids) => match lower_selected_id(ids, scope) {
                Ok(id) => Ok(single(Op::NodesById(id))),
                Err(e) => Err(e),
            },
            None => match types {
                Some(types) => Ok(single(Op::NodesByType(copy_names(types)))),
                None => Ok(single(Op::AllNodes)),
            },
        },
        StartNode::Edge { types, ids } => match ids {
            Some(ids) => match lower_selected_id(ids, scope) {
                Ok(id) => Ok(single(Op::EdgesById(id))),
                Err(e) => Err(e),
            },
            None => Ok(single(Op::AllEdges)),
        },
        StartNode::Variable(name) => {
            if scope.is_bound(name) {
                Ok(single(Op::FromBinding(to_snake_case(name.as_str()))))
            } else {
                Err(CompileError::UnboundVariable)
            }
        },
        StartNode::Anonymous => {
            let ops: Vec<Op> = Vec::new();
            proof {
                assert(op_models(ops@) =~= Seq::<OpModel>::empty());
            }
            Ok(ops)
        },
    }
}

fn lower_exclusion(exclude: &Exclude) -> (op: Op)
    ensures
        op@ == (OpModel::Exclude {
            item: default_item(),
            fields: exclusion_fields(exclude.fields@),
        }),
{
    let mut fields: Vec<(String, String)> = Vec::new();
    let mut i: usize = 0;
    while i < exclude.fields.len()
        invariant
            i <= exclude.fields.len(),
            fields@.len() == i,
            forall|j: int|
                0 <= j < i ==> (#[trigger] pair_models(fields@)[j]) == exclusion_fields(
                    exclude.fields@,
                )[j],
        decreases exclude.fields.len() - i,
    {
        let snake = to_snake_case(exclude.fields[i].as_str());
        let variable = trim_trailing_underscores(snake.as_str());
        let ghost before = fields@;
        fields.push((exclude.fields[i].clone(), variable));
        proof {
            assert forall|j: int| 0 <= j < i + 1 implies (#[trigger] pair_models(fields@)[j])
                == exclusion_fields(exclude.fields@)[j] by {
                if j < i {
                    assert(pair_models(before)[j] == exclusion_fields(exclude.fields@)[j]);
                }
            }
        }
        i = i + 1;
    }
    proof {
        assert(pair_models(fields@) =~= exclusion_fields(exclude.fields@));
    }
    Op::Exclude { item: String::from_str("item"), fields }
}

fn is_count(step: &Step) -> (b: bool)
    ensures
        b == (*step is Count),
{
    match step {
        Step::Count => true,
        _ => false,
    }
}

fn is_comparison(step: &Step) -> (b: bool)
    ensures
        b == (*step is BooleanOperation),
{
    match step {
        Step::BooleanOperation(_) => true,
        _ => false,
    }
}

fn ends_path(step: &Step) -> (b: bool)
    ensures
        b == is_test(*step),
{
    match step {
        Step::Object(_) => true,
        Step::Count => true,
        Step::BooleanOperation(_) => true,
        _ => false,
    }
}

fn lower_count_test(steps: &Vec<Step>, len: usize, i: usize) -> (r: Result<
    Option<Comparison>,
    CompileError,
>)
    requires
        i < len <= steps@.len(),
    ensures
        match r {
            Ok(test) => count_test_at(steps@, len as nat, i as int) == Ok::<_, CompileError>(
                crate::helixc::generator::plan::test_model(test),
            ),
            Err(e) => count_test_at(steps@, len as nat, i as int) == Err::<
                Option<crate::helixc::generator::plan::ComparisonModel>,
                CompileError,
            >(e),
        },
{
    if i > 0 && is_comparison(&steps[i - 1]) {
        match &steps[i - 1] {
            Step::BooleanOperation(op) => match lower_count_comparison(op) {
                Ok(c) => Ok(Some(c)),
                Err(e) => Err(e),
            },
            _ => Ok(None),
        }
    } else if len - i > 1 && is_comparison(&steps[i + 1]) && !(len - i > 2 && is_count(
        &steps[i + 2],
    )) {
        match &steps[i + 1] {
            Step::BooleanOperation(op) => match lower_count_comparison(op) {
                Ok(c) => Ok(Some(c)),
                Err(e) => Err(e),
            },
            _ => Ok(None),
        }
    } else {
        Ok(None)
    }
}

fn folded(steps: &Vec<Step>, len: usize, i: usize) -> (b: bool)
    requires
        i < len <= steps@.len(),
    ensures
        b == comparison_is_folded(steps@, len as nat, i as int),
{
    (len - i > 1 && is_count(&steps[i + 1])) || (i > 0 && is_count(&steps[i - 1]) && !(i >= 2
        && is_comparison(&steps[i - 2])))
}

/// Lowers one step on its own.
pub fn lower_step(step: &Step, scope: &Scope) -> (r: Result<Op, CompileError>)
    ensures
        op_outcome(r) == step_plan(*step, scope@),
    decreases step, 0nat,
{
    match step {
        Step::Node(g) => lower_hop(g),
        Step::Edge(g) => lower_hop(g),
        Step::Range((start, end)) => match lower_bound(start) {
            Ok(start) => match lower_bound(end) {
                Ok(end) => Ok(Op::Range(start, end)),
                Err(e) => Err(e),
            },
            Err(e) => Err(e),
        },
        Step::Where(condition) => match lower_condition(condition, scope) {
            Ok(p) => Ok(Op::Filter(p)),
            Err(e) => Err(e),
        },
        Step::Count => Ok(Op::Count(None)),
        Step::BooleanOperation(_) => Err(CompileError::ComparisonWithoutContext),
        Step::Update(update) => match lower_assignments(&update.fields, scope) {
            Ok(properties) => Ok(Op::UpdateProperties(properties)),
            Err(e) => Err(e),
        },
        Step::Object(object) => match lower_projection(String::from_str("item"), object, scope) {
            Ok(p) => Ok(Op::Project(p)),
            Err(e) => Err(e),
        },
        Step::Closure(closure) => match lower_projection(
            closure.identifier.clone(),
            &closure.object,
            scope,
        ) {
            Ok(p) => Ok(Op::Project(p)),
            Err(e) => Err(e),
        },
        Step::Exclude(exclude) => Ok(lower_exclusion(exclude)),
    }
}

/// Lowers the first `len` steps of `steps` onto `ops`.
#[verifier::loop_isolation(false)]
pub(crate) fn lower_steps(steps: &Vec<Step>, scope: &Scope, len: usize, ops: Vec<Op>) -> (r: Result<
    Vec<Op>,
    CompileError,
>)
    requires
        len <= steps@.len(),
    ensures
        ops_outcome(r) == steps_plan(steps@, scope@, len as nat, 0, op_models(ops@)),
    decreases steps@, 1 + len,
{
    let mut out = ops;
    let mut i: usize = 0;
    while i < len
        invariant
            i <= len <= steps@.len(),
            steps_plan(steps@, scope@, len as nat, 0, op_models(ops@)) == steps_plan(
                steps@,
                scope@,
                len as nat,
                i as nat,
                op_models(out@),
            ),
        decreases len - i,
    {
        match &steps[i] {
            Step::BooleanOperation(_) => {
                if !folded(steps, len, i) {
                    proof {
                        assert(step_contribution(steps@, scope@, len as nat, i as nat) == Err::<
                            Seq<OpModel>,
                            CompileError,
                        >(CompileError::ComparisonWithoutContext));
                    }
                    return Err(CompileError::ComparisonWithoutContext);
                }
                proof {
                    assert(op_models(out@) + Seq::<OpModel>::empty() =~= op_models(out@));
                }
            },
            Step::Count => match lower_count_test(steps, len, i) {
                Ok(test) => {
                    let op = Op::Count(test);
                    proof {
                        assert(op_models(out@.push(op)) =~= op_models(out@) + seq![op@]);
                    }
                    out.push(op);
                },
                Err(e) => {
                    return Err(e);
                },
            },
            other => match lower_step(other, scope) {
                Ok(op) => {
                    proof {
                        assert(op_models(out@.push(op)) =~= op_models(out@) + seq![op@]);
                    }
                    out.push(op);
                },
                Err(e) => {
                    proof {
                        assert(step_plan(steps@[i as int], scope@) == Err::<OpModel, CompileError>(e));
                        assert(step_contribution(steps@, scope@, len as nat, i as nat) == Err::<
                            Seq<OpModel>,
                            CompileError,
                        >(e));
                    }
                    return Err(e);
                },
            },
        }
        i = i + 1;
    }
    Ok(out)
}

/// Lowers the start of `t` and its first `len` steps.
pub(crate) fn lower_walk(t: &Traversal, scope: &Scope, len: usize) -> (r: Result<Vec<Op>, CompileError>)
    requires
        len <= t.steps@.len(),
    ensures
        ops_outcome(r) == walk_plan(*t, scope@, len as nat),
    decreases t, 1nat,
{
    match lower_start(&t.start, scope) {
        Ok(ops) => lower_steps(&t.steps, scope, len, ops),
        Err(e) => Err(e),
    }
}

/// Lowers a whole traversal.
pub fn lower_traversal(t: &Traversal, scope: &Scope) -> (r: Result<Vec<Op>, CompileError>)
    ensures
        ops_outcome(r) == traversal_plan(*t, scope@),
    decreases t, 2nat,
{
    lower_walk(t, scope, t.steps.len())
}

fn lower_closing_test(steps: &Vec<Step>, i: usize, path: Vec<Op>) -> (r: Result<
    Predicate,
    CompileError,
>)
    requires
        i < steps@.len(),
    ensures
        predicate_outcome(r) == closing_test(steps@, i as int, op_models(path@)),
{
    let n = steps.len();
    match &steps[i] {
        Step::Object(object) => {
            if object.fields.len() == 0 {
                Err(CompileError::EmptyProjection)
            } else if n - i == 1 {
                Ok(Predicate::Property { path, name: object.fields[0].0.clone(), test: None })
            } else if n - i == 2 && is_comparison(&steps[i + 1]) {
                match &steps[i + 1] {
                    Step::BooleanOperation(op) => match lower_property_comparison(op) {
                        Ok(c) => Ok(
                            Predicate::Property {
                                path,
                                name: object.fields[0].0.clone(),
                                test: Some(c),
                            },
                        ),
                        Err(e) => Err(e),
                    },
                    _ => Err(CompileError::StepsAfterTest),
                }
            } else {
                Err(CompileError::StepsAfterTest)
            }
        },
        Step::Count => {
            if n - i == 1 {
                Ok(Predicate::Count { path, test: None })
            } else if n - i == 2 && is_comparison(&steps[i + 1]) {
                match &steps[i + 1] {
                    Step::BooleanOperation(op) => match lower_count_comparison(op) {
                        Ok(c) => Ok(Predicate::Count { path, test: Some(c) }),
                        Err(e) => Err(e),
                    },
                    _ => Err(CompileError::StepsAfterTest),
                }
            } else {
                Err(CompileError::StepsAfterTest)
            }
        },
        _ => Err(CompileError::ComparisonWithoutContext),
    }
}

/// Lowers a traversal that stands for a predicate.
#[verifier::loop_isolation(false)]
pub fn lower_test(t: &Traversal, scope: &Scope) -> (r: Result<Predicate, CompileError>)
    ensures
        predicate_outcome(r) == test_plan(*t, scope@),
    decreases t, 1nat,
{
    match &t.start {
        StartNode::Anonymous => {},
        _ => {
            return Err(CompileError::UnsupportedStart);
        },
    }
    let steps = &t.steps;
    let mut path: Vec<Op> = Vec::new();
    let mut i: usize = 0;
    proof {
        assert(op_models(path@) =~= Seq::<OpModel>::empty());
    }
    while i < steps.len() && !ends_path(&steps[i])
        invariant
            i <= steps@.len(),
            test_plan(*t, scope@) == test_scan(steps@, scope@, i as nat, op_models(path@)),
        decreases steps@.len() - i,
    {
        match lower_step(&steps[i], scope) {
            Ok(op) => {
                proof {
                    assert(op_models(path@.push(op)) =~= op_models(path@).push(op@));
                }
                path.push(op);
            },
            Err(e) => {
                return Err(e);
            },
        }
        i = i + 1;
    }
    if i >= steps.len() {
        Err(CompileError::ConditionWithoutTest)
    } else {
        lower_closing_test(steps, i, path)
    }
}

/// Lowers an expression that stands for a predicate.
#[verifier::loop_isolation(false)]
pub fn lower_condition(e: &Expression, scope: &Scope) -> (r: Result<Predicate, CompileError>)
    ensures
        predicate_outcome(r) == condition_plan(*e, scope@),
    decreases e, 0nat,
{
    match e {
        Expression::BooleanLiteral(b) => Ok(Predicate::Constant(*b)),
        Expression::Exists(t) => match lower_traversal(t, scope) {
            Ok(path) => Ok(Predicate::Exists { path }),
            Err(e) => Err(e),
        },
        Expression::Traversal(t) => lower_test(t, scope),
        Expression::And(parts) => match lower_conditions(parts, scope) {
            Ok(parts) => Ok(Predicate::And(parts)),
            Err(e) => Err(e),
        },
        Expression::Or(parts) => match lower_conditions(parts, scope) {
            Ok(parts) => Ok(Predicate::Or(parts)),
            Err(e) => Err(e),
        },
        _ => Err(CompileError::UnsupportedCondition),
    }
}

/// Lowers the parts of a conjunction or of a disjunction.
#[verifier::loop_isolation(false)]
pub fn lower_conditions(parts: &Vec<Expression>, scope: &Scope) -> (r: Result<
    Vec<Predicate>,
    CompileError,
>)
    ensures
        match r {
            Ok(ps) => conditions_plan(parts@, scope@, 0, Seq::empty()) == Ok::<_, CompileError>(
                predicate_models(ps@),
            ),
            Err(e) => conditions_plan(parts@, scope@, 0, Seq::empty()) == Err::<
                Seq<PredicateModel>,
                CompileError,
            >(e),
        },
    decreases parts@, 1 + parts@.len(),
{
    let mut out: Vec<Predicate> = Vec::new();
    let mut i: usize = 0;
    proof {
        assert(predicate_models(out@) =~= Seq::<PredicateModel>::empty());
    }
    while i < parts.len()
        invariant
            i <= parts@.len(),
            conditions_plan(parts@, scope@, 0, Seq::empty()) == conditions_plan(
                parts@,
                scope@,
                i as nat,
                predicate_models(out@),
            ),
        decreases parts@.len() - i,
    {
        match lower_condition(&parts[i], scope) {
            Ok(p) => {
                proof {
                    assert(predicate_models(out@.push(p)) =~= predicate_models(out@).push(p@));
                }
                out.push(p);
            },
            Err(e) => {
                return Err(e);
            },
        }
        i = i + 1;
    }
    Ok(out)
}

/// Lowers the traversal that computes a projected field.
pub fn lower_traversal_source(t: &Traversal, scope: &Scope) -> (r: Result<
    FieldSource,
    CompileError,
>)
    ensures
        source_outcome(r) == traversal_source_plan(*t, scope@),
    decreases t, 3nat,
{
    let n = t.steps.len();
    if n > 0 {
        match &t.steps[n - 1] {
            Step::Object(object) => {
                if object.fields.len() == 0 {
                    return Err(CompileError::EmptyProjection);
                }
                let id = String::from_str("id");
                if object.fields[0].0 == id {
                    return match lower_walk(t, scope, n - 1) {
                        Ok(path) => Ok(
                            FieldSource::Computed { path, replacement: Replacement::ElementId },
                        ),
                        Err(e) => Err(e),
                    };
                }
                let anonymous = match &t.start {
                    StartNode::Anonymous => true,
                    _ => false,
                };
                if anonymous && n == 1 {
                    return Ok(FieldSource::Property(object.fields[0].0.clone()));
                }
                return Err(CompileError::UnsupportedProjection);
            },
            _ => {},
        }
    }
    match lower_walk(t, scope, n) {
        Ok(path) => Ok(FieldSource::Computed { path, replacement: Replacement::Elements }),
        Err(e) => Err(e),
    }
}

/// Lowers the value of a projected field.
pub fn lower_field_source(v: &FieldValue, scope: &Scope) -> (r: Result<FieldSource, CompileError>)
    ensures
        source_outcome(r) == field_source_plan(*v, scope@),
    decreases v, 0nat,
{
    match v {
        FieldValue::Empty => Ok(FieldSource::Inherited),
        FieldValue::Literal(Value::String(name)) => Ok(FieldSource::Property(name.clone())),
        FieldValue::Literal(_) => Err(CompileError::UnsupportedProjection),
        FieldValue::Traversal(t) => lower_traversal_source(t, scope),
        FieldValue::Expression(Expression::Traversal(t)) => lower_traversal_source(t, scope),
        FieldValue::Expression(Expression::Identifier(name)) => {
            if scope.is_bound(name) {
                let path = single(Op::FromBinding(to_snake_case(name.as_str())));
                Ok(FieldSource::Computed { path, replacement: Replacement::ElementId })
            } else {
                Err(CompileError::UnboundVariable)
            }
        },
        FieldValue::Expression(Expression::Empty) => Ok(FieldSource::Empty),
        FieldValue::Expression(_) => Err(CompileError::UnsupportedProjection),
    }
}

/// Lowers a projection of the element called `item`.
#[verifier::loop_isolation(false)]
pub fn lower_projection(item: String, object: &Object, scope: &Scope) -> (r: Result<
    Projection,
    CompileError,
>)
    ensures
        projection_outcome(r) == projection_plan(item@, *object, scope@),
    decreases object, 0nat,
{
    let fields = &object.fields;
    let mut out: Vec<ProjectedField> = Vec::new();
    let mut i: usize = 0;
    proof {
        assert(field_models(out@) =~= Seq::<ProjectedFieldModel>::empty());
    }
    while i < fields.len()
        invariant
            i <= fields@.len(),
            fields_plan(fields@, scope@, 0, Seq::empty()) == fields_plan(
                fields@,
                scope@,
                i as nat,
                field_models(out@),
            ),
        decreases fields@.len() - i,
    {
        match lower_field_source(&fields[i].1, scope) {
            Ok(source) => {
                let field = ProjectedField {
                    key: fields[i].0.clone(),
                    variable: to_snake_case(fields[i].0.as_str()),
                    source,
                };
                proof {
                    assert(field_models(out@.push(field)) =~= field_models(out@).push(field@));
                }
                out.push(field);
            },
            Err(e) => {
                return Err(e);
            },
        }
        i = i + 1;
    }
    Ok(Projection { item, fields: out, should_spread: object.should_spread })
}

/// Lowers an expression that a statement evaluates.
pub fn lower_expression(e: &Expression, scope: &Scope) -> (r: Result<Vec<Op>, CompileError>)
    ensures
        ops_outcome(r) == expression_plan(*e, scope@),
{
    match e {
        Expression::Traversal(t) => lower_traversal(t, scope),
        Expression::Identifier(name) => {
            if scope.is_bound(name) {
                Ok(single(Op::FromBinding(to_snake_case(name.as_str()))))
            } else {
                Err(CompileError::UnboundVariable)
            }
        },
        Expression::AddNode(a) => lower_add_node(a, scope),
        Expression::AddEdge(a) => lower_add_edge(a, scope),
        Expression::AddVector(a) => lower_add_vector(a),
        Expression::BatchAddVector(b) => lower_batch_add_vector(b),
        Expression::SearchVector(s) => lower_search_vector(s),
        Expression::Exists(t) => match lower_traversal(t, scope) {
            Ok(path) => Ok(single(Op::Filter(Predicate::Exists { path }))),
            Err(e) => Err(e),
        },
        _ => Err(CompileError::UnsupportedExpression),
    }
}

} // verus!
