//! Compilation of a whole query: transaction mode, input schema, statements
//! and response.

use crate::helixc::generator::error::CompileError;
use crate::helixc::generator::lowering::{lower_expression, lower_traversal};
use crate::helixc::generator::lowering_spec::{expression_plan, traversal_plan};
use crate::helixc::generator::mutations::{
    add_edge_plan, add_node_plan, add_vector_plan, batch_add_vector_plan, lower_add_edge,
    lower_add_node, lower_add_vector, lower_batch_add_vector, lower_search_vector, ops_outcome,
    search_vector_plan,
};
use crate::helixc::generator::naming::{snake_case, to_snake_case};
use crate::helixc::generator::plan::{
    entry_models, handler_op_models, input_models, name_models, op_models, HandlerOp,
    HandlerOpModel, HandlerProgram, HandlerProgramModel, InputField, InputFieldModel, Op, OpModel,
    ReturnEntry, ReturnEntryModel, TransactionMode,
};
use crate::helixc::generator::scope::{Scope, ScopeModel};
use crate::helixc::parser::helix_parser::{
    Expression, FieldType, Parameter, Query, StartNode, Statement, Step,
};
use vstd::prelude::*;
use vstd::string::*;

verus! {

/// Whether a traversal updates properties on its way.
pub open spec fn has_update(steps: Seq<Step>) -> bool {
    exists|i: int| 0 <= i < steps.len() && (#[trigger] steps[i]) is Update
}

/// Whether a statement changes the graph: it adds a node, an edge or
/// vectors, it drops elements, or it assigns the result of one of the
/// additions or of a traversal that updates properties.
pub open spec fn statement_mutates(s: Statement) -> bool {
    match s {
        Statement::AddNode(_) => true,
        Statement::AddEdge(_) => true,
        Statement::Drop(_) => true,
        Statement::AddVector(_) => true,
        Statement::BatchAddVector(_) => true,
        Statement::SearchVector(_) => false,
        Statement::Assignment(a) => match a.value {
            Expression::AddNode(_) => true,
            Expression::AddEdge(_) => true,
            Expression::AddVector(_) => true,
            Expression::BatchAddVector(_) => true,
            Expression::Traversal(t) => has_update(t.steps@),
            _ => false,
        },
    }
}

/// Whether any statement of the query changes the graph.
pub open spec fn query_mutates(q: Query) -> bool {
    exists|i: int| 0 <= i < q.statements@.len() && statement_mutates(#[trigger] q.statements@[i])
}

/// The transaction mode of a query: write where a statement changes the
/// graph, read otherwise.
pub open spec fn mode_of(q: Query) -> TransactionMode {
    if query_mutates(q) {
        TransactionMode::Write
    } else {
        TransactionMode::Read
    }
}

fn updates(steps: &Vec<Step>) -> (b: bool)
    ensures
        b == has_update(steps@),
{
    let mut i: usize = 0;
    while i < steps.len()
        invariant
            i <= steps@.len(),
            forall|j: int| 0 <= j < i ==> !((#[trigger] steps@[j]) is Update),
        decreases steps@.len() - i,
    {
        match &steps[i] {
            Step::Update(_) => {
                return true;
            },
            _ => {},
        }
        i = i + 1;
    }
    false
}

/// Decides whether a statement changes the graph.
pub fn is_mutating_statement(s: &Statement) -> (b: bool)
    ensures
        b == statement_mutates(*s),
{
    match s {
        Statement::AddNode(_) => true,
        Statement::AddEdge(_) => true,
        Statement::Drop(_) => true,
        Statement::AddVector(_) => true,
        Statement::BatchAddVector(_) => true,
        Statement::SearchVector(_) => false,
        Statement::Assignment(a) => match &a.value {
            Expression::AddNode(_) => true,
            Expression::AddEdge(_) => true,
            Expression::AddVector(_) => true,
            Expression::BatchAddVector(_) => true,
            Expression::Traversal(t) => updates(&t.steps),
            _ => false,
        },
    }
}

/// Decides the transaction mode of a query.
pub fn transaction_mode(q: &Query) -> (mode: TransactionMode)
    ensures
        mode == mode_of(*q),
{
    let mut i: usize = 0;
    while i < q.statements.len()
        invariant
            i <= q.statements@.len(),
            forall|j: int| 0 <= j < i ==> !statement_mutates(#[trigger] q.statements@[j]),
        decreases q.statements@.len() - i,
    {
        if is_mutating_statement(&q.statements[i]) {
            return TransactionMode::Write;
        }
        i = i + 1;
    }
    TransactionMode::Read
}

/// The type of an input field, as the handler declares it.
pub open spec fn field_type_text(t: FieldType) -> Seq<char>
    decreases t,
{
    match t {
        FieldType::String => "String"@,
        FieldType::Integer => "i32"@,
        FieldType::Float => "f64"@,
        FieldType::Boolean => "bool"@,
        FieldType::Array(inner) => "Vec<"@ + field_type_text(*inner) + ">"@,
        FieldType::Identifier(name) => name@,
    }
}

/// Prints a declared type.
pub fn field_type_to_text(t: &FieldType) -> (text: String)
    ensures
        text@ == field_type_text(*t),
    decreases t,
{
    match t {
        FieldType::String => String::from_str("String"),
        FieldType::Integer => String::from_str("i32"),
        FieldType::Float => String::from_str("f64"),
        FieldType::Boolean => String::from_str("bool"),
        FieldType::Array(inner) => {
            let inner = field_type_to_text(inner);
            let mut text = String::from_str("Vec<");
            text.append(inner.as_str());
            text.append(">");
            text
        },
        FieldType::Identifier(name) => name.clone(),
    }
}

/// The input schema of a query: one field per declared parameter, under
/// its normalized name and with its declared type, in declaration order.
pub open spec fn inputs_plan(parameters: Seq<Parameter>) -> Seq<InputFieldModel> {
    Seq::new(
        parameters.len(),
        |i: int|
            InputFieldModel {
                name: snake_case(parameters[i].name@),
                declared_type: field_type_text(parameters[i].param_type),
            },
    )
}

/// The declared names of the parameters.
pub open spec fn parameter_names(parameters: Seq<Parameter>) -> Seq<Seq<char>> {
    Seq::new(parameters.len(), |i: int| parameters[i].name@)
}

fn lower_inputs(parameters: &Vec<Parameter>) -> (r: (Vec<InputField>, Vec<String>))
    ensures
        input_models(r.0@) == inputs_plan(parameters@),
        name_models(r.1@) == parameter_names(parameters@),
{
    let mut inputs: Vec<InputField> = Vec::new();
    let mut names: Vec<String> = Vec::new();
    let mut i: usize = 0;
    while i < parameters.len()
        invariant
            i <= parameters@.len(),
            inputs@.len() == i,
            names@.len() == i,
            forall|j: int|
                0 <= j < i ==> (#[trigger] inputs@[j])@ == inputs_plan(parameters@)[j],
            forall|j: int| 0 <= j < i ==> (#[trigger] names@[j])@ == parameters@[j].name@,
        decreases parameters@.len() - i,
    {
        let field = InputField {
            name: to_snake_case(parameters[i].name.as_str()),
            declared_type: field_type_to_text(&parameters[i].param_type),
        };
        inputs.push(field);
        names.push(parameters[i].name.clone());
        i = i + 1;
    }
    proof {
        assert(input_models(inputs@) =~= inputs_plan(parameters@));
        assert(name_models(names@) =~= parameter_names(parameters@));
    }
    (inputs, names)
}

/// The operations of one statement.
///
/// An assignment evaluates its expression on a fresh traversal and binds
/// the result; a variable is bound once. A drop evaluates its expression
/// and then deletes what was reached.
pub open spec fn statement_plan(s: Statement, scope: ScopeModel) -> Result<Seq<OpModel>, CompileError> {
    match s {
        Statement::Assignment(a) => if scope.is_bound(a.variable@) {
            Err(CompileError::Rebinding)
        } else {
            match expression_plan(a.value, scope) {
                Ok(ops) => Ok(
                    seq![OpModel::NewTraversal] + ops + seq![OpModel::Bind(snake_case(a.variable@))],
                ),
                Err(e) => Err(e),
            }
        },
        Statement::AddNode(a) => add_node_plan(a, scope),
        Statement::AddEdge(a) => add_edge_plan(a, scope),
        Statement::AddVector(a) => add_vector_plan(a),
        Statement::BatchAddVector(b) => batch_add_vector_plan(b),
        Statement::SearchVector(s) => search_vector_plan(s),
        Statement::Drop(target) => match target {
            Expression::Traversal(t) => match traversal_plan(*t, scope) {
                Ok(ops) => Ok(seq![OpModel::NewTraversal] + ops + seq![OpModel::Drop]),
                Err(e) => Err(e),
            },
            _ => Ok(seq![OpModel::NewTraversal, OpModel::Drop, OpModel::Drop]),
        },
    }
}

/// The scope that the statements after `s` see.
pub open spec fn scope_after(s: Statement, scope: ScopeModel) -> ScopeModel {
    match s {
        Statement::Assignment(a) => scope.bind(a.variable@),
        _ => scope,
    }
}

fn wrap(first: Op, middle: Vec<Op>, last: Op) -> (ops: Vec<Op>)
    ensures
        op_models(ops@) == seq![first@] + op_models(middle@) + seq![last@],
{
    let mut ops: Vec<Op> = Vec::new();
    ops.push(first);
    let ghost inner = middle@;
    let mut middle = middle;
    ops.append(&mut middle);
    ops.push(last);
    proof {
        assert(op_models(ops@) =~= seq![first@] + op_models(inner) + seq![last@]);
    }
    ops
}

/// Lowers one statement.
pub fn lower_statement(s: &Statement, scope: &Scope) -> (r: Result<Vec<Op>, CompileError>)
    ensures
        ops_outcome(r) == statement_plan(*s, scope@),
{
    match s {
        Statement::Assignment(a) => {
            if scope.is_bound(&a.variable) {
                Err(CompileError::Rebinding)
            } else {
                match lower_expression(&a.value, scope) {
                    Ok(ops) => Ok(
                        wrap(Op::NewTraversal, ops, Op::Bind(to_snake_case(a.variable.as_str()))),
                    ),
                    Err(e) => Err(e),
                }
            }
        },
        Statement::AddNode(a) => lower_add_node(a, scope),
        Statement::AddEdge(a) => lower_add_edge(a, scope),
        Statement::AddVector(a) => lower_add_vector(a),
        Statement::BatchAddVector(b) => lower_batch_add_vector(b),
        Statement::SearchVector(s) => lower_search_vector(s),
        Statement::Drop(target) => match target {
            Expression::Traversal(t) => match lower_traversal(t, scope) {
                Ok(ops) => Ok(wrap(Op::NewTraversal, ops, Op::Drop)),
                Err(e) => Err(e),
            },
            _ => {
                let mut only: Vec<Op> = Vec::new();
                only.push(Op::Drop);
                proof {
                    assert(op_models(only@) =~= seq![OpModel::Drop]);
                }
                let ops = wrap(Op::NewTraversal, only, Op::Drop);
                proof {
                    assert(op_models(ops@) =~= seq![
                        OpModel::NewTraversal,
                        OpModel::Drop,
                        OpModel::Drop,
                    ]);
                }
                Ok(ops)
            },
        },
    }
}

/// `done` followed by one handler operation per statement from index `i`
/// on, each lowered in the scope that the statements before it left; and
/// the scope after the last.
pub open spec fn statements_plan(
    statements: Seq<Statement>,
    scope: ScopeModel,
    i: nat,
    done: Seq<HandlerOpModel>,
) -> Result<(Seq<HandlerOpModel>, ScopeModel), CompileError>
    decreases statements.len() - i,
{
    if i >= statements.len() {
        Ok((done, scope))
    } else {
        match statement_plan(statements[i as int], scope) {
            Ok(ops) => statements_plan(
                statements,
                scope_after(statements[i as int], scope),
                i + 1,
                done.push(HandlerOpModel::Statement(ops)),
            ),
            Err(e) => Err(e),
        }
    }
}

/// The response entry of one return expression: the value of a bound
/// variable under its name, a traversal from a variable under that
/// variable's name, a text or the empty value under `message`.
pub open spec fn return_entry_plan(e: Expression, scope: ScopeModel) -> Result<
    ReturnEntryModel,
    CompileError,
> {
    match e {
        Expression::Identifier(name) => if scope.is_bound(name@) {
            Ok(ReturnEntryModel::Binding { key: name@, variable: snake_case(name@) })
        } else {
            Err(CompileError::UnboundVariable)
        },
        Expression::StringLiteral(text) => Ok(ReturnEntryModel::Message(text@)),
        Expression::Empty => Ok(ReturnEntryModel::EmptyMessage),
        Expression::Traversal(t) => match t.start {
            StartNode::Variable(name) => match traversal_plan(*t, scope) {
                Ok(path) => Ok(ReturnEntryModel::Traversal { key: name@, path }),
                Err(e) => Err(e),
            },
            _ => Err(CompileError::UnsupportedReturn),
        },
        _ => Err(CompileError::UnsupportedReturn),
    }
}

/// Lowers one return expression.
pub fn lower_return_entry(e: &Expression, scope: &Scope) -> (r: Result<ReturnEntry, CompileError>)
    ensures
        match r {
            Ok(entry) => return_entry_plan(*e, scope@) == Ok::<_, CompileError>(entry@),
            Err(error) => return_entry_plan(*e, scope@) == Err::<ReturnEntryModel, CompileError>(
                error,
            ),
        },
{
    match e {
        Expression::Identifier(name) => {
            if scope.is_bound(name) {
                Ok(
                    ReturnEntry::Binding {
                        key: name.clone(),
                        variable: to_snake_case(name.as_str()),
                    },
                )
            } else {
                Err(CompileError::UnboundVariable)
            }
        },
        Expression::StringLiteral(text) => Ok(ReturnEntry::Message(text.clone())),
        Expression::Empty => Ok(ReturnEntry::EmptyMessage),
        Expression::Traversal(t) => match &t.start {
            StartNode::Variable(name) => match lower_traversal(t, scope) {
                Ok(path) => Ok(ReturnEntry::Traversal { key: name.clone(), path }),
                Err(e) => Err(e),
            },
            _ => Err(CompileError::UnsupportedReturn),
        },
        _ => Err(CompileError::UnsupportedReturn),
    }
}

/// `done` followed by the response entries from index `i` on.
pub open spec fn returns_plan(
    results: Seq<Expression>,
    scope: ScopeModel,
    i: nat,
    done: Seq<ReturnEntryModel>,
) -> Result<Seq<ReturnEntryModel>, CompileError>
    decreases results.len() - i,
{
    if i >= results.len() {
        Ok(done)
    } else {
        match return_entry_plan(results[i as int], scope) {
            Ok(entry) => returns_plan(results, scope, i + 1, done.push(entry)),
            Err(e) => Err(e),
        }
    }
}

/// The operations that open a handler: the transaction, and the response
/// map where the query has return values.
pub open spec fn opening_ops(q: Query) -> Seq<HandlerOpModel> {
    if q.return_values@.len() > 0 {
        seq![
            HandlerOpModel::Begin(mode_of(q)),
            HandlerOpModel::AllocateResponse(q.return_values@.len() as usize),
        ]
    } else {
        seq![HandlerOpModel::Begin(mode_of(q))]
    }
}

/// The operations that close a handler: the response where the query
/// has return values, then the commit where the query changes the graph.
pub open spec fn closing_ops(q: Query, entries: Seq<ReturnEntryModel>) -> Seq<HandlerOpModel> {
    let respond = if q.return_values@.len() > 0 {
        seq![HandlerOpModel::Respond(entries)]
    } else {
        Seq::empty()
    };
    if query_mutates(q) {
        respond.push(HandlerOpModel::Commit)
    } else {
        respond
    }
}

/// The scope a query starts in: its parameters, and no variable.
pub open spec fn initial_scope(q: Query) -> ScopeModel {
    ScopeModel { parameters: parameter_names(q.parameters@), variables: Seq::empty() }
}

/// The plan of a query, or the error that refuses it. The statements are
/// lowered in their order, then the return expressions.
pub open spec fn query_plan(q: Query) -> Result<HandlerProgramModel, CompileError> {
    match statements_plan(q.statements@, initial_scope(q), 0, opening_ops(q)) {
        Ok((ops, scope)) => match returns_plan(q.return_values@, scope, 0, Seq::empty()) {
            Ok(entries) => Ok(
                HandlerProgramModel {
                    name: q.name@,
                    inputs: inputs_plan(q.parameters@),
                    ops: ops + closing_ops(q, entries),
                },
            ),
            Err(e) => Err(e),
        },
        Err(e) => Err(e),
    }
}

/// The model of a compiled program, or the error.
pub open spec fn program_outcome(r: Result<HandlerProgram, CompileError>) -> Result<
    HandlerProgramModel,
    CompileError,
> {
    match r {
        Ok(p) => Ok(p@),
        Err(e) => Err(e),
    }
}

#[verifier::loop_isolation(false)]
fn lower_statements(statements: &Vec<Statement>, scope: Scope, ops: Vec<HandlerOp>) -> (r: Result<
    (Vec<HandlerOp>, Scope),
    CompileError,
>)
    ensures
        match r {
            Ok((out, after)) => statements_plan(statements@, scope@, 0, handler_op_models(ops@))
                == Ok::<_, CompileError>((handler_op_models(out@), after@)),
            Err(e) => statements_plan(statements@, scope@, 0, handler_op_models(ops@)) == Err::<
                (Seq<HandlerOpModel>, ScopeModel),
                CompileError,
            >(e),
        },
{
    let ghost first = scope@;
    let ghost opening = handler_op_models(ops@);
    let mut scope = scope;
    let mut ops = ops;
    let mut i: usize = 0;
    while i < statements.len()
        invariant
            i <= statements@.len(),
            statements_plan(statements@, first, 0, opening) == statements_plan(
                statements@,
                scope@,
                i as nat,
                handler_op_models(ops@),
            ),
        decreases statements@.len() - i,
    {
        match lower_statement(&statements[i], &scope) {
            Ok(statement) => {
                let op = HandlerOp::Statement(statement);
                proof {
                    assert(handler_op_models(ops@.push(op)) =~= handler_op_models(ops@).push(op@));
                }
                ops.push(op);
            },
            Err(e) => {
                return Err(e);
            },
        }
        match &statements[i] {
            Statement::Assignment(a) => {
                scope.bind(a.variable.clone());
            },
            _ => {},
        }
        i = i + 1;
    }
    Ok((ops, scope))
}

fn lower_return_entries(results: &Vec<Expression>, scope: &Scope) -> (r: Result<
    Vec<ReturnEntry>,
    CompileError,
>)
    ensures
        match r {
            Ok(entries) => returns_plan(results@, scope@, 0, Seq::empty()) == Ok::<_, CompileError>(
                entry_models(entries@),
            ),
            Err(e) => returns_plan(results@, scope@, 0, Seq::empty()) == Err::<
                Seq<ReturnEntryModel>,
                CompileError,
            >(e),
        },
{
    let mut entries: Vec<ReturnEntry> = Vec::new();
    let mut j: usize = 0;
    proof {
        assert(entry_models(entries@) =~= Seq::<ReturnEntryModel>::empty());
    }
    while j < results.len()
        invariant
            j <= results@.len(),
            returns_plan(results@, scope@, 0, Seq::empty()) == returns_plan(
                results@,
                scope@,
                j as nat,
                entry_models(entries@),
            ),
        decreases results@.len() - j,
    {
        match lower_return_entry(&results[j], scope) {
            Ok(entry) => {
                proof {
                    assert(entry_models(entries@.push(entry)) =~= entry_models(entries@).push(
                        entry@,
                    ));
                }
                entries.push(entry);
            },
            Err(e) => {
                return Err(e);
            },
        }
        j = j + 1;
    }
    Ok(entries)
}

fn open_handler(q: &Query, mode: TransactionMode) -> (ops: Vec<HandlerOp>)
    requires
        mode == mode_of(*q),
    ensures
        handler_op_models(ops@) == opening_ops(*q),
{
    let mut ops: Vec<HandlerOp> = Vec::new();
    ops.push(HandlerOp::Begin(mode));
    if q.return_values.len() > 0 {
        ops.push(HandlerOp::AllocateResponse(q.return_values.len()));
    }
    proof {
        assert(handler_op_models(ops@) =~= opening_ops(*q));
    }
    ops
}

fn close_handler(q: &Query, mode: TransactionMode, ops: Vec<HandlerOp>, entries: Vec<ReturnEntry>) -> (out:
    Vec<HandlerOp>)
    requires
        mode == mode_of(*q),
    ensures
        handler_op_models(out@) == handler_op_models(ops@) + closing_ops(*q, entry_models(entries@)),
{
    let ghost before = handler_op_models(ops@);
    let ghost closing = closing_ops(*q, entry_models(entries@));
    let mut ops = ops;
    if q.return_values.len() > 0 {
        ops.push(HandlerOp::Respond(entries));
    }
    match mode {
        TransactionMode::Write => {
            ops.push(HandlerOp::Commit);
        },
        TransactionMode::Read => {},
    }
    proof {
        assert(handler_op_models(ops@) =~= before + closing);
    }
    ops
}

/// Compiles a query to the plan of its handler.
///
/// The result depends on the query alone.
pub fn compile(q: &Query) -> (r: Result<HandlerProgram, CompileError>)
    ensures
        program_outcome(r) == query_plan(*q),
{
    let (inputs, names) = lower_inputs(&q.parameters);
    let scope = Scope::new(names);
    let mode = transaction_mode(q);
    let opening = open_handler(q, mode);
    proof {
        assert(scope@ == initial_scope(*q));
    }
    match lower_statements(&q.statements, scope, opening) {
        Ok((ops, scope)) => match lower_return_entries(&q.return_values, &scope) {
            Ok(entries) => {
                let ops = close_handler(q, mode, ops, entries);
                Ok(HandlerProgram { name: q.name.clone(), inputs, ops })
            },
            Err(e) => Err(e),
        },
        Err(e) => Err(e),
    }
}

} // verus!
