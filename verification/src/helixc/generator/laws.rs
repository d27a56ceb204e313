//! What holds of every compiled query.

use crate::helixc::generator::arguments::{comparator_of, count_comparison_plan};
use crate::helixc::generator::compile::{
    closing_ops, initial_scope, opening_ops, query_mutates, query_plan, statements_plan,
};
use crate::helixc::generator::error::CompileError;
use crate::helixc::generator::lowering_spec::{
    closing_test, condition_plan, conditions_plan, is_test, step_contribution, step_plan,
    steps_plan, test_plan, test_scan,
};
use crate::helixc::generator::plan::{
    HandlerOpModel, OpModel, PredicateModel, TransactionMode,
};
use crate::helixc::generator::scope::ScopeModel;
use crate::helixc::parser::helix_parser::{Expression, Query, Statement, Step, Traversal};
use vstd::prelude::*;

verus! {

/// Whether a predicate holds, given which of the tests on the graph hold.
///
/// A conjunction holds where every part holds and a disjunction where at
/// least one does. What a property test, a count test or an existence test
/// yields depends on the graph; `facts` says it.
pub open spec fn holds(p: PredicateModel, facts: spec_fn(PredicateModel) -> bool) -> bool
    decreases p,
{
    match p {
        PredicateModel::Constant(b) => b,
        PredicateModel::And(parts) => forall|i: int|
            0 <= i < parts.len() ==> holds(#[trigger] parts[i], facts),
        PredicateModel::Or(parts) => exists|i: int|
            0 <= i < parts.len() && holds(#[trigger] parts[i], facts),
        _ => facts(p),
    }
}

/// A conjunction holds exactly where each of its parts holds.
pub proof fn lemma_and_holds(parts: Seq<PredicateModel>, facts: spec_fn(PredicateModel) -> bool)
    ensures
        holds(PredicateModel::And(parts), facts) <==> (forall|i: int|
            0 <= i < parts.len() ==> holds(#[trigger] parts[i], facts)),
{
    if holds(PredicateModel::And(parts), facts) {
        assert forall|i: int| 0 <= i < parts.len() implies holds(#[trigger] parts[i], facts) by {
            assert(PredicateModel::And(parts)->And_0[i] == parts[i]);
        }
    }
    if forall|i: int| 0 <= i < parts.len() ==> holds(#[trigger] parts[i], facts) {
        assert forall|i: int| 0 <= i < PredicateModel::And(parts)->And_0.len() implies holds(
            #[trigger] PredicateModel::And(parts)->And_0[i],
            facts,
        ) by {
            assert(holds(parts[i], facts));
        }
    }
}

/// A disjunction holds exactly where one of its parts holds.
pub proof fn lemma_or_holds(parts: Seq<PredicateModel>, facts: spec_fn(PredicateModel) -> bool)
    ensures
        holds(PredicateModel::Or(parts), facts) <==> (exists|i: int|
            0 <= i < parts.len() && holds(#[trigger] parts[i], facts)),
{
    let inner = PredicateModel::Or(parts)->Or_0;
    assert(inner == parts);
    if holds(PredicateModel::Or(parts), facts) {
        let i = choose|i: int| 0 <= i < inner.len() && holds(#[trigger] inner[i], facts);
        assert(0 <= i < parts.len() && holds(parts[i], facts));
    }
    if exists|i: int| 0 <= i < parts.len() && holds(#[trigger] parts[i], facts) {
        let i = choose|i: int| 0 <= i < parts.len() && holds(#[trigger] parts[i], facts);
        assert(0 <= i < inner.len() && holds(inner[i], facts));
    }
}

/// A conjunction may be nested: the conjunction of `left` followed by
/// `right` holds exactly where the conjunction of the conjunction of `left`
/// and of `right` holds.
pub proof fn law_and_is_associative(
    left: Seq<PredicateModel>,
    right: Seq<PredicateModel>,
    facts: spec_fn(PredicateModel) -> bool,
)
    ensures
        holds(PredicateModel::And(left + right), facts) == holds(
            PredicateModel::And(seq![PredicateModel::And(left)] + right),
            facts,
        ),
{
    let flat = left + right;
    let nested = seq![PredicateModel::And(left)] + right;
    assert(nested.len() == 1 + right.len());
    assert(nested[0] == PredicateModel::And(left));
    assert(flat.len() == left.len() + right.len());
    lemma_and_holds(flat, facts);
    lemma_and_holds(nested, facts);
    lemma_and_holds(left, facts);
    if holds(PredicateModel::And(flat), facts) {
        assert forall|i: int| 0 <= i < left.len() implies holds(#[trigger] left[i], facts) by {
            assert(flat[i] == left[i]);
            assert(holds(flat[i], facts));
        }
        assert forall|i: int| 0 <= i < nested.len() implies holds(#[trigger] nested[i], facts) by {
            if i > 0 {
                assert(nested[i] == flat[left.len() + i - 1]);
                assert(holds(flat[left.len() + i - 1], facts));
            }
        }
    }
    if holds(PredicateModel::And(nested), facts) {
        assert(holds(nested[0], facts));
        assert forall|i: int| 0 <= i < flat.len() implies holds(#[trigger] flat[i], facts) by {
            if i < left.len() {
                assert(flat[i] == left[i]);
                assert(holds(left[i], facts));
            } else {
                assert(flat[i] == nested[i - left.len() + 1]);
                assert(holds(nested[i - left.len() + 1], facts));
            }
        }
    }
}

/// A disjunction may be nested in the same way.
pub proof fn law_or_is_associative(
    left: Seq<PredicateModel>,
    right: Seq<PredicateModel>,
    facts: spec_fn(PredicateModel) -> bool,
)
    ensures
        holds(PredicateModel::Or(left + right), facts) == holds(
            PredicateModel::Or(seq![PredicateModel::Or(left)] + right),
            facts,
        ),
{
    let flat = left + right;
    let nested = seq![PredicateModel::Or(left)] + right;
    assert(nested.len() == 1 + right.len());
    assert(nested[0] == PredicateModel::Or(left));
    assert(flat.len() == left.len() + right.len());
    lemma_or_holds(flat, facts);
    lemma_or_holds(nested, facts);
    lemma_or_holds(left, facts);
    if holds(PredicateModel::Or(flat), facts) {
        let i = choose|i: int| 0 <= i < flat.len() && holds(#[trigger] flat[i], facts);
        if i < left.len() {
            assert(flat[i] == left[i]);
            assert(holds(left[i], facts));
            assert(holds(PredicateModel::Or(left), facts));
            assert(holds(nested[0], facts));
        } else {
            assert(flat[i] == nested[i - left.len() + 1]);
            assert(holds(nested[i - left.len() + 1], facts));
        }
        assert(holds(PredicateModel::Or(nested), facts));
    }
    if holds(PredicateModel::Or(nested), facts) {
        let i = choose|i: int| 0 <= i < nested.len() && holds(#[trigger] nested[i], facts);
        if i == 0 {
            let j = choose|j: int| 0 <= j < left.len() && holds(#[trigger] left[j], facts);
            assert(flat[j] == left[j]);
            assert(holds(flat[j], facts));
        } else {
            assert(nested[i] == flat[left.len() + i - 1]);
            assert(holds(flat[left.len() + i - 1], facts));
        }
        assert(holds(PredicateModel::Or(flat), facts));
    }
}

/// Conjunctions compile associatively: `AND(a, b, c)` and
/// `AND(AND(a, b), c)` are refused together or compiled together, and then
/// they hold on the same elements.
pub proof fn law_and_compiles_associatively(
    flat: Vec<Expression>,
    inner: Vec<Expression>,
    outer: Vec<Expression>,
    scope: ScopeModel,
    facts: spec_fn(PredicateModel) -> bool,
)
    requires
        flat@.len() == 3,
        inner@ == seq![flat@[0], flat@[1]],
        outer@ == seq![Expression::And(inner), flat@[2]],
    ensures
        condition_plan(Expression::And(flat), scope) is Ok <==> condition_plan(
            Expression::And(outer),
            scope,
        ) is Ok,
        condition_plan(Expression::And(flat), scope) is Ok ==> holds(
            condition_plan(Expression::And(flat), scope)->Ok_0,
            facts,
        ) == holds(condition_plan(Expression::And(outer), scope)->Ok_0, facts),
{
    reveal_with_fuel(conditions_plan, 4);
    if condition_plan(Expression::And(flat), scope) is Ok {
        let a = condition_plan(flat@[0], scope)->Ok_0;
        let b = condition_plan(flat@[1], scope)->Ok_0;
        let c = condition_plan(flat@[2], scope)->Ok_0;
        assert(conditions_plan(flat@, scope, 0, Seq::empty()) == Ok::<_, CompileError>(
            Seq::<PredicateModel>::empty().push(a).push(b).push(c),
        ));
        assert(conditions_plan(inner@, scope, 0, Seq::empty()) == Ok::<_, CompileError>(
            Seq::<PredicateModel>::empty().push(a).push(b),
        ));
        let left = Seq::<PredicateModel>::empty().push(a).push(b);
        let right = seq![c];
        assert(condition_plan(Expression::And(inner), scope) == Ok::<_, CompileError>(
            PredicateModel::And(left),
        ));
        assert(conditions_plan(outer@, scope, 0, Seq::empty()) == Ok::<_, CompileError>(
            Seq::<PredicateModel>::empty().push(PredicateModel::And(left)).push(c),
        ));
        assert(Seq::<PredicateModel>::empty().push(a).push(b).push(c) =~= left + right);
        assert(Seq::<PredicateModel>::empty().push(PredicateModel::And(left)).push(c)
            =~= seq![PredicateModel::And(left)] + right);
        law_and_is_associative(left, right, facts);
    }
}

/// Disjunctions compile associatively, as conjunctions do.
pub proof fn law_or_compiles_associatively(
    flat: Vec<Expression>,
    inner: Vec<Expression>,
    outer: Vec<Expression>,
    scope: ScopeModel,
    facts: spec_fn(PredicateModel) -> bool,
)
    requires
        flat@.len() == 3,
        inner@ == seq![flat@[0], flat@[1]],
        outer@ == seq![Expression::Or(inner), flat@[2]],
    ensures
        condition_plan(Expression::Or(flat), scope) is Ok <==> condition_plan(
            Expression::Or(outer),
            scope,
        ) is Ok,
        condition_plan(Expression::Or(flat), scope) is Ok ==> holds(
            condition_plan(Expression::Or(flat), scope)->Ok_0,
            facts,
        ) == holds(condition_plan(Expression::Or(outer), scope)->Ok_0, facts),
{
    reveal_with_fuel(conditions_plan, 4);
    if condition_plan(Expression::Or(flat), scope) is Ok {
        let a = condition_plan(flat@[0], scope)->Ok_0;
        let b = condition_plan(flat@[1], scope)->Ok_0;
        let c = condition_plan(flat@[2], scope)->Ok_0;
        assert(conditions_plan(flat@, scope, 0, Seq::empty()) == Ok::<_, CompileError>(
            Seq::<PredicateModel>::empty().push(a).push(b).push(c),
        ));
        assert(conditions_plan(inner@, scope, 0, Seq::empty()) == Ok::<_, CompileError>(
            Seq::<PredicateModel>::empty().push(a).push(b),
        ));
        let left = Seq::<PredicateModel>::empty().push(a).push(b);
        let right = seq![c];
        assert(condition_plan(Expression::Or(inner), scope) == Ok::<_, CompileError>(
            PredicateModel::Or(left),
        ));
        assert(conditions_plan(outer@, scope, 0, Seq::empty()) == Ok::<_, CompileError>(
            Seq::<PredicateModel>::empty().push(PredicateModel::Or(left)).push(c),
        ));
        assert(Seq::<PredicateModel>::empty().push(a).push(b).push(c) =~= left + right);
        assert(Seq::<PredicateModel>::empty().push(PredicateModel::Or(left)).push(c)
            =~= seq![PredicateModel::Or(left)] + right);
        law_or_is_associative(left, right, facts);
    }
}

/// Lowering statements keeps what was there and adds one statement each.
proof fn lemma_statements_plan_shape(
    statements: Seq<Statement>,
    scope: ScopeModel,
    i: nat,
    done: Seq<HandlerOpModel>,
)
    requires
        i <= statements.len(),
        statements_plan(statements, scope, i, done) is Ok,
    ensures
        ({
            let ops = statements_plan(statements, scope, i, done)->Ok_0.0;
            &&& ops.len() == done.len() + statements.len() - i
            &&& forall|k: int| 0 <= k < done.len() ==> ops[k] == done[k]
            &&& forall|k: int| done.len() <= k < ops.len() ==> (#[trigger] ops[k]) is Statement
        }),
    decreases statements.len() - i,
{
    if i < statements.len() {
        let ops = crate::helixc::generator::compile::statement_plan(statements[i as int], scope)->Ok_0;
        let next = done.push(HandlerOpModel::Statement(ops));
        lemma_statements_plan_shape(
            statements,
            crate::helixc::generator::compile::scope_after(statements[i as int], scope),
            i + 1,
            next,
        );
        let all = statements_plan(statements, scope, i, done)->Ok_0.0;
        assert forall|k: int| 0 <= k < done.len() implies all[k] == done[k] by {
            assert(next[k] == done[k]);
        }
        assert forall|k: int| done.len() <= k < all.len() implies (#[trigger] all[k]) is Statement by {
            if k == done.len() {
                assert(all[k] == next[k]);
            }
        }
    }
}

/// The transaction of a compiled query.
///
/// The handler opens its transaction first and once: for reading where no
/// statement changes the graph, for writing where one does. A handler that
/// writes commits exactly once, as its last operation, after every
/// statement and after the response; a handler that reads never commits.
pub proof fn law_transaction_mode(q: Query)
    requires
        query_plan(q) is Ok,
    ensures
        ({
            let ops = query_plan(q)->Ok_0.ops;
            let mode = if query_mutates(q) {
                TransactionMode::Write
            } else {
                TransactionMode::Read
            };
            &&& ops.len() > 0
            &&& ops[0] == HandlerOpModel::Begin(mode)
            &&& forall|k: int| 0 < k < ops.len() ==> !((#[trigger] ops[k]) is Begin)
            &&& query_mutates(q) ==> ops.last() == HandlerOpModel::Commit
            &&& forall|k: int|
                0 <= k < ops.len() && (#[trigger] ops[k]) is Commit ==> query_mutates(q) && k
                    == ops.len() - 1
            &&& forall|k: int|
                0 <= k < ops.len() && (#[trigger] ops[k]) is Statement ==> k < ops.len() - 1
                    || !query_mutates(q)
        }),
{
    let opening = opening_ops(q);
    lemma_statements_plan_shape(q.statements@, initial_scope(q), 0, opening);
    let planned = statements_plan(q.statements@, initial_scope(q), 0, opening)->Ok_0;
    let body = planned.0;
    let entries = crate::helixc::generator::compile::returns_plan(
        q.return_values@,
        planned.1,
        0,
        Seq::empty(),
    )->Ok_0;
    let closing = closing_ops(q, entries);
    let ops = query_plan(q)->Ok_0.ops;
    assert(ops == body + closing);
    assert(ops[0] == body[0]);
    assert(body[0] == opening[0]);
    assert forall|k: int| 0 < k < ops.len() implies !((#[trigger] ops[k]) is Begin) by {
        if k < body.len() {
            assert(ops[k] == body[k]);
            if k < opening.len() {
                assert(body[k] == opening[k]);
            }
        } else {
            assert(ops[k] == closing[k - body.len()]);
        }
    }
    assert forall|k: int| 0 <= k < ops.len() && (#[trigger] ops[k]) is Commit implies query_mutates(
        q,
    ) && k == ops.len() - 1 by {
        if k < body.len() {
            assert(ops[k] == body[k]);
            if k < opening.len() {
                assert(body[k] == opening[k]);
            }
        } else {
            assert(ops[k] == closing[k - body.len()]);
        }
    }
    assert forall|k: int| 0 <= k < ops.len() && (#[trigger] ops[k]) is Statement implies k
        < ops.len() - 1 || !query_mutates(q) by {
        if k >= body.len() {
            assert(ops[k] == closing[k - body.len()]);
        }
    }
    if query_mutates(q) {
        assert(ops.last() == closing.last());
    }
}

/// Among the steps before `i` there is no test, and the scan from `i` on
/// succeeded: then the test that closes the path is the one the scan found.
proof fn lemma_scan_ends_at_count(
    steps: Seq<Step>,
    scope: ScopeModel,
    i: nat,
    path: Seq<OpModel>,
)
    requires
        steps.len() >= 2,
        steps[steps.len() - 2] is Count,
        steps[steps.len() - 1] is BooleanOperation,
        i <= steps.len() - 2,
        test_scan(steps, scope, i, path) is Ok,
    ensures
        test_scan(steps, scope, i, path)->Ok_0 is Count,
        test_scan(steps, scope, i, path)->Ok_0->Count_test == Some(
            count_comparison_plan(steps[steps.len() - 1]->BooleanOperation_0)->Ok_0,
        ),
        count_comparison_plan(steps[steps.len() - 1]->BooleanOperation_0) is Ok,
    decreases steps.len() - i,
{
    if is_test(steps[i as int]) {
        if i < steps.len() - 2 {
            assert(closing_test(steps, i as int, path) is Err);
        }
    } else {
        let op = crate::helixc::generator::lowering_spec::step_plan(steps[i as int], scope)->Ok_0;
        lemma_scan_ends_at_count(steps, scope, i + 1, path.push(op));
    }
}

/// A condition that ends in a count and a comparison tests the count.
///
/// Where a traversal that stands for a predicate ends in a count followed
/// by a comparison, the predicate it compiles to is a test of the count
/// against the operand of that comparison, with that comparator. No test of
/// a property comes out of it.
pub proof fn law_comparison_after_count_tests_the_count(t: Traversal, scope: ScopeModel)
    requires
        t.steps@.len() >= 2,
        t.steps@[t.steps@.len() - 2] is Count,
        t.steps@[t.steps@.len() - 1] is BooleanOperation,
        test_plan(t, scope) is Ok,
    ensures
        test_plan(t, scope)->Ok_0 is Count,
        test_plan(t, scope)->Ok_0->Count_test is Some,
        test_plan(t, scope)->Ok_0->Count_test->Some_0.op == comparator_of(
            t.steps@[t.steps@.len() - 1]->BooleanOperation_0,
        ),
{
    lemma_scan_ends_at_count(t.steps@, scope, 0, Seq::empty());
}

/// Steps keep their order.
///
/// Where none of the steps from `i` up to `len` is a count or a comparison,
/// each of them lowers to exactly one operation, and the operations stand
/// in the order of the steps, after what was there.
pub proof fn law_steps_keep_their_order(
    steps: Seq<Step>,
    scope: ScopeModel,
    len: nat,
    i: nat,
    done: Seq<OpModel>,
)
    requires
        i <= len <= steps.len(),
        forall|k: int|
            i <= k < len ==> !((#[trigger] steps[k]) is Count) && !(steps[k] is BooleanOperation),
        steps_plan(steps, scope, len, i, done) is Ok,
    ensures
        ({
            let ops = steps_plan(steps, scope, len, i, done)->Ok_0;
            &&& ops.len() == done.len() + len - i
            &&& forall|k: int| 0 <= k < done.len() ==> ops[k] == done[k]
            &&& forall|k: int|
                i <= k < len ==> step_plan(#[trigger] steps[k], scope) == Ok::<_, CompileError>(
                    ops[done.len() + k - i],
                )
        }),
    decreases len - i,
{
    if i < len {
        assert(!(steps[i as int] is Count) && !(steps[i as int] is BooleanOperation));
        assert(step_contribution(steps, scope, len, i) is Ok);
        assert(step_plan(steps[i as int], scope) is Ok);
        let op = step_plan(steps[i as int], scope)->Ok_0;
        assert(step_contribution(steps, scope, len, i) == Ok::<_, CompileError>(seq![op]));
        let next = done + seq![op];
        assert(steps_plan(steps, scope, len, i, done) == steps_plan(steps, scope, len, i + 1, next));
        law_steps_keep_their_order(steps, scope, len, i + 1, next);
        let ops = steps_plan(steps, scope, len, i, done)->Ok_0;
        assert(next.len() == done.len() + 1);
        assert forall|k: int| 0 <= k < done.len() implies ops[k] == done[k] by {
            assert(next[k] == done[k]);
        }
        assert forall|k: int| i <= k < len implies step_plan(#[trigger] steps[k], scope) == Ok::<
            _,
            CompileError,
        >(ops[done.len() + k - i]) by {
            if k == i {
                assert(ops[done.len() as int] == next[done.len() as int]);
            }
        }
    }
}

/// A comparison step of a traversal never lowers to a filter of its own:
/// either a count next to it carries it and the step adds nothing, or the
/// traversal is refused.
pub proof fn law_comparison_adds_no_filter(steps: Seq<Step>, scope: ScopeModel, len: nat, i: nat)
    requires
        i < len <= steps.len(),
        steps[i as int] is BooleanOperation,
    ensures
        step_contribution(steps, scope, len, i) == Ok::<Seq<OpModel>, CompileError>(Seq::empty())
            || step_contribution(steps, scope, len, i) == Err::<Seq<OpModel>, CompileError>(
            CompileError::ComparisonWithoutContext,
        ),
        i > 0 && steps[i - 1] is Count && !(i >= 2 && steps[i - 2] is BooleanOperation)
            ==> step_contribution(steps, scope, len, i) == Ok::<Seq<OpModel>, CompileError>(
            Seq::empty(),
        ),
{
}

/// A count that is followed by the last step of a traversal, a comparison,
/// carries that comparison.
pub proof fn law_count_carries_the_comparison(steps: Seq<Step>, scope: ScopeModel)
    requires
        steps.len() >= 2,
        steps[steps.len() - 2] is Count,
        steps[steps.len() - 1] is BooleanOperation,
        !(steps.len() >= 3 && steps[steps.len() - 3] is BooleanOperation),
        step_contribution(steps, scope, steps.len(), (steps.len() - 2) as nat) is Ok,
    ensures
        ({
            let ops = step_contribution(steps, scope, steps.len(), (steps.len() - 2) as nat)->Ok_0;
            &&& ops.len() == 1
            &&& ops[0] is Count
            &&& ops[0]->Count_0 is Some
            &&& ops[0]->Count_0->Some_0.op == comparator_of(
                steps[steps.len() - 1]->BooleanOperation_0,
            )
        }),
{
}

} // verus!
