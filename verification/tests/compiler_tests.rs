use helixdb::helixc::generator::compile::{compile, transaction_mode};
use helixdb::helixc::generator::error::CompileError;
use helixdb::helixc::generator::generator::{tr_is_object_remapping, CodeGenerator};
use helixdb::helixc::generator::plan::{
    Comparator, Direction, FieldSource, HandlerOp, HandlerProgram, Op, Predicate, Replacement,
    ReturnEntry, Term, TransactionMode,
};
use helixdb::helixc::parser::helix_parser::{
    AddEdge, AddNode, AddVector, Assignment, BatchAddVector, BooleanOp, Closure, EdgeConnection,
    EdgeSchema, EvaluatesToNumber, Exclude, Expression, Field, FieldAddition, FieldType,
    FieldValue, GraphStep, IdType, NodeSchema, Object, Parameter, Query, SearchVector, Source,
    StartNode, Statement, Step, Traversal, Update, ValueType, VectorData,
};
use helixdb::protocol::value::Value;

fn text(s: &str) -> String {
    s.to_string()
}

fn query(
    name: &str,
    parameters: Vec<Parameter>,
    statements: Vec<Statement>,
    return_values: Vec<Expression>,
) -> Query {
    Query { name: text(name), parameters, statements, return_values }
}

fn assign(variable: &str, value: Expression) -> Statement {
    Statement::Assignment(Assignment { variable: text(variable), value })
}

fn traversal(start: StartNode, steps: Vec<Step>) -> Expression {
    Expression::Traversal(Box::new(Traversal { start, steps }))
}

fn all_nodes(steps: Vec<Step>) -> Expression {
    traversal(StartNode::Node { types: None, ids: None }, steps)
}

fn users(steps: Vec<Step>) -> Expression {
    traversal(StartNode::Node { types: Some(vec![text("User")]), ids: None }, steps)
}

fn anonymous(steps: Vec<Step>) -> Expression {
    traversal(StartNode::Anonymous, steps)
}

fn out(label: &str) -> Step {
    Step::Node(GraphStep::Out(Some(vec![text(label)])))
}

fn props(name: &str) -> Step {
    Step::Object(Object {
        fields: vec![(text(name), FieldValue::Literal(Value::String(text(name))))],
        should_spread: false,
    })
}

fn greater_than(n: i32) -> Step {
    Step::BooleanOperation(BooleanOp::GreaterThan(Box::new(Expression::IntegerLiteral(n))))
}

fn equals(e: Expression) -> Step {
    Step::BooleanOperation(BooleanOp::Equal(Box::new(e)))
}

fn filter(condition: Expression) -> Step {
    Step::Where(Box::new(condition))
}

fn one_statement(statement: Statement) -> Query {
    query("Q", vec![], vec![statement], vec![])
}

fn users_where(condition: Expression) -> Query {
    query(
        "Q",
        vec![],
        vec![assign("users", users(vec![filter(condition)]))],
        vec![Expression::Identifier(text("users"))],
    )
}

fn error_of(q: &Query) -> CompileError {
    match compile(q) {
        Ok(_) => panic!("the query compiled"),
        Err(e) => e,
    }
}

fn plan_of(q: &Query) -> HandlerProgram {
    compile(q).unwrap()
}

fn statement_ops(program: &HandlerProgram) -> Vec<&Vec<Op>> {
    let mut found = Vec::new();
    for op in &program.ops {
        if let HandlerOp::Statement(ops) = op {
            found.push(ops);
        }
    }
    found
}

fn commits(program: &HandlerProgram) -> usize {
    program.ops.iter().filter(|op| matches!(op, HandlerOp::Commit)).count()
}

fn get_user() -> Query {
    query(
        "GetUser",
        vec![Parameter { name: text("id"), param_type: FieldType::String }],
        vec![assign(
            "user",
            traversal(StartNode::Node { types: None, ids: Some(vec![text("id")]) }, vec![]),
        )],
        vec![Expression::Identifier(text("user"))],
    )
}

#[test]
fn get_user_compiles_to_a_read_handler() {
    let program = plan_of(&get_user());
    assert_eq!(program.name, "GetUser");
    assert!(matches!(program.ops[0], HandlerOp::Begin(TransactionMode::Read)));
    assert_eq!(commits(&program), 0);
    assert_eq!(program.inputs.len(), 1);
    assert_eq!(program.inputs[0].name, "id");
    assert_eq!(program.inputs[0].declared_type, "String");
    let entries = program
        .ops
        .iter()
        .find_map(|op| match op {
            HandlerOp::Respond(entries) => Some(entries),
            _ => None,
        })
        .unwrap();
    assert_eq!(entries.len(), 1);
    match &entries[0] {
        ReturnEntry::Binding { key, variable } => {
            assert_eq!(key, "user");
            assert_eq!(variable, "user");
        }
        other => panic!("unexpected entry {:?}", other),
    }
}

#[test]
fn get_user_prints_the_expected_handler() {
    let mut generator = CodeGenerator::new();
    let printed = generator.generate_query(&get_user()).unwrap();
    let expected = "#[handler]\n\
pub fn get_user(input: &HandlerInput, response: &mut Response) -> Result<(), GraphError> {\n    \
#[derive(Serialize, Deserialize)]\n    \
struct GetUserData {\n        \
id: String,\n    \
}\n\n    \
let data: GetUserData = match sonic_rs::from_slice(&input.request.body) {\n        \
Ok(data) => data,\n        \
Err(err) => return Err(GraphError::from(err)),\n    \
};\n\n    \
let mut remapping_vals: RefCell<HashMap<String, ResponseRemapping>> = RefCell::new(HashMap::new());\n    \
let db = Arc::clone(&input.graph.storage);\n    \
let txn = db.graph_env.read_txn().unwrap();\n\n    \
let mut return_vals: HashMap<String, ReturnValue> = HashMap::with_capacity(1);\n\n    \
let mut tr = TraversalBuilder::new(Arc::clone(&db), TraversalValue::Empty);\n    \
tr.v_from_id(&txn, &data.id);\n    \
let user = tr.finish()?;\n\n    \
return_vals.insert(\"user\".to_string(), ReturnValue::from_traversal_value_array_with_mixin(user, remapping_vals.borrow_mut()));\n    \
response.body = sonic_rs::to_vec(&return_vals).unwrap();\n\n    \
Ok(())\n\
}\n";
    assert_eq!(printed, expected);
}

#[test]
fn compilation_is_deterministic() {
    let mut first = CodeGenerator::new();
    let mut second = CodeGenerator::new();
    let q = get_user();
    let once = first.generate_query(&q).unwrap();
    let _ = second.generate_query(&users_where(Expression::BooleanLiteral(true))).unwrap();
    let again = second.generate_query(&q).unwrap();
    assert_eq!(once, again);
}

#[test]
fn a_query_that_adds_a_node_commits_last() {
    let q = query(
        "CreateUser",
        vec![],
        vec![Statement::AddNode(AddNode { vertex_type: Some(text("User")), fields: None })],
        vec![Expression::StringLiteral(text("done"))],
    );
    assert_eq!(transaction_mode(&q), TransactionMode::Write);
    let program = plan_of(&q);
    assert!(matches!(program.ops[0], HandlerOp::Begin(TransactionMode::Write)));
    assert_eq!(commits(&program), 1);
    assert!(matches!(program.ops.last(), Some(HandlerOp::Commit)));
    let mut generator = CodeGenerator::new();
    let printed = generator.generate_query(&q).unwrap();
    assert!(printed.contains("let mut txn = db.graph_env.write_txn().unwrap();"));
    assert!(printed.contains("tr.add_v(&mut txn, \"User\", props!{}, None);"));
    assert!(printed.ends_with("    txn.commit()?;\n    Ok(())\n}\n"));
    assert_eq!(printed.matches("txn.commit()").count(), 1);
}

#[test]
fn every_mutating_statement_selects_write_mode() {
    let vector = || Some(VectorData::Vector(vec![text("1.0"), text("2.5")]));
    let edge = || AddEdge {
        edge_type: Some(text("Knows")),
        fields: None,
        connection: EdgeConnection {
            from_id: Some(IdType::Literal(text("a"))),
            to_id: Some(IdType::Literal(text("b"))),
        },
    };
    let writers = vec![
        Statement::AddNode(AddNode { vertex_type: None, fields: None }),
        Statement::AddEdge(edge()),
        Statement::Drop(all_nodes(vec![])),
        Statement::AddVector(AddVector { data: vector() }),
        Statement::BatchAddVector(BatchAddVector { vec_identifier: Some(text("vectors")) }),
        assign("n", Expression::AddNode(AddNode { vertex_type: None, fields: None })),
        assign("e", Expression::AddEdge(edge())),
        assign("v", Expression::AddVector(AddVector { data: vector() })),
        assign(
            "b",
            Expression::BatchAddVector(BatchAddVector { vec_identifier: Some(text("vectors")) }),
        ),
        assign(
            "u",
            all_nodes(vec![Step::Update(Update {
                fields: vec![FieldAddition {
                    name: text("age"),
                    value: FieldValue::Literal(Value::Integer(3)),
                }],
            })]),
        ),
    ];
    for statement in writers {
        let q = one_statement(statement);
        assert_eq!(transaction_mode(&q), TransactionMode::Write, "{:?}", q);
        let program = plan_of(&q);
        assert_eq!(commits(&program), 1);
        assert!(matches!(program.ops.last(), Some(HandlerOp::Commit)));
    }
    let readers = vec![
        assign("u", all_nodes(vec![Step::Count])),
        Statement::SearchVector(SearchVector { data: vector(), k: None }),
    ];
    for statement in readers {
        let q = one_statement(statement);
        assert_eq!(transaction_mode(&q), TransactionMode::Read);
        assert_eq!(commits(&plan_of(&q)), 0);
    }
    assert_eq!(transaction_mode(&query("Empty", vec![], vec![], vec![])), TransactionMode::Read);
}

#[test]
fn a_count_comparison_in_a_condition_tests_the_count() {
    let q = users_where(anonymous(vec![out("Follows"), Step::Count, greater_than(100)]));
    let program = plan_of(&q);
    let ops = statement_ops(&program)[0];
    let predicate = ops
        .iter()
        .find_map(|op| match op {
            Op::Filter(p) => Some(p),
            _ => None,
        })
        .unwrap();
    match predicate {
        Predicate::Count { path, test: Some(test) } => {
            assert_eq!(path.len(), 1);
            match &path[0] {
                Op::Step(Direction::Out, label) => assert_eq!(label, "Follows"),
                other => panic!("unexpected step {:?}", other),
            }
            assert_eq!(test.op, Comparator::GreaterThan);
            assert!(matches!(test.operand, Term::Integer(100)));
        }
        other => panic!("unexpected predicate {:?}", other),
    }
    let mut generator = CodeGenerator::new();
    let printed = generator.generate_query(&q).unwrap();
    assert!(printed.contains("tr.out(&txn, \"Follows\");"));
    assert!(printed.contains("tr.count();\nlet count = tr.finish()?.as_count().unwrap();\ncount > 100}"));
    assert!(!printed.contains("check_property"));
    assert!(!printed.contains("current_prop"));
}

#[test]
fn a_count_in_a_statement_carries_the_comparison_next_to_it() {
    let after = plan_of(&one_statement(assign("n", users(vec![Step::Count, greater_than(5)]))));
    let before = plan_of(&one_statement(assign("n", users(vec![greater_than(5), Step::Count]))));
    for program in [after, before] {
        let ops = statement_ops(&program)[0];
        assert_eq!(ops.len(), 4);
        match &ops[2] {
            Op::Count(Some(test)) => {
                assert_eq!(test.op, Comparator::GreaterThan);
                assert!(matches!(test.operand, Term::Integer(5)));
            }
            other => panic!("unexpected operation {:?}", other),
        }
        assert!(!ops.iter().any(|op| matches!(op, Op::Filter(_))));
    }
    let plain = plan_of(&one_statement(assign("n", users(vec![Step::Count]))));
    assert!(matches!(statement_ops(&plain)[0][2], Op::Count(None)));
}

#[test]
fn a_projected_property_fails_the_request_where_it_is_absent() {
    let projection = Step::Object(Object {
        fields: vec![(
            text("name"),
            FieldValue::Traversal(Box::new(Traversal {
                start: StartNode::Anonymous,
                steps: vec![props("name")],
            })),
        )],
        should_spread: false,
    });
    let q = query(
        "Names",
        vec![],
        vec![assign("users", users(vec![projection]))],
        vec![Expression::Identifier(text("users"))],
    );
    let program = plan_of(&q);
    let ops = statement_ops(&program)[0];
    match &ops[2] {
        Op::Project(projection) => {
            assert_eq!(projection.item, "item");
            assert!(!projection.should_spread);
            assert_eq!(projection.fields.len(), 1);
            assert_eq!(projection.fields[0].key, "name");
            match &projection.fields[0].source {
                FieldSource::Property(name) => assert_eq!(name, "name"),
                other => panic!("unexpected source {:?}", other),
            }
        }
        other => panic!("unexpected operation {:?}", other),
    }
    let mut generator = CodeGenerator::new();
    let printed = generator.generate_query(&q).unwrap();
    let failure = printed.find("return Err(GraphError::ConversionError(").unwrap();
    let response = printed.find("response.body =").unwrap();
    assert!(failure < response);
    assert!(printed.contains("let name = item.check_property(\"name\");"));
}

#[test]
fn projections_resolve_each_kind_of_field() {
    let id_of_friend = FieldValue::Traversal(Box::new(Traversal {
        start: StartNode::Anonymous,
        steps: vec![out("Knows"), props("id")],
    }));
    let friends = FieldValue::Traversal(Box::new(Traversal {
        start: StartNode::Anonymous,
        steps: vec![out("Knows")],
    }));
    let object = Object {
        fields: vec![
            (text("friendId"), id_of_friend),
            (text("friends"), friends),
            (text("age"), FieldValue::Literal(Value::String(text("age")))),
            (text("rest"), FieldValue::Empty),
            (text("nothing"), FieldValue::Expression(Expression::Empty)),
        ],
        should_spread: true,
    };
    let q = one_statement(assign(
        "users",
        users(vec![Step::Closure(Closure { identifier: text("usr"), object })]),
    ));
    let program = plan_of(&q);
    let ops = statement_ops(&program)[0];
    let projection = match &ops[2] {
        Op::Project(projection) => projection,
        other => panic!("unexpected operation {:?}", other),
    };
    assert_eq!(projection.item, "usr");
    assert!(projection.should_spread);
    assert_eq!(projection.fields[0].variable, "friend_id");
    match &projection.fields[0].source {
        FieldSource::Computed { path, replacement } => {
            assert_eq!(*replacement, Replacement::ElementId);
            assert_eq!(path.len(), 1);
        }
        other => panic!("unexpected source {:?}", other),
    }
    match &projection.fields[1].source {
        FieldSource::Computed { path, replacement } => {
            assert_eq!(*replacement, Replacement::Elements);
            assert_eq!(path.len(), 1);
        }
        other => panic!("unexpected source {:?}", other),
    }
    assert!(matches!(&projection.fields[2].source, FieldSource::Property(name) if name == "age"));
    assert!(matches!(projection.fields[3].source, FieldSource::Inherited));
    assert!(matches!(projection.fields[4].source, FieldSource::Empty));
    let mut generator = CodeGenerator::new();
    let printed = generator.generate_query(&q).unwrap();
    assert!(printed.contains("tr.for_each_node(&txn, |usr, txn| {"));
    assert!(printed.contains("let friend_id = tr.finish()?.get_id()?;"));
    assert!(printed.contains(
        "let friend_id_remapping = Remapping::new(false, Some(\"friendId\".to_string()), Some(ReturnValue::from(friend_id)));"
    ));
    assert!(printed.contains("let rest_remapping = Remapping::new(false, None, None);"));
    assert!(printed.contains("(\"friendId\".to_string(), friend_id_remapping),"));
    assert!(printed.contains("]),    true    ),    );    Ok(())});"));
}

#[test]
fn an_exclusion_spreads_and_excludes_the_named_fields() {
    let q = one_statement(assign(
        "users",
        users(vec![Step::Exclude(Exclude { fields: vec![text("password"), text("type")] })]),
    ));
    let program = plan_of(&q);
    match &statement_ops(&program)[0][2] {
        Op::Exclude { item, fields } => {
            assert_eq!(item, "item");
            assert_eq!(fields.len(), 2);
            assert_eq!(fields[0], (text("password"), text("password")));
            assert_eq!(fields[1], (text("type"), text("type")));
        }
        other => panic!("unexpected operation {:?}", other),
    }
    let mut generator = CodeGenerator::new();
    let printed = generator.generate_query(&q).unwrap();
    assert!(printed.contains(
        "let password_remapping = Remapping::new(true, Some(\"password\".to_string()), None);"
    ));
    assert!(printed.contains("let type_remapping = Remapping::new(true, Some(\"type\".to_string()), None);"));
    assert!(printed.contains("]),    true    ),"));
}

#[test]
fn a_drop_deletes_after_evaluating_its_target() {
    let by_traversal = plan_of(&one_statement(Statement::Drop(users(vec![]))));
    let ops = statement_ops(&by_traversal)[0];
    assert_eq!(ops.len(), 3);
    assert!(matches!(ops[0], Op::NewTraversal));
    assert!(matches!(ops[1], Op::NodesByType(_)));
    assert!(matches!(ops[2], Op::Drop));
    let by_name = plan_of(&one_statement(Statement::Drop(Expression::Identifier(text("x")))));
    let ops = statement_ops(&by_name)[0];
    assert_eq!(ops.len(), 3);
    assert!(matches!(ops[1], Op::Drop));
    assert!(matches!(ops[2], Op::Drop));
}

#[test]
fn an_edge_resolves_its_ends() {
    let q = query(
        "Connect",
        vec![],
        vec![
            assign("alice", users(vec![])),
            Statement::AddEdge(AddEdge {
                edge_type: Some(text("Knows")),
                fields: Some(vec![(text("since"), ValueType::Literal(Value::Integer(2020)))]),
                connection: EdgeConnection {
                    from_id: Some(IdType::Identifier(text("alice"))),
                    to_id: Some(IdType::Identifier(text("bob"))),
                },
            }),
        ],
        vec![],
    );
    let mut generator = CodeGenerator::new();
    let printed = generator.generate_query(&q).unwrap();
    assert!(printed.contains(
        "tr.add_e(&mut txn, \"Knows\", &alice.get_id()?, \"bob\", props!{ \"since\".to_string() => 2020 });"
    ));
}

#[test]
fn vector_statements_print_their_source_and_count() {
    let literal = || Some(VectorData::Vector(vec![text("1.0"), text("2.5")]));
    let mut generator = CodeGenerator::new();
    let default_k = generator
        .generate_query(&one_statement(Statement::SearchVector(SearchVector {
            data: literal(),
            k: None,
        })))
        .unwrap();
    assert!(default_k.contains("tr.vector_search(&txn, &[1.0, 2.5], 10);"));
    let literal_k = generator
        .generate_query(&one_statement(Statement::SearchVector(SearchVector {
            data: Some(VectorData::Identifier(text("queryVec"))),
            k: Some(EvaluatesToNumber::Integer(7)),
        })))
        .unwrap();
    assert!(literal_k.contains("tr.vector_search(&txn, &data.query_vec, 7);"));
    let parameter_k = generator
        .generate_query(&one_statement(Statement::SearchVector(SearchVector {
            data: literal(),
            k: Some(EvaluatesToNumber::Identifier(text("k"))),
        })))
        .unwrap();
    assert!(parameter_k.contains("tr.vector_search(&txn, &[1.0, 2.5], data.k as usize);"));
    let insert = generator
        .generate_query(&one_statement(Statement::AddVector(AddVector { data: literal() })))
        .unwrap();
    assert!(insert.contains("tr.insert_vector(&mut txn, &[1.0, 2.5]);"));
    let batch = generator
        .generate_query(&one_statement(Statement::BatchAddVector(BatchAddVector {
            vec_identifier: Some(text("vectors")),
        })))
        .unwrap();
    assert!(batch.contains("for vec in data.vectors {\n        tr.insert_vector(&mut txn, &vec);\n    }\n"));
}

#[test]
fn return_values_become_named_entries() {
    let q = query(
        "Q",
        vec![],
        vec![assign("users", users(vec![]))],
        vec![
            Expression::Identifier(text("users")),
            traversal(StartNode::Variable(text("users")), vec![out("Knows")]),
            Expression::StringLiteral(text("ok")),
            Expression::Empty,
        ],
    );
    let program = plan_of(&q);
    assert!(matches!(program.ops[1], HandlerOp::AllocateResponse(4)));
    let mut generator = CodeGenerator::new();
    let printed = generator.generate_query(&q).unwrap();
    assert!(printed.contains("HashMap::with_capacity(4);"));
    assert!(printed.contains("let return_val = tr.finish()?;"));
    assert!(printed.contains("return_vals.insert(\"message\".to_string(), ReturnValue::from(\"ok\"));"));
    assert!(printed.contains("return_vals.insert(\"message\".to_string(), ReturnValue::Empty);"));
}

#[test]
fn conjunctions_nest_without_changing_their_parts() {
    let a = || anonymous(vec![props("a"), equals(Expression::BooleanLiteral(true))]);
    let b = || anonymous(vec![props("b"), equals(Expression::IntegerLiteral(1))]);
    let c = || anonymous(vec![props("c"), equals(Expression::StringLiteral(text("x")))]);
    let mut generator = CodeGenerator::new();
    let flat = generator
        .generate_query(&users_where(Expression::And(vec![a(), b(), c()])))
        .unwrap();
    let nested = generator
        .generate_query(&users_where(Expression::And(vec![
            Expression::And(vec![a(), b()]),
            c(),
        ])))
        .unwrap();
    let part_a = "node.check_property(\"a\").map_or(false, |v| matches!(v, Value::Boolean(val) if *val == true))";
    let part_b = "node.check_property(\"b\").map_or(false, |v| matches!(v, Value::Integer(val) if *val == 1))";
    let part_c = "node.check_property(\"c\").map_or(false, |v| matches!(v, Value::String(val) if *val == \"x\"))";
    assert!(flat.contains(&format!("Ok({} && {} && {})", part_a, part_b, part_c)));
    assert!(nested.contains(&format!("Ok(({} && {}) && {})", part_a, part_b, part_c)));
}

#[test]
fn every_refusal_names_its_construct() {
    let edge = |from: Option<IdType>| AddEdge {
        edge_type: None,
        fields: None,
        connection: EdgeConnection { from_id: from, to_id: Some(IdType::Literal(text("b"))) },
    };
    let cases: Vec<(Query, CompileError)> = vec![
        (
            query(
                "Q",
                vec![],
                vec![assign("x", all_nodes(vec![])), assign("x", all_nodes(vec![]))],
                vec![],
            ),
            CompileError::Rebinding,
        ),
        (
            query("Q", vec![], vec![], vec![Expression::Identifier(text("missing"))]),
            CompileError::UnboundVariable,
        ),
        (
            one_statement(Statement::AddNode(AddNode {
                vertex_type: None,
                fields: Some(vec![(text("name"), ValueType::Identifier(text("unknown")))]),
            })),
            CompileError::UnknownParameter,
        ),
        (
            one_statement(assign("x", all_nodes(vec![Step::Node(GraphStep::Out(Some(vec![])))]))),
            CompileError::EmptySelector,
        ),
        (
            one_statement(Statement::SearchVector(SearchVector { data: None, k: None })),
            CompileError::MissingVectorData,
        ),
        (one_statement(Statement::AddEdge(edge(None))), CompileError::MissingEndpoint),
        (
            one_statement(Statement::AddNode(AddNode {
                vertex_type: None,
                fields: Some(vec![(text("name"), ValueType::Literal(Value::Empty))]),
            })),
            CompileError::EmptyValue,
        ),
        (
            one_statement(assign("x", Expression::StringLiteral(text("text")))),
            CompileError::UnsupportedExpression,
        ),
        (users_where(Expression::IntegerLiteral(1)), CompileError::UnsupportedCondition),
        (
            users_where(anonymous(vec![
                props("age"),
                Step::BooleanOperation(BooleanOp::GreaterThan(Box::new(
                    Expression::BooleanLiteral(true),
                ))),
            ])),
            CompileError::UnsupportedOperand,
        ),
        (
            one_statement(assign(
                "x",
                all_nodes(vec![Step::Range((
                    Expression::StringLiteral(text("a")),
                    Expression::IntegerLiteral(1),
                ))]),
            )),
            CompileError::UnsupportedRange,
        ),
        (
            one_statement(assign(
                "x",
                all_nodes(vec![Step::Update(Update {
                    fields: vec![FieldAddition {
                        name: text("age"),
                        value: FieldValue::Expression(Expression::IntegerLiteral(1)),
                    }],
                })]),
            )),
            CompileError::UnsupportedProperty,
        ),
        (
            one_statement(assign(
                "x",
                all_nodes(vec![Step::Object(Object {
                    fields: vec![(text("age"), FieldValue::Literal(Value::Integer(1)))],
                    should_spread: false,
                })]),
            )),
            CompileError::UnsupportedProjection,
        ),
        (
            query("Q", vec![], vec![], vec![Expression::IntegerLiteral(1)]),
            CompileError::UnsupportedReturn,
        ),
        (
            users_where(anonymous(vec![Step::Object(Object {
                fields: vec![],
                should_spread: false,
            })])),
            CompileError::EmptyProjection,
        ),
        (
            one_statement(assign("x", all_nodes(vec![greater_than(1)]))),
            CompileError::ComparisonWithoutContext,
        ),
        (users_where(anonymous(vec![out("Knows")])), CompileError::ConditionWithoutTest),
        (
            users_where(anonymous(vec![Step::Count, greater_than(1), out("Knows")])),
            CompileError::StepsAfterTest,
        ),
        (
            users_where(users(vec![Step::Count])),
            CompileError::UnsupportedStart,
        ),
    ];
    for (q, expected) in cases {
        assert_eq!(error_of(&q), expected, "{:?}", q);
        assert!(!expected.message().is_empty());
        let mut generator = CodeGenerator::new();
        assert_eq!(generator.generate_query(&q).unwrap_err(), expected);
    }
}

#[test]
fn a_program_prints_schemas_before_handlers() {
    let source = Source {
        node_schemas: vec![NodeSchema {
            name: text("User"),
            fields: vec![
                Field { name: text("userName"), field_type: FieldType::String },
                Field {
                    name: text("scores"),
                    field_type: FieldType::Array(Box::new(FieldType::Float)),
                },
            ],
        }],
        edge_schemas: vec![EdgeSchema {
            name: text("Knows"),
            from: text("User"),
            to: text("User"),
            properties: None,
        }],
        queries: vec![query("Ping", vec![], vec![], vec![])],
    };
    let mut generator = CodeGenerator::new();
    let printed = generator.generate_source(&source).unwrap();
    let expected_start = "// Node Schema: User\n#[derive(Serialize, Deserialize)]\nstruct User {\n    user_name: String,\n    scores: Vec<f64>,\n}\n\n// Edge Schema: Knows\n#[derive(Serialize, Deserialize)]\nstruct Knows {\n}\n\n#[handler]\npub fn ping(";
    assert!(printed.starts_with(expected_start), "{}", printed);
    assert!(printed.ends_with("    Ok(())\n}\n\n"));
    assert!(generator.generate_headers().starts_with("use std::collections::{HashMap, HashSet};\n"));
    let broken = Source {
        node_schemas: vec![],
        edge_schemas: vec![],
        queries: vec![
            query("Ping", vec![], vec![], vec![]),
            one_statement(Statement::SearchVector(SearchVector { data: None, k: None })),
        ],
    };
    assert_eq!(generator.generate_source(&broken).unwrap_err(), CompileError::MissingVectorData);
}

#[test]
fn the_generator_remembers_the_variables_of_the_last_query() {
    let mut generator = CodeGenerator::new();
    let name = Expression::Identifier(text("users"));
    assert_eq!(generator.expression_to_return_value(&name), "\"users\"");
    generator.generate_query(&users_where(Expression::BooleanLiteral(true))).unwrap();
    assert_eq!(generator.expression_to_return_value(&name), "users");
    assert_eq!(generator.expression_to_return_value(&all_nodes(vec![])), "tr.finish()?");
    assert_eq!(generator.expression_to_return_value(&Expression::IntegerLiteral(1)), "");
    assert_eq!(generator.expression_to_value(&name), "&users");
    assert_eq!(generator.expression_to_value(&Expression::Identifier(text("other"))), "\"other\"");
    assert_eq!(generator.expression_to_value(&Expression::StringLiteral(text("s"))), "\"s\"");
    assert_eq!(generator.expression_to_value(&Expression::IntegerLiteral(-7)), "-7");
    assert_eq!(generator.expression_to_value(&Expression::FloatLiteral(text("1.5"))), "1.5");
    assert_eq!(generator.expression_to_value(&Expression::BooleanLiteral(false)), "false");
    assert_eq!(generator.expression_to_value(&Expression::Empty), "");
}

#[test]
fn a_traversal_that_ends_in_a_projection_is_recognised() {
    let ends = Traversal { start: StartNode::Anonymous, steps: vec![out("Knows"), props("id")] };
    let goes_on = Traversal { start: StartNode::Anonymous, steps: vec![props("id"), out("Knows")] };
    let empty = Traversal { start: StartNode::Anonymous, steps: vec![] };
    assert!(tr_is_object_remapping(&ends));
    assert!(!tr_is_object_remapping(&goes_on));
    assert!(!tr_is_object_remapping(&empty));
}
