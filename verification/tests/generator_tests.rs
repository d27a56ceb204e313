use helixdb::helixc::generator::generator::CodeGenerator;
use helixdb::helixc::generator::naming::to_snake_case;
use helixdb::helixc::parser::helix_parser::{
    AddNode, Assignment, BooleanOp, Expression, FieldType, FieldValue, GraphStep, Object,
    Parameter, Query, Source, StartNode, Statement, Step, Traversal, ValueType,
};
use helixdb::protocol::value::Value;

fn text(s: &str) -> String {
    s.to_string()
}

fn parameter(name: &str, param_type: FieldType) -> Parameter {
    Parameter { name: text(name), param_type }
}

fn source_of(query: Query) -> Source {
    Source { node_schemas: vec![], edge_schemas: vec![], queries: vec![query] }
}

fn nodes_of_type(label: &str, steps: Vec<Step>) -> Expression {
    Expression::Traversal(Box::new(Traversal {
        start: StartNode::Node { types: Some(vec![text(label)]), ids: None },
        steps,
    }))
}

fn anonymous(steps: Vec<Step>) -> Expression {
    Expression::Traversal(Box::new(Traversal { start: StartNode::Anonymous, steps }))
}

fn props(name: &str) -> Step {
    Step::Object(Object {
        fields: vec![(text(name), FieldValue::Literal(Value::String(text(name))))],
        should_spread: false,
    })
}

fn where_step(condition: Expression) -> Step {
    Step::Where(Box::new(condition))
}

fn users_query(name: &str, parameters: Vec<Parameter>, steps: Vec<Step>) -> Source {
    source_of(Query {
        name: text(name),
        parameters,
        statements: vec![Statement::Assignment(Assignment {
            variable: text("users"),
            value: nodes_of_type("User", steps),
        })],
        return_values: vec![Expression::Identifier(text("users"))],
    })
}

fn equals(e: Expression) -> Step {
    Step::BooleanOperation(BooleanOp::Equal(Box::new(e)))
}

fn greater_than(e: Expression) -> Step {
    Step::BooleanOperation(BooleanOp::GreaterThan(Box::new(e)))
}

#[test]
fn test_basic_query_generation() {
    // QUERY GetUser(id: String) => user <- V("id") RETURN user
    let source = source_of(Query {
        name: text("GetUser"),
        parameters: vec![parameter("id", FieldType::String)],
        statements: vec![Statement::Assignment(Assignment {
            variable: text("user"),
            value: Expression::Traversal(Box::new(Traversal {
                start: StartNode::Node { types: None, ids: Some(vec![text("id")]) },
                steps: vec![],
            })),
        })],
        return_values: vec![Expression::Identifier(text("user"))],
    });
    let mut generator = CodeGenerator::new();
    let output = generator.generate_source(&source).unwrap();
    println!("{}", output);
    assert!(output.contains("pub fn get_user"));
    assert!(output.contains("struct GetUserData"));
    assert!(output.contains("id: String"));
}

#[test]
fn test_add_vertex_generation() {
    // QUERY CreateUser(name: String, age: Integer) =>
    //     user <- AddV<User>({Name: "name", Age: "age"}) RETURN user
    let source = source_of(Query {
        name: text("CreateUser"),
        parameters: vec![
            parameter("name", FieldType::String),
            parameter("age", FieldType::Integer),
        ],
        statements: vec![Statement::Assignment(Assignment {
            variable: text("user"),
            value: Expression::AddNode(AddNode {
                vertex_type: Some(text("User")),
                fields: Some(vec![
                    (text("Name"), ValueType::Literal(Value::String(text("name")))),
                    (text("Age"), ValueType::Literal(Value::String(text("age")))),
                ]),
            }),
        })],
        return_values: vec![Expression::Identifier(text("user"))],
    });
    let mut generator = CodeGenerator::new();
    let output = generator.generate_source(&source).unwrap();

    assert!(output.contains("tr.add_v"));
    assert!(output.contains("props!"));
    assert!(output.contains("Name"));
    assert!(output.contains("Age"));
}

#[test]
fn test_where_simple_condition() {
    // users <- V<User>::WHERE(_::Props(is_enabled)::EQ(true))
    let source = users_query(
        "FindActiveUsers",
        vec![],
        vec![where_step(anonymous(vec![
            props("is_enabled"),
            equals(Expression::BooleanLiteral(true)),
        ]))],
    );
    let mut generator = CodeGenerator::new();
    let generated = generator.generate_source(&source).unwrap();
    println!("Generated code:\n{}", generated);
    assert!(generated.contains("tr.filter_nodes"));
    assert!(generated.contains("is_enabled"));
    assert!(generated.contains("=="));
}

#[test]
fn test_where_exists_condition() {
    // users <- V<User>::WHERE(EXISTS(_::OutE<Authored>))
    let source = users_query(
        "FindUsersWithPosts",
        vec![],
        vec![where_step(Expression::Exists(Box::new(Traversal {
            start: StartNode::Anonymous,
            steps: vec![Step::Node(GraphStep::OutE(Some(vec![text("Authored")])))],
        })))],
    );
    println!("Source:\n{:?}", source);
    let mut generator = CodeGenerator::new();
    let generated = generator.generate_source(&source).unwrap();
    println!("Generated code:\n{}", generated);

    assert!(generated.contains("tr.filter_nodes"));
    assert!(generated.contains("out_e"));
    assert!(generated.contains("count"));
    assert!(generated.contains("count > 0"));
}

#[test]
fn test_where_and_condition() {
    let source = users_query(
        "FindVerifiedActiveUsers",
        vec![],
        vec![where_step(Expression::And(vec![
            anonymous(vec![props("verified"), equals(Expression::BooleanLiteral(true))]),
            anonymous(vec![props("is_enabled"), equals(Expression::BooleanLiteral(true))]),
        ]))],
    );
    println!("Source:\n{:?}", source);
    let mut generator = CodeGenerator::new();
    let generated = generator.generate_source(&source).unwrap();
    println!("Generated code:\n{}", generated);
    assert!(generated.contains("tr.filter_nodes"));
    assert!(generated.contains("&&"));
    assert!(generated.contains("verified"));
    assert!(generated.contains("is_enabled"));
}

#[test]
fn test_where_or_condition() {
    let source = users_query(
        "FindSpecialUsers",
        vec![],
        vec![where_step(Expression::Or(vec![
            anonymous(vec![props("verified"), equals(Expression::BooleanLiteral(true))]),
            anonymous(vec![
                props("followers_count"),
                greater_than(Expression::IntegerLiteral(1000)),
            ]),
        ]))],
    );
    let mut generator = CodeGenerator::new();
    let generated = generator.generate_source(&source).unwrap();

    assert!(generated.contains("tr.filter_nodes"));
    assert!(generated.contains("||"));
    assert!(generated.contains("verified"));
    assert!(generated.contains("followers_count"));
}

#[test]
fn test_where_complex_traversal() {
    // V<User>::WHERE(_::Out<Follows>::COUNT::GT(100))::WHERE(_::In<Follows>::COUNT::GT(1000))
    let source = users_query(
        "FindInfluentialUsers",
        vec![],
        vec![
            where_step(anonymous(vec![
                Step::Node(GraphStep::Out(Some(vec![text("Follows")]))),
                Step::Count,
                greater_than(Expression::IntegerLiteral(100)),
            ])),
            where_step(anonymous(vec![
                Step::Node(GraphStep::In(Some(vec![text("Follows")]))),
                Step::Count,
                greater_than(Expression::IntegerLiteral(1000)),
            ])),
        ],
    );
    let mut generator = CodeGenerator::new();
    let generated = generator.generate_source(&source).unwrap();
    println!("Generated code:\n{}", generated);

    assert!(generated.contains("tr.filter_nodes"));
    assert!(generated.contains("out"));
    assert!(generated.contains("in_"));
    assert!(generated.contains("count"));
    assert!(generated.contains(">"));
}

#[test]
fn test_where_with_nested_conditions() {
    let source = users_query(
        "FindComplexUsers",
        vec![],
        vec![where_step(Expression::And(vec![
            Expression::Or(vec![
                anonymous(vec![props("verified"), equals(Expression::BooleanLiteral(true))]),
                anonymous(vec![
                    props("followers_count"),
                    greater_than(Expression::IntegerLiteral(5000)),
                ]),
            ]),
            anonymous(vec![
                Step::Node(GraphStep::Out(Some(vec![text("Authored")]))),
                Step::Count,
                greater_than(Expression::IntegerLiteral(10)),
            ]),
        ]))],
    );
    let mut generator = CodeGenerator::new();
    println!("Source:\n{:?}", source);
    let generated = generator.generate_source(&source).unwrap();
    println!("Generated code:\n{}", generated);
    assert!(generated.contains("tr.filter_nodes"));
    assert!(generated.contains("&&"));
    assert!(generated.contains("||"));
    assert!(generated.contains("verified"));
    assert!(generated.contains("followers_count"));
    assert!(generated.contains("out"));
    assert!(generated.contains("count"));
}

#[test]
fn test_boolean_operations() {
    let source = users_query(
        "FindUsersWithSpecificProperty",
        vec![parameter("property_name", FieldType::String), parameter("value", FieldType::String)],
        vec![where_step(anonymous(vec![
            props("property_name"),
            equals(Expression::Identifier(text("value"))),
        ]))],
    );
    let mut generator = CodeGenerator::new();
    let generated = generator.generate_source(&source).unwrap();
    println!("Generated code:\n{}", generated);

    assert!(generated.contains("tr.filter_nodes"));
    assert!(generated.contains("property_name"));
    assert!(generated.contains("=="));
    assert!(generated.contains("value"));
    assert!(generated.contains("node.check_property"));
}

#[test]
fn test_boolean_operations_with_multiple_properties() {
    let source = users_query(
        "FindUsersWithSpecificProperties",
        vec![
            parameter("property1", FieldType::String),
            parameter("value1", FieldType::String),
            parameter("property2", FieldType::String),
            parameter("value2", FieldType::String),
            parameter("property3", FieldType::String),
            parameter("value3", FieldType::String),
        ],
        vec![where_step(Expression::And(vec![
            anonymous(vec![props("property1"), equals(Expression::Identifier(text("value1")))]),
            anonymous(vec![props("property2"), equals(Expression::Identifier(text("value2")))]),
            anonymous(vec![props("property3"), equals(Expression::Identifier(text("value3")))]),
        ]))],
    );
    let mut generator = CodeGenerator::new();
    let generated = generator.generate_source(&source).unwrap();
    println!("Generated code:\n{}", generated);

    assert!(generated.contains("tr.filter_nodes"));
    assert!(generated.contains("&&"));
    assert!(generated.contains("property1"));
    assert!(generated.contains("property2"));
    assert!(generated.contains("property3"));
    assert!(generated.contains("value1"));
    assert!(generated.contains("value2"));
    assert!(generated.contains("value3"));
}

#[test]
fn test_to_snake_case() {
    assert_eq!(to_snake_case("camelCase"), "camel_case");
    assert_eq!(to_snake_case("UserIDs"), "user_ids");
    assert_eq!(to_snake_case("SimpleXMLParser"), "simple_xml_parser");
    assert_eq!(to_snake_case("type"), "type_");
    assert_eq!(to_snake_case("ID"), "id");
    assert_eq!(to_snake_case("UserID"), "user_id");
    assert_eq!(to_snake_case("XMLHttpRequest"), "xml_http_request");
    assert_eq!(to_snake_case("iOS"), "i_os");
}
