use helixdb::protocol::count::Count;
use helixdb::protocol::filterable::{Filterable, FilterableType};
use helixdb::protocol::items::{Edge, Node, Vector};
use helixdb::protocol::remapping::{Remapping, RemappingRegistry, ResponseRemapping};
use helixdb::protocol::return_values::{empty, from_count, ReturnValue};
use helixdb::protocol::traversal_value::TraversalValue;
use helixdb::protocol::value::Value;

fn text(s: &str) -> String {
    s.to_string()
}

fn string(s: &str) -> ReturnValue {
    ReturnValue::Value(Value::String(text(s)))
}

fn integer(i: i32) -> ReturnValue {
    ReturnValue::Value(Value::Integer(i))
}

fn object(fields: Vec<(&str, ReturnValue)>) -> ReturnValue {
    ReturnValue::Object(fields.into_iter().map(|(k, v)| (text(k), v)).collect())
}

/// The fields of an object, sorted by name, each printed.
fn content(value: &ReturnValue) -> Vec<(String, String)> {
    match value {
        ReturnValue::Object(fields) => {
            let mut names: Vec<&String> = fields.iter().map(|(k, _)| k).collect();
            names.sort();
            names.dedup();
            names
                .into_iter()
                .map(|k| (k.clone(), format!("{:?}", value.get(k).unwrap())))
                .collect()
        }
        other => panic!("no object: {:?}", other),
    }
}

fn expected(fields: Vec<(&str, ReturnValue)>) -> Vec<(String, String)> {
    let mut fields: Vec<(String, String)> =
        fields.into_iter().map(|(k, v)| (text(k), format!("{:?}", v))).collect();
    fields.sort();
    fields
}

fn exclude(field: &str) -> (String, Remapping) {
    (text(field), Remapping::new(true, None, None))
}

fn rename(field: &str, new_name: &str) -> (String, Remapping) {
    (text(field), Remapping::new(false, Some(text(new_name)), None))
}

fn replace(field: &str, value: ReturnValue) -> (String, Remapping) {
    (text(field), Remapping::new(false, None, Some(value)))
}

fn person() -> ReturnValue {
    object(vec![("id", string("1")), ("name", string("Ada")), ("age", integer(36))])
}

fn node(id: &str, properties: Vec<(&str, Value)>) -> Node {
    Node {
        id: text(id),
        label: text("User"),
        properties: properties.into_iter().map(|(k, v)| (text(k), v)).collect(),
    }
}

#[test]
fn an_exclusion_removes_the_field() {
    let result = person().mixin_remapping(&vec![exclude("age"), exclude("missing")]);
    assert_eq!(content(&result), expected(vec![("id", string("1")), ("name", string("Ada"))]));
}

#[test]
fn a_new_name_moves_the_value() {
    let result = person().mixin_remapping(&vec![rename("name", "called")]);
    assert_eq!(
        content(&result),
        expected(vec![("id", string("1")), ("called", string("Ada")), ("age", integer(36))])
    );
}

#[test]
fn a_new_name_for_an_absent_field_changes_nothing() {
    let result = person().mixin_remapping(&vec![rename("missing", "called")]);
    assert_eq!(content(&result), content(&person()));
}

#[test]
fn a_replacement_is_stored_under_the_field() {
    let result =
        person().mixin_remapping(&vec![replace("age", integer(37)), replace("city", string("X"))]);
    assert_eq!(
        content(&result),
        expected(vec![
            ("id", string("1")),
            ("name", string("Ada")),
            ("age", integer(37)),
            ("city", string("X")),
        ])
    );
}

#[test]
fn a_remapping_without_replacement_keeps_the_field() {
    let keep = (text("name"), Remapping::new(false, None, None));
    let result = person().mixin_remapping(&vec![keep]);
    assert_eq!(content(&result), content(&person()));
}

#[test]
fn remappings_apply_in_the_order_of_the_table() {
    let moved_then_dropped =
        person().mixin_remapping(&vec![rename("name", "called"), exclude("called")]);
    assert_eq!(
        content(&moved_then_dropped),
        expected(vec![("id", string("1")), ("age", integer(36))])
    );
    let dropped_then_moved =
        person().mixin_remapping(&vec![exclude("called"), rename("name", "called")]);
    assert_eq!(
        content(&dropped_then_moved),
        expected(vec![("id", string("1")), ("called", string("Ada")), ("age", integer(36))])
    );
}

#[test]
fn excluding_twice_is_excluding_once() {
    let table = vec![exclude("age"), exclude("name"), exclude("age")];
    let once = person().mixin_remapping(&table);
    let twice = person().mixin_remapping(&table).mixin_remapping(&table);
    assert_eq!(content(&once), expected(vec![("id", string("1"))]));
    assert_eq!(content(&twice), content(&once));
}

#[test]
fn a_value_that_is_no_object_is_handed_back() {
    assert!(matches!(ReturnValue::Empty.remap(&vec![exclude("age")]), ReturnValue::Empty));
    let remapped = person().remap(&vec![exclude("age")]);
    assert_eq!(content(&remapped), expected(vec![("id", string("1")), ("name", string("Ada"))]));
}

#[test]
fn the_last_field_under_a_name_counts() {
    let doubled = object(vec![("a", integer(1)), ("b", integer(2)), ("a", integer(3))]);
    assert_eq!(format!("{:?}", doubled.get(&text("a")).unwrap()), format!("{:?}", integer(3)));
    assert!(doubled.get(&text("c")).is_none());
    assert!(ReturnValue::Empty.get(&text("a")).is_none());
    let without = doubled.mixin_remapping(&vec![exclude("a")]);
    assert_eq!(content(&without), expected(vec![("b", integer(2))]));
}

#[test]
fn a_node_becomes_an_object_of_id_label_and_properties() {
    let ada = node("7", vec![("name", Value::String(text("Ada"))), ("age", Value::Integer(36))]);
    assert_eq!(ada.kind(), FilterableType::Node);
    assert_eq!(
        content(&ReturnValue::from_item(&ada)),
        expected(vec![
            ("id", string("7")),
            ("label", string("User")),
            ("name", string("Ada")),
            ("age", integer(36)),
        ])
    );
}

#[test]
fn a_stored_property_takes_precedence_over_id_and_label() {
    let odd = node("7", vec![("label", Value::String(text("Shadow")))]);
    assert_eq!(
        content(&ReturnValue::from_item(&odd)),
        expected(vec![("id", string("7")), ("label", string("Shadow"))])
    );
}

#[test]
fn an_edge_adds_its_end_points() {
    let knows = Edge {
        id: text("e1"),
        label: text("Knows"),
        from_node: text("1"),
        to_node: text("2"),
        properties: vec![(text("since"), Value::Integer(2020))],
    };
    assert_eq!(
        content(&ReturnValue::from_item(&knows)),
        expected(vec![
            ("from_node", string("1")),
            ("to_node", string("2")),
            ("id", string("e1")),
            ("label", string("Knows")),
            ("since", integer(2020)),
        ])
    );
}

#[test]
fn a_vector_needs_its_data() {
    let data = Value::Array(vec![Value::Float(text("0.5")), Value::Float(text("1.5"))]);
    let with = Vector {
        id: text("v1"),
        label: text("vector"),
        properties: vec![(text("data"), data.clone())],
    };
    assert_eq!(
        content(&ReturnValue::from_item(&with)),
        expected(vec![
            ("data", ReturnValue::Value(data)),
            ("id", string("v1")),
            ("label", string("vector")),
        ])
    );
    let without = Vector { id: text("v2"), label: text("vector"), properties: vec![] };
    assert!(matches!(ReturnValue::from_item(&without), ReturnValue::Empty));
}

fn registry() -> RemappingRegistry {
    let mut registry = RemappingRegistry::new();
    registry.insert(text("1"), ResponseRemapping::new(vec![exclude("age")], true));
    registry.insert(text("2"), ResponseRemapping::new(vec![replace("name", string("Bob"))], false));
    registry
}

fn people() -> Vec<Node> {
    vec![
        node("3", vec![("age", Value::Integer(3))]),
        node("1", vec![("age", Value::Integer(1))]),
        node("2", vec![("age", Value::Integer(2))]),
        node("1", vec![("age", Value::Integer(11)), ("name", Value::String(text("Ada")))]),
    ]
}

fn check_people(result: &ReturnValue) {
    let items = match result {
        ReturnValue::Array(items) => items,
        other => panic!("no array: {:?}", other),
    };
    assert_eq!(items.len(), 4);
    assert_eq!(
        content(&items[0]),
        expected(vec![("id", string("3")), ("label", string("User")), ("age", integer(3))])
    );
    assert_eq!(content(&items[1]), expected(vec![("id", string("1")), ("label", string("User"))]));
    assert_eq!(content(&items[2]), expected(vec![("name", string("Bob"))]));
    assert_eq!(
        content(&items[3]),
        expected(vec![("id", string("1")), ("label", string("User")), ("name", string("Ada"))])
    );
}

#[test]
fn items_keep_their_order_and_number() {
    check_people(&ReturnValue::process_items_with_mixin(people(), &registry()));
    let none: Vec<Node> = vec![];
    match ReturnValue::process_items_with_mixin(none, &registry()) {
        ReturnValue::Array(items) => assert!(items.is_empty()),
        other => panic!("no array: {:?}", other),
    }
}

#[test]
fn the_last_registration_of_an_id_counts() {
    let mut twice = registry();
    twice.insert(text("1"), ResponseRemapping::new(vec![], false));
    assert!(!twice.get(&text("1")).unwrap().should_spread);
    assert!(twice.get(&text("2")).is_some());
    assert!(twice.get(&text("3")).is_none());
    match ReturnValue::process_items_with_mixin(people(), &twice) {
        ReturnValue::Array(items) => assert_eq!(content(&items[1]), expected(vec![])),
        other => panic!("no array: {:?}", other),
    }
}

#[test]
fn a_vector_without_data_stays_empty_under_a_registry() {
    let vectors = vec![Vector { id: text("1"), label: text("vector"), properties: vec![] }];
    match ReturnValue::process_items_with_mixin(vectors, &registry()) {
        ReturnValue::Array(items) => {
            assert_eq!(items.len(), 1);
            assert!(matches!(items[0], ReturnValue::Empty));
        }
        other => panic!("no array: {:?}", other),
    }
}

#[test]
fn a_traversal_value_is_converted_by_its_shape() {
    let nodes = TraversalValue::NodeArray(people());
    check_people(&ReturnValue::from_traversal_value_array_with_mixin(nodes, &registry()));
    let edges = TraversalValue::EdgeArray(vec![]);
    assert!(matches!(
        ReturnValue::from_traversal_value_array_with_mixin(edges, &registry()),
        ReturnValue::Array(items) if items.is_empty()
    ));
    let vectors = TraversalValue::VectorArray(vec![]);
    assert!(matches!(
        ReturnValue::from_traversal_value_array_with_mixin(vectors, &registry()),
        ReturnValue::Array(items) if items.is_empty()
    ));
    let count = TraversalValue::Count(Count::new(42));
    assert!(matches!(
        ReturnValue::from_traversal_value_array_with_mixin(count, &registry()),
        ReturnValue::Value(Value::Integer(42))
    ));
    let values = TraversalValue::ValueArray(vec![Value::Integer(1), Value::Integer(2)]);
    assert!(matches!(
        ReturnValue::from_traversal_value_array_with_mixin(values, &registry()),
        ReturnValue::Empty
    ));
    assert!(matches!(
        ReturnValue::from_traversal_value_array_with_mixin(TraversalValue::Empty, &registry()),
        ReturnValue::Empty
    ));
}

#[test]
fn a_count_becomes_an_integer() {
    assert!(matches!(from_count(Count::new(0)), ReturnValue::Value(Value::Integer(0))));
    assert!(matches!(
        from_count(Count::new(2147483647)),
        ReturnValue::Value(Value::Integer(2147483647))
    ));
    assert!(matches!(ReturnValue::from(Count::new(5)), ReturnValue::Value(Value::Integer(5))));
    assert_eq!(Count::new(9).value(), 9);
}

#[test]
fn scalars_become_values() {
    assert!(matches!(ReturnValue::from(true), ReturnValue::Value(Value::Boolean(true))));
    assert!(matches!(ReturnValue::from(-4), ReturnValue::Value(Value::Integer(-4))));
    assert!(matches!(ReturnValue::from(text("x")), ReturnValue::Value(Value::String(s)) if s == "x"));
    assert!(matches!(
        ReturnValue::from(Value::Float(text("1.5"))),
        ReturnValue::Value(Value::Float(s)) if s == "1.5"
    ));
}

#[test]
fn the_default_value_is_the_empty_object() {
    assert_eq!(content(&ReturnValue::default()), expected(vec![]));
    assert_eq!(content(&empty()), expected(vec![]));
}

#[test]
fn properties_become_an_object() {
    let value = ReturnValue::from_properties(vec![
        (text("a"), Value::Integer(1)),
        (text("b"), Value::Boolean(false)),
    ]);
    assert_eq!(
        content(&value),
        expected(vec![("a", integer(1)), ("b", ReturnValue::Value(Value::Boolean(false)))])
    );
}

#[test]
fn the_fields_of_the_second_object_take_precedence() {
    let merged = person().mixin(object(vec![("age", integer(40)), ("city", string("X"))]));
    assert_eq!(
        content(&merged),
        expected(vec![
            ("id", string("1")),
            ("name", string("Ada")),
            ("age", integer(40)),
            ("city", string("X")),
        ])
    );
}

#[test]
fn mixin_other_starts_from_the_element_where_the_remapping_does_not_spread() {
    let ada = || node("7", vec![("age", Value::Integer(36))]);
    let full = ReturnValue::Empty
        .mixin_other(ada(), ResponseRemapping::new(vec![exclude("age")], false));
    assert_eq!(content(&full), expected(vec![("id", string("7")), ("label", string("User"))]));
    let bare = ReturnValue::Empty
        .mixin_other(ada(), ResponseRemapping::new(vec![replace("x", integer(1))], true));
    assert_eq!(content(&bare), expected(vec![("x", integer(1))]));
}

#[test]
fn objects_are_equal_whatever_the_order_of_their_fields() {
    let one = object(vec![("a", integer(1)), ("b", ReturnValue::Array(vec![string("x")]))]);
    let other = object(vec![("b", ReturnValue::Array(vec![string("x")])), ("a", integer(1))]);
    let shadowed = object(vec![
        ("a", integer(9)),
        ("b", ReturnValue::Array(vec![string("x")])),
        ("a", integer(1)),
    ]);
    assert_eq!(one, other);
    assert_eq!(one, shadowed);
    assert!(one.equals(&other));
    assert_ne!(one, object(vec![("a", integer(1))]));
    assert_ne!(object(vec![("a", integer(1))]), one);
    assert_ne!(one, object(vec![("a", integer(2)), ("b", ReturnValue::Array(vec![string("x")]))]));
    assert_ne!(ReturnValue::Array(vec![integer(1), integer(2)]), ReturnValue::Array(vec![integer(2), integer(1)]));
    assert_ne!(ReturnValue::Array(vec![]), ReturnValue::Empty);
    assert_eq!(ReturnValue::Empty, ReturnValue::Empty);
    assert_eq!(Value::Array(vec![Value::Integer(1)]), Value::Array(vec![Value::Integer(1)]));
    assert_ne!(Value::Integer(1), Value::Float(text("1")));
    assert_ne!(Value::Array(vec![]), Value::Empty);
}

#[test]
fn a_copy_has_the_same_content() {
    let nested = object(vec![
        ("list", ReturnValue::Array(vec![integer(1), person(), ReturnValue::Empty])),
        ("value", ReturnValue::Value(Value::Array(vec![Value::Empty, Value::Boolean(true)]))),
    ]);
    assert_eq!(format!("{:?}", nested.duplicate()), format!("{:?}", nested));
    assert_eq!(nested.clone(), nested);
    let value = Value::Array(vec![Value::String(text("a")), Value::Float(text("2.0"))]);
    assert_eq!(format!("{:?}", value.clone()), format!("{:?}", value));
}
