//! The text of a handler plan: what the backend prints for each operation.
//!
//! Every function here is the definition of a piece of output. Keys, labels
//! and literals are printed as they stand; nothing in them is escaped.

use crate::helixc::generator::naming::{snake_case};
use crate::helixc::generator::plan::{
    Comparator, ComparisonModel, Direction, FieldSourceModel, HandlerOpModel, HandlerProgramModel,
    InputFieldModel, OpModel, PredicateModel, ProjectedFieldModel, ProjectionModel, Replacement,
    ReturnEntryModel, TermModel, TransactionMode,
};
use crate::text::{boolean_text, decimal_text, integer_text, joined, quoted};
use vstd::prelude::*;

verus! {

/// The indentation of a handler's body.
pub open spec fn body_indent() -> Seq<char> {
    "    "@
}

/// The texts of `items`, in order.
pub open spec fn term_texts(items: Seq<TermModel>) -> Seq<Seq<char>>
    decreases items,
{
    Seq::new(
        items.len(),
        |i: int|
            if 0 <= i < items.len() {
                term_text(items[i])
            } else {
                Seq::empty()
            },
    )
}

/// A term as an expression of the handler's language.
pub open spec fn term_text(t: TermModel) -> Seq<char>
    decreases t,
{
    match t {
        TermModel::String(s) => quoted(s),
        TermModel::Integer(i) => integer_text(i as int),
        TermModel::Unsigned(n) => decimal_text(n as nat),
        TermModel::Float(f) => f,
        TermModel::Boolean(b) => boolean_text(b),
        TermModel::Array(items) => "vec!["@ + joined(term_texts(items), ", "@, items.len()) + "]"@,
        TermModel::Parameter(p) => "data."@ + p,
        TermModel::Binding(b) => b,
        TermModel::Name(n) => n,
    }
}

/// The argument that selects an element by id: an input field is borrowed.
pub open spec fn id_argument_text(t: TermModel) -> Seq<char> {
    match t {
        TermModel::Parameter(p) => "&data."@ + p,
        _ => term_text(t),
    }
}

/// An end of a new edge: a bound variable gives its identity.
pub open spec fn endpoint_text(t: TermModel) -> Seq<char> {
    match t {
        TermModel::Binding(b) => "&"@ + b + ".get_id()?"@,
        _ => term_text(t),
    }
}

/// A vector argument, borrowed: a literal one is a slice of its components.
pub open spec fn vector_text(t: TermModel) -> Seq<char> {
    match t {
        TermModel::Array(items) => "&["@ + joined(term_texts(items), ", "@, items.len()) + "]"@,
        _ => "&"@ + term_text(t),
    }
}

/// The number of neighbours: an input field is coerced to an unsigned count.
pub open spec fn neighbours_text(t: TermModel) -> Seq<char> {
    match t {
        TermModel::Parameter(p) => "data."@ + p + " as usize"@,
        _ => term_text(t),
    }
}

/// One property of a property map.
pub open spec fn property_text(p: (Seq<char>, TermModel)) -> Seq<char> {
    quoted(p.0) + ".to_string() => "@ + term_text(p.1)
}

pub open spec fn property_texts(properties: Seq<(Seq<char>, TermModel)>) -> Seq<Seq<char>> {
    Seq::new(properties.len(), |i: int| property_text(properties[i]))
}

/// A property map.
pub open spec fn properties_text(properties: Seq<(Seq<char>, TermModel)>) -> Seq<char> {
    if properties.len() == 0 {
        "props!{}"@
    } else {
        "props!{ "@ + joined(property_texts(properties), ", "@, properties.len()) + " }"@
    }
}

pub open spec fn quoted_texts(names: Seq<Seq<char>>) -> Seq<Seq<char>> {
    Seq::new(names.len(), |i: int| quoted(names[i]))
}

pub open spec fn comparator_text(c: Comparator) -> Seq<char> {
    match c {
        Comparator::Equal => "=="@,
        Comparator::NotEqual => "!="@,
        Comparator::GreaterThan => ">"@,
        Comparator::GreaterThanOrEqual => ">="@,
        Comparator::LessThan => "<"@,
        Comparator::LessThanOrEqual => "<="@,
    }
}

/// The variant of a stored value that a comparison matches: that of the
/// operand's own type. A name matches a string under equality and an
/// integer under an ordering.
pub open spec fn arm_text(c: ComparisonModel) -> Seq<char> {
    match c.operand {
        TermModel::Boolean(_) => "Boolean"@,
        TermModel::Integer(_) => "Integer"@,
        TermModel::Float(_) => "Float"@,
        TermModel::String(_) => "String"@,
        _ => if c.op == Comparator::Equal || c.op == Comparator::NotEqual {
            "String"@
        } else {
            "Integer"@
        },
    }
}

/// The operand of a property comparison. A name under equality is compared
/// as the text of the name.
pub open spec fn operand_text(c: ComparisonModel) -> Seq<char> {
    match c.operand {
        TermModel::Name(n) => if c.op == Comparator::Equal || c.op == Comparator::NotEqual {
            quoted(n)
        } else {
            n
        },
        _ => term_text(c.operand),
    }
}

/// The test of a property of the current element. A property that is
/// missing or of another type fails the test.
pub open spec fn property_test_text(name: Seq<char>, test: Option<ComparisonModel>) -> Seq<char> {
    match test {
        Some(c) => "node.check_property("@ + quoted(name) + ").map_or(false, |v| matches!(v, Value::"@
            + arm_text(c) + "(val) if *val "@ + comparator_text(c.op) + " "@ + operand_text(c)
            + "))"@,
        None => "node.check_property("@ + quoted(name) + ").is_some()"@,
    }
}

/// The test of a count: against its operand, or for not being zero.
pub open spec fn count_test_text(test: Option<ComparisonModel>) -> Seq<char> {
    match test {
        Some(c) => "count "@ + comparator_text(c.op) + " "@ + term_text(c.operand),
        None => "count > 0"@,
    }
}

/// The builder method of a hop.
pub open spec fn direction_text(d: Direction) -> Seq<char> {
    match d {
        Direction::Out => "out"@,
        Direction::In => "in_"@,
        Direction::Both => "both"@,
        Direction::OutE => "out_e"@,
        Direction::InE => "in_e"@,
        Direction::BothE => "both_e"@,
        Direction::OutV => "out_v"@,
        Direction::InV => "in_v"@,
        Direction::BothV => "both_v"@,
    }
}

/// Whether a hop is filtered by an edge type.
pub open spec fn takes_label(d: Direction) -> bool {
    !(d == Direction::OutV || d == Direction::InV || d == Direction::BothV)
}

/// One hop.
pub open spec fn hop_text(d: Direction, label: Seq<char>) -> Seq<char> {
    if takes_label(d) {
        "tr."@ + direction_text(d) + "(&txn, "@ + quoted(label) + ");\n"@
    } else {
        "tr."@ + direction_text(d) + "(&txn);\n"@
    }
}

/// The start of a traversal at the current element of a closure.
pub open spec fn from_element_text(element: Seq<char>) -> Seq<char> {
    "let mut tr = TraversalBuilder::new(Arc::clone(&db), TraversalValue::from("@ + element
        + ".clone()));"@
}

/// The new name a remapping carries: the key, unless it is empty.
pub open spec fn new_name_text(key: Seq<char>) -> Seq<char> {
    if key.len() == 0 {
        "None"@
    } else {
        "Some("@ + quoted(key) + ".to_string())"@
    }
}

/// The declaration of a remapping.
pub open spec fn remapping_text(
    indent: Seq<char>,
    variable: Seq<char>,
    exclude: bool,
    new_name: Seq<char>,
    replacement: Seq<char>,
) -> Seq<char> {
    indent + "let "@ + variable + "_remapping = Remapping::new("@ + boolean_text(exclude) + ", "@
        + new_name + ", "@ + replacement + ");\n"@
}

/// The lookup of a property that a projection names, and the remapping that
/// carries its value. Where the element has no such property the handler
/// returns a conversion error, before anything is written to the response.
pub open spec fn property_lookup_text(
    indent: Seq<char>,
    item: Seq<char>,
    variable: Seq<char>,
    name: Seq<char>,
) -> Seq<char> {
    indent + "let "@ + variable + " = "@ + item + ".check_property("@ + quoted(name) + ");\n"@
        + remapping_text(
        indent,
        variable,
        false,
        "None"@,
        "Some(match "@ + variable
            + " { Some(value) => ReturnValue::from(value.clone()), None => return Err(GraphError::ConversionError(\"Property not found on "@
            + variable + "\".to_string())) })"@,
    )
}

/// The value a computed field is replaced by.
pub open spec fn replacement_text(variable: Seq<char>, replacement: Replacement) -> Seq<char> {
    match replacement {
        Replacement::ElementId => "Some(ReturnValue::from("@ + variable + "))"@,
        Replacement::Elements => "Some(ReturnValue::from_traversal_value_array_with_mixin("@
            + variable + ", remapping_vals.borrow_mut()))"@,
    }
}

/// The binding of the result of a field's sub-traversal.
pub open spec fn finish_text(indent: Seq<char>, variable: Seq<char>, replacement: Replacement) -> Seq<
    char,
> {
    match replacement {
        Replacement::ElementId => indent + "let "@ + variable + " = tr.finish()?.get_id()?;\n"@,
        Replacement::Elements => indent + "let "@ + variable + " = tr.finish()?;\n"@,
    }
}

/// One entry of the table a registration passes.
pub open spec fn table_entry_text(key: Seq<char>, variable: Seq<char>) -> Seq<char> {
    "("@ + quoted(key) + ".to_string(), "@ + variable + "_remapping),\n"@
}

/// The entries of the first `n` of `pairs`.
pub open spec fn table_text(pairs: Seq<(Seq<char>, Seq<char>)>, n: nat) -> Seq<char>
    decreases n,
{
    if n == 0 || n > pairs.len() {
        Seq::empty()
    } else {
        table_text(pairs, (n - 1) as nat) + table_entry_text(pairs[n - 1].0, pairs[n - 1].1)
    }
}

/// The registration of a response remapping under the element's id, with
/// the given table of remappings.
pub open spec fn registration_text(
    indent: Seq<char>,
    item: Seq<char>,
    table: Seq<char>,
    should_spread: bool,
) -> Seq<char> {
    indent + "remapping_vals.borrow_mut().insert(\n"@ + indent + item + ".id.clone(),\n"@ + indent
        + "ResponseRemapping::new(\n"@ + indent + "HashMap::from([\n"@ + table + indent + "]),"@
        + indent + boolean_text(should_spread) + indent + "),"@ + indent + ");"@ + indent
        + "Ok(())"@ + "});\n"@
}

/// The keys and variables of projected fields.
pub open spec fn field_pairs(fields: Seq<ProjectedFieldModel>) -> Seq<(Seq<char>, Seq<char>)> {
    Seq::new(fields.len(), |i: int| (fields[i].key, fields[i].variable))
}

/// The declarations of the exclusions of the first `n` of `pairs`.
pub open spec fn exclusions_text(indent: Seq<char>, pairs: Seq<(Seq<char>, Seq<char>)>, n: nat) -> Seq<
    char,
>
    decreases n,
{
    if n == 0 || n > pairs.len() {
        Seq::empty()
    } else {
        exclusions_text(indent, pairs, (n - 1) as nat) + remapping_text(
            indent,
            pairs[n - 1].1,
            true,
            "Some("@ + quoted(pairs[n - 1].0) + ".to_string())"@,
            "None"@,
        )
    }
}

/// The opening of the closure that visits every element reached.
pub open spec fn for_each_text(item: Seq<char>) -> Seq<char> {
    "tr.for_each_node(&txn, |"@ + item + ", txn| {\n"@
}

/// The registration of exclusions: the named fields are dropped from the
/// full representation of each element.
pub open spec fn exclusion_text(
    indent: Seq<char>,
    item: Seq<char>,
    pairs: Seq<(Seq<char>, Seq<char>)>,
) -> Seq<char> {
    for_each_text(item) + exclusions_text(indent, pairs, pairs.len()) + registration_text(
        indent,
        item,
        table_text(pairs, pairs.len()),
        true,
    )
}

/// A predicate as a boolean expression over `node`.
pub open spec fn predicate_text(p: PredicateModel, indent: Seq<char>) -> Seq<char>
    decreases p, 1nat,
{
    match p {
        PredicateModel::Constant(b) => boolean_text(b),
        PredicateModel::Exists { path } =>
            "{ let mut inner_tr = TraversalBuilder::new(Arc::clone(&db), TraversalValue::from(node.clone())); "@
            + ops_text(path, indent, path.len())
            + " inner_tr.count(); let count = inner_tr.finish()?.as_count().unwrap(); count > 0 }"@,
        PredicateModel::Property { path, name, test } => if path.len() == 0 {
            property_test_text(name, test)
        } else {
            "{"@ + from_element_text("node"@) + ops_text(path, indent, path.len())
                + property_test_text(name, test) + "}"@
        },
        PredicateModel::Count { path, test } => if path.len() == 0 {
            "tr.count();\nlet count = tr.finish()?.as_count().unwrap();\n"@ + count_test_text(test)
        } else {
            "{"@ + from_element_text("node"@) + ops_text(path, indent, path.len())
                + "tr.count();\nlet count = tr.finish()?.as_count().unwrap();\n"@ + count_test_text(
                test,
            ) + "}"@
        },
        PredicateModel::And(parts) => "("@ + joined(
            predicate_texts(parts, indent),
            " && "@,
            parts.len(),
        ) + ")"@,
        PredicateModel::Or(parts) => "("@ + joined(
            predicate_texts(parts, indent),
            " || "@,
            parts.len(),
        ) + ")"@,
    }
}

/// The texts of `parts`, in order.
pub open spec fn predicate_texts(parts: Seq<PredicateModel>, indent: Seq<char>) -> Seq<Seq<char>>
    decreases parts, 0nat,
{
    Seq::new(
        parts.len(),
        |i: int|
            if 0 <= i < parts.len() {
                predicate_text(parts[i], indent)
            } else {
                Seq::empty()
            },
    )
}

/// A filter of the elements reached.
pub open spec fn filter_text(p: PredicateModel, indent: Seq<char>) -> Seq<char>
    decreases p, 2nat,
{
    match p {
        PredicateModel::Constant(b) => "tr.filter_nodes(&txn, |_| Ok("@ + boolean_text(b) + "));\n"@,
        PredicateModel::Exists { path } => "tr.filter_nodes(&txn, |node| {\n"@ + indent
            + from_element_text("node"@) + "\n"@ + ops_text(path, indent, path.len()) + indent
            + "tr.count();\n"@ + indent + "let count = tr.finish()?.as_count().unwrap();\n"@
            + indent + "Ok(count > 0)\n"@ + indent + "});\n"@,
        PredicateModel::And(parts) => "tr.filter_nodes(&txn, |node| {\n"@ + indent + "    Ok("@
            + joined(predicate_texts(parts, indent), " && "@, parts.len()) + ")\n"@ + indent
            + "});\n"@,
        PredicateModel::Or(parts) => "tr.filter_nodes(&txn, |node| {\n"@ + indent + "    Ok("@
            + joined(predicate_texts(parts, indent), " || "@, parts.len()) + ")\n"@ + indent
            + "});\n"@,
        _ => "tr.filter_nodes(&txn, |node| {\n"@ + indent + "    Ok("@ + predicate_text(p, indent)
            + "    )\n"@ + indent + "});\n"@,
    }
}

/// The declarations of one projected field: what computes its value, then
/// its remapping.
pub open spec fn field_text(f: ProjectedFieldModel, item: Seq<char>, indent: Seq<char>) -> Seq<char>
    decreases f, 0nat,
{
    match f.source {
        FieldSourceModel::Inherited => remapping_text(indent, f.variable, false, "None"@, "None"@),
        FieldSourceModel::Empty => remapping_text(
            indent,
            f.variable,
            false,
            new_name_text(f.key),
            "Some(ReturnValue::Empty)"@,
        ),
        FieldSourceModel::Property(name) => property_lookup_text(indent, item, f.variable, name),
        FieldSourceModel::Computed { path, replacement } => indent + from_element_text(item) + "\n"@
            + ops_text(path, indent, path.len()) + finish_text(indent, f.variable, replacement)
            + remapping_text(
            indent,
            f.variable,
            false,
            new_name_text(f.key),
            replacement_text(f.variable, replacement),
        ),
    }
}

/// The declarations of the first `n` of `fields`.
pub open spec fn fields_text(
    fields: Seq<ProjectedFieldModel>,
    item: Seq<char>,
    indent: Seq<char>,
    n: nat,
) -> Seq<char>
    decreases fields, n,
{
    if n == 0 || n > fields.len() {
        Seq::empty()
    } else {
        fields_text(fields, item, indent, (n - 1) as nat) + field_text(fields[n - 1], item, indent)
    }
}

/// The registration of a projection.
pub open spec fn projection_text(p: ProjectionModel, indent: Seq<char>) -> Seq<char>
    decreases p, 0nat,
{
    for_each_text(p.item) + fields_text(p.fields, p.item, indent, p.fields.len())
        + registration_text(
        indent,
        p.item,
        table_text(field_pairs(p.fields), p.fields.len()),
        p.should_spread,
    )
}

/// One operation, without the indentation before it.
pub open spec fn op_line(op: OpModel, indent: Seq<char>) -> Seq<char>
    decreases op, 0nat,
{
    match op {
        OpModel::NewTraversal =>
            "let mut tr = TraversalBuilder::new(Arc::clone(&db), TraversalValue::Empty);\n"@,
        OpModel::FromBinding(b) => from_element_text(b) + "\n"@,
        OpModel::NodesById(id) => "tr.v_from_id(&txn, "@ + id_argument_text(id) + ");\n"@,
        OpModel::NodesByType(types) => "tr.v_from_types(&txn, &["@ + joined(
            quoted_texts(types),
            ", "@,
            types.len(),
        ) + "]);\n"@,
        OpModel::AllNodes => "tr.v(&txn);\n"@,
        OpModel::EdgesById(id) => "tr.e_from_id(&txn, "@ + id_argument_text(id) + ");\n"@,
        OpModel::AllEdges => "tr.e(&txn);\n"@,
        OpModel::Step(direction, label) => hop_text(direction, label),
        OpModel::Range(start, end) => "tr.range("@ + term_text(start) + ", "@ + term_text(end)
            + ");\n"@,
        OpModel::Count(_) => "tr.count();\n"@,
        OpModel::Filter(p) => filter_text(p, indent),
        OpModel::UpdateProperties(properties) => "tr.update_props(&mut txn, "@ + properties_text(
            properties,
        ) + ");\n"@,
        OpModel::Project(p) => projection_text(p, indent),
        OpModel::Exclude { item, fields } => exclusion_text(indent, item, fields),
        OpModel::AddNode { label, properties } => "tr.add_v(&mut txn, "@ + quoted(label) + ", "@
            + properties_text(properties) + ", None);\n"@,
        OpModel::AddEdge { label, from, to, properties } => "tr.add_e(&mut txn, "@ + quoted(label)
            + ", "@ + endpoint_text(from) + ", "@ + endpoint_text(to) + ", "@ + properties_text(
            properties,
        ) + ");\n"@,
        OpModel::Drop => "tr.drop(&mut txn);\n"@,
        OpModel::InsertVector(source) => "tr.insert_vector(&mut txn, "@ + vector_text(source)
            + ");\n"@,
        OpModel::InsertVectors(parameter) => "for vec in data."@ + parameter + " {\n"@ + indent
            + "    tr.insert_vector(&mut txn, &vec);\n"@ + indent + "}\n"@,
        OpModel::SearchVectors { source, k } => "tr.vector_search(&txn, "@ + vector_text(source)
            + ", "@ + neighbours_text(k) + ");\n"@,
        OpModel::Bind(name) => "let "@ + name + " = tr.finish()?;\n\n"@,
    }
}

/// The first `n` of `ops`, each on its own indented line or lines.
///
/// The count prints as the builder's count call whether or not a comparison
/// travels with it: the builder has no comparison of its own.
pub open spec fn ops_text(ops: Seq<OpModel>, indent: Seq<char>, n: nat) -> Seq<char>
    decreases ops, n,
{
    if n == 0 || n > ops.len() {
        Seq::empty()
    } else {
        ops_text(ops, indent, (n - 1) as nat) + indent + op_line(ops[n - 1], indent)
    }
}

/// The insertion of a value into the response map.
pub open spec fn insert_text(indent: Seq<char>, key: Seq<char>, value: Seq<char>) -> Seq<char> {
    indent + "return_vals.insert("@ + quoted(key) + ".to_string(), "@ + value + ");\n"@
}

/// The remapped value of a variable.
pub open spec fn remapped_text(variable: Seq<char>) -> Seq<char> {
    "ReturnValue::from_traversal_value_array_with_mixin("@ + variable
        + ", remapping_vals.borrow_mut())"@
}

/// One entry of the response.
pub open spec fn entry_text(e: ReturnEntryModel, indent: Seq<char>) -> Seq<char> {
    match e {
        ReturnEntryModel::Binding { key, variable } => insert_text(
            indent,
            key,
            remapped_text(variable),
        ),
        ReturnEntryModel::Traversal { key, path } => ops_text(path, indent, path.len()) + indent
            + "let return_val = tr.finish()?;\n"@ + insert_text(
            indent,
            key,
            remapped_text("return_val"@),
        ),
        ReturnEntryModel::Message(text) => insert_text(
            indent,
            "message"@,
            "ReturnValue::from("@ + quoted(text) + ")"@,
        ),
        ReturnEntryModel::EmptyMessage => insert_text(indent, "message"@, "ReturnValue::Empty"@),
    }
}

/// The first `n` entries of the response.
pub open spec fn entries_text(entries: Seq<ReturnEntryModel>, indent: Seq<char>, n: nat) -> Seq<char>
    decreases n,
{
    if n == 0 || n > entries.len() {
        Seq::empty()
    } else {
        entries_text(entries, indent, (n - 1) as nat) + entry_text(entries[n - 1], indent)
    }
}

/// One operation of a handler.
pub open spec fn handler_op_text(op: HandlerOpModel, indent: Seq<char>) -> Seq<char> {
    match op {
        HandlerOpModel::Begin(TransactionMode::Read) => indent
            + "let txn = db.graph_env.read_txn().unwrap();\n\n"@,
        HandlerOpModel::Begin(TransactionMode::Write) => indent
            + "let mut txn = db.graph_env.write_txn().unwrap();\n\n"@,
        HandlerOpModel::AllocateResponse(n) => indent
            + "let mut return_vals: HashMap<String, ReturnValue> = HashMap::with_capacity("@
            + decimal_text(n as nat) + ");\n\n"@,
        HandlerOpModel::Statement(ops) => ops_text(ops, indent, ops.len()),
        HandlerOpModel::Respond(entries) => entries_text(entries, indent, entries.len()) + indent
            + "response.body = sonic_rs::to_vec(&return_vals).unwrap();\n\n"@,
        HandlerOpModel::Commit => indent + "txn.commit()?;\n"@,
    }
}

/// The first `n` operations of a handler.
pub open spec fn handler_ops_text(ops: Seq<HandlerOpModel>, indent: Seq<char>, n: nat) -> Seq<char>
    decreases n,
{
    if n == 0 || n > ops.len() {
        Seq::empty()
    } else {
        handler_ops_text(ops, indent, (n - 1) as nat) + handler_op_text(ops[n - 1], indent)
    }
}

/// The declarations of the first `n` input fields.
pub open spec fn input_fields_text(inputs: Seq<InputFieldModel>, indent: Seq<char>, n: nat) -> Seq<
    char,
>
    decreases n,
{
    if n == 0 || n > inputs.len() {
        Seq::empty()
    } else {
        input_fields_text(inputs, indent, (n - 1) as nat) + indent + indent + inputs[n - 1].name
            + ": "@ + inputs[n - 1].declared_type + ",\n"@
    }
}

/// The input schema and its decoding from the request body. A body that
/// does not match fails the request before any statement runs. A query
/// without parameters reads no input.
pub open spec fn input_text(name: Seq<char>, inputs: Seq<InputFieldModel>, indent: Seq<char>) -> Seq<
    char,
> {
    if inputs.len() == 0 {
        Seq::empty()
    } else {
        indent + "#[derive(Serialize, Deserialize)]\n"@ + indent + "struct "@ + name + "Data {\n"@
            + input_fields_text(inputs, indent, inputs.len()) + indent + "}\n\n"@ + indent
            + "let data: "@ + name + "Data = match sonic_rs::from_slice(&input.request.body) {\n"@
            + indent + "    Ok(data) => data,\n"@ + indent
            + "    Err(err) => return Err(GraphError::from(err)),\n"@ + indent + "};\n\n"@
    }
}

/// The text of a whole handler.
pub open spec fn program_text(p: HandlerProgramModel) -> Seq<char> {
    "#[handler]\npub fn "@ + snake_case(p.name)
        + "(input: &HandlerInput, response: &mut Response) -> Result<(), GraphError> {\n"@
        + input_text(p.name, p.inputs, body_indent()) + body_indent()
        + "let mut remapping_vals: RefCell<HashMap<String, ResponseRemapping>> = RefCell::new(HashMap::new());\n"@
        + body_indent() + "let db = Arc::clone(&input.graph.storage);\n"@ + handler_ops_text(
        p.ops,
        body_indent(),
        p.ops.len(),
    ) + body_indent() + "Ok(())\n}\n"@
}

} // verus!
