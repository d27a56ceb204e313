//! The text backend: prints a handler plan.

use crate::helixc::generator::handler_text::{
    arm_text, comparator_text, count_test_text, direction_text, endpoint_text,
    entries_text, entry_text, exclusion_text, exclusions_text, field_pairs, field_text,
    fields_text, filter_text, finish_text, for_each_text, from_element_text, handler_op_text,
    handler_ops_text, hop_text, id_argument_text, input_fields_text, input_text, insert_text,
    neighbours_text, new_name_text, op_line, operand_text, ops_text, predicate_text,
    predicate_texts, program_text, projection_text, properties_text, property_lookup_text,
    property_test_text, property_text, property_texts, quoted_texts, registration_text,
    remapped_text, remapping_text, replacement_text, table_entry_text, table_text, term_text, term_texts, vector_text,
};
use crate::helixc::generator::naming::{to_snake_case};
use crate::helixc::generator::plan::{
    entry_models, field_models, handler_op_models, input_models, name_models, op_models,
    pair_models, predicate_models, property_models, term_models, Comparator, Comparison,
    Direction, FieldSource, HandlerOp, HandlerProgram, InputField, Op, Predicate, ProjectedField,
    Projection, Replacement, ReturnEntry, Term, TransactionMode,
};
use crate::text::{boolean_to_text, integer_to_text, join, joined, quote, quoted, texts, unsigned_to_text};
use vstd::prelude::*;
use vstd::string::*;

verus! {

/// Prints a term.
#[verifier::loop_isolation(false)]
pub fn render_term(t: &Term) -> (r: String)
    ensures
        r@ == term_text(t@),
    decreases t,
{
    match t {
        Term::String(s) => quote(s.as_str()),
        Term::Integer(i) => integer_to_text(*i),
        Term::Unsigned(n) => unsigned_to_text(*n as u64),
        Term::Float(f) => f.clone(),
        Term::Boolean(b) => boolean_to_text(*b),
        Term::Array(items) => {
            let inner = render_terms(items);
            let mut out = String::from_str("vec![");
            out.append(inner.as_str());
            out.append("]");
            proof {
                assert(t@->Array_0 =~= term_models(items@));
            }
            out
        },
        Term::Parameter(p) => {
            let mut out = String::from_str("data.");
            out.append(p.as_str());
            out
        },
        Term::Binding(b) => b.clone(),
        Term::Name(n) => n.clone(),
    }
}

/// Prints terms, separated by commas.
#[verifier::loop_isolation(false)]
pub fn render_terms(items: &Vec<Term>) -> (r: String)
    ensures
        r@ == joined(term_texts(term_models(items@)), ", "@, items@.len()),
    decreases items@, 1nat,
{
    let mut pieces: Vec<String> = Vec::new();
    let mut i: usize = 0;
    while i < items.len()
        invariant
            i <= items@.len(),
            pieces@.len() == i,
            forall|j: int| 0 <= j < i ==> (#[trigger] pieces@[j])@ == term_text(items@[j]@),
        decreases items@.len() - i,
    {
        let piece = render_term(&items[i]);
        pieces.push(piece);
        i = i + 1;
    }
    proof {
        assert(texts(pieces@) =~= term_texts(term_models(items@)));
    }
    join(&pieces, ", ")
}

fn render_id_argument(t: &Term) -> (r: String)
    ensures
        r@ == id_argument_text(t@),
{
    match t {
        Term::Parameter(p) => {
            let mut out = String::from_str("&data.");
            out.append(p.as_str());
            out
        },
        _ => render_term(t),
    }
}

fn render_endpoint(t: &Term) -> (r: String)
    ensures
        r@ == endpoint_text(t@),
{
    match t {
        Term::Binding(b) => {
            let mut out = String::from_str("&");
            out.append(b.as_str());
            out.append(".get_id()?");
            out
        },
        _ => render_term(t),
    }
}

fn render_vector(t: &Term) -> (r: String)
    ensures
        r@ == vector_text(t@),
{
    match t {
        Term::Array(items) => {
            let inner = render_terms(items);
            let mut out = String::from_str("&[");
            out.append(inner.as_str());
            out.append("]");
            proof {
                assert(t@->Array_0 =~= term_models(items@));
            }
            out
        },
        _ => {
            let inner = render_term(t);
            let mut out = String::from_str("&");
            out.append(inner.as_str());
            out
        },
    }
}

fn render_neighbours(t: &Term) -> (r: String)
    ensures
        r@ == neighbours_text(t@),
{
    match t {
        Term::Parameter(p) => {
            let mut out = String::from_str("data.");
            out.append(p.as_str());
            out.append(" as usize");
            out
        },
        _ => render_term(t),
    }
}

/// Prints a property map.
pub fn render_properties(properties: &Vec<(String, Term)>) -> (r: String)
    ensures
        r@ == properties_text(property_models(properties@)),
{
    if properties.len() == 0 {
        return String::from_str("props!{}");
    }
    let mut pieces: Vec<String> = Vec::new();
    let mut i: usize = 0;
    while i < properties.len()
        invariant
            i <= properties@.len(),
            pieces@.len() == i,
            forall|j: int|
                0 <= j < i ==> (#[trigger] pieces@[j])@ == property_text(
                    property_models(properties@)[j],
                ),
        decreases properties@.len() - i,
    {
        let value = render_term(&properties[i].1);
        let mut piece = quote(properties[i].0.as_str());
        piece.append(".to_string() => ");
        piece.append(value.as_str());
        pieces.push(piece);
        i = i + 1;
    }
    proof {
        assert(texts(pieces@) =~= property_texts(property_models(properties@)));
    }
    let inner = join(&pieces, ", ");
    let mut out = String::from_str("props!{ ");
    out.append(inner.as_str());
    out.append(" }");
    out
}

fn render_quoted_names(names: &Vec<String>) -> (r: String)
    ensures
        r@ == joined(quoted_texts(name_models(names@)), ", "@, names@.len()),
{
    let mut pieces: Vec<String> = Vec::new();
    let mut i: usize = 0;
    while i < names.len()
        invariant
            i <= names@.len(),
            pieces@.len() == i,
            forall|j: int| 0 <= j < i ==> (#[trigger] pieces@[j])@ == quoted(names@[j]@),
        decreases names@.len() - i,
    {
        pieces.push(quote(names[i].as_str()));
        i = i + 1;
    }
    proof {
        assert(texts(pieces@) =~= quoted_texts(name_models(names@)));
    }
    join(&pieces, ", ")
}

fn render_comparator(c: Comparator) -> (r: &'static str)
    ensures
        r@ == comparator_text(c),
{
    match c {
        Comparator::Equal => "==",
        Comparator::NotEqual => "!=",
        Comparator::GreaterThan => ">",
        Comparator::GreaterThanOrEqual => ">=",
        Comparator::LessThan => "<",
        Comparator::LessThanOrEqual => "<=",
    }
}

fn is_equality(c: Comparator) -> (b: bool)
    ensures
        b == (c == Comparator::Equal || c == Comparator::NotEqual),
{
    match c {
        Comparator::Equal => true,
        Comparator::NotEqual => true,
        _ => false,
    }
}

fn render_arm(c: &Comparison) -> (r: &'static str)
    ensures
        r@ == arm_text(c@),
{
    match &c.operand {
        Term::Boolean(_) => "Boolean",
        Term::Integer(_) => "Integer",
        Term::Float(_) => "Float",
        Term::String(_) => "String",
        _ => {
            if is_equality(c.op) {
                "String"
            } else {
                "Integer"
            }
        },
    }
}

fn render_operand(c: &Comparison) -> (r: String)
    ensures
        r@ == operand_text(c@),
{
    match &c.operand {
        Term::Name(n) => {
            if is_equality(c.op) {
                quote(n.as_str())
            } else {
                n.clone()
            }
        },
        _ => render_term(&c.operand),
    }
}

fn render_property_test(name: &str, test: &Option<Comparison>) -> (r: String)
    ensures
        r@ == property_test_text(name@, crate::helixc::generator::plan::test_model(*test)),
{
    let name = quote(name);
    match test {
        Some(c) => {
            let operand = render_operand(c);
            let mut out = String::from_str("node.check_property(");
            out.append(name.as_str());
            out.append(").map_or(false, |v| matches!(v, Value::");
            out.append(render_arm(c));
            out.append("(val) if *val ");
            out.append(render_comparator(c.op));
            out.append(" ");
            out.append(operand.as_str());
            out.append("))");
            out
        },
        None => {
            let mut out = String::from_str("node.check_property(");
            out.append(name.as_str());
            out.append(").is_some()");
            out
        },
    }
}

fn render_count_test(test: &Option<Comparison>) -> (r: String)
    ensures
        r@ == count_test_text(crate::helixc::generator::plan::test_model(*test)),
{
    match test {
        Some(c) => {
            let operand = render_term(&c.operand);
            let mut out = String::from_str("count ");
            out.append(render_comparator(c.op));
            out.append(" ");
            out.append(operand.as_str());
            out
        },
        None => String::from_str("count > 0"),
    }
}

fn render_direction(d: Direction) -> (r: &'static str)
    ensures
        r@ == direction_text(d),
{
    match d {
        Direction::Out => "out",
        Direction::In => "in_",
        Direction::Both => "both",
        Direction::OutE => "out_e",
        Direction::InE => "in_e",
        Direction::BothE => "both_e",
        Direction::OutV => "out_v",
        Direction::InV => "in_v",
        Direction::BothV => "both_v",
    }
}

fn render_hop(d: Direction, label: &str) -> (r: String)
    ensures
        r@ == hop_text(d, label@),
{
    let labelled = match d {
        Direction::OutV => false,
        Direction::InV => false,
        Direction::BothV => false,
        _ => true,
    };
    let mut out = String::from_str("tr.");
    out.append(render_direction(d));
    if labelled {
        let label = quote(label);
        out.append("(&txn, ");
        out.append(label.as_str());
        out.append(");\n");
    } else {
        out.append("(&txn);\n");
    }
    out
}

fn render_from_element(element: &str) -> (r: String)
    ensures
        r@ == from_element_text(element@),
{
    let mut out = String::from_str(
        "let mut tr = TraversalBuilder::new(Arc::clone(&db), TraversalValue::from(",
    );
    out.append(element);
    out.append(".clone()));");
    out
}

fn render_new_name(key: &str) -> (r: String)
    ensures
        r@ == new_name_text(key@),
{
    if key.is_empty() {
        String::from_str("None")
    } else {
        let key = quote(key);
        let mut out = String::from_str("Some(");
        out.append(key.as_str());
        out.append(".to_string())");
        out
    }
}

fn render_remapping(indent: &str, variable: &str, exclude: bool, new_name: &str, replacement: &str) -> (r:
    String)
    ensures
        r@ == remapping_text(indent@, variable@, exclude, new_name@, replacement@),
{
    let flag = boolean_to_text(exclude);
    let mut out = String::from_str(indent);
    out.append("let ");
    out.append(variable);
    out.append("_remapping = Remapping::new(");
    out.append(flag.as_str());
    out.append(", ");
    out.append(new_name);
    out.append(", ");
    out.append(replacement);
    out.append(");\n");
    out
}

fn render_property_lookup(indent: &str, item: &str, variable: &str, name: &str) -> (r: String)
    ensures
        r@ == property_lookup_text(indent@, item@, variable@, name@),
{
    let name = quote(name);
    let mut replacement = String::from_str("Some(match ");
    replacement.append(variable);
    replacement.append(
        " { Some(value) => ReturnValue::from(value.clone()), None => return Err(GraphError::ConversionError(\"Property not found on ",
    );
    replacement.append(variable);
    replacement.append("\".to_string())) })");
    let remapping = render_remapping(indent, variable, false, "None", replacement.as_str());
    let mut out = String::from_str(indent);
    out.append("let ");
    out.append(variable);
    out.append(" = ");
    out.append(item);
    out.append(".check_property(");
    out.append(name.as_str());
    out.append(");\n");
    out.append(remapping.as_str());
    out
}

fn render_replacement(variable: &str, replacement: Replacement) -> (r: String)
    ensures
        r@ == replacement_text(variable@, replacement),
{
    match replacement {
        Replacement::ElementId => {
            let mut out = String::from_str("Some(ReturnValue::from(");
            out.append(variable);
            out.append("))");
            out
        },
        Replacement::Elements => {
            let mut out = String::from_str(
                "Some(ReturnValue::from_traversal_value_array_with_mixin(",
            );
            out.append(variable);
            out.append(", remapping_vals.borrow_mut()))");
            out
        },
    }
}

fn render_finish(indent: &str, variable: &str, replacement: Replacement) -> (r: String)
    ensures
        r@ == finish_text(indent@, variable@, replacement),
{
    let mut out = String::from_str(indent);
    out.append("let ");
    out.append(variable);
    match replacement {
        Replacement::ElementId => {
            out.append(" = tr.finish()?.get_id()?;\n");
        },
        Replacement::Elements => {
            out.append(" = tr.finish()?;\n");
        },
    }
    out
}

fn render_table_entry(key: &str, variable: &str) -> (r: String)
    ensures
        r@ == table_entry_text(key@, variable@),
{
    let key = quote(key);
    let mut out = String::from_str("(");
    out.append(key.as_str());
    out.append(".to_string(), ");
    out.append(variable);
    out.append("_remapping),\n");
    out
}

fn render_registration(indent: &str, item: &str, table: &str, should_spread: bool) -> (r: String)
    ensures
        r@ == registration_text(indent@, item@, table@, should_spread),
{
    let flag = boolean_to_text(should_spread);
    let mut out = String::from_str(indent);
    out.append("remapping_vals.borrow_mut().insert(\n");
    out.append(indent);
    out.append(item);
    out.append(".id.clone(),\n");
    out.append(indent);
    out.append("ResponseRemapping::new(\n");
    out.append(indent);
    out.append("HashMap::from([\n");
    out.append(table);
    out.append(indent);
    out.append("]),");
    out.append(indent);
    out.append(flag.as_str());
    out.append(indent);
    out.append("),");
    out.append(indent);
    out.append(");");
    out.append(indent);
    out.append("Ok(())");
    out.append("});\n");
    out
}

fn render_for_each(item: &str) -> (r: String)
    ensures
        r@ == for_each_text(item@),
{
    let mut out = String::from_str("tr.for_each_node(&txn, |");
    out.append(item);
    out.append(", txn| {\n");
    out
}

fn render_exclusion(indent: &str, item: &str, fields: &Vec<(String, String)>) -> (r: String)
    ensures
        r@ == exclusion_text(indent@, item@, pair_models(fields@)),
{
    let mut declarations = String::new();
    let mut table = String::new();
    let mut i: usize = 0;
    while i < fields.len()
        invariant
            i <= fields@.len(),
            declarations@ == exclusions_text(indent@, pair_models(fields@), i as nat),
            table@ == table_text(pair_models(fields@), i as nat),
        decreases fields@.len() - i,
    {
        let key = quote(fields[i].0.as_str());
        let mut new_name = String::from_str("Some(");
        new_name.append(key.as_str());
        new_name.append(".to_string())");
        let declaration = render_remapping(
            indent,
            fields[i].1.as_str(),
            true,
            new_name.as_str(),
            "None",
        );
        declarations.append(declaration.as_str());
        let entry = render_table_entry(fields[i].0.as_str(), fields[i].1.as_str());
        table.append(entry.as_str());
        i = i + 1;
    }
    let registration = render_registration(indent, item, table.as_str(), true);
    let mut out = render_for_each(item);
    out.append(declarations.as_str());
    out.append(registration.as_str());
    out
}

/// Prints a predicate as a boolean expression.
#[verifier::loop_isolation(false)]
pub fn render_predicate(p: &Predicate, indent: &str) -> (r: String)
    ensures
        r@ == predicate_text(p@, indent@),
    decreases p, 1nat,
{
    match p {
        Predicate::Constant(b) => boolean_to_text(*b),
        Predicate::Exists { path } => {
            let inner = render_ops(path, indent);
            let mut out = String::from_str(
                "{ let mut inner_tr = TraversalBuilder::new(Arc::clone(&db), TraversalValue::from(node.clone())); ",
            );
            out.append(inner.as_str());
            out.append(
                " inner_tr.count(); let count = inner_tr.finish()?.as_count().unwrap(); count > 0 }",
            );
            out
        },
        Predicate::Property { path, name, test } => {
            let check = render_property_test(name.as_str(), test);
            if path.len() == 0 {
                check
            } else {
                let start = render_from_element("node");
                let inner = render_ops(path, indent);
                let mut out = String::from_str("{");
                out.append(start.as_str());
                out.append(inner.as_str());
                out.append(check.as_str());
                out.append("}");
                out
            }
        },
        Predicate::Count { path, test } => {
            let check = render_count_test(test);
            if path.len() == 0 {
                let mut out = String::from_str(
                    "tr.count();\nlet count = tr.finish()?.as_count().unwrap();\n",
                );
                out.append(check.as_str());
                out
            } else {
                let start = render_from_element("node");
                let inner = render_ops(path, indent);
                let mut out = String::from_str("{");
                out.append(start.as_str());
                out.append(inner.as_str());
                out.append("tr.count();\nlet count = tr.finish()?.as_count().unwrap();\n");
                out.append(check.as_str());
                out.append("}");
                out
            }
        },
        Predicate::And(parts) => {
            let inner = render_predicates(parts, indent, " && ");
            let mut out = String::from_str("(");
            out.append(inner.as_str());
            out.append(")");
            out
        },
        Predicate::Or(parts) => {
            let inner = render_predicates(parts, indent, " || ");
            let mut out = String::from_str("(");
            out.append(inner.as_str());
            out.append(")");
            out
        },
    }
}

/// Prints predicates with a separator between them.
#[verifier::loop_isolation(false)]
pub fn render_predicates(parts: &Vec<Predicate>, indent: &str, separator: &str) -> (r: String)
    ensures
        r@ == joined(predicate_texts(predicate_models(parts@), indent@), separator@, parts@.len()),
    decreases parts@, 1nat,
{
    let mut pieces: Vec<String> = Vec::new();
    let mut i: usize = 0;
    while i < parts.len()
        invariant
            i <= parts@.len(),
            pieces@.len() == i,
            forall|j: int|
                0 <= j < i ==> (#[trigger] pieces@[j])@ == predicate_text(parts@[j]@, indent@),
        decreases parts@.len() - i,
    {
        let piece = render_predicate(&parts[i], indent);
        pieces.push(piece);
        i = i + 1;
    }
    proof {
        assert(texts(pieces@) =~= predicate_texts(predicate_models(parts@), indent@));
    }
    join(&pieces, separator)
}

/// Prints a filter of the elements reached.
pub fn render_filter(p: &Predicate, indent: &str) -> (r: String)
    ensures
        r@ == filter_text(p@, indent@),
    decreases p, 2nat,
{
    match p {
        Predicate::Constant(b) => {
            let flag = boolean_to_text(*b);
            let mut out = String::from_str("tr.filter_nodes(&txn, |_| Ok(");
            out.append(flag.as_str());
            out.append("));\n");
            out
        },
        Predicate::Exists { path } => {
            let start = render_from_element("node");
            let inner = render_ops(path, indent);
            let mut out = String::from_str("tr.filter_nodes(&txn, |node| {\n");
            out.append(indent);
            out.append(start.as_str());
            out.append("\n");
            out.append(inner.as_str());
            out.append(indent);
            out.append("tr.count();\n");
            out.append(indent);
            out.append("let count = tr.finish()?.as_count().unwrap();\n");
            out.append(indent);
            out.append("Ok(count > 0)\n");
            out.append(indent);
            out.append("});\n");
            out
        },
        Predicate::And(parts) => {
            let inner = render_predicates(parts, indent, " && ");
            let mut out = String::from_str("tr.filter_nodes(&txn, |node| {\n");
            out.append(indent);
            out.append("    Ok(");
            out.append(inner.as_str());
            out.append(")\n");
            out.append(indent);
            out.append("});\n");
            out
        },
        Predicate::Or(parts) => {
            let inner = render_predicates(parts, indent, " || ");
            let mut out = String::from_str("tr.filter_nodes(&txn, |node| {\n");
            out.append(indent);
            out.append("    Ok(");
            out.append(inner.as_str());
            out.append(")\n");
            out.append(indent);
            out.append("});\n");
            out
        },
        _ => {
            let inner = render_predicate(p, indent);
            let mut out = String::from_str("tr.filter_nodes(&txn, |node| {\n");
            out.append(indent);
            out.append("    Ok(");
            out.append(inner.as_str());
            out.append("    )\n");
            out.append(indent);
            out.append("});\n");
            out
        },
    }
}

/// Prints the declarations of one projected field.
pub fn render_field(f: &ProjectedField, item: &str, indent: &str) -> (r: String)
    ensures
        r@ == field_text(f@, item@, indent@),
    decreases f, 0nat,
{
    match &f.source {
        FieldSource::Inherited => render_remapping(indent, f.variable.as_str(), false, "None", "None"),
        FieldSource::Empty => {
            let new_name = render_new_name(f.key.as_str());
            render_remapping(
                indent,
                f.variable.as_str(),
                false,
                new_name.as_str(),
                "Some(ReturnValue::Empty)",
            )
        },
        FieldSource::Property(name) => render_property_lookup(
            indent,
            item,
            f.variable.as_str(),
            name.as_str(),
        ),
        FieldSource::Computed { path, replacement } => {
            let start = render_from_element(item);
            let inner = render_ops(path, indent);
            let finish = render_finish(indent, f.variable.as_str(), *replacement);
            let new_name = render_new_name(f.key.as_str());
            let value = render_replacement(f.variable.as_str(), *replacement);
            let remapping = render_remapping(
                indent,
                f.variable.as_str(),
                false,
                new_name.as_str(),
                value.as_str(),
            );
            let mut out = String::from_str(indent);
            out.append(start.as_str());
            out.append("\n");
            out.append(inner.as_str());
            out.append(finish.as_str());
            out.append(remapping.as_str());
            out
        },
    }
}

/// Prints the registration of a projection.
#[verifier::loop_isolation(false)]
pub fn render_projection(p: &Projection, indent: &str) -> (r: String)
    ensures
        r@ == projection_text(p@, indent@),
    decreases p, 0nat,
{
    let fields = &p.fields;
    let mut declarations = String::new();
    let mut table = String::new();
    let mut i: usize = 0;
    while i < fields.len()
        invariant
            i <= fields@.len(),
            declarations@ == fields_text(field_models(fields@), p.item@, indent@, i as nat),
            table@ == table_text(field_pairs(field_models(fields@)), i as nat),
        decreases fields@.len() - i,
    {
        let declaration = render_field(&fields[i], p.item.as_str(), indent);
        declarations.append(declaration.as_str());
        let entry = render_table_entry(fields[i].key.as_str(), fields[i].variable.as_str());
        table.append(entry.as_str());
        i = i + 1;
    }
    let registration = render_registration(indent, p.item.as_str(), table.as_str(), p.should_spread);
    let mut out = render_for_each(p.item.as_str());
    out.append(declarations.as_str());
    out.append(registration.as_str());
    out
}

/// Prints one operation, without the indentation before it.
pub fn render_op_line(op: &Op, indent: &str) -> (r: String)
    ensures
        r@ == op_line(op@, indent@),
    decreases op, 0nat,
{
    match op {
        Op::NewTraversal => String::from_str(
            "let mut tr = TraversalBuilder::new(Arc::clone(&db), TraversalValue::Empty);\n",
        ),
        Op::FromBinding(b) => {
            let mut out = render_from_element(b.as_str());
            out.append("\n");
            out
        },
        Op::NodesById(id) => {
            let id = render_id_argument(id);
            let mut out = String::from_str("tr.v_from_id(&txn, ");
            out.append(id.as_str());
            out.append(");\n");
            out
        },
        Op::NodesByType(types) => {
            let names = render_quoted_names(types);
            let mut out = String::from_str("tr.v_from_types(&txn, &[");
            out.append(names.as_str());
            out.append("]);\n");
            out
        },
        Op::AllNodes => String::from_str("tr.v(&txn);\n"),
        Op::EdgesById(id) => {
            let id = render_id_argument(id);
            let mut out = String::from_str("tr.e_from_id(&txn, ");
            out.append(id.as_str());
            out.append(");\n");
            out
        },
        Op::AllEdges => String::from_str("tr.e(&txn);\n"),
        Op::Step(direction, label) => render_hop(*direction, label.as_str()),
        Op::Range(start, end) => {
            let start = render_term(start);
            let end = render_term(end);
            let mut out = String::from_str("tr.range(");
            out.append(start.as_str());
            out.append(", ");
            out.append(end.as_str());
            out.append(");\n");
            out
        },
        Op::Count(_) => String::from_str("tr.count();\n"),
        Op::Filter(p) => render_filter(p, indent),
        Op::UpdateProperties(properties) => {
            let properties = render_properties(properties);
            let mut out = String::from_str("tr.update_props(&mut txn, ");
            out.append(properties.as_str());
            out.append(");\n");
            out
        },
        Op::Project(p) => render_projection(p, indent),
        Op::Exclude { item, fields } => render_exclusion(indent, item.as_str(), fields),
        Op::AddNode { label, properties } => {
            let label = quote(label.as_str());
            let properties = render_properties(properties);
            let mut out = String::from_str("tr.add_v(&mut txn, ");
            out.append(label.as_str());
            out.append(", ");
            out.append(properties.as_str());
            out.append(", None);\n");
            out
        },
        Op::AddEdge { label, from, to, properties } => {
            let label = quote(label.as_str());
            let from = render_endpoint(from);
            let to = render_endpoint(to);
            let properties = render_properties(properties);
            let mut out = String::from_str("tr.add_e(&mut txn, ");
            out.append(label.as_str());
            out.append(", ");
            out.append(from.as_str());
            out.append(", ");
            out.append(to.as_str());
            out.append(", ");
            out.append(properties.as_str());
            out.append(");\n");
            out
        },
        Op::Drop => String::from_str("tr.drop(&mut txn);\n"),
        Op::InsertVector(source) => {
            let source = render_vector(source);
            let mut out = String::from_str("tr.insert_vector(&mut txn, ");
            out.append(source.as_str());
            out.append(");\n");
            out
        },
        Op::InsertVectors(parameter) => {
            let mut out = String::from_str("for vec in data.");
            out.append(parameter.as_str());
            out.append(" {\n");
            out.append(indent);
            out.append("    tr.insert_vector(&mut txn, &vec);\n");
            out.append(indent);
            out.append("}\n");
            out
        },
        Op::SearchVectors { source, k } => {
            let source = render_vector(source);
            let k = render_neighbours(k);
            let mut out = String::from_str("tr.vector_search(&txn, ");
            out.append(source.as_str());
            out.append(", ");
            out.append(k.as_str());
            out.append(");\n");
            out
        },
        Op::Bind(name) => {
            let mut out = String::from_str("let ");
            out.append(name.as_str());
            out.append(" = tr.finish()?;\n\n");
            out
        },
    }
}

/// Prints operations, each indented.
#[verifier::loop_isolation(false)]
pub fn render_ops(ops: &Vec<Op>, indent: &str) -> (r: String)
    ensures
        r@ == ops_text(op_models(ops@), indent@, ops@.len()),
    decreases ops@, 1nat,
{
    let mut out = String::new();
    let mut i: usize = 0;
    while i < ops.len()
        invariant
            i <= ops@.len(),
            out@ == ops_text(op_models(ops@), indent@, i as nat),
        decreases ops@.len() - i,
    {
        let line = render_op_line(&ops[i], indent);
        out.append(indent);
        out.append(line.as_str());
        i = i + 1;
    }
    out
}

fn render_insert(indent: &str, key: &str, value: &str) -> (r: String)
    ensures
        r@ == insert_text(indent@, key@, value@),
{
    let key = quote(key);
    let mut out = String::from_str(indent);
    out.append("return_vals.insert(");
    out.append(key.as_str());
    out.append(".to_string(), ");
    out.append(value);
    out.append(");\n");
    out
}

fn render_remapped(variable: &str) -> (r: String)
    ensures
        r@ == remapped_text(variable@),
{
    let mut out = String::from_str("ReturnValue::from_traversal_value_array_with_mixin(");
    out.append(variable);
    out.append(", remapping_vals.borrow_mut())");
    out
}

/// Prints one entry of the response.
pub fn render_entry(e: &ReturnEntry, indent: &str) -> (r: String)
    ensures
        r@ == entry_text(e@, indent@),
{
    match e {
        ReturnEntry::Binding { key, variable } => {
            let value = render_remapped(variable.as_str());
            render_insert(indent, key.as_str(), value.as_str())
        },
        ReturnEntry::Traversal { key, path } => {
            let value = render_remapped("return_val");
            let insert = render_insert(indent, key.as_str(), value.as_str());
            let mut out = render_ops(path, indent);
            out.append(indent);
            out.append("let return_val = tr.finish()?;\n");
            out.append(insert.as_str());
            out
        },
        ReturnEntry::Message(text) => {
            let text = quote(text.as_str());
            let mut value = String::from_str("ReturnValue::from(");
            value.append(text.as_str());
            value.append(")");
            render_insert(indent, "message", value.as_str())
        },
        ReturnEntry::EmptyMessage => render_insert(indent, "message", "ReturnValue::Empty"),
    }
}

fn render_entries(entries: &Vec<ReturnEntry>, indent: &str) -> (r: String)
    ensures
        r@ == entries_text(entry_models(entries@), indent@, entries@.len()),
{
    let mut out = String::new();
    let mut i: usize = 0;
    while i < entries.len()
        invariant
            i <= entries@.len(),
            out@ == entries_text(entry_models(entries@), indent@, i as nat),
        decreases entries@.len() - i,
    {
        let entry = render_entry(&entries[i], indent);
        out.append(entry.as_str());
        i = i + 1;
    }
    out
}

/// Prints one operation of a handler.
pub fn render_handler_op(op: &HandlerOp, indent: &str) -> (r: String)
    ensures
        r@ == handler_op_text(op@, indent@),
{
    match op {
        HandlerOp::Begin(TransactionMode::Read) => {
            let mut out = String::from_str(indent);
            out.append("let txn = db.graph_env.read_txn().unwrap();\n\n");
            out
        },
        HandlerOp::Begin(TransactionMode::Write) => {
            let mut out = String::from_str(indent);
            out.append("let mut txn = db.graph_env.write_txn().unwrap();\n\n");
            out
        },
        HandlerOp::AllocateResponse(n) => {
            let capacity = unsigned_to_text(*n as u64);
            let mut out = String::from_str(indent);
            out.append(
                "let mut return_vals: HashMap<String, ReturnValue> = HashMap::with_capacity(",
            );
            out.append(capacity.as_str());
            out.append(");\n\n");
            out
        },
        HandlerOp::Statement(ops) => render_ops(ops, indent),
        HandlerOp::Respond(entries) => {
            let mut out = render_entries(entries, indent);
            out.append(indent);
            out.append("response.body = sonic_rs::to_vec(&return_vals).unwrap();\n\n");
            out
        },
        HandlerOp::Commit => {
            let mut out = String::from_str(indent);
            out.append("txn.commit()?;\n");
            out
        },
    }
}

fn render_handler_ops(ops: &Vec<HandlerOp>, indent: &str) -> (r: String)
    ensures
        r@ == handler_ops_text(handler_op_models(ops@), indent@, ops@.len()),
{
    let mut out = String::new();
    let mut i: usize = 0;
    while i < ops.len()
        invariant
            i <= ops@.len(),
            out@ == handler_ops_text(handler_op_models(ops@), indent@, i as nat),
        decreases ops@.len() - i,
    {
        let op = render_handler_op(&ops[i], indent);
        out.append(op.as_str());
        i = i + 1;
    }
    out
}

fn render_input(name: &str, inputs: &Vec<InputField>, indent: &str) -> (r: String)
    ensures
        r@ == input_text(name@, input_models(inputs@), indent@),
{
    if inputs.len() == 0 {
        return String::new();
    }
    let mut fields = String::new();
    let mut i: usize = 0;
    while i < inputs.len()
        invariant
            i <= inputs@.len(),
            fields@ == input_fields_text(input_models(inputs@), indent@, i as nat),
        decreases inputs@.len() - i,
    {
        fields.append(indent);
        fields.append(indent);
        fields.append(inputs[i].name.as_str());
        fields.append(": ");
        fields.append(inputs[i].declared_type.as_str());
        fields.append(",\n");
        i = i + 1;
    }
    let mut out = String::from_str(indent);
    out.append("#[derive(Serialize, Deserialize)]\n");
    out.append(indent);
    out.append("struct ");
    out.append(name);
    out.append("Data {\n");
    out.append(fields.as_str());
    out.append(indent);
    out.append("}\n\n");
    out.append(indent);
    out.append("let data: ");
    out.append(name);
    out.append("Data = match sonic_rs::from_slice(&input.request.body) {\n");
    out.append(indent);
    out.append("    Ok(data) => data,\n");
    out.append(indent);
    out.append("    Err(err) => return Err(GraphError::from(err)),\n");
    out.append(indent);
    out.append("};\n\n");
    out
}

/// Prints the handler of a plan.
pub fn render_program(p: &HandlerProgram) -> (r: String)
    ensures
        r@ == program_text(p@),
{
    let indent = "    ";
    let name = to_snake_case(p.name.as_str());
    let input = render_input(p.name.as_str(), &p.inputs, indent);
    let ops = render_handler_ops(&p.ops, indent);
    let mut out = String::from_str("#[handler]\npub fn ");
    out.append(name.as_str());
    out.append("(input: &HandlerInput, response: &mut Response) -> Result<(), GraphError> {\n");
    out.append(input.as_str());
    out.append(indent);
    out.append(
        "let mut remapping_vals: RefCell<HashMap<String, ResponseRemapping>> = RefCell::new(HashMap::new());\n",
    );
    out.append(indent);
    out.append("let db = Arc::clone(&input.graph.storage);\n");
    out.append(ops.as_str());
    out.append(indent);
    out.append("Ok(())\n}\n");
    out
}

} // verus!
