//! The code generator: from a parsed program to the source text of its
//! request handlers.

use crate::helixc::generator::backend::render_program;
use crate::helixc::generator::compile::{
    compile, field_type_text, field_type_to_text, query_plan,
};
use crate::helixc::generator::error::CompileError;
use crate::helixc::generator::handler_text::program_text;
use crate::helixc::generator::naming::{snake_case, to_snake_case};
use crate::helixc::generator::plan::name_models;
use crate::helixc::generator::scope::contains_name;
use crate::helixc::parser::helix_parser::{
    EdgeSchema, Expression, Field, NodeSchema, Query, Source, Statement, Step, Traversal,
};
use crate::text::{
    boolean_text, boolean_to_text, integer_text, integer_to_text, quote, quoted,
};
use vstd::prelude::*;
use vstd::string::*;

verus! {

/// Compiles queries to handler source text.
///
/// Every query is compiled on its own; the generator only remembers the
/// variables that the last compiled query bound.
#[derive(Debug)]
pub struct CodeGenerator {
    current_variables: Vec<String>,
}

/// The imports that every generated file starts with.
pub open spec fn headers_text() -> Seq<char> {
    "use std::collections::{HashMap, HashSet};\nuse std::cell::RefCell;\nuse std::sync::Arc;\nuse std::time::Instant;\n\nuse get_routes::handler;\nuse helixdb::{\n    node_matches,\n    props,\n    helix_engine::graph_core::traversal::TraversalBuilder,\n    helix_engine::graph_core::traversal_steps::{\n        SourceTraversalSteps, TraversalBuilderMethods, TraversalSteps, TraversalMethods,\n        TraversalSearchMethods, VectorTraversalSteps\n    },\n    helix_engine::types::GraphError,\n    helix_gateway::router::router::HandlerInput,\n    protocol::count::Count,\n    protocol::response::Response,\n    protocol::traversal_value::TraversalValue,\n    protocol::remapping::ResponseRemapping,\n    protocol::{filterable::Filterable, value::Value, return_values::ReturnValue, remapping::Remapping},\n};\nuse sonic_rs::{Deserialize, Serialize};\n\n"@
}

/// The declarations of the first `n` fields of a schema.
pub open spec fn schema_fields_text(fields: Seq<Field>, n: nat) -> Seq<char>
    decreases n,
{
    if n == 0 || n > fields.len() {
        Seq::empty()
    } else {
        schema_fields_text(fields, (n - 1) as nat) + "    "@ + snake_case(fields[n - 1].name@)
            + ": "@ + field_type_text(fields[n - 1].field_type) + ",\n"@
    }
}

/// The record type of a schema, under a comment that says what it is.
pub open spec fn schema_text(kind: Seq<char>, name: Seq<char>, fields: Seq<Field>) -> Seq<char> {
    "// "@ + kind + " Schema: "@ + name + "\n#[derive(Serialize, Deserialize)]\nstruct "@ + name
        + " {\n"@ + schema_fields_text(fields, fields.len()) + "}\n"@
}

pub open spec fn node_schema_text(schema: NodeSchema) -> Seq<char> {
    schema_text("Node"@, schema.name@, schema.fields@)
}

/// An edge schema without properties declares an empty record.
pub open spec fn edge_schema_text(schema: EdgeSchema) -> Seq<char> {
    match schema.properties {
        Some(fields) => schema_text("Edge"@, schema.name@, fields@),
        None => schema_text("Edge"@, schema.name@, Seq::empty()),
    }
}

/// The handler of a query, or the error that refuses the query.
pub open spec fn query_text(q: Query) -> Result<Seq<char>, CompileError> {
    match query_plan(q) {
        Ok(p) => Ok(program_text(p)),
        Err(e) => Err(e),
    }
}

/// The first `n` node schemas, each followed by an empty line.
pub open spec fn node_schemas_text(schemas: Seq<NodeSchema>, n: nat) -> Seq<char>
    decreases n,
{
    if n == 0 || n > schemas.len() {
        Seq::empty()
    } else {
        node_schemas_text(schemas, (n - 1) as nat) + node_schema_text(schemas[n - 1]) + "\n"@
    }
}

/// The first `n` edge schemas, each followed by an empty line.
pub open spec fn edge_schemas_text(schemas: Seq<EdgeSchema>, n: nat) -> Seq<char>
    decreases n,
{
    if n == 0 || n > schemas.len() {
        Seq::empty()
    } else {
        edge_schemas_text(schemas, (n - 1) as nat) + edge_schema_text(schemas[n - 1]) + "\n"@
    }
}

/// `done` followed by the handlers of the queries from index `i` on, each
/// followed by an empty line; the first query that is refused decides.
pub open spec fn queries_text(queries: Seq<Query>, i: nat, done: Seq<char>) -> Result<
    Seq<char>,
    CompileError,
>
    decreases queries.len() - i,
{
    if i >= queries.len() {
        Ok(done)
    } else {
        match query_text(queries[i as int]) {
            Ok(text) => queries_text(queries, i + 1, done + text + "\n"@),
            Err(e) => Err(e),
        }
    }
}

/// The text of a whole program: node schemas, edge schemas, then handlers.
pub open spec fn source_text(source: Source) -> Result<Seq<char>, CompileError> {
    queries_text(
        source.queries@,
        0,
        node_schemas_text(source.node_schemas@, source.node_schemas@.len()) + edge_schemas_text(
            source.edge_schemas@,
            source.edge_schemas@.len(),
        ),
    )
}

/// The variables that the first `n` statements assign, in order.
pub open spec fn assigned_variables(statements: Seq<Statement>, n: nat) -> Seq<Seq<char>>
    decreases n,
{
    if n == 0 || n > statements.len() {
        Seq::empty()
    } else {
        match statements[n - 1] {
            Statement::Assignment(a) => assigned_variables(statements, (n - 1) as nat).push(
                a.variable@,
            ),
            _ => assigned_variables(statements, (n - 1) as nat),
        }
    }
}

/// The text of a compiled handler, or the error.
pub open spec fn text_outcome(r: Result<String, CompileError>) -> Result<Seq<char>, CompileError> {
    match r {
        Ok(text) => Ok(text@),
        Err(e) => Err(e),
    }
}

/// Whether a traversal ends in a projection.
pub fn tr_is_object_remapping(tr: &Traversal) -> (b: bool)
    ensures
        b == (tr.steps@.len() > 0 && tr.steps@[tr.steps@.len() - 1] is Object),
{
    let n = tr.steps.len();
    if n == 0 {
        false
    } else {
        match &tr.steps[n - 1] {
            Step::Object(_) => true,
            _ => false,
        }
    }
}

fn render_schema(kind: &str, name: &str, fields: &Vec<Field>) -> (r: String)
    ensures
        r@ == schema_text(kind@, name@, fields@),
{
    let mut declarations = String::new();
    let mut i: usize = 0;
    while i < fields.len()
        invariant
            i <= fields@.len(),
            declarations@ == schema_fields_text(fields@, i as nat),
        decreases fields@.len() - i,
    {
        let name = to_snake_case(fields[i].name.as_str());
        let field_type = field_type_to_text(&fields[i].field_type);
        declarations.append("    ");
        declarations.append(name.as_str());
        declarations.append(": ");
        declarations.append(field_type.as_str());
        declarations.append(",\n");
        i = i + 1;
    }
    let mut out = String::from_str("// ");
    out.append(kind);
    out.append(" Schema: ");
    out.append(name);
    out.append("\n#[derive(Serialize, Deserialize)]\nstruct ");
    out.append(name);
    out.append(" {\n");
    out.append(declarations.as_str());
    out.append("}\n");
    out
}

impl CodeGenerator {
    /// The variables that the last compiled query bound.
    pub closed spec fn variables(&self) -> Seq<Seq<char>> {
        name_models(self.current_variables@)
    }

    /// A generator that has compiled nothing.
    pub fn new() -> (generator: CodeGenerator)
        ensures
            generator.variables() == Seq::<Seq<char>>::empty(),
    {
        let generator = CodeGenerator { current_variables: Vec::new() };
        proof {
            assert(generator.variables() =~= Seq::<Seq<char>>::empty());
        }
        generator
    }

    /// The imports that every generated file starts with.
    pub fn generate_headers(&mut self) -> (output: String)
        ensures
            output@ == headers_text(),
            final(self).variables() == old(self).variables(),
    {
        String::from_str(
            "use std::collections::{HashMap, HashSet};\nuse std::cell::RefCell;\nuse std::sync::Arc;\nuse std::time::Instant;\n\nuse get_routes::handler;\nuse helixdb::{\n    node_matches,\n    props,\n    helix_engine::graph_core::traversal::TraversalBuilder,\n    helix_engine::graph_core::traversal_steps::{\n        SourceTraversalSteps, TraversalBuilderMethods, TraversalSteps, TraversalMethods,\n        TraversalSearchMethods, VectorTraversalSteps\n    },\n    helix_engine::types::GraphError,\n    helix_gateway::router::router::HandlerInput,\n    protocol::count::Count,\n    protocol::response::Response,\n    protocol::traversal_value::TraversalValue,\n    protocol::remapping::ResponseRemapping,\n    protocol::{filterable::Filterable, value::Value, return_values::ReturnValue, remapping::Remapping},\n};\nuse sonic_rs::{Deserialize, Serialize};\n\n",
        )
    }

    /// Prints the record type of a node schema.
    pub fn generate_node_schema(&mut self, schema: &NodeSchema) -> (output: String)
        ensures
            output@ == node_schema_text(*schema),
            final(self).variables() == old(self).variables(),
    {
        render_schema("Node", schema.name.as_str(), &schema.fields)
    }

    /// Prints the record type of an edge schema.
    pub fn generate_edge_schema(&mut self, schema: &EdgeSchema) -> (output: String)
        ensures
            output@ == edge_schema_text(*schema),
            final(self).variables() == old(self).variables(),
    {
        match &schema.properties {
            Some(fields) => render_schema("Edge", schema.name.as_str(), fields),
            None => {
                let fields: Vec<Field> = Vec::new();
                render_schema("Edge", schema.name.as_str(), &fields)
            },
        }
    }

    /// Compiles one query and prints its handler.
    ///
    /// The output depends on the query alone, not on what was compiled
    /// before. A query that cannot be compiled is refused with the error
    /// that names the construct; the generator then remembers what it did
    /// before.
    pub fn generate_query(&mut self, query: &Query) -> (output: Result<String, CompileError>)
        ensures
            text_outcome(output) == query_text(*query),
            output is Ok ==> final(self).variables() == assigned_variables(
                query.statements@,
                query.statements@.len(),
            ),
            output is Err ==> final(self).variables() == old(self).variables(),
    {
        match compile(query) {
            Ok(program) => {
                let mut variables: Vec<String> = Vec::new();
                let mut i: usize = 0;
                proof {
                    assert(name_models(variables@) =~= Seq::<Seq<char>>::empty());
                }
                while i < query.statements.len()
                    invariant
                        i <= query.statements@.len(),
                        name_models(variables@) == assigned_variables(query.statements@, i as nat),
                    decreases query.statements@.len() - i,
                {
                    match &query.statements[i] {
                        Statement::Assignment(a) => {
                            let name = a.variable.clone();
                            proof {
                                assert(name_models(variables@.push(name)) =~= name_models(
                                    variables@,
                                ).push(name@));
                            }
                            variables.push(name);
                        },
                        _ => {},
                    }
                    i = i + 1;
                }
                self.current_variables = variables;
                Ok(render_program(&program))
            },
            Err(e) => Err(e),
        }
    }

    /// Prints a whole program: node schemas, edge schemas, then the handler
    /// of every query, in the order of the program.
    pub fn generate_source(&mut self, source: &Source) -> (output: Result<String, CompileError>)
        ensures
            text_outcome(output) == source_text(*source),
    {
        let mut out = String::new();
        let mut i: usize = 0;
        while i < source.node_schemas.len()
            invariant
                i <= source.node_schemas@.len(),
                out@ == node_schemas_text(source.node_schemas@, i as nat),
            decreases source.node_schemas@.len() - i,
        {
            let schema = self.generate_node_schema(&source.node_schemas[i]);
            out.append(schema.as_str());
            out.append("\n");
            i = i + 1;
        }
        let mut edges = String::new();
        let mut j: usize = 0;
        while j < source.edge_schemas.len()
            invariant
                j <= source.edge_schemas@.len(),
                edges@ == edge_schemas_text(source.edge_schemas@, j as nat),
            decreases source.edge_schemas@.len() - j,
        {
            let schema = self.generate_edge_schema(&source.edge_schemas[j]);
            edges.append(schema.as_str());
            edges.append("\n");
            j = j + 1;
        }
        out.append(edges.as_str());
        let mut k: usize = 0;
        while k < source.queries.len()
            invariant
                k <= source.queries@.len(),
                source_text(*source) == queries_text(source.queries@, k as nat, out@),
            decreases source.queries@.len() - k,
        {
            match self.generate_query(&source.queries[k]) {
                Ok(text) => {
                    out.append(text.as_str());
                    out.append("\n");
                },
                Err(e) => {
                    return Err(e);
                },
            }
            k = k + 1;
        }
        Ok(out)
    }

    /// A scalar expression as text: a literal as it is written, the name of
    /// a variable the last query bound as a borrow of it, an unbound name as
    /// a text; nothing for anything else.
    pub fn expression_to_value(&mut self, expr: &Expression) -> (output: String)
        ensures
            output@ == (match *expr {
                Expression::StringLiteral(s) => quoted(s@),
                Expression::IntegerLiteral(i) => integer_text(i as int),
                Expression::FloatLiteral(f) => f@,
                Expression::BooleanLiteral(b) => boolean_text(b),
                Expression::Identifier(name) => if old(self).variables().contains(name@) {
                    "&"@ + name@
                } else {
                    quoted(name@)
                },
                _ => Seq::empty(),
            }),
            final(self).variables() == old(self).variables(),
    {
        match expr {
            Expression::StringLiteral(s) => quote(s.as_str()),
            Expression::IntegerLiteral(i) => integer_to_text(*i),
            Expression::FloatLiteral(f) => f.clone(),
            Expression::BooleanLiteral(b) => boolean_to_text(*b),
            Expression::Identifier(name) => {
                if contains_name(&self.current_variables, name) {
                    let mut out = String::from_str("&");
                    out.append(name.as_str());
                    out
                } else {
                    quote(name.as_str())
                }
            },
            _ => String::new(),
        }
    }

    /// The expression that stands for a returned expression: the name of a
    /// variable the last query bound, an unbound name as a text, the
    /// finished traversal; nothing for anything else.
    pub fn expression_to_return_value(&mut self, expr: &Expression) -> (output: String)
        ensures
            output@ == (match *expr {
                Expression::Identifier(name) => if old(self).variables().contains(name@) {
                    name@
                } else {
                    quoted(name@)
                },
                Expression::Traversal(_) => "tr.finish()?"@,
                _ => Seq::empty(),
            }),
            final(self).variables() == old(self).variables(),
    {
        match expr {
            Expression::Identifier(name) => {
                if contains_name(&self.current_variables, name) {
                    name.clone()
                } else {
                    quote(name.as_str())
                }
            },
            Expression::Traversal(_) => String::from_str("tr.finish()?"),
            _ => String::new(),
        }
    }
}

} // verus!
