//! The import of tables as nodes and of foreign keys as edges: what is
//! asked of the database, how rows are batched, how primary keys are
//! matched to the ids of the nodes made from them, and how a schema reads.
//!
//! The database and the graph are reached by the caller; the functions here
//! take what was read and say what to do next.

use crate::helix_engine::types::GraphError;
use crate::protocol::association::{
    find_last, lemma_map_of_absent, lemma_map_of_last, lemma_map_of_push, map_of,
};
use crate::text::{long_to_text, unsigned_to_text, decimal_text, integer_text};
use vstd::prelude::*;
use vstd::std_specs::convert::FromSpecImpl;
use vstd::string::*;

verus! {

/// The error that `rusqlite` reports.
#[verifier::external_type_specification]
#[verifier::external_body]
pub struct ExSqliteError(rusqlite::Error);

/// `rusqlite::Error`'s `Display`: the report of a failed database call.
/// Nothing is claimed of the text.
#[verifier::external_body]
fn sqlite_error_text(e: &rusqlite::Error) -> (text: String) {
    e.to_string()
}

/// The upper-case mapping of a text, character by character, as Unicode
/// defines it.
pub uninterp spec fn unicode_uppercase_text(s: Seq<char>) -> Seq<char>;

/// `str::to_uppercase`: the result is the Unicode upper-case mapping of the
/// text, which this library only names.
#[verifier::external_body]
fn to_uppercase(s: &str) -> (upper: String)
    ensures
        upper@ == unicode_uppercase_text(s@),
{
    s.to_uppercase()
}

/// Why an import failed.
#[derive(Debug)]
pub enum IngestionError {
    SqliteError(rusqlite::Error),
    GraphError(GraphError),
    MappingError(String),
    HttpError(String),
}

impl From<rusqlite::Error> for IngestionError {
    fn from(error: rusqlite::Error) -> (r: IngestionError) {
        IngestionError::SqliteError(error)
    }
}

impl FromSpecImpl<rusqlite::Error> for IngestionError {
    open spec fn obeys_from_spec() -> bool {
        true
    }

    open spec fn from_spec(error: rusqlite::Error) -> IngestionError {
        IngestionError::SqliteError(error)
    }
}

impl IngestionError {
    /// The report of the error: the detail it carries, or the report of the
    /// database.
    pub fn message(&self) -> (text: String)
        ensures
            match *self {
                IngestionError::SqliteError(_) => true,
                IngestionError::GraphError(GraphError::DeserializationError(detail)) => text@
                    == detail@,
                IngestionError::GraphError(GraphError::ConversionError(detail)) => text@ == detail@,
                IngestionError::GraphError(GraphError::StorageError(detail)) => text@ == detail@,
                IngestionError::MappingError(detail) => text@ == detail@,
                IngestionError::HttpError(detail) => text@ == detail@,
            },
    {
        match self {
            IngestionError::SqliteError(e) => sqlite_error_text(e),
            IngestionError::GraphError(e) => e.message(),
            IngestionError::MappingError(detail) => detail.clone(),
            IngestionError::HttpError(detail) => detail.clone(),
        }
    }
}

/// A cell of a row. A real number is carried as the bits of its encoding.
#[derive(Debug, Clone)]
pub enum Value {
    Null,
    Integer(i64),
    Real(u64),
    Text(String),
    Blob(Vec<u8>),
}

#[derive(Debug)]
pub struct ForeignKey {
    pub from_table: String,
    pub from_column: String,
    pub to_table: String,
    pub to_column: String,
}

#[derive(Debug)]
pub struct ColumnInfo {
    pub name: String,
    pub data_type: String,
    pub is_primary_key: bool,
}

/// A table: its columns in their order, the names of those that make up
/// its primary key, and its foreign keys.
#[derive(Debug)]
pub struct TableSchema {
    pub name: String,
    pub columns: Vec<ColumnInfo>,
    pub primary_keys: Vec<String>,
    pub foreign_keys: Vec<ForeignKey>,
}

/// How a foreign key reads.
pub open spec fn foreign_key_text(fk: ForeignKey) -> Seq<char> {
    fk.from_table@ + "."@ + fk.from_column@ + " → "@ + fk.to_table@ + "."@ + fk.to_column@
}

/// How a column reads.
pub open spec fn column_text(c: ColumnInfo) -> Seq<char> {
    if c.is_primary_key {
        c.name@ + " ("@ + c.data_type@ + " (Primary Key)"@ + ")"@
    } else {
        c.name@ + " ("@ + c.data_type@ + ""@ + ")"@
    }
}

/// The first `n` columns, numbered from one.
pub open spec fn columns_text(columns: Seq<ColumnInfo>, n: nat) -> Seq<char>
    decreases n,
{
    if n == 0 || n > columns.len() {
        Seq::empty()
    } else {
        columns_text(columns, (n - 1) as nat) + "  "@ + decimal_text(n) + ". "@ + column_text(
            columns[n - 1],
        ) + "\n"@
    }
}

/// The first `n` names of a primary key, in their order.
pub open spec fn primary_keys_text(keys: Seq<String>, n: nat) -> Seq<char>
    decreases n,
{
    if n == 0 || n > keys.len() {
        Seq::empty()
    } else {
        primary_keys_text(keys, (n - 1) as nat) + "  - "@ + keys[n - 1]@ + "\n"@
    }
}

/// The first `n` foreign keys, numbered from one.
pub open spec fn foreign_keys_text(keys: Seq<ForeignKey>, n: nat) -> Seq<char>
    decreases n,
{
    if n == 0 || n > keys.len() {
        Seq::empty()
    } else {
        foreign_keys_text(keys, (n - 1) as nat) + "  "@ + decimal_text(n) + ". "@
            + foreign_key_text(keys[n - 1]) + "\n"@
    }
}

/// The line that frames a table.
pub open spec fn rule_text() -> Seq<char> {
    "----------------------------------------\n"@
}

/// A section of a table's description: its lines, or a line that says that
/// there are none.
pub open spec fn section_text(count: nat, lines: Seq<char>) -> Seq<char> {
    if count == 0 {
        "  None\n"@
    } else {
        lines
    }
}

/// How a table reads: its name between rules, then its columns, its
/// primary key and its foreign keys, each under its heading.
pub open spec fn table_text(t: TableSchema) -> Seq<char> {
    "Table: "@ + t.name@ + "\n"@ + rule_text() + "Columns:\n"@ + section_text(
        t.columns@.len(),
        columns_text(t.columns@, t.columns@.len()),
    ) + "\n"@ + "Primary Keys:\n"@ + section_text(
        t.primary_keys@.len(),
        primary_keys_text(t.primary_keys@, t.primary_keys@.len()),
    ) + "\n"@ + "Foreign Keys:\n"@ + section_text(
        t.foreign_keys@.len(),
        foreign_keys_text(t.foreign_keys@, t.foreign_keys@.len()),
    ) + rule_text()
}

impl ForeignKey {
    pub fn to_text(&self) -> (text: String)
        ensures
            text@ == foreign_key_text(*self),
    {
        let mut text = self.from_table.clone();
        text.append(".");
        text.append(self.from_column.as_str());
        text.append(" → ");
        text.append(self.to_table.as_str());
        text.append(".");
        text.append(self.to_column.as_str());
        text
    }
}

impl ColumnInfo {
    /// A column as the database describes it: it belongs to the primary key
    /// where its rank in the key is positive.
    pub fn new(name: String, data_type: String, primary_key_rank: i32) -> (c: ColumnInfo)
        ensures
            c.name == name,
            c.data_type == data_type,
            c.is_primary_key == (primary_key_rank > 0),
    {
        ColumnInfo { name, data_type, is_primary_key: primary_key_rank > 0 }
    }

    pub fn to_text(&self) -> (text: String)
        ensures
            text@ == column_text(*self),
    {
        let mut text = self.name.clone();
        text.append(" (");
        text.append(self.data_type.as_str());
        if self.is_primary_key {
            text.append(" (Primary Key)");
        } else {
            text.append("");
        }
        text.append(")");
        text
    }
}

/// The names of the first `n` columns that belong to the primary key.
pub open spec fn key_columns(columns: Seq<ColumnInfo>, n: nat) -> Seq<Seq<char>>
    decreases n,
{
    if n == 0 || n > columns.len() {
        Seq::empty()
    } else if columns[n - 1].is_primary_key {
        key_columns(columns, (n - 1) as nat).push(columns[n - 1].name@)
    } else {
        key_columns(columns, (n - 1) as nat)
    }
}

/// The views of a list of names.
pub open spec fn name_views(names: Seq<String>) -> Seq<Seq<char>> {
    Seq::new(names.len(), |i: int| names[i]@)
}

impl TableSchema {
    /// A table with the given columns and foreign keys. Its primary key is
    /// made of the columns that say so, in their order.
    pub fn new(name: String, columns: Vec<ColumnInfo>, foreign_keys: Vec<ForeignKey>) -> (t:
        TableSchema)
        ensures
            t.name == name,
            t.columns == columns,
            t.foreign_keys == foreign_keys,
            name_views(t.primary_keys@) == key_columns(columns@, columns@.len()),
    {
        let mut primary_keys: Vec<String> = Vec::new();
        let mut i: usize = 0;
        proof {
            assert(name_views(primary_keys@) =~= key_columns(columns@, 0));
        }
        while i < columns.len()
            invariant
                i <= columns@.len(),
                name_views(primary_keys@) == key_columns(columns@, i as nat),
            decreases columns@.len() - i,
        {
            if columns[i].is_primary_key {
                let name = columns[i].name.clone();
                proof {
                    assert(name_views(primary_keys@.push(name)) =~= name_views(primary_keys@).push(
                        name@,
                    ));
                }
                primary_keys.push(name);
            }
            i = i + 1;
        }
        TableSchema { name, columns, primary_keys, foreign_keys }
    }

    pub fn to_text(&self) -> (text: String)
        ensures
            text@ == table_text(*self),
    {
        let columns = self.columns_to_text();
        let primary_keys = self.primary_keys_to_text();
        let foreign_keys = self.foreign_keys_to_text();
        let mut text = String::from_str("Table: ");
        text.append(self.name.as_str());
        text.append("\n");
        text.append("----------------------------------------\n");
        text.append("Columns:\n");
        text.append(columns.as_str());
        text.append("\n");
        text.append("Primary Keys:\n");
        text.append(primary_keys.as_str());
        text.append("\n");
        text.append("Foreign Keys:\n");
        text.append(foreign_keys.as_str());
        text.append("----------------------------------------\n");
        text
    }

    fn columns_to_text(&self) -> (text: String)
        ensures
            text@ == section_text(
                self.columns@.len(),
                columns_text(self.columns@, self.columns@.len()),
            ),
    {
        if self.columns.len() == 0 {
            return String::from_str("  None\n");
        }
        let mut text = String::new();
        let mut i: usize = 0;
        while i < self.columns.len()
            invariant
                i <= self.columns@.len(),
                text@ == columns_text(self.columns@, i as nat),
            decreases self.columns@.len() - i,
        {
            let number = unsigned_to_text((i + 1) as u64);
            let column = self.columns[i].to_text();
            text.append("  ");
            text.append(number.as_str());
            text.append(". ");
            text.append(column.as_str());
            text.append("\n");
            i = i + 1;
        }
        text
    }

    fn primary_keys_to_text(&self) -> (text: String)
        ensures
            text@ == section_text(
                self.primary_keys@.len(),
                primary_keys_text(self.primary_keys@, self.primary_keys@.len()),
            ),
    {
        if self.primary_keys.len() == 0 {
            return String::from_str("  None\n");
        }
        let mut text = String::new();
        let mut i: usize = 0;
        while i < self.primary_keys.len()
            invariant
                i <= self.primary_keys@.len(),
                text@ == primary_keys_text(self.primary_keys@, i as nat),
            decreases self.primary_keys@.len() - i,
        {
            text.append("  - ");
            text.append(self.primary_keys[i].as_str());
            text.append("\n");
            i = i + 1;
        }
        text
    }

    fn foreign_keys_to_text(&self) -> (text: String)
        ensures
            text@ == section_text(
                self.foreign_keys@.len(),
                foreign_keys_text(self.foreign_keys@, self.foreign_keys@.len()),
            ),
    {
        if self.foreign_keys.len() == 0 {
            return String::from_str("  None\n");
        }
        let mut text = String::new();
        let mut i: usize = 0;
        while i < self.foreign_keys.len()
            invariant
                i <= self.foreign_keys@.len(),
                text@ == foreign_keys_text(self.foreign_keys@, i as nat),
            decreases self.foreign_keys@.len() - i,
        {
            let number = unsigned_to_text((i + 1) as u64);
            let key = self.foreign_keys[i].to_text();
            text.append("  ");
            text.append(number.as_str());
            text.append(". ");
            text.append(key.as_str());
            text.append("\n");
            i = i + 1;
        }
        text
    }
}

/// The address of the graph instance that an import talks to where none is
/// given.
pub open spec fn default_instance() -> Seq<char> {
    "http://localhost:6969"@
}

/// The instance to talk to: the one given, or the default one.
pub fn instance_or_default(instance: Option<String>) -> (address: String)
    ensures
        address@ == (match instance {
            Some(given) => given@,
            None => default_instance(),
        }),
{
    match instance {
        Some(given) => given,
        None => String::from_str("http://localhost:6969"),
    }
}

/// The statement that lists the tables of a database.
pub fn tables_query() -> (query: String)
    ensures
        query@ == "SELECT name FROM sqlite_master WHERE type='table' AND name NOT LIKE 'sqlite_%'"@,
{
    String::from_str("SELECT name FROM sqlite_master WHERE type='table' AND name NOT LIKE 'sqlite_%'")
}

fn around(before: &str, middle: &str, after: &str) -> (text: String)
    ensures
        text@ == before@ + middle@ + after@,
{
    let mut text = String::from_str(before);
    text.append(middle);
    text.append(after);
    text
}

/// The statement that describes the columns of a table.
pub fn table_info_query(table: &str) -> (query: String)
    ensures
        query@ == "PRAGMA table_info("@ + table@ + ")"@,
{
    around("PRAGMA table_info(", table, ")")
}

/// The statement that lists the foreign keys of a table.
pub fn foreign_key_query(table: &str) -> (query: String)
    ensures
        query@ == "PRAGMA foreign_key_list("@ + table@ + ")"@,
{
    around("PRAGMA foreign_key_list(", table, ")")
}

/// The statement that counts the rows of a table.
pub fn count_query(table: &str) -> (query: String)
    ensures
        query@ == "SELECT COUNT(*) FROM "@ + table@ + ""@,
{
    around("SELECT COUNT(*) FROM ", table, "")
}

/// The statement that reads the rows of a table.
pub fn rows_query(table: &str) -> (query: String)
    ensures
        query@ == "SELECT * FROM "@ + table@ + ""@,
{
    around("SELECT * FROM ", table, "")
}

/// The statement that pairs each row of a table with the row its foreign
/// key points to.
pub open spec fn join_text(primary_key: Seq<char>, fk: ForeignKey) -> Seq<char> {
    "SELECT a."@ + primary_key + ", a."@ + fk.from_column@ + " FROM "@ + fk.from_table@
        + " a JOIN "@ + fk.to_table@ + " b ON a."@ + fk.from_column@ + " = b."@ + fk.to_column@
}

/// The statement that reads the pairs a foreign key links: the first name
/// of the table's primary key with the key's own column. A table without a
/// primary key has no such pairs to read.
pub fn join_query(schema: &TableSchema, fk: &ForeignKey) -> (r: Result<String, IngestionError>)
    ensures
        match r {
            Ok(query) => schema.primary_keys@.len() > 0 && query@ == join_text(
                schema.primary_keys@[0]@,
                *fk,
            ),
            Err(e) => schema.primary_keys@.len() == 0 && e is MappingError && e->MappingError_0@
                == "No primary key found for table "@ + schema.name@ + ""@,
        },
{
    if schema.primary_keys.len() == 0 {
        return Err(
            IngestionError::MappingError(
                around("No primary key found for table ", schema.name.as_str(), ""),
            ),
        );
    }
    let mut query = String::from_str("SELECT a.");
    query.append(schema.primary_keys[0].as_str());
    query.append(", a.");
    query.append(fk.from_column.as_str());
    query.append(" FROM ");
    query.append(fk.from_table.as_str());
    query.append(" a JOIN ");
    query.append(fk.to_table.as_str());
    query.append(" b ON a.");
    query.append(fk.from_column.as_str());
    query.append(" = b.");
    query.append(fk.to_column.as_str());
    Ok(query)
}

/// Where nodes are sent to.
pub fn nodes_url(instance: &str) -> (url: String)
    ensures
        url@ == ""@ + instance@ + "/ingestnodes"@,
{
    around("", instance, "/ingestnodes")
}

/// Where edges are sent to.
pub fn edges_url(instance: &str) -> (url: String)
    ensures
        url@ == ""@ + instance@ + "/ingestedges"@,
{
    around("", instance, "/ingestedges")
}

/// The type of the edges made from a foreign key: the two table names in
/// upper case around `_TO_`.
pub fn edge_type_name(from_table: &str, to_table: &str) -> (name: String)
    ensures
        name@ == unicode_uppercase_text(from_table@) + "_TO_"@ + unicode_uppercase_text(to_table@),
{
    let to = to_uppercase(to_table);
    let mut name = to_uppercase(from_table);
    name.append("_TO_");
    name.append(to.as_str());
    name
}

/// The text of a primary key value: a text as it stands, an integer in
/// decimal. No other value can be a primary key.
pub open spec fn key_text(value: Value) -> Option<Seq<char>> {
    match value {
        Value::Text(text) => Some(text@),
        Value::Integer(i) => Some(integer_text(i as int)),
        _ => None,
    }
}

/// Reads the value of a primary key column.
pub fn primary_key_text(column: &str, value: &Value) -> (r: Result<String, IngestionError>)
    ensures
        match r {
            Ok(text) => key_text(*value) == Some(text@),
            Err(e) => key_text(*value) is None && e is MappingError && e->MappingError_0@
                == "Unsupported primary key type for column "@ + column@ + ""@,
        },
{
    match value {
        Value::Text(text) => Ok(text.clone()),
        Value::Integer(i) => Ok(long_to_text(*i)),
        _ => Err(
            IngestionError::MappingError(
                around("Unsupported primary key type for column ", column, ""),
            ),
        ),
    }
}

/// The primary key of a row after its first `n` cells: the text of the last
/// cell in a primary key column, empty where there is none; or nothing
/// where a cell in a primary key column cannot be a key.
pub open spec fn row_key(row: Seq<(String, Value)>, primary_keys: Seq<Seq<char>>, n: nat) -> Option<
    Seq<char>,
>
    decreases n,
{
    if n == 0 || n > row.len() {
        Some(Seq::empty())
    } else {
        match row_key(row, primary_keys, (n - 1) as nat) {
            None => None,
            Some(before) => if primary_keys.contains(row[n - 1].0@) {
                key_text(row[n - 1].1)
            } else {
                Some(before)
            },
        }
    }
}

fn holds_name(names: &Vec<String>, name: &String) -> (found: bool)
    ensures
        found == name_views(names@).contains(name@),
{
    let mut i: usize = 0;
    while i < names.len()
        invariant
            i <= names@.len(),
            forall|j: int| 0 <= j < i ==> (#[trigger] name_views(names@)[j]) != name@,
        decreases names@.len() - i,
    {
        if names[i] == *name {
            proof {
                assert(name_views(names@)[i as int] == name@);
            }
            return true;
        }
        i = i + 1;
    }
    false
}

/// Reads the primary key of a row, whose cells come with the names of
/// their columns, in the order of the columns. The first cell that cannot
/// be a key fails the row, with the name of its column.
pub fn primary_key_of_row(row: &Vec<(String, Value)>, schema: &TableSchema) -> (r: Result<
    String,
    IngestionError,
>)
    ensures
        match r {
            Ok(key) => row_key(row@, name_views(schema.primary_keys@), row@.len()) == Some(key@),
            Err(e) => e is MappingError && row_key(
                row@,
                name_views(schema.primary_keys@),
                row@.len(),
            ) is None,
        },
{
    let mut key = String::new();
    let mut i: usize = 0;
    while i < row.len()
        invariant
            i <= row@.len(),
            row_key(row@, name_views(schema.primary_keys@), i as nat) == Some(key@),
        decreases row@.len() - i,
    {
        if holds_name(&schema.primary_keys, &row[i].0) {
            match primary_key_text(row[i].0.as_str(), &row[i].1) {
                Ok(text) => {
                    key = text;
                },
                Err(e) => {
                    proof {
                        lemma_row_key_stays_none(
                            row@,
                            name_views(schema.primary_keys@),
                            (i + 1) as nat,
                            row@.len(),
                        );
                    }
                    return Err(e);
                },
            }
        }
        i = i + 1;
    }
    Ok(key)
}

/// A row that has failed stays failed.
pub proof fn lemma_row_key_stays_none(
    row: Seq<(String, Value)>,
    primary_keys: Seq<Seq<char>>,
    k: nat,
    n: nat,
)
    requires
        k <= n <= row.len(),
        row_key(row, primary_keys, k) is None,
    ensures
        row_key(row, primary_keys, n) is None,
    decreases n,
{
    if k < n {
        lemma_row_key_stays_none(row, primary_keys, k, (n - 1) as nat);
    }
}

/// Whether the nodes read so far are sent now: after every full batch, and
/// after the last row.
pub fn node_batch_is_due(row_count: usize, batch_size: usize, max_rows: usize) -> (due: bool)
    requires
        batch_size > 0,
    ensures
        due == (row_count % batch_size == 0 || row_count == max_rows),
{
    row_count % batch_size == 0 || row_count == max_rows
}

/// Whether the edges made so far are sent now: once a batch is full, and
/// once the rows are exhausted after at least one edge.
pub fn edge_batch_is_due(batch_len: usize, batch_size: usize, edge_count: usize, exhausted: bool) -> (due:
    bool)
    ensures
        due == (batch_len >= batch_size || (edge_count >= 1 && exhausted)),
{
    batch_len >= batch_size || (edge_count >= 1 && exhausted)
}

/// Checks that the graph answered with one id per node sent.
pub fn check_node_ids(sent: usize, received: usize, table: &str) -> (r: Result<(), IngestionError>)
    ensures
        match r {
            Ok(_) => sent == received,
            Err(e) => sent != received && e is HttpError && e->HttpError_0@ == "Expected "@
                + decimal_text(sent as nat) + " node IDs for table "@ + table@ + ", got "@
                + decimal_text(received as nat),
        },
{
    if sent == received {
        Ok(())
    } else {
        let expected = unsigned_to_text(sent as u64);
        let got = unsigned_to_text(received as u64);
        let mut detail = String::from_str("Expected ");
        detail.append(expected.as_str());
        detail.append(" node IDs for table ");
        detail.append(table);
        detail.append(", got ");
        detail.append(got.as_str());
        Err(IngestionError::HttpError(detail))
    }
}

/// The models of a mapping from primary keys to node ids.
pub open spec fn id_pairs(mapping: Seq<(String, u64)>) -> Seq<(Seq<char>, u64)> {
    Seq::new(mapping.len(), |i: int| (mapping[i].0@, mapping[i].1))
}

/// The mapping after the first `n` keys of a batch were matched with the
/// ids the graph gave: every key that is not empty maps to its id.
pub open spec fn recorded(
    mapping: Map<Seq<char>, u64>,
    keys: Seq<String>,
    ids: Seq<u64>,
    n: nat,
) -> Map<Seq<char>, u64>
    decreases n,
{
    if n == 0 || n > keys.len() || n > ids.len() {
        mapping
    } else if keys[n - 1]@.len() == 0 {
        recorded(mapping, keys, ids, (n - 1) as nat)
    } else {
        recorded(mapping, keys, ids, (n - 1) as nat).insert(keys[n - 1]@, ids[n - 1])
    }
}

/// The number of keys that have an id to go with.
pub open spec fn matched(keys: Seq<String>, ids: Seq<u64>) -> nat {
    if keys.len() <= ids.len() {
        keys.len()
    } else {
        ids.len()
    }
}

/// Records which node each primary key of a batch became: the keys and the
/// ids are matched in their order, as far as both go.
pub fn record_node_ids(mapping: &mut Vec<(String, u64)>, keys: &Vec<String>, ids: &Vec<u64>)
    ensures
        map_of(id_pairs(final(mapping)@)) == recorded(
            map_of(id_pairs(old(mapping)@)),
            keys@,
            ids@,
            matched(keys@, ids@),
        ),
{
    let ghost start = map_of(id_pairs(mapping@));
    let mut i: usize = 0;
    while i < keys.len() && i < ids.len()
        invariant
            i <= keys@.len(),
            i <= ids@.len(),
            map_of(id_pairs(mapping@)) == recorded(start, keys@, ids@, i as nat),
        decreases keys@.len() - i,
    {
        if !keys[i].as_str().is_empty() {
            let key = keys[i].clone();
            proof {
                lemma_map_of_push(id_pairs(mapping@), key@, ids@[i as int]);
                assert(id_pairs(mapping@.push((key, ids@[i as int]))) =~= id_pairs(mapping@).push(
                    (key@, ids@[i as int]),
                ));
            }
            mapping.push((key, ids[i]));
        }
        i = i + 1;
    }
}

/// The node a primary key became, if it became one.
pub fn node_id(mapping: &Vec<(String, u64)>, key: &String) -> (id: Option<u64>)
    ensures
        match id {
            Some(id) => map_of(id_pairs(mapping@)).contains_key(key@) && map_of(
                id_pairs(mapping@),
            )[key@] == id,
            None => !map_of(id_pairs(mapping@)).contains_key(key@),
        },
{
    let ghost pairs = id_pairs(mapping@);
    match find_last(mapping, key) {
        Some(i) => {
            proof {
                assert forall|j: int| i < j < pairs.len() implies (#[trigger] pairs[j]).0
                    != pairs[i as int].0 by {
                    assert(mapping@[j].0@ != key@);
                }
                lemma_map_of_last(pairs, i as int);
            }
            Some(mapping[i].1)
        },
        None => {
            proof {
                assert forall|j: int| 0 <= j < pairs.len() implies (#[trigger] pairs[j]).0
                    != key@ by {
                    assert(mapping@[j].0@ != key@);
                }
                lemma_map_of_absent(pairs, key@);
            }
            None
        },
    }
}

/// The two ends of the edge that a pair of keys stands for: the nodes the
/// two keys became. A pair with a key that became no node makes no edge.
pub fn edge_ends(
    from_mapping: &Vec<(String, u64)>,
    to_mapping: &Vec<(String, u64)>,
    from_key: &String,
    to_key: &String,
) -> (ends: Option<(u64, u64)>)
    ensures
        match ends {
            Some((from, to)) => {
                &&& map_of(id_pairs(from_mapping@)).contains_key(from_key@)
                &&& map_of(id_pairs(to_mapping@)).contains_key(to_key@)
                &&& from == map_of(id_pairs(from_mapping@))[from_key@]
                &&& to == map_of(id_pairs(to_mapping@))[to_key@]
            },
            None => !map_of(id_pairs(from_mapping@)).contains_key(from_key@) || !map_of(
                id_pairs(to_mapping@),
            ).contains_key(to_key@),
        },
{
    match node_id(from_mapping, from_key) {
        Some(from) => match node_id(to_mapping, to_key) {
            Some(to) => Some((from, to)),
            None => None,
        },
        None => None,
    }
}

/// The error for a table whose rows were not imported before its edges.
pub fn missing_mapping(table: &str) -> (e: IngestionError)
    ensures
        e is MappingError,
        e->MappingError_0@ == "No ID mappings found for table "@ + table@ + ""@,
{
    IngestionError::MappingError(around("No ID mappings found for table ", table, ""))
}

/// The error for a request that the graph answered with a failure status.
pub fn failed_request(url: &str, status: &str) -> (e: IngestionError)
    ensures
        e is HttpError,
        e->HttpError_0@ == "Request to "@ + url@ + " failed with status: "@ + status@,
{
    let mut detail = String::from_str("Request to ");
    detail.append(url);
    detail.append(" failed with status: ");
    detail.append(status);
    IngestionError::HttpError(detail)
}

/// The error for a request that could not be sent.
pub fn failed_send(what: &str, url: &str, cause: &str) -> (e: IngestionError)
    ensures
        e is HttpError,
        e->HttpError_0@ == "Failed to send "@ + what@ + " to "@ + url@ + ": "@ + cause@,
{
    let mut detail = String::from_str("Failed to send ");
    detail.append(what);
    detail.append(" to ");
    detail.append(url);
    detail.append(": ");
    detail.append(cause);
    IngestionError::HttpError(detail)
}

} // verus!
