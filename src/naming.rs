use vstd::prelude::*;

use datafusion_common::TableReference;

use crate::model::texts;

verus! {

/// A table reference with one, two or three name parts.
#[derive(Debug, PartialEq, Eq)]
pub enum TableName {
    /// A table name alone, e.g. `tbl`.
    Bare { table: String },
    /// A schema and a table, e.g. `schema.tbl`.
    Partial { schema: String, table: String },
    /// A catalog, a schema and a table, e.g. `db.schema.tbl`.
    Full { catalog: String, schema: String, table: String },
}

impl TableName {
    /// The name parts, outermost first.
    pub open spec fn parts(&self) -> Seq<Seq<char>> {
        match self {
            TableName::Bare { table } => seq![table@],
            TableName::Partial { schema, table } => seq![schema@, table@],
            TableName::Full { catalog, schema, table } => seq![catalog@, schema@, table@],
        }
    }

    /// Builds a reference from its parts, outermost first: one part is a bare
    /// table, two a schema and a table, three a catalog, a schema and a table;
    /// any other count gives `None`.
    pub fn from_parts(parts: Vec<String>) -> (r: Option<TableName>)
        ensures
            r is Some <==> 1 <= parts@.len() <= 3,
            r matches Some(n) ==> n.parts() == texts(parts@),
    {
        let mut parts = parts;
        let ghost given = parts@;
        let n = parts.len();
        if n < 1 || n > 3 {
            return None;
        }
        let table = parts.pop().unwrap();
        if n == 1 {
            assert(texts(given) =~= seq![table@]);
            return Some(TableName::Bare { table });
        }
        let schema = parts.pop().unwrap();
        if n == 2 {
            assert(texts(given) =~= seq![schema@, table@]);
            return Some(TableName::Partial { schema, table });
        }
        let catalog = parts.pop().unwrap();
        assert(texts(given) =~= seq![catalog@, schema@, table@]);
        Some(TableName::Full { catalog, schema, table })
    }
}

/// The parts that the engine's qualified-name reader finds in a name text.
pub uninterp spec fn table_parts_of(text: Seq<char>) -> Seq<Seq<char>>;

/// Relies on datafusion_common::TableReference::parse_str: reads `text` as a
/// dotted SQL identifier of one to three parts, quoting respected (a text it
/// cannot read so becomes one bare part); the parts depend on the text alone.
#[verifier::external_body]
fn parse_table_reference(text: &str) -> (r: TableName)
    ensures
        r.parts() == table_parts_of(text@),
{
    match TableReference::parse_str(text) {
        TableReference::Bare { table } => TableName::Bare { table: table.to_string() },
        TableReference::Partial { schema, table } => TableName::Partial {
            schema: schema.to_string(),
            table: table.to_string(),
        },
        TableReference::Full { catalog, schema, table } => TableName::Full {
            catalog: catalog.to_string(),
            schema: schema.to_string(),
            table: table.to_string(),
        },
    }
}

/// Reads a table name text as a reference of one to three parts.
pub fn qualified_name(text: &str) -> (r: TableName)
    ensures
        r.parts() == table_parts_of(text@),
        1 <= r.parts().len() <= 3,
{
    parse_table_reference(text)
}

/// The corrected name of a planned statement. `statement_name` is the name
/// text of an external-table registration, read here with qualified-name
/// rules, or `None` for any other statement, which keeps `planned`.
pub fn corrected_name(statement_name: Option<&str>, planned: TableName) -> (r: TableName)
    ensures
        r.parts() == match statement_name {
            Some(text) => table_parts_of(text@),
            None => planned.parts(),
        },
{
    let parsed = match statement_name {
        Some(text) => Some(qualified_name(text)),
        None => None,
    };
    registration_name(parsed, planned)
}

/// The name under which a statement registers its table. When the statement
/// registers an external table, `parsed` is the reference read from the name
/// text it gives, and that reference is kept: the planner's own translation
/// folds a dotted name into one bare part. Any other statement keeps the
/// planner's name.
pub fn registration_name(parsed: Option<TableName>, planned: TableName) -> (r: TableName)
    ensures
        r.parts() == match parsed {
            Some(p) => p.parts(),
            None => planned.parts(),
        },
{
    match parsed {
        Some(p) => p,
        None => planned,
    }
}

} // verus!
