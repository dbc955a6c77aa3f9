use vstd::prelude::*;
use crate::column::ColumnDef;
use crate::inspector::{names_ascending, order_table_names};
use crate::namer::{identifier_for, record_type};

verus! {

/// The source line that declares one record field.
pub open spec fn field_line(d: ColumnDef) -> Seq<char> {
    "    pub "@ + d.col_name@ + ": "@ + d.type_def@ + ",\n"@
}

/// The field lines of a record, in column order.
pub open spec fn fields_text(cols: Seq<ColumnDef>) -> Seq<char>
    decreases cols.len(),
{
    if cols.len() == 0 {
        Seq::empty()
    } else {
        fields_text(cols.drop_last()) + field_line(cols.last())
    }
}

/// The per-table artifact: a record named after the table, one field per column.
pub open spec fn table_text(table: Seq<char>, cols: Seq<ColumnDef>) -> Seq<char> {
    "use super::types::*;\n\n#[derive(Debug)]\npub struct "@ + identifier_for(table) + " {\n"@
        + fields_text(cols) + "}\n"@
}

/// One line per name: `pre`, the name, `post`.
pub open spec fn lines_of(names: Seq<String>, pre: Seq<char>, post: Seq<char>) -> Seq<char>
    decreases names.len(),
{
    if names.len() == 0 {
        Seq::empty()
    } else {
        lines_of(names.drop_last(), pre, post) + pre + names.last()@ + post
    }
}

/// The aggregator artifact: declares each table's unit and re-exports it.
pub open spec fn module_text(tables: Seq<String>) -> Seq<char> {
    "mod types;\n\npub use types::*;\n\n"@ + lines_of(tables, "mod "@, ";\n"@) + "\n"@ + lines_of(
        tables,
        "pub use "@,
        "::*;\n"@,
    )
}

/// Source of the shared artifact that aliases every logical type name.
pub const PRIMITIVE_ALIASES: &'static str = "pub type Connection = sqlx::Pool<sqlx::Postgres>;\n\npub type DbInt4 = i32;\npub type DbInt8 = i64;\npub type DbText = String;\npub type DbVarChar = String;\npub type DbChar = String;\npub type DbTimeStamp = sqlx::types::time::PrimitiveDateTime;\npub type DbUuid = sqlx::types::Uuid;\npub type DbJson = sqlx::types::JsonValue;\n";

/// Appends `pre`, the name, `post` for each name in turn.
fn append_lines(out: &mut String, names: &[String], pre: &str, post: &str)
    ensures
        final(out)@ == old(out)@ + lines_of(names@, pre@, post@),
{
    let mut i: usize = 0;
    assert(names@.subrange(0, 0) =~= Seq::<String>::empty());
    assert(out@ =~= old(out)@ + Seq::<char>::empty());
    while i < names.len()
        invariant
            i <= names.len(),
            out@ == old(out)@ + lines_of(names@.subrange(0, i as int), pre@, post@),
        decreases names.len() - i,
    {
        out.append(pre);
        out.append(names[i].as_str());
        out.append(post);
        assert(names@.subrange(0, i + 1).drop_last() =~= names@.subrange(0, i as int));
        i = i + 1;
        assert(out@ =~= old(out)@ + lines_of(names@.subrange(0, i as int), pre@, post@));
    }
    assert(names@.subrange(0, i as int) =~= names@);
}

/// Source of a table's artifact: its record type with one field per column.
pub fn table_source(table: &str, columns: &[ColumnDef]) -> (r: String)
    ensures
        r@ == table_text(table@, columns@),
{
    let mut out = String::from_str("use super::types::*;\n\n#[derive(Debug)]\npub struct ");
    let name = record_type(table);
    out.append(name.as_str());
    out.append(" {\n");
    let ghost head = out@;
    let mut i: usize = 0;
    assert(columns@.subrange(0, 0) =~= Seq::<ColumnDef>::empty());
    assert(out@ =~= head + fields_text(Seq::<ColumnDef>::empty()));
    while i < columns.len()
        invariant
            i <= columns.len(),
            out@ == head + fields_text(columns@.subrange(0, i as int)),
        decreases columns.len() - i,
    {
        out.append("    pub ");
        out.append(columns[i].col_name.as_str());
        out.append(": ");
        out.append(columns[i].type_def.as_str());
        out.append(",\n");
        assert(columns@.subrange(0, i + 1).drop_last() =~= columns@.subrange(0, i as int));
        i = i + 1;
        assert(out@ =~= head + fields_text(columns@.subrange(0, i as int)));
    }
    assert(columns@.subrange(0, i as int) =~= columns@);
    out.append("}\n");
    out
}

/// Source of the aggregator: every table's unit, declared and re-exported,
/// with the tables in ascending order of name whatever order they come in.
pub fn module_source(tables: &[String]) -> (r: String)
    ensures
        exists|s: Seq<String>|
            names_ascending(s) && s.to_multiset() == tables@.to_multiset() && r@ == module_text(
                s,
            ),
{
    let mut names: Vec<String> = Vec::new();
    let mut i: usize = 0;
    while i < tables.len()
        invariant
            i <= tables.len(),
            names@ == tables@.subrange(0, i as int),
        decreases tables.len() - i,
    {
        names.push(tables[i].clone());
        i = i + 1;
        assert(names@ =~= tables@.subrange(0, i as int));
    }
    assert(names@ =~= tables@);
    let sorted = order_table_names(names);
    let tables = sorted.as_slice();
    let mut out = String::from_str("mod types;\n\npub use types::*;\n\n");
    append_lines(&mut out, tables, "mod ", ";\n");
    out.append("\n");
    append_lines(&mut out, tables, "pub use ", "::*;\n");
    assert(out@ == module_text(sorted@));
    out
}

/// Source of the shared artifact of primitive type aliases.
pub fn types_source() -> (r: String)
    ensures
        r@ == PRIMITIVE_ALIASES@,
{
    String::from_str(PRIMITIVE_ALIASES)
}

/// Name of the file that holds a table's artifact.
pub fn table_file_name(table: &str) -> (r: String)
    ensures
        r@ == table@ + ".rs"@,
{
    String::from_str(table).concat(".rs")
}

/// What an attempt to create the output directory reported.
#[derive(Debug)]
pub enum DirCreation {
    Created,
    AlreadyExists,
    Failed(String),
}

/// Outcome of creating the output directory: whether it was there already, or
/// the failure. A directory that exists already counts as success.
pub fn module_path_outcome(attempt: DirCreation) -> (r: Result<bool, String>)
    ensures
        match attempt {
            DirCreation::Created => r == Ok::<bool, String>(false),
            DirCreation::AlreadyExists => r == Ok::<bool, String>(true),
            DirCreation::Failed(e) => r == Err::<bool, String>(e),
        },
{
    match attempt {
        DirCreation::Created => Ok(false),
        DirCreation::AlreadyExists => Ok(true),
        DirCreation::Failed(e) => Err(e),
    }
}

} // verus!
