//! Planning an export: the statement that the engine is to run.

use vstd::prelude::*;

use crate::protocol::FileFmt;

verus! {

/// What is exported.
#[derive(Debug, Clone)]
pub struct ExportConfig {
    /// A table name or a SQL query.
    pub source: String,
    /// Whether `source` is a query rather than a table name.
    pub is_query: bool,
}

impl ExportConfig {
    /// The export of a table.
    pub fn new_table(table_name: String) -> (config: ExportConfig)
        ensures
            config.source == table_name,
            !config.is_query,
    {
        ExportConfig { source: table_name, is_query: false }
    }

    /// The export of what a query returns.
    pub fn new_query(sql: String) -> (config: ExportConfig)
        ensures
            config.source == sql,
            config.is_query,
    {
        ExportConfig { source: sql, is_query: true }
    }
}

/// The options that the engine's `COPY` takes for a format.
pub open spec fn copy_options_of(fmt: FileFmt) -> Seq<char> {
    match fmt {
        FileFmt::Csv => "(FORMAT CSV, HEADER TRUE)"@,
        FileFmt::Parquet => "(FORMAT PARQUET)"@,
        FileFmt::Json => "(FORMAT JSON)"@,
    }
}

/// What stands for the source in a `COPY` statement: a table by its name, a
/// query in parentheses.
pub open spec fn copy_source(source: Seq<char>, is_query: bool) -> Seq<char> {
    if is_query {
        "("@ + source + ")"@
    } else {
        source
    }
}

/// The statement that writes a table or a query to a file.
pub open spec fn export_text(
    source: Seq<char>,
    is_query: bool,
    path: Seq<char>,
    fmt: FileFmt,
) -> Seq<char> {
    "COPY "@ + copy_source(source, is_query) + " TO '"@ + path + "' "@ + copy_options_of(fmt)
}

/// The options that the engine's `COPY` takes for a format.
pub fn copy_options(fmt: FileFmt) -> (options: &'static str)
    ensures
        options@ == copy_options_of(fmt),
{
    match fmt {
        FileFmt::Csv => "(FORMAT CSV, HEADER TRUE)",
        FileFmt::Parquet => "(FORMAT PARQUET)",
        FileFmt::Json => "(FORMAT JSON)",
    }
}

/// Builds the statement that writes the configured source to a file of the
/// given format.
pub fn export_statement(config: &ExportConfig, path: &str, fmt: FileFmt) -> (sql: String)
    ensures
        sql@ == export_text(config.source@, config.is_query, path@, fmt),
{
    let mut sql = String::from_str("COPY ");
    if config.is_query {
        sql.append("(");
        sql.append(config.source.as_str());
        sql.append(")");
    } else {
        sql.append(config.source.as_str());
    }
    sql.append(" TO '");
    sql.append(path);
    sql.append("' ");
    sql.append(copy_options(fmt));
    assert(sql@ =~= export_text(config.source@, config.is_query, path@, fmt));
    sql
}

} // verus!
