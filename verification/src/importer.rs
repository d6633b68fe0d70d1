//! Planning the import of a file: the statements that the engine is to run.

use vstd::prelude::*;

use crate::protocol::FileFmt;
use crate::text::concat3;

verus! {

/// How a file is imported.
#[derive(Debug, Clone)]
pub struct ImportConfig {
    /// The table to load into.
    pub table_name: String,
    /// Whether a table of that name is dropped first.
    pub overwrite: bool,
}

impl ImportConfig {
    /// A configuration that keeps an existing table.
    pub fn new(table_name: String) -> (config: ImportConfig)
        ensures
            config.table_name == table_name,
            !config.overwrite,
    {
        ImportConfig { table_name, overwrite: false }
    }
}

/// The table that a file is loaded into where the command names none.
pub open spec fn default_table() -> Seq<char> {
    "imported_data"@
}

/// The name of the engine's reader for a format.
pub open spec fn reader_of(fmt: FileFmt) -> Seq<char> {
    match fmt {
        FileFmt::Csv => "read_csv_auto"@,
        FileFmt::Parquet => "read_parquet"@,
        FileFmt::Json => "read_json_auto"@,
    }
}

/// The statement that drops a table if it exists.
pub open spec fn drop_text(table: Seq<char>) -> Seq<char> {
    "DROP TABLE IF EXISTS "@ + table
}

/// The statement that loads a file into a new table.
pub open spec fn load_text(fmt: FileFmt, table: Seq<char>, path: Seq<char>) -> Seq<char> {
    "CREATE TABLE "@ + table + " AS SELECT * FROM "@ + reader_of(fmt) + "('"@ + path + "')"@
}

/// The query that reads a table back after the load.
pub open spec fn verify_text(table: Seq<char>) -> Seq<char> {
    "SELECT * FROM "@ + table
}

/// The statements of one import, in the order in which they are run.
#[derive(Debug)]
pub struct ImportPlan {
    /// Drops the table first; only where the import overwrites.
    pub drop: Option<String>,
    /// Loads the file into the table.
    pub load: String,
    /// Reads the table back, for the counts and the preview.
    pub verify: String,
}

/// The characters of an optional statement.
pub open spec fn statement_view(statement: Option<String>) -> Option<Seq<char>> {
    match statement {
        Some(s) => Some(s@),
        None => None,
    }
}

/// The table that an import loads into: the one named, or the default.
pub fn table_or_default(table_name: &Option<String>) -> (table: String)
    ensures
        table@ == (match *table_name {
            Some(name) => name@,
            None => default_table(),
        }),
{
    match table_name {
        Some(name) => name.clone(),
        None => String::from_str("imported_data"),
    }
}

/// The name of the engine's reader for a format.
pub fn reader(fmt: FileFmt) -> (name: &'static str)
    ensures
        name@ == reader_of(fmt),
{
    match fmt {
        FileFmt::Csv => "read_csv_auto",
        FileFmt::Parquet => "read_parquet",
        FileFmt::Json => "read_json_auto",
    }
}

/// The statement that drops a table if it exists.
pub fn drop_statement(table: &str) -> (sql: String)
    ensures
        sql@ == drop_text(table@),
{
    let mut sql = String::from_str("DROP TABLE IF EXISTS ");
    sql.append(table);
    sql
}

/// The statement that loads a file of the given format into a new table.
pub fn load_statement(fmt: FileFmt, table: &str, path: &str) -> (sql: String)
    ensures
        sql@ == load_text(fmt, table@, path@),
{
    let mut sql = concat3("CREATE TABLE ", table, " AS SELECT * FROM ");
    sql.append(reader(fmt));
    sql.append("('");
    sql.append(path);
    sql.append("')");
    sql
}

/// The query that reads a table back.
pub fn verify_statement(table: &str) -> (sql: String)
    ensures
        sql@ == verify_text(table@),
{
    let mut sql = String::from_str("SELECT * FROM ");
    sql.append(table);
    sql
}

/// Plans the import of a file: an existing table is dropped first only
/// where the configuration overwrites; then the file is loaded, and the
/// table is read back.
pub fn plan_import(path: &str, fmt: FileFmt, config: &ImportConfig) -> (plan: ImportPlan)
    ensures
        statement_view(plan.drop) == (if config.overwrite {
            Some(drop_text(config.table_name@))
        } else {
            None
        }),
        plan.load@ == load_text(fmt, config.table_name@, path@),
        plan.verify@ == verify_text(config.table_name@),
{
    let table = config.table_name.as_str();
    let drop = if config.overwrite {
        Some(drop_statement(table))
    } else {
        None
    };
    ImportPlan { drop, load: load_statement(fmt, table, path), verify: verify_statement(table) }
}

/// The percentage that `bytes_processed` is of `total_bytes`, rounded down
/// and at most 100; a transfer of nothing is complete.
pub open spec fn percent_of(bytes_processed: u64, total_bytes: u64) -> int {
    if total_bytes == 0 || bytes_processed >= total_bytes {
        100
    } else {
        (bytes_processed * 100) / (total_bytes as int)
    }
}

/// A percentage lies between 0 and 100.
pub proof fn lemma_percent_bounds(bytes_processed: u64, total_bytes: u64)
    ensures
        0 <= percent_of(bytes_processed, total_bytes) <= 100,
{
    if !(total_bytes == 0 || bytes_processed >= total_bytes) {
        assert(0 <= (bytes_processed * 100) / (total_bytes as int) <= 100) by (nonlinear_arith)
            requires
                0 <= bytes_processed < total_bytes,
        ;
    }
}

/// How far a transfer has come, in percent.
pub fn progress_percent(bytes_processed: u64, total_bytes: u64) -> (pct: u8)
    ensures
        pct == percent_of(bytes_processed, total_bytes),
        pct <= 100,
{
    if total_bytes == 0 || bytes_processed >= total_bytes {
        100
    } else {
        let scaled: u128 = (bytes_processed as u128) * 100;
        let pct: u128 = scaled / (total_bytes as u128);
        assert(pct < 100) by (nonlinear_arith)
            requires
                pct == (bytes_processed * 100) / (total_bytes as int),
                bytes_processed < total_bytes,
                total_bytes > 0,
        ;
        pct as u8
    }
}

} // verus!
