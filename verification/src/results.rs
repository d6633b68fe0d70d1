//! What a front end makes of the events of a task: the result that it
//! returns to its caller and the status line that it shows.

use vstd::prelude::*;

use crate::dispatch::{is_terminal, QueryResult};
use crate::importer::{default_table, table_or_default};
use crate::protocol::{lowered, matches_ignoring_case, EventKind, FileFmt, KindSpec};
use crate::text::{concat3, nat_text, usize_to_text};

verus! {

/// The outcome of an import, an export or a cancellation.
#[derive(Debug, Clone)]
pub struct OperationResult {
    pub success: bool,
    pub message: String,
    /// The table of an import.
    pub table_name: Option<String>,
    /// The rows of an import.
    pub row_count: Option<usize>,
    /// The columns of an import.
    pub column_count: Option<usize>,
}

/// The format that a front end names for a transfer: `csv`, or `parquet`
/// or `pq`, whatever the case.
pub open spec fn transfer_format_of(format: Seq<char>) -> Option<FileFmt> {
    let lower = lowered(format);
    if lower == "csv"@ {
        Some(FileFmt::Csv)
    } else if lower == "parquet"@ || lower == "pq"@ {
        Some(FileFmt::Parquet)
    } else {
        None
    }
}

/// The message for a format that transfers do not take.
pub open spec fn unsupported_format_text(format: Seq<char>) -> Seq<char> {
    "Unsupported format: "@ + format
}

/// Reads the format that a front end names for a transfer.
pub fn transfer_format(format: &str) -> (result: Result<FileFmt, String>)
    ensures
        match result {
            Ok(fmt) => transfer_format_of(format@) == Some(fmt),
            Err(message) => transfer_format_of(format@) is None && message@
                == unsupported_format_text(format@),
        },
{
    if matches_ignoring_case(format, "csv") {
        Ok(FileFmt::Csv)
    } else if matches_ignoring_case(format, "parquet") || matches_ignoring_case(format, "pq") {
        Ok(FileFmt::Parquet)
    } else {
        let mut message = String::from_str("Unsupported format: ");
        message.append(format);
        Err(message)
    }
}

/// The message of a finished import.
pub open spec fn imported_text(table: Seq<char>, rows: nat, columns: nat) -> Seq<char> {
    "File imported successfully to table '"@ + table + "' ("@ + nat_text(rows) + " rows, "@
        + nat_text(columns) + " columns)"@
}

/// The status line for an event.
pub open spec fn status_text(kind: KindSpec) -> Seq<char> {
    match kind {
        KindSpec::Started => "Query started..."@,
        KindSpec::Progress { pct, .. } => "Progress: "@ + nat_text(pct as nat) + "%"@,
        KindSpec::Finished { row_count, column_count, .. } => "Completed: "@ + nat_text(
            row_count as nat,
        ) + " rows, "@ + nat_text(column_count as nat) + " columns"@,
        KindSpec::Error(message) => "Error: "@ + message,
    }
}

/// The line that a front end shows for an event.
pub fn status_line(kind: &EventKind) -> (line: String)
    ensures
        line@ == status_text(kind@),
{
    match kind {
        EventKind::Started => String::from_str("Query started..."),
        EventKind::Progress { pct, .. } => concat3(
            "Progress: ",
            usize_to_text(*pct as usize).as_str(),
            "%",
        ),
        EventKind::Finished { row_count, column_count, .. } => {
            let mut line = concat3("Completed: ", usize_to_text(*row_count).as_str(), " rows, ");
            line.append(usize_to_text(*column_count).as_str());
            line.append(" columns");
            line
        },
        EventKind::Error(message) => {
            let mut line = String::from_str("Error: ");
            line.append(message.as_str());
            line
        },
    }
}

/// Whether an event ends the task, so that the front end stops waiting.
pub fn ends_task(kind: &EventKind) -> (ended: bool)
    ensures
        ended == is_terminal(kind@),
{
    match kind {
        EventKind::Finished { .. } => true,
        EventKind::Error(_) => true,
        _ => false,
    }
}

/// What a front end shows of the task that it waits for.
#[derive(Debug, Clone)]
pub struct ViewState {
    /// The status line.
    pub status: String,
    /// The text of the result area.
    pub results: String,
    /// Whether a task is under way.
    pub is_executing: bool,
}

/// What the contracts say of a `ViewState`.
pub struct ViewSpec {
    pub status: Seq<char>,
    pub results: Seq<char>,
    pub is_executing: bool,
}

impl View for ViewState {
    type V = ViewSpec;

    open spec fn view(&self) -> ViewSpec {
        ViewSpec { status: self.status@, results: self.results@, is_executing: self.is_executing }
    }
}

/// The text of the result area for a finished task: the counts, each on a
/// line of its own, and the preview under a heading.
pub open spec fn finished_text(rows: nat, columns: nat, preview: Seq<char>) -> Seq<char> {
    "Rows: "@ + nat_text(rows) + "\nColumns: "@ + nat_text(columns) + "\n\nPreview:\n"@ + preview
}

/// The view after an event. Each event sets the status line; the result
/// and the failure also fill the result area and end the waiting.
pub open spec fn view_after(view: ViewSpec, kind: KindSpec) -> ViewSpec {
    match kind {
        KindSpec::Finished { row_count, column_count, preview } => ViewSpec {
            status: status_text(kind),
            results: finished_text(row_count as nat, column_count as nat, preview),
            is_executing: false,
        },
        KindSpec::Error(message) => ViewSpec {
            status: status_text(kind),
            results: status_text(kind),
            is_executing: false,
        },
        _ => ViewSpec { status: status_text(kind), ..view },
    }
}

impl ViewState {
    /// The view before any task: ready, with an empty result area.
    pub fn new() -> (view: ViewState)
        ensures
            view@ == (ViewSpec { status: "Ready"@, results: Seq::empty(), is_executing: false }),
    {
        ViewState { status: String::from_str("Ready"), results: String::new(), is_executing: false }
    }

    /// Notes that a task was sent off: the result area is cleared and the
    /// waiting begins.
    pub fn begin(&mut self)
        ensures
            final(self)@ == (ViewSpec {
                status: "Executing..."@,
                results: Seq::empty(),
                is_executing: true,
            }),
    {
        self.status = String::from_str("Executing...");
        self.results = String::new();
        self.is_executing = true;
    }

    /// Takes an event of the task into the view.
    pub fn handle_event(&mut self, kind: &EventKind)
        ensures
            final(self)@ == view_after(old(self)@, kind@),
    {
        self.status = status_line(kind);
        match kind {
            EventKind::Finished { row_count, column_count, preview } => {
                let mut results = concat3("Rows: ", usize_to_text(*row_count).as_str(), "\nColumns: ");
                results.append(usize_to_text(*column_count).as_str());
                results.append("\n\nPreview:\n");
                results.append(preview.as_str());
                self.results = results;
                self.is_executing = false;
            },
            EventKind::Error(_) => {
                self.results = status_line(kind);
                self.is_executing = false;
            },
            _ => {},
        }
    }
}

impl QueryResult {
    /// What the caller of a query gets for an event: nothing before the
    /// task ends, then the result, or the failure's message behind
    /// `Query error: `.
    pub fn from_event(kind: &EventKind) -> (outcome: Option<Result<QueryResult, String>>)
        ensures
            match kind@ {
                KindSpec::Finished { row_count, column_count, preview } => outcome matches Some(
                    Ok(result),
                ) && result.row_count == row_count && result.column_count == column_count
                    && result.preview@ == preview,
                KindSpec::Error(message) => outcome matches Some(Err(text)) && text@
                    == "Query error: "@ + message,
                _ => outcome is None,
            },
    {
        match kind {
            EventKind::Finished { row_count, column_count, preview } => Some(
                Ok(
                    QueryResult {
                        row_count: *row_count,
                        column_count: *column_count,
                        preview: preview.clone(),
                    },
                ),
            ),
            EventKind::Error(message) => {
                let mut text = String::from_str("Query error: ");
                text.append(message.as_str());
                Some(Err(text))
            },
            _ => None,
        }
    }
}

/// The characters of an optional name.
pub open spec fn name_view(name: Option<String>) -> Option<Seq<char>> {
    match name {
        Some(s) => Some(s@),
        None => None,
    }
}

/// A copy of an optional name.
fn copy_name(name: &Option<String>) -> (copy: Option<String>)
    ensures
        name_view(copy) == name_view(*name),
{
    match name {
        Some(s) => Some(s.clone()),
        None => None,
    }
}

impl OperationResult {
    /// What the caller of an import gets for an event: nothing before the
    /// task ends; then the success with the table and the counts, or the
    /// failure with its message behind `Import error: `.
    pub fn import_outcome(kind: &EventKind, table_name: &Option<String>) -> (outcome: Option<
        OperationResult,
    >)
        ensures
            match kind@ {
                KindSpec::Finished { row_count, column_count, .. } => {
                    &&& outcome matches Some(result)
                    &&& result.success
                    &&& result.message@ == imported_text(
                        match *table_name {
                            Some(name) => name@,
                            None => default_table(),
                        },
                        row_count as nat,
                        column_count as nat,
                    )
                    &&& name_view(result.table_name) == name_view(*table_name)
                    &&& result.row_count == Some(row_count)
                    &&& result.column_count == Some(column_count)
                },
                KindSpec::Error(message) => {
                    &&& outcome matches Some(result)
                    &&& !result.success
                    &&& result.message@ == "Import error: "@ + message
                    &&& result.table_name is None
                    &&& result.row_count is None
                    &&& result.column_count is None
                },
                _ => outcome is None,
            },
    {
        match kind {
            EventKind::Finished { row_count, column_count, .. } => {
                let table = table_or_default(table_name);
                let mut message = concat3(
                    "File imported successfully to table '",
                    table.as_str(),
                    "' (",
                );
                message.append(usize_to_text(*row_count).as_str());
                message.append(" rows, ");
                message.append(usize_to_text(*column_count).as_str());
                message.append(" columns)");
                Some(
                    OperationResult {
                        success: true,
                        message,
                        table_name: copy_name(table_name),
                        row_count: Some(*row_count),
                        column_count: Some(*column_count),
                    },
                )
            },
            EventKind::Error(error) => {
                let mut message = String::from_str("Import error: ");
                message.append(error.as_str());
                Some(
                    OperationResult {
                        success: false,
                        message,
                        table_name: None,
                        row_count: None,
                        column_count: None,
                    },
                )
            },
            _ => None,
        }
    }

    /// What the caller of an export gets for an event: nothing before the
    /// task ends; then the success, or the failure with its message behind
    /// `Export error: `. Neither names a table or a count.
    pub fn export_outcome(kind: &EventKind) -> (outcome: Option<OperationResult>)
        ensures
            match kind@ {
                KindSpec::Finished { .. } => {
                    &&& outcome matches Some(result)
                    &&& result.success
                    &&& result.message@ == "File exported successfully"@
                    &&& result.table_name is None
                    &&& result.row_count is None
                    &&& result.column_count is None
                },
                KindSpec::Error(message) => {
                    &&& outcome matches Some(result)
                    &&& !result.success
                    &&& result.message@ == "Export error: "@ + message
                    &&& result.table_name is None
                    &&& result.row_count is None
                    &&& result.column_count is None
                },
                _ => outcome is None,
            },
    {
        match kind {
            EventKind::Finished { .. } => Some(
                OperationResult {
                    success: true,
                    message: String::from_str("File exported successfully"),
                    table_name: None,
                    row_count: None,
                    column_count: None,
                },
            ),
            EventKind::Error(error) => {
                let mut message = String::from_str("Export error: ");
                message.append(error.as_str());
                Some(
                    OperationResult {
                        success: false,
                        message,
                        table_name: None,
                        row_count: None,
                        column_count: None,
                    },
                )
            },
            _ => None,
        }
    }

    /// What the caller of a cancellation gets once the command was handled.
    pub fn cancelled() -> (result: OperationResult)
        ensures
            result.success,
            result.message@ == "Task cancelled"@,
            result.table_name is None,
            result.row_count is None,
            result.column_count is None,
    {
        OperationResult {
            success: true,
            message: String::from_str("Task cancelled"),
            table_name: None,
            row_count: None,
            column_count: None,
        }
    }
}

} // verus!
