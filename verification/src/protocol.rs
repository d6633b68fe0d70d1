//! The commands that front ends send and the events that they receive.

use vstd::prelude::*;

verus! {

/// An event of a task, as pushed to the front ends.
#[derive(Clone, Debug)]
pub struct UiEvent {
    /// The task that the event belongs to.
    pub task_id: u64,
    pub kind: EventKind,
}

/// The kinds of event.
#[derive(Clone, Debug)]
pub enum EventKind {
    /// The task was accepted.
    Started,
    /// The task has come this far.
    Progress {
        /// Percent done, from 0 to 100.
        pct: u8,
        bytes_processed: u64,
        total_bytes: u64,
        /// Seconds left, where an estimate exists.
        eta_seconds: Option<u32>,
    },
    /// The task succeeded.
    Finished {
        row_count: usize,
        column_count: usize,
        /// The first rows of the result, as a JSON array of objects.
        preview: String,
    },
    /// The task failed, with a message.
    Error(String),
}

/// What the contracts say of an `EventKind`.
pub enum KindSpec {
    Started,
    Progress { pct: u8, bytes_processed: u64, total_bytes: u64, eta_seconds: Option<u32> },
    Finished { row_count: usize, column_count: usize, preview: Seq<char> },
    Error(Seq<char>),
}

/// What the contracts say of a `UiEvent`.
pub struct EventSpec {
    pub task_id: u64,
    pub kind: KindSpec,
}

impl View for EventKind {
    type V = KindSpec;

    open spec fn view(&self) -> KindSpec {
        match self {
            EventKind::Started => KindSpec::Started,
            EventKind::Progress { pct, bytes_processed, total_bytes, eta_seconds } => {
                KindSpec::Progress {
                    pct: *pct,
                    bytes_processed: *bytes_processed,
                    total_bytes: *total_bytes,
                    eta_seconds: *eta_seconds,
                }
            },
            EventKind::Finished { row_count, column_count, preview } => KindSpec::Finished {
                row_count: *row_count,
                column_count: *column_count,
                preview: preview@,
            },
            EventKind::Error(message) => KindSpec::Error(message@),
        }
    }
}

impl View for UiEvent {
    type V = EventSpec;

    open spec fn view(&self) -> EventSpec {
        EventSpec { task_id: self.task_id, kind: self.kind@ }
    }
}

/// A command of a front end.
#[derive(Debug)]
pub struct Command {
    /// The task that the command starts.
    pub task_id: u64,
    pub cmd_type: CmdType,
}

/// The kinds of command.
#[derive(Debug)]
pub enum CmdType {
    /// Run a SQL statement.
    ExecuteSql { sql: String },
    /// Load a file into a table.
    ImportFile {
        path: String,
        fmt: FileFmt,
        /// The table to load into; a default name where there is none.
        table_name: Option<String>,
        /// Whether a table of that name is dropped first.
        overwrite: bool,
    },
    /// Write a table, or the result of a query, to a file.
    ExportFile { source: String, path: String, fmt: FileFmt },
    /// Ask a task to stop.
    Cancel { task_id: u64 },
}

/// The file formats of import and export.
#[derive(Clone, Copy, Debug, PartialEq, Eq, Structural)]
pub enum FileFmt {
    Csv,
    Parquet,
    Json,
}

/// The lower-case form of an ASCII capital; any other character unchanged.
pub open spec fn ascii_lower(c: char) -> char {
    if 'A' <= c && c <= 'Z' {
        ((c as u8) + 32) as char
    } else {
        c
    }
}

/// A text with its ASCII capitals in lower case.
pub open spec fn lowered(s: Seq<char>) -> Seq<char> {
    s.map_values(|c: char| ascii_lower(c))
}

/// The format that a file extension stands for, whatever its case: `csv`;
/// `parquet` or `pq`; `json` or `jsonl`.
pub open spec fn format_of_extension(ext: Seq<char>) -> Option<FileFmt> {
    let lower = lowered(ext);
    if lower == "csv"@ {
        Some(FileFmt::Csv)
    } else if lower == "parquet"@ || lower == "pq"@ {
        Some(FileFmt::Parquet)
    } else if lower == "json"@ || lower == "jsonl"@ {
        Some(FileFmt::Json)
    } else {
        None
    }
}

/// The extension that files of a format are given.
pub open spec fn extension_of(fmt: FileFmt) -> Seq<char> {
    match fmt {
        FileFmt::Csv => "csv"@,
        FileFmt::Parquet => "parquet"@,
        FileFmt::Json => "json"@,
    }
}

/// Puts an ASCII capital in lower case.
fn to_ascii_lower(c: char) -> (r: char)
    ensures
        r == ascii_lower(c),
{
    if 'A' <= c && c <= 'Z' {
        ((c as u8) + 32) as char
    } else {
        c
    }
}

/// Whether a text, with its ASCII capitals in lower case, is the given word.
pub fn matches_ignoring_case(text: &str, word: &str) -> (r: bool)
    ensures
        r == (lowered(text@) == word@),
{
    let n = text.unicode_len();
    if n != word.unicode_len() {
        return false;
    }
    let mut i: usize = 0;
    while i < n
        invariant
            n == text@.len(),
            n == word@.len(),
            i <= n,
            forall|k: int| 0 <= k < i ==> ascii_lower(#[trigger] text@[k]) == word@[k],
        decreases n - i,
    {
        if to_ascii_lower(text.get_char(i)) != word.get_char(i) {
            assert(lowered(text@)[i as int] != word@[i as int]);
            return false;
        }
        i += 1;
    }
    assert(lowered(text@) =~= word@);
    true
}

impl FileFmt {
    /// Infers the format from a file extension, whatever its case.
    pub fn from_extension(ext: &str) -> (fmt: Option<FileFmt>)
        ensures
            fmt == format_of_extension(ext@),
    {
        if matches_ignoring_case(ext, "csv") {
            Some(FileFmt::Csv)
        } else if matches_ignoring_case(ext, "parquet") || matches_ignoring_case(ext, "pq") {
            Some(FileFmt::Parquet)
        } else if matches_ignoring_case(ext, "json") || matches_ignoring_case(ext, "jsonl") {
            Some(FileFmt::Json)
        } else {
            None
        }
    }

    /// The extension that files of the format are given.
    pub fn extension(&self) -> (ext: &'static str)
        ensures
            ext@ == extension_of(*self),
    {
        match self {
            FileFmt::Csv => "csv",
            FileFmt::Parquet => "parquet",
            FileFmt::Json => "json",
        }
    }
}

/// The format of its own extension is the format itself.
pub proof fn lemma_extension_round_trip(fmt: FileFmt)
    ensures
        format_of_extension(extension_of(fmt)) == Some(fmt),
{
    reveal_strlit("csv");
    reveal_strlit("parquet");
    reveal_strlit("pq");
    reveal_strlit("json");
    reveal_strlit("jsonl");
    assert(lowered("csv"@) =~= "csv"@);
    assert(lowered("parquet"@) =~= "parquet"@);
    assert(lowered("json"@) =~= "json"@);
}

} // verus!
