//! The failures of a task and the messages they are reported with.

use vstd::prelude::*;

use crate::text::concat3;

verus! {

/// The kinds of failure that a command can end with.
#[derive(Clone, Copy, Debug, PartialEq, Eq, Structural)]
pub enum ErrorKind {
    /// The shared connection could not be locked.
    Connection,
    /// The engine refused the statement.
    Prepare,
    /// The engine failed while running the statement.
    Execution,
    /// The rows could not be turned into columns.
    Conversion,
    /// A file was missing or could not be read.
    Io,
    /// The preview could not be encoded.
    Serialization,
}

/// The context that a message of each kind begins with.
pub open spec fn context_text(kind: ErrorKind) -> Seq<char> {
    match kind {
        ErrorKind::Connection => "Failed to lock connection"@,
        ErrorKind::Prepare => "Failed to prepare SQL statement"@,
        ErrorKind::Execution => "Failed to execute query"@,
        ErrorKind::Conversion => "Failed to convert rows to columns"@,
        ErrorKind::Io => "Failed to read file"@,
        ErrorKind::Serialization => "Failed to encode preview"@,
    }
}

/// A message: the context of the kind, a colon and a space, and the detail.
pub open spec fn message_text(kind: ErrorKind, detail: Seq<char>) -> Seq<char> {
    context_text(kind) + ": "@ + detail
}

/// No message is empty, whatever the detail: each begins with the context
/// of its kind.
pub proof fn lemma_message_nonempty(kind: ErrorKind, detail: Seq<char>)
    ensures
        context_text(kind).len() > 0,
        message_text(kind, detail).len() > 0,
        context_text(kind).is_prefix_of(message_text(kind, detail)),
{
    reveal_strlit("Failed to lock connection");
    reveal_strlit("Failed to prepare SQL statement");
    reveal_strlit("Failed to execute query");
    reveal_strlit("Failed to convert rows to columns");
    reveal_strlit("Failed to read file");
    reveal_strlit("Failed to encode preview");
}

/// A failure: its kind and what the failing component said.
#[derive(Debug)]
pub struct TaskError {
    pub kind: ErrorKind,
    pub detail: String,
}

impl TaskError {
    /// A failure of the given kind.
    pub fn new(kind: ErrorKind, detail: String) -> (e: TaskError)
        ensures
            e.kind == kind,
            e.detail == detail,
    {
        TaskError { kind, detail }
    }

    /// The context that messages of a kind begin with.
    pub fn context(kind: ErrorKind) -> (s: &'static str)
        ensures
            s@ == context_text(kind),
            s@.len() > 0,
    {
        proof {
            reveal_strlit("Failed to lock connection");
            reveal_strlit("Failed to prepare SQL statement");
            reveal_strlit("Failed to execute query");
            reveal_strlit("Failed to convert rows to columns");
            reveal_strlit("Failed to read file");
            reveal_strlit("Failed to encode preview");
        }
        match kind {
            ErrorKind::Connection => "Failed to lock connection",
            ErrorKind::Prepare => "Failed to prepare SQL statement",
            ErrorKind::Execution => "Failed to execute query",
            ErrorKind::Conversion => "Failed to convert rows to columns",
            ErrorKind::Io => "Failed to read file",
            ErrorKind::Serialization => "Failed to encode preview",
        }
    }

    /// The message that the failure is reported with. It is never empty.
    pub fn message(&self) -> (s: String)
        ensures
            s@ == message_text(self.kind, self.detail@),
            s@.len() > 0,
    {
        concat3(TaskError::context(self.kind), ": ", self.detail.as_str())
    }
}

} // verus!
