//! The life of a task: from the command to its last event.
//!
//! A task hands out the events that are to be published for it and keeps
//! their sequence. The caller publishes each event and performs the work
//! that `plan` asks for.

use vstd::prelude::*;

use crate::batch::{batch_of, inferred_types, BatchSpec, ColumnarBatch};
use crate::columnar::{conversion_fails, is_conversion_failure};
use crate::error::{message_text, TaskError};
use crate::exporter::{export_statement, export_text, ExportConfig};
use crate::importer::{
    default_table, drop_text, lemma_percent_bounds, load_text, percent_of, plan_import,
    progress_percent, statement_view, table_or_default, verify_text, ImportConfig, ImportPlan,
};
use crate::json::array_text;
use crate::preview::{
    batch_row_texts, batch_views, generate_preview, lemma_single_batch, preview_texts, smaller,
    total_rows, PREVIEW_LIMIT,
};
use crate::protocol::{CmdType, Command, EventKind, EventSpec, KindSpec, UiEvent};
use crate::value::{RowSet, SqlValueSpec};

verus! {

/// The states of a task. A task never goes back to a state that it left.
#[derive(Clone, Copy, Debug, PartialEq, Eq, Structural)]
pub enum TaskState {
    /// The command was received and nothing was published.
    Pending,
    /// The start was published.
    Started,
    /// The work is under way.
    Running,
    /// The work succeeded and the result was published.
    Finished,
    /// The work failed and the failure was published.
    Failed,
}

/// The place of a state in the life of a task: later states have higher
/// ranks, and the two ends share the highest.
pub open spec fn state_rank(state: TaskState) -> nat {
    match state {
        TaskState::Pending => 0,
        TaskState::Started => 1,
        TaskState::Running => 2,
        TaskState::Finished => 3,
        TaskState::Failed => 3,
    }
}

/// Whether an event ends its task.
pub open spec fn is_terminal(kind: KindSpec) -> bool {
    kind is Finished || kind is Error
}

/// Whether the events from position `from` up to `to` are all progress
/// reports, each at 100 percent at most and none below the one before.
pub open spec fn progress_between(log: Seq<EventSpec>, from: int, to: int) -> bool {
    &&& forall|k: int|
        from <= k < to ==> (#[trigger] log[k]).kind is Progress && log[k].kind->pct <= 100
    &&& forall|a: int, b: int|
        from <= a <= b < to ==> (#[trigger] log[a]).kind->pct <= (#[trigger] log[b]).kind->pct
}

/// Whether a sequence of events is what a task in the given state has
/// published: nothing while it is pending; then the start; then progress
/// reports while it runs; and last, once it has ended, the result or the
/// failure. Every event carries the task's identifier.
pub open spec fn log_fits(state: TaskState, task_id: u64, log: Seq<EventSpec>) -> bool {
    &&& forall|k: int| 0 <= k < log.len() ==> (#[trigger] log[k]).task_id == task_id
    &&& match state {
        TaskState::Pending => log.len() == 0,
        TaskState::Started => log.len() == 1 && log[0].kind is Started,
        TaskState::Running => {
            &&& log.len() >= 1
            &&& log[0].kind is Started
            &&& progress_between(log, 1, log.len() as int)
        },
        TaskState::Finished => {
            &&& log.len() >= 2
            &&& log[0].kind is Started
            &&& progress_between(log, 1, log.len() - 1)
            &&& log.last().kind is Finished
        },
        TaskState::Failed => {
            &&& log.len() >= 2
            &&& log[0].kind is Started
            &&& progress_between(log, 1, log.len() - 1)
            &&& log.last().kind is Error
        },
    }
}

/// The percentage of the last progress report in a log, 0 where there is
/// none.
pub open spec fn last_percent(log: Seq<EventSpec>) -> int {
    if log.len() > 0 && log.last().kind is Progress {
        log.last().kind->pct as int
    } else {
        0
    }
}

/// What a finished query reports: the counts and the preview.
#[derive(Debug, Clone)]
pub struct QueryResult {
    pub row_count: usize,
    pub column_count: usize,
    /// The first rows, as a JSON array of objects.
    pub preview: String,
}

/// One task: its identifier, its state, and the events published for it.
pub struct Task {
    task_id: u64,
    state: TaskState,
    last_pct: u8,
    log: Ghost<Seq<EventSpec>>,
}

impl Task {
    #[verifier::type_invariant]
    spec fn well_formed(&self) -> bool {
        &&& log_fits(self.state, self.task_id, self.log@)
        &&& self.last_pct <= 100
        &&& self.state == TaskState::Running ==> self.last_pct == last_percent(self.log@)
    }

    /// Whether the published events fit the state. It holds of every task
    /// that the program holds.
    pub closed spec fn valid(&self) -> bool {
        self.well_formed()
    }

    /// The identifier of the task.
    pub closed spec fn id(&self) -> u64 {
        self.task_id
    }

    /// The state of the task.
    pub closed spec fn spec_state(&self) -> TaskState {
        self.state
    }

    /// The events published for the task so far, in order.
    pub closed spec fn log(&self) -> Seq<EventSpec> {
        self.log@
    }

    /// The events of a valid task fit its state.
    pub proof fn lemma_log_fits(&self)
        requires
            self.valid(),
        ensures
            log_fits(self.spec_state(), self.id(), self.log()),
    {
    }

    /// A task for a command that was just received.
    pub fn new(task_id: u64) -> (task: Task)
        ensures
            task.valid(),
            task.id() == task_id,
            task.spec_state() == TaskState::Pending,
            task.log() == Seq::<EventSpec>::empty(),
    {
        Task { task_id, state: TaskState::Pending, last_pct: 0, log: Ghost(Seq::empty()) }
    }

    /// The identifier of the task.
    pub fn task_id(&self) -> (id: u64)
        ensures
            id == self.id(),
    {
        self.task_id
    }

    /// The state of the task.
    pub fn state(&self) -> (state: TaskState)
        ensures
            state == self.spec_state(),
            self.valid(),
    {
        proof {
            use_type_invariant(self);
        }
        self.state
    }

    /// Publishes the start. A pending task becomes started and hands out
    /// its first event; any other task stays as it is.
    pub fn start(&mut self) -> (event: Option<UiEvent>)
        ensures
            final(self).valid(),
            final(self).id() == old(self).id(),
            state_rank(final(self).spec_state()) >= state_rank(old(self).spec_state()),
            event is Some <==> old(self).spec_state() == TaskState::Pending,
            match event {
                Some(e) => {
                    &&& e@ == (EventSpec { task_id: old(self).id(), kind: KindSpec::Started })
                    &&& final(self).spec_state() == TaskState::Started
                    &&& final(self).log() == old(self).log().push(e@)
                },
                None => {
                    &&& final(self).spec_state() == old(self).spec_state()
                    &&& final(self).log() == old(self).log()
                },
            },
    {
        proof {
            use_type_invariant(&*self);
        }
        match self.state {
            TaskState::Pending => {
                let event = UiEvent { task_id: self.task_id, kind: EventKind::Started };
                *self = Task {
                    task_id: self.task_id,
                    state: TaskState::Started,
                    last_pct: 0,
                    log: Ghost(self.log@.push(event@)),
                };
                Some(event)
            },
            _ => None,
        }
    }

    /// Begins the work. A started task becomes running; any other task
    /// stays as it is. Nothing is published.
    pub fn begin(&mut self) -> (begun: bool)
        ensures
            final(self).valid(),
            final(self).id() == old(self).id(),
            state_rank(final(self).spec_state()) >= state_rank(old(self).spec_state()),
            final(self).log() == old(self).log(),
            begun <==> old(self).spec_state() == TaskState::Started,
            final(self).spec_state() == (if begun {
                TaskState::Running
            } else {
                old(self).spec_state()
            }),
    {
        proof {
            use_type_invariant(&*self);
        }
        match self.state {
            TaskState::Started => {
                *self = Task {
                    task_id: self.task_id,
                    state: TaskState::Running,
                    last_pct: 0,
                    log: Ghost(self.log@),
                };
                true
            },
            _ => false,
        }
    }

    /// Reports progress. A running task hands out a progress event; its
    /// percentage is that of the bytes processed, but never below the one
    /// reported before. Any other task stays as it is.
    pub fn progress(&mut self, bytes_processed: u64, total_bytes: u64) -> (event: Option<UiEvent>)
        ensures
            final(self).valid(),
            final(self).id() == old(self).id(),
            state_rank(final(self).spec_state()) >= state_rank(old(self).spec_state()),
            event is Some <==> old(self).spec_state() == TaskState::Running,
            final(self).spec_state() == old(self).spec_state(),
            match event {
                Some(e) => {
                    &&& e@ == (EventSpec {
                        task_id: old(self).id(),
                        kind: KindSpec::Progress {
                            pct: (if percent_of(bytes_processed, total_bytes) >= last_percent(
                                old(self).log(),
                            ) {
                                percent_of(bytes_processed, total_bytes)
                            } else {
                                last_percent(old(self).log())
                            }) as u8,
                            bytes_processed,
                            total_bytes,
                            eta_seconds: None,
                        },
                    })
                    &&& final(self).log() == old(self).log().push(e@)
                },
                None => final(self).log() == old(self).log(),
            },
    {
        proof {
            use_type_invariant(&*self);
        }
        match self.state {
            TaskState::Running => {
                let computed = progress_percent(bytes_processed, total_bytes);
                let pct = if computed >= self.last_pct {
                    computed
                } else {
                    self.last_pct
                };
                let event = UiEvent {
                    task_id: self.task_id,
                    kind: EventKind::Progress {
                        pct,
                        bytes_processed,
                        total_bytes,
                        eta_seconds: None,
                    },
                };
                let ghost old_log = self.log@;
                let ghost new_log = old_log.push(event@);
                proof {
                    assert forall|a: int, b: int| 1 <= a <= b < new_log.len() implies (
                    #[trigger] new_log[a]).kind->pct <= (#[trigger] new_log[b]).kind->pct by {
                        if b == new_log.len() - 1 {
                            if a < b {
                                assert(old_log[a].kind->pct <= old_log[old_log.len() - 1].kind->pct);
                            }
                        } else {
                            assert(old_log[a].kind->pct <= old_log[b].kind->pct);
                        }
                    }
                    assert forall|k: int| 1 <= k < new_log.len() implies (
                    #[trigger] new_log[k]).kind is Progress && new_log[k].kind->pct <= 100 by {
                        if k < old_log.len() {
                            assert(old_log[k].kind is Progress);
                        }
                    }
                }
                *self = Task {
                    task_id: self.task_id,
                    state: TaskState::Running,
                    last_pct: pct,
                    log: Ghost(new_log),
                };
                Some(event)
            },
            _ => None,
        }
    }

    /// Ends the task. A running task hands out its last event: the result
    /// where the work succeeded, the failure's message where it did not.
    /// Any other task stays as it is.
    pub fn finish(&mut self, outcome: &Result<QueryResult, TaskError>) -> (event: Option<UiEvent>)
        ensures
            final(self).valid(),
            final(self).id() == old(self).id(),
            state_rank(final(self).spec_state()) >= state_rank(old(self).spec_state()),
            event is Some <==> old(self).spec_state() == TaskState::Running,
            match event {
                Some(e) => {
                    &&& e@.task_id == old(self).id()
                    &&& e@.kind == terminal_kind(*outcome)
                    &&& final(self).spec_state() == (if outcome is Ok {
                        TaskState::Finished
                    } else {
                        TaskState::Failed
                    })
                    &&& final(self).log() == old(self).log().push(e@)
                },
                None => {
                    &&& final(self).spec_state() == old(self).spec_state()
                    &&& final(self).log() == old(self).log()
                },
            },
    {
        proof {
            use_type_invariant(&*self);
        }
        match self.state {
            TaskState::Running => {
                let (kind, state) = match outcome {
                    Ok(summary) => (
                        EventKind::Finished {
                            row_count: summary.row_count,
                            column_count: summary.column_count,
                            preview: summary.preview.clone(),
                        },
                        TaskState::Finished,
                    ),
                    Err(error) => (EventKind::Error(error.message()), TaskState::Failed),
                };
                let event = UiEvent { task_id: self.task_id, kind };
                let ghost old_log = self.log@;
                let ghost new_log = old_log.push(event@);
                proof {
                    assert forall|k: int| 1 <= k < new_log.len() - 1 implies (
                    #[trigger] new_log[k]).kind is Progress && new_log[k].kind->pct <= 100 by {
                        assert(old_log[k].kind is Progress);
                    }
                    assert forall|a: int, b: int| 1 <= a <= b < new_log.len() - 1 implies (
                    #[trigger] new_log[a]).kind->pct <= (#[trigger] new_log[b]).kind->pct by {
                        assert(old_log[a].kind->pct <= old_log[b].kind->pct);
                    }
                }
                *self = Task {
                    task_id: self.task_id,
                    state,
                    last_pct: self.last_pct,
                    log: Ghost(new_log),
                };
                Some(event)
            },
            _ => None,
        }
    }
}

/// The event that ends a task with the given outcome: the counts and the
/// preview of a success, the message of a failure.
pub open spec fn terminal_kind(outcome: Result<QueryResult, TaskError>) -> KindSpec {
    match outcome {
        Ok(summary) => KindSpec::Finished {
            row_count: summary.row_count,
            column_count: summary.column_count,
            preview: summary.preview@,
        },
        Err(error) => KindSpec::Error(message_text(error.kind, error.detail@)),
    }
}

/// The work that a command asks of the engine.
#[derive(Debug)]
pub enum EngineRequest {
    /// Run the statement and fetch its rows.
    Query { sql: String },
    /// Run the statements of the plan, then fetch the rows of its last one.
    Import { plan: ImportPlan },
    /// Run the statement, which writes the file.
    Export { sql: String },
    /// Raise the cancellation flag that the task with this identifier reads.
    Cancel { task_id: u64 },
}

/// Plans the work of a command. A query is run as it stands. An import
/// loads into the named table, or into the default one, and drops it first
/// only where the command overwrites. An export copies the source to the
/// file as it is written: a table by its name, and a query only if it
/// comes in its own parentheses, as in `(SELECT id FROM users)`, which is
/// the form that the engine's `COPY` takes a query in.
pub fn plan(cmd: &Command) -> (request: EngineRequest)
    ensures
        match cmd.cmd_type {
            CmdType::ExecuteSql { sql } => request matches EngineRequest::Query { sql: planned }
                && planned@ == sql@,
            CmdType::ImportFile { path, fmt, table_name, overwrite } => {
                let table = match table_name {
                    Some(name) => name@,
                    None => default_table(),
                };
                &&& request matches EngineRequest::Import { plan }
                &&& statement_view(plan.drop) == (if overwrite {
                    Some(drop_text(table))
                } else {
                    None
                })
                &&& plan.load@ == load_text(fmt, table, path@)
                &&& plan.verify@ == verify_text(table)
            },
            CmdType::ExportFile { source, path, fmt } => request matches EngineRequest::Export {
                sql,
            } && sql@ == export_text(source@, false, path@, fmt),
            CmdType::Cancel { task_id } => request matches EngineRequest::Cancel { task_id: target }
                && target == task_id,
        },
{
    match &cmd.cmd_type {
        CmdType::ExecuteSql { sql } => EngineRequest::Query { sql: sql.clone() },
        CmdType::ImportFile { path, fmt, table_name, overwrite } => {
            let config = ImportConfig {
                table_name: table_or_default(table_name),
                overwrite: *overwrite,
            };
            EngineRequest::Import { plan: plan_import(path.as_str(), *fmt, &config) }
        },
        CmdType::ExportFile { source, path, fmt } => {
            let config = ExportConfig::new_table(source.clone());
            EngineRequest::Export { sql: export_statement(&config, path.as_str(), *fmt) }
        },
        CmdType::Cancel { task_id } => EngineRequest::Cancel { task_id: *task_id },
    }
}

/// The preview of a result without rows: an empty JSON array.
pub open spec fn empty_preview() -> Seq<char> {
    seq!['[', ']']
}

/// What a task reports that has no rows to show: an export or a
/// cancellation.
pub fn plain_result() -> (summary: QueryResult)
    ensures
        summary.row_count == 0,
        summary.column_count == 0,
        summary.preview@ == empty_preview(),
{
    proof {
        reveal_strlit("[]");
    }
    let preview = String::from_str("[]");
    assert(preview@ =~= empty_preview());
    QueryResult { row_count: 0, column_count: 0, preview }
}

/// The number of rows that the first batches hold is at most that of all.
pub proof fn lemma_total_rows_prefix(batches: Seq<BatchSpec>, k: int)
    requires
        0 <= k <= batches.len(),
    ensures
        total_rows(batches.take(k)) <= total_rows(batches),
    decreases batches.len() - k,
{
    if k == batches.len() {
        assert(batches.take(k) =~= batches);
    } else {
        lemma_total_rows_prefix(batches, k + 1);
        assert(batches.take(k + 1).drop_last() =~= batches.take(k));
    }
}

/// Sums up a result: the rows of all batches, the columns of the first
/// one, and the preview. It succeeds on every input.
pub fn summarize(batches: &Vec<ColumnarBatch>) -> (result: Result<QueryResult, TaskError>)
    requires
        total_rows(batch_views(batches@)) <= usize::MAX,
    ensures
        result matches Ok(summary) && {
            &&& summary.row_count == total_rows(batch_views(batches@))
            &&& summary.column_count == (if batches@.len() == 0 {
                0
            } else {
                batches@[0]@.fields.len()
            })
            &&& summary.preview@ == array_text(preview_texts(batch_views(batches@)))
        },
{
    let ghost views = batch_views(batches@);
    let mut row_count: usize = 0;
    let mut k: usize = 0;
    assert(views.take(0) =~= Seq::<BatchSpec>::empty());
    while k < batches.len()
        invariant
            views == batch_views(batches@),
            total_rows(views) <= usize::MAX,
            k <= batches@.len(),
            row_count == total_rows(views.take(k as int)),
        decreases batches@.len() - k,
    {
        proof {
            lemma_total_rows_prefix(views, k + 1);
            assert(views.take(k + 1).drop_last() =~= views.take(k as int));
        }
        row_count = row_count + batches[k].num_rows();
        k += 1;
    }
    assert(views.take(batches@.len() as int) =~= views);
    let column_count = if batches.len() == 0 {
        0
    } else {
        batches[0].num_columns()
    };
    match generate_preview(batches) {
        Ok(preview) => Ok(QueryResult { row_count, column_count, preview }),
        Err(e) => Err(e),
    }
}

/// Whether the rows of a row set cannot be converted: there are rows, and
/// a string column among them overflows.
pub open spec fn rows_overflow(rows: RowSet) -> bool {
    rows@.len() > 0 && conversion_fails(rows@, inferred_types(rows.spec_width(), rows@))
}

/// Turns what the engine fetched into what the task reports: the number of
/// rows, the number of columns and the preview. A failure of the engine is
/// handed on as it is. Otherwise the rows are converted and previewed, and
/// it fails if and only if the conversion does.
pub fn execute_sql(fetched: Result<RowSet, TaskError>) -> (result: Result<QueryResult, TaskError>)
    ensures
        result is Err <==> (fetched is Err || (fetched matches Ok(rows) && rows_overflow(rows))),
        match fetched {
            Err(e) => result == Err::<QueryResult, TaskError>(e),
            Ok(rows) => {
                let batch = batch_of(rows.spec_width(), rows@);
                if rows_overflow(rows) {
                    result matches Err(e) && is_conversion_failure(
                        e,
                        rows@,
                        inferred_types(rows.spec_width(), rows@),
                    )
                } else {
                    result matches Ok(summary) && {
                        &&& summary.row_count == rows@.len()
                        &&& summary.column_count == batch.fields.len()
                        &&& summary.preview@ == array_text(
                            batch_row_texts(batch, smaller(PREVIEW_LIMIT as nat, rows@.len())),
                        )
                    }
                }
            },
        },
{
    match fetched {
        Err(e) => Err(e),
        Ok(rows) => {
            match ColumnarBatch::from_rows(&rows) {
                Err(e) => Err(e),
                Ok(batch) => {
                    let ghost view = batch@;
                    let rows_held = batch.num_rows();
                    assert(view.num_rows == rows_held);
                    let mut batches: Vec<ColumnarBatch> = Vec::new();
                    batches.push(batch);
                    proof {
                        assert(batch_views(batches@) =~= seq![view]);
                        lemma_single_batch(view);
                    }
                    summarize(&batches)
                },
            }
        },
    }
}

/// The highest percentage among the first `upto` progress reports, each a
/// pair of the bytes processed and the bytes in all; 0 where there is none.
pub open spec fn peak_percent(reports: Seq<(u64, u64)>, upto: nat) -> int
    decreases upto,
{
    if upto == 0 {
        0
    } else {
        let before = peak_percent(reports, (upto - 1) as nat);
        let now = percent_of(reports[upto - 1].0, reports[upto - 1].1);
        if now >= before {
            now
        } else {
            before
        }
    }
}

/// The highest percentage lies between 0 and 100.
pub proof fn lemma_peak_bounds(reports: Seq<(u64, u64)>, upto: nat)
    ensures
        0 <= peak_percent(reports, upto) <= 100,
    decreases upto,
{
    if upto > 0 {
        lemma_peak_bounds(reports, (upto - 1) as nat);
        lemma_percent_bounds(reports[upto - 1].0, reports[upto - 1].1);
    }
}

/// The views of a list of events.
pub open spec fn event_views(events: Seq<UiEvent>) -> Seq<EventSpec> {
    events.map_values(|e: UiEvent| e@)
}

/// The event that ends a query whose rows were converted and previewed: the
/// number of rows, the number of columns of their batch, and the JSON array
/// of the first rows.
pub open spec fn query_finish(width: nat, rows: Seq<Seq<SqlValueSpec>>) -> KindSpec {
    let batch = batch_of(width, rows);
    KindSpec::Finished {
        row_count: rows.len() as usize,
        column_count: batch.fields.len() as usize,
        preview: array_text(batch_row_texts(batch, smaller(PREVIEW_LIMIT as nat, rows.len()))),
    }
}

/// What handling a command gives: the events to publish, in order, and
/// what the caller of the dispatch gets back.
#[derive(Debug)]
pub struct Handled {
    pub events: Vec<UiEvent>,
    pub result: Result<(), TaskError>,
}

/// Handles a command from its receipt to its last event, given what the
/// engine reported while it worked and what it answered in the end: the
/// rows of a query or of an import's verification, or its failure. The
/// events are the start, one progress event per report, and the result or
/// the failure; all carry the identifier of the command. The caller gets
/// the failure that was published, or nothing where there was none. The
/// command fails if and only if the engine did, or the rows of a query or
/// of an import cannot be converted.
pub fn handle(cmd: &Command, reports: &Vec<(u64, u64)>, answer: Result<RowSet, TaskError>) -> (handled:
    Handled)
    ensures
        handled.events@.len() == reports@.len() + 2,
        forall|k: int|
            0 <= k < handled.events@.len() ==> (#[trigger] handled.events@[k]).task_id == cmd.task_id,
        handled.events@[0].kind@ is Started,
        forall|k: int|
            1 <= k <= reports@.len() ==> (#[trigger] handled.events@[k]).kind@ == (
            KindSpec::Progress {
                pct: peak_percent(reports@, k as nat) as u8,
                bytes_processed: reports@[k - 1].0,
                total_bytes: reports@[k - 1].1,
                eta_seconds: None,
            }),
        match handled.result {
            Ok(_) => handled.events@.last().kind@ is Finished,
            Err(e) => handled.events@.last().kind@ == KindSpec::Error(
                message_text(e.kind, e.detail@),
            ),
        },
        handled.result is Err <==> (answer is Err || (answer matches Ok(rows) && (cmd.cmd_type
            is ExecuteSql || cmd.cmd_type is ImportFile) && rows_overflow(rows))),
        answer matches Err(e) ==> handled.result == Err::<(), TaskError>(e),
        answer matches Ok(rows) ==> (cmd.cmd_type is ExecuteSql || cmd.cmd_type is ImportFile) ==> {
            if rows_overflow(rows) {
                handled.result matches Err(e) && is_conversion_failure(
                    e,
                    rows@,
                    inferred_types(rows.spec_width(), rows@),
                )
            } else {
                handled.result is Ok && handled.events@.last().kind@ == query_finish(
                    rows.spec_width(),
                    rows@,
                )
            }
        },
        answer is Ok && (cmd.cmd_type is ExportFile || cmd.cmd_type is Cancel)
            ==> handled.result is Ok && handled.events@.last().kind@ == (KindSpec::Finished {
            row_count: 0,
            column_count: 0,
            preview: empty_preview(),
        }),
{
    let mut task = Task::new(cmd.task_id);
    let mut events: Vec<UiEvent> = Vec::new();
    match task.start() {
        Some(event) => {
            events.push(event);
        },
        None => {},
    }
    let request = plan(cmd);
    task.begin();
    assert(event_views(events@) =~= task.log());
    let mut k: usize = 0;
    while k < reports.len()
        invariant
            task.valid(),
            task.id() == cmd.task_id,
            task.spec_state() == TaskState::Running,
            k <= reports@.len(),
            events@.len() == k + 1,
            event_views(events@) == task.log(),
            events@[0].kind@ is Started,
            last_percent(task.log()) == peak_percent(reports@, k as nat),
            forall|i: int|
                1 <= i <= k ==> (#[trigger] events@[i]).kind@ == (KindSpec::Progress {
                    pct: peak_percent(reports@, i as nat) as u8,
                    bytes_processed: reports@[i - 1].0,
                    total_bytes: reports@[i - 1].1,
                    eta_seconds: None,
                }),
        decreases reports@.len() - k,
    {
        let report = reports[k];
        let ghost old_events = events@;
        proof {
            task.lemma_log_fits();
            lemma_peak_bounds(reports@, k as nat);
            lemma_peak_bounds(reports@, (k + 1) as nat);
            lemma_percent_bounds(report.0, report.1);
        }
        match task.progress(report.0, report.1) {
            Some(event) => {
                events.push(event);
                assert(event_views(events@) =~= event_views(old_events).push(event@));
            },
            None => {},
        }
        k += 1;
    }
    let outcome = match request {
        EngineRequest::Query { .. } => execute_sql(answer),
        EngineRequest::Import { .. } => execute_sql(answer),
        EngineRequest::Export { .. } => match answer {
            Ok(_) => Ok(plain_result()),
            Err(e) => Err(e),
        },
        EngineRequest::Cancel { .. } => match answer {
            Ok(_) => Ok(plain_result()),
            Err(e) => Err(e),
        },
    };
    let ghost old_events = events@;
    match task.finish(&outcome) {
        Some(event) => {
            events.push(event);
            assert(event_views(events@) =~= event_views(old_events).push(event@));
        },
        None => {},
    }
    proof {
        task.lemma_log_fits();
        assert forall|i: int| 0 <= i < events@.len() implies (#[trigger] events@[i]).task_id
            == cmd.task_id by {
            assert(event_views(events@)[i].task_id == cmd.task_id);
        }
        assert(event_views(events@).last() == events@.last()@);
    }
    let result = match outcome {
        Ok(_) => Ok(()),
        Err(e) => Err(e),
    };
    Handled { events, result }
}

/// A row set without rows gives a result without rows and without columns,
/// and an empty array as its preview.
pub proof fn lemma_empty_result(width: nat)
    ensures
        batch_of(width, Seq::<Seq<SqlValueSpec>>::empty()).num_rows == 0,
        batch_of(width, Seq::<Seq<SqlValueSpec>>::empty()).fields.len() == 0,
        array_text(preview_texts(seq![batch_of(width, Seq::<Seq<SqlValueSpec>>::empty())]))
            == empty_preview(),
{
    let batch = batch_of(width, Seq::<Seq<SqlValueSpec>>::empty());
    lemma_single_batch(batch);
    assert(batch_row_texts(batch, 0) =~= Seq::<Seq<char>>::empty());
    assert(array_text(Seq::<Seq<char>>::empty()) =~= empty_preview());
}

/// The events of a task that has ended: the start comes first and is the
/// only one; the result or the failure comes last and is the only one; the
/// result ends a finished task and the failure a failed one; and every
/// event carries the task's identifier.
pub proof fn lemma_one_start_one_end(task: Task)
    requires
        task.valid(),
        task.spec_state() == TaskState::Finished || task.spec_state() == TaskState::Failed,
    ensures
        task.log().len() >= 2,
        task.log().first().kind is Started,
        forall|k: int| 0 < k < task.log().len() ==> !((#[trigger] task.log()[k]).kind is Started),
        is_terminal(task.log().last().kind),
        forall|k: int|
            0 <= k < task.log().len() - 1 ==> !is_terminal((#[trigger] task.log()[k]).kind),
        task.spec_state() == TaskState::Finished <==> task.log().last().kind is Finished,
        task.spec_state() == TaskState::Failed <==> task.log().last().kind is Error,
        forall|k: int| 0 <= k < task.log().len() ==> (#[trigger] task.log()[k]).task_id == task.id(),
{
    task.lemma_log_fits();
    let log = task.log();
    assert forall|k: int| 0 < k < log.len() implies !((#[trigger] log[k]).kind is Started) by {
        if k < log.len() - 1 {
            assert(log[k].kind is Progress);
        }
    }
    assert forall|k: int| 0 <= k < log.len() - 1 implies !is_terminal((#[trigger] log[k]).kind) by {
        if k > 0 {
            assert(log[k].kind is Progress);
        }
    }
}

/// While a task has not ended, nothing that ends a task was published for
/// it, and at most one start.
pub proof fn lemma_no_end_before_the_end(task: Task)
    requires
        task.valid(),
        task.spec_state() != TaskState::Finished,
        task.spec_state() != TaskState::Failed,
    ensures
        forall|k: int| 0 <= k < task.log().len() ==> !is_terminal((#[trigger] task.log()[k]).kind),
        forall|k: int| 0 < k < task.log().len() ==> !((#[trigger] task.log()[k]).kind is Started),
        forall|k: int| 0 <= k < task.log().len() ==> (#[trigger] task.log()[k]).task_id == task.id(),
{
    task.lemma_log_fits();
    let log = task.log();
    assert forall|k: int| 0 <= k < log.len() implies !is_terminal((#[trigger] log[k]).kind) by {
        if k > 0 {
            assert(log[k].kind is Progress);
        }
    }
    assert forall|k: int| 0 < k < log.len() implies !((#[trigger] log[k]).kind is Started) by {
        assert(log[k].kind is Progress);
    }
}

} // verus!
