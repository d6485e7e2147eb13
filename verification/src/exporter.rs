//! The streaming exporter: the one place that decides which step of a run
//! follows which. It performs nothing itself. Each call of `step` takes what
//! happened and names what the caller is to do next.

use vstd::prelude::*;
use crate::codec::{codec_error_text, RawValue, TypeCodecError};
use crate::column::{column_names, ColumnDescriptor};
use crate::config::ExportConfig;
use crate::line::{line_of, utf8_fields};
use crate::progress::ProgressState;
use crate::query::{
    as_unsigned, connection_url, connection_url_text, denominator, estimate_query,
    estimate_query_text, header_probe_query, limit_clause_pattern, preview_of, regex_replaced,
    rewrite_error_text,
};
use crate::report::{
    checking_message, checking_message_text, failure_line, failure_line_text, failure_message,
    failure_message_text, output_path, output_path_text, table_directory, table_directory_text,
    ErrorKind, RunOutcome, RunOutcomeView,
};
use crate::row::{header_line, row_line, row_text};

verus! {

/// Where a run stands.
#[derive(Clone, Copy, Debug, PartialEq, Eq, Structural)]
pub enum Phase {
    /// The connection is being opened.
    Connecting,
    /// The preview query is running.
    ProbingHeaders,
    /// The estimate query is running.
    EstimatingCount,
    /// The output directory and file are being made, the header written.
    PreparingOutput,
    /// Rows are fetched and written one by one.
    Streaming,
    /// The output is being flushed and closed.
    Finalizing,
    /// The run ended with every row written.
    Completed,
    /// The run ended without that.
    Failed,
}

/// What happened since the last step.
#[derive(Clone, Debug, PartialEq, Eq)]
pub enum Event {
    /// The connection stands.
    Connected,
    /// The connection could not be opened.
    ConnectFailed { cause: String },
    /// The preview query told the columns of the result set.
    HeadersProbed { columns: Vec<ColumnDescriptor> },
    /// The estimate query returned a number.
    CountEstimated { value: i64 },
    /// The output file is open and holds the header.
    OutputPrepared,
    /// The cursor delivered a row.
    RowFetched { values: Vec<RawValue> },
    /// The cursor has no more rows.
    EndOfRows,
    /// The output is flushed and closed.
    Finalized,
    /// A query was refused or broke off.
    QueryFailed { cause: String },
    /// The output could not be created or written.
    IoFailed { cause: String },
}

/// What the caller is to do next.
#[derive(Clone, Debug, PartialEq, Eq)]
pub enum Action {
    /// Open the connection.
    Connect { url: String },
    /// Log `note`, then run the preview query.
    ProbeHeaders { note: String, query: String },
    /// Run the estimate query.
    EstimateCount { query: String },
    /// Log `note`, make `directory`, open `path` and write `header`; start
    /// the progress display at `estimated_total`.
    PrepareOutput {
        note: String,
        directory: String,
        path: String,
        header: Vec<u8>,
        estimated_total: u64,
    },
    /// Run the export query and fetch its first row.
    OpenCursor { query: String },
    /// Write `line`, show `completed` rows, and fetch the next row.
    WriteRow { line: Vec<u8>, completed: u64 },
    /// Flush and close the output file at `path`.
    Finalize { path: String },
    /// End the table's export: log `run_log`, and `failure_log` where there
    /// is one, in the failure log.
    Conclude { outcome: RunOutcome, run_log: String, failure_log: Option<String> },
    /// End the process: an error of `kind` leaves nothing to go on with.
    Abort { kind: ErrorKind, cause: String },
}

/// An action with its texts as characters and its lines as bytes.
pub enum ActionView {
    Connect { url: Seq<char> },
    ProbeHeaders { note: Seq<char>, query: Seq<char> },
    EstimateCount { query: Seq<char> },
    PrepareOutput {
        note: Seq<char>,
        directory: Seq<char>,
        path: Seq<char>,
        header: Seq<u8>,
        estimated_total: u64,
    },
    OpenCursor { query: Seq<char> },
    WriteRow { line: Seq<u8>, completed: u64 },
    Finalize { path: Seq<char> },
    Conclude { outcome: RunOutcomeView, run_log: Seq<char>, failure_log: Option<Seq<char>> },
    Abort { kind: ErrorKind, cause: Seq<char> },
}

impl View for Action {
    type V = ActionView;

    open spec fn view(&self) -> ActionView {
        match *self {
            Action::Connect { url } => ActionView::Connect { url: url@ },
            Action::ProbeHeaders { note, query } => ActionView::ProbeHeaders {
                note: note@,
                query: query@,
            },
            Action::EstimateCount { query } => ActionView::EstimateCount { query: query@ },
            Action::PrepareOutput { note, directory, path, header, estimated_total } =>
                ActionView::PrepareOutput {
                    note: note@,
                    directory: directory@,
                    path: path@,
                    header: header@,
                    estimated_total,
                },
            Action::OpenCursor { query } => ActionView::OpenCursor { query: query@ },
            Action::WriteRow { line, completed } => ActionView::WriteRow { line: line@, completed },
            Action::Finalize { path } => ActionView::Finalize { path: path@ },
            Action::Conclude { outcome, run_log, failure_log } => ActionView::Conclude {
                outcome: outcome@,
                run_log: run_log@,
                failure_log: match failure_log {
                    Some(line) => Some(line@),
                    None => None,
                },
            },
            Action::Abort { kind, cause } => ActionView::Abort { kind, cause: cause@ },
        }
    }
}

/// An event that does not belong to the phase it came in.
#[derive(Clone, Copy, Debug, PartialEq, Eq, Structural)]
pub struct Unexpected {
    pub phase: Phase,
}

/// The exporter of one table.
#[derive(Clone, Debug, PartialEq, Eq)]
pub struct Exporter {
    /// What the run was given.
    pub config: ExportConfig,
    /// Where the run stands.
    pub phase: Phase,
    /// The columns of the result set, once the preview has told them.
    pub columns: Vec<ColumnDescriptor>,
    /// The estimate, once made, and the rows written so far.
    pub progress: ProgressState,
}

/// Whether `event` can come in `phase`.
pub open spec fn expects(phase: Phase, event: Event) -> bool {
    match phase {
        Phase::Connecting => event is Connected || event is ConnectFailed,
        Phase::ProbingHeaders => event is HeadersProbed || event is QueryFailed,
        Phase::EstimatingCount => event is CountEstimated || event is QueryFailed,
        Phase::PreparingOutput => event is OutputPrepared || event is IoFailed,
        Phase::Streaming => event is RowFetched || event is EndOfRows || event is QueryFailed
            || event is IoFailed,
        Phase::Finalizing => event is Finalized || event is IoFailed,
        Phase::Completed => false,
        Phase::Failed => false,
    }
}

/// The end of a table's export that failed for `cause`.
pub open spec fn failure(config: ExportConfig, cause: Seq<char>) -> ActionView {
    ActionView::Conclude {
        outcome: RunOutcomeView::Failure { table_name: config.table@, cause },
        run_log: failure_message_text(config.table@, cause),
        failure_log: Some(failure_line_text(config.table@, cause)),
    }
}

/// The preview query of the configured query, or why there is none.
pub open spec fn configured_preview(config: ExportConfig) -> Result<
    Seq<char>,
    crate::query::RewriteError,
> {
    preview_of(regex_replaced(limit_clause_pattern(), config.query@, Seq::<char>::empty()))
}

/// The texts of a fetched row as they are written.
pub open spec fn written_row(exporter: Exporter, values: Vec<RawValue>) -> Result<
    Seq<Seq<char>>,
    TypeCodecError,
> {
    row_text(
        exporter.columns@,
        values@,
        exporter.config.sanitize_target@,
        exporter.config.delimiter,
    )
}

/// The phase that follows when `event` comes to `exporter`, for an event
/// that its phase expects.
pub open spec fn next_phase(exporter: Exporter, event: Event) -> Phase {
    match event {
        Event::Connected => if configured_preview(exporter.config) is Ok {
            Phase::ProbingHeaders
        } else {
            Phase::Failed
        },
        Event::HeadersProbed { .. } => Phase::EstimatingCount,
        Event::CountEstimated { .. } => Phase::PreparingOutput,
        Event::OutputPrepared => Phase::Streaming,
        Event::RowFetched { values } => if written_row(exporter, values) is Ok {
            Phase::Streaming
        } else {
            Phase::Failed
        },
        Event::EndOfRows => Phase::Finalizing,
        Event::Finalized => Phase::Completed,
        Event::ConnectFailed { .. } => Phase::Failed,
        Event::QueryFailed { .. } => Phase::Failed,
        Event::IoFailed { .. } => Phase::Failed,
    }
}

/// The columns the exporter holds after `event`: those the preview told,
/// and from then on the same.
pub open spec fn next_columns(exporter: Exporter, event: Event) -> Vec<ColumnDescriptor> {
    match event {
        Event::HeadersProbed { columns } => columns,
        _ => exporter.columns,
    }
}

/// The progress after `event`: the estimate is set once, by the number the
/// estimate query returned; a row that is written is counted; nothing else
/// touches it.
pub open spec fn next_progress(exporter: Exporter, event: Event) -> ProgressState {
    match event {
        Event::CountEstimated { value } => ProgressState {
            estimated_total: as_unsigned(value),
            completed: 0,
        },
        Event::RowFetched { values } => if written_row(exporter, values) is Ok {
            exporter.progress.after_rows(1)
        } else {
            exporter.progress
        },
        _ => exporter.progress,
    }
}

/// What the caller is to do when `event` comes to `exporter`, for an event
/// that its phase expects.
pub open spec fn planned(exporter: Exporter, event: Event) -> ActionView {
    let config = exporter.config;
    match event {
        Event::Connected => match configured_preview(config) {
            Ok(query) => ActionView::ProbeHeaders {
                note: checking_message_text(config.table@),
                query,
            },
            Err(e) => failure(config, rewrite_error_text(e)),
        },
        Event::ConnectFailed { cause } => ActionView::Abort {
            kind: ErrorKind::Connection,
            cause: cause@,
        },
        Event::HeadersProbed { columns } => ActionView::EstimateCount {
            query: estimate_query_text(config.index_column, config.table@, columns@),
        },
        Event::CountEstimated { value } => ActionView::PrepareOutput {
            note: config.table@,
            directory: table_directory_text(config.output_root@, config.table@),
            path: output_path_text(config.output_root@, config.table@),
            header: line_of(utf8_fields(column_names(exporter.columns@)), config.delimiter),
            estimated_total: as_unsigned(value),
        },
        Event::OutputPrepared => ActionView::OpenCursor { query: config.query@ },
        Event::RowFetched { values } => match written_row(exporter, values) {
            Ok(row) => ActionView::WriteRow {
                line: line_of(utf8_fields(row), config.delimiter),
                completed: exporter.progress.after_rows(1).completed,
            },
            Err(e) => failure(config, codec_error_text(e)),
        },
        Event::EndOfRows => ActionView::Finalize {
            path: output_path_text(config.output_root@, config.table@),
        },
        Event::Finalized => ActionView::Conclude {
            outcome: RunOutcomeView::Success {
                rows_written: exporter.progress.completed,
                output_path: output_path_text(config.output_root@, config.table@),
            },
            run_log: output_path_text(config.output_root@, config.table@),
            failure_log: None,
        },
        Event::QueryFailed { cause } => failure(config, cause@),
        Event::IoFailed { cause } => ActionView::Abort { kind: ErrorKind::Io, cause: cause@ },
    }
}

impl Exporter {
    /// An exporter before its first step, and the step to begin with:
    /// opening the connection.
    pub fn start(config: ExportConfig) -> (begun: (Exporter, Action))
        ensures
            begun.0.config == config,
            begun.0.phase == Phase::Connecting,
            begun.0.columns@.len() == 0,
            begun.0.progress == (ProgressState { estimated_total: 0, completed: 0 }),
            begun.1@ == (ActionView::Connect {
                url: connection_url_text(
                    config.user@,
                    config.password@,
                    config.host@,
                    config.port@,
                    config.database@,
                ),
            }),
    {
        let url = connection_url(
            config.user.as_str(),
            config.password.as_str(),
            config.host.as_str(),
            config.port.as_str(),
            config.database.as_str(),
        );
        let exporter = Exporter {
            config,
            phase: Phase::Connecting,
            columns: Vec::new(),
            progress: ProgressState::new(0),
        };
        (exporter, Action::Connect { url })
    }

    /// Whether the run has ended.
    pub fn is_finished(&self) -> (finished: bool)
        ensures
            finished == (self.phase == Phase::Completed || self.phase == Phase::Failed),
    {
        match self.phase {
            Phase::Completed => true,
            Phase::Failed => true,
            _ => false,
        }
    }

    fn fail(&mut self, cause: String) -> (action: Action)
        ensures
            action@ == failure(old(self).config, cause@),
            final(self).phase == Phase::Failed,
            final(self).config == old(self).config,
            final(self).columns == old(self).columns,
            final(self).progress == old(self).progress,
    {
        self.phase = Phase::Failed;
        let run_log = failure_message(self.config.table.as_str(), cause.as_str());
        let line = failure_line(self.config.table.as_str(), cause.as_str());
        Action::Conclude {
            outcome: RunOutcome::Failure { table_name: self.config.table.clone(), cause },
            run_log,
            failure_log: Some(line),
        }
    }

    /// Takes what happened and names what is to be done next.
    ///
    /// An event that the phase does not expect changes nothing and is
    /// handed back as an error. Every other event moves the exporter to the
    /// next phase and yields the planned action.
    pub fn step(&mut self, event: Event) -> (r: Result<Action, Unexpected>)
        ensures
            final(self).config == old(self).config,
            !expects(old(self).phase, event) ==> *final(self) == *old(self) && r == Err::<
                Action,
                Unexpected,
            >(Unexpected { phase: old(self).phase }),
            expects(old(self).phase, event) ==> {
                &&& r matches Ok(action)
                &&& action@ == planned(*old(self), event)
                &&& final(self).phase == next_phase(*old(self), event)
                &&& final(self).columns == next_columns(*old(self), event)
                &&& final(self).progress == next_progress(*old(self), event)
            },
    {
        match (self.phase, event) {
            (Phase::Connecting, Event::Connected) => {
                match header_probe_query(self.config.query.as_str()) {
                    Ok(query) => {
                        self.phase = Phase::ProbingHeaders;
                        let note = checking_message(self.config.table.as_str());
                        Ok(Action::ProbeHeaders { note, query })
                    },
                    Err(e) => Ok(self.fail(e.message())),
                }
            },
            (Phase::Connecting, Event::ConnectFailed { cause }) => {
                self.phase = Phase::Failed;
                Ok(Action::Abort { kind: ErrorKind::Connection, cause })
            },
            (Phase::ProbingHeaders, Event::HeadersProbed { columns }) => {
                self.phase = Phase::EstimatingCount;
                let query = estimate_query(
                    &self.config.index_column,
                    self.config.table.as_str(),
                    &columns,
                );
                self.columns = columns;
                Ok(Action::EstimateCount { query })
            },
            (Phase::EstimatingCount, Event::CountEstimated { value }) => {
                self.phase = Phase::PreparingOutput;
                let estimated_total = denominator(value);
                self.progress = ProgressState::new(estimated_total);
                Ok(
                    Action::PrepareOutput {
                        note: self.config.table.clone(),
                        directory: table_directory(
                            self.config.output_root.as_str(),
                            self.config.table.as_str(),
                        ),
                        path: output_path(
                            self.config.output_root.as_str(),
                            self.config.table.as_str(),
                        ),
                        header: header_line(&self.columns, self.config.delimiter),
                        estimated_total,
                    },
                )
            },
            (Phase::PreparingOutput, Event::OutputPrepared) => {
                self.phase = Phase::Streaming;
                Ok(Action::OpenCursor { query: self.config.query.clone() })
            },
            (Phase::Streaming, Event::RowFetched { values }) => {
                match row_line(
                    &self.columns,
                    &values,
                    self.config.sanitize_target.as_str(),
                    self.config.delimiter,
                ) {
                    Ok(line) => {
                        self.progress.advance();
                        Ok(Action::WriteRow { line, completed: self.progress.completed })
                    },
                    Err(e) => Ok(self.fail(e.message())),
                }
            },
            (Phase::Streaming, Event::EndOfRows) => {
                self.phase = Phase::Finalizing;
                Ok(
                    Action::Finalize {
                        path: output_path(
                            self.config.output_root.as_str(),
                            self.config.table.as_str(),
                        ),
                    },
                )
            },
            (Phase::Finalizing, Event::Finalized) => {
                self.phase = Phase::Completed;
                let path = output_path(self.config.output_root.as_str(), self.config.table.as_str());
                let run_log = path.clone();
                Ok(
                    Action::Conclude {
                        outcome: RunOutcome::Success {
                            rows_written: self.progress.completed,
                            output_path: path,
                        },
                        run_log,
                        failure_log: None,
                    },
                )
            },
            (Phase::ProbingHeaders, Event::QueryFailed { cause }) => Ok(self.fail(cause)),
            (Phase::EstimatingCount, Event::QueryFailed { cause }) => Ok(self.fail(cause)),
            (Phase::Streaming, Event::QueryFailed { cause }) => Ok(self.fail(cause)),
            (Phase::PreparingOutput, Event::IoFailed { cause }) => {
                self.phase = Phase::Failed;
                Ok(Action::Abort { kind: ErrorKind::Io, cause })
            },
            (Phase::Streaming, Event::IoFailed { cause }) => {
                self.phase = Phase::Failed;
                Ok(Action::Abort { kind: ErrorKind::Io, cause })
            },
            (Phase::Finalizing, Event::IoFailed { cause }) => {
                self.phase = Phase::Failed;
                Ok(Action::Abort { kind: ErrorKind::Io, cause })
            },
            (phase, _) => Err(Unexpected { phase }),
        }
    }
}

/// Once rows are streamed, the estimate and the columns are settled:
/// whatever comes, the estimate stays what the estimate query made it, the
/// columns stay those the preview told, and the count of written rows does
/// not fall.
pub proof fn lemma_streaming_keeps_estimate_and_columns(exporter: Exporter, event: Event)
    requires
        exporter.phase == Phase::Streaming,
        expects(exporter.phase, event),
    ensures
        next_progress(exporter, event).estimated_total == exporter.progress.estimated_total,
        next_progress(exporter, event).completed >= exporter.progress.completed,
        next_columns(exporter, event) == exporter.columns,
{
}

/// A row that is written has one text for each column the preview told.
pub proof fn lemma_written_row_fits_columns(exporter: Exporter, values: Vec<RawValue>)
    ensures
        written_row(exporter, values) matches Ok(row) ==> row.len() == exporter.columns@.len(),
{
    crate::row::lemma_row_has_one_text_per_column(
        exporter.columns@,
        values@,
        exporter.config.sanitize_target@,
        exporter.config.delimiter,
    );
}

/// A failed preview or estimate ends the table's export at once: no output
/// is prepared and no row is asked for.
pub proof fn lemma_query_failure_ends_export(exporter: Exporter, cause: String)
    requires
        expects(exporter.phase, Event::QueryFailed { cause }),
    ensures
        next_phase(exporter, Event::QueryFailed { cause }) == Phase::Failed,
        planned(exporter, Event::QueryFailed { cause }) == failure(exporter.config, cause@),
        !expects(Phase::Failed, Event::OutputPrepared),
        forall|values: Vec<RawValue>| !expects(Phase::Failed, Event::RowFetched { values }),
{
}

} // verus!
