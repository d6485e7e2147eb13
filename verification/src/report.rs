//! What a run reports: where its files lie, the lines of its logs, and how
//! it ended.

use vstd::prelude::*;
use vstd::string::StringExecFns;

verus! {

/// How the export of a table ended.
#[derive(Clone, Debug, PartialEq, Eq)]
pub enum RunOutcome {
    /// Every row was written.
    Success { rows_written: u64, output_path: String },
    /// The table was given up.
    Failure { table_name: String, cause: String },
}

/// A run's outcome with its texts as characters.
pub enum RunOutcomeView {
    Success { rows_written: u64, output_path: Seq<char> },
    Failure { table_name: Seq<char>, cause: Seq<char> },
}

impl View for RunOutcome {
    type V = RunOutcomeView;

    open spec fn view(&self) -> RunOutcomeView {
        match *self {
            RunOutcome::Success { rows_written, output_path } => RunOutcomeView::Success {
                rows_written,
                output_path: output_path@,
            },
            RunOutcome::Failure { table_name, cause } => RunOutcomeView::Failure {
                table_name: table_name@,
                cause: cause@,
            },
        }
    }
}

/// The kinds of error a run can meet.
#[derive(Clone, Copy, Debug, PartialEq, Eq, Structural)]
pub enum ErrorKind {
    /// The database could not be reached.
    Connection,
    /// A query was refused or broke off.
    Query,
    /// A value could not be written under its declared type.
    TypeCodec,
    /// The output could not be created or written.
    Io,
}

impl ErrorKind {
    /// Whether an error of this kind ends the whole process, not only the
    /// export of one table.
    pub open spec fn fatal(self) -> bool {
        self == ErrorKind::Connection || self == ErrorKind::Io
    }

    /// Whether an error of this kind ends the whole process.
    pub fn is_fatal(self) -> (fatal: bool)
        ensures
            fatal == self.fatal(),
    {
        match self {
            ErrorKind::Connection => true,
            ErrorKind::Io => true,
            ErrorKind::Query => false,
            ErrorKind::TypeCodec => false,
        }
    }
}

/// The path of the run log under the output root.
pub open spec fn run_log_path_text(root: Seq<char>) -> Seq<char> {
    root + "/logs.log"@
}

/// The path of the failure log under the output root.
pub open spec fn failure_log_path_text(root: Seq<char>) -> Seq<char> {
    root + "/failed.log"@
}

/// The directory of a table's output under the output root.
pub open spec fn table_directory_text(root: Seq<char>, table: Seq<char>) -> Seq<char> {
    root + "/"@ + table
}

/// The path of a table's output file.
pub open spec fn output_path_text(root: Seq<char>, table: Seq<char>) -> Seq<char> {
    table_directory_text(root, table) + "/"@ + table + ".csv"@
}

/// A line of the run log.
pub open spec fn log_line_text(timestamp: Seq<char>, message: Seq<char>) -> Seq<char> {
    timestamp + " => "@ + message + "\n"@
}

/// A line of the failure log.
pub open spec fn failure_line_text(table: Seq<char>, cause: Seq<char>) -> Seq<char> {
    table + ": "@ + cause + "\n"@
}

/// The message that opens a run.
pub open spec fn checking_message_text(table: Seq<char>) -> Seq<char> {
    "Checking "@ + table + ", please wait..."@
}

/// The message that records a failure in the run log.
pub open spec fn failure_message_text(table: Seq<char>, cause: Seq<char>) -> Seq<char> {
    "Error with "@ + table + ": "@ + cause
}

/// The message that closes a run.
pub open spec fn done_message_text() -> Seq<char> {
    "Done"@
}

/// The path of the run log.
pub fn run_log_path(root: &str) -> (path: String)
    ensures
        path@ == run_log_path_text(root@),
{
    let mut path = String::from_str(root);
    path.append("/logs.log");
    path
}

/// The path of the failure log.
pub fn failure_log_path(root: &str) -> (path: String)
    ensures
        path@ == failure_log_path_text(root@),
{
    let mut path = String::from_str(root);
    path.append("/failed.log");
    path
}

/// The directory that holds a table's output.
pub fn table_directory(root: &str, table: &str) -> (path: String)
    ensures
        path@ == table_directory_text(root@, table@),
{
    let mut path = String::from_str(root);
    path.append("/");
    path.append(table);
    path
}

/// The path of a table's output file.
pub fn output_path(root: &str, table: &str) -> (path: String)
    ensures
        path@ == output_path_text(root@, table@),
{
    let mut path = table_directory(root, table);
    path.append("/");
    path.append(table);
    path.append(".csv");
    path
}

/// A line of the run log: the local time, an arrow, the message.
pub fn log_line(timestamp: &str, message: &str) -> (line: String)
    ensures
        line@ == log_line_text(timestamp@, message@),
{
    let mut line = String::from_str(timestamp);
    line.append(" => ");
    line.append(message);
    line.append("\n");
    line
}

/// A line of the failure log: the table, a colon, the cause.
pub fn failure_line(table: &str, cause: &str) -> (line: String)
    ensures
        line@ == failure_line_text(table@, cause@),
{
    let mut line = String::from_str(table);
    line.append(": ");
    line.append(cause);
    line.append("\n");
    line
}

/// The message that opens a run.
pub fn checking_message(table: &str) -> (message: String)
    ensures
        message@ == checking_message_text(table@),
{
    let mut message = String::from_str("Checking ");
    message.append(table);
    message.append(", please wait...");
    message
}

/// The message that records a failure in the run log.
pub fn failure_message(table: &str, cause: &str) -> (message: String)
    ensures
        message@ == failure_message_text(table@, cause@),
{
    let mut message = String::from_str("Error with ");
    message.append(table);
    message.append(": ");
    message.append(cause);
    message
}

/// The message that closes a run.
pub fn done_message() -> (message: String)
    ensures
        message@ == done_message_text(),
{
    String::from_str("Done")
}

} // verus!
