//! Streaming, type-aware export of a SQL query's result set to delimited text.
//!
//! The crate holds the decisions of an export run: how a query is rewritten
//! for a bounded header preview, which query estimates the row count, how
//! each driver value becomes text, how one column is sanitised, how a row
//! becomes a line, and which step follows which. Connections, files and the
//! clock belong to the caller, who performs the actions the exporter names.

pub mod codec;
pub mod column;
pub mod config;
pub mod exporter;
pub mod line;
pub mod numeral;
pub mod progress;
pub mod query;
pub mod report;
pub mod row;
pub mod sanitize;
pub mod text;
