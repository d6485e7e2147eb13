//! What a run is given: the command line's values and the configuration
//! made from them.

use vstd::prelude::*;
use vstd::string::StringSliceAdditionalSpecFns;
use vstd::utf8::encode_utf8;

verus! {

/// The values of the command line, as they were typed.
#[derive(Clone, Debug, PartialEq, Eq)]
pub struct Cli {
    /// The database host.
    pub host: String,
    /// The database port.
    pub port: String,
    /// The database user.
    pub username: String,
    /// The user's password.
    pub password: String,
    /// The database name.
    pub db: String,
    /// The table that counts and logs speak of.
    pub table: String,
    /// The unique index column of the table, if any.
    pub index: Option<String>,
    /// The delimiter; its first byte is used.
    pub delim: String,
    /// The query whose result is exported.
    pub sql: String,
    /// The column that loses the delimiter.
    pub repcol: String,
    /// The output root.
    pub output: String,
}

/// The configuration of one export.
#[derive(Clone, Debug, PartialEq, Eq)]
pub struct ExportConfig {
    pub host: String,
    pub port: String,
    pub user: String,
    pub password: String,
    pub database: String,
    /// The table that counts and logs speak of.
    pub table: String,
    /// The query whose result is exported.
    pub query: String,
    /// The directory under which every file of the run lies.
    pub output_root: String,
    /// The byte between the fields of a line.
    pub delimiter: u8,
    /// The name of the column that is sanitised; empty where none is.
    pub sanitize_target: String,
    /// The name of the index column the estimate may go by; `None` where
    /// none is configured.
    pub index_column: Option<String>,
}

/// The delimiter when none is given: a vertical bar.
pub open spec fn default_delimiter() -> u8 {
    124
}

/// The delimiter a text stands for: its first byte, the default where the
/// text is empty.
pub open spec fn delimiter_of(text: Seq<char>) -> u8 {
    if text.len() == 0 {
        default_delimiter()
    } else {
        encode_utf8(text)[0]
    }
}

/// The index column a command-line value stands for: an empty name is none.
pub open spec fn index_of(index: Option<String>) -> Option<String> {
    match index {
        Some(name) => if name@.len() == 0 {
            None
        } else {
            Some(name)
        },
        None => None,
    }
}

/// A text and its UTF-8 bytes are empty together.
pub proof fn lemma_no_chars_no_bytes(text: Seq<char>)
    ensures
        encode_utf8(text).len() == 0 <==> text.len() == 0,
{
    if text.len() > 0 {
        assert(encode_utf8(text) == vstd::utf8::encode_scalar(text[0] as u32) + encode_utf8(
            text.drop_first(),
        ));
    }
}

/// The delimiter byte a text stands for.
pub fn delimiter_byte(text: &str) -> (delimiter: u8)
    ensures
        delimiter == delimiter_of(text@),
{
    let bytes = text.as_bytes();
    proof {
        lemma_no_chars_no_bytes(text@);
    }
    if bytes.len() == 0 {
        124u8
    } else {
        bytes[0]
    }
}

impl ExportConfig {
    /// The configuration that the command line's values stand for.
    pub fn from_cli(cli: Cli) -> (config: ExportConfig)
        ensures
            config.host == cli.host,
            config.port == cli.port,
            config.user == cli.username,
            config.password == cli.password,
            config.database == cli.db,
            config.table == cli.table,
            config.query == cli.sql,
            config.output_root == cli.output,
            config.delimiter == delimiter_of(cli.delim@),
            config.sanitize_target == cli.repcol,
            config.index_column == index_of(cli.index),
    {
        let delimiter = delimiter_byte(cli.delim.as_str());
        let index_column = match cli.index {
            Some(name) => if name.as_str().is_empty() {
                None
            } else {
                Some(name)
            },
            None => None,
        };
        ExportConfig {
            host: cli.host,
            port: cli.port,
            user: cli.username,
            password: cli.password,
            database: cli.db,
            table: cli.table,
            query: cli.sql,
            output_root: cli.output,
            delimiter,
            sanitize_target: cli.repcol,
            index_column,
        }
    }
}

} // verus!
