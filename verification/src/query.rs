//! The queries of a run: the connection address, the bounded preview that
//! discovers the columns, and the query that estimates the row count.

use vstd::prelude::*;
use vstd::string::StringExecFns;
use crate::column::{find_column, has_column, ColumnDescriptor};
use crate::text::{trim_end, trimmed_end};

verus! {

/// The pattern of a trailing limit clause: the word `limit` in any letter
/// case, a row count with an optional second number after a comma, and all
/// that follows it to the end of the text.
pub open spec fn limit_clause_pattern() -> Seq<char> {
    "(?is)\\blimit\\s+\\d+(\\s*,\\s*\\d+)?\\b.*"@
}

/// The limit that is put on the preview query.
pub open spec fn preview_limit() -> Seq<char> {
    " LIMIT 10"@
}

/// The text after every match of `pattern` in `text` has been replaced by
/// `replacement`; `None` where `pattern` is no pattern.
pub uninterp spec fn regex_replaced(
    pattern: Seq<char>,
    text: Seq<char>,
    replacement: Seq<char>,
) -> Option<Seq<char>>;

/// The preview query made from a query whose limit clause is gone: the
/// blanks at its end dropped, the preview limit put behind it.
pub open spec fn preview_text(stripped: Seq<char>) -> Seq<char> {
    trimmed_end(stripped) + preview_limit()
}

/// The address of the database.
pub open spec fn connection_url_text(
    user: Seq<char>,
    password: Seq<char>,
    host: Seq<char>,
    port: Seq<char>,
    database: Seq<char>,
) -> Seq<char> {
    "mysql://"@ + user + ":"@ + password + "@"@ + host + ":"@ + port + "/"@ + database
}

/// The query that counts the rows of a table.
pub open spec fn count_query_text(table: Seq<char>) -> Seq<char> {
    "SELECT COUNT(*) FROM "@ + table
}

/// The query that reads the largest value of a table's index column.
pub open spec fn max_query_text(index: Seq<char>, table: Seq<char>) -> Seq<char> {
    "SELECT MAX("@ + index + ") FROM "@ + table
}

/// Whether the estimate goes by the index column: one is configured, its
/// name is not empty, and the result set has a column of that name.
pub open spec fn index_in_use(index: Option<String>, columns: Seq<ColumnDescriptor>) -> bool {
    index matches Some(name) && name@.len() > 0 && has_column(columns, name@)
}

/// The query whose result is the progress denominator.
pub open spec fn estimate_query_text(
    index: Option<String>,
    table: Seq<char>,
    columns: Seq<ColumnDescriptor>,
) -> Seq<char> {
    if index_in_use(index, columns) {
        max_query_text(index->Some_0@, table)
    } else {
        count_query_text(table)
    }
}

/// A signed number read as an unsigned one of the same width.
pub open spec fn as_unsigned(raw: i64) -> u64 {
    if raw >= 0 {
        raw as u64
    } else {
        (raw + 0x1_0000_0000_0000_0000) as u64
    }
}

/// Why the preview query could not be made.
#[derive(Clone, Copy, Debug, PartialEq, Eq, Structural)]
pub enum RewriteError {
    /// The pattern of the limit clause was refused.
    Pattern,
}

/// What is said of a preview query that could not be made.
pub open spec fn rewrite_error_text(error: RewriteError) -> Seq<char> {
    match error {
        RewriteError::Pattern => "the pattern of the limit clause was refused"@,
    }
}

impl RewriteError {
    /// What is said of this error in a log.
    pub fn message(&self) -> (text: String)
        ensures
            text@ == rewrite_error_text(*self),
    {
        match self {
            RewriteError::Pattern => "the pattern of the limit clause was refused".to_owned(),
        }
    }
}

/// The preview query, or the reason there is none, for each outcome of
/// stripping the limit clause.
pub open spec fn preview_of(stripped: Option<Seq<char>>) -> Result<Seq<char>, RewriteError> {
    match stripped {
        Some(text) => Ok(preview_text(text)),
        None => Err(RewriteError::Pattern),
    }
}

/// The characters of a query result.
pub open spec fn query_result(r: Result<String, RewriteError>) -> Result<Seq<char>, RewriteError> {
    match r {
        Ok(s) => Ok(s@),
        Err(e) => Err(e),
    }
}

/// `regex::Error`, the reason `regex` refuses a pattern.
#[verifier::external_type_specification]
#[verifier::external_body]
pub struct ExRegexError(regex::Error);

/// `regex::Regex::new`, then `Regex::replace_all`. The result depends on
/// the three texts alone; the error is that of a pattern that does not
/// compile.
#[verifier::external_body]
fn replace_all_matches(pattern: &str, text: &str, replacement: &str) -> (r: Result<
    String,
    regex::Error,
>)
    ensures
        match r {
            Ok(s) => regex_replaced(pattern@, text@, replacement@) == Some(s@),
            Err(_) => regex_replaced(pattern@, text@, replacement@) is None,
        },
{
    match regex::Regex::new(pattern) {
        Ok(re) => Ok(re.replace_all(text, replacement).into_owned()),
        Err(e) => Err(e),
    }
}

/// The address to connect to.
pub fn connection_url(user: &str, password: &str, host: &str, port: &str, database: &str) -> (url:
    String)
    ensures
        url@ == connection_url_text(user@, password@, host@, port@, database@),
{
    let mut url = String::from_str("mysql://");
    url.append(user);
    url.append(":");
    url.append(password);
    url.append("@");
    url.append(host);
    url.append(":");
    url.append(port);
    url.append("/");
    url.append(database);
    url
}

/// The preview query for a query whose limit clause has been taken out.
pub fn preview_query_from(stripped: &str) -> (query: String)
    ensures
        query@ == preview_text(stripped@),
{
    let mut query = trim_end(stripped);
    query.append(" LIMIT 10");
    query
}

/// The preview query for each outcome of taking the limit clause out.
pub fn preview_query_of(stripped: Option<String>) -> (r: Result<String, RewriteError>)
    ensures
        query_result(r) == preview_of(
            match stripped {
                Some(s) => Some(s@),
                None => None,
            },
        ),
{
    match stripped {
        Some(text) => Ok(preview_query_from(text.as_str())),
        None => Err(RewriteError::Pattern),
    }
}

/// The bounded preview of a query: the query without its trailing limit
/// clause, with a limit of ten rows in its place.
pub fn header_probe_query(sql: &str) -> (r: Result<String, RewriteError>)
    ensures
        query_result(r) == preview_of(
            regex_replaced(limit_clause_pattern(), sql@, Seq::<char>::empty()),
        ),
{
    let empty = String::new();
    match replace_all_matches("(?is)\\blimit\\s+\\d+(\\s*,\\s*\\d+)?\\b.*", sql, empty.as_str()) {
        Ok(text) => preview_query_of(Some(text)),
        Err(_) => preview_query_of(None),
    }
}

/// The query that counts the rows of `table`.
pub fn count_query(table: &str) -> (query: String)
    ensures
        query@ == count_query_text(table@),
{
    let mut query = String::from_str("SELECT COUNT(*) FROM ");
    query.append(table);
    query
}

/// The query that reads the largest value of `index` in `table`.
pub fn max_query(index: &str, table: &str) -> (query: String)
    ensures
        query@ == max_query_text(index@, table@),
{
    let mut query = String::from_str("SELECT MAX(");
    query.append(index);
    query.append(") FROM ");
    query.append(table);
    query
}

/// The query that estimates the row count: the largest value of the index
/// column where one is configured and the result set has it, the count of
/// the table's rows otherwise.
pub fn estimate_query(index: &Option<String>, table: &str, columns: &Vec<ColumnDescriptor>) -> (query:
    String)
    ensures
        query@ == estimate_query_text(*index, table@, columns@),
{
    match index {
        Some(name) => {
            if !name.as_str().is_empty() && find_column(columns, name.as_str()).is_some() {
                max_query(name.as_str(), table)
            } else {
                count_query(table)
            }
        },
        None => count_query(table),
    }
}

/// The progress denominator for the number the estimate query returned:
/// the number read as unsigned.
pub fn denominator(raw: i64) -> (total: u64)
    ensures
        total == as_unsigned(raw),
{
    if raw >= 0 {
        raw as u64
    } else {
        u64::MAX - ((-(raw + 1)) as u64)
    }
}

} // verus!
