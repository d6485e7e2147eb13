//! Rows: one text per column, made by the type codec and then passed
//! through the sanitizer, and the header that names the columns in the same
//! order.

use vstd::prelude::*;
use crate::codec::{
    column_type_of, decoding_of, encode, encoded, Decoding, RawValue, TypeCodecError,
};
use vstd::utf8::encode_utf8;
use crate::column::{column_names, ColumnDescriptor};
use crate::line::{
    encode_line, joined, lemma_field_survives, lemma_joined_free_of_line_end, line_end, line_of,
    split, utf8_fields,
};
use crate::sanitize::{
    has_delimiter, lemma_delimiter_in_bytes, lemma_sanitized_row, lemma_stripped_keeps_clean_text, sanitize_position, sanitize_row, sanitized_row, stripped,
};

verus! {

/// The text of the value at position `i` under the type of column `i`.
pub open spec fn encoded_cell(columns: Seq<ColumnDescriptor>, values: Seq<RawValue>, i: int) -> Result<
    Seq<char>,
    TypeCodecError,
> {
    encoded(column_type_of(columns[i].declared_type@), values[i])
}

/// The texts of the first `n` values, or the error of the first value
/// among them that has no text.
pub open spec fn encoded_cells(columns: Seq<ColumnDescriptor>, values: Seq<RawValue>, n: nat) -> Result<
    Seq<Seq<char>>,
    TypeCodecError,
>
    decreases n,
{
    if n == 0 {
        Ok(Seq::<Seq<char>>::empty())
    } else {
        match encoded_cells(columns, values, (n - 1) as nat) {
            Err(e) => Err(e),
            Ok(before) => match encoded_cell(columns, values, n - 1) {
                Ok(text) => Ok(before.push(text)),
                Err(e) => Err(e),
            },
        }
    }
}

/// The texts of a row before the sanitizer. A row that does not hold one
/// value per column has none.
pub open spec fn encoded_row(columns: Seq<ColumnDescriptor>, values: Seq<RawValue>) -> Result<
    Seq<Seq<char>>,
    TypeCodecError,
> {
    if values.len() != columns.len() {
        Err(TypeCodecError::ColumnCount)
    } else {
        encoded_cells(columns, values, columns.len())
    }
}

/// The texts of a row as they are written: encoded, then sanitised.
pub open spec fn row_text(
    columns: Seq<ColumnDescriptor>,
    values: Seq<RawValue>,
    target: Seq<char>,
    delimiter: u8,
) -> Result<Seq<Seq<char>>, TypeCodecError> {
    match encoded_row(columns, values) {
        Ok(row) => Ok(sanitized_row(row, columns, target, delimiter)),
        Err(e) => Err(e),
    }
}

/// The texts of a row result.
pub open spec fn row_result(r: Result<Vec<String>, TypeCodecError>) -> Result<
    Seq<Seq<char>>,
    TypeCodecError,
> {
    match r {
        Ok(row) => Ok(row.deep_view()),
        Err(e) => Err(e),
    }
}

/// Where the first `n` values have texts, there are `n` of them and the
/// text at each position is the text of the value at that position.
pub proof fn lemma_encoded_cell_at(
    columns: Seq<ColumnDescriptor>,
    values: Seq<RawValue>,
    n: nat,
    i: int,
)
    requires
        encoded_cells(columns, values, n) is Ok,
        0 <= i < n,
    ensures
        encoded_cells(columns, values, n)->Ok_0.len() == n,
        encoded_cell(columns, values, i) == Ok::<Seq<char>, TypeCodecError>(
            encoded_cells(columns, values, n)->Ok_0[i],
        ),
    decreases n,
{
    lemma_encoded_cells_len(columns, values, (n - 1) as nat);
    if i < n - 1 {
        lemma_encoded_cell_at(columns, values, (n - 1) as nat, i);
    }
}

/// Where the first `n` values have texts, there are `n` texts.
pub proof fn lemma_encoded_cells_len(columns: Seq<ColumnDescriptor>, values: Seq<RawValue>, n: nat)
    ensures
        encoded_cells(columns, values, n) matches Ok(row) ==> row.len() == n,
    decreases n,
{
    if n > 0 {
        lemma_encoded_cells_len(columns, values, (n - 1) as nat);
    }
}

/// Every row that is written has exactly one text per column.
pub proof fn lemma_row_has_one_text_per_column(
    columns: Seq<ColumnDescriptor>,
    values: Seq<RawValue>,
    target: Seq<char>,
    delimiter: u8,
)
    ensures
        row_text(columns, values, target, delimiter) matches Ok(row) ==> row.len()
            == columns.len(),
{
    lemma_encoded_cells_len(columns, values, columns.len());
    if encoded_row(columns, values) is Ok {
        lemma_sanitized_row(encoded_row(columns, values)->Ok_0, columns, target, delimiter);
    }
}

/// The sanitizer changes the text of one column at most: every text at
/// another position is the encoded text, and where no column carries the
/// target name the written row, and so its line, is the encoded row.
pub proof fn lemma_sanitizer_touches_one_column(
    columns: Seq<ColumnDescriptor>,
    values: Seq<RawValue>,
    target: Seq<char>,
    delimiter: u8,
)
    requires
        encoded_row(columns, values) is Ok,
    ensures
        row_text(columns, values, target, delimiter) is Ok,
        row_text(columns, values, target, delimiter)->Ok_0.len() == columns.len(),
        encoded_row(columns, values)->Ok_0.len() == columns.len(),
        forall|i: int|
            0 <= i < columns.len() && sanitize_position(columns, target) != Some(i) ==> (
            #[trigger] row_text(columns, values, target, delimiter)->Ok_0[i]) == encoded_row(
                columns,
                values,
            )->Ok_0[i],
        sanitize_position(columns, target) is None ==> row_text(columns, values, target, delimiter)
            == encoded_row(columns, values) && line_of(
            utf8_fields(row_text(columns, values, target, delimiter)->Ok_0),
            delimiter,
        ) == line_of(utf8_fields(encoded_row(columns, values)->Ok_0), delimiter),
{
    lemma_encoded_cells_len(columns, values, columns.len());
    lemma_sanitized_row(encoded_row(columns, values)->Ok_0, columns, target, delimiter);
}

/// The header and the rows go by the same column order: the header's text
/// at a position is the name of the column whose type decodes the value at
/// that position of every row.
pub proof fn lemma_header_matches_rows(
    columns: Seq<ColumnDescriptor>,
    values: Seq<RawValue>,
    target: Seq<char>,
    delimiter: u8,
    i: int,
)
    requires
        0 <= i < columns.len(),
        row_text(columns, values, target, delimiter) is Ok,
    ensures
        column_names(columns).len() == row_text(columns, values, target, delimiter)->Ok_0.len(),
        column_names(columns)[i] == columns[i].name@,
        encoded_cell(columns, values, i) is Ok,
        row_text(columns, values, target, delimiter)->Ok_0[i] == (if sanitize_position(
            columns,
            target,
        ) == Some(i) {
            stripped(encoded_cell(columns, values, i)->Ok_0, delimiter)
        } else {
            encoded_cell(columns, values, i)->Ok_0
        }),
{
    lemma_encoded_cell_at(columns, values, columns.len(), i);
    lemma_sanitized_row(encoded_row(columns, values)->Ok_0, columns, target, delimiter);
}

/// The round trip of a text column. Take a row that is written with a
/// delimiter below 128 that is not the line end, whose texts hold no line
/// end, and a column `k` of a text type whose value holds no delimiter
/// character, the texts before it holding none either. Then the row's line
/// ends in its only line end, and splitting the rest at the delimiter gives
/// at position `k` the bytes of the value the driver reported.
pub proof fn lemma_text_column_round_trip(
    columns: Seq<ColumnDescriptor>,
    values: Seq<RawValue>,
    target: Seq<char>,
    delimiter: u8,
    k: int,
)
    requires
        delimiter < 128,
        delimiter != line_end(),
        row_text(columns, values, target, delimiter) is Ok,
        0 <= k < columns.len(),
        decoding_of(column_type_of(columns[k].declared_type@)) == Decoding::Text,
        values[k] matches RawValue::Text(text) ==> !has_delimiter(text@, delimiter),
        forall|i: int|
            0 <= i < k ==> !has_delimiter(
                #[trigger] row_text(columns, values, target, delimiter)->Ok_0[i],
                delimiter,
            ),
        forall|i: int|
            0 <= i < columns.len() ==> !has_delimiter(
                #[trigger] row_text(columns, values, target, delimiter)->Ok_0[i],
                line_end(),
            ),
    ensures
        values[k] is Text,
        ({
            let row = row_text(columns, values, target, delimiter)->Ok_0;
            let line = line_of(utf8_fields(row), delimiter);
            let body = line.drop_last();
            &&& line.last() == line_end()
            &&& !body.contains(line_end())
            &&& k < split(body, delimiter).len()
            &&& split(body, delimiter)[k] == encode_utf8(values[k]->Text_0@)
        }),
{
    let row = row_text(columns, values, target, delimiter)->Ok_0;
    let fields = utf8_fields(row);
    lemma_header_matches_rows(columns, values, target, delimiter, k);
    let text = values[k]->Text_0@;
    assert(encoded_cell(columns, values, k) == Ok::<Seq<char>, TypeCodecError>(text));
    lemma_stripped_keeps_clean_text(text, delimiter);
    assert(row[k] == text);
    assert forall|i: int| 0 <= i <= k && i < fields.len() implies !(#[trigger] fields[i]).contains(
        delimiter,
    ) by {
        lemma_delimiter_in_bytes(row[i], delimiter);
    }
    lemma_field_survives(fields, delimiter, k);
    assert forall|i: int| 0 <= i <= fields.len() - 1 && i < fields.len() implies !(
    #[trigger] fields[i]).contains(line_end()) by {
        lemma_delimiter_in_bytes(row[i], line_end());
    }
    lemma_joined_free_of_line_end(fields, delimiter);
    assert(line_of(fields, delimiter).drop_last() == joined(fields, delimiter));
}

/// The texts of a row's values, each under the type of its column.
///
/// Fails with `ColumnCount` where the row does not hold one value per
/// column, and otherwise with the error of the first value that has no text.
pub fn encode_values(columns: &Vec<ColumnDescriptor>, values: &Vec<RawValue>) -> (r: Result<
    Vec<String>,
    TypeCodecError,
>)
    ensures
        row_result(r) == encoded_row(columns@, values@),
        r matches Ok(row) ==> row.len() == columns.len(),
{
    if values.len() != columns.len() {
        return Err(TypeCodecError::ColumnCount);
    }
    let mut row: Vec<String> = Vec::new();
    let mut i: usize = 0;
    assert(row.deep_view() =~= Seq::<Seq<char>>::empty());
    while i < columns.len()
        invariant
            i <= columns.len(),
            values.len() == columns.len(),
            row.len() == i,
            encoded_cells(columns@, values@, i as nat) == Ok::<Seq<Seq<char>>, TypeCodecError>(
                row.deep_view(),
            ),
        decreases columns.len() - i,
    {
        let ghost before = row.deep_view();
        match encode(columns[i].column_type(), &values[i]) {
            Ok(text) => {
                row.push(text);
                assert(row.deep_view() =~= before.push(text@));
            },
            Err(e) => {
                proof {
                    lemma_cells_fail_for_good(columns@, values@, (i + 1) as nat, columns.len() as nat);
                }
                return Err(e);
            },
        }
        i += 1;
    }
    Ok(row)
}

/// An error among the first `n` values is the error of every longer prefix.
pub proof fn lemma_cells_fail_for_good(
    columns: Seq<ColumnDescriptor>,
    values: Seq<RawValue>,
    n: nat,
    m: nat,
)
    requires
        n <= m,
        encoded_cells(columns, values, n) is Err,
    ensures
        encoded_cells(columns, values, m) == encoded_cells(columns, values, n),
    decreases m - n,
{
    if n < m {
        lemma_cells_fail_for_good(columns, values, n, (m - 1) as nat);
    }
}

/// The texts of a row as they are written: each value encoded under the
/// type of its column, then the sanitize rule applied.
pub fn encode_row(
    columns: &Vec<ColumnDescriptor>,
    values: &Vec<RawValue>,
    target: &str,
    delimiter: u8,
) -> (r: Result<Vec<String>, TypeCodecError>)
    ensures
        row_result(r) == row_text(columns@, values@, target@, delimiter),
        r matches Ok(row) ==> row.len() == columns.len(),
{
    match encode_values(columns, values) {
        Ok(mut row) => {
            sanitize_row(&mut row, columns, target, delimiter);
            Ok(row)
        },
        Err(e) => Err(e),
    }
}

/// The column names, in column order.
pub fn header_fields(columns: &Vec<ColumnDescriptor>) -> (names: Vec<String>)
    ensures
        names.deep_view() == column_names(columns@),
{
    let mut names: Vec<String> = Vec::new();
    let mut i: usize = 0;
    assert(names.deep_view() =~= column_names(columns@).take(0));
    while i < columns.len()
        invariant
            i <= columns.len(),
            names.deep_view() == column_names(columns@).take(i as int),
        decreases columns.len() - i,
    {
        let ghost before = names.deep_view();
        let name = columns[i].name.clone();
        names.push(name);
        assert(names.deep_view() =~= before.push(columns@[i as int].name@));
        assert(column_names(columns@).take(i + 1) =~= column_names(columns@).take(i as int).push(
            columns@[i as int].name@,
        ));
        i += 1;
    }
    assert(column_names(columns@).take(columns.len() as int) =~= column_names(columns@));
    names
}

/// The header line: the column names, delimited like every row.
pub fn header_line(columns: &Vec<ColumnDescriptor>, delimiter: u8) -> (line: Vec<u8>)
    ensures
        line@ == line_of(utf8_fields(column_names(columns@)), delimiter),
{
    let names = header_fields(columns);
    encode_line(&names, delimiter)
}

/// The line of a row: its texts as they are written, delimited.
pub fn row_line(
    columns: &Vec<ColumnDescriptor>,
    values: &Vec<RawValue>,
    target: &str,
    delimiter: u8,
) -> (r: Result<Vec<u8>, TypeCodecError>)
    ensures
        match row_text(columns@, values@, target@, delimiter) {
            Ok(row) => r matches Ok(line) && line@ == line_of(utf8_fields(row), delimiter),
            Err(e) => r == Err::<Vec<u8>, TypeCodecError>(e),
        },
{
    match encode_row(columns, values, target, delimiter) {
        Ok(row) => Ok(encode_line(&row, delimiter)),
        Err(e) => Err(e),
    }
}

} // verus!
