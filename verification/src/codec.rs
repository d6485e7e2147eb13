//! The type codec: from a column's declared type and the value the driver
//! handed over to the text that is written out.

use vstd::prelude::*;
use vstd::utf8::{decode_utf8, valid_utf8};
use crate::numeral::{int_text, nat_text, padded_text, pow10, render_int};
use crate::text::same_text;

verus! {

/// The groups of declared column types that are written differently.
#[derive(Clone, Copy, Debug, PartialEq, Eq, Structural)]
pub enum ColumnType {
    /// `DECIMAL`
    Decimal,
    /// `DOUBLE`
    Double,
    /// `FLOAT`
    Float,
    /// `SMALLINT`, `TINYINT`
    SmallInt,
    /// `INT`, `MEDIUMINT`, `INTEGER`
    Int,
    /// `BIGINT`
    BigInt,
    /// `INT UNSIGNED`
    UnsignedInt,
    /// `DATETIME`
    DateTime,
    /// `DATE`
    Date,
    /// `BOOLEAN`, `BOOL`
    Boolean,
    /// `TINYBLOB`, `BLOB`, `MEDIUMBLOB`, `LONGBLOB`
    Blob,
    /// `CHAR`, `VARCHAR`
    Char,
    /// Every other tag.
    Other,
}

/// How the driver is asked to read a column's value.
#[derive(Clone, Copy, Debug, PartialEq, Eq, Structural)]
pub enum Decoding {
    /// An arbitrary-precision decimal.
    Decimal,
    /// A 64-bit float.
    Float64,
    /// A 32-bit float.
    Float32,
    /// A 16-bit signed integer.
    Int16,
    /// A 32-bit signed integer.
    Int32,
    /// A 64-bit signed integer.
    Int64,
    /// A 32-bit unsigned integer.
    UInt32,
    /// A timestamp in the local time zone.
    LocalDateTime,
    /// A calendar date.
    CalendarDate,
    /// A raw byte sequence.
    Bytes,
    /// Text.
    Text,
}

/// A column value as the driver decoded it, held as plain values.
#[derive(Clone, Debug, PartialEq, Eq)]
pub enum RawValue {
    /// A decimal: `mantissa` divided by ten to the power `scale`.
    Decimal { mantissa: i128, scale: u32 },
    /// A float, carried as the shortest decimal text that reads back to it.
    Real { text: String },
    /// A 16-bit signed integer.
    SmallInt(i16),
    /// A 32-bit signed integer.
    Int(i32),
    /// A 64-bit signed integer.
    BigInt(i64),
    /// A 32-bit unsigned integer.
    UnsignedInt(u32),
    /// An instant, `seconds` and `nanos` after the Unix epoch in UTC, seen
    /// from a zone `offset` seconds east of UTC.
    DateTime { seconds: i64, nanos: u32, offset: i32 },
    /// A calendar date.
    Date { year: i32, month: u8, day: u8 },
    /// A byte sequence.
    Bytes(Vec<u8>),
    /// Text.
    Text(String),
}

/// Why a value could not be written under its column's declared type.
#[derive(Clone, Copy, Debug, PartialEq, Eq, Structural)]
pub enum TypeCodecError {
    /// The value is not of the kind that the declared type decodes to.
    WrongKind,
    /// The value is of the right kind but lies outside what can be written.
    OutOfRange,
    /// The row does not hold exactly one value for each column.
    ColumnCount,
}

/// What is said of a value that could not be written.
pub open spec fn codec_error_text(error: TypeCodecError) -> Seq<char> {
    match error {
        TypeCodecError::WrongKind => "a value is not of the kind its column's type decodes to"@,
        TypeCodecError::OutOfRange => "a value lies outside what can be written"@,
        TypeCodecError::ColumnCount => "a row does not hold one value per column"@,
    }
}

impl TypeCodecError {
    /// What is said of this error in a log.
    pub fn message(&self) -> (text: String)
        ensures
            text@ == codec_error_text(*self),
    {
        match self {
            TypeCodecError::WrongKind => "a value is not of the kind its column's type decodes to".to_owned(),
            TypeCodecError::OutOfRange => "a value lies outside what can be written".to_owned(),
            TypeCodecError::ColumnCount => "a row does not hold one value per column".to_owned(),
        }
    }
}

/// The group a declared type tag belongs to. Tags are matched exactly,
/// letter case included.
pub open spec fn column_type_of(tag: Seq<char>) -> ColumnType {
    if tag == "DECIMAL"@ {
        ColumnType::Decimal
    } else if tag == "DOUBLE"@ {
        ColumnType::Double
    } else if tag == "FLOAT"@ {
        ColumnType::Float
    } else if tag == "SMALLINT"@ || tag == "TINYINT"@ {
        ColumnType::SmallInt
    } else if tag == "INT"@ || tag == "MEDIUMINT"@ || tag == "INTEGER"@ {
        ColumnType::Int
    } else if tag == "BIGINT"@ {
        ColumnType::BigInt
    } else if tag == "INT UNSIGNED"@ {
        ColumnType::UnsignedInt
    } else if tag == "DATETIME"@ {
        ColumnType::DateTime
    } else if tag == "DATE"@ {
        ColumnType::Date
    } else if tag == "BOOLEAN"@ || tag == "BOOL"@ {
        ColumnType::Boolean
    } else if tag == "TINYBLOB"@ || tag == "BLOB"@ || tag == "MEDIUMBLOB"@ || tag == "LONGBLOB"@ {
        ColumnType::Blob
    } else if tag == "CHAR"@ || tag == "VARCHAR"@ {
        ColumnType::Char
    } else {
        ColumnType::Other
    }
}

/// The decoding each group of types asks for.
pub open spec fn decoding_of(ty: ColumnType) -> Decoding {
    match ty {
        ColumnType::Decimal => Decoding::Decimal,
        ColumnType::Double => Decoding::Float64,
        ColumnType::Float => Decoding::Float32,
        ColumnType::SmallInt => Decoding::Int16,
        ColumnType::Int => Decoding::Int32,
        ColumnType::BigInt => Decoding::Int64,
        ColumnType::UnsignedInt => Decoding::UInt32,
        ColumnType::DateTime => Decoding::LocalDateTime,
        ColumnType::Date => Decoding::CalendarDate,
        ColumnType::Boolean => Decoding::Int16,
        ColumnType::Blob => Decoding::Bytes,
        ColumnType::Char => Decoding::Text,
        ColumnType::Other => Decoding::Text,
    }
}

/// The largest magnitude a decimal's mantissa can have: 96 bits.
pub open spec fn max_decimal_mantissa() -> int {
    0xFFFF_FFFF_FFFF_FFFF_FFFF_FFFF
}

/// The largest scale a decimal can have.
pub open spec fn max_decimal_scale() -> nat {
    28
}

/// The exact text of the decimal `mantissa / 10^scale`: a minus sign for a
/// negative mantissa, the digits of the whole part, and, where the scale is
/// not zero, a point and exactly `scale` digits of the fraction. There is no
/// exponent. `None` where the mantissa or the scale is out of range.
pub open spec fn decimal_text(mantissa: int, scale: nat) -> Option<Seq<char>> {
    if scale > max_decimal_scale() || mantissa > max_decimal_mantissa() || mantissa
        < -max_decimal_mantissa() {
        None
    } else {
        let magnitude = (if mantissa < 0 { -mantissa } else { mantissa }) as nat;
        let sign = if mantissa < 0 { seq!['-'] } else { Seq::<char>::empty() };
        let whole = nat_text(magnitude / pow10(scale));
        if scale == 0 {
            Some(sign + whole)
        } else {
            Some(sign + whole + seq!['.'] + padded_text(magnitude % pow10(scale), scale))
        }
    }
}

/// The text of the instant `seconds` and `nanos` after the Unix epoch, as
/// the wall clock of a zone `offset` seconds east of UTC shows it, followed
/// by that offset. `None` where the instant or the offset cannot be held.
pub uninterp spec fn datetime_text(seconds: int, nanos: int, offset: int) -> Option<Seq<char>>;

/// The text of a calendar date. `None` where there is no such date.
pub uninterp spec fn date_text(year: int, month: int, day: int) -> Option<Seq<char>>;

/// The characters of a byte sequence read as UTF-8, each ill-formed part
/// replaced by U+FFFD.
pub uninterp spec fn lossy_text(bytes: Seq<u8>) -> Seq<char>;

/// The text a value has under a declared type, or the reason it has none.
pub open spec fn encoded(ty: ColumnType, raw: RawValue) -> Result<Seq<char>, TypeCodecError> {
    match (decoding_of(ty), raw) {
        (Decoding::Decimal, RawValue::Decimal { mantissa, scale }) => rendered_or_out_of_range(
            decimal_text(mantissa as int, scale as nat),
        ),
        (Decoding::Float64, RawValue::Real { text }) => Ok(text@),
        (Decoding::Float32, RawValue::Real { text }) => Ok(text@),
        (Decoding::Int16, RawValue::SmallInt(v)) => Ok(int_text(v as int)),
        (Decoding::Int32, RawValue::Int(v)) => Ok(int_text(v as int)),
        (Decoding::Int64, RawValue::BigInt(v)) => Ok(int_text(v as int)),
        (Decoding::UInt32, RawValue::UnsignedInt(v)) => Ok(int_text(v as int)),
        (Decoding::LocalDateTime, RawValue::DateTime { seconds, nanos, offset }) =>
            rendered_or_out_of_range(datetime_text(seconds as int, nanos as int, offset as int)),
        (Decoding::CalendarDate, RawValue::Date { year, month, day }) => rendered_or_out_of_range(
            date_text(year as int, month as int, day as int),
        ),
        (Decoding::Bytes, RawValue::Bytes(bytes)) => Ok(lossy_text(bytes@)),
        (Decoding::Text, RawValue::Text(text)) => Ok(text@),
        _ => Err(TypeCodecError::WrongKind),
    }
}

/// A rendered text stands; a value without one is out of range.
pub open spec fn rendered_or_out_of_range(rendered: Option<Seq<char>>) -> Result<
    Seq<char>,
    TypeCodecError,
> {
    match rendered {
        Some(text) => Ok(text),
        None => Err(TypeCodecError::OutOfRange),
    }
}

/// The characters of a text result.
pub open spec fn result_text(r: Result<String, TypeCodecError>) -> Result<
    Seq<char>,
    TypeCodecError,
> {
    match r {
        Ok(s) => Ok(s@),
        Err(e) => Err(e),
    }
}

/// `rust_decimal::Error`, the reason `rust_decimal` refuses a value.
#[verifier::external_type_specification]
#[verifier::external_body]
pub struct ExDecimalError(rust_decimal::Error);

/// `time::error::ComponentRange`, the reason `time` refuses a date component.
#[verifier::external_type_specification]
#[verifier::external_body]
pub struct ExComponentRange(time::error::ComponentRange);

/// `rust_decimal::Decimal::try_from_i128_with_scale`, then the decimal's
/// `to_string`. The constructor refuses a scale above 28 and a mantissa
/// beyond 96 bits; the text is the sign, the whole part, and for a scale
/// above zero a point and `scale` fraction digits.
#[verifier::external_body]
fn decimal_to_text(mantissa: i128, scale: u32) -> (r: Result<String, rust_decimal::Error>)
    ensures
        match r {
            Ok(s) => decimal_text(mantissa as int, scale as nat) == Some(s@),
            Err(_) => decimal_text(mantissa as int, scale as nat) is None,
        },
{
    match rust_decimal::Decimal::try_from_i128_with_scale(mantissa, scale) {
        Ok(decimal) => Ok(decimal.to_string()),
        Err(e) => Err(e),
    }
}

/// `chrono::DateTime::from_timestamp`, `chrono::FixedOffset::east_opt`,
/// `DateTime::with_timezone` and the result's `to_string`. The text depends
/// on the three numbers alone; there is none where chrono cannot hold the
/// instant or the offset.
#[verifier::external_body]
fn datetime_to_text(seconds: i64, nanos: u32, offset: i32) -> (r: Option<String>)
    ensures
        match r {
            Some(s) => datetime_text(seconds as int, nanos as int, offset as int) == Some(s@),
            None => datetime_text(seconds as int, nanos as int, offset as int) is None,
        },
{
    let instant = chrono::DateTime::from_timestamp(seconds, nanos);
    let zone = chrono::FixedOffset::east_opt(offset);
    match (instant, zone) {
        (Some(instant), Some(zone)) => Some(instant.with_timezone(&zone).to_string()),
        _ => None,
    }
}

/// `time::Month::try_from`, `time::Date::from_calendar_date` and the date's
/// `to_string`. The text depends on the three numbers alone; there is none
/// where they name no date.
#[verifier::external_body]
fn date_to_text(year: i32, month: u8, day: u8) -> (r: Result<String, time::error::ComponentRange>)
    ensures
        match r {
            Ok(s) => date_text(year as int, month as int, day as int) == Some(s@),
            Err(_) => date_text(year as int, month as int, day as int) is None,
        },
{
    let month = time::Month::try_from(month)?;
    let date = time::Date::from_calendar_date(year, month, day)?;
    Ok(date.to_string())
}

/// `String::from_utf8_lossy` of the standard library. Bytes that are
/// well-formed UTF-8 come out as the characters they encode.
#[verifier::external_body]
fn bytes_to_text(bytes: &Vec<u8>) -> (r: String)
    ensures
        r@ == lossy_text(bytes@),
        valid_utf8(bytes@) ==> r@ == decode_utf8(bytes@),
{
    String::from_utf8_lossy(bytes).into_owned()
}

impl ColumnType {
    /// The group of a declared type tag.
    pub fn from_tag(tag: &str) -> (ty: ColumnType)
        ensures
            ty == column_type_of(tag@),
    {
        if same_text(tag, "DECIMAL") {
            ColumnType::Decimal
        } else if same_text(tag, "DOUBLE") {
            ColumnType::Double
        } else if same_text(tag, "FLOAT") {
            ColumnType::Float
        } else if same_text(tag, "SMALLINT") || same_text(tag, "TINYINT") {
            ColumnType::SmallInt
        } else if same_text(tag, "INT") || same_text(tag, "MEDIUMINT") || same_text(
            tag,
            "INTEGER",
        ) {
            ColumnType::Int
        } else if same_text(tag, "BIGINT") {
            ColumnType::BigInt
        } else if same_text(tag, "INT UNSIGNED") {
            ColumnType::UnsignedInt
        } else if same_text(tag, "DATETIME") {
            ColumnType::DateTime
        } else if same_text(tag, "DATE") {
            ColumnType::Date
        } else if same_text(tag, "BOOLEAN") || same_text(tag, "BOOL") {
            ColumnType::Boolean
        } else if same_text(tag, "TINYBLOB") || same_text(tag, "BLOB") || same_text(
            tag,
            "MEDIUMBLOB",
        ) || same_text(tag, "LONGBLOB") {
            ColumnType::Blob
        } else if same_text(tag, "CHAR") || same_text(tag, "VARCHAR") {
            ColumnType::Char
        } else {
            ColumnType::Other
        }
    }

    /// How the driver is asked to read a value of this type.
    pub fn decoding(self) -> (d: Decoding)
        ensures
            d == decoding_of(self),
    {
        match self {
            ColumnType::Decimal => Decoding::Decimal,
            ColumnType::Double => Decoding::Float64,
            ColumnType::Float => Decoding::Float32,
            ColumnType::SmallInt => Decoding::Int16,
            ColumnType::Int => Decoding::Int32,
            ColumnType::BigInt => Decoding::Int64,
            ColumnType::UnsignedInt => Decoding::UInt32,
            ColumnType::DateTime => Decoding::LocalDateTime,
            ColumnType::Date => Decoding::CalendarDate,
            ColumnType::Boolean => Decoding::Int16,
            ColumnType::Blob => Decoding::Bytes,
            ColumnType::Char => Decoding::Text,
            ColumnType::Other => Decoding::Text,
        }
    }
}

/// What becomes of a text that an outside renderer may have produced: the
/// text where there is one, `OutOfRange` where there is none.
pub fn rendered_or_error(rendered: Option<String>) -> (r: Result<String, TypeCodecError>)
    ensures
        match rendered {
            Some(text) => r == Ok::<String, TypeCodecError>(text),
            None => r == Err::<String, TypeCodecError>(TypeCodecError::OutOfRange),
        },
{
    match rendered {
        Some(text) => Ok(text),
        None => Err(TypeCodecError::OutOfRange),
    }
}

/// The canonical text of a decimal.
pub fn encode_decimal(mantissa: i128, scale: u32) -> (r: Result<String, TypeCodecError>)
    ensures
        result_text(r) == rendered_or_out_of_range(decimal_text(mantissa as int, scale as nat)),
{
    match decimal_to_text(mantissa, scale) {
        Ok(text) => rendered_or_error(Some(text)),
        Err(_) => rendered_or_error(None),
    }
}

/// The canonical text of an instant seen from a zone at a fixed offset.
pub fn encode_datetime(seconds: i64, nanos: u32, offset: i32) -> (r: Result<
    String,
    TypeCodecError,
>)
    ensures
        result_text(r) == rendered_or_out_of_range(
            datetime_text(seconds as int, nanos as int, offset as int),
        ),
{
    rendered_or_error(datetime_to_text(seconds, nanos, offset))
}

/// The canonical text of a calendar date.
pub fn encode_date(year: i32, month: u8, day: u8) -> (r: Result<String, TypeCodecError>)
    ensures
        result_text(r) == rendered_or_out_of_range(date_text(year as int, month as int, day as int)),
{
    match date_to_text(year, month, day) {
        Ok(text) => rendered_or_error(Some(text)),
        Err(_) => rendered_or_error(None),
    }
}

/// The text of a byte sequence, ill-formed UTF-8 replaced rather than
/// refused.
pub fn encode_bytes(bytes: &Vec<u8>) -> (r: String)
    ensures
        r@ == lossy_text(bytes@),
        valid_utf8(bytes@) ==> r@ == decode_utf8(bytes@),
{
    bytes_to_text(bytes)
}

/// The canonical text of `raw` under the declared type `ty`.
///
/// Succeeds exactly when the value is of the kind the type decodes to and,
/// for decimals, instants and dates, within what can be written.
pub fn encode(ty: ColumnType, raw: &RawValue) -> (r: Result<String, TypeCodecError>)
    ensures
        result_text(r) == encoded(ty, *raw),
{
    match (ty.decoding(), raw) {
        (Decoding::Decimal, RawValue::Decimal { mantissa, scale }) => encode_decimal(
            *mantissa,
            *scale,
        ),
        (Decoding::Float64, RawValue::Real { text }) => Ok(text.clone()),
        (Decoding::Float32, RawValue::Real { text }) => Ok(text.clone()),
        (Decoding::Int16, RawValue::SmallInt(v)) => Ok(render_int(*v as i64)),
        (Decoding::Int32, RawValue::Int(v)) => Ok(render_int(*v as i64)),
        (Decoding::Int64, RawValue::BigInt(v)) => Ok(render_int(*v)),
        (Decoding::UInt32, RawValue::UnsignedInt(v)) => Ok(render_int(*v as i64)),
        (Decoding::LocalDateTime, RawValue::DateTime { seconds, nanos, offset }) => encode_datetime(
            *seconds,
            *nanos,
            *offset,
        ),
        (Decoding::CalendarDate, RawValue::Date { year, month, day }) => encode_date(
            *year,
            *month,
            *day,
        ),
        (Decoding::Bytes, RawValue::Bytes(bytes)) => Ok(encode_bytes(bytes)),
        (Decoding::Text, RawValue::Text(text)) => Ok(text.clone()),
        _ => Err(TypeCodecError::WrongKind),
    }
}

/// Encoding is a function of the declared type and the value: equal inputs
/// have equal texts, and fail alike.
pub proof fn lemma_encoding_is_deterministic(
    first_tag: Seq<char>,
    first: RawValue,
    second_tag: Seq<char>,
    second: RawValue,
)
    requires
        first_tag == second_tag,
        first == second,
    ensures
        encoded(column_type_of(first_tag), first) == encoded(column_type_of(second_tag), second),
{
}

/// An integer in a boolean column is written as that integer.
pub proof fn lemma_boolean_is_written_as_integer(v: i16)
    ensures
        encoded(ColumnType::Boolean, RawValue::SmallInt(v)) == Ok::<Seq<char>, TypeCodecError>(
            int_text(v as int),
        ),
{
}

} // verus!
