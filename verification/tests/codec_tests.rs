use query_export::codec::{
    encode, encode_bytes, encode_date, encode_datetime, encode_decimal, rendered_or_error,
    ColumnType, Decoding, RawValue, TypeCodecError,
};
use query_export::numeral::render_int;

fn text(s: &str) -> Result<String, TypeCodecError> {
    Ok(s.to_string())
}

#[test]
fn tags_fall_into_their_groups() {
    assert_eq!(ColumnType::from_tag("DECIMAL"), ColumnType::Decimal);
    assert_eq!(ColumnType::from_tag("DOUBLE"), ColumnType::Double);
    assert_eq!(ColumnType::from_tag("FLOAT"), ColumnType::Float);
    assert_eq!(ColumnType::from_tag("SMALLINT"), ColumnType::SmallInt);
    assert_eq!(ColumnType::from_tag("TINYINT"), ColumnType::SmallInt);
    assert_eq!(ColumnType::from_tag("INT"), ColumnType::Int);
    assert_eq!(ColumnType::from_tag("MEDIUMINT"), ColumnType::Int);
    assert_eq!(ColumnType::from_tag("INTEGER"), ColumnType::Int);
    assert_eq!(ColumnType::from_tag("BIGINT"), ColumnType::BigInt);
    assert_eq!(ColumnType::from_tag("INT UNSIGNED"), ColumnType::UnsignedInt);
    assert_eq!(ColumnType::from_tag("DATETIME"), ColumnType::DateTime);
    assert_eq!(ColumnType::from_tag("DATE"), ColumnType::Date);
    assert_eq!(ColumnType::from_tag("BOOLEAN"), ColumnType::Boolean);
    assert_eq!(ColumnType::from_tag("BOOL"), ColumnType::Boolean);
    assert_eq!(ColumnType::from_tag("TINYBLOB"), ColumnType::Blob);
    assert_eq!(ColumnType::from_tag("BLOB"), ColumnType::Blob);
    assert_eq!(ColumnType::from_tag("MEDIUMBLOB"), ColumnType::Blob);
    assert_eq!(ColumnType::from_tag("LONGBLOB"), ColumnType::Blob);
    assert_eq!(ColumnType::from_tag("CHAR"), ColumnType::Char);
    assert_eq!(ColumnType::from_tag("VARCHAR"), ColumnType::Char);
}

#[test]
fn unknown_tags_are_read_as_text() {
    assert_eq!(ColumnType::from_tag("TEXT"), ColumnType::Other);
    assert_eq!(ColumnType::from_tag("JSON"), ColumnType::Other);
    assert_eq!(ColumnType::from_tag(""), ColumnType::Other);
    assert_eq!(ColumnType::from_tag("BIGINT UNSIGNED"), ColumnType::Other);
}

#[test]
fn tags_are_matched_with_their_letter_case() {
    assert_eq!(ColumnType::from_tag("decimal"), ColumnType::Other);
    assert_eq!(ColumnType::from_tag("Int"), ColumnType::Other);
    assert_eq!(ColumnType::from_tag(" INT"), ColumnType::Other);
    assert_eq!(ColumnType::from_tag("INT "), ColumnType::Other);
}

#[test]
fn each_group_asks_for_its_decoding() {
    assert_eq!(ColumnType::Decimal.decoding(), Decoding::Decimal);
    assert_eq!(ColumnType::Double.decoding(), Decoding::Float64);
    assert_eq!(ColumnType::Float.decoding(), Decoding::Float32);
    assert_eq!(ColumnType::SmallInt.decoding(), Decoding::Int16);
    assert_eq!(ColumnType::Int.decoding(), Decoding::Int32);
    assert_eq!(ColumnType::BigInt.decoding(), Decoding::Int64);
    assert_eq!(ColumnType::UnsignedInt.decoding(), Decoding::UInt32);
    assert_eq!(ColumnType::DateTime.decoding(), Decoding::LocalDateTime);
    assert_eq!(ColumnType::Date.decoding(), Decoding::CalendarDate);
    assert_eq!(ColumnType::Boolean.decoding(), Decoding::Int16);
    assert_eq!(ColumnType::Blob.decoding(), Decoding::Bytes);
    assert_eq!(ColumnType::Char.decoding(), Decoding::Text);
    assert_eq!(ColumnType::Other.decoding(), Decoding::Text);
}

#[test]
fn boolean_one_is_written_as_the_digit() {
    let got = encode(ColumnType::from_tag("BOOLEAN"), &RawValue::SmallInt(1));
    assert_eq!(got, text("1"));
    assert_ne!(got, text("true"));
    assert_eq!(encode(ColumnType::from_tag("BOOL"), &RawValue::SmallInt(0)), text("0"));
}

#[test]
fn integers_are_written_in_base_ten() {
    assert_eq!(render_int(0), "0");
    assert_eq!(render_int(7), "7");
    assert_eq!(render_int(10), "10");
    assert_eq!(render_int(-1), "-1");
    assert_eq!(render_int(1234567890), "1234567890");
    assert_eq!(render_int(i64::MAX), "9223372036854775807");
    assert_eq!(render_int(i64::MIN), "-9223372036854775808");
}

#[test]
fn integer_columns_are_written_by_their_width() {
    assert_eq!(encode(ColumnType::SmallInt, &RawValue::SmallInt(-32768)), text("-32768"));
    assert_eq!(encode(ColumnType::Int, &RawValue::Int(2147483647)), text("2147483647"));
    assert_eq!(encode(ColumnType::Int, &RawValue::Int(-2147483648)), text("-2147483648"));
    assert_eq!(
        encode(ColumnType::BigInt, &RawValue::BigInt(-9223372036854775808)),
        text("-9223372036854775808")
    );
    assert_eq!(
        encode(ColumnType::UnsignedInt, &RawValue::UnsignedInt(4294967295)),
        text("4294967295")
    );
}

#[test]
fn decimals_are_written_exactly() {
    assert_eq!(encode_decimal(12345, 2), text("123.45"));
    assert_eq!(encode_decimal(-5, 3), text("-0.005"));
    assert_eq!(encode_decimal(0, 2), text("0.00"));
    assert_eq!(encode_decimal(0, 0), text("0"));
    assert_eq!(encode_decimal(100, 0), text("100"));
    assert_eq!(encode_decimal(100, 2), text("1.00"));
    assert_eq!(encode_decimal(-12300, 5), text("-0.12300"));
    assert_eq!(encode_decimal(1, 28), text("0.0000000000000000000000000001"));
    assert_eq!(
        encode_decimal(79228162514264337593543950335, 0),
        text("79228162514264337593543950335")
    );
    assert_eq!(
        encode_decimal(-79228162514264337593543950335, 28),
        text("-7.9228162514264337593543950335")
    );
}

#[test]
fn decimals_out_of_range_are_refused() {
    assert_eq!(encode_decimal(1, 29), Err(TypeCodecError::OutOfRange));
    assert_eq!(encode_decimal(79228162514264337593543950336, 0), Err(TypeCodecError::OutOfRange));
    assert_eq!(encode_decimal(-79228162514264337593543950336, 0), Err(TypeCodecError::OutOfRange));
    assert_eq!(encode_decimal(i128::MAX, u32::MAX), Err(TypeCodecError::OutOfRange));
    assert_eq!(
        encode(ColumnType::Decimal, &RawValue::Decimal { mantissa: 1, scale: 29 }),
        Err(TypeCodecError::OutOfRange)
    );
}

#[test]
fn decimal_columns_are_written_through_the_codec() {
    let got = encode(ColumnType::from_tag("DECIMAL"), &RawValue::Decimal { mantissa: 1999, scale: 2 });
    assert_eq!(got, text("19.99"));
}

#[test]
fn instants_are_written_as_local_wall_clock_and_offset() {
    assert_eq!(encode_datetime(0, 0, 0), text("1970-01-01 00:00:00 +00:00"));
    assert_eq!(encode_datetime(0, 0, 3600), text("1970-01-01 01:00:00 +01:00"));
    assert_eq!(encode_datetime(0, 0, -19800), text("1969-12-31 18:30:00 -05:30"));
    assert_eq!(encode_datetime(1431648000, 0, 0), text("2015-05-15 00:00:00 +00:00"));
    assert_eq!(encode_datetime(0, 500_000_000, 0), text("1970-01-01 00:00:00.500 +00:00"));
    assert_eq!(
        encode(
            ColumnType::from_tag("DATETIME"),
            &RawValue::DateTime { seconds: 1700000000, nanos: 0, offset: 28800 }
        ),
        text("2023-11-15 06:13:20 +08:00")
    );
}

#[test]
fn instants_that_cannot_be_held_are_refused() {
    assert_eq!(encode_datetime(0, 0, 86400), Err(TypeCodecError::OutOfRange));
    assert_eq!(encode_datetime(0, 0, -86400), Err(TypeCodecError::OutOfRange));
    assert_eq!(encode_datetime(i64::MAX, 0, 0), Err(TypeCodecError::OutOfRange));
    assert_eq!(encode_datetime(0, 2_000_000_000, 0), Err(TypeCodecError::OutOfRange));
}

#[test]
fn dates_are_written_year_month_day() {
    assert_eq!(encode_date(2024, 2, 29), text("2024-02-29"));
    assert_eq!(encode_date(1999, 12, 31), text("1999-12-31"));
    assert_eq!(encode_date(5, 1, 1), text("0005-01-01"));
    assert_eq!(
        encode(ColumnType::from_tag("DATE"), &RawValue::Date { year: 2020, month: 7, day: 4 }),
        text("2020-07-04")
    );
}

#[test]
fn dates_that_do_not_exist_are_refused() {
    assert_eq!(encode_date(2023, 2, 29), Err(TypeCodecError::OutOfRange));
    assert_eq!(encode_date(2023, 13, 1), Err(TypeCodecError::OutOfRange));
    assert_eq!(encode_date(2023, 0, 1), Err(TypeCodecError::OutOfRange));
    assert_eq!(encode_date(2023, 4, 31), Err(TypeCodecError::OutOfRange));
    assert_eq!(encode_date(2023, 4, 0), Err(TypeCodecError::OutOfRange));
    assert_eq!(encode_date(i32::MAX, 1, 1), Err(TypeCodecError::OutOfRange));
}

#[test]
fn blobs_are_read_as_lossy_utf8() {
    assert_eq!(encode_bytes(&"héllo".as_bytes().to_vec()), "héllo");
    assert_eq!(encode_bytes(&vec![]), "");
    assert_eq!(encode_bytes(&vec![0x66, 0xFF, 0x6F]), "f\u{FFFD}o");
    assert_eq!(
        encode(ColumnType::from_tag("LONGBLOB"), &RawValue::Bytes(vec![0xC3, 0x28])),
        text("\u{FFFD}(")
    );
    assert_eq!(encode(ColumnType::Blob, &RawValue::Bytes(b"abc".to_vec())), text("abc"));
}

#[test]
fn text_and_floats_are_written_verbatim() {
    assert_eq!(encode(ColumnType::Char, &RawValue::Text("A|B".to_string())), text("A|B"));
    assert_eq!(encode(ColumnType::Other, &RawValue::Text("".to_string())), text(""));
    assert_eq!(
        encode(ColumnType::from_tag("ENUM"), &RawValue::Text("päivä".to_string())),
        text("päivä")
    );
    let half = 0.5f64.to_string();
    assert_eq!(encode(ColumnType::Double, &RawValue::Real { text: half }), text("0.5"));
    let tenth = 0.1f32.to_string();
    assert_eq!(encode(ColumnType::Float, &RawValue::Real { text: tenth }), text("0.1"));
}

#[test]
fn a_value_of_the_wrong_kind_is_refused() {
    assert_eq!(
        encode(ColumnType::Decimal, &RawValue::Text("1.5".to_string())),
        Err(TypeCodecError::WrongKind)
    );
    assert_eq!(encode(ColumnType::Int, &RawValue::BigInt(1)), Err(TypeCodecError::WrongKind));
    assert_eq!(encode(ColumnType::Boolean, &RawValue::Int(1)), Err(TypeCodecError::WrongKind));
    assert_eq!(encode(ColumnType::Char, &RawValue::Bytes(vec![65])), Err(TypeCodecError::WrongKind));
    assert_eq!(
        encode(ColumnType::Double, &RawValue::Text("0.5".to_string())),
        Err(TypeCodecError::WrongKind)
    );
    assert_eq!(
        encode(ColumnType::Date, &RawValue::DateTime { seconds: 0, nanos: 0, offset: 0 }),
        Err(TypeCodecError::WrongKind)
    );
}

#[test]
fn encoding_twice_gives_the_same_text() {
    let values = vec![
        (ColumnType::Decimal, RawValue::Decimal { mantissa: -987654321, scale: 4 }),
        (ColumnType::BigInt, RawValue::BigInt(42)),
        (ColumnType::DateTime, RawValue::DateTime { seconds: 86399, nanos: 1, offset: -3600 }),
        (ColumnType::Date, RawValue::Date { year: 2000, month: 2, day: 29 }),
        (ColumnType::Blob, RawValue::Bytes(vec![0xE2, 0x82, 0xAC, 0x80])),
        (ColumnType::Char, RawValue::Text("same".to_string())),
        (ColumnType::Int, RawValue::Text("wrong".to_string())),
    ];
    for (ty, raw) in values.iter() {
        assert_eq!(encode(*ty, raw), encode(*ty, &raw.clone()));
    }
}

#[test]
fn a_missing_rendering_is_out_of_range() {
    assert_eq!(rendered_or_error(Some("x".to_string())), text("x"));
    assert_eq!(rendered_or_error(None), Err(TypeCodecError::OutOfRange));
}

#[test]
fn codec_errors_have_messages() {
    assert_eq!(
        TypeCodecError::WrongKind.message(),
        "a value is not of the kind its column's type decodes to"
    );
    assert_eq!(TypeCodecError::OutOfRange.message(), "a value lies outside what can be written");
    assert_eq!(TypeCodecError::ColumnCount.message(), "a row does not hold one value per column");
}
