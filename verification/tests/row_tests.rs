use query_export::codec::{RawValue, TypeCodecError};
use query_export::column::{find_column, ColumnDescriptor};
use query_export::line::{encode_line, push_text};
use query_export::row::{encode_row, encode_values, header_fields, header_line, row_line};
use query_export::sanitize::{sanitize_row, sanitize_target, strip_delimiter};
use query_export::text::{chars_of, same_text, text_of_prefix, trim_end};

fn column(name: &str, declared_type: &str) -> ColumnDescriptor {
    ColumnDescriptor::new(name.to_string(), declared_type.to_string())
}

fn users() -> Vec<ColumnDescriptor> {
    vec![column("id", "INT"), column("name", "VARCHAR")]
}

fn strings(items: &[&str]) -> Vec<String> {
    items.iter().map(|s| s.to_string()).collect()
}

#[test]
fn a_descriptor_keeps_name_and_type() {
    let c = column("id", "BIGINT");
    assert_eq!(c.name, "id");
    assert_eq!(c.declared_type, "BIGINT");
    assert_eq!(c.column_type(), query_export::codec::ColumnType::BigInt);
}

#[test]
fn the_first_column_of_a_name_is_found() {
    let columns = vec![column("a", "INT"), column("b", "INT"), column("a", "CHAR")];
    assert_eq!(find_column(&columns, "a"), Some(0));
    assert_eq!(find_column(&columns, "b"), Some(1));
    assert_eq!(find_column(&columns, "c"), None);
    assert_eq!(find_column(&columns, "A"), None);
    assert_eq!(find_column(&vec![], "a"), None);
}

#[test]
fn the_delimiter_is_stripped_from_the_target_value() {
    let values = vec![RawValue::Int(7), RawValue::Text("A|B".to_string())];
    let row = encode_row(&users(), &values, "name", b'|');
    assert_eq!(row, Ok(strings(&["7", "AB"])));
}

#[test]
fn stripping_takes_every_occurrence_and_nothing_else() {
    assert_eq!(strip_delimiter("A|B", b'|'), "AB");
    assert_eq!(strip_delimiter("||a||b||", b'|'), "ab");
    assert_eq!(strip_delimiter("|", b'|'), "");
    assert_eq!(strip_delimiter("", b'|'), "");
    assert_eq!(strip_delimiter("no bars", b'|'), "no bars");
    assert_eq!(strip_delimiter("a,b|c", b','), "ab|c");
    assert_eq!(strip_delimiter("é|ü", b'|'), "éü");
}

#[test]
fn a_delimiter_that_is_no_character_strips_nothing() {
    assert_eq!(strip_delimiter("é", 0xC3), "é");
    assert_eq!(strip_delimiter("é", 0xE9), "é");
    assert_eq!(strip_delimiter("\u{80}", 0x80), "\u{80}");
}

#[test]
fn other_columns_keep_their_delimiters() {
    let columns = vec![column("a", "VARCHAR"), column("b", "VARCHAR"), column("c", "VARCHAR")];
    let values = vec![
        RawValue::Text("1|1".to_string()),
        RawValue::Text("2|2".to_string()),
        RawValue::Text("3|3".to_string()),
    ];
    assert_eq!(encode_row(&columns, &values, "b", b'|'), Ok(strings(&["1|1", "22", "3|3"])));
}

#[test]
fn a_target_that_names_no_column_changes_nothing() {
    let values = vec![RawValue::Int(7), RawValue::Text("A|B".to_string())];
    let plain = encode_values(&users(), &values);
    assert_eq!(encode_row(&users(), &values, "nickname", b'|'), plain);
    assert_eq!(encode_row(&users(), &values, "", b'|'), plain);
    assert_eq!(
        row_line(&users(), &values, "nickname", b'|'),
        Ok(b"7|A|B\n".to_vec())
    );
    assert_eq!(row_line(&users(), &values, "", b'|'), Ok(b"7|A|B\n".to_vec()));
}

#[test]
fn an_empty_target_is_no_target_even_for_a_nameless_column() {
    let columns = vec![column("", "VARCHAR")];
    assert_eq!(sanitize_target(&columns, ""), None);
    let values = vec![RawValue::Text("x|y".to_string())];
    assert_eq!(encode_row(&columns, &values, "", b'|'), Ok(strings(&["x|y"])));
}

#[test]
fn only_the_first_column_of_the_name_is_sanitised() {
    let columns = vec![column("n", "VARCHAR"), column("n", "VARCHAR")];
    assert_eq!(sanitize_target(&columns, "n"), Some(0));
    let mut row = strings(&["a|a", "b|b"]);
    sanitize_row(&mut row, &columns, "n", b'|');
    assert_eq!(row, strings(&["aa", "b|b"]));
}

#[test]
fn sanitising_a_short_row_leaves_it_alone() {
    let columns = vec![column("a", "INT"), column("b", "VARCHAR")];
    let mut row = strings(&["x|y"]);
    sanitize_row(&mut row, &columns, "b", b'|');
    assert_eq!(row, strings(&["x|y"]));
}

#[test]
fn a_row_has_one_text_per_column() {
    let values = vec![RawValue::Int(1), RawValue::Text("x".to_string())];
    let row = encode_row(&users(), &values, "", b'|').unwrap();
    assert_eq!(row.len(), users().len());
    assert_eq!(encode_values(&vec![], &vec![]), Ok(vec![]));
}

#[test]
fn a_row_of_the_wrong_width_is_refused() {
    let short = vec![RawValue::Int(1)];
    assert_eq!(encode_values(&users(), &short), Err(TypeCodecError::ColumnCount));
    let long = vec![RawValue::Int(1), RawValue::Text("x".to_string()), RawValue::Int(2)];
    assert_eq!(encode_row(&users(), &long, "name", b'|'), Err(TypeCodecError::ColumnCount));
    assert_eq!(row_line(&users(), &vec![], "", b'|'), Err(TypeCodecError::ColumnCount));
}

#[test]
fn the_first_value_without_text_decides_the_error() {
    let columns = vec![column("d", "DECIMAL"), column("i", "INT")];
    let values = vec![RawValue::Decimal { mantissa: 1, scale: 40 }, RawValue::Text("x".to_string())];
    assert_eq!(encode_values(&columns, &values), Err(TypeCodecError::OutOfRange));
    let values = vec![RawValue::Text("x".to_string()), RawValue::Decimal { mantissa: 1, scale: 40 }];
    assert_eq!(encode_values(&columns, &values), Err(TypeCodecError::WrongKind));
}

#[test]
fn the_header_names_the_columns_in_row_order() {
    assert_eq!(header_fields(&users()), strings(&["id", "name"]));
    assert_eq!(header_line(&users(), b'|'), b"id|name\n".to_vec());
    assert_eq!(header_line(&users(), b'\t'), b"id\tname\n".to_vec());
    let values = vec![RawValue::Int(3), RawValue::Text("Ann".to_string())];
    assert_eq!(row_line(&users(), &values, "name", b'|'), Ok(b"3|Ann\n".to_vec()));
}

#[test]
fn a_line_is_its_fields_joined_and_ended() {
    assert_eq!(encode_line(&strings(&["a", "b", "c"]), b'|'), b"a|b|c\n".to_vec());
    assert_eq!(encode_line(&strings(&["a"]), b'|'), b"a\n".to_vec());
    assert_eq!(encode_line(&strings(&[""]), b'|'), b"\n".to_vec());
    assert_eq!(encode_line(&strings(&["", ""]), b'|'), b"|\n".to_vec());
    assert_eq!(encode_line(&vec![], b'|'), b"\n".to_vec());
    assert_eq!(encode_line(&strings(&["a\"b", "c d"]), b','), b"a\"b,c d\n".to_vec());
    assert_eq!(encode_line(&strings(&["é", "x"]), b';'), "é;x\n".as_bytes().to_vec());
    assert_eq!(encode_line(&strings(&["a", "b"]), 0xFF), vec![b'a', 0xFF, b'b', b'\n']);
}

#[test]
fn text_is_pushed_as_its_utf8_bytes() {
    let mut out = vec![1u8];
    push_text(&mut out, "aé");
    assert_eq!(out, vec![1u8, b'a', 0xC3, 0xA9]);
    push_text(&mut out, "");
    assert_eq!(out.len(), 4);
}

#[test]
fn splitting_a_line_gives_clean_text_columns_back() {
    let columns = vec![column("a", "VARCHAR"), column("b", "TEXT"), column("c", "CHAR")];
    let values = vec![
        RawValue::Text("first".to_string()),
        RawValue::Text("sécond".to_string()),
        RawValue::Text("".to_string()),
    ];
    let line = row_line(&columns, &values, "b", b'|').unwrap();
    assert_eq!(line.last(), Some(&b'\n'));
    let body = &line[..line.len() - 1];
    assert!(!body.contains(&b'\n'));
    let parts: Vec<&[u8]> = body.split(|b| *b == b'|').collect();
    assert_eq!(parts, vec!["first".as_bytes(), "sécond".as_bytes(), "".as_bytes()]);
}

#[test]
fn a_clean_column_survives_a_later_column_with_delimiters() {
    let columns = vec![column("a", "VARCHAR"), column("b", "VARCHAR")];
    let values = vec![RawValue::Text("clean".to_string()), RawValue::Text("x|y".to_string())];
    let line = row_line(&columns, &values, "", b'|').unwrap();
    let body = &line[..line.len() - 1];
    let parts: Vec<&[u8]> = body.split(|b| *b == b'|').collect();
    assert_eq!(parts[0], "clean".as_bytes());
    assert_eq!(parts.len(), 3);
}

#[test]
fn texts_are_compared_and_trimmed_by_character() {
    assert!(same_text("abc", "abc"));
    assert!(!same_text("abc", "abd"));
    assert!(!same_text("abc", "ab"));
    assert_eq!(chars_of("aé"), vec!['a', 'é']);
    assert_eq!(text_of_prefix(&vec!['a', 'é', 'z'], 2), "aé");
    assert_eq!(text_of_prefix(&vec!['a'], 0), "");
    assert_eq!(text_of_prefix(&vec!['a', 'b'], 5), "ab");
    assert_eq!(trim_end("a b \t\r\n"), "a b");
    assert_eq!(trim_end("   "), "");
    assert_eq!(trim_end(""), "");
    assert_eq!(trim_end(" a"), " a");
}
