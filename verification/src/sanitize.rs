//! The column sanitizer: one column, chosen by name, loses every occurrence
//! of the output delimiter, so that free text cannot shift the columns of a
//! line.

use vstd::prelude::*;
use vstd::utf8::{
    encode_scalar, encode_utf8, has_width_1_encoding, has_width_2_encoding, has_width_3_encoding,
    is_scalar,
};
use crate::column::{first_named, lemma_first_named, find_column, ColumnDescriptor};

verus! {

/// Whether `c` is the delimiter character. A delimiter byte above 127 is
/// no character by itself, so no character is that delimiter.
pub open spec fn is_delimiter(c: char, delimiter: u8) -> bool {
    delimiter < 128 && c as u32 == delimiter as u32
}

/// A text without its delimiter characters; every other character stays,
/// in its order.
pub open spec fn stripped(text: Seq<char>, delimiter: u8) -> Seq<char>
    decreases text.len(),
{
    if text.len() == 0 {
        text
    } else if is_delimiter(text.last(), delimiter) {
        stripped(text.drop_last(), delimiter)
    } else {
        stripped(text.drop_last(), delimiter).push(text.last())
    }
}

/// Whether a text holds the delimiter character.
pub open spec fn has_delimiter(text: Seq<char>, delimiter: u8) -> bool {
    exists|i: int| 0 <= i < text.len() && is_delimiter(#[trigger] text[i], delimiter)
}

/// A stripped text holds no delimiter character.
pub proof fn lemma_stripped_is_clean(text: Seq<char>, delimiter: u8)
    ensures
        !has_delimiter(stripped(text, delimiter), delimiter),
        stripped(text, delimiter).len() <= text.len(),
    decreases text.len(),
{
    if text.len() > 0 {
        lemma_stripped_is_clean(text.drop_last(), delimiter);
        let shorter = stripped(text.drop_last(), delimiter);
        if !is_delimiter(text.last(), delimiter) {
            let longer = shorter.push(text.last());
            assert forall|i: int| 0 <= i < longer.len() implies !is_delimiter(
                #[trigger] longer[i],
                delimiter,
            ) by {
                if i < shorter.len() {
                    assert(longer[i] == shorter[i]);
                }
            }
        }
    }
}

/// A text without delimiter characters is left as it is.
pub proof fn lemma_stripped_keeps_clean_text(text: Seq<char>, delimiter: u8)
    requires
        !has_delimiter(text, delimiter),
    ensures
        stripped(text, delimiter) == text,
    decreases text.len(),
{
    if text.len() > 0 {
        let shorter = text.drop_last();
        assert(!is_delimiter(text[text.len() - 1], delimiter));
        assert forall|i: int| 0 <= i < shorter.len() implies !is_delimiter(
            #[trigger] shorter[i],
            delimiter,
        ) by {
            assert(shorter[i] == text[i]);
        }
        lemma_stripped_keeps_clean_text(shorter, delimiter);
        assert(shorter.push(text.last()) == text);
    }
}

proof fn lemma_marked_byte_is_high(x: u8)
    by (bit_vector)
    ensures
        0x80u8 | x >= 0x80u8,
        0xC0u8 | x >= 0x80u8,
        0xE0u8 | x >= 0x80u8,
        0xF0u8 | x >= 0x80u8,
{
}

proof fn lemma_single_byte_is_scalar(s: u32)
    by (bit_vector)
    requires
        s <= 0x7Fu32,
    ensures
        ((s & 0x7Fu32) as u8) as u32 == s,
{
}

/// A byte below 128 occurs in the UTF-8 encoding of a scalar value exactly
/// when it is that value: longer encodings are made of bytes from 128 up.
proof fn lemma_ascii_byte_of_scalar(scalar: u32, byte: u8)
    requires
        is_scalar(scalar),
        byte < 128,
    ensures
        encode_scalar(scalar).contains(byte) <==> scalar == byte as u32,
{
    let bytes = encode_scalar(scalar);
    if has_width_1_encoding(scalar) {
        lemma_single_byte_is_scalar(scalar);
        assert(bytes[0] as u32 == scalar);
        if scalar == byte as u32 {
            assert(bytes[0] == byte);
        }
    } else if has_width_2_encoding(scalar) {
        lemma_marked_byte_is_high(((scalar >> 6) & 0x1F) as u8);
        lemma_marked_byte_is_high((scalar & 0x3F) as u8);
        assert(forall|i: int| 0 <= i < bytes.len() ==> bytes[i] >= 0x80);
    } else if has_width_3_encoding(scalar) {
        lemma_marked_byte_is_high(((scalar >> 12) & 0x0F) as u8);
        lemma_marked_byte_is_high(((scalar >> 6) & 0x3F) as u8);
        lemma_marked_byte_is_high((scalar & 0x3F) as u8);
        assert(forall|i: int| 0 <= i < bytes.len() ==> bytes[i] >= 0x80);
    } else {
        lemma_marked_byte_is_high(((scalar >> 18) & 0x7) as u8);
        lemma_marked_byte_is_high(((scalar >> 12) & 0x3F) as u8);
        lemma_marked_byte_is_high(((scalar >> 6) & 0x3F) as u8);
        lemma_marked_byte_is_high((scalar & 0x3F) as u8);
        assert(forall|i: int| 0 <= i < bytes.len() ==> bytes[i] >= 0x80);
    }
}

/// For a delimiter below 128, a text holds the delimiter character exactly
/// when its UTF-8 bytes hold the delimiter byte.
pub proof fn lemma_delimiter_in_bytes(text: Seq<char>, delimiter: u8)
    requires
        delimiter < 128,
    ensures
        encode_utf8(text).contains(delimiter) <==> has_delimiter(text, delimiter),
    decreases text.len(),
{
    if text.len() > 0 {
        let rest = text.drop_first();
        let first = encode_scalar(text[0] as u32);
        let later = encode_utf8(rest);
        vstd::utf8::char_is_scalar(text[0]);
        lemma_ascii_byte_of_scalar(text[0] as u32, delimiter);
        lemma_delimiter_in_bytes(rest, delimiter);
        assert(encode_utf8(text) == first + later);
        if encode_utf8(text).contains(delimiter) {
            let j = choose|j: int| 0 <= j < (first + later).len() && (first + later)[j] == delimiter;
            if j < first.len() {
                assert(first.contains(first[j]));
                assert(is_delimiter(text[0], delimiter));
            } else {
                assert(later.contains(later[j - first.len()]));
                let i = choose|i: int| 0 <= i < rest.len() && is_delimiter(#[trigger] rest[i], delimiter);
                assert(is_delimiter(text[i + 1], delimiter));
            }
        }
        if has_delimiter(text, delimiter) {
            let i = choose|i: int| 0 <= i < text.len() && is_delimiter(#[trigger] text[i], delimiter);
            if i == 0 {
                let j = choose|j: int| 0 <= j < first.len() && first[j] == delimiter;
                assert((first + later)[j] == delimiter);
            } else {
                assert(is_delimiter(rest[i - 1], delimiter));
                let j = choose|j: int| 0 <= j < later.len() && later[j] == delimiter;
                assert((first + later)[first.len() + j] == delimiter);
            }
        }
    }
}

/// The position of the column that is sanitised: the first column whose
/// name is the target. An empty target switches the rule off.
pub open spec fn sanitize_position(columns: Seq<ColumnDescriptor>, target: Seq<char>) -> Option<
    int,
> {
    if target.len() == 0 {
        None
    } else {
        first_named(columns, target, 0)
    }
}

/// A row after the sanitizer: the text at the sanitised position is
/// stripped, every other text is what it was.
pub open spec fn sanitized_row(
    row: Seq<Seq<char>>,
    columns: Seq<ColumnDescriptor>,
    target: Seq<char>,
    delimiter: u8,
) -> Seq<Seq<char>> {
    match sanitize_position(columns, target) {
        Some(p) => if p < row.len() {
            row.update(p, stripped(row[p], delimiter))
        } else {
            row
        },
        None => row,
    }
}

/// What the sanitizer does to a row: the row keeps its length, the text at
/// the sanitised position is stripped, and every other text is untouched.
pub proof fn lemma_sanitized_row(
    row: Seq<Seq<char>>,
    columns: Seq<ColumnDescriptor>,
    target: Seq<char>,
    delimiter: u8,
)
    ensures
        sanitized_row(row, columns, target, delimiter).len() == row.len(),
        forall|i: int|
            0 <= i < row.len() ==> #[trigger] sanitized_row(row, columns, target, delimiter)[i] == (
            if sanitize_position(columns, target) == Some(i) {
                stripped(row[i], delimiter)
            } else {
                row[i]
            }),
        sanitize_position(columns, target) is None ==> sanitized_row(
            row,
            columns,
            target,
            delimiter,
        ) == row,
{
    lemma_first_named(columns, target, 0);
}

/// The text without its delimiter characters.
pub fn strip_delimiter(text: &str, delimiter: u8) -> (r: String)
    ensures
        r@ == stripped(text@, delimiter),
        !has_delimiter(r@, delimiter),
{
    broadcast use vstd::string::group_string_axioms;

    let mut out = String::new();
    for c in it: text.chars()
        invariant
            it.seq() == text@,
            out@ == stripped(text@.take(it.index()), delimiter),
    {
        assert(text@.take(it.index() + 1).drop_last() == text@.take(it.index()));
        if !(delimiter < 128 && c as u32 == delimiter as u32) {
            out.push(c);
        }
    }
    assert(text@.take(text@.len() as int) == text@);
    proof {
        lemma_stripped_is_clean(text@, delimiter);
    }
    out
}

/// The position of the column that the rule applies to, if any.
pub fn sanitize_target(columns: &Vec<ColumnDescriptor>, target: &str) -> (position: Option<usize>)
    ensures
        match position {
            Some(p) => sanitize_position(columns@, target@) == Some(p as int) && p < columns.len(),
            None => sanitize_position(columns@, target@) is None,
        },
{
    if target.is_empty() {
        None
    } else {
        proof {
            lemma_first_named(columns@, target@, 0);
        }
        find_column(columns, target)
    }
}

/// Applies the sanitize rule to a row of texts.
///
/// Where a column is called `target`, the text at the first such column
/// loses its delimiter characters. No other text changes, and where no
/// column carries the name, or the target is empty, the row is unchanged.
pub fn sanitize_row(
    row: &mut Vec<String>,
    columns: &Vec<ColumnDescriptor>,
    target: &str,
    delimiter: u8,
)
    ensures
        final(row).len() == old(row).len(),
        final(row).deep_view() == sanitized_row(
            old(row).deep_view(),
            columns@,
            target@,
            delimiter,
        ),
        forall|i: int|
            0 <= i < old(row).len() && sanitize_position(columns@, target@) != Some(i) ==> (
            #[trigger] final(row)@[i]) == old(row)@[i],
{
    match sanitize_target(columns, target) {
        Some(p) => {
            if p < row.len() {
                let clean = strip_delimiter(row[p].as_str(), delimiter);
                row.set(p, clean);
                assert(row.deep_view() =~= old(row).deep_view().update(
                    p as int,
                    stripped(old(row).deep_view()[p as int], delimiter),
                ));
            }
        },
        None => {},
    }
}

} // verus!
