//! Delimited lines: the fields of a row joined by one delimiter byte and
//! closed by a line feed. Nothing is quoted or escaped.

use vstd::prelude::*;
use vstd::utf8::encode_utf8;
use vstd::string::StringSliceAdditionalSpecFns;

verus! {

/// The byte that ends a line.
pub open spec fn line_end() -> u8 {
    10
}

/// The fields with one delimiter between each two neighbours.
pub open spec fn joined(fields: Seq<Seq<u8>>, delimiter: u8) -> Seq<u8>
    decreases fields.len(),
{
    if fields.len() == 0 {
        Seq::<u8>::empty()
    } else if fields.len() == 1 {
        fields[0]
    } else {
        joined(fields.drop_last(), delimiter).push(delimiter) + fields.last()
    }
}

/// The line of a row: its fields joined, then the line end.
pub open spec fn line_of(fields: Seq<Seq<u8>>, delimiter: u8) -> Seq<u8> {
    joined(fields, delimiter).push(line_end())
}

/// The pieces between the delimiters of `bytes`. There is always at least
/// one piece; a delimiter ends one piece and starts the next.
pub open spec fn split(bytes: Seq<u8>, delimiter: u8) -> Seq<Seq<u8>>
    decreases bytes.len(),
{
    if bytes.len() == 0 {
        seq![Seq::<u8>::empty()]
    } else {
        let before = split(bytes.drop_last(), delimiter);
        if bytes.last() == delimiter {
            before.push(Seq::<u8>::empty())
        } else {
            before.drop_last().push(before.last().push(bytes.last()))
        }
    }
}

/// The UTF-8 bytes of each text.
pub open spec fn utf8_fields(texts: Seq<Seq<char>>) -> Seq<Seq<u8>> {
    Seq::new(texts.len(), |i: int| encode_utf8(texts[i]))
}

/// Whether no field up to and including position `last` holds `byte`.
pub open spec fn fields_free_of(fields: Seq<Seq<u8>>, byte: u8, last: int) -> bool {
    forall|i: int| 0 <= i <= last && i < fields.len() ==> !(#[trigger] fields[i]).contains(byte)
}

/// Splitting never yields an empty sequence of pieces.
pub proof fn lemma_split_nonempty(bytes: Seq<u8>, delimiter: u8)
    ensures
        split(bytes, delimiter).len() >= 1,
    decreases bytes.len(),
{
    if bytes.len() > 0 {
        lemma_split_nonempty(bytes.drop_last(), delimiter);
    }
}

/// Bytes without a delimiter, put after `head`, lengthen the last piece of
/// `head` and leave every earlier piece alone.
pub proof fn lemma_split_append_field(head: Seq<u8>, field: Seq<u8>, delimiter: u8)
    requires
        !field.contains(delimiter),
    ensures
        split(head + field, delimiter) == split(head, delimiter).drop_last().push(
            split(head, delimiter).last() + field,
        ),
    decreases field.len(),
{
    lemma_split_nonempty(head, delimiter);
    let pieces = split(head, delimiter);
    if field.len() == 0 {
        assert(head + field == head);
        assert(pieces.last() + field == pieces.last());
        assert(pieces.drop_last().push(pieces.last()) == pieces);
    } else {
        let shorter = field.drop_last();
        assert forall|i: int| 0 <= i < shorter.len() implies shorter[i] != delimiter by {
            assert(shorter[i] == field[i]);
            assert(field.contains(field[i]));
        }
        assert(!shorter.contains(delimiter));
        assert(field.contains(field.last()));
        lemma_split_append_field(head, shorter, delimiter);
        assert((head + field).drop_last() == head + shorter);
        assert((head + field).last() == field.last());
        let before = split(head + shorter, delimiter);
        assert(before.drop_last() == pieces.drop_last());
        assert(before.last() == pieces.last() + shorter);
        assert((pieces.last() + shorter).push(field.last()) == pieces.last() + field);
    }
}

/// Any bytes put after `head` leave alone every piece of `head` but its
/// last.
pub proof fn lemma_split_append_keeps_sealed(head: Seq<u8>, tail: Seq<u8>, delimiter: u8)
    ensures
        split(head + tail, delimiter).len() >= split(head, delimiter).len(),
        forall|i: int|
            0 <= i < split(head, delimiter).len() - 1 ==> #[trigger] split(head + tail, delimiter)[i]
                == split(head, delimiter)[i],
    decreases tail.len(),
{
    lemma_split_nonempty(head, delimiter);
    if tail.len() == 0 {
        assert(head + tail == head);
    } else {
        lemma_split_append_keeps_sealed(head, tail.drop_last(), delimiter);
        assert((head + tail).drop_last() == head + tail.drop_last());
        lemma_split_nonempty(head + tail.drop_last(), delimiter);
    }
}

/// Joining fields that hold no delimiter and splitting again gives the
/// fields back.
pub proof fn lemma_split_of_joined(fields: Seq<Seq<u8>>, delimiter: u8)
    requires
        fields.len() >= 1,
        fields_free_of(fields, delimiter, fields.len() - 1),
    ensures
        split(joined(fields, delimiter), delimiter) == fields,
    decreases fields.len(),
{
    let empty = Seq::<u8>::empty();
    if fields.len() == 1 {
        assert(!fields[0].contains(delimiter));
        lemma_split_append_field(empty, fields[0], delimiter);
        assert(empty + fields[0] == fields[0]);
        assert(split(empty, delimiter) == seq![empty]);
        assert(seq![empty].drop_last().push(empty + fields[0]) == fields);
    } else {
        let init = fields.drop_last();
        assert forall|i: int| 0 <= i <= init.len() - 1 && i < init.len() implies !(
        #[trigger] init[i]).contains(delimiter) by {
            assert(init[i] == fields[i]);
        }
        lemma_split_of_joined(init, delimiter);
        let head = joined(init, delimiter).push(delimiter);
        assert(head.drop_last() == joined(init, delimiter));
        assert(split(head, delimiter) == init.push(empty));
        assert(!fields[fields.len() - 1].contains(delimiter));
        lemma_split_append_field(head, fields.last(), delimiter);
        assert(init.push(empty).drop_last() == init);
        assert(empty + fields.last() == fields.last());
        assert(init.push(fields.last()) == fields);
    }
}

/// The first `n` fields joined are the start of all the fields joined.
pub proof fn lemma_joined_prefix(fields: Seq<Seq<u8>>, delimiter: u8, n: int)
    requires
        1 <= n <= fields.len(),
    ensures
        exists|tail: Seq<u8>|
            joined(fields, delimiter) == #[trigger] (joined(fields.take(n), delimiter) + tail) && (n
                < fields.len() ==> tail.len() > 0 && tail[0] == delimiter),
    decreases fields.len() - n,
{
    let empty = Seq::<u8>::empty();
    if n == fields.len() {
        assert(fields.take(n) == fields);
        assert(joined(fields, delimiter) == joined(fields.take(n), delimiter) + empty);
    } else {
        lemma_joined_prefix(fields, delimiter, n + 1);
        let longer = fields.take(n + 1);
        let rest = choose|tail: Seq<u8>|
            joined(fields, delimiter) == #[trigger] (joined(longer, delimiter) + tail) && (n + 1
                < fields.len() ==> tail.len() > 0 && tail[0] == delimiter);
        assert(longer.drop_last() == fields.take(n));
        let start = joined(fields.take(n), delimiter);
        let tail = seq![delimiter] + longer.last() + rest;
        assert(joined(longer, delimiter) == start.push(delimiter) + longer.last());
        assert(joined(fields, delimiter) == start + tail);
    }
}

/// The round trip of one field: where the fields up to and including
/// position `k` hold no delimiter, the piece at `k` of the split line body
/// is field `k`, whatever the later fields hold.
pub proof fn lemma_field_survives(fields: Seq<Seq<u8>>, delimiter: u8, k: int)
    requires
        0 <= k < fields.len(),
        fields_free_of(fields, delimiter, k),
    ensures
        k < split(joined(fields, delimiter), delimiter).len(),
        split(joined(fields, delimiter), delimiter)[k] == fields[k],
{
    let prefix = fields.take(k + 1);
    assert forall|i: int| 0 <= i <= prefix.len() - 1 && i < prefix.len() implies !(
    #[trigger] prefix[i]).contains(delimiter) by {
        assert(prefix[i] == fields[i]);
    }
    lemma_split_of_joined(prefix, delimiter);
    lemma_joined_prefix(fields, delimiter, k + 1);
    let start = joined(prefix, delimiter);
    let tail = choose|tail: Seq<u8>|
        joined(fields, delimiter) == #[trigger] (start + tail) && (k + 1 < fields.len()
            ==> tail.len() > 0 && tail[0] == delimiter);
    if k + 1 == fields.len() {
        assert(prefix == fields);
    } else {
        let sealed = start.push(delimiter);
        assert(sealed.drop_last() == start);
        assert(split(sealed, delimiter) == prefix.push(Seq::<u8>::empty()));
        let after = tail.drop_first();
        assert(start + tail == sealed + after);
        lemma_split_append_keeps_sealed(sealed, after, delimiter);
        assert(split(sealed, delimiter)[k] == prefix[k]);
    }
}

/// A line body whose fields hold no line end holds none itself, unless
/// the delimiter is one: the line end that closes the line is its only one.
pub proof fn lemma_joined_free_of_line_end(fields: Seq<Seq<u8>>, delimiter: u8)
    requires
        delimiter != line_end(),
        fields_free_of(fields, line_end(), fields.len() - 1),
    ensures
        !joined(fields, delimiter).contains(line_end()),
    decreases fields.len(),
{
    if fields.len() == 0 {
    } else if fields.len() == 1 {
        assert(!fields[0].contains(line_end()));
    } else {
        let init = fields.drop_last();
        assert forall|i: int| 0 <= i <= init.len() - 1 && i < init.len() implies !(
        #[trigger] init[i]).contains(line_end()) by {
            assert(init[i] == fields[i]);
        }
        lemma_joined_free_of_line_end(init, delimiter);
        assert(!fields[fields.len() - 1].contains(line_end()));
        let body = joined(fields, delimiter);
        let start = joined(init, delimiter);
        assert forall|i: int| 0 <= i < body.len() implies body[i] != line_end() by {
            if i < start.len() {
                assert(start.contains(start[i]));
            } else if i > start.len() {
                assert(fields.last().contains(fields.last()[i - start.len() - 1]));
            }
        }
    }
}

/// Appends the UTF-8 bytes of `text` to `out`.
pub fn push_text(out: &mut Vec<u8>, text: &str)
    ensures
        final(out)@ == old(out)@ + encode_utf8(text@),
{
    let bytes = text.as_bytes();
    let mut i: usize = 0;
    while i < bytes.len()
        invariant
            i <= bytes.len(),
            bytes@ == encode_utf8(text@),
            out@ == old(out)@ + bytes@.take(i as int),
        decreases bytes.len() - i,
    {
        assert(bytes@.take(i + 1) == bytes@.take(i as int).push(bytes@[i as int]));
        out.push(bytes[i]);
        i += 1;
    }
    assert(bytes@.take(bytes.len() as int) == bytes@);
}

/// The line of a row of texts: their UTF-8 bytes with `delimiter` between
/// neighbours, closed by a line feed.
pub fn encode_line(fields: &Vec<String>, delimiter: u8) -> (line: Vec<u8>)
    ensures
        line@ == line_of(utf8_fields(fields.deep_view()), delimiter),
{
    let ghost all = utf8_fields(fields.deep_view());
    let mut line: Vec<u8> = Vec::new();
    let mut i: usize = 0;
    while i < fields.len()
        invariant
            i <= fields.len(),
            all == utf8_fields(fields.deep_view()),
            line@ == joined(all.take(i as int), delimiter),
        decreases fields.len() - i,
    {
        if i > 0 {
            line.push(delimiter);
        }
        push_text(&mut line, fields[i].as_str());
        proof {
            let now = all.take(i + 1);
            assert(now.drop_last() == all.take(i as int));
            assert(now.last() == encode_utf8(fields@[i as int]@));
            if i == 0 {
                assert(Seq::<u8>::empty() + now.last() == now.last());
            }
        }
        i += 1;
    }
    assert(all.take(fields.len() as int) == all);
    line.push(10u8);
    line
}

} // verus!
