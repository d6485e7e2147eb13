//! Text primitives shared by the other modules.

use vstd::prelude::*;

verus! {

/// `String::push` of the standard library: the pushed character becomes the
/// last one and every earlier character stays where it was.
pub assume_specification[ String::push ](s: &mut String, c: char)
    ensures
        final(s)@ == old(s)@.push(c),
;

/// `str`'s `PartialEq::eq` of the standard library: two string slices are
/// equal exactly when they hold the same characters in the same order.
pub assume_specification[ <str as PartialEq>::eq ](a: &str, b: &str) -> (r: bool)
    ensures
        r == (a@ == b@),
;

/// Whether two texts hold the same characters.
pub fn same_text(a: &str, b: &str) -> (r: bool)
    ensures
        r == (a@ == b@),
{
    a.eq(b)
}

/// The characters of a text, one by one.
pub fn chars_of(text: &str) -> (chars: Vec<char>)
    ensures
        chars@ == text@,
{
    broadcast use vstd::string::group_string_axioms;

    let mut chars: Vec<char> = Vec::new();
    for c in it: text.chars()
        invariant
            it.seq() == text@,
            chars@ == text@.take(it.index()),
    {
        assert(text@.take(it.index() + 1) == text@.take(it.index()).push(c));
        chars.push(c);
    }
    assert(text@.take(text@.len() as int) == text@);
    chars
}

/// The text made of the first `end` characters of `chars`, of all of them
/// where there are fewer.
pub fn text_of_prefix(chars: &Vec<char>, end: usize) -> (text: String)
    ensures
        text@ == chars@.take(if end <= chars.len() { end as int } else { chars.len() as int }),
{
    let stop = if end <= chars.len() { end } else { chars.len() };
    let mut text = String::new();
    let mut i: usize = 0;
    while i < stop
        invariant
            i <= stop <= chars.len(),
            text@ == chars@.take(i as int),
        decreases stop - i,
    {
        assert(chars@.take(i + 1) == chars@.take(i as int).push(chars@[i as int]));
        text.push(chars[i]);
        i += 1;
    }
    text
}

/// A blank: a space, a tab, a line feed or a carriage return.
pub open spec fn is_blank(c: char) -> bool {
    c == ' ' || c == '\t' || c == '\n' || c == '\r'
}

/// A text without the blanks at its end.
pub open spec fn trimmed_end(text: Seq<char>) -> Seq<char>
    decreases text.len(),
{
    if text.len() > 0 && is_blank(text.last()) {
        trimmed_end(text.drop_last())
    } else {
        text
    }
}

fn blank(c: char) -> (r: bool)
    ensures
        r == is_blank(c),
{
    c == ' ' || c == '\t' || c == '\n' || c == '\r'
}

/// The text without the blanks at its end.
pub fn trim_end(text: &str) -> (r: String)
    ensures
        r@ == trimmed_end(text@),
{
    let chars = chars_of(text);
    let mut end: usize = chars.len();
    assert(chars@.take(chars.len() as int) == chars@);
    while end > 0 && blank(chars[end - 1])
        invariant
            end <= chars.len(),
            chars@ == text@,
            trimmed_end(text@) == trimmed_end(chars@.take(end as int)),
        decreases end,
    {
        assert(chars@.take(end as int).drop_last() == chars@.take(end - 1));
        end -= 1;
    }
    text_of_prefix(&chars, end)
}

} // verus!
