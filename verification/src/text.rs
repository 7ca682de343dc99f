//! Text as the normalizer needs it: header names in lower case, and header
//! values as text where their bytes are text.

use vstd::prelude::*;

verus! {

/// A letter `'A'..='Z'` as its lower-case letter; every other character
/// as it is.
pub open spec fn lower_char(c: char) -> char {
    if 'A' <= c && c <= 'Z' {
        ((c as u8 + 32) as u8) as char
    } else {
        c
    }
}

/// `text` with each of its characters in ASCII lower case.
pub open spec fn lower_text(text: Seq<char>) -> Seq<char> {
    text.map_values(|c: char| lower_char(c))
}

/// Whether a byte of a header value is text: a visible ASCII character,
/// a space or a tab.
pub open spec fn is_text_byte(b: u8) -> bool {
    (32 <= b && b < 127) || b == 9
}

/// Whether all of a header value's bytes are text.
pub open spec fn is_text(raw: Seq<u8>) -> bool {
    forall|i: int| 0 <= i < raw.len() ==> is_text_byte(#[trigger] raw[i])
}

/// A header value as text: its bytes read as ASCII characters where all of
/// them are text, and the empty string where one is not.
pub open spec fn header_text(raw: Seq<u8>) -> Seq<char> {
    if is_text(raw) {
        raw.map_values(|b: u8| b as char)
    } else {
        Seq::empty()
    }
}

/// std's `String::push`: the string afterwards is the string before with `c`
/// appended.
#[verifier::external_body]
fn push_char(text: &mut String, c: char)
    ensures
        final(text)@ == old(text)@.push(c),
{
    text.push(c)
}

/// std's `==` on `str`: whether the two hold the same characters.
#[verifier::external_body]
pub(crate) fn same_text(left: &str, right: &str) -> (same: bool)
    ensures
        same == (left@ == right@),
{
    left == right
}

/// A letter `'A'..='Z'` as its lower-case letter; every other character
/// as it is.
pub fn to_lower_char(c: char) -> (lower: char)
    ensures
        lower == lower_char(c),
{
    if 'A' <= c && c <= 'Z' {
        let code: u8 = c as u8;
        (code + 32) as char
    } else {
        c
    }
}

/// `text` with each of its characters in ASCII lower case.
pub fn to_lower_text(text: &str) -> (lower: String)
    ensures
        lower@ == lower_text(text@),
{
    let mut lower = String::new();
    for c in it: text.chars()
        invariant
            it.seq() == text@,
            lower@ == lower_text(text@.take(it.index())),
    {
        push_char(&mut lower, to_lower_char(c));
        assert(lower@ =~= lower_text(text@.take(it.index() + 1)));
    }
    assert(text@.take(text@.len() as int) =~= text@);
    lower
}

/// Whether all of a header value's bytes are text.
pub fn all_text(raw: &Vec<u8>) -> (text: bool)
    ensures
        text == is_text(raw@),
{
    let mut i: usize = 0;
    while i < raw.len()
        invariant
            i <= raw.len(),
            is_text(raw@.take(i as int)),
        decreases raw.len() - i,
    {
        let b = raw[i];
        if !((32 <= b && b < 127) || b == 9) {
            return false;
        }
        i += 1;
    }
    assert(raw@.take(i as int) =~= raw@);
    true
}

/// A header value as text: its bytes read as ASCII characters where all of
/// them are text, and the empty string where one is not.
pub fn to_header_text(raw: &Vec<u8>) -> (text: String)
    ensures
        text@ == header_text(raw@),
{
    let mut text = String::new();
    if !all_text(raw) {
        return text;
    }
    let mut i: usize = 0;
    while i < raw.len()
        invariant
            i <= raw.len(),
            text@ == raw@.take(i as int).map_values(|b: u8| b as char),
        decreases raw.len() - i,
    {
        push_char(&mut text, raw[i] as char);
        i += 1;
        assert(text@ =~= raw@.take(i as int).map_values(|b: u8| b as char));
    }
    assert(raw@.take(i as int) =~= raw@);
    text
}

} // verus!
