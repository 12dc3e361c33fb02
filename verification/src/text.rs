//! Plain-text helpers: blank detection and line-terminator stripping.

use vstd::prelude::*;

verus! {

/// Whether `c` is white space: one of the code points that carry the Unicode
/// `White_Space` property.
pub open spec fn is_whitespace(c: char) -> bool {
    let u = c as u32;
    ||| 0x09 <= u <= 0x0d
    ||| u == 0x20
    ||| u == 0x85
    ||| u == 0xa0
    ||| u == 0x1680
    ||| 0x2000 <= u <= 0x200a
    ||| u == 0x2028
    ||| u == 0x2029
    ||| u == 0x202f
    ||| u == 0x205f
    ||| u == 0x3000
}

/// Whether a text holds nothing but white space. The empty text is blank.
pub open spec fn is_blank(text: Seq<char>) -> bool {
    forall|i: int| 0 <= i < text.len() ==> is_whitespace(#[trigger] text[i])
}

/// Decides whether `c` is white space.
pub fn whitespace(c: char) -> (b: bool)
    ensures
        b == is_whitespace(c),
{
    let u: u32 = c as u32;
    (0x09 <= u && u <= 0x0d) || u == 0x20 || u == 0x85 || u == 0xa0 || u == 0x1680 || (0x2000 <= u
        && u <= 0x200a) || u == 0x2028 || u == 0x2029 || u == 0x202f || u == 0x205f || u == 0x3000
}

/// Decides whether `text` holds nothing but white space.
pub fn blank(text: &str) -> (b: bool)
    ensures
        b == is_blank(text@),
{
    for c in it: text.chars()
        invariant
            it.seq() == text@,
            forall|i: int| 0 <= i < it.index() ==> is_whitespace(#[trigger] text@[i]),
    {
        if !whitespace(c) {
            return false;
        }
    }
    true
}

/// A text without its final line terminator: a trailing carriage return and
/// line feed are removed together, else a trailing line feed alone; any other
/// text is left as it is. At most one terminator is removed.
pub open spec fn without_newline(text: Seq<char>) -> Seq<char> {
    let n = text.len() as int;
    if n >= 2 && text[n - 2] == '\r' && text[n - 1] == '\n' {
        text.subrange(0, n - 2)
    } else if n >= 1 && text[n - 1] == '\n' {
        text.subrange(0, n - 1)
    } else {
        text
    }
}

/// Removes one trailing line terminator from `input`, if there is one.
pub fn strip_trailing_newline(input: &str) -> (stripped: &str)
    ensures
        stripped@ == without_newline(input@),
{
    let n: usize = input.unicode_len();
    if n >= 1 && input.get_char(n - 1) == '\n' {
        if n >= 2 && input.get_char(n - 2) == '\r' {
            input.substring_char(0, n - 2)
        } else {
            input.substring_char(0, n - 1)
        }
    } else {
        input
    }
}

} // verus!
