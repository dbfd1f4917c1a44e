//! ASCII character classes and comparisons of text without regard to case.

use vstd::prelude::*;

verus! {

/// U+FFFD REPLACEMENT CHARACTER, which stands in for what cannot be shown.
pub const REPLACEMENT: char = '\u{FFFD}';

/// Tab, line feed, form feed or space.
pub open spec fn space(c: char) -> bool {
    c == '\t' || c == '\n' || c == '\u{C}' || c == ' '
}

/// An ASCII letter from `A` to `Z`.
pub open spec fn upper(c: char) -> bool {
    'A' <= c && c <= 'Z'
}

/// An ASCII letter from `a` to `z`.
pub open spec fn lower(c: char) -> bool {
    'a' <= c && c <= 'z'
}

/// An ASCII letter.
pub open spec fn alphabetic(c: char) -> bool {
    upper(c) || lower(c)
}

/// A decimal digit.
pub open spec fn digit(c: char) -> bool {
    '0' <= c && c <= '9'
}

/// An ASCII letter or a decimal digit.
pub open spec fn alphanumeric(c: char) -> bool {
    alphabetic(c) || digit(c)
}

/// A hexadecimal digit.
pub open spec fn hexdigit(c: char) -> bool {
    digit(c) || ('a' <= c && c <= 'f') || ('A' <= c && c <= 'F')
}

/// The number that a hexadecimal digit stands for.
pub open spec fn hex_value(c: char) -> int {
    if digit(c) {
        c as u32 - '0' as u32
    } else if lower(c) {
        c as u32 - 'a' as u32 + 10
    } else {
        c as u32 - 'A' as u32 + 10
    }
}

/// `c`, with an ASCII letter in lower case.
pub open spec fn lowercase(c: char) -> char {
    if upper(c) {
        ((c as u32 + 32) as u8) as char
    } else {
        c
    }
}

/// `s`, with each ASCII letter in lower case.
pub open spec fn lowercase_all(s: Seq<char>) -> Seq<char> {
    Seq::new(s.len(), |i: int| lowercase(s[i]))
}

/// `c`, with NUL replaced by U+FFFD.
pub open spec fn visible(c: char) -> char {
    if c == '\0' {
        REPLACEMENT
    } else {
        c
    }
}

/// Whether `c` is a tab, a line feed, a form feed or a space.
pub(crate) fn is_space(c: char) -> (r: bool)
    ensures
        r == space(c),
{
    c == '\t' || c == '\n' || c == '\u{C}' || c == ' '
}

/// Whether `c` is an ASCII letter in upper case.
pub(crate) fn is_upper(c: char) -> (r: bool)
    ensures
        r == upper(c),
{
    'A' <= c && c <= 'Z'
}

/// Whether `c` is an ASCII letter in lower case.
pub(crate) fn is_lower(c: char) -> (r: bool)
    ensures
        r == lower(c),
{
    'a' <= c && c <= 'z'
}

/// Whether `c` is an ASCII letter.
pub(crate) fn is_alphabetic(c: char) -> (r: bool)
    ensures
        r == alphabetic(c),
{
    is_upper(c) || is_lower(c)
}

/// Whether `c` is a decimal digit.
pub(crate) fn is_digit(c: char) -> (r: bool)
    ensures
        r == digit(c),
{
    '0' <= c && c <= '9'
}

/// Whether `c` is an ASCII letter or a decimal digit.
pub(crate) fn is_alphanumeric(c: char) -> (r: bool)
    ensures
        r == alphanumeric(c),
{
    is_alphabetic(c) || is_digit(c)
}

/// Whether `c` is a hexadecimal digit.
pub(crate) fn is_hexdigit(c: char) -> (r: bool)
    ensures
        r == hexdigit(c),
{
    is_digit(c) || ('a' <= c && c <= 'f') || ('A' <= c && c <= 'F')
}

/// The value of a hexadecimal digit.
pub(crate) fn hex_digit_value(c: char) -> (r: u32)
    requires
        hexdigit(c),
    ensures
        r == hex_value(c),
        r < 16,
        digit(c) ==> r < 10,
{
    if is_digit(c) {
        c as u32 - '0' as u32
    } else if is_lower(c) {
        c as u32 - 'a' as u32 + 10
    } else {
        c as u32 - 'A' as u32 + 10
    }
}

/// `c` in lower case, where it is an ASCII letter.
pub(crate) fn to_lowercase(c: char) -> (r: char)
    ensures
        r == lowercase(c),
{
    if is_upper(c) {
        (c as u8 + 32) as char
    } else {
        c
    }
}

/// `c`, with NUL replaced by U+FFFD.
pub(crate) fn to_visible(c: char) -> (r: char)
    ensures
        r == visible(c),
{
    if c == '\0' {
        REPLACEMENT
    } else {
        c
    }
}

/// Whether `chars` spells `text`.
pub(crate) fn same_text(chars: &[char], text: &str) -> (r: bool)
    ensures
        r == (chars@ == text@),
{
    let mut i: usize = 0;
    for c in it: text.chars()
        invariant
            it.seq() == text@,
            i == it.index(),
            i <= chars@.len(),
            forall|j: int| 0 <= j < i ==> chars@[j] == text@[j],
    {
        if i >= chars.len() || chars[i] != c {
            assert(chars@ != text@);
            return false;
        }
        i = i + 1;
    }
    assert(i == chars@.len() ==> chars@ =~= text@);
    i == chars.len()
}

/// Whether `chars` spells `text` up to the case of ASCII letters.
pub(crate) fn same_text_ignoring_case(chars: &[char], text: &str) -> (r: bool)
    ensures
        r == (lowercase_all(chars@) == lowercase_all(text@)),
{
    let mut i: usize = 0;
    for c in it: text.chars()
        invariant
            it.seq() == text@,
            i == it.index(),
            i <= chars@.len(),
            forall|j: int| 0 <= j < i ==> lowercase(chars@[j]) == lowercase(text@[j]),
    {
        if i >= chars.len() || to_lowercase(chars[i]) != to_lowercase(c) {
            assert(lowercase_all(chars@) != lowercase_all(text@)) by {
                if i >= chars@.len() {
                    assert(lowercase_all(chars@).len() < lowercase_all(text@).len());
                } else {
                    assert(lowercase_all(chars@)[i as int] != lowercase_all(text@)[i as int]);
                }
            }
            return false;
        }
        i = i + 1;
    }
    assert(i == chars@.len() ==> lowercase_all(chars@) =~= lowercase_all(text@));
    assert(i < chars@.len() ==> lowercase_all(chars@).len() > lowercase_all(text@).len());
    i == chars.len()
}

} // verus!
