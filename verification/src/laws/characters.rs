//! The classes of code points, by their numbers.

use crate::chars::{
    alphabetic, alphanumeric, digit, hex_value, hexdigit, lower, lowercase, lowercase_all, space,
    upper, visible,
};
use crate::model::instructions::disallowed;
use crate::model::references::decoded;
use vstd::prelude::*;

verus! {

/// Which code points are space, letters and digits, by their numbers.
pub proof fn classes_by_number(c: char)
    ensures
        space(c) <==> (c as u32 == 9 || c as u32 == 10 || c as u32 == 12 || c as u32 == 32),
        upper(c) <==> 65 <= c as u32 <= 90,
        lower(c) <==> 97 <= c as u32 <= 122,
        alphabetic(c) <==> (65 <= c as u32 <= 90 || 97 <= c as u32 <= 122),
        digit(c) <==> 48 <= c as u32 <= 57,
        alphanumeric(c) <==> (alphabetic(c) || digit(c)),
        hexdigit(c) <==> (48 <= c as u32 <= 57 || 65 <= c as u32 <= 70 || 97 <= c as u32 <= 102),
{
}

/// Lower case moves a letter by 32 and leaves everything else; a NUL shows as U+FFFD, and
/// everything else as it is.
pub proof fn mapping_by_number(c: char)
    ensures
        lowercase(c) as u32 == if 65 <= c as u32 <= 90 {
            c as u32 + 32
        } else {
            c as int
        },
        visible(c) as u32 == if c as u32 == 0 {
            0xFFFD
        } else {
            c as u32
        },
        digit(c) ==> hex_value(c) == c as u32 - 48,
        97 <= c as u32 <= 102 ==> hex_value(c) == c as u32 - 87,
        65 <= c as u32 <= 70 ==> hex_value(c) == c as u32 - 55,
{
}

/// Lower case is the same for both cases of a letter, and twice is as good as once.
pub proof fn lower_case_is_stable(c: char)
    ensures
        lowercase(lowercase(c)) == lowercase(c),
        !upper(lowercase(c)),
        upper(c) ==> lower(lowercase(c)),
{
}

/// The targets that are not allowed, letter by letter.
pub proof fn disallowed_by_letter(target: Seq<char>)
    ensures
        disallowed(target) <==> {
            ||| lowercase_all(target) == seq!['x', 'm', 'l']
            ||| lowercase_all(target) == seq![
                'x', 'm', 'l', '-', 's', 't', 'y', 'l', 'e', 's', 'h', 'e', 'e', 't',
            ]
        },
{
    reveal_strlit("xml");
    reveal_strlit("xml-stylesheet");
    assert(lowercase_all("xml"@) =~= seq!['x', 'm', 'l']);
    assert(lowercase_all("xml-stylesheet"@) =~= seq![
        'x', 'm', 'l', '-', 's', 't', 'y', 'l', 'e', 's', 'h', 'e', 'e', 't',
    ]);
}

/// A number that is no code point decodes to U+FFFD, one in the range of the C1 controls to
/// what is no such control or to itself, and every other but 0 to itself.
pub proof fn decoding_by_number(n: int)
    requires
        n >= 0,
    ensures
        n == 0 || 0xD800 <= n <= 0xDFFF || n > 0x10FFFF ==> decoded(n) as u32 == 0xFFFD,
        0 < n < 0x80 || 0x9F < n < 0xD800 || 0xE000 <= n <= 0x10FFFF ==> decoded(n) as u32 == n,
        n == 0x81 || n == 0x8D || n == 0x8F || n == 0x90 || n == 0x9D ==> decoded(n) as u32 == n,
        0x80 <= n <= 0x9F && n != 0x81 && n != 0x8D && n != 0x8F && n != 0x90 && n != 0x9D
            ==> decoded(n) as u32 > 0x9F,
{
}

} // verus!
