//! Building strings and characters.

use vstd::prelude::*;

verus! {

/// `char::from_u32` gives the code point of a number, where there is one: surrogates
/// and numbers beyond U+10FFFF have none.
pub assume_specification[ char::from_u32 ](value: u32) -> (code_point: Option<char>)
    ensures
        code_point == if value < 0xD800 || 0xE000 <= value <= 0x10FFFF {
            Some(value as char)
        } else {
            None
        },
;

/// `String::push` appends one code point.
pub assume_specification[ String::push ](string: &mut String, code_point: char)
    ensures
        final(string)@ == old(string)@.push(code_point),
;

/// Appends `chars` to `s`.
pub(crate) fn push_all(s: &mut String, chars: &[char])
    ensures
        final(s)@ == old(s)@ + chars@,
{
    let mut i: usize = 0;
    assert(s@ + chars@.take(0) =~= s@);
    while i < chars.len()
        invariant
            i <= chars@.len(),
            s@ == old(s)@ + chars@.take(i as int),
        decreases chars@.len() - i,
    {
        s.push(chars[i]);
        assert(chars@.take(i + 1) =~= chars@.take(i as int).push(chars@[i as int]));
        assert(s@ =~= old(s)@ + chars@.take(i + 1));
        i = i + 1;
    }
    assert(chars@.take(i as int) =~= chars@);
}

/// Takes the text out of `s`, which is left empty.
pub(crate) fn take(s: &mut String) -> (r: String)
    ensures
        r@ == old(s)@,
        final(s)@ == Seq::<char>::empty(),
{
    let mut r = String::new();
    core::mem::swap(s, &mut r);
    r
}

} // verus!
