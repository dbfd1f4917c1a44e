//! Numbers in writing, and references by number as whole inputs.

use crate::chars::{digit, hex_value, hexdigit};
use crate::laws::references::{
    decimal_reference_is_decoded, hexadecimal_reference_is_decoded, number, resumed,
};
use crate::laws::stream::quiet_step;
use crate::laws::text::{character, text_ends};
use crate::model::references::decoded;
use crate::model::runs::tokens;
use crate::model::{step, Machine};
use crate::types::TokenView;
use vstd::prelude::*;

verus! {

/// The digit for `d`, a letter in upper case or not.
pub open spec fn figure(d: int, capital: bool) -> char {
    if d < 10 {
        (d + '0' as u32) as char
    } else if capital {
        (d - 10 + 'A' as u32) as char
    } else {
        (d - 10 + 'a' as u32) as char
    }
}

/// `n` in writing, in `base`.
pub open spec fn numeral(n: nat, base: nat, capital: bool) -> Seq<char>
    decreases n,
{
    if base < 2 || n < base {
        seq![figure(n as int, capital)]
    } else {
        proof {
            assert(n / base < n) by (nonlinear_arith)
                requires
                    base >= 2,
                    n >= base,
            ;
        }
        numeral(n / base, base, capital).push(figure((n % base) as int, capital))
    }
}

proof fn lemma_figure(d: int, capital: bool)
    requires
        0 <= d < 16,
    ensures
        hexdigit(figure(d, capital)),
        d < 10 ==> digit(figure(d, capital)),
        hex_value(figure(d, capital)) == d,
{
}

proof fn lemma_number_push(code: int, digits: Seq<char>, c: char, base: int)
    ensures
        number(code, digits.push(c), base) == number(code, digits, base) * base + hex_value(c),
    decreases digits.len(),
{
    let all = digits.push(c);
    if digits.len() == 0 {
        assert(all.drop_first() =~= seq![]);
        assert(number(code * base + hex_value(c), all.drop_first(), base) == code * base
            + hex_value(c));
    } else {
        assert(all.drop_first() =~= digits.drop_first().push(c));
        lemma_number_push(code * base + hex_value(digits[0]), digits.drop_first(), c, base);
    }
}

/// A number in writing is read as that number.
pub proof fn written_number_is_read_back(n: nat, base: nat, capital: bool)
    requires
        base == 10 || base == 16,
    ensures
        ({
            let s = numeral(n, base, capital);
            &&& s.len() > 0
            &&& number(0, s, base as int) == n
            &&& forall|i: int| 0 <= i < s.len() ==> hexdigit(#[trigger] s[i])
            &&& base == 10 ==> forall|i: int| 0 <= i < s.len() ==> digit(#[trigger] s[i])
        }),
    decreases n,
{
    let s = numeral(n, base, capital);
    if n < base {
        lemma_figure(n as int, capital);
        assert(s.drop_first() =~= seq![]);
        assert(number(hex_value(s[0]), s.drop_first(), base as int) == hex_value(s[0]));
    } else {
        let d = (n % base) as int;
        written_number_is_read_back(n / base, base, capital);
        lemma_figure(d, capital);
        lemma_number_push(0, numeral(n / base, base, capital), figure(d, capital), base as int);
        assert((n / base) * base + n % base == n) by (nonlinear_arith)
            requires
                base > 0,
        ;
    }
}

/// `&#`, digits and a semicolon by themselves are the code point that the number decodes
/// to, however long it is.
pub proof fn decimal_reference_input(digits: Seq<char>)
    requires
        digits.len() > 0,
        forall|i: int| 0 <= i < digits.len() ==> digit(#[trigger] digits[i]),
    ensures
        tokens(Machine::initial(seq!['&', '#'] + digits + seq![';'])) == seq![
            character(decoded(number(0, digits, 10))),
            TokenView::EOF,
        ],
{
    let input = seq!['&', '#'] + digits + seq![';'];
    let m = Machine::initial(input);
    let end = digits.len() + 2int;
    let m1 = step(m).0;
    quiet_step(m);
    assert(input.subrange(2, end) =~= digits);
    assert forall|i: int| 2 <= i < end implies digit(#[trigger] input[i]) by {
        assert(input[i] == digits[i - 2]);
    }
    assert(input[end] == ';');
    decimal_reference_is_decoded(m1, end);
    let text = seq![decoded(number(0, digits, 10))];
    let last = Machine { code: 0, ..resumed(m1, end + 1, text) };
    text_ends(last);
    assert(tokens(m) =~= seq![character(text[0]), TokenView::EOF]);
}

/// `&#x` or `&#X`, hexadecimal digits and a semicolon by themselves are the code point that
/// the number decodes to, however long it is.
pub proof fn hexadecimal_reference_input(x: char, digits: Seq<char>)
    requires
        x == 'x' || x == 'X',
        digits.len() > 0,
        forall|i: int| 0 <= i < digits.len() ==> hexdigit(#[trigger] digits[i]),
    ensures
        tokens(Machine::initial(seq!['&', '#', x] + digits + seq![';'])) == seq![
            character(decoded(number(0, digits, 16))),
            TokenView::EOF,
        ],
{
    let input = seq!['&', '#', x] + digits + seq![';'];
    let m = Machine::initial(input);
    let end = digits.len() + 3int;
    let m1 = step(m).0;
    quiet_step(m);
    assert(input.subrange(3, end) =~= digits);
    assert forall|i: int| 3 <= i < end implies hexdigit(#[trigger] input[i]) by {
        assert(input[i] == digits[i - 3]);
    }
    assert(input[end] == ';');
    hexadecimal_reference_is_decoded(m1, end);
    let text = seq![decoded(number(0, digits, 16))];
    let last = Machine { code: 0, hex_prefix: x, ..resumed(m1, end + 1, text) };
    text_ends(last);
    assert(tokens(m) =~= seq![character(text[0]), TokenView::EOF]);
}

/// A reference to `n`, in decimal or in hexadecimal, is the code point that `n` decodes to.
pub proof fn number_in_writing_is_decoded(n: nat, x: char, capital: bool)
    requires
        x == 'x' || x == 'X',
    ensures
        tokens(
            Machine::initial(seq!['&', '#'] + numeral(n, 10, capital) + seq![';']),
        ) == seq![character(decoded(n as int)), TokenView::EOF],
        tokens(
            Machine::initial(seq!['&', '#', x] + numeral(n, 16, capital) + seq![';']),
        ) == seq![character(decoded(n as int)), TokenView::EOF],
{
    written_number_is_read_back(n, 10, capital);
    written_number_is_read_back(n, 16, capital);
    decimal_reference_input(numeral(n, 10, capital));
    hexadecimal_reference_input(x, numeral(n, 16, capital));
}

/// A code point written as a reference is read back, also one that would open a tag or a
/// reference itself. NUL, and what Windows-1252 has otherwise than Unicode, is not.
pub proof fn written_code_point_is_read_back(c: char, x: char, capital: bool)
    requires
        c != '\0',
        c < '\u{80}' || c > '\u{9F}',
        x == 'x' || x == 'X',
    ensures
        tokens(
            Machine::initial(
                seq!['&', '#'] + numeral(c as nat, 10, capital) + seq![';'],
            ),
        ) == seq![character(c), TokenView::EOF],
        tokens(
            Machine::initial(
                seq!['&', '#', x] + numeral(c as nat, 16, capital) + seq![';'],
            ),
        ) == seq![character(c), TokenView::EOF],
{
    number_in_writing_is_decoded(c as nat, x, capital);
    assert(decoded(c as int) == c);
}

} // verus!
