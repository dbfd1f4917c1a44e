//! Character references.

use crate::chars::{alphanumeric, digit, hex_value, hexdigit};
use crate::entities::{expansion, lookup};
use crate::laws::stream::{loud_step, quiet_step, replaying_is_unreading, rested};
use crate::laws::text::{character, characters, pending_text_comes_first};
use crate::model::families::in_reference;
use crate::model::references::{
    best_match, continues_value, decoded, lemma_best_match, lemma_longest_prefix, named, run_end,
    with_digit,
};
use crate::model::runs::tokens;
use crate::model::{is_attribute_value, step, Machine};
use crate::types::{State, TokenView};
use vstd::prelude::*;

verus! {

/// The number that `digits` spells in `base`, with `code` before it.
pub open spec fn number(code: int, digits: Seq<char>, base: int) -> int
    decreases digits.len(),
{
    if digits.len() == 0 {
        code
    } else {
        number(code * base + hex_value(digits[0]), digits.drop_first(), base)
    }
}

/// The same number, held at the largest `u32`.
pub open spec fn held_number(code: int, digits: Seq<char>, base: int) -> int
    decreases digits.len(),
{
    if digits.len() == 0 {
        code
    } else {
        held_number(with_digit(code, base, hex_value(digits[0])), digits.drop_first(), base)
    }
}

/// `n`, held at the largest `u32`.
pub open spec fn capped(n: int) -> int {
    if n > u32::MAX {
        u32::MAX as int
    } else {
        n
    }
}

proof fn lemma_number(code: int, digits: Seq<char>, base: int)
    requires
        0 <= code,
        base == 10 || base == 16,
        forall|i: int| 0 <= i < digits.len() ==> hexdigit(#[trigger] digits[i]),
    ensures
        held_number(capped(code), digits, base) == capped(number(code, digits, base)),
        number(code, digits, base) >= 0,
    decreases digits.len(),
{
    if digits.len() > 0 {
        let d = hex_value(digits[0]);
        assert(0 <= d < 16);
        let rest = digits.drop_first();
        assert forall|i: int| 0 <= i < rest.len() implies hexdigit(#[trigger] rest[i]) by {
            assert(rest[i] == digits[i + 1]);
        }
        lemma_number(code * base + d, rest, base);
        assert(with_digit(capped(code), base, d) == capped(code * base + d));
    }
}

/// Whether `c` is a digit of a reference that is read in `state`.
pub open spec fn is_digit_in(state: State, c: char) -> bool {
    if state == State::HexCharacterReference {
        hexdigit(c)
    } else {
        digit(c)
    }
}

/// The base of the numbers that are read in `state`.
pub open spec fn base_of(state: State) -> int {
    if state == State::HexCharacterReference {
        16
    } else {
        10
    }
}

/// The digits up to `end` are read into the number.
proof fn lemma_digits(m: Machine, end: int)
    requires
        m.wf(),
        !m.done,
        !m.reconsume,
        m.pending.len() == 0,
        m.state == State::HexCharacterReference || m.state == State::DecimalCharacterReference,
        m.pos <= end <= m.input.len(),
        forall|i: int| m.pos <= i < end ==> is_digit_in(m.state, #[trigger] m.input[i]),
    ensures
        ({
            let code = held_number(m.code, m.input.subrange(m.pos, end), base_of(m.state));
            let n = Machine { pos: end, code, at_end: m.at_end && m.pos == end, ..m };
            n.wf() && tokens(m) == tokens(n)
        }),
    decreases end - m.pos,
{
    let digits = m.input.subrange(m.pos, end);
    if m.pos == end {
        assert(digits.len() == 0);
        assert(m == Machine { pos: end, at_end: m.at_end && m.pos == end, ..m });
    } else {
        let n = step(m).0;
        assert(is_digit_in(m.state, m.input[m.pos]));
        quiet_step(m);
        lemma_digits(n, end);
        assert(digits.drop_first() =~= m.input.subrange(m.pos + 1, end));
        assert(digits[0] == m.input[m.pos]);
    }
}

/// The machine back in the state that a reference was met in, at `pos`, where `text` is
/// what the reference stands for: `text` is added to the attribute value that is being
/// read, or has been emitted.
pub open spec fn resumed(m: Machine, pos: int, text: Seq<char>) -> Machine {
    let state = match m.return_state {
        Some(s) => s,
        None => State::Data,
    };
    Machine {
        pos,
        state,
        return_state: None,
        attr_value: if is_attribute_value(state) {
            m.attr_value + text
        } else {
            m.attr_value
        },
        reconsume: false,
        at_end: false,
        ..m
    }
}

/// The tokens that a reference to `text` gives rise to: none in an attribute value.
pub open spec fn reference_tokens(m: Machine, text: Seq<char>) -> Seq<TokenView> {
    match m.return_state {
        Some(s) if is_attribute_value(s) => seq![],
        _ => characters(text),
    }
}

/// The position behind a reference that ends at `end`: a semicolon there belongs to it.
pub open spec fn behind(input: Seq<char>, end: int) -> int {
    if end < input.len() && input[end] == ';' {
        end + 1
    } else {
        end
    }
}

proof fn lemma_number_delivered(m: Machine, end: int, code: int)
    requires
        m.wf(),
        !m.done,
        !m.reconsume,
        m.pending.len() == 0,
        m.state == State::HexCharacterReference || m.state == State::DecimalCharacterReference,
        m.pos == end,
        end < m.input.len() ==> !is_digit_in(m.state, m.input[end]),
        m.code == capped(code),
        code >= 0,
    ensures
        ({
            let text = seq![decoded(code)];
            tokens(m) == reference_tokens(m, text) + tokens(
                Machine { code: 0, ..resumed(m, behind(m.input, end), text) },
            )
        }),
{
    let text = seq![decoded(code)];
    assert(decoded(m.code) == decoded(code));
    let n = step(m).0;
    quiet_step(m);
    assert(n.state == State::NumericCharacterReferenceEnd);
    let (k, t) = step(n);
    assert(k.pending =~= m.pending);
    replaying_is_unreading(k);
    let last = Machine { code: 0, ..resumed(m, behind(m.input, end), text) };
    assert(rested(k) =~= last);
    if t is None {
        quiet_step(n);
        assert(tokens(m) =~= reference_tokens(m, text) + tokens(last));
    } else {
        loud_step(n);
        assert(characters(text) =~= seq![character(decoded(code))]);
    }
}

/// A decimal reference stands for the code point that its number decodes to, however
/// long the number. Its digits reach up to `end`; a semicolon may follow.
pub proof fn decimal_reference_is_decoded(m: Machine, end: int)
    requires
        m.wf(),
        !m.done,
        !m.reconsume,
        m.pending.len() == 0,
        m.state == State::CharacterReference,
        m.pos + 1 < end <= m.input.len(),
        m.input[m.pos] == '#',
        forall|i: int| m.pos + 1 <= i < end ==> digit(#[trigger] m.input[i]),
        end < m.input.len() ==> !digit(m.input[end]),
    ensures
        ({
            let code = number(0, m.input.subrange(m.pos + 1, end), 10);
            let text = seq![decoded(code)];
            tokens(m) == reference_tokens(m, text) + tokens(
                Machine { code: 0, ..resumed(m, behind(m.input, end), text) },
            )
        }),
{
    let digits = m.input.subrange(m.pos + 1, end);
    let code = number(0, digits, 10);
    assert forall|i: int| 0 <= i < digits.len() implies hexdigit(#[trigger] digits[i]) by {
        assert(digits[i] == m.input[m.pos + 1 + i]);
    }
    lemma_number(0, digits, 10);
    assert(digit(m.input[m.pos + 1]));
    let m1 = step(m).0;
    quiet_step(m);
    let m2 = step(m1).0;
    quiet_step(m1);
    let m3 = step(m2).0;
    quiet_step(m2);
    replaying_is_unreading(m3);
    let m4 = rested(m3);
    assert(m4.state == State::DecimalCharacterReference && m4.pos == m.pos + 1 && m4.code == 0);
    lemma_digits(m4, end);
    let m5 = Machine { pos: end, code: capped(code), ..m4 };
    lemma_number_delivered(m5, end, code);
    let text = seq![decoded(code)];
    assert(resumed(m5, behind(m.input, end), text) =~= Machine {
        code: capped(code),
        ..resumed(m, behind(m.input, end), text)
    });
}

/// A hexadecimal reference stands for the code point that its number decodes to, however
/// long the number. Its digits reach up to `end`; a semicolon may follow.
pub proof fn hexadecimal_reference_is_decoded(m: Machine, end: int)
    requires
        m.wf(),
        !m.done,
        !m.reconsume,
        m.pending.len() == 0,
        m.state == State::CharacterReference,
        m.pos + 2 < end <= m.input.len(),
        m.input[m.pos] == '#',
        m.input[m.pos + 1] == 'x' || m.input[m.pos + 1] == 'X',
        forall|i: int| m.pos + 2 <= i < end ==> hexdigit(#[trigger] m.input[i]),
        end < m.input.len() ==> !hexdigit(m.input[end]),
    ensures
        ({
            let code = number(0, m.input.subrange(m.pos + 2, end), 16);
            let text = seq![decoded(code)];
            tokens(m) == reference_tokens(m, text) + tokens(
                Machine {
                    code: 0,
                    hex_prefix: m.input[m.pos + 1],
                    ..resumed(m, behind(m.input, end), text)
                },
            )
        }),
{
    let digits = m.input.subrange(m.pos + 2, end);
    let code = number(0, digits, 16);
    assert forall|i: int| 0 <= i < digits.len() implies hexdigit(#[trigger] digits[i]) by {
        assert(digits[i] == m.input[m.pos + 2 + i]);
    }
    lemma_number(0, digits, 16);
    assert(hexdigit(m.input[m.pos + 2]));
    let m1 = step(m).0;
    quiet_step(m);
    let m2 = step(m1).0;
    quiet_step(m1);
    let m3 = step(m2).0;
    quiet_step(m2);
    replaying_is_unreading(m3);
    let m4 = rested(m3);
    assert(m4.state == State::HexCharacterReference && m4.pos == m.pos + 2 && m4.code == 0);
    lemma_digits(m4, end);
    let m5 = Machine { pos: end, code: capped(code), ..m4 };
    lemma_number_delivered(m5, end, code);
    let text = seq![decoded(code)];
    assert(resumed(m5, behind(m.input, end), text) =~= Machine {
        code: capped(code),
        hex_prefix: m.input[m.pos + 1],
        ..resumed(m, behind(m.input, end), text)
    });
}

/// An ampersand is text where neither `#` nor an ASCII letter or digit follows it.
pub proof fn lone_ampersand_is_text(m: Machine)
    requires
        m.wf(),
        !m.done,
        !m.reconsume,
        m.pending.len() == 0,
        m.state == State::CharacterReference,
        m.next() matches Some(c) ==> c != '#' && !alphanumeric(c),
    ensures
        tokens(m) == reference_tokens(m, seq!['&']) + tokens(resumed(m, m.pos, seq!['&'])),
{
    let text = seq!['&'];
    let (k, t) = step(m);
    assert(k.pending =~= m.pending);
    replaying_is_unreading(k);
    assert(rested(k) =~= resumed(m, m.pos, text));
    if t is None {
        quiet_step(m);
        assert(tokens(m) =~= reference_tokens(m, text) + tokens(rested(k)));
    } else {
        loud_step(m);
        assert(characters(text) =~= seq![character('&')]);
    }
}

proof fn lemma_flushed(m: Machine, k: Machine, text: Seq<char>)
    requires
        k.wf(),
        !k.done,
        !in_reference(k.state),
        k.state != State::MarkupDeclarationOpen,
        rested(k) == (Machine {
            pending: if is_attribute_value(k.state) {
                k.pending
            } else {
                text
            },
            ..resumed(m, rested(k).pos, text)
        }),
        is_attribute_value(k.state) ==> k.pending.len() == 0,
        m.pending.len() == 0,
    ensures
        tokens(k) == reference_tokens(m, text) + tokens(resumed(m, rested(k).pos, text)),
{
    replaying_is_unreading(k);
    pending_text_comes_first(rested(k));
    let last = resumed(m, rested(k).pos, text);
    assert(Machine { pending: seq![], ..rested(k) } =~= last);
    assert(characters(seq![]) =~= seq![]);
    assert(tokens(k) =~= reference_tokens(m, text) + tokens(last));
}

/// `&#` is text where neither a digit nor `x` follows it.
pub proof fn numberless_reference_is_text(m: Machine)
    requires
        m.wf(),
        !m.done,
        !m.reconsume,
        m.pending.len() == 0,
        m.state == State::CharacterReference,
        m.pos < m.input.len(),
        m.input[m.pos] == '#',
        m.pos + 1 < m.input.len() ==> {
            let c = m.input[m.pos + 1];
            !digit(c) && c != 'x' && c != 'X'
        },
    ensures
        tokens(m) == reference_tokens(m, seq!['&', '#']) + tokens(
            resumed(m, m.pos + 1, seq!['&', '#']),
        ),
{
    let text = seq!['&', '#'];
    let m1 = step(m).0;
    quiet_step(m);
    let k = step(m1).0;
    quiet_step(m1);
    assert(text + m1.pending =~= text);
    lemma_flushed(m, k, text);
}

/// `&#x` is text where no hexadecimal digit follows it.
pub proof fn digitless_hexadecimal_reference_is_text(m: Machine)
    requires
        m.wf(),
        !m.done,
        !m.reconsume,
        m.pending.len() == 0,
        m.state == State::CharacterReference,
        m.pos + 1 < m.input.len(),
        m.input[m.pos] == '#',
        m.input[m.pos + 1] == 'x' || m.input[m.pos + 1] == 'X',
        m.pos + 2 < m.input.len() ==> !hexdigit(m.input[m.pos + 2]),
    ensures
        ({
            let x = m.input[m.pos + 1];
            let text = seq!['&', '#', x];
            tokens(m) == reference_tokens(m, text) + tokens(
                Machine { code: 0, hex_prefix: x, ..resumed(m, m.pos + 2, text) },
            )
        }),
{
    let x = m.input[m.pos + 1];
    let text = seq!['&', '#', x];
    let m1 = step(m).0;
    quiet_step(m);
    let m2 = step(m1).0;
    quiet_step(m1);
    let k = step(m2).0;
    quiet_step(m2);
    assert(text + m2.pending =~= text);
    lemma_flushed(Machine { code: 0, hex_prefix: x, ..m }, k, text);
}

/// Whether `s` has the shape of the name of a reference: ASCII letters and digits, and
/// perhaps a semicolon behind them.
pub open spec fn is_reference_name(s: Seq<char>) -> bool {
    s.len() > 0 && forall|i: int|
        0 <= i < s.len() ==> alphanumeric(#[trigger] s[i]) || (s[i] == ';' && i == s.len() - 1)
}

/// The name that a reference to `text` begins with: its length, and what it stands for.
pub open spec fn found_name(text: Seq<char>) -> Option<(nat, (char, Option<char>))> {
    let end = run_end(text, 0);
    best_match(text.take(end), end < text.len() && text[end] == ';')
}

pub(crate) proof fn lemma_run(text: Seq<char>, from: int)
    requires
        0 <= from <= text.len(),
    ensures
        from <= run_end(text, from) <= text.len(),
        forall|i: int| from <= i < run_end(text, from) ==> alphanumeric(#[trigger] text[i]),
        run_end(text, from) < text.len() ==> !alphanumeric(text[run_end(text, from)]),
    decreases text.len() - from,
{
    if from < text.len() && alphanumeric(text[from]) {
        lemma_run(text, from + 1);
    }
}

proof fn lemma_run_shift(input: Seq<char>, p: int, i: int)
    requires
        0 <= p,
        0 <= i,
        p + i <= input.len(),
    ensures
        run_end(input, p + i) == p + run_end(input.skip(p), i),
    decreases input.len() - p - i,
{
    if p + i < input.len() {
        assert(input.skip(p)[i] == input[p + i]);
        lemma_run_shift(input, p, i + 1);
    }
}

/// As much is read as makes a name: the name that is found is one, and no longer
/// beginning of the text is.
pub proof fn the_longest_name_is_found(text: Seq<char>)
    requires
        text.len() > 0,
        alphanumeric(text[0]),
    ensures
        match found_name(text) {
            Some((n, v)) => {
                &&& 0 < n <= text.len()
                &&& is_reference_name(text.take(n as int))
                &&& lookup(text.take(n as int)) == Some(v)
                &&& forall|k: int|
                    n < k <= text.len() && is_reference_name(text.take(k)) ==> (#[trigger] lookup(
                        text.take(k),
                    )) is None
            },
            None => forall|k: int|
                0 < k <= text.len() && is_reference_name(text.take(k)) ==> (#[trigger] lookup(
                    text.take(k),
                )) is None,
        },
{
    let end = run_end(text, 0);
    let name = text.take(end);
    let semicolon = end < text.len() && text[end] == ';';
    lemma_run(text, 0);
    lemma_longest_prefix(name, name.len());
    assert forall|k: int| 0 < k <= text.len() && is_reference_name(text.take(k)) implies k <= end
        || (semicolon && k == end + 1) by {
        if k > end {
            assert(text.take(k)[end] == text[end]);
        }
    }
    if semicolon {
        assert(name.push(';') =~= text.take(end + 1));
        assert forall|i: int| 0 <= i < end + 1 implies alphanumeric(
            #[trigger] text.take(end + 1)[i],
        ) || (text.take(end + 1)[i] == ';' && i == end) by {
            if i < end {
                assert(alphanumeric(text[i]));
            }
        }
    }
    assert forall|j: int| 0 < j <= end implies name.take(j) == #[trigger] text.take(j) by {
        assert(name.take(j) =~= text.take(j));
    }
    assert forall|j: int| 0 < j <= end implies is_reference_name(#[trigger] text.take(j)) by {
        assert forall|i: int| 0 <= i < j implies alphanumeric(#[trigger] text.take(j)[i]) by {
            assert(alphanumeric(text[i]));
        }
    }
}

/// How far a reference by name that begins `text` reaches, and what it comes to: the
/// name that is found comes to what it stands for. Without one, the letters and digits
/// are text after the ampersand. In an attribute value so is a name without semicolon
/// that `=`, a letter or a digit follows.
pub open spec fn named_text(text: Seq<char>, in_value: bool) -> (int, Seq<char>) {
    match found_name(text) {
        None => (run_end(text, 0), seq!['&'] + text.take(run_end(text, 0))),
        Some((n, v)) => if in_value && text[n - 1] != ';' && n < text.len() && (text[n as int]
            == '=' || alphanumeric(text[n as int])) {
            (n as int, seq!['&'] + text.take(n as int))
        } else {
            (n as int, expansion(v))
        },
    }
}

/// What is read of a name from the input is what the text behind the ampersand begins
/// with.
proof fn lemma_name_read(input: Seq<char>, p: int)
    requires
        0 <= p < input.len(),
        alphanumeric(input[p]),
    ensures
        ({
            let rest = input.skip(p);
            let end = run_end(rest, 0);
            &&& 0 < end <= rest.len()
            &&& run_end(input, p + 1) == p + end
            &&& seq![input[p]] + input.subrange(p + 1, p + end) == rest.take(end)
            &&& rest.take(end).len() == end
            &&& end < rest.len() ==> input[p + end] == rest[end]
            &&& forall|i: int| 0 <= i < end ==> alphanumeric(#[trigger] rest[i])
        }),
{
    let rest = input.skip(p);
    let end = run_end(rest, 0);
    assert(alphanumeric(rest[0]));
    lemma_run(rest, 0);
    lemma_run_shift(input, p, 0);
    assert(run_end(rest, 0) == run_end(rest, 1));
    lemma_run(rest, 1);
    assert(seq![input[p]] + input.subrange(p + 1, p + end) =~= rest.take(end));
}

/// Where the name that is found ends, in the input and in the text behind the ampersand.
proof fn lemma_name_end(input: Seq<char>, p: int)
    requires
        0 <= p < input.len(),
        alphanumeric(input[p]),
    ensures
        ({
            let rest = input.skip(p);
            let end = run_end(rest, 0);
            found_name(rest) matches Some((n, _)) ==> {
                &&& 0 < n <= rest.len()
                &&& n <= end <==> rest[n - 1] != ';'
                &&& n <= end ==> rest.take(end).take(n as int) == rest.take(n as int)
                &&& continues_value(input, p + n) <==> n < rest.len() && (rest[n as int] == '='
                    || alphanumeric(rest[n as int]))
            }
        }),
{
    let rest = input.skip(p);
    let end = run_end(rest, 0);
    lemma_name_read(input, p);
    lemma_best_match(rest.take(end), end < rest.len() && rest[end] == ';');
    if let Some((n, _)) = found_name(rest) {
        if n <= end {
            assert(alphanumeric(rest[n - 1]));
            assert(rest.take(end).take(n as int) =~= rest.take(n as int));
        }
        if n < rest.len() {
            assert(input[p + n] == rest[n as int]);
        }
    }
}

/// The step that reads a name ends behind it, with its text in the attribute value, or
/// pending, or emitted and pending.
proof fn lemma_named_step(m: Machine)
    requires
        m.wf(),
        !m.done,
        !m.reconsume,
        m.pending.len() == 0,
        m.state == State::CharacterReference,
        m.pos < m.input.len(),
        alphanumeric(m.input[m.pos]),
    ensures
        ({
            let in_value = m.return_state matches Some(s) && is_attribute_value(s);
            let (n, text) = named_text(m.input.skip(m.pos), in_value);
            let (k, t) = step(step(m).0);
            let last = resumed(m, m.pos + n, text).clear_buffer();
            if in_value {
                k == last && t is None
            } else {
                &&& k == (Machine { pending: k.pending, ..last })
                &&& match t {
                    None => k.pending == text,
                    Some(t) => {
                        text.len() > 0 && t == character(text[0]) && k.pending == text.drop_first()
                    },
                }
            }
        }),
{
    let in_value = m.return_state matches Some(s) && is_attribute_value(s);
    let rest = m.input.skip(m.pos);
    let (n, text) = named_text(rest, in_value);
    let m1 = step(m).0;
    let r = m1.read();
    lemma_name_read(m.input, m.pos);
    lemma_name_end(m.input, m.pos);
    assert(m1.next() == Some(m.input[m.pos]));
    assert(r.pos == m.pos + 1 && r.input == m.input);
    assert(step(m1) == named(r, Some(m.input[m.pos])));
    let (k, t) = step(m1);
    if !in_value {
        assert(text + m.pending =~= text);
        assert(text.drop_first() + m.pending =~= text.drop_first());
    }
}

/// A reference by name comes to its text, and reading goes on behind the name.
pub proof fn named_reference_is_resolved(m: Machine)
    requires
        m.wf(),
        !m.done,
        !m.reconsume,
        m.pending.len() == 0,
        m.state == State::CharacterReference,
        m.pos < m.input.len(),
        alphanumeric(m.input[m.pos]),
    ensures
        ({
            let in_value = m.return_state matches Some(s) && is_attribute_value(s);
            let (n, text) = named_text(m.input.skip(m.pos), in_value);
            tokens(m) == reference_tokens(m, text) + tokens(
                resumed(m, m.pos + n, text).clear_buffer(),
            )
        }),
{
    let in_value = m.return_state matches Some(s) && is_attribute_value(s);
    let (n, text) = named_text(m.input.skip(m.pos), in_value);
    let last = resumed(m, m.pos + n, text).clear_buffer();
    let m1 = step(m).0;
    let (k, t) = step(m1);
    quiet_step(m);
    lemma_named_step(m);
    if in_value {
        quiet_step(m1);
        assert(reference_tokens(m, text) + tokens(last) =~= tokens(last));
    } else if t is None {
        quiet_step(m1);
        pending_text_comes_first(k);
        assert(Machine { pending: seq![], ..k } =~= last);
    } else {
        loud_step(m1);
        pending_text_comes_first(k);
        assert(Machine { pending: seq![], ..k } =~= last);
        assert(characters(text) =~= seq![t->0] + characters(text.drop_first()));
        assert(seq![t->0] + (characters(text.drop_first()) + tokens(last)) =~= characters(text)
            + tokens(last));
    }
}

/// In an attribute value a reference adds to the value and emits nothing; elsewhere it
/// emits and leaves the attribute value alone.
pub proof fn references_go_to_one_place(m: Machine)
    requires
        m.wf(),
        !m.done,
        m.pending.len() == 0,
        in_reference(m.state),
        m.state != State::AmbiguousAmpersand,
    ensures
        ({
            let (n, t) = step(m);
            if m.return_state matches Some(s) && is_attribute_value(s) {
                t is None && n.pending.len() == 0
            } else {
                n.attr_value == m.attr_value
            }
        }),
{
}

/// The machine back in the state that a reference was met in, at `pos`.
pub open spec fn returned_to(m: Machine, pos: int) -> Machine {
    resumed(m, pos, seq![])
}

/// Behind an ampersand that is ambiguous, letters and digits are text, with a semicolon that
/// ends them; then reading goes on in the state that the ampersand was met in.
pub proof fn ambiguous_name_is_text(m: Machine, end: int)
    requires
        m.wf(),
        !m.done,
        !m.reconsume,
        m.pending.len() == 0,
        m.state == State::AmbiguousAmpersand,
        m.pos <= end <= m.input.len(),
        forall|i: int| m.pos <= i < end ==> alphanumeric(#[trigger] m.input[i]),
        end < m.input.len() ==> !alphanumeric(m.input[end]),
    ensures
        tokens(m) == characters(m.input.subrange(m.pos, behind(m.input, end))) + tokens(
            returned_to(m, behind(m.input, end)),
        ),
    decreases end - m.pos,
{
    let to = behind(m.input, end);
    let text = m.input.subrange(m.pos, to);
    let (k, t) = step(m);
    if m.pos < end {
        assert(alphanumeric(m.input[m.pos]));
        loud_step(m);
        ambiguous_name_is_text(k, end);
        assert(returned_to(k, to) == returned_to(m, to));
        let rest = m.input.subrange(k.pos, to);
        assert(characters(text) =~= seq![t->0] + characters(rest));
        assert(tokens(m) =~= characters(text) + tokens(returned_to(m, to)));
    } else {
        replaying_is_unreading(k);
        assert(m.attr_value + seq![] =~= m.attr_value);
        assert(rested(k) == returned_to(m, to));
        if t is None {
            quiet_step(m);
            assert(characters(text) =~= seq![]);
        } else {
            loud_step(m);
            assert(characters(text) =~= seq![character(';')]);
        }
        assert(tokens(m) =~= characters(text) + tokens(returned_to(m, to)));
    }
}

/// Where a decimal reference was to begin and no digit follows, `&#` is text.
pub proof fn digitless_decimal_reference_is_text(m: Machine)
    requires
        m.wf(),
        !m.done,
        !m.reconsume,
        m.pending.len() == 0,
        m.state == State::DecimalCharacterReferenceStart,
        m.next() matches Some(c) ==> !digit(c),
    ensures
        tokens(m) == reference_tokens(m, seq!['&', '#']) + tokens(
            resumed(m, m.pos, seq!['&', '#']),
        ),
{
    let text = seq!['&', '#'];
    let k = step(m).0;
    quiet_step(m);
    assert(text + m.pending =~= text);
    lemma_flushed(m, k, text);
}

} // verus!
