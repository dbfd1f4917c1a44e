//! Character references, by name and by number.

use crate::chars::{alphanumeric, digit, hex_value, hexdigit, REPLACEMENT};
use crate::entities::{expansion, lookup};
use crate::model::{is_attribute_value, Machine, Outcome};
use crate::types::State;
use vstd::prelude::*;

verus! {

/// The machine back in the state that the reference was met in.
pub open spec fn returned(m: Machine) -> Machine {
    Machine {
        return_state: None,
        ..m.at(
            match m.return_state {
                Some(s) => s,
                None => State::Data,
            },
        )
    }
}

/// Adds `text` to the attribute value that is being read, or queues it as text.
pub open spec fn flush(m: Machine, text: Seq<char>) -> Outcome {
    if is_attribute_value(m.state) {
        Machine { attr_value: m.attr_value + text, ..m }.stay()
    } else {
        m.queue(text).stay()
    }
}

/// Adds `text` to the attribute value that is being read, or emits its first code
/// point and queues the rest.
pub open spec fn deliver(m: Machine, text: Seq<char>) -> Outcome {
    if is_attribute_value(m.state) {
        Machine { attr_value: m.attr_value + text, ..m }.stay()
    } else {
        m.queue(text.drop_first()).say(text[0])
    }
}

/// After `&`.
pub open spec fn character_reference(m: Machine, c: Option<char>) -> Outcome {
    match c {
        Some('#') => m.go(State::NumericCharacterReference),
        Some(c) if alphanumeric(c) => m.again(State::NamedCharacterReference),
        _ => deliver(returned(m).replaying(), seq!['&']),
    }
}

/// The end of the run of ASCII letters and digits that begins at `from`.
pub open spec fn run_end(input: Seq<char>, from: int) -> int
    decreases input.len() - from,
{
    if 0 <= from < input.len() && alphanumeric(input[from]) {
        run_end(input, from + 1)
    } else {
        from
    }
}

/// The longest name among the first `n` code points of `name` that stands for
/// something: its length, and what it stands for.
pub open spec fn longest_prefix(name: Seq<char>, n: nat) -> Option<(nat, (char, Option<char>))>
    decreases n,
{
    if n == 0 {
        None
    } else {
        match lookup(name.take(n as int)) {
            Some(v) => Some((n, v)),
            None => longest_prefix(name, (n - 1) as nat),
        }
    }
}

/// The reference that `name` begins with, where `semicolon` tells whether a
/// semicolon follows the name.
pub open spec fn best_match(name: Seq<char>, semicolon: bool) -> Option<
    (nat, (char, Option<char>)),
> {
    match lookup(name.push(';')) {
        Some(v) if semicolon => Some((name.len() + 1, v)),
        _ => longest_prefix(name, name.len()),
    }
}

/// The longest prefix is a name, and no longer prefix is one.
pub proof fn lemma_longest_prefix(name: Seq<char>, n: nat)
    requires
        n <= name.len(),
    ensures
        match longest_prefix(name, n) {
            Some((k, v)) => 1 <= k <= n && lookup(name.take(k as int)) == Some(v),
            None => true,
        },
        forall|j: int|
            1 <= j <= n && (#[trigger] lookup(name.take(j))) is Some ==> (longest_prefix(
                name,
                n,
            ) matches Some((k, _)) && j <= k),
    decreases n,
{
    if n > 0 {
        lemma_longest_prefix(name, (n - 1) as nat);
    }
}

/// A match is no longer than what there is to match.
pub proof fn lemma_best_match(name: Seq<char>, semicolon: bool)
    ensures
        best_match(name, semicolon) matches Some((n, _)) ==> 1 <= n <= name.len() || (semicolon && n
            == name.len() + 1),
{
    lemma_longest_prefix(name, name.len());
}

/// Whether the input holds `=` or an ASCII letter or digit at `i`.
pub open spec fn continues_value(input: Seq<char>, i: int) -> bool {
    0 <= i < input.len() && (input[i] == '=' || alphanumeric(input[i]))
}

/// The name of a reference, of which `c` is the first code point. As much of it is
/// read as makes a name; without one it is text. In an attribute value a name
/// without semicolon is text too, where it seems to go on.
pub open spec fn named(m: Machine, c: Option<char>) -> Outcome {
    let end = run_end(m.input, m.pos);
    let name = match c {
        Some(c) => seq![c] + m.input.subrange(m.pos, end),
        None => m.input.subrange(m.pos, end),
    };
    let start = end - name.len();
    let home = returned(m).clear_buffer();
    let semicolon = end < m.input.len() && m.input[end] == ';';
    match best_match(name, semicolon) {
        None => flush(Machine { pos: end, ..home }, seq!['&'] + name),
        Some((n, v)) => {
            let read = Machine { pos: start + n, ..home };
            if is_attribute_value(home.state) && n <= name.len() && continues_value(
                m.input,
                start + n,
            ) {
                flush(read, seq!['&'] + name.take(n as int))
            } else {
                deliver(read, expansion(v))
            }
        },
    }
}

/// After an ampersand and a name that stands for nothing.
pub open spec fn ambiguous_ampersand(m: Machine, c: Option<char>) -> Outcome {
    match c {
        Some(c) if alphanumeric(c) => m.say(c),
        Some(';') => returned(m).say(';'),
        Some(_) => returned(m).replaying().stay(),
        None => returned(m).stay(),
    }
}

/// After `&#`.
pub open spec fn numeric(m: Machine, c: Option<char>) -> Outcome {
    match c {
        Some(c) if c == 'x' || c == 'X' => Machine { code: 0, hex_prefix: c, ..m }.go(
            State::HexCharacterReferenceStart,
        ),
        Some(c) if digit(c) => Machine { code: 0, ..m }.again(
            State::DecimalCharacterReferenceStart,
        ),
        _ => flush(returned(m).replaying(), seq!['&', '#']),
    }
}

/// After `&#x`.
pub open spec fn hex_start(m: Machine, c: Option<char>) -> Outcome {
    match c {
        Some(c) if hexdigit(c) => m.again(State::HexCharacterReference),
        _ => flush(returned(m).replaying(), seq!['&', '#', m.hex_prefix]),
    }
}

/// Before the first digit of a decimal reference.
pub open spec fn decimal_start(m: Machine, c: Option<char>) -> Outcome {
    match c {
        Some(c) if digit(c) => m.again(State::DecimalCharacterReference),
        _ => flush(returned(m).replaying(), seq!['&', '#']),
    }
}

/// The number `code` with one more digit in `base`, held at the largest `u32`.
pub open spec fn with_digit(code: int, base: int, digit: int) -> int {
    if code * base + digit > u32::MAX {
        u32::MAX as int
    } else {
        code * base + digit
    }
}

/// In the digits of a hexadecimal reference.
pub open spec fn hex(m: Machine, c: Option<char>) -> Outcome {
    match c {
        Some(c) if hexdigit(c) => Machine {
            code: with_digit(m.code, 16, hex_value(c)),
            ..m
        }.stay(),
        Some(';') => m.go(State::NumericCharacterReferenceEnd),
        _ => m.again(State::NumericCharacterReferenceEnd),
    }
}

/// In the digits of a decimal reference.
pub open spec fn decimal(m: Machine, c: Option<char>) -> Outcome {
    match c {
        Some(c) if digit(c) => Machine {
            code: with_digit(m.code, 10, hex_value(c)),
            ..m
        }.stay(),
        Some(';') => m.go(State::NumericCharacterReferenceEnd),
        _ => m.again(State::NumericCharacterReferenceEnd),
    }
}

/// What Windows-1252 has at `code`, in the range where it differs from Unicode.
pub open spec fn windows_1252(code: int) -> Option<char> {
    if code == 0x80 {
        Some('\u{20AC}')
    } else if code == 0x82 {
        Some('\u{201A}')
    } else if code == 0x83 {
        Some('\u{0192}')
    } else if code == 0x84 {
        Some('\u{201E}')
    } else if code == 0x85 {
        Some('\u{2026}')
    } else if code == 0x86 {
        Some('\u{2020}')
    } else if code == 0x87 {
        Some('\u{2021}')
    } else if code == 0x88 {
        Some('\u{02C6}')
    } else if code == 0x89 {
        Some('\u{2030}')
    } else if code == 0x8A {
        Some('\u{0160}')
    } else if code == 0x8B {
        Some('\u{2039}')
    } else if code == 0x8C {
        Some('\u{0152}')
    } else if code == 0x8E {
        Some('\u{017D}')
    } else if code == 0x91 {
        Some('\u{2018}')
    } else if code == 0x92 {
        Some('\u{2019}')
    } else if code == 0x93 {
        Some('\u{201C}')
    } else if code == 0x94 {
        Some('\u{201D}')
    } else if code == 0x95 {
        Some('\u{2022}')
    } else if code == 0x96 {
        Some('\u{2013}')
    } else if code == 0x97 {
        Some('\u{2014}')
    } else if code == 0x98 {
        Some('\u{02DC}')
    } else if code == 0x99 {
        Some('\u{2122}')
    } else if code == 0x9A {
        Some('\u{0161}')
    } else if code == 0x9B {
        Some('\u{203A}')
    } else if code == 0x9C {
        Some('\u{0153}')
    } else if code == 0x9E {
        Some('\u{017E}')
    } else if code == 0x9F {
        Some('\u{0178}')
    } else {
        None
    }
}

/// Whether `code` is that of a code point which may stand in text: not a
/// surrogate, and not beyond Unicode.
pub open spec fn is_scalar(code: int) -> bool {
    0 <= code < 0xD800 || 0xE000 <= code <= 0x10FFFF
}

/// The code point that a numeric reference to `code` stands for.
pub open spec fn decoded(code: int) -> char {
    match windows_1252(code) {
        Some(c) => c,
        None => if code == 0 || !is_scalar(code) {
            REPLACEMENT
        } else {
            code as char
        },
    }
}

/// After a numeric reference. Nothing is read.
pub open spec fn numeric_end(m: Machine) -> Outcome {
    deliver(returned(Machine { code: 0, ..m }), seq![decoded(m.code)])
}

} // verus!
