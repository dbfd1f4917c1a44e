//! Character references, by name and by number.

use crate::chars::{hex_digit_value, is_alphanumeric, is_digit, is_hexdigit, REPLACEMENT};
use crate::entities::{expansion, lookup, resolve_named_entity};
use crate::model::{is_attribute_value, references, Machine};
use crate::strings::push_all;
use crate::tokenizer::HtmlTokenizer;
use crate::types::{token_of, State, Token};
use vstd::prelude::*;
use vstd::slice::slice_subrange;

verus! {

/// The reference that `name` begins with, where `semicolon` tells whether a
/// semicolon follows the name: its length, and what it stands for. The name is left
/// as it is.
fn best_match(name: &mut Vec<char>, semicolon: bool) -> (r: Option<
    (usize, (char, Option<char>)),
>)
    requires
        semicolon ==> old(name)@.len() < usize::MAX,
    ensures
        final(name)@ == old(name)@,
        match r {
            Some((n, v)) => references::best_match(old(name)@, semicolon) == Some((n as nat, v)),
            None => references::best_match(old(name)@, semicolon) is None,
        },
{
    if semicolon {
        name.push(';');
        let closed = resolve_named_entity(name.as_slice());
        name.pop();
        assert(name@ =~= old(name)@);
        if let Some(v) = closed {
            return Some((name.len() + 1, v));
        }
    }
    let mut n: usize = name.len();
    while n > 0
        invariant
            n <= name@.len(),
            name@ == old(name)@,
            semicolon ==> lookup(name@.push(';')) is None,
            references::longest_prefix(name@, name@.len()) == references::longest_prefix(
                name@,
                n as nat,
            ),
        decreases n,
    {
        assert(name@.subrange(0, n as int) =~= name@.take(n as int));
        if let Some(v) = resolve_named_entity(slice_subrange(name.as_slice(), 0, n)) {
            return Some((n, v));
        }
        n = n - 1;
    }
    None
}

/// Whether text is read from here as part of an attribute value.
fn in_attribute_value(state: State) -> (r: bool)
    ensures
        r == is_attribute_value(state),
{
    matches!(
        state,
        State::AttributeValueDoubleQuoted
        | State::AttributeValueSingleQuoted
        | State::AttributeValueUnquoted
    )
}

/// What Windows-1252 has at `code`, in the range where it differs from Unicode.
fn windows_1252(code: u32) -> (r: Option<char>)
    ensures
        r == references::windows_1252(code as int),
{
    match code {
        0x80 => Some('\u{20AC}'),
        0x82 => Some('\u{201A}'),
        0x83 => Some('\u{0192}'),
        0x84 => Some('\u{201E}'),
        0x85 => Some('\u{2026}'),
        0x86 => Some('\u{2020}'),
        0x87 => Some('\u{2021}'),
        0x88 => Some('\u{02C6}'),
        0x89 => Some('\u{2030}'),
        0x8A => Some('\u{0160}'),
        0x8B => Some('\u{2039}'),
        0x8C => Some('\u{0152}'),
        0x8E => Some('\u{017D}'),
        0x91 => Some('\u{2018}'),
        0x92 => Some('\u{2019}'),
        0x93 => Some('\u{201C}'),
        0x94 => Some('\u{201D}'),
        0x95 => Some('\u{2022}'),
        0x96 => Some('\u{2013}'),
        0x97 => Some('\u{2014}'),
        0x98 => Some('\u{02DC}'),
        0x99 => Some('\u{2122}'),
        0x9A => Some('\u{0161}'),
        0x9B => Some('\u{203A}'),
        0x9C => Some('\u{0153}'),
        0x9E => Some('\u{017E}'),
        0x9F => Some('\u{0178}'),
        _ => None,
    }
}

/// The code point that a numeric reference to `code` stands for.
fn decode(code: u32) -> (r: char)
    ensures
        r == references::decoded(code as int),
{
    match windows_1252(code) {
        Some(c) => c,
        None => if code == 0 {
            REPLACEMENT
        } else {
            char::from_u32(code).unwrap_or(REPLACEMENT)
        },
    }
}

/// The number `code` with one more digit in `base`, held at the largest `u32`.
fn with_digit(code: u32, base: u32, digit: u32) -> (r: u32)
    requires
        base > 0,
    ensures
        r == references::with_digit(code as int, base as int, digit as int),
{
    match code.checked_mul(base) {
        Some(n) => n.saturating_add(digit),
        None => u32::MAX,
    }
}

impl HtmlTokenizer {
    /// Goes back to the state that the reference was met in.
    fn return_from_reference(&mut self)
        ensures
            final(self)@ == references::returned(old(self)@),
    {
        self.state = self.return_state.take().unwrap_or(State::Data);
    }

    /// Adds `&` to the attribute value, or emits it, and goes on with what was read
    /// last.
    fn emit_ampersand_and_return(&mut self) -> (r: Option<Token>)
        ensures
            (final(self)@, token_of(r)) == references::deliver(
                references::returned(old(self)@).replaying(),
                seq!['&'],
            ),
    {
        self.return_from_reference();
        self.reconsume = true;
        self.emit_resolved('&', None)
    }

    /// Adds `&#` to the attribute value, or queues it, and goes on with what was read
    /// last.
    fn emit_ampersand_hash_and_return(&mut self) -> (r: Option<Token>)
        ensures
            (final(self)@, token_of(r)) == references::flush(
                references::returned(old(self)@).replaying(),
                seq!['&', '#'],
            ),
    {
        self.return_from_reference();
        self.reconsume = true;
        if in_attribute_value(self.state) {
            self.current_attr_value.push('&');
            self.current_attr_value.push('#');
            assert(self@.attr_value =~= old(self)@.attr_value + seq!['&', '#']);
        } else {
            self.queue('#');
            self.queue('&');
            assert(self@.pending =~= seq!['&', '#'] + old(self)@.pending);
        }
        None
    }

    /// Adds `&#x` to the attribute value, or queues it, and goes on with what was
    /// read last. The `x` is in the case in which it was read.
    fn emit_ampersand_hash_x_and_return(&mut self) -> (r: Option<Token>)
        ensures
            (final(self)@, token_of(r)) == references::flush(
                references::returned(old(self)@).replaying(),
                seq!['&', '#', old(self)@.hex_prefix],
            ),
    {
        let x = self.char_ref_hex_prefix;
        self.return_from_reference();
        self.reconsume = true;
        if in_attribute_value(self.state) {
            self.current_attr_value.push('&');
            self.current_attr_value.push('#');
            self.current_attr_value.push(x);
            assert(self@.attr_value =~= old(self)@.attr_value + seq!['&', '#', x]);
        } else {
            self.queue(x);
            self.queue('#');
            self.queue('&');
            assert(self@.pending =~= seq!['&', '#', x] + old(self)@.pending);
        }
        None
    }

    /// Adds one or two code points to the attribute value, or emits the first and
    /// queues the second.
    fn emit_resolved(&mut self, first: char, second: Option<char>) -> (r: Option<Token>)
        ensures
            (final(self)@, token_of(r)) == references::deliver(
                old(self)@,
                expansion((first, second)),
            ),
    {
        if in_attribute_value(self.state) {
            self.current_attr_value.push(first);
            if let Some(c) = second {
                self.current_attr_value.push(c);
            }
            assert(self@.attr_value =~= old(self)@.attr_value + expansion((first, second)));
            None
        } else {
            self.emit_multi_char(first, second)
        }
    }

    /// Emits `first` and queues `second`.
    fn emit_multi_char(&mut self, first: char, second: Option<char>) -> (r: Option<Token>)
        ensures
            (final(self)@, token_of(r)) == old(self)@.queue(
                expansion((first, second)).drop_first(),
            ).say(first),
    {
        if let Some(c) = second {
            self.queue(c);
        }
        assert(self@.pending =~= expansion((first, second)).drop_first() + old(self)@.pending);
        Some(Token::Character(first))
    }

    /// Adds `&` and the buffer to the attribute value, or queues them.
    fn flush_literal_ampersand_and_name(&mut self)
        ensures
            final(self)@ == references::flush(
                old(self)@.clear_buffer(),
                seq!['&'] + old(self)@.buffer,
            ).0,
    {
        if in_attribute_value(self.state) {
            self.current_attr_value.push('&');
            push_all(&mut self.current_attr_value, self.temporary_buffer.as_slice());
            assert(self@.attr_value =~= old(self)@.attr_value + (seq!['&'] + old(self)@.buffer));
        } else {
            self.queue_buffer();
            self.queue('&');
            assert(self@.pending =~= seq!['&'] + old(self)@.buffer + old(self)@.pending);
        }
        self.temporary_buffer.clear();
    }

    /// Character reference state, after `&`.
    pub(super) fn handle_character_reference_state(&mut self) -> (r: Option<Token>)
        requires
            old(self)@.wf(),
        ensures
            (final(self)@, token_of(r)) == references::character_reference(
                old(self)@.read(),
                old(self)@.next(),
            ),
    {
        match self.next_char() {
            Some('#') => {
                self.state = State::NumericCharacterReference;
                None
            },
            Some(c) if is_alphanumeric(c) => {
                self.state = State::NamedCharacterReference;
                self.reconsume = true;
                None
            },
            _ => self.emit_ampersand_and_return(),
        }
    }

    /// Reads the run of ASCII letters and digits that begins at the current position
    /// into the buffer.
    fn read_name(&mut self)
        requires
            0 <= old(self)@.pos <= old(self)@.input.len(),
        ensures
            final(self)@ == ({
                let m = old(self)@;
                let end = references::run_end(m.input, m.pos);
                Machine { pos: end, buffer: m.buffer + m.input.subrange(m.pos, end), ..m }
            }),
            old(self)@.pos <= final(self)@.pos <= final(self)@.input.len() <= usize::MAX,
    {
        let ghost m = self@;
        assert(m.buffer =~= m.buffer + m.input.subrange(m.pos, m.pos));
        while self.pos < self.input.len() && is_alphanumeric(self.input[self.pos])
            invariant
                0 <= m.pos <= self@.pos <= m.input.len(),
                references::run_end(m.input, m.pos) == references::run_end(m.input, self@.pos),
                self@ == (Machine {
                    pos: self@.pos,
                    buffer: m.buffer + m.input.subrange(m.pos, self@.pos),
                    ..m
                }),
            decreases m.input.len() - self@.pos,
        {
            let c = self.input[self.pos];
            self.temporary_buffer.push(c);
            self.pos = self.pos + 1;
            assert(self@.buffer =~= m.buffer + m.input.subrange(m.pos, self@.pos));
        }
        assert(self@.input.len() <= usize::MAX) by {
            assert(self.input.len() == self.input@.len());
        }
    }

    /// Named character reference state: as much is read as makes a name. Without a
    /// name that stands for something, everything is text.
    pub(super) fn handle_named_character_reference_state(&mut self) -> (r: Option<Token>)
        requires
            old(self)@.wf(),
        ensures
            (final(self)@, token_of(r)) == references::named(old(self)@.read(), old(self)@.next()),
    {
        self.temporary_buffer.clear();
        let first = self.next_char();
        let ghost m = old(self)@.read();
        if let Some(c) = first {
            self.temporary_buffer.push(c);
        }
        self.read_name();
        let ghost name = self@.buffer;
        let end = self.pos;
        assert(name =~= match first {
            Some(c) => seq![c] + m.input.subrange(m.pos, end as int),
            None => m.input.subrange(m.pos, end as int),
        });
        assert(name.len() <= end);
        proof {
            references::lemma_best_match(name, end < m.input.len() && m.input[end as int] == ';');
        }
        let semicolon = end < self.input.len() && self.input[end] == ';';
        let found = best_match(&mut self.temporary_buffer, semicolon);
        self.return_from_reference();
        match found {
            None => {
                self.flush_literal_ampersand_and_name();
                None
            },
            Some((n, (c, d))) => {
                let len = self.temporary_buffer.len();
                let start = end - len;
                self.pos = start + n;
                if in_attribute_value(self.state) && n <= len && self.pos < self.input.len() && (
                self.input[self.pos] == '=' || is_alphanumeric(self.input[self.pos])) {
                    self.temporary_buffer.truncate(n);
                    self.flush_literal_ampersand_and_name();
                    None
                } else {
                    self.temporary_buffer.clear();
                    self.emit_resolved(c, d)
                }
            },
        }
    }

    /// Ambiguous ampersand state.
    pub(super) fn handle_ambiguous_ampersand_state(&mut self) -> (r: Option<Token>)
        requires
            old(self)@.wf(),
        ensures
            (final(self)@, token_of(r)) == references::ambiguous_ampersand(
                old(self)@.read(),
                old(self)@.next(),
            ),
    {
        match self.next_char() {
            Some(c) if is_alphanumeric(c) => Some(Token::Character(c)),
            Some(';') => {
                self.return_from_reference();
                Some(Token::Character(';'))
            },
            Some(_) => {
                self.return_from_reference();
                self.reconsume = true;
                None
            },
            None => {
                self.return_from_reference();
                None
            },
        }
    }

    /// Numeric character reference state, after `&#`.
    pub(super) fn handle_numeric_character_reference_state(&mut self) -> (r: Option<Token>)
        requires
            old(self)@.wf(),
        ensures
            (final(self)@, token_of(r)) == references::numeric(
                old(self)@.read(),
                old(self)@.next(),
            ),
    {
        match self.next_char() {
            Some(c) if c == 'x' || c == 'X' => {
                self.character_reference_code = 0;
                self.char_ref_hex_prefix = c;
                self.state = State::HexCharacterReferenceStart;
                None
            },
            Some(c) if is_digit(c) => {
                self.character_reference_code = 0;
                self.state = State::DecimalCharacterReferenceStart;
                self.reconsume = true;
                None
            },
            _ => self.emit_ampersand_hash_and_return(),
        }
    }

    /// Hexadecimal character reference start state, after `&#x`.
    pub(super) fn handle_hex_character_reference_start_state(&mut self) -> (r: Option<Token>)
        requires
            old(self)@.wf(),
        ensures
            (final(self)@, token_of(r)) == references::hex_start(
                old(self)@.read(),
                old(self)@.next(),
            ),
    {
        match self.next_char() {
            Some(c) if is_hexdigit(c) => {
                self.state = State::HexCharacterReference;
                self.reconsume = true;
                None
            },
            _ => self.emit_ampersand_hash_x_and_return(),
        }
    }

    /// Decimal character reference start state.
    pub(super) fn handle_decimal_character_reference_start_state(&mut self) -> (r: Option<Token>)
        requires
            old(self)@.wf(),
        ensures
            (final(self)@, token_of(r)) == references::decimal_start(
                old(self)@.read(),
                old(self)@.next(),
            ),
    {
        match self.next_char() {
            Some(c) if is_digit(c) => {
                self.state = State::DecimalCharacterReference;
                self.reconsume = true;
                None
            },
            _ => self.emit_ampersand_hash_and_return(),
        }
    }

    /// Hexadecimal character reference state.
    pub(super) fn handle_hex_character_reference_state(&mut self) -> (r: Option<Token>)
        requires
            old(self)@.wf(),
        ensures
            (final(self)@, token_of(r)) == references::hex(old(self)@.read(), old(self)@.next()),
    {
        match self.next_char() {
            Some(c) if is_hexdigit(c) => {
                self.character_reference_code =
                with_digit(self.character_reference_code, 16, hex_digit_value(c));
                None
            },
            Some(';') => {
                self.state = State::NumericCharacterReferenceEnd;
                None
            },
            _ => {
                self.state = State::NumericCharacterReferenceEnd;
                self.reconsume = true;
                None
            },
        }
    }

    /// Decimal character reference state.
    pub(super) fn handle_decimal_character_reference_state(&mut self) -> (r: Option<Token>)
        requires
            old(self)@.wf(),
        ensures
            (final(self)@, token_of(r)) == references::decimal(
                old(self)@.read(),
                old(self)@.next(),
            ),
    {
        match self.next_char() {
            Some(c) if is_digit(c) => {
                self.character_reference_code =
                with_digit(self.character_reference_code, 10, hex_digit_value(c));
                None
            },
            Some(';') => {
                self.state = State::NumericCharacterReferenceEnd;
                None
            },
            _ => {
                self.state = State::NumericCharacterReferenceEnd;
                self.reconsume = true;
                None
            },
        }
    }

    /// Numeric character reference end state: what the number stands for is added to
    /// the attribute value or emitted. Nothing is read.
    pub(super) fn handle_numeric_character_reference_end_state(&mut self) -> (r: Option<Token>)
        requires
            old(self)@.wf(),
        ensures
            (final(self)@, token_of(r)) == references::numeric_end(old(self)@),
    {
        let c = decode(self.character_reference_code);
        self.character_reference_code = 0;
        self.return_from_reference();
        self.emit_resolved(c, None)
    }
}

} // verus!
