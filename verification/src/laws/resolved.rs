//! Text in which character references are resolved.

use crate::chars::{alphanumeric, digit, hexdigit, space, visible};
use crate::laws::raw::{
    at_end_tag, closes_at, content_of, is_closing, lemma_scan_step, scan_start, scannable, scanned,
    scanning,
};
use crate::laws::references::{
    behind, decimal_reference_is_decoded, digitless_hexadecimal_reference_is_text, found_name,
    hexadecimal_reference_is_decoded, lemma_run, lone_ampersand_is_text,
    named_reference_is_resolved, named_text, number, numberless_reference_is_text,
    reference_tokens, resumed, the_longest_name_is_found,
};
use crate::laws::stream::{loud_step, quiet_step, replaying_is_unreading, rested};
use crate::laws::tags::at_rest;
use crate::laws::text::{characters, emitted, lemma_step_of_text, visible_all};
use crate::model::progress::{lemma_step_advances, rank};
use crate::model::references::decoded;
use crate::model::runs::tokens;
use crate::model::{is_attribute_value, step, Machine};
use crate::types::{State, TokenView};
use vstd::prelude::*;

verus! {

/// Whether `c` is a digit, of a hexadecimal number or of a decimal one.
pub open spec fn is_figure(c: char, hex: bool) -> bool {
    if hex {
        hexdigit(c)
    } else {
        digit(c)
    }
}

/// The end of the run of digits that begins at `from`.
pub open spec fn figures_end(text: Seq<char>, from: int, hex: bool) -> int
    decreases text.len() - from,
{
    if 0 <= from < text.len() && is_figure(text[from], hex) {
        figures_end(text, from + 1, hex)
    } else {
        from
    }
}

/// The kinds of reference that an ampersand may open.
pub enum ReferenceKind {
    /// A name, or what might be one.
    Named,
    /// A decimal number.
    Decimal,
    /// A hexadecimal number.
    Hexadecimal,
    /// `&#` without a number.
    Numberless,
    /// `&#x` without a number.
    Digitless,
    /// Nothing.
    Lone,
}

/// What `text` makes of the ampersand before it.
pub open spec fn kind_of(text: Seq<char>) -> ReferenceKind {
    if text.len() > 0 && alphanumeric(text[0]) {
        ReferenceKind::Named
    } else if text.len() > 0 && text[0] == '#' {
        if text.len() > 1 && (text[1] == 'x' || text[1] == 'X') {
            if figures_end(text, 2, true) > 2 {
                ReferenceKind::Hexadecimal
            } else {
                ReferenceKind::Digitless
            }
        } else if figures_end(text, 1, false) > 1 {
            ReferenceKind::Decimal
        } else {
            ReferenceKind::Numberless
        }
    } else {
        ReferenceKind::Lone
    }
}

/// How much of `text` belongs to the reference that an ampersand before it opens, and
/// what the reference comes to.
pub open spec fn reference(text: Seq<char>, in_value: bool) -> (int, Seq<char>) {
    match kind_of(text) {
        ReferenceKind::Named => named_text(text, in_value),
        ReferenceKind::Decimal => {
            let end = figures_end(text, 1, false);
            (behind(text, end), seq![decoded(number(0, text.subrange(1, end), 10))])
        },
        ReferenceKind::Hexadecimal => {
            let end = figures_end(text, 2, true);
            (behind(text, end), seq![decoded(number(0, text.subrange(2, end), 16))])
        },
        ReferenceKind::Numberless => (1, seq!['&', '#']),
        ReferenceKind::Digitless => (2, seq!['&', '#', text[1]]),
        ReferenceKind::Lone => (0, seq!['&']),
    }
}

proof fn lemma_figures(text: Seq<char>, from: int, hex: bool)
    requires
        0 <= from <= text.len(),
    ensures
        from <= figures_end(text, from, hex) <= text.len(),
        forall|i: int|
            from <= i < figures_end(text, from, hex) ==> is_figure(#[trigger] text[i], hex),
        figures_end(text, from, hex) < text.len() ==> !is_figure(
            text[figures_end(text, from, hex)],
            hex,
        ),
    decreases text.len() - from,
{
    if from < text.len() && is_figure(text[from], hex) {
        lemma_figures(text, from + 1, hex);
    }
}

/// A reference reads nothing but ASCII letters and digits, `#` and `;`.
pub proof fn lemma_reference_reads(text: Seq<char>, in_value: bool)
    ensures
        ({
            let (n, out) = reference(text, in_value);
            0 <= n <= text.len() && forall|i: int|
                0 <= i < n ==> alphanumeric(#[trigger] text[i]) || text[i] == '#' || text[i] == ';'
        }),
{
    let (n, out) = reference(text, in_value);
    match kind_of(text) {
        ReferenceKind::Named => {
            lemma_run(text, 0);
            the_longest_name_is_found(text);
            if let Some((k, v)) = found_name(text) {
                assert forall|i: int| 0 <= i < k implies alphanumeric(#[trigger] text[i])
                    || text[i] == ';' by {
                    assert(text.take(k as int)[i] == text[i]);
                }
            }
        },
        ReferenceKind::Decimal => {
            lemma_figures(text, 1, false);
        },
        ReferenceKind::Hexadecimal => {
            lemma_figures(text, 2, true);
        },
        _ => {},
    }
}

/// Whether `n` is `m` at `pos`, up to what only serves to read references and end tags.
pub open spec fn moved(m: Machine, n: Machine, pos: int) -> bool {
    n == (Machine {
        pos,
        buffer: n.buffer,
        return_state: n.return_state,
        code: n.code,
        hex_prefix: n.hex_prefix,
        ..m
    })
}

/// An ampersand opens a reference, which comes to what it stands for.
pub proof fn reference_is_resolved(m: Machine) -> (n: Machine)
    requires
        at_rest(m),
        m.state == State::CharacterReference,
    ensures
        ({
            let in_value = m.return_state matches Some(s) && is_attribute_value(s);
            let (k, out) = reference(m.input.skip(m.pos), in_value);
            &&& at_rest(n)
            &&& moved(resumed(m, m.pos + k, out), n, m.pos + k)
            &&& tokens(m) == reference_tokens(m, out) + tokens(n)
        }),
{
    let in_value = m.return_state matches Some(s) && is_attribute_value(s);
    let text = m.input.skip(m.pos);
    let (k, out) = reference(text, in_value);
    lemma_reference_reads(text, in_value);
    let n = resumed(m, m.pos + k, out);
    match kind_of(text) {
        ReferenceKind::Named => {
            named_reference_is_resolved(m);
            n.clear_buffer()
        },
        ReferenceKind::Decimal => {
            let end = figures_end(text, 1, false);
            lemma_figures(text, 1, false);
            assert forall|i: int| m.pos + 1 <= i < m.pos + end implies digit(
                #[trigger] m.input[i],
            ) by {
                assert(m.input[i] == text[i - m.pos]);
            }
            assert(end < text.len() ==> m.input[m.pos + end] == text[end]);
            assert(m.input.subrange(m.pos + 1, m.pos + end) =~= text.subrange(1, end));
            decimal_reference_is_decoded(m, m.pos + end);
            Machine { code: 0, ..n }
        },
        ReferenceKind::Hexadecimal => {
            let end = figures_end(text, 2, true);
            lemma_figures(text, 2, true);
            assert forall|i: int| m.pos + 2 <= i < m.pos + end implies hexdigit(
                #[trigger] m.input[i],
            ) by {
                assert(m.input[i] == text[i - m.pos]);
            }
            assert(end < text.len() ==> m.input[m.pos + end] == text[end]);
            assert(m.input.subrange(m.pos + 2, m.pos + end) =~= text.subrange(2, end));
            hexadecimal_reference_is_decoded(m, m.pos + end);
            Machine { code: 0, hex_prefix: text[1], ..n }
        },
        ReferenceKind::Numberless => {
            lemma_figures(text, 1, false);
            numberless_reference_is_text(m);
            n
        },
        ReferenceKind::Digitless => {
            lemma_figures(text, 2, true);
            digitless_hexadecimal_reference_is_text(m);
            Machine { code: 0, hex_prefix: text[1], ..n }
        },
        ReferenceKind::Lone => {
            lone_ampersand_is_text(m);
            n
        },
    }
}

/// The text that `input` comes to from `from` to `to`, where references are resolved and
/// everything else is text: NUL is left as it is in data, and shows as U+FFFD elsewhere.
pub open spec fn resolved_text(state: State, input: Seq<char>, from: int, to: int) -> Seq<char>
    decreases
            if from < to {
                to - from
            } else {
                0
            },
{
    if 0 <= from < to <= input.len() {
        if input[from] == '&' {
            proof {
                lemma_reference_reads(input.skip(from + 1), false);
            }
            let (k, out) = reference(input.skip(from + 1), false);
            out + resolved_text(state, input, from + 1 + k, to)
        } else {
            let c = if state == State::Data {
                input[from]
            } else {
                visible(input[from])
            };
            seq![c] + resolved_text(state, input, from + 1, to)
        }
    } else {
        seq![]
    }
}

/// The machine behind the reference that `&` opens at `m.pos`.
proof fn lemma_ampersand(m: Machine, to: int) -> (n: Machine)
    requires
        at_rest(m),
        m.state == State::Data || m.state == State::RCDATA,
        m.pos < to <= m.input.len(),
        to < m.input.len() ==> m.input[to] == '<',
        m.input[m.pos] == '&',
    ensures
        ({
            let (k, out) = reference(m.input.skip(m.pos + 1), false);
            &&& at_rest(n)
            &&& m.pos < n.pos == m.pos + 1 + k <= to
            &&& moved(m, n, n.pos)
            &&& tokens(m) == characters(out) + tokens(n)
        }),
{
    let text = m.input.skip(m.pos + 1);
    let (k, out) = reference(text, false);
    lemma_reference_reads(text, false);
    if m.pos + 1 + k > to {
        assert(text[to - m.pos - 1] == m.input[to]);
    }
    let m1 = step(m).0;
    quiet_step(m);
    reference_is_resolved(m1)
}

/// Text up to the next `<`, or to the end of the input, is emitted with its references
/// resolved.
pub proof fn references_in_text_are_resolved(m: Machine, to: int) -> (n: Machine)
    requires
        at_rest(m),
        m.state == State::Data || m.state == State::RCDATA,
        m.pos <= to <= m.input.len(),
        forall|i: int| m.pos <= i < to ==> #[trigger] m.input[i] != '<',
        to < m.input.len() ==> m.input[to] == '<',
    ensures
        at_rest(n),
        moved(m, n, to),
        tokens(m) == characters(resolved_text(m.state, m.input, m.pos, to)) + tokens(n),
    decreases to - m.pos,
{
    let all = resolved_text(m.state, m.input, m.pos, to);
    if m.pos == to {
        assert(tokens(m) =~= characters(all) + tokens(m));
        m
    } else if m.input[m.pos] == '&' {
        let (k, out) = reference(m.input.skip(m.pos + 1), false);
        let m1 = lemma_ampersand(m, to);
        let n = references_in_text_are_resolved(m1, to);
        let rest = resolved_text(m.state, m.input, m1.pos, to);
        assert(characters(all) =~= characters(out) + characters(rest));
        assert(tokens(m) =~= characters(all) + tokens(n));
        n
    } else {
        let (m1, t) = step(m);
        assert(m.input[m.pos] != '<');
        loud_step(m);
        let n = references_in_text_are_resolved(m1, to);
        let rest = resolved_text(m.state, m.input, m1.pos, to);
        assert(all =~= emitted(t) + rest);
        lemma_step_of_text(m, all, rest, tokens(n));
        n
    }
}

/// A stretch without `&` comes to itself.
proof fn lemma_plain_stretch(state: State, input: Seq<char>, from: int, mid: int, to: int)
    requires
        0 <= from <= mid <= to <= input.len(),
        state != State::Data,
        forall|i: int| from <= i < mid ==> #[trigger] input[i] != '&',
    ensures
        resolved_text(state, input, from, to) == visible_all(input.subrange(from, mid))
            + resolved_text(state, input, mid, to),
    decreases mid - from,
{
    let head = visible_all(input.subrange(from, mid));
    if from == mid {
        assert(head + resolved_text(state, input, mid, to) =~= resolved_text(
            state,
            input,
            from,
            to,
        ));
    } else {
        assert(input[from] != '&');
        lemma_plain_stretch(state, input, from + 1, mid, to);
        let tail = visible_all(input.subrange(from + 1, mid));
        assert(head =~= seq![visible(input[from])] + tail);
        assert(resolved_text(state, input, from, to) =~= head + resolved_text(
            state,
            input,
            mid,
            to,
        ));
    }
}

/// One step through RCDATA that meets no reference.
proof fn lemma_rcdata_step(m: Machine, to: int)
    requires
        scanning(m),
        content_of(m.state) == Some(State::RCDATA),
        scannable(m),
        m.pending.len() == 0 ==> !is_closing(m),
        !step(m).0.done,
        scan_start(step(m).0) <= to <= m.input.len(),
    ensures
        ({
            let (n, t) = step(m);
            &&& scanned(m, n, t)
            &&& m.pending + resolved_text(State::RCDATA, m.input, scan_start(m), to) == emitted(t)
                + (n.pending + resolved_text(State::RCDATA, m.input, scan_start(n), to))
            &&& forall|i: int|
                scan_start(m) <= i < scan_start(n) ==> !#[trigger] closes_at(
                    m.input,
                    i,
                    m.end_tag_name,
                )
        }),
{
    let (n, t) = step(m);
    let from = scan_start(m);
    let mid = scan_start(n);
    lemma_scan_step(m);
    assert forall|i: int| from <= i < mid implies #[trigger] m.input[i] != '&' by {
        if m.state == State::RCDATAEndTagName && i >= from + 2 {
            assert(i < m.pos);
        }
    }
    lemma_plain_stretch(State::RCDATA, m.input, from, mid, to);
    assert(m.pending + resolved_text(State::RCDATA, m.input, from, to) =~= emitted(t) + (n.pending
        + resolved_text(State::RCDATA, m.input, mid, to)));
}

/// RCDATA is emitted with its references resolved up to the first end tag that closes
/// it, and that end tag is read as such.
pub proof fn rcdata_ends_with_its_end_tag(m: Machine, i: int) -> (n: Machine)
    requires
        scanning(m),
        content_of(m.state) == Some(State::RCDATA),
        scan_start(m) <= i,
        closes_at(m.input, i, m.end_tag_name),
        forall|j: int|
            scan_start(m) <= j < i ==> !#[trigger] closes_at(m.input, j, m.end_tag_name),
    ensures
        moved(at_end_tag(m, i), n, at_end_tag(m, i).pos),
        n.buffer == at_end_tag(m, i).buffer,
        tokens(m) == characters(
            m.pending + resolved_text(State::RCDATA, m.input, scan_start(m), i),
        ) + tokens(n),
    decreases m.left(), rank(m.state), m.pending.len(),
{
    let from = scan_start(m);
    let all = m.pending + resolved_text(State::RCDATA, m.input, from, i);
    lemma_step_advances(m);
    if m.pending.len() == 0 && is_closing(m) {
        assert(m =~= at_end_tag(m, i));
        assert(tokens(m) =~= characters(all) + tokens(m));
        m
    } else if scannable(m) {
        let (k, t) = step(m);
        lemma_scan_step(m);
        assert(scan_start(k) <= i);
        lemma_rcdata_step(m, i);
        let n = rcdata_ends_with_its_end_tag(k, i);
        assert(at_end_tag(k, i) == at_end_tag(m, i));
        let rest = k.pending + resolved_text(State::RCDATA, m.input, scan_start(k), i);
        lemma_step_of_text(m, all, rest, tokens(n));
        n
    } else {
        replaying_is_unreading(m);
        let r = rested(m);
        let (k, out) = reference(m.input.skip(r.pos + 1), false);
        let m1 = lemma_ampersand(r, i);
        let n = rcdata_ends_with_its_end_tag(m1, i);
        let rest = resolved_text(State::RCDATA, m.input, m1.pos, i);
        assert(m1.pending + rest =~= rest);
        assert(all =~= out + rest);
        assert(characters(all) =~= characters(out) + characters(rest));
        assert(tokens(m) =~= characters(all) + tokens(n));
        n
    }
}

/// RCDATA that nothing closes is emitted with its references resolved to the end of the
/// input.
pub proof fn unclosed_rcdata_is_resolved(m: Machine)
    requires
        scanning(m),
        content_of(m.state) == Some(State::RCDATA),
        forall|j: int| scan_start(m) <= j ==> !#[trigger] closes_at(m.input, j, m.end_tag_name),
    ensures
        tokens(m) == characters(
            m.pending + resolved_text(
                State::RCDATA,
                m.input,
                scan_start(m),
                m.input.len() as int,
            ),
        ).push(TokenView::EOF),
    decreases m.left(), rank(m.state), m.pending.len(),
{
    let from = scan_start(m);
    let to = m.input.len() as int;
    let all = m.pending + resolved_text(State::RCDATA, m.input, from, to);
    let (k, t) = step(m);
    lemma_step_advances(m);
    assert(!closes_at(m.input, from, m.end_tag_name));
    if scannable(m) {
        lemma_scan_step(m);
        if k.done {
            loud_step(m);
            assert(tokens(m) =~= characters(all).push(TokenView::EOF));
        } else {
            lemma_rcdata_step(m, to);
            unclosed_rcdata_is_resolved(k);
            let rest = k.pending + resolved_text(State::RCDATA, m.input, scan_start(k), to);
            assert(tokens(k) =~= characters(rest) + seq![TokenView::EOF]);
            lemma_step_of_text(m, all, rest, seq![TokenView::EOF]);
            assert(tokens(m) =~= characters(all).push(TokenView::EOF));
        }
    } else {
        replaying_is_unreading(m);
        let r = rested(m);
        let (_, out) = reference(m.input.skip(r.pos + 1), false);
        let m1 = lemma_ampersand(r, to);
        unclosed_rcdata_is_resolved(m1);
        let rest = resolved_text(State::RCDATA, m.input, m1.pos, to);
        assert(m1.pending + rest =~= rest);
        assert(all =~= out + rest);
        assert(characters(all) =~= characters(out) + characters(rest));
        assert(tokens(m) =~= characters(all).push(TokenView::EOF));
    }
}

/// Whether `c` ends an attribute value that is read in `state`.
pub open spec fn ends_value(state: State, c: char) -> bool {
    match state {
        State::AttributeValueDoubleQuoted => c == '"',
        State::AttributeValueSingleQuoted => c == '\'',
        _ => space(c) || c == '>',
    }
}

/// The value that `input` comes to from `from` to `to`, where references are resolved
/// and NUL shows as U+FFFD.
pub open spec fn resolved_value(input: Seq<char>, from: int, to: int) -> Seq<char>
    decreases
            if from < to {
                to - from
            } else {
                0
            },
{
    if 0 <= from < to <= input.len() {
        if input[from] == '&' {
            proof {
                lemma_reference_reads(input.skip(from + 1), true);
            }
            let (k, out) = reference(input.skip(from + 1), true);
            out + resolved_value(input, from + 1 + k, to)
        } else {
            seq![visible(input[from])] + resolved_value(input, from + 1, to)
        }
    } else {
        seq![]
    }
}

/// The machine behind the reference that `&` opens at `m.pos` in an attribute value.
proof fn lemma_ampersand_in_value(m: Machine, to: int) -> (n: Machine)
    requires
        at_rest(m),
        is_attribute_value(m.state),
        m.pos < to <= m.input.len(),
        to < m.input.len() ==> ends_value(m.state, m.input[to]),
        m.input[m.pos] == '&',
    ensures
        ({
            let (k, out) = reference(m.input.skip(m.pos + 1), true);
            &&& at_rest(n)
            &&& m.pos < n.pos == m.pos + 1 + k <= to
            &&& moved(Machine { attr_value: m.attr_value + out, ..m }, n, n.pos)
            &&& tokens(m) == tokens(n)
        }),
{
    let text = m.input.skip(m.pos + 1);
    let (k, out) = reference(text, true);
    lemma_reference_reads(text, true);
    if m.pos + 1 + k > to {
        assert(text[to - m.pos - 1] == m.input[to]);
    }
    let m1 = step(m).0;
    quiet_step(m);
    let n = reference_is_resolved(m1);
    assert(reference_tokens(m1, out) + tokens(n) =~= tokens(n));
    n
}

/// An attribute value is read with its references resolved, up to what ends it or to the
/// end of the input. No token comes of it.
pub proof fn references_in_values_are_resolved(m: Machine, to: int) -> (n: Machine)
    requires
        at_rest(m),
        is_attribute_value(m.state),
        m.pos <= to <= m.input.len(),
        forall|i: int| m.pos <= i < to ==> !ends_value(m.state, #[trigger] m.input[i]),
        to < m.input.len() ==> ends_value(m.state, m.input[to]),
    ensures
        at_rest(n),
        moved(
            Machine { attr_value: m.attr_value + resolved_value(m.input, m.pos, to), ..m },
            n,
            to,
        ),
        tokens(m) == tokens(n),
    decreases to - m.pos,
{
    let all = resolved_value(m.input, m.pos, to);
    if m.pos == to {
        assert(m.attr_value + all =~= m.attr_value);
        m
    } else if m.input[m.pos] == '&' {
        let m2 = lemma_ampersand_in_value(m, to);
        let n = references_in_values_are_resolved(m2, to);
        assert(m.attr_value + all =~= m2.attr_value + resolved_value(m.input, m2.pos, to));
        n
    } else {
        let m1 = step(m).0;
        assert(!ends_value(m.state, m.input[m.pos]));
        quiet_step(m);
        let n = references_in_values_are_resolved(m1, to);
        assert(m.attr_value + all =~= m1.attr_value + resolved_value(m.input, m1.pos, to));
        n
    }
}

} // verus!
