//! Text that is emitted as it stands.

use crate::chars::visible;
use crate::laws::stream::{loud_step, quiet_step};
use crate::model::progress::lemma_step_advances;
use crate::model::runs::tokens;
use crate::model::{step, Machine};
use crate::types::{State, TokenView};
use vstd::prelude::*;

verus! {

/// The token for the code point `c`.
pub open spec fn character(c: char) -> TokenView {
    TokenView::Character(c)
}

/// One token for each code point of `s`.
pub open spec fn characters(s: Seq<char>) -> Seq<TokenView> {
    Seq::new(s.len(), |i: int| character(s[i]))
}

/// `s`, with each NUL replaced by U+FFFD.
pub open spec fn visible_all(s: Seq<char>) -> Seq<char> {
    Seq::new(s.len(), |i: int| visible(s[i]))
}

/// Text of one code point, or none.
pub open spec fn emitted(t: Option<TokenView>) -> Seq<char> {
    match t {
        Some(TokenView::Character(c)) => seq![c],
        _ => seq![],
    }
}

/// Where a step emits the beginning of `text` or nothing, and `rest` comes after it,
/// `text` comes in all.
pub proof fn lemma_step_of_text(m: Machine, text: Seq<char>, rest: Seq<char>, tail: Seq<TokenView>)
    requires
        m.wf(),
        !m.done,
        step(m).1 matches Some(t) ==> t is Character,
        text == emitted(step(m).1) + rest,
        tokens(step(m).0) == characters(rest) + tail,
    ensures
        tokens(m) == characters(text) + tail,
{
    match step(m).1 {
        Some(t) => {
            loud_step(m);
            assert(characters(text) =~= seq![t] + characters(rest));
            assert(tokens(m) =~= characters(text) + tail);
        },
        None => {
            quiet_step(m);
            assert(text =~= rest);
        },
    }
}

/// Pending text is emitted before everything else.
pub proof fn pending_text_comes_first(m: Machine)
    requires
        m.wf(),
        !m.done,
    ensures
        tokens(m) == characters(m.pending) + tokens(Machine { pending: seq![], ..m }),
    decreases m.pending.len(),
{
    if m.pending.len() == 0 {
        assert(m.pending =~= seq![]);
        assert(tokens(m) =~= characters(m.pending) + tokens(m));
    } else {
        let n = step(m).0;
        lemma_step_advances(m);
        pending_text_comes_first(n);
        assert(m.pending =~= seq![m.pending[0]] + n.pending);
        lemma_step_of_text(m, m.pending, n.pending, tokens(Machine { pending: seq![], ..m }));
    }
}

/// What `c` is emitted as, where `state` takes it for mere text.
pub open spec fn literal(state: State, c: char) -> Option<char> {
    match state {
        State::Data => if c == '&' || c == '<' {
            None
        } else {
            Some(c)
        },
        State::RCDATA => if c == '&' || c == '<' {
            None
        } else {
            Some(visible(c))
        },
        State::RAWTEXT | State::ScriptData => if c == '<' {
            None
        } else {
            Some(visible(c))
        },
        State::PLAINTEXT => Some(visible(c)),
        State::CDATASection => if c == ']' {
            None
        } else {
            Some(c)
        },
        _ => None,
    }
}

/// What `s` is emitted as, code point by code point.
pub open spec fn literal_all(state: State, s: Seq<char>) -> Seq<char> {
    Seq::new(s.len(), |i: int| literal(state, s[i])->0)
}

/// Mere text up to `end` is emitted as it stands, and reading goes on behind it: in
/// data everything but `&` and `<`, in PLAINTEXT simply everything.
pub proof fn text_is_literal(m: Machine, end: int)
    requires
        m.wf(),
        !m.done,
        !m.reconsume,
        m.pending.len() == 0,
        m.pos <= end <= m.input.len(),
        forall|i: int| m.pos <= i < end ==> literal(m.state, #[trigger] m.input[i]) is Some,
    ensures
        tokens(m) == characters(literal_all(m.state, m.input.subrange(m.pos, end))) + tokens(
            Machine { pos: end, at_end: m.at_end && m.pos == end, ..m },
        ),
    decreases end - m.pos,
{
    let text = literal_all(m.state, m.input.subrange(m.pos, end));
    if m.pos == end {
        assert(Machine { pos: end, at_end: m.at_end && m.pos == end, ..m } == m);
        assert(tokens(m) =~= characters(text) + tokens(m));
    } else {
        let n = step(m).0;
        assert(literal(m.state, m.input[m.pos]) is Some);
        assert(step(m) == m.read().say(literal(m.state, m.input[m.pos])->0));
        loud_step(m);
        text_is_literal(n, end);
        let rest = literal_all(m.state, m.input.subrange(m.pos + 1, end));
        assert(characters(text) =~= seq![step(m).1->0] + characters(rest));
        assert(Machine { pos: end, at_end: m.at_end && m.pos == end, ..m } == Machine {
            pos: end,
            at_end: n.at_end && n.pos == end,
            ..n
        });
        assert(tokens(m) =~= characters(text) + tokens(
            Machine { pos: end, at_end: m.at_end && m.pos == end, ..m },
        ));
    }
}

/// At the end of the input, mere text is followed by the end-of-file token.
pub proof fn text_ends(m: Machine)
    requires
        m.wf(),
        !m.done,
        m.pending.len() == 0,
        m.next() is None,
        m.state == State::Data || literal(m.state, 'a') is Some,
    ensures
        tokens(m) == seq![TokenView::EOF],
{
    loud_step(m);
    assert(tokens(m) =~= seq![TokenView::EOF]);
}

/// In PLAINTEXT everything that is left of the input is text.
pub proof fn plaintext_is_literal(m: Machine)
    requires
        m.wf(),
        !m.done,
        !m.reconsume,
        m.pending.len() == 0,
        m.state == State::PLAINTEXT,
    ensures
        tokens(m) == characters(visible_all(m.input.skip(m.pos))).push(TokenView::EOF),
{
    let end = m.input.len() as int;
    text_is_literal(m, end);
    let n = Machine { pos: end, at_end: m.at_end && m.pos == end, ..m };
    text_ends(n);
    assert(characters(literal_all(m.state, m.input.subrange(m.pos, end))) =~= characters(
        visible_all(m.input.skip(m.pos)),
    ));
    assert(tokens(m) =~= characters(visible_all(m.input.skip(m.pos))).push(TokenView::EOF));
}

/// An input without `&` and `<` is emitted as it stands.
pub proof fn plain_input_is_literal(input: Seq<char>)
    requires
        forall|i: int| 0 <= i < input.len() ==> #[trigger] input[i] != '&' && input[i] != '<',
    ensures
        tokens(Machine::initial(input)) == characters(input).push(TokenView::EOF),
{
    let m = Machine::initial(input);
    let end = input.len() as int;
    text_is_literal(m, end);
    text_ends(Machine { pos: end, ..m });
    assert(characters(literal_all(m.state, m.input.subrange(0, end))) =~= characters(input));
    assert(tokens(m) =~= characters(input).push(TokenView::EOF));
}

} // verus!
