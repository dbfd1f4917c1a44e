//! CDATA sections are text up to `]]>`.

use crate::laws::stream::{loud_step, quiet_step};
use crate::laws::text::{characters, emitted, lemma_step_of_text};
use crate::model::progress::{lemma_step_advances, rank};
use crate::model::runs::tokens;
use crate::model::{step, Machine};
use crate::types::{State, TokenView};
use vstd::prelude::*;

verus! {

/// Whether the input holds `]]>` at `i`.
pub open spec fn closes_section(input: Seq<char>, i: int) -> bool {
    0 <= i && i + 2 < input.len() && input[i] == ']' && input[i + 1] == ']' && input[i + 2] == '>'
}

/// Whether the machine is in a CDATA section, and its state agrees with the brackets
/// that it has read.
pub open spec fn in_section(m: Machine) -> bool {
    &&& m.wf()
    &&& !m.done
    &&& match m.state {
        State::CDATASection => true,
        State::CDATASectionBracket => !m.reconsume && m.pos >= 1 && m.input[m.pos - 1] == ']',
        State::CDATASectionEnd => !m.reconsume && m.pos >= 2 && m.input[m.pos - 2] == ']'
            && m.input[m.pos - 1] == ']',
        _ => false,
    }
}

/// Where the text begins that is yet to be emitted.
pub open spec fn section_start(m: Machine) -> int {
    match m.state {
        State::CDATASectionBracket => m.pos - 1,
        State::CDATASectionEnd => m.pos - 2,
        _ => if m.reconsume && !m.at_end {
            m.pos - 1
        } else {
            m.pos
        },
    }
}

/// The machine behind the `]]>` at `i`.
pub open spec fn behind_section(m: Machine, i: int) -> Machine {
    Machine {
        pos: i + 3,
        state: State::Data,
        pending: seq![],
        reconsume: false,
        at_end: false,
        ..m
    }
}

/// One step through a section that does not close it: the text between is emitted or
/// pending.
proof fn lemma_section_step(m: Machine)
    requires
        in_section(m),
        !closes_section(m.input, section_start(m)),
        !step(m).0.done,
    ensures
        ({
            let (n, t) = step(m);
            let start = section_start(m);
            let next = section_start(n);
            &&& in_section(n)
            &&& n.input == m.input
            &&& t matches Some(t) ==> t is Character
            &&& start <= next <= m.input.len()
            &&& m.pending + m.input.subrange(start, next) == emitted(t) + n.pending
            &&& forall|i: int| #![all_triggers] behind_section(n, i) == behind_section(m, i)
            &&& forall|i: int|
                start <= i < next ==> !#[trigger] closes_section(m.input, i)
        }),
{
    let (n, t) = step(m);
    lemma_step_advances(m);
    assert(m.pending + m.input.subrange(section_start(m), section_start(n)) =~= emitted(t)
        + n.pending);
}

/// A CDATA section is emitted as it stands up to the first `]]>`, behind which reading
/// goes on in the data state.
pub proof fn section_is_literal(m: Machine, i: int)
    requires
        in_section(m),
        section_start(m) <= i,
        closes_section(m.input, i),
        forall|j: int| section_start(m) <= j < i ==> !closes_section(m.input, j),
    ensures
        tokens(m) == characters(m.pending + m.input.subrange(section_start(m), i)) + tokens(
            behind_section(m, i),
        ),
    decreases m.left(), rank(m.state), m.pending.len(),
{
    let (n, t) = step(m);
    let start = section_start(m);
    let all = m.pending + m.input.subrange(start, i);
    lemma_step_advances(m);
    if m.pending.len() == 0 && m.state == State::CDATASectionEnd && start == i {
        quiet_step(m);
        assert(n == behind_section(m, i));
        assert(tokens(m) =~= characters(all) + tokens(n));
    } else if start == i {
        assert(section_start(n) == start);
        section_is_literal(n, i);
        let rest = n.pending + n.input.subrange(start, i);
        assert(all =~= emitted(t) + rest);
        lemma_step_of_text(m, all, rest, tokens(behind_section(m, i)));
    } else {
        lemma_section_step(m);
        assert(section_start(n) <= i);
        section_is_literal(n, i);
        assert(behind_section(n, i) == behind_section(m, i));
        let rest = n.pending + n.input.subrange(section_start(n), i);
        assert(m.input.subrange(start, i) =~= m.input.subrange(start, section_start(n))
            + m.input.subrange(section_start(n), i));
        assert(all =~= emitted(t) + rest);
        lemma_step_of_text(m, all, rest, tokens(behind_section(m, i)));
    }
}

/// A CDATA section without `]]>` is emitted as it stands to the end of the input.
pub proof fn open_section_is_literal(m: Machine)
    requires
        in_section(m),
        forall|j: int| section_start(m) <= j ==> !closes_section(m.input, j),
    ensures
        tokens(m) == characters(m.pending + m.input.skip(section_start(m))).push(TokenView::EOF),
    decreases m.left(), rank(m.state), m.pending.len(),
{
    let (n, t) = step(m);
    let start = section_start(m);
    lemma_step_advances(m);
    let all = m.pending + m.input.skip(start);
    if n.done {
        loud_step(m);
        assert(tokens(m) =~= characters(all).push(TokenView::EOF));
    } else {
        assert(!closes_section(m.input, start));
        lemma_section_step(m);
        open_section_is_literal(n);
        let rest = n.pending + n.input.skip(section_start(n));
        assert(m.input.skip(start) =~= m.input.subrange(start, section_start(n))
            + m.input.skip(section_start(n)));
        assert(all =~= emitted(t) + rest);
        assert(tokens(n) =~= characters(rest) + seq![TokenView::EOF]);
        lemma_step_of_text(m, all, rest, seq![TokenView::EOF]);
        assert(tokens(m) =~= characters(all).push(TokenView::EOF));
    }
}

} // verus!
