//! Processing instructions, from their text.

use crate::chars::{alphabetic, alphanumeric, space, visible};
use crate::laws::comments::bogus_comment_ends_at_greater_than;
use crate::laws::openings::{behind_bogus, is_first_close};
use crate::laws::stream::{loud_step, quiet_step, replaying_is_unreading, rested};
use crate::laws::tags::at_rest;
use crate::laws::text::visible_all;
use crate::laws::tidy::is_target;
use crate::model::instructions::disallowed;
use crate::model::progress::{lemma_step_advances, rank};
use crate::model::runs::tokens;
use crate::model::{step, Machine};
use crate::types::{State, TokenView};
use vstd::prelude::*;

verus! {

/// `s` without the question mark at its end, where it has one.
pub open spec fn without_question(s: Seq<char>) -> Seq<char> {
    if s.len() > 0 && s.last() == '?' {
        s.drop_last()
    } else {
        s
    }
}

/// Whether the machine reads the data of an instruction, which begins at `start`.
pub open spec fn instructing(m: Machine, start: int) -> bool {
    let here = rested(m).pos;
    &&& m.wf()
    &&& !m.done
    &&& m.pending.len() == 0
    &&& 0 <= start <= here
    &&& m.instruction matches Some((_, data)) && match m.state {
        State::ProcessingInstructionData => {
            &&& data == m.input.subrange(start, here)
            &&& here > start && m.input[here - 1] == '?' ==> here < m.input.len() && m.input[here]
                != '>'
        },
        State::ProcessingInstructionQuestionable => {
            &&& !m.reconsume
            &&& here > start
            &&& data.push('?') == m.input.subrange(start, here)
        },
        _ => false,
    }
}

/// The machine behind an instruction that `>` closes at `i`.
pub open spec fn behind_instruction(m: Machine, i: int) -> Machine {
    Machine {
        pos: i + 1,
        state: State::Data,
        instruction: None,
        reconsume: false,
        at_end: false,
        ..m
    }
}

/// The data of an instruction extend to the first `>`, without a question mark just
/// before it.
pub proof fn instruction_ends_at_greater_than(m: Machine, start: int, i: int)
    requires
        instructing(m, start),
        rested(m).pos <= i < m.input.len(),
        m.input[i] == '>',
        forall|j: int| start <= j < i ==> #[trigger] m.input[j] != '>',
    ensures
        tokens(m) == seq![
            TokenView::ProcessingInstruction {
                target: (m.instruction->0).0,
                data: without_question(m.input.subrange(start, i)),
            },
        ] + tokens(behind_instruction(m, i)),
    decreases m.left(), rank(m.state),
{
    let here = rested(m).pos;
    let (n, t) = step(m);
    lemma_step_advances(m);
    let data = (m.instruction->0).1;
    let text = m.input.subrange(start, i);
    if here == i {
        loud_step(m);
        if m.state == State::ProcessingInstructionQuestionable {
            assert(text.last() == '?');
            assert(text.drop_last() =~= data);
        } else if text.len() > 0 {
            assert(text.last() == m.input[here - 1]);
        }
        assert(n == behind_instruction(m, i));
    } else {
        assert(m.input[here] != '>');
        quiet_step(m);
        assert(m.input.subrange(start, here + 1) =~= m.input.subrange(start, here).push(
            m.input[here],
        ));
        if m.state == State::ProcessingInstructionQuestionable {
            assert(m.input.subrange(start, here).last() == '?');
        }
        assert(instructing(n, start));
        instruction_ends_at_greater_than(n, start, i);
        assert(behind_instruction(n, i) == behind_instruction(m, i));
    }
}

/// The target of an instruction is read up to `end` into the buffer.
pub(crate) proof fn lemma_target(m: Machine, end: int)
    requires
        at_rest(m),
        m.state == State::ProcessingInstructionTarget,
        m.pos <= end <= m.input.len(),
        is_target(m.input.subrange(m.pos, end)),
    ensures
        tokens(m) == tokens(
            Machine { pos: end, buffer: m.buffer + m.input.subrange(m.pos, end), ..m },
        ),
    decreases end - m.pos,
{
    let rest = m.input.subrange(m.pos, end);
    if m.pos == end {
        assert(m.buffer + rest =~= m.buffer);
    } else {
        let n = step(m).0;
        assert(rest[0] == m.input[m.pos]);
        quiet_step(m);
        let tail = m.input.subrange(n.pos, end);
        assert forall|i: int| 0 <= i < tail.len() implies alphanumeric(#[trigger] tail[i])
            || tail[i] == '-' || tail[i] == '_' by {
            assert(tail[i] == rest[i + 1]);
        }
        lemma_target(n, end);
        assert(n.buffer + tail =~= m.buffer + rest);
    }
}

/// Space between the target and the data is skipped.
pub(crate) proof fn lemma_space(m: Machine, end: int)
    requires
        at_rest(m),
        m.state == State::AfterProcessingInstructionTarget,
        m.pos <= end <= m.input.len(),
        forall|i: int| m.pos <= i < end ==> space(#[trigger] m.input[i]),
    ensures
        tokens(m) == tokens(Machine { pos: end, ..m }),
    decreases end - m.pos,
{
    if m.pos < end {
        assert(space(m.input[m.pos]));
        quiet_step(m);
        lemma_space(step(m).0, end);
    }
}

/// `<?` in data opens an instruction: the target reaches up to `end`, the data from
/// `start`, behind the space that follows the target, to the first `>`, which is at `i`.
pub proof fn instruction_is_emitted(m: Machine, end: int, start: int, i: int)
    requires
        at_rest(m),
        m.state == State::Data,
        m.pos + 2 < end <= start <= i < m.input.len(),
        m.input[m.pos] == '<',
        m.input[m.pos + 1] == '?',
        alphabetic(m.input[m.pos + 2]) || m.input[m.pos + 2] == '_',
        is_target(m.input.subrange(m.pos + 2, end)),
        !disallowed(m.input.subrange(m.pos + 2, end)),
        end < start || m.input[end] == '?' || m.input[end] == '>',
        forall|j: int| end <= j < start ==> space(#[trigger] m.input[j]),
        !space(m.input[start]),
        m.input[i] == '>',
        forall|j: int| start <= j < i ==> #[trigger] m.input[j] != '>',
    ensures
        tokens(m) == seq![
            TokenView::ProcessingInstruction {
                target: m.input.subrange(m.pos + 2, end),
                data: without_question(m.input.subrange(start, i)),
            },
        ] + tokens(behind_instruction(m, i).clear_buffer()),
{
    let target = m.input.subrange(m.pos + 2, end);
    let m1 = step(m).0;
    quiet_step(m);
    let m2 = step(m1).0;
    quiet_step(m1);
    let m3 = step(m2).0;
    quiet_step(m2);
    replaying_is_unreading(m3);
    let m4 = rested(m3);
    assert(m4.state == State::ProcessingInstructionTarget && m4.pos == m.pos + 2);
    lemma_target(m4, end);
    assert(m4.buffer + target =~= target);
    let m5 = Machine { pos: end, buffer: target, ..m4 };
    assert(end < start ==> space(m.input[end]));
    let m6 = step(m5).0;
    quiet_step(m5);
    replaying_is_unreading(m6);
    let m7 = rested(m6);
    lemma_space(m7, start);
    let m8 = Machine { pos: start, ..m7 };
    let m9 = step(m8).0;
    quiet_step(m8);
    assert(m.input.subrange(start, start) =~= seq![]);
    assert(instructing(m9, start));
    instruction_ends_at_greater_than(m9, start, i);
    assert(behind_instruction(m9, i) =~= behind_instruction(m, i).clear_buffer());
}

/// The machine before the target of an instruction that `<?` opens in data.
proof fn lemma_opened(m: Machine) -> (n: Machine)
    requires
        at_rest(m),
        m.state == State::Data,
        m.pos + 2 < m.input.len(),
        m.input[m.pos] == '<',
        m.input[m.pos + 1] == '?',
    ensures
        n == (Machine {
            pos: m.pos + 2,
            state: State::ProcessingInstructionOpen,
            buffer: seq![],
            ..m
        }),
        tokens(m) == tokens(n),
{
    let m1 = step(m).0;
    quiet_step(m);
    let m2 = step(m1).0;
    quiet_step(m1);
    m2
}

/// The machine that has read the target of an instruction up to `end`.
proof fn lemma_target_read(m: Machine, end: int) -> (n: Machine)
    requires
        at_rest(m),
        m.state == State::Data,
        m.pos + 2 < end <= m.input.len(),
        m.input[m.pos] == '<',
        m.input[m.pos + 1] == '?',
        alphabetic(m.input[m.pos + 2]) || m.input[m.pos + 2] == '_',
        is_target(m.input.subrange(m.pos + 2, end)),
    ensures
        n == (Machine {
            pos: end,
            state: State::ProcessingInstructionTarget,
            buffer: m.input.subrange(m.pos + 2, end),
            ..m
        }),
        tokens(m) == tokens(n),
{
    let m1 = lemma_opened(m);
    let k = step(m1).0;
    quiet_step(m1);
    replaying_is_unreading(k);
    let m2 = rested(k);
    lemma_target(m2, end);
    assert(m2.buffer + m.input.subrange(m.pos + 2, end) =~= m.input.subrange(m.pos + 2, end));
    Machine { pos: end, buffer: m.input.subrange(m.pos + 2, end), ..m2 }
}

/// What `<?` opens is a comment to the first `>`, which holds `?` and everything behind it,
/// where no target follows: its first code point is neither a letter nor `_`.
pub proof fn instruction_without_target_is_a_comment(m: Machine, i: int)
    requires
        at_rest(m),
        m.state == State::Data,
        m.pos + 2 < m.input.len(),
        m.input[m.pos] == '<',
        m.input[m.pos + 1] == '?',
        !alphabetic(m.input[m.pos + 2]) && m.input[m.pos + 2] != '_',
        is_first_close(m.input, m.pos + 2, i),
    ensures
        tokens(m) == seq![
            TokenView::Comment(seq!['?'] + visible_all(m.input.subrange(m.pos + 2, i))),
        ] + tokens(behind_bogus(m, i).clear_buffer()),
{
    let m1 = lemma_opened(m);
    let k = step(m1).0;
    quiet_step(m1);
    replaying_is_unreading(k);
    let n = rested(k);
    assert(n.comment =~= seq!['?']);
    bogus_comment_ends_at_greater_than(n, i);
}

/// The same where what follows is not a target to its end, or is `xml` or `xml-stylesheet` in
/// any case.
pub proof fn instruction_with_bad_target_is_a_comment(m: Machine, end: int, i: int)
    requires
        at_rest(m),
        m.state == State::Data,
        m.pos + 2 < end < m.input.len(),
        m.input[m.pos] == '<',
        m.input[m.pos + 1] == '?',
        alphabetic(m.input[m.pos + 2]) || m.input[m.pos + 2] == '_',
        is_target(m.input.subrange(m.pos + 2, end)),
        ({
            let c = m.input[end];
            let ends = space(c) || c == '?' || c == '>';
            &&& ends ==> disallowed(m.input.subrange(m.pos + 2, end))
            &&& !ends ==> !alphanumeric(c) && c != '-' && c != '_'
        }),
        is_first_close(m.input, end, i),
    ensures
        tokens(m) == seq![
            TokenView::Comment(seq!['?'] + visible_all(m.input.subrange(m.pos + 2, i))),
        ] + tokens(behind_bogus(m, i).clear_buffer()),
{
    let target = m.input.subrange(m.pos + 2, end);
    let m1 = lemma_target_read(m, end);
    let k = step(m1).0;
    quiet_step(m1);
    replaying_is_unreading(k);
    let n = rested(k);
    assert(n.comment =~= seq!['?'] + target);
    bogus_comment_ends_at_greater_than(n, i);
    assert(n.comment + visible_all(m.input.subrange(end, i)) =~= seq!['?'] + visible_all(
        m.input.subrange(m.pos + 2, i),
    )) by {
        assert forall|j: int| m.pos + 2 <= j < end implies visible(#[trigger] m.input[j])
            == m.input[j] by {
            assert(target[j - m.pos - 2] == m.input[j]);
        }
    }
}

/// An instruction whose target reaches to the end of the input is dropped.
pub proof fn cut_off_target_is_dropped(m: Machine)
    requires
        at_rest(m),
        m.state == State::Data,
        m.pos + 2 < m.input.len(),
        m.input[m.pos] == '<',
        m.input[m.pos + 1] == '?',
        alphabetic(m.input[m.pos + 2]) || m.input[m.pos + 2] == '_',
        is_target(m.input.skip(m.pos + 2)),
    ensures
        tokens(m) == seq![TokenView::EOF],
{
    let end = m.input.len() as int;
    assert(m.input.skip(m.pos + 2) =~= m.input.subrange(m.pos + 2, end));
    let n = lemma_target_read(m, end);
    loud_step(n);
    assert(tokens(m) =~= seq![TokenView::EOF]);
}

/// The data of an instruction that no `>` closes are dropped.
proof fn lemma_cut_off_data(m: Machine)
    requires
        m.wf(),
        !m.done,
        m.pending.len() == 0,
        m.state == State::AfterProcessingInstructionTarget || m.state
            == State::ProcessingInstructionData || m.state
            == State::ProcessingInstructionQuestionable,
        forall|j: int| rested(m).pos <= j < m.input.len() ==> #[trigger] m.input[j] != '>',
    ensures
        tokens(m) == seq![TokenView::EOF],
    decreases m.left(), rank(m.state),
{
    lemma_step_advances(m);
    if m.next() is Some {
        assert(m.input[rested(m).pos] != '>');
    }
    if step(m).0.done {
        loud_step(m);
        assert(tokens(m) =~= seq![TokenView::EOF]);
    } else {
        quiet_step(m);
        lemma_cut_off_data(step(m).0);
    }
}

/// An instruction that no `>` closes is dropped.
pub proof fn cut_off_instruction_is_dropped(m: Machine, end: int)
    requires
        at_rest(m),
        m.state == State::Data,
        m.pos + 2 < end < m.input.len(),
        m.input[m.pos] == '<',
        m.input[m.pos + 1] == '?',
        alphabetic(m.input[m.pos + 2]) || m.input[m.pos + 2] == '_',
        is_target(m.input.subrange(m.pos + 2, end)),
        !disallowed(m.input.subrange(m.pos + 2, end)),
        space(m.input[end]) || m.input[end] == '?',
        forall|j: int| end <= j < m.input.len() ==> #[trigger] m.input[j] != '>',
    ensures
        tokens(m) == seq![TokenView::EOF],
{
    let n = lemma_target_read(m, end);
    quiet_step(n);
    lemma_cut_off_data(step(n).0);
}

} // verus!
