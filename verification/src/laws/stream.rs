//! Steps, and the stream of tokens that they make up.

use crate::model::coherence::{lemma_run_coherent, lemma_step_coherent};
use crate::model::families::{in_reference, in_tag};
use crate::model::progress::{advances, lemma_step_advances, rank};
use crate::model::runs::{can_advance, coherent, lemma_next_token, next_token, stuck, tokens};
use crate::model::{step, transition, Machine};
use crate::types::{State, TokenView};
use vstd::prelude::*;

verus! {

/// A step that emits nothing changes neither the next token nor the tokens to come.
pub proof fn quiet_step(m: Machine)
    requires
        m.wf(),
        !m.done,
        step(m).1 is None,
    ensures
        next_token(m) == next_token(step(m).0),
        tokens(m) == tokens(step(m).0),
        step(m).0.wf(),
        !step(m).0.done,
{
    lemma_step_advances(m);
}

/// A step that emits a token emits the next one, the first of those to come.
pub proof fn loud_step(m: Machine)
    requires
        m.wf(),
        !m.done,
        step(m).1 is Some,
    ensures
        next_token(m) == step(m),
        tokens(m) == seq![step(m).1->0] + tokens(step(m).0),
        step(m).0.wf(),
{
    lemma_step_advances(m);
}

/// The machine always makes progress: a step reads on, or leads to a state from which
/// fewer steps can follow without reading, or emits pending text, or ends the tokens.
pub proof fn every_step_makes_progress(m: Machine)
    requires
        m.wf(),
        !m.done,
    ensures
        advances(m, step(m)),
{
    lemma_step_advances(m);
}

/// What is set from outside is changed only from outside: no step touches the input,
/// the name of the closing end tag or the kind of content.
pub proof fn steps_keep_settings(m: Machine)
    requires
        m.wf(),
    ensures
        step(m).0.input == m.input,
        step(m).0.end_tag_name == m.end_tag_name,
        step(m).0.foreign == m.foreign,
{
    if !m.done {
        lemma_step_advances(m);
    }
}

/// The next token is the first of the tokens to come, and the others come after it.
pub proof fn next_token_is_first(m: Machine)
    requires
        m.wf(),
    ensures
        match next_token(m) {
            (n, Some(t)) => n.wf() && tokens(m) == seq![t] + tokens(n),
            (n, None) => tokens(m).len() == 0 && n == m,
        },
    decreases !m.done as int, m.left(), rank(m.state), m.pending.len(),
{
    if !m.done {
        if step(m).1 is None {
            quiet_step(m);
            lemma_step_advances(m);
            lemma_next_token(m);
            next_token_is_first(step(m).0);
        } else {
            loud_step(m);
        }
    }
}

/// The tokens end with the end-of-file token, and no token before it is one.
pub proof fn tokens_end_once(m: Machine)
    requires
        m.wf(),
        !m.done,
    ensures
        tokens(m).len() > 0,
        forall|i: int|
            0 <= i < tokens(m).len() ==> (#[trigger] tokens(m)[i] == TokenView::EOF <==> i
                == tokens(m).len() - 1),
    decreases !m.done as int, m.left(), rank(m.state), m.pending.len(),
{
    lemma_step_advances(m);
    let (n, t) = step(m);
    if !n.done {
        tokens_end_once(n);
    }
}

/// Nothing follows the end-of-file token: a machine that is done stays as it is and
/// emits nothing.
pub proof fn nothing_follows_the_end(m: Machine)
    requires
        m.wf(),
        m.done,
    ensures
        step(m) == (m, None::<TokenView>),
        next_token(m) == (m, None::<TokenView>),
        tokens(m).len() == 0,
{
}

/// The machine that begins with an input has read nothing, keeps nothing, and takes the input
/// for HTML in the data state.
pub proof fn a_fresh_machine_has_read_nothing(input: Seq<char>)
    ensures
        ({
            let m = Machine::initial(input);
            &&& m.input == input
            &&& m.pos == 0
            &&& m.state == State::Data
            &&& !m.done && !m.reconsume && !m.at_end && !m.foreign
            &&& m.tag is None && m.instruction is None && m.end_tag_name is None
            &&& m.return_state is None
            &&& m.comment.len() == 0 && m.attr_name.len() == 0 && m.attr_value.len() == 0
            &&& m.buffer.len() == 0 && m.pending.len() == 0
            &&& m.doctype.name is None && m.doctype.public_id is None
            &&& m.doctype.system_id is None && !m.doctype.force_quirks
            &&& m.code == 0
            &&& m.hex_prefix == 'x'
        }),
{
}

/// The machine that begins with an input is coherent.
pub proof fn a_fresh_machine_is_coherent(input: Seq<char>)
    ensures
        coherent(Machine::initial(input)),
{
}

/// A coherent machine can take a step, comes to its next token, and is coherent
/// afterwards.
pub proof fn a_coherent_machine_goes_on(m: Machine)
    requires
        coherent(m),
    ensures
        !stuck(m),
        can_advance(m),
        coherent(step(m).0),
        coherent(next_token(m).0),
{
    lemma_step_coherent(m);
    lemma_run_coherent(m);
}

/// A coherent machine stays so when its state is switched, unless to the middle of a
/// tag or of a character reference.
pub proof fn switching_content_keeps_coherence(m: Machine, state: State)
    requires
        coherent(m),
        !in_tag(state),
        !in_reference(state),
    ensures
        coherent(Machine { state, ..m }),
{
}

/// What is read once more is what was read: the same code point, or the end of the input
/// again, and the machine is then where it was.
pub proof fn a_repeated_reading_is_the_same(m: Machine)
    requires
        m.wf(),
    ensures
        m.read().replaying().next() == m.next(),
        m.read().replaying().read() == m.read(),
{
}

/// The machine that stands before what is read next.
pub open spec fn rested(m: Machine) -> Machine {
    Machine {
        pos: if m.reconsume && !m.at_end {
            m.pos - 1
        } else {
            m.pos
        },
        reconsume: false,
        at_end: false,
        ..m
    }
}

/// To read something once more is to read it as if it had not been read: a machine that
/// is to read the last code point again, or the end of the input, emits the same tokens
/// as the one that stands before it. The two states are left out that do not begin by
/// reading.
pub proof fn replaying_is_unreading(m: Machine)
    requires
        m.wf(),
        m.state != State::MarkupDeclarationOpen,
        m.state != State::NumericCharacterReferenceEnd,
    ensures
        tokens(m) == tokens(rested(m)),
    decreases m.pending.len(),
{
    let n = rested(m);
    if m.done {
    } else if m.pending.len() > 0 {
        loud_step(m);
        loud_step(n);
        replaying_is_unreading(step(m).0);
        assert(step(n).0 == rested(step(m).0));
    } else {
        assert(m.read() == n.read());
        assert(m.next() == n.next());
        assert(transition(m) == transition(n));
        if step(m).1 is None {
            quiet_step(m);
            quiet_step(n);
        } else {
            loud_step(m);
            loud_step(n);
        }
    }
}

} // verus!
