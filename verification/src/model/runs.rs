//! Runs of the machine: from one token to the next, and to the end of the input.

use crate::model::families::{in_reference, in_tag};
use crate::model::progress::{lemma_step_advances, rank};
use crate::model::{is_attribute_value, step, Machine, Outcome};
use crate::types::{State, TokenView};
use vstd::prelude::*;

verus! {

/// The next token, and the machine that has emitted it; no token from a machine that
/// is done.
pub open spec fn next_token(m: Machine) -> Outcome
    decreases !m.done as int, m.left(), rank(m.state), m.pending.len(),
    when m.wf()
{
    let (n, t) = step(m);
    if t is Some || n.done {
        (n, t)
    } else {
        proof {
            lemma_step_advances(m);
        }
        next_token(n)
    }
}

/// Every token that the machine is still to emit.
pub open spec fn tokens(m: Machine) -> Seq<TokenView>
    decreases !m.done as int, m.left(), rank(m.state), m.pending.len(),
    when m.wf()
{
    if m.done {
        seq![]
    } else {
        proof {
            lemma_step_advances(m);
        }
        match step(m) {
            (n, Some(t)) => seq![t] + tokens(n),
            (n, None) => tokens(n),
        }
    }
}

/// Whether `>` may close a tag in `state`.
pub open spec fn closes_tag(state: State) -> bool {
    in_tag(state) && state != State::AttributeValueDoubleQuoted && state
        != State::AttributeValueSingleQuoted
}

/// Whether the machine cannot take a step: a tag is to be closed that was never
/// opened, or the name of a reference is to begin with what is not ASCII. Neither
/// comes about but by setting the state from outside.
pub open spec fn stuck(m: Machine) -> bool {
    &&& !m.done
    &&& m.pending.len() == 0
    &&& {
        ||| closes_tag(m.state) && m.tag is None && m.next() == Some('>')
        ||| m.state == State::NamedCharacterReference && (m.next() matches Some(c) && c
            > '\u{7F}')
    }
}

/// Whether the machine comes to its next token, or is done, without being stuck.
pub open spec fn can_advance(m: Machine) -> bool
    decreases !m.done as int, m.left(), rank(m.state), m.pending.len(),
    when m.wf()
{
    m.done || !stuck(m) && {
        let (n, t) = step(m);
        t is Some || n.done || {
            proof {
                lemma_step_advances(m);
            }
            can_advance(n)
        }
    }
}

/// Whether the machine may be asked for its next token.
pub open spec fn may_advance(m: Machine) -> bool {
    coherent(m) || m.wf() && can_advance(m)
}

/// What holds of a machine in which nothing is to be closed that was not opened.
pub open spec fn coherent(m: Machine) -> bool {
    &&& m.wf()
    &&& m.done || {
        &&& in_tag(m.state) ==> m.tag is Some
        &&& in_reference(m.state) && (m.return_state matches Some(s) && is_attribute_value(s))
            ==> m.tag is Some
        &&& m.state == State::NamedCharacterReference ==> (m.next() matches Some(c) ==> c
            <= '\u{7F}')
    }
}

/// A machine that is not done has a next token, and is done with the end-of-file
/// token and no other.
pub proof fn lemma_next_token(m: Machine)
    requires
        m.wf(),
    ensures
        next_token(m).0.wf(),
        next_token(m).1 is None <==> m.done,
        next_token(m).0.done <==> (next_token(m).1 is None || next_token(m).1 == Some(
            TokenView::EOF,
        )),
    decreases !m.done as int, m.left(), rank(m.state), m.pending.len(),
{
    if !m.done {
        lemma_step_advances(m);
        let (n, t) = step(m);
        if t is None && !n.done {
            lemma_next_token(n);
        }
    }
}

} // verus!
