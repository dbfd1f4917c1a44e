//! A machine that began at the beginning is never stuck.

use crate::model::families::{
    in_comment, in_content, in_doctype, in_instruction, in_opening, in_reference, in_script, in_tag,
};
use crate::model::progress::{lemma_step_advances, rank};
use crate::model::runs::{can_advance, coherent, next_token, stuck};
use crate::model::{step, transition, Machine};
use crate::types::State;
use vstd::prelude::*;

verus! {

proof fn lemma_content_coherent(m: Machine)
    requires
        coherent(m),
        !m.done,
        m.pending.len() == 0,
        in_content(m.state),
    ensures
        coherent(transition(m).0),
{
    lemma_step_advances(m);
}

proof fn lemma_script_coherent(m: Machine)
    requires
        coherent(m),
        !m.done,
        m.pending.len() == 0,
        in_script(m.state),
    ensures
        coherent(transition(m).0),
{
    lemma_step_advances(m);
}

proof fn lemma_tag_coherent(m: Machine)
    requires
        coherent(m),
        !m.done,
        m.pending.len() == 0,
        in_tag(m.state),
    ensures
        coherent(transition(m).0),
{
    lemma_step_advances(m);
}

proof fn lemma_comment_coherent(m: Machine)
    requires
        coherent(m),
        !m.done,
        m.pending.len() == 0,
        in_comment(m.state),
    ensures
        coherent(transition(m).0),
{
    lemma_step_advances(m);
}

proof fn lemma_doctype_coherent(m: Machine)
    requires
        coherent(m),
        !m.done,
        m.pending.len() == 0,
        in_doctype(m.state),
    ensures
        coherent(transition(m).0),
{
    lemma_step_advances(m);
}

proof fn lemma_instruction_coherent(m: Machine)
    requires
        coherent(m),
        !m.done,
        m.pending.len() == 0,
        in_instruction(m.state),
    ensures
        coherent(transition(m).0),
{
    lemma_step_advances(m);
}

proof fn lemma_opening_coherent(m: Machine)
    requires
        coherent(m),
        !m.done,
        m.pending.len() == 0,
        in_opening(m.state),
    ensures
        coherent(transition(m).0),
{
    lemma_step_advances(m);
}

proof fn lemma_named_coherent(m: Machine)
    requires
        coherent(m),
        !m.done,
        m.pending.len() == 0,
        m.state == State::NamedCharacterReference,
    ensures
        coherent(transition(m).0),
{
    lemma_step_advances(m);
}

proof fn lemma_reference_coherent(m: Machine)
    requires
        coherent(m),
        !m.done,
        m.pending.len() == 0,
        in_reference(m.state),
        m.state != State::NamedCharacterReference,
    ensures
        coherent(transition(m).0),
{
    lemma_step_advances(m);
}

/// A coherent machine is not stuck, and a step leaves it coherent.
pub proof fn lemma_step_coherent(m: Machine)
    requires
        coherent(m),
    ensures
        !stuck(m),
        coherent(step(m).0),
{
    if m.done {
    } else if m.pending.len() > 0 {
        lemma_step_advances(m);
    } else if in_content(m.state) {
        lemma_content_coherent(m);
    } else if in_script(m.state) {
        lemma_script_coherent(m);
    } else if in_tag(m.state) {
        lemma_tag_coherent(m);
    } else if in_comment(m.state) {
        lemma_comment_coherent(m);
    } else if in_doctype(m.state) {
        lemma_doctype_coherent(m);
    } else if in_instruction(m.state) {
        lemma_instruction_coherent(m);
    } else if in_opening(m.state) {
        lemma_opening_coherent(m);
    } else if m.state == State::NamedCharacterReference {
        lemma_named_coherent(m);
    } else {
        lemma_reference_coherent(m);
    }
}

/// A coherent machine comes to its next token, and is coherent then.
pub proof fn lemma_run_coherent(m: Machine)
    requires
        coherent(m),
    ensures
        can_advance(m),
        coherent(next_token(m).0),
    decreases !m.done as int, m.left(), rank(m.state), m.pending.len(),
{
    lemma_step_coherent(m);
    if !m.done {
        lemma_step_advances(m);
        let (n, t) = step(m);
        if t is None && !n.done {
            lemma_run_coherent(n);
        }
    }
}

} // verus!
