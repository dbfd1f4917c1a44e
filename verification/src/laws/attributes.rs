//! No attribute is without a name.

use crate::laws::tags::ends_attribute_name;
use crate::model::coherence::lemma_step_coherent;
use crate::model::families::{
    in_comment, in_content, in_doctype, in_instruction, in_opening, in_reference, in_script, in_tag,
};
use crate::model::progress::{lemma_step_advances, rank};
use crate::model::runs::{coherent, next_token, stuck, tokens};
use crate::model::{is_attribute_value, step, transition, Machine, Outcome};
use crate::types::{State, TagView, TokenView};
use vstd::prelude::*;

verus! {

/// Whether every attribute of `t` has a name.
pub open spec fn is_named(t: TagView) -> bool {
    forall|i: int| 0 <= i < t.attrs.len() ==> (#[trigger] t.attrs[i]).0.len() > 0
}

/// Whether the name of an attribute has been read by the time `m` is in its state: from
/// behind the name to the end of the value, and in a reference in the value.
pub open spec fn past_attribute_name(m: Machine) -> bool {
    ||| is_attribute_value(m.state)
    ||| m.state == State::AfterAttributeName
    ||| m.state == State::BeforeAttributeValue
    ||| m.state == State::AfterAttributeValueQuoted
    ||| in_reference(m.state) && (m.return_state matches Some(s) && is_attribute_value(s))
}

/// What holds of a machine in which no attribute is without a name: what is read in the
/// name of an attribute is, at first, no end of a name.
pub open spec fn names_attributes(m: Machine) -> bool {
    &&& m.tag matches Some(t) ==> is_named(t)
    &&& !m.done && past_attribute_name(m) ==> m.attr_name.len() > 0
    &&& !m.done && m.state == State::AttributeName && m.attr_name.len() == 0 ==> (
    m.next() matches Some(c) && !ends_attribute_name(c))
}

/// Whether a step leaves every attribute with a name, also those of a tag that it emits.
pub open spec fn steps_with_names(outcome: Outcome) -> bool {
    let (n, t) = outcome;
    names_attributes(n) && (t matches Some(TokenView::Tag(tag)) ==> is_named(tag))
}

proof fn lemma_content_names(m: Machine)
    requires
        m.wf(),
        !m.done,
        m.pending.len() == 0,
        !stuck(m),
        names_attributes(m),
        in_content(m.state),
    ensures
        steps_with_names(transition(m)),
{
}

proof fn lemma_script_names(m: Machine)
    requires
        m.wf(),
        !m.done,
        m.pending.len() == 0,
        !stuck(m),
        names_attributes(m),
        in_script(m.state),
    ensures
        steps_with_names(transition(m)),
{
}

proof fn lemma_tag_names(m: Machine)
    requires
        m.wf(),
        !m.done,
        m.pending.len() == 0,
        !stuck(m),
        names_attributes(m),
        in_tag(m.state),
    ensures
        steps_with_names(transition(m)),
{
}

proof fn lemma_comment_names(m: Machine)
    requires
        m.wf(),
        !m.done,
        m.pending.len() == 0,
        !stuck(m),
        names_attributes(m),
        in_comment(m.state),
    ensures
        steps_with_names(transition(m)),
{
}

proof fn lemma_doctype_names(m: Machine)
    requires
        m.wf(),
        !m.done,
        m.pending.len() == 0,
        !stuck(m),
        names_attributes(m),
        in_doctype(m.state),
    ensures
        steps_with_names(transition(m)),
{
}

proof fn lemma_instruction_names(m: Machine)
    requires
        m.wf(),
        !m.done,
        m.pending.len() == 0,
        !stuck(m),
        names_attributes(m),
        in_instruction(m.state),
    ensures
        steps_with_names(transition(m)),
{
}

proof fn lemma_opening_names(m: Machine)
    requires
        m.wf(),
        !m.done,
        m.pending.len() == 0,
        !stuck(m),
        names_attributes(m),
        in_opening(m.state),
    ensures
        steps_with_names(transition(m)),
{
}

proof fn lemma_reference_names(m: Machine)
    requires
        m.wf(),
        !m.done,
        m.pending.len() == 0,
        !stuck(m),
        names_attributes(m),
        in_reference(m.state),
        m.state != State::NamedCharacterReference,
    ensures
        steps_with_names(transition(m)),
{
}

proof fn lemma_named_reference_names(m: Machine)
    requires
        m.wf(),
        !m.done,
        m.pending.len() == 0,
        names_attributes(m),
        m.state == State::NamedCharacterReference,
    ensures
        steps_with_names(transition(m)),
{
}

/// A step leaves every attribute with a name.
pub proof fn steps_name_attributes(m: Machine)
    requires
        m.wf(),
        !stuck(m),
        names_attributes(m),
    ensures
        steps_with_names(step(m)),
{
    if m.done || m.pending.len() > 0 {
    } else if in_content(m.state) {
        lemma_content_names(m);
    } else if in_script(m.state) {
        lemma_script_names(m);
    } else if in_tag(m.state) {
        lemma_tag_names(m);
    } else if in_comment(m.state) {
        lemma_comment_names(m);
    } else if in_doctype(m.state) {
        lemma_doctype_names(m);
    } else if in_instruction(m.state) {
        lemma_instruction_names(m);
    } else if in_opening(m.state) {
        lemma_opening_names(m);
    } else if m.state == State::NamedCharacterReference {
        lemma_named_reference_names(m);
    } else {
        lemma_reference_names(m);
    }
}

/// In a machine that begins no attribute is without a name.
pub proof fn a_fresh_machine_names_attributes(input: Seq<char>)
    ensures
        names_attributes(Machine::initial(input)),
{
}

/// This stays so when the state is switched, unless to the middle of a tag or of a
/// character reference.
pub proof fn switching_content_keeps_names(m: Machine, state: State)
    requires
        names_attributes(m),
        !in_tag(state),
        !in_reference(state),
    ensures
        names_attributes(Machine { state, ..m }),
{
}

/// No tag has an attribute without a name.
pub proof fn every_attribute_has_a_name(m: Machine)
    requires
        coherent(m),
        names_attributes(m),
    ensures
        names_attributes(next_token(m).0),
        next_token(m).1 matches Some(TokenView::Tag(t)) ==> is_named(t),
        forall|i: int|
            0 <= i < tokens(m).len() ==> (#[trigger] tokens(m)[i] matches TokenView::Tag(t)
                ==> is_named(t)),
    decreases !m.done as int, m.left(), rank(m.state), m.pending.len(),
{
    lemma_step_coherent(m);
    steps_name_attributes(m);
    if !m.done {
        lemma_step_advances(m);
        let (n, t) = step(m);
        every_attribute_has_a_name(n);
        assert forall|i: int| 0 <= i < tokens(m).len() implies (
        #[trigger] tokens(m)[i] matches TokenView::Tag(t) ==> is_named(t)) by {
            if t is Some && i > 0 {
                assert(tokens(m)[i] == tokens(n)[i - 1]);
            }
        }
    }
}

} // verus!
