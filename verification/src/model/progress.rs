//! Every step brings the machine closer to its end.

use crate::model::families::{
    in_comment, in_content, in_doctype, in_instruction, in_opening, in_reference, in_script, in_tag,
};
use crate::model::{references, step, transition, Machine, Outcome};
use crate::types::{State, TokenView};
use vstd::prelude::*;

verus! {

impl Machine {
    /// How many code points are still to be read, one that is to be read once more
    /// among them.
    pub open spec fn left(self) -> int {
        self.input.len() - self.pos + if self.reconsume && !self.at_end {
            1int
        } else {
            0
        }
    }
}

/// A bound on how often the state may change in a row, from `state` on, with nothing new
/// being read.
pub open spec fn rank(state: State) -> int {
    match state {
        State::Data
        | State::RCDATA
        | State::RAWTEXT
        | State::ScriptData
        | State::PLAINTEXT
        | State::TagName
        | State::ScriptDataEscaped
        | State::ScriptDataEscapedDash
        | State::ScriptDataEscapedDashDash
        | State::ScriptDataDoubleEscaped
        | State::ScriptDataDoubleEscapedDash
        | State::ScriptDataDoubleEscapedDashDash
        | State::CDATASection
        | State::AttributeName
        | State::AttributeValueDoubleQuoted
        | State::AttributeValueSingleQuoted
        | State::AttributeValueUnquoted => 0,
        State::CharacterReference => 5,
        State::ProcessingInstructionOpen | State::NumericCharacterReference => 4,
        State::CommentLessThanSignBangDashDash
        | State::Doctype
        | State::ProcessingInstructionTarget
        | State::HexCharacterReferenceStart
        | State::DecimalCharacterReferenceStart => 3,
        State::EndTagOpen
        | State::MarkupDeclarationOpen
        | State::CommentStart
        | State::CommentStartDash
        | State::CommentLessThanSign
        | State::CommentLessThanSignBang
        | State::CommentLessThanSignBangDash
        | State::CommentEndDash
        | State::CommentEnd
        | State::CommentEndBang
        | State::SelfClosingStartTag
        | State::AfterAttributeValueQuoted
        | State::ScriptDataEscapedLessThanSign
        | State::AfterProcessingInstructionTarget
        | State::ProcessingInstructionQuestionable
        | State::HexCharacterReference
        | State::DecimalCharacterReference
        | State::BeforeDoctypeName
        | State::DoctypeName
        | State::AfterDoctypeName
        | State::AfterDoctypePublicKeyword
        | State::BeforeDoctypePublicId
        | State::DoctypePublicIdDoubleQuoted
        | State::DoctypePublicIdSingleQuoted
        | State::AfterDoctypePublicId
        | State::BetweenDoctypePublicAndSystemIds
        | State::AfterDoctypeSystemKeyword
        | State::BeforeDoctypeSystemId
        | State::DoctypeSystemIdDoubleQuoted
        | State::DoctypeSystemIdSingleQuoted
        | State::AfterDoctypeSystemId => 2,
        _ => 1,
    }
}

/// Whether `n` is closer to its end than `m`.
pub open spec fn closer(n: Machine, m: Machine) -> bool {
    ||| n.done && !m.done
    ||| n.done == m.done && n.left() < m.left()
    ||| n.done == m.done && n.left() == m.left() && rank(n.state) < rank(m.state)
    ||| n.done == m.done && n.left() == m.left() && rank(n.state) == rank(m.state)
        && n.pending.len() < m.pending.len()
}

/// Whether a step of `m` leads closer to its end, and to the end just when it emits
/// the end-of-file token. What is set from outside stays as it is.
pub open spec fn advances(m: Machine, outcome: Outcome) -> bool {
    let (n, t) = outcome;
    &&& n.wf()
    &&& n.input == m.input
    &&& n.end_tag_name == m.end_tag_name
    &&& n.foreign == m.foreign
    &&& closer(n, m)
    &&& n.done <==> t == Some(TokenView::EOF)
}

proof fn lemma_content_advances(m: Machine)
    requires
        m.wf(),
        !m.done,
        m.pending.len() == 0,
        in_content(m.state),
    ensures
        advances(m, transition(m)),
{
}

proof fn lemma_script_advances(m: Machine)
    requires
        m.wf(),
        !m.done,
        m.pending.len() == 0,
        in_script(m.state),
    ensures
        advances(m, transition(m)),
{
}

proof fn lemma_tag_advances(m: Machine)
    requires
        m.wf(),
        !m.done,
        m.pending.len() == 0,
        in_tag(m.state),
    ensures
        advances(m, transition(m)),
{
}

proof fn lemma_comment_advances(m: Machine)
    requires
        m.wf(),
        !m.done,
        m.pending.len() == 0,
        in_comment(m.state),
    ensures
        advances(m, transition(m)),
{
}

proof fn lemma_doctype_advances(m: Machine)
    requires
        m.wf(),
        !m.done,
        m.pending.len() == 0,
        in_doctype(m.state),
    ensures
        advances(m, transition(m)),
{
    reveal_strlit("PUBLIC");
    reveal_strlit("SYSTEM");
}

proof fn lemma_instruction_advances(m: Machine)
    requires
        m.wf(),
        !m.done,
        m.pending.len() == 0,
        in_instruction(m.state),
    ensures
        advances(m, transition(m)),
{
}

proof fn lemma_opening_advances(m: Machine)
    requires
        m.wf(),
        !m.done,
        m.pending.len() == 0,
        in_opening(m.state),
    ensures
        advances(m, transition(m)),
{
    reveal_strlit("--");
    reveal_strlit("DOCTYPE");
    reveal_strlit("[CDATA[");
}

proof fn lemma_reference_advances(m: Machine)
    requires
        m.wf(),
        !m.done,
        m.pending.len() == 0,
        in_reference(m.state),
    ensures
        advances(m, transition(m)),
{
    if m.state == State::NamedCharacterReference {
        lemma_named_advances(m);
    }
}

proof fn lemma_transition_advances(m: Machine)
    requires
        m.wf(),
        !m.done,
        m.pending.len() == 0,
    ensures
        advances(m, transition(m)),
{
    if in_content(m.state) {
        lemma_content_advances(m);
    } else if in_script(m.state) {
        lemma_script_advances(m);
    } else if in_tag(m.state) {
        lemma_tag_advances(m);
    } else if in_comment(m.state) {
        lemma_comment_advances(m);
    } else if in_doctype(m.state) {
        lemma_doctype_advances(m);
    } else if in_instruction(m.state) {
        lemma_instruction_advances(m);
    } else if in_opening(m.state) {
        lemma_opening_advances(m);
    } else {
        lemma_reference_advances(m);
    }
}

/// A run ends no earlier than it begins, and within the input.
pub proof fn lemma_run_end(input: Seq<char>, from: int)
    requires
        0 <= from <= input.len(),
    ensures
        from <= references::run_end(input, from) <= input.len(),
    decreases input.len() - from,
{
    if from < input.len() {
        lemma_run_end(input, from + 1);
    }
}

proof fn lemma_named_advances(m: Machine)
    requires
        m.wf(),
        !m.done,
        m.pending.len() == 0,
        m.state == State::NamedCharacterReference,
    ensures
        advances(m, references::named(m.read(), m.next())),
{
    let r = m.read();
    lemma_run_end(r.input, r.pos);
    let end = references::run_end(r.input, r.pos);
    let name = match m.next() {
        Some(c) => seq![c] + r.input.subrange(r.pos, end),
        None => r.input.subrange(r.pos, end),
    };
    references::lemma_best_match(name, end < r.input.len() && r.input[end] == ';');
}

/// Every step of a machine that is not done brings it closer to its end.
pub proof fn lemma_step_advances(m: Machine)
    requires
        m.wf(),
        !m.done,
    ensures
        advances(m, step(m)),
{
    if m.pending.len() == 0 {
        lemma_transition_advances(m);
    }
}

} // verus!
