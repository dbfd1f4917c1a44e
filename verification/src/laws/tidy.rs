//! What every token looks like.

use crate::chars::{alphabetic, alphanumeric, lower, lowercase, lowercase_all, upper, visible};
use crate::laws::script::{in_end_tag_name, in_solidus};
use crate::laws::tags::ends_tag_name;
use crate::model::coherence::lemma_step_coherent;
use crate::model::families::{
    in_comment, in_content, in_doctype, in_instruction, in_opening, in_reference, in_script, in_tag,
};
use crate::model::instructions::disallowed;
use crate::model::progress::{lemma_step_advances, rank};
use crate::model::runs::{coherent, next_token, stuck, tokens};
use crate::model::{step, transition, Machine, Outcome};
use crate::types::{DoctypeView, State, TagView, TokenView};
use vstd::prelude::*;

verus! {

/// No NUL.
pub open spec fn shown(s: Seq<char>) -> bool {
    forall|i: int| 0 <= i < s.len() ==> #[trigger] s[i] != '\0'
}

/// No NUL, and no ASCII letter in upper case.
pub open spec fn lowered(s: Seq<char>) -> bool {
    forall|i: int| 0 <= i < s.len() ==> #[trigger] s[i] != '\0' && !upper(s[i])
}

/// No two attributes of one name.
pub open spec fn distinct_names(attrs: Seq<(Seq<char>, Seq<char>)>) -> bool {
    forall|i: int, j: int|
        0 <= i < j < attrs.len() ==> (#[trigger] attrs[i]).0 != (#[trigger] attrs[j]).0
}

/// A name in lower case that begins with a letter and holds neither space nor `/` nor
/// `>`, and attributes with names in lower case, of which no two are the same.
pub open spec fn tidy_tag(t: TagView) -> bool {
    &&& t.name.len() > 0
    &&& lower(t.name[0])
    &&& lowered(t.name)
    &&& forall|i: int| 0 <= i < t.name.len() ==> !ends_tag_name(#[trigger] t.name[i])
    &&& distinct_names(t.attrs)
    &&& forall|i: int| 0 <= i < t.attrs.len() ==> lowered((#[trigger] t.attrs[i]).0)
}

/// A name in lower case, and identifiers without NUL.
pub open spec fn tidy_doctype(d: DoctypeView) -> bool {
    &&& d.name matches Some(s) ==> lowered(s) && s.len() > 0
    &&& d.public_id matches Some(s) ==> shown(s)
    &&& d.system_id matches Some(s) ==> shown(s)
}

/// Nothing but ASCII letters, digits, `-` and `_`.
pub open spec fn is_target(s: Seq<char>) -> bool {
    forall|i: int|
        0 <= i < s.len() ==> alphanumeric(#[trigger] s[i]) || s[i] == '-' || s[i] == '_'
}

/// What holds of every token.
pub open spec fn tidy_token(t: TokenView) -> bool {
    match t {
        TokenView::Doctype(d) => tidy_doctype(d),
        TokenView::Tag(t) => tidy_tag(t),
        TokenView::Comment(s) => shown(s),
        TokenView::ProcessingInstruction { target, .. } => is_target(target) && !disallowed(
            target,
        ),
        TokenView::Character(_) | TokenView::EOF => true,
    }
}

/// What holds of the tokens under construction.
pub open spec fn tidy(m: Machine) -> bool {
    &&& m.tag matches Some(t) ==> tidy_tag(t) && !t.self_closing
    &&& lowered(m.attr_name)
    &&& shown(m.comment)
    &&& tidy_doctype(m.doctype)
    &&& is_target(m.buffer)
    &&& m.instruction matches Some((target, _)) ==> is_target(target) && !disallowed(target)
}

/// Whether a step leaves the tokens under construction tidy, and emits a tidy token; a
/// tag is self-closing only where `>` has closed it in the state for that.
pub open spec fn steps_tidily(m: Machine, outcome: Outcome) -> bool {
    let (n, t) = outcome;
    &&& tidy(n)
    &&& t matches Some(t) ==> tidy_token(t)
    &&& (t matches Some(TokenView::Tag(tag)) && tag.self_closing) ==> m.state
        == State::SelfClosingStartTag && m.next() == Some('>') && m.pending.len() == 0
}

/// The DOCTYPE states up to the end of the name.
spec fn in_doctype_name(state: State) -> bool {
    state == State::Doctype || state == State::BeforeDoctypeName || state == State::DoctypeName
        || state == State::AfterDoctypeName
}

proof fn lemma_lowercase(c: char)
    ensures
        !upper(lowercase(c)),
        c != '\0' ==> lowercase(c) != '\0',
        !upper(lowercase(visible(c))),
        lowercase(visible(c)) != '\0',
        alphabetic(c) ==> lower(lowercase(c)),
        ends_tag_name(lowercase(visible(c))) ==> ends_tag_name(c),
{
}

proof fn lemma_add_attribute(m: Machine)
    requires
        tidy(m),
    ensures
        tidy(m.add_attribute()),
{
    if let Some(t) = m.tag {
        let attrs = m.add_attribute().tag->0.attrs;
        assert forall|i: int, j: int| 0 <= i < j < attrs.len() implies (#[trigger] attrs[i]).0 != (
        #[trigger] attrs[j]).0 by {
            if j == t.attrs.len() {
                assert(t.attrs[i].0 != m.attr_name);
            }
        }
    }
}

proof fn lemma_content_tidy(m: Machine)
    requires
        m.wf(),
        tidy(m),
        m.pending.len() == 0,
        in_content(m.state),
    ensures
        steps_tidily(m, transition(m)),
{
    if let Some(c) = m.next() {
        lemma_lowercase(c);
    }
}

proof fn lemma_script_end_tag_tidy(m: Machine)
    requires
        m.wf(),
        tidy(m),
        m.pending.len() == 0,
        in_script(m.state),
        in_solidus(m.state) || in_end_tag_name(m.state),
    ensures
        steps_tidily(m, transition(m)),
{
    if let Some(c) = m.next() {
        lemma_lowercase(c);
    }
}

proof fn lemma_script_text_tidy(m: Machine)
    requires
        m.wf(),
        tidy(m),
        m.pending.len() == 0,
        in_script(m.state),
        !(in_solidus(m.state) || in_end_tag_name(m.state)),
    ensures
        steps_tidily(m, transition(m)),
{
    if let Some(c) = m.next() {
        lemma_lowercase(c);
    }
}

proof fn lemma_tag_tidy(m: Machine)
    requires
        m.wf(),
        tidy(m),
        !m.done,
        m.pending.len() == 0,
        !stuck(m),
        in_tag(m.state),
    ensures
        steps_tidily(m, transition(m)),
{
    if let Some(c) = m.next() {
        lemma_lowercase(c);
    }
    lemma_add_attribute(m.read());
}

proof fn lemma_comment_tidy(m: Machine)
    requires
        m.wf(),
        tidy(m),
        m.pending.len() == 0,
        in_comment(m.state),
    ensures
        steps_tidily(m, transition(m)),
{
}

proof fn lemma_doctype_name_tidy(m: Machine)
    requires
        m.wf(),
        tidy(m),
        m.pending.len() == 0,
        in_doctype(m.state),
        in_doctype_name(m.state),
    ensures
        steps_tidily(m, transition(m)),
{
    if let Some(c) = m.next() {
        lemma_lowercase(c);
    }
}

proof fn lemma_doctype_id_tidy(m: Machine)
    requires
        m.wf(),
        tidy(m),
        m.pending.len() == 0,
        in_doctype(m.state),
        !(in_doctype_name(m.state)),
    ensures
        steps_tidily(m, transition(m)),
{
    if let Some(c) = m.next() {
        lemma_lowercase(c);
    }
}

proof fn lemma_instruction_tidy(m: Machine)
    requires
        m.wf(),
        tidy(m),
        m.pending.len() == 0,
        in_instruction(m.state),
    ensures
        steps_tidily(m, transition(m)),
{
    reveal_strlit("xml");
    reveal_strlit("xml-stylesheet");
    assert(!disallowed(seq![])) by {
        assert(lowercase_all(seq![]).len() != lowercase_all("xml"@).len());
        assert(lowercase_all(seq![]).len() != lowercase_all("xml-stylesheet"@).len());
    }
}

proof fn lemma_opening_tidy(m: Machine)
    requires
        m.wf(),
        tidy(m),
        m.pending.len() == 0,
        in_opening(m.state),
    ensures
        steps_tidily(m, transition(m)),
{
    if let Some(c) = m.next() {
        lemma_lowercase(c);
    }
    reveal_strlit("[CDATA[");
}

proof fn lemma_named_tidy(m: Machine)
    requires
        m.wf(),
        tidy(m),
        m.pending.len() == 0,
        m.state == State::NamedCharacterReference,
    ensures
        steps_tidily(m, transition(m)),
{
}

proof fn lemma_reference_tidy(m: Machine)
    requires
        m.wf(),
        tidy(m),
        m.pending.len() == 0,
        in_reference(m.state),
        m.state != State::NamedCharacterReference,
    ensures
        steps_tidily(m, transition(m)),
{
}

/// The tokens under construction stay tidy, and so are those that are emitted.
pub proof fn steps_are_tidy(m: Machine)
    requires
        m.wf(),
        tidy(m),
        !stuck(m),
    ensures
        steps_tidily(m, step(m)),
{
    if m.done || m.pending.len() > 0 {
    } else if in_content(m.state) {
        lemma_content_tidy(m);
    } else if in_script(m.state) {
        if in_solidus(m.state) || in_end_tag_name(m.state) {
            lemma_script_end_tag_tidy(m);
        } else {
            lemma_script_text_tidy(m);
        }
    } else if in_tag(m.state) {
        lemma_tag_tidy(m);
    } else if in_comment(m.state) {
        lemma_comment_tidy(m);
    } else if in_doctype(m.state) {
        if in_doctype_name(m.state) {
            lemma_doctype_name_tidy(m);
        } else {
            lemma_doctype_id_tidy(m);
        }
    } else if in_instruction(m.state) {
        lemma_instruction_tidy(m);
    } else if in_opening(m.state) {
        lemma_opening_tidy(m);
    } else if m.state == State::NamedCharacterReference {
        lemma_named_tidy(m);
    } else {
        lemma_reference_tidy(m);
    }
}

/// A machine that begins is tidy.
pub proof fn a_fresh_machine_is_tidy(input: Seq<char>)
    ensures
        tidy(Machine::initial(input)),
{
}

/// What is set from outside does not touch the tokens under construction, so that they stay
/// tidy.
pub proof fn settings_keep_tidiness(
    m: Machine,
    state: State,
    end_tag_name: Option<Seq<char>>,
    foreign: bool,
)
    requires
        tidy(m),
    ensures
        tidy(Machine { state, end_tag_name, foreign, ..m }),
{
}

/// Every token is tidy: tags and their attributes have names in lower case and without
/// NUL, the name of a tag begins with a letter and holds neither space nor `/` nor `>`, no
/// tag has two attributes of one name, comments and DOCTYPEs hold no NUL, and no
/// processing instruction is called `xml` or `xml-stylesheet`.
pub proof fn every_token_is_tidy(m: Machine)
    requires
        coherent(m),
        tidy(m),
    ensures
        tidy(next_token(m).0),
        next_token(m).1 matches Some(t) ==> tidy_token(t),
        forall|i: int| 0 <= i < tokens(m).len() ==> tidy_token(#[trigger] tokens(m)[i]),
    decreases !m.done as int, m.left(), rank(m.state), m.pending.len(),
{
    lemma_step_coherent(m);
    steps_are_tidy(m);
    if !m.done {
        lemma_step_advances(m);
        let (n, t) = step(m);
        every_token_is_tidy(n);
        assert forall|i: int| 0 <= i < tokens(m).len() implies tidy_token(
            #[trigger] tokens(m)[i],
        ) by {
            if t is Some && i > 0 {
                assert(tokens(m)[i] == tokens(n)[i - 1]);
            }
        }
    }
}

} // verus!
