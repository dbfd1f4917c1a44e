//! Scripts, and other content that is not markup, are emitted as they stand, whatever
//! escapes they hold.

use crate::chars::{space, visible};
use crate::laws::raw::content_of;
use crate::laws::stream::loud_step;
use crate::laws::text::{characters, emitted, lemma_step_of_text, visible_all};
use crate::model::families::in_script;
use crate::model::progress::{lemma_step_advances, rank};
use crate::model::runs::tokens;
use crate::model::{step, Machine, Outcome};
use crate::types::{State, TokenView};
use vstd::prelude::*;

verus! {

/// Whether `state` reads content that is not markup.
pub open spec fn in_raw(state: State) -> bool {
    content_of(state) is Some || in_script(state)
}

/// Whether `state` reads the name of an end tag in such content.
pub open spec fn in_end_tag_name(state: State) -> bool {
    state == State::RCDATAEndTagName || state == State::RAWTEXTEndTagName || state
        == State::ScriptDataEndTagName || state == State::ScriptDataEscapedEndTagName
}

/// Whether `state` is that after `<` in such content.
pub open spec fn in_less_than(state: State) -> bool {
    state == State::RCDATALessThanSign || state == State::RAWTEXTLessThanSign || state
        == State::ScriptDataLessThanSign || state == State::ScriptDataEscapedLessThanSign
}

/// Whether `state` is that after `</` in such content.
pub open spec fn in_solidus(state: State) -> bool {
    state == State::RCDATAEndTagOpen || state == State::RAWTEXTEndTagOpen || state
        == State::ScriptDataEndTagOpen || state == State::ScriptDataEscapedEndTagOpen
}

/// Whether the machine reads such content, and has kept nothing of an end tag of which
/// it has only read `</`.
pub open spec fn reads_raw(m: Machine) -> bool {
    in_raw(m.state) && (in_solidus(m.state) ==> m.buffer.len() == 0)
}

/// Text that has been read and is neither emitted nor pending.
pub open spec fn held(m: Machine) -> Seq<char> {
    if in_less_than(m.state) {
        seq!['<']
    } else if in_solidus(m.state) {
        seq!['<', '/']
    } else if in_end_tag_name(m.state) {
        seq!['<', '/'] + m.buffer
    } else {
        seq![]
    }
}

/// Text that has not been read, or is to be read once more.
pub open spec fn unread(m: Machine) -> Seq<char> {
    m.input.skip(
        if m.reconsume && !m.at_end {
            m.pos - 1
        } else {
            m.pos
        },
    )
}

/// Text that is yet to be emitted.
pub open spec fn residue(m: Machine) -> Seq<char> {
    m.pending + held(m) + visible_all(unread(m))
}

/// Whether the next step recognises the end tag that closes the content.
pub open spec fn closing(m: Machine) -> bool {
    &&& m.pending.len() == 0
    &&& in_end_tag_name(m.state)
    &&& m.appropriate()
    &&& m.next() matches Some(c) && (space(c) || c == '/' || c == '>')
}

/// Whether the next step meets a character reference.
pub open spec fn referring(m: Machine) -> bool {
    m.pending.len() == 0 && m.state == State::RCDATA && m.next() == Some('&')
}

proof fn lemma_unread(m: Machine)
    requires
        m.wf(),
    ensures
        match m.next() {
            Some(c) => {
                &&& unread(m) == seq![c] + unread(m.read())
                &&& visible_all(unread(m)) == seq![visible(c)] + visible_all(unread(m.read()))
                &&& unread(m.read().replaying()) == unread(m)
            },
            None => {
                &&& unread(m) == Seq::<char>::empty()
                &&& unread(m.read()) == Seq::<char>::empty()
                &&& unread(m.read().replaying()) == Seq::<char>::empty()
            },
        },
{
    let r = m.read();
    match m.next() {
        Some(c) => {
            assert(unread(m) =~= seq![c] + unread(r));
            assert(visible_all(unread(m)) =~= seq![visible(c)] + visible_all(unread(r)));
            assert(unread(r.replaying()) =~= unread(m));
        },
        None => {
            assert(unread(m) =~= Seq::<char>::empty());
            assert(unread(r) =~= Seq::<char>::empty());
            assert(unread(r.replaying()) =~= Seq::<char>::empty());
        },
    }
}

/// Whether a step neither adds nor drops anything: what was to be emitted before it is
/// what it emits and what is to be emitted after it.
pub open spec fn conserves(m: Machine, outcome: Outcome) -> bool {
    let (n, t) = outcome;
    if n.done {
        t == Some(TokenView::EOF) && residue(m).len() == 0
    } else {
        &&& reads_raw(n)
        &&& content_of(n.state) == Some(State::RCDATA) <==> content_of(m.state) == Some(
            State::RCDATA,
        )
        &&& t matches Some(t) ==> t is Character
        &&& residue(m) == emitted(t) + residue(n)
    }
}

proof fn lemma_home_conserves(m: Machine)
    requires
        m.wf(),
        !m.done,
        m.pending.len() == 0,
        reads_raw(m),
        m.state == State::RCDATA || m.state == State::RAWTEXT || m.state == State::ScriptData,
        !closing(m),
        !referring(m),
    ensures
        conserves(m, step(m)),
{
    let (n, t) = step(m);
    lemma_unread(m);
    if n.done {
        assert(residue(m) =~= seq![]);
    } else {
        assert(residue(m) =~= emitted(t) + residue(n));
    }
}

proof fn lemma_less_than_conserves(m: Machine)
    requires
        m.wf(),
        !m.done,
        m.pending.len() == 0,
        reads_raw(m),
        in_less_than(m.state),
        !closing(m),
        !referring(m),
    ensures
        conserves(m, step(m)),
{
    let (n, t) = step(m);
    lemma_unread(m);
    if n.done {
        assert(residue(m) =~= seq![]);
    } else {
        assert(residue(m) =~= emitted(t) + residue(n));
    }
}

proof fn lemma_solidus_conserves(m: Machine)
    requires
        m.wf(),
        !m.done,
        m.pending.len() == 0,
        reads_raw(m),
        in_solidus(m.state),
        !closing(m),
        !referring(m),
    ensures
        conserves(m, step(m)),
{
    let (n, t) = step(m);
    lemma_unread(m);
    if n.done {
        assert(residue(m) =~= seq![]);
    } else {
        assert(residue(m) =~= emitted(t) + residue(n));
    }
}

proof fn lemma_name_conserves(m: Machine)
    requires
        m.wf(),
        !m.done,
        m.pending.len() == 0,
        reads_raw(m),
        in_end_tag_name(m.state),
        !closing(m),
        !referring(m),
    ensures
        conserves(m, step(m)),
{
    let (n, t) = step(m);
    lemma_unread(m);
    if n.done {
        assert(residue(m) =~= seq![]);
    } else {
        assert(residue(m) =~= emitted(t) + residue(n));
    }
}

proof fn lemma_escape_conserves(m: Machine)
    requires
        m.wf(),
        !m.done,
        m.pending.len() == 0,
        reads_raw(m),
        in_script(m.state),
        !in_less_than(m.state),
        !in_solidus(m.state),
        !in_end_tag_name(m.state),
        !closing(m),
        !referring(m),
    ensures
        conserves(m, step(m)),
{
    let (n, t) = step(m);
    lemma_unread(m);
    if n.done {
        assert(residue(m) =~= seq![]);
    } else {
        assert(residue(m) =~= emitted(t) + residue(n));
    }
}

/// A step through such content neither adds nor drops anything; NUL counts as U+FFFD.
/// The exceptions are the end tag that closes the content, and character references in
/// RCDATA.
pub proof fn content_is_conserved(m: Machine)
    requires
        m.wf(),
        !m.done,
        reads_raw(m),
        !closing(m),
        !referring(m),
    ensures
        conserves(m, step(m)),
{
    let (n, t) = step(m);
    if m.pending.len() > 0 {
        assert(unread(n) == unread(m));
        assert(held(n) == held(m));
        assert(m.pending =~= emitted(t) + n.pending);
        assert(residue(m) =~= emitted(t) + residue(n));
    } else if content_of(m.state) == Some(m.state) {
        lemma_home_conserves(m);
    } else if in_end_tag_name(m.state) {
        lemma_name_conserves(m);
    } else if in_less_than(m.state) {
        lemma_less_than_conserves(m);
    } else if in_solidus(m.state) {
        lemma_solidus_conserves(m);
    } else {
        lemma_escape_conserves(m);
    }
}

/// The machine that has come to the end tag that closes the content, to a character
/// reference or to the end of the input.
pub open spec fn run_content(m: Machine) -> Machine
    decreases !m.done as int, m.left(), rank(m.state), m.pending.len(),
    when m.wf()
{
    if m.done || !reads_raw(m) || closing(m) || referring(m) || step(m).0.done {
        m
    } else {
        proof {
            lemma_step_advances(m);
        }
        run_content(step(m).0)
    }
}

/// Where the content ends there is no text before its end.
proof fn lemma_content_ends(m: Machine)
    requires
        m.wf(),
        !m.done,
        reads_raw(m),
        closing(m) || referring(m) || step(m).0.done,
    ensures
        closing(m) || referring(m) || (residue(m).len() == 0 && tokens(m) == seq![TokenView::EOF]),
        run_content(m) == m,
        residue(m) == residue(m).take(0) + residue(m),
        tokens(m) == characters(residue(m).take(0)) + tokens(m),
{
    assert(residue(m) =~= residue(m).take(0) + residue(m));
    assert(tokens(m) =~= characters(residue(m).take(0)) + tokens(m));
    if !closing(m) && !referring(m) {
        content_is_conserved(m);
        loud_step(m);
        assert(tokens(m) =~= seq![TokenView::EOF]);
    }
}

/// A step through the content adds what it emits to the text that comes after it.
proof fn lemma_content_goes_on(m: Machine, n: Machine)
    requires
        m.wf(),
        !m.done,
        conserves(m, step(m)),
        !step(m).0.done,
        ({
            let k = step(m).0;
            let rest = residue(k).take(residue(k).len() - residue(n).len());
            residue(k) == rest + residue(n) && tokens(k) == characters(rest) + tokens(n)
        }),
    ensures
        ({
            let text = residue(m).take(residue(m).len() - residue(n).len());
            residue(m) == text + residue(n) && tokens(m) == characters(text) + tokens(n)
        }),
{
    let (k, t) = step(m);
    let text = residue(m).take(residue(m).len() - residue(n).len());
    let rest = residue(k).take(residue(k).len() - residue(n).len());
    assert(residue(k).len() == rest.len() + residue(n).len());
    assert(text =~= emitted(t) + rest);
    lemma_step_of_text(m, text, rest, tokens(n));
    assert(residue(m) =~= text + residue(n));
}

/// Content that is not markup is emitted as it stands, NUL as U+FFFD, until an end tag
/// closes it, a character reference begins in it or the input ends. This holds of
/// scripts too, whatever escapes they hold.
pub proof fn content_is_literal(m: Machine)
    requires
        m.wf(),
        !m.done,
        reads_raw(m),
    ensures
        ({
            let n = run_content(m);
            let text = residue(m).take(residue(m).len() - residue(n).len());
            &&& closing(n) || referring(n) || (residue(n).len() == 0 && tokens(n) == seq![
                TokenView::EOF,
            ])
            &&& residue(m) == text + residue(n)
            &&& tokens(m) == characters(text) + tokens(n)
        }),
    decreases m.left(), rank(m.state), m.pending.len(),
{
    if closing(m) || referring(m) || step(m).0.done {
        lemma_content_ends(m);
    } else {
        let n = run_content(m);
        let (k, t) = step(m);
        content_is_conserved(m);
        lemma_step_advances(m);
        content_is_literal(k);
        lemma_content_goes_on(m, n);
    }
}

/// Where no end tag is appropriate, a script is text to the end of the input.
pub proof fn endless_script_is_literal(m: Machine)
    requires
        m.wf(),
        !m.done,
        reads_raw(m),
        content_of(m.state) != Some(State::RCDATA),
        m.end_tag_name is None,
    ensures
        tokens(m) == characters(residue(m)).push(TokenView::EOF),
    decreases m.left(), rank(m.state), m.pending.len(),
{
    let (n, t) = step(m);
    content_is_conserved(m);
    lemma_step_advances(m);
    if n.done {
        loud_step(m);
        assert(tokens(m) =~= characters(residue(m)).push(TokenView::EOF));
    } else {
        endless_script_is_literal(n);
        assert(tokens(n) =~= characters(residue(n)) + seq![TokenView::EOF]);
        lemma_step_of_text(m, residue(m), residue(n), seq![TokenView::EOF]);
        assert(tokens(m) =~= characters(residue(m)).push(TokenView::EOF));
    }
}

} // verus!
