//! What repeated calls return, and where they lead.

use crate::laws::raw::{
    after_less_than, after_solidus, at_end_tag, closes_at, content_of, is_closing, is_raw,
    lemma_scan_step, lemma_scannable, name_state, scan_start, scanning,
};
use crate::laws::stream::{loud_step, next_token_is_first, quiet_step};
use crate::laws::text::literal;
use crate::model::progress::{lemma_step_advances, rank};
use crate::model::runs::{lemma_next_token, next_token, tokens};
use crate::model::{step, Machine};
use crate::types::State;
use vstd::prelude::*;

verus! {

/// The machine that has been asked for its next token `k` times.
pub open spec fn after_calls(m: Machine, k: nat) -> Machine
    decreases k,
{
    if k == 0 {
        m
    } else {
        after_calls(next_token(m).0, (k - 1) as nat)
    }
}

/// The machine that has emitted all its tokens.
pub open spec fn finished(m: Machine) -> Machine
    decreases !m.done as int, m.left(), rank(m.state), m.pending.len(),
    when m.wf()
{
    if m.done {
        m
    } else {
        proof {
            lemma_step_advances(m);
        }
        finished(step(m).0)
    }
}

/// Asked again and again for its next token, the machine gives all its tokens in order,
/// and none after them.
pub proof fn calls_yield_the_tokens(m: Machine, k: nat)
    requires
        m.wf(),
    ensures
        after_calls(m, k).wf(),
        next_token(after_calls(m, k)).1 == if k < tokens(m).len() {
            Some(tokens(m)[k as int])
        } else {
            None
        },
    decreases k,
{
    next_token_is_first(m);
    lemma_next_token(m);
    let n = next_token(m).0;
    if k > 0 {
        calls_yield_the_tokens(n, (k - 1) as nat);
    }
}

/// The machine that has been asked for its next token is on the way to the same end.
proof fn lemma_next_token_finishes(m: Machine)
    requires
        m.wf(),
    ensures
        finished(next_token(m).0) == finished(m),
    decreases !m.done as int, m.left(), rank(m.state), m.pending.len(),
{
    if !m.done {
        lemma_step_advances(m);
        if step(m).1 is None {
            quiet_step(m);
            lemma_next_token_finishes(step(m).0);
        } else {
            loud_step(m);
        }
    }
}

/// Asked often enough, the machine has emitted all its tokens, and stays as it is then.
pub proof fn calls_lead_to_the_end(m: Machine, k: nat)
    requires
        m.wf(),
        k >= tokens(m).len(),
    ensures
        after_calls(m, k) == finished(m),
    decreases k,
{
    next_token_is_first(m);
    lemma_next_token(m);
    if m.done {
        if k > 0 {
            calls_lead_to_the_end(m, (k - 1) as nat);
        }
    } else {
        lemma_next_token_finishes(m);
        calls_lead_to_the_end(next_token(m).0, (k - 1) as nat);
    }
}

/// What is set from outside is changed by no call.
pub proof fn calls_keep_settings(m: Machine, k: nat)
    requires
        m.wf(),
    ensures
        after_calls(m, k).input == m.input,
        after_calls(m, k).end_tag_name == m.end_tag_name,
        after_calls(m, k).foreign == m.foreign,
    decreases k,
{
    if k > 0 {
        lemma_next_token(m);
        lemma_next_token_keeps_settings(m);
        calls_keep_settings(next_token(m).0, (k - 1) as nat);
    }
}

proof fn lemma_next_token_keeps_settings(m: Machine)
    requires
        m.wf(),
    ensures
        next_token(m).0.input == m.input,
        next_token(m).0.end_tag_name == m.end_tag_name,
        next_token(m).0.foreign == m.foreign,
    decreases !m.done as int, m.left(), rank(m.state), m.pending.len(),
{
    if !m.done {
        lemma_step_advances(m);
        if step(m).1 is None {
            quiet_step(m);
            lemma_next_token_keeps_settings(step(m).0);
        } else {
            loud_step(m);
        }
    }
}

/// Where all that is left of the input is mere text, every call leaves the state as it
/// is.
pub proof fn text_keeps_the_state(m: Machine, k: nat)
    requires
        m.wf(),
        !m.reconsume,
        m.pending.len() == 0,
        m.state == State::Data || literal(m.state, 'a') is Some,
        forall|i: int|
            m.pos <= i < m.input.len() ==> literal(m.state, #[trigger] m.input[i]) is Some,
    ensures
        after_calls(m, k).state == m.state,
    decreases k,
{
    if k > 0 {
        let n = next_token(m).0;
        if !m.done {
            if m.pos < m.input.len() {
                assert(literal(m.state, m.input[m.pos]) is Some);
            }
            lemma_step_advances(m);
            loud_step(m);
        }
        text_keeps_the_state(n, (k - 1) as nat);
    }
}

/// Content is done with in its own state.
proof fn lemma_done_at_home(m: Machine)
    requires
        scanning(m),
        step(m).0.done,
    ensures
        Some(step(m).0.state) == content_of(m.state),
{
    if m.pending.len() == 0 && after_less_than(m.state) {
        assert(!step(m).0.done);
    } else if m.pending.len() == 0 && after_solidus(m.state) {
        assert(!step(m).0.done);
    } else if m.pending.len() == 0 && m.state == name_state(content_of(m.state)->0) {
        assert(!step(m).0.done);
    }
}

/// Content that nothing closes is read to the end of the input in its own state.
pub proof fn unclosed_content_keeps_its_state(m: Machine)
    requires
        scanning(m),
        forall|j: int| scan_start(m) <= j ==> !#[trigger] closes_at(m.input, j, m.end_tag_name),
        is_raw(content_of(m.state)->0, m.input, scan_start(m), m.input.len() as int),
    ensures
        Some(finished(m).state) == content_of(m.state),
    decreases m.left(), rank(m.state), m.pending.len(),
{
    let n = step(m).0;
    assert(!closes_at(m.input, scan_start(m), m.end_tag_name));
    lemma_scannable(m, m.input.len() as int);
    lemma_scan_step(m);
    lemma_step_advances(m);
    assert(finished(m) == finished(n));
    if n.done {
        lemma_done_at_home(m);
        assert(finished(n) == n);
    } else {
        unclosed_content_keeps_its_state(n);
    }
}

/// Content leads to the first end tag that closes it.
pub proof fn content_leads_to_its_end_tag(m: Machine, i: int)
    requires
        scanning(m),
        scan_start(m) <= i,
        closes_at(m.input, i, m.end_tag_name),
        forall|j: int|
            scan_start(m) <= j < i ==> !#[trigger] closes_at(m.input, j, m.end_tag_name),
        is_raw(content_of(m.state)->0, m.input, scan_start(m), i),
    ensures
        finished(m) == finished(at_end_tag(m, i)),
    decreases m.left(), rank(m.state), m.pending.len(),
{
    if m.pending.len() == 0 && is_closing(m) {
        assert(m =~= at_end_tag(m, i));
    } else {
        let n = step(m).0;
        lemma_scannable(m, i);
        lemma_scan_step(m);
        lemma_step_advances(m);
        assert(scan_start(n) <= i);
        content_leads_to_its_end_tag(n, i);
        assert(at_end_tag(n, i) == at_end_tag(m, i));
    }
}

} // verus!
