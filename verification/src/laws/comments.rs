//! Comments extend to `-->`.

use crate::chars::{lowercase_all, visible};
use crate::laws::stream::{loud_step, quiet_step, rested};
use crate::laws::tags::at_rest;
use crate::laws::text::{text_ends, visible_all};
use crate::model::families::in_comment;
use crate::model::progress::{lemma_step_advances, rank};
use crate::model::runs::tokens;
use crate::model::{step, Machine};
use crate::types::{State, TokenView};
use vstd::prelude::*;

verus! {

/// Whether the input holds `-->` at `i`.
pub open spec fn closes_comment(input: Seq<char>, i: int) -> bool {
    0 <= i && i + 2 < input.len() && input[i] == '-' && input[i + 1] == '-' && input[i + 2] == '>'
}

/// Whether the input holds `--!>` at `i`.
pub open spec fn closes_comment_with_bang(input: Seq<char>, i: int) -> bool {
    0 <= i && i + 3 < input.len() && input[i] == '-' && input[i + 1] == '-' && input[i + 2] == '!'
        && input[i + 3] == '>'
}

/// Whether `state` is that after a single dash.
pub open spec fn after_dash(state: State) -> bool {
    state == State::CommentStartDash || state == State::CommentEndDash || state
        == State::CommentLessThanSignBangDash
}

/// Whether `state` is that after two dashes or more.
pub open spec fn after_dashes(state: State) -> bool {
    state == State::CommentEnd || state == State::CommentLessThanSignBangDashDash
}

/// What has been read of a comment and not added to its text.
pub open spec fn held_dashes(state: State) -> Seq<char> {
    if after_dash(state) {
        seq!['-']
    } else if after_dashes(state) {
        seq!['-', '-']
    } else if state == State::CommentEndBang {
        seq!['-', '-', '!']
    } else {
        seq![]
    }
}

/// Whether the machine reads a comment whose text begins at `start`, and its state
/// agrees with the dashes that it has read.
pub open spec fn commenting(m: Machine, start: int) -> bool {
    let here = rested(m).pos;
    &&& m.wf()
    &&& !m.done
    &&& m.pending.len() == 0
    &&& in_comment(m.state)
    &&& m.state != State::BogusComment
    &&& 0 <= start
    &&& start + held_dashes(m.state).len() <= here
    &&& m.comment + held_dashes(m.state) == visible_all(m.input.subrange(start, here))
    &&& m.state == State::CommentStart ==> here == start
    &&& m.state == State::CommentStartDash ==> here == start + 1
    &&& m.reconsume ==> m.state == State::Comment || m.state == State::CommentEnd
    &&& after_dash(m.state) ==> here == start + 1 || m.input[here - 2] != '-'
    &&& m.state == State::Comment && here > start && m.input[here - 1] == '-' ==> {
        &&& here < m.input.len()
        &&& m.input[here] != '-'
        &&& here > start + 1 && m.input[here - 2] == '-' ==> m.input[here] != '>' && m.input[here]
            != '!'
    }
    &&& here > start && m.input[here - 1] == '-' ==> after_dash(m.state) || after_dashes(m.state)
        || m.state == State::Comment
    &&& here > start + 1 && m.input[here - 1] == '-' && m.input[here - 2] == '-' ==> after_dashes(
        m.state,
    ) || m.state == State::Comment
    &&& here > start + 2 && m.input[here - 1] == '!' && m.input[here - 2] == '-' && m.input[here
        - 3] == '-' ==> {
        ||| m.state == State::CommentEndBang
        ||| m.state == State::Comment && here < m.input.len() && m.input[here] != '>'
            && m.input[here] != '-'
    }
}

/// What is held of a comment is what was read last.
proof fn lemma_held_dashes(m: Machine, start: int)
    requires
        commenting(m, start),
    ensures
        ({
            let here = rested(m).pos;
            &&& held_dashes(m.state).len() > 0 ==> m.input[here - 1] == if m.state
                == State::CommentEndBang {
                '!'
            } else {
                '-'
            }
            &&& held_dashes(m.state).len() > 1 ==> m.input[here - 2] == '-'
            &&& held_dashes(m.state).len() > 2 ==> m.input[here - 3] == '-'
            &&& m.comment == visible_all(
                m.input.subrange(start, here - held_dashes(m.state).len()),
            )
        }),
{
    let here = rested(m).pos;
    let held = held_dashes(m.state);
    let all = visible_all(m.input.subrange(start, here));
    let k = held.len();
    assert(all.len() == here - start);
    assert(m.comment.len() + k == all.len());
    assert forall|i: int| 0 < i <= k implies visible(#[trigger] m.input[here - i]) == held[k
        - i] by {
        assert(all[all.len() - i] == held[k - i]);
    }
    if k > 0 {
        assert(visible(m.input[here - 1]) == held[k - 1]);
    }
    if k > 1 {
        assert(visible(m.input[here - 2]) == held[k - 2]);
    }
    if k > 2 {
        assert(visible(m.input[here - 3]) == held[k - 3]);
    }
    assert(m.comment =~= (m.comment + held).take(m.comment.len() as int));
    assert(m.comment =~= visible_all(m.input.subrange(start, here - k)));
}

proof fn lemma_commenting_text(m: Machine, start: int)
    requires
        commenting(m, start),
        m.state == State::Comment || m.state == State::CommentStart || m.state
            == State::CommentStartDash,
        m.next() is Some,
        step(m).1 is None,
    ensures
        commenting(step(m).0, start),
{
    let n = step(m).0;
    let here = rested(m).pos;
    let there = rested(n).pos;
    let c = m.next()->0;
    lemma_step_advances(m);
    lemma_held_dashes(m, start);
    assert(m.input[here] == c);
    assert(here <= there <= here + 1);
    assert(visible_all(m.input.subrange(start, here + 1)) =~= visible_all(
        m.input.subrange(start, here),
    ).push(visible(c)));
    assert(n.comment + held_dashes(n.state) =~= visible_all(m.input.subrange(start, there)));
}

proof fn lemma_commenting_less_than(m: Machine, start: int)
    requires
        commenting(m, start),
        m.state == State::CommentLessThanSign || m.state == State::CommentLessThanSignBang
            || m.state == State::CommentLessThanSignBangDash || m.state
            == State::CommentLessThanSignBangDashDash,
        m.next() is Some,
        step(m).1 is None,
    ensures
        commenting(step(m).0, start),
{
    let n = step(m).0;
    let here = rested(m).pos;
    let there = rested(n).pos;
    let c = m.next()->0;
    lemma_step_advances(m);
    lemma_held_dashes(m, start);
    assert(m.input[here] == c);
    assert(here <= there <= here + 1);
    assert(visible_all(m.input.subrange(start, here + 1)) =~= visible_all(
        m.input.subrange(start, here),
    ).push(visible(c)));
    assert(n.comment + held_dashes(n.state) =~= visible_all(m.input.subrange(start, there)));
}

proof fn lemma_commenting_dash(m: Machine, start: int)
    requires
        commenting(m, start),
        m.state == State::CommentEndDash || m.state == State::CommentEndBang,
        m.next() is Some,
        step(m).1 is None,
    ensures
        commenting(step(m).0, start),
{
    let n = step(m).0;
    let here = rested(m).pos;
    let there = rested(n).pos;
    let c = m.next()->0;
    lemma_step_advances(m);
    lemma_held_dashes(m, start);
    assert(m.input[here] == c);
    assert(here <= there <= here + 1);
    assert(visible_all(m.input.subrange(start, here + 1)) =~= visible_all(
        m.input.subrange(start, here),
    ).push(visible(c)));
    assert(n.comment + held_dashes(n.state) =~= visible_all(m.input.subrange(start, there)));
}

proof fn lemma_commenting_end(m: Machine, start: int)
    requires
        commenting(m, start),
        m.state == State::CommentEnd,
        m.next() is Some,
        step(m).1 is None,
    ensures
        commenting(step(m).0, start),
{
    let n = step(m).0;
    let here = rested(m).pos;
    let there = rested(n).pos;
    let c = m.next()->0;
    lemma_step_advances(m);
    lemma_held_dashes(m, start);
    assert(m.input[here] == c);
    assert(here <= there <= here + 1);
    assert(visible_all(m.input.subrange(start, here + 1)) =~= visible_all(
        m.input.subrange(start, here),
    ).push(visible(c)));
    assert(n.comment + held_dashes(n.state) =~= visible_all(m.input.subrange(start, there)));
}

proof fn lemma_commenting_step(m: Machine, start: int)
    requires
        commenting(m, start),
        m.next() is Some,
        step(m).1 is None,
    ensures
        commenting(step(m).0, start),
{
    match m.state {
        State::Comment | State::CommentStart | State::CommentStartDash => {
            lemma_commenting_text(m, start);
        },
        State::CommentEndDash | State::CommentEndBang => {
            lemma_commenting_dash(m, start);
        },
        State::CommentEnd => {
            lemma_commenting_end(m, start);
        },
        _ => {
            lemma_commenting_less_than(m, start);
        },
    }
}

/// The machine behind the `-->` at `i`.
pub open spec fn behind_comment(m: Machine, i: int) -> Machine {
    Machine {
        pos: i + 3,
        state: State::Data,
        comment: seq![],
        reconsume: false,
        at_end: false,
        ..m
    }
}

/// A comment whose text begins at `start` extends to the first `-->`, and is emitted
/// with the text before that. It is cut short by `--!>` before that, and by `>` or `->`
/// at its beginning.
pub proof fn comment_ends_at_dashes(m: Machine, start: int, i: int)
    requires
        commenting(m, start),
        start <= i,
        rested(m).pos <= i + 2,
        closes_comment(m.input, i),
        forall|j: int| start <= j < i ==> !#[trigger] closes_comment(m.input, j),
        forall|j: int| start <= j < i ==> !#[trigger] closes_comment_with_bang(m.input, j),
        m.input[start] != '>',
        !(m.input[start] == '-' && m.input[start + 1] == '>'),
    ensures
        tokens(m) == seq![TokenView::Comment(visible_all(m.input.subrange(start, i)))] + tokens(
            behind_comment(m, i),
        ),
    decreases m.left(), rank(m.state),
{
    let here = rested(m).pos;
    let (n, t) = step(m);
    lemma_step_advances(m);
    lemma_held_dashes(m, start);
    assert(m.next() == Some(m.input[here]));
    if m.state == State::CommentEndBang {
        assert(!closes_comment_with_bang(m.input, here - 3));
    }
    if t is Some {
        assert(after_dashes(m.state));
        assert(closes_comment(m.input, here - 2));
        assert(here == i + 2);
        loud_step(m);
        assert(n == behind_comment(m, i));
    } else {
        lemma_commenting_step(m, start);
        quiet_step(m);
        assert(rested(n).pos <= i + 2);
        comment_ends_at_dashes(n, start, i);
        assert(behind_comment(n, i) == behind_comment(m, i));
    }
}

/// `<!--` in data opens a comment that extends to the first `-->`.
pub proof fn comment_is_emitted(m: Machine, i: int)
    requires
        m.wf(),
        !m.done,
        !m.reconsume,
        m.pending.len() == 0,
        m.state == State::Data,
        m.pos + 4 <= i,
        m.input.subrange(m.pos, m.pos + 4) == seq!['<', '!', '-', '-'],
        closes_comment(m.input, i),
        forall|j: int| m.pos + 4 <= j < i ==> !#[trigger] closes_comment(m.input, j),
        forall|j: int| m.pos + 4 <= j < i ==> !#[trigger] closes_comment_with_bang(m.input, j),
        m.input[m.pos + 4] != '>',
        !(m.input[m.pos + 4] == '-' && m.input[m.pos + 5] == '>'),
    ensures
        tokens(m) == seq![
            TokenView::Comment(visible_all(m.input.subrange(m.pos + 4, i))),
        ] + tokens(behind_comment(m, i)),
{
    let word = m.input.subrange(m.pos, m.pos + 4);
    assert(m.input[m.pos] == word[0]);
    assert(m.input[m.pos + 1] == word[1]);
    assert(m.input[m.pos + 2] == word[2]);
    assert(m.input[m.pos + 3] == word[3]);
    let m1 = step(m).0;
    quiet_step(m);
    let m2 = step(m1).0;
    quiet_step(m1);
    assert(m2.holds_at(m2.pos, "--"@)) by {
        reveal_strlit("--");
        assert(m2.input.subrange(m2.pos, m2.pos + 2) =~= "--"@);
    }
    let m3 = step(m2).0;
    quiet_step(m2);
    assert(m3.comment =~= visible_all(m.input.subrange(m.pos + 4, m.pos + 4)));
    comment_ends_at_dashes(m3, m.pos + 4, i);
    assert(behind_comment(m3, i) == behind_comment(m, i));
}

/// The machine behind the `--!>` at `i`.
pub open spec fn behind_bang(m: Machine, i: int) -> Machine {
    behind_comment(m, i + 1)
}

/// A comment is cut short by `--!>`, and is emitted with the text before that.
pub proof fn comment_ends_at_bang(m: Machine, start: int, i: int)
    requires
        commenting(m, start),
        start <= i,
        rested(m).pos <= i + 3,
        closes_comment_with_bang(m.input, i),
        forall|j: int| start <= j < i ==> !#[trigger] closes_comment(m.input, j),
        forall|j: int| start <= j < i ==> !#[trigger] closes_comment_with_bang(m.input, j),
        m.input[start] != '>',
        !(m.input[start] == '-' && m.input[start + 1] == '>'),
    ensures
        tokens(m) == seq![TokenView::Comment(visible_all(m.input.subrange(start, i)))] + tokens(
            behind_bang(m, i),
        ),
    decreases m.left(), rank(m.state),
{
    let here = rested(m).pos;
    let (n, t) = step(m);
    lemma_step_advances(m);
    lemma_held_dashes(m, start);
    assert(m.next() == Some(m.input[here]));
    if after_dashes(m.state) {
        assert(!closes_comment(m.input, here - 2));
    }
    if t is Some {
        assert(m.state == State::CommentEndBang);
        assert(closes_comment_with_bang(m.input, here - 3));
        assert(here == i + 3);
        loud_step(m);
        assert(n == behind_bang(m, i));
    } else {
        lemma_commenting_step(m, start);
        quiet_step(m);
        assert(rested(n).pos <= i + 3);
        comment_ends_at_bang(n, start, i);
        assert(behind_bang(n, i) == behind_bang(m, i));
    }
}

/// `s` without a `-`, `--` or `--!` at its end.
pub open spec fn without_dashes(s: Seq<char>) -> Seq<char> {
    let n = s.len() as int;
    if n >= 3 && s[n - 1] == '!' && s[n - 2] == '-' && s[n - 3] == '-' {
        s.take(n - 3)
    } else if n >= 2 && s[n - 1] == '-' && s[n - 2] == '-' {
        s.take(n - 2)
    } else if n >= 1 && s[n - 1] == '-' {
        s.take(n - 1)
    } else {
        s
    }
}

/// At the end of the input a comment is emitted without the dashes that it holds.
proof fn lemma_comment_at_end(m: Machine, start: int)
    requires
        commenting(m, start),
        m.next() is None,
        start <= m.input.len(),
    ensures
        tokens(m) == seq![
            TokenView::Comment(visible_all(without_dashes(m.input.skip(start)))),
            TokenView::EOF,
        ],
{
    let here = rested(m).pos;
    let (n, t) = step(m);
    lemma_held_dashes(m, start);
    let all = m.input.skip(start);
    let k = held_dashes(m.state).len();
    assert(here == m.input.len());
    assert(all.len() == here - start);
    if all.len() >= 1 {
        assert(all[all.len() - 1] == m.input[here - 1]);
    }
    if all.len() >= 2 {
        assert(all[all.len() - 2] == m.input[here - 2]);
    }
    if all.len() >= 3 {
        assert(all[all.len() - 3] == m.input[here - 3]);
    }
    assert(without_dashes(all) =~= m.input.subrange(start, here - k));
    loud_step(m);
    assert(t == Some(TokenView::Comment(visible_all(without_dashes(all))))) by {
        if m.state == State::CommentStart || m.state == State::CommentStartDash {
            assert(visible_all(without_dashes(all)) =~= seq![]);
        }
    }
    text_ends(n);
    assert(tokens(m) =~= seq![t->0, TokenView::EOF]);
}

/// A comment that nothing closes ends with the input, and is emitted with its text, but for
/// dashes at the end that might have closed it.
pub proof fn unclosed_comment_ends_with_the_input(m: Machine, start: int)
    requires
        commenting(m, start),
        start <= m.input.len(),
        forall|j: int| start <= j ==> !#[trigger] closes_comment(m.input, j),
        forall|j: int| start <= j ==> !#[trigger] closes_comment_with_bang(m.input, j),
        start < m.input.len() ==> m.input[start] != '>',
        start + 1 < m.input.len() ==> !(m.input[start] == '-' && m.input[start + 1] == '>'),
    ensures
        tokens(m) == seq![
            TokenView::Comment(visible_all(without_dashes(m.input.skip(start)))),
            TokenView::EOF,
        ],
    decreases m.left(), rank(m.state),
{
    let here = rested(m).pos;
    let (n, t) = step(m);
    lemma_step_advances(m);
    lemma_held_dashes(m, start);
    if m.next() is Some {
        assert(m.next() == Some(m.input[here]));
        if after_dashes(m.state) {
            assert(!closes_comment(m.input, here - 2));
        }
        if m.state == State::CommentEndBang {
            assert(!closes_comment_with_bang(m.input, here - 3));
        }
        assert(t is None);
        lemma_commenting_step(m, start);
        quiet_step(m);
        unclosed_comment_ends_with_the_input(n, start);
    } else {
        lemma_comment_at_end(m, start);
    }
}

/// The machine behind `<!--` in data.
proof fn lemma_comment_opened(m: Machine) -> (n: Machine)
    requires
        at_rest(m),
        m.state == State::Data,
        m.holds_at(m.pos, seq!['<', '!', '-', '-']),
    ensures
        n == (Machine { pos: m.pos + 4, state: State::CommentStart, comment: seq![], ..m }),
        tokens(m) == tokens(n),
        commenting(n, m.pos + 4),
{
    let word = m.input.subrange(m.pos, m.pos + 4);
    assert(m.input[m.pos] == word[0]);
    assert(m.input[m.pos + 1] == word[1]);
    assert(m.input[m.pos + 2] == word[2]);
    assert(m.input[m.pos + 3] == word[3]);
    let m1 = step(m).0;
    quiet_step(m);
    let m2 = step(m1).0;
    quiet_step(m1);
    assert(m2.holds_at(m2.pos, "--"@)) by {
        reveal_strlit("--");
        assert(m2.input.subrange(m2.pos, m2.pos + 2) =~= "--"@);
    }
    let n = step(m2).0;
    quiet_step(m2);
    assert(n.comment + held_dashes(n.state) =~= visible_all(
        m.input.subrange(m.pos + 4, m.pos + 4),
    ));
    n
}

/// `<!-->` and `<!--->` are empty comments.
pub proof fn abrupt_comment_is_empty(m: Machine, dash: bool)
    requires
        at_rest(m),
        m.state == State::Data,
        m.holds_at(m.pos, seq!['<', '!', '-', '-']),
        m.pos + 5 < m.input.len() || (!dash && m.pos + 4 < m.input.len()),
        dash ==> m.input[m.pos + 4] == '-' && m.input[m.pos + 5] == '>',
        !dash ==> m.input[m.pos + 4] == '>',
    ensures
        tokens(m) == seq![TokenView::Comment(seq![])] + tokens(
            Machine {
                pos: m.pos + if dash {
                    6int
                } else {
                    5
                },
                comment: seq![],
                ..m
            },
        ),
{
    let n = lemma_comment_opened(m);
    if dash {
        quiet_step(n);
        loud_step(step(n).0);
    } else {
        loud_step(n);
    }
}

/// `<!--` in data opens a comment that `--!>` may cut short.
pub proof fn comment_with_bang_is_emitted(m: Machine, i: int)
    requires
        at_rest(m),
        m.state == State::Data,
        m.pos + 4 <= i,
        m.holds_at(m.pos, seq!['<', '!', '-', '-']),
        closes_comment_with_bang(m.input, i),
        forall|j: int| m.pos + 4 <= j < i ==> !#[trigger] closes_comment(m.input, j),
        forall|j: int| m.pos + 4 <= j < i ==> !#[trigger] closes_comment_with_bang(m.input, j),
        m.input[m.pos + 4] != '>',
        !(m.input[m.pos + 4] == '-' && m.input[m.pos + 5] == '>'),
    ensures
        tokens(m) == seq![
            TokenView::Comment(visible_all(m.input.subrange(m.pos + 4, i))),
        ] + tokens(behind_bang(m, i)),
{
    let n = lemma_comment_opened(m);
    comment_ends_at_bang(n, m.pos + 4, i);
    assert(behind_bang(n, i) == behind_bang(m, i));
}

/// `<!--` in data opens a comment that ends with the input where nothing closes it.
pub proof fn unclosed_comment_is_emitted(m: Machine)
    requires
        at_rest(m),
        m.state == State::Data,
        m.holds_at(m.pos, seq!['<', '!', '-', '-']),
        forall|j: int| m.pos + 4 <= j ==> !#[trigger] closes_comment(m.input, j),
        forall|j: int| m.pos + 4 <= j ==> !#[trigger] closes_comment_with_bang(m.input, j),
        m.pos + 4 < m.input.len() ==> m.input[m.pos + 4] != '>',
        m.pos + 5 < m.input.len() ==> !(m.input[m.pos + 4] == '-' && m.input[m.pos + 5] == '>'),
    ensures
        tokens(m) == seq![
            TokenView::Comment(visible_all(without_dashes(m.input.skip(m.pos + 4)))),
            TokenView::EOF,
        ],
{
    let n = lemma_comment_opened(m);
    unclosed_comment_ends_with_the_input(n, m.pos + 4);
}

/// A bogus comment extends to the first `>`, or to the end of the input.
pub proof fn bogus_comment_ends_at_greater_than(m: Machine, i: int)
    requires
        m.wf(),
        !m.done,
        !m.reconsume,
        m.pending.len() == 0,
        m.state == State::BogusComment,
        m.pos <= i <= m.input.len(),
        forall|j: int| m.pos <= j < i ==> #[trigger] m.input[j] != '>',
        i < m.input.len() ==> m.input[i] == '>',
    ensures
        tokens(m) == seq![
            TokenView::Comment(m.comment + visible_all(m.input.subrange(m.pos, i))),
        ] + tokens(
            Machine {
                pos: if i < m.input.len() {
                    i + 1
                } else {
                    i
                },
                state: State::Data,
                comment: seq![],
                at_end: i == m.input.len(),
                ..m
            },
        ),
    decreases i - m.pos,
{
    let text = visible_all(m.input.subrange(m.pos, i));
    let n = step(m).0;
    if m.pos == i {
        assert(m.comment + text =~= m.comment);
        loud_step(m);
    } else {
        assert(m.input[m.pos] != '>');
        quiet_step(m);
        bogus_comment_ends_at_greater_than(n, i);
        assert(n.comment + visible_all(m.input.subrange(n.pos, i)) =~= m.comment + text);
    }
}

/// A bogus comment that no `>` closes ends with the input: it holds all that is left, and
/// nothing but the end of the file comes after it.
pub proof fn bogus_comment_ends_with_the_input(m: Machine)
    requires
        m.wf(),
        !m.done,
        !m.reconsume,
        m.pending.len() == 0,
        m.state == State::BogusComment,
        forall|j: int| m.pos <= j < m.input.len() ==> #[trigger] m.input[j] != '>',
    ensures
        tokens(m) == seq![
            TokenView::Comment(m.comment + visible_all(m.input.skip(m.pos))),
            TokenView::EOF,
        ],
{
    let end = m.input.len() as int;
    bogus_comment_ends_at_greater_than(m, end);
    assert(m.input.subrange(m.pos, end) =~= m.input.skip(m.pos));
    let last = Machine { pos: end, state: State::Data, comment: seq![], at_end: true, ..m };
    text_ends(last);
    assert(tokens(m) =~= seq![
        TokenView::Comment(m.comment + visible_all(m.input.skip(m.pos))),
        TokenView::EOF,
    ]);
}

/// `<![CDATA[` opens a CDATA section in foreign content; elsewhere it begins a bogus
/// comment, of which `[CDATA[` is part.
pub proof fn sections_need_foreign_content(m: Machine)
    requires
        m.wf(),
        !m.done,
        m.pending.len() == 0,
        m.state == State::MarkupDeclarationOpen,
        m.holds_at(m.pos, "[CDATA["@),
    ensures
        tokens(m) == tokens(
            if m.foreign {
                Machine { pos: m.pos + 7, state: State::CDATASection, ..m }
            } else {
                Machine { pos: m.pos + 7, state: State::BogusComment, comment: "[CDATA["@, ..m }
            },
        ),
{
    reveal_strlit("[CDATA[");
    reveal_strlit("--");
    reveal_strlit("DOCTYPE");
    assert(m.input[m.pos] == '[') by {
        assert(m.input.subrange(m.pos, m.pos + 7)[0] == "[CDATA["@[0]);
    }
    assert(!m.holds_at(m.pos, "--"@)) by {
        assert(m.input.subrange(m.pos, m.pos + 2)[0] != "--"@[0]);
    }
    assert(!m.spells_at(m.pos, "DOCTYPE"@)) by {
        assert(lowercase_all(m.input.subrange(m.pos, m.pos + 7))[0] == '[');
        assert(lowercase_all("DOCTYPE"@)[0] == 'd');
    }
    quiet_step(m);
}

} // verus!
