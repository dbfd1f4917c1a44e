//! The content of an element whose text is not markup ends with its end tag.

use crate::chars::{alphabetic, lowercase, lowercase_all, space};
use crate::laws::stream::loud_step;
use crate::laws::text::{characters, emitted, lemma_step_of_text, visible_all};
use crate::model::progress::{lemma_step_advances, rank};
use crate::model::runs::tokens;
use crate::model::{step, Machine};
use crate::types::{State, TagKind, TagView, TokenView};
use vstd::prelude::*;

verus! {

/// The content that is read in `state`, or that an end tag may close there.
pub open spec fn content_of(state: State) -> Option<State> {
    match state {
        State::RCDATA
        | State::RCDATALessThanSign
        | State::RCDATAEndTagOpen
        | State::RCDATAEndTagName => Some(State::RCDATA),
        State::RAWTEXT
        | State::RAWTEXTLessThanSign
        | State::RAWTEXTEndTagOpen
        | State::RAWTEXTEndTagName => Some(State::RAWTEXT),
        State::ScriptData
        | State::ScriptDataLessThanSign
        | State::ScriptDataEndTagOpen
        | State::ScriptDataEndTagName => Some(State::ScriptData),
        _ => None,
    }
}

/// Whether `state` is that after `<`.
pub open spec fn after_less_than(state: State) -> bool {
    state == State::RCDATALessThanSign || state == State::RAWTEXTLessThanSign || state
        == State::ScriptDataLessThanSign
}

/// Whether `state` is that after `</`.
pub open spec fn after_solidus(state: State) -> bool {
    state == State::RCDATAEndTagOpen || state == State::RAWTEXTEndTagOpen || state
        == State::ScriptDataEndTagOpen
}

/// The state in which the name of an end tag is read.
pub open spec fn name_state(content: State) -> State {
    match content {
        State::RCDATA => State::RCDATAEndTagName,
        State::RAWTEXT => State::RAWTEXTEndTagName,
        _ => State::ScriptDataEndTagName,
    }
}

/// Whether the input holds, at `i`, an end tag with the name `name`, in any case,
/// up to what ends the name.
pub open spec fn closes_at(input: Seq<char>, i: int, name: Option<Seq<char>>) -> bool {
    name matches Some(name) && {
        let end = i + 2 + name.len();
        &&& 0 <= i
        &&& name.len() > 0
        &&& end < input.len()
        &&& input[i] == '<'
        &&& input[i + 1] == '/'
        &&& forall|k: int| i + 2 <= k < end ==> alphabetic(#[trigger] input[k])
        &&& lowercase_all(input.subrange(i + 2, end)) == name
        &&& space(input[end]) || input[end] == '/' || input[end] == '>'
    }
}

/// An end tag of which nothing but the name has been read.
pub open spec fn end_tag(name: Seq<char>) -> TagView {
    TagView { kind: TagKind::End, name, attrs: seq![], self_closing: false }
}

/// Whether the machine is in such content, and its state agrees with what it has read
/// of an end tag.
pub open spec fn scanning(m: Machine) -> bool {
    &&& m.wf()
    &&& !m.done
    &&& content_of(m.state) matches Some(content) && {
        let i = scan_start(m);
        if after_less_than(m.state) {
            !m.reconsume && 0 <= i && m.input[i] == '<'
        } else if after_solidus(m.state) {
            !m.reconsume && 0 <= i && m.input[i] == '<' && m.input[i + 1] == '/' && m.buffer.len()
                == 0
        } else if m.state == name_state(content) {
            &&& !m.reconsume
            &&& 0 <= i
            &&& m.input[i] == '<'
            &&& m.input[i + 1] == '/'
            &&& m.buffer.len() > 0
            &&& m.buffer == m.input.subrange(i + 2, m.pos)
            &&& forall|k: int| i + 2 <= k < m.pos ==> alphabetic(#[trigger] m.input[k])
            &&& m.tag == Some(end_tag(lowercase_all(m.buffer)))
        } else {
            true
        }
    }
}

/// Where the text begins that is yet to be emitted.
pub open spec fn scan_start(m: Machine) -> int {
    if after_less_than(m.state) {
        m.pos - 1
    } else if after_solidus(m.state) {
        m.pos - 2
    } else if content_of(m.state) matches Some(content) && m.state == name_state(content) {
        m.pos - 2 - m.buffer.len()
    } else if m.reconsume && !m.at_end {
        m.pos - 1
    } else {
        m.pos
    }
}

/// The machine that has read the end tag at `i` up to the end of its name.
pub open spec fn at_end_tag(m: Machine, i: int) -> Machine {
    let name = m.end_tag_name->0;
    let end = i + 2 + name.len();
    Machine {
        pos: end,
        state: name_state(content_of(m.state)->0),
        tag: Some(end_tag(name)),
        buffer: m.input.subrange(i + 2, end),
        pending: seq![],
        reconsume: false,
        at_end: false,
        ..m
    }
}

/// Whether what is read next is text wherever it stands in the content: in RCDATA it
/// is not `&`, in script data not the `!` of `<!`.
pub open spec fn scannable(m: Machine) -> bool {
    m.pending.len() == 0 ==> {
        &&& m.state == State::RCDATA ==> m.next() != Some('&')
        &&& m.state == State::ScriptDataLessThanSign ==> m.next() != Some('!')
    }
}

/// `n` follows `m` with the text between them emitted or pending.
pub open spec fn scanned(m: Machine, n: Machine, t: Option<TokenView>) -> bool {
    &&& scanning(n)
    &&& content_of(n.state) == content_of(m.state)
    &&& n.input == m.input
    &&& n.end_tag_name == m.end_tag_name
    &&& scan_start(m) <= scan_start(n) <= m.input.len()
    &&& t is None || (t matches Some(TokenView::Character(_)))
    &&& m.pending + visible_all(m.input.subrange(scan_start(m), scan_start(n))) == emitted(t)
        + n.pending
    &&& forall|i: int| #![all_triggers] at_end_tag(n, i) == at_end_tag(m, i)
}

proof fn lemma_scan_home(m: Machine)
    requires
        scanning(m),
        scannable(m),
        m.pending.len() == 0,
        content_of(m.state) == Some(m.state),
        m.next() is Some,
    ensures
        scanned(m, step(m).0, step(m).1),
        step(m).0.pos == m.read().pos,
{
    let (n, t) = step(m);
    assert(m.pending + visible_all(m.input.subrange(scan_start(m), scan_start(n))) =~= emitted(t)
        + n.pending);
}

proof fn lemma_scan_less_than(m: Machine)
    requires
        scanning(m),
        scannable(m),
        m.pending.len() == 0,
        after_less_than(m.state),
    ensures
        scanned(m, step(m).0, step(m).1),
{
    let (n, t) = step(m);
    assert(m.pending + visible_all(m.input.subrange(scan_start(m), scan_start(n))) =~= emitted(t)
        + n.pending);
}

proof fn lemma_scan_solidus(m: Machine)
    requires
        scanning(m),
        m.pending.len() == 0,
        after_solidus(m.state),
    ensures
        scanned(m, step(m).0, step(m).1),
{
    let (n, t) = step(m);
    assert(m.pending + visible_all(m.input.subrange(scan_start(m), scan_start(n))) =~= emitted(t)
        + n.pending);
    if let Some(c) = m.next() {
        if alphabetic(c) {
            assert(n.buffer =~= m.input.subrange(n.pos - 1, n.pos));
            assert(lowercase_all(n.buffer) =~= seq![lowercase(c)]);
        }
    }
}

/// Whether the machine has read the whole name of an end tag that closes the content.
pub open spec fn is_closing(m: Machine) -> bool {
    &&& content_of(m.state) matches Some(content)
    &&& m.state == name_state(content)
    &&& closes_at(m.input, scan_start(m), m.end_tag_name)
    &&& m.buffer.len() == m.end_tag_name->0.len()
}

proof fn lemma_scan_name(m: Machine)
    requires
        scanning(m),
        m.pending.len() == 0,
        m.state == name_state(content_of(m.state)->0),
        !is_closing(m),
    ensures
        scanned(m, step(m).0, step(m).1),
        scan_start(step(m).0) == scan_start(m) || scan_start(step(m).0) == m.pos,
        scan_start(step(m).0) != scan_start(m) ==> !closes_at(
            m.input,
            scan_start(m),
            m.end_tag_name,
        ),
{
    let (n, t) = step(m);
    let i = scan_start(m);
    if let Some(c) = m.next() {
        if alphabetic(c) {
            assert(n.buffer =~= m.input.subrange(i + 2, n.pos));
            assert(lowercase_all(n.buffer) =~= lowercase_all(m.buffer).push(lowercase(c)));
        }
    }
    if closes_at(m.input, i, m.end_tag_name) {
        let name = m.end_tag_name->0;
        let end = i + 2 + name.len();
        assert(!alphabetic(m.input[end]));
        assert(m.pos <= end);
        if m.pos == end {
            assert(m.buffer.len() == name.len());
        }
        assert(m.pos < end);
        assert(alphabetic(m.input[m.pos]));
    } else if m.appropriate() {
        assert(lowercase_all(m.input.subrange(i + 2, m.pos)) == m.end_tag_name->0);
        assert(lowercase_all(m.buffer).len() == m.buffer.len());
    }
    assert(m.pending + visible_all(m.input.subrange(i, scan_start(n))) =~= emitted(t)
        + n.pending);
}

/// One step through the content.
pub(crate) proof fn lemma_scan_step(m: Machine)
    requires
        scanning(m),
        scannable(m),
        m.pending.len() == 0 ==> !is_closing(m),
    ensures
        ({
            let (n, t) = step(m);
            if n.done {
                scan_start(m) == m.input.len() && m.pending.len() == 0
            } else {
                scanned(m, n, t) && forall|i: int|
                    scan_start(m) <= i < scan_start(n) ==> !#[trigger] closes_at(
                        m.input,
                        i,
                        m.end_tag_name,
                    )
            }
        }),
{
    let (n, t) = step(m);
    lemma_step_advances(m);
    if m.pending.len() > 0 {
        assert(m.pending + visible_all(m.input.subrange(scan_start(m), scan_start(n)))
            =~= emitted(t) + n.pending);
    } else if content_of(m.state) == Some(m.state) {
        if m.next() is Some {
            lemma_scan_home(m);
        }
    } else if after_less_than(m.state) {
        lemma_scan_less_than(m);
    } else if after_solidus(m.state) {
        lemma_scan_solidus(m);
    } else {
        lemma_scan_name(m);
        assert forall|i: int| scan_start(m) < i < scan_start(n) implies !#[trigger] closes_at(
            m.input,
            i,
            m.end_tag_name,
        ) by {
            if i > scan_start(m) + 1 {
                assert(alphabetic(m.input[i]));
            }
        }
    }
}

/// Whether nothing but `&` in RCDATA and `<!` in script data stands in the way of
/// reading `input` as mere text from `from` to `to`.
pub open spec fn is_raw(content: State, input: Seq<char>, from: int, to: int) -> bool {
    &&& content == State::RCDATA ==> forall|k: int|
        from <= k < to ==> #[trigger] input[k] != '&'
    &&& content == State::ScriptData ==> forall|k: int|
        from <= k < to && k + 1 < input.len() && #[trigger] input[k] == '<' ==> input[k + 1] != '!'
}

proof fn lemma_split(input: Seq<char>, from: int, mid: int, to: int)
    requires
        0 <= from <= mid <= to <= input.len(),
    ensures
        visible_all(input.subrange(from, to)) == visible_all(input.subrange(from, mid))
            + visible_all(input.subrange(mid, to)),
{
    assert(visible_all(input.subrange(from, to)) =~= visible_all(input.subrange(from, mid))
        + visible_all(input.subrange(mid, to)));
}

pub(crate) proof fn lemma_scannable(m: Machine, i: int)
    requires
        scanning(m),
        scan_start(m) <= i <= m.input.len(),
        i < m.input.len() ==> closes_at(m.input, i, m.end_tag_name),
        is_raw(content_of(m.state)->0, m.input, scan_start(m), i),
    ensures
        scannable(m),
{
    let start = scan_start(m);
    if m.state == State::ScriptDataLessThanSign {
        assert(m.input[start] == '<');
    }
}

/// One step through content that reads mere text, up to `to`.
proof fn lemma_scan_text(m: Machine, to: int)
    requires
        scanning(m),
        scannable(m),
        m.pending.len() == 0 ==> !is_closing(m),
        !step(m).0.done,
        scan_start(step(m).0) <= to <= m.input.len(),
    ensures
        ({
            let (n, t) = step(m);
            m.pending + visible_all(m.input.subrange(scan_start(m), to)) == emitted(t) + (n.pending
                + visible_all(m.input.subrange(scan_start(n), to)))
        }),
{
    let (n, t) = step(m);
    lemma_scan_step(m);
    let head = visible_all(m.input.subrange(scan_start(m), scan_start(n)));
    let tail = visible_all(m.input.subrange(scan_start(n), to));
    lemma_split(m.input, scan_start(m), scan_start(n), to);
    assert(m.pending + (head + tail) =~= (m.pending + head) + tail);
    assert((emitted(t) + n.pending) + tail =~= emitted(t) + (n.pending + tail));
}

/// Content is emitted as it stands up to the first end tag that closes it, and that
/// end tag is read as such. This holds of RAWTEXT, of RCDATA without `&` and of script
/// data without `<!`.
pub proof fn content_ends_with_its_end_tag(m: Machine, i: int)
    requires
        scanning(m),
        scan_start(m) <= i,
        closes_at(m.input, i, m.end_tag_name),
        forall|j: int|
            scan_start(m) <= j < i ==> !#[trigger] closes_at(m.input, j, m.end_tag_name),
        is_raw(content_of(m.state)->0, m.input, scan_start(m), i),
    ensures
        tokens(m) == characters(
            m.pending + visible_all(m.input.subrange(scan_start(m), i)),
        ) + tokens(at_end_tag(m, i)),
    decreases m.left(), rank(m.state), m.pending.len(),
{
    let start = scan_start(m);
    let all = m.pending + visible_all(m.input.subrange(start, i));
    if m.pending.len() == 0 && is_closing(m) {
        assert(start == i);
        assert(m =~= at_end_tag(m, i));
        assert(tokens(m) =~= characters(all) + tokens(m));
    } else {
        let (n, t) = step(m);
        lemma_scannable(m, i);
        lemma_scan_step(m);
        lemma_step_advances(m);
        assert(scan_start(n) <= i);
        content_ends_with_its_end_tag(n, i);
        assert(at_end_tag(n, i) == at_end_tag(m, i));
        let rest = n.pending + visible_all(m.input.subrange(scan_start(n), i));
        lemma_scan_text(m, i);
        lemma_step_of_text(m, all, rest, tokens(at_end_tag(m, i)));
    }
}

/// Content that nothing closes is emitted as it stands to the end of the input.
pub proof fn unclosed_content_is_literal(m: Machine)
    requires
        scanning(m),
        forall|j: int| scan_start(m) <= j ==> !#[trigger] closes_at(m.input, j, m.end_tag_name),
        is_raw(content_of(m.state)->0, m.input, scan_start(m), m.input.len() as int),
    ensures
        tokens(m) == characters(
            m.pending + visible_all(m.input.skip(scan_start(m))),
        ).push(TokenView::EOF),
    decreases m.left(), rank(m.state), m.pending.len(),
{
    let start = scan_start(m);
    let all = m.pending + visible_all(m.input.skip(start));
    let (n, t) = step(m);
    assert(!closes_at(m.input, start, m.end_tag_name));
    lemma_scannable(m, m.input.len() as int);
    lemma_scan_step(m);
    lemma_step_advances(m);
    if n.done {
        loud_step(m);
        assert(tokens(m) =~= characters(all).push(TokenView::EOF));
    } else {
        unclosed_content_is_literal(n);
        let end = m.input.len() as int;
        let rest = n.pending + visible_all(m.input.skip(scan_start(n)));
        lemma_scan_text(m, end);
        assert(m.input.subrange(start, end) =~= m.input.skip(start));
        assert(m.input.subrange(scan_start(n), end) =~= m.input.skip(scan_start(n)));
        assert(tokens(n) =~= characters(rest) + seq![TokenView::EOF]);
        lemma_step_of_text(m, all, rest, seq![TokenView::EOF]);
        assert(tokens(m) =~= characters(all).push(TokenView::EOF));
    }
}

/// Where `>` follows the name of an end tag that closes the content, the end tag is
/// emitted, and reading goes on behind it in the data state.
pub proof fn end_tag_is_emitted(m: Machine, i: int)
    requires
        scanning(m),
        closes_at(m.input, i, m.end_tag_name),
        m.input[i + 2 + m.end_tag_name->0.len()] == '>',
    ensures
        tokens(at_end_tag(m, i)) == seq![TokenView::Tag(end_tag(m.end_tag_name->0))] + tokens(
            Machine {
                pos: i + 3 + m.end_tag_name->0.len(),
                state: State::Data,
                tag: None,
                buffer: seq![],
                pending: seq![],
                reconsume: false,
                at_end: false,
                ..m
            },
        ),
{
    loud_step(at_end_tag(m, i));
}

} // verus!
