//! Tags, from their text.

use crate::chars::{alphabetic, lowercase, lowercase_all, space};
use crate::laws::stream::{loud_step, quiet_step, replaying_is_unreading, rested};
use crate::laws::text::visible_all;
use crate::laws::tidy::{distinct_names, lowered, shown, steps_are_tidy, tidy};
use crate::model::families::{
    in_comment, in_content, in_doctype, in_instruction, in_opening, in_reference, in_script, in_tag,
};
use crate::model::runs::{stuck, tokens};
use crate::model::{has_attribute, step, transition, Machine};
use crate::types::{State, TagKind, TagView, TokenView};
use vstd::prelude::*;

verus! {

/// The names and values of attributes.
pub type Attributes = Seq<(Seq<char>, Seq<char>)>;

/// Whether `c` ends the name of a tag.
pub open spec fn ends_tag_name(c: char) -> bool {
    space(c) || c == '/' || c == '>'
}

/// Whether `c` ends the name of an attribute.
pub open spec fn ends_attribute_name(c: char) -> bool {
    ends_tag_name(c) || c == '='
}

/// Whether `name` can be written as the name of a tag.
pub open spec fn is_tag_name(name: Seq<char>) -> bool {
    &&& name.len() > 0
    &&& alphabetic(name[0])
    &&& lowered(name)
    &&& forall|i: int| 0 <= i < name.len() ==> !ends_tag_name(#[trigger] name[i])
}

/// Whether `name` can be written as the name of an attribute.
pub open spec fn is_attribute_name(name: Seq<char>) -> bool {
    &&& name.len() > 0
    &&& lowered(name)
    &&& forall|i: int| 0 <= i < name.len() ==> !ends_attribute_name(#[trigger] name[i])
}

/// Whether `value` can be written between double quotes.
pub open spec fn is_quotable(value: Seq<char>) -> bool {
    shown(value) && forall|i: int|
        0 <= i < value.len() ==> #[trigger] value[i] != '"' && value[i] != '&'
}

/// Whether all of `attrs` can be written.
pub open spec fn are_writable(attrs: Attributes) -> bool {
    forall|i: int|
        0 <= i < attrs.len() ==> is_attribute_name((#[trigger] attrs[i]).0) && is_quotable(
            attrs[i].1,
        )
}

/// An attribute, written with double quotes, behind a space.
pub open spec fn attribute_text(attr: (Seq<char>, Seq<char>)) -> Seq<char> {
    seq![' '] + (attr.0 + (seq!['=', '"'] + (attr.1 + seq!['"'])))
}

/// Attributes, one behind the other.
pub open spec fn attributes_text(attrs: Attributes) -> Seq<char>
    decreases attrs.len(),
{
    if attrs.len() == 0 {
        seq![]
    } else {
        attribute_text(attrs[0]) + attributes_text(attrs.drop_first())
    }
}

/// What closes a tag.
pub open spec fn closing_text(self_closing: bool) -> Seq<char> {
    if self_closing {
        seq!['/', '>']
    } else {
        seq!['>']
    }
}

/// What opens a tag.
pub open spec fn opening_text(kind: TagKind) -> Seq<char> {
    match kind {
        TagKind::Start => seq!['<'],
        TagKind::End => seq!['<', '/'],
    }
}

/// A tag in writing.
pub open spec fn tag_text(t: TagView) -> Seq<char> {
    opening_text(t.kind) + (t.name + (attributes_text(t.attrs) + closing_text(t.self_closing)))
}

pub(crate) proof fn lemma_holds_both(m: Machine, start: int, a: Seq<char>, b: Seq<char>)
    requires
        0 <= start,
        m.holds_at(start, a + b),
    ensures
        m.holds_at(start, a),
        m.holds_at(start + a.len(), b),
        forall|i: int| 0 <= i < a.len() ==> m.input[start + i] == #[trigger] a[i],
        forall|i: int|
            0 <= i < b.len() ==> m.input[start + a.len() + i] == #[trigger] b[i],
{
    let all = m.input.subrange(start, start + (a + b).len());
    assert(all.take(a.len() as int) =~= a);
    assert(all.skip(a.len() as int) =~= b);
    assert(m.input.subrange(start, start + a.len()) =~= a);
    assert(m.input.subrange(start + a.len(), start + a.len() + b.len()) =~= b);
    assert forall|i: int| 0 <= i < a.len() implies m.input[start + i] == #[trigger] a[i] by {
        assert(all[i] == (a + b)[i]);
    }
    assert forall|i: int| 0 <= i < b.len() implies m.input[start + a.len() + i]
        == #[trigger] b[i] by {
        assert(all[a.len() + i] == (a + b)[a.len() + i]);
    }
}

/// Whether the machine stands before what it reads next, with nothing pending.
pub open spec fn at_rest(m: Machine) -> bool {
    m.wf() && !m.done && !m.reconsume && !m.at_end && m.pending.len() == 0
}

/// The name of a tag is read up to `end`, in lower case and with NUL as U+FFFD.
pub proof fn tag_name_is_lowered(m: Machine, end: int)
    requires
        at_rest(m),
        m.state == State::TagName,
        m.tag is Some,
        m.pos <= end <= m.input.len(),
        forall|i: int| m.pos <= i < end ==> !ends_tag_name(#[trigger] m.input[i]),
    ensures
        ({
            let t = m.tag->0;
            let name = t.name + lowercase_all(visible_all(m.input.subrange(m.pos, end)));
            tokens(m) == tokens(Machine { pos: end, tag: Some(TagView { name, ..t }), ..m })
        }),
    decreases end - m.pos,
{
    let t = m.tag->0;
    let name = t.name + lowercase_all(visible_all(m.input.subrange(m.pos, end)));
    if m.pos == end {
        assert(name =~= t.name);
        assert(Machine { pos: end, tag: Some(TagView { name, ..t }), ..m } == m);
    } else {
        let n = step(m).0;
        assert(!ends_tag_name(m.input[m.pos]));
        quiet_step(m);
        tag_name_is_lowered(n, end);
        let rest = lowercase_all(visible_all(m.input.subrange(n.pos, end)));
        assert(n.tag->0.name + rest =~= name);
    }
}

/// The name of an attribute is read up to `end`, in lower case and with NUL as U+FFFD.
pub proof fn attribute_name_is_lowered(m: Machine, end: int)
    requires
        at_rest(m),
        m.state == State::AttributeName,
        m.pos <= end <= m.input.len(),
        forall|i: int| m.pos <= i < end ==> !ends_attribute_name(#[trigger] m.input[i]),
    ensures
        ({
            let name = m.attr_name + lowercase_all(visible_all(m.input.subrange(m.pos, end)));
            tokens(m) == tokens(Machine { pos: end, attr_name: name, ..m })
        }),
    decreases end - m.pos,
{
    let name = m.attr_name + lowercase_all(visible_all(m.input.subrange(m.pos, end)));
    if m.pos == end {
        assert(name =~= m.attr_name);
        assert(Machine { pos: end, attr_name: name, ..m } == m);
    } else {
        let n = step(m).0;
        assert(!ends_attribute_name(m.input[m.pos]));
        quiet_step(m);
        attribute_name_is_lowered(n, end);
        let rest = lowercase_all(visible_all(m.input.subrange(n.pos, end)));
        assert(n.attr_name + rest =~= name);
    }
}

/// The quote that closes a value which is read in `state`.
pub open spec fn quote_of(state: State) -> char {
    if state == State::AttributeValueDoubleQuoted {
        '"'
    } else {
        '\''
    }
}

/// A value between quotes is read as it stands up to `end`, with NUL as U+FFFD, where it
/// holds neither the quote nor `&`.
pub proof fn quoted_value_is_literal(m: Machine, end: int)
    requires
        at_rest(m),
        m.state == State::AttributeValueDoubleQuoted || m.state
            == State::AttributeValueSingleQuoted,
        m.pos <= end <= m.input.len(),
        forall|i: int|
            m.pos <= i < end ==> #[trigger] m.input[i] != quote_of(m.state) && m.input[i] != '&',
    ensures
        ({
            let value = m.attr_value + visible_all(m.input.subrange(m.pos, end));
            tokens(m) == tokens(Machine { pos: end, attr_value: value, ..m })
        }),
    decreases end - m.pos,
{
    let value = m.attr_value + visible_all(m.input.subrange(m.pos, end));
    if m.pos == end {
        assert(value =~= m.attr_value);
        assert(Machine { pos: end, attr_value: value, ..m } == m);
    } else {
        let n = step(m).0;
        assert(m.input[m.pos] != quote_of(m.state));
        quiet_step(m);
        quoted_value_is_literal(n, end);
        assert(n.attr_value + visible_all(m.input.subrange(n.pos, end)) =~= value);
    }
}

/// Text in lower case and without NUL is read as it stands.
pub(crate) proof fn lemma_lowered(s: Seq<char>)
    requires
        lowered(s),
    ensures
        lowercase_all(visible_all(s)) == s,
        visible_all(s) == s,
{
    assert(visible_all(s) =~= s);
    assert(lowercase_all(s) =~= s);
}

/// The machine once what has been read of an attribute is added to the tag.
pub open spec fn completed(m: Machine) -> Machine {
    if m.state == State::AfterAttributeValueQuoted {
        m.add_attribute()
    } else {
        m
    }
}

/// One more attribute is read.
proof fn lemma_attribute(m: Machine, attr: (Seq<char>, Seq<char>))
    requires
        at_rest(m),
        m.state == State::TagName || m.state == State::AfterAttributeValueQuoted,
        m.tag is Some,
        m.state == State::TagName ==> m.attr_name.len() == 0,
        is_attribute_name(attr.0),
        is_quotable(attr.1),
        m.holds_at(m.pos, attribute_text(attr)),
    ensures
        tokens(m) == tokens(
            Machine {
                pos: m.pos + attribute_text(attr).len(),
                state: State::AfterAttributeValueQuoted,
                attr_name: attr.0,
                attr_value: attr.1,
                ..completed(m)
            },
        ),
{
    let (name, value) = attr;
    let p1 = m.pos + 1;
    let p2 = p1 + name.len();
    let p4 = p2 + 2;
    let p5 = p4 + value.len();
    lemma_holds_both(m, m.pos, seq![' '], name + (seq!['=', '"'] + (value + seq!['"'])));
    lemma_holds_both(m, p1, name, seq!['=', '"'] + (value + seq!['"']));
    lemma_holds_both(m, p2, seq!['=', '"'], value + seq!['"']);
    lemma_holds_both(m, p4, value, seq!['"']);
    assert(m.input[m.pos] == seq![' '][0]);
    assert(m.input[p1] == name[0]);
    assert(m.input[p2] == seq!['=', '"'][0]);
    assert(m.input[p2 + 1] == seq!['=', '"'][1]);
    assert(m.input[p5] == seq!['"'][0]);
    let m1 = step(m).0;
    quiet_step(m);
    assert(m1.state == State::BeforeAttributeName && m1.attr_name.len() == 0);
    assert(!ends_attribute_name(name[0]));
    let m2 = step(m1).0;
    quiet_step(m1);
    replaying_is_unreading(m2);
    let m3 = rested(m2);
    assert forall|i: int| p1 <= i < p2 implies !ends_attribute_name(#[trigger] m.input[i]) by {
        assert(m.input[i] == name[i - p1]);
    }
    attribute_name_is_lowered(m3, p2);
    lemma_lowered(name);
    assert(m.input.subrange(p1, p2) =~= name);
    let m4 = Machine { pos: p2, attr_name: name, ..m3 };
    assert(m3.attr_name + name =~= name);
    let m5 = step(m4).0;
    quiet_step(m4);
    let m6 = step(m5).0;
    quiet_step(m5);
    assert forall|i: int| p4 <= i < p5 implies #[trigger] m.input[i] != '"' && m.input[i]
        != '&' by {
        assert(m.input[i] == value[i - p4]);
    }
    quoted_value_is_literal(m6, p5);
    assert(m.input.subrange(p4, p5) =~= value);
    assert(visible_all(value) =~= value);
    assert(m6.attr_value + value =~= value);
    let m7 = Machine { pos: p5, attr_value: value, ..m6 };
    let m8 = step(m7).0;
    quiet_step(m7);
    assert(attribute_text(attr).len() == 1 + name.len() + 2 + value.len() + 1);
    assert(m8 =~= Machine {
        pos: m.pos + attribute_text(attr).len(),
        state: State::AfterAttributeValueQuoted,
        attr_name: attr.0,
        attr_value: attr.1,
        ..completed(m)
    });
}

/// The machine behind a tag.
pub open spec fn behind_tag(m: Machine, pos: int) -> Machine {
    Machine {
        pos,
        state: State::Data,
        tag: None,
        attr_name: seq![],
        attr_value: seq![],
        reconsume: false,
        at_end: false,
        ..m
    }
}

/// Whether the attributes of the tag, and `attrs` behind them, have names of which no
/// two are the same.
spec fn room_for(m: Machine, attrs: Attributes) -> bool {
    completed(m).tag matches Some(t) && distinct_names(t.attrs + attrs)
}

proof fn lemma_attributes(m: Machine, attrs: Attributes, self_closing: bool)
    requires
        at_rest(m),
        m.state == State::TagName || m.state == State::AfterAttributeValueQuoted,
        m.tag is Some,
        m.state == State::TagName ==> m.attr_name.len() == 0 && m.attr_value.len() == 0,
        m.state == State::AfterAttributeValueQuoted ==> !has_attribute(
            m.tag->0.attrs,
            m.attr_name,
        ),
        are_writable(attrs),
        room_for(m, attrs),
        m.holds_at(m.pos, attributes_text(attrs) + closing_text(self_closing)),
        !m.tag->0.self_closing,
    ensures
        ({
            let t = completed(m).tag->0;
            let end = m.pos + attributes_text(attrs).len() + closing_text(self_closing).len();
            tokens(m) == seq![
                TokenView::Tag(TagView { attrs: t.attrs + attrs, self_closing, ..t }),
            ] + tokens(behind_tag(m, end))
        }),
    decreases attrs.len(),
{
    let t = completed(m).tag->0;
    let closing = closing_text(self_closing);
    lemma_holds_both(m, m.pos, attributes_text(attrs), closing);
    if attrs.len() == 0 {
        assert(t.attrs + attrs =~= t.attrs);
        assert(m.input[m.pos] == closing[0]);
        if self_closing {
            assert(m.input[m.pos + 1] == closing[1]);
            let n = step(m).0;
            quiet_step(m);
            loud_step(n);
            assert(step(n).0 =~= behind_tag(m, m.pos + 2));
        } else {
            loud_step(m);
            assert(step(m).0 =~= behind_tag(m, m.pos + 1));
        }
    } else {
        let attr = attrs[0];
        let rest = attrs.drop_first();
        let n = Machine {
            pos: m.pos + attribute_text(attr).len(),
            state: State::AfterAttributeValueQuoted,
            attr_name: attr.0,
            attr_value: attr.1,
            ..completed(m)
        };
        lemma_holds_both(m, m.pos, attribute_text(attr), attributes_text(rest));
        lemma_attribute(m, attr);
        assert(!has_attribute(t.attrs, attr.0)) by {
            if has_attribute(t.attrs, attr.0) {
                let i = choose|i: int| 0 <= i < t.attrs.len() && #[trigger] t.attrs[i].0 == attr.0;
                assert((t.attrs + attrs)[i].0 == (t.attrs + attrs)[t.attrs.len() as int].0);
            }
        }
        assert(t.attrs.push(attr) + rest =~= t.attrs + attrs);
        assert((attributes_text(attrs) + closing) =~= attribute_text(attr) + (attributes_text(rest)
            + closing));
        lemma_holds_both(m, m.pos, attribute_text(attr), attributes_text(rest) + closing);
        assert(are_writable(rest)) by {
            assert forall|i: int| 0 <= i < rest.len() implies is_attribute_name(
                (#[trigger] rest[i]).0,
            ) && is_quotable(rest[i].1) by {
                assert(rest[i] == attrs[i + 1]);
            }
        }
        assert(attr == (n.attr_name, n.attr_value));
        lemma_attributes(n, rest, self_closing);
    }
}

/// A tag in writing is read back: its text in data gives rise to the tag, and reading
/// goes on behind it. Attributes come in the order in which they are written.
pub proof fn written_tag_is_read_back(m: Machine, t: TagView)
    requires
        at_rest(m),
        m.state == State::Data,
        m.attr_name.len() == 0,
        m.attr_value.len() == 0,
        is_tag_name(t.name),
        are_writable(t.attrs),
        distinct_names(t.attrs),
        m.holds_at(m.pos, tag_text(t)),
    ensures
        tokens(m) == seq![TokenView::Tag(t)] + tokens(
            behind_tag(m, m.pos + tag_text(t).len()),
        ),
{
    let opening = opening_text(t.kind);
    let rest = attributes_text(t.attrs) + closing_text(t.self_closing);
    lemma_holds_both(m, m.pos, opening, t.name + rest);
    let p = m.pos + opening.len();
    lemma_holds_both(m, p, t.name, rest);
    assert(m.input[m.pos] == opening[0]);
    assert(m.input[p] == t.name[0]);
    assert(lowercase(t.name[0]) == t.name[0]);
    let m1 = step(m).0;
    quiet_step(m);
    let m2 = step(m1).0;
    quiet_step(m1);
    let m3 = if t.kind == TagKind::End {
        assert(m.input[m.pos + 1] == opening[1]);
        quiet_step(m2);
        step(m2).0
    } else {
        m2
    };
    let end = p + t.name.len();
    assert(m3.pos == p + 1 && m3.state == State::TagName);
    assert forall|i: int| p + 1 <= i < end implies !ends_tag_name(#[trigger] m.input[i]) by {
        assert(m.input[i] == t.name[i - p]);
    }
    tag_name_is_lowered(m3, end);
    let tail = m.input.subrange(p + 1, end);
    assert(tail =~= t.name.drop_first());
    lemma_lowered(tail);
    assert(m3.tag->0.name + tail =~= t.name);
    let m4 = Machine { pos: end, tag: Some(TagView { name: t.name, ..m3.tag->0 }), ..m3 };
    assert(m4.tag->0.attrs + t.attrs =~= t.attrs);
    lemma_attributes(m4, t.attrs, t.self_closing);
    assert(tag_text(t).len() == opening.len() + t.name.len() + rest.len());
    assert(behind_tag(m4, m.pos + tag_text(t).len()) =~= behind_tag(
        m,
        m.pos + tag_text(t).len(),
    ));
}

/// The tag under construction after a step, or the tag that the step emitted.
pub open spec fn tag_after(m: Machine) -> Option<TagView> {
    match step(m) {
        (_, Some(TokenView::Tag(t))) => Some(t),
        (n, _) => n.tag,
    }
}

/// Attributes are only ever added to a tag, behind those that it has: they stay in the
/// order in which they are written, and of two with one name the first is kept.
pub proof fn attributes_are_only_added(m: Machine)
    requires
        m.wf(),
        !m.done,
        m.pending.len() == 0,
        in_tag(m.state),
        m.tag is Some,
        m.next() is Some,
    ensures
        ({
            let attrs = (m.tag->0).attrs;
            let after = (tag_after(m)->0).attrs;
            &&& tag_after(m) is Some
            &&& after == attrs || (after == attrs.push((m.attr_name, m.attr_value))
                && !has_attribute(attrs, m.attr_name))
        }),
{
}

/// Whether the solidus has just been read in the state that is reached by it.
pub open spec fn behind_solidus(m: Machine) -> bool {
    m.state == State::SelfClosingStartTag ==> !m.reconsume && m.pos > 0 && m.input[m.pos - 1]
        == '/'
}

proof fn lemma_content_solidus(m: Machine)
    requires
        m.wf(),
        in_content(m.state),
    ensures
        behind_solidus(transition(m).0),
{
}

proof fn lemma_script_solidus(m: Machine)
    requires
        m.wf(),
        in_script(m.state),
    ensures
        behind_solidus(transition(m).0),
{
}

proof fn lemma_tag_solidus(m: Machine)
    requires
        m.wf(),
        behind_solidus(m),
        in_tag(m.state),
    ensures
        behind_solidus(transition(m).0),
{
}

proof fn lemma_comment_solidus(m: Machine)
    requires
        m.wf(),
        in_comment(m.state),
    ensures
        behind_solidus(transition(m).0),
{
}

proof fn lemma_doctype_solidus(m: Machine)
    requires
        m.wf(),
        in_doctype(m.state),
    ensures
        behind_solidus(transition(m).0),
{
}

proof fn lemma_instruction_solidus(m: Machine)
    requires
        m.wf(),
        in_instruction(m.state),
    ensures
        behind_solidus(transition(m).0),
{
}

proof fn lemma_opening_solidus(m: Machine)
    requires
        m.wf(),
        in_opening(m.state),
    ensures
        behind_solidus(transition(m).0),
{
}

proof fn lemma_reference_solidus(m: Machine)
    requires
        m.wf(),
        in_reference(m.state),
    ensures
        behind_solidus(transition(m).0),
{
}

/// A step leads to the self-closing start tag state only by reading a solidus.
pub proof fn steps_stay_behind_solidus(m: Machine)
    requires
        m.wf(),
        behind_solidus(m),
    ensures
        behind_solidus(step(m).0),
{
    if m.done || m.pending.len() > 0 {
    } else if in_content(m.state) {
        lemma_content_solidus(m);
    } else if in_script(m.state) {
        lemma_script_solidus(m);
    } else if in_tag(m.state) {
        lemma_tag_solidus(m);
    } else if in_comment(m.state) {
        lemma_comment_solidus(m);
    } else if in_doctype(m.state) {
        lemma_doctype_solidus(m);
    } else if in_instruction(m.state) {
        lemma_instruction_solidus(m);
    } else if in_opening(m.state) {
        lemma_opening_solidus(m);
    } else {
        lemma_reference_solidus(m);
    }
}

/// A tag that is said to be self-closing ends with `/>`.
pub proof fn self_closing_tag_ends_with_solidus(m: Machine)
    requires
        m.wf(),
        !stuck(m),
        tidy(m),
        behind_solidus(m),
    ensures
        ({
            let (n, t) = step(m);
            t matches Some(TokenView::Tag(t)) && t.self_closing ==> {
                &&& n.pos >= 2
                &&& n.input[n.pos - 2] == '/'
                &&& n.input[n.pos - 1] == '>'
            }
        }),
{
    steps_are_tidy(m);
}

} // verus!
