//! Tags, in every way in which they may be written.

use crate::chars::{alphabetic, lowercase_all, space};
use crate::laws::raw::{at_end_tag, closes_at, end_tag, scanning};
use crate::laws::resolved::{
    ends_value, moved, references_in_values_are_resolved, resolved_value,
};
use crate::laws::script::in_end_tag_name;
use crate::laws::stream::{loud_step, quiet_step, replaying_is_unreading, rested};
use crate::laws::tags::{
    at_rest, attribute_name_is_lowered, ends_attribute_name, ends_tag_name, tag_name_is_lowered,
    Attributes,
};
use crate::laws::text::visible_all;
use crate::model::runs::tokens;
use crate::model::{has_attribute, step, Machine};
use crate::types::{State, TagKind, TagView, TokenView};
use vstd::prelude::*;

verus! {

/// The ways in which the value of an attribute may be written.
pub enum Form {
    /// No value.
    Bare,
    /// `="value"`
    Double,
    /// `='value'`
    Single,
    /// `=value`
    Unquoted,
}

/// Where an attribute stands in the input.
pub struct Written {
    /// Where its name begins.
    pub name: int,
    /// Where its name ends.
    pub name_end: int,
    /// How its value is written.
    pub form: Form,
    /// Where `=` stands, before a value.
    pub equals: int,
    /// Where its value begins, behind the quote where there is one.
    pub from: int,
    /// Where its value ends, before the quote where there is one.
    pub to: int,
}

/// What a tag may hold before space, `/` or `>`.
pub enum Before {
    /// Its name.
    Name,
    /// An attribute without value.
    Bare,
    /// A value between quotes.
    Quoted,
    /// A value without quotes.
    Unquoted,
}

/// Nothing but space from `from` to `to`.
pub open spec fn all_space(input: Seq<char>, from: int, to: int) -> bool {
    forall|i: int| from <= i < to ==> space(#[trigger] input[i])
}

/// Nothing but space and `/` from `from` to `to`.
pub open spec fn all_gap(input: Seq<char>, from: int, to: int) -> bool {
    forall|i: int| from <= i < to ==> space(#[trigger] input[i]) || input[i] == '/'
}

impl Written {
    /// Where the attribute ends.
    pub open spec fn end(self) -> int {
        match self.form {
            Form::Bare => self.name_end,
            Form::Double | Form::Single => self.to + 1,
            Form::Unquoted => self.to,
        }
    }

    /// What comes before the gap behind the attribute.
    pub open spec fn before(self) -> Before {
        match self.form {
            Form::Bare => Before::Bare,
            Form::Double | Form::Single => Before::Quoted,
            Form::Unquoted => Before::Unquoted,
        }
    }

    /// Whether a name stands there: a first code point that may be `=`, then others that
    /// end no name.
    pub open spec fn has_name(self, input: Seq<char>) -> bool {
        &&& 0 <= self.name < self.name_end <= input.len()
        &&& !ends_tag_name(input[self.name])
        &&& forall|i: int|
            self.name < i < self.name_end ==> !ends_attribute_name(#[trigger] input[i])
    }

    /// Whether a value stands there, in its form, with `=` and any space round it.
    pub open spec fn has_value(self, input: Seq<char>) -> bool {
        let open = match self.form {
            Form::Unquoted => self.from,
            _ => self.from - 1,
        };
        &&& self.name_end <= self.equals < open
        &&& self.from <= self.to < input.len()
        &&& all_space(input, self.name_end, self.equals)
        &&& input[self.equals] == '='
        &&& all_space(input, self.equals + 1, open)
        &&& match self.form {
            Form::Bare => false,
            Form::Double => {
                &&& input[open] == '"'
                &&& input[self.to] == '"'
                &&& forall|i: int| self.from <= i < self.to ==> #[trigger] input[i] != '"'
            },
            Form::Single => {
                &&& input[open] == '\''
                &&& input[self.to] == '\''
                &&& forall|i: int| self.from <= i < self.to ==> #[trigger] input[i] != '\''
            },
            Form::Unquoted => {
                &&& self.from < self.to
                &&& input[open] != '"' && input[open] != '\''
                &&& space(input[self.to]) || input[self.to] == '>'
                &&& forall|i: int|
                    self.from <= i < self.to ==> !space(#[trigger] input[i]) && input[i] != '>'
            },
        }
    }

    /// Whether an attribute stands there.
    pub open spec fn is_written(self, input: Seq<char>) -> bool {
        self.has_name(input) && match self.form {
            Form::Bare => self.name_end < input.len() && ends_tag_name(input[self.name_end]),
            _ => self.has_value(input),
        }
    }

    /// The attribute: its name in lower case, its value with references resolved.
    pub open spec fn read(self, input: Seq<char>) -> (Seq<char>, Seq<char>) {
        (
            lowercase_all(visible_all(input.subrange(self.name, self.name_end))),
            match self.form {
                Form::Bare => seq![],
                _ => resolved_value(input, self.from, self.to),
            },
        )
    }
}

/// `attrs` with `attr` behind them, unless one of them has its name.
pub open spec fn with_attribute(attrs: Attributes, attr: (Seq<char>, Seq<char>)) -> Attributes {
    if has_attribute(attrs, attr.0) {
        attrs
    } else {
        attrs.push(attr)
    }
}

/// `attrs` with those behind them that are written in `pieces`, the first of each name.
pub open spec fn with_attributes(
    attrs: Attributes,
    input: Seq<char>,
    pieces: Seq<Written>,
) -> Attributes
    decreases pieces.len(),
{
    if pieces.len() == 0 {
        attrs
    } else {
        with_attributes(with_attribute(attrs, pieces[0].read(input)), input, pieces.drop_first())
    }
}

/// Whether a gap from `from` to `to` may stand behind `before` and before what is no gap:
/// it may be empty only behind a quote, begins with space behind a value without quotes,
/// and where an attribute without value is followed by nothing but space, no `=` follows.
pub open spec fn is_gap(input: Seq<char>, before: Before, from: int, to: int) -> bool {
    &&& 0 <= from <= to < input.len()
    &&& all_gap(input, from, to)
    &&& !space(input[to])
    &&& input[to] != '/'
    &&& from < to || before is Quoted || input[to] == '>'
    &&& before is Unquoted && from < to ==> space(input[from])
    &&& before is Bare && all_space(input, from, to) ==> input[to] != '='
}

/// Whether the rest of a tag is written in `input` from `from` on: attributes with gaps
/// before them, a gap, and `>` at `close`.
pub open spec fn is_written_from(
    input: Seq<char>,
    before: Before,
    from: int,
    pieces: Seq<Written>,
    close: int,
) -> bool
    decreases pieces.len(),
{
    if pieces.len() == 0 {
        is_gap(input, before, from, close) && input[close] == '>'
    } else {
        let piece = pieces[0];
        &&& is_gap(input, before, from, piece.name)
        &&& piece.is_written(input)
        &&& is_written_from(input, piece.before(), piece.end(), pieces.drop_first(), close)
    }
}

/// The machine with the attribute added that it has read, where it has read one.
pub open spec fn added(m: Machine) -> Machine {
    match m.state {
        State::AttributeName
        | State::AfterAttributeName
        | State::AttributeValueUnquoted
        | State::AfterAttributeValueQuoted => m.add_attribute(),
        _ => m,
    }
}

/// The states in which a gap in a tag may be read.
pub open spec fn in_gap(state: State) -> bool {
    match state {
        State::TagName
        | State::BeforeAttributeName
        | State::SelfClosingStartTag
        | State::AttributeName
        | State::AfterAttributeName
        | State::AttributeValueUnquoted
        | State::AfterAttributeValueQuoted => true,
        _ => false,
    }
}

/// Whether the machine may read a gap up to `to`.
spec fn may_read_gap(m: Machine, to: int) -> bool {
    &&& at_rest(m)
    &&& in_gap(m.state)
    &&& m.tag is Some
    &&& added(m) == m ==> m.attr_name.len() == 0 && m.attr_value.len() == 0
    &&& m.pos <= to < m.input.len()
    &&& all_gap(m.input, m.pos, to)
    &&& !space(m.input[to])
    &&& m.input[to] != '/'
    &&& m.state == State::AttributeValueUnquoted && m.pos < to ==> space(m.input[m.pos])
}

/// The machine that has read one code point of a gap, or stands before the same one in the
/// state in which it is read.
proof fn lemma_gap_step(m: Machine, to: int) -> (n: Machine)
    requires
        may_read_gap(m, to),
        m.pos < to,
    ensures
        may_read_gap(n, to),
        tokens(n) == tokens(m),
        added(n) == (Machine { pos: n.pos, state: added(n).state, ..added(m) }),
        n.pos == m.pos + 1 || (n.pos == m.pos && m.state == State::SelfClosingStartTag && n.state
            == State::BeforeAttributeName),
        n.pos == m.pos + 1 ==> (n.state == State::SelfClosingStartTag <==> m.input[m.pos] == '/'),
        n.state == State::AfterAttributeName ==> space(m.input[m.pos]) && (m.state
            == State::AfterAttributeName || m.state == State::AttributeName),
        n.state != State::AfterAttributeName ==> n.state == State::BeforeAttributeName || n.state
            == State::SelfClosingStartTag,
        (m.state == State::AfterAttributeName || m.state == State::AttributeName) && space(
            m.input[m.pos],
        ) ==> n.state == State::AfterAttributeName,
{
    let c = m.input[m.pos];
    assert(space(c) || c == '/');
    let k = step(m).0;
    quiet_step(m);
    if m.state == State::SelfClosingStartTag {
        replaying_is_unreading(k);
        rested(k)
    } else {
        k
    }
}

/// The machine before the name of an attribute, at `pos`.
pub open spec fn before_attribute(m: Machine, pos: int) -> Machine {
    Machine { pos, state: State::BeforeAttributeName, ..m }
}

/// Behind a gap that is not followed by `>` the machine stands before the name of an
/// attribute.
proof fn lemma_gap(m: Machine, to: int)
    requires
        may_read_gap(m, to),
        m.input[to] != '>',
        m.pos == to ==> m.state == State::BeforeAttributeName || m.state
            == State::SelfClosingStartTag || m.state == State::AfterAttributeName || m.state
            == State::AfterAttributeValueQuoted,
        (m.state == State::AttributeName || m.state == State::AfterAttributeName) && all_space(
            m.input,
            m.pos,
            to,
        ) ==> m.input[to] != '=',
    ensures
        tokens(m) == tokens(before_attribute(added(m), to)),
    decreases to - m.pos, (m.state == State::SelfClosingStartTag) as int,
{
    if m.pos < to {
        let n = lemma_gap_step(m, to);
        if n.state == State::AfterAttributeName && all_space(m.input, n.pos, to) {
            assert(all_space(m.input, m.pos, to));
        }
        lemma_gap(n, to);
        assert(before_attribute(added(n), to) == before_attribute(added(m), to));
    } else {
        let b = before_attribute(added(m), to);
        let k = step(m).0;
        if m.state == State::BeforeAttributeName {
            assert(b == m);
        } else if m.state == State::AfterAttributeName {
            quiet_step(m);
            quiet_step(b);
            assert(step(b).0 == k);
        } else {
            quiet_step(m);
            replaying_is_unreading(k);
            assert(rested(k) == b);
        }
    }
}

/// Whether `/` stands just before `to`, or has just been read.
pub open spec fn behind_slash(m: Machine, to: int) -> bool {
    if m.pos < to {
        m.input[to - 1] == '/'
    } else {
        m.state == State::SelfClosingStartTag
    }
}

/// The machine behind the `>` that closes a tag.
pub open spec fn behind_close(m: Machine, close: int) -> Machine {
    Machine { pos: close + 1, state: State::Data, tag: None, ..m }
}

/// Behind a gap that is followed by `>` the tag is emitted; it is self-closing just where
/// `/` comes before the `>`.
proof fn lemma_close(m: Machine, to: int)
    requires
        may_read_gap(m, to),
        m.input[to] == '>',
    ensures
        ({
            let t = added(m).tag->0;
            tokens(m) == seq![
                TokenView::Tag(
                    TagView { self_closing: t.self_closing || behind_slash(m, to), ..t },
                ),
            ] + tokens(behind_close(added(m), to))
        }),
    decreases to - m.pos, (m.state == State::SelfClosingStartTag) as int,
{
    if m.pos < to {
        let n = lemma_gap_step(m, to);
        lemma_close(n, to);
        if n.pos == to {
            assert(behind_slash(n, to) == behind_slash(m, to));
        }
        assert(behind_close(added(n), to) == behind_close(added(m), to));
    } else {
        loud_step(m);
        assert(step(m).0 == behind_close(added(m), to));
    }
}

/// The state behind what comes before a gap.
spec fn state_behind(before: Before) -> State {
    match before {
        Before::Name => State::TagName,
        Before::Bare => State::AttributeName,
        Before::Quoted => State::AfterAttributeValueQuoted,
        Before::Unquoted => State::AttributeValueUnquoted,
    }
}

/// The name of an attribute is read.
proof fn lemma_written_name(b: Machine, w: Written)
    requires
        at_rest(b),
        b.state == State::BeforeAttributeName,
        b.attr_name.len() == 0,
        b.pos == w.name,
        w.has_name(b.input),
    ensures
        tokens(b) == tokens(
            Machine {
                pos: w.name_end,
                state: State::AttributeName,
                attr_name: w.read(b.input).0,
                ..b
            },
        ),
{
    let c = b.input[w.name];
    let k = step(b).0;
    quiet_step(b);
    let n = if c == '=' {
        k
    } else {
        replaying_is_unreading(k);
        rested(k)
    };
    let start = n.pos;
    assert forall|i: int| start <= i < w.name_end implies !ends_attribute_name(
        #[trigger] b.input[i],
    ) by {}
    attribute_name_is_lowered(n, w.name_end);
    let whole = b.input.subrange(w.name, w.name_end);
    assert(n.attr_name + lowercase_all(visible_all(b.input.subrange(start, w.name_end)))
        =~= lowercase_all(visible_all(whole)));
}

/// The machine that has read space up to `to`.
proof fn lemma_space_in_tag(m: Machine, to: int)
    requires
        at_rest(m),
        m.state == State::AfterAttributeName || m.state == State::BeforeAttributeValue,
        m.pos <= to <= m.input.len(),
        all_space(m.input, m.pos, to),
    ensures
        tokens(m) == tokens(Machine { pos: to, ..m }),
    decreases to - m.pos,
{
    if m.pos < to {
        assert(space(m.input[m.pos]));
        quiet_step(m);
        lemma_space_in_tag(step(m).0, to);
    }
}

/// From behind the name to behind the space that follows `=`.
proof fn lemma_equals(m: Machine, equals: int, open: int)
    requires
        at_rest(m),
        m.state == State::AttributeName,
        m.pos <= equals < open <= m.input.len(),
        all_space(m.input, m.pos, equals),
        m.input[equals] == '=',
        all_space(m.input, equals + 1, open),
    ensures
        tokens(m) == tokens(Machine { pos: open, state: State::BeforeAttributeValue, ..m }),
{
    let m1 = Machine { pos: equals, state: State::AfterAttributeName, ..m };
    if m.pos < equals {
        assert(space(m.input[m.pos]));
        quiet_step(m);
        lemma_space_in_tag(step(m).0, equals);
        quiet_step(m1);
    } else {
        quiet_step(m);
    }
    lemma_space_in_tag(
        Machine { pos: equals + 1, state: State::BeforeAttributeValue, ..m },
        open,
    );
}

/// The state in which a value of a form is read.
spec fn state_within(form: Form) -> State {
    match form {
        Form::Double => State::AttributeValueDoubleQuoted,
        Form::Single => State::AttributeValueSingleQuoted,
        _ => State::AttributeValueUnquoted,
    }
}

/// Whether `n` is `m` but for what only serves to read references and end tags.
pub open spec fn like(m: Machine, n: Machine) -> bool {
    at_rest(n) && moved(m, n, m.pos)
}

/// The value of an attribute is read.
proof fn lemma_written_value(m: Machine, w: Written) -> (n: Machine)
    requires
        at_rest(m),
        m.state == State::AttributeName,
        m.pos == w.name_end,
        w.has_value(m.input),
    ensures
        like(
            Machine {
                pos: w.end(),
                state: state_behind(w.before()),
                attr_value: resolved_value(m.input, w.from, w.to),
                ..m
            },
            n,
        ),
        tokens(m) == tokens(n),
{
    let open = match w.form {
        Form::Unquoted => w.from,
        _ => w.from - 1,
    };
    lemma_equals(m, w.equals, open);
    let m1 = Machine { pos: open, state: State::BeforeAttributeValue, ..m };
    let k = step(m1).0;
    if w.form is Unquoted {
        assert(!space(m.input[open]) && m.input[open] != '>');
    }
    quiet_step(m1);
    replaying_is_unreading(k);
    let m2 = rested(k);
    assert(m2.state == state_within(w.form) && m2.pos == w.from);
    assert forall|i: int| w.from <= i < w.to implies !ends_value(
        m2.state,
        #[trigger] m.input[i],
    ) by {}
    let m3 = references_in_values_are_resolved(m2, w.to);
    let value = resolved_value(m.input, w.from, w.to);
    assert(m2.attr_value + value =~= value);
    if w.form is Unquoted {
        m3
    } else {
        quiet_step(m3);
        step(m3).0
    }
}

/// An attribute is read, in every way in which it may be written: the space round `=`, the
/// quotes and what they leave out do not matter.
pub proof fn written_attribute_is_read(b: Machine, w: Written) -> (n: Machine)
    requires
        at_rest(b),
        b.state == State::BeforeAttributeName,
        b.tag is Some,
        b.attr_name.len() == 0,
        b.attr_value.len() == 0,
        b.pos == w.name,
        w.is_written(b.input),
    ensures
        tokens(b) == tokens(n),
        at_rest(n),
        n.pos == w.end(),
        (n.attr_name, n.attr_value) == w.read(b.input),
        moved(
            Machine { state: n.state, attr_name: n.attr_name, attr_value: n.attr_value, ..b },
            n,
            w.end(),
        ),
        n.state == match w.form {
            Form::Bare => State::AttributeName,
            Form::Double | Form::Single => State::AfterAttributeValueQuoted,
            Form::Unquoted => State::AttributeValueUnquoted,
        },
{
    lemma_written_name(b, w);
    let m = Machine {
        pos: w.name_end,
        state: State::AttributeName,
        attr_name: w.read(b.input).0,
        ..b
    };
    if w.form is Bare {
        assert(b.attr_value =~= seq![]);
        m
    } else {
        lemma_written_value(m, w)
    }
}

/// The rest of a tag is read: its attributes, the first of each name, in the order in which
/// they are written, and whether it is self-closing.
proof fn lemma_written_from(
    m: Machine,
    before: Before,
    pieces: Seq<Written>,
    close: int,
) -> (n: Machine)
    requires
        at_rest(m),
        m.tag is Some,
        !m.tag->0.self_closing,
        m.state == state_behind(before),
        before is Name ==> m.attr_name.len() == 0 && m.attr_value.len() == 0,
        is_written_from(m.input, before, m.pos, pieces, close),
    ensures
        ({
            let t = added(m).tag->0;
            let from = if pieces.len() == 0 {
                m.pos
            } else {
                pieces.last().end()
            };
            let done = TagView {
                attrs: with_attributes(t.attrs, m.input, pieces),
                self_closing: from < close && m.input[close - 1] == '/',
                ..t
            };
            &&& tokens(m) == seq![TokenView::Tag(done)] + tokens(n)
            &&& moved(behind_close(added(m), close), n, close + 1)
        }),
    decreases pieces.len(),
{
    let t = added(m).tag->0;
    if pieces.len() == 0 {
        assert(may_read_gap(m, close));
        lemma_close(m, close);
        behind_close(added(m), close)
    } else {
        let w = pieces[0];
        let rest = pieces.drop_first();
        assert(w.has_name(m.input));
        assert(may_read_gap(m, w.name));
        lemma_gap(m, w.name);
        let b = before_attribute(added(m), w.name);
        let k = written_attribute_is_read(b, w);
        assert(k.state == state_behind(w.before()));
        assert(added(k).tag->0.attrs == with_attribute(t.attrs, w.read(m.input)));
        let n = lemma_written_from(k, w.before(), rest, close);
        if rest.len() > 0 {
            assert(rest.last() == pieces.last());
        }
        assert(behind_close(added(k), close).attr_name =~= behind_close(added(m), close).attr_name);
        assert(behind_close(added(k), close).attr_value
            =~= behind_close(added(m), close).attr_value);
        n
    }
}

/// Where what comes before the last gap of a tag ends.
pub open spec fn last_end(name_end: int, pieces: Seq<Written>) -> int {
    if pieces.len() == 0 {
        name_end
    } else {
        pieces.last().end()
    }
}

/// A tag is read, in every way in which it may be written. In data it begins with `<`, or
/// with `</` for an end tag; its name, which begins with a letter, ends at `name_end`; its
/// attributes are those in `pieces`, and `>` at `close` closes it. The name comes out in
/// lower case, of the attributes the first of each name, in order, and the tag is
/// self-closing just where `/` stands before `>` and is no part of a value.
pub proof fn written_tag_is_read(
    m: Machine,
    kind: TagKind,
    name_end: int,
    pieces: Seq<Written>,
    close: int,
) -> (n: Machine)
    requires
        at_rest(m),
        m.state == State::Data,
        m.attr_name.len() == 0,
        m.attr_value.len() == 0,
        m.pos + 2 < m.input.len(),
        m.input[m.pos] == '<',
        kind is End ==> m.input[m.pos + 1] == '/',
        ({
            let name = m.pos + if kind is End {
                2int
            } else {
                1
            };
            &&& name < name_end <= m.input.len()
            &&& alphabetic(m.input[name])
            &&& forall|i: int| name <= i < name_end ==> !ends_tag_name(#[trigger] m.input[i])
        }),
        is_written_from(m.input, Before::Name, name_end, pieces, close),
    ensures
        ({
            let name = m.pos + if kind is End {
                2int
            } else {
                1
            };
            &&& tokens(m) == seq![
                TokenView::Tag(
                    TagView {
                        kind,
                        name: lowercase_all(visible_all(m.input.subrange(name, name_end))),
                        attrs: with_attributes(seq![], m.input, pieces),
                        self_closing: last_end(name_end, pieces) < close && m.input[close - 1]
                            == '/',
                    },
                ),
            ] + tokens(n)
            &&& moved(Machine { tag: None, ..m }, n, close + 1)
        }),
{
    let name = m.pos + if kind is End {
        2int
    } else {
        1
    };
    let first = m.input[name];
    let m1 = step(m).0;
    quiet_step(m);
    let m2 = step(m1).0;
    quiet_step(m1);
    let m3 = if kind is End {
        quiet_step(m2);
        step(m2).0
    } else {
        m2
    };
    assert(m3.state == State::TagName && m3.pos == name + 1);
    tag_name_is_lowered(m3, name_end);
    let whole = lowercase_all(visible_all(m.input.subrange(name, name_end)));
    assert(m3.tag->0.name + lowercase_all(visible_all(m.input.subrange(name + 1, name_end)))
        =~= whole);
    let m4 = Machine { pos: name_end, tag: Some(TagView { name: whole, ..m3.tag->0 }), ..m3 };
    let n = lemma_written_from(m4, Before::Name, pieces, close);
    assert(added(m4) == m4);
    n
}

/// An attribute whose `=` is followed by nothing but space and `>` has an empty value, and
/// the tag ends there.
pub proof fn missing_value_is_empty(b: Machine, w: Written, close: int) -> (n: Machine)
    requires
        at_rest(b),
        b.state == State::BeforeAttributeName,
        b.tag is Some,
        b.attr_name.len() == 0,
        b.attr_value.len() == 0,
        b.pos == w.name,
        w.has_name(b.input),
        w.name_end <= w.equals < close < b.input.len(),
        all_space(b.input, w.name_end, w.equals),
        b.input[w.equals] == '=',
        all_space(b.input, w.equals + 1, close),
        b.input[close] == '>',
    ensures
        ({
            let t = b.tag->0;
            let name = w.read(b.input).0;
            tokens(b) == seq![
                TokenView::Tag(
                    TagView { attrs: with_attribute(t.attrs, (name, seq![])), ..t },
                ),
            ] + tokens(n)
        }),
        moved(behind_close(b, close), n, close + 1),
{
    lemma_written_name(b, w);
    let m = Machine {
        pos: w.name_end,
        state: State::AttributeName,
        attr_name: w.read(b.input).0,
        ..b
    };
    lemma_equals(m, w.equals, close);
    let m1 = Machine { pos: close, state: State::BeforeAttributeValue, ..m };
    loud_step(m1);
    let n = step(m1).0;
    assert(b.attr_value =~= seq![]);
    assert(n.attr_name =~= b.attr_name);
    n
}

/// What closes a gap at once leaves nothing before it.
proof fn lemma_closed_at_once(input: Seq<char>, from: int, pieces: Seq<Written>, close: int)
    requires
        is_written_from(input, Before::Name, from, pieces, close),
        input[from] == '>',
    ensures
        pieces.len() == 0,
        close == from,
{
    if pieces.len() > 0 {
        let w = pieces[0];
        assert(w.has_name(input));
        assert(all_gap(input, from, w.name));
        if from < w.name {
            assert(space(input[from]) || input[from] == '/');
        }
    } else if from < close {
        assert(all_gap(input, from, close));
        assert(space(input[from]) || input[from] == '/');
    }
}

/// An end tag that closes the content it stands in is read as any end tag is, with attributes
/// and all.
pub proof fn closing_tag_goes_on(e: Machine, pieces: Seq<Written>, close: int) -> (n: Machine)
    requires
        at_rest(e),
        in_end_tag_name(e.state),
        e.end_tag_name is Some,
        e.tag == Some(end_tag(e.end_tag_name->0)),
        e.attr_name.len() == 0,
        e.attr_value.len() == 0,
        e.pos < e.input.len(),
        ends_tag_name(e.input[e.pos]),
        is_written_from(e.input, Before::Name, e.pos, pieces, close),
    ensures
        tokens(e) == seq![
            TokenView::Tag(
                TagView {
                    attrs: with_attributes(seq![], e.input, pieces),
                    self_closing: last_end(e.pos, pieces) < close && e.input[close - 1] == '/',
                    ..end_tag(e.end_tag_name->0)
                },
            ),
        ] + tokens(n),
        moved(Machine { state: State::Data, tag: None, ..e }, n, close + 1),
{
    if e.input[e.pos] == '>' {
        lemma_closed_at_once(e.input, e.pos, pieces, close);
        loud_step(e);
        step(e).0
    } else {
        let t = Machine { state: State::TagName, ..e };
        quiet_step(e);
        quiet_step(t);
        assert(step(e) == step(t));
        let n = lemma_written_from(t, Before::Name, pieces, close);
        assert(added(t) == t);
        n
    }
}

/// The end tag that closes RCDATA, RAWTEXT or a script is read as any end tag is, with
/// attributes and all.
pub proof fn closing_end_tag_is_read(
    m: Machine,
    i: int,
    pieces: Seq<Written>,
    close: int,
) -> (n: Machine)
    requires
        scanning(m),
        closes_at(m.input, i, m.end_tag_name),
        m.attr_name.len() == 0,
        m.attr_value.len() == 0,
        is_written_from(m.input, Before::Name, at_end_tag(m, i).pos, pieces, close),
    ensures
        tokens(at_end_tag(m, i)) == seq![
            TokenView::Tag(
                TagView {
                    attrs: with_attributes(seq![], m.input, pieces),
                    self_closing: last_end(at_end_tag(m, i).pos, pieces) < close && m.input[close
                        - 1] == '/',
                    ..end_tag(m.end_tag_name->0)
                },
            ),
        ] + tokens(n),
        moved(
            Machine {
                state: State::Data,
                tag: None,
                pending: seq![],
                reconsume: false,
                at_end: false,
                ..m
            },
            n,
            close + 1,
        ),
{
    closing_tag_goes_on(at_end_tag(m, i), pieces, close)
}

} // verus!
