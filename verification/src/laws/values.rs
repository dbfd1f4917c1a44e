//! References by name that stand in attribute values without their semicolon.

use crate::chars::alphanumeric;
use crate::entities::{expansion, first_pair, first_single, group, lookup, LOWER_N, PAIRS};
use crate::laws::names::lower::lemma_group_of_n;
use crate::laws::names::order::{before, lemma_absent, lemma_absent_pair};
use crate::laws::names::pairs::lemma_pairs;
use crate::laws::names::{every_group_is_filed, every_name_of_group_resolves};
use crate::laws::references::found_name;
use crate::laws::resolved::{kind_of, reference, references_in_values_are_resolved, resolved_value};
use crate::laws::stream::{loud_step, quiet_step, replaying_is_unreading, rested};
use crate::laws::text::text_ends;
use crate::model::references::{longest_prefix, run_end};
use crate::model::runs::tokens;
use crate::model::{new_tag, step, Machine};
use crate::types::{State, TagKind, TagView, TokenView};
use vstd::prelude::*;

verus! {

/// What the value `&`, `name` and `x` comes to, where `name` stands for `v`.
pub open spec fn value_before(name: Seq<char>, v: (char, Option<char>), x: char) -> Seq<char> {
    if x == '=' || alphanumeric(x) {
        seq!['&'] + name + seq![x]
    } else {
        expansion(v) + seq![x]
    }
}

/// Whether `name` is found before `x`: it stands for `v`, and `x` does not make it a longer
/// name.
pub open spec fn is_found_before(name: Seq<char>, v: (char, Option<char>), x: char) -> bool {
    &&& name.len() > 0
    &&& forall|i: int| 0 <= i < name.len() ==> alphanumeric(#[trigger] name[i])
    &&& lookup(name) == Some(v)
    &&& x != ';'
    &&& alphanumeric(x) ==> lookup(name.push(x)) is None
}

proof fn lemma_run_of(text: Seq<char>, from: int, to: int)
    requires
        0 <= from <= to <= text.len(),
        forall|i: int| from <= i < to ==> alphanumeric(#[trigger] text[i]),
        to < text.len() ==> !alphanumeric(text[to]),
    ensures
        run_end(text, from) == to,
    decreases to - from,
{
    if from < to {
        assert(alphanumeric(text[from]));
        lemma_run_of(text, from + 1, to);
    }
}

/// The name is found, and nothing longer.
proof fn lemma_found_before(
    name: Seq<char>,
    v: (char, Option<char>),
    x: char,
    tail: Seq<char>,
)
    requires
        is_found_before(name, v, x),
        tail.len() > 0,
        !alphanumeric(tail[0]),
        tail[0] != ';',
    ensures
        found_name(name + seq![x] + tail) == Some((name.len(), v)),
{
    let text = name + seq![x] + tail;
    let n = name.len() as int;
    assert(text[n] == x);
    assert(text[n + 1] == tail[0]);
    assert forall|i: int| 0 <= i < n implies alphanumeric(#[trigger] text[i]) by {
        assert(text[i] == name[i]);
    }
    if alphanumeric(x) {
        lemma_run_of(text, 0, n + 1);
        assert(text.take(n + 1) =~= name.push(x));
        assert(name.push(x).take(n + 1) =~= name.push(x));
        assert(name.push(x).take(n) =~= name);
        assert(longest_prefix(name.push(x), (n + 1) as nat) == longest_prefix(
            name.push(x),
            n as nat,
        ));
    } else {
        lemma_run_of(text, 0, n);
        assert(text.take(n) =~= name);
        assert(name.take(n) =~= name);
    }
}

/// In an attribute value a name without semicolon is text where `=`, a letter or a digit
/// follows it, and stands for what it names otherwise.
pub proof fn name_in_value_is_resolved_before(
    input: Seq<char>,
    p: int,
    name: Seq<char>,
    v: (char, Option<char>),
    x: char,
)
    requires
        is_found_before(name, v, x),
        x != '&',
        x != '\0',
        0 <= p,
        p + name.len() + 2 < input.len(),
        input.subrange(p, p + name.len() + 2) == seq!['&'] + name + seq![x],
        !alphanumeric(input[p + name.len() + 2]),
        input[p + name.len() + 2] != ';',
    ensures
        resolved_value(input, p, p + name.len() + 2) == value_before(name, v, x),
{
    let n = name.len() as int;
    let to = p + n + 2;
    let here = input.subrange(p, to);
    let text = input.skip(p + 1);
    let tail = input.skip(to);
    assert(here[0] == '&');
    assert(here[n + 1] == x);
    assert forall|i: int| 0 <= i < n implies input[p + 1 + i] == #[trigger] name[i] by {
        assert(here[1 + i] == name[i]);
    }
    assert(text =~= name + seq![x] + tail);
    assert(tail[0] == input[to]);
    lemma_found_before(name, v, x, tail);
    assert(text[0] == name[0]);
    assert(alphanumeric(name[0]) && alphanumeric(name[n - 1]));
    assert(kind_of(text) is Named);
    assert(text[n - 1] == name[n - 1]);
    assert(text[n] == x);
    assert(text.take(n) =~= name);
    let (k, out) = reference(text, true);
    assert(k == n);
    assert(input[p + 1 + n] == x);
    assert(resolved_value(input, to, to) =~= seq![]);
    assert(resolved_value(input, p + 1 + n, to) =~= seq![x]);
    assert(resolved_value(input, p, to) =~= out + seq![x]);
    assert(seq!['&'] + name + seq![x] =~= (seq!['&'] + name) + seq![x]);
}

/// A start tag with such a value, by itself.
pub open spec fn value_input(name: Seq<char>, x: char) -> Seq<char> {
    seq!['<', 'h', ' ', 'a', '=', '"', '&'] + name + seq![x, '"', '>']
}

/// The machine at the beginning of the value.
proof fn lemma_value_opened(input: Seq<char>) -> (n: Machine)
    requires
        input.len() > 6,
        input.take(6) == seq!['<', 'h', ' ', 'a', '=', '"'],
    ensures
        n == (Machine {
            pos: 6,
            state: State::AttributeValueDoubleQuoted,
            tag: Some(new_tag(TagKind::Start, 'h')),
            attr_name: seq!['a'],
            ..Machine::initial(input)
        }),
        tokens(Machine::initial(input)) == tokens(n),
{
    let m = Machine::initial(input);
    assert forall|i: int| 0 <= i < 6 implies input[i] == #[trigger] input.take(6)[i] by {}
    let m1 = step(m).0;
    quiet_step(m);
    let m2 = step(m1).0;
    quiet_step(m1);
    assert(m2.state == State::TagName && m2.pos == 2);
    let m3 = step(m2).0;
    quiet_step(m2);
    let m4 = step(m3).0;
    quiet_step(m3);
    replaying_is_unreading(m4);
    let m5 = rested(m4);
    assert(m5.state == State::AttributeName && m5.pos == 3);
    let m6 = step(m5).0;
    quiet_step(m5);
    assert(m6.attr_name =~= seq!['a']);
    let m7 = step(m6).0;
    quiet_step(m6);
    let m8 = step(m7).0;
    quiet_step(m7);
    m8
}

/// A start tag whose one attribute has such a value comes out with it, and nothing of the
/// value comes out as text.
pub proof fn tag_with_name_in_value(name: Seq<char>, v: (char, Option<char>), x: char)
    requires
        is_found_before(name, v, x),
        x != '&',
        x != '"',
        x != '\0',
    ensures
        tokens(Machine::initial(value_input(name, x))) == seq![
            TokenView::Tag(
                TagView {
                    kind: TagKind::Start,
                    name: seq!['h'],
                    attrs: seq![(seq!['a'], value_before(name, v, x))],
                    self_closing: false,
                },
            ),
            TokenView::EOF,
        ],
{
    let input = value_input(name, x);
    let n = name.len() as int;
    let to = 8 + n;
    let m = Machine::initial(input);
    let value = value_before(name, v, x);
    assert(input[to] == '"');
    assert(input[to + 1] == '>');
    assert(input.subrange(6, to) =~= seq!['&'] + name + seq![x]);
    assert forall|i: int| 6 <= i < to implies #[trigger] input[i] != '"' by {
        if 7 <= i < 7 + n {
            assert(input[i] == name[i - 7]);
        }
    }
    assert(input.take(6) =~= seq!['<', 'h', ' ', 'a', '=', '"']);
    let m8 = lemma_value_opened(input);
    name_in_value_is_resolved_before(input, 6, name, v, x);
    let m9 = references_in_values_are_resolved(m8, to);
    assert(m8.attr_value + value =~= value);
    let m10 = step(m9).0;
    quiet_step(m9);
    let (m11, t) = step(m10);
    loud_step(m10);
    assert(m10.tag->0.attrs.len() == 0);
    assert(m10.add_attribute().tag->0.attrs =~= seq![(seq!['a'], value)]);
    text_ends(m11);
    assert(tokens(m) =~= seq![t->0, TokenView::EOF]);
}

/// The name `not`, and that name with `x` behind it, in the table of the names that begin
/// with `n`.
proof fn lemma_not_among_singles(x: char)
    requires
        alphanumeric(x),
    ensures
        first_single(group('n'), "not"@) == Some('\u{AC}'),
        first_single(group('n'), "not"@.push(x)) is None,
{
    let t = LOWER_N@;
    let longer = "not"@.push(x);
    lemma_group_of_n();
    every_group_is_filed('n');
    every_name_of_group_resolves('n', 59);
    reveal_strlit("not");
    reveal_strlit("not;");
    reveal_strlit("notin;");
    reveal_strlit("notinvc;");
    reveal_strlit("notni;");
    reveal_strlit("notnivc;");
    reveal_strlit("npar;");
    assert(t[59].0@[0] == 'n');
    if ';' >= x {
        assert(before(t[59].0@, longer, 3));
        assert(before(longer, t[60].0@, 3));
        lemma_absent(t, 'n', longer, 60);
    } else if x <= 'i' {
        assert(before(t[60].0@, longer, 3));
        assert(before(longer, t[61].0@, if x == 'i' {
            4
        } else {
            3
        }));
        lemma_absent(t, 'n', longer, 61);
    } else if x <= 'n' {
        assert(before(t[64].0@, longer, 3));
        assert(before(longer, t[65].0@, if x == 'n' {
            4
        } else {
            3
        }));
        lemma_absent(t, 'n', longer, 65);
    } else {
        assert(before(t[68].0@, longer, 3));
        assert(before(longer, t[69].0@, 1));
        lemma_absent(t, 'n', longer, 69);
    }
}

/// The name `not` with `x` behind it is none that stands for two code points.
proof fn lemma_not_among_pairs(x: char)
    requires
        alphanumeric(x),
    ensures
        first_pair(PAIRS@, "not"@.push(x)) is None,
{
    let longer = "not"@.push(x);
    lemma_pairs();
    reveal_strlit("not");
    reveal_strlit("nles;");
    reveal_strlit("notinE;");
    reveal_strlit("notindot;");
    reveal_strlit("nparsl;");
    if x <= 'i' {
        assert(before(PAIRS@[54].0@, longer, 1));
        assert(before(longer, PAIRS@[55].0@, if x == 'i' {
            4
        } else {
            3
        }));
        lemma_absent_pair(PAIRS@, longer, 55);
    } else {
        assert(before(PAIRS@[56].0@, longer, 3));
        assert(before(longer, PAIRS@[57].0@, 1));
        lemma_absent_pair(PAIRS@, longer, 57);
    }
}

/// `not` is a name without semicolon, and no code point makes it a longer one but a
/// semicolon.
pub proof fn not_is_a_name_by_itself(x: char)
    requires
        x != ';',
    ensures
        is_found_before("not"@, ('\u{AC}', None), x),
{
    reveal_strlit("not");
    lemma_not_among_singles(if alphanumeric(x) {
        x
    } else {
        'a'
    });
    if alphanumeric(x) {
        lemma_not_among_pairs(x);
    }
}

/// `&not` in a value is text where `=`, a letter or a digit follows it, and stands for U+AC
/// otherwise.
pub proof fn tag_with_not_in_value(x: char)
    requires
        x != ';',
        x != '&',
        x != '"',
        x != '\0',
    ensures
        tokens(Machine::initial(value_input("not"@, x))) == seq![
            TokenView::Tag(
                TagView {
                    kind: TagKind::Start,
                    name: seq!['h'],
                    attrs: seq![
                        (seq!['a'], value_before("not"@, ('\u{AC}', None), x)),
                    ],
                    self_closing: false,
                },
            ),
            TokenView::EOF,
        ],
{
    not_is_a_name_by_itself(x);
    tag_with_name_in_value("not"@, ('\u{AC}', None), x);
}

} // verus!
