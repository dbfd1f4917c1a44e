//! Where a script ends: escapes, double escapes and end tags, by their place in the input.

use crate::chars::{alphabetic, lowercase_all, space, visible};
use crate::laws::raw::{closes_at, end_tag};
use crate::laws::stream::{loud_step, quiet_step, replaying_is_unreading, rested};
use crate::laws::tags::at_rest;
use crate::laws::text::{
    character, characters, lemma_step_of_text, pending_text_comes_first, visible_all,
};
use crate::model::runs::tokens;
use crate::model::{step, Machine};
use crate::types::{State, TagView, TokenView};
use vstd::prelude::*;

verus! {

/// What a script is read as.
pub enum Phase {
    /// A script.
    Plain,
    /// An escape, which `<!--` opens.
    Escaped,
    /// A double escape, which `<script` opens in an escape.
    Double,
}

/// `script`, letter by letter.
pub open spec fn script_word() -> Seq<char> {
    seq!['s', 'c', 'r', 'i', 'p', 't']
}

/// Whether the input holds `script` at `i`, in any case, with space, `/` or `>` behind it.
pub open spec fn names_script(input: Seq<char>, i: int) -> bool {
    &&& 0 <= i
    &&& i + 6 < input.len()
    &&& lowercase_all(input.subrange(i, i + 6)) == script_word()
    &&& space(input[i + 6]) || input[i + 6] == '/' || input[i + 6] == '>'
}

/// Whether the input holds `<!--` at `i`.
pub open spec fn opens_escape(input: Seq<char>, i: int) -> bool {
    &&& 0 <= i
    &&& i + 3 < input.len()
    &&& input[i] == '<'
    &&& input[i + 1] == '!'
    &&& input[i + 2] == '-'
    &&& input[i + 3] == '-'
}

/// Whether the input holds the `>` of `-->` at `i`.
pub open spec fn ends_escape(input: Seq<char>, i: int) -> bool {
    2 <= i < input.len() && input[i] == '>' && input[i - 1] == '-' && input[i - 2] == '-'
}

/// Whether the input holds `<script` at `i`.
pub open spec fn opens_double(input: Seq<char>, i: int) -> bool {
    0 <= i < input.len() && input[i] == '<' && names_script(input, i + 1)
}

/// Whether the input holds `</script` at `i`.
pub open spec fn ends_double(input: Seq<char>, i: int) -> bool {
    0 <= i && i + 1 < input.len() && input[i] == '<' && input[i + 1] == '/' && names_script(
        input,
        i + 2,
    )
}

/// Whether something begins at `i` that is more than text.
pub open spec fn happens(
    input: Seq<char>,
    name: Option<Seq<char>>,
    phase: Phase,
    i: int,
) -> bool {
    match phase {
        Phase::Plain => closes_at(input, i, name) || opens_escape(input, i),
        Phase::Escaped => closes_at(input, i, name) || ends_escape(input, i) || opens_double(
            input,
            i,
        ),
        Phase::Double => ends_escape(input, i) || ends_double(input, i),
    }
}

/// The state of a phase at `p`, by the dashes before `p`.
pub open spec fn state_at(input: Seq<char>, phase: Phase, p: int) -> State {
    let one = p >= 1 && input[p - 1] == '-';
    let two = one && p >= 2 && input[p - 2] == '-';
    match phase {
        Phase::Plain => State::ScriptData,
        Phase::Escaped => if two {
            State::ScriptDataEscapedDashDash
        } else if one {
            State::ScriptDataEscapedDash
        } else {
            State::ScriptDataEscaped
        },
        Phase::Double => if two {
            State::ScriptDataDoubleEscapedDashDash
        } else if one {
            State::ScriptDataDoubleEscapedDash
        } else {
            State::ScriptDataDoubleEscaped
        },
    }
}

/// Whether the machine stands in a script that it reads as `phase`.
pub open spec fn reads_script(m: Machine, phase: Phase) -> bool {
    at_rest(m) && m.state == state_at(m.input, phase, m.pos)
}

/// Whether `n` is `m` at `pos`, in the state of `phase`, but for what only serves to read end
/// tags.
pub open spec fn is_further(m: Machine, n: Machine, phase: Phase, pos: int) -> bool {
    &&& reads_script(n, phase)
    &&& n == (Machine { pos, state: n.state, tag: n.tag, buffer: n.buffer, ..m })
}

/// The end of the run of letters that begins at `from`.
spec fn letters_end(input: Seq<char>, from: int) -> int
    decreases input.len() - from,
{
    if 0 <= from < input.len() && alphabetic(input[from]) {
        letters_end(input, from + 1)
    } else {
        from
    }
}

proof fn lemma_letters(input: Seq<char>, from: int)
    requires
        0 <= from <= input.len(),
    ensures
        from <= letters_end(input, from) <= input.len(),
        forall|i: int| from <= i < letters_end(input, from) ==> alphabetic(#[trigger] input[i]),
        letters_end(input, from) < input.len() ==> !alphabetic(input[letters_end(input, from)]),
    decreases input.len() - from,
{
    if from < input.len() && alphabetic(input[from]) {
        lemma_letters(input, from + 1);
    }
}

/// The name after `<` or `</` in an escape is emitted and kept in lower case.
proof fn lemma_word(m: Machine, q: int)
    requires
        at_rest(m),
        m.state == State::ScriptDataDoubleEscapeStart || m.state
            == State::ScriptDataDoubleEscapeEnd,
        m.pos <= q <= m.input.len(),
        forall|i: int| m.pos <= i < q ==> alphabetic(#[trigger] m.input[i]),
    ensures
        tokens(m) == characters(m.input.subrange(m.pos, q)) + tokens(
            Machine {
                pos: q,
                buffer: m.buffer + lowercase_all(m.input.subrange(m.pos, q)),
                ..m
            },
        ),
    decreases q - m.pos,
{
    let text = m.input.subrange(m.pos, q);
    if m.pos == q {
        assert(m.buffer + lowercase_all(text) =~= m.buffer);
        assert(tokens(m) =~= characters(text) + tokens(m));
    } else {
        let c = m.input[m.pos];
        assert(alphabetic(c));
        let n = step(m).0;
        loud_step(m);
        lemma_word(n, q);
        let rest = m.input.subrange(n.pos, q);
        assert(n.buffer + lowercase_all(rest) =~= m.buffer + lowercase_all(text));
        assert(text =~= seq![c] + rest);
        let last = Machine { pos: q, buffer: m.buffer + lowercase_all(text), ..m };
        lemma_step_of_text(m, text, rest, tokens(last));
    }
}

/// The name of an end tag is read and kept.
proof fn lemma_end_name(m: Machine, q: int)
    requires
        at_rest(m),
        m.state == State::ScriptDataEndTagName || m.state == State::ScriptDataEscapedEndTagName,
        m.tag is Some,
        m.pos <= q <= m.input.len(),
        forall|i: int| m.pos <= i < q ==> alphabetic(#[trigger] m.input[i]),
    ensures
        ({
            let t = m.tag->0;
            let letters = m.input.subrange(m.pos, q);
            tokens(m) == tokens(
                Machine {
                    pos: q,
                    tag: Some(TagView { name: t.name + lowercase_all(letters), ..t }),
                    buffer: m.buffer + letters,
                    ..m
                },
            )
        }),
    decreases q - m.pos,
{
    let t = m.tag->0;
    let letters = m.input.subrange(m.pos, q);
    if m.pos == q {
        assert(t.name + lowercase_all(letters) =~= t.name);
        assert(m.buffer + letters =~= m.buffer);
    } else {
        let c = m.input[m.pos];
        assert(alphabetic(c));
        let n = step(m).0;
        quiet_step(m);
        lemma_end_name(n, q);
        let rest = m.input.subrange(n.pos, q);
        assert(n.tag->0.name + lowercase_all(rest) =~= t.name + lowercase_all(letters));
        assert(n.buffer + rest =~= m.buffer + letters);
    }
}

/// Letters and `<`, `/`, `!`, `-` show as they are.
proof fn lemma_shown(input: Seq<char>, from: int, to: int)
    requires
        0 <= from <= to <= input.len(),
        forall|i: int| from <= i < to ==> #[trigger] input[i] != '\0',
    ensures
        visible_all(input.subrange(from, to)) == input.subrange(from, to),
{
    assert(visible_all(input.subrange(from, to)) =~= input.subrange(from, to));
}

/// The state in which the name of an end tag is read.
pub open spec fn end_tag_state(phase: Phase) -> State {
    match phase {
        Phase::Plain => State::ScriptDataEndTagName,
        _ => State::ScriptDataEscapedEndTagName,
    }
}

/// The machine that has read `</` and the letters behind it, up to `q`.
pub open spec fn at_end_name(m: Machine, phase: Phase, q: int) -> Machine {
    let letters = m.input.subrange(m.pos + 2, q);
    Machine {
        pos: q,
        state: end_tag_state(phase),
        tag: Some(end_tag(lowercase_all(letters))),
        buffer: letters,
        ..m
    }
}

/// `</` and a letter may open an end tag.
proof fn lemma_candidate(m: Machine, phase: Phase, q: int)
    requires
        reads_script(m, phase),
        !(phase is Double),
        m.pos + 2 < q <= m.input.len(),
        m.input[m.pos] == '<',
        m.input[m.pos + 1] == '/',
        forall|i: int| m.pos + 2 <= i < q ==> alphabetic(#[trigger] m.input[i]),
    ensures
        tokens(m) == tokens(at_end_name(m, phase, q)),
        at_rest(at_end_name(m, phase, q)),
{
    let c = m.input[m.pos + 2];
    assert(alphabetic(c));
    let m1 = step(m).0;
    quiet_step(m);
    let m2 = step(m1).0;
    quiet_step(m1);
    let m3 = step(m2).0;
    quiet_step(m2);
    assert(m3.state == end_tag_state(phase) && m3.pos == m.pos + 3);
    lemma_end_name(m3, q);
    let letters = m.input.subrange(m.pos + 2, q);
    let rest = m.input.subrange(m.pos + 3, q);
    assert(m3.buffer + rest =~= letters);
    assert(m3.tag->0.name + lowercase_all(rest) =~= lowercase_all(letters));
}

/// Whether the name at hand closes the script at `q`.
spec fn closes_here(m: Machine, q: int) -> bool {
    &&& m.end_tag_name == Some(lowercase_all(m.input.subrange(m.pos + 2, q)))
    &&& q < m.input.len()
    &&& space(m.input[q]) || m.input[q] == '/' || m.input[q] == '>'
}

/// What is no end tag after all is text.
proof fn lemma_no_end_tag(m: Machine, phase: Phase, q: int) -> (n: Machine)
    requires
        reads_script(m, phase),
        !(phase is Double),
        m.pos + 2 < q <= m.input.len(),
        m.input[m.pos] == '<',
        m.input[m.pos + 1] == '/',
        forall|i: int| m.pos + 2 <= i < q ==> alphabetic(#[trigger] m.input[i]),
        q < m.input.len() ==> !alphabetic(m.input[q]),
        !closes_here(m, q),
    ensures
        is_further(m, n, phase, q),
        tokens(m) == characters(m.input.subrange(m.pos, q)) + tokens(n),
{
    let e = at_end_name(m, phase, q);
    let letters = m.input.subrange(m.pos + 2, q);
    lemma_candidate(m, phase, q);
    let k = step(e).0;
    quiet_step(e);
    pending_text_comes_first(k);
    assert(k.pending =~= m.input.subrange(m.pos, q)) by {
        assert(seq!['<', '/'] + letters + m.pending =~= m.input.subrange(m.pos, q));
    }
    let r = Machine { pending: seq![], ..k };
    assert(m.pending =~= seq![]);
    replaying_is_unreading(r);
    let n = rested(r);
    assert(alphabetic(m.input[q - 1]));
    n
}

/// A stretch of a script in which nothing happens but at its beginning.
spec fn is_stretch(m: Machine, n: Machine, phase: Phase) -> bool {
    &&& is_further(m, n, phase, n.pos)
    &&& m.pos < n.pos <= m.input.len()
    &&& tokens(m) == characters(visible_all(m.input.subrange(m.pos, n.pos))) + tokens(n)
    &&& forall|j: int|
        m.pos < j < n.pos ==> !#[trigger] happens(m.input, m.end_tag_name, phase, j)
}

/// Text other than `<`.
proof fn lemma_plain_stretch(m: Machine, phase: Phase) -> (n: Machine)
    requires
        reads_script(m, phase),
        m.pos < m.input.len(),
        m.input[m.pos] != '<',
        !happens(m.input, m.end_tag_name, phase, m.pos),
    ensures
        is_stretch(m, n, phase),
{
    let c = m.input[m.pos];
    let n = step(m).0;
    loud_step(m);
    assert(step(m).1 == Some(TokenView::Character(visible(c))));
    assert(n.state == state_at(m.input, phase, m.pos + 1));
    assert(characters(visible_all(m.input.subrange(m.pos, m.pos + 1))) =~= seq![
        character(visible(c)),
    ]);
    n
}

/// `</` in a script or in an escape, where nothing happens.
proof fn lemma_solidus_stretch(m: Machine, phase: Phase) -> (n: Machine)
    requires
        reads_script(m, phase),
        !(phase is Double),
        m.pos + 1 < m.input.len(),
        m.input[m.pos] == '<',
        m.input[m.pos + 1] == '/',
        !happens(m.input, m.end_tag_name, phase, m.pos),
    ensures
        is_stretch(m, n, phase),
{
    let q = letters_end(m.input, m.pos + 2);
    lemma_letters(m.input, m.pos + 2);
    if q == m.pos + 2 {
        let m1 = step(m).0;
        quiet_step(m);
        let m2 = step(m1).0;
        quiet_step(m1);
        let k = step(m2).0;
        quiet_step(m2);
        pending_text_comes_first(k);
        assert(k.pending =~= seq!['<', '/']);
        let r = Machine { pending: seq![], ..k };
        assert(m.pending =~= seq![]);
        replaying_is_unreading(r);
        let n = rested(r);
        assert(visible_all(m.input.subrange(m.pos, q)) =~= seq!['<', '/']);
        n
    } else {
        if closes_here(m, q) {
            assert(m.input.subrange(m.pos + 2, m.pos + 2 + (q - m.pos - 2)) =~= m.input.subrange(
                m.pos + 2,
                q,
            ));
            assert(m.end_tag_name->0.len() == q - m.pos - 2);
            assert(closes_at(m.input, m.pos, m.end_tag_name));
        }
        let n = lemma_no_end_tag(m, phase, q);
        assert forall|i: int| m.pos <= i < q implies #[trigger] m.input[i] != '\0' by {}
        lemma_shown(m.input, m.pos, q);
        assert forall|j: int| m.pos < j < n.pos implies !#[trigger] happens(
            m.input,
            m.end_tag_name,
            phase,
            j,
        ) by {
            if j > m.pos + 1 {
                assert(alphabetic(m.input[j]));
            }
        }
        n
    }
}

/// `<!` in a script, where it opens no escape.
proof fn lemma_bang_stretch(m: Machine) -> (n: Machine)
    requires
        reads_script(m, Phase::Plain),
        m.pos + 1 < m.input.len(),
        m.input[m.pos] == '<',
        m.input[m.pos + 1] == '!',
        !opens_escape(m.input, m.pos),
    ensures
        is_stretch(m, n, Phase::Plain),
{
    let p = m.pos;
    let m1 = step(m).0;
    quiet_step(m);
    let m2 = step(m1).0;
    loud_step(m1);
    pending_text_comes_first(m2);
    assert(m2.pending =~= seq!['!']);
    assert(m.pending =~= seq![]);
    let m3 = Machine { pending: seq![], ..m2 };
    assert(characters(seq!['!']) =~= seq![character('!')]);
    assert(tokens(m) =~= seq![character('<'), character('!')] + tokens(m3));
    if p + 2 < m.input.len() && m.input[p + 2] == '-' {
        let m4 = step(m3).0;
        loud_step(m3);
        let k = step(m4).0;
        quiet_step(m4);
        replaying_is_unreading(k);
        let n = rested(k);
        assert(characters(visible_all(m.input.subrange(p, p + 3))) =~= seq![
            character('<'),
            character('!'),
            character('-'),
        ]);
        assert(tokens(m) =~= characters(visible_all(m.input.subrange(p, p + 3))) + tokens(n));
        n
    } else {
        let k = step(m3).0;
        quiet_step(m3);
        replaying_is_unreading(k);
        let n = rested(k);
        assert(characters(visible_all(m.input.subrange(p, p + 2))) =~= seq![
            character('<'),
            character('!'),
        ]);
        assert(tokens(m) =~= characters(visible_all(m.input.subrange(p, p + 2))) + tokens(n));
        n
    }
}

/// `<` before what makes nothing of it.
proof fn lemma_lone_stretch(m: Machine, phase: Phase) -> (n: Machine)
    requires
        reads_script(m, phase),
        m.pos < m.input.len(),
        m.input[m.pos] == '<',
        m.pos + 1 < m.input.len() ==> {
            let c = m.input[m.pos + 1];
            &&& c != '/'
            &&& phase is Plain ==> c != '!'
            &&& phase is Escaped ==> !alphabetic(c)
        },
    ensures
        is_stretch(m, n, phase),
{
    let p = m.pos;
    let (m1, t) = step(m);
    assert(characters(visible_all(m.input.subrange(p, p + 1))) =~= seq![character('<')]);
    if phase is Double {
        loud_step(m);
        let k = step(m1).0;
        quiet_step(m1);
        replaying_is_unreading(k);
        rested(k)
    } else {
        quiet_step(m);
        let k = step(m1).0;
        loud_step(m1);
        replaying_is_unreading(k);
        rested(k)
    }
}

/// Letters in an escape that do not name `script`, or name it with nothing behind: what comes
/// of them.
proof fn lemma_word_stretch(m: Machine, phase: Phase, q: int) -> (n: Machine)
    requires
        at_rest(m),
        m.buffer.len() == 0,
        phase is Escaped ==> m.state == State::ScriptDataDoubleEscapeStart,
        phase is Double ==> m.state == State::ScriptDataDoubleEscapeEnd,
        !(phase is Plain),
        1 <= m.pos <= q <= m.input.len(),
        m.input[m.pos - 1] != '-',
        forall|i: int| m.pos <= i < q ==> alphabetic(#[trigger] m.input[i]),
        q < m.input.len() ==> !alphabetic(m.input[q]),
        !names_script(m.input, m.pos),
    ensures
        n.pos == q || n.pos == q + 1,
        n.pos <= m.input.len(),
        is_further(m, n, phase, n.pos),
        n.pos == q + 1 ==> space(m.input[q]) || m.input[q] == '/' || m.input[q] == '>',
        tokens(m) == characters(m.input.subrange(m.pos, n.pos)) + tokens(n),
{
    let letters = m.input.subrange(m.pos, q);
    lemma_word(m, q);
    let e = Machine { pos: q, buffer: m.buffer + lowercase_all(letters), ..m };
    assert(e.buffer =~= lowercase_all(letters));
    reveal_strlit("script");
    assert("script"@ =~= script_word());
    let (k, t) = step(e);
    if q < m.input.len() && (space(m.input[q]) || m.input[q] == '/' || m.input[q] == '>') {
        if e.buffer == "script"@ {
            assert(lowercase_all(letters).len() == 6);
            assert(m.input.subrange(m.pos, m.pos + 6) =~= letters);
            assert(names_script(m.input, m.pos));
        }
        loud_step(e);
        assert(m.input.subrange(m.pos, q + 1) =~= letters.push(m.input[q]));
        assert(characters(m.input.subrange(m.pos, q + 1)) =~= characters(letters).push(
            character(m.input[q]),
        ));
        assert(tokens(m) =~= characters(m.input.subrange(m.pos, q + 1)) + tokens(k));
        k
    } else {
        quiet_step(e);
        replaying_is_unreading(k);
        let n = rested(k);
        if q > m.pos {
            assert(alphabetic(m.input[q - 1]));
        }
        n
    }
}

/// Where the name begins that may switch a double escape.
spec fn word_start(m: Machine, phase: Phase) -> int {
    if phase is Double {
        m.pos + 2
    } else {
        m.pos + 1
    }
}

/// `<` before a letter in an escape, or `</` in a double escape, comes out at once.
proof fn lemma_name_head(m: Machine, phase: Phase) -> (n: Machine)
    requires
        reads_script(m, phase),
        !(phase is Plain),
        m.pos + 1 < m.input.len(),
        m.input[m.pos] == '<',
        phase is Escaped ==> alphabetic(m.input[m.pos + 1]),
        phase is Double ==> m.input[m.pos + 1] == '/',
    ensures
        at_rest(n),
        n == (Machine {
            pos: word_start(m, phase),
            state: if phase is Double {
                State::ScriptDataDoubleEscapeEnd
            } else {
                State::ScriptDataDoubleEscapeStart
            },
            buffer: seq![],
            ..m
        }),
        tokens(m) == characters(m.input.subrange(m.pos, word_start(m, phase))) + tokens(n),
{
    let head = m.input.subrange(m.pos, word_start(m, phase));
    let m1 = step(m).0;
    assert(m.pending =~= seq![]);
    if phase is Double {
        loud_step(m);
        let k = step(m1).0;
        quiet_step(m1);
        pending_text_comes_first(k);
        assert(k.pending =~= seq!['/']);
        assert(characters(seq!['/']) =~= seq![character('/')]);
        assert(characters(head) =~= seq![character('<'), character('/')]);
        let n = Machine { pending: seq![], ..k };
        assert(tokens(m) =~= characters(head) + tokens(n));
        n
    } else {
        quiet_step(m);
        let k = step(m1).0;
        loud_step(m1);
        replaying_is_unreading(k);
        assert(characters(head) =~= seq![character('<')]);
        rested(k)
    }
}

/// The name `script` with what ends it switches a double escape.
proof fn lemma_word_switches(m: Machine, phase: Phase) -> (n: Machine)
    requires
        at_rest(m),
        m.buffer.len() == 0,
        phase is Escaped ==> m.state == State::ScriptDataDoubleEscapeStart,
        phase is Double ==> m.state == State::ScriptDataDoubleEscapeEnd,
        !(phase is Plain),
        names_script(m.input, m.pos),
    ensures
        is_further(
            m,
            n,
            if phase is Escaped {
                Phase::Double
            } else {
                Phase::Escaped
            },
            m.pos + 7,
        ),
        tokens(m) == characters(m.input.subrange(m.pos, m.pos + 7)) + tokens(n),
{
    let q = m.pos + 6;
    let letters = m.input.subrange(m.pos, q);
    assert forall|i: int| m.pos <= i < q implies alphabetic(#[trigger] m.input[i]) by {
        assert(lowercase_all(letters)[i - m.pos] == script_word()[i - m.pos]);
        assert(letters[i - m.pos] == m.input[i]);
    }
    lemma_word(m, q);
    let e = Machine { pos: q, buffer: m.buffer + lowercase_all(letters), ..m };
    reveal_strlit("script");
    assert("script"@ =~= script_word());
    assert(e.buffer =~= script_word());
    let n = step(e).0;
    loud_step(e);
    let whole = m.input.subrange(m.pos, q + 1);
    assert(characters(whole) =~= characters(letters).push(character(m.input[q])));
    assert(tokens(m) =~= characters(whole) + tokens(n));
    n
}

/// `<` and a letter in an escape, or `</` in a double escape, where nothing happens.
proof fn lemma_name_stretch(m: Machine, phase: Phase) -> (n: Machine)
    requires
        reads_script(m, phase),
        !(phase is Plain),
        m.pos + 1 < m.input.len(),
        m.input[m.pos] == '<',
        phase is Escaped ==> alphabetic(m.input[m.pos + 1]),
        phase is Double ==> m.input[m.pos + 1] == '/',
        !happens(m.input, m.end_tag_name, phase, m.pos),
    ensures
        is_stretch(m, n, phase),
{
    let p = m.pos;
    let from = if phase is Double {
        p + 2
    } else {
        p + 1
    };
    let q = letters_end(m.input, from);
    lemma_letters(m.input, from);
    let head = m.input.subrange(p, from);
    let m2 = lemma_name_head(m, phase);
    let n = lemma_word_stretch(m2, phase, q);
    let whole = m.input.subrange(p, n.pos);
    assert forall|i: int| p <= i < n.pos implies #[trigger] m.input[i] != '\0' by {
        if from <= i < q {
            assert(alphabetic(m.input[i]));
        }
    }
    lemma_shown(m.input, p, n.pos);
    assert(characters(whole) =~= characters(head) + characters(m.input.subrange(from, n.pos)));
    assert(tokens(m) =~= characters(whole) + tokens(n));
    assert forall|j: int| p < j < n.pos implies !#[trigger] happens(
        m.input,
        m.end_tag_name,
        phase,
        j,
    ) by {
        if from <= j < q {
            assert(alphabetic(m.input[j]));
        }
        if from <= j - 1 < q {
            assert(alphabetic(m.input[j - 1]));
        }
    }
    n
}

/// Where nothing happens, text comes out as it stands.
proof fn lemma_stretch(m: Machine, phase: Phase) -> (n: Machine)
    requires
        reads_script(m, phase),
        m.pos < m.input.len(),
        !happens(m.input, m.end_tag_name, phase, m.pos),
    ensures
        is_stretch(m, n, phase),
{
    if m.input[m.pos] != '<' {
        lemma_plain_stretch(m, phase)
    } else if m.pos + 1 < m.input.len() && m.input[m.pos + 1] == '/' {
        if phase is Double {
            lemma_name_stretch(m, phase)
        } else {
            lemma_solidus_stretch(m, phase)
        }
    } else if m.pos + 1 < m.input.len() && phase is Plain && m.input[m.pos + 1] == '!' {
        lemma_bang_stretch(m)
    } else if m.pos + 1 < m.input.len() && phase is Escaped && alphabetic(m.input[m.pos + 1]) {
        lemma_name_stretch(m, phase)
    } else {
        lemma_lone_stretch(m, phase)
    }
}

/// `<!--` in a script opens an escape; it comes out as text.
pub proof fn escape_is_opened(m: Machine) -> (n: Machine)
    requires
        reads_script(m, Phase::Plain),
        opens_escape(m.input, m.pos),
    ensures
        is_further(m, n, Phase::Escaped, m.pos + 4),
        tokens(m) == characters(m.input.subrange(m.pos, m.pos + 4)) + tokens(n),
{
    let p = m.pos;
    let m1 = step(m).0;
    quiet_step(m);
    let m2 = step(m1).0;
    loud_step(m1);
    pending_text_comes_first(m2);
    assert(m2.pending =~= seq!['!']);
    assert(m.pending =~= seq![]);
    let m3 = Machine { pending: seq![], ..m2 };
    assert(characters(seq!['!']) =~= seq![character('!')]);
    let m4 = step(m3).0;
    loud_step(m3);
    let n = step(m4).0;
    loud_step(m4);
    assert(characters(m.input.subrange(p, p + 4)) =~= seq![
        character('<'),
        character('!'),
        character('-'),
        character('-'),
    ]);
    assert(tokens(m) =~= characters(m.input.subrange(p, p + 4)) + tokens(n));
    n
}

/// `-->` ends an escape, and a double escape too; it comes out as text.
pub proof fn escape_is_ended(m: Machine, phase: Phase) -> (n: Machine)
    requires
        reads_script(m, phase),
        !(phase is Plain),
        ends_escape(m.input, m.pos),
    ensures
        is_further(m, n, Phase::Plain, m.pos + 1),
        tokens(m) == characters(m.input.subrange(m.pos, m.pos + 1)) + tokens(n),
{
    loud_step(m);
    assert(characters(m.input.subrange(m.pos, m.pos + 1)) =~= seq![character('>')]);
    step(m).0
}

/// `<script` in an escape opens a double escape, and `</script` in a double escape ends it;
/// both come out as text.
pub proof fn double_escape_is_switched(m: Machine, phase: Phase) -> (n: Machine)
    requires
        reads_script(m, phase),
        !(phase is Plain),
        phase is Escaped ==> opens_double(m.input, m.pos),
        phase is Double ==> ends_double(m.input, m.pos),
    ensures
        ({
            let (next, len) = if phase is Escaped {
                (Phase::Double, 8int)
            } else {
                (Phase::Escaped, 9int)
            };
            &&& is_further(m, n, next, m.pos + len)
            &&& tokens(m) == characters(m.input.subrange(m.pos, m.pos + len)) + tokens(n)
        }),
{
    let p = m.pos;
    let from = if phase is Double {
        p + 2
    } else {
        p + 1
    };
    let q = from + 6;
    let letters = m.input.subrange(from, q);
    assert forall|i: int| from <= i < q implies alphabetic(#[trigger] m.input[i]) by {
        assert(lowercase_all(letters)[i - from] == script_word()[i - from]);
        assert(letters[i - from] == m.input[i]);
    }
    assert(alphabetic(m.input[from]));
    let head = m.input.subrange(p, from);
    let m2 = lemma_name_head(m, phase);
    let n = lemma_word_switches(m2, phase);
    let whole = m.input.subrange(p, q + 1);
    let tail = m.input.subrange(from, q + 1);
    assert(characters(whole) =~= characters(head) + characters(tail));
    assert(tokens(m) =~= characters(whole) + tokens(n));
    n
}

/// The end tag that closes the script is read as such, up to the end of its name.
pub proof fn script_end_tag_is_found(m: Machine, phase: Phase)
    requires
        reads_script(m, phase),
        !(phase is Double),
        closes_at(m.input, m.pos, m.end_tag_name),
    ensures
        ({
            let e = at_end_name(m, phase, m.pos + 2 + m.end_tag_name->0.len());
            &&& at_rest(e)
            &&& e.tag == Some(end_tag(m.end_tag_name->0))
            &&& tokens(m) == tokens(e)
        }),
{
    lemma_candidate(m, phase, m.pos + 2 + m.end_tag_name->0.len());
}

/// Where the end tag stands that closes a script which is read as `phase` from `p` on, and
/// what the script is read as there. `<!--` opens an escape, `-->` ends it; in an escape
/// `<script` opens a double escape, in which no end tag closes the script, up to `</script`.
pub open spec fn script_end(
    input: Seq<char>,
    name: Option<Seq<char>>,
    phase: Phase,
    p: int,
) -> Option<(int, Phase)>
    decreases input.len() - p,
{
    if !(0 <= p < input.len()) {
        None
    } else if !(phase is Double) && closes_at(input, p, name) {
        Some((p, phase))
    } else if phase is Plain && opens_escape(input, p) {
        script_end(input, name, Phase::Escaped, p + 4)
    } else if !(phase is Plain) && ends_escape(input, p) {
        script_end(input, name, Phase::Plain, p + 1)
    } else if phase is Escaped && opens_double(input, p) {
        script_end(input, name, Phase::Double, p + 8)
    } else if phase is Double && ends_double(input, p) {
        script_end(input, name, Phase::Escaped, p + 9)
    } else {
        script_end(input, name, phase, p + 1)
    }
}

/// Where nothing happens, the end is where it was.
proof fn lemma_script_end(
    input: Seq<char>,
    name: Option<Seq<char>>,
    phase: Phase,
    p: int,
    r: int,
)
    requires
        0 <= p <= r <= input.len(),
        forall|j: int| p <= j < r ==> !#[trigger] happens(input, name, phase, j),
    ensures
        script_end(input, name, phase, p) == script_end(input, name, phase, r),
    decreases r - p,
{
    if p < r {
        assert(!happens(input, name, phase, p));
        lemma_script_end(input, name, phase, p + 1, r);
    }
}

/// The end of a script does not come before it.
proof fn lemma_script_end_follows(
    input: Seq<char>,
    name: Option<Seq<char>>,
    phase: Phase,
    p: int,
)
    requires
        0 <= p,
    ensures
        script_end(input, name, phase, p) matches Some((i, last)) ==> p <= i < input.len()
            && closes_at(input, i, name) && !(last is Double),
    decreases input.len() - p,
{
    if p < input.len() {
        if !(phase is Double) && closes_at(input, p, name) {
        } else if phase is Plain && opens_escape(input, p) {
            lemma_script_end_follows(input, name, Phase::Escaped, p + 4);
        } else if !(phase is Plain) && ends_escape(input, p) {
            lemma_script_end_follows(input, name, Phase::Plain, p + 1);
        } else if phase is Escaped && opens_double(input, p) {
            lemma_script_end_follows(input, name, Phase::Double, p + 8);
        } else if phase is Double && ends_double(input, p) {
            lemma_script_end_follows(input, name, Phase::Escaped, p + 9);
        } else {
            lemma_script_end_follows(input, name, phase, p + 1);
        }
    }
}

/// A step of a script that leads from `m` to `n` with the text between them.
proof fn lemma_script_goes_on(m: Machine, n: Machine, i: int, tail: Seq<TokenView>)
    requires
        0 <= m.pos <= n.pos <= i <= m.input.len(),
        n.input == m.input,
        tokens(m) == characters(visible_all(m.input.subrange(m.pos, n.pos))) + tokens(n),
        tokens(n) == characters(visible_all(m.input.subrange(n.pos, i))) + tail,
    ensures
        tokens(m) == characters(visible_all(m.input.subrange(m.pos, i))) + tail,
{
    let a = visible_all(m.input.subrange(m.pos, n.pos));
    let b = visible_all(m.input.subrange(n.pos, i));
    let c = visible_all(m.input.subrange(m.pos, i));
    assert(c =~= a + b);
    assert(characters(c) =~= characters(a) + characters(b));
    assert(tokens(m) =~= characters(c) + tail);
}

/// What happens in a script besides its end: the machine behind it, and what the script is read
/// as then.
proof fn lemma_event(m: Machine, phase: Phase) -> (out: (Machine, Phase))
    requires
        reads_script(m, phase),
        m.pos < m.input.len(),
        happens(m.input, m.end_tag_name, phase, m.pos),
        phase is Double || !closes_at(m.input, m.pos, m.end_tag_name),
    ensures
        ({
            let (n, next) = out;
            &&& is_further(m, n, next, n.pos)
            &&& m.pos < n.pos <= m.input.len()
            &&& next is Plain ==> ends_escape(m.input, m.pos)
            &&& tokens(m) == characters(visible_all(m.input.subrange(m.pos, n.pos))) + tokens(n)
            &&& script_end(m.input, m.end_tag_name, phase, m.pos) == script_end(
                m.input,
                m.end_tag_name,
                next,
                n.pos,
            )
        }),
{
    let p = m.pos;
    if phase is Plain {
        let n = escape_is_opened(m);
        assert(visible_all(m.input.subrange(p, p + 4)) =~= m.input.subrange(p, p + 4));
        (n, Phase::Escaped)
    } else if ends_escape(m.input, p) {
        let n = escape_is_ended(m, phase);
        assert(visible_all(m.input.subrange(p, p + 1)) =~= m.input.subrange(p, p + 1));
        (n, Phase::Plain)
    } else {
        let n = double_escape_is_switched(m, phase);
        let from = if phase is Double {
            p + 2
        } else {
            p + 1
        };
        let letters = m.input.subrange(from, from + 6);
        assert forall|i: int| p <= i < n.pos implies #[trigger] m.input[i] != '\0' by {
            if from <= i < from + 6 {
                assert(lowercase_all(letters)[i - from] == script_word()[i - from]);
                assert(letters[i - from] == m.input[i]);
            }
        }
        lemma_shown(m.input, p, n.pos);
        (
            n,
            if phase is Escaped {
                Phase::Double
            } else {
                Phase::Escaped
            },
        )
    }
}

/// A script comes out as it stands, NUL as U+FFFD, up to the end tag that closes it, which is
/// then read as such: the first that no double escape hides.
pub proof fn script_ends_where_it_is_closed(m: Machine, phase: Phase) -> (n: Machine)
    requires
        reads_script(m, phase),
    ensures
        match script_end(m.input, m.end_tag_name, phase, m.pos) {
            Some((i, last)) => {
                let name = m.end_tag_name->0;
                &&& m.pos <= i
                &&& closes_at(m.input, i, m.end_tag_name)
                &&& tokens(m) == characters(visible_all(m.input.subrange(m.pos, i))) + tokens(n)
                &&& at_rest(n)
                &&& n == (Machine {
                    pos: i + 2 + name.len(),
                    state: end_tag_state(last),
                    tag: Some(end_tag(name)),
                    buffer: n.buffer,
                    ..m
                })
            },
            None => tokens(m) == characters(visible_all(m.input.skip(m.pos))).push(TokenView::EOF),
        },
    decreases m.input.len() - m.pos,
{
    let p = m.pos;
    let len = m.input.len() as int;
    let end = script_end(m.input, m.end_tag_name, phase, p);
    lemma_script_end_follows(m.input, m.end_tag_name, phase, p);
    if p == len {
        loud_step(m);
        assert(tokens(m) =~= characters(visible_all(m.input.skip(p))).push(TokenView::EOF));
        m
    } else if !(phase is Double) && closes_at(m.input, p, m.end_tag_name) {
        script_end_tag_is_found(m, phase);
        let n = at_end_name(m, phase, p + 2 + m.end_tag_name->0.len());
        assert(characters(visible_all(m.input.subrange(p, p))) =~= seq![]);
        assert(tokens(m) =~= characters(visible_all(m.input.subrange(p, p))) + tokens(n));
        n
    } else {
        let (k, next) = if happens(m.input, m.end_tag_name, phase, p) {
            lemma_event(m, phase)
        } else {
            let k = lemma_stretch(m, phase);
            lemma_script_end(m.input, m.end_tag_name, phase, p, k.pos);
            (k, phase)
        };
        let n = script_ends_where_it_is_closed(k, next);
        lemma_script_end_follows(m.input, m.end_tag_name, next, k.pos);
        if let Some((i, last)) = end {
            lemma_script_goes_on(m, k, i, tokens(n));
        } else {
            assert(m.input.skip(k.pos) =~= m.input.subrange(k.pos, len));
            assert(m.input.skip(p) =~= m.input.subrange(p, len));
            let tail = seq![TokenView::EOF];
            assert(tokens(k) =~= characters(visible_all(m.input.subrange(k.pos, len))) + tail);
            lemma_script_goes_on(m, k, len, tail);
            assert(tokens(m) =~= characters(visible_all(m.input.skip(p))).push(TokenView::EOF));
        }
        n
    }
}

/// As long as `-->` does not end it, an escape goes on: from behind `<!--` to `p` the script is
/// read as an escape or as a double escape, and comes out as it stands, where no end tag
/// closes it.
pub proof fn escape_goes_on(m: Machine, phase: Phase, p: int) -> (out: (Machine, Phase))
    requires
        reads_script(m, phase),
        !(phase is Plain),
        m.pos <= p <= m.input.len(),
        forall|j: int| m.pos <= j ==> !#[trigger] closes_at(m.input, j, m.end_tag_name),
        forall|j: int| m.pos <= j < m.input.len() ==> !#[trigger] ends_escape(m.input, j),
    ensures
        ({
            let (n, last) = out;
            &&& !(last is Plain)
            &&& p <= n.pos
            &&& is_further(m, n, last, n.pos)
            &&& tokens(m) == characters(visible_all(m.input.subrange(m.pos, n.pos))) + tokens(n)
        }),
    decreases m.input.len() - m.pos,
{
    if m.pos >= p {
        assert(characters(visible_all(m.input.subrange(m.pos, m.pos))) =~= seq![]);
        assert(tokens(m) =~= characters(visible_all(m.input.subrange(m.pos, m.pos))) + tokens(m));
        (m, phase)
    } else {
        assert(!ends_escape(m.input, m.pos));
        assert(!closes_at(m.input, m.pos, m.end_tag_name));
        let (k, next) = if happens(m.input, m.end_tag_name, phase, m.pos) {
            lemma_event(m, phase)
        } else {
            (lemma_stretch(m, phase), phase)
        };
        if k.pos >= p {
            (k, next)
        } else {
            let (n, last) = escape_goes_on(k, next, p);
            lemma_script_goes_on(m, k, n.pos, tokens(n));
            (n, last)
        }
    }
}

} // verus!
