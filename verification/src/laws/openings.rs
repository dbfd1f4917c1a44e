//! What `<` opens in data, and what it does not.

use crate::chars::{alphabetic, visible};
use crate::laws::comments::{bogus_comment_ends_at_greater_than, sections_need_foreign_content};
use crate::laws::stream::{loud_step, quiet_step, replaying_is_unreading, rested};
use crate::laws::tags::at_rest;
use crate::laws::text::{character, characters, text_ends, visible_all};
use crate::model::runs::tokens;
use crate::model::{step, Machine};
use crate::types::{State, TokenView};
use vstd::prelude::*;

verus! {

/// Whether `<` at `i` opens something: a letter, `!`, `/` or `?` follows it.
pub open spec fn opens_markup(input: Seq<char>, i: int) -> bool {
    i + 1 < input.len() && {
        let c = input[i + 1];
        alphabetic(c) || c == '!' || c == '/' || c == '?'
    }
}

/// In data `<` is text where it opens nothing, and what follows it is read as data.
pub proof fn less_than_is_text(m: Machine)
    requires
        at_rest(m),
        m.state == State::Data,
        m.pos < m.input.len(),
        m.input[m.pos] == '<',
        !opens_markup(m.input, m.pos),
    ensures
        tokens(m) == seq![TokenView::Character('<')] + tokens(Machine { pos: m.pos + 1, ..m }),
{
    let m1 = step(m).0;
    quiet_step(m);
    let k = step(m1).0;
    loud_step(m1);
    replaying_is_unreading(k);
    assert(rested(k) == Machine { pos: m.pos + 1, ..m });
}

/// Data without `&` in which no `<` opens anything come out as they stand.
pub proof fn data_without_markup_is_literal(m: Machine)
    requires
        at_rest(m),
        m.state == State::Data,
        forall|i: int|
            m.pos <= i < m.input.len() ==> #[trigger] m.input[i] != '&' && (m.input[i] == '<'
                ==> !opens_markup(m.input, i)),
    ensures
        tokens(m) == characters(m.input.skip(m.pos)).push(TokenView::EOF),
    decreases m.input.len() - m.pos,
{
    let all = m.input.skip(m.pos);
    if m.pos == m.input.len() {
        text_ends(m);
        assert(tokens(m) =~= characters(all).push(TokenView::EOF));
    } else {
        let c = m.input[m.pos];
        let n = Machine { pos: m.pos + 1, ..m };
        if c == '<' {
            less_than_is_text(m);
        } else {
            loud_step(m);
            assert(step(m).0 == n);
        }
        data_without_markup_is_literal(n);
        assert(characters(all) =~= seq![character(c)] + characters(m.input.skip(n.pos)));
        assert(tokens(m) =~= characters(all).push(TokenView::EOF));
    }
}

/// An input without `&` in which no `<` opens anything comes out as it stands.
pub proof fn input_without_markup_is_literal(input: Seq<char>)
    requires
        forall|i: int|
            0 <= i < input.len() ==> #[trigger] input[i] != '&' && (input[i] == '<'
                ==> !opens_markup(input, i)),
    ensures
        tokens(Machine::initial(input)) == characters(input).push(TokenView::EOF),
{
    data_without_markup_is_literal(Machine::initial(input));
    assert(input.skip(0) =~= input);
}

/// `</>` gives rise to nothing.
pub proof fn empty_end_tag_is_nothing(m: Machine)
    requires
        at_rest(m),
        m.state == State::Data,
        m.pos + 2 < m.input.len(),
        m.input[m.pos] == '<',
        m.input[m.pos + 1] == '/',
        m.input[m.pos + 2] == '>',
    ensures
        tokens(m) == tokens(Machine { pos: m.pos + 3, ..m }),
{
    let m1 = step(m).0;
    quiet_step(m);
    let m2 = step(m1).0;
    quiet_step(m1);
    quiet_step(m2);
    assert(step(m2).0 == Machine { pos: m.pos + 3, ..m });
}

/// The machine behind a comment that ends at `i`, with `>` or with the input.
pub open spec fn behind_bogus(m: Machine, i: int) -> Machine {
    Machine {
        pos: if i < m.input.len() {
            i + 1
        } else {
            i
        },
        state: State::Data,
        comment: seq![],
        reconsume: false,
        at_end: i == m.input.len(),
        ..m
    }
}

/// Whether `i` is where the first `>` from `from` on stands, or the end of the input where
/// there is none.
pub open spec fn is_first_close(input: Seq<char>, from: int, i: int) -> bool {
    &&& from <= i <= input.len()
    &&& forall|j: int| from <= j < i ==> #[trigger] input[j] != '>'
    &&& i < input.len() ==> input[i] == '>'
}

/// `</` before what is neither a letter nor `>` opens a comment to the first `>`, which holds
/// everything behind `</`.
pub proof fn misplaced_end_tag_is_a_comment(m: Machine, i: int)
    requires
        at_rest(m),
        m.state == State::Data,
        m.pos + 2 < m.input.len(),
        m.input[m.pos] == '<',
        m.input[m.pos + 1] == '/',
        !alphabetic(m.input[m.pos + 2]),
        m.input[m.pos + 2] != '>',
        is_first_close(m.input, m.pos + 2, i),
    ensures
        tokens(m) == seq![
            TokenView::Comment(visible_all(m.input.subrange(m.pos + 2, i))),
        ] + tokens(behind_bogus(m, i)),
{
    let m1 = step(m).0;
    quiet_step(m);
    let m2 = step(m1).0;
    quiet_step(m1);
    let k = step(m2).0;
    quiet_step(m2);
    replaying_is_unreading(k);
    let n = rested(k);
    bogus_comment_ends_at_greater_than(n, i);
    let text = visible_all(m.input.subrange(m.pos + 2, i));
    assert(n.comment + text =~= text);
}

/// `<!` before what is neither `--` nor `DOCTYPE`, in any case, nor `[CDATA[` opens a comment
/// to the first `>`, which holds everything behind `<!`.
pub proof fn misplaced_declaration_is_a_comment(m: Machine, i: int)
    requires
        at_rest(m),
        m.state == State::Data,
        m.comment.len() == 0,
        m.pos + 1 < m.input.len(),
        m.input[m.pos] == '<',
        m.input[m.pos + 1] == '!',
        !m.holds_at(m.pos + 2, seq!['-', '-']),
        !m.spells_at(m.pos + 2, "DOCTYPE"@),
        !m.holds_at(m.pos + 2, "[CDATA["@),
        is_first_close(m.input, m.pos + 2, i),
    ensures
        tokens(m) == seq![
            TokenView::Comment(visible_all(m.input.subrange(m.pos + 2, i))),
        ] + tokens(behind_bogus(m, i)),
{
    let m1 = step(m).0;
    quiet_step(m);
    let m2 = step(m1).0;
    quiet_step(m1);
    assert("--"@ =~= seq!['-', '-']) by {
        reveal_strlit("--");
    }
    let n = step(m2).0;
    quiet_step(m2);
    assert(n.state == State::BogusComment && n.pos == m.pos + 2);
    bogus_comment_ends_at_greater_than(n, i);
    let text = visible_all(m.input.subrange(m.pos + 2, i));
    assert(n.comment + text =~= text);
}

/// `<![CDATA[` outside foreign content opens a comment to the first `>`, which holds
/// everything behind `<!`.
pub proof fn misplaced_section_is_a_comment(m: Machine, i: int)
    requires
        at_rest(m),
        m.state == State::Data,
        !m.foreign,
        m.pos + 1 < m.input.len(),
        m.input[m.pos] == '<',
        m.input[m.pos + 1] == '!',
        m.holds_at(m.pos + 2, "[CDATA["@),
        is_first_close(m.input, m.pos + 9, i),
    ensures
        tokens(m) == seq![
            TokenView::Comment(visible_all(m.input.subrange(m.pos + 2, i))),
        ] + tokens(behind_bogus(m, i)),
{
    let m1 = step(m).0;
    quiet_step(m);
    let m2 = step(m1).0;
    quiet_step(m1);
    sections_need_foreign_content(m2);
    reveal_strlit("[CDATA[");
    let word = m.input.subrange(m.pos + 2, m.pos + 9);
    let n = Machine {
        pos: m.pos + 9,
        state: State::BogusComment,
        comment: "[CDATA["@,
        ..m2
    };
    bogus_comment_ends_at_greater_than(n, i);
    assert(visible_all(word) =~= word);
    assert(n.comment + visible_all(m.input.subrange(m.pos + 9, i)) =~= visible_all(
        m.input.subrange(m.pos + 2, i),
    )) by {
        assert forall|j: int| 0 <= j < 7 implies visible(m.input[m.pos + 2 + j])
            == #[trigger] "[CDATA["@[j] by {
            assert(word[j] == m.input[m.pos + 2 + j]);
        }
    }
}

/// `<![CDATA[` in foreign content opens a section.
pub proof fn section_is_opened(m: Machine)
    requires
        at_rest(m),
        m.state == State::Data,
        m.foreign,
        m.pos + 1 < m.input.len(),
        m.input[m.pos] == '<',
        m.input[m.pos + 1] == '!',
        m.holds_at(m.pos + 2, "[CDATA["@),
    ensures
        tokens(m) == tokens(Machine { pos: m.pos + 9, state: State::CDATASection, ..m }),
{
    let m1 = step(m).0;
    quiet_step(m);
    let m2 = step(m1).0;
    quiet_step(m1);
    sections_need_foreign_content(m2);
}

} // verus!
