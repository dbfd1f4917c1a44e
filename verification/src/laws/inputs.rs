//! Whole inputs, from their first code point to their last.

use crate::chars::{alphabetic, lower, lowercase_all};
use crate::laws::calls::{
    after_calls, content_leads_to_its_end_tag, finished, text_keeps_the_state,
    unclosed_content_keeps_its_state,
};
use crate::laws::comments::{
    bogus_comment_ends_at_greater_than, bogus_comment_ends_with_the_input,
};
use crate::laws::raw::{
    at_end_tag, closes_at, content_ends_with_its_end_tag, end_tag, end_tag_is_emitted, is_raw,
    unclosed_content_is_literal,
};
use crate::laws::references::references_go_to_one_place;
use crate::laws::script::{endless_script_is_literal, residue, unread};
use crate::laws::stream::{loud_step, quiet_step, replaying_is_unreading, rested};
use crate::laws::text::{
    characters, plain_input_is_literal, plaintext_is_literal, text_ends, visible_all,
};
use crate::model::families::{in_reference, in_tag};
use crate::model::progress::{lemma_step_advances, rank};
use crate::model::runs::tokens;
use crate::model::{is_attribute_value, step, Machine};
use crate::types::{State, TokenView};
use vstd::prelude::*;

verus! {

/// The machine that is about to tokenize `input` in `state`, where the end tag called
/// `name` closes the content.
pub open spec fn beginning(input: Seq<char>, state: State, name: Option<Seq<char>>) -> Machine {
    Machine { state, end_tag_name: name, ..Machine::initial(input) }
}

/// An input without `&` and `<` comes out as it stands, NUL included, and the state is the
/// data state throughout.
pub proof fn plain_input(input: Seq<char>, k: nat)
    requires
        forall|i: int| 0 <= i < input.len() ==> #[trigger] input[i] != '&' && input[i] != '<',
    ensures
        tokens(Machine::initial(input)) == characters(input).push(TokenView::EOF),
        after_calls(Machine::initial(input), k).state == State::Data,
{
    plain_input_is_literal(input);
    text_keeps_the_state(Machine::initial(input), k);
}

/// As PLAINTEXT an input comes out as it stands, NUL as U+FFFD, whatever the end tag is
/// called, and the state is the PLAINTEXT state throughout.
pub proof fn plaintext_input(input: Seq<char>, name: Option<Seq<char>>, k: nat)
    ensures
        tokens(beginning(input, State::PLAINTEXT, name)) == characters(visible_all(input)).push(
            TokenView::EOF,
        ),
        after_calls(beginning(input, State::PLAINTEXT, name), k).state == State::PLAINTEXT,
{
    let m = beginning(input, State::PLAINTEXT, name);
    plaintext_is_literal(m);
    assert(input.skip(0) =~= input);
    text_keeps_the_state(m, k);
}

/// As RAWTEXT or as a script an input comes out as it stands, NUL as U+FFFD, where no end
/// tag closes it: whatever tags, references and escapes it holds, nothing is lost, repeated
/// or resolved.
pub proof fn unnamed_content_input(input: Seq<char>, state: State)
    requires
        state == State::RAWTEXT || state == State::ScriptData,
    ensures
        tokens(beginning(input, state, None)) == characters(visible_all(input)).push(
            TokenView::EOF,
        ),
{
    let m = beginning(input, state, None);
    endless_script_is_literal(m);
    assert(unread(m) =~= input);
    assert(residue(m) =~= visible_all(input));
}

/// An end tag in writing, without attributes.
pub open spec fn end_tag_text(word: Seq<char>) -> Seq<char> {
    seq!['<', '/'] + word + seq!['>']
}

/// Nothing but an end tag at the beginning can close what an end tag in writing is.
proof fn lemma_only_end_tag(name: Seq<char>, word: Seq<char>, j: int)
    requires
        name.len() > 0,
        word.len() > 0,
        forall|i: int| 0 <= i < word.len() ==> alphabetic(#[trigger] word[i]),
        closes_at(end_tag_text(word), j, Some(name)),
    ensures
        j == 0,
        lowercase_all(word) == name,
{
    let input = end_tag_text(word);
    assert forall|i: int| 0 <= i < word.len() implies input[2 + i] == #[trigger] word[i] by {}
    assert(input[word.len() + 2int] == '>');
    if j != 0 {
        assert(input[j] == '<');
        if j >= 2 && j < word.len() + 2 {
            assert(input[2 + (j - 2)] == word[j - 2]);
        }
    }
    let end = 2 + name.len() as int;
    if name.len() < word.len() {
        assert(input[2 + name.len() as int] == word[name.len() as int]);
    }
    assert(end == word.len() + 2);
    assert(input.subrange(2, end) =~= word);
}

/// An end tag by itself, as content that the end tag called `name` closes, is that end tag
/// where its name is `name` in any case, and the state is then the data state. Otherwise it
/// is text, in the case in which it is written, and the state stays what it was: neither a
/// beginning of the name nor what only begins with it will do.
pub proof fn end_tag_input(state: State, name: Seq<char>, word: Seq<char>)
    requires
        state == State::RCDATA || state == State::RAWTEXT || state == State::ScriptData,
        name.len() > 0,
        forall|i: int| 0 <= i < name.len() ==> lower(#[trigger] name[i]),
        word.len() > 0,
        forall|i: int| 0 <= i < word.len() ==> alphabetic(#[trigger] word[i]),
    ensures
        ({
            let m = beginning(end_tag_text(word), state, Some(name));
            if lowercase_all(word) == name {
                &&& tokens(m) == seq![TokenView::Tag(end_tag(name)), TokenView::EOF]
                &&& finished(m).state == State::Data
            } else {
                &&& tokens(m) == characters(end_tag_text(word)).push(TokenView::EOF)
                &&& finished(m).state == state
            }
        }),
{
    let input = end_tag_text(word);
    let m = beginning(input, state, Some(name));
    let end = word.len() + 2;
    assert forall|i: int| 0 <= i < word.len() implies input[2 + i] == #[trigger] word[i] by {}
    assert forall|i: int| 0 <= i < input.len() implies #[trigger] input[i] != '&' && input[i] != '!'
        && input[i] != '\0' by {
        if 2 <= i < end {
            assert(input[2 + (i - 2)] == word[i - 2]);
        }
    }
    assert(is_raw(state, input, 0, input.len() as int)) by {
        assert forall|i: int| 0 <= i && i + 1 < input.len() && #[trigger] input[i] == '<' implies
            input[i + 1] != '!' by {}
    }
    if lowercase_all(word) == name {
        assert(lowercase_all(word).len() == word.len());
        assert(closes_at(input, 0, Some(name))) by {
            assert(input.subrange(2, end as int) =~= word);
            assert forall|i: int| 2 <= i < end implies alphabetic(#[trigger] input[i]) by {
                assert(input[2 + (i - 2)] == word[i - 2]);
            }
        }
        content_ends_with_its_end_tag(m, 0);
        end_tag_is_emitted(m, 0);
        let n = at_end_tag(m, 0);
        let last = Machine {
            pos: input.len() as int,
            state: State::Data,
            tag: None,
            buffer: seq![],
            pending: seq![],
            ..m
        };
        text_ends(last);
        assert(m.pending + visible_all(input.subrange(0, 0)) =~= seq![]);
        assert(characters(seq![]) =~= seq![]);
        assert(tokens(m) =~= seq![TokenView::Tag(end_tag(name)), TokenView::EOF]);
        content_leads_to_its_end_tag(m, 0);
        lemma_step_advances(n);
        assert(step(n).0 =~= last);
        lemma_step_advances(last);
        assert(finished(n) == finished(last));
        assert(finished(last) == finished(step(last).0));
    } else {
        assert forall|j: int| 0 <= j implies !#[trigger] closes_at(input, j, Some(name)) by {
            if closes_at(input, j, Some(name)) {
                lemma_only_end_tag(name, word, j);
            }
        }
        unclosed_content_is_literal(m);
        unclosed_content_keeps_its_state(m);
        assert(m.pending + visible_all(input.skip(0)) =~= input);
    }
}

/// Whether the machine reads a tag, or a reference in an attribute value of one, and no
/// `>` is left to close it.
pub open spec fn cut_off(m: Machine) -> bool {
    &&& m.wf()
    &&& !m.done
    &&& m.pending.len() == 0
    &&& in_tag(m.state) || (in_reference(m.state) && m.state != State::AmbiguousAmpersand && (
    m.return_state matches Some(s) && is_attribute_value(s)))
    &&& forall|i: int| rested(m).pos <= i < m.input.len() ==> #[trigger] m.input[i] != '>'
}

proof fn lemma_cut_off_tag(m: Machine)
    requires
        cut_off(m),
        in_tag(m.state),
    ensures
        m.next() is None ==> step(m).0.done,
        m.next() is Some ==> step(m).1 is None && cut_off(step(m).0),
{
    lemma_step_advances(m);
    if m.next() is Some {
        assert(m.input[rested(m).pos] != '>');
    }
}

proof fn lemma_cut_off_reference(m: Machine)
    requires
        cut_off(m),
        in_reference(m.state),
    ensures
        step(m).1 is None,
        cut_off(step(m).0),
{
    references_go_to_one_place(m);
    lemma_step_advances(m);
}

/// A tag that no `>` closes gives rise to nothing.
pub proof fn cut_off_tag_is_dropped(m: Machine)
    requires
        cut_off(m),
    ensures
        tokens(m) == seq![TokenView::EOF],
    decreases m.left(), rank(m.state),
{
    lemma_step_advances(m);
    if in_tag(m.state) {
        lemma_cut_off_tag(m);
    } else {
        lemma_cut_off_reference(m);
    }
    if step(m).0.done {
        loud_step(m);
        assert(tokens(m) =~= seq![TokenView::EOF]);
    } else {
        quiet_step(m);
        cut_off_tag_is_dropped(step(m).0);
    }
}

/// An input that opens a start tag and holds no `>` gives rise to nothing but the end of
/// the file, wherever in the tag it breaks off.
pub proof fn cut_off_tag_input(input: Seq<char>)
    requires
        input.len() >= 2,
        input[0] == '<',
        alphabetic(input[1]),
        forall|i: int| 0 <= i < input.len() ==> #[trigger] input[i] != '>',
    ensures
        tokens(Machine::initial(input)) == seq![TokenView::EOF],
{
    let m = Machine::initial(input);
    let m1 = step(m).0;
    quiet_step(m);
    let m2 = step(m1).0;
    quiet_step(m1);
    cut_off_tag_is_dropped(m2);
}

/// An input of `</` and what begins no name is a comment to the first `>`, or, where there
/// is none, to the end of the input.
pub proof fn misplaced_comment_input(text: Seq<char>)
    requires
        text.len() > 0,
        !alphabetic(text[0]),
        forall|i: int| 0 <= i < text.len() ==> #[trigger] text[i] != '>',
    ensures
        tokens(Machine::initial(seq!['<', '/'] + text)) == seq![
            TokenView::Comment(visible_all(text)),
            TokenView::EOF,
        ],
        tokens(Machine::initial(seq!['<', '/'] + text + seq!['>'])) == seq![
            TokenView::Comment(visible_all(text)),
            TokenView::EOF,
        ],
{
    let open = seq!['<', '/'] + text;
    let closed = open + seq!['>'];
    let m = lemma_misplaced(open, text[0]);
    assert forall|j: int| m.pos <= j < open.len() implies #[trigger] open[j] != '>' by {
        assert(open[j] == text[j - 2]);
    }
    bogus_comment_ends_with_the_input(m);
    assert(open.skip(2) =~= text);
    assert(m.comment + visible_all(text) =~= visible_all(text));
    let n = lemma_misplaced(closed, text[0]);
    let i = open.len() as int;
    assert forall|j: int| n.pos <= j < i implies #[trigger] closed[j] != '>' by {
        assert(closed[j] == text[j - 2]);
    }
    bogus_comment_ends_at_greater_than(n, i);
    assert(closed.subrange(2, i) =~= text);
    text_ends(Machine { pos: i + 1, state: State::Data, comment: seq![], ..n });
    assert(tokens(Machine::initial(closed)) =~= seq![
        TokenView::Comment(visible_all(text)),
        TokenView::EOF,
    ]);
}

/// The machine behind `</` that is about to read a comment.
proof fn lemma_misplaced(input: Seq<char>, c: char) -> (n: Machine)
    requires
        input.len() > 2,
        input[0] == '<',
        input[1] == '/',
        input[2] == c,
        !alphabetic(c),
        c != '>',
    ensures
        n == (Machine { pos: 2, state: State::BogusComment, ..Machine::initial(input) }),
        tokens(Machine::initial(input)) == tokens(n),
{
    let m = Machine::initial(input);
    let m1 = step(m).0;
    quiet_step(m);
    let m2 = step(m1).0;
    quiet_step(m1);
    let m3 = step(m2).0;
    quiet_step(m2);
    replaying_is_unreading(m3);
    rested(m3)
}

} // verus!
