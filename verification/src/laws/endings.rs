//! What becomes of what is unfinished at the end of the input.

use crate::laws::stream::{loud_step, quiet_step};
use crate::laws::text::{characters, pending_text_comes_first};
use crate::model::families::{in_comment, in_doctype, in_instruction, in_tag};
use crate::model::runs::tokens;
use crate::model::{step, Machine};
use crate::types::{DoctypeView, State, TokenView};
use vstd::prelude::*;

verus! {

/// Whether the machine finds the end of the input when it reads next.
pub open spec fn at_input_end(m: Machine) -> bool {
    m.wf() && !m.done && m.pending.len() == 0 && m.next() is None
}

/// In the data state the end of the input is all there is left.
proof fn lemma_data_ends(m: Machine)
    requires
        at_input_end(m),
        m.state == State::Data,
    ensures
        tokens(m) == seq![TokenView::EOF],
{
    loud_step(m);
    assert(tokens(m) =~= seq![TokenView::EOF]);
}

/// A tag that is not finished is dropped.
pub proof fn unfinished_tag_is_dropped(m: Machine)
    requires
        at_input_end(m),
        in_tag(m.state),
    ensures
        tokens(m) == seq![TokenView::EOF],
{
    loud_step(m);
    assert(tokens(m) =~= seq![TokenView::EOF]);
}

/// A processing instruction that is not finished is dropped.
pub proof fn unfinished_instruction_is_dropped(m: Machine)
    requires
        at_input_end(m),
        in_instruction(m.state),
    ensures
        tokens(m) == seq![TokenView::EOF],
{
    let n = step(m).0;
    if m.state == State::AfterProcessingInstructionTarget {
        quiet_step(m);
        loud_step(n);
    } else {
        loud_step(m);
    }
    assert(tokens(m) =~= seq![TokenView::EOF]);
}

/// A comment that is not finished is emitted with the text that it has; one that has
/// only just begun has none.
pub proof fn unfinished_comment_is_emitted(m: Machine)
    requires
        at_input_end(m),
        in_comment(m.state),
    ensures
        tokens(m) == seq![
            TokenView::Comment(
                if m.state == State::CommentStart || m.state == State::CommentStartDash {
                    seq![]
                } else {
                    m.comment
                },
            ),
            TokenView::EOF,
        ],
{
    loud_step(m);
    lemma_data_ends(step(m).0);
    assert(tokens(m) =~= seq![step(m).1->0, TokenView::EOF]);
}

/// A DOCTYPE that is not finished is emitted as it is, and asks for quirks mode, unless
/// the rest of it was being skipped.
pub proof fn unfinished_doctype_is_quirky(m: Machine)
    requires
        at_input_end(m),
        in_doctype(m.state),
    ensures
        tokens(m) == seq![
            TokenView::Doctype(
                DoctypeView {
                    force_quirks: m.doctype.force_quirks || m.state != State::BogusDoctype,
                    ..m.doctype
                },
            ),
            TokenView::EOF,
        ],
{
    loud_step(m);
    lemma_data_ends(step(m).0);
    assert(tokens(m) =~= seq![step(m).1->0, TokenView::EOF]);
}

/// `<` and `</` are text at the end of the input.
pub proof fn unfinished_opening_is_text(m: Machine)
    requires
        at_input_end(m),
        m.state == State::TagOpen || m.state == State::EndTagOpen,
    ensures
        tokens(m) == (if m.state == State::TagOpen {
            characters(seq!['<'])
        } else {
            characters(seq!['<', '/'])
        }).push(TokenView::EOF),
{
    let n = step(m).0;
    if m.state == State::TagOpen {
        loud_step(m);
        lemma_data_ends(n);
        assert(tokens(m) =~= characters(seq!['<']).push(TokenView::EOF));
    } else {
        quiet_step(m);
        pending_text_comes_first(n);
        lemma_data_ends(Machine { pending: seq![], ..n });
        assert(n.pending =~= seq!['<', '/']);
        assert(tokens(m) =~= characters(seq!['<', '/']).push(TokenView::EOF));
    }
}

} // verus!
