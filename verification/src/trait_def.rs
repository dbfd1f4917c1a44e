//! What a tokenizer offers: [`Tokenizer`].

use crate::model::runs::{self, may_advance, coherent};
use crate::model::Machine;
use crate::types::{token_of, State, Token};
use vstd::prelude::*;

verus! {

/// An HTML tokenizer.
///
/// It reads code points and emits tokens, for another part of a parser to build a
/// document from. Between two tokens that part may switch the state, to have the
/// content of an element read as it should be: after `<title>`, say, as
/// [`State::RCDATA`].
pub trait Tokenizer {
    /// The machine that the tokenizer behaves as.
    spec fn machine(&self) -> Machine;

    /// The next token; `None` after [`Token::EOF`].
    fn next_token(&mut self) -> (r: Option<Token>)
        requires
            may_advance(old(self).machine()),
        ensures
            (final(self).machine(), token_of(r)) == runs::next_token(old(self).machine()),
            final(self).machine().wf(),
            coherent(old(self).machine()) ==> coherent(final(self).machine()),
            r is None <==> old(self).machine().done,
            final(self).machine().done <==> (r is None || r == Some(Token::EOF)),
    ;

    /// Switches to `state`.
    fn set_state(&mut self, state: State)
        ensures
            final(self).machine() == (Machine { state, ..old(self).machine() }),
    ;

    /// The current state.
    fn state(&self) -> (r: State)
        ensures
            r == self.machine().state,
    ;

    /// Begins anew with the same input.
    fn reset(&mut self)
        ensures
            final(self).machine() == Machine::initial(old(self).machine().input),
    ;

    /// Sets the name of the end tag that closes the current content. After `<title>`,
    /// say, it is `title`, and `</title>` is a tag while `</b>` is text.
    fn set_appropriate_end_tag_name(&mut self, name: Option<&str>)
        ensures
            final(self).machine() == (Machine {
                end_tag_name: match name {
                    Some(name) => Some(name@),
                    None => None,
                },
                ..old(self).machine()
            }),
    ;

    /// Sets whether the current node lies outside the HTML namespace, so that
    /// `<![CDATA[` opens a CDATA section.
    fn set_foreign_content(&mut self, in_foreign: bool)
        ensures
            final(self).machine() == (Machine { foreign: in_foreign, ..old(self).machine() }),
    ;
}

} // verus!
