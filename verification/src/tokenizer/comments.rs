//! Comments.

use crate::chars::to_visible;
use crate::model::comments;
use crate::strings::take;
use crate::tokenizer::HtmlTokenizer;
use crate::types::{token_of, State, Token};
use vstd::prelude::*;

verus! {

impl HtmlTokenizer {
    /// Emits the comment.
    fn emit_current_comment(&mut self) -> (r: Option<Token>)
        ensures
            (final(self)@, token_of(r)) == old(self)@.emit_comment(),
    {
        let comment = take(&mut self.current_comment);
        self.state = State::Data;
        Some(Token::Comment(comment))
    }

    /// Bogus comment state: `>` closes the comment.
    pub(super) fn handle_bogus_comment_state(&mut self) -> (r: Option<Token>)
        requires
            old(self)@.wf(),
        ensures
            (final(self)@, token_of(r)) == comments::bogus_comment(
                old(self)@.read(),
                old(self)@.next(),
            ),
    {
        match self.next_char() {
            Some('>') | None => self.emit_current_comment(),
            Some(c) => {
                self.current_comment.push(to_visible(c));
                None
            },
        }
    }

    /// Comment start state, after `<!--`.
    pub(super) fn handle_comment_start_state(&mut self) -> (r: Option<Token>)
        requires
            old(self)@.wf(),
        ensures
            (final(self)@, token_of(r)) == comments::comment_start(
                old(self)@.read(),
                old(self)@.next(),
            ),
    {
        match self.next_char() {
            Some('-') => {
                self.state = State::CommentStartDash;
                None
            },
            Some('>') | None => {
                self.current_comment = String::new();
                self.emit_current_comment()
            },
            Some('<') => {
                self.current_comment.push('<');
                self.state = State::CommentLessThanSign;
                None
            },
            Some(c) => {
                self.current_comment.push(to_visible(c));
                self.state = State::Comment;
                None
            },
        }
    }

    /// Comment start dash state, after `<!---`.
    pub(super) fn handle_comment_start_dash_state(&mut self) -> (r: Option<Token>)
        requires
            old(self)@.wf(),
        ensures
            (final(self)@, token_of(r)) == comments::comment_start_dash(
                old(self)@.read(),
                old(self)@.next(),
            ),
    {
        match self.next_char() {
            Some('-') => {
                self.state = State::CommentEnd;
                None
            },
            Some('>') | None => {
                self.current_comment = String::new();
                self.emit_current_comment()
            },
            Some(_) => {
                self.current_comment.push('-');
                self.reconsume = true;
                self.state = State::Comment;
                None
            },
        }
    }

    /// Comment state.
    pub(super) fn handle_comment_state(&mut self) -> (r: Option<Token>)
        requires
            old(self)@.wf(),
        ensures
            (final(self)@, token_of(r)) == comments::comment(old(self)@.read(), old(self)@.next()),
    {
        match self.next_char() {
            Some('<') => {
                self.current_comment.push('<');
                self.state = State::CommentLessThanSign;
                None
            },
            Some('-') => {
                self.state = State::CommentEndDash;
                None
            },
            Some(c) => {
                self.current_comment.push(to_visible(c));
                None
            },
            None => self.emit_current_comment(),
        }
    }

    /// Comment less-than sign state, after `<`.
    pub(super) fn handle_comment_less_than_sign_state(&mut self) -> (r: Option<Token>)
        requires
            old(self)@.wf(),
        ensures
            (final(self)@, token_of(r)) == comments::less_than_sign(
                old(self)@.read(),
                old(self)@.next(),
            ),
    {
        match self.next_char() {
            Some('!') => {
                self.current_comment.push('!');
                self.state = State::CommentLessThanSignBang;
                None
            },
            Some('<') => {
                self.current_comment.push('<');
                None
            },
            Some(_) => {
                self.reconsume = true;
                self.state = State::Comment;
                None
            },
            None => self.emit_current_comment(),
        }
    }

    /// Comment less-than sign bang state, after `<!`.
    pub(super) fn handle_comment_less_than_sign_bang_state(&mut self) -> (r: Option<Token>)
        requires
            old(self)@.wf(),
        ensures
            (final(self)@, token_of(r)) == comments::less_than_sign_bang(
                old(self)@.read(),
                old(self)@.next(),
            ),
    {
        match self.next_char() {
            Some('-') => {
                self.state = State::CommentLessThanSignBangDash;
                None
            },
            Some(_) => {
                self.reconsume = true;
                self.state = State::Comment;
                None
            },
            None => self.emit_current_comment(),
        }
    }

    /// Comment less-than sign bang dash state, after `<!-`.
    pub(super) fn handle_comment_less_than_sign_bang_dash_state(&mut self) -> (r: Option<Token>)
        requires
            old(self)@.wf(),
        ensures
            (final(self)@, token_of(r)) == comments::less_than_sign_bang_dash(
                old(self)@.read(),
                old(self)@.next(),
            ),
    {
        match self.next_char() {
            Some('-') => {
                self.state = State::CommentLessThanSignBangDashDash;
                None
            },
            Some(_) => {
                self.current_comment.push('-');
                self.reconsume = true;
                self.state = State::Comment;
                None
            },
            None => self.emit_current_comment(),
        }
    }

    /// Comment less-than sign bang dash dash state, after `<!--`.
    pub(super) fn handle_comment_less_than_sign_bang_dash_dash_state(
        &mut self,
    ) -> (r: Option<Token>)
        requires
            old(self)@.wf(),
        ensures
            (final(self)@, token_of(r)) == comments::less_than_sign_bang_dash_dash(
                old(self)@.read(),
                old(self)@.next(),
            ),
    {
        match self.next_char() {
            Some('>') | None => self.emit_current_comment(),
            Some(_) => {
                self.reconsume = true;
                self.state = State::CommentEnd;
                None
            },
        }
    }

    /// Comment end dash state, after `-`.
    pub(super) fn handle_comment_end_dash_state(&mut self) -> (r: Option<Token>)
        requires
            old(self)@.wf(),
        ensures
            (final(self)@, token_of(r)) == comments::end_dash(old(self)@.read(), old(self)@.next()),
    {
        match self.next_char() {
            Some('-') => {
                self.state = State::CommentEnd;
                None
            },
            Some(_) => {
                self.current_comment.push('-');
                self.reconsume = true;
                self.state = State::Comment;
                None
            },
            None => self.emit_current_comment(),
        }
    }

    /// Comment end state, after `--`: `>` closes the comment.
    pub(super) fn handle_comment_end_state(&mut self) -> (r: Option<Token>)
        requires
            old(self)@.wf(),
        ensures
            (final(self)@, token_of(r)) == comments::end(old(self)@.read(), old(self)@.next()),
    {
        match self.next_char() {
            Some('>') | None => self.emit_current_comment(),
            Some('!') => {
                self.state = State::CommentEndBang;
                None
            },
            Some('-') => {
                self.current_comment.push('-');
                None
            },
            Some(_) => {
                self.current_comment.push('-');
                self.current_comment.push('-');
                self.reconsume = true;
                self.state = State::Comment;
                None
            },
        }
    }

    /// Comment end bang state, after `--!`: `>` closes the comment.
    pub(super) fn handle_comment_end_bang_state(&mut self) -> (r: Option<Token>)
        requires
            old(self)@.wf(),
        ensures
            (final(self)@, token_of(r)) == comments::end_bang(old(self)@.read(), old(self)@.next()),
    {
        match self.next_char() {
            Some('>') | None => self.emit_current_comment(),
            Some('-') => {
                self.current_comment.push('-');
                self.current_comment.push('-');
                self.current_comment.push('!');
                self.state = State::CommentEndDash;
                None
            },
            Some(_) => {
                self.current_comment.push('-');
                self.current_comment.push('-');
                self.current_comment.push('!');
                self.reconsume = true;
                self.state = State::Comment;
                None
            },
        }
    }
}

} // verus!
