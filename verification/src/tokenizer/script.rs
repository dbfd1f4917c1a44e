//! Script data and its escapes.

use crate::chars::{is_alphabetic, is_space, same_text, to_lowercase};
use crate::model::{content, script};
use crate::tokenizer::HtmlTokenizer;
use crate::types::{token_of, State, Token};
use vstd::prelude::*;

verus! {

impl HtmlTokenizer {
    /// Script data less-than sign state.
    pub(super) fn handle_script_data_less_than_sign_state(&mut self) -> (r: Option<Token>)
        requires
            old(self)@.wf(),
        ensures
            (final(self)@, token_of(r)) == script::less_than_sign(
                old(self)@.read(),
                old(self)@.next(),
            ),
    {
        match self.next_char() {
            Some('!') => {
                self.state = State::ScriptDataEscapeStart;
                self.queue('!');
                Some(Token::Character('<'))
            },
            c => self.less_than_sign(c, State::ScriptDataEndTagOpen, State::ScriptData),
        }
    }

    /// Script data end tag open state.
    pub(super) fn handle_script_data_end_tag_open_state(&mut self) -> (r: Option<Token>)
        requires
            old(self)@.wf(),
        ensures
            (final(self)@, token_of(r)) == content::end_tag_open(
                old(self)@.read(),
                old(self)@.next(),
                State::ScriptDataEndTagName,
                State::ScriptData,
            ),
    {
        self.end_tag_open(State::ScriptDataEndTagName, State::ScriptData)
    }

    /// Script data end tag name state.
    pub(super) fn handle_script_data_end_tag_name_state(&mut self) -> (r: Option<Token>)
        requires
            old(self)@.wf(),
        ensures
            (final(self)@, token_of(r)) == content::end_tag_name(
                old(self)@.read(),
                old(self)@.next(),
                State::ScriptData,
            ),
    {
        self.end_tag_name(State::ScriptData)
    }

    /// Script data escape start state.
    pub(super) fn handle_script_data_escape_start_state(&mut self) -> (r: Option<Token>)
        requires
            old(self)@.wf(),
        ensures
            (final(self)@, token_of(r)) == script::escape_start(
                old(self)@.read(),
                old(self)@.next(),
                State::ScriptDataEscapeStartDash,
            ),
    {
        match self.next_char() {
            Some('-') => {
                self.state = State::ScriptDataEscapeStartDash;
                Some(Token::Character('-'))
            },
            _ => {
                self.state = State::ScriptData;
                self.reconsume = true;
                None
            },
        }
    }

    /// Script data escape start dash state.
    pub(super) fn handle_script_data_escape_start_dash_state(&mut self) -> (r: Option<Token>)
        requires
            old(self)@.wf(),
        ensures
            (final(self)@, token_of(r)) == script::escape_start(
                old(self)@.read(),
                old(self)@.next(),
                State::ScriptDataEscapedDashDash,
            ),
    {
        match self.next_char() {
            Some('-') => {
                self.state = State::ScriptDataEscapedDashDash;
                Some(Token::Character('-'))
            },
            _ => {
                self.state = State::ScriptData;
                self.reconsume = true;
                None
            },
        }
    }

    /// Script data escaped state.
    pub(super) fn handle_script_data_escaped_state(&mut self) -> (r: Option<Token>)
        requires
            old(self)@.wf(),
        ensures
            (final(self)@, token_of(r)) == script::escaped(
                old(self)@.read(),
                old(self)@.next(),
                false,
            ),
    {
        match self.next_char() {
            Some('-') => {
                self.state = State::ScriptDataEscapedDash;
                Some(Token::Character('-'))
            },
            Some('<') => {
                self.state = State::ScriptDataEscapedLessThanSign;
                None
            },
            c => self.emit_text(c),
        }
    }

    /// Script data escaped dash state.
    pub(super) fn handle_script_data_escaped_dash_state(&mut self) -> (r: Option<Token>)
        requires
            old(self)@.wf(),
        ensures
            (final(self)@, token_of(r)) == script::escaped_dash(
                old(self)@.read(),
                old(self)@.next(),
                false,
            ),
    {
        match self.next_char() {
            Some('-') => {
                self.state = State::ScriptDataEscapedDashDash;
                Some(Token::Character('-'))
            },
            Some('<') => {
                self.state = State::ScriptDataEscapedLessThanSign;
                None
            },
            None => {
                self.eof_emitted = true;
                Some(Token::EOF)
            },
            c => {
                self.state = State::ScriptDataEscaped;
                self.emit_text(c)
            },
        }
    }

    /// Script data escaped dash dash state: `>` ends the escape.
    pub(super) fn handle_script_data_escaped_dash_dash_state(&mut self) -> (r: Option<Token>)
        requires
            old(self)@.wf(),
        ensures
            (final(self)@, token_of(r)) == script::escaped_dash_dash(
                old(self)@.read(),
                old(self)@.next(),
                false,
            ),
    {
        match self.next_char() {
            Some('-') => Some(Token::Character('-')),
            Some('<') => {
                self.state = State::ScriptDataEscapedLessThanSign;
                None
            },
            Some('>') => {
                self.state = State::ScriptData;
                Some(Token::Character('>'))
            },
            None => {
                self.eof_emitted = true;
                Some(Token::EOF)
            },
            c => {
                self.state = State::ScriptDataEscaped;
                self.emit_text(c)
            },
        }
    }

    /// Script data escaped less-than sign state. The `<` has not been emitted yet.
    pub(super) fn handle_script_data_escaped_less_than_sign_state(&mut self) -> (r: Option<Token>)
        requires
            old(self)@.wf(),
        ensures
            (final(self)@, token_of(r)) == script::escaped_less_than_sign(
                old(self)@.read(),
                old(self)@.next(),
            ),
    {
        match self.next_char() {
            Some('/') => {
                self.temporary_buffer.clear();
                self.state = State::ScriptDataEscapedEndTagOpen;
                None
            },
            Some(c) if is_alphabetic(c) => {
                self.temporary_buffer.clear();
                self.state = State::ScriptDataDoubleEscapeStart;
                self.reconsume = true;
                Some(Token::Character('<'))
            },
            _ => {
                self.state = State::ScriptDataEscaped;
                self.reconsume = true;
                Some(Token::Character('<'))
            },
        }
    }

    /// Script data escaped end tag open state.
    pub(super) fn handle_script_data_escaped_end_tag_open_state(&mut self) -> (r: Option<Token>)
        requires
            old(self)@.wf(),
        ensures
            (final(self)@, token_of(r)) == content::end_tag_open(
                old(self)@.read(),
                old(self)@.next(),
                State::ScriptDataEscapedEndTagName,
                State::ScriptDataEscaped,
            ),
    {
        self.end_tag_open(State::ScriptDataEscapedEndTagName, State::ScriptDataEscaped)
    }

    /// Script data escaped end tag name state.
    pub(super) fn handle_script_data_escaped_end_tag_name_state(&mut self) -> (r: Option<Token>)
        requires
            old(self)@.wf(),
        ensures
            (final(self)@, token_of(r)) == content::end_tag_name(
                old(self)@.read(),
                old(self)@.next(),
                State::ScriptDataEscaped,
            ),
    {
        self.end_tag_name(State::ScriptDataEscaped)
    }

    /// Script data double escaped state.
    pub(super) fn handle_script_data_double_escaped_state(&mut self) -> (r: Option<Token>)
        requires
            old(self)@.wf(),
        ensures
            (final(self)@, token_of(r)) == script::escaped(
                old(self)@.read(),
                old(self)@.next(),
                true,
            ),
    {
        match self.next_char() {
            Some('-') => {
                self.state = State::ScriptDataDoubleEscapedDash;
                Some(Token::Character('-'))
            },
            Some('<') => {
                self.state = State::ScriptDataDoubleEscapedLessThanSign;
                Some(Token::Character('<'))
            },
            c => self.emit_text(c),
        }
    }

    /// Script data double escaped dash state.
    pub(super) fn handle_script_data_double_escaped_dash_state(&mut self) -> (r: Option<Token>)
        requires
            old(self)@.wf(),
        ensures
            (final(self)@, token_of(r)) == script::escaped_dash(
                old(self)@.read(),
                old(self)@.next(),
                true,
            ),
    {
        match self.next_char() {
            Some('-') => {
                self.state = State::ScriptDataDoubleEscapedDashDash;
                Some(Token::Character('-'))
            },
            Some('<') => {
                self.state = State::ScriptDataDoubleEscapedLessThanSign;
                Some(Token::Character('<'))
            },
            None => {
                self.eof_emitted = true;
                Some(Token::EOF)
            },
            c => {
                self.state = State::ScriptDataDoubleEscaped;
                self.emit_text(c)
            },
        }
    }

    /// Script data double escaped dash dash state: `>` ends the escape.
    pub(super) fn handle_script_data_double_escaped_dash_dash_state(&mut self) -> (r: Option<Token>)
        requires
            old(self)@.wf(),
        ensures
            (final(self)@, token_of(r)) == script::escaped_dash_dash(
                old(self)@.read(),
                old(self)@.next(),
                true,
            ),
    {
        match self.next_char() {
            Some('-') => Some(Token::Character('-')),
            Some('<') => {
                self.state = State::ScriptDataDoubleEscapedLessThanSign;
                Some(Token::Character('<'))
            },
            Some('>') => {
                self.state = State::ScriptData;
                Some(Token::Character('>'))
            },
            None => {
                self.eof_emitted = true;
                Some(Token::EOF)
            },
            c => {
                self.state = State::ScriptDataDoubleEscaped;
                self.emit_text(c)
            },
        }
    }

    /// Script data double escaped less-than sign state. The `<` has been emitted.
    pub(super) fn handle_script_data_double_escaped_less_than_sign_state(
        &mut self,
    ) -> (r: Option<Token>)
        requires
            old(self)@.wf(),
        ensures
            (final(self)@, token_of(r)) == script::double_escaped_less_than_sign(
                old(self)@.read(),
                old(self)@.next(),
            ),
    {
        match self.next_char() {
            Some('/') => {
                self.temporary_buffer.clear();
                self.state = State::ScriptDataDoubleEscapeEnd;
                self.queue('/');
                None
            },
            _ => {
                self.state = State::ScriptDataDoubleEscaped;
                self.reconsume = true;
                None
            },
        }
    }

    /// In the name after `<` or `</` in an escape. The name `script` leads to
    /// `matched`, any other to `other`.
    fn double_escape(&mut self, matched: State, other: State) -> (r: Option<Token>)
        requires
            old(self)@.wf(),
        ensures
            (final(self)@, token_of(r)) == script::double_escape(
                old(self)@.read(),
                old(self)@.next(),
                matched,
                other,
            ),
    {
        match self.next_char() {
            Some(c) if is_space(c) || c == '/' || c == '>' => {
                if same_text(self.temporary_buffer.as_slice(), "script") {
                    self.state = matched;
                } else {
                    self.state = other;
                }
                Some(Token::Character(c))
            },
            Some(c) if is_alphabetic(c) => {
                self.temporary_buffer.push(to_lowercase(c));
                Some(Token::Character(c))
            },
            _ => {
                self.state = other;
                self.reconsume = true;
                None
            },
        }
    }

    /// Script data double escape start state: the name `script` opens a double
    /// escape.
    pub(super) fn handle_script_data_double_escape_start_state(&mut self) -> (r: Option<Token>)
        requires
            old(self)@.wf(),
        ensures
            (final(self)@, token_of(r)) == script::double_escape(
                old(self)@.read(),
                old(self)@.next(),
                State::ScriptDataDoubleEscaped,
                State::ScriptDataEscaped,
            ),
    {
        self.double_escape(State::ScriptDataDoubleEscaped, State::ScriptDataEscaped)
    }

    /// Script data double escape end state: the name `script` ends the double
    /// escape.
    pub(super) fn handle_script_data_double_escape_end_state(&mut self) -> (r: Option<Token>)
        requires
            old(self)@.wf(),
        ensures
            (final(self)@, token_of(r)) == script::double_escape(
                old(self)@.read(),
                old(self)@.next(),
                State::ScriptDataEscaped,
                State::ScriptDataDoubleEscaped,
            ),
    {
        self.double_escape(State::ScriptDataEscaped, State::ScriptDataDoubleEscaped)
    }
}

} // verus!
