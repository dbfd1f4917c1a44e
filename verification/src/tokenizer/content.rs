//! Text content: data, RCDATA, RAWTEXT, PLAINTEXT and CDATA sections, with the end
//! tags that close them.

use crate::chars::{is_alphabetic, is_space, to_lowercase, REPLACEMENT};
use crate::model::content;
use crate::tokenizer::HtmlTokenizer;
use crate::types::{token_of, State, TagKind, Token};
use vstd::prelude::*;

verus! {

impl HtmlTokenizer {
    /// Data state: `&` opens a character reference, `<` a tag, a comment or a
    /// declaration; everything else is text, NUL included.
    pub(super) fn handle_data_state(&mut self) -> (r: Option<Token>)
        requires
            old(self)@.wf(),
        ensures
            (final(self)@, token_of(r)) == content::data(old(self)@.read(), old(self)@.next()),
    {
        match self.next_char() {
            Some('&') => {
                self.return_state = Some(State::Data);
                self.state = State::CharacterReference;
                None
            },
            Some('<') => {
                self.state = State::TagOpen;
                None
            },
            Some(c) => Some(Token::Character(c)),
            None => {
                self.eof_emitted = true;
                Some(Token::EOF)
            },
        }
    }

    /// RCDATA state: text with character references.
    pub(super) fn handle_rcdata_state(&mut self) -> (r: Option<Token>)
        requires
            old(self)@.wf(),
        ensures
            (final(self)@, token_of(r)) == content::rcdata(old(self)@.read(), old(self)@.next()),
    {
        match self.next_char() {
            Some('&') => {
                self.return_state = Some(State::RCDATA);
                self.state = State::CharacterReference;
                None
            },
            Some('<') => {
                self.state = State::RCDATALessThanSign;
                None
            },
            c => self.emit_text(c),
        }
    }

    /// RAWTEXT state: text without character references.
    pub(super) fn handle_rawtext_state(&mut self) -> (r: Option<Token>)
        requires
            old(self)@.wf(),
        ensures
            (final(self)@, token_of(r)) == content::rawtext(old(self)@.read(), old(self)@.next()),
    {
        match self.next_char() {
            Some('<') => {
                self.state = State::RAWTEXTLessThanSign;
                None
            },
            c => self.emit_text(c),
        }
    }

    /// Script data state.
    pub(super) fn handle_script_data_state(&mut self) -> (r: Option<Token>)
        requires
            old(self)@.wf(),
        ensures
            (final(self)@, token_of(r)) == content::script_data(
                old(self)@.read(),
                old(self)@.next(),
            ),
    {
        match self.next_char() {
            Some('<') => {
                self.state = State::ScriptDataLessThanSign;
                None
            },
            c => self.emit_text(c),
        }
    }

    /// PLAINTEXT state: everything is text, to the end of the input.
    pub(super) fn handle_plaintext_state(&mut self) -> (r: Option<Token>)
        requires
            old(self)@.wf(),
        ensures
            (final(self)@, token_of(r)) == content::plaintext(old(self)@.read(), old(self)@.next()),
    {
        let c = self.next_char();
        self.emit_text(c)
    }

    /// Emits what was read as text: NUL shows as U+FFFD, the end of the input ends
    /// the tokens.
    pub(super) fn emit_text(&mut self, c: Option<char>) -> (r: Option<Token>)
        ensures
            (final(self)@, token_of(r)) == old(self)@.text(c),
    {
        match c {
            Some('\0') => Some(Token::Character(REPLACEMENT)),
            Some(c) => Some(Token::Character(c)),
            None => {
                self.eof_emitted = true;
                Some(Token::EOF)
            },
        }
    }

    /// After `<` in text that is read in `home`.
    pub(super) fn less_than_sign(
        &mut self,
        c: Option<char>,
        open: State,
        home: State,
    ) -> (r: Option<Token>)
        ensures
            (final(self)@, token_of(r)) == content::less_than_sign(old(self)@, c, open, home),
    {
        match c {
            Some('/') => {
                self.temporary_buffer.clear();
                self.state = open;
                None
            },
            Some(_) => {
                self.state = home;
                self.reconsume = true;
                Some(Token::Character('<'))
            },
            None => {
                self.state = home;
                Some(Token::Character('<'))
            },
        }
    }

    /// After `</` in text that is read in `home`.
    pub(super) fn end_tag_open(&mut self, name: State, home: State) -> (r: Option<Token>)
        requires
            old(self)@.wf(),
        ensures
            (final(self)@, token_of(r)) == content::end_tag_open(
                old(self)@.read(),
                old(self)@.next(),
                name,
                home,
            ),
    {
        match self.next_char() {
            Some(c) if is_alphabetic(c) => {
                self.start_tag(TagKind::End, to_lowercase(c));
                self.temporary_buffer.push(c);
                self.state = name;
                None
            },
            _ => {
                self.queue('/');
                self.queue('<');
                self.state = home;
                self.reconsume = true;
                assert(self@.pending =~= seq!['<', '/'] + old(self)@.pending);
                None
            },
        }
    }

    /// In the name of an end tag, in text that is read in `home`.
    pub(super) fn end_tag_name(&mut self, home: State) -> (r: Option<Token>)
        requires
            old(self)@.wf(),
        ensures
            (final(self)@, token_of(r)) == content::end_tag_name(
                old(self)@.read(),
                old(self)@.next(),
                home,
            ),
    {
        match self.next_char() {
            Some(c) if is_space(c) && self.is_appropriate_end_tag() => {
                self.state = State::BeforeAttributeName;
                None
            },
            Some('/') if self.is_appropriate_end_tag() => {
                self.state = State::SelfClosingStartTag;
                None
            },
            Some('>') if self.is_appropriate_end_tag() => {
                self.temporary_buffer.clear();
                self.emit_current_tag()
            },
            Some(c) if is_alphabetic(c) => {
                self.push_tag_name(to_lowercase(c));
                self.temporary_buffer.push(c);
                None
            },
            _ => self.end_tag_name_backout(home),
        }
    }

    /// Whether the tag under construction closes the current content.
    fn is_appropriate_end_tag(&self) -> (r: bool)
        ensures
            r == self@.appropriate(),
    {
        match (&self.appropriate_end_tag_name, &self.current_tag) {
            (Some(expected), Some(tag)) => *expected == tag.name,
            _ => false,
        }
    }

    /// Emits `</` and the buffer as text, and goes on in `home` with what was read
    /// last.
    fn end_tag_name_backout(&mut self, home: State) -> (r: Option<Token>)
        ensures
            (final(self)@, token_of(r)) == content::back_out(old(self)@, home),
    {
        self.queue_buffer();
        self.queue('/');
        self.queue('<');
        self.current_tag = None;
        self.temporary_buffer.clear();
        self.state = home;
        self.reconsume = true;
        assert(self@.pending =~= seq!['<', '/'] + old(self)@.buffer + old(self)@.pending);
        None
    }

    /// Puts the buffer before everything that is to be emitted.
    pub(super) fn queue_buffer(&mut self)
        ensures
            final(self)@ == old(self)@.queue(old(self)@.buffer),
    {
        let mut i: usize = self.temporary_buffer.len();
        assert(self@.buffer.skip(i as int) + self@.pending =~= self@.pending);
        while i > 0
            invariant
                i <= self@.buffer.len(),
                self@ == old(self)@.queue(old(self)@.buffer.skip(i as int)),
            decreases i,
        {
            i = i - 1;
            let c = self.temporary_buffer[i];
            self.queue(c);
            assert(old(self)@.buffer.skip(i as int) =~= seq![c] + old(self)@.buffer.skip(i + 1));
            assert(self@.pending =~= old(self)@.buffer.skip(i as int) + old(self)@.pending);
        }
        assert(old(self)@.buffer.skip(0) =~= old(self)@.buffer);
    }

    /// RCDATA less-than sign state.
    pub(super) fn handle_rcdata_less_than_sign_state(&mut self) -> (r: Option<Token>)
        requires
            old(self)@.wf(),
        ensures
            (final(self)@, token_of(r)) == content::less_than_sign(
                old(self)@.read(),
                old(self)@.next(),
                State::RCDATAEndTagOpen,
                State::RCDATA,
            ),
    {
        let c = self.next_char();
        self.less_than_sign(c, State::RCDATAEndTagOpen, State::RCDATA)
    }

    /// RCDATA end tag open state.
    pub(super) fn handle_rcdata_end_tag_open_state(&mut self) -> (r: Option<Token>)
        requires
            old(self)@.wf(),
        ensures
            (final(self)@, token_of(r)) == content::end_tag_open(
                old(self)@.read(),
                old(self)@.next(),
                State::RCDATAEndTagName,
                State::RCDATA,
            ),
    {
        self.end_tag_open(State::RCDATAEndTagName, State::RCDATA)
    }

    /// RCDATA end tag name state.
    pub(super) fn handle_rcdata_end_tag_name_state(&mut self) -> (r: Option<Token>)
        requires
            old(self)@.wf(),
        ensures
            (final(self)@, token_of(r)) == content::end_tag_name(
                old(self)@.read(),
                old(self)@.next(),
                State::RCDATA,
            ),
    {
        self.end_tag_name(State::RCDATA)
    }

    /// RAWTEXT less-than sign state.
    pub(super) fn handle_rawtext_less_than_sign_state(&mut self) -> (r: Option<Token>)
        requires
            old(self)@.wf(),
        ensures
            (final(self)@, token_of(r)) == content::less_than_sign(
                old(self)@.read(),
                old(self)@.next(),
                State::RAWTEXTEndTagOpen,
                State::RAWTEXT,
            ),
    {
        let c = self.next_char();
        self.less_than_sign(c, State::RAWTEXTEndTagOpen, State::RAWTEXT)
    }

    /// RAWTEXT end tag open state.
    pub(super) fn handle_rawtext_end_tag_open_state(&mut self) -> (r: Option<Token>)
        requires
            old(self)@.wf(),
        ensures
            (final(self)@, token_of(r)) == content::end_tag_open(
                old(self)@.read(),
                old(self)@.next(),
                State::RAWTEXTEndTagName,
                State::RAWTEXT,
            ),
    {
        self.end_tag_open(State::RAWTEXTEndTagName, State::RAWTEXT)
    }

    /// RAWTEXT end tag name state.
    pub(super) fn handle_rawtext_end_tag_name_state(&mut self) -> (r: Option<Token>)
        requires
            old(self)@.wf(),
        ensures
            (final(self)@, token_of(r)) == content::end_tag_name(
                old(self)@.read(),
                old(self)@.next(),
                State::RAWTEXT,
            ),
    {
        self.end_tag_name(State::RAWTEXT)
    }

    /// CDATA section state: everything is text, NUL included.
    pub(super) fn handle_cdata_section_state(&mut self) -> (r: Option<Token>)
        requires
            old(self)@.wf(),
        ensures
            (final(self)@, token_of(r)) == content::cdata_section(
                old(self)@.read(),
                old(self)@.next(),
            ),
    {
        match self.next_char() {
            Some(']') => {
                self.state = State::CDATASectionBracket;
                None
            },
            Some(c) => Some(Token::Character(c)),
            None => {
                self.eof_emitted = true;
                Some(Token::EOF)
            },
        }
    }

    /// CDATA section bracket state.
    pub(super) fn handle_cdata_section_bracket_state(&mut self) -> (r: Option<Token>)
        requires
            old(self)@.wf(),
        ensures
            (final(self)@, token_of(r)) == content::cdata_section_bracket(
                old(self)@.read(),
                old(self)@.next(),
            ),
    {
        match self.next_char() {
            Some(']') => {
                self.state = State::CDATASectionEnd;
                None
            },
            _ => {
                self.state = State::CDATASection;
                self.reconsume = true;
                Some(Token::Character(']'))
            },
        }
    }

    /// CDATA section end state: `>` closes the section.
    pub(super) fn handle_cdata_section_end_state(&mut self) -> (r: Option<Token>)
        requires
            old(self)@.wf(),
        ensures
            (final(self)@, token_of(r)) == content::cdata_section_end(
                old(self)@.read(),
                old(self)@.next(),
            ),
    {
        match self.next_char() {
            Some('>') => {
                self.state = State::Data;
                None
            },
            Some(']') => Some(Token::Character(']')),
            _ => {
                self.queue(']');
                self.queue(']');
                self.state = State::CDATASection;
                self.reconsume = true;
                assert(self@.pending =~= seq![']', ']'] + old(self)@.pending);
                None
            },
        }
    }
}

} // verus!
