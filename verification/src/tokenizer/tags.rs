//! Tags, and what else `<` may open.

use crate::chars::{is_alphabetic, is_space, same_text, same_text_ignoring_case};
use crate::chars::{to_lowercase, to_visible};
use crate::model::{new_tag, tags, Machine};
use crate::tokenizer::HtmlTokenizer;
use crate::types::{token_of, State, TagKind, TagToken, Token};
use vstd::slice::slice_subrange;
use vstd::prelude::*;

verus! {

impl HtmlTokenizer {
    /// Begins a tag with `first` as the first letter of its name.
    pub(super) fn start_tag(&mut self, kind: TagKind, first: char)
        ensures
            final(self)@ == (Machine { tag: Some(new_tag(kind, first)), ..old(self)@ }),
    {
        let mut name = String::new();
        name.push(first);
        self.current_tag = Some(
            TagToken { kind, name, attrs: Vec::new(), self_closing: false },
        );
        assert(self@.tag->0 =~= new_tag(kind, first));
    }

    /// Adds `c` to the name of the tag.
    pub(super) fn push_tag_name(&mut self, c: char)
        ensures
            final(self)@ == old(self)@.name_char(c),
    {
        if let Some(tag) = &mut self.current_tag {
            tag.name.push(c);
        }
    }

    /// Emits the tag.
    pub(super) fn emit_current_tag(&mut self) -> (r: Option<Token>)
        requires
            old(self)@.tag is Some,
        ensures
            (final(self)@, token_of(r)) == old(self)@.emit_tag(),
    {
        let tag = self.current_tag.take().unwrap();
        self.state = State::Data;
        Some(Token::Tag(tag))
    }

    /// Gives up the tag at the end of the input.
    pub(super) fn abandon_tag(&mut self) -> (r: Option<Token>)
        ensures
            (final(self)@, token_of(r)) == old(self)@.abandon_tag(),
    {
        self.current_tag = None;
        self.eof_emitted = true;
        Some(Token::EOF)
    }

    /// Tag open state.
    pub(super) fn handle_tag_open_state(&mut self) -> (r: Option<Token>)
        requires
            old(self)@.wf(),
        ensures
            (final(self)@, token_of(r)) == tags::tag_open(old(self)@.read(), old(self)@.next()),
    {
        match self.next_char() {
            Some('!') => {
                self.state = State::MarkupDeclarationOpen;
                None
            },
            Some('/') => {
                self.state = State::EndTagOpen;
                None
            },
            Some('?') => {
                self.temporary_buffer.clear();
                self.state = State::ProcessingInstructionOpen;
                None
            },
            Some(c) if is_alphabetic(c) => {
                self.start_tag(TagKind::Start, to_lowercase(c));
                self.state = State::TagName;
                None
            },
            Some(_) => {
                self.state = State::Data;
                self.reconsume = true;
                Some(Token::Character('<'))
            },
            None => {
                self.state = State::Data;
                Some(Token::Character('<'))
            },
        }
    }

    /// End tag open state.
    pub(super) fn handle_end_tag_open_state(&mut self) -> (r: Option<Token>)
        requires
            old(self)@.wf(),
        ensures
            (final(self)@, token_of(r)) == tags::end_tag_open(old(self)@.read(), old(self)@.next()),
    {
        match self.next_char() {
            Some('>') => {
                self.state = State::Data;
                None
            },
            Some(c) if is_alphabetic(c) => {
                self.start_tag(TagKind::End, to_lowercase(c));
                self.state = State::TagName;
                None
            },
            Some(_) => {
                self.current_comment = String::new();
                self.state = State::BogusComment;
                self.reconsume = true;
                None
            },
            None => {
                self.state = State::Data;
                self.reconsume = true;
                self.queue('/');
                self.queue('<');
                assert(self@.pending =~= seq!['<', '/'] + old(self)@.pending);
                None
            },
        }
    }

    /// Tag name state.
    pub(super) fn handle_tag_name_state(&mut self) -> (r: Option<Token>)
        requires
            old(self)@.wf(),
            old(self)@.tag is Some || old(self)@.next() != Some('>'),
        ensures
            (final(self)@, token_of(r)) == tags::tag_name(old(self)@.read(), old(self)@.next()),
    {
        match self.next_char() {
            Some(c) if is_space(c) => {
                self.state = State::BeforeAttributeName;
                None
            },
            Some('/') => {
                self.state = State::SelfClosingStartTag;
                None
            },
            Some('>') => self.emit_current_tag(),
            Some(c) => {
                self.push_tag_name(to_lowercase(to_visible(c)));
                self.state = State::TagName;
                None
            },
            None => self.abandon_tag(),
        }
    }

    /// Self-closing start tag state.
    pub(super) fn handle_self_closing_start_tag_state(&mut self) -> (r: Option<Token>)
        requires
            old(self)@.wf(),
            old(self)@.tag is Some || old(self)@.next() != Some('>'),
        ensures
            (final(self)@, token_of(r)) == tags::self_closing_start_tag(
                old(self)@.read(),
                old(self)@.next(),
            ),
    {
        match self.next_char() {
            Some('>') => {
                if let Some(tag) = &mut self.current_tag {
                    tag.self_closing = true;
                }
                self.emit_current_tag()
            },
            Some(_) => {
                self.state = State::BeforeAttributeName;
                self.reconsume = true;
                None
            },
            None => self.abandon_tag(),
        }
    }

    /// Whether the input holds `word` from `start` on.
    fn input_holds(&self, start: usize, word: &str, len: usize) -> (r: bool)
        requires
            start <= self@.input.len(),
            len == word@.len(),
        ensures
            r == self@.holds_at(start as int, word@),
            r ==> start + len <= usize::MAX,
    {
        len <= self.input.len() - start && same_text(
            slice_subrange(self.input.as_slice(), start, start + len),
            word,
        )
    }

    /// Whether the input holds `word` from `start` on, up to the case of ASCII
    /// letters.
    pub(super) fn input_spells(&self, start: usize, word: &str, len: usize) -> (r: bool)
        requires
            start <= self@.input.len(),
            len == word@.len(),
        ensures
            r == self@.spells_at(start as int, word@),
            r ==> start + len <= usize::MAX,
    {
        len <= self.input.len() - start && same_text_ignoring_case(
            slice_subrange(self.input.as_slice(), start, start + len),
            word,
        )
    }

    /// Markup declaration open state: a comment, a DOCTYPE or a CDATA section, the
    /// last only in foreign content.
    pub(super) fn handle_markup_declaration_open_state(&mut self) -> (r: Option<Token>)
        requires
            old(self)@.wf(),
        ensures
            (final(self)@, token_of(r)) == tags::markup_declaration_open(old(self)@),
    {
        proof {
            reveal_strlit("--");
            reveal_strlit("DOCTYPE");
            reveal_strlit("[CDATA[");
        }
        if self.input_holds(self.pos, "--", 2) {
            self.pos = self.pos + 2;
            self.current_comment = String::new();
            self.state = State::CommentStart;
        } else if self.input_spells(self.pos, "DOCTYPE", 7) {
            self.pos = self.pos + 7;
            self.clear_doctype();
            self.state = State::Doctype;
        } else if self.input_holds(self.pos, "[CDATA[", 7) {
            self.pos = self.pos + 7;
            if self.in_foreign_content {
                self.state = State::CDATASection;
            } else {
                self.current_comment = "[CDATA[".to_owned();
                self.state = State::BogusComment;
            }
        } else {
            self.state = State::BogusComment;
        }
        None
    }
}

} // verus!
