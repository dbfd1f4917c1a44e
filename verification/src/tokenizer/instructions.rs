//! Processing instructions.

use crate::chars::{is_alphabetic, is_alphanumeric, is_space, same_text_ignoring_case};
use crate::model::instructions;
use crate::strings::push_all;
use crate::tokenizer::HtmlTokenizer;
use crate::types::{token_of, State, Token};
use vstd::prelude::*;

verus! {

impl HtmlTokenizer {
    /// Reads what was taken for an instruction as a comment.
    fn convert_temporary_buffer_to_comment(&mut self) -> (r: Option<Token>)
        ensures
            (final(self)@, token_of(r)) == instructions::as_comment(old(self)@),
    {
        let mut comment = String::new();
        comment.push('?');
        push_all(&mut comment, self.temporary_buffer.as_slice());
        self.current_comment = comment;
        self.temporary_buffer.clear();
        self.state = State::BogusComment;
        self.reconsume = true;
        assert(self@.comment =~= seq!['?'] + old(self)@.buffer);
        None
    }

    /// Emits the processing instruction.
    fn emit_current_pi(&mut self) -> (r: Option<Token>)
        ensures
            (final(self)@, token_of(r)) == old(self)@.emit_instruction(),
    {
        self.state = State::Data;
        match self.current_pi.take() {
            Some((target, data)) => Some(Token::ProcessingInstruction { target, data }),
            None => Some(
                Token::ProcessingInstruction { target: String::new(), data: String::new() },
            ),
        }
    }

    /// Adds `c` to the data of the processing instruction.
    fn push_pi_data(&mut self, c: char)
        ensures
            final(self)@ == instructions::data_char(old(self)@, c),
    {
        if let Some(pi) = &mut self.current_pi {
            pi.1.push(c);
        }
    }

    /// Processing instruction open state, after `<?`.
    pub(super) fn handle_processing_instruction_open_state(&mut self) -> (r: Option<Token>)
        requires
            old(self)@.wf(),
        ensures
            (final(self)@, token_of(r)) == instructions::open(old(self)@.read(), old(self)@.next()),
    {
        match self.next_char() {
            Some(c) if is_alphabetic(c) || c == '_' => {
                self.state = State::ProcessingInstructionTarget;
                self.reconsume = true;
                None
            },
            Some(_) => self.convert_temporary_buffer_to_comment(),
            None => {
                self.eof_emitted = true;
                Some(Token::EOF)
            },
        }
    }

    /// Processing instruction target state. The targets `xml` and `xml-stylesheet` are
    /// not allowed.
    pub(super) fn handle_processing_instruction_target_state(&mut self) -> (r: Option<Token>)
        requires
            old(self)@.wf(),
        ensures
            (final(self)@, token_of(r)) == instructions::target(
                old(self)@.read(),
                old(self)@.next(),
            ),
    {
        match self.next_char() {
            Some(c) if is_space(c) || c == '?' || c == '>' => {
                if same_text_ignoring_case(self.temporary_buffer.as_slice(), "xml")
                    || same_text_ignoring_case(self.temporary_buffer.as_slice(), "xml-stylesheet") {
                    return self.convert_temporary_buffer_to_comment();
                }
                let mut target = String::new();
                push_all(&mut target, self.temporary_buffer.as_slice());
                assert(target@ =~= old(self)@.buffer);
                self.current_pi = Some((target, String::new()));
                self.temporary_buffer.clear();
                self.state = State::AfterProcessingInstructionTarget;
                self.reconsume = true;
                None
            },
            Some(c) if is_alphanumeric(c) || c == '-' || c == '_' => {
                self.temporary_buffer.push(c);
                None
            },
            Some(_) => self.convert_temporary_buffer_to_comment(),
            None => {
                self.eof_emitted = true;
                Some(Token::EOF)
            },
        }
    }

    /// After processing instruction target state.
    pub(super) fn handle_after_processing_instruction_target_state(&mut self) -> (r: Option<Token>)
        requires
            old(self)@.wf(),
        ensures
            (final(self)@, token_of(r)) == instructions::after_target(
                old(self)@.read(),
                old(self)@.next(),
            ),
    {
        match self.next_char() {
            Some(c) if is_space(c) => None,
            _ => {
                self.state = State::ProcessingInstructionData;
                self.reconsume = true;
                None
            },
        }
    }

    /// Processing instruction data state.
    pub(super) fn handle_processing_instruction_data_state(&mut self) -> (r: Option<Token>)
        requires
            old(self)@.wf(),
        ensures
            (final(self)@, token_of(r)) == instructions::data(old(self)@.read(), old(self)@.next()),
    {
        match self.next_char() {
            Some('?') => {
                self.state = State::ProcessingInstructionQuestionable;
                None
            },
            Some('>') => self.emit_current_pi(),
            Some(c) => {
                self.push_pi_data(c);
                None
            },
            None => {
                self.eof_emitted = true;
                Some(Token::EOF)
            },
        }
    }

    /// Processing instruction questionable state, after `?` in the data.
    pub(super) fn handle_processing_instruction_questionable_state(&mut self) -> (r: Option<Token>)
        requires
            old(self)@.wf(),
        ensures
            (final(self)@, token_of(r)) == instructions::questionable(
                old(self)@.read(),
                old(self)@.next(),
            ),
    {
        match self.next_char() {
            Some('>') => self.emit_current_pi(),
            Some(_) => {
                self.push_pi_data('?');
                self.state = State::ProcessingInstructionData;
                self.reconsume = true;
                None
            },
            None => {
                self.eof_emitted = true;
                Some(Token::EOF)
            },
        }
    }
}

} // verus!
