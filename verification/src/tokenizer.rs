//! The tokenizer: [`HtmlTokenizer`].

use crate::model::coherence::{lemma_run_coherent, lemma_step_coherent};
use crate::model::progress::{lemma_step_advances, rank};
use crate::model::runs::{self, can_advance, coherent, lemma_next_token, stuck};
use crate::model::{self, Machine};
use crate::trait_def::Tokenizer;
use crate::types::{tag_of, text_of, token_of};
use crate::types::{DoctypeToken, State, TagToken, Token, TokenView};
use vstd::prelude::*;

mod attributes;
mod comments;
mod content;
mod doctypes;
mod instructions;
mod references;
mod script;
mod tags;

verus! {

/// A tokenizer for HTML.
///
/// It reads a sequence of code points and emits [`Token`]s. After [`Token::EOF`]
/// there are no more.
pub struct HtmlTokenizer {
    /// Input code points.
    input: Vec<char>,
    /// How many code points of `input` have been read.
    pos: usize,
    /// The current state.
    state: State,
    /// Whether `Token::EOF` has been emitted.
    eof_emitted: bool,
    /// Whether `next_char` returns once more what it returned last.
    reconsume: bool,
    /// Whether `next_char` found the end of the input when it last read. A reading
    /// that is repeated then finds the end again, not the last code point.
    last_was_eof: bool,
    /// The tag under construction.
    current_tag: Option<TagToken>,
    /// The text of the comment under construction.
    current_comment: String,
    /// The target and data of the processing instruction under construction.
    current_pi: Option<(String, String)>,
    /// The name of the attribute under construction.
    current_attr_name: String,
    /// The value of the attribute under construction.
    current_attr_value: String,
    /// The DOCTYPE under construction.
    current_doctype: DoctypeToken,
    /// The name of the end tag that closes the current content.
    appropriate_end_tag_name: Option<String>,
    /// Text that is kept until it is known what it belongs to.
    temporary_buffer: Vec<char>,
    /// Code points to be emitted before anything is read, the next one last.
    pending: Vec<char>,
    /// The state to return to after a character reference.
    return_state: Option<State>,
    /// The number of a numeric character reference, as far as it has been read.
    character_reference_code: u32,
    /// The letter that opened a hexadecimal character reference.
    char_ref_hex_prefix: char,
    /// Whether the current node lies outside the HTML namespace.
    in_foreign_content: bool,
}

/// The target and data of an optional processing instruction.
pub open spec fn instruction_of(pi: Option<(String, String)>) -> Option<(Seq<char>, Seq<char>)> {
    match pi {
        Some((target, data)) => Some((target@, data@)),
        None => None,
    }
}

impl View for HtmlTokenizer {
    type V = Machine;

    closed spec fn view(&self) -> Machine {
        Machine {
            input: self.input@,
            pos: self.pos as int,
            state: self.state,
            done: self.eof_emitted,
            reconsume: self.reconsume,
            at_end: self.last_was_eof,
            tag: tag_of(self.current_tag),
            comment: self.current_comment@,
            instruction: instruction_of(self.current_pi),
            attr_name: self.current_attr_name@,
            attr_value: self.current_attr_value@,
            doctype: self.current_doctype@,
            end_tag_name: text_of(self.appropriate_end_tag_name),
            buffer: self.temporary_buffer@,
            pending: self.pending@.reverse(),
            return_state: self.return_state,
            code: self.character_reference_code as int,
            hex_prefix: self.char_ref_hex_prefix,
            foreign: self.in_foreign_content,
        }
    }
}

impl HtmlTokenizer {
    /// A tokenizer of `input`, in [`State::Data`].
    pub fn new(input: &str) -> (r: Self)
        ensures
            r@ == Machine::initial(input@),
    {
        let mut chars: Vec<char> = Vec::new();
        for c in it: input.chars()
            invariant
                it.seq() == input@,
                chars@ == input@.take(it.index() as int),
        {
            chars.push(c);
            assert(chars@ =~= input@.take(it.index() + 1));
        }
        assert(chars@ =~= input@);
        let r = Self {
            input: chars,
            pos: 0,
            state: State::Data,
            eof_emitted: false,
            reconsume: false,
            last_was_eof: false,
            current_tag: None,
            current_comment: String::new(),
            current_pi: None,
            current_attr_name: String::new(),
            current_attr_value: String::new(),
            current_doctype: DoctypeToken {
                name: None,
                public_id: None,
                system_id: None,
                force_quirks: false,
            },
            appropriate_end_tag_name: None,
            temporary_buffer: Vec::new(),
            pending: Vec::new(),
            return_state: None,
            character_reference_code: 0,
            char_ref_hex_prefix: 'x',
            in_foreign_content: false,
        };
        assert(r@ =~= Machine::initial(input@));
        r
    }

    /// The code point at the current position, without reading it.
    fn current_char(&self) -> (r: Option<char>)
        ensures
            r == if self@.pos < self@.input.len() {
                Some(self@.input[self@.pos])
            } else {
                None
            },
    {
        if self.pos < self.input.len() {
            Some(self.input[self.pos])
        } else {
            None
        }
    }

    /// Reads the code point at the current position.
    fn consume(&mut self) -> (r: Option<char>)
        requires
            !old(self)@.reconsume,
        ensures
            r == old(self)@.next(),
            final(self)@ == old(self)@.read(),
    {
        let c = self.current_char();
        if c.is_some() {
            assert(self.pos < self.input.len());
            self.pos = self.pos + 1;
            self.last_was_eof = false;
        } else {
            self.last_was_eof = true;
        }
        c
    }

    /// Reads the next code point, or once more the last one where that was asked
    /// for.
    fn next_char(&mut self) -> (r: Option<char>)
        requires
            old(self)@.wf(),
        ensures
            r == old(self)@.next(),
            final(self)@ == old(self)@.read(),
    {
        if self.reconsume {
            self.reconsume = false;
            if self.last_was_eof {
                return None;
            }
            Some(self.input[self.pos - 1])
        } else {
            self.consume()
        }
    }

    /// Puts `c` before everything that is to be emitted.
    fn queue(&mut self, c: char)
        ensures
            final(self)@ == old(self)@.queue(seq![c]),
    {
        self.pending.push(c);
        assert(self.pending@.reverse() =~= seq![c] + old(self).pending@.reverse());
    }
}

impl HtmlTokenizer {
    /// Takes one step, and returns the token that it emits, if any: pending text
    /// first, and nothing once [`Token::EOF`] has been emitted.
    pub fn step(&mut self) -> (r: Option<Token>)
        requires
            old(self)@.wf(),
            !stuck(old(self)@),
        ensures
            (final(self)@, token_of(r)) == model::step(old(self)@),
            final(self)@.wf(),
            coherent(old(self)@) ==> coherent(final(self)@),
    {
        proof {
            if !self@.done {
                lemma_step_advances(self@);
            }
            if coherent(self@) {
                lemma_step_coherent(self@);
            }
        }
        if self.eof_emitted {
            return None;
        }
        if let Some(c) = self.pending.pop() {
            assert(self@.pending =~= old(self)@.pending.drop_first());
            return Some(Token::Character(c));
        }
        self.transition()
    }

    /// Does what the current state asks for.
    fn transition(&mut self) -> (r: Option<Token>)
        requires
            old(self)@.wf(),
            !old(self)@.done,
            old(self)@.pending.len() == 0,
            !stuck(old(self)@),
        ensures
            (final(self)@, token_of(r)) == model::transition(old(self)@),
    {
        match self.state {
            State::Data => self.handle_data_state(),
            State::TagOpen => self.handle_tag_open_state(),
            State::EndTagOpen => self.handle_end_tag_open_state(),
            State::TagName => self.handle_tag_name_state(),
            State::SelfClosingStartTag => self.handle_self_closing_start_tag_state(),
            State::MarkupDeclarationOpen => self.handle_markup_declaration_open_state(),
            State::Doctype => self.handle_doctype_state(),
            State::BeforeDoctypeName => self.handle_before_doctype_name_state(),
            State::DoctypeName => self.handle_doctype_name_state(),
            State::AfterDoctypeName => self.handle_after_doctype_name_state(),
            State::AfterDoctypePublicKeyword => self.handle_after_doctype_public_keyword_state(),
            State::BeforeDoctypePublicId => self.handle_before_doctype_public_id_state(),
            State::DoctypePublicIdDoubleQuoted => {
                self.handle_doctype_public_id_double_quoted_state()
            },
            State::DoctypePublicIdSingleQuoted => {
                self.handle_doctype_public_id_single_quoted_state()
            },
            State::AfterDoctypePublicId => self.handle_after_doctype_public_id_state(),
            State::BetweenDoctypePublicAndSystemIds => {
                self.handle_between_doctype_public_and_system_ids_state()
            },
            State::AfterDoctypeSystemKeyword => self.handle_after_doctype_system_keyword_state(),
            State::BeforeDoctypeSystemId => self.handle_before_doctype_system_id_state(),
            State::DoctypeSystemIdDoubleQuoted => {
                self.handle_doctype_system_id_double_quoted_state()
            },
            State::DoctypeSystemIdSingleQuoted => {
                self.handle_doctype_system_id_single_quoted_state()
            },
            State::AfterDoctypeSystemId => self.handle_after_doctype_system_id_state(),
            State::BogusDoctype => self.handle_bogus_doctype_state(),
            State::BogusComment => self.handle_bogus_comment_state(),
            State::CommentStart => self.handle_comment_start_state(),
            State::CommentStartDash => self.handle_comment_start_dash_state(),
            State::Comment => self.handle_comment_state(),
            State::CommentLessThanSign => self.handle_comment_less_than_sign_state(),
            State::CommentLessThanSignBang => self.handle_comment_less_than_sign_bang_state(),
            State::CommentLessThanSignBangDash => {
                self.handle_comment_less_than_sign_bang_dash_state()
            },
            State::CommentLessThanSignBangDashDash => {
                self.handle_comment_less_than_sign_bang_dash_dash_state()
            },
            State::CommentEndDash => self.handle_comment_end_dash_state(),
            State::CommentEnd => self.handle_comment_end_state(),
            State::CommentEndBang => self.handle_comment_end_bang_state(),
            State::BeforeAttributeName => self.handle_before_attribute_name_state(),
            State::AttributeName => self.handle_attribute_name_state(),
            State::AfterAttributeName => self.handle_after_attribute_name_state(),
            State::BeforeAttributeValue => self.handle_before_attribute_value_state(),
            State::AttributeValueDoubleQuoted => self.handle_attribute_value_double_quoted_state(),
            State::AttributeValueSingleQuoted => self.handle_attribute_value_single_quoted_state(),
            State::AttributeValueUnquoted => self.handle_attribute_value_unquoted_state(),
            State::AfterAttributeValueQuoted => self.handle_after_attribute_value_quoted_state(),
            State::RCDATA => self.handle_rcdata_state(),
            State::RAWTEXT => self.handle_rawtext_state(),
            State::PLAINTEXT => self.handle_plaintext_state(),
            State::RCDATALessThanSign => self.handle_rcdata_less_than_sign_state(),
            State::RCDATAEndTagOpen => self.handle_rcdata_end_tag_open_state(),
            State::RCDATAEndTagName => self.handle_rcdata_end_tag_name_state(),
            State::RAWTEXTLessThanSign => self.handle_rawtext_less_than_sign_state(),
            State::RAWTEXTEndTagOpen => self.handle_rawtext_end_tag_open_state(),
            State::RAWTEXTEndTagName => self.handle_rawtext_end_tag_name_state(),
            State::ScriptData => self.handle_script_data_state(),
            State::ScriptDataLessThanSign => self.handle_script_data_less_than_sign_state(),
            State::ScriptDataEndTagOpen => self.handle_script_data_end_tag_open_state(),
            State::ScriptDataEndTagName => self.handle_script_data_end_tag_name_state(),
            State::ScriptDataEscapeStart => self.handle_script_data_escape_start_state(),
            State::ScriptDataEscapeStartDash => self.handle_script_data_escape_start_dash_state(),
            State::ScriptDataEscaped => self.handle_script_data_escaped_state(),
            State::ScriptDataEscapedDash => self.handle_script_data_escaped_dash_state(),
            State::ScriptDataEscapedDashDash => self.handle_script_data_escaped_dash_dash_state(),
            State::ScriptDataEscapedLessThanSign => {
                self.handle_script_data_escaped_less_than_sign_state()
            },
            State::ScriptDataEscapedEndTagOpen => {
                self.handle_script_data_escaped_end_tag_open_state()
            },
            State::ScriptDataEscapedEndTagName => {
                self.handle_script_data_escaped_end_tag_name_state()
            },
            State::ScriptDataDoubleEscapeStart => {
                self.handle_script_data_double_escape_start_state()
            },
            State::ScriptDataDoubleEscaped => self.handle_script_data_double_escaped_state(),
            State::ScriptDataDoubleEscapedDash => {
                self.handle_script_data_double_escaped_dash_state()
            },
            State::ScriptDataDoubleEscapedDashDash => {
                self.handle_script_data_double_escaped_dash_dash_state()
            },
            State::ScriptDataDoubleEscapedLessThanSign => {
                self.handle_script_data_double_escaped_less_than_sign_state()
            },
            State::ScriptDataDoubleEscapeEnd => self.handle_script_data_double_escape_end_state(),
            State::CharacterReference => self.handle_character_reference_state(),
            State::NumericCharacterReference => self.handle_numeric_character_reference_state(),
            State::HexCharacterReferenceStart => self.handle_hex_character_reference_start_state(),
            State::DecimalCharacterReferenceStart => {
                self.handle_decimal_character_reference_start_state()
            },
            State::HexCharacterReference => self.handle_hex_character_reference_state(),
            State::DecimalCharacterReference => self.handle_decimal_character_reference_state(),
            State::NumericCharacterReferenceEnd => {
                self.handle_numeric_character_reference_end_state()
            },
            State::NamedCharacterReference => self.handle_named_character_reference_state(),
            State::AmbiguousAmpersand => self.handle_ambiguous_ampersand_state(),
            State::CDATASection => self.handle_cdata_section_state(),
            State::CDATASectionBracket => self.handle_cdata_section_bracket_state(),
            State::CDATASectionEnd => self.handle_cdata_section_end_state(),
            State::ProcessingInstructionOpen => self.handle_processing_instruction_open_state(),
            State::ProcessingInstructionTarget => self.handle_processing_instruction_target_state(),
            State::AfterProcessingInstructionTarget => {
                self.handle_after_processing_instruction_target_state()
            },
            State::ProcessingInstructionData => self.handle_processing_instruction_data_state(),
            State::ProcessingInstructionQuestionable => {
                self.handle_processing_instruction_questionable_state()
            },
        }
    }
}

impl Tokenizer for HtmlTokenizer {
    open spec fn machine(&self) -> Machine {
        self@
    }

    fn next_token(&mut self) -> Option<Token> {
        proof {
            if coherent(self@) {
                lemma_run_coherent(self@);
            }
            lemma_next_token(self@);
        }
        loop
            invariant
                self@.wf(),
                can_advance(self@),
                runs::next_token(self@) == runs::next_token(old(self)@),
                coherent(old(self)@) ==> coherent(runs::next_token(old(self)@).0),
                runs::next_token(old(self)@).0.wf(),
                runs::next_token(old(self)@).1 is None <==> old(self)@.done,
                runs::next_token(old(self)@).0.done <==> (runs::next_token(old(self)@).1 is None
                    || runs::next_token(old(self)@).1 == Some(TokenView::EOF)),
            decreases !self@.done as int, self@.left(), rank(self@.state), self@.pending.len(),
        {
            proof {
                if !self@.done {
                    lemma_step_advances(self@);
                }
            }
            let token = self.step();
            if token.is_some() || self.eof_emitted {
                return token;
            }
        }
    }

    fn set_state(&mut self, state: State) {
        self.state = state;
    }

    fn state(&self) -> State {
        self.state
    }

    fn reset(&mut self) {
        self.pos = 0;
        self.state = State::Data;
        self.eof_emitted = false;
        self.reconsume = false;
        self.last_was_eof = false;
        self.current_tag = None;
        self.current_comment = String::new();
        self.current_pi = None;
        self.current_attr_name = String::new();
        self.current_attr_value = String::new();
        self.clear_doctype();
        self.appropriate_end_tag_name = None;
        self.temporary_buffer.clear();
        self.pending.clear();
        self.return_state = None;
        self.character_reference_code = 0;
        self.char_ref_hex_prefix = 'x';
        self.in_foreign_content = false;
        assert(self@ =~= Machine::initial(old(self)@.input));
    }

    fn set_appropriate_end_tag_name(&mut self, name: Option<&str>) {
        self.appropriate_end_tag_name = match name {
            Some(name) => Some(name.to_owned()),
            None => None,
        };
    }

    fn set_foreign_content(&mut self, in_foreign: bool) {
        self.in_foreign_content = in_foreign;
    }
}

} // verus!
