//! The mathematical model of the tokenizer: a machine that reads code points,
//! moves between states and emits tokens.

use crate::chars::{lowercase_all, visible};
use crate::types::{DoctypeView, State, TagKind, TagView, TokenView};
use vstd::prelude::*;

pub mod attributes;
pub mod coherence;
pub mod comments;
pub mod content;
pub mod doctypes;
pub mod families;
pub mod instructions;
pub mod progress;
pub mod references;
pub mod runs;
pub mod script;
pub mod tags;

verus! {

/// Everything that the tokenizer knows between two steps.
#[verifier::ext_equal]
pub struct Machine {
    /// The code points to be tokenized.
    pub input: Seq<char>,
    /// How many code points of the input have been read.
    pub pos: int,
    /// The current state.
    pub state: State,
    /// Whether the end-of-file token has been emitted.
    pub done: bool,
    /// Whether what was read last is to be read once more.
    pub reconsume: bool,
    /// Whether the end of the input was what was read last.
    pub at_end: bool,
    /// The tag under construction.
    pub tag: Option<TagView>,
    /// The text of the comment under construction.
    pub comment: Seq<char>,
    /// The target and data of the processing instruction under construction.
    pub instruction: Option<(Seq<char>, Seq<char>)>,
    /// The name of the attribute under construction.
    pub attr_name: Seq<char>,
    /// The value of the attribute under construction.
    pub attr_value: Seq<char>,
    /// The DOCTYPE under construction.
    pub doctype: DoctypeView,
    /// The name of the end tag that closes the current content.
    pub end_tag_name: Option<Seq<char>>,
    /// Text that is kept until it is known what it belongs to.
    pub buffer: Seq<char>,
    /// Code points that are to be emitted before anything else is read.
    pub pending: Seq<char>,
    /// The state to return to after a character reference.
    pub return_state: Option<State>,
    /// The number of a numeric character reference, as far as it has been read.
    pub code: int,
    /// The letter that opened a hexadecimal character reference.
    pub hex_prefix: char,
    /// Whether the current node lies outside the HTML namespace.
    pub foreign: bool,
}

/// A machine after a step, and the token that the step emitted.
pub type Outcome = (Machine, Option<TokenView>);

/// A DOCTYPE of which nothing has been read.
pub open spec fn blank_doctype() -> DoctypeView {
    DoctypeView { name: None, public_id: None, system_id: None, force_quirks: false }
}

/// A tag of which only the first letter has been read.
pub open spec fn new_tag(kind: TagKind, first: char) -> TagView {
    TagView { kind, name: seq![first], attrs: seq![], self_closing: false }
}

/// Whether an attribute is called `name`.
pub open spec fn has_attribute(attrs: Seq<(Seq<char>, Seq<char>)>, name: Seq<char>) -> bool {
    exists|i: int| 0 <= i < attrs.len() && #[trigger] attrs[i].0 == name
}

/// Whether text is read from here as part of an attribute value.
pub open spec fn is_attribute_value(state: State) -> bool {
    state == State::AttributeValueDoubleQuoted || state == State::AttributeValueSingleQuoted
        || state == State::AttributeValueUnquoted
}

/// Whether a character reference may begin in `state`.
pub open spec fn holds_references(state: State) -> bool {
    state == State::Data || state == State::RCDATA || is_attribute_value(state)
}

impl Machine {
    /// The machine that is about to tokenize `input`.
    pub open spec fn initial(input: Seq<char>) -> Machine {
        Machine {
            input,
            pos: 0,
            state: State::Data,
            done: false,
            reconsume: false,
            at_end: false,
            tag: None,
            comment: seq![],
            instruction: None,
            attr_name: seq![],
            attr_value: seq![],
            doctype: blank_doctype(),
            end_tag_name: None,
            buffer: seq![],
            pending: seq![],
            return_state: None,
            code: 0,
            hex_prefix: 'x',
            foreign: false,
        }
    }

    /// What holds of every machine between two steps.
    pub open spec fn wf(self) -> bool {
        &&& 0 <= self.pos <= self.input.len()
        &&& self.at_end ==> self.pos == self.input.len()
        &&& self.reconsume ==> self.at_end || self.pos > 0
        &&& self.return_state matches Some(s) ==> holds_references(s)
        &&& 0 <= self.code <= u32::MAX
    }

    // Reading.

    /// The code point that is read next; `None` at the end of the input.
    pub open spec fn next(self) -> Option<char> {
        if self.reconsume {
            if self.at_end {
                None
            } else {
                Some(self.input[self.pos - 1])
            }
        } else if self.pos < self.input.len() {
            Some(self.input[self.pos])
        } else {
            None
        }
    }

    /// The machine once it has read.
    pub open spec fn read(self) -> Machine {
        if self.reconsume {
            Machine { reconsume: false, ..self }
        } else if self.pos < self.input.len() {
            Machine { pos: self.pos + 1, at_end: false, ..self }
        } else {
            Machine { at_end: true, ..self }
        }
    }

    /// Whether the input holds `word` from `start` on.
    pub open spec fn holds_at(self, start: int, word: Seq<char>) -> bool {
        &&& start + word.len() <= self.input.len()
        &&& self.input.subrange(start, start + word.len()) == word
    }

    /// Whether the input holds `word` from `start` on, up to the case of ASCII
    /// letters.
    pub open spec fn spells_at(self, start: int, word: Seq<char>) -> bool {
        &&& start + word.len() <= self.input.len()
        &&& lowercase_all(self.input.subrange(start, start + word.len())) == lowercase_all(word)
    }

    // Moving on.

    /// The machine in `state`.
    pub open spec fn at(self, state: State) -> Machine {
        Machine { state, ..self }
    }

    /// The machine that reads once more what it has just read.
    pub open spec fn replaying(self) -> Machine {
        Machine { reconsume: true, ..self }
    }

    /// Stay in the current state.
    pub open spec fn stay(self) -> Outcome {
        (self, None)
    }

    /// Move to `state`.
    pub open spec fn go(self, state: State) -> Outcome {
        (self.at(state), None)
    }

    /// Move to `state`, which reads once more what was just read.
    pub open spec fn again(self, state: State) -> Outcome {
        (self.at(state).replaying(), None)
    }

    /// Move to the character reference state, to return to `state`.
    pub open spec fn reference(self, state: State) -> Outcome {
        Machine { return_state: Some(state), ..self }.go(State::CharacterReference)
    }

    // Emitting.

    /// Emit `c`.
    pub open spec fn say(self, c: char) -> Outcome {
        (self, Some(TokenView::Character(c)))
    }

    /// Emit what was read as text: NUL shows as U+FFFD, the end of the input ends
    /// the tokens.
    pub open spec fn text(self, c: Option<char>) -> Outcome {
        match c {
            Some(c) => self.say(visible(c)),
            None => self.finish(),
        }
    }

    /// The machine that is to emit `text` before it goes on.
    pub open spec fn queue(self, text: Seq<char>) -> Machine {
        Machine { pending: text + self.pending, ..self }
    }

    /// Emit the end-of-file token.
    pub open spec fn finish(self) -> Outcome {
        (Machine { done: true, ..self }, Some(TokenView::EOF))
    }

    /// Give up the tag under construction and emit the end-of-file token.
    pub open spec fn abandon_tag(self) -> Outcome {
        Machine { tag: None, ..self }.finish()
    }

    /// Emit the tag under construction.
    pub open spec fn emit_tag(self) -> Outcome {
        (Machine { tag: None, ..self }.at(State::Data), Some(TokenView::Tag(self.tag->0)))
    }

    /// Emit the comment under construction.
    pub open spec fn emit_comment(self) -> Outcome {
        (
            Machine { comment: seq![], ..self }.at(State::Data),
            Some(TokenView::Comment(self.comment)),
        )
    }

    /// Emit the DOCTYPE under construction.
    pub open spec fn emit_doctype(self) -> Outcome {
        (
            Machine { doctype: blank_doctype(), ..self }.at(State::Data),
            Some(TokenView::Doctype(self.doctype)),
        )
    }

    /// Emit the processing instruction under construction.
    pub open spec fn emit_instruction(self) -> Outcome {
        let (target, data) = match self.instruction {
            Some((target, data)) => (target, data),
            None => (seq![], seq![]),
        };
        (
            Machine { instruction: None, ..self }.at(State::Data),
            Some(TokenView::ProcessingInstruction { target, data }),
        )
    }

    // Building.

    /// The machine with nothing in its buffer.
    pub open spec fn clear_buffer(self) -> Machine {
        Machine { buffer: seq![], ..self }
    }

    /// The machine with `c` at the end of its buffer.
    pub open spec fn keep(self, c: char) -> Machine {
        Machine { buffer: self.buffer.push(c), ..self }
    }

    /// The machine with `c` at the end of the name of its tag.
    pub open spec fn name_char(self, c: char) -> Machine {
        Machine {
            tag: match self.tag {
                Some(t) => Some(TagView { name: t.name.push(c), ..t }),
                None => None,
            },
            ..self
        }
    }

    /// The machine with its attribute added to its tag, unless the tag has one of
    /// that name.
    pub open spec fn add_attribute(self) -> Machine {
        match self.tag {
            Some(t) => Machine {
                tag: Some(
                    if has_attribute(t.attrs, self.attr_name) {
                        t
                    } else {
                        TagView { attrs: t.attrs.push((self.attr_name, self.attr_value)), ..t }
                    },
                ),
                attr_name: seq![],
                attr_value: seq![],
                ..self
            },
            None => self,
        }
    }

    /// The machine with `c` at the end of its comment.
    pub open spec fn note(self, c: char) -> Machine {
        Machine { comment: self.comment.push(c), ..self }
    }

    /// The machine whose DOCTYPE asks for quirks mode.
    pub open spec fn quirky(self) -> Machine {
        Machine { doctype: DoctypeView { force_quirks: true, ..self.doctype }, ..self }
    }

    /// Whether the tag under construction closes the current content.
    pub open spec fn appropriate(self) -> bool {
        match (self.end_tag_name, self.tag) {
            (Some(name), Some(t)) => name == t.name,
            _ => false,
        }
    }
}

/// What the machine does in its current state, where it is neither done nor has
/// anything pending.
pub open spec fn transition(m: Machine) -> Outcome {
    let r = m.read();
    let c = m.next();
    match m.state {
        State::Data => content::data(r, c),
        State::RCDATA => content::rcdata(r, c),
        State::RAWTEXT => content::rawtext(r, c),
        State::ScriptData => content::script_data(r, c),
        State::PLAINTEXT => content::plaintext(r, c),
        State::TagOpen => tags::tag_open(r, c),
        State::EndTagOpen => tags::end_tag_open(r, c),
        State::TagName => tags::tag_name(r, c),
        State::RCDATALessThanSign => content::less_than_sign(
            r,
            c,
            State::RCDATAEndTagOpen,
            State::RCDATA,
        ),
        State::RCDATAEndTagOpen => content::end_tag_open(
            r,
            c,
            State::RCDATAEndTagName,
            State::RCDATA,
        ),
        State::RCDATAEndTagName => content::end_tag_name(r, c, State::RCDATA),
        State::RAWTEXTLessThanSign => content::less_than_sign(
            r,
            c,
            State::RAWTEXTEndTagOpen,
            State::RAWTEXT,
        ),
        State::RAWTEXTEndTagOpen => content::end_tag_open(
            r,
            c,
            State::RAWTEXTEndTagName,
            State::RAWTEXT,
        ),
        State::RAWTEXTEndTagName => content::end_tag_name(r, c, State::RAWTEXT),
        State::ScriptDataLessThanSign => script::less_than_sign(r, c),
        State::ScriptDataEndTagOpen => content::end_tag_open(
            r,
            c,
            State::ScriptDataEndTagName,
            State::ScriptData,
        ),
        State::ScriptDataEndTagName => content::end_tag_name(r, c, State::ScriptData),
        State::ScriptDataEscapeStart => script::escape_start(
            r,
            c,
            State::ScriptDataEscapeStartDash,
        ),
        State::ScriptDataEscapeStartDash => script::escape_start(
            r,
            c,
            State::ScriptDataEscapedDashDash,
        ),
        State::ScriptDataEscaped => script::escaped(r, c, false),
        State::ScriptDataEscapedDash => script::escaped_dash(r, c, false),
        State::ScriptDataEscapedDashDash => script::escaped_dash_dash(r, c, false),
        State::ScriptDataEscapedLessThanSign => script::escaped_less_than_sign(r, c),
        State::ScriptDataEscapedEndTagOpen => content::end_tag_open(
            r,
            c,
            State::ScriptDataEscapedEndTagName,
            State::ScriptDataEscaped,
        ),
        State::ScriptDataEscapedEndTagName => content::end_tag_name(
            r,
            c,
            State::ScriptDataEscaped,
        ),
        State::ScriptDataDoubleEscapeStart => script::double_escape(
            r,
            c,
            State::ScriptDataDoubleEscaped,
            State::ScriptDataEscaped,
        ),
        State::ScriptDataDoubleEscaped => script::escaped(r, c, true),
        State::ScriptDataDoubleEscapedDash => script::escaped_dash(r, c, true),
        State::ScriptDataDoubleEscapedDashDash => script::escaped_dash_dash(r, c, true),
        State::ScriptDataDoubleEscapedLessThanSign => script::double_escaped_less_than_sign(r, c),
        State::ScriptDataDoubleEscapeEnd => script::double_escape(
            r,
            c,
            State::ScriptDataEscaped,
            State::ScriptDataDoubleEscaped,
        ),
        State::BeforeAttributeName => attributes::before_name(r, c),
        State::AttributeName => attributes::name(r, c),
        State::AfterAttributeName => attributes::after_name(r, c),
        State::BeforeAttributeValue => attributes::before_value(r, c),
        State::AttributeValueDoubleQuoted => attributes::quoted_value(
            r,
            c,
            '"',
            State::AttributeValueDoubleQuoted,
        ),
        State::AttributeValueSingleQuoted => attributes::quoted_value(
            r,
            c,
            '\'',
            State::AttributeValueSingleQuoted,
        ),
        State::AttributeValueUnquoted => attributes::unquoted_value(r, c),
        State::AfterAttributeValueQuoted => attributes::after_quoted_value(r, c),
        State::SelfClosingStartTag => tags::self_closing_start_tag(r, c),
        State::BogusComment => comments::bogus_comment(r, c),
        State::MarkupDeclarationOpen => tags::markup_declaration_open(m),
        State::CommentStart => comments::comment_start(r, c),
        State::CommentStartDash => comments::comment_start_dash(r, c),
        State::Comment => comments::comment(r, c),
        State::CommentLessThanSign => comments::less_than_sign(r, c),
        State::CommentLessThanSignBang => comments::less_than_sign_bang(r, c),
        State::CommentLessThanSignBangDash => comments::less_than_sign_bang_dash(r, c),
        State::CommentLessThanSignBangDashDash => comments::less_than_sign_bang_dash_dash(r, c),
        State::CommentEndDash => comments::end_dash(r, c),
        State::CommentEnd => comments::end(r, c),
        State::CommentEndBang => comments::end_bang(r, c),
        State::Doctype => doctypes::doctype(r, c),
        State::BeforeDoctypeName => doctypes::before_name(r, c),
        State::DoctypeName => doctypes::name(r, c),
        State::AfterDoctypeName => doctypes::after_name(r, c),
        State::AfterDoctypePublicKeyword => doctypes::after_public_keyword(r, c),
        State::BeforeDoctypePublicId => doctypes::before_public_id(r, c),
        State::DoctypePublicIdDoubleQuoted => doctypes::public_id(r, c, '"'),
        State::DoctypePublicIdSingleQuoted => doctypes::public_id(r, c, '\''),
        State::AfterDoctypePublicId => doctypes::after_public_id(r, c),
        State::BetweenDoctypePublicAndSystemIds => doctypes::between_ids(r, c),
        State::AfterDoctypeSystemKeyword => doctypes::after_system_keyword(r, c),
        State::BeforeDoctypeSystemId => doctypes::before_system_id(r, c),
        State::DoctypeSystemIdDoubleQuoted => doctypes::system_id(r, c, '"'),
        State::DoctypeSystemIdSingleQuoted => doctypes::system_id(r, c, '\''),
        State::AfterDoctypeSystemId => doctypes::after_system_id(r, c),
        State::BogusDoctype => doctypes::bogus(r, c),
        State::CDATASection => content::cdata_section(r, c),
        State::CDATASectionBracket => content::cdata_section_bracket(r, c),
        State::CDATASectionEnd => content::cdata_section_end(r, c),
        State::ProcessingInstructionOpen => instructions::open(r, c),
        State::ProcessingInstructionTarget => instructions::target(r, c),
        State::AfterProcessingInstructionTarget => instructions::after_target(r, c),
        State::ProcessingInstructionData => instructions::data(r, c),
        State::ProcessingInstructionQuestionable => instructions::questionable(r, c),
        State::CharacterReference => references::character_reference(r, c),
        State::NamedCharacterReference => references::named(r, c),
        State::AmbiguousAmpersand => references::ambiguous_ampersand(r, c),
        State::NumericCharacterReference => references::numeric(r, c),
        State::HexCharacterReferenceStart => references::hex_start(r, c),
        State::DecimalCharacterReferenceStart => references::decimal_start(r, c),
        State::HexCharacterReference => references::hex(r, c),
        State::DecimalCharacterReference => references::decimal(r, c),
        State::NumericCharacterReferenceEnd => references::numeric_end(m),
    }
}

/// One step: nothing more happens to a machine that is done; pending text is
/// emitted before anything is read.
pub open spec fn step(m: Machine) -> Outcome {
    if m.done {
        (m, None)
    } else if m.pending.len() > 0 {
        (
            Machine { pending: m.pending.drop_first(), ..m },
            Some(TokenView::Character(m.pending[0])),
        )
    } else {
        transition(m)
    }
}

} // verus!
