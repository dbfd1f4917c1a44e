//! Tokens, the states of the tokenizer, and their mathematical views.

use vstd::prelude::*;

verus! {

/// A token emitted by the tokenizer.
#[derive(Debug, Clone, PartialEq)]
pub enum Token {
    /// A DOCTYPE declaration.
    Doctype(DoctypeToken),
    /// A start or end tag, told apart by [`TagToken::kind`].
    Tag(TagToken),
    /// A comment, with its text.
    Comment(String),
    /// A single code point of text.
    Character(char),
    /// The end of the input.
    EOF,
    /// A processing instruction, with its target and its data.
    ProcessingInstruction { target: String, data: String },
}

/// Distinguishes start tags from end tags.
#[derive(Debug, Clone, Copy, PartialEq, Eq, Structural)]
pub enum TagKind {
    /// `<tag>`
    Start,
    /// `</tag>`
    End,
}

/// A start or end tag.
#[derive(Debug, Clone, PartialEq)]
pub struct TagToken {
    /// Whether this is a start tag or an end tag.
    pub kind: TagKind,
    /// The tag name, with ASCII letters in lower case.
    pub name: String,
    /// Attribute name-value pairs, in source order.
    pub attrs: Vec<(String, String)>,
    /// Whether the tag ends with `/>`.
    pub self_closing: bool,
}

/// A DOCTYPE declaration.
#[derive(Debug, Clone, PartialEq)]
pub struct DoctypeToken {
    /// The DOCTYPE name (such as "html"), or `None` if absent.
    pub name: Option<String>,
    /// The public identifier, or `None` if absent.
    pub public_id: Option<String>,
    /// The system identifier, or `None` if absent.
    pub system_id: Option<String>,
    /// Whether the declaration asks for quirks mode.
    pub force_quirks: bool,
}

/// The states of the tokenizer.
#[derive(Debug, Clone, Copy, PartialEq, Eq, Structural)]
pub enum State {
    // Content model states.
    /// Data state.
    Data,
    /// RCDATA state.
    RCDATA,
    /// RAWTEXT state.
    RAWTEXT,
    /// Script data state.
    ScriptData,
    /// PLAINTEXT state.
    PLAINTEXT,

    // Tag open / close states.
    /// Tag open state.
    TagOpen,
    /// End tag open state.
    EndTagOpen,
    /// Tag name state.
    TagName,

    // RCDATA states.
    /// RCDATA less-than sign state.
    RCDATALessThanSign,
    /// RCDATA end tag open state.
    RCDATAEndTagOpen,
    /// RCDATA end tag name state.
    RCDATAEndTagName,

    // RAWTEXT states.
    /// RAWTEXT less-than sign state.
    RAWTEXTLessThanSign,
    /// RAWTEXT end tag open state.
    RAWTEXTEndTagOpen,
    /// RAWTEXT end tag name state.
    RAWTEXTEndTagName,

    // Script data states.
    /// Script data less-than sign state.
    ScriptDataLessThanSign,
    /// Script data end tag open state.
    ScriptDataEndTagOpen,
    /// Script data end tag name state.
    ScriptDataEndTagName,
    /// Script data escape start state.
    ScriptDataEscapeStart,
    /// Script data escape start dash state.
    ScriptDataEscapeStartDash,
    /// Script data escaped state.
    ScriptDataEscaped,
    /// Script data escaped dash state.
    ScriptDataEscapedDash,
    /// Script data escaped dash dash state.
    ScriptDataEscapedDashDash,
    /// Script data escaped less-than sign state.
    ScriptDataEscapedLessThanSign,
    /// Script data escaped end tag open state.
    ScriptDataEscapedEndTagOpen,
    /// Script data escaped end tag name state.
    ScriptDataEscapedEndTagName,
    /// Script data double escape start state.
    ScriptDataDoubleEscapeStart,
    /// Script data double escaped state.
    ScriptDataDoubleEscaped,
    /// Script data double escaped dash state.
    ScriptDataDoubleEscapedDash,
    /// Script data double escaped dash dash state.
    ScriptDataDoubleEscapedDashDash,
    /// Script data double escaped less-than sign state.
    ScriptDataDoubleEscapedLessThanSign,
    /// Script data double escape end state.
    ScriptDataDoubleEscapeEnd,

    // Attribute states.
    /// Before attribute name state.
    BeforeAttributeName,
    /// Attribute name state.
    AttributeName,
    /// After attribute name state.
    AfterAttributeName,
    /// Before attribute value state.
    BeforeAttributeValue,
    /// Attribute value (double-quoted) state.
    AttributeValueDoubleQuoted,
    /// Attribute value (single-quoted) state.
    AttributeValueSingleQuoted,
    /// Attribute value (unquoted) state.
    AttributeValueUnquoted,
    /// After attribute value (quoted) state.
    AfterAttributeValueQuoted,
    /// Self-closing start tag state.
    SelfClosingStartTag,

    // Comment states.
    /// Bogus comment state.
    BogusComment,
    /// Markup declaration open state.
    MarkupDeclarationOpen,
    /// Comment start state.
    CommentStart,
    /// Comment start dash state.
    CommentStartDash,
    /// Comment state.
    Comment,
    /// Comment less-than sign state.
    CommentLessThanSign,
    /// Comment less-than sign bang state.
    CommentLessThanSignBang,
    /// Comment less-than sign bang dash state.
    CommentLessThanSignBangDash,
    /// Comment less-than sign bang dash dash state.
    CommentLessThanSignBangDashDash,
    /// Comment end dash state.
    CommentEndDash,
    /// Comment end state.
    CommentEnd,
    /// Comment end bang state.
    CommentEndBang,

    // DOCTYPE states.
    /// DOCTYPE state.
    Doctype,
    /// Before DOCTYPE name state.
    BeforeDoctypeName,
    /// DOCTYPE name state.
    DoctypeName,
    /// After DOCTYPE name state.
    AfterDoctypeName,
    /// After DOCTYPE public keyword state.
    AfterDoctypePublicKeyword,
    /// Before DOCTYPE public identifier state.
    BeforeDoctypePublicId,
    /// DOCTYPE public identifier (double-quoted) state.
    DoctypePublicIdDoubleQuoted,
    /// DOCTYPE public identifier (single-quoted) state.
    DoctypePublicIdSingleQuoted,
    /// After DOCTYPE public identifier state.
    AfterDoctypePublicId,
    /// Between DOCTYPE public and system identifiers state.
    BetweenDoctypePublicAndSystemIds,
    /// After DOCTYPE system keyword state.
    AfterDoctypeSystemKeyword,
    /// Before DOCTYPE system identifier state.
    BeforeDoctypeSystemId,
    /// DOCTYPE system identifier (double-quoted) state.
    DoctypeSystemIdDoubleQuoted,
    /// DOCTYPE system identifier (single-quoted) state.
    DoctypeSystemIdSingleQuoted,
    /// After DOCTYPE system identifier state.
    AfterDoctypeSystemId,
    /// Bogus DOCTYPE state.
    BogusDoctype,

    // CDATA section states.
    /// CDATA section state.
    CDATASection,
    /// CDATA section bracket state.
    CDATASectionBracket,
    /// CDATA section end state.
    CDATASectionEnd,

    // Processing instruction states.
    /// Processing instruction open state.
    ProcessingInstructionOpen,
    /// Processing instruction target state.
    ProcessingInstructionTarget,
    /// After processing instruction target state.
    AfterProcessingInstructionTarget,
    /// Processing instruction data state.
    ProcessingInstructionData,
    /// Processing instruction questionable state.
    ProcessingInstructionQuestionable,

    // Character reference states.
    /// Character reference state.
    CharacterReference,
    /// Named character reference state.
    NamedCharacterReference,
    /// Ambiguous ampersand state.
    AmbiguousAmpersand,
    /// Numeric character reference state.
    NumericCharacterReference,
    /// Hexadecimal character reference start state.
    HexCharacterReferenceStart,
    /// Decimal character reference start state.
    DecimalCharacterReferenceStart,
    /// Hexadecimal character reference state.
    HexCharacterReference,
    /// Decimal character reference state.
    DecimalCharacterReference,
    /// Numeric character reference end state.
    NumericCharacterReferenceEnd,
}

/// What a [`TagToken`] stands for.
#[verifier::ext_equal]
pub struct TagView {
    pub kind: TagKind,
    pub name: Seq<char>,
    pub attrs: Seq<(Seq<char>, Seq<char>)>,
    pub self_closing: bool,
}

/// What a [`DoctypeToken`] stands for.
#[verifier::ext_equal]
pub struct DoctypeView {
    pub name: Option<Seq<char>>,
    pub public_id: Option<Seq<char>>,
    pub system_id: Option<Seq<char>>,
    pub force_quirks: bool,
}

/// What a [`Token`] stands for.
#[verifier::ext_equal]
pub enum TokenView {
    Doctype(DoctypeView),
    Tag(TagView),
    Comment(Seq<char>),
    Character(char),
    EOF,
    ProcessingInstruction { target: Seq<char>, data: Seq<char> },
}

/// The text of an optional string.
pub open spec fn text_of(s: Option<String>) -> Option<Seq<char>> {
    match s {
        Some(s) => Some(s@),
        None => None,
    }
}

/// The names and values of a list of attributes.
pub open spec fn attributes_of(attrs: Seq<(String, String)>) -> Seq<(Seq<char>, Seq<char>)> {
    Seq::new(attrs.len(), |i: int| (attrs[i].0@, attrs[i].1@))
}

impl View for TagToken {
    type V = TagView;

    open spec fn view(&self) -> TagView {
        TagView {
            kind: self.kind,
            name: self.name@,
            attrs: attributes_of(self.attrs@),
            self_closing: self.self_closing,
        }
    }
}

impl View for DoctypeToken {
    type V = DoctypeView;

    open spec fn view(&self) -> DoctypeView {
        DoctypeView {
            name: text_of(self.name),
            public_id: text_of(self.public_id),
            system_id: text_of(self.system_id),
            force_quirks: self.force_quirks,
        }
    }
}

impl View for Token {
    type V = TokenView;

    open spec fn view(&self) -> TokenView {
        match self {
            Token::Doctype(d) => TokenView::Doctype(d@),
            Token::Tag(t) => TokenView::Tag(t@),
            Token::Comment(s) => TokenView::Comment(s@),
            Token::Character(c) => TokenView::Character(*c),
            Token::EOF => TokenView::EOF,
            Token::ProcessingInstruction { target, data } => TokenView::ProcessingInstruction {
                target: target@,
                data: data@,
            },
        }
    }
}

/// The view of a token that may be absent.
pub open spec fn token_of(t: Option<Token>) -> Option<TokenView> {
    match t {
        Some(t) => Some(t@),
        None => None,
    }
}

/// The view of a tag that may be absent.
pub open spec fn tag_of(t: Option<TagToken>) -> Option<TagView> {
    match t {
        Some(t) => Some(t@),
        None => None,
    }
}

} // verus!
