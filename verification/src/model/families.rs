//! The states, by what they read.

use crate::types::State;
use vstd::prelude::*;

verus! {

/// Text, and end tags that may close it.
pub open spec fn in_content(s: State) -> bool {
    match s {
        State::Data
        | State::RCDATA
        | State::RAWTEXT
        | State::ScriptData
        | State::PLAINTEXT
        | State::RCDATALessThanSign
        | State::RCDATAEndTagOpen
        | State::RCDATAEndTagName
        | State::RAWTEXTLessThanSign
        | State::RAWTEXTEndTagOpen
        | State::RAWTEXTEndTagName
        | State::CDATASection
        | State::CDATASectionBracket
        | State::CDATASectionEnd => true,
        _ => false,
    }
}

/// Script data beyond its plain text.
pub open spec fn in_script(s: State) -> bool {
    match s {
        State::ScriptDataLessThanSign
        | State::ScriptDataEndTagOpen
        | State::ScriptDataEndTagName
        | State::ScriptDataEscapeStart
        | State::ScriptDataEscapeStartDash
        | State::ScriptDataEscaped
        | State::ScriptDataEscapedDash
        | State::ScriptDataEscapedDashDash
        | State::ScriptDataEscapedLessThanSign
        | State::ScriptDataEscapedEndTagOpen
        | State::ScriptDataEscapedEndTagName
        | State::ScriptDataDoubleEscapeStart
        | State::ScriptDataDoubleEscaped
        | State::ScriptDataDoubleEscapedDash
        | State::ScriptDataDoubleEscapedDashDash
        | State::ScriptDataDoubleEscapedLessThanSign
        | State::ScriptDataDoubleEscapeEnd => true,
        _ => false,
    }
}

/// Tags, with their attributes.
pub open spec fn in_tag(s: State) -> bool {
    match s {
        State::TagName
        | State::SelfClosingStartTag
        | State::BeforeAttributeName
        | State::AttributeName
        | State::AfterAttributeName
        | State::BeforeAttributeValue
        | State::AttributeValueDoubleQuoted
        | State::AttributeValueSingleQuoted
        | State::AttributeValueUnquoted
        | State::AfterAttributeValueQuoted => true,
        _ => false,
    }
}

/// What `<` opens, until it is known what that is.
pub open spec fn in_opening(s: State) -> bool {
    match s {
        State::TagOpen | State::EndTagOpen | State::MarkupDeclarationOpen => true,
        _ => false,
    }
}

/// Comments.
pub open spec fn in_comment(s: State) -> bool {
    match s {
        State::BogusComment
        | State::CommentStart
        | State::CommentStartDash
        | State::Comment
        | State::CommentLessThanSign
        | State::CommentLessThanSignBang
        | State::CommentLessThanSignBangDash
        | State::CommentLessThanSignBangDashDash
        | State::CommentEndDash
        | State::CommentEnd
        | State::CommentEndBang => true,
        _ => false,
    }
}

/// DOCTYPE declarations.
pub open spec fn in_doctype(s: State) -> bool {
    match s {
        State::Doctype
        | State::BeforeDoctypeName
        | State::DoctypeName
        | State::AfterDoctypeName
        | State::AfterDoctypePublicKeyword
        | State::BeforeDoctypePublicId
        | State::DoctypePublicIdDoubleQuoted
        | State::DoctypePublicIdSingleQuoted
        | State::AfterDoctypePublicId
        | State::BetweenDoctypePublicAndSystemIds
        | State::AfterDoctypeSystemKeyword
        | State::BeforeDoctypeSystemId
        | State::DoctypeSystemIdDoubleQuoted
        | State::DoctypeSystemIdSingleQuoted
        | State::AfterDoctypeSystemId
        | State::BogusDoctype => true,
        _ => false,
    }
}

/// Processing instructions.
pub open spec fn in_instruction(s: State) -> bool {
    match s {
        State::ProcessingInstructionOpen
        | State::ProcessingInstructionTarget
        | State::AfterProcessingInstructionTarget
        | State::ProcessingInstructionData
        | State::ProcessingInstructionQuestionable => true,
        _ => false,
    }
}

/// Character references.
pub open spec fn in_reference(s: State) -> bool {
    match s {
        State::CharacterReference
        | State::NamedCharacterReference
        | State::AmbiguousAmpersand
        | State::NumericCharacterReference
        | State::HexCharacterReferenceStart
        | State::DecimalCharacterReferenceStart
        | State::HexCharacterReference
        | State::DecimalCharacterReference
        | State::NumericCharacterReferenceEnd => true,
        _ => false,
    }
}

} // verus!
