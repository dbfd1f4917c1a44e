//! Tags, and what else `<` may open.

use crate::chars::{alphabetic, lowercase, space, visible};
use crate::model::{blank_doctype, new_tag, Machine, Outcome};
use crate::types::{State, TagKind, TagView};
use vstd::prelude::*;

verus! {

/// After `<`.
pub open spec fn tag_open(m: Machine, c: Option<char>) -> Outcome {
    match c {
        Some('!') => m.go(State::MarkupDeclarationOpen),
        Some('/') => m.go(State::EndTagOpen),
        Some('?') => m.clear_buffer().go(State::ProcessingInstructionOpen),
        Some(c) if alphabetic(c) => Machine {
            tag: Some(new_tag(TagKind::Start, lowercase(c))),
            ..m
        }.go(State::TagName),
        Some(_) => m.at(State::Data).replaying().say('<'),
        None => m.at(State::Data).say('<'),
    }
}

/// After `</`.
pub open spec fn end_tag_open(m: Machine, c: Option<char>) -> Outcome {
    match c {
        Some('>') => m.go(State::Data),
        Some(c) if alphabetic(c) => Machine {
            tag: Some(new_tag(TagKind::End, lowercase(c))),
            ..m
        }.go(State::TagName),
        Some(_) => Machine { comment: seq![], ..m }.again(State::BogusComment),
        None => m.queue(seq!['<', '/']).again(State::Data),
    }
}

/// In the name of a tag.
pub open spec fn tag_name(m: Machine, c: Option<char>) -> Outcome {
    match c {
        Some(c) if space(c) => m.go(State::BeforeAttributeName),
        Some('/') => m.go(State::SelfClosingStartTag),
        Some('>') => m.emit_tag(),
        Some(c) => m.name_char(lowercase(visible(c))).go(State::TagName),
        None => m.abandon_tag(),
    }
}

/// After `/` in a tag: `>` closes the tag as self-closing.
pub open spec fn self_closing_start_tag(m: Machine, c: Option<char>) -> Outcome {
    match c {
        Some('>') => Machine {
            tag: match m.tag {
                Some(t) => Some(TagView { self_closing: true, ..t }),
                None => None,
            },
            ..m
        }.emit_tag(),
        Some(_) => m.again(State::BeforeAttributeName),
        None => m.abandon_tag(),
    }
}

/// After `<!`: a comment, a DOCTYPE or a CDATA section, told by the words that
/// open them; anything else is a comment that should not be there.
pub open spec fn markup_declaration_open(m: Machine) -> Outcome {
    if m.holds_at(m.pos, "--"@) {
        Machine { pos: m.pos + 2, comment: seq![], ..m }.go(State::CommentStart)
    } else if m.spells_at(m.pos, "DOCTYPE"@) {
        Machine { pos: m.pos + 7, doctype: blank_doctype(), ..m }.go(State::Doctype)
    } else if m.holds_at(m.pos, "[CDATA["@) {
        if m.foreign {
            Machine { pos: m.pos + 7, ..m }.go(State::CDATASection)
        } else {
            Machine { pos: m.pos + 7, comment: "[CDATA["@, ..m }.go(State::BogusComment)
        }
    } else {
        m.go(State::BogusComment)
    }
}

} // verus!
