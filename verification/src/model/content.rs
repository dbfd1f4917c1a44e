//! Text content: data, RCDATA, RAWTEXT, script data, PLAINTEXT and CDATA
//! sections, with the end tags that close them.

use crate::chars::{alphabetic, lowercase, space};
use crate::model::{new_tag, Machine, Outcome};
use crate::types::{State, TagKind};
use vstd::prelude::*;

verus! {

/// Markup, character references and text; NUL is left as it is.
pub open spec fn data(m: Machine, c: Option<char>) -> Outcome {
    match c {
        Some('&') => m.reference(State::Data),
        Some('<') => m.go(State::TagOpen),
        Some(c) => m.say(c),
        None => m.finish(),
    }
}

/// Text with character references, up to the end tag that closes it.
pub open spec fn rcdata(m: Machine, c: Option<char>) -> Outcome {
    match c {
        Some('&') => m.reference(State::RCDATA),
        Some('<') => m.go(State::RCDATALessThanSign),
        _ => m.text(c),
    }
}

/// Text without character references, up to the end tag that closes it.
pub open spec fn rawtext(m: Machine, c: Option<char>) -> Outcome {
    match c {
        Some('<') => m.go(State::RAWTEXTLessThanSign),
        _ => m.text(c),
    }
}

/// The text of a script, up to the end tag that closes it.
pub open spec fn script_data(m: Machine, c: Option<char>) -> Outcome {
    match c {
        Some('<') => m.go(State::ScriptDataLessThanSign),
        _ => m.text(c),
    }
}

/// Text to the end of the input.
pub open spec fn plaintext(m: Machine, c: Option<char>) -> Outcome {
    m.text(c)
}

/// After `<` in text that is read in `home`: `/` may open the end tag.
pub open spec fn less_than_sign(m: Machine, c: Option<char>, open: State, home: State) -> Outcome {
    match c {
        Some('/') => m.clear_buffer().go(open),
        Some(_) => m.at(home).replaying().say('<'),
        None => m.at(home).say('<'),
    }
}

/// After `</` in text that is read in `home`: a letter begins the name of an end
/// tag.
pub open spec fn end_tag_open(m: Machine, c: Option<char>, name: State, home: State) -> Outcome {
    match c {
        Some(c) if alphabetic(c) => Machine {
            tag: Some(new_tag(TagKind::End, lowercase(c))),
            ..m.keep(c)
        }.go(name),
        _ => m.queue(seq!['<', '/']).again(home),
    }
}

/// In the name of an end tag, in text that is read in `home`. A name that closes
/// the content makes it a tag; any other is text after all.
pub open spec fn end_tag_name(m: Machine, c: Option<char>, home: State) -> Outcome {
    match c {
        Some(c) if space(c) && m.appropriate() => m.go(State::BeforeAttributeName),
        Some('/') if m.appropriate() => m.go(State::SelfClosingStartTag),
        Some('>') if m.appropriate() => m.clear_buffer().emit_tag(),
        Some(c) if alphabetic(c) => m.name_char(lowercase(c)).keep(c).stay(),
        _ => back_out(m, home),
    }
}

/// What looked like an end tag is emitted as text, and reading goes on in `home`.
pub open spec fn back_out(m: Machine, home: State) -> Outcome {
    Machine { tag: None, ..m }.queue(seq!['<', '/'] + m.buffer).clear_buffer().again(home)
}

/// The text of a CDATA section; NUL is left as it is.
pub open spec fn cdata_section(m: Machine, c: Option<char>) -> Outcome {
    match c {
        Some(']') => m.go(State::CDATASectionBracket),
        Some(c) => m.say(c),
        None => m.finish(),
    }
}

/// After `]` in a CDATA section.
pub open spec fn cdata_section_bracket(m: Machine, c: Option<char>) -> Outcome {
    match c {
        Some(']') => m.go(State::CDATASectionEnd),
        _ => m.at(State::CDATASection).replaying().say(']'),
    }
}

/// After `]]` in a CDATA section: `>` closes it.
pub open spec fn cdata_section_end(m: Machine, c: Option<char>) -> Outcome {
    match c {
        Some('>') => m.go(State::Data),
        Some(']') => m.say(']'),
        _ => m.queue(seq![']', ']']).again(State::CDATASection),
    }
}

} // verus!
