//! Script data and its escapes: `<!--` opens an escape, in which `<script` opens
//! a double escape.

use crate::chars::{alphabetic, lowercase, space, visible};
use crate::model::{content, Machine, Outcome};
use crate::types::State;
use vstd::prelude::*;

verus! {

/// After `<` in script data: `!` may open an escape.
pub open spec fn less_than_sign(m: Machine, c: Option<char>) -> Outcome {
    match c {
        Some('!') => m.queue(seq!['!']).at(State::ScriptDataEscapeStart).say('<'),
        _ => content::less_than_sign(m, c, State::ScriptDataEndTagOpen, State::ScriptData),
    }
}

/// Before a dash that leads to `dash` and without which there is no escape.
pub open spec fn escape_start(m: Machine, c: Option<char>, dash: State) -> Outcome {
    match c {
        Some('-') => m.at(dash).say('-'),
        _ => m.again(State::ScriptData),
    }
}

/// The state of an escape, or of a double escape.
pub open spec fn escape(double: bool) -> State {
    if double {
        State::ScriptDataDoubleEscaped
    } else {
        State::ScriptDataEscaped
    }
}

/// The state after one dash in an escape.
pub open spec fn escape_dash(double: bool) -> State {
    if double {
        State::ScriptDataDoubleEscapedDash
    } else {
        State::ScriptDataEscapedDash
    }
}

/// The state after two dashes in an escape.
pub open spec fn escape_dash_dash(double: bool) -> State {
    if double {
        State::ScriptDataDoubleEscapedDashDash
    } else {
        State::ScriptDataEscapedDashDash
    }
}

/// At `<` in an escape. In a double escape it is emitted at once; otherwise it may
/// yet open an end tag.
pub open spec fn escape_less_than(m: Machine, double: bool) -> Outcome {
    if double {
        m.at(State::ScriptDataDoubleEscapedLessThanSign).say('<')
    } else {
        m.go(State::ScriptDataEscapedLessThanSign)
    }
}

/// The text of an escape.
pub open spec fn escaped(m: Machine, c: Option<char>, double: bool) -> Outcome {
    match c {
        Some('-') => m.at(escape_dash(double)).say('-'),
        Some('<') => escape_less_than(m, double),
        _ => m.text(c),
    }
}

/// After one dash in an escape.
pub open spec fn escaped_dash(m: Machine, c: Option<char>, double: bool) -> Outcome {
    match c {
        Some('-') => m.at(escape_dash_dash(double)).say('-'),
        Some('<') => escape_less_than(m, double),
        Some(c) => m.at(escape(double)).say(visible(c)),
        None => m.finish(),
    }
}

/// After two dashes in an escape: `>` ends it.
pub open spec fn escaped_dash_dash(m: Machine, c: Option<char>, double: bool) -> Outcome {
    match c {
        Some('-') => m.say('-'),
        Some('<') => escape_less_than(m, double),
        Some('>') => m.at(State::ScriptData).say('>'),
        Some(c) => m.at(escape(double)).say(visible(c)),
        None => m.finish(),
    }
}

/// After `<` in an escape: `/` may open an end tag, a letter a double escape.
pub open spec fn escaped_less_than_sign(m: Machine, c: Option<char>) -> Outcome {
    match c {
        Some('/') => m.clear_buffer().go(State::ScriptDataEscapedEndTagOpen),
        Some(c) if alphabetic(c) => m.clear_buffer().at(
            State::ScriptDataDoubleEscapeStart,
        ).replaying().say('<'),
        _ => m.at(State::ScriptDataEscaped).replaying().say('<'),
    }
}

/// In the name after `<` or `</` in an escape. The name `script` leads to
/// `matched`, any other to `other`.
pub open spec fn double_escape(
    m: Machine,
    c: Option<char>,
    matched: State,
    other: State,
) -> Outcome {
    match c {
        Some(c) if space(c) || c == '/' || c == '>' => m.at(
            if m.buffer == "script"@ {
                matched
            } else {
                other
            },
        ).say(c),
        Some(c) if alphabetic(c) => m.keep(lowercase(c)).say(c),
        _ => m.again(other),
    }
}

/// After `<` in a double escape: `/` may end it.
pub open spec fn double_escaped_less_than_sign(m: Machine, c: Option<char>) -> Outcome {
    match c {
        Some('/') => m.clear_buffer().queue(seq!['/']).go(State::ScriptDataDoubleEscapeEnd),
        _ => m.again(State::ScriptDataDoubleEscaped),
    }
}

} // verus!
