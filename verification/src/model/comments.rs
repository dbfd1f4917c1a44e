//! Comments.

use crate::chars::visible;
use crate::model::{Machine, Outcome};
use crate::types::State;
use vstd::prelude::*;

verus! {

/// In a comment that should not be there: `>` closes it.
pub open spec fn bogus_comment(m: Machine, c: Option<char>) -> Outcome {
    match c {
        Some('>') | None => m.emit_comment(),
        Some(c) => m.note(visible(c)).stay(),
    }
}

/// After `<!--`.
pub open spec fn comment_start(m: Machine, c: Option<char>) -> Outcome {
    match c {
        Some('-') => m.go(State::CommentStartDash),
        Some('>') | None => Machine { comment: seq![], ..m }.emit_comment(),
        Some('<') => m.note('<').go(State::CommentLessThanSign),
        Some(c) => m.note(visible(c)).go(State::Comment),
    }
}

/// After `<!---`.
pub open spec fn comment_start_dash(m: Machine, c: Option<char>) -> Outcome {
    match c {
        Some('-') => m.go(State::CommentEnd),
        Some('>') | None => Machine { comment: seq![], ..m }.emit_comment(),
        Some(_) => m.note('-').again(State::Comment),
    }
}

/// In the text of a comment.
pub open spec fn comment(m: Machine, c: Option<char>) -> Outcome {
    match c {
        Some('<') => m.note('<').go(State::CommentLessThanSign),
        Some('-') => m.go(State::CommentEndDash),
        Some(c) => m.note(visible(c)).stay(),
        None => m.emit_comment(),
    }
}

/// After `<` in a comment.
pub open spec fn less_than_sign(m: Machine, c: Option<char>) -> Outcome {
    match c {
        Some('!') => m.note('!').go(State::CommentLessThanSignBang),
        Some('<') => m.note('<').stay(),
        Some(_) => m.again(State::Comment),
        None => m.emit_comment(),
    }
}

/// After `<!` in a comment.
pub open spec fn less_than_sign_bang(m: Machine, c: Option<char>) -> Outcome {
    match c {
        Some('-') => m.go(State::CommentLessThanSignBangDash),
        Some(_) => m.again(State::Comment),
        None => m.emit_comment(),
    }
}

/// After `<!-` in a comment.
pub open spec fn less_than_sign_bang_dash(m: Machine, c: Option<char>) -> Outcome {
    match c {
        Some('-') => m.go(State::CommentLessThanSignBangDashDash),
        Some(_) => m.note('-').again(State::Comment),
        None => m.emit_comment(),
    }
}

/// After `<!--` in a comment.
pub open spec fn less_than_sign_bang_dash_dash(m: Machine, c: Option<char>) -> Outcome {
    match c {
        Some('>') | None => m.emit_comment(),
        Some(_) => m.again(State::CommentEnd),
    }
}

/// After `-` in a comment.
pub open spec fn end_dash(m: Machine, c: Option<char>) -> Outcome {
    match c {
        Some('-') => m.go(State::CommentEnd),
        Some(_) => m.note('-').again(State::Comment),
        None => m.emit_comment(),
    }
}

/// After `--` in a comment: `>` closes it.
pub open spec fn end(m: Machine, c: Option<char>) -> Outcome {
    match c {
        Some('>') | None => m.emit_comment(),
        Some('!') => m.go(State::CommentEndBang),
        Some('-') => m.note('-').stay(),
        Some(_) => m.note('-').note('-').again(State::Comment),
    }
}

/// After `--!` in a comment: `>` closes it.
pub open spec fn end_bang(m: Machine, c: Option<char>) -> Outcome {
    let kept = m.note('-').note('-').note('!');
    match c {
        Some('>') | None => m.emit_comment(),
        Some('-') => kept.go(State::CommentEndDash),
        Some(_) => kept.again(State::Comment),
    }
}

} // verus!
