//! DOCTYPE declarations.

use crate::chars::{lowercase, space, visible};
use crate::model::{Machine, Outcome};
use crate::types::{DoctypeView, State};
use vstd::prelude::*;

verus! {

/// After `<!DOCTYPE`.
pub open spec fn doctype(m: Machine, c: Option<char>) -> Outcome {
    match c {
        Some(c) if space(c) => m.stay(),
        Some(_) => m.again(State::BeforeDoctypeName),
        None => m.quirky().emit_doctype(),
    }
}

/// Before the name.
pub open spec fn before_name(m: Machine, c: Option<char>) -> Outcome {
    match c {
        Some(c) if space(c) => m.stay(),
        Some('>') | None => m.quirky().emit_doctype(),
        Some(c) => Machine {
            doctype: DoctypeView { name: Some(seq![lowercase(visible(c))]), ..m.doctype },
            ..m
        }.go(State::DoctypeName),
    }
}

/// The text that `c` is added to, where there is one.
pub open spec fn extended(text: Option<Seq<char>>, c: char) -> Option<Seq<char>> {
    match text {
        Some(s) => Some(s.push(c)),
        None => None,
    }
}

/// In the name.
pub open spec fn name(m: Machine, c: Option<char>) -> Outcome {
    match c {
        Some(c) if space(c) => m.go(State::AfterDoctypeName),
        Some('>') => m.emit_doctype(),
        Some(c) => Machine {
            doctype: DoctypeView {
                name: extended(m.doctype.name, lowercase(visible(c))),
                ..m.doctype
            },
            ..m
        }.stay(),
        None => m.quirky().emit_doctype(),
    }
}

/// After the name: `PUBLIC` or `SYSTEM`, in any case, announces an identifier.
pub open spec fn after_name(m: Machine, c: Option<char>) -> Outcome {
    match c {
        Some(c) if space(c) => m.stay(),
        Some('>') => m.emit_doctype(),
        Some(_) => if m.spells_at(m.pos - 1, "PUBLIC"@) {
            Machine { pos: m.pos + 5, ..m }.go(State::AfterDoctypePublicKeyword)
        } else if m.spells_at(m.pos - 1, "SYSTEM"@) {
            Machine { pos: m.pos + 5, ..m }.go(State::AfterDoctypeSystemKeyword)
        } else {
            m.quirky().again(State::BogusDoctype)
        },
        None => m.quirky().emit_doctype(),
    }
}

/// The machine with an empty public identifier.
pub open spec fn open_public_id(m: Machine) -> Machine {
    Machine { doctype: DoctypeView { public_id: Some(seq![]), ..m.doctype }, ..m }
}

/// The machine with an empty system identifier.
pub open spec fn open_system_id(m: Machine) -> Machine {
    Machine { doctype: DoctypeView { system_id: Some(seq![]), ..m.doctype }, ..m }
}

/// After `PUBLIC`, where a quote opens the public identifier.
pub open spec fn after_public_keyword(m: Machine, c: Option<char>) -> Outcome {
    match c {
        Some(c) if space(c) => m.go(State::BeforeDoctypePublicId),
        _ => before_public_id(m, c),
    }
}

/// Before the public identifier.
pub open spec fn before_public_id(m: Machine, c: Option<char>) -> Outcome {
    match c {
        Some(c) if space(c) => m.stay(),
        Some('"') => open_public_id(m).go(State::DoctypePublicIdDoubleQuoted),
        Some('\'') => open_public_id(m).go(State::DoctypePublicIdSingleQuoted),
        Some('>') | None => m.quirky().emit_doctype(),
        Some(_) => m.quirky().again(State::BogusDoctype),
    }
}

/// In the public identifier, which `quote` closes.
pub open spec fn public_id(m: Machine, c: Option<char>, quote: char) -> Outcome {
    match c {
        Some(c) if c == quote => m.go(State::AfterDoctypePublicId),
        Some('>') | None => m.quirky().emit_doctype(),
        Some(c) => Machine {
            doctype: DoctypeView {
                public_id: extended(m.doctype.public_id, visible(c)),
                ..m.doctype
            },
            ..m
        }.stay(),
    }
}

/// After the public identifier.
pub open spec fn after_public_id(m: Machine, c: Option<char>) -> Outcome {
    match c {
        Some(c) if space(c) => m.go(State::BetweenDoctypePublicAndSystemIds),
        _ => between_ids(m, c),
    }
}

/// Between the two identifiers, of which the second may be absent.
pub open spec fn between_ids(m: Machine, c: Option<char>) -> Outcome {
    match c {
        Some('>') => m.emit_doctype(),
        _ => before_system_id(m, c),
    }
}

/// After `SYSTEM`, where a quote opens the system identifier.
pub open spec fn after_system_keyword(m: Machine, c: Option<char>) -> Outcome {
    match c {
        Some(c) if space(c) => m.go(State::BeforeDoctypeSystemId),
        _ => before_system_id(m, c),
    }
}

/// Before the system identifier.
pub open spec fn before_system_id(m: Machine, c: Option<char>) -> Outcome {
    match c {
        Some(c) if space(c) => m.stay(),
        Some('"') => open_system_id(m).go(State::DoctypeSystemIdDoubleQuoted),
        Some('\'') => open_system_id(m).go(State::DoctypeSystemIdSingleQuoted),
        Some('>') | None => m.quirky().emit_doctype(),
        Some(_) => m.quirky().again(State::BogusDoctype),
    }
}

/// In the system identifier, which `quote` closes.
pub open spec fn system_id(m: Machine, c: Option<char>, quote: char) -> Outcome {
    match c {
        Some(c) if c == quote => m.go(State::AfterDoctypeSystemId),
        Some('>') | None => m.quirky().emit_doctype(),
        Some(c) => Machine {
            doctype: DoctypeView {
                system_id: extended(m.doctype.system_id, visible(c)),
                ..m.doctype
            },
            ..m
        }.stay(),
    }
}

/// After the system identifier.
pub open spec fn after_system_id(m: Machine, c: Option<char>) -> Outcome {
    match c {
        Some(c) if space(c) => m.stay(),
        Some('>') => m.emit_doctype(),
        Some(_) => m.again(State::BogusDoctype),
        None => m.quirky().emit_doctype(),
    }
}

/// In what is skipped up to the end of the declaration.
pub open spec fn bogus(m: Machine, c: Option<char>) -> Outcome {
    match c {
        Some('>') | None => m.emit_doctype(),
        Some(_) => m.stay(),
    }
}

} // verus!
