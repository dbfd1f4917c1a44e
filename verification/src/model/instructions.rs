//! Processing instructions.

use crate::chars::{alphabetic, alphanumeric, lowercase_all, space};
use crate::model::{Machine, Outcome};
use crate::types::State;
use vstd::prelude::*;

verus! {

/// Reads what was taken for an instruction as a comment: `?` and the buffer, then
/// what follows.
pub open spec fn as_comment(m: Machine) -> Outcome {
    Machine { comment: seq!['?'] + m.buffer, ..m }.clear_buffer().again(State::BogusComment)
}

/// After `<?`.
pub open spec fn open(m: Machine, c: Option<char>) -> Outcome {
    match c {
        Some(c) if alphabetic(c) || c == '_' => m.again(State::ProcessingInstructionTarget),
        Some(_) => as_comment(m),
        None => m.finish(),
    }
}

/// Whether no instruction may have this target.
pub open spec fn disallowed(target: Seq<char>) -> bool {
    lowercase_all(target) == lowercase_all("xml"@) || lowercase_all(target) == lowercase_all(
        "xml-stylesheet"@,
    )
}

/// In the target, which is kept in the buffer.
pub open spec fn target(m: Machine, c: Option<char>) -> Outcome {
    match c {
        Some(c) if space(c) || c == '?' || c == '>' => if disallowed(m.buffer) {
            as_comment(m)
        } else {
            Machine { instruction: Some((m.buffer, seq![])), ..m }.clear_buffer().again(
                State::AfterProcessingInstructionTarget,
            )
        },
        Some(c) if alphanumeric(c) || c == '-' || c == '_' => m.keep(c).stay(),
        Some(_) => as_comment(m),
        None => m.finish(),
    }
}

/// Between the target and the data.
pub open spec fn after_target(m: Machine, c: Option<char>) -> Outcome {
    match c {
        Some(c) if space(c) => m.stay(),
        _ => m.again(State::ProcessingInstructionData),
    }
}

/// The machine with `c` at the end of the data of its instruction.
pub open spec fn data_char(m: Machine, c: char) -> Machine {
    Machine {
        instruction: match m.instruction {
            Some((target, data)) => Some((target, data.push(c))),
            None => None,
        },
        ..m
    }
}

/// In the data.
pub open spec fn data(m: Machine, c: Option<char>) -> Outcome {
    match c {
        Some('?') => m.go(State::ProcessingInstructionQuestionable),
        Some('>') => m.emit_instruction(),
        Some(c) => data_char(m, c).stay(),
        None => m.finish(),
    }
}

/// After `?` in the data: `>` closes the instruction.
pub open spec fn questionable(m: Machine, c: Option<char>) -> Outcome {
    match c {
        Some('>') => m.emit_instruction(),
        Some(_) => data_char(m, '?').again(State::ProcessingInstructionData),
        None => m.finish(),
    }
}

} // verus!
