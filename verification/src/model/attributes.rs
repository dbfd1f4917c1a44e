//! Attributes of tags.

use crate::chars::{lowercase, space, visible};
use crate::model::{Machine, Outcome};
use crate::types::State;
use vstd::prelude::*;

verus! {

/// Before the name of an attribute.
pub open spec fn before_name(m: Machine, c: Option<char>) -> Outcome {
    match c {
        Some(c) if space(c) => m.go(State::BeforeAttributeName),
        Some('/') => m.go(State::SelfClosingStartTag),
        Some('>') => m.emit_tag(),
        Some('=') => Machine { attr_name: m.attr_name.push('='), ..m }.go(State::AttributeName),
        Some(_) => m.again(State::AttributeName),
        None => m.abandon_tag(),
    }
}

/// In the name of an attribute.
pub open spec fn name(m: Machine, c: Option<char>) -> Outcome {
    match c {
        Some(c) if space(c) => m.go(State::AfterAttributeName),
        Some('/') => m.add_attribute().go(State::SelfClosingStartTag),
        Some('=') => m.go(State::BeforeAttributeValue),
        Some('>') => m.add_attribute().emit_tag(),
        Some(c) => Machine { attr_name: m.attr_name.push(lowercase(visible(c))), ..m }.go(
            State::AttributeName,
        ),
        None => m.abandon_tag(),
    }
}

/// After the name of an attribute.
pub open spec fn after_name(m: Machine, c: Option<char>) -> Outcome {
    match c {
        Some(c) if space(c) => m.go(State::AfterAttributeName),
        Some('/') => m.add_attribute().go(State::SelfClosingStartTag),
        Some('=') => m.go(State::BeforeAttributeValue),
        Some('>') => m.add_attribute().emit_tag(),
        Some(_) => m.add_attribute().again(State::AttributeName),
        None => m.abandon_tag(),
    }
}

/// After `=`, before the value of an attribute.
pub open spec fn before_value(m: Machine, c: Option<char>) -> Outcome {
    let fresh = Machine { attr_value: seq![], ..m };
    match c {
        Some(c) if space(c) => m.go(State::BeforeAttributeValue),
        Some('"') => fresh.go(State::AttributeValueDoubleQuoted),
        Some('\'') => fresh.go(State::AttributeValueSingleQuoted),
        Some('>') => m.add_attribute().emit_tag(),
        Some(_) => fresh.again(State::AttributeValueUnquoted),
        None => m.abandon_tag(),
    }
}

/// The machine with `c` at the end of the value of its attribute.
pub open spec fn value_char(m: Machine, c: char) -> Machine {
    Machine { attr_value: m.attr_value.push(c), ..m }
}

/// In a value that `quote` closes, read in `here`.
pub open spec fn quoted_value(m: Machine, c: Option<char>, quote: char, here: State) -> Outcome {
    match c {
        Some(c) if c == quote => m.go(State::AfterAttributeValueQuoted),
        Some('&') => m.reference(here),
        Some(c) => value_char(m, visible(c)).go(here),
        None => m.abandon_tag(),
    }
}

/// In a value without quotes.
pub open spec fn unquoted_value(m: Machine, c: Option<char>) -> Outcome {
    match c {
        Some(c) if space(c) => m.add_attribute().go(State::BeforeAttributeName),
        Some('&') => m.reference(State::AttributeValueUnquoted),
        Some('>') => m.add_attribute().emit_tag(),
        Some(c) => value_char(m, visible(c)).go(State::AttributeValueUnquoted),
        None => m.abandon_tag(),
    }
}

/// After the quote that closes a value.
pub open spec fn after_quoted_value(m: Machine, c: Option<char>) -> Outcome {
    match c {
        Some(c) if space(c) => m.add_attribute().go(State::BeforeAttributeName),
        Some('/') => m.add_attribute().go(State::SelfClosingStartTag),
        Some('>') => m.add_attribute().emit_tag(),
        Some(_) => m.add_attribute().again(State::BeforeAttributeName),
        None => m.abandon_tag(),
    }
}

} // verus!
