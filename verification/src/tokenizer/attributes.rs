//! Attributes of tags.

use crate::chars::{is_space, to_lowercase, to_visible};
use crate::model::{attributes, has_attribute};
use crate::strings::take;
use crate::tokenizer::HtmlTokenizer;
use crate::types::{attributes_of, token_of, State, Token};
use vstd::prelude::*;

verus! {

/// Whether one of `attrs` is called `name`.
fn is_attribute_name(attrs: &Vec<(String, String)>, name: &String) -> (r: bool)
    ensures
        r == has_attribute(attributes_of(attrs@), name@),
{
    let mut i: usize = 0;
    while i < attrs.len()
        invariant
            i <= attrs@.len(),
            forall|j: int|
                0 <= j < i ==> (#[trigger] attributes_of(attrs@)[j]).0 != name@,
        decreases attrs@.len() - i,
    {
        if attrs[i].0 == *name {
            assert(attributes_of(attrs@)[i as int].0 == name@);
            return true;
        }
        i = i + 1;
    }
    false
}

impl HtmlTokenizer {
    /// Adds the attribute to the tag, unless the tag has one of that name.
    fn emit_current_attribute(&mut self)
        ensures
            final(self)@ == old(self)@.add_attribute(),
    {
        if let Some(tag) = &mut self.current_tag {
            let name = take(&mut self.current_attr_name);
            let value = take(&mut self.current_attr_value);
            let ghost attrs = attributes_of(tag.attrs@);
            if !is_attribute_name(&tag.attrs, &name) {
                tag.attrs.push((name, value));
                assert(attributes_of(tag.attrs@) =~= attrs.push((name@, value@)));
            }
        }
    }

    /// Before attribute name state.
    pub(super) fn handle_before_attribute_name_state(&mut self) -> (r: Option<Token>)
        requires
            old(self)@.wf(),
            old(self)@.tag is Some || old(self)@.next() != Some('>'),
        ensures
            (final(self)@, token_of(r)) == attributes::before_name(
                old(self)@.read(),
                old(self)@.next(),
            ),
    {
        match self.next_char() {
            Some(c) if is_space(c) => {
                self.state = State::BeforeAttributeName;
                None
            },
            Some('/') => {
                self.state = State::SelfClosingStartTag;
                None
            },
            Some('>') => self.emit_current_tag(),
            Some('=') => {
                self.current_attr_name.push('=');
                self.state = State::AttributeName;
                None
            },
            Some(_) => {
                self.state = State::AttributeName;
                self.reconsume = true;
                None
            },
            None => self.abandon_tag(),
        }
    }

    /// Attribute name state.
    pub(super) fn handle_attribute_name_state(&mut self) -> (r: Option<Token>)
        requires
            old(self)@.wf(),
            old(self)@.tag is Some || old(self)@.next() != Some('>'),
        ensures
            (final(self)@, token_of(r)) == attributes::name(old(self)@.read(), old(self)@.next()),
    {
        match self.next_char() {
            Some(c) if is_space(c) => {
                self.state = State::AfterAttributeName;
                None
            },
            Some('/') => {
                self.emit_current_attribute();
                self.state = State::SelfClosingStartTag;
                None
            },
            Some('=') => {
                self.state = State::BeforeAttributeValue;
                None
            },
            Some('>') => {
                self.emit_current_attribute();
                self.emit_current_tag()
            },
            Some(c) => {
                self.current_attr_name.push(to_lowercase(to_visible(c)));
                self.state = State::AttributeName;
                None
            },
            None => self.abandon_tag(),
        }
    }

    /// After attribute name state.
    pub(super) fn handle_after_attribute_name_state(&mut self) -> (r: Option<Token>)
        requires
            old(self)@.wf(),
            old(self)@.tag is Some || old(self)@.next() != Some('>'),
        ensures
            (final(self)@, token_of(r)) == attributes::after_name(
                old(self)@.read(),
                old(self)@.next(),
            ),
    {
        match self.next_char() {
            Some(c) if is_space(c) => {
                self.state = State::AfterAttributeName;
                None
            },
            Some('/') => {
                self.emit_current_attribute();
                self.state = State::SelfClosingStartTag;
                None
            },
            Some('=') => {
                self.state = State::BeforeAttributeValue;
                None
            },
            Some('>') => {
                self.emit_current_attribute();
                self.emit_current_tag()
            },
            Some(_) => {
                self.emit_current_attribute();
                self.state = State::AttributeName;
                self.reconsume = true;
                None
            },
            None => self.abandon_tag(),
        }
    }

    /// Before attribute value state.
    pub(super) fn handle_before_attribute_value_state(&mut self) -> (r: Option<Token>)
        requires
            old(self)@.wf(),
            old(self)@.tag is Some || old(self)@.next() != Some('>'),
        ensures
            (final(self)@, token_of(r)) == attributes::before_value(
                old(self)@.read(),
                old(self)@.next(),
            ),
    {
        match self.next_char() {
            Some(c) if is_space(c) => {
                self.state = State::BeforeAttributeValue;
                None
            },
            Some('"') => {
                self.current_attr_value = String::new();
                self.state = State::AttributeValueDoubleQuoted;
                None
            },
            Some('\'') => {
                self.current_attr_value = String::new();
                self.state = State::AttributeValueSingleQuoted;
                None
            },
            Some('>') => {
                self.emit_current_attribute();
                self.emit_current_tag()
            },
            Some(_) => {
                self.current_attr_value = String::new();
                self.state = State::AttributeValueUnquoted;
                self.reconsume = true;
                None
            },
            None => self.abandon_tag(),
        }
    }

    /// In a value that `quote` closes, read in `here`.
    fn quoted_attribute_value(&mut self, quote: char, here: State) -> (r: Option<Token>)
        requires
            old(self)@.wf(),
        ensures
            (final(self)@, token_of(r)) == attributes::quoted_value(
                old(self)@.read(),
                old(self)@.next(),
                quote,
                here,
            ),
    {
        match self.next_char() {
            Some(c) if c == quote => {
                self.state = State::AfterAttributeValueQuoted;
                None
            },
            Some('&') => {
                self.return_state = Some(here);
                self.state = State::CharacterReference;
                None
            },
            Some(c) => {
                self.current_attr_value.push(to_visible(c));
                self.state = here;
                None
            },
            None => self.abandon_tag(),
        }
    }

    /// Attribute value (double-quoted) state.
    pub(super) fn handle_attribute_value_double_quoted_state(&mut self) -> (r: Option<Token>)
        requires
            old(self)@.wf(),
        ensures
            (final(self)@, token_of(r)) == attributes::quoted_value(
                old(self)@.read(),
                old(self)@.next(),
                '"',
                State::AttributeValueDoubleQuoted,
            ),
    {
        self.quoted_attribute_value('"', State::AttributeValueDoubleQuoted)
    }

    /// Attribute value (single-quoted) state.
    pub(super) fn handle_attribute_value_single_quoted_state(&mut self) -> (r: Option<Token>)
        requires
            old(self)@.wf(),
        ensures
            (final(self)@, token_of(r)) == attributes::quoted_value(
                old(self)@.read(),
                old(self)@.next(),
                '\'',
                State::AttributeValueSingleQuoted,
            ),
    {
        self.quoted_attribute_value('\'', State::AttributeValueSingleQuoted)
    }

    /// Attribute value (unquoted) state.
    pub(super) fn handle_attribute_value_unquoted_state(&mut self) -> (r: Option<Token>)
        requires
            old(self)@.wf(),
            old(self)@.tag is Some || old(self)@.next() != Some('>'),
        ensures
            (final(self)@, token_of(r)) == attributes::unquoted_value(
                old(self)@.read(),
                old(self)@.next(),
            ),
    {
        match self.next_char() {
            Some(c) if is_space(c) => {
                self.emit_current_attribute();
                self.state = State::BeforeAttributeName;
                None
            },
            Some('&') => {
                self.return_state = Some(State::AttributeValueUnquoted);
                self.state = State::CharacterReference;
                None
            },
            Some('>') => {
                self.emit_current_attribute();
                self.emit_current_tag()
            },
            Some(c) => {
                self.current_attr_value.push(to_visible(c));
                self.state = State::AttributeValueUnquoted;
                None
            },
            None => self.abandon_tag(),
        }
    }

    /// After attribute value (quoted) state.
    pub(super) fn handle_after_attribute_value_quoted_state(&mut self) -> (r: Option<Token>)
        requires
            old(self)@.wf(),
            old(self)@.tag is Some || old(self)@.next() != Some('>'),
        ensures
            (final(self)@, token_of(r)) == attributes::after_quoted_value(
                old(self)@.read(),
                old(self)@.next(),
            ),
    {
        match self.next_char() {
            Some(c) if is_space(c) => {
                self.emit_current_attribute();
                self.state = State::BeforeAttributeName;
                None
            },
            Some('/') => {
                self.emit_current_attribute();
                self.state = State::SelfClosingStartTag;
                None
            },
            Some('>') => {
                self.emit_current_attribute();
                self.emit_current_tag()
            },
            Some(_) => {
                self.emit_current_attribute();
                self.state = State::BeforeAttributeName;
                self.reconsume = true;
                None
            },
            None => self.abandon_tag(),
        }
    }
}

} // verus!
