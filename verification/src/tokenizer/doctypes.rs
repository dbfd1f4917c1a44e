//! DOCTYPE declarations.

use crate::chars::{is_space, lowercase, to_lowercase, to_visible, visible};
use crate::model::{blank_doctype, doctypes, Machine};
use crate::tokenizer::HtmlTokenizer;
use crate::types::{token_of, DoctypeToken, State, Token};
use vstd::prelude::*;

verus! {

impl HtmlTokenizer {
    /// Begins a DOCTYPE of which nothing has been read.
    pub(super) fn clear_doctype(&mut self)
        ensures
            final(self)@ == (Machine { doctype: blank_doctype(), ..old(self)@ }),
    {
        self.current_doctype =
        DoctypeToken { name: None, public_id: None, system_id: None, force_quirks: false };
    }

    /// Emits the DOCTYPE.
    fn emit_current_doctype(&mut self) -> (r: Option<Token>)
        ensures
            (final(self)@, token_of(r)) == old(self)@.emit_doctype(),
    {
        let mut doctype = DoctypeToken {
            name: None,
            public_id: None,
            system_id: None,
            force_quirks: false,
        };
        core::mem::swap(&mut self.current_doctype, &mut doctype);
        self.state = State::Data;
        Some(Token::Doctype(doctype))
    }

    /// Emits the DOCTYPE, which is to ask for quirks mode.
    fn emit_quirky_doctype(&mut self) -> (r: Option<Token>)
        ensures
            (final(self)@, token_of(r)) == old(self)@.quirky().emit_doctype(),
    {
        self.current_doctype.force_quirks = true;
        self.emit_current_doctype()
    }

    /// Skips the rest of the DOCTYPE, which is to ask for quirks mode.
    fn bogus_quirky_doctype(&mut self) -> (r: Option<Token>)
        ensures
            (final(self)@, token_of(r)) == old(self)@.quirky().again(State::BogusDoctype),
    {
        self.current_doctype.force_quirks = true;
        self.state = State::BogusDoctype;
        self.reconsume = true;
        None
    }

    /// DOCTYPE state.
    pub(super) fn handle_doctype_state(&mut self) -> (r: Option<Token>)
        requires
            old(self)@.wf(),
        ensures
            (final(self)@, token_of(r)) == doctypes::doctype(old(self)@.read(), old(self)@.next()),
    {
        match self.next_char() {
            Some(c) if is_space(c) => None,
            Some(_) => {
                self.state = State::BeforeDoctypeName;
                self.reconsume = true;
                None
            },
            None => self.emit_quirky_doctype(),
        }
    }

    /// Before DOCTYPE name state.
    pub(super) fn handle_before_doctype_name_state(&mut self) -> (r: Option<Token>)
        requires
            old(self)@.wf(),
        ensures
            (final(self)@, token_of(r)) == doctypes::before_name(
                old(self)@.read(),
                old(self)@.next(),
            ),
    {
        match self.next_char() {
            Some(c) if is_space(c) => None,
            Some('>') | None => self.emit_quirky_doctype(),
            Some(c) => {
                let mut name = String::new();
                name.push(to_lowercase(to_visible(c)));
                self.current_doctype.name = Some(name);
                self.state = State::DoctypeName;
                assert(self@.doctype.name->0 =~= seq![lowercase(visible(c))]);
                None
            },
        }
    }

    /// DOCTYPE name state.
    pub(super) fn handle_doctype_name_state(&mut self) -> (r: Option<Token>)
        requires
            old(self)@.wf(),
        ensures
            (final(self)@, token_of(r)) == doctypes::name(old(self)@.read(), old(self)@.next()),
    {
        match self.next_char() {
            Some(c) if is_space(c) => {
                self.state = State::AfterDoctypeName;
                None
            },
            Some('>') => self.emit_current_doctype(),
            Some(c) => {
                if let Some(name) = &mut self.current_doctype.name {
                    name.push(to_lowercase(to_visible(c)));
                }
                None
            },
            None => self.emit_quirky_doctype(),
        }
    }

    /// After DOCTYPE name state.
    pub(super) fn handle_after_doctype_name_state(&mut self) -> (r: Option<Token>)
        requires
            old(self)@.wf(),
        ensures
            (final(self)@, token_of(r)) == doctypes::after_name(
                old(self)@.read(),
                old(self)@.next(),
            ),
    {
        match self.next_char() {
            Some(c) if is_space(c) => None,
            Some('>') => self.emit_current_doctype(),
            Some(_) => {
                proof {
                    reveal_strlit("PUBLIC");
                    reveal_strlit("SYSTEM");
                }
                if self.input_spells(self.pos - 1, "PUBLIC", 6) {
                    self.pos = self.pos + 5;
                    self.state = State::AfterDoctypePublicKeyword;
                    None
                } else if self.input_spells(self.pos - 1, "SYSTEM", 6) {
                    self.pos = self.pos + 5;
                    self.state = State::AfterDoctypeSystemKeyword;
                    None
                } else {
                    self.bogus_quirky_doctype()
                }
            },
            None => self.emit_quirky_doctype(),
        }
    }

    /// Bogus DOCTYPE state.
    pub(super) fn handle_bogus_doctype_state(&mut self) -> (r: Option<Token>)
        requires
            old(self)@.wf(),
        ensures
            (final(self)@, token_of(r)) == doctypes::bogus(old(self)@.read(), old(self)@.next()),
    {
        match self.next_char() {
            Some('>') | None => self.emit_current_doctype(),
            Some(_) => None,
        }
    }

    /// Before the public identifier, where `c` was read.
    fn before_public_id(&mut self, c: Option<char>) -> (r: Option<Token>)
        ensures
            (final(self)@, token_of(r)) == doctypes::before_public_id(old(self)@, c),
    {
        match c {
            Some(c) if is_space(c) => None,
            Some('"') => {
                self.current_doctype.public_id = Some(String::new());
                self.state = State::DoctypePublicIdDoubleQuoted;
                None
            },
            Some('\'') => {
                self.current_doctype.public_id = Some(String::new());
                self.state = State::DoctypePublicIdSingleQuoted;
                None
            },
            Some('>') | None => self.emit_quirky_doctype(),
            Some(_) => self.bogus_quirky_doctype(),
        }
    }

    /// In the public identifier, which `quote` closes.
    fn public_id(&mut self, quote: char) -> (r: Option<Token>)
        requires
            old(self)@.wf(),
        ensures
            (final(self)@, token_of(r)) == doctypes::public_id(
                old(self)@.read(),
                old(self)@.next(),
                quote,
            ),
    {
        match self.next_char() {
            Some(c) if c == quote => {
                self.state = State::AfterDoctypePublicId;
                None
            },
            Some('>') | None => self.emit_quirky_doctype(),
            Some(c) => {
                if let Some(id) = &mut self.current_doctype.public_id {
                    id.push(to_visible(c));
                }
                None
            },
        }
    }

    /// After DOCTYPE public keyword state.
    pub(super) fn handle_after_doctype_public_keyword_state(&mut self) -> (r: Option<Token>)
        requires
            old(self)@.wf(),
        ensures
            (final(self)@, token_of(r)) == doctypes::after_public_keyword(
                old(self)@.read(),
                old(self)@.next(),
            ),
    {
        match self.next_char() {
            Some(c) if is_space(c) => {
                self.state = State::BeforeDoctypePublicId;
                None
            },
            c => self.before_public_id(c),
        }
    }

    /// Before DOCTYPE public identifier state.
    pub(super) fn handle_before_doctype_public_id_state(&mut self) -> (r: Option<Token>)
        requires
            old(self)@.wf(),
        ensures
            (final(self)@, token_of(r)) == doctypes::before_public_id(
                old(self)@.read(),
                old(self)@.next(),
            ),
    {
        let c = self.next_char();
        self.before_public_id(c)
    }

    /// DOCTYPE public identifier (double-quoted) state.
    pub(super) fn handle_doctype_public_id_double_quoted_state(&mut self) -> (r: Option<Token>)
        requires
            old(self)@.wf(),
        ensures
            (final(self)@, token_of(r)) == doctypes::public_id(
                old(self)@.read(),
                old(self)@.next(),
                '"',
            ),
    {
        self.public_id('"')
    }

    /// DOCTYPE public identifier (single-quoted) state.
    pub(super) fn handle_doctype_public_id_single_quoted_state(&mut self) -> (r: Option<Token>)
        requires
            old(self)@.wf(),
        ensures
            (final(self)@, token_of(r)) == doctypes::public_id(
                old(self)@.read(),
                old(self)@.next(),
                '\'',
            ),
    {
        self.public_id('\'')
    }

    /// After DOCTYPE public identifier state.
    pub(super) fn handle_after_doctype_public_id_state(&mut self) -> (r: Option<Token>)
        requires
            old(self)@.wf(),
        ensures
            (final(self)@, token_of(r)) == doctypes::after_public_id(
                old(self)@.read(),
                old(self)@.next(),
            ),
    {
        match self.next_char() {
            Some(c) if is_space(c) => {
                self.state = State::BetweenDoctypePublicAndSystemIds;
                None
            },
            Some('>') => self.emit_current_doctype(),
            c => self.before_system_id(c),
        }
    }

    /// Between DOCTYPE public and system identifiers state.
    pub(super) fn handle_between_doctype_public_and_system_ids_state(
        &mut self,
    ) -> (r: Option<Token>)
        requires
            old(self)@.wf(),
        ensures
            (final(self)@, token_of(r)) == doctypes::between_ids(
                old(self)@.read(),
                old(self)@.next(),
            ),
    {
        match self.next_char() {
            Some('>') => self.emit_current_doctype(),
            c => self.before_system_id(c),
        }
    }

    /// Before the system identifier, where `c` was read.
    fn before_system_id(&mut self, c: Option<char>) -> (r: Option<Token>)
        ensures
            (final(self)@, token_of(r)) == doctypes::before_system_id(old(self)@, c),
    {
        match c {
            Some(c) if is_space(c) => None,
            Some('"') => {
                self.current_doctype.system_id = Some(String::new());
                self.state = State::DoctypeSystemIdDoubleQuoted;
                None
            },
            Some('\'') => {
                self.current_doctype.system_id = Some(String::new());
                self.state = State::DoctypeSystemIdSingleQuoted;
                None
            },
            Some('>') | None => self.emit_quirky_doctype(),
            Some(_) => self.bogus_quirky_doctype(),
        }
    }

    /// In the system identifier, which `quote` closes.
    fn system_id(&mut self, quote: char) -> (r: Option<Token>)
        requires
            old(self)@.wf(),
        ensures
            (final(self)@, token_of(r)) == doctypes::system_id(
                old(self)@.read(),
                old(self)@.next(),
                quote,
            ),
    {
        match self.next_char() {
            Some(c) if c == quote => {
                self.state = State::AfterDoctypeSystemId;
                None
            },
            Some('>') | None => self.emit_quirky_doctype(),
            Some(c) => {
                if let Some(id) = &mut self.current_doctype.system_id {
                    id.push(to_visible(c));
                }
                None
            },
        }
    }

    /// After DOCTYPE system keyword state.
    pub(super) fn handle_after_doctype_system_keyword_state(&mut self) -> (r: Option<Token>)
        requires
            old(self)@.wf(),
        ensures
            (final(self)@, token_of(r)) == doctypes::after_system_keyword(
                old(self)@.read(),
                old(self)@.next(),
            ),
    {
        match self.next_char() {
            Some(c) if is_space(c) => {
                self.state = State::BeforeDoctypeSystemId;
                None
            },
            c => self.before_system_id(c),
        }
    }

    /// Before DOCTYPE system identifier state.
    pub(super) fn handle_before_doctype_system_id_state(&mut self) -> (r: Option<Token>)
        requires
            old(self)@.wf(),
        ensures
            (final(self)@, token_of(r)) == doctypes::before_system_id(
                old(self)@.read(),
                old(self)@.next(),
            ),
    {
        let c = self.next_char();
        self.before_system_id(c)
    }

    /// DOCTYPE system identifier (double-quoted) state.
    pub(super) fn handle_doctype_system_id_double_quoted_state(&mut self) -> (r: Option<Token>)
        requires
            old(self)@.wf(),
        ensures
            (final(self)@, token_of(r)) == doctypes::system_id(
                old(self)@.read(),
                old(self)@.next(),
                '"',
            ),
    {
        self.system_id('"')
    }

    /// DOCTYPE system identifier (single-quoted) state.
    pub(super) fn handle_doctype_system_id_single_quoted_state(&mut self) -> (r: Option<Token>)
        requires
            old(self)@.wf(),
        ensures
            (final(self)@, token_of(r)) == doctypes::system_id(
                old(self)@.read(),
                old(self)@.next(),
                '\'',
            ),
    {
        self.system_id('\'')
    }

    /// After DOCTYPE system identifier state.
    pub(super) fn handle_after_doctype_system_id_state(&mut self) -> (r: Option<Token>)
        requires
            old(self)@.wf(),
        ensures
            (final(self)@, token_of(r)) == doctypes::after_system_id(
                old(self)@.read(),
                old(self)@.next(),
            ),
    {
        match self.next_char() {
            Some(c) if is_space(c) => None,
            Some('>') => self.emit_current_doctype(),
            Some(_) => {
                self.state = State::BogusDoctype;
                self.reconsume = true;
                None
            },
            None => self.emit_quirky_doctype(),
        }
    }
}

} // verus!
