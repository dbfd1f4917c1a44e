use muskitty_html5_tokenizer::{DoctypeToken, HtmlTokenizer, State, TagKind, TagToken, Token, Tokenizer};

#[test]
fn data_state_emits_character_for_letter() {
    let mut t = HtmlTokenizer::new("a");
    let token = t.next_token();
    assert_eq!(token, Some(Token::Character('a')));
    assert_eq!(t.state(), State::Data);
}

#[test]
fn data_state_switches_to_tag_open_on_less_than() {
    let mut t = HtmlTokenizer::new("<");
    let token = t.step();
    assert_eq!(token, None);
    assert_eq!(t.state(), State::TagOpen);
}

#[test]
fn data_state_switches_to_character_reference_on_ampersand() {
    let mut t = HtmlTokenizer::new("&");
    let token = t.step();
    assert_eq!(token, None);
    assert_eq!(t.state(), State::CharacterReference);
}

#[test]
fn data_state_emits_eof_on_empty_input() {
    let mut t = HtmlTokenizer::new("");
    let token = t.next_token();
    assert_eq!(token, Some(Token::EOF));

    let token2 = t.next_token();
    assert_eq!(token2, None);
}

#[test]
fn data_state_emits_eof_after_last_char() {
    let mut t = HtmlTokenizer::new("x");
    let first = t.next_token();
    assert_eq!(first, Some(Token::Character('x')));
    assert_eq!(t.state(), State::Data);

    let second = t.next_token();
    assert_eq!(second, Some(Token::EOF));
}

#[test]
fn data_state_handles_null_character() {
    let mut t = HtmlTokenizer::new("\0");
    let token = t.next_token();
    assert_eq!(token, Some(Token::Character('\0')));
    assert_eq!(t.state(), State::Data);
}

#[test]
fn data_state_emits_multiple_characters() {
    let mut t = HtmlTokenizer::new("abc");
    assert_eq!(t.next_token(), Some(Token::Character('a')));
    assert_eq!(t.next_token(), Some(Token::Character('b')));
    assert_eq!(t.next_token(), Some(Token::Character('c')));
    assert_eq!(t.next_token(), Some(Token::EOF));
    assert_eq!(t.step(), None);
}

#[test]
fn data_state_ampersand_at_eof_emits_amp_then_eof() {
    let mut t = HtmlTokenizer::new("&");
    assert_eq!(t.next_token(), Some(Token::Character('&')));
    assert_eq!(t.next_token(), Some(Token::EOF));
    assert_eq!(t.next_token(), None);
}

#[test]
fn data_state_double_ampersand_at_eof() {
    let mut t = HtmlTokenizer::new("&&");
    assert_eq!(t.next_token(), Some(Token::Character('&')));
    assert_eq!(t.next_token(), Some(Token::Character('&')));
    assert_eq!(t.next_token(), Some(Token::EOF));
}

#[test]
fn data_state_ampersand_hash_at_eof_emits_hash_amp_then_eof() {
    let mut t = HtmlTokenizer::new("&#");
    assert_eq!(t.next_token(), Some(Token::Character('&')));
    assert_eq!(t.next_token(), Some(Token::Character('#')));
    assert_eq!(t.next_token(), Some(Token::EOF));
}

#[test]
fn data_state_ampersand_hash_x_at_eof() {
    let mut t = HtmlTokenizer::new("&#x");
    assert_eq!(t.next_token(), Some(Token::Character('&')));
    assert_eq!(t.next_token(), Some(Token::Character('#')));
    assert_eq!(t.next_token(), Some(Token::Character('x')));
    assert_eq!(t.next_token(), Some(Token::EOF));
}

#[test]
fn rcdata_ampersand_at_eof_terminates() {
    let mut t = enter_content_model("&", State::RCDATA, Some("title"));
    assert_eq!(t.next_token(), Some(Token::Character('&')));
    assert_eq!(t.next_token(), Some(Token::EOF));
    assert_eq!(t.next_token(), None);
}

#[test]
fn doctype_public_id_ampersand_then_eof_terminates() {
    let mut t = HtmlTokenizer::new("<!DOCTYPE a PUBLIC\"&");
    let tok = t.next_token();
    match tok {
        Some(Token::Doctype(d)) => {
            assert!(d.force_quirks);
            assert_eq!(d.name.as_deref(), Some("a"));
            assert_eq!(d.public_id.as_deref(), Some("&"));
        }
        other => panic!("expected Doctype, got {other:?}"),
    }
    assert_eq!(t.next_token(), Some(Token::EOF));
    assert_eq!(t.next_token(), None);
}

#[test]
fn doctype_public_id_ampersand_inside_then_eof_terminates() {
    let mut t = HtmlTokenizer::new("<!DOCTYPE a PUBLIC \"x&");
    let tok = t.next_token();
    match tok {
        Some(Token::Doctype(d)) => {
            assert!(d.force_quirks);
            assert_eq!(d.name.as_deref(), Some("a"));
            assert_eq!(d.public_id.as_deref(), Some("x&"));
        }
        other => panic!("expected Doctype with public_id=\"x&\", got {other:?}"),
    }
    assert_eq!(t.next_token(), Some(Token::EOF));
    assert_eq!(t.next_token(), None);
}

fn enter_tag_name(input: &str) -> HtmlTokenizer {
    let mut t = HtmlTokenizer::new(input);
    assert_eq!(t.step(), None);
    assert_eq!(t.state(), State::TagOpen);
    assert_eq!(t.step(), None);
    assert_eq!(t.state(), State::TagName);
    t
}

#[test]
fn tag_name_emits_start_tag_on_greater_than() {
    let mut t = enter_tag_name("<a>");
    let token = t.next_token();
    assert_eq!(
        token,
        Some(Token::Tag(TagToken {
            kind: TagKind::Start,
            name: "a".into(),
            attrs: Vec::new(),
            self_closing: false,
        }))
    );
    assert_eq!(t.state(), State::Data);
}

#[test]
fn tag_name_emits_tag_with_lowercased_name() {
    let mut t = HtmlTokenizer::new("<DIV>");
    assert_eq!(t.step(), None);
    assert_eq!(t.state(), State::TagOpen);
    assert_eq!(t.step(), None);
    assert_eq!(t.state(), State::TagName);
    assert_eq!(t.step(), None);
    assert_eq!(t.state(), State::TagName);
    assert_eq!(t.step(), None);
    assert_eq!(t.state(), State::TagName);
    let token = t.next_token();
    assert_eq!(
        token,
        Some(Token::Tag(TagToken {
            kind: TagKind::Start,
            name: "div".into(),
            attrs: Vec::new(),
            self_closing: false,
        }))
    );
    assert_eq!(t.state(), State::Data);
}

#[test]
fn tag_name_appends_lowercased_uppercase_chars() {
    let mut t = HtmlTokenizer::new("<AbC>");
    assert_eq!(t.step(), None);
    assert_eq!(t.state(), State::TagOpen);
    assert_eq!(t.step(), None);
    assert_eq!(t.state(), State::TagName);
    assert_eq!(t.step(), None);
    assert_eq!(t.state(), State::TagName);
    assert_eq!(t.step(), None);
    assert_eq!(t.state(), State::TagName);
    let token = t.next_token();
    assert_eq!(
        token,
        Some(Token::Tag(TagToken {
            kind: TagKind::Start,
            name: "abc".into(),
            attrs: Vec::new(),
            self_closing: false,
        }))
    );
}

#[test]
fn tag_name_switches_to_self_closing_on_solidus() {
    let mut t = HtmlTokenizer::new("<br/>");
    assert_eq!(t.step(), None);
    assert_eq!(t.state(), State::TagOpen);
    assert_eq!(t.step(), None);
    assert_eq!(t.state(), State::TagName);
    assert_eq!(t.step(), None);
    assert_eq!(t.state(), State::TagName);
    assert_eq!(t.step(), None);
    assert_eq!(t.state(), State::SelfClosingStartTag);
    let token = t.next_token();
    assert_eq!(
        token,
        Some(Token::Tag(TagToken {
            kind: TagKind::Start,
            name: "br".into(),
            attrs: Vec::new(),
            self_closing: true,
        }))
    );
    assert_eq!(t.state(), State::Data);
}

#[test]
fn end_tag_open_creates_end_tag_on_alpha() {
    let mut t = HtmlTokenizer::new("</div>");
    assert_eq!(t.step(), None);
    assert_eq!(t.state(), State::TagOpen);
    assert_eq!(t.step(), None);
    assert_eq!(t.state(), State::EndTagOpen);
    assert_eq!(t.step(), None);
    assert_eq!(t.state(), State::TagName);
    assert_eq!(t.step(), None);
    assert_eq!(t.step(), None);
    let token = t.next_token();
    assert_eq!(
        token,
        Some(Token::Tag(TagToken {
            kind: TagKind::End,
            name: "div".into(),
            attrs: Vec::new(),
            self_closing: false,
        }))
    );
    assert_eq!(t.state(), State::Data);
}

#[test]
fn end_tag_open_lowercases_tag_name() {
    let mut t = HtmlTokenizer::new("</DIV>");
    assert_eq!(t.step(), None);
    assert_eq!(t.step(), None);
    assert_eq!(t.step(), None);
    assert_eq!(t.step(), None);
    assert_eq!(t.step(), None);
    let token = t.next_token();
    assert_eq!(
        token,
        Some(Token::Tag(TagToken {
            kind: TagKind::End,
            name: "div".into(),
            attrs: Vec::new(),
            self_closing: false,
        }))
    );
    assert_eq!(t.state(), State::Data);
}

#[test]
fn end_tag_open_non_alpha_switches_to_data() {
    let mut t = HtmlTokenizer::new("</>");
    assert_eq!(t.step(), None);
    assert_eq!(t.step(), None);
    assert_eq!(t.next_token(), Some(Token::EOF));
    assert_eq!(t.state(), State::Data);
    assert_eq!(t.next_token(), None);
}

#[test]
fn end_tag_open_non_alpha_emits_lt_and_solidus() {
    let mut t = HtmlTokenizer::new("</5");
    assert_eq!(t.step(), None);
    assert_eq!(t.step(), None);
    assert_eq!(t.next_token(), Some(Token::Comment("5".to_string())));
    assert_eq!(t.next_token(), Some(Token::EOF));
    assert_eq!(t.state(), State::Data);
    assert_eq!(t.next_token(), None);
}

#[test]
fn end_tag_open_eof_emits_lt_then_eof() {
    let mut t = HtmlTokenizer::new("</");
    assert_eq!(t.step(), None);
    assert_eq!(t.step(), None);
    assert_eq!(t.next_token(), Some(Token::Character('<')));
    assert_eq!(t.next_token(), Some(Token::Character('/')));
    assert_eq!(t.state(), State::Data);
    assert_eq!(t.next_token(), Some(Token::EOF));
}

#[test]
fn e2e_simple_open_close_tag() {
    let mut t = HtmlTokenizer::new("<p>hello</p>");
    assert_eq!(t.step(), None);
    assert_eq!(t.step(), None);
    assert_eq!(
        t.next_token(),
        Some(Token::Tag(TagToken {
            kind: TagKind::Start,
            name: "p".into(),
            attrs: Vec::new(),
            self_closing: false
        }))
    );
    assert_eq!(t.next_token(), Some(Token::Character('h')));
    assert_eq!(t.next_token(), Some(Token::Character('e')));
    assert_eq!(t.next_token(), Some(Token::Character('l')));
    assert_eq!(t.next_token(), Some(Token::Character('l')));
    assert_eq!(t.next_token(), Some(Token::Character('o')));
    assert_eq!(t.step(), None);
    assert_eq!(t.step(), None);
    assert_eq!(t.step(), None);
    assert_eq!(
        t.next_token(),
        Some(Token::Tag(TagToken {
            kind: TagKind::End,
            name: "p".into(),
            attrs: Vec::new(),
            self_closing: false
        }))
    );
    assert_eq!(t.next_token(), Some(Token::EOF));
}

#[test]
fn e2e_self_closing_tag() {
    let mut t = HtmlTokenizer::new("<br/>");
    assert_eq!(t.step(), None);
    assert_eq!(t.step(), None);
    assert_eq!(t.step(), None);
    assert_eq!(t.step(), None);
    assert_eq!(
        t.next_token(),
        Some(Token::Tag(TagToken {
            kind: TagKind::Start,
            name: "br".into(),
            attrs: Vec::new(),
            self_closing: true
        }))
    );
    assert_eq!(t.next_token(), Some(Token::EOF));
}

#[test]
fn e2e_tag_space_then_chars() {
    let mut t = HtmlTokenizer::new("<div>text</div>");
    assert_eq!(t.step(), None);
    assert_eq!(t.step(), None);
    assert_eq!(t.step(), None);
    assert_eq!(t.step(), None);
    assert_eq!(
        t.next_token(),
        Some(Token::Tag(TagToken {
            kind: TagKind::Start,
            name: "div".into(),
            attrs: Vec::new(),
            self_closing: false
        }))
    );
    assert_eq!(t.next_token(), Some(Token::Character('t')));
    assert_eq!(t.next_token(), Some(Token::Character('e')));
    assert_eq!(t.next_token(), Some(Token::Character('x')));
    assert_eq!(t.next_token(), Some(Token::Character('t')));
    assert_eq!(t.step(), None);
    assert_eq!(t.step(), None);
    assert_eq!(t.step(), None);
    assert_eq!(t.step(), None);
    assert_eq!(t.step(), None);
    assert_eq!(
        t.next_token(),
        Some(Token::Tag(TagToken {
            kind: TagKind::End,
            name: "div".into(),
            attrs: Vec::new(),
            self_closing: false
        }))
    );
    assert_eq!(t.next_token(), Some(Token::EOF));
}

#[test]
fn tag_name_switches_to_before_attribute_name_on_space() {
    let mut t = HtmlTokenizer::new("<div class=\"x\">");
    assert_eq!(t.step(), None);
    assert_eq!(t.state(), State::TagOpen);
    assert_eq!(t.step(), None);
    assert_eq!(t.state(), State::TagName);
    assert_eq!(t.step(), None);
    assert_eq!(t.state(), State::TagName);
    assert_eq!(t.step(), None);
    assert_eq!(t.state(), State::TagName);
    assert_eq!(t.step(), None);
    assert_eq!(t.state(), State::BeforeAttributeName);
}

#[test]
fn tag_name_appends_non_ascii_chars() {
    let mut t = HtmlTokenizer::new("<日本語>");
    assert_eq!(t.step(), None);
    assert_eq!(t.state(), State::TagOpen);
    assert_eq!(t.next_token(), Some(Token::Character('<')));
    assert_eq!(t.state(), State::Data);
    assert_eq!(t.next_token(), Some(Token::Character('日')));
    assert_eq!(t.next_token(), Some(Token::Character('本')));
    assert_eq!(t.next_token(), Some(Token::Character('語')));
    assert_eq!(t.next_token(), Some(Token::Character('>')));
}

#[test]
fn tag_name_appends_non_ascii_after_entering_tag_name() {
    let mut t = HtmlTokenizer::new("<a日本語>");
    assert_eq!(t.step(), None);
    assert_eq!(t.state(), State::TagOpen);
    assert_eq!(t.step(), None);
    assert_eq!(t.state(), State::TagName);
    assert_eq!(t.step(), None);
    assert_eq!(t.state(), State::TagName);
    assert_eq!(t.step(), None);
    assert_eq!(t.state(), State::TagName);
    assert_eq!(t.step(), None);
    assert_eq!(t.state(), State::TagName);
    let token = t.next_token();
    assert_eq!(
        token,
        Some(Token::Tag(TagToken {
            kind: TagKind::Start,
            name: "a日本語".into(),
            attrs: Vec::new(),
            self_closing: false,
        }))
    );
    assert_eq!(t.state(), State::Data);
}

#[test]
fn tag_name_handles_null_character() {
    let mut t = HtmlTokenizer::new("<a\x00>");
    assert_eq!(t.step(), None);
    assert_eq!(t.state(), State::TagOpen);
    assert_eq!(t.step(), None);
    assert_eq!(t.state(), State::TagName);
    assert_eq!(t.step(), None);
    assert_eq!(t.state(), State::TagName);
    let token = t.next_token();
    assert_eq!(
        token,
        Some(Token::Tag(TagToken {
            kind: TagKind::Start,
            name: "a\u{FFFD}".into(),
            attrs: Vec::new(),
            self_closing: false,
        }))
    );
    assert_eq!(t.state(), State::Data);
}

#[test]
fn markup_declaration_open_dash_dash_to_comment_start() {
    let mut t = HtmlTokenizer::new("<!--");
    assert_eq!(t.step(), None);
    assert_eq!(t.step(), None);
    assert_eq!(t.state(), State::MarkupDeclarationOpen);
    assert_eq!(t.step(), None);
    assert_eq!(t.state(), State::CommentStart);
}

#[test]
fn markup_declaration_open_doctype() {
    let mut t = HtmlTokenizer::new("<!DOCTYPE");
    assert_eq!(t.step(), None);
    assert_eq!(t.step(), None);
    assert_eq!(t.state(), State::MarkupDeclarationOpen);
    assert_eq!(t.step(), None);
    assert_eq!(
        t.next_token(),
        Some(Token::Doctype(DoctypeToken {
            name: None,
            public_id: None,
            system_id: None,
            force_quirks: true,
        }))
    );
}

fn enter_doctype(input: &str) -> HtmlTokenizer {
    let mut t = HtmlTokenizer::new(input);
    assert_eq!(t.step(), None);
    assert_eq!(t.step(), None);
    assert_eq!(t.step(), None);
    assert_eq!(t.state(), State::Doctype);
    t
}

#[test]
fn doctype_entry_skips_whitespace() {
    let mut t = enter_doctype("<!DOCTYPE html>");
    assert_eq!(t.step(), None);
    assert_eq!(t.state(), State::Doctype);
    assert_eq!(t.step(), None);
    assert_eq!(t.state(), State::BeforeDoctypeName);
}

#[test]
fn doctype_entry_non_whitespace_immediate() {
    let mut t = enter_doctype("<!DOCTYPEhtml>");
    assert_eq!(t.step(), None);
    assert_eq!(t.state(), State::BeforeDoctypeName);
}

fn enter_before_doctype_name(input: &str) -> HtmlTokenizer {
    let mut t = enter_doctype(input);
    while t.state() == State::Doctype {
        assert_eq!(t.step(), None);
    }
    assert_eq!(t.state(), State::BeforeDoctypeName);
    t
}

#[test]
fn doctype_name_simple_html() {
    let mut t = enter_before_doctype_name("<!DOCTYPE html>");
    assert_eq!(t.step(), None);
    assert_eq!(t.state(), State::DoctypeName);
    for _ in 0..3 {
        assert_eq!(t.step(), None);
    }
    assert_eq!(
        t.next_token(),
        Some(Token::Doctype(DoctypeToken {
            name: Some("html".into()),
            public_id: None,
            system_id: None,
            force_quirks: false,
        }))
    );
}

#[test]
fn doctype_name_uppercase() {
    let mut t = enter_before_doctype_name("<!DOCTYPE HTML>");
    assert_eq!(t.step(), None);
    assert_eq!(t.step(), None);
    assert_eq!(t.step(), None);
    assert_eq!(t.step(), None);
    assert_eq!(
        t.next_token(),
        Some(Token::Doctype(DoctypeToken {
            name: Some("html".into()),
            public_id: None,
            system_id: None,
            force_quirks: false,
        }))
    );
}

#[test]
fn doctype_name_null_char() {
    let mut t = enter_before_doctype_name("<!DOCTYPE html\0x>");
    for _ in 0..4 {
        assert_eq!(t.step(), None);
    }
    assert_eq!(t.step(), None);
    assert_eq!(t.step(), None);
    assert_eq!(
        t.next_token(),
        Some(Token::Doctype(DoctypeToken {
            name: Some("html\u{FFFD}x".into()),
            public_id: None,
            system_id: None,
            force_quirks: false,
        }))
    );
}

#[test]
fn doctype_before_name_empty_gt() {
    let mut t = enter_doctype("<!DOCTYPE >");
    assert_eq!(t.step(), None);
    assert_eq!(t.step(), None);
    assert_eq!(
        t.next_token(),
        Some(Token::Doctype(DoctypeToken {
            name: None,
            public_id: None,
            system_id: None,
            force_quirks: true,
        }))
    );
}

#[test]
fn doctype_name_eof() {
    let mut t = enter_before_doctype_name("<!DOCTYPE html");
    for _ in 0..4 {
        assert_eq!(t.step(), None);
    }
    assert_eq!(
        t.next_token(),
        Some(Token::Doctype(DoctypeToken {
            name: Some("html".into()),
            public_id: None,
            system_id: None,
            force_quirks: true,
        }))
    );
}

#[test]
fn doctype_after_name_public_keyword() {
    let mut t = enter_before_doctype_name("<!DOCTYPE html PUBLIC \"-//EN\">");
    for _ in 0..4 {
        assert_eq!(t.step(), None);
    }
    assert_eq!(t.step(), None);
    assert_eq!(t.state(), State::AfterDoctypeName);
    assert_eq!(t.step(), None);
    assert_eq!(t.state(), State::AfterDoctypePublicKeyword);
}

#[test]
fn doctype_after_name_system_keyword() {
    let mut t = enter_before_doctype_name("<!DOCTYPE html SYSTEM \"about:\">");
    for _ in 0..4 {
        assert_eq!(t.step(), None);
    }
    assert_eq!(t.step(), None);
    assert_eq!(t.state(), State::AfterDoctypeName);
    assert_eq!(t.step(), None);
    assert_eq!(t.state(), State::AfterDoctypeSystemKeyword);
}

#[test]
fn doctype_after_name_gt_emits() {
    let mut t = enter_before_doctype_name("<!DOCTYPE html>");
    for _ in 0..4 {
        assert_eq!(t.step(), None);
    }
    assert_eq!(
        t.next_token(),
        Some(Token::Doctype(DoctypeToken {
            name: Some("html".into()),
            public_id: None,
            system_id: None,
            force_quirks: false,
        }))
    );
}

#[test]
fn doctype_after_name_unknown_to_bogus() {
    let mut t = enter_before_doctype_name("<!DOCTYPE html x>");
    for _ in 0..4 {
        assert_eq!(t.step(), None);
    }
    assert_eq!(t.step(), None);
    assert_eq!(t.step(), None);
    assert_eq!(t.state(), State::BogusDoctype);
    assert_eq!(t.step(), None);
    assert_eq!(
        t.next_token(),
        Some(Token::Doctype(DoctypeToken {
            name: Some("html".into()),
            public_id: None,
            system_id: None,
            force_quirks: true,
        }))
    );
}

#[test]
fn doctype_bogus_ignores_chars() {
    let mut t = enter_before_doctype_name("<!DOCTYPE html foo>");
    for _ in 0..4 {
        assert_eq!(t.step(), None);
    }
    assert_eq!(t.step(), None);
    assert_eq!(t.step(), None);
    for _ in 0..3 {
        assert_eq!(t.step(), None);
    }
    assert_eq!(
        t.next_token(),
        Some(Token::Doctype(DoctypeToken {
            name: Some("html".into()),
            public_id: None,
            system_id: None,
            force_quirks: true,
        }))
    );
}

#[test]
fn doctype_public_id_double_quoted() {
    let mut t = HtmlTokenizer::new("<!DOCTYPE html PUBLIC \"-//W3C//DTD HTML 4.01//EN\">");
    assert_eq!(
        next_real_token(&mut t),
        Token::Doctype(DoctypeToken {
            name: Some("html".into()),
            public_id: Some("-//W3C//DTD HTML 4.01//EN".into()),
            system_id: None,
            force_quirks: false,
        })
    );
}

#[test]
fn doctype_system_id_double_quoted() {
    let mut t = HtmlTokenizer::new("<!DOCTYPE html SYSTEM \"about:legacy-compat\">");
    assert_eq!(
        next_real_token(&mut t),
        Token::Doctype(DoctypeToken {
            name: Some("html".into()),
            public_id: None,
            system_id: Some("about:legacy-compat".into()),
            force_quirks: false,
        })
    );
}

#[test]
fn doctype_full_public_and_system() {
    let mut t = HtmlTokenizer::new(
        "<!DOCTYPE html PUBLIC \"-//W3C//DTD HTML 4.01//EN\" \
         \"http://www.w3.org/TR/html4/strict.dtd\">",
    );
    assert_eq!(
        next_real_token(&mut t),
        Token::Doctype(DoctypeToken {
            name: Some("html".into()),
            public_id: Some("-//W3C//DTD HTML 4.01//EN".into()),
            system_id: Some("http://www.w3.org/TR/html4/strict.dtd".into()),
            force_quirks: false,
        })
    );
}

#[test]
fn doctype_public_id_single_quoted() {
    let mut t = HtmlTokenizer::new("<!DOCTYPE html PUBLIC '-//W3C//DTD XHTML 1.0//EN'>");
    assert_eq!(
        next_real_token(&mut t),
        Token::Doctype(DoctypeToken {
            name: Some("html".into()),
            public_id: Some("-//W3C//DTD XHTML 1.0//EN".into()),
            system_id: None,
            force_quirks: false,
        })
    );
}

#[test]
fn doctype_system_id_single_quoted() {
    let mut t = HtmlTokenizer::new("<!DOCTYPE html SYSTEM 'about:legacy-compat'>");
    assert_eq!(
        next_real_token(&mut t),
        Token::Doctype(DoctypeToken {
            name: Some("html".into()),
            public_id: None,
            system_id: Some("about:legacy-compat".into()),
            force_quirks: false,
        })
    );
}

#[test]
fn markup_declaration_open_bogus() {
    let mut t = HtmlTokenizer::new("<!foo");
    assert_eq!(t.step(), None);
    assert_eq!(t.step(), None);
    assert_eq!(t.step(), None);
    assert_eq!(t.state(), State::BogusComment);
}

#[test]
fn bogus_comment_emits_on_greater_than() {
    let mut t = HtmlTokenizer::new("<?xml>");
    assert_eq!(t.step(), None);
    assert_eq!(t.step(), None);
    for _ in 0..3 {
        assert_eq!(t.step(), None);
    }
    assert_eq!(t.next_token(), Some(Token::Comment("?xml".into())));
}

#[test]
fn bogus_comment_handles_null() {
    let mut t = HtmlTokenizer::new("<?a\0b>");
    assert_eq!(t.step(), None);
    assert_eq!(t.step(), None);
    assert_eq!(t.step(), None);
    assert_eq!(t.step(), None);
    assert_eq!(t.step(), None);
    assert_eq!(t.next_token(), Some(Token::Comment("?a\u{FFFD}b".into())));
}

#[test]
fn bogus_comment_eof() {
    let mut t = HtmlTokenizer::new("<?x");
    assert_eq!(t.step(), None);
    assert_eq!(t.step(), None);
    assert_eq!(t.step(), None);
    assert_eq!(t.step(), None);
    assert_eq!(t.next_token(), Some(Token::EOF));
}

#[test]
fn bogus_comment_from_bang() {
    let mut t = HtmlTokenizer::new("<!foo>");
    assert_eq!(t.step(), None);
    assert_eq!(t.step(), None);
    assert_eq!(t.step(), None);
    for _ in 0..3 {
        assert_eq!(t.step(), None);
    }
    assert_eq!(t.next_token(), Some(Token::Comment("foo".into())));
}

fn enter_markup_declaration(t: &mut HtmlTokenizer) {
    assert_eq!(t.step(), None);
    assert_eq!(t.step(), None);
}

#[test]
fn comment_start_dash_to_comment_start_dash() {
    let mut t = HtmlTokenizer::new("<!---");
    enter_markup_declaration(&mut t);
    assert_eq!(t.step(), None);
    assert_eq!(t.step(), None);
    assert_eq!(t.state(), State::CommentStartDash);
}

#[test]
fn comment_start_empty_comment_on_gt() {
    let mut t = HtmlTokenizer::new("<!-->");
    enter_markup_declaration(&mut t);
    assert_eq!(t.step(), None);
    assert_eq!(t.next_token(), Some(Token::Comment("".into())));
}

#[test]
fn comment_start_lt_to_comment_lt_sign() {
    let mut t = HtmlTokenizer::new("<!--<");
    enter_markup_declaration(&mut t);
    assert_eq!(t.step(), None);
    assert_eq!(t.step(), None);
    assert_eq!(t.state(), State::CommentLessThanSign);
}

#[test]
fn comment_start_null_to_comment() {
    let mut t = HtmlTokenizer::new("<!--\0");
    enter_markup_declaration(&mut t);
    assert_eq!(t.step(), None);
    assert_eq!(t.step(), None);
    assert_eq!(t.state(), State::Comment);
}

#[test]
fn comment_start_dash_gt_emits_empty() {
    let mut t = HtmlTokenizer::new("<!--->");
    enter_markup_declaration(&mut t);
    assert_eq!(t.step(), None);
    assert_eq!(t.step(), None);
    assert_eq!(t.next_token(), Some(Token::Comment("".into())));
}

#[test]
fn comment_start_dash_other_to_comment() {
    let mut t = HtmlTokenizer::new("<!---a");
    enter_markup_declaration(&mut t);
    assert_eq!(t.step(), None);
    assert_eq!(t.step(), None);
    assert_eq!(t.step(), None);
    assert_eq!(t.state(), State::Comment);
}

#[test]
fn comment_state_appends_chars() {
    let mut t = HtmlTokenizer::new("<!--abc-->");
    enter_markup_declaration(&mut t);
    assert_eq!(t.step(), None);
    assert_eq!(t.step(), None);
    assert_eq!(t.step(), None);
    assert_eq!(t.step(), None);
    assert_eq!(t.step(), None);
    assert_eq!(t.step(), None);
    assert_eq!(t.next_token(), Some(Token::Comment("abc".into())));
}

#[test]
fn comment_state_lt_switches() {
    let mut t = HtmlTokenizer::new("<!--a<");
    enter_markup_declaration(&mut t);
    assert_eq!(t.step(), None);
    assert_eq!(t.step(), None);
    assert_eq!(t.step(), None);
    assert_eq!(t.state(), State::CommentLessThanSign);
}

#[test]
fn comment_state_dash_switches() {
    let mut t = HtmlTokenizer::new("<!--a-");
    enter_markup_declaration(&mut t);
    assert_eq!(t.step(), None);
    assert_eq!(t.step(), None);
    assert_eq!(t.step(), None);
    assert_eq!(t.state(), State::CommentEndDash);
}

#[test]
fn comment_state_null_handles() {
    let mut t = HtmlTokenizer::new("<!--a\0b-->");
    enter_markup_declaration(&mut t);
    assert_eq!(t.step(), None);
    assert_eq!(t.step(), None);
    assert_eq!(t.step(), None);
    assert_eq!(t.step(), None);
    assert_eq!(t.step(), None);
    assert_eq!(t.step(), None);
    assert_eq!(t.next_token(), Some(Token::Comment("a\u{FFFD}b".into())));
}

#[test]
fn comment_lt_sign_excl_to_bang() {
    let mut t = HtmlTokenizer::new("<!--a<!--b-->");
    enter_markup_declaration(&mut t);
    assert_eq!(t.step(), None);
    assert_eq!(t.step(), None);
    assert_eq!(t.step(), None);
    assert_eq!(t.step(), None);
    assert_eq!(t.state(), State::CommentLessThanSignBang);
}

#[test]
fn comment_lt_sign_lt_stays() {
    let mut t = HtmlTokenizer::new("<!--a<<b-->");
    enter_markup_declaration(&mut t);
    assert_eq!(t.step(), None);
    assert_eq!(t.step(), None);
    assert_eq!(t.step(), None);
    assert_eq!(t.step(), None);
    assert_eq!(t.state(), State::CommentLessThanSign);
}

#[test]
fn comment_lt_bang_dash_chain() {
    let mut t = HtmlTokenizer::new("<!--a<!-b-->");
    enter_markup_declaration(&mut t);
    assert_eq!(t.step(), None);
    assert_eq!(t.step(), None);
    assert_eq!(t.step(), None);
    assert_eq!(t.step(), None);
    assert_eq!(t.step(), None);
    assert_eq!(t.state(), State::CommentLessThanSignBangDash);
}

#[test]
fn comment_lt_bang_dash_dash_to_dashdash() {
    let mut t = HtmlTokenizer::new("<!--<!--b-->");
    enter_markup_declaration(&mut t);
    assert_eq!(t.step(), None);
    assert_eq!(t.step(), None);
    assert_eq!(t.step(), None);
    assert_eq!(t.step(), None);
    assert_eq!(t.step(), None);
    assert_eq!(t.step(), None);
    assert_eq!(t.state(), State::CommentEnd);
}

#[test]
fn comment_nested_open_not_close() {
    let mut t = HtmlTokenizer::new("<!-- a<!--> b -->");
    enter_markup_declaration(&mut t);
    assert_eq!(t.step(), None);
    assert_eq!(t.step(), None);
    assert_eq!(t.step(), None);
    assert_eq!(t.step(), None);
    assert_eq!(t.step(), None);
    assert_eq!(t.step(), None);
    assert_eq!(t.step(), None);
    assert_eq!(t.next_token(), Some(Token::Comment(" a<!".into())));
    assert_eq!(t.state(), State::Data);
}

#[test]
fn comment_end_gt_emits() {
    let mut t = HtmlTokenizer::new("<!--hello-->");
    enter_markup_declaration(&mut t);
    for _ in 0..6 {
        assert_eq!(t.step(), None);
    }
    assert_eq!(t.step(), None);
    assert_eq!(t.step(), None);
    assert_eq!(t.next_token(), Some(Token::Comment("hello".into())));
}

#[test]
fn comment_end_bang_gt_emits() {
    let mut t = HtmlTokenizer::new("<!--hello--!>");
    enter_markup_declaration(&mut t);
    for _ in 0..6 {
        assert_eq!(t.step(), None);
    }
    assert_eq!(t.step(), None);
    assert_eq!(t.step(), None);
    assert_eq!(t.step(), None);
    assert_eq!(t.next_token(), Some(Token::Comment("hello".into())));
}

#[test]
fn comment_end_bang_dash_to_end() {
    let mut t = HtmlTokenizer::new("<!--hello--!->");
    enter_markup_declaration(&mut t);
    for _ in 0..6 {
        assert_eq!(t.step(), None);
    }
    assert_eq!(t.step(), None);
    assert_eq!(t.step(), None);
    assert_eq!(t.step(), None);
    assert_eq!(t.step(), None);
    assert_eq!(t.step(), None);
    assert_eq!(t.step(), None);
    assert_eq!(t.next_token(), Some(Token::Comment("hello--!->".into())));
}

#[test]
fn comment_extra_dashes() {
    let mut t = HtmlTokenizer::new("<!--hello---->");
    enter_markup_declaration(&mut t);
    for _ in 0..6 {
        assert_eq!(t.step(), None);
    }
    assert_eq!(t.step(), None);
    assert_eq!(t.step(), None);
    assert_eq!(t.step(), None);
    assert_eq!(t.step(), None);
    assert_eq!(t.next_token(), Some(Token::Comment("hello--".into())));
}

#[test]
fn comment_state_eof() {
    let mut t = HtmlTokenizer::new("<!--abc");
    enter_markup_declaration(&mut t);
    assert_eq!(t.step(), None);
    assert_eq!(t.step(), None);
    assert_eq!(t.step(), None);
    assert_eq!(t.step(), None);
    assert_eq!(t.next_token(), Some(Token::Comment("abc".into())));
}

fn next_real_token(t: &mut HtmlTokenizer) -> Token {
    loop {
        match t.next_token() {
            Some(token) => return token,
            None => continue,
        }
    }
}

#[test]
fn comment_e2e_simple() {
    let mut t = HtmlTokenizer::new("<!-- hello world -->");
    assert_eq!(
        next_real_token(&mut t),
        Token::Comment(" hello world ".into())
    );
}

#[test]
fn comment_e2e_empty() {
    let mut t = HtmlTokenizer::new("<!---->");
    assert_eq!(next_real_token(&mut t), Token::Comment("".into()));
}

#[test]
fn comment_e2e_followed_by_tag() {
    let mut t = HtmlTokenizer::new("<!-- comment --><div>");
    assert_eq!(next_real_token(&mut t), Token::Comment(" comment ".into()));
    assert_eq!(
        next_real_token(&mut t),
        Token::Tag(TagToken {
            kind: TagKind::Start,
            name: "div".into(),
            attrs: vec![],
            self_closing: false,
        })
    );
}

#[test]
fn comment_e2e_nested() {
    let mut t = HtmlTokenizer::new("<!-- <!-- nested --> -->");
    assert_eq!(
        next_real_token(&mut t),
        Token::Comment(" <!-- nested ".into())
    );
}

#[test]
fn attr_single_double_quoted_value() {
    let mut t = HtmlTokenizer::new("<div class=\"x\">");
    assert_eq!(t.step(), None);
    assert_eq!(t.step(), None);
    assert_eq!(t.step(), None);
    assert_eq!(t.step(), None);
    assert_eq!(t.step(), None);
    assert_eq!(t.state(), State::BeforeAttributeName);
    assert_eq!(t.step(), None);
    assert_eq!(t.step(), None);
    assert_eq!(t.step(), None);
    assert_eq!(t.step(), None);
    assert_eq!(t.step(), None);
    assert_eq!(t.step(), None);
    assert_eq!(t.step(), None);
    assert_eq!(t.state(), State::BeforeAttributeValue);
    assert_eq!(t.step(), None);
    assert_eq!(t.state(), State::AttributeValueDoubleQuoted);
    assert_eq!(t.step(), None);
    assert_eq!(t.state(), State::AttributeValueDoubleQuoted);
    assert_eq!(t.step(), None);
    assert_eq!(t.state(), State::AfterAttributeValueQuoted);
    assert_eq!(
        t.next_token(),
        Some(Token::Tag(TagToken {
            kind: TagKind::Start,
            name: "div".into(),
            attrs: vec![("class".into(), "x".into())],
            self_closing: false,
        }))
    );
    assert_eq!(t.state(), State::Data);
}

#[test]
fn attr_single_quoted_value() {
    let mut t = HtmlTokenizer::new("<input type='text'>");
    assert_eq!(t.step(), None);
    assert_eq!(t.step(), None);
    for _ in 0..4 {
        assert_eq!(t.step(), None);
    }
    assert_eq!(t.step(), None);
    for _ in 0..5 {
        assert_eq!(t.step(), None);
    }
    assert_eq!(t.step(), None);
    assert_eq!(t.state(), State::BeforeAttributeValue);
    assert_eq!(t.step(), None);
    assert_eq!(t.state(), State::AttributeValueSingleQuoted);
    for _ in 0..4 {
        assert_eq!(t.step(), None);
    }
    assert_eq!(t.step(), None);
    assert_eq!(
        t.next_token(),
        Some(Token::Tag(TagToken {
            kind: TagKind::Start,
            name: "input".into(),
            attrs: vec![("type".into(), "text".into())],
            self_closing: false,
        }))
    );
}

#[test]
fn attr_unquoted_value() {
    let mut t = HtmlTokenizer::new("<a href=x>");
    assert_eq!(t.step(), None);
    assert_eq!(t.step(), None);
    assert_eq!(t.step(), None);
    assert_eq!(t.state(), State::BeforeAttributeName);
    for _ in 0..5 {
        assert_eq!(t.step(), None);
    }
    assert_eq!(t.step(), None);
    assert_eq!(t.state(), State::BeforeAttributeValue);
    assert_eq!(t.step(), None);
    assert_eq!(t.state(), State::AttributeValueUnquoted);
    assert_eq!(t.step(), None);
    assert_eq!(
        t.next_token(),
        Some(Token::Tag(TagToken {
            kind: TagKind::Start,
            name: "a".into(),
            attrs: vec![("href".into(), "x".into())],
            self_closing: false,
        }))
    );
}

#[test]
fn attr_multiple_attributes() {
    let mut t = HtmlTokenizer::new("<div id=\"a\" class=\"b\">");
    assert_eq!(t.step(), None);
    assert_eq!(t.step(), None);
    assert_eq!(t.step(), None);
    assert_eq!(t.step(), None);
    assert_eq!(t.step(), None);
    assert_eq!(t.state(), State::BeforeAttributeName);
    assert_eq!(t.step(), None);
    assert_eq!(t.step(), None);
    assert_eq!(t.step(), None);
    assert_eq!(t.step(), None);
    assert_eq!(t.state(), State::BeforeAttributeValue);
    assert_eq!(t.step(), None);
    assert_eq!(t.state(), State::AttributeValueDoubleQuoted);
    assert_eq!(t.step(), None);
    assert_eq!(t.step(), None);
    assert_eq!(t.state(), State::AfterAttributeValueQuoted);
    assert_eq!(t.step(), None);
    assert_eq!(t.state(), State::BeforeAttributeName);
    for _ in 0..6 {
        assert_eq!(t.step(), None);
    }
    assert_eq!(t.step(), None);
    assert_eq!(t.state(), State::BeforeAttributeValue);
    assert_eq!(t.step(), None);
    assert_eq!(t.state(), State::AttributeValueDoubleQuoted);
    assert_eq!(t.step(), None);
    assert_eq!(t.step(), None);
    assert_eq!(t.state(), State::AfterAttributeValueQuoted);
    let token = t.next_token();
    assert_eq!(
        token,
        Some(Token::Tag(TagToken {
            kind: TagKind::Start,
            name: "div".into(),
            attrs: vec![("id".into(), "a".into()), ("class".into(), "b".into())],
            self_closing: false,
        }))
    );
    assert_eq!(t.state(), State::Data);
}

#[test]
fn attr_boolean_attribute() {
    let mut t = HtmlTokenizer::new("<input disabled>");
    assert_eq!(t.step(), None);
    assert_eq!(t.step(), None);
    for _ in 0..4 {
        assert_eq!(t.step(), None);
    }
    assert_eq!(t.step(), None);
    for _ in 0..9 {
        assert_eq!(t.step(), None);
    }
    let token = t.next_token();
    assert_eq!(
        token,
        Some(Token::Tag(TagToken {
            kind: TagKind::Start,
            name: "input".into(),
            attrs: vec![("disabled".into(), "".into())],
            self_closing: false,
        }))
    );
}

#[test]
fn attr_name_lowercases_ascii_upper() {
    let mut t = HtmlTokenizer::new("<div CLASS=\"x\">");
    assert_eq!(t.step(), None);
    assert_eq!(t.step(), None);
    assert_eq!(t.step(), None);
    assert_eq!(t.step(), None);
    assert_eq!(t.step(), None);
    for _ in 0..6 {
        assert_eq!(t.step(), None);
    }
    assert_eq!(t.step(), None);
    assert_eq!(t.step(), None);
    assert_eq!(t.step(), None);
    assert_eq!(t.step(), None);
    let token = t.next_token();
    assert_eq!(
        token,
        Some(Token::Tag(TagToken {
            kind: TagKind::Start,
            name: "div".into(),
            attrs: vec![("class".into(), "x".into())],
            self_closing: false,
        }))
    );
}

#[test]
fn attr_name_preserves_non_ascii() {
    let mut t = HtmlTokenizer::new("<div café=\"oui\">");
    assert_eq!(t.step(), None);
    assert_eq!(t.step(), None);
    assert_eq!(t.step(), None);
    assert_eq!(t.step(), None);
    assert_eq!(t.step(), None);
    for _ in 0..5 {
        assert_eq!(t.step(), None);
    }
    assert_eq!(t.step(), None);
    assert_eq!(t.step(), None);
    assert_eq!(t.step(), None);
    assert_eq!(t.step(), None);
    assert_eq!(t.step(), None);
    assert_eq!(t.step(), None);
    let token = t.next_token();
    assert_eq!(
        token,
        Some(Token::Tag(TagToken {
            kind: TagKind::Start,
            name: "div".into(),
            attrs: vec![("café".into(), "oui".into())],
            self_closing: false,
        }))
    );
}

#[test]
fn e2e_attr_and_self_closing() {
    let mut t = HtmlTokenizer::new("<input type='text'/>");
    assert_eq!(t.step(), None);
    assert_eq!(t.step(), None);
    for _ in 0..4 {
        assert_eq!(t.step(), None);
    }
    assert_eq!(t.step(), None);
    for _ in 0..5 {
        assert_eq!(t.step(), None);
    }
    assert_eq!(t.step(), None);
    assert_eq!(t.step(), None);
    for _ in 0..4 {
        assert_eq!(t.step(), None);
    }
    assert_eq!(t.step(), None);
    assert_eq!(t.step(), None);
    assert_eq!(
        t.next_token(),
        Some(Token::Tag(TagToken {
            kind: TagKind::Start,
            name: "input".into(),
            attrs: vec![("type".into(), "text".into())],
            self_closing: true,
        }))
    );
    assert_eq!(t.next_token(), Some(Token::EOF));
}

fn enter_content_model(input: &str, state: State, end_tag: Option<&str>) -> HtmlTokenizer {
    let mut t = HtmlTokenizer::new(input);
    t.set_state(state);
    t.set_appropriate_end_tag_name(end_tag);
    t
}

#[test]
fn rcdata_emits_characters() {
    let mut t = enter_content_model("hello", State::RCDATA, Some("title"));
    assert_eq!(t.next_token(), Some(Token::Character('h')));
    assert_eq!(t.next_token(), Some(Token::Character('e')));
    assert_eq!(t.next_token(), Some(Token::Character('l')));
    assert_eq!(t.next_token(), Some(Token::Character('l')));
    assert_eq!(t.next_token(), Some(Token::Character('o')));
}

#[test]
fn rcdata_lt_switches_to_less_than_sign() {
    let mut t = enter_content_model("<", State::RCDATA, Some("title"));
    assert_eq!(t.step(), None);
    assert_eq!(t.state(), State::RCDATALessThanSign);
}

#[test]
fn rcdata_ampersand_switches_to_charref() {
    let mut t = enter_content_model("&", State::RCDATA, Some("title"));
    assert_eq!(t.step(), None);
    assert_eq!(t.state(), State::CharacterReference);
}

#[test]
fn rcdata_null_emits_replacement_char() {
    let mut t = enter_content_model("\0", State::RCDATA, Some("title"));
    assert_eq!(t.next_token(), Some(Token::Character('\u{FFFD}')));
}

#[test]
fn rcdata_eof_emits_eof() {
    let mut t = enter_content_model("", State::RCDATA, Some("title"));
    assert_eq!(t.next_token(), Some(Token::EOF));
}

#[test]
fn rcdata_end_tag_match() {
    let mut t = enter_content_model("</title>", State::RCDATA, Some("title"));
    assert_eq!(t.step(), None);
    assert_eq!(t.step(), None);
    assert_eq!(t.step(), None);
    assert_eq!(t.step(), None);
    assert_eq!(t.step(), None);
    assert_eq!(t.step(), None);
    assert_eq!(t.step(), None);
    assert_eq!(
        t.next_token(),
        Some(Token::Tag(TagToken {
            kind: TagKind::End,
            name: "title".into(),
            attrs: vec![],
            self_closing: false,
        }))
    );
    assert_eq!(t.state(), State::Data);
}

#[test]
fn rcdata_end_tag_no_match_backout() {
    let mut t = enter_content_model("</div>x", State::RCDATA, Some("title"));
    assert_eq!(t.step(), None);
    assert_eq!(t.step(), None);
    assert_eq!(t.step(), None);
    assert_eq!(t.step(), None);
    assert_eq!(t.step(), None);
    assert_eq!(t.step(), None);
    assert_eq!(t.next_token(), Some(Token::Character('<')));
    assert_eq!(t.next_token(), Some(Token::Character('/')));
    assert_eq!(t.next_token(), Some(Token::Character('d')));
    assert_eq!(t.next_token(), Some(Token::Character('i')));
    assert_eq!(t.next_token(), Some(Token::Character('v')));
    assert_eq!(t.next_token(), Some(Token::Character('>')));
    assert_eq!(t.state(), State::RCDATA);
    assert_eq!(t.next_token(), Some(Token::Character('x')));
}

#[test]
fn rawtext_emits_characters() {
    let mut t = enter_content_model("hello", State::RAWTEXT, Some("style"));
    assert_eq!(t.next_token(), Some(Token::Character('h')));
    assert_eq!(t.next_token(), Some(Token::Character('e')));
    assert_eq!(t.next_token(), Some(Token::Character('l')));
    assert_eq!(t.next_token(), Some(Token::Character('l')));
    assert_eq!(t.next_token(), Some(Token::Character('o')));
}

#[test]
fn rawtext_ampersand_is_literal() {
    let mut t = enter_content_model("&amp;", State::RAWTEXT, Some("style"));
    assert_eq!(t.next_token(), Some(Token::Character('&')));
    assert_eq!(t.next_token(), Some(Token::Character('a')));
    assert_eq!(t.next_token(), Some(Token::Character('m')));
    assert_eq!(t.next_token(), Some(Token::Character('p')));
    assert_eq!(t.next_token(), Some(Token::Character(';')));
}

#[test]
fn rawtext_lt_switches_to_less_than_sign() {
    let mut t = enter_content_model("<", State::RAWTEXT, Some("style"));
    assert_eq!(t.step(), None);
    assert_eq!(t.state(), State::RAWTEXTLessThanSign);
}

#[test]
fn rawtext_end_tag_match() {
    let mut t = enter_content_model("</style>", State::RAWTEXT, Some("style"));
    assert_eq!(t.step(), None);
    assert_eq!(t.step(), None);
    for _ in 0..5 {
        assert_eq!(t.step(), None);
    }
    assert_eq!(
        t.next_token(),
        Some(Token::Tag(TagToken {
            kind: TagKind::End,
            name: "style".into(),
            attrs: vec![],
            self_closing: false,
        }))
    );
    assert_eq!(t.state(), State::Data);
}

#[test]
fn rawtext_end_tag_no_match_backout() {
    let mut t = enter_content_model("</div>x", State::RAWTEXT, Some("style"));
    assert_eq!(t.step(), None);
    assert_eq!(t.step(), None);
    for _ in 0..3 {
        assert_eq!(t.step(), None);
    }
    assert_eq!(t.step(), None);
    assert_eq!(t.next_token(), Some(Token::Character('<')));
    assert_eq!(t.next_token(), Some(Token::Character('/')));
    assert_eq!(t.next_token(), Some(Token::Character('d')));
    assert_eq!(t.next_token(), Some(Token::Character('i')));
    assert_eq!(t.next_token(), Some(Token::Character('v')));
    assert_eq!(t.next_token(), Some(Token::Character('>')));
    assert_eq!(t.state(), State::RAWTEXT);
    assert_eq!(t.next_token(), Some(Token::Character('x')));
}

#[test]
fn rawtext_end_tag_no_appropriate_end_tag() {
    let mut t = enter_content_model("</style>x", State::RAWTEXT, None);
    assert_eq!(t.step(), None);
    assert_eq!(t.step(), None);
    for _ in 0..5 {
        assert_eq!(t.step(), None);
    }
    assert_eq!(t.step(), None);
    assert_eq!(t.next_token(), Some(Token::Character('<')));
    assert_eq!(t.next_token(), Some(Token::Character('/')));
    assert_eq!(t.next_token(), Some(Token::Character('s')));
    assert_eq!(t.next_token(), Some(Token::Character('t')));
    assert_eq!(t.next_token(), Some(Token::Character('y')));
    assert_eq!(t.next_token(), Some(Token::Character('l')));
    assert_eq!(t.next_token(), Some(Token::Character('e')));
}

#[test]
fn rawtext_end_tag_name_eof() {
    let mut t = enter_content_model("</sty", State::RAWTEXT, Some("style"));
    assert_eq!(t.step(), None);
    assert_eq!(t.step(), None);
    for _ in 0..3 {
        assert_eq!(t.step(), None);
    }
    assert_eq!(t.step(), None);
    assert_eq!(t.next_token(), Some(Token::Character('<')));
    assert_eq!(t.next_token(), Some(Token::Character('/')));
    assert_eq!(t.next_token(), Some(Token::Character('s')));
    assert_eq!(t.next_token(), Some(Token::Character('t')));
    assert_eq!(t.next_token(), Some(Token::Character('y')));
    assert_eq!(t.state(), State::RAWTEXT);
    assert_eq!(t.next_token(), Some(Token::EOF));
}

#[test]
fn plaintext_emits_everything_literally() {
    let mut t = enter_content_model("<div>&amp;</div>", State::PLAINTEXT, None);
    for expected in "<div>&amp;</div>".chars() {
        assert_eq!(t.next_token(), Some(Token::Character(expected)));
    }
}

#[test]
fn plaintext_null_emits_replacement_char() {
    let mut t = enter_content_model("\0x", State::PLAINTEXT, None);
    assert_eq!(t.next_token(), Some(Token::Character('\u{FFFD}')));
    assert_eq!(t.next_token(), Some(Token::Character('x')));
}

#[test]
fn plaintext_eof_emits_eof() {
    let mut t = enter_content_model("", State::PLAINTEXT, None);
    assert_eq!(t.next_token(), Some(Token::EOF));
}

#[test]
fn script_data_emits_characters() {
    let mut t = enter_content_model("abc", State::ScriptData, Some("script"));
    assert_eq!(t.next_token(), Some(Token::Character('a')));
    assert_eq!(t.next_token(), Some(Token::Character('b')));
    assert_eq!(t.next_token(), Some(Token::Character('c')));
}

#[test]
fn script_data_null_emits_replacement_char() {
    let mut t = enter_content_model("\0", State::ScriptData, Some("script"));
    assert_eq!(t.next_token(), Some(Token::Character('\u{FFFD}')));
}

#[test]
fn script_data_ampersand_is_literal() {
    let mut t = enter_content_model("&amp;", State::ScriptData, Some("script"));
    assert_eq!(t.next_token(), Some(Token::Character('&')));
    assert_eq!(t.next_token(), Some(Token::Character('a')));
}

#[test]
fn script_data_lt_switches_to_less_than_sign() {
    let mut t = enter_content_model("<", State::ScriptData, Some("script"));
    assert_eq!(t.step(), None);
    assert_eq!(t.state(), State::ScriptDataLessThanSign);
}

#[test]
fn script_data_lt_excl_to_escape_start() {
    let mut t = enter_content_model("<!", State::ScriptData, Some("script"));
    assert_eq!(t.step(), None);
    assert_eq!(t.step(), Some(Token::Character('<')));
    assert_eq!(t.step(), Some(Token::Character('!')));
    assert_eq!(t.state(), State::ScriptDataEscapeStart);
}

#[test]
fn script_data_escape_start_dash_chain() {
    let mut t = enter_content_model("<!--", State::ScriptData, Some("script"));
    assert_eq!(t.step(), None);
    assert_eq!(t.step(), Some(Token::Character('<')));
    assert_eq!(t.step(), Some(Token::Character('!')));
    assert_eq!(t.step(), Some(Token::Character('-')));
    assert_eq!(t.step(), Some(Token::Character('-')));
    assert_eq!(t.state(), State::ScriptDataEscapedDashDash);
}

#[test]
fn script_data_end_tag_match() {
    let mut t = enter_content_model("</script>", State::ScriptData, Some("script"));
    assert_eq!(t.step(), None);
    assert_eq!(t.step(), None);
    for _ in 0..6 {
        assert_eq!(t.step(), None);
    }
    assert_eq!(
        t.next_token(),
        Some(Token::Tag(TagToken {
            kind: TagKind::End,
            name: "script".into(),
            attrs: vec![],
            self_closing: false,
        }))
    );
    assert_eq!(t.state(), State::Data);
}

#[test]
fn script_data_end_tag_no_match_backout() {
    let mut t = enter_content_model("</div>x", State::ScriptData, Some("script"));
    assert_eq!(t.step(), None);
    assert_eq!(t.step(), None);
    for _ in 0..3 {
        assert_eq!(t.step(), None);
    }
    assert_eq!(t.step(), None);
    assert_eq!(t.next_token(), Some(Token::Character('<')));
    assert_eq!(t.next_token(), Some(Token::Character('/')));
    assert_eq!(t.next_token(), Some(Token::Character('d')));
    assert_eq!(t.next_token(), Some(Token::Character('i')));
    assert_eq!(t.next_token(), Some(Token::Character('v')));
    assert_eq!(t.next_token(), Some(Token::Character('>')));
    assert_eq!(t.state(), State::ScriptData);
}

#[test]
fn script_data_escaped_emits_chars() {
    let mut t = enter_content_model("x", State::ScriptDataEscaped, Some("script"));
    assert_eq!(t.next_token(), Some(Token::Character('x')));
}

#[test]
fn script_data_escaped_dash_dash_gt_exits_escape() {
    let mut t = enter_content_model("-->", State::ScriptDataEscaped, Some("script"));
    assert_eq!(t.next_token(), Some(Token::Character('-')));
    assert_eq!(t.next_token(), Some(Token::Character('-')));
    assert_eq!(t.next_token(), Some(Token::Character('>')));
    assert_eq!(t.state(), State::ScriptData);
}

#[test]
fn script_data_escaped_lt_alpha_to_double_escape_start() {
    let mut t = enter_content_model("<s", State::ScriptDataEscaped, Some("script"));
    assert_eq!(t.step(), None);
    assert_eq!(t.step(), Some(Token::Character('<')));
    assert_eq!(t.step(), Some(Token::Character('s')));
    assert_eq!(t.state(), State::ScriptDataDoubleEscapeStart);
}

#[test]
fn script_data_double_escape_start_script_match() {
    let mut t = enter_content_model(
        "script/",
        State::ScriptDataDoubleEscapeStart,
        Some("script"),
    );
    for ch in "script".chars() {
        assert_eq!(t.next_token(), Some(Token::Character(ch)));
    }
    assert_eq!(t.next_token(), Some(Token::Character('/')));
    assert_eq!(t.state(), State::ScriptDataDoubleEscaped);
}

#[test]
fn script_data_double_escape_start_not_script() {
    let mut t = enter_content_model("foo ", State::ScriptDataDoubleEscapeStart, Some("script"));
    for ch in "foo".chars() {
        assert_eq!(t.next_token(), Some(Token::Character(ch)));
    }
    assert_eq!(t.next_token(), Some(Token::Character(' ')));
    assert_eq!(t.state(), State::ScriptDataEscaped);
}

#[test]
fn script_data_double_escaped_emits_chars() {
    let mut t = enter_content_model("hi", State::ScriptDataDoubleEscaped, Some("script"));
    assert_eq!(t.next_token(), Some(Token::Character('h')));
    assert_eq!(t.next_token(), Some(Token::Character('i')));
}

#[test]
fn script_data_double_escaped_lt_emits_lt() {
    let mut t = enter_content_model("<", State::ScriptDataDoubleEscaped, Some("script"));
    assert_eq!(t.next_token(), Some(Token::Character('<')));
    assert_eq!(t.state(), State::ScriptDataDoubleEscapedLessThanSign);
}

#[test]
fn script_data_double_escaped_dash_dash_gt_to_script_data() {
    let mut t = enter_content_model("-->", State::ScriptDataDoubleEscaped, Some("script"));
    assert_eq!(t.next_token(), Some(Token::Character('-')));
    assert_eq!(t.next_token(), Some(Token::Character('-')));
    assert_eq!(t.next_token(), Some(Token::Character('>')));
    assert_eq!(t.state(), State::ScriptData);
}

#[test]
fn script_data_double_escape_end_script_match() {
    let mut t =
        enter_content_model("</script/", State::ScriptDataDoubleEscaped, Some("script"));
    assert_eq!(t.next_token(), Some(Token::Character('<')));
    assert_eq!(t.state(), State::ScriptDataDoubleEscapedLessThanSign);
    assert_eq!(t.step(), None);
    assert_eq!(t.next_token(), Some(Token::Character('/')));
    assert_eq!(t.state(), State::ScriptDataDoubleEscapeEnd);
    for ch in "script".chars() {
        assert_eq!(t.next_token(), Some(Token::Character(ch)));
    }
    assert_eq!(t.next_token(), Some(Token::Character('/')));
    assert_eq!(t.state(), State::ScriptDataEscaped);
}

#[test]
fn char_ref_named_amp() {
    let mut t = HtmlTokenizer::new("&amp;");
    for _ in 0..2 {
        assert_eq!(t.step(), None);
    }
    assert_eq!(t.next_token(), Some(Token::Character('&')));
}

#[test]
fn char_ref_named_lt() {
    let mut t = HtmlTokenizer::new("&lt;");
    for _ in 0..2 {
        assert_eq!(t.step(), None);
    }
    assert_eq!(t.next_token(), Some(Token::Character('<')));
}

#[test]
fn char_ref_named_gt() {
    let mut t = HtmlTokenizer::new("&gt;");
    for _ in 0..2 {
        assert_eq!(t.step(), None);
    }
    assert_eq!(t.next_token(), Some(Token::Character('>')));
}

#[test]
fn char_ref_named_quot() {
    let mut t = HtmlTokenizer::new("&quot;");
    for _ in 0..2 {
        assert_eq!(t.step(), None);
    }
    assert_eq!(t.next_token(), Some(Token::Character('"')));
}

#[test]
fn char_ref_numeric_decimal() {
    let mut t = HtmlTokenizer::new("&#60;");
    for _ in 0..7 {
        assert_eq!(t.step(), None);
    }
    assert_eq!(t.next_token(), Some(Token::Character('<')));
}

#[test]
fn char_ref_numeric_hex() {
    let mut t = HtmlTokenizer::new("&#x3C;");
    for _ in 0..7 {
        assert_eq!(t.step(), None);
    }
    assert_eq!(t.next_token(), Some(Token::Character('<')));
}

#[test]
fn char_ref_not_a_ref_space() {
    let mut t = HtmlTokenizer::new("& a");
    assert_eq!(t.step(), None);
    assert_eq!(t.next_token(), Some(Token::Character('&')));
    assert_eq!(t.next_token(), Some(Token::Character(' ')));
    assert_eq!(t.next_token(), Some(Token::Character('a')));
}

#[test]
fn char_ref_ampersand_not_ref() {
    let mut t = HtmlTokenizer::new("&&");
    assert_eq!(t.step(), None);
    assert_eq!(t.next_token(), Some(Token::Character('&')));
    assert_eq!(t.step(), None);
    assert_eq!(t.next_token(), Some(Token::Character('&')));
}

#[test]
fn char_ref_numeric_null() {
    let mut t = HtmlTokenizer::new("&#x00;");
    for _ in 0..7 {
        assert_eq!(t.step(), None);
    }
    assert_eq!(t.next_token(), Some(Token::Character('\u{FFFD}')));
}

#[test]
fn char_ref_numeric_win1252() {
    let mut t = HtmlTokenizer::new("&#x80;");
    for _ in 0..7 {
        assert_eq!(t.step(), None);
    }
    assert_eq!(t.next_token(), Some(Token::Character('\u{20AC}')));
}

#[test]
fn char_ref_unknown_entity_ambiguous() {
    let mut t = HtmlTokenizer::new("&unknownfoo;");
    assert_eq!(next_real_token(&mut t), Token::Character('&'));
    assert_eq!(next_real_token(&mut t), Token::Character('u'));
    assert_eq!(next_real_token(&mut t), Token::Character('n'));
    assert_eq!(next_real_token(&mut t), Token::Character('k'));
    assert_eq!(next_real_token(&mut t), Token::Character('n'));
    assert_eq!(next_real_token(&mut t), Token::Character('o'));
    assert_eq!(next_real_token(&mut t), Token::Character('w'));
    assert_eq!(next_real_token(&mut t), Token::Character('n'));
    assert_eq!(next_real_token(&mut t), Token::Character('f'));
    assert_eq!(next_real_token(&mut t), Token::Character('o'));
    assert_eq!(next_real_token(&mut t), Token::Character('o'));
    assert_eq!(next_real_token(&mut t), Token::Character(';'));
}

#[test]
fn char_ref_notin_entity() {
    let mut t = HtmlTokenizer::new("&notin;");
    for _ in 0..2 {
        assert_eq!(t.step(), None);
    }
    assert_eq!(t.next_token(), Some(Token::Character('\u{2209}')));
}

#[test]
fn char_ref_e2e_data_state() {
    let mut t = HtmlTokenizer::new("&lt;a&gt;");
    for _ in 0..2 {
        assert_eq!(t.step(), None);
    }
    assert_eq!(t.next_token(), Some(Token::Character('<')));
    assert_eq!(t.next_token(), Some(Token::Character('a')));
    for _ in 0..2 {
        assert_eq!(t.step(), None);
    }
    assert_eq!(t.next_token(), Some(Token::Character('>')));
    assert_eq!(t.next_token(), Some(Token::EOF));
}

#[test]
fn cdata_emits_characters() {
    let mut t = HtmlTokenizer::new("<![CDATA[hello]]>");
    assert_eq!(t.step(), None);
    assert_eq!(t.step(), None);
    assert_eq!(t.step(), None);
    assert_eq!(
        t.next_token(),
        Some(Token::Comment("[CDATA[hello]]".to_string()))
    );
    assert_eq!(t.state(), State::Data);
}

#[test]
fn cdata_null_emits_character() {
    let mut t = enter_content_model("\0x", State::CDATASection, None);
    assert_eq!(t.next_token(), Some(Token::Character('\0')));
    assert_eq!(t.next_token(), Some(Token::Character('x')));
}

#[test]
fn cdata_bracket_not_followed_by_bracket() {
    let mut t = enter_content_model("]x", State::CDATASection, None);
    assert_eq!(t.step(), None);
    assert_eq!(t.next_token(), Some(Token::Character(']')));
    assert_eq!(t.next_token(), Some(Token::Character('x')));
}

#[test]
fn cdata_double_bracket_then_not_gt() {
    let mut t = enter_content_model("]]x", State::CDATASection, None);
    assert_eq!(t.step(), None);
    assert_eq!(t.step(), None);
    assert_eq!(t.step(), None);
    assert_eq!(t.next_token(), Some(Token::Character(']')));
    assert_eq!(t.next_token(), Some(Token::Character(']')));
    assert_eq!(t.next_token(), Some(Token::Character('x')));
}

#[test]
fn cdata_end_extra_bracket() {
    let mut t = enter_content_model("]]]", State::CDATASection, None);
    assert_eq!(t.step(), None);
    assert_eq!(t.step(), None);
    assert_eq!(t.next_token(), Some(Token::Character(']')));
}

fn collect_tokens(input: &str) -> Vec<Token> {
    let mut t = HtmlTokenizer::new(input);
    let mut out = Vec::new();
    while let Some(tok) = t.next_token() {
        out.push(tok);
    }
    out
}

#[test]
fn named_entity_legacy_with_semi_resolves() {
    let tokens = collect_tokens("&amp;");
    assert_eq!(tokens, vec![Token::Character('&'), Token::EOF]);
}

#[test]
fn named_entity_legacy_without_semi_resolves() {
    let tokens = collect_tokens("&amp");
    assert_eq!(tokens, vec![Token::Character('&'), Token::EOF]);
}

#[test]
fn non_legacy_entity_with_semi_resolves() {
    let tokens = collect_tokens("&Abreve;");
    assert_eq!(tokens, vec![Token::Character('\u{0102}'), Token::EOF]);
}

#[test]
fn non_legacy_entity_without_semi_is_literal() {
    let tokens = collect_tokens("&Abreve");
    let mut expected: Vec<Token> = "&Abreve".chars().map(Token::Character).collect();
    expected.push(Token::EOF);
    assert_eq!(tokens, expected);
}

#[test]
fn unknown_entity_with_semi_is_literal() {
    let tokens = collect_tokens("&rrrraannddom;");
    let mut expected: Vec<Token> = "&rrrraannddom;".chars().map(Token::Character).collect();
    expected.push(Token::EOF);
    assert_eq!(tokens, expected);
}

#[test]
fn attr_value_entity_no_extra_character_token() {
    let tokens = collect_tokens("<h a=\"&amp;\">");
    assert_eq!(tokens.len(), 2);
    match &tokens[0] {
        Token::Tag(tg) => {
            assert_eq!(tg.name, "h");
            assert_eq!(tg.kind, TagKind::Start);
            assert_eq!(tg.attrs.len(), 1);
            assert_eq!(tg.attrs[0].0, "a");
            assert_eq!(tg.attrs[0].1, "&");
        }
        other => panic!("expected StartTag, got {:?}", other),
    }
    assert_eq!(tokens[1], Token::EOF);
}

#[test]
fn attr_context_not_equals_is_literal() {
    let tokens = collect_tokens("<h a=\"&not=\">");
    assert_eq!(tokens.len(), 2);
    match &tokens[0] {
        Token::Tag(tg) => {
            assert_eq!(tg.name, "h");
            assert_eq!(tg.attrs[0].0, "a");
            assert_eq!(tg.attrs[0].1, "&not=");
        }
        other => panic!("expected StartTag, got {:?}", other),
    }
}
