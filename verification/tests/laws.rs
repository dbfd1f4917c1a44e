use muskitty_html5_tokenizer::{DoctypeToken, HtmlTokenizer, State, TagKind, TagToken, Token, Tokenizer};

fn tokens(t: &mut HtmlTokenizer) -> Vec<Token> {
    let mut all = Vec::new();
    while let Some(token) = t.next_token() {
        all.push(token);
    }
    all
}

fn tokenize(input: &str) -> Vec<Token> {
    tokens(&mut HtmlTokenizer::new(input))
}

fn tokenize_in(input: &str, state: State, end_tag: Option<&str>) -> Vec<Token> {
    let mut t = HtmlTokenizer::new(input);
    t.set_state(state);
    t.set_appropriate_end_tag_name(end_tag);
    tokens(&mut t)
}

fn text(s: &str) -> Vec<Token> {
    s.chars().map(Token::Character).collect()
}

fn text_then(s: &str, rest: Vec<Token>) -> Vec<Token> {
    let mut all = text(s);
    all.extend(rest);
    all
}

fn tag(kind: TagKind, name: &str, attrs: &[(&str, &str)], self_closing: bool) -> Token {
    Token::Tag(TagToken {
        kind,
        name: name.to_string(),
        attrs: attrs.iter().map(|(n, v)| (n.to_string(), v.to_string())).collect(),
        self_closing,
    })
}

fn start(name: &str, attrs: &[(&str, &str)]) -> Token {
    tag(TagKind::Start, name, attrs, false)
}

fn end(name: &str) -> Token {
    tag(TagKind::End, name, &[], false)
}

fn doctype(name: &str, public_id: Option<&str>, system_id: Option<&str>, quirks: bool) -> Token {
    Token::Doctype(DoctypeToken {
        name: Some(name.to_string()),
        public_id: public_id.map(|s| s.to_string()),
        system_id: system_id.map(|s| s.to_string()),
        force_quirks: quirks,
    })
}

fn comment(s: &str) -> Token {
    Token::Comment(s.to_string())
}

fn instruction(target: &str, data: &str) -> Token {
    Token::ProcessingInstruction { target: target.to_string(), data: data.to_string() }
}

const SAMPLES: [&str; 24] = [
    "",
    "plain",
    "<",
    "</",
    "</>",
    "<!",
    "<!-",
    "<!--",
    "<!---",
    "<!--a--!",
    "<?",
    "<?x",
    "<?x y?",
    "<a",
    "<a ",
    "<a b",
    "<a b=",
    "<a b='c",
    "<a b=c&amp",
    "<!DOCTYPE",
    "<!doctype html PUBLIC 'a' \"b",
    "&#x",
    "&#99999999999;",
    "<p class=\"a\" class='b'>x&lt;y</p><br/><!-- c --><![CDATA[d]]>",
];

#[test]
fn tokens_end_with_one_end_of_file() {
    for input in SAMPLES {
        let all = tokenize(input);
        assert_eq!(all.last(), Some(&Token::EOF), "{input}");
        assert_eq!(all.iter().filter(|t| **t == Token::EOF).count(), 1, "{input}");
    }
}

#[test]
fn nothing_follows_the_end_of_file() {
    for input in SAMPLES {
        let mut t = HtmlTokenizer::new(input);
        tokens(&mut t);
        assert_eq!(t.next_token(), None, "{input}");
        assert_eq!(t.step(), None, "{input}");
    }
}

#[test]
fn every_state_comes_to_an_end() {
    let states = [
        State::Data,
        State::RCDATA,
        State::RAWTEXT,
        State::ScriptData,
        State::PLAINTEXT,
        State::CDATASection,
        State::BogusComment,
        State::Comment,
        State::CommentEnd,
        State::Doctype,
        State::BogusDoctype,
        State::ScriptDataEscaped,
        State::ScriptDataDoubleEscaped,
        State::CharacterReference,
        State::ProcessingInstructionOpen,
        State::MarkupDeclarationOpen,
    ];
    for state in states {
        for input in ["", "x", "-->", "]]>", "<a>&amp;</a>", "&#x41;"] {
            let all = tokenize_in(input, state, None);
            assert_eq!(all.last(), Some(&Token::EOF), "{state:?} {input}");
        }
    }
}

#[test]
fn a_very_long_comment_is_one_token() {
    let body = "x".repeat(1_500_000);
    let all = tokenize(&format!("<!--{body}-->"));
    assert_eq!(all.len(), 2);
    assert_eq!(all[0], comment(&body));
}

#[test]
fn next_token_takes_the_steps_that_emit() {
    for input in SAMPLES {
        let mut t = HtmlTokenizer::new(input);
        let mut all = Vec::new();
        loop {
            let token = t.step();
            let last = token == Some(Token::EOF);
            all.extend(token);
            if last {
                break;
            }
        }
        assert_eq!(all, tokenize(input), "{input}");
    }
}

#[test]
fn reset_begins_anew_with_the_same_input() {
    for input in SAMPLES {
        let mut t = HtmlTokenizer::new(input);
        t.set_foreign_content(true);
        t.set_appropriate_end_tag_name(Some("p"));
        t.next_token();
        t.set_state(State::PLAINTEXT);
        t.next_token();
        t.reset();
        assert_eq!(t.state(), State::Data);
        assert_eq!(tokens(&mut t), tokenize(input), "{input}");
    }
}

#[test]
fn the_state_that_is_set_is_the_state() {
    let mut t = HtmlTokenizer::new("x");
    for state in [State::RCDATA, State::TagName, State::NumericCharacterReferenceEnd, State::Data] {
        t.set_state(state);
        assert_eq!(t.state(), state);
    }
}

#[test]
fn switching_between_tokens_changes_how_content_is_read() {
    let mut t = HtmlTokenizer::new("<title><b>&lt;</title><b>");
    assert_eq!(t.next_token(), Some(start("title", &[])));
    t.set_state(State::RCDATA);
    t.set_appropriate_end_tag_name(Some("title"));
    assert_eq!(tokens(&mut t), text_then("<b><", vec![end("title"), start("b", &[]), Token::EOF]));
}

#[test]
fn text_without_markup_is_literal() {
    assert_eq!(tokenize("a > b ; \0 \u{1F600}"), text_then("a > b ; \0 \u{1F600}", vec![Token::EOF]));
}

#[test]
fn plaintext_takes_everything_for_text() {
    assert_eq!(
        tokenize_in("a</plaintext>&amp;<!--\0", State::PLAINTEXT, Some("plaintext")),
        text_then("a</plaintext>&amp;<!--\u{FFFD}", vec![Token::EOF])
    );
}

#[test]
fn rawtext_ends_with_its_first_end_tag() {
    assert_eq!(
        tokenize_in("a&amp;<b></ti</styl></</StYlE>x", State::RAWTEXT, Some("style")),
        text_then("a&amp;<b></ti</styl></", vec![end("style"), Token::Character('x'), Token::EOF])
    );
}

#[test]
fn rcdata_ends_with_its_first_end_tag() {
    assert_eq!(
        tokenize_in("<<</title</title>", State::RCDATA, Some("title")),
        text_then("<<</title", vec![end("title"), Token::EOF])
    );
}

#[test]
fn a_closing_end_tag_may_hold_attributes() {
    assert_eq!(
        tokenize_in("x</title a=b/>", State::RCDATA, Some("title")),
        text_then("x", vec![tag(TagKind::End, "title", &[("a", "b/")], false), Token::EOF])
    );
    assert_eq!(
        tokenize_in("x</title/>", State::RCDATA, Some("title")),
        text_then("x", vec![tag(TagKind::End, "title", &[], true), Token::EOF])
    );
}

#[test]
fn content_that_nothing_closes_is_text() {
    let input = "a</title>b</x></script >\0</";
    let shown = "a</title>b</x></script >\u{FFFD}</";
    for state in [State::RCDATA, State::RAWTEXT, State::ScriptData, State::ScriptDataEscaped] {
        assert_eq!(tokenize_in(input, state, None), text_then(shown, vec![Token::EOF]));
        assert_eq!(tokenize_in(input, state, Some("h1")), text_then(shown, vec![Token::EOF]));
    }
}

#[test]
fn scripts_are_literal_whatever_escapes_they_hold() {
    let input = "a<!b<!-c<!--d-e--f<g<script x</script y<script>--<!--z--></scriptx>-->\0<!-->--";
    let shown = input.replace('\0', "\u{FFFD}");
    assert_eq!(tokenize_in(input, State::ScriptData, None), text_then(&shown, vec![Token::EOF]));
    assert_eq!(
        tokenize_in(input, State::ScriptData, Some("nothing")),
        text_then(&shown, vec![Token::EOF])
    );
}

#[test]
fn a_double_escape_hides_the_end_tag() {
    assert_eq!(
        tokenize_in("<!--<script></script>--></script>", State::ScriptData, Some("script")),
        text_then("<!--<script></script>-->", vec![end("script"), Token::EOF])
    );
    assert_eq!(
        tokenize_in("<!--<scripty></script>", State::ScriptData, Some("script")),
        text_then("<!--<scripty>", vec![end("script"), Token::EOF])
    );
}

#[test]
fn sections_are_literal_up_to_their_end() {
    let mut t = HtmlTokenizer::new("<![CDATA[a]b]]c&amp;<\0]]]>d<![CDATA[e]]");
    t.set_foreign_content(true);
    assert_eq!(tokens(&mut t), text_then("a]b]]c&amp;<\0]de]]", vec![Token::EOF]));
}

#[test]
fn sections_outside_foreign_content_are_comments() {
    assert_eq!(
        tokenize("<![CDATA[a\0]]>b"),
        vec![comment("[CDATA[a\u{FFFD}]]"), Token::Character('b'), Token::EOF]
    );
}

#[test]
fn comments_extend_to_the_first_close() {
    assert_eq!(tokenize("<!---->"), vec![comment(""), Token::EOF]);
    assert_eq!(tokenize("<!--a--b-c<!-d<!--->"), vec![comment("a--b-c<!-d<!-"), Token::EOF]);
    assert_eq!(tokenize("<!---a--->"), vec![comment("-a-"), Token::EOF]);
    assert_eq!(tokenize("<!--a--!b-->"), vec![comment("a--!b"), Token::EOF]);
    assert_eq!(tokenize("<!--a\0-->"), vec![comment("a\u{FFFD}"), Token::EOF]);
}

#[test]
fn comments_may_be_cut_short() {
    assert_eq!(tokenize("<!-->a"), vec![comment(""), Token::Character('a'), Token::EOF]);
    assert_eq!(tokenize("<!--->a"), vec![comment(""), Token::Character('a'), Token::EOF]);
    assert_eq!(tokenize("<!--a--!>b"), vec![comment("a"), Token::Character('b'), Token::EOF]);
}

#[test]
fn bogus_comments_extend_to_the_first_close() {
    assert_eq!(tokenize("<!a--\0>b"), vec![comment("a--\u{FFFD}"), Token::Character('b'), Token::EOF]);
    assert_eq!(tokenize("</ a>"), vec![comment(" a"), Token::EOF]);
    assert_eq!(tokenize("<!doc"), vec![comment("doc"), Token::EOF]);
}

#[test]
fn written_tags_are_read_back() {
    assert_eq!(tokenize("<p>"), vec![start("p", &[]), Token::EOF]);
    assert_eq!(tokenize("</h1>"), vec![end("h1"), Token::EOF]);
    assert_eq!(
        tokenize("<a href=\"x y>'\" data-b=\"\" c=\"<\"/>z"),
        vec![
            tag(TagKind::Start, "a", &[("href", "x y>'"), ("data-b", ""), ("c", "<")], true),
            Token::Character('z'),
            Token::EOF
        ]
    );
}

#[test]
fn names_are_lowered_and_values_are_not() {
    assert_eq!(
        tokenize("<DiV\0 Data-X\0='AbC\0' Y=Z>"),
        vec![
            start("div\u{FFFD}", &[("data-x\u{FFFD}", "AbC\u{FFFD}"), ("y", "Z")]),
            Token::EOF
        ]
    );
}

#[test]
fn the_first_of_two_attributes_is_kept() {
    assert_eq!(
        tokenize("<a b=1 c B=2 c='3' d>"),
        vec![start("a", &[("b", "1"), ("c", ""), ("d", "")]), Token::EOF]
    );
}

#[test]
fn self_closing_tags_end_with_solidus() {
    assert_eq!(tokenize("<br/>"), vec![tag(TagKind::Start, "br", &[], true), Token::EOF]);
    assert_eq!(tokenize("<br / >"), vec![start("br", &[]), Token::EOF]);
    assert_eq!(tokenize("<a b=/>"), vec![start("a", &[("b", "/")]), Token::EOF]);
}

#[test]
fn written_doctypes_are_read_back() {
    assert_eq!(tokenize("<!DOCTYPE html>"), vec![doctype("html", None, None, false), Token::EOF]);
    assert_eq!(
        tokenize("<!DOCTYPE html PUBLIC \"p'\">"),
        vec![doctype("html", Some("p'"), None, false), Token::EOF]
    );
    assert_eq!(
        tokenize("<!DOCTYPE html SYSTEM \"\">"),
        vec![doctype("html", None, Some(""), false), Token::EOF]
    );
    assert_eq!(
        tokenize("<!doctype HTML public \"P\" \"S\"x"),
        vec![doctype("html", Some("P"), Some("S"), false), Token::EOF]
    );
}

#[test]
fn two_doctypes_do_not_mix() {
    assert_eq!(
        tokenize("<!DOCTYPE a PUBLIC 'x' 'y'><!DOCTYPE b>"),
        vec![doctype("a", Some("x"), Some("y"), false), doctype("b", None, None, false), Token::EOF]
    );
}

#[test]
fn instructions_extend_to_the_first_close() {
    assert_eq!(tokenize("<?php>"), vec![instruction("php", ""), Token::EOF]);
    assert_eq!(tokenize("<?a?>"), vec![instruction("a", ""), Token::EOF]);
    assert_eq!(tokenize("<?_a-b \t c?d\0??>e"), vec![
        instruction("_a-b", "c?d\0?"),
        Token::Character('e'),
        Token::EOF
    ]);
}

#[test]
fn disallowed_instructions_are_comments() {
    assert_eq!(tokenize("<?xml a?>"), vec![comment("?xml a?"), Token::EOF]);
    assert_eq!(tokenize("<?XML-StyleSheet?>"), vec![comment("?XML-StyleSheet?"), Token::EOF]);
    assert_eq!(tokenize("<?xmlx?>"), vec![instruction("xmlx", ""), Token::EOF]);
    assert_eq!(tokenize("<?1>"), vec![comment("?1"), Token::EOF]);
    assert_eq!(tokenize("<?a+b>"), vec![comment("?a+b"), Token::EOF]);
}

#[test]
fn numbers_are_decoded() {
    assert_eq!(tokenize("&#65;&#x41;&#X4a;"), text_then("AAJ", vec![Token::EOF]));
    assert_eq!(tokenize("&#x1F600;"), text_then("\u{1F600}", vec![Token::EOF]));
    assert_eq!(tokenize("&#65 &#x41g"), text_then("A Ag", vec![Token::EOF]));
    assert_eq!(tokenize("&#0000000000000000000065;"), text_then("A", vec![Token::EOF]));
    assert_eq!(tokenize("&#xD7FF;&#xE000;&#x10FFFF;"), text_then("\u{D7FF}\u{E000}\u{10FFFF}", vec![Token::EOF]));
}

#[test]
fn numbers_without_code_point_are_replaced() {
    for input in ["&#0;", "&#xD800;", "&#xDFFF;", "&#x110000;", "&#4294967295;", "&#4294967361;", "&#99999999999999999999;"] {
        assert_eq!(tokenize(input), text_then("\u{FFFD}", vec![Token::EOF]), "{input}");
    }
}

#[test]
fn numbers_of_control_characters_are_windows_1252() {
    let table = [
        (0x80, '\u{20AC}'),
        (0x81, '\u{81}'),
        (0x82, '\u{201A}'),
        (0x83, '\u{192}'),
        (0x84, '\u{201E}'),
        (0x85, '\u{2026}'),
        (0x86, '\u{2020}'),
        (0x87, '\u{2021}'),
        (0x88, '\u{2C6}'),
        (0x89, '\u{2030}'),
        (0x8A, '\u{160}'),
        (0x8B, '\u{2039}'),
        (0x8C, '\u{152}'),
        (0x8D, '\u{8D}'),
        (0x8E, '\u{17D}'),
        (0x8F, '\u{8F}'),
        (0x90, '\u{90}'),
        (0x91, '\u{2018}'),
        (0x92, '\u{2019}'),
        (0x93, '\u{201C}'),
        (0x94, '\u{201D}'),
        (0x95, '\u{2022}'),
        (0x96, '\u{2013}'),
        (0x97, '\u{2014}'),
        (0x98, '\u{2DC}'),
        (0x99, '\u{2122}'),
        (0x9A, '\u{161}'),
        (0x9B, '\u{203A}'),
        (0x9C, '\u{153}'),
        (0x9D, '\u{9D}'),
        (0x9E, '\u{17E}'),
        (0x9F, '\u{178}'),
    ];
    for (code, c) in table {
        assert_eq!(tokenize(&format!("&#{code};")), vec![Token::Character(c), Token::EOF], "{code}");
    }
}

#[test]
fn ampersands_without_reference_are_text() {
    let input = "& && &# &#; &#x &#X; &#xg &<b>";
    assert_eq!(
        tokenize(input),
        text_then("& && &# &#; &#x &#X; &#xg &", vec![start("b", &[]), Token::EOF])
    );
}

#[test]
fn references_in_values_add_to_the_value() {
    assert_eq!(
        tokenize("<a b=\"&lt;&#65;&#x42;& &# &#x&nosuch;&NotEqualTilde;\">"),
        vec![start("a", &[("b", "<AB& &# &#x&nosuch;\u{2242}\u{338}")]), Token::EOF]
    );
    assert_eq!(
        tokenize("<a b=&gt;c d='&amp'>"),
        vec![start("a", &[("b", ">c"), ("d", "&")]), Token::EOF]
    );
}

#[test]
fn names_that_go_on_in_values_are_text() {
    assert_eq!(
        tokenize("<a b=\"&notit;\" c='&amp=' d='&amp;=' e=\"&copyx\">"),
        vec![start("a", &[("b", "&notit;"), ("c", "&amp="), ("d", "&="), ("e", "&copyx")]), Token::EOF]
    );
}

#[test]
fn unfinished_tags_and_instructions_are_dropped() {
    for input in ["<a", "<a b", "<a b=", "<a b='c", "<a b=\"c&amp;", "<a/", "<?", "<?a", "<?a ", "<?a b?"] {
        assert_eq!(tokenize(input), vec![Token::EOF], "{input}");
    }
}

#[test]
fn unfinished_comments_are_emitted() {
    assert_eq!(tokenize("<!--a-"), vec![comment("a"), Token::EOF]);
    assert_eq!(tokenize("<!--a--"), vec![comment("a"), Token::EOF]);
    assert_eq!(tokenize("<!--a--!"), vec![comment("a"), Token::EOF]);
    assert_eq!(tokenize("<!---"), vec![comment(""), Token::EOF]);
    assert_eq!(tokenize("<!a"), vec![comment("a"), Token::EOF]);
}

#[test]
fn unfinished_doctypes_are_quirky() {
    assert_eq!(tokenize("<!DOCTYPE a"), vec![doctype("a", None, None, true), Token::EOF]);
    assert_eq!(tokenize("<!DOCTYPE a PUBLIC 'x"), vec![doctype("a", Some("x"), None, true), Token::EOF]);
    assert_eq!(tokenize("<!DOCTYPE a SYSTEM 'x' y"), vec![doctype("a", None, Some("x"), false), Token::EOF]);
}

#[test]
fn unfinished_openings_are_text() {
    assert_eq!(tokenize("a<"), text_then("a<", vec![Token::EOF]));
    assert_eq!(tokenize("a</"), text_then("a</", vec![Token::EOF]));
}

#[test]
fn a_state_in_the_middle_of_a_tag_may_be_set_where_nothing_closes_it() {
    assert_eq!(tokenize_in("abc", State::TagName, None), vec![Token::EOF]);
    assert_eq!(tokenize_in("a='b'", State::BeforeAttributeName, None), vec![Token::EOF]);
}

#[test]
fn what_a_state_replays_is_read_again_after_a_switch() {
    let mut t = HtmlTokenizer::new("<1&amp;");
    assert_eq!(t.next_token(), Some(Token::Character('<')));
    t.set_state(State::PLAINTEXT);
    assert_eq!(tokens(&mut t), text_then("1&amp;", vec![Token::EOF]));
}

#[test]
fn the_middle_of_a_reference_may_be_set_from_outside() {
    assert_eq!(
        tokenize_in("", State::NamedCharacterReference, None),
        text_then("&", vec![Token::EOF])
    );
    assert_eq!(
        tokenize_in("<b;", State::NamedCharacterReference, None),
        text_then("&<b;", vec![Token::EOF])
    );
    assert_eq!(
        tokenize_in("ab;c", State::AmbiguousAmpersand, None),
        text_then("ab;c", vec![Token::EOF])
    );
    assert_eq!(
        tokenize_in("a", State::NumericCharacterReferenceEnd, None),
        text_then("\u{FFFD}a", vec![Token::EOF])
    );
}

#[test]
fn references_in_rcdata_are_resolved_up_to_the_end_tag() {
    assert_eq!(
        tokenize_in("a&amp;&#66;</b>&notit;&</Title>&lt;", State::RCDATA, Some("title")),
        text_then("a&B</b>\u{AC}it;&", vec![end("title"), Token::Character('<'), Token::EOF])
    );
    assert_eq!(
        tokenize_in("&lt;/title>&#x3c;\0</titl", State::RCDATA, Some("title")),
        text_then("</title><\u{FFFD}</titl", vec![Token::EOF])
    );
}

#[test]
fn references_in_text_are_resolved() {
    assert_eq!(
        tokenize("1&lt;2&#38;&#x26;3&unknown;&#;&\0<b>&gt"),
        text_then(
            "1<2&&3&unknown;&#;&\0",
            vec![start("b", &[]), Token::Character('>'), Token::EOF]
        )
    );
}

#[test]
fn tag_names_begin_with_a_letter_and_hold_no_delimiter() {
    assert_eq!(tokenize("<A1-b\u{C}c>"), vec![start("a1-b", &[("c", "")]), Token::EOF]);
    assert_eq!(tokenize("<a/b>"), vec![start("a", &[("b", "")]), Token::EOF]);
    assert_eq!(tokenize("<1a>"), text_then("<1a>", vec![Token::EOF]));
    assert_eq!(tokenize("</1a>"), vec![comment("1a"), Token::EOF]);
}

#[test]
fn no_attribute_is_without_a_name() {
    assert_eq!(tokenize("<a =>"), vec![start("a", &[("=", "")]), Token::EOF]);
    assert_eq!(tokenize("<a ==b>"), vec![start("a", &[("=", "b")]), Token::EOF]);
    assert_eq!(tokenize("<a / / \"=c\td / >"), vec![start("a", &[("\"", "c"), ("d", "")]), Token::EOF]);
    for input in SAMPLES {
        for token in tokenize(input) {
            if let Token::Tag(t) = token {
                assert!(t.attrs.iter().all(|a| !a.0.is_empty()), "{input}");
            }
        }
    }
}

#[test]
fn an_announced_doctype_is_the_next_token() {
    for rest in ["", ">", " >", "a", " a>", " a b>", " PUBLIC>", " a PUBLIC", " a public x>", " a SYSTEM'", "\0\"'>", " a PUBLIC'b'c'd"] {
        for word in ["DOCTYPE", "doctype", "DocType"] {
            let mut t = HtmlTokenizer::new(&format!("<!{word}{rest}"));
            assert!(matches!(t.next_token(), Some(Token::Doctype(_))), "{word}{rest}");
            assert_eq!(t.state(), State::Data);
        }
    }
}

#[test]
fn plain_input_stays_in_data() {
    let mut t = HtmlTokenizer::new("a>\0b");
    while t.next_token().is_some() {
        assert_eq!(t.state(), State::Data);
    }
}

#[test]
fn plaintext_stays_plaintext() {
    let mut t = HtmlTokenizer::new("a<b>&amp;</plaintext>");
    t.set_state(State::PLAINTEXT);
    while t.next_token().is_some() {
        assert_eq!(t.state(), State::PLAINTEXT);
    }
}

#[test]
fn an_end_tag_closes_by_its_whole_name() {
    for (state, name) in [(State::RCDATA, "title"), (State::RAWTEXT, "style"), (State::ScriptData, "script")] {
        for word in [name.to_string(), name.to_uppercase(), name[1..].to_string(), name[..3].to_string(), format!("{name}x")] {
            let input = format!("</{word}>");
            let mut t = HtmlTokenizer::new(&input);
            t.set_state(state);
            t.set_appropriate_end_tag_name(Some(name));
            let all = tokens(&mut t);
            if word.to_lowercase() == name {
                assert_eq!(all, vec![end(name), Token::EOF]);
                assert_eq!(t.state(), State::Data);
            } else {
                assert_eq!(all, text_then(&input, vec![Token::EOF]));
                assert_eq!(t.state(), state);
            }
        }
    }
}

#[test]
fn a_tag_that_is_cut_off_anywhere_gives_nothing() {
    let whole = "<div id=\"a\" class='b' c/ d=e";
    for end in 2..=whole.len() {
        assert_eq!(tokenize(&whole[..end]), vec![Token::EOF], "{}", &whole[..end]);
    }
    assert_eq!(tokenize("<a b=\"&amp;&#65;&x"), vec![Token::EOF]);
}

#[test]
fn code_points_in_writing_are_read_back() {
    for code in (1..0x300).chain(0xD700..0xE100).chain(0x10FF00..0x110000) {
        if let Some(c) = char::from_u32(code) {
            if !('\u{80}'..='\u{9F}').contains(&c) {
                let expected = vec![Token::Character(c), Token::EOF];
                assert_eq!(tokenize(&format!("&#{code};")), expected);
                assert_eq!(tokenize(&format!("&#x{code:x};")), expected);
                assert_eq!(tokenize(&format!("&#X{code:X};")), expected);
            }
        }
    }
}

#[test]
fn a_name_in_a_value_depends_on_what_follows() {
    for x in (1u8..128).map(char::from).chain(['\u{E9}', '\u{1F600}']) {
        if !matches!(x, ';' | '"' | '&') {
            let value = if x == '=' || x.is_ascii_alphanumeric() {
                format!("&not{x}")
            } else {
                format!("\u{AC}{x}")
            };
            assert_eq!(
                tokenize(&format!("<h a=\"&not{x}\">")),
                vec![start("h", &[("a", &value)]), Token::EOF],
                "{x:?}"
            );
        }
    }
}

#[test]
fn a_misplaced_comment_ends_with_the_input() {
    assert_eq!(tokenize("</1 a\0</b"), vec![comment("1 a\u{FFFD}</b"), Token::EOF]);
    assert_eq!(tokenize("</1 a\0</b>"), vec![comment("1 a\u{FFFD}</b"), Token::EOF]);
    assert_eq!(tokenize("<!x"), vec![comment("x"), Token::EOF]);
}

#[test]
fn what_is_read_once_more_is_what_was_read() {
    assert_eq!(tokenize("&\u{1F600}"), text_then("&\u{1F600}", vec![Token::EOF]));
    assert_eq!(tokenize("<\u{E9}"), text_then("<\u{E9}", vec![Token::EOF]));
    assert_eq!(tokenize("&"), text_then("&", vec![Token::EOF]));
}
