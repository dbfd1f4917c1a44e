use muskitty_html5_tokenizer::entities;
use muskitty_html5_tokenizer::{HtmlTokenizer, State, Token, Tokenizer};

fn singles() -> Vec<(&'static str, char)> {
    let mut all: Vec<(&'static str, char)> = Vec::new();
    all.extend(entities::UPPER_A);
    all.extend(entities::UPPER_B);
    all.extend(entities::UPPER_C);
    all.extend(entities::UPPER_D);
    all.extend(entities::UPPER_E);
    all.extend(entities::UPPER_F);
    all.extend(entities::UPPER_G);
    all.extend(entities::UPPER_H);
    all.extend(entities::UPPER_I);
    all.extend(entities::UPPER_J);
    all.extend(entities::UPPER_K);
    all.extend(entities::UPPER_L);
    all.extend(entities::UPPER_M);
    all.extend(entities::UPPER_N);
    all.extend(entities::UPPER_O);
    all.extend(entities::UPPER_P);
    all.extend(entities::UPPER_Q);
    all.extend(entities::UPPER_R);
    all.extend(entities::UPPER_S);
    all.extend(entities::UPPER_T);
    all.extend(entities::UPPER_U);
    all.extend(entities::UPPER_V);
    all.extend(entities::UPPER_W);
    all.extend(entities::UPPER_X);
    all.extend(entities::UPPER_Y);
    all.extend(entities::UPPER_Z);
    all.extend(entities::LOWER_A);
    all.extend(entities::LOWER_B);
    all.extend(entities::LOWER_C);
    all.extend(entities::LOWER_D);
    all.extend(entities::LOWER_E);
    all.extend(entities::LOWER_F);
    all.extend(entities::LOWER_G);
    all.extend(entities::LOWER_H);
    all.extend(entities::LOWER_I);
    all.extend(entities::LOWER_J);
    all.extend(entities::LOWER_K);
    all.extend(entities::LOWER_L);
    all.extend(entities::LOWER_M);
    all.extend(entities::LOWER_N);
    all.extend(entities::LOWER_O);
    all.extend(entities::LOWER_P);
    all.extend(entities::LOWER_Q);
    all.extend(entities::LOWER_R);
    all.extend(entities::LOWER_S);
    all.extend(entities::LOWER_T);
    all.extend(entities::LOWER_U);
    all.extend(entities::LOWER_V);
    all.extend(entities::LOWER_W);
    all.extend(entities::LOWER_X);
    all.extend(entities::LOWER_Y);
    all.extend(entities::LOWER_Z);
    all
}

fn text_of(input: &str) -> String {
    let mut t = HtmlTokenizer::new(input);
    let mut text = String::new();
    while let Some(token) = t.next_token() {
        if let Token::Character(c) = token {
            text.push(c);
        }
    }
    text
}

fn is_well_formed(name: &str) -> bool {
    let stem = name.strip_suffix(';').unwrap_or(name);
    !stem.is_empty() && stem.chars().all(|c| c.is_ascii_alphanumeric())
}

#[test]
fn there_are_2231_names_and_no_two_are_the_same() {
    let mut names: Vec<&str> = singles().iter().map(|e| e.0).collect();
    names.extend(entities::PAIRS.iter().map(|e| e.0));
    assert_eq!(names.len(), 2231);
    names.sort();
    names.dedup();
    assert_eq!(names.len(), 2231);
}

#[test]
fn every_name_is_letters_and_digits_with_an_optional_semicolon() {
    for (name, _) in singles() {
        assert!(is_well_formed(name), "{name}");
    }
    for (name, _, _) in entities::PAIRS {
        assert!(is_well_formed(name), "{name}");
    }
}

#[test]
fn no_name_stands_for_nul() {
    assert!(singles().iter().all(|e| e.1 != '\0'));
    assert!(entities::PAIRS.iter().all(|e| e.1 != '\0' && e.2 != '\0'));
}

#[test]
fn names_without_semicolon_have_a_twin_with_one() {
    let all = singles();
    for (name, c) in &all {
        if !name.ends_with(';') {
            let twin = format!("{name};");
            assert!(all.iter().any(|(n, d)| *n == twin && d == c), "{name}");
        }
    }
}

#[test]
fn every_name_of_one_code_point_resolves() {
    for (name, c) in singles() {
        assert_eq!(text_of(&format!("&{name}")), c.to_string(), "{name}");
    }
}

#[test]
fn every_name_of_two_code_points_resolves() {
    for (name, c, d) in entities::PAIRS {
        assert_eq!(text_of(&format!("&{name}")), format!("{c}{d}"), "{name}");
    }
}

#[test]
fn well_known_names_resolve() {
    assert_eq!(text_of("&lt;&gt;&amp;&quot;&apos;"), "<>&\"'");
    assert_eq!(text_of("&nbsp;&copy;&eacute;&Eacute;"), "\u{A0}\u{A9}\u{E9}\u{C9}");
    assert_eq!(text_of("&hellip;&mdash;&euro;&rarr;"), "\u{2026}\u{2014}\u{20AC}\u{2192}");
    assert_eq!(text_of("&CounterClockwiseContourIntegral;"), "\u{2233}");
    assert_eq!(text_of("&NotEqualTilde;"), "\u{2242}\u{338}");
    assert_eq!(text_of("&fjlig;"), "fj");
}

#[test]
fn unknown_names_are_text() {
    assert_eq!(text_of("&nosuchname;"), "&nosuchname;");
    assert_eq!(text_of("&;"), "&;");
    assert_eq!(text_of("&AMPX;"), "&X;");
}

#[test]
fn names_are_case_sensitive() {
    assert_eq!(text_of("&Alpha;&alpha;"), "\u{391}\u{3B1}");
    assert_eq!(text_of("&aLPHA;"), "&aLPHA;");
}

#[test]
fn the_longest_name_wins() {
    assert_eq!(text_of("&notin;"), "\u{2209}");
    assert_eq!(text_of("&notit;"), "\u{AC}it;");
    assert_eq!(text_of("&notinva;"), "\u{2209}");
    assert_eq!(text_of("&notinv"), "\u{AC}inv");
    assert_eq!(text_of("&ampamp;"), "&amp;");
}

#[test]
fn a_name_after_a_closed_title_starts_afresh() {
    let mut t = HtmlTokenizer::new("x</title >&amp;y");
    t.set_state(State::RCDATA);
    t.set_appropriate_end_tag_name(Some("title"));
    assert_eq!(t.next_token(), Some(Token::Character('x')));
    assert!(matches!(t.next_token(), Some(Token::Tag(_))));
    assert_eq!(t.next_token(), Some(Token::Character('&')));
    assert_eq!(t.next_token(), Some(Token::Character('y')));
    assert_eq!(t.next_token(), Some(Token::EOF));
}
