use starlight::click::buttons::{derive_click, Buttons};
use starlight::click::error::ClickError;
use starlight::click::lex::{tokenize, Token};
use starlight::click::link::Link;
use starlight::click::lit::{lit_bool_present, lit_text_present, Lit, LitExt};
use starlight::click::parse::{parse_clicks, ButtonStyle};

fn attrs(args: &str) -> Vec<(String, String)> {
    vec![("doc".to_string(), "x".to_string()), ("buttons".to_string(), args.to_string())]
}

#[test]
fn buttons_are_read_in_order() {
    let b = Buttons::parse(r#"Success("Yes"), Danger("No"), Link("Docs", "https://example.com/")"#)
        .unwrap();
    assert_eq!(b.size, 3);
    assert_eq!(b.labels.0, vec!["Yes".to_string(), "No".to_string(), "Docs".to_string()]);
    assert_eq!(b.styles.0, vec![ButtonStyle::Success, ButtonStyle::Danger, ButtonStyle::Link]);
    assert_eq!(b.links.len(), 1);
    assert!(b.links.get(0).is_none());
    assert!(b.links.get(1).is_none());
    assert_eq!(b.links.get(2).unwrap().as_str(), "https://example.com/");
}

#[test]
fn trailing_comma_and_empty_list() {
    assert_eq!(Buttons::parse("Primary(\"a\"),").unwrap().size, 1);
    assert_eq!(Buttons::parse("").unwrap().size, 0);
    assert_eq!(Buttons::parse("  \n ").unwrap().size, 0);
}

#[test]
fn style_errors() {
    assert_eq!(
        Buttons::parse("Blue(\"a\")").unwrap_err(),
        ClickError::InvalidStyle("Blue".to_string())
    );
    assert_eq!(
        ClickError::InvalidStyle("Blue".to_string()).to_string(),
        "expected style to be `Success`, `Danger`, `Primary`, `Secondary`, or `Link`, got 'Blue'"
    );
    assert_eq!(Buttons::parse("\"a\"").unwrap_err(), ClickError::ExpectedIdent);
    assert_eq!(Buttons::parse("Success \"a\"").unwrap_err(), ClickError::ExpectedParens);
    assert_eq!(Buttons::parse("Success(a)").unwrap_err(), ClickError::ExpectedString);
    assert_eq!(Buttons::parse("Success(\"a\" \"b\")").unwrap_err(), ClickError::UnexpectedToken);
    assert_eq!(
        Buttons::parse("Success(\"a\") Danger(\"b\")").unwrap_err(),
        ClickError::ExpectedComma
    );
}

#[test]
fn link_errors() {
    assert_eq!(Buttons::parse("Link(\"a\")").unwrap_err(), ClickError::ExpectedPunct);
    assert_eq!(Buttons::parse("Link(\"a\", b)").unwrap_err(), ClickError::ExpectedString);
    match Buttons::parse("Link(\"a\", \"not a url\")").unwrap_err() {
        ClickError::InvalidUrl(reason) => assert_eq!(reason, "relative URL without a base"),
        other => panic!("unexpected error {:?}", other),
    }
    assert_eq!(
        Buttons::parse("Link(\"a\", \"https://x.y/\" \"z\")").unwrap_err(),
        ClickError::UnexpectedToken
    );
}

#[test]
fn links_are_checked_by_the_url_parser() {
    assert_eq!(Link::parse("https://discord.com".to_string()).unwrap().as_str(), "https://discord.com");
    let err = Link::parse("ht tp://x".to_string()).unwrap_err();
    assert!(matches!(err, ClickError::InvalidUrl(_)));
    assert_eq!(
        Link::from_check("q".to_string(), Err("bad".to_string())).unwrap_err().to_string(),
        "expected valid url, reason: bad"
    );
    assert_eq!(Link::from_check("q".to_string(), Ok(())).unwrap().as_str(), "q");
}

#[test]
fn string_literals_are_unescaped() {
    let toks = tokenize(r#"Success("a\"b\\c\n")"#).unwrap();
    assert_eq!(toks.len(), 4);
    match &toks[2] {
        Token::Str(cs) => assert_eq!(cs.iter().collect::<String>(), "a\"b\\c\n"),
        _ => panic!("expected a string literal"),
    }
    assert_eq!(tokenize("\"abc").unwrap_err(), ClickError::UnterminatedString);
    assert_eq!(tokenize("\"a\\qb\"").unwrap_err(), ClickError::InvalidEscape);
}

#[test]
fn clicks_keep_style_label_and_link() {
    let clicks = parse_clicks("Secondary(\"s\"), Link(\"l\"; \"https://a.b/\")").unwrap();
    assert_eq!(clicks.len(), 2);
    assert_eq!(clicks[0].style(), ButtonStyle::Secondary);
    assert_eq!(clicks[0].label(), "s");
    assert!(clicks[0].link().is_none());
    assert_eq!(clicks[1].link().as_ref().unwrap().as_str(), "https://a.b/");
    assert!(ButtonStyle::Link.is_link());
    assert_eq!(ButtonStyle::Primary.name(), "Primary");
}

#[test]
fn derived_items() {
    let text = derive_click("Menu", &attrs("Success(\"Yes\"), Link(\"Go\", \"https://a.b/\")"))
        .unwrap();
    let expected = "#[automatically_derived]\n\
impl ClickCommand<2usize> for Menu {\n    \
const LABELS: [&'static str; 2usize] = [\"Yes\", \"Go\", ];\n    \
const STYLES: [twilight_model::application::component::button::ButtonStyle; 2usize] = \
[twilight_model::application::component::button::ButtonStyle::Success, \
twilight_model::application::component::button::ButtonStyle::Link, ];\n    \
const LINKS: &'static [(usize, &'static str)] = &[(1usize, \"https://a.b/\"), ];\n}\n";
    assert_eq!(text, expected);
}

#[test]
fn derived_labels_are_escaped() {
    let text = derive_click("M", &attrs(r#"Primary("say \"hi\"")"#)).unwrap();
    assert!(text.contains(r#"["say \"hi\"", ]"#));
}

#[test]
fn derive_needs_the_attribute_and_at_most_five_buttons() {
    let none: Vec<(String, String)> = vec![("doc".to_string(), "x".to_string())];
    assert_eq!(derive_click("M", &none).unwrap_err(), ClickError::MissingAttribute);
    let six = "Success(\"1\"), Success(\"2\"), Success(\"3\"), Success(\"4\"), Success(\"5\"), Success(\"6\")";
    assert_eq!(derive_click("M", &attrs(six)).unwrap_err(), ClickError::TooManyButtons);
    assert_eq!(ClickError::TooManyButtons.to_string(), "cannot have more than 5 buttons");
    let five = "Success(\"1\"), Success(\"2\"), Success(\"3\"), Success(\"4\"), Success(\"5\")";
    assert!(derive_click("M", &attrs(five)).unwrap().contains("ClickCommand<5usize>"));
}

#[test]
fn literal_values() {
    assert_eq!(Lit::Str("abc".to_string()).to_str(), "abc");
    assert_eq!(Lit::ByteStr(b"xy".to_vec()).to_str(), "xy");
    assert_eq!(Lit::Char('q').to_str(), "q");
    assert_eq!(Lit::Byte(b'z').to_str(), "z");
    assert!(Lit::Bool(true).to_bool());
    assert!(!Lit::Str("false".to_string()).to_bool());
    assert!(Lit::Str("true".to_string()).to_bool());
    assert!(!lit_text_present(&Lit::Int("1".to_string())));
    assert!(!lit_text_present(&Lit::ByteStr(vec![0xff])));
    assert!(!lit_bool_present(&Lit::Str("yes".to_string())));
    assert!(lit_bool_present(&Lit::Bool(false)));
}

#[test]
fn written_labels_read_back() {
    let text = derive_click("M", &attrs(r#"Primary("a\\b\t\"c\"")"#)).unwrap();
    let start = text.find("[\"").unwrap() + 1;
    let end = text.find(", ];").unwrap();
    let literal = &text[start..end];
    let toks = tokenize(literal).unwrap();
    assert_eq!(toks.len(), 1);
    match &toks[0] {
        Token::Str(cs) => assert_eq!(cs.iter().collect::<String>(), "a\\b\t\"c\""),
        _ => panic!("expected a string literal"),
    }
}

fn only_string(text: &str) -> String {
    let toks = tokenize(text).unwrap();
    assert_eq!(toks.len(), 1);
    match &toks[0] {
        Token::Str(cs) => cs.iter().collect(),
        other => panic!("expected a string literal, got {:?}", other),
    }
}

#[test]
fn unicode_and_byte_escapes_are_read() {
    assert_eq!(only_string(r#""\u{1F44D} Like""#), "\u{1F44D} Like");
    assert_eq!(only_string(r#""\u{1_F4_4D}""#), "\u{1F44D}");
    assert_eq!(only_string(r#""\x41\x7f\x0A""#), "A\u{7f}\n");
    assert_eq!(only_string(r#""\u{10FFFF}\u{0}""#), "\u{10FFFF}\u{0}");
    let b = Buttons::parse(r#"Primary("\u{1F44D} Like"), Danger("\x41")"#).unwrap();
    assert_eq!(b.labels.0, vec!["\u{1F44D} Like".to_string(), "A".to_string()]);
}

#[test]
fn malformed_escapes_are_refused() {
    assert_eq!(tokenize(r#""\x80""#).unwrap_err(), ClickError::InvalidEscape);
    assert_eq!(tokenize(r#""\x4""#).unwrap_err(), ClickError::InvalidEscape);
    assert_eq!(tokenize(r#""\u{110000}""#).unwrap_err(), ClickError::InvalidEscape);
    assert_eq!(tokenize(r#""\u{D800}""#).unwrap_err(), ClickError::InvalidEscape);
    assert_eq!(tokenize(r#""\u{}""#).unwrap_err(), ClickError::InvalidEscape);
    assert_eq!(tokenize(r#""\u{_1}""#).unwrap_err(), ClickError::InvalidEscape);
    assert_eq!(tokenize(r#""\u{1000000}""#).unwrap_err(), ClickError::InvalidEscape);
    assert_eq!(tokenize(r#""\u41""#).unwrap_err(), ClickError::InvalidEscape);
}

#[test]
fn line_continuations_skip_white_space() {
    assert_eq!(only_string("\"ab\\\n    cd\""), "abcd");
    assert_eq!(only_string("\"ab\\\r\n \t\n cd\""), "abcd");
    assert_eq!(tokenize("\"ab\\\r cd\"").unwrap_err(), ClickError::BareCarriageReturn);
    assert_eq!(tokenize("\"ab\\\n").unwrap_err(), ClickError::UnterminatedString);
}

#[test]
fn carriage_returns_in_strings() {
    assert_eq!(only_string("\"a\r\nb\""), "a\nb");
    assert_eq!(tokenize("\"a\rb\"").unwrap_err(), ClickError::BareCarriageReturn);
    assert_eq!(only_string("r\"a\r\nb\""), "a\nb");
    assert_eq!(tokenize("r\"a\rb\"").unwrap_err(), ClickError::BareCarriageReturn);
    assert_eq!(
        ClickError::BareCarriageReturn.to_string(),
        "bare CR not allowed in string"
    );
}

#[test]
fn raw_strings_are_read() {
    assert_eq!(only_string(r#"r"C:\path\n""#), "C:\\path\\n");
    assert_eq!(only_string(r###"r#"say "hi""#"###), "say \"hi\"");
    assert_eq!(only_string(r###"r##"a"#b"##"###), "a\"#b");
    let b = Buttons::parse(r#"Link("Docs", r"https://a.b/")"#).unwrap();
    assert_eq!(b.links.len(), 1);
    assert_eq!(b.links.get(0).unwrap().as_str(), "https://a.b/");
    assert_eq!(tokenize(r##"r#"abc"##).unwrap_err(), ClickError::UnterminatedString);
}

#[test]
fn raw_strings_take_at_most_255_hashes() {
    let hashes = "#".repeat(255);
    let text = format!("r{}\"x\"{}", hashes, hashes);
    assert_eq!(only_string(&text), "x");
    let more = "#".repeat(256);
    let text = format!("r{}\"x\"{}", more, more);
    assert_eq!(tokenize(&text).unwrap_err(), ClickError::TooManyHashes);
}

#[test]
fn literal_suffixes_are_ignored() {
    assert_eq!(only_string(r#""abc"suffix"#), "abc");
    let b = Buttons::parse(r#"Primary("a"x), Link("b"y, r"https://a.b/"z)"#).unwrap();
    assert_eq!(b.labels.0, vec!["a".to_string(), "b".to_string()]);
}

#[test]
fn raw_identifiers_are_not_styles() {
    assert_eq!(
        Buttons::parse(r#"r#Primary("a")"#).unwrap_err(),
        ClickError::InvalidStyle("r#Primary".to_string())
    );
}

#[test]
fn unicode_white_space_separates_tokens() {
    let b = Buttons::parse("Primary(\"a\"),\u{2028}Danger(\u{85}\"b\"\u{200E})").unwrap();
    assert_eq!(b.size, 2);
}

#[test]
fn comments_separate_tokens() {
    let b = Buttons::parse("Primary(\"a\") // the first\n, /* second /* nested */ one */ Danger(\"b\"),")
        .unwrap();
    assert_eq!(b.labels.0, vec!["a".to_string(), "b".to_string()]);
    assert_eq!(Buttons::parse("Primary(\"a\") /**/ ").unwrap().size, 1);
    assert_eq!(Buttons::parse("Primary(\"a\") //// not a doc comment").unwrap().size, 1);
    assert_eq!(
        Buttons::parse("Primary(\"a\") /* open").unwrap_err(),
        ClickError::UnterminatedComment
    );
    assert_eq!(ClickError::UnterminatedComment.to_string(), "unterminated block comment");
}

#[test]
fn doc_comments_are_not_white_space() {
    assert_eq!(
        Buttons::parse("Primary(\"a\"), /// doc\nDanger(\"b\")").unwrap_err(),
        ClickError::ExpectedIdent
    );
    assert_eq!(
        Buttons::parse("Primary(\"a\") /** doc */").unwrap_err(),
        ClickError::ExpectedComma
    );
    assert_eq!(Buttons::parse("Primary(\"a\") //! inner").unwrap_err(), ClickError::ExpectedComma);
}

#[test]
fn links_are_written_by_button_position() {
    let text = derive_click(
        "M",
        &attrs(r#"Link("a", "https://a.b/"), Primary("p"), Link("c", "https://c.d/")"#),
    )
    .unwrap();
    assert!(text.contains(
        "const LINKS: &'static [(usize, &'static str)] = &[(0usize, \"https://a.b/\"), (2usize, \"https://c.d/\"), ];"
    ));
}

#[test]
fn unicode_identifiers_are_read_whole() {
    assert_eq!(
        Buttons::parse("Prímary(\"a\")").unwrap_err(),
        ClickError::InvalidStyle("Prímary".to_string())
    );
    assert_eq!(
        Buttons::parse("ボタン(\"a\")").unwrap_err(),
        ClickError::InvalidStyle("ボタン".to_string())
    );
    let b = Buttons::parse("Primary(\"a\"é), Danger(\"b\"_x1)").unwrap();
    assert_eq!(b.labels.0, vec!["a".to_string(), "b".to_string()]);
    assert_eq!(Buttons::parse("\u{1F44D}(\"a\")").unwrap_err(), ClickError::ExpectedIdent);
}
