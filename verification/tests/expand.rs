use proc_macro2::{Span, TokenStream};
use zstr::diagnostic::ErrorKind;
use zstr::expand::{expand_literal, expand_zstr};
use zstr::literal::Literal;

fn tokens(source: &str) -> TokenStream {
    source.parse().unwrap()
}

#[test]
fn scenario_text_with_emoji() {
    let e = expand_zstr(tokens("\"Hello 🎉\"")).unwrap();
    assert_eq!(e.bytes.to_bytes(), b"Hello \xf0\x9f\x8e\x89");
    assert_eq!(e.bytes.to_bytes_with_nul(), b"Hello \xf0\x9f\x8e\x89\x00");
    assert_eq!(e.bytes.to_bytes_with_nul().len(), 11);
}

#[test]
fn scenario_unicode_escape() {
    let a = expand_zstr(tokens("\"Hello 🎉\"")).unwrap();
    let b = expand_zstr(tokens("\"Hello \\u{1F389}\"")).unwrap();
    assert_eq!(a.bytes.to_bytes_with_nul(), b.bytes.to_bytes_with_nul());
}

#[test]
fn scenario_byte_string_with_escaped_space() {
    let e = expand_zstr(tokens("b\"hello\\x20ASCII\"")).unwrap();
    assert_eq!(e.bytes.to_bytes(), b"hello ASCII");
    assert_eq!(
        e.bytes.to_bytes_with_nul(),
        &[0x68, 0x65, 0x6C, 0x6C, 0x6F, 0x20, 0x41, 0x53, 0x43, 0x49, 0x49, 0x00][..]
    );
}

#[test]
fn scenario_escaped_zero_in_text() {
    let d = expand_zstr(tokens("\"null here: \\x00 is forbidden\"")).unwrap_err();
    assert_eq!(d.kind, ErrorKind::EmbeddedZero { index: 11 });
    assert_eq!(d.message(), "C string contains an embedded NUL byte at index 11");
}

#[test]
fn scenario_zero_at_the_end_of_text() {
    let d = expand_zstr(tokens("\"also at the end: \\0\"")).unwrap_err();
    assert_eq!(d.kind, ErrorKind::EmbeddedZero { index: 17 });
}

#[test]
fn zero_in_byte_strings() {
    let d = expand_zstr(tokens("b\"and in byte \\x00 strings too\"")).unwrap_err();
    assert_eq!(d.kind, ErrorKind::EmbeddedZero { index: 12 });
    let d = expand_zstr(tokens("b\"at the end of byte strings: \\0\"")).unwrap_err();
    assert_eq!(d.kind, ErrorKind::EmbeddedZero { index: 28 });
}

#[test]
fn scenario_numeric_literal() {
    let d = expand_zstr(tokens("42")).unwrap_err();
    assert_eq!(d.kind, ErrorKind::WrongLiteralKind);
    assert_eq!(d.message(), "expected a string or byte string literal");
}

#[test]
fn other_literal_kinds_are_refused() {
    for source in ["1.5", "'a'", "b'a'", "true", "-7", "c\"abc\""] {
        let d = expand_zstr(tokens(source)).unwrap_err();
        assert_eq!(d.kind, ErrorKind::WrongLiteralKind, "{}", source);
    }
}

#[test]
fn tokens_that_are_no_literal_are_refused() {
    for source in ["", "name", "\"a\" \"b\"", "\"a\" + \"b\"", "(\"a\")", "\"a\","] {
        let d = expand_zstr(tokens(source)).unwrap_err();
        assert_eq!(d.kind, ErrorKind::WrongLiteralKind, "{}", source);
    }
}

#[test]
fn raw_strings_are_taken_without_escapes() {
    let e = expand_zstr(tokens("r\"a\\0b\"")).unwrap();
    assert_eq!(e.bytes.to_bytes_with_nul(), b"a\\0b\0");
    let e = expand_zstr(tokens("br#\"x\"y\"#")).unwrap();
    assert_eq!(e.bytes.to_bytes_with_nul(), b"x\"y\0");
}

#[test]
fn named_escapes_are_resolved() {
    let e = expand_zstr(tokens("\"a\\n\\t\\\\\"")).unwrap();
    assert_eq!(e.bytes.to_bytes_with_nul(), b"a\n\t\\\0");
    let e = expand_zstr(tokens("b\"\\xff\\x01\"")).unwrap();
    assert_eq!(e.bytes.to_bytes_with_nul(), &[0xFF, 0x01, 0x00][..]);
}

#[test]
fn expand_literal_ties_both_outcomes_to_the_literal() {
    let e = expand_literal(Literal::Binary(vec![1, 2]), Span::call_site()).unwrap();
    assert_eq!(e.bytes.to_bytes_with_nul(), &[1, 2, 0][..]);
    let d = expand_literal(Literal::Binary(vec![1, 0]), Span::call_site()).unwrap_err();
    assert_eq!(d.kind, ErrorKind::EmbeddedZero { index: 1 });
    let d = expand_literal(Literal::Other, Span::call_site()).unwrap_err();
    assert_eq!(d.kind, ErrorKind::WrongLiteralKind);
}

#[test]
fn spliced_literal_holds_the_terminated_bytes() {
    let e = expand_zstr(tokens("\"Hello 🎉\"")).unwrap();
    assert_eq!(e.literal().value(), b"Hello \xf0\x9f\x8e\x89\x00");
    let e = expand_zstr(tokens("b\"\\xff\"")).unwrap();
    assert_eq!(e.literal().value(), vec![0xFF, 0x00]);
    let text = e.literal().token().to_string();
    assert!(text.starts_with("b\""));
}

#[test]
fn expanding_twice_gives_the_same_outcome() {
    let first = expand_zstr(tokens("\"a\\0\"")).unwrap_err();
    let second = expand_zstr(tokens("\"a\\0\"")).unwrap_err();
    assert_eq!(first.kind, second.kind);
    let first = expand_zstr(tokens("\"abc\"")).unwrap();
    let second = expand_zstr(tokens("\"abc\"")).unwrap();
    assert_eq!(first.bytes.to_bytes_with_nul(), second.bytes.to_bytes_with_nul());
}

#[test]
fn spliced_literal_holds_every_byte_value() {
    let content: Vec<u8> = (1..=255).collect();
    let e = expand_literal(Literal::Binary(content.clone()), Span::call_site()).unwrap();
    let mut expected = content;
    expected.push(0);
    assert_eq!(e.literal().value(), expected);
    let e = expand_literal(Literal::Binary(b"7\\\"\r\n".to_vec()), Span::call_site()).unwrap();
    assert_eq!(e.literal().value(), e.bytes.to_bytes_with_nul());
}
