use lyken::dart::ast::StringLiteral;
use lyken::source::{SourceFile, Span, Symbol};

#[test]
fn symbol_keeps_its_text() {
    let symbol = Symbol::intern("counter");
    assert_eq!(symbol.as_str(), "counter");
    assert_eq!(Symbol::intern("").as_str(), "");
}

#[test]
fn symbols_compare_by_text() {
    assert!(Symbol::intern("a") == Symbol::intern("a"));
    assert!(Symbol::intern("a") != Symbol::intern("b"));
    let symbol = Symbol::intern("x");
    assert!(symbol.clone() == symbol);
}

#[test]
fn span_orders_its_ends() {
    assert_eq!(Span::new(3, 9), Span { lo: 3, hi: 9 });
    assert_eq!(Span::new(9, 3), Span { lo: 3, hi: 9 });
    assert_eq!(Span::new(4, 4), Span { lo: 4, hi: 4 });
    assert_eq!(Span::new(3, 9).len(), 6);
    assert_eq!(Span::new(4, 4).len(), 0);
}

#[test]
fn snippet_is_the_text_under_the_span() {
    let file = SourceFile::new(0, String::from("part 'a.dart';"));
    assert_eq!(file.span_to_snippet(Span { lo: 6, hi: 12 }), Some(String::from("a.dart")));
    assert_eq!(file.span_to_snippet(Span { lo: 0, hi: 14 }), Some(String::from("part 'a.dart';")));
    assert_eq!(file.span_to_snippet(Span { lo: 5, hi: 5 }), Some(String::new()));
}

#[test]
fn snippet_counts_from_where_the_file_starts() {
    let file = SourceFile::new(100, String::from("abcdef"));
    assert_eq!(file.span_to_snippet(Span { lo: 102, hi: 104 }), Some(String::from("cd")));
    assert_eq!(file.span_to_snippet(Span { lo: 100, hi: 106 }), Some(String::from("abcdef")));
    assert_eq!(file.span_to_snippet(Span { lo: 99, hi: 101 }), None);
    assert_eq!(file.span_to_snippet(Span { lo: 2, hi: 4 }), None);
}

#[test]
fn span_outside_the_file_has_no_snippet() {
    let file = SourceFile::new(0, String::from("abc"));
    assert_eq!(file.span_to_snippet(Span { lo: 1, hi: 4 }), None);
    assert_eq!(file.span_to_snippet(Span { lo: 4, hi: 4 }), None);
    assert_eq!(file.span_to_snippet(Span { lo: 2, hi: 1 }), None);
    assert_eq!(file.span_to_snippet(Span { lo: 3, hi: 3 }), Some(String::new()));
}

#[test]
fn span_that_cuts_a_character_has_no_snippet() {
    // 'é' takes the bytes 1 and 2.
    let file = SourceFile::new(0, String::from("héllo"));
    assert_eq!(file.span_to_snippet(Span { lo: 0, hi: 2 }), None);
    assert_eq!(file.span_to_snippet(Span { lo: 2, hi: 4 }), None);
    assert_eq!(file.span_to_snippet(Span { lo: 1, hi: 3 }), Some(String::from("é")));
    assert_eq!(file.span_to_snippet(Span { lo: 0, hi: 6 }), Some(String::from("héllo")));
}

#[test]
fn simple_string_is_read_from_the_file() {
    let file = SourceFile::new(10, String::from("import 'dart:io';"));
    let literal = StringLiteral {
        raw: false,
        triple: false,
        quote: '\'',
        prefix: Span { lo: 18, hi: 25 },
        interpolated: vec![],
    };
    assert_eq!(literal.get_simple_string(&file), "dart:io");
}
