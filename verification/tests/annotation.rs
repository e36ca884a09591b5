use record_derive::annotation::{each_from_pairs, inspect_debug, inspect_each};
use record_derive::diagnostic::{Diagnostic, Position, Span};
use record_derive::syntax::{
    Annotation, AnnotationBody, AnnotationPath, AnnotationValue, NameValue,
};

fn span() -> Span {
    Span { start: Position { line: 7, column: 4 }, end: Position { line: 7, column: 30 } }
}

fn ident(name: &str) -> AnnotationPath {
    AnnotationPath { leading_colon: false, segments: vec![name.to_string()] }
}

fn list(name: &str, tokens: &str) -> Annotation {
    Annotation { path: ident(name), body: AnnotationBody::List(tokens.to_string()), span: span() }
}

fn value(name: &str, value: AnnotationValue) -> Annotation {
    Annotation { path: ident(name), body: AnnotationBody::Value(value), span: span() }
}

fn expected_each() -> Result<Option<String>, Diagnostic> {
    Err(Diagnostic { message: "expected `builder(each = \"...\")`".to_string(), span: span() })
}

fn expected_debug() -> Result<Option<String>, Diagnostic> {
    Err(Diagnostic { message: "expected debug = \"...\"".to_string(), span: span() })
}

#[test]
fn each_with_a_string_gives_the_accessor_name() {
    assert_eq!(inspect_each(&list("builder", "each = \"arg\"")), Ok(Some("arg".to_string())));
}

#[test]
fn each_with_a_trailing_comma_gives_the_accessor_name() {
    assert_eq!(inspect_each(&list("builder", "each = \"arg\",")), Ok(Some("arg".to_string())));
}

#[test]
fn each_gives_the_value_that_the_literal_denotes() {
    assert_eq!(inspect_each(&list("builder", "each = \"a\\u{62}c\"")), Ok(Some("abc".to_string())));
    assert_eq!(inspect_each(&list("builder", "each = r#\"raw\"#")), Ok(Some("raw".to_string())));
}

#[test]
fn two_pairs_are_rejected() {
    assert_eq!(inspect_each(&list("builder", "each = \"x\", foo = \"y\"")), expected_each());
}

#[test]
fn each_with_a_number_is_rejected() {
    assert_eq!(inspect_each(&list("builder", "each = 5")), expected_each());
}

#[test]
fn another_key_is_rejected() {
    assert_eq!(inspect_each(&list("builder", "eac = \"arg\"")), expected_each());
    assert_eq!(inspect_each(&list("builder", "a::each = \"arg\"")), expected_each());
    assert_eq!(inspect_each(&list("builder", "::each = \"arg\"")), expected_each());
}

#[test]
fn empty_list_is_rejected() {
    assert_eq!(inspect_each(&list("builder", "")), expected_each());
}

#[test]
fn list_that_is_not_pairs_is_rejected() {
    assert_eq!(inspect_each(&list("builder", "each")), expected_each());
    assert_eq!(inspect_each(&list("builder", "each = ")), expected_each());
    assert_eq!(inspect_each(&list("builder", "\"arg\"")), expected_each());
    assert_eq!(inspect_each(&list("builder", "each = \"arg\" extra")), expected_each());
    assert_eq!(inspect_each(&list("builder", "each = \"unterminated")), expected_each());
}

#[test]
fn builder_without_a_list_is_rejected() {
    let bare = Annotation { path: ident("builder"), body: AnnotationBody::Bare, span: span() };
    assert_eq!(inspect_each(&bare), expected_each());
    let valued = value("builder", AnnotationValue::Str("arg".to_string()));
    assert_eq!(inspect_each(&valued), expected_each());
}

#[test]
fn unrelated_annotation_asks_nothing_of_the_builder() {
    assert_eq!(inspect_each(&list("serde", "rename = \"x\"")), Ok(None));
    assert_eq!(inspect_each(&list("derive", "not even pairs")), Ok(None));
    assert_eq!(inspect_each(&value("doc", AnnotationValue::Str("text".to_string()))), Ok(None));
    let qualified = Annotation {
        path: AnnotationPath {
            leading_colon: false,
            segments: vec!["tool".to_string(), "builder".to_string()],
        },
        body: AnnotationBody::List("each = 5".to_string()),
        span: span(),
    };
    assert_eq!(inspect_each(&qualified), Ok(None));
    let rooted = Annotation {
        path: AnnotationPath { leading_colon: true, segments: vec!["builder".to_string()] },
        body: AnnotationBody::List("each = 5".to_string()),
        span: span(),
    };
    assert_eq!(inspect_each(&rooted), Ok(None));
}

#[test]
fn parsed_pairs_decide_the_payload() {
    let pair = |key: &str, value: AnnotationValue| NameValue { path: ident(key), value };
    assert_eq!(
        each_from_pairs(Some(vec![pair("each", AnnotationValue::Str("x".to_string()))]), span()),
        Ok(Some("x".to_string()))
    );
    assert_eq!(
        each_from_pairs(Some(vec![pair("each", AnnotationValue::Other)]), span()),
        expected_each()
    );
    assert_eq!(
        each_from_pairs(Some(vec![pair("other", AnnotationValue::Str("x".to_string()))]), span()),
        expected_each()
    );
    assert_eq!(each_from_pairs(Some(vec![]), span()), expected_each());
    assert_eq!(
        each_from_pairs(
            Some(vec![
                pair("each", AnnotationValue::Str("x".to_string())),
                pair("each", AnnotationValue::Str("y".to_string())),
            ]),
            span()
        ),
        expected_each()
    );
    assert_eq!(each_from_pairs(None, span()), expected_each());
}

#[test]
fn debug_with_a_string_gives_the_format() {
    assert_eq!(
        inspect_debug(&value("debug", AnnotationValue::Str("0b{:08b}".to_string()))),
        Ok(Some("0b{:08b}".to_string()))
    );
}

#[test]
fn debug_with_a_number_is_rejected() {
    assert_eq!(inspect_debug(&value("debug", AnnotationValue::Other)), expected_debug());
}

#[test]
fn unrelated_annotation_asks_nothing_of_the_formatter() {
    assert_eq!(inspect_debug(&value("doc", AnnotationValue::Other)), Ok(None));
    assert_eq!(inspect_debug(&value("doc", AnnotationValue::Str("x".to_string()))), Ok(None));
    assert_eq!(inspect_debug(&list("debug", "anything")), Ok(None));
    let bare = Annotation { path: ident("debug"), body: AnnotationBody::Bare, span: span() };
    assert_eq!(inspect_debug(&bare), Ok(None));
    assert_eq!(inspect_debug(&list("builder", "each = 5")), Ok(None));
}

#[test]
fn path_is_an_identifier_only_when_single_and_unrooted() {
    assert!(ident("each").is_ident("each"));
    assert!(!ident("each").is_ident("eac"));
    assert!(!AnnotationPath { leading_colon: true, segments: vec!["each".to_string()] }
        .is_ident("each"));
    assert!(!AnnotationPath {
        leading_colon: false,
        segments: vec!["each".to_string(), "each".to_string()]
    }
    .is_ident("each"));
    assert!(!AnnotationPath { leading_colon: false, segments: vec![] }.is_ident("each"));
}
