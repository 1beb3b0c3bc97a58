use axum_typed_routing::errors::{CompileError, GrammarErrorKind, SrcSpan};
use axum_typed_routing::parsing::{Method, PathParam, RouteParser};

fn span(tag: u32) -> SrcSpan {
    SrcSpan { tag }
}

fn parse(template: &str) -> Result<RouteParser, CompileError> {
    RouteParser::new(template, span(9))
}

fn grammar_kind(result: Result<RouteParser, CompileError>) -> GrammarErrorKind {
    match result {
        Err(CompileError::Grammar { kind, span: sp }) => {
            assert_eq!(sp.tag, 9);
            kind
        },
        other => panic!("expected a grammar error, got {:?}", other),
    }
}

#[test]
fn splits_path_and_query() {
    let parsed = parse("/item/:id?amount&offset").unwrap();
    assert_eq!(parsed.path_params.len(), 2);
    assert!(matches!(&parsed.path_params[0], PathParam::Static { text } if text.as_str() == "item"));
    assert!(matches!(
        &parsed.path_params[1],
        PathParam::Capture { name, ty: None } if name.as_str() == "id"
    ));
    assert_eq!(parsed.query_params, vec!["amount".to_string(), "offset".to_string()]);
}

#[test]
fn classifies_wildcards_and_literals() {
    let parsed = parse("/files/*rest").unwrap();
    assert!(matches!(
        &parsed.path_params[1],
        PathParam::Wildcard { name, ty: None } if name.as_str() == "rest"
    ));
    // A lone `*` has no name after the marker: it stays a literal segment,
    // allowed only in final position.
    let parsed = parse("/files/*").unwrap();
    assert!(matches!(&parsed.path_params[1], PathParam::Static { text } if text.as_str() == "*"));
    // A token with a colon not in front is a literal.
    let parsed = parse("/a:b").unwrap();
    assert!(matches!(&parsed.path_params[0], PathParam::Static { text } if text.as_str() == "a:b"));
}

#[test]
fn root_template_is_one_empty_literal() {
    let parsed = parse("/").unwrap();
    assert_eq!(parsed.path_params.len(), 1);
    assert!(matches!(&parsed.path_params[0], PathParam::Static { text } if text.is_empty()));
    assert!(parsed.query_params.is_empty());
}

#[test]
fn rejects_multiple_question_marks() {
    let kind = grammar_kind(parse("/a?b?c"));
    assert!(matches!(kind, GrammarErrorKind::MultipleQueryMarks));
}

#[test]
fn rejects_missing_leading_slash() {
    assert!(matches!(
        grammar_kind(parse("item/:id")),
        GrammarErrorKind::MissingLeadingSlash
    ));
    assert!(matches!(grammar_kind(parse("")), GrammarErrorKind::MissingLeadingSlash));
    assert!(matches!(grammar_kind(parse("?a")), GrammarErrorKind::MissingLeadingSlash));
}

#[test]
fn rejects_misplaced_wildcard() {
    assert!(matches!(
        grammar_kind(parse("/a/*w/b")),
        GrammarErrorKind::MisplacedWildcard
    ));
    // The bare `*` literal is held to the same placement rule.
    assert!(matches!(
        grammar_kind(parse("/a/*/b")),
        GrammarErrorKind::MisplacedWildcard
    ));
    // In final position both are fine.
    assert!(parse("/a/*w").is_ok());
    assert!(parse("/a/*").is_ok());
}

#[test]
fn rejects_empty_names() {
    assert!(matches!(
        grammar_kind(parse("/a/:")),
        GrammarErrorKind::EmptyCaptureName
    ));
    assert!(matches!(
        grammar_kind(parse("/a?x&")),
        GrammarErrorKind::EmptyQueryName
    ));
    // A trailing `?` declares one query name, and it is empty.
    assert!(matches!(grammar_kind(parse("/a?")), GrammarErrorKind::EmptyQueryName));
}

#[test]
fn empty_capture_name_beats_misplaced_wildcard() {
    // The segment construction pass sees the empty capture before the
    // placement pass sees the wildcard.
    assert!(matches!(
        grammar_kind(parse("/:/x/*w/y")),
        GrammarErrorKind::EmptyCaptureName
    ));
}

#[test]
fn grammar_error_messages() {
    let err = parse("/a?b?c").unwrap_err();
    assert_eq!(err.message(), "expected at most one '?'");
    assert_eq!(err.span().tag, 9);
    let err = parse("nope").unwrap_err();
    assert_eq!(err.message(), "expected path to start with '/'");
    let err = parse("/a/*w/b").unwrap_err();
    assert_eq!(err.message(), "wildcard path param must be the last path param");
    let err = parse("/:").unwrap_err();
    assert_eq!(err.message(), "expected a non-empty path parameter name");
    let err = parse("/a?").unwrap_err();
    assert_eq!(err.message(), "expected a non-empty query parameter name");
}

#[test]
fn method_keywords_are_case_insensitive() {
    assert!(matches!(Method::parse("GET", span(1)), Ok(Method::Get(_))));
    assert!(matches!(Method::parse("get", span(1)), Ok(Method::Get(_))));
    assert!(matches!(Method::parse("PoSt", span(1)), Ok(Method::Post(_))));
    assert!(matches!(Method::parse("delete", span(1)), Ok(Method::Delete(_))));
    assert!(matches!(Method::parse("options", span(1)), Ok(Method::Options(_))));
    let err = Method::parse("FETCH", span(1)).unwrap_err();
    assert_eq!(
        err.message(),
        "expected one of (GET, POST, PUT, DELETE, HEAD, CONNECT, OPTIONS, TRACE)"
    );
}

#[test]
fn method_names_for_the_router() {
    assert_eq!(Method::Get(span(0)).to_axum_method_name(), "get");
    assert_eq!(Method::Post(span(0)).to_axum_method_name(), "post");
    assert_eq!(Method::Put(span(0)).to_axum_method_name(), "put");
    assert_eq!(Method::Delete(span(0)).to_axum_method_name(), "delete");
    assert_eq!(Method::Head(span(0)).to_axum_method_name(), "head");
    assert_eq!(Method::Connect(span(0)).to_axum_method_name(), "connect");
    assert_eq!(Method::Options(span(0)).to_axum_method_name(), "options");
    assert_eq!(Method::Trace(span(0)).to_axum_method_name(), "trace");
}
