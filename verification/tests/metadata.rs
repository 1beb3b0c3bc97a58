use axum_typed_routing::compilation::{CompiledRoute, HandlerArg, HandlerSig, HandlerTy};
use axum_typed_routing::errors::{CompileError, MetadataShapeKind, SrcSpan, TransformArityKind};
use axum_typed_routing::parsing::{
    MetaEntry, MetaValue, Method, OapiOptions, Responses, Route, Security, StrArray,
    TransformHook, TransformInput,
};

fn span(tag: u32) -> SrcSpan {
    SrcSpan { tag }
}

fn entry(key: &str, value: MetaValue) -> MetaEntry {
    MetaEntry { key: key.to_string(), key_span: span(5), value }
}

fn handler(name: &str, docs: Vec<&str>) -> HandlerSig {
    HandlerSig {
        name: name.to_string(),
        name_span: span(7),
        inputs: vec![],
        docs: docs.into_iter().map(|d| d.to_string()).collect(),
    }
}

fn compile_api(
    template: &str,
    options: Option<OapiOptions>,
    sig: &HandlerSig,
) -> CompiledRoute {
    let route = Route::parse(Method::Get(span(2)), template, span(1), None, options).unwrap();
    CompiledRoute::from_route(route, sig, true).unwrap()
}

#[test]
fn doc_comment_defaults() {
    // Summary <- first line; description <- lines from the third onward,
    // joined with newlines; id <- the handler's name.
    let sig = handler("lines_handler", vec!["Line1", "", "Line2", "Line3"]);
    let compiled = compile_api("/x", None, &sig);
    assert_eq!(compiled.get_oapi_summary(), Some("Line1".to_string()));
    assert_eq!(compiled.get_oapi_description(), Some("Line2\nLine3".to_string()));
    assert_eq!(compiled.get_oapi_id(&sig), Some("lines_handler".to_string()));
    assert_eq!(compiled.get_oapi_hidden(), None);
    assert!(compiled.get_oapi_tags().is_empty());
    assert!(compiled.get_oapi_security().is_empty());
    assert!(compiled.get_oapi_responses().is_empty());
    assert_eq!(compiled.get_oapi_transform().unwrap(), None);
}

#[test]
fn short_doc_streams_leave_the_description_unset() {
    let sig = handler("short", vec!["OnlySummary", ""]);
    let compiled = compile_api("/x", None, &sig);
    assert_eq!(compiled.get_oapi_summary(), Some("OnlySummary".to_string()));
    assert_eq!(compiled.get_oapi_description(), None);

    let sig = handler("undocumented", vec![]);
    let compiled = compile_api("/x", None, &sig);
    assert_eq!(compiled.get_oapi_summary(), None);
    assert_eq!(compiled.get_oapi_description(), None);
    assert_eq!(compiled.get_oapi_id(&sig), Some("undocumented".to_string()));
}

#[test]
fn explicit_fields_beat_the_defaults() {
    let options = OapiOptions::parse(vec![
        entry("summary", MetaValue::Str("Explicit".to_string())),
    ])
    .unwrap();
    let sig = handler("named", vec!["DocSummary", "", "DocDescription"]);
    let compiled = compile_api("/x", Some(options), &sig);
    assert_eq!(compiled.get_oapi_summary(), Some("Explicit".to_string()));
    assert_eq!(compiled.get_oapi_description(), Some("DocDescription".to_string()));
    assert_eq!(compiled.get_oapi_id(&sig), Some("named".to_string()));
}

#[test]
fn unknown_metadata_key_is_rejected() {
    let result = OapiOptions::parse(vec![
        entry("sumary", MetaValue::Str("typo".to_string())),
    ]);
    match result {
        Err(e @ CompileError::MetadataShape {
            kind: MetadataShapeKind::UnknownKey { .. },
            ..
        }) => {
            assert_eq!(
                e.message(),
                "unexpected field, expected one of (summary, description, id, hidden, tags, \
                 security, responses, transform)"
            );
        },
        other => panic!("expected an unknown-key error, got {:?}", other),
    }
}

#[test]
fn wrongly_shaped_metadata_value_is_rejected() {
    let result = OapiOptions::parse(vec![entry("hidden", MetaValue::Str("yes".to_string()))]);
    match result {
        Err(e @ CompileError::MetadataShape {
            kind: MetadataShapeKind::WrongShape { .. },
            ..
        }) => {
            assert_eq!(e.message(), "unexpected value shape for field `hidden`");
        },
        other => panic!("expected a wrong-shape error, got {:?}", other),
    }
}

#[test]
fn later_metadata_entries_overwrite_earlier_ones() {
    let options = OapiOptions::parse(vec![
        entry("summary", MetaValue::Str("First".to_string())),
        entry("summary", MetaValue::Str("Second".to_string())),
    ])
    .unwrap();
    assert_eq!(options.summary.map(|p| p.1), Some("Second".to_string()));
}

#[test]
fn transform_hooks_must_take_one_plain_identifier() {
    let hook = |inputs: Vec<TransformInput>| {
        OapiOptions::parse(vec![entry(
            "transform",
            MetaValue::Closure(TransformHook {
                inputs,
                body: "x".to_string(),
                span: span(6),
            }),
        )])
        .unwrap()
    };
    let input = |ident: Option<&str>| TransformInput {
        ident: ident.map(|s| s.to_string()),
        span: span(8),
    };
    let sig = handler("hooked", vec![]);

    let two = compile_api("/x", Some(hook(vec![input(Some("a")), input(Some("b"))])), &sig);
    match two.get_oapi_transform() {
        Err(e @ CompileError::TransformArity { kind: TransformArityKind::NotOneInput, .. }) => {
            assert_eq!(e.message(), "expected a single identifier");
            assert_eq!(e.span().tag, 6);
        },
        other => panic!("expected an arity error, got {:?}", other),
    }

    let pattern = compile_api("/x", Some(hook(vec![input(None)])), &sig);
    match pattern.get_oapi_transform() {
        Err(e @ CompileError::TransformArity { kind: TransformArityKind::NotPlainIdent, .. }) => {
            assert_eq!(e.message(), "expected a single identifier without type");
            assert_eq!(e.span().tag, 8);
        },
        other => panic!("expected a plain-identifier error, got {:?}", other),
    }

    let good = compile_api("/x", Some(hook(vec![input(Some("op"))])), &sig);
    assert_eq!(
        good.get_oapi_transform().unwrap(),
        Some(("op".to_string(), "x".to_string()))
    );
}

#[test]
fn renders_metadata_values() {
    let tags = StrArray(vec!["a".to_string(), "b".to_string()]);
    assert_eq!(tags.to_string(), "[\"a\", \"b\"]");
    assert_eq!(StrArray(vec![]).to_string(), "[]");

    let security = Security(vec![
        (
            "MySecurity1".to_string(),
            StrArray(vec!["MyScope1".to_string(), "MyScope2".to_string()]),
        ),
        ("MySecurity2".to_string(), StrArray(vec![])),
    ]);
    assert_eq!(
        security.to_string(),
        "{MySecurity1: [\"MyScope1\", \"MyScope2\"], MySecurity2: []}"
    );

    let responses = Responses(vec![(200, "String".to_string()), (404, "()".to_string())]);
    assert_eq!(responses.to_string(), "{200: String, 404: ()}");
}

#[test]
fn renders_doc_comments_without_metadata() {
    let sig = HandlerSig {
        name: "plain".to_string(),
        name_span: span(7),
        inputs: vec![HandlerArg::Typed {
            binding: Some("id".to_string()),
            ty: HandlerTy { text: "u32".to_string(), wrapper: None },
        }],
        docs: vec![],
    };
    let route = Route::parse(Method::Post(span(2)), "/hello/:id", span(1), None, None).unwrap();
    let compiled = CompiledRoute::from_route(route, &sig, false).unwrap();
    assert_eq!(
        compiled.to_doc_comments(),
        "# Handler information\n- Method: `post`\n- Path: `/hello/:id`\n- State: `()`"
    );
}

#[test]
fn renders_doc_comments_with_metadata() {
    let options = OapiOptions::parse(vec![
        entry("summary", MetaValue::Str("S".to_string())),
        entry("hidden", MetaValue::Bool(true)),
        entry(
            "tags",
            MetaValue::StrArr(StrArray(vec!["t1".to_string()])),
        ),
    ])
    .unwrap();
    let sig = handler("documented", vec![]);
    let compiled = compile_api("/x", Some(options), &sig);
    assert_eq!(
        compiled.to_doc_comments(),
        "# Handler information\n- Method: `get`\n- Path: `/x`\n- State: `()`\n                \n\
         ## OpenAPI\n- Summary: `\"S\"`\n- Description: `None`\n- Operation id: `\"documented\"`\n\
         - Tags: `[\"t1\"]`\n- Security: `{}`\n- Hidden: `true`\n"
    );
}

#[test]
fn passthrough_keeps_unnamed_patterns_and_numbers_positions() {
    // Arguments without a plain-identifier binding can never be claimed and
    // always pass through; placeholders carry the original positions.
    let sig = HandlerSig {
        name: "mixed".to_string(),
        name_span: span(7),
        inputs: vec![
            HandlerArg::Typed {
                binding: None,
                ty: HandlerTy {
                    text: "Json<u32>".to_string(),
                    wrapper: Some(("Json".to_string(), "u32".to_string())),
                },
            },
            HandlerArg::Typed {
                binding: Some("id".to_string()),
                ty: HandlerTy { text: "u32".to_string(), wrapper: None },
            },
            HandlerArg::Typed {
                binding: Some("extra".to_string()),
                ty: HandlerTy { text: "bool".to_string(), wrapper: None },
            },
        ],
        docs: vec![],
    };
    let route = Route::parse(Method::Get(span(2)), "/item/:id", span(1), None, None).unwrap();
    let compiled = CompiledRoute::from_route(route, &sig, false).unwrap();
    assert_eq!(
        compiled.remaining_pattypes_numbered(&sig.inputs),
        vec![
            ("___arg___0".to_string(), "Json<u32>".to_string()),
            ("___arg___2".to_string(), "bool".to_string()),
        ]
    );
}

#[test]
fn placeholder_numbers_render_in_decimal() {
    let mut inputs: Vec<HandlerArg> = Vec::new();
    for _ in 0..12 {
        inputs.push(HandlerArg::Typed {
            binding: None,
            ty: HandlerTy { text: "u8".to_string(), wrapper: None },
        });
    }
    let sig = HandlerSig {
        name: "many".to_string(),
        name_span: span(7),
        inputs,
        docs: vec![],
    };
    let route = Route::parse(Method::Get(span(2)), "/x", span(1), None, None).unwrap();
    let compiled = CompiledRoute::from_route(route, &sig, false).unwrap();
    let remaining = compiled.remaining_pattypes_numbered(&sig.inputs);
    assert_eq!(remaining.len(), 12);
    assert_eq!(remaining[9].0, "___arg___9");
    assert_eq!(remaining[10].0, "___arg___10");
    assert_eq!(remaining[11].0, "___arg___11");
}
