use axum_typed_routing::compilation::{CompiledRoute, HandlerArg, HandlerSig, HandlerTy};
use axum_typed_routing::errors::{BindingKind, CompileError, SrcSpan};
use axum_typed_routing::parsing::{
    MetaEntry, MetaValue, Method, OapiOptions, PathParam, Responses, Route, Security, StrArray,
    TransformHook, TransformInput,
};

fn span(tag: u32) -> SrcSpan {
    SrcSpan { tag }
}

/// A typed argument bound to a plain identifier, with a plain (non-wrapper)
/// type.
fn arg(name: &str, ty: &str) -> HandlerArg {
    HandlerArg::Typed {
        binding: Some(name.to_string()),
        ty: HandlerTy { text: ty.to_string(), wrapper: None },
    }
}

/// A typed argument whose type has the single-argument wrapper shape.
fn wrapped_arg(binding: Option<&str>, text: &str, ident: &str, inner: &str) -> HandlerArg {
    HandlerArg::Typed {
        binding: binding.map(|b| b.to_string()),
        ty: HandlerTy {
            text: text.to_string(),
            wrapper: Some((ident.to_string(), inner.to_string())),
        },
    }
}

fn handler(name: &str, inputs: Vec<HandlerArg>, docs: Vec<&str>) -> HandlerSig {
    HandlerSig {
        name: name.to_string(),
        name_span: span(7),
        inputs,
        docs: docs.into_iter().map(|d| d.to_string()).collect(),
    }
}

fn compile(
    method: Method,
    template: &str,
    state: Option<&str>,
    options: Option<OapiOptions>,
    sig: &HandlerSig,
    with_aide: bool,
) -> Result<CompiledRoute, CompileError> {
    let route = Route::parse(
        method,
        template,
        span(1),
        state.map(|s| s.to_string()),
        options,
    )?;
    CompiledRoute::from_route(route, sig, with_aide)
}

#[test]
fn test_normal() {
    // GET "/hello/:id?user_id&name" on a handler with a documented signature,
    // extra extractor-style arguments and a named state argument.
    let sig = handler(
        "generic_handler_with_complex_options",
        vec![
            arg("id", "u32"),
            arg("user_id", "String"),
            arg("name", "String"),
            wrapped_arg(None, "State<String>", "State", "String"),
            wrapped_arg(Some("hello"), "State<String>", "State", "String"),
            wrapped_arg(None, "Json<u32>", "Json", "u32"),
        ],
        vec![" This is a handler that is documented!"],
    );
    let compiled = compile(
        Method::Get(span(2)),
        "/hello/:id?user_id&name",
        None,
        None,
        &sig,
        false,
    )
    .unwrap();
    assert_eq!(compiled.to_axum_path_string(), "/hello/:id");

    let with_state_sig = handler(
        "with_state",
        vec![wrapped_arg(Some("state"), "State<String>", "State", "String")],
        vec![],
    );
    let compiled = compile(Method::Post(span(2)), "/hello", None, None, &with_state_sig, false)
        .unwrap();
    assert_eq!(compiled.to_axum_path_string(), "/hello");
}

#[test]
fn test_aide() {
    // The metadata-capable mode on routes without an explicit metadata block.
    let get_hello = handler(
        "get_hello",
        vec![wrapped_arg(Some("state"), "State<String>", "State", "String")],
        vec![" get-summary", "", " get-description"],
    );
    let compiled = compile(Method::Get(span(2)), "/hello", None, None, &get_hello, true).unwrap();
    assert_eq!(compiled.to_axum_path_string(), "/hello");

    let post_hello = handler(
        "post_hello",
        vec![wrapped_arg(Some("state"), "State<String>", "State", "String")],
        vec![" post-summary", "", " post-description"],
    );
    let compiled = compile(Method::Post(span(2)), "/hello", None, None, &post_hello, true)
        .unwrap();
    assert_eq!(compiled.to_axum_path_string(), "/hello");
}

#[test]
fn summary_and_description_are_generated_from_doc_comments() {
    let get_hello = handler(
        "get_hello",
        vec![wrapped_arg(Some("state"), "State<String>", "State", "String")],
        vec![" get-summary", "", " get-description"],
    );
    let get_op = compile(Method::Get(span(2)), "/hello", None, None, &get_hello, true).unwrap();

    let post_hello = handler(
        "post_hello",
        vec![wrapped_arg(Some("state"), "State<String>", "State", "String")],
        vec![" post-summary", "", " post-description"],
    );
    let post_op = compile(Method::Post(span(2)), "/hello", None, None, &post_hello, true)
        .unwrap();

    assert_eq!(get_op.get_oapi_summary(), Some(" get-summary".to_string()));
    assert_eq!(get_op.get_oapi_description(), Some(" get-description".to_string()));
    assert!(get_op.get_oapi_tags().is_empty());

    assert_eq!(post_op.get_oapi_summary(), Some(" post-summary".to_string()));
    assert_eq!(post_op.get_oapi_description(), Some(" post-description".to_string()));
    assert!(post_op.get_oapi_tags().is_empty());
}

#[test]
fn generated_from_attributes() {
    let entry = |key: &str, value: MetaValue| MetaEntry {
        key: key.to_string(),
        key_span: span(3),
        value,
    };
    let options = OapiOptions::parse(vec![
        entry("summary", MetaValue::Str("MySummary".to_string())),
        entry("description", MetaValue::Str("MyDescription".to_string())),
        entry("hidden", MetaValue::Bool(false)),
        entry("id", MetaValue::Str("MyRoute".to_string())),
        entry(
            "tags",
            MetaValue::StrArr(StrArray(vec!["MyTag1".to_string(), "MyTag2".to_string()])),
        ),
        entry(
            "security",
            MetaValue::Sec(Security(vec![
                (
                    "MySecurity1".to_string(),
                    StrArray(vec!["MyScope1".to_string(), "MyScope2".to_string()]),
                ),
                ("MySecurity2".to_string(), StrArray(vec![])),
            ])),
        ),
        entry(
            "responses",
            MetaValue::Resp(Responses(vec![(300, "String".to_string())])),
        ),
        entry(
            "transform",
            MetaValue::Closure(TransformHook {
                inputs: vec![TransformInput { ident: Some("x".to_string()), span: span(4) }],
                body: "x.summary(\"OverriddenSummary\")".to_string(),
                span: span(4),
            }),
        ),
    ])
    .unwrap();

    let sig = handler(
        "get_gello_with_attributes",
        vec![wrapped_arg(Some("state"), "State<String>", "State", "String")],
        vec![" unused-summary", "", " unused-description"],
    );
    let get_op = compile(Method::Get(span(2)), "/hello", None, Some(options), &sig, true)
        .unwrap();

    // The explicit metadata always beats the doc-comment defaults; the
    // transform hook that later overrides the summary is handed on as a plan.
    assert_eq!(get_op.get_oapi_summary(), Some("MySummary".to_string()));
    assert_eq!(get_op.get_oapi_description(), Some("MyDescription".to_string()));
    assert_eq!(
        get_op.get_oapi_tags(),
        vec!["MyTag1".to_string(), "MyTag2".to_string()]
    );
    assert_eq!(get_op.get_oapi_id(&sig), Some("MyRoute".to_string()));
    let transform = get_op.get_oapi_transform().unwrap();
    assert_eq!(
        transform,
        Some(("x".to_string(), "x.summary(\"OverriddenSummary\")".to_string()))
    );
}

#[test]
fn end_to_end_item_route() {
    // GET "/item/:id?amount&offset" against [id, amount, offset, state].
    let sig = handler(
        "item_handler",
        vec![
            arg("id", "u32"),
            arg("amount", "Option<u32>"),
            arg("offset", "Option<u32>"),
            wrapped_arg(Some("state"), "State<String>", "State", "String"),
        ],
        vec![],
    );
    let compiled = compile(
        Method::Get(span(2)),
        "/item/:id?amount&offset",
        None,
        None,
        &sig,
        false,
    )
    .unwrap();

    assert_eq!(compiled.to_axum_path_string(), "/item/:id");
    assert_eq!(compiled.path_params.len(), 2);
    match &compiled.path_params[1] {
        PathParam::Capture { name, ty } => {
            assert_eq!(name.as_str(), "id");
            assert_eq!(ty.as_deref(), Some("u32"));
        },
        other => panic!("expected a capture, got {:?}", other),
    }
    assert_eq!(
        compiled.query_params,
        vec![
            ("amount".to_string(), "Option<u32>".to_string()),
            ("offset".to_string(), "Option<u32>".to_string()),
        ]
    );
    assert_eq!(compiled.state, "String");
    // The state argument is consumed by state inference but never claimed by
    // a binding: it stays in the passthrough plan; nothing else does.
    let remaining = compiled.remaining_pattypes_numbered(&sig.inputs);
    assert_eq!(
        remaining,
        vec![("___arg___3".to_string(), "State<String>".to_string())]
    );
    assert_eq!(
        compiled.extracted_idents(),
        vec!["id".to_string(), "amount".to_string(), "offset".to_string()]
    );
}

#[test]
fn end_to_end_unresolved_binding() {
    // "/item/:id" against a parameter list without `id`.
    let sig = handler("item_handler", vec![arg("amount", "u32")], vec![]);
    let result = compile(Method::Get(span(2)), "/item/:id", None, None, &sig, false);
    match result {
        Err(e @ CompileError::UnresolvedBinding { .. }) => {
            assert_eq!(e.message(), "path parameter `id` not found in function arguments");
            assert_eq!(e.span().tag, 1);
            match e {
                CompileError::UnresolvedBinding { kind, name, .. } => {
                    assert!(matches!(kind, BindingKind::Path));
                    assert_eq!(name, "id");
                },
                _ => unreachable!(),
            }
        },
        other => panic!("expected an unresolved path binding, got {:?}", other),
    }
}

#[test]
fn state_inference_and_override() {
    // [a: u32, s: State<String>, b: bool] with no override infers String.
    let sig = handler(
        "stateful",
        vec![
            arg("a", "u32"),
            wrapped_arg(Some("s"), "State<String>", "State", "String"),
            arg("b", "bool"),
        ],
        vec![],
    );
    let inferred = compile(Method::Put(span(2)), "/x", None, None, &sig, false).unwrap();
    assert_eq!(inferred.state, "String");

    // An explicit override always wins, wrapper-shaped argument or not.
    let overridden = compile(Method::Put(span(2)), "/x", Some("MyState"), None, &sig, false)
        .unwrap();
    assert_eq!(overridden.state, "MyState");

    // A wrapper shape under another name is not the state wrapper.
    let other = handler(
        "no_state",
        vec![wrapped_arg(Some("form"), "Form<u32>", "Form", "u32")],
        vec![],
    );
    let unit = compile(Method::Put(span(2)), "/x", None, None, &other, false).unwrap();
    assert_eq!(unit.state, "()");
}

#[test]
fn metadata_block_requires_api_mode() {
    let sig = handler("plain", vec![], vec![]);
    let options = OapiOptions::parse(vec![]).unwrap();
    let result = compile(Method::Get(span(2)), "/x", None, Some(options), &sig, false);
    match result {
        Err(e @ CompileError::OptionsNotSupported { .. }) => {
            assert_eq!(
                e.message(),
                "Use `api_route` instead of `route` to use OpenAPI options"
            );
        },
        other => panic!("expected the mode-gating error, got {:?}", other),
    }
}

#[test]
fn double_claim_fails_on_the_query_pass() {
    // A name claimed by a path capture cannot be claimed again by the query
    // list: the second claim finds no unclaimed entry.
    let sig = handler("double", vec![arg("x", "u32")], vec![]);
    let result = compile(Method::Get(span(2)), "/a/:x?x", None, None, &sig, false);
    match result {
        Err(e @ CompileError::UnresolvedBinding { .. }) => {
            assert_eq!(e.message(), "query parameter `x` not found in function arguments");
            match e {
                CompileError::UnresolvedBinding { kind, name, .. } => {
                    assert!(matches!(kind, BindingKind::Query));
                    assert_eq!(name, "x");
                },
                _ => unreachable!(),
            }
        },
        other => panic!("expected an unresolved query binding, got {:?}", other),
    }
}
