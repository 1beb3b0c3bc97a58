use axum_typed_routing::compilation::{CompiledRoute, HandlerArg, HandlerSig, HandlerTy};
use axum_typed_routing::errors::SrcSpan;
use axum_typed_routing::parsing::{Method, PathParam, Route};

fn span(tag: u32) -> SrcSpan {
    SrcSpan { tag }
}

fn arg(name: &str, ty: &str) -> HandlerArg {
    HandlerArg::Typed {
        binding: Some(name.to_string()),
        ty: HandlerTy { text: ty.to_string(), wrapper: None },
    }
}

fn handler(inputs: Vec<HandlerArg>) -> HandlerSig {
    HandlerSig { name: "h".to_string(), name_span: span(7), inputs, docs: vec![] }
}

/// Compiles a template whose captures and query names are exactly `names`,
/// and returns the canonical path.
fn round_trip(template: &str, names: &[&str]) -> String {
    let sig = handler(names.iter().map(|n| arg(n, "u32")).collect());
    let route = Route::parse(Method::Get(span(2)), template, span(1), None, None).unwrap();
    let compiled = CompiledRoute::from_route(route, &sig, false).unwrap();
    compiled.to_axum_path_string()
}

#[test]
fn canonical_path_reproduces_the_template() {
    assert_eq!(round_trip("/", &[]), "/");
    assert_eq!(round_trip("/hello", &[]), "/hello");
    assert_eq!(round_trip("/a//b", &[]), "/a//b");
    assert_eq!(round_trip("/a/:b/*c", &["b", "c"]), "/a/:b/*c");
    assert_eq!(round_trip("/a/*", &[]), "/a/*");
    assert_eq!(round_trip("/x/:y?q&r", &["y", "q", "r"]), "/x/:y");
    assert_eq!(round_trip("/a:b/c", &[]), "/a:b/c");
}

#[test]
fn binding_resolves_capture_and_wildcard_types() {
    let sig = handler(vec![arg("b", "u64"), arg("c", "String")]);
    let route = Route::parse(Method::Get(span(2)), "/a/:b/*c", span(1), None, None).unwrap();
    let compiled = CompiledRoute::from_route(route, &sig, false).unwrap();
    match &compiled.path_params[1] {
        PathParam::Capture { name, ty } => {
            assert_eq!(name.as_str(), "b");
            assert_eq!(ty.as_deref(), Some("u64"));
        },
        other => panic!("expected a capture, got {:?}", other),
    }
    match &compiled.path_params[2] {
        PathParam::Wildcard { name, ty } => {
            assert_eq!(name.as_str(), "c");
            assert_eq!(ty.as_deref(), Some("String"));
        },
        other => panic!("expected a wildcard, got {:?}", other),
    }
    // Both capturing segments make the extraction plan.
    let p = &compiled.path_params[1];
    assert!(p.captures());
    let (name, ty) = p.capture().unwrap();
    assert_eq!(name.as_str(), "b");
    assert_eq!(ty.as_deref(), Some("u64"));
    assert!(!compiled.path_params[0].captures());
}

#[test]
fn passthrough_is_the_parameter_list_minus_the_claimed_names() {
    let sig = handler(vec![arg("x", "u32"), arg("y", "bool"), arg("z", "String")]);
    let route = Route::parse(Method::Get(span(2)), "/a/:x?y", span(1), None, None).unwrap();
    let compiled = CompiledRoute::from_route(route, &sig, false).unwrap();
    assert_eq!(
        compiled.extracted_idents(),
        vec!["x".to_string(), "y".to_string()]
    );
    assert_eq!(
        compiled.remaining_pattypes_numbered(&sig.inputs),
        vec![("___arg___2".to_string(), "String".to_string())]
    );
    assert_eq!(
        compiled.query_params,
        vec![("y".to_string(), "bool".to_string())]
    );
}

#[test]
fn route_carries_the_original_template_for_diagnostics() {
    let sig = handler(vec![arg("id", "u32")]);
    let route = Route::parse(Method::Get(span(2)), "/item/:id", span(41), None, None).unwrap();
    assert_eq!(route.route_lit, "/item/:id");
    assert_eq!(route.route_span.tag, 41);
    let compiled = CompiledRoute::from_route(route, &sig, false).unwrap();
    assert_eq!(compiled.route_lit, "/item/:id");
    assert_eq!(compiled.route_span.tag, 41);
}
