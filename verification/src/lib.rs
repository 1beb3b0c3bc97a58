//! Compiles declarative route templates into binding plans.
//!
//! A route template names an HTTP method, a slash-delimited path made of
//! literal, capture (`:name`) and wildcard (`*name`) segments, an optional
//! query-parameter list (`?a&b`), and optional documentation metadata. The
//! compiler reconciles the names the template declares against a handler's
//! ordered, typed parameter list and produces a canonical path string plus an
//! ordered binding plan: path captures, query bindings, and the passthrough
//! parameters that no binding claimed. The token-level front end and the code
//! generation around an actual router live outside this crate; everything
//! here works on plain names, type tokens and span tags, and is verified.

pub mod compilation;
pub mod errors;
pub mod laws;
pub mod parsing;
pub mod text;
