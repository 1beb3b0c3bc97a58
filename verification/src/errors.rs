//! Compile-time diagnostics: every failure names the offending identifier (if
//! any) and carries the source location of the malformed template or field.

use vstd::prelude::*;

verus! {

/// A tag identifying a location in the caller's source text. The routing
/// macro's front end assigns the tags; the compiler only threads them through
/// to diagnostics.
#[derive(Clone, Copy, PartialEq, Eq, Structural, Debug)]
pub struct SrcSpan {
    pub tag: u32,
}

/// The ways a route template itself can be malformed.
#[derive(Clone, Copy, PartialEq, Eq, Structural, Debug)]
pub enum GrammarErrorKind {
    /// More than one `?` in the template.
    MultipleQueryMarks,
    /// The path portion does not begin with `/`.
    MissingLeadingSlash,
    /// A wildcard segment that is not the final path segment.
    MisplacedWildcard,
    /// A `:` capture segment with no name after the marker.
    EmptyCaptureName,
    /// A query parameter with an empty name.
    EmptyQueryName,
    /// The method keyword is not one of the recognized HTTP methods.
    UnknownMethod,
}

/// Whether an unresolved name was claimed by the path or by the query list.
#[derive(Clone, Copy, PartialEq, Eq, Structural, Debug)]
pub enum BindingKind {
    Path,
    Query,
}

/// The ways a transform hook can be rejected.
#[derive(Clone, Copy, PartialEq, Eq, Structural, Debug)]
pub enum TransformArityKind {
    /// The closure does not take exactly one argument.
    NotOneInput,
    /// The single argument is not a plain identifier.
    NotPlainIdent,
}

/// The ways a metadata block can be malformed.
#[derive(Debug)]
pub enum MetadataShapeKind {
    /// A key that is not one of the recognized metadata fields.
    UnknownKey { key: String },
    /// A recognized key whose value does not have the expected literal shape.
    WrongShape { key: String },
}

/// A route compilation failure. All failures are compile-time and fatal for
/// the affected route; none is recoverable.
#[derive(Debug)]
#[allow(inconsistent_fields)]
pub enum CompileError {
    /// The template string is malformed.
    Grammar { kind: GrammarErrorKind, span: SrcSpan },
    /// A path capture or query parameter has no matching handler parameter.
    UnresolvedBinding { kind: BindingKind, name: String, span: SrcSpan },
    /// A metadata field is unrecognized or has the wrong literal shape.
    MetadataShape { kind: MetadataShapeKind, span: SrcSpan },
    /// A transform hook that does not take exactly one plain identifier.
    TransformArity { kind: TransformArityKind, span: SrcSpan },
    /// A metadata block was given in the minimal (metadata-free) mode.
    OptionsNotSupported { span: SrcSpan },
}

/// Mathematical view of `MetadataShapeKind`.
pub enum MetadataShapeKindV {
    UnknownKey { key: Seq<char> },
    WrongShape { key: Seq<char> },
}

/// Mathematical view of `CompileError`.
#[allow(inconsistent_fields)]
pub enum CompileErrorV {
    Grammar { kind: GrammarErrorKind, span: SrcSpan },
    UnresolvedBinding { kind: BindingKind, name: Seq<char>, span: SrcSpan },
    MetadataShape { kind: MetadataShapeKindV, span: SrcSpan },
    TransformArity { kind: TransformArityKind, span: SrcSpan },
    OptionsNotSupported { span: SrcSpan },
}

impl View for MetadataShapeKind {
    type V = MetadataShapeKindV;

    open spec fn view(&self) -> MetadataShapeKindV {
        match self {
            MetadataShapeKind::UnknownKey { key } => MetadataShapeKindV::UnknownKey { key: key@ },
            MetadataShapeKind::WrongShape { key } => MetadataShapeKindV::WrongShape { key: key@ },
        }
    }
}

/// The diagnostic text for an error, exactly as it is surfaced beside the
/// span.
pub open spec fn spec_message(e: CompileErrorV) -> Seq<char> {
    match e {
        CompileErrorV::Grammar { kind, span: _ } => match kind {
            GrammarErrorKind::MultipleQueryMarks => "expected at most one '?'"@,
            GrammarErrorKind::MissingLeadingSlash => "expected path to start with '/'"@,
            GrammarErrorKind::MisplacedWildcard => "wildcard path param must be the last path param"@,
            GrammarErrorKind::EmptyCaptureName => "expected a non-empty path parameter name"@,
            GrammarErrorKind::EmptyQueryName => "expected a non-empty query parameter name"@,
            GrammarErrorKind::UnknownMethod => "expected one of (GET, POST, PUT, DELETE, HEAD, CONNECT, OPTIONS, TRACE)"@,
        },
        CompileErrorV::UnresolvedBinding { kind, name, span: _ } => match kind {
            BindingKind::Path => "path parameter `"@ + name
                + "` not found in function arguments"@,
            BindingKind::Query => "query parameter `"@ + name
                + "` not found in function arguments"@,
        },
        CompileErrorV::MetadataShape { kind, span: _ } => match kind {
            MetadataShapeKindV::UnknownKey { key: _ } => "unexpected field, expected one of (summary, description, id, hidden, tags, security, responses, transform)"@,
            MetadataShapeKindV::WrongShape { key } => "unexpected value shape for field `"@ + key
                + "`"@,
        },
        CompileErrorV::TransformArity { kind, span: _ } => match kind {
            TransformArityKind::NotOneInput => "expected a single identifier"@,
            TransformArityKind::NotPlainIdent => "expected a single identifier without type"@,
        },
        CompileErrorV::OptionsNotSupported { span: _ } => "Use `api_route` instead of `route` to use OpenAPI options"@,
    }
}

impl CompileError {
    /// The source location the error points at.
    pub fn span(&self) -> (s: SrcSpan)
        ensures
            s == (match self@ {
                CompileErrorV::Grammar { kind: _, span } => span,
                CompileErrorV::UnresolvedBinding { kind: _, name: _, span } => span,
                CompileErrorV::MetadataShape { kind: _, span } => span,
                CompileErrorV::TransformArity { kind: _, span } => span,
                CompileErrorV::OptionsNotSupported { span } => span,
            }),
    {
        match self {
            CompileError::Grammar { kind: _, span } => *span,
            CompileError::UnresolvedBinding { kind: _, name: _, span } => *span,
            CompileError::MetadataShape { kind: _, span } => *span,
            CompileError::TransformArity { kind: _, span } => *span,
            CompileError::OptionsNotSupported { span } => *span,
        }
    }

    /// Renders the diagnostic text, naming the offending identifier where
    /// the error has one.
    pub fn message(&self) -> (r: String)
        ensures
            r@ == spec_message(self@),
    {
        match self {
            CompileError::Grammar { kind, span: _ } => match kind {
                GrammarErrorKind::MultipleQueryMarks => String::from_str(
                    "expected at most one '?'",
                ),
                GrammarErrorKind::MissingLeadingSlash => String::from_str(
                    "expected path to start with '/'",
                ),
                GrammarErrorKind::MisplacedWildcard => String::from_str(
                    "wildcard path param must be the last path param",
                ),
                GrammarErrorKind::EmptyCaptureName => String::from_str(
                    "expected a non-empty path parameter name",
                ),
                GrammarErrorKind::EmptyQueryName => String::from_str(
                    "expected a non-empty query parameter name",
                ),
                GrammarErrorKind::UnknownMethod => String::from_str(
                    "expected one of (GET, POST, PUT, DELETE, HEAD, CONNECT, OPTIONS, TRACE)",
                ),
            },
            CompileError::UnresolvedBinding { kind, name, span: _ } => {
                let mut s = match kind {
                    BindingKind::Path => String::from_str("path parameter `"),
                    BindingKind::Query => String::from_str("query parameter `"),
                };
                s.append(name.as_str());
                s.append("` not found in function arguments");
                s
            },
            CompileError::MetadataShape { kind, span: _ } => match kind {
                MetadataShapeKind::UnknownKey { key: _ } => String::from_str(
                    "unexpected field, expected one of (summary, description, id, hidden, tags, security, responses, transform)",
                ),
                MetadataShapeKind::WrongShape { key } => {
                    let mut s = String::from_str("unexpected value shape for field `");
                    s.append(key.as_str());
                    s.append("`");
                    s
                },
            },
            CompileError::TransformArity { kind, span: _ } => match kind {
                TransformArityKind::NotOneInput => String::from_str("expected a single identifier"),
                TransformArityKind::NotPlainIdent => String::from_str(
                    "expected a single identifier without type",
                ),
            },
            CompileError::OptionsNotSupported { span: _ } => String::from_str(
                "Use `api_route` instead of `route` to use OpenAPI options",
            ),
        }
    }
}

impl View for CompileError {
    type V = CompileErrorV;

    open spec fn view(&self) -> CompileErrorV {
        match self {
            CompileError::Grammar { kind, span } => CompileErrorV::Grammar {
                kind: *kind,
                span: *span,
            },
            CompileError::UnresolvedBinding { kind, name, span } => {
                CompileErrorV::UnresolvedBinding { kind: *kind, name: name@, span: *span }
            },
            CompileError::MetadataShape { kind, span } => CompileErrorV::MetadataShape {
                kind: kind@,
                span: *span,
            },
            CompileError::TransformArity { kind, span } => CompileErrorV::TransformArity {
                kind: *kind,
                span: *span,
            },
            CompileError::OptionsNotSupported { span } => CompileErrorV::OptionsNotSupported {
                span: *span,
            },
        }
    }
}

} // verus!
