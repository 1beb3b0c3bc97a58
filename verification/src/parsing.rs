//! The route-template grammar: `"/" (segment "/")* ["?" name ("&" name)*]`,
//! where a segment is a literal, `:name` capture, or `*name` wildcard, plus
//! the HTTP method keyword. The parser classifies the template's tokens and
//! enforces the grammar's invariants (one `?` at most, leading slash, wildcard
//! only in final position, no empty names).

use vstd::prelude::*;

use crate::compilation::{HandlerSig, HandlerSigV};
use crate::errors::{
    CompileError, CompileErrorV, GrammarErrorKind, MetadataShapeKind, MetadataShapeKindV, SrcSpan,
};
use crate::text::{
    dec_str, eq_ignore_case, join_on, lemma_join_on_push, split_on, split_str, str_eq, str_views,
    upper_chars, usize_to_string,
};

verus! {

/// The view of an optional string.
pub open spec fn opt_view(o: Option<String>) -> Option<Seq<char>> {
    match o {
        Some(s) => Some(s@),
        None => None,
    }
}

/// One of the eight HTTP methods a route template may name. Each variant
/// carries the source location of the method keyword.
#[derive(Clone, Copy, PartialEq, Eq, Structural, Debug)]
pub enum Method {
    Get(SrcSpan),
    Post(SrcSpan),
    Put(SrcSpan),
    Delete(SrcSpan),
    Head(SrcSpan),
    Connect(SrcSpan),
    Options(SrcSpan),
    Trace(SrcSpan),
}

/// The method denoted by an identifier, compared case-insensitively, if any.
pub open spec fn spec_method_of(ident: Seq<char>, span: SrcSpan) -> Option<Method> {
    let u = upper_chars(ident);
    if u == "GET"@ {
        Some(Method::Get(span))
    } else if u == "POST"@ {
        Some(Method::Post(span))
    } else if u == "PUT"@ {
        Some(Method::Put(span))
    } else if u == "DELETE"@ {
        Some(Method::Delete(span))
    } else if u == "HEAD"@ {
        Some(Method::Head(span))
    } else if u == "CONNECT"@ {
        Some(Method::Connect(span))
    } else if u == "OPTIONS"@ {
        Some(Method::Options(span))
    } else if u == "TRACE"@ {
        Some(Method::Trace(span))
    } else {
        None
    }
}

impl Method {
    /// The lower-case name of the method, as the routing layer spells it.
    pub open spec fn spec_name(self) -> Seq<char> {
        match self {
            Method::Get(_) => "get"@,
            Method::Post(_) => "post"@,
            Method::Put(_) => "put"@,
            Method::Delete(_) => "delete"@,
            Method::Head(_) => "head"@,
            Method::Connect(_) => "connect"@,
            Method::Options(_) => "options"@,
            Method::Trace(_) => "trace"@,
        }
    }

    /// Parses a method keyword, case-insensitively.
    pub fn parse(ident: &str, span: SrcSpan) -> (r: Result<Method, CompileError>)
        ensures
            match r {
                Ok(m) => spec_method_of(ident@, span) == Some(m),
                Err(e) => spec_method_of(ident@, span) is None && e@ == (
                CompileErrorV::Grammar { kind: GrammarErrorKind::UnknownMethod, span }),
            },
    {
        if eq_ignore_case(ident, "GET") {
            Ok(Method::Get(span))
        } else if eq_ignore_case(ident, "POST") {
            Ok(Method::Post(span))
        } else if eq_ignore_case(ident, "PUT") {
            Ok(Method::Put(span))
        } else if eq_ignore_case(ident, "DELETE") {
            Ok(Method::Delete(span))
        } else if eq_ignore_case(ident, "HEAD") {
            Ok(Method::Head(span))
        } else if eq_ignore_case(ident, "CONNECT") {
            Ok(Method::Connect(span))
        } else if eq_ignore_case(ident, "OPTIONS") {
            Ok(Method::Options(span))
        } else if eq_ignore_case(ident, "TRACE") {
            Ok(Method::Trace(span))
        } else {
            Err(CompileError::Grammar { kind: GrammarErrorKind::UnknownMethod, span })
        }
    }

    /// The method name used when registering the route.
    pub fn to_axum_method_name(&self) -> (name: &'static str)
        ensures
            name@ == self.spec_name(),
    {
        match self {
            Method::Get(_) => "get",
            Method::Post(_) => "post",
            Method::Put(_) => "put",
            Method::Delete(_) => "delete",
            Method::Head(_) => "head",
            Method::Connect(_) => "connect",
            Method::Options(_) => "options",
            Method::Trace(_) => "trace",
        }
    }
}

/// One parsed path segment. Capture and wildcard segments start with an
/// unresolved type (`None`); the compiler fills the type in when it binds the
/// name to a handler parameter.
#[derive(Debug)]
pub enum PathParam {
    Static { text: String },
    Capture { name: String, ty: Option<String> },
    Wildcard { name: String, ty: Option<String> },
}

/// Mathematical view of `PathParam`.
#[verifier::ext_equal]
pub enum PathParamV {
    Static { text: Seq<char> },
    Capture { name: Seq<char>, ty: Option<Seq<char>> },
    Wildcard { name: Seq<char>, ty: Option<Seq<char>> },
}

impl View for PathParam {
    type V = PathParamV;

    open spec fn view(&self) -> PathParamV {
        match self {
            PathParam::Static { text } => PathParamV::Static { text: text@ },
            PathParam::Capture { name, ty } => PathParamV::Capture {
                name: name@,
                ty: opt_view(*ty),
            },
            PathParam::Wildcard { name, ty } => PathParamV::Wildcard {
                name: name@,
                ty: opt_view(*ty),
            },
        }
    }
}

/// The views of a sequence of path segments.
pub open spec fn seg_views(v: Seq<PathParam>) -> Seq<PathParamV> {
    v.map_values(|p: PathParam| p@)
}

/// Classifies one path token: a leading `:` marks a capture, a leading `*`
/// followed by at least one character marks a wildcard, anything else is a
/// literal segment.
pub open spec fn classify(tok: Seq<char>) -> PathParamV {
    if tok.len() > 0 && tok[0] == ':' {
        PathParamV::Capture { name: tok.drop_first(), ty: None }
    } else if tok.len() > 1 && tok[0] == '*' {
        PathParamV::Wildcard { name: tok.drop_first(), ty: None }
    } else {
        PathParamV::Static { text: tok }
    }
}

/// The template text a segment renders back to: its marker followed by its
/// name, or the literal itself.
pub open spec fn seg_text(p: PathParamV) -> Seq<char> {
    match p {
        PathParamV::Static { text } => text,
        PathParamV::Capture { name, ty: _ } => seq![':'] + name,
        PathParamV::Wildcard { name, ty: _ } => seq!['*'] + name,
    }
}

/// Whether a segment may only stand in final position: a wildcard capture, or
/// the bare `*` literal.
pub open spec fn must_be_last(p: PathParamV) -> bool {
    match p {
        PathParamV::Static { text } => text == seq!['*'],
        PathParamV::Capture { name: _, ty: _ } => false,
        PathParamV::Wildcard { name: _, ty: _ } => true,
    }
}

/// Whether a segment is a capture with an empty name (the malformed `:`
/// token).
pub open spec fn is_empty_capture(p: PathParamV) -> bool {
    match p {
        PathParamV::Capture { name, ty: _ } => name.len() == 0,
        _ => false,
    }
}

impl PathParam {
    /// Classifies one path token.
    pub fn new(token: &str) -> (p: PathParam)
        ensures
            p@ == classify(token@),
    {
        let n = token.unicode_len();
        if n > 0 && token.get_char(0) == ':' {
            let name = String::from_str(token.substring_char(1, n));
            proof {
                assert(name@ =~= token@.drop_first());
            }
            PathParam::Capture { name, ty: None }
        } else if n > 1 && token.get_char(0) == '*' {
            let name = String::from_str(token.substring_char(1, n));
            proof {
                assert(name@ =~= token@.drop_first());
            }
            PathParam::Wildcard { name, ty: None }
        } else {
            PathParam::Static { text: String::from_str(token) }
        }
    }

    /// Whether this segment binds a handler parameter.
    pub fn captures(&self) -> (r: bool)
        ensures
            r == (self@ is Capture || self@ is Wildcard),
    {
        match self {
            PathParam::Static { .. } => false,
            PathParam::Capture { .. } => true,
            PathParam::Wildcard { .. } => true,
        }
    }

    /// The bound name and resolved type of a capturing segment.
    pub fn capture(&self) -> (r: Option<(&String, &Option<String>)>)
        ensures
            match self@ {
                PathParamV::Static { text: _ } => r is None,
                PathParamV::Capture { name, ty } => {
                    r matches Some(p) && p.0@ == name && opt_view(*p.1) == ty
                },
                PathParamV::Wildcard { name, ty } => {
                    r matches Some(p) && p.0@ == name && opt_view(*p.1) == ty
                },
            },
    {
        match self {
            PathParam::Static { .. } => None,
            PathParam::Capture { name, ty } => Some((name, ty)),
            PathParam::Wildcard { name, ty } => Some((name, ty)),
        }
    }
}

/// The classification of every token of a split path.
pub open spec fn classify_all(toks: Seq<Seq<char>>) -> Seq<PathParamV> {
    toks.map_values(|t: Seq<char>| classify(t))
}

/// The path portion of a template: everything before the first `?`.
pub open spec fn path_piece(s: Seq<char>) -> Seq<char> {
    split_on(s, '?')[0]
}

/// The classified path segments of a template (meaningful once the path
/// portion is known to start with `/`).
pub open spec fn path_segs(s: Seq<char>) -> Seq<PathParamV> {
    classify_all(split_on(path_piece(s).drop_first(), '/'))
}

/// The query-parameter names of a template: the `&`-separated names after the
/// `?`, or nothing when the template has no query portion.
pub open spec fn query_names(s: Seq<char>) -> Seq<Seq<char>> {
    if split_on(s, '?').len() == 2 {
        split_on(split_on(s, '?')[1], '&')
    } else {
        Seq::<Seq<char>>::empty()
    }
}

/// Whether some segment is a capture with an empty name.
pub open spec fn has_empty_capture(segs: Seq<PathParamV>) -> bool {
    exists|i: int| 0 <= i < segs.len() && is_empty_capture(segs[i])
}

/// Whether some wildcard-like segment stands before the final position.
pub open spec fn has_misplaced_wildcard(segs: Seq<PathParamV>) -> bool {
    exists|i: int| 0 <= i < segs.len() - 1 && must_be_last(segs[i])
}

/// Whether some query-parameter name is empty.
pub open spec fn has_empty_query(query: Seq<Seq<char>>) -> bool {
    exists|i: int| 0 <= i < query.len() && query[i].len() == 0
}

/// The parse of a raw template string: its classified path segments and its
/// query-parameter names, or the first grammar error, checked in this order:
/// at most one `?`; leading `/`; no empty capture name; wildcard only final;
/// no empty query name.
pub open spec fn spec_parse(s: Seq<char>) -> Result<
    (Seq<PathParamV>, Seq<Seq<char>>),
    GrammarErrorKind,
> {
    if split_on(s, '?').len() > 2 {
        Err(GrammarErrorKind::MultipleQueryMarks)
    } else if path_piece(s).len() == 0 || path_piece(s)[0] != '/' {
        Err(GrammarErrorKind::MissingLeadingSlash)
    } else if has_empty_capture(path_segs(s)) {
        Err(GrammarErrorKind::EmptyCaptureName)
    } else if has_misplaced_wildcard(path_segs(s)) {
        Err(GrammarErrorKind::MisplacedWildcard)
    } else if has_empty_query(query_names(s)) {
        Err(GrammarErrorKind::EmptyQueryName)
    } else {
        Ok((path_segs(s), query_names(s)))
    }
}

/// The parsed form of a raw route template: ordered path segments (types
/// still unresolved) and query-parameter names in declaration order.
#[derive(Debug)]
pub struct RouteParser {
    pub path_params: Vec<PathParam>,
    pub query_params: Vec<String>,
}

impl RouteParser {
    /// Parses the raw template string. Returns exactly what `spec_parse`
    /// prescribes for it; every failure is a grammar error carrying the
    /// template's source span.
    #[verifier::loop_isolation(false)]
    pub fn new(route: &str, span: SrcSpan) -> (r: Result<RouteParser, CompileError>)
        ensures
            match r {
                Ok(rp) => spec_parse(route@) == Ok::<_, GrammarErrorKind>(
                    (seg_views(rp.path_params@), str_views(rp.query_params@)),
                ),
                Err(e) => spec_parse(route@) matches Err(k) && e@ == (CompileErrorV::Grammar {
                    kind: k,
                    span,
                }),
            },
    {
        let pieces = split_str(route, '?');
        proof {
            assert(str_views(pieces@).len() == pieces@.len());
        }
        if pieces.len() > 2 {
            return Err(CompileError::Grammar { kind: GrammarErrorKind::MultipleQueryMarks, span });
        }
        let ghost pieces_v = str_views(pieces@);
        let path = &pieces[0];
        proof {
            assert(path@ == pieces_v[0]);
        }
        let path_len = path.as_str().unicode_len();
        if path_len == 0 || path.as_str().get_char(0) != '/' {
            return Err(CompileError::Grammar { kind: GrammarErrorKind::MissingLeadingSlash, span });
        }
        let rest = path.as_str().substring_char(1, path_len);
        proof {
            assert(path@ == path_piece(route@));
            assert(rest@ =~= path@.drop_first());
        }
        let toks = split_str(rest, '/');
        let ghost segs = path_segs(route@);
        proof {
            assert(str_views(toks@) == split_on(path_piece(route@).drop_first(), '/'));
            assert(segs == classify_all(str_views(toks@)));
            assert(segs.len() == toks@.len());
        }
        let n_toks = toks.len();
        let mut path_params: Vec<PathParam> = Vec::new();
        let mut i: usize = 0;
        while i < n_toks
            invariant
                i <= n_toks,
                n_toks == toks@.len(),
                segs.len() == toks@.len(),
                forall|j: int| 0 <= j < segs.len() ==> segs[j] == classify(str_views(toks@)[j]),
                str_views(toks@) == split_on(path@.drop_first(), '/'),
                path_params@.len() == i,
                forall|j: int| 0 <= j < i ==> path_params@[j]@ == segs[j],
                forall|j: int| 0 <= j < i ==> !is_empty_capture(segs[j]),
            decreases n_toks - i,
        {
            let p = PathParam::new(toks[i].as_str());
            proof {
                assert(toks@[i as int]@ == str_views(toks@)[i as int]);
                assert(p@ == segs[i as int]);
            }
            let mut empty_capture = false;
            match &p {
                PathParam::Capture { name, ty: _ } => {
                    if name.as_str().unicode_len() == 0 {
                        empty_capture = true;
                    }
                },
                _ => {},
            }
            if empty_capture {
                proof {
                    assert(is_empty_capture(segs[i as int]));
                    assert(has_empty_capture(path_segs(route@)));
                }
                return Err(CompileError::Grammar {
                    kind: GrammarErrorKind::EmptyCaptureName,
                    span,
                });
            }
            path_params.push(p);
            i += 1;
        }
        proof {
            assert(forall|j: int| 0 <= j < segs.len() ==> !is_empty_capture(segs[j]));
            assert(!has_empty_capture(path_segs(route@)));
        }
        let n_params = path_params.len();
        let mut k: usize = 0;
        while k < n_params
            invariant
                k <= n_params,
                n_params == path_params@.len(),
                n_params == segs.len(),
                forall|j: int| 0 <= j < n_params ==> path_params@[j]@ == segs[j],
                forall|j: int| 0 <= j < k ==> !(j < segs.len() - 1 && must_be_last(segs[j])),
            decreases n_params - k,
        {
            let bad = match &path_params[k] {
                PathParam::Wildcard { .. } => true,
                PathParam::Static { text } => {
                    let is_star = crate::text::str_eq(text.as_str(), "*");
                    proof {
                        reveal_strlit("*");
                        assert("*"@ =~= seq!['*']);
                    }
                    is_star
                },
                PathParam::Capture { .. } => false,
            };
            proof {
                assert(bad == must_be_last(segs[k as int]));
            }
            if bad && k != n_params - 1 {
                proof {
                    assert(k < segs.len() - 1 && must_be_last(segs[k as int]));
                    assert(has_misplaced_wildcard(path_segs(route@)));
                }
                return Err(CompileError::Grammar {
                    kind: GrammarErrorKind::MisplacedWildcard,
                    span,
                });
            }
            k += 1;
        }
        proof {
            assert(forall|j: int| 0 <= j < segs.len() - 1 ==> !must_be_last(segs[j]));
            assert(!has_misplaced_wildcard(path_segs(route@)));
        }
        let ghost query_spec = query_names(route@);
        let mut query_params: Vec<String> = Vec::new();
        if pieces.len() == 2 {
            let qparts = split_str(pieces[1].as_str(), '&');
            proof {
                assert(pieces@[1]@ == pieces_v[1]);
                assert(str_views(qparts@) == query_spec);
            }
            let n_q = qparts.len();
            let mut q: usize = 0;
            while q < n_q
                invariant
                    q <= n_q,
                    n_q == qparts@.len(),
                    str_views(qparts@) == query_spec,
                    query_params@.len() == q,
                    forall|j: int| 0 <= j < q ==> query_params@[j]@ == query_spec[j],
                    forall|j: int| 0 <= j < q ==> query_spec[j].len() != 0,
                decreases n_q - q,
            {
                let name = &qparts[q];
                proof {
                    assert(name@ == query_spec[q as int]);
                }
                if name.as_str().unicode_len() == 0 {
                    proof {
                        assert(0 <= q < query_spec.len() && query_spec[q as int].len() == 0);
                        assert(has_empty_query(query_names(route@)));
                    }
                    return Err(CompileError::Grammar {
                        kind: GrammarErrorKind::EmptyQueryName,
                        span,
                    });
                }
                query_params.push(name.clone());
                q += 1;
            }
        }
        proof {
            assert(str_views(query_params@) =~= query_spec);
            assert(forall|j: int| 0 <= j < query_spec.len() ==> query_spec[j].len() != 0);
            assert(!has_empty_query(query_names(route@)));
            assert(seg_views(path_params@) =~= segs);
        }
        Ok(RouteParser { path_params, query_params })
    }
}

/// A bracketed list of string literals, as a metadata value: `["a", "b"]`.
#[derive(Debug)]
pub struct StrArray(pub Vec<String>);

impl View for StrArray {
    type V = Seq<Seq<char>>;

    open spec fn view(&self) -> Seq<Seq<char>> {
        str_views(self.0@)
    }
}

/// A string wrapped in double quotes.
pub open spec fn quoted(s: Seq<char>) -> Seq<char> {
    "\""@ + s + "\""@
}

/// The comma-separated quoted items of a rendered string array.
pub open spec fn str_array_items(items: Seq<Seq<char>>) -> Seq<char>
    decreases items.len(),
{
    if items.len() == 0 {
        Seq::empty()
    } else if items.len() == 1 {
        quoted(items[0])
    } else {
        str_array_items(items.drop_last()) + ", "@ + quoted(items.last())
    }
}

/// The rendering of a string array: `["a", "b"]`.
pub open spec fn str_array_string(items: Seq<Seq<char>>) -> Seq<char> {
    "["@ + str_array_items(items) + "]"@
}

impl StrArray {
    /// Renders the array as it appeared in the metadata block.
    pub fn to_string(&self) -> (r: String)
        ensures
            r@ == str_array_string(self@),
    {
        let mut s = String::from_str("[");
        let n = self.0.len();
        let mut i: usize = 0;
        while i < n
            invariant
                i <= n,
                n == self.0@.len(),
                s@ == "["@ + str_array_items(self@.take(i as int)),
            decreases n - i,
        {
            if i > 0 {
                s.append(", ");
            }
            s.append("\"");
            s.append(self.0[i].as_str());
            s.append("\"");
            proof {
                let taken = self@.take(i + 1 as int);
                assert(taken.drop_last() =~= self@.take(i as int));
                assert(taken.last() == self@[i as int]);
                assert(self@[i as int] == self.0@[i as int]@);
                assert(s@ =~= "["@ + str_array_items(taken));
            }
            i += 1;
        }
        s.append("]");
        proof {
            assert(self@.take(n as int) =~= self@);
        }
        s
    }
}

/// The security requirements of a route: scheme names, each with its list of
/// scopes.
#[derive(Debug)]
pub struct Security(pub Vec<(String, StrArray)>);

/// The views of a security list's entries.
pub open spec fn scheme_views(v: Seq<(String, StrArray)>) -> Seq<(Seq<char>, Seq<Seq<char>>)> {
    v.map_values(|p: (String, StrArray)| (p.0@, p.1@))
}

impl View for Security {
    type V = Seq<(Seq<char>, Seq<Seq<char>>)>;

    open spec fn view(&self) -> Seq<(Seq<char>, Seq<Seq<char>>)> {
        scheme_views(self.0@)
    }
}

/// One rendered security entry: `scheme: ["scope"]`.
pub open spec fn security_item(p: (Seq<char>, Seq<Seq<char>>)) -> Seq<char> {
    p.0 + ": "@ + str_array_string(p.1)
}

/// The comma-separated entries of a rendered security list.
pub open spec fn security_items(items: Seq<(Seq<char>, Seq<Seq<char>>)>) -> Seq<char>
    decreases items.len(),
{
    if items.len() == 0 {
        Seq::empty()
    } else if items.len() == 1 {
        security_item(items[0])
    } else {
        security_items(items.drop_last()) + ", "@ + security_item(items.last())
    }
}

/// The rendering of a security list: `{scheme: ["scope"], other: []}`.
pub open spec fn security_string(items: Seq<(Seq<char>, Seq<Seq<char>>)>) -> Seq<char> {
    "{"@ + security_items(items) + "}"@
}

impl Security {
    /// Renders the security list as it appeared in the metadata block.
    pub fn to_string(&self) -> (r: String)
        ensures
            r@ == security_string(self@),
    {
        let mut s = String::from_str("{");
        let n = self.0.len();
        let mut i: usize = 0;
        while i < n
            invariant
                i <= n,
                n == self.0@.len(),
                s@ == "{"@ + security_items(self@.take(i as int)),
            decreases n - i,
        {
            if i > 0 {
                s.append(", ");
            }
            s.append(self.0[i].0.as_str());
            s.append(": ");
            let scopes = self.0[i].1.to_string();
            s.append(scopes.as_str());
            proof {
                let taken = self@.take(i + 1 as int);
                assert(taken.drop_last() =~= self@.take(i as int));
                assert(taken.last() == self@[i as int]);
                assert(self@[i as int] == (self.0@[i as int].0@, self.0@[i as int].1@));
                assert(s@ =~= "{"@ + security_items(taken));
            }
            i += 1;
        }
        s.append("}");
        proof {
            assert(self@.take(n as int) =~= self@);
        }
        s
    }
}

/// The declared responses of a route: status codes, each with the type that
/// the route returns for it.
#[derive(Debug)]
pub struct Responses(pub Vec<(u16, String)>);

/// The views of a response list's entries.
pub open spec fn response_views(v: Seq<(u16, String)>) -> Seq<(u16, Seq<char>)> {
    v.map_values(|p: (u16, String)| (p.0, p.1@))
}

impl View for Responses {
    type V = Seq<(u16, Seq<char>)>;

    open spec fn view(&self) -> Seq<(u16, Seq<char>)> {
        response_views(self.0@)
    }
}

/// One rendered response entry: `200: Type`.
pub open spec fn response_item(p: (u16, Seq<char>)) -> Seq<char> {
    dec_str(p.0 as nat) + ": "@ + p.1
}

/// The comma-separated entries of a rendered response list.
pub open spec fn response_items(items: Seq<(u16, Seq<char>)>) -> Seq<char>
    decreases items.len(),
{
    if items.len() == 0 {
        Seq::empty()
    } else if items.len() == 1 {
        response_item(items[0])
    } else {
        response_items(items.drop_last()) + ", "@ + response_item(items.last())
    }
}

/// The rendering of a response list: `{200: Type}`.
pub open spec fn responses_string(items: Seq<(u16, Seq<char>)>) -> Seq<char> {
    "{"@ + response_items(items) + "}"@
}

impl Responses {
    /// Renders the response list as it appeared in the metadata block.
    pub fn to_string(&self) -> (r: String)
        ensures
            r@ == responses_string(self@),
    {
        let mut s = String::from_str("{");
        let n = self.0.len();
        let mut i: usize = 0;
        while i < n
            invariant
                i <= n,
                n == self.0@.len(),
                s@ == "{"@ + response_items(self@.take(i as int)),
            decreases n - i,
        {
            if i > 0 {
                s.append(", ");
            }
            let code = usize_to_string(self.0[i].0 as usize);
            s.append(code.as_str());
            s.append(": ");
            s.append(self.0[i].1.as_str());
            proof {
                let taken = self@.take(i + 1 as int);
                assert(taken.drop_last() =~= self@.take(i as int));
                assert(taken.last() == self@[i as int]);
                assert(self@[i as int] == (self.0@[i as int].0, self.0@[i as int].1@));
                assert(s@ =~= "{"@ + response_items(taken));
            }
            i += 1;
        }
        s.append("}");
        proof {
            assert(self@.take(n as int) =~= self@);
        }
        s
    }
}

/// One argument of a transform closure: the bound identifier when the pattern
/// is a plain name, `None` for any other pattern shape, plus the pattern's
/// source location.
#[derive(Debug)]
pub struct TransformInput {
    pub ident: Option<String>,
    pub span: SrcSpan,
}

/// Mathematical view of `TransformInput`.
#[verifier::ext_equal]
pub struct TransformInputV {
    pub ident: Option<Seq<char>>,
    pub span: SrcSpan,
}

impl View for TransformInput {
    type V = TransformInputV;

    open spec fn view(&self) -> TransformInputV {
        TransformInputV { ident: opt_view(self.ident), span: self.span }
    }
}

/// The views of a transform input list.
pub open spec fn input_views(v: Seq<TransformInput>) -> Seq<TransformInputV> {
    v.map_values(|p: TransformInput| p@)
}

/// A transform hook: a closure that post-processes the documented operation.
/// The body is carried as opaque token text; only the argument list is
/// inspected here.
#[derive(Debug)]
pub struct TransformHook {
    pub inputs: Vec<TransformInput>,
    pub body: String,
    pub span: SrcSpan,
}

/// Mathematical view of `TransformHook`.
#[verifier::ext_equal]
pub struct TransformHookV {
    pub inputs: Seq<TransformInputV>,
    pub body: Seq<char>,
    pub span: SrcSpan,
}

impl View for TransformHook {
    type V = TransformHookV;

    open spec fn view(&self) -> TransformHookV {
        TransformHookV { inputs: input_views(self.inputs@), body: self.body@, span: self.span }
    }
}

/// One value of a metadata field, already shaped by the token-level front
/// end: the compiler checks here that the shape fits the key it was given
/// under.
#[derive(Debug)]
pub enum MetaValue {
    Str(String),
    Bool(bool),
    StrArr(StrArray),
    Sec(Security),
    Resp(Responses),
    Closure(TransformHook),
}

/// Mathematical view of `MetaValue`.
#[verifier::ext_equal]
pub enum MetaValueV {
    Str(Seq<char>),
    Bool(bool),
    StrArr(Seq<Seq<char>>),
    Sec(Seq<(Seq<char>, Seq<Seq<char>>)>),
    Resp(Seq<(u16, Seq<char>)>),
    Closure(TransformHookV),
}

impl View for MetaValue {
    type V = MetaValueV;

    open spec fn view(&self) -> MetaValueV {
        match self {
            MetaValue::Str(s) => MetaValueV::Str(s@),
            MetaValue::Bool(b) => MetaValueV::Bool(*b),
            MetaValue::StrArr(a) => MetaValueV::StrArr(a@),
            MetaValue::Sec(x) => MetaValueV::Sec(x@),
            MetaValue::Resp(x) => MetaValueV::Resp(x@),
            MetaValue::Closure(t) => MetaValueV::Closure(t@),
        }
    }
}

/// One `key: value` entry of a metadata block.
#[derive(Debug)]
pub struct MetaEntry {
    pub key: String,
    pub key_span: SrcSpan,
    pub value: MetaValue,
}

/// Mathematical view of `MetaEntry`.
#[verifier::ext_equal]
pub struct MetaEntryV {
    pub key: Seq<char>,
    pub key_span: SrcSpan,
    pub value: MetaValueV,
}

impl View for MetaEntry {
    type V = MetaEntryV;

    open spec fn view(&self) -> MetaEntryV {
        MetaEntryV { key: self.key@, key_span: self.key_span, value: self.value@ }
    }
}

/// The views of a metadata entry list.
pub open spec fn entry_views(v: Seq<MetaEntry>) -> Seq<MetaEntryV> {
    v.map_values(|e: MetaEntry| e@)
}

/// The route's documentation metadata: explicit values for the recognized
/// fields. A `None` field is unset; the merge step may later fill summary,
/// description and id from the handler's documentation.
#[derive(Debug)]
pub struct OapiOptions {
    pub summary: Option<(SrcSpan, String)>,
    pub description: Option<(SrcSpan, String)>,
    pub id: Option<(SrcSpan, String)>,
    pub hidden: Option<(SrcSpan, bool)>,
    pub tags: Option<(SrcSpan, StrArray)>,
    pub security: Option<(SrcSpan, Security)>,
    pub responses: Option<(SrcSpan, Responses)>,
    pub transform: Option<(SrcSpan, TransformHook)>,
}

/// Mathematical view of `OapiOptions`.
#[verifier::ext_equal]
pub struct OapiOptionsV {
    pub summary: Option<(SrcSpan, Seq<char>)>,
    pub description: Option<(SrcSpan, Seq<char>)>,
    pub id: Option<(SrcSpan, Seq<char>)>,
    pub hidden: Option<(SrcSpan, bool)>,
    pub tags: Option<(SrcSpan, Seq<Seq<char>>)>,
    pub security: Option<(SrcSpan, Seq<(Seq<char>, Seq<Seq<char>>)>)>,
    pub responses: Option<(SrcSpan, Seq<(u16, Seq<char>)>)>,
    pub transform: Option<(SrcSpan, TransformHookV)>,
}

/// The view of an optional spanned string field.
pub open spec fn opt_field_view(o: Option<(SrcSpan, String)>) -> Option<(SrcSpan, Seq<char>)> {
    match o {
        Some(p) => Some((p.0, p.1@)),
        None => None,
    }
}

impl View for OapiOptions {
    type V = OapiOptionsV;

    open spec fn view(&self) -> OapiOptionsV {
        OapiOptionsV {
            summary: opt_field_view(self.summary),
            description: opt_field_view(self.description),
            id: opt_field_view(self.id),
            hidden: self.hidden,
            tags: match self.tags {
                Some(p) => Some((p.0, p.1@)),
                None => None,
            },
            security: match self.security {
                Some(p) => Some((p.0, p.1@)),
                None => None,
            },
            responses: match self.responses {
                Some(p) => Some((p.0, p.1@)),
                None => None,
            },
            transform: match self.transform {
                Some(p) => Some((p.0, p.1@)),
                None => None,
            },
        }
    }
}

/// The empty metadata block: every field unset.
pub open spec fn empty_options() -> OapiOptionsV {
    OapiOptionsV {
        summary: None,
        description: None,
        id: None,
        hidden: None,
        tags: None,
        security: None,
        responses: None,
        transform: None,
    }
}

/// Applies one metadata entry to the options read so far. A recognized key
/// overwrites its field when the value has the expected shape; anything else
/// is a shape error naming the key.
pub open spec fn spec_apply_meta(acc: OapiOptionsV, e: MetaEntryV) -> Result<
    OapiOptionsV,
    CompileErrorV,
> {
    if e.key == "summary"@ {
        match e.value {
            MetaValueV::Str(s) => Ok(OapiOptionsV { summary: Some((e.key_span, s)), ..acc }),
            _ => Err(CompileErrorV::MetadataShape {
                kind: MetadataShapeKindV::WrongShape { key: e.key },
                span: e.key_span,
            }),
        }
    } else if e.key == "description"@ {
        match e.value {
            MetaValueV::Str(s) => Ok(OapiOptionsV { description: Some((e.key_span, s)), ..acc }),
            _ => Err(CompileErrorV::MetadataShape {
                kind: MetadataShapeKindV::WrongShape { key: e.key },
                span: e.key_span,
            }),
        }
    } else if e.key == "id"@ {
        match e.value {
            MetaValueV::Str(s) => Ok(OapiOptionsV { id: Some((e.key_span, s)), ..acc }),
            _ => Err(CompileErrorV::MetadataShape {
                kind: MetadataShapeKindV::WrongShape { key: e.key },
                span: e.key_span,
            }),
        }
    } else if e.key == "hidden"@ {
        match e.value {
            MetaValueV::Bool(b) => Ok(OapiOptionsV { hidden: Some((e.key_span, b)), ..acc }),
            _ => Err(CompileErrorV::MetadataShape {
                kind: MetadataShapeKindV::WrongShape { key: e.key },
                span: e.key_span,
            }),
        }
    } else if e.key == "tags"@ {
        match e.value {
            MetaValueV::StrArr(a) => Ok(OapiOptionsV { tags: Some((e.key_span, a)), ..acc }),
            _ => Err(CompileErrorV::MetadataShape {
                kind: MetadataShapeKindV::WrongShape { key: e.key },
                span: e.key_span,
            }),
        }
    } else if e.key == "security"@ {
        match e.value {
            MetaValueV::Sec(x) => Ok(OapiOptionsV { security: Some((e.key_span, x)), ..acc }),
            _ => Err(CompileErrorV::MetadataShape {
                kind: MetadataShapeKindV::WrongShape { key: e.key },
                span: e.key_span,
            }),
        }
    } else if e.key == "responses"@ {
        match e.value {
            MetaValueV::Resp(x) => Ok(OapiOptionsV { responses: Some((e.key_span, x)), ..acc }),
            _ => Err(CompileErrorV::MetadataShape {
                kind: MetadataShapeKindV::WrongShape { key: e.key },
                span: e.key_span,
            }),
        }
    } else if e.key == "transform"@ {
        match e.value {
            MetaValueV::Closure(t) => Ok(OapiOptionsV { transform: Some((e.key_span, t)), ..acc }),
            _ => Err(CompileErrorV::MetadataShape {
                kind: MetadataShapeKindV::WrongShape { key: e.key },
                span: e.key_span,
            }),
        }
    } else {
        Err(CompileErrorV::MetadataShape {
            kind: MetadataShapeKindV::UnknownKey { key: e.key },
            span: e.key_span,
        })
    }
}

/// Folds a metadata block's entries over an accumulator, left to right,
/// stopping at the first malformed entry.
pub open spec fn spec_oapi_parse(acc: OapiOptionsV, entries: Seq<MetaEntryV>) -> Result<
    OapiOptionsV,
    CompileErrorV,
>
    decreases entries.len(),
{
    if entries.len() == 0 {
        Ok(acc)
    } else {
        match spec_apply_meta(acc, entries[0]) {
            Ok(a2) => spec_oapi_parse(a2, entries.drop_first()),
            Err(e) => Err(e),
        }
    }
}

impl OapiOptions {
    /// Reads a metadata block's entries into options, in order, rejecting
    /// unknown keys and wrongly shaped values.
    pub fn parse(input: Vec<MetaEntry>) -> (r: Result<OapiOptions, CompileError>)
        ensures
            match r {
                Ok(o) => spec_oapi_parse(empty_options(), entry_views(input@)) == Ok::<
                    _,
                    CompileErrorV,
                >(o@),
                Err(e) => spec_oapi_parse(empty_options(), entry_views(input@)) == Err::<
                    OapiOptionsV,
                    _,
                >(e@),
            },
    {
        let mut this = OapiOptions {
            summary: None,
            description: None,
            id: None,
            hidden: None,
            tags: None,
            security: None,
            responses: None,
            transform: None,
        };
        let mut rest = input;
        while rest.len() > 0
            invariant
                spec_oapi_parse(empty_options(), entry_views(input@)) == spec_oapi_parse(
                    this@,
                    entry_views(rest@),
                ),
            decreases rest.len(),
        {
            let ghost rest0 = rest@;
            let e = rest.remove(0);
            proof {
                assert(rest@ =~= rest0.drop_first());
                assert(entry_views(rest@) =~= entry_views(rest0).drop_first());
                assert(entry_views(rest0)[0] == e@);
            }
            let MetaEntry { key, key_span, value } = e;
            if str_eq(key.as_str(), "summary") {
                match value {
                    MetaValue::Str(s) => {
                        this.summary = Some((key_span, s));
                    },
                    _ => {
                        return Err(CompileError::MetadataShape {
                            kind: MetadataShapeKind::WrongShape { key },
                            span: key_span,
                        });
                    },
                }
            } else if str_eq(key.as_str(), "description") {
                match value {
                    MetaValue::Str(s) => {
                        this.description = Some((key_span, s));
                    },
                    _ => {
                        return Err(CompileError::MetadataShape {
                            kind: MetadataShapeKind::WrongShape { key },
                            span: key_span,
                        });
                    },
                }
            } else if str_eq(key.as_str(), "id") {
                match value {
                    MetaValue::Str(s) => {
                        this.id = Some((key_span, s));
                    },
                    _ => {
                        return Err(CompileError::MetadataShape {
                            kind: MetadataShapeKind::WrongShape { key },
                            span: key_span,
                        });
                    },
                }
            } else if str_eq(key.as_str(), "hidden") {
                match value {
                    MetaValue::Bool(b) => {
                        this.hidden = Some((key_span, b));
                    },
                    _ => {
                        return Err(CompileError::MetadataShape {
                            kind: MetadataShapeKind::WrongShape { key },
                            span: key_span,
                        });
                    },
                }
            } else if str_eq(key.as_str(), "tags") {
                match value {
                    MetaValue::StrArr(a) => {
                        this.tags = Some((key_span, a));
                    },
                    _ => {
                        return Err(CompileError::MetadataShape {
                            kind: MetadataShapeKind::WrongShape { key },
                            span: key_span,
                        });
                    },
                }
            } else if str_eq(key.as_str(), "security") {
                match value {
                    MetaValue::Sec(x) => {
                        this.security = Some((key_span, x));
                    },
                    _ => {
                        return Err(CompileError::MetadataShape {
                            kind: MetadataShapeKind::WrongShape { key },
                            span: key_span,
                        });
                    },
                }
            } else if str_eq(key.as_str(), "responses") {
                match value {
                    MetaValue::Resp(x) => {
                        this.responses = Some((key_span, x));
                    },
                    _ => {
                        return Err(CompileError::MetadataShape {
                            kind: MetadataShapeKind::WrongShape { key },
                            span: key_span,
                        });
                    },
                }
            } else if str_eq(key.as_str(), "transform") {
                match value {
                    MetaValue::Closure(t) => {
                        this.transform = Some((key_span, t));
                    },
                    _ => {
                        return Err(CompileError::MetadataShape {
                            kind: MetadataShapeKind::WrongShape { key },
                            span: key_span,
                        });
                    },
                }
            } else {
                return Err(CompileError::MetadataShape {
                    kind: MetadataShapeKind::UnknownKey { key },
                    span: key_span,
                });
            }
        }
        proof {
            assert(entry_views(rest@).len() == 0);
        }
        Ok(this)
    }
}

/// The per-field merge of explicit metadata with defaults derived from the
/// handler: an unset summary falls back to the first doc-comment line, an
/// unset description to the doc lines from the third onward joined with
/// newlines, an unset id to the handler's name. Hidden, tags, security,
/// responses and transform have no derived default: absence stays absence.
pub open spec fn spec_merge_options(o: OapiOptionsV, f: HandlerSigV) -> OapiOptionsV {
    OapiOptionsV {
        summary: if o.summary is Some {
            o.summary
        } else if f.docs.len() > 0 {
            Some((f.name_span, f.docs[0]))
        } else {
            None
        },
        description: if o.description is Some {
            o.description
        } else if f.docs.len() > 2 {
            Some((f.name_span, join_on(f.docs.skip(2), '\n')))
        } else {
            None
        },
        id: if o.id is Some {
            o.id
        } else {
            Some((f.name_span, f.name))
        },
        ..o
    }
}

impl OapiOptions {
    /// Fills unset summary, description and id fields from the handler's
    /// doc-comment stream and declared name.
    #[verifier::loop_isolation(false)]
    pub fn merge_with_fn(&mut self, function: &HandlerSig)
        ensures
            final(self)@ == spec_merge_options(old(self)@, function@),
    {
        if self.description.is_none() {
            let n = function.docs.len();
            if n > 2 {
                let ghost docs = str_views(function.docs@);
                let mut d = function.docs[2].clone();
                proof {
                    assert(docs.skip(2).take(1) =~= seq![docs[2]]);
                    assert(d@ == join_on(docs.skip(2).take(1), '\n'));
                }
                let mut i: usize = 3;
                while i < n
                    invariant
                        3 <= i <= n,
                        n == function.docs@.len(),
                        docs == str_views(function.docs@),
                        d@ == join_on(docs.skip(2).take(i - 2), '\n'),
                    decreases n - i,
                {
                    d.append("\n");
                    d.append(function.docs[i].as_str());
                    proof {
                        reveal_strlit("\n");
                        assert("\n"@ =~= seq!['\n']);
                        let pre = docs.skip(2).take(i - 2);
                        let cur = docs.skip(2).take(i - 1);
                        lemma_join_on_push(pre, '\n', docs[i as int]);
                        assert(cur =~= pre.push(docs[i as int]));
                        assert(d@ =~= join_on(cur, '\n'));
                    }
                    i += 1;
                }
                proof {
                    assert(docs.skip(2).take(n - 2) =~= docs.skip(2));
                }
                self.description = Some((function.name_span, d));
            }
        }
        if self.summary.is_none() {
            if function.docs.len() > 0 {
                self.summary = Some((function.name_span, function.docs[0].clone()));
            }
        }
        if self.id.is_none() {
            self.id = Some((function.name_span, function.name.clone()));
        }
        proof {
            assert(self@ =~= spec_merge_options(old(self)@, function@));
        }
    }
}

/// A fully specified route before compilation: the method, the parsed
/// template, the optional explicit state override, the original template
/// literal and its source location, and the optional metadata block.
#[derive(Debug)]
pub struct Route {
    pub method: Method,
    pub path_params: Vec<PathParam>,
    pub query_params: Vec<String>,
    pub state: Option<String>,
    pub route_lit: String,
    pub route_span: SrcSpan,
    pub oapi_options: Option<OapiOptions>,
}

/// Mathematical view of `Route`.
#[verifier::ext_equal]
pub struct RouteV {
    pub method: Method,
    pub path_params: Seq<PathParamV>,
    pub query_params: Seq<Seq<char>>,
    pub state: Option<Seq<char>>,
    pub route_lit: Seq<char>,
    pub route_span: SrcSpan,
    pub oapi_options: Option<OapiOptionsV>,
}

/// The view of an optional metadata block.
pub open spec fn opts_view(o: Option<OapiOptions>) -> Option<OapiOptionsV> {
    match o {
        Some(x) => Some(x@),
        None => None,
    }
}

impl View for Route {
    type V = RouteV;

    open spec fn view(&self) -> RouteV {
        RouteV {
            method: self.method,
            path_params: seg_views(self.path_params@),
            query_params: str_views(self.query_params@),
            state: opt_view(self.state),
            route_lit: self.route_lit@,
            route_span: self.route_span,
            oapi_options: match self.oapi_options {
                Some(ref x) => Some(x@),
                None => None,
            },
        }
    }
}

impl Route {
    /// Assembles a route from its front-end parts: parses the raw template
    /// and carries the method, the explicit state override and the metadata
    /// block through unchanged.
    pub fn parse(
        method: Method,
        route_lit: &str,
        route_span: SrcSpan,
        state: Option<String>,
        oapi_options: Option<OapiOptions>,
    ) -> (r: Result<Route, CompileError>)
        ensures
            match r {
                Ok(rt) => spec_parse(route_lit@) matches Ok(p) && rt@ == (RouteV {
                    method,
                    path_params: p.0,
                    query_params: p.1,
                    state: opt_view(state),
                    route_lit: route_lit@,
                    route_span,
                    oapi_options: opts_view(oapi_options),
                }),
                Err(e) => spec_parse(route_lit@) matches Err(k) && e@ == (CompileErrorV::Grammar {
                    kind: k,
                    span: route_span,
                }),
            },
    {
        match RouteParser::new(route_lit, route_span) {
            Ok(rp) => Ok(
                Route {
                    method,
                    path_params: rp.path_params,
                    query_params: rp.query_params,
                    state,
                    route_lit: String::from_str(route_lit),
                    route_span,
                    oapi_options,
                },
            ),
            Err(e) => Err(e),
        }
    }
}

} // verus!
