//! The route compiler: builds the parameter table from the handler's
//! argument list, binds every path capture and query parameter to its table
//! entry (claiming it), resolves the state type, merges metadata, and emits
//! the canonical path and the binding plan.

use vstd::prelude::*;

use crate::errors::{BindingKind, CompileError, CompileErrorV, SrcSpan, TransformArityKind};
use crate::parsing::{
    empty_options, opt_field_view, opt_view, opts_view, quoted, security_string, seg_text, seg_views,
    spec_merge_options, str_array_string, Method, OapiOptions, OapiOptionsV, PathParam, PathParamV,
    Route, RouteV,
};
use crate::text::{contains_str, dec_str, str_eq, str_views, usize_to_string};

verus! {

/// The type of one handler argument, as token text, plus the one structural
/// fact the compiler reads: when the type is a path type whose last segment
/// carries exactly one angle-bracketed type argument, that segment's
/// identifier and the argument's token text (the "wrapper shape" used for
/// state inference).
#[derive(Debug)]
pub struct HandlerTy {
    pub text: String,
    pub wrapper: Option<(String, String)>,
}

/// Mathematical view of `HandlerTy`.
#[verifier::ext_equal]
pub struct HandlerTyV {
    pub text: Seq<char>,
    pub wrapper: Option<(Seq<char>, Seq<char>)>,
}

impl View for HandlerTy {
    type V = HandlerTyV;

    open spec fn view(&self) -> HandlerTyV {
        HandlerTyV {
            text: self.text@,
            wrapper: match self.wrapper {
                Some(p) => Some((p.0@, p.1@)),
                None => None,
            },
        }
    }
}

/// One handler argument: a receiver, or a typed argument with its binding
/// name when its pattern is a plain identifier (any other pattern has no
/// bindable name and always passes through).
#[derive(Debug)]
pub enum HandlerArg {
    Receiver,
    Typed { binding: Option<String>, ty: HandlerTy },
}

/// Mathematical view of `HandlerArg`.
#[verifier::ext_equal]
pub enum HandlerArgV {
    Receiver,
    Typed { binding: Option<Seq<char>>, ty: HandlerTyV },
}

impl View for HandlerArg {
    type V = HandlerArgV;

    open spec fn view(&self) -> HandlerArgV {
        match self {
            HandlerArg::Receiver => HandlerArgV::Receiver,
            HandlerArg::Typed { binding, ty } => HandlerArgV::Typed {
                binding: opt_view(*binding),
                ty: ty@,
            },
        }
    }
}

/// The views of a handler argument list.
pub open spec fn arg_views(v: Seq<HandlerArg>) -> Seq<HandlerArgV> {
    v.map_values(|a: HandlerArg| a@)
}

/// What the compiler reads of the handler's signature: its name and the
/// name's source location, its ordered arguments, and its doc-comment lines.
#[derive(Debug)]
pub struct HandlerSig {
    pub name: String,
    pub name_span: SrcSpan,
    pub inputs: Vec<HandlerArg>,
    pub docs: Vec<String>,
}

/// Mathematical view of `HandlerSig`.
#[verifier::ext_equal]
pub struct HandlerSigV {
    pub name: Seq<char>,
    pub name_span: SrcSpan,
    pub inputs: Seq<HandlerArgV>,
    pub docs: Seq<Seq<char>>,
}

impl View for HandlerSig {
    type V = HandlerSigV;

    open spec fn view(&self) -> HandlerSigV {
        HandlerSigV {
            name: self.name@,
            name_span: self.name_span,
            inputs: arg_views(self.inputs@),
            docs: str_views(self.docs@),
        }
    }
}

/// One parameter-table entry: a bindable name, its declared type's token
/// text, its position in the handler's argument list, and whether a binding
/// has already claimed it.
#[derive(Debug)]
pub struct TableEntry {
    pub name: String,
    pub ty: String,
    pub pos: usize,
    pub claimed: bool,
}

/// Mathematical view of `TableEntry`.
#[verifier::ext_equal]
pub struct TableEntryV {
    pub name: Seq<char>,
    pub ty: Seq<char>,
    pub pos: int,
    pub claimed: bool,
}

impl View for TableEntry {
    type V = TableEntryV;

    open spec fn view(&self) -> TableEntryV {
        TableEntryV { name: self.name@, ty: self.ty@, pos: self.pos as int, claimed: self.claimed }
    }
}

/// The views of a table's entries.
pub open spec fn table_views(v: Seq<TableEntry>) -> Seq<TableEntryV> {
    v.map_values(|e: TableEntry| e@)
}

/// The table built from the handler arguments: one unclaimed entry per typed
/// argument whose pattern binds a plain name, in argument order.
pub open spec fn spec_table_of(args: Seq<HandlerArgV>) -> Seq<TableEntryV>
    decreases args.len(),
{
    if args.len() == 0 {
        Seq::empty()
    } else {
        let init = spec_table_of(args.drop_last());
        match args.last() {
            HandlerArgV::Typed { binding, ty } => match binding {
                Some(n) => init.push(
                    TableEntryV {
                        name: n,
                        ty: ty.text,
                        pos: args.len() - 1,
                        claimed: false,
                    },
                ),
                None => init,
            },
            HandlerArgV::Receiver => init,
        }
    }
}

/// Whether `i` is the first unclaimed entry named `name`.
pub open spec fn match_at(t: Seq<TableEntryV>, name: Seq<char>, i: int) -> bool {
    &&& 0 <= i < t.len()
    &&& !t[i].claimed
    &&& t[i].name == name
    &&& forall|j: int| 0 <= j < i ==> (t[j].claimed || t[j].name != name)
}

/// Whether the table still has an unclaimed entry named `name`.
pub open spec fn has_match(t: Seq<TableEntryV>, name: Seq<char>) -> bool {
    exists|i: int| match_at(t, name, i)
}

/// The index of the first unclaimed entry named `name`.
pub open spec fn match_idx(t: Seq<TableEntryV>, name: Seq<char>) -> int {
    choose|i: int| match_at(t, name, i)
}

/// The entry, claimed.
pub open spec fn claim_entry(e: TableEntryV) -> TableEntryV {
    TableEntryV { claimed: true, ..e }
}

/// The table after claiming the first unclaimed entry named `name`.
pub open spec fn spec_claim(t: Seq<TableEntryV>, name: Seq<char>) -> Seq<TableEntryV> {
    t.update(match_idx(t, name), claim_entry(t[match_idx(t, name)]))
}

/// At most one index is the first match for a name.
pub proof fn lemma_match_at_unique(t: Seq<TableEntryV>, name: Seq<char>, i: int, j: int)
    requires
        match_at(t, name, i),
        match_at(t, name, j),
    ensures
        i == j,
{
    if i < j {
        assert(t[i].claimed || t[i].name != name);
    } else if j < i {
        assert(t[j].claimed || t[j].name != name);
    }
}

/// The handler-parameter lookup table, consumed entry by entry as the
/// compiler binds names; what is never claimed is exactly the passthrough
/// set.
#[derive(Debug)]
pub struct ParameterTable {
    pub entries: Vec<TableEntry>,
}

impl View for ParameterTable {
    type V = Seq<TableEntryV>;

    open spec fn view(&self) -> Seq<TableEntryV> {
        table_views(self.entries@)
    }
}

impl ParameterTable {
    /// Builds the lookup table from the handler's argument list.
    pub fn build(args: &Vec<HandlerArg>) -> (t: ParameterTable)
        ensures
            t@ == spec_table_of(arg_views(args@)),
    {
        let mut entries: Vec<TableEntry> = Vec::new();
        let n = args.len();
        let mut i: usize = 0;
        proof {
            assert(arg_views(args@).take(0) =~= Seq::<HandlerArgV>::empty());
            assert(table_views(entries@) =~= spec_table_of(arg_views(args@).take(0)));
        }
        while i < n
            invariant
                i <= n,
                n == args@.len(),
                table_views(entries@) == spec_table_of(arg_views(args@).take(i as int)),
            decreases n - i,
        {
            let ghost pre = arg_views(args@).take(i as int);
            let ghost cur = arg_views(args@).take(i + 1 as int);
            proof {
                assert(cur.drop_last() =~= pre);
                assert(cur.last() == arg_views(args@)[i as int]);
                assert(arg_views(args@)[i as int] == args@[i as int]@);
            }
            match &args[i] {
                HandlerArg::Receiver => {},
                HandlerArg::Typed { binding, ty } => {
                    match binding {
                        Some(name) => {
                            let entry = TableEntry {
                                name: name.clone(),
                                ty: ty.text.clone(),
                                pos: i,
                                claimed: false,
                            };
                            proof {
                                assert(cur.len() - 1 == i as int);
                            }
                            entries.push(entry);
                            proof {
                                assert(table_views(entries@) =~= spec_table_of(cur));
                            }
                        },
                        None => {},
                    }
                },
            }
            proof {
                assert(table_views(entries@) =~= spec_table_of(cur));
            }
            i += 1;
        }
        proof {
            assert(arg_views(args@).take(n as int) =~= arg_views(args@));
        }
        ParameterTable { entries }
    }

    /// Claims the first unclaimed entry named `name`, returning its declared
    /// type's token text and its original position; leaves the table
    /// unchanged when no unclaimed entry has that name.
    #[verifier::loop_isolation(false)]
    pub fn claim(&mut self, name: &str) -> (r: Option<(String, usize)>)
        ensures
            has_match(old(self)@, name@) ==> {
                let i = match_idx(old(self)@, name@);
                &&& r matches Some(p) && p.0@ == old(self)@[i].ty && p.1 == old(self)@[i].pos
                &&& final(self)@ == spec_claim(old(self)@, name@)
            },
            !has_match(old(self)@, name@) ==> r is None && final(self)@ == old(self)@,
    {
        let n = self.entries.len();
        let mut i: usize = 0;
        while i < n
            invariant
                i <= n,
                n == self.entries@.len(),
                self@ == old(self)@,
                forall|j: int|
                    0 <= j < i ==> (old(self)@[j].claimed || old(self)@[j].name != name@),
            decreases n - i,
        {
            if !self.entries[i].claimed && str_eq(self.entries[i].name.as_str(), name) {
                proof {
                    assert(old(self)@[i as int] == self.entries@[i as int]@);
                    assert(match_at(old(self)@, name@, i as int));
                    assert(has_match(old(self)@, name@));
                    lemma_match_at_unique(
                        old(self)@,
                        name@,
                        i as int,
                        match_idx(old(self)@, name@),
                    );
                }
                let ty = self.entries[i].ty.clone();
                let pos = self.entries[i].pos;
                let new_entry = TableEntry {
                    name: self.entries[i].name.clone(),
                    ty: self.entries[i].ty.clone(),
                    pos,
                    claimed: true,
                };
                proof {
                    assert(new_entry@ == claim_entry(old(self)@[i as int]));
                }
                self.entries.set(i, new_entry);
                proof {
                    assert(self@ =~= spec_claim(old(self)@, name@));
                }
                return Some((ty, pos));
            }
            i += 1;
        }
        proof {
            assert(forall|j: int| !match_at(old(self)@, name@, j));
        }
        None
    }
}

/// Binds each capturing path segment, left to right: the segment's name
/// claims the first unclaimed table entry with that name and the segment's
/// type resolves to the entry's. The first name with no entry aborts the
/// pass.
pub open spec fn spec_bind_path(t: Seq<TableEntryV>, segs: Seq<PathParamV>) -> Result<
    (Seq<TableEntryV>, Seq<PathParamV>),
    Seq<char>,
>
    decreases segs.len(),
{
    if segs.len() == 0 {
        Ok((t, Seq::empty()))
    } else {
        match segs[0] {
            PathParamV::Static { text } => match spec_bind_path(t, segs.drop_first()) {
                Ok(p) => Ok((p.0, seq![segs[0]] + p.1)),
                Err(n) => Err(n),
            },
            PathParamV::Capture { name, ty: _ } => {
                if has_match(t, name) {
                    let resolved = PathParamV::Capture {
                        name,
                        ty: Some(t[match_idx(t, name)].ty),
                    };
                    match spec_bind_path(spec_claim(t, name), segs.drop_first()) {
                        Ok(p) => Ok((p.0, seq![resolved] + p.1)),
                        Err(n2) => Err(n2),
                    }
                } else {
                    Err(name)
                }
            },
            PathParamV::Wildcard { name, ty: _ } => {
                if has_match(t, name) {
                    let resolved = PathParamV::Wildcard {
                        name,
                        ty: Some(t[match_idx(t, name)].ty),
                    };
                    match spec_bind_path(spec_claim(t, name), segs.drop_first()) {
                        Ok(p) => Ok((p.0, seq![resolved] + p.1)),
                        Err(n2) => Err(n2),
                    }
                } else {
                    Err(name)
                }
            },
        }
    }
}

/// Binds each query-parameter name, in declaration order, to the table entry
/// it claims, pairing the name with the entry's type.
pub open spec fn spec_bind_query(t: Seq<TableEntryV>, names: Seq<Seq<char>>) -> Result<
    (Seq<TableEntryV>, Seq<(Seq<char>, Seq<char>)>),
    Seq<char>,
>
    decreases names.len(),
{
    if names.len() == 0 {
        Ok((t, Seq::empty()))
    } else if has_match(t, names[0]) {
        let pair = (names[0], t[match_idx(t, names[0])].ty);
        match spec_bind_query(spec_claim(t, names[0]), names.drop_first()) {
            Ok(p) => Ok((p.0, seq![pair] + p.1)),
            Err(n) => Err(n),
        }
    } else {
        Err(names[0])
    }
}

/// The inferred state type: the inner type of the first argument whose type
/// has the wrapper shape with last segment `State`; the unit type when no
/// argument has it. A structural heuristic by name, not type inference; an
/// explicit `with` override always takes precedence over it.
pub open spec fn spec_guess_state(args: Seq<HandlerArgV>) -> Seq<char>
    decreases args.len(),
{
    if args.len() == 0 {
        "()"@
    } else {
        match args[0] {
            HandlerArgV::Typed { binding: _, ty } => match ty.wrapper {
                Some(w) => if w.0 == "State"@ {
                    w.1
                } else {
                    spec_guess_state(args.drop_first())
                },
                None => spec_guess_state(args.drop_first()),
            },
            HandlerArgV::Receiver => spec_guess_state(args.drop_first()),
        }
    }
}

/// Scans the handler's arguments for a `State`-wrapped type and returns its
/// inner type's token text, defaulting to the unit type. The scan reads the
/// original argument list, so arguments already claimed by bindings still
/// count.
pub fn guess_state_type(sig: &HandlerSig) -> (t: String)
    ensures
        t@ == spec_guess_state(sig@.inputs),
{
    let ghost args = sig@.inputs;
    let n = sig.inputs.len();
    let mut i: usize = 0;
    proof {
        assert(args.skip(0) =~= args);
    }
    while i < n
        invariant
            i <= n,
            n == sig.inputs@.len(),
            args == arg_views(sig.inputs@),
            spec_guess_state(args) == spec_guess_state(args.skip(i as int)),
        decreases n - i,
    {
        proof {
            assert(args.skip(i as int)[0] == args[i as int]);
            assert(args.skip(i as int).drop_first() =~= args.skip(i + 1 as int));
            assert(args[i as int] == sig.inputs@[i as int]@);
        }
        match &sig.inputs[i] {
            HandlerArg::Typed { binding: _, ty } => {
                match &ty.wrapper {
                    Some(w) => {
                        if str_eq(w.0.as_str(), "State") {
                            return w.1.clone();
                        }
                    },
                    None => {},
                }
            },
            HandlerArg::Receiver => {},
        }
        i += 1;
    }
    proof {
        assert(args.skip(n as int) =~= Seq::<HandlerArgV>::empty());
    }
    String::from_str("()")
}

/// The views of a binding-plan pair list.
pub open spec fn binding_views(v: Seq<(String, String)>) -> Seq<(Seq<char>, Seq<char>)> {
    v.map_values(|p: (String, String)| (p.0@, p.1@))
}

/// A compiled route: the central artifact. Path segments carry their
/// resolved types, query parameters their names and types in declaration
/// order, the state type is settled, and the metadata block (when the
/// metadata-capable mode compiled it) is merged. Constructed once per
/// `(template, handler)` pair and immutable thereafter.
#[derive(Debug)]
pub struct CompiledRoute {
    pub method: Method,
    pub path_params: Vec<PathParam>,
    pub query_params: Vec<(String, String)>,
    pub state: String,
    pub route_lit: String,
    pub route_span: SrcSpan,
    pub oapi_options: Option<OapiOptions>,
}

/// Mathematical view of `CompiledRoute`.
#[verifier::ext_equal]
pub struct CompiledRouteV {
    pub method: Method,
    pub path_params: Seq<PathParamV>,
    pub query_params: Seq<(Seq<char>, Seq<char>)>,
    pub state: Seq<char>,
    pub route_lit: Seq<char>,
    pub route_span: SrcSpan,
    pub oapi_options: Option<OapiOptionsV>,
}

impl View for CompiledRoute {
    type V = CompiledRouteV;

    open spec fn view(&self) -> CompiledRouteV {
        CompiledRouteV {
            method: self.method,
            path_params: seg_views(self.path_params@),
            query_params: binding_views(self.query_params@),
            state: self.state@,
            route_lit: self.route_lit@,
            route_span: self.route_span,
            oapi_options: match self.oapi_options {
                Some(ref o) => Some(o@),
                None => None,
            },
        }
    }
}

/// The whole compilation pipeline for one route: mode gating, path binding,
/// query binding, state resolution, metadata merge.
pub open spec fn spec_from_route(r: RouteV, f: HandlerSigV, with_aide: bool) -> Result<
    CompiledRouteV,
    CompileErrorV,
> {
    if !with_aide && r.oapi_options is Some {
        Err(CompileErrorV::OptionsNotSupported { span: r.route_span })
    } else {
        match spec_bind_path(spec_table_of(f.inputs), r.path_params) {
            Err(n) => Err(CompileErrorV::UnresolvedBinding {
                kind: BindingKind::Path,
                name: n,
                span: r.route_span,
            }),
            Ok(pb) => match spec_bind_query(pb.0, r.query_params) {
                Err(n) => Err(CompileErrorV::UnresolvedBinding {
                    kind: BindingKind::Query,
                    name: n,
                    span: r.route_span,
                }),
                Ok(qb) => Ok(
                    CompiledRouteV {
                        method: r.method,
                        path_params: pb.1,
                        query_params: qb.1,
                        state: match r.state {
                            Some(st) => st,
                            None => spec_guess_state(f.inputs),
                        },
                        route_lit: r.route_lit,
                        route_span: r.route_span,
                        oapi_options: match (if with_aide && r.oapi_options is None {
                            Some(empty_options())
                        } else {
                            r.oapi_options
                        }) {
                            Some(o) => Some(spec_merge_options(o, f)),
                            None => None,
                        },
                    },
                ),
            },
        }
    }
}

impl CompiledRoute {
    /// Compiles a parsed route against the handler's signature. Removes the
    /// handler arguments that the route's names claim and merges them into
    /// the output: every capture and wildcard claims the table entry of its
    /// name and takes that entry's type, then every query parameter does the
    /// same; the first name with no unclaimed entry fails compilation,
    /// naming the identifier. In the metadata-capable mode a missing block
    /// is treated as empty and merged with the handler's documentation; in
    /// the minimal mode a present block is an error.
    #[verifier::loop_isolation(false)]
    pub fn from_route(route: Route, function: &HandlerSig, with_aide: bool) -> (r: Result<
        CompiledRoute,
        CompileError,
    >)
        ensures
            match r {
                Ok(c) => spec_from_route(route@, function@, with_aide) == Ok::<_, CompileErrorV>(
                    c@,
                ),
                Err(e) => spec_from_route(route@, function@, with_aide) == Err::<CompiledRouteV, _>(
                    e@,
                ),
            },
    {
        let ghost r0 = route@;
        let ghost f0 = function@;
        let Route { method, path_params, query_params, state, route_lit, route_span, oapi_options }
            = route;
        if !with_aide && oapi_options.is_some() {
            return Err(CompileError::OptionsNotSupported { span: route_span });
        }
        let oapi_options = if with_aide && oapi_options.is_none() {
            Some(
                OapiOptions {
                    summary: None,
                    description: None,
                    id: None,
                    hidden: None,
                    tags: None,
                    security: None,
                    responses: None,
                    transform: None,
                },
            )
        } else {
            oapi_options
        };
        let ghost opts0 = if with_aide && r0.oapi_options is None {
            Some(empty_options())
        } else {
            r0.oapi_options
        };
        proof {
            assert(opts_view(oapi_options) == opts0);
        }
        let mut table = ParameterTable::build(&function.inputs);
        let ghost t0 = table@;
        proof {
            assert(t0 == spec_table_of(f0.inputs));
        }
        // Bind the path captures, in template order.
        let ghost segs0 = r0.path_params;
        let mut resolved: Vec<PathParam> = Vec::new();
        let n_segs = path_params.len();
        let mut i: usize = 0;
        proof {
            assert(segs0.skip(0) =~= segs0);
            match spec_bind_path(t0, segs0) {
                Ok(p) => {
                    assert(seg_views(resolved@) + p.1 =~= p.1);
                },
                Err(_) => {},
            }
        }
        while i < n_segs
            invariant
                i <= n_segs,
                n_segs == path_params@.len(),
                segs0 == seg_views(path_params@),
                resolved@.len() == i,
                spec_bind_path(t0, segs0) == (match spec_bind_path(
                    table@,
                    segs0.skip(i as int),
                ) {
                    Ok(p) => Ok((p.0, seg_views(resolved@) + p.1)),
                    Err(n) => Err(n),
                }),
            decreases n_segs - i,
        {
            proof {
                assert(segs0.skip(i as int)[0] == segs0[i as int]);
                assert(segs0.skip(i as int).drop_first() =~= segs0.skip(i + 1 as int));
                assert(segs0[i as int] == path_params@[i as int]@);
            }
            let ghost t_pre = table@;
            let ghost pre_resolved = resolved@;
            match &path_params[i] {
                PathParam::Static { text } => {
                    resolved.push(PathParam::Static { text: text.clone() });
                    proof {
                        assert(seg_views(resolved@) =~= seg_views(pre_resolved).push(
                            segs0[i as int],
                        ));
                        match spec_bind_path(table@, segs0.skip(i + 1 as int)) {
                            Ok(p) => {
                                assert(seg_views(pre_resolved) + (seq![segs0[i as int]] + p.1)
                                    =~= seg_views(resolved@) + p.1);
                            },
                            Err(_) => {},
                        }
                    }
                },
                PathParam::Capture { name, ty: _ } => {
                    match table.claim(name.as_str()) {
                        Some(p) => {
                            let (ty, _pos) = p;
                            let ghost rseg = PathParamV::Capture {
                                name: name@,
                                ty: Some(t_pre[match_idx(t_pre, name@)].ty),
                            };
                            resolved.push(PathParam::Capture { name: name.clone(), ty: Some(ty) });
                            proof {
                                assert(seg_views(resolved@) =~= seg_views(pre_resolved).push(rseg));
                                match spec_bind_path(table@, segs0.skip(i + 1 as int)) {
                                    Ok(p2) => {
                                        assert(seg_views(pre_resolved) + (seq![rseg] + p2.1)
                                            =~= seg_views(resolved@) + p2.1);
                                    },
                                    Err(_) => {},
                                }
                            }
                        },
                        None => {
                            proof {
                                assert(spec_bind_path(t_pre, segs0.skip(i as int)) == Err::<
                                    (Seq<TableEntryV>, Seq<PathParamV>),
                                    _,
                                >(name@));
                            }
                            return Err(CompileError::UnresolvedBinding {
                                kind: BindingKind::Path,
                                name: name.clone(),
                                span: route_span,
                            });
                        },
                    }
                },
                PathParam::Wildcard { name, ty: _ } => {
                    match table.claim(name.as_str()) {
                        Some(p) => {
                            let (ty, _pos) = p;
                            let ghost rseg = PathParamV::Wildcard {
                                name: name@,
                                ty: Some(t_pre[match_idx(t_pre, name@)].ty),
                            };
                            resolved.push(PathParam::Wildcard { name: name.clone(), ty: Some(ty) });
                            proof {
                                assert(seg_views(resolved@) =~= seg_views(pre_resolved).push(rseg));
                                match spec_bind_path(table@, segs0.skip(i + 1 as int)) {
                                    Ok(p2) => {
                                        assert(seg_views(pre_resolved) + (seq![rseg] + p2.1)
                                            =~= seg_views(resolved@) + p2.1);
                                    },
                                    Err(_) => {},
                                }
                            }
                        },
                        None => {
                            proof {
                                assert(spec_bind_path(t_pre, segs0.skip(i as int)) == Err::<
                                    (Seq<TableEntryV>, Seq<PathParamV>),
                                    _,
                                >(name@));
                            }
                            return Err(CompileError::UnresolvedBinding {
                                kind: BindingKind::Path,
                                name: name.clone(),
                                span: route_span,
                            });
                        },
                    }
                },
            }
            i += 1;
        }
        proof {
            assert(segs0.skip(n_segs as int) =~= Seq::<PathParamV>::empty());
            match spec_bind_path(table@, segs0.skip(n_segs as int)) {
                Ok(p) => {
                    assert(seg_views(resolved@) + p.1 =~= seg_views(resolved@));
                },
                Err(_) => {},
            }
            assert(spec_bind_path(t0, segs0) == Ok::<_, Seq<char>>((table@, seg_views(resolved@))));
        }
        // Bind the query parameters, in declaration order.
        let ghost t1 = table@;
        let ghost qnames0 = r0.query_params;
        let mut pairs: Vec<(String, String)> = Vec::new();
        let n_q = query_params.len();
        let mut q: usize = 0;
        proof {
            assert(qnames0.skip(0) =~= qnames0);
            match spec_bind_query(t1, qnames0) {
                Ok(p) => {
                    assert(binding_views(pairs@) + p.1 =~= p.1);
                },
                Err(_) => {},
            }
        }
        while q < n_q
            invariant
                q <= n_q,
                n_q == query_params@.len(),
                qnames0 == str_views(query_params@),
                pairs@.len() == q,
                spec_bind_query(t1, qnames0) == (match spec_bind_query(
                    table@,
                    qnames0.skip(q as int),
                ) {
                    Ok(p) => Ok((p.0, binding_views(pairs@) + p.1)),
                    Err(n) => Err(n),
                }),
            decreases n_q - q,
        {
            proof {
                assert(qnames0.skip(q as int)[0] == qnames0[q as int]);
                assert(qnames0.skip(q as int).drop_first() =~= qnames0.skip(q + 1 as int));
                assert(qnames0[q as int] == query_params@[q as int]@);
            }
            let ghost t_pre = table@;
            let ghost pre_pairs = pairs@;
            let name = &query_params[q];
            match table.claim(name.as_str()) {
                Some(p) => {
                    let (ty, _pos) = p;
                    let ghost rpair = (name@, t_pre[match_idx(t_pre, name@)].ty);
                    pairs.push((name.clone(), ty));
                    proof {
                        assert(binding_views(pairs@) =~= binding_views(pre_pairs).push(rpair));
                        match spec_bind_query(table@, qnames0.skip(q + 1 as int)) {
                            Ok(p2) => {
                                assert(binding_views(pre_pairs) + (seq![rpair] + p2.1)
                                    =~= binding_views(pairs@) + p2.1);
                            },
                            Err(_) => {},
                        }
                    }
                },
                None => {
                    proof {
                        assert(spec_bind_query(t_pre, qnames0.skip(q as int)) == Err::<
                            (Seq<TableEntryV>, Seq<(Seq<char>, Seq<char>)>),
                            _,
                        >(name@));
                    }
                    return Err(CompileError::UnresolvedBinding {
                        kind: BindingKind::Query,
                        name: name.clone(),
                        span: route_span,
                    });
                },
            }
            q += 1;
        }
        proof {
            assert(qnames0.skip(n_q as int) =~= Seq::<Seq<char>>::empty());
            match spec_bind_query(table@, qnames0.skip(n_q as int)) {
                Ok(p) => {
                    assert(binding_views(pairs@) + p.1 =~= binding_views(pairs@));
                },
                Err(_) => {},
            }
            assert(spec_bind_query(t1, qnames0) == Ok::<_, Seq<char>>(
                (table@, binding_views(pairs@)),
            ));
        }
        // Merge metadata (when the mode compiles it) and resolve the state.
        let oapi_options = match oapi_options {
            Some(mut o) => {
                o.merge_with_fn(function);
                Some(o)
            },
            None => None,
        };
        let state = match state {
            Some(st) => st,
            None => guess_state_type(function),
        };
        let c = CompiledRoute {
            method,
            path_params: resolved,
            query_params: pairs,
            state,
            route_lit,
            route_span,
            oapi_options,
        };
        proof {
            assert(spec_from_route(r0, f0, with_aide) == Ok::<_, CompileErrorV>(c@));
        }
        Ok(c)
    }
}

/// The canonical path string: `/` before each segment's rendered text.
pub open spec fn spec_path(segs: Seq<PathParamV>) -> Seq<char>
    decreases segs.len(),
{
    if segs.len() == 0 {
        Seq::empty()
    } else {
        spec_path(segs.drop_last()) + seq!['/'] + seg_text(segs.last())
    }
}

/// The names of the capturing segments, in template order.
pub open spec fn capture_names(segs: Seq<PathParamV>) -> Seq<Seq<char>>
    decreases segs.len(),
{
    if segs.len() == 0 {
        Seq::<Seq<char>>::empty()
    } else {
        capture_names(segs.drop_last()) + (match segs.last() {
            PathParamV::Static { text: _ } => Seq::<Seq<char>>::empty(),
            PathParamV::Capture { name, ty: _ } => seq![name],
            PathParamV::Wildcard { name, ty: _ } => seq![name],
        })
    }
}

/// The first components of a pair list.
pub open spec fn firsts(v: Seq<(Seq<char>, Seq<char>)>) -> Seq<Seq<char>> {
    v.map_values(|p: (Seq<char>, Seq<char>)| p.0)
}

/// The names the bindings claim, in plan order: capture names in template
/// order, then query names in declaration order.
pub open spec fn spec_extracted(c: CompiledRouteV) -> Seq<Seq<char>> {
    capture_names(c.path_params) + firsts(c.query_params)
}

/// The positional placeholder identifier for an unclaimed argument.
pub open spec fn placeholder_name(i: int) -> Seq<char> {
    "___arg___"@ + dec_str(i as nat)
}

/// The passthrough plan: every argument whose binding name no path or query
/// binding claimed, in original order, renamed to its positional
/// placeholder, paired with its type's token text.
pub open spec fn spec_remaining(args: Seq<HandlerArgV>, bound: Seq<Seq<char>>) -> Seq<
    (Seq<char>, Seq<char>),
>
    decreases args.len(),
{
    if args.len() == 0 {
        Seq::empty()
    } else {
        let init = spec_remaining(args.drop_last(), bound);
        match args.last() {
            HandlerArgV::Typed { binding, ty } => {
                let skip_arg = match binding {
                    Some(n) => bound.contains(n),
                    None => false,
                };
                if skip_arg {
                    init
                } else {
                    init.push((placeholder_name(args.len() - 1), ty.text))
                }
            },
            HandlerArgV::Receiver => init,
        }
    }
}

impl CompiledRoute {
    /// Renders the canonical path in the routing layer's syntax: `/` plus
    /// the literal for a static segment, `/:name` for a capture, `/*name`
    /// for a wildcard.
    pub fn to_axum_path_string(&self) -> (path: String)
        ensures
            path@ == spec_path(seg_views(self.path_params@)),
    {
        let ghost segs = seg_views(self.path_params@);
        let mut path = String::new();
        proof {
            assert(segs.take(0) =~= Seq::<PathParamV>::empty());
        }
        let n = self.path_params.len();
        let mut i: usize = 0;
        while i < n
            invariant
                i <= n,
                n == self.path_params@.len(),
                segs == seg_views(self.path_params@),
                path@ == spec_path(segs.take(i as int)),
            decreases n - i,
        {
            path.append("/");
            match &self.path_params[i] {
                PathParam::Static { text } => {
                    path.append(text.as_str());
                },
                PathParam::Capture { name, ty: _ } => {
                    path.append(":");
                    path.append(name.as_str());
                },
                PathParam::Wildcard { name, ty: _ } => {
                    path.append("*");
                    path.append(name.as_str());
                },
            }
            proof {
                reveal_strlit("/");
                reveal_strlit(":");
                reveal_strlit("*");
                assert("/"@ =~= seq!['/']);
                assert(":"@ =~= seq![':']);
                assert("*"@ =~= seq!['*']);
                let cur = segs.take(i + 1 as int);
                assert(cur.drop_last() =~= segs.take(i as int));
                assert(cur.last() == segs[i as int]);
                assert(segs[i as int] == self.path_params@[i as int]@);
                assert(path@ =~= spec_path(cur));
            }
            i += 1;
        }
        proof {
            assert(segs.take(n as int) =~= segs);
        }
        path
    }

    /// The identifiers the generated handler receives from the extractors:
    /// capture names in template order, then query names in declaration
    /// order.
    pub fn extracted_idents(&self) -> (r: Vec<String>)
        ensures
            str_views(r@) == spec_extracted(self@),
    {
        let ghost segs = seg_views(self.path_params@);
        let mut idents: Vec<String> = Vec::new();
        proof {
            assert(segs.take(0) =~= Seq::<PathParamV>::empty());
            assert(str_views(idents@) =~= capture_names(segs.take(0)));
        }
        let n = self.path_params.len();
        let mut i: usize = 0;
        while i < n
            invariant
                i <= n,
                n == self.path_params@.len(),
                segs == seg_views(self.path_params@),
                str_views(idents@) == capture_names(segs.take(i as int)),
            decreases n - i,
        {
            let ghost pre = idents@;
            match &self.path_params[i] {
                PathParam::Static { text: _ } => {},
                PathParam::Capture { name, ty: _ } => {
                    idents.push(name.clone());
                },
                PathParam::Wildcard { name, ty: _ } => {
                    idents.push(name.clone());
                },
            }
            proof {
                let cur = segs.take(i + 1 as int);
                assert(cur.drop_last() =~= segs.take(i as int));
                assert(cur.last() == segs[i as int]);
                assert(segs[i as int] == self.path_params@[i as int]@);
                assert(str_views(idents@) =~= capture_names(cur));
            }
            i += 1;
        }
        proof {
            assert(segs.take(n as int) =~= segs);
        }
        let ghost qs = binding_views(self.query_params@);
        proof {
            assert(str_views(idents@) + firsts(qs.take(0)) =~= str_views(idents@));
        }
        let m = self.query_params.len();
        let mut j: usize = 0;
        while j < m
            invariant
                j <= m,
                m == self.query_params@.len(),
                qs == binding_views(self.query_params@),
                str_views(idents@) == capture_names(segs) + firsts(qs.take(j as int)),
            decreases m - j,
        {
            let ghost pre = idents@;
            idents.push(self.query_params[j].0.clone());
            proof {
                let cur = qs.take(j + 1 as int);
                assert(firsts(cur) =~= firsts(qs.take(j as int)).push(qs[j as int].0));
                assert(qs[j as int].0 == self.query_params@[j as int].0@);
                assert(str_views(idents@) =~= str_views(pre).push(qs[j as int].0));
                assert(str_views(idents@) =~= capture_names(segs) + firsts(cur));
            }
            j += 1;
        }
        proof {
            assert(qs.take(m as int) =~= qs);
        }
        idents
    }

    /// The arguments not used by the route, renamed positionally. The
    /// receiver form is not supported here: the handler is a free function.
    pub fn remaining_pattypes_numbered(&self, args: &Vec<HandlerArg>) -> (r: Vec<(String, String)>)
        requires
            forall|j: int| 0 <= j < args@.len() ==> !(args@[j] is Receiver),
        ensures
            binding_views(r@) == spec_remaining(arg_views(args@), spec_extracted(self@)),
    {
        let bound = self.extracted_idents();
        let ghost bd = spec_extracted(self@);
        let ghost avs = arg_views(args@);
        let mut out: Vec<(String, String)> = Vec::new();
        proof {
            assert(avs.take(0) =~= Seq::<HandlerArgV>::empty());
            assert(binding_views(out@) =~= spec_remaining(avs.take(0), bd));
        }
        let n = args.len();
        let mut i: usize = 0;
        while i < n
            invariant
                i <= n,
                n == args@.len(),
                avs == arg_views(args@),
                bd == str_views(bound@),
                bd == spec_extracted(self@),
                binding_views(out@) == spec_remaining(avs.take(i as int), bd),
            decreases n - i,
        {
            let ghost pre = out@;
            match &args[i] {
                HandlerArg::Receiver => {},
                HandlerArg::Typed { binding, ty } => {
                    let skip_arg = match binding {
                        Some(name) => contains_str(&bound, name.as_str()),
                        None => false,
                    };
                    if !skip_arg {
                        let mut ph = String::from_str("___arg___");
                        let num = usize_to_string(i);
                        ph.append(num.as_str());
                        proof {
                            assert(ph@ == placeholder_name(i as int));
                        }
                        out.push((ph, ty.text.clone()));
                    }
                },
            }
            proof {
                let cur = avs.take(i + 1 as int);
                assert(cur.drop_last() =~= avs.take(i as int));
                assert(cur.last() == avs[i as int]);
                assert(avs[i as int] == args@[i as int]@);
                assert(binding_views(out@) =~= spec_remaining(cur, bd));
            }
            i += 1;
        }
        proof {
            assert(avs.take(n as int) =~= avs);
        }
        out
    }
}

/// The merged summary, if any.
pub open spec fn spec_oapi_summary(c: CompiledRouteV) -> Option<Seq<char>> {
    match c.oapi_options {
        Some(o) => match o.summary {
            Some(p) => Some(p.1),
            None => None,
        },
        None => None,
    }
}

/// The merged description, if any.
pub open spec fn spec_oapi_description(c: CompiledRouteV) -> Option<Seq<char>> {
    match c.oapi_options {
        Some(o) => match o.description {
            Some(p) => Some(p.1),
            None => None,
        },
        None => None,
    }
}

/// The hidden flag, if set.
pub open spec fn spec_oapi_hidden(c: CompiledRouteV) -> Option<bool> {
    match c.oapi_options {
        Some(o) => match o.hidden {
            Some(p) => Some(p.1),
            None => None,
        },
        None => None,
    }
}

/// The tags, or nothing when unset.
pub open spec fn spec_oapi_tags(c: CompiledRouteV) -> Seq<Seq<char>> {
    match c.oapi_options {
        Some(o) => match o.tags {
            Some(p) => p.1,
            None => Seq::empty(),
        },
        None => Seq::empty(),
    }
}

/// The operation id: the explicit one, or the handler's name.
pub open spec fn spec_oapi_id(c: CompiledRouteV, f: HandlerSigV) -> Option<Seq<char>> {
    match c.oapi_options {
        Some(o) => match o.id {
            Some(p) => Some(p.1),
            None => Some(f.name),
        },
        None => Some(f.name),
    }
}

/// The security requirements, or nothing when unset.
pub open spec fn spec_oapi_security(c: CompiledRouteV) -> Seq<(Seq<char>, Seq<Seq<char>>)> {
    match c.oapi_options {
        Some(o) => match o.security {
            Some(p) => p.1,
            None => Seq::empty(),
        },
        None => Seq::empty(),
    }
}

/// The declared responses, or nothing when unset.
pub open spec fn spec_oapi_responses(c: CompiledRouteV) -> Seq<(u16, Seq<char>)> {
    match c.oapi_options {
        Some(o) => match o.responses {
            Some(p) => p.1,
            None => Seq::empty(),
        },
        None => Seq::empty(),
    }
}

/// The transform plan, when a hook was given: the hook's single argument
/// name and its body's token text; an arity error when the closure does not
/// take exactly one plain identifier.
pub open spec fn spec_oapi_transform(c: CompiledRouteV) -> Result<
    Option<(Seq<char>, Seq<char>)>,
    CompileErrorV,
> {
    match c.oapi_options {
        Some(o) => match o.transform {
            Some(p) => {
                let hook = p.1;
                if hook.inputs.len() != 1 {
                    Err(CompileErrorV::TransformArity {
                        kind: TransformArityKind::NotOneInput,
                        span: hook.span,
                    })
                } else {
                    match hook.inputs[0].ident {
                        Some(id) => Ok(Some((id, hook.body))),
                        None => Err(CompileErrorV::TransformArity {
                            kind: TransformArityKind::NotPlainIdent,
                            span: hook.inputs[0].span,
                        }),
                    }
                }
            },
            None => Ok(None),
        },
        None => Ok(None),
    }
}

/// The view of the security requirements as handed out.
pub open spec fn security_out_views(v: Seq<(String, Vec<String>)>) -> Seq<
    (Seq<char>, Seq<Seq<char>>),
> {
    v.map_values(|p: (String, Vec<String>)| (p.0@, str_views(p.1@)))
}

/// The view of the responses as handed out.
pub open spec fn responses_out_views(v: Seq<(u16, String)>) -> Seq<(u16, Seq<char>)> {
    v.map_values(|p: (u16, String)| (p.0, p.1@))
}

impl CompiledRoute {
    /// The merged summary, if any.
    pub fn get_oapi_summary(&self) -> (r: Option<String>)
        ensures
            opt_view(r) == spec_oapi_summary(self@),
    {
        match &self.oapi_options {
            Some(o) => match &o.summary {
                Some(p) => Some(p.1.clone()),
                None => None,
            },
            None => None,
        }
    }

    /// The merged description, if any.
    pub fn get_oapi_description(&self) -> (r: Option<String>)
        ensures
            opt_view(r) == spec_oapi_description(self@),
    {
        match &self.oapi_options {
            Some(o) => match &o.description {
                Some(p) => Some(p.1.clone()),
                None => None,
            },
            None => None,
        }
    }

    /// The hidden flag, if set.
    pub fn get_oapi_hidden(&self) -> (r: Option<bool>)
        ensures
            r == spec_oapi_hidden(self@),
    {
        match &self.oapi_options {
            Some(o) => match &o.hidden {
                Some(p) => Some(p.1),
                None => None,
            },
            None => None,
        }
    }

    /// The tags, empty when unset.
    pub fn get_oapi_tags(&self) -> (r: Vec<String>)
        ensures
            str_views(r@) == spec_oapi_tags(self@),
    {
        match &self.oapi_options {
            Some(o) => match &o.tags {
                Some(p) => {
                    let mut tags: Vec<String> = Vec::new();
                    let n = p.1.0.len();
                    let mut i: usize = 0;
                    proof {
                        assert(str_views(tags@) =~= p.1@.take(0));
                    }
                    while i < n
                        invariant
                            i <= n,
                            n == p.1.0@.len(),
                            str_views(tags@) == p.1@.take(i as int),
                        decreases n - i,
                    {
                        let ghost pre = tags@;
                        tags.push(p.1.0[i].clone());
                        proof {
                            assert(str_views(tags@) =~= str_views(pre).push(p.1.0@[i as int]@));
                            assert(p.1@.take(i + 1 as int) =~= p.1@.take(i as int).push(
                                p.1@[i as int],
                            ));
                        }
                        i += 1;
                    }
                    proof {
                        assert(p.1@.take(n as int) =~= p.1@);
                    }
                    tags
                },
                None => {
                    let r: Vec<String> = Vec::new();
                    proof {
                        assert(str_views(r@) =~= Seq::<Seq<char>>::empty());
                    }
                    r
                },
            },
            None => {
                let r: Vec<String> = Vec::new();
                proof {
                    assert(str_views(r@) =~= Seq::<Seq<char>>::empty());
                }
                r
            },
        }
    }

    /// The operation id: the explicit one, or else the handler's name.
    pub fn get_oapi_id(&self, sig: &HandlerSig) -> (r: Option<String>)
        ensures
            opt_view(r) == spec_oapi_id(self@, sig@),
    {
        match &self.oapi_options {
            Some(o) => match &o.id {
                Some(p) => Some(p.1.clone()),
                None => Some(sig.name.clone()),
            },
            None => Some(sig.name.clone()),
        }
    }

    /// The transform plan: the hook's single argument name and its body, or
    /// an arity error when the closure does not take exactly one plain
    /// identifier.
    pub fn get_oapi_transform(&self) -> (r: Result<Option<(String, String)>, CompileError>)
        ensures
            match r {
                Ok(Some(p)) => spec_oapi_transform(self@) == Ok::<_, CompileErrorV>(
                    Some((p.0@, p.1@)),
                ),
                Ok(None) => spec_oapi_transform(self@) == Ok::<
                    Option<(Seq<char>, Seq<char>)>,
                    CompileErrorV,
                >(None),
                Err(e) => spec_oapi_transform(self@) == Err::<Option<(Seq<char>, Seq<char>)>, _>(
                    e@,
                ),
            },
    {
        match &self.oapi_options {
            Some(o) => match &o.transform {
                Some(p) => {
                    let hook = &p.1;
                    if hook.inputs.len() != 1 {
                        Err(CompileError::TransformArity {
                            kind: TransformArityKind::NotOneInput,
                            span: hook.span,
                        })
                    } else {
                        proof {
                            assert(hook@.inputs[0] == hook.inputs@[0]@);
                        }
                        match &hook.inputs[0].ident {
                            Some(id) => Ok(Some((id.clone(), hook.body.clone()))),
                            None => Err(CompileError::TransformArity {
                                kind: TransformArityKind::NotPlainIdent,
                                span: hook.inputs[0].span,
                            }),
                        }
                    }
                },
                None => Ok(None),
            },
            None => Ok(None),
        }
    }

    /// The declared responses, empty when unset.
    pub fn get_oapi_responses(&self) -> (r: Vec<(u16, String)>)
        ensures
            responses_out_views(r@) == spec_oapi_responses(self@),
    {
        match &self.oapi_options {
            Some(o) => match &o.responses {
                Some(p) => {
                    let mut out: Vec<(u16, String)> = Vec::new();
                    let n = p.1.0.len();
                    let mut i: usize = 0;
                    proof {
                        assert(responses_out_views(out@) =~= p.1@.take(0));
                    }
                    while i < n
                        invariant
                            i <= n,
                            n == p.1.0@.len(),
                            responses_out_views(out@) == p.1@.take(i as int),
                        decreases n - i,
                    {
                        let ghost pre = out@;
                        out.push((p.1.0[i].0, p.1.0[i].1.clone()));
                        proof {
                            assert(responses_out_views(out@) =~= responses_out_views(pre).push(
                                (p.1.0@[i as int].0, p.1.0@[i as int].1@),
                            ));
                            assert(p.1@.take(i + 1 as int) =~= p.1@.take(i as int).push(
                                p.1@[i as int],
                            ));
                        }
                        i += 1;
                    }
                    proof {
                        assert(p.1@.take(n as int) =~= p.1@);
                    }
                    out
                },
                None => {
                    let r: Vec<(u16, String)> = Vec::new();
                    proof {
                        assert(responses_out_views(r@) =~= Seq::<(u16, Seq<char>)>::empty());
                    }
                    r
                },
            },
            None => {
                let r: Vec<(u16, String)> = Vec::new();
                proof {
                    assert(responses_out_views(r@) =~= Seq::<(u16, Seq<char>)>::empty());
                }
                r
            },
        }
    }

    /// The security requirements, each scheme with its scopes, empty when
    /// unset.
    pub fn get_oapi_security(&self) -> (r: Vec<(String, Vec<String>)>)
        ensures
            security_out_views(r@) == spec_oapi_security(self@),
    {
        match &self.oapi_options {
            Some(o) => match &o.security {
                Some(p) => {
                    let mut out: Vec<(String, Vec<String>)> = Vec::new();
                    let n = p.1.0.len();
                    let mut i: usize = 0;
                    proof {
                        assert(security_out_views(out@) =~= p.1@.take(0));
                    }
                    while i < n
                        invariant
                            i <= n,
                            n == p.1.0@.len(),
                            security_out_views(out@) == p.1@.take(i as int),
                        decreases n - i,
                    {
                        let ghost pre = out@;
                        let scheme = p.1.0[i].0.clone();
                        let mut scopes: Vec<String> = Vec::new();
                        let m = p.1.0[i].1.0.len();
                        let mut j: usize = 0;
                        proof {
                            assert(str_views(scopes@) =~= p.1.0@[i as int].1@.take(0));
                        }
                        while j < m
                            invariant
                                j <= m,
                                0 <= i < p.1.0@.len(),
                                m == p.1.0@[i as int].1.0@.len(),
                                str_views(scopes@) == p.1.0@[i as int].1@.take(j as int),
                            decreases m - j,
                        {
                            let ghost spre = scopes@;
                            scopes.push(p.1.0[i].1.0[j].clone());
                            proof {
                                assert(str_views(scopes@) =~= str_views(spre).push(
                                    p.1.0@[i as int].1.0@[j as int]@,
                                ));
                                assert(p.1.0@[i as int].1@.take(j + 1 as int)
                                    =~= p.1.0@[i as int].1@.take(j as int).push(
                                    p.1.0@[i as int].1@[j as int],
                                ));
                            }
                            j += 1;
                        }
                        proof {
                            assert(p.1.0@[i as int].1@.take(m as int) =~= p.1.0@[i as int].1@);
                        }
                        out.push((scheme, scopes));
                        proof {
                            assert(security_out_views(out@) =~= security_out_views(pre).push(
                                (p.1.0@[i as int].0@, p.1.0@[i as int].1@),
                            ));
                            assert(p.1@.take(i + 1 as int) =~= p.1@.take(i as int).push(
                                p.1@[i as int],
                            ));
                        }
                        i += 1;
                    }
                    proof {
                        assert(p.1@.take(n as int) =~= p.1@);
                    }
                    out
                },
                None => {
                    let r: Vec<(String, Vec<String>)> = Vec::new();
                    proof {
                        assert(security_out_views(r@) =~= Seq::<
                            (Seq<char>, Seq<Seq<char>>),
                        >::empty());
                    }
                    r
                },
            },
            None => {
                let r: Vec<(String, Vec<String>)> = Vec::new();
                proof {
                    assert(security_out_views(r@) =~= Seq::<(Seq<char>, Seq<Seq<char>>)>::empty());
                }
                r
            },
        }
    }
}

/// A documented field's rendering: its value quoted, or `None` when unset.
pub open spec fn doc_field(o: Option<(SrcSpan, Seq<char>)>) -> Seq<char> {
    match o {
        Some(p) => quoted(p.1),
        None => "None"@,
    }
}

/// The hidden flag's rendering: `true`, `false`, or `None` when unset.
pub open spec fn doc_hidden(o: Option<(SrcSpan, bool)>) -> Seq<char> {
    match o {
        Some(p) => if p.1 {
            "true"@
        } else {
            "false"@
        },
        None => "None"@,
    }
}

/// The tags' rendering: the array, or `[]` when unset.
pub open spec fn doc_tags(o: Option<(SrcSpan, Seq<Seq<char>>)>) -> Seq<char> {
    match o {
        Some(p) => str_array_string(p.1),
        None => "[]"@,
    }
}

/// The security list's rendering: the map, or `{}` when unset.
pub open spec fn doc_security(o: Option<(SrcSpan, Seq<(Seq<char>, Seq<Seq<char>>)>)>) -> Seq<
    char,
> {
    match o {
        Some(p) => security_string(p.1),
        None => "{}"@,
    }
}

/// The handler-information doc text: method, original template and state,
/// followed by the metadata fields when the route carries a metadata block.
pub open spec fn spec_doc_comments(c: CompiledRouteV) -> Seq<char> {
    let base = "# Handler information\n- Method: `"@ + c.method.spec_name() + "`\n- Path: `"@
        + c.route_lit + "`\n- State: `"@ + c.state + "`"@;
    match c.oapi_options {
        None => base,
        Some(o) => base + "\n                \n## OpenAPI\n- Summary: `"@ + doc_field(o.summary)
            + "`\n- Description: `"@ + doc_field(o.description) + "`\n- Operation id: `"@
            + doc_field(o.id) + "`\n- Tags: `"@ + doc_tags(o.tags) + "`\n- Security: `"@
            + doc_security(o.security) + "`\n- Hidden: `"@ + doc_hidden(o.hidden) + "`\n"@,
    }
}

/// Renders one documented string field: its value quoted, or `None`.
fn doc_field_exec(o: &Option<(SrcSpan, String)>) -> (r: String)
    ensures
        r@ == doc_field(opt_field_view(*o)),
{
    match o {
        Some(p) => {
            let mut s = String::from_str("\"");
            s.append(p.1.as_str());
            s.append("\"");
            proof {
                assert(s@ =~= quoted(p.1@));
            }
            s
        },
        None => String::from_str("None"),
    }
}

impl CompiledRoute {
    /// Renders the generated handler's documentation: the method, the
    /// original template and the state type, plus the merged metadata fields
    /// when the route carries a metadata block.
    pub fn to_doc_comments(&self) -> (doc: String)
        ensures
            doc@ == spec_doc_comments(self@),
    {
        let mut doc = String::from_str("# Handler information\n- Method: `");
        doc.append(self.method.to_axum_method_name());
        doc.append("`\n- Path: `");
        doc.append(self.route_lit.as_str());
        doc.append("`\n- State: `");
        doc.append(self.state.as_str());
        doc.append("`");
        match &self.oapi_options {
            None => {},
            Some(o) => {
                let summary = doc_field_exec(&o.summary);
                let description = doc_field_exec(&o.description);
                let id = doc_field_exec(&o.id);
                let tags: String = match &o.tags {
                    Some(p) => p.1.to_string(),
                    None => String::from_str("[]"),
                };
                let security: String = match &o.security {
                    Some(p) => p.1.to_string(),
                    None => String::from_str("{}"),
                };
                let hidden: &'static str = match &o.hidden {
                    Some(p) => if p.1 {
                        "true"
                    } else {
                        "false"
                    },
                    None => "None",
                };
                proof {
                    assert(tags@ == doc_tags(self@.oapi_options->0.tags));
                    assert(security@ == doc_security(self@.oapi_options->0.security));
                    assert(hidden@ == doc_hidden(self@.oapi_options->0.hidden));
                }
                doc.append("\n                \n## OpenAPI\n- Summary: `");
                doc.append(summary.as_str());
                doc.append("`\n- Description: `");
                doc.append(description.as_str());
                doc.append("`\n- Operation id: `");
                doc.append(id.as_str());
                doc.append("`\n- Tags: `");
                doc.append(tags.as_str());
                doc.append("`\n- Security: `");
                doc.append(security.as_str());
                doc.append("`\n- Hidden: `");
                doc.append(hidden);
                doc.append("`\n");
            },
        }
        proof {
            assert(doc@ =~= spec_doc_comments(self@));
        }
        doc
    }
}

} // verus!
