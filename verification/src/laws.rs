//! The laws the compiler obeys, stated and proved over the same spec
//! functions the executable contracts use: the emit/parse round trip, the
//! success and failure conditions of binding, the wildcard placement rule,
//! and the precedence rules for state and metadata resolution.

use vstd::prelude::*;

use crate::compilation::{
    capture_names, has_match, spec_bind_path, spec_bind_query, spec_claim, spec_extracted,
    spec_from_route, spec_guess_state, spec_path, spec_table_of, CompiledRouteV, HandlerSigV,
    TableEntryV,
};
use crate::errors::GrammarErrorKind;
use crate::parsing::{
    classify, classify_all, has_empty_capture, has_misplaced_wildcard, path_piece, path_segs,
    query_names, seg_text, spec_merge_options, spec_parse, OapiOptionsV, PathParamV, RouteV,
};
use crate::text::{join_on, lemma_join_on_push, lemma_join_split, lemma_split_on_nonempty, split_on};

verus! {

/// Classification keeps every character of the token: the marker a capture
/// or wildcard sheds is exactly the marker its rendering restores.
pub proof fn lemma_classify_text(tok: Seq<char>)
    ensures
        seg_text(classify(tok)) == tok,
{
    if tok.len() > 0 && tok[0] == ':' {
        assert(seq![':'] + tok.drop_first() =~= tok);
    } else if tok.len() > 1 && tok[0] == '*' {
        assert(seq!['*'] + tok.drop_first() =~= tok);
    }
}

/// Unfolds the canonical path from the front.
pub proof fn lemma_spec_path_cons(x: PathParamV, rest: Seq<PathParamV>)
    ensures
        spec_path(seq![x] + rest) == seq!['/'] + seg_text(x) + spec_path(rest),
    decreases rest.len(),
{
    let all = seq![x] + rest;
    if rest.len() == 0 {
        assert(all.drop_last() =~= Seq::<PathParamV>::empty());
        assert(all.last() == x);
        assert(spec_path(Seq::<PathParamV>::empty()) == Seq::<char>::empty());
        assert(spec_path(all) == spec_path(all.drop_last()) + seq!['/'] + seg_text(x));
        assert(spec_path(all) =~= seq!['/'] + seg_text(x) + spec_path(rest));
    } else {
        lemma_spec_path_cons(x, rest.drop_last());
        assert(all.drop_last() =~= seq![x] + rest.drop_last());
        assert(all.last() == rest.last());
        assert(spec_path(all) == spec_path(seq![x] + rest.drop_last()) + seq!['/'] + seg_text(
            rest.last(),
        ));
        assert((seq!['/'] + seg_text(x) + spec_path(rest.drop_last())) + seq!['/'] + seg_text(
            rest.last(),
        ) =~= seq!['/'] + seg_text(x) + (spec_path(rest.drop_last()) + seq!['/'] + seg_text(
            rest.last(),
        )));
    }
}

/// Unfolds the capture-name list from the front.
pub proof fn lemma_capture_names_cons(x: PathParamV, rest: Seq<PathParamV>)
    ensures
        capture_names(seq![x] + rest) == (match x {
            PathParamV::Static { text: _ } => Seq::<Seq<char>>::empty(),
            PathParamV::Capture { name, ty: _ } => seq![name],
            PathParamV::Wildcard { name, ty: _ } => seq![name],
        }) + capture_names(rest),
    decreases rest.len(),
{
    let head_names = match x {
        PathParamV::Static { text: _ } => Seq::<Seq<char>>::empty(),
        PathParamV::Capture { name, ty: _ } => seq![name],
        PathParamV::Wildcard { name, ty: _ } => seq![name],
    };
    let all = seq![x] + rest;
    if rest.len() == 0 {
        assert(all.drop_last() =~= Seq::<PathParamV>::empty());
        assert(all.last() == x);
        assert(capture_names(Seq::<PathParamV>::empty()) == Seq::<Seq<char>>::empty());
        assert(capture_names(all) == capture_names(all.drop_last()) + head_names);
        assert(capture_names(all) =~= head_names + capture_names(rest));
    } else {
        lemma_capture_names_cons(x, rest.drop_last());
        assert(all.drop_last() =~= seq![x] + rest.drop_last());
        assert(all.last() == rest.last());
        let tail_names = match rest.last() {
            PathParamV::Static { text: _ } => Seq::<Seq<char>>::empty(),
            PathParamV::Capture { name, ty: _ } => seq![name],
            PathParamV::Wildcard { name, ty: _ } => seq![name],
        };
        assert(capture_names(all) == (head_names + capture_names(rest.drop_last())) + tail_names);
        assert(capture_names(rest) == capture_names(rest.drop_last()) + tail_names);
        assert((head_names + capture_names(rest.drop_last())) + tail_names =~= head_names + (
        capture_names(rest.drop_last()) + tail_names));
    }
}

/// The canonical path of the classified tokens is the slash-joined tokens
/// behind a leading slash.
pub proof fn lemma_path_of_tokens(toks: Seq<Seq<char>>)
    requires
        toks.len() >= 1,
    ensures
        spec_path(classify_all(toks)) == seq!['/'] + join_on(toks, '/'),
    decreases toks.len(),
{
    let segs = classify_all(toks);
    if toks.len() == 1 {
        lemma_classify_text(toks[0]);
        assert(segs.drop_last() =~= Seq::<PathParamV>::empty());
        assert(segs.last() == classify(toks[0]));
        assert(spec_path(Seq::<PathParamV>::empty()) == Seq::<char>::empty());
        assert(spec_path(segs) == spec_path(segs.drop_last()) + seq!['/'] + seg_text(
            classify(toks[0]),
        ));
        assert(join_on(toks, '/') == toks[0]);
        assert(spec_path(segs) =~= seq!['/'] + join_on(toks, '/'));
    } else {
        let pre = toks.drop_last();
        lemma_path_of_tokens(pre);
        lemma_classify_text(toks.last());
        lemma_join_on_push(pre, '/', toks.last());
        assert(pre.push(toks.last()) =~= toks);
        assert(segs.drop_last() =~= classify_all(pre));
        assert(segs.last() == classify(toks.last()));
        assert(spec_path(segs) == spec_path(classify_all(pre)) + seq!['/'] + seg_text(
            classify(toks.last()),
        ));
        assert((seq!['/'] + join_on(pre, '/')) + seq!['/'] + toks.last() =~= seq!['/'] + (join_on(
            pre,
            '/',
        ) + seq!['/'] + toks.last()));
    }
}

/// Law: emitting a parsed template reproduces the template's path portion
/// exactly — the static/capture/wildcard classification of every segment
/// round-trips, and the whole template is that path portion plus the
/// optional `?`-prefixed query portion.
pub proof fn lemma_parse_emit_round_trip(s: Seq<char>, segs: Seq<PathParamV>, query: Seq<Seq<char>>)
    requires
        spec_parse(s) == Ok::<_, GrammarErrorKind>((segs, query)),
    ensures
        spec_path(segs) == path_piece(s),
        split_on(s, '?').len() == 1 ==> s == spec_path(segs),
        split_on(s, '?').len() == 2 ==> s == spec_path(segs) + seq!['?'] + split_on(s, '?')[1],
{
    let path = path_piece(s);
    let toks = split_on(path.drop_first(), '/');
    lemma_split_on_nonempty(path.drop_first(), '/');
    lemma_path_of_tokens(toks);
    lemma_join_split(path.drop_first(), '/');
    assert(segs == classify_all(toks));
    assert(spec_path(segs) == seq!['/'] + path.drop_first());
    assert(seq!['/'] + path.drop_first() =~= path);
    let pieces = split_on(s, '?');
    lemma_split_on_nonempty(s, '?');
    lemma_join_split(s, '?');
    if pieces.len() == 1 {
        assert(join_on(pieces, '?') == pieces[0]);
    }
    if pieces.len() == 2 {
        assert(pieces.drop_first() =~= seq![pieces[1]]);
        assert(join_on(pieces.drop_first(), '?') == pieces[1]);
        assert(join_on(pieces, '?') == pieces[0] + seq!['?'] + pieces[1]);
    }
}

/// Binding changes only the types of capturing segments: the rendered path
/// and the capture names are untouched.
pub proof fn lemma_bind_path_preserves(t: Seq<TableEntryV>, segs: Seq<PathParamV>)
    ensures
        spec_bind_path(t, segs) matches Ok(p) ==> {
            &&& spec_path(p.1) == spec_path(segs)
            &&& capture_names(p.1) == capture_names(segs)
        },
    decreases segs.len(),
{
    if segs.len() == 0 {
        match spec_bind_path(t, segs) {
            Ok(p) => {
                assert(spec_path(p.1) == spec_path(segs));
            },
            Err(_) => {},
        }
    } else {
        let head = segs[0];
        let rest = segs.drop_first();
        assert(seq![head] + rest =~= segs);
        match spec_bind_path(t, segs) {
            Ok(p) => {
                match head {
                    PathParamV::Static { text: _ } => {
                        lemma_bind_path_preserves(t, rest);
                        match spec_bind_path(t, rest) {
                            Ok(q) => {
                                lemma_spec_path_cons(head, q.1);
                                lemma_spec_path_cons(head, rest);
                                lemma_capture_names_cons(head, q.1);
                                lemma_capture_names_cons(head, rest);
                            },
                            Err(_) => {},
                        }
                    },
                    PathParamV::Capture { name, ty: _ } => {
                        let t2 = spec_claim(t, name);
                        lemma_bind_path_preserves(t2, rest);
                        let resolved = PathParamV::Capture {
                            name,
                            ty: Some(t[crate::compilation::match_idx(t, name)].ty),
                        };
                        match spec_bind_path(t2, rest) {
                            Ok(q) => {
                                lemma_spec_path_cons(resolved, q.1);
                                lemma_spec_path_cons(head, rest);
                                lemma_capture_names_cons(resolved, q.1);
                                lemma_capture_names_cons(head, rest);
                                assert(seg_text(resolved) == seg_text(head));
                            },
                            Err(_) => {},
                        }
                    },
                    PathParamV::Wildcard { name, ty: _ } => {
                        let t2 = spec_claim(t, name);
                        lemma_bind_path_preserves(t2, rest);
                        let resolved = PathParamV::Wildcard {
                            name,
                            ty: Some(t[crate::compilation::match_idx(t, name)].ty),
                        };
                        match spec_bind_path(t2, rest) {
                            Ok(q) => {
                                lemma_spec_path_cons(resolved, q.1);
                                lemma_spec_path_cons(head, rest);
                                lemma_capture_names_cons(resolved, q.1);
                                lemma_capture_names_cons(head, rest);
                                assert(seg_text(resolved) == seg_text(head));
                            },
                            Err(_) => {},
                        }
                    },
                }
            },
            Err(_) => {},
        }
    }
}

/// Law: the canonical path of a compiled route reproduces the template's
/// path portion exactly, whatever the handler looked like.
pub proof fn lemma_compiled_path_round_trip(
    s: Seq<char>,
    r: RouteV,
    f: HandlerSigV,
    with_aide: bool,
    c: CompiledRouteV,
)
    requires
        spec_parse(s) == Ok::<_, GrammarErrorKind>((r.path_params, r.query_params)),
        spec_from_route(r, f, with_aide) == Ok::<_, crate::errors::CompileErrorV>(c),
    ensures
        spec_path(c.path_params) == path_piece(s),
        split_on(s, '?').len() == 1 ==> s == spec_path(c.path_params),
        split_on(s, '?').len() == 2 ==> s == spec_path(c.path_params) + seq!['?'] + split_on(
            s,
            '?',
        )[1],
{
    lemma_parse_emit_round_trip(s, r.path_params, r.query_params);
    lemma_bind_path_preserves(spec_table_of(f.inputs), r.path_params);
}

/// Claiming one name's entry neither removes nor creates matches for any
/// other name.
pub proof fn lemma_claim_preserves_other(t: Seq<TableEntryV>, n1: Seq<char>, n2: Seq<char>)
    requires
        has_match(t, n1),
        n1 != n2,
    ensures
        has_match(spec_claim(t, n1), n2) == has_match(t, n2),
{
    let i1 = crate::compilation::match_idx(t, n1);
    assert(crate::compilation::match_at(t, n1, i1));
    let t2 = spec_claim(t, n1);
    if has_match(t, n2) {
        let i2 = crate::compilation::match_idx(t, n2);
        assert(crate::compilation::match_at(t, n2, i2));
        assert(i2 != i1);
        assert forall|j: int| 0 <= j < i2 implies (t2[j].claimed || t2[j].name != n2) by {
            if j == i1 {
                assert(t2[j].claimed);
            } else {
                assert(t2[j] == t[j]);
            }
        }
        assert(crate::compilation::match_at(t2, n2, i2));
        assert(has_match(t2, n2));
    }
    if has_match(t2, n2) {
        let i2 = crate::compilation::match_idx(t2, n2);
        assert(crate::compilation::match_at(t2, n2, i2));
        assert(i2 != i1);
        assert forall|j: int| 0 <= j < i2 implies (t[j].claimed || t[j].name != n2) by {
            if j == i1 {
                assert(t[j].name == n1);
            } else {
                assert(t2[j] == t[j]);
            }
        }
        assert(crate::compilation::match_at(t, n2, i2));
        assert(has_match(t, n2));
    }
}

/// Dropping the head of a duplicate-free list leaves it duplicate-free, and
/// the head does not recur.
pub proof fn lemma_no_dup_cons<A>(x: A, rest: Seq<A>)
    requires
        (seq![x] + rest).no_duplicates(),
    ensures
        rest.no_duplicates(),
        !rest.contains(x),
{
    let s = seq![x] + rest;
    assert forall|i: int, j: int|
        0 <= i < rest.len() && 0 <= j < rest.len() && i != j implies rest[i] != rest[j] by {
        assert(s[i + 1] == rest[i]);
        assert(s[j + 1] == rest[j]);
    }
    if rest.contains(x) {
        let k = choose|k: int| 0 <= k < rest.len() && rest[k] == x;
        assert(s[0] == s[k + 1]);
    }
}

/// Both halves of a duplicate-free concatenation are duplicate-free.
pub proof fn lemma_no_dup_split<A>(a: Seq<A>, b: Seq<A>)
    requires
        (a + b).no_duplicates(),
    ensures
        a.no_duplicates(),
        b.no_duplicates(),
{
    let s = a + b;
    assert forall|i: int, j: int| 0 <= i < a.len() && 0 <= j < a.len() && i != j implies a[i]
        != a[j] by {
        assert(s[i] == a[i]);
        assert(s[j] == a[j]);
    }
    assert forall|i: int, j: int| 0 <= i < b.len() && 0 <= j < b.len() && i != j implies b[i]
        != b[j] by {
        assert(s[a.len() + i] == b[i]);
        assert(s[a.len() + j] == b[j]);
    }
}

/// Binding the path segments succeeds when every capture name, distinct from
/// all the others and from the reserved extra names, has an unclaimed entry;
/// the extra names' entries survive the pass.
pub proof fn lemma_bind_path_ok(t: Seq<TableEntryV>, segs: Seq<PathParamV>, extra: Seq<Seq<char>>)
    requires
        forall|n: Seq<char>| #[trigger] capture_names(segs).contains(n) ==> has_match(t, n),
        forall|n: Seq<char>| #[trigger] extra.contains(n) ==> has_match(t, n),
        (capture_names(segs) + extra).no_duplicates(),
    ensures
        spec_bind_path(t, segs) matches Ok(p) && (forall|n: Seq<char>| #[trigger] extra.contains(n)
            ==> has_match(p.0, n)),
    decreases segs.len(), 1int,
{
    if segs.len() == 0 {
    } else {
        let head = segs[0];
        let rest = segs.drop_first();
        assert(seq![head] + rest =~= segs);
        lemma_capture_names_cons(head, rest);
        let cn = capture_names(segs);
        let crest = capture_names(rest);
        match head {
            PathParamV::Static { text: _ } => {
                assert(cn =~= crest);
                lemma_bind_path_ok(t, rest, extra);
            },
            PathParamV::Capture { name, ty: _ } => {
                lemma_bind_capture_step(t, segs, extra, name);
            },
            PathParamV::Wildcard { name, ty: _ } => {
                lemma_bind_capture_step(t, segs, extra, name);
            },
        }
    }
}

/// The capturing-head step of `lemma_bind_path_ok`.
proof fn lemma_bind_capture_step(
    t: Seq<TableEntryV>,
    segs: Seq<PathParamV>,
    extra: Seq<Seq<char>>,
    name: Seq<char>,
)
    requires
        segs.len() > 0,
        (segs[0] matches PathParamV::Capture { name: n, ty: _ } && n == name) || (
        segs[0] matches PathParamV::Wildcard { name: n, ty: _ } && n == name),
        forall|n: Seq<char>| #[trigger] capture_names(segs).contains(n) ==> has_match(t, n),
        forall|n: Seq<char>| #[trigger] extra.contains(n) ==> has_match(t, n),
        (capture_names(segs) + extra).no_duplicates(),
    ensures
        spec_bind_path(t, segs) matches Ok(p) && (forall|n: Seq<char>| #[trigger] extra.contains(n)
            ==> has_match(p.0, n)),
    decreases segs.len(), 0int,
{
    let rest = segs.drop_first();
    assert(seq![segs[0]] + rest =~= segs);
    lemma_capture_names_cons(segs[0], rest);
    let cn = capture_names(segs);
    let crest = capture_names(rest);
    assert(cn == seq![name] + crest);
    assert(cn.contains(name)) by {
        assert(cn[0] == name);
    }
    assert(has_match(t, name));
    let t2 = spec_claim(t, name);
    assert(seq![name] + (crest + extra) =~= cn + extra);
    lemma_no_dup_cons(name, crest + extra);
    assert forall|n: Seq<char>| #[trigger] crest.contains(n) implies has_match(t2, n) by {
        let k = choose|k: int| 0 <= k < crest.len() && crest[k] == n;
        assert((crest + extra)[k] == n);
        assert((crest + extra).contains(n));
        assert(n != name);
        assert(cn[k + 1] == n);
        assert(cn.contains(n));
        lemma_claim_preserves_other(t, name, n);
    }
    assert forall|n: Seq<char>| #[trigger] extra.contains(n) implies has_match(t2, n) by {
        let k = choose|k: int| 0 <= k < extra.len() && extra[k] == n;
        assert((crest + extra)[crest.len() + k] == n);
        assert((crest + extra).contains(n));
        assert(n != name);
        lemma_claim_preserves_other(t, name, n);
    }
    lemma_bind_path_ok(t2, rest, extra);
}

/// Binding the query names succeeds when every name, pairwise distinct, has
/// an unclaimed entry; the plan pairs exactly those names, in order.
pub proof fn lemma_bind_query_ok(t: Seq<TableEntryV>, names: Seq<Seq<char>>)
    requires
        names.no_duplicates(),
        forall|n: Seq<char>| #[trigger] names.contains(n) ==> has_match(t, n),
    ensures
        spec_bind_query(t, names) matches Ok(p) && crate::compilation::firsts(p.1) == names,
    decreases names.len(),
{
    if names.len() == 0 {
        match spec_bind_query(t, names) {
            Ok(p) => {
                assert(crate::compilation::firsts(p.1) =~= names);
            },
            Err(_) => {},
        }
    } else {
        let head = names[0];
        let rest = names.drop_first();
        assert(seq![head] + rest =~= names);
        assert(names.contains(head)) by {
            assert(names[0] == head);
        }
        assert(has_match(t, head));
        let t2 = spec_claim(t, head);
        lemma_no_dup_cons(head, rest);
        assert forall|n: Seq<char>| #[trigger] rest.contains(n) implies has_match(t2, n) by {
            let k = choose|k: int| 0 <= k < rest.len() && rest[k] == n;
            assert(names[k + 1] == n);
            assert(names.contains(n));
            assert(n != head);
            lemma_claim_preserves_other(t, head, n);
        }
        lemma_bind_query_ok(t2, rest);
        let pair = (head, t[crate::compilation::match_idx(t, head)].ty);
        match spec_bind_query(t2, rest) {
            Ok(p) => {
                assert(crate::compilation::firsts(seq![pair] + p.1) =~= seq![head]
                    + crate::compilation::firsts(p.1));
            },
            Err(_) => {},
        }
    }
}

/// Law: when every path and query name of the template is pairwise distinct
/// and has an entry in the parameter table, compilation succeeds; the
/// binding plan claims exactly those names, so the passthrough plan is the
/// argument list minus the claimed names, in original order; and the
/// canonical path is untouched by binding.
pub proof fn lemma_unique_params_compile(r: RouteV, f: HandlerSigV, with_aide: bool)
    requires
        with_aide || r.oapi_options is None,
        (capture_names(r.path_params) + r.query_params).no_duplicates(),
        forall|n: Seq<char>| #[trigger] capture_names(r.path_params).contains(n) ==> has_match(
            spec_table_of(f.inputs),
            n,
        ),
        forall|n: Seq<char>| #[trigger] r.query_params.contains(n) ==> has_match(
            spec_table_of(f.inputs),
            n,
        ),
    ensures
        spec_from_route(r, f, with_aide) matches Ok(c) && {
            &&& spec_extracted(c) == capture_names(r.path_params) + r.query_params
            &&& spec_path(c.path_params) == spec_path(r.path_params)
        },
{
    let t0 = spec_table_of(f.inputs);
    lemma_bind_path_ok(t0, r.path_params, r.query_params);
    lemma_bind_path_preserves(t0, r.path_params);
    match spec_bind_path(t0, r.path_params) {
        Ok(p) => {
            lemma_no_dup_split(capture_names(r.path_params), r.query_params);
            lemma_bind_query_ok(p.0, r.query_params);
        },
        Err(_) => {},
    }
}

/// Law: a template name that the parameter table cannot resolve makes
/// compilation fail with an unresolved binding naming a template name the
/// table lacks (when the template's names are pairwise distinct, that is the
/// missing name itself).
pub proof fn lemma_missing_name_fails(
    t: Seq<TableEntryV>,
    segs: Seq<PathParamV>,
    qnames: Seq<Seq<char>>,
)
    requires
        (capture_names(segs) + qnames).no_duplicates(),
        exists|n: Seq<char>|
            #[trigger] (capture_names(segs) + qnames).contains(n) && !has_match(t, n),
    ensures
        match spec_bind_path(t, segs) {
            Err(n) => (capture_names(segs) + qnames).contains(n) && !has_match(t, n),
            Ok(p) => spec_bind_query(p.0, qnames) matches Err(n) && (capture_names(segs)
                + qnames).contains(n) && !has_match(t, n),
        },
    decreases segs.len(), 1int,
{
    let names = capture_names(segs) + qnames;
    let missing = choose|n: Seq<char>| #[trigger] names.contains(n) && !has_match(t, n);
    if segs.len() == 0 {
        assert(capture_names(segs) == Seq::<Seq<char>>::empty());
        assert(names =~= qnames);
        lemma_missing_query_fails(t, qnames);
        match spec_bind_path(t, segs) {
            Ok(p) => {
                assert(p.0 == t);
            },
            Err(_) => {},
        }
    } else {
        let head = segs[0];
        let rest = segs.drop_first();
        assert(seq![head] + rest =~= segs);
        lemma_capture_names_cons(head, rest);
        let crest = capture_names(rest);
        let rest_names = crest + qnames;
        match head {
            PathParamV::Static { text: _ } => {
                assert(capture_names(segs) =~= crest);
                assert(names =~= rest_names);
                lemma_missing_name_fails(t, rest, qnames);
                match spec_bind_path(t, rest) {
                    Ok(p) => {},
                    Err(_) => {},
                }
            },
            PathParamV::Capture { name, ty: _ } => {
                lemma_missing_capture_step(t, segs, qnames, name);
            },
            PathParamV::Wildcard { name, ty: _ } => {
                lemma_missing_capture_step(t, segs, qnames, name);
            },
        }
    }
}

/// The capturing-head step of `lemma_missing_name_fails`.
proof fn lemma_missing_capture_step(
    t: Seq<TableEntryV>,
    segs: Seq<PathParamV>,
    qnames: Seq<Seq<char>>,
    name: Seq<char>,
)
    requires
        segs.len() > 0,
        (segs[0] matches PathParamV::Capture { name: n, ty: _ } && n == name) || (
        segs[0] matches PathParamV::Wildcard { name: n, ty: _ } && n == name),
        (capture_names(segs) + qnames).no_duplicates(),
        exists|n: Seq<char>|
            #[trigger] (capture_names(segs) + qnames).contains(n) && !has_match(t, n),
    ensures
        match spec_bind_path(t, segs) {
            Err(n) => (capture_names(segs) + qnames).contains(n) && !has_match(t, n),
            Ok(p) => spec_bind_query(p.0, qnames) matches Err(n) && (capture_names(segs)
                + qnames).contains(n) && !has_match(t, n),
        },
    decreases segs.len(), 0int,
{
    let names = capture_names(segs) + qnames;
    let missing = choose|n: Seq<char>| #[trigger] names.contains(n) && !has_match(t, n);
    let rest = segs.drop_first();
    assert(seq![segs[0]] + rest =~= segs);
    lemma_capture_names_cons(segs[0], rest);
    let crest = capture_names(rest);
    let rest_names = crest + qnames;
    assert(capture_names(segs) == seq![name] + crest);
    assert(seq![name] + rest_names =~= names);
    lemma_no_dup_cons(name, rest_names);
    assert(names[0] == name);
    if !has_match(t, name) {
        assert(names.contains(name)) by {
            assert(names[0] == name);
        }
    } else {
        // The missing name is not the head, so it stays missing after the
        // head's claim, and the tail still contains it.
        assert(missing != name);
        let t2 = spec_claim(t, name);
        lemma_claim_preserves_other(t, name, missing);
        let k = choose|k: int| 0 <= k < names.len() && names[k] == missing;
        assert(k != 0);
        assert(rest_names[k - 1] == missing);
        assert(rest_names.contains(missing));
        assert(rest_names.contains(missing) && !has_match(t2, missing));
        lemma_missing_name_fails(t2, rest, qnames);
        // Transport the conclusion back through the head's claim.
        match spec_bind_path(t2, rest) {
            Err(n) => {
                lemma_transport_missing(t, name, rest_names, n);
                assert(names.contains(n)) by {
                    let j = choose|j: int| 0 <= j < rest_names.len() && rest_names[j] == n;
                    assert(names[j + 1] == n);
                }
            },
            Ok(p) => {
                match spec_bind_query(p.0, qnames) {
                    Err(n) => {
                        assert(rest_names.contains(n));
                        lemma_transport_missing(t, name, rest_names, n);
                        assert(names.contains(n)) by {
                            let j = choose|j: int| 0 <= j < rest_names.len() && rest_names[j] == n;
                            assert(names[j + 1] == n);
                        }
                    },
                    Ok(_) => {},
                }
            },
        }
    }
}

/// A name the table lacked after a claim was already lacking before it, as
/// long as it is not the claimed name.
proof fn lemma_transport_missing(
    t: Seq<TableEntryV>,
    claimed: Seq<char>,
    rest_names: Seq<Seq<char>>,
    n: Seq<char>,
)
    requires
        has_match(t, claimed),
        rest_names.contains(n),
        !rest_names.contains(claimed),
        !has_match(spec_claim(t, claimed), n),
    ensures
        !has_match(t, n),
{
    assert(n != claimed);
    lemma_claim_preserves_other(t, claimed, n);
}

/// Law: at the pipeline level, a template name that the parameter table
/// cannot resolve makes the whole compilation fail with an unresolved
/// binding that names a template name the table lacks and points at the
/// template literal.
pub proof fn lemma_missing_name_compilation_fails(r: RouteV, f: HandlerSigV, with_aide: bool)
    requires
        with_aide || r.oapi_options is None,
        (capture_names(r.path_params) + r.query_params).no_duplicates(),
        exists|n: Seq<char>|
            #[trigger] (capture_names(r.path_params) + r.query_params).contains(n) && !has_match(
                spec_table_of(f.inputs),
                n,
            ),
    ensures
        spec_from_route(r, f, with_aide) matches Err(e) && e matches (
        crate::errors::CompileErrorV::UnresolvedBinding { kind: _, name, span }) && (capture_names(
            r.path_params,
        ) + r.query_params).contains(name) && !has_match(spec_table_of(f.inputs), name) && span
            == r.route_span,
{
    let t0 = spec_table_of(f.inputs);
    lemma_missing_name_fails(t0, r.path_params, r.query_params);
}

/// The query half of `lemma_missing_name_fails`.
pub proof fn lemma_missing_query_fails(t: Seq<TableEntryV>, qnames: Seq<Seq<char>>)
    requires
        qnames.no_duplicates(),
        exists|n: Seq<char>| #[trigger] qnames.contains(n) && !has_match(t, n),
    ensures
        spec_bind_query(t, qnames) matches Err(n) && qnames.contains(n) && !has_match(t, n),
    decreases qnames.len(),
{
    let missing = choose|n: Seq<char>| #[trigger] qnames.contains(n) && !has_match(t, n);
    assert(qnames.len() > 0);
    let head = qnames[0];
    let rest = qnames.drop_first();
    assert(seq![head] + rest =~= qnames);
    lemma_no_dup_cons(head, rest);
    if !has_match(t, head) {
        assert(qnames.contains(head)) by {
            assert(qnames[0] == head);
        }
    } else {
        assert(missing != head);
        let t2 = spec_claim(t, head);
        lemma_claim_preserves_other(t, head, missing);
        let k = choose|k: int| 0 <= k < qnames.len() && qnames[k] == missing;
        assert(k != 0);
        assert(rest[k - 1] == missing);
        assert(rest.contains(missing) && !has_match(t2, missing));
        lemma_missing_query_fails(t2, rest);
        match spec_bind_query(t2, rest) {
            Err(n) => {
                assert(n != head);
                lemma_claim_preserves_other(t, head, n);
                assert(qnames.contains(n)) by {
                    let j = choose|j: int| 0 <= j < rest.len() && rest[j] == n;
                    assert(qnames[j + 1] == n);
                }
            },
            Ok(_) => {},
        }
    }
}

/// Law: a wildcard-like segment anywhere before the final position makes the
/// template fail to parse, regardless of the surrounding segments; when the
/// template is otherwise well-formed the error is precisely the misplaced
/// wildcard.
pub proof fn lemma_misplaced_wildcard_fails(s: Seq<char>)
    requires
        has_misplaced_wildcard(path_segs(s)),
    ensures
        spec_parse(s) is Err,
        (split_on(s, '?').len() <= 2 && path_piece(s).len() > 0 && path_piece(s)[0] == '/'
            && !has_empty_capture(path_segs(s))) ==> spec_parse(s) == Err::<
            (Seq<PathParamV>, Seq<Seq<char>>),
            _,
        >(GrammarErrorKind::MisplacedWildcard),
{
}

/// Law: an explicit state override always wins over the wrapper-shape
/// inference; without one the compiled state is exactly the inferred one.
pub proof fn lemma_state_resolution(r: RouteV, f: HandlerSigV, with_aide: bool, c: CompiledRouteV)
    requires
        spec_from_route(r, f, with_aide) == Ok::<_, crate::errors::CompileErrorV>(c),
    ensures
        r.state matches Some(st) ==> c.state == st,
        r.state is None ==> c.state == spec_guess_state(f.inputs),
{
}

/// Law: the metadata merge fills exactly the unset summary, description and
/// id fields — an explicit value always wins, the summary default is the
/// first documentation line, the description default joins the lines from
/// the third onward with newlines, and the id default is the handler's name.
pub proof fn lemma_metadata_defaults(o: OapiOptionsV, f: HandlerSigV)
    ensures
        o.summary is Some ==> spec_merge_options(o, f).summary == o.summary,
        o.summary is None && f.docs.len() > 0 ==> spec_merge_options(o, f).summary == Some(
            (f.name_span, f.docs[0]),
        ),
        o.description is Some ==> spec_merge_options(o, f).description == o.description,
        o.description is None && f.docs.len() > 2 ==> spec_merge_options(o, f).description == Some(
            (f.name_span, join_on(f.docs.skip(2), '\n')),
        ),
        o.id is Some ==> spec_merge_options(o, f).id == o.id,
        o.id is None ==> spec_merge_options(o, f).id == Some((f.name_span, f.name)),
        spec_merge_options(o, f).hidden == o.hidden,
        spec_merge_options(o, f).tags == o.tags,
        spec_merge_options(o, f).security == o.security,
        spec_merge_options(o, f).responses == o.responses,
        spec_merge_options(o, f).transform == o.transform,
{
}

} // verus!
