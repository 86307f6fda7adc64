//! The implementation transformer: given an implementation block that
//! authors the business methods, it synthesizes the companion
//! transport-facing method bodies and merges them into the same block.
//! Method bodies are treated as opaque text, delimited by matching braces
//! counted without regard to the characters between them.

use vstd::prelude::*;
use crate::emit::{spec_req_type, spec_resp_type};
use crate::lexer::{spec_tokenize, tokenize, toks_of, Tok, Token};
use crate::parser::{
    is_id, is_p, lemma_toks_len, parse_args, parse_attrs, parse_vis, spec_parse_args,
    spec_parse_attrs, spec_parse_vis, spec_render, tok_ident, tok_is_kw, tok_is_punct,
    validate_ident,
};
use crate::schema::{
    spec_vis, vis_prefix, wf_ident, GenError, MethodDescriptor, MethodSchema, Param, ParamSchema,
    Visibility,
};
use crate::text::{is_space, space_char};
use vstd::string::{StrSliceExecFns, StringExecFns};

verus! {

/// One authored method of the implementation block: its visibility and its
/// signature.
pub ghost struct SigSchema {
    pub vis: Visibility,
    pub m: MethodSchema,
}

/// The comma-separated parameter names of the first `n` parameters.
pub open spec fn spec_arg_names(ps: Seq<ParamSchema>, n: int) -> Seq<char>
    decreases n,
{
    if n <= 0 {
        Seq::empty()
    } else if n == 1 {
        ps[0].name
    } else {
        spec_arg_names(ps, n - 1) + ", "@ + ps[n - 1].name
    }
}

/// The positional destructuring of the request envelope into the original
/// parameter names, in declaration order.
pub open spec fn spec_destructure(ps: Seq<ParamSchema>) -> Seq<char> {
    if ps.len() == 0 {
        "let () = req;\n"@
    } else {
        "let ("@ + spec_arg_names(ps, ps.len() as int) + ",) = req;\n"@
    }
}

/// The synthesized transport-facing method body: destructure the envelope,
/// invoke the business method once, hand the result to the response sink's
/// success path exactly once, report a delivery failure without retrying,
/// and schedule the send on the call context.
pub open spec fn spec_grpc_method_impl(vis: Visibility, m: MethodSchema) -> Seq<char> {
    spec_vis(vis) + "fn "@ + m.name + "_grpc(&mut self, ctx: ::grpcio::RpcContext, req: "@
        + spec_req_type(m) + ", sink: ::grpcio::UnarySink<"@ + spec_resp_type(m) + ">) {\n"@
        + spec_destructure(m.params) + "let resp = self."@ + m.name + "("@ + spec_arg_names(
        m.params,
        m.params.len() as int,
    )
        + ");\nlet f = sink.success(resp).map_err(move |e| ::tracing::error!(\"failed to reply {:?}\", e)).map(|_| ());\nctx.spawn(f)\n}\n"@
}

/// The synthesized methods of the first `n` authored methods, in order.
pub open spec fn spec_synths_upto(sigs: Seq<SigSchema>, n: int) -> Seq<char>
    decreases n,
{
    if n <= 0 {
        Seq::empty()
    } else {
        spec_synths_upto(sigs, n - 1) + spec_grpc_method_impl(sigs[n - 1].vis, sigs[n - 1].m)
    }
}

/// First position at or after `i` holding a character that is not
/// whitespace.
pub open spec fn ws_end(s: Seq<char>, i: int) -> int
    decreases s.len() - i,
{
    if i < 0 || i >= s.len() || !is_space(s[i]) {
        i
    } else {
        ws_end(s, i + 1)
    }
}

pub proof fn lemma_ws_end(s: Seq<char>, i: int)
    requires
        0 <= i <= s.len(),
    ensures
        i <= ws_end(s, i) <= s.len(),
        ws_end(s, i) < s.len() ==> !is_space(s[ws_end(s, i)]),
    decreases s.len() - i,
{
    if i < s.len() && is_space(s[i]) {
        lemma_ws_end(s, i + 1);
    }
}

/// Position of the first opening brace at or after `i`.
pub open spec fn brace_open(s: Seq<char>, i: int) -> Option<int>
    decreases s.len() - i,
{
    if i < 0 || i >= s.len() {
        None
    } else if s[i] == '{' {
        Some(i)
    } else {
        brace_open(s, i + 1)
    }
}

pub proof fn lemma_brace_open(s: Seq<char>, i: int)
    requires
        0 <= i <= s.len(),
    ensures
        brace_open(s, i) matches Some(o) ==> i <= o < s.len() && s[o] == '{',
    decreases s.len() - i,
{
    if i < s.len() && s[i] != '{' {
        lemma_brace_open(s, i + 1);
    }
}

/// Position of the brace closing the body whose content starts at `i` with
/// `d` braces open beyond the first, or nothing when the text ends first.
pub open spec fn brace_close(s: Seq<char>, i: int, d: int) -> Option<int>
    decreases s.len() - i,
{
    if i < 0 || i >= s.len() {
        None
    } else if s[i] == '}' {
        if d == 0 {
            Some(i)
        } else {
            brace_close(s, i + 1, d - 1)
        }
    } else if s[i] == '{' {
        brace_close(s, i + 1, d + 1)
    } else {
        brace_close(s, i + 1, d)
    }
}

pub proof fn lemma_brace_close(s: Seq<char>, i: int, d: int)
    requires
        0 <= i <= s.len(),
    ensures
        brace_close(s, i, d) matches Some(c) ==> i <= c < s.len(),
    decreases s.len() - i,
{
    if i < s.len() {
        if s[i] == '}' {
            if d != 0 {
                lemma_brace_close(s, i + 1, d - 1);
            }
        } else if s[i] == '{' {
            lemma_brace_close(s, i + 1, d + 1);
        } else {
            lemma_brace_close(s, i + 1, d);
        }
    }
}

/// One authored method signature, parsed from the tokens between the
/// previous item and the body's opening brace: attributes, visibility,
/// `fn`, name, arguments, and an optional return type running to the end of
/// the span.
pub open spec fn spec_parse_impl_sig(ts: Seq<Tok>) -> Option<SigSchema> {
    let (attrs, i1) = spec_parse_attrs(ts, 0);
    match spec_parse_vis(ts, i1) {
        Some((vis, i2)) => {
            if !is_id(ts, i2, "fn"@) {
                None
            } else if !(0 <= i2 + 1 < ts.len() && (ts[i2 + 1] matches Tok::Ident(x)) && wf_ident(
                ts[i2 + 1]->Ident_0,
            )) {
                None
            } else if !is_p(ts, i2 + 2, '(') {
                None
            } else {
                let name = ts[i2 + 1]->Ident_0;
                match spec_parse_args(ts, i2 + 3, None) {
                    Some((seen, params, i3)) => {
                        match seen {
                            Some(by_ref) => {
                                if i3 == ts.len() {
                                    Some(
                                        SigSchema {
                                            vis,
                                            m: MethodSchema {
                                                attrs,
                                                name,
                                                params,
                                                ret: None,
                                                by_ref,
                                            },
                                        },
                                    )
                                } else if is_p(ts, i3, '-') && is_p(ts, i3 + 1, '>') && i3 + 2
                                    < ts.len() && spec_render(
                                    ts.subrange(i3 + 2, ts.len() as int),
                                ).len() > 0 {
                                    Some(
                                        SigSchema {
                                            vis,
                                            m: MethodSchema {
                                                attrs,
                                                name,
                                                params,
                                                ret: Some(
                                                    spec_render(
                                                        ts.subrange(i3 + 2, ts.len() as int),
                                                    ),
                                                ),
                                                by_ref,
                                            },
                                        },
                                    )
                                } else {
                                    None
                                }
                            },
                            None => None,
                        }
                    },
                    None => None,
                }
            }
        },
        None => None,
    }
}

/// The authored method signatures of the items from position `i` on, and
/// the position of the block's closing brace.
pub open spec fn spec_scan_items(s: Seq<char>, i: int) -> Option<(Seq<SigSchema>, int)>
    decreases s.len() - i,
    via spec_scan_items_dec
{
    if i < 0 || i > s.len() {
        None
    } else {
        let k = ws_end(s, i);
        if k >= s.len() {
            None
        } else if s[k] == '}' {
            Some((Seq::empty(), k))
        } else {
            match brace_open(s, k) {
                Some(o) => {
                    match spec_tokenize(s.subrange(k, o), 0) {
                        Some(ts) => {
                            match spec_parse_impl_sig(ts) {
                                Some(sig) => {
                                    match brace_close(s, o + 1, 0) {
                                        Some(c) => {
                                            match spec_scan_items(s, c + 1) {
                                                Some((rest, p)) => Some((seq![sig] + rest, p)),
                                                None => None,
                                            }
                                        },
                                        None => None,
                                    }
                                },
                                None => None,
                            }
                        },
                        None => None,
                    }
                },
                None => None,
            }
        }
    }
}

#[via_fn]
proof fn spec_scan_items_dec(s: Seq<char>, i: int) {
    if 0 <= i <= s.len() {
        lemma_ws_end(s, i);
        let k = ws_end(s, i);
        if k < s.len() && s[k] != '}' {
            lemma_brace_open(s, k);
            match brace_open(s, k) {
                Some(o) => {
                    lemma_brace_close(s, o + 1, 0);
                },
                None => {},
            }
        }
    }
}

/// Whether the header tokens open an implementation block.
pub open spec fn header_ok(ts: Seq<Tok>) -> bool {
    is_id(ts, spec_parse_attrs(ts, 0).1, "impl"@)
}

/// The transformed implementation block: the authored text up to the
/// closing brace, the synthesized transport-facing methods, and the closing
/// brace.
pub open spec fn spec_server(s: Seq<char>) -> Option<Seq<char>> {
    match brace_open(s, 0) {
        Some(o) => {
            match spec_tokenize(s.subrange(0, o), 0) {
                Some(hts) => {
                    if header_ok(hts) {
                        match spec_scan_items(s, o + 1) {
                            Some((sigs, p)) => {
                                if ws_end(s, p + 1) == s.len() {
                                    Some(
                                        s.subrange(0, p) + spec_synths_upto(
                                            sigs,
                                            sigs.len() as int,
                                        ) + "}"@,
                                    )
                                } else {
                                    None
                                }
                            },
                            None => None,
                        }
                    } else {
                        None
                    }
                },
                None => None,
            }
        },
        None => None,
    }
}

/// The synthesized transport-facing method for one authored method.
pub fn grpc_method_impl(vis: Visibility, m: &MethodDescriptor) -> (r: String)
    ensures
        r@ == spec_grpc_method_impl(vis, m@),
{
    let ghost gp = m.params@.map_values(|p: Param| p@);
    let mut out = String::from_str(vis_prefix(vis));
    out.append("fn ");
    out.append(m.name.as_str());
    out.append("_grpc(&mut self, ctx: ::grpcio::RpcContext, req: ");
    let rq = crate::emit::req_type(m);
    out.append(rq.as_str());
    out.append(", sink: ::grpcio::UnarySink<");
    let rp = crate::emit::resp_type(m);
    out.append(rp.as_str());
    out.append(">) {\n");
    if m.params.len() == 0 {
        out.append("let () = req;\n");
    } else {
        out.append("let (");
        let names = arg_names(&m.params);
        out.append(names.as_str());
        out.append(",) = req;\n");
    }
    out.append("let resp = self.");
    out.append(m.name.as_str());
    out.append("(");
    let names2 = arg_names(&m.params);
    out.append(names2.as_str());
    out.append(
        ");\nlet f = sink.success(resp).map_err(move |e| ::tracing::error!(\"failed to reply {:?}\", e)).map(|_| ());\nctx.spawn(f)\n}\n",
    );
    proof {
        assert(out@ =~= spec_grpc_method_impl(vis, m@));
    }
    out
}

fn arg_names(params: &Vec<Param>) -> (r: String)
    ensures
        r@ == spec_arg_names(params@.map_values(|p: Param| p@), params@.len() as int),
{
    let ghost gp = params@.map_values(|p: Param| p@);
    let mut out = String::new();
    let mut i: usize = 0;
    while i < params.len()
        invariant
            i <= params@.len(),
            gp == params@.map_values(|p: Param| p@),
            out@ == spec_arg_names(gp, i as int),
        decreases params@.len() - i,
    {
        if i > 0 {
            out.append(", ");
        }
        out.append(params[i].name.as_str());
        proof {
            assert(gp[i as int] == params@[i as int]@);
            assert(out@ =~= spec_arg_names(gp, i as int + 1));
        }
        i = i + 1;
    }
    out
}

/// Parses one authored method signature from a token list covering exactly
/// the text before the body's opening brace.
fn parse_impl_sig(ts: &Vec<Token>) -> (r: Result<(Visibility, MethodDescriptor), GenError>)
    ensures
        match r {
            Ok((v, m)) => spec_parse_impl_sig(toks_of(ts@)) == Some((SigSchema { vis: v, m: m@ })),
            Err(_) => spec_parse_impl_sig(toks_of(ts@)) is None,
        },
{
    let ghost tsv = toks_of(ts@);
    let nlen = ts.len();
    proof {
        lemma_toks_len(ts@);
    }
    let (attrs, i1) = parse_attrs(ts, 0);
    let (vis, i2) = match parse_vis(ts, i1) {
        Ok(t) => t,
        Err(e) => {
            return Err(e);
        },
    };
    if !tok_is_kw(ts, i2, "fn") {
        return Err(GenError::MalformedDeclaration);
    }
    if i2 + 1 >= nlen {
        return Err(GenError::MalformedDeclaration);
    }
    let name = match tok_ident(ts, i2 + 1) {
        Some(n) => n,
        None => {
            return Err(GenError::MalformedDeclaration);
        },
    };
    if !validate_ident(name.as_str()) {
        return Err(GenError::MalformedDeclaration);
    }
    if !tok_is_punct(ts, i2 + 2, '(') {
        return Err(GenError::MalformedDeclaration);
    }
    let (seen, params, i3) = match parse_args(ts, i2 + 3) {
        Ok(t) => t,
        Err(e) => {
            return Err(e);
        },
    };
    let by_ref = match seen {
        Some(b) => b,
        None => {
            return Err(GenError::MissingReceiver);
        },
    };
    if i3 == nlen {
        let m = MethodDescriptor { attrs, name, params, ret: None, by_ref };
        proof {
            let sg = spec_parse_impl_sig(tsv)->Some_0;
            assert(m@ =~= sg.m);
            assert(spec_parse_impl_sig(tsv) == Some(SigSchema { vis, m: m@ }));
        }
        return Ok((vis, m));
    }
    if tok_is_punct(ts, i3, '-') && tok_is_punct(ts, i3 + 1, '>') && i3 + 2 < nlen {
        let ty = crate::parser::render_toks(ts, i3 + 2, nlen);
        if ty.unicode_len() == 0 {
            return Err(GenError::MalformedDeclaration);
        }
        let m = MethodDescriptor { attrs, name, params, ret: Some(ty), by_ref };
        proof {
            let sg = spec_parse_impl_sig(tsv)->Some_0;
            assert(m@ =~= sg.m);
            assert(spec_parse_impl_sig(tsv) == Some(SigSchema { vis, m: m@ }));
        }
        Ok((vis, m))
    } else {
        Err(GenError::MalformedDeclaration)
    }
}

/// Scans forward over whitespace.
fn skip_ws(src: &str, i: usize) -> (r: usize)
    requires
        i <= src@.len(),
    ensures
        r as int == ws_end(src@, i as int),
        i <= r <= src@.len(),
{
    let n = src.unicode_len();
    let mut j: usize = i;
    while j < n && space_char(src.get_char(j))
        invariant
            n == src@.len(),
            i <= j <= n,
            ws_end(src@, i as int) == ws_end(src@, j as int),
        decreases n - j,
    {
        j = j + 1;
    }
    proof {
        assert(ws_end(src@, j as int) == j as int);
    }
    j
}

/// Scans forward to the first opening brace.
fn find_brace_open(src: &str, i: usize) -> (r: Option<usize>)
    requires
        i <= src@.len(),
    ensures
        match r {
            Some(o) => brace_open(src@, i as int) == Some(o as int) && i <= o < src@.len(),
            None => brace_open(src@, i as int) is None,
        },
{
    let n = src.unicode_len();
    let mut j: usize = i;
    while j < n
        invariant
            n == src@.len(),
            i <= j <= n,
            brace_open(src@, i as int) == brace_open(src@, j as int),
        decreases n - j,
    {
        if src.get_char(j) == '{' {
            return Some(j);
        }
        j = j + 1;
    }
    None
}

/// Scans forward to the matching closing brace.
fn find_brace_close(src: &str, i: usize) -> (r: Option<usize>)
    requires
        i <= src@.len(),
    ensures
        match r {
            Some(c) => brace_close(src@, i as int, 0) == Some(c as int) && i <= c < src@.len(),
            None => brace_close(src@, i as int, 0) is None,
        },
{
    let n = src.unicode_len();
    let mut j: usize = i;
    let mut d: usize = 0;
    while j < n
        invariant
            n == src@.len(),
            i <= j <= n,
            d <= j,
            brace_close(src@, i as int, 0) == brace_close(src@, j as int, d as int),
        decreases n - j,
    {
        let c = src.get_char(j);
        if c == '}' {
            if d == 0 {
                return Some(j);
            }
            d = d - 1;
        } else if c == '{' {
            d = d + 1;
        }
        j = j + 1;
    }
    None
}

/// Expands an annotated implementation block: re-emits the authored text
/// unchanged and appends one synthesized transport-facing method per
/// authored business method, before the closing brace.
pub fn server(src: &str) -> (r: Result<String, GenError>)
    ensures
        match r {
            Ok(out) => spec_server(src@) == Some(out@),
            Err(_) => spec_server(src@) is None,
        },
{
    let n = src.unicode_len();
    let o = match find_brace_open(src, 0) {
        Some(o) => o,
        None => {
            return Err(GenError::MalformedDeclaration);
        },
    };
    let header = src.substring_char(0, o);
    let htoks = match tokenize(header) {
        Ok(t) => t,
        Err(e) => {
            return Err(e);
        },
    };
    let (_hattrs, h1) = parse_attrs(&htoks, 0);
    if !tok_is_kw(&htoks, h1, "impl") {
        return Err(GenError::MalformedDeclaration);
    }
    let ghost sv = src@;
    let mut sigs: Vec<(Visibility, MethodDescriptor)> = Vec::new();
    let mut i: usize = o + 1;
    let ghost start0 = o + 1;
    loop
        invariant
            o + 1 <= i <= sv.len(),
            sv == src@,
            n == sv.len(),
            start0 == o + 1,
            brace_open(sv, 0) == Some(o as int),
            spec_tokenize(sv.subrange(0, o as int), 0) is Some,
            header_ok(spec_tokenize(sv.subrange(0, o as int), 0)->Some_0),
            spec_scan_items(sv, start0 as int) == (match spec_scan_items(sv, i as int) {
                Some((rest, p)) => Some(
                    (
                        sigs@.map_values(
                            |t: (Visibility, MethodDescriptor)| (SigSchema { vis: t.0, m: t.1@ }),
                        ) + rest,
                        p,
                    ),
                ),
                None => None,
            }),
        decreases sv.len() - i,
    {
        let ghost sigv = sigs@.map_values(
            |t: (Visibility, MethodDescriptor)| SigSchema { vis: t.0, m: t.1@ },
        );
        let k = skip_ws(src, i);
        if k >= n {
            proof {
                assert(spec_scan_items(sv, i as int) is None);
            }
            return Err(GenError::MalformedDeclaration);
        }
        if src.get_char(k) == '}' {
            // end of the block: check only whitespace follows
            let t = skip_ws(src, k + 1);
            if t != n {
                return Err(GenError::MalformedDeclaration);
            }
            proof {
                assert(spec_scan_items(sv, i as int) == Some((Seq::<SigSchema>::empty(), k as int)));
                assert(sigv + Seq::<SigSchema>::empty() =~= sigv);
            }
            // assemble the output
            let mut out = String::from_str(src.substring_char(0, k));
            let mut q: usize = 0;
            let ghost allsigs = spec_scan_items(sv, start0 as int)->Some_0.0;
            proof {
                assert(allsigs =~= sigv);
            }
            while q < sigs.len()
                invariant
                    q <= sigs@.len(),
                    allsigs == sigs@.map_values(
                        |t: (Visibility, MethodDescriptor)| (SigSchema { vis: t.0, m: t.1@ }),
                    ),
                    out@ == sv.subrange(0, k as int) + spec_synths_upto(allsigs, q as int),
                    k < sv.len(),
                decreases sigs@.len() - q,
            {
                let g = grpc_method_impl(sigs[q].0, &sigs[q].1);
                out.append(g.as_str());
                proof {
                    assert(allsigs[q as int].vis == sigs@[q as int].0);
                    assert(allsigs[q as int].m == sigs@[q as int].1@);
                    assert(out@ =~= sv.subrange(0, k as int) + spec_synths_upto(
                        allsigs,
                        q as int + 1,
                    ));
                }
                q = q + 1;
            }
            out.append("}");
            proof {
                assert(out@ =~= spec_server(sv)->Some_0);
                assert(spec_server(sv) == Some(out@));
            }
            return Ok(out);
        }
        // an item: signature up to the body's opening brace, then the body
        let ob = match find_brace_open(src, k) {
            Some(ob) => ob,
            None => {
                proof {
                    assert(spec_scan_items(sv, i as int) is None);
                }
                return Err(GenError::MalformedDeclaration);
            },
        };
        if ob <= k {
            proof {
                assert(sv.subrange(k as int, k as int) =~= Seq::<char>::empty());
                assert(spec_tokenize(sv.subrange(k as int, k as int), 0) == Some(
                    Seq::<Tok>::empty(),
                ));
                assert(spec_parse_impl_sig(Seq::<Tok>::empty()) is None);
                assert(spec_scan_items(sv, i as int) is None);
            }
            return Err(GenError::MalformedDeclaration);
        }
        let sig_text = src.substring_char(k, ob);
        let stoks = match tokenize(sig_text) {
            Ok(t) => t,
            Err(e) => {
                proof {
                    assert(spec_scan_items(sv, i as int) is None);
                }
                return Err(e);
            },
        };
        let (vis, m) = match parse_impl_sig(&stoks) {
            Ok(t) => t,
            Err(e) => {
                proof {
                    assert(spec_scan_items(sv, i as int) is None);
                }
                return Err(e);
            },
        };
        let c = match find_brace_close(src, ob + 1) {
            Some(c) => c,
            None => {
                proof {
                    assert(spec_scan_items(sv, i as int) is None);
                }
                return Err(GenError::MalformedDeclaration);
            },
        };
        let ghost gsig = SigSchema { vis, m: m@ };
        sigs.push((vis, m));
        proof {
            let newv = sigs@.map_values(
                |t: (Visibility, MethodDescriptor)| SigSchema { vis: t.0, m: t.1@ },
            );
            assert(newv =~= sigv.push(gsig));
            if spec_scan_items(sv, c as int + 1) is Some {
                let (rest, p) = spec_scan_items(sv, c as int + 1)->Some_0;
                assert(spec_scan_items(sv, i as int) == Some((seq![gsig] + rest, p)));
                assert(sigv + (seq![gsig] + rest) =~= sigv.push(gsig) + rest);
            } else {
                assert(spec_scan_items(sv, i as int) is None);
            }
        }
        i = c + 1;
    }
}

} // verus!
